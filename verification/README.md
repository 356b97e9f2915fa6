# bevy_serialization_extras

Component-oriented serialization: serializable wrappers for engine components, and
the rules that turn groups of entities into assets (URDF robots, glTF models) and back.

- `src/` is the verified library. Each module states its behaviour in contracts over
  plain models (bit masks, names, entity ids as integers) and proves it:
  `axes` and `groups` (joint and group bit masks), `flags` and `colliders` (physics
  flags and their engine counterparts), `text` (extras and mesh-path parsing),
  `gltf` and `khr` (glTF physics extensions), `urdf` and `joints` (reading robots,
  pairing links with joints, binding joints to parents, assembling joints back),
  `assembly` and `staging` (assembly bookkeeping, staged components, proxy systems),
  `sync` (keeping components and wrappers in step) and `resources`.
- `tests/` runs the library on concrete values.
- `app/` holds what stays outside the proofs: floating-point geometry, serde forms of
  the glTF extensions, and URDF transforms and geometry.
