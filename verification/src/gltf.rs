//! glTF physics extensions: locating the extension entries by name, and binding
//! the colliders that nodes request to the entities spawned for those nodes.

use vstd::prelude::*;
use vstd::string::StringExecFns;

verus! {

/// Name of the rigid-body extension of the glTF physics proposal.
pub const KHR_PHYSICS_RIGID_BODIES: &'static str = "khr_physics_rigid_bodies";

/// Name of the implicit-shapes extension of the glTF physics proposal.
pub const KHR_IMPLICIT_SHAPES: &'static str = "khr_implicit_shapes";

/// The code of `c` after ASCII lowercasing: `A`..=`Z` map to `a`..=`z`, all else is kept.
pub open spec fn ascii_lower_code(c: char) -> u32 {
    if 'A' <= c && c <= 'Z' {
        (c as u32 + 32) as u32
    } else {
        c as u32
    }
}

/// Whether `a` and `b` are equal ignoring ASCII case.
pub open spec fn ascii_case_eq(a: Seq<char>, b: Seq<char>) -> bool {
    &&& a.len() == b.len()
    &&& forall|i: int| 0 <= i < a.len() ==> ascii_lower_code(#[trigger] a[i]) == ascii_lower_code(b[i])
}

fn lower_code(c: char) -> (r: u32)
    ensures
        r == ascii_lower_code(c),
{
    if 'A' <= c && c <= 'Z' {
        c as u32 + 32
    } else {
        c as u32
    }
}

/// Whether `a` and `b` are equal ignoring ASCII case.
pub fn eq_ignore_ascii_case(a: &str, b: &str) -> (r: bool)
    ensures
        r == ascii_case_eq(a@, b@),
{
    let x = crate::text::chars_of(a);
    let y = crate::text::chars_of(b);
    if x.len() != y.len() {
        return false;
    }
    let n = x.len();
    for i in 0..n
        invariant
            n == x@.len(),
            n == y@.len(),
            x@ == a@,
            y@ == b@,
            forall|j: int| 0 <= j < i ==> ascii_lower_code(#[trigger] x@[j]) == ascii_lower_code(y@[j]),
    {
        if lower_code(x[i]) != lower_code(y[i]) {
            return false;
        }
    }
    true
}

/// Equality ignoring ASCII case is an equivalence: every text equals itself, and the
/// order of the two texts does not matter, nor does a chain of them.
pub proof fn ascii_case_eq_is_equivalence(a: Seq<char>, b: Seq<char>, c: Seq<char>)
    ensures
        ascii_case_eq(a, a),
        ascii_case_eq(a, b) == ascii_case_eq(b, a),
        ascii_case_eq(a, b) && ascii_case_eq(b, c) ==> ascii_case_eq(a, c),
{
}

/// The position of the first key equal to `name` ignoring ASCII case.
pub open spec fn spec_find_extension(keys: Seq<String>, name: Seq<char>) -> Option<usize>
    decreases keys.len(),
{
    if keys.len() == 0 {
        None
    } else {
        match spec_find_extension(keys.drop_last(), name) {
            Some(i) => Some(i),
            None => if ascii_case_eq(keys.last()@, name) {
                Some((keys.len() - 1) as usize)
            } else {
                None
            },
        }
    }
}

/// The position of the first extension key that equals `name` ignoring ASCII case.
pub fn find_extension(keys: &Vec<String>, name: &str) -> (r: Option<usize>)
    ensures
        r == spec_find_extension(keys@, name@),
        r matches Some(i) ==> i < keys@.len() && ascii_case_eq(keys@[i as int]@, name@),
{
    let n = keys.len();
    for i in 0..n
        invariant
            n == keys@.len(),
            spec_find_extension(keys@.take(i as int), name@) is None,
    {
        assert(keys@.take(i + 1).drop_last() =~= keys@.take(i as int));
        if eq_ignore_ascii_case(keys[i].as_str(), name) {
            proof {
                lemma_find_extension_prefix(keys@, name@, i + 1);
            }
            return Some(i);
        }
    }
    assert(keys@.take(n as int) =~= keys@);
    None
}

/// A match in a prefix is the first match of the whole sequence.
proof fn lemma_find_extension_prefix(keys: Seq<String>, name: Seq<char>, k: int)
    requires
        0 <= k <= keys.len(),
        spec_find_extension(keys.take(k), name) is Some,
    ensures
        spec_find_extension(keys, name) == spec_find_extension(keys.take(k), name),
    decreases keys.len() - k,
{
    if k < keys.len() {
        assert(keys.take(k + 1).drop_last() =~= keys.take(k));
        lemma_find_extension_prefix(keys, name, k + 1);
    } else {
        assert(keys.take(k) =~= keys);
    }
}

/// Why the physics extensions of a glTF file could not be located.
#[derive(Debug, Clone, Copy, PartialEq, Eq, Structural)]
pub enum PhysicsExtensionError {
    /// The file has no extensions at all.
    NoExtensions,
    /// No extension is named like the rigid-body extension.
    MissingRigidBodies,
    /// No extension is named like the implicit-shapes extension.
    MissingImplicitShapes,
}

/// The message of a physics-extension error. A missing extension's message is followed
/// by the file's extensions as they print.
pub open spec fn physics_extension_error_message(e: PhysicsExtensionError) -> Seq<char> {
    match e {
        PhysicsExtensionError::NoExtensions => "gltf external extensions evaluated to none"@,
        _ => "could not find khr_physics_rigid_bodies in extensions: "@,
    }
}

impl PhysicsExtensionError {
    /// The message of this error; for a missing extension, the text before the file's
    /// extensions are printed.
    pub fn message(&self) -> (m: String)
        ensures
            m@ == physics_extension_error_message(*self),
    {
        match self {
            PhysicsExtensionError::NoExtensions => String::from_str("gltf external extensions evaluated to none"),
            _ => String::from_str("could not find khr_physics_rigid_bodies in extensions: "),
        }
    }
}

/// Where the physics extensions of a glTF file sit.
#[derive(Debug, Clone)]
pub struct PhysicsExtensionIndex {
    /// Position of the rigid-body extension among the file's extensions.
    pub rigid_bodies: usize,
    /// Position of the implicit-shapes extension among the file's extensions.
    pub implicit_shapes: usize,
    /// For each node that carries the rigid-body extension, in order: the node's
    /// position, and the position of that extension among the node's extensions.
    pub nodes: Vec<(usize, usize)>,
}

/// The nodes among the first `k` that carry the rigid-body extension.
pub open spec fn physics_nodes(nodes: Seq<Option<Vec<String>>>, k: int) -> Seq<(usize, usize)>
    decreases k,
{
    if k <= 0 {
        Seq::empty()
    } else {
        let rest = physics_nodes(nodes, k - 1);
        match nodes[k - 1] {
            Some(keys) => match spec_find_extension(keys@, KHR_PHYSICS_RIGID_BODIES@) {
                Some(j) => rest.push(((k - 1) as usize, j)),
                None => rest,
            },
            None => rest,
        }
    }
}

/// Locates the physics extensions of a glTF file: `extension_keys` are the names of the
/// file's extensions (`None` when it has none) and `node_extension_keys` the names of
/// each node's extensions, in node order.
pub fn parse_gltf_physics(
    extension_keys: &Option<Vec<String>>,
    node_extension_keys: &Vec<Option<Vec<String>>>,
) -> (r: Result<PhysicsExtensionIndex, PhysicsExtensionError>)
    ensures
        extension_keys is None ==> r == Err::<PhysicsExtensionIndex, _>(PhysicsExtensionError::NoExtensions),
        extension_keys matches Some(keys) ==> {
            let rb = spec_find_extension(keys@, KHR_PHYSICS_RIGID_BODIES@);
            let shapes = spec_find_extension(keys@, KHR_IMPLICIT_SHAPES@);
            &&& rb is None ==> r == Err::<PhysicsExtensionIndex, _>(PhysicsExtensionError::MissingRigidBodies)
            &&& rb is Some && shapes is None
                ==> r == Err::<PhysicsExtensionIndex, _>(PhysicsExtensionError::MissingImplicitShapes)
            &&& rb is Some && shapes is Some ==> (r matches Ok(index) && {
                &&& Some(index.rigid_bodies) == rb
                &&& Some(index.implicit_shapes) == shapes
                &&& index.nodes@ == physics_nodes(node_extension_keys@, node_extension_keys@.len() as int)
            })
        },
{
    let keys = match extension_keys {
        Some(keys) => keys,
        None => {
            return Err(PhysicsExtensionError::NoExtensions);
        },
    };
    let rigid_bodies = match find_extension(keys, KHR_PHYSICS_RIGID_BODIES) {
        Some(i) => i,
        None => {
            return Err(PhysicsExtensionError::MissingRigidBodies);
        },
    };
    let implicit_shapes = match find_extension(keys, KHR_IMPLICIT_SHAPES) {
        Some(i) => i,
        None => {
            return Err(PhysicsExtensionError::MissingImplicitShapes);
        },
    };
    let mut nodes: Vec<(usize, usize)> = Vec::new();
    let n = node_extension_keys.len();
    for p in 0..n
        invariant
            n == node_extension_keys@.len(),
            nodes@ == physics_nodes(node_extension_keys@, p as int),
    {
        match &node_extension_keys[p] {
            None => {},
            Some(node_keys) => {
                match find_extension(node_keys, KHR_PHYSICS_RIGID_BODIES) {
                    Some(j) => {
                        nodes.push((p, j));
                    },
                    None => {},
                }
            },
        }
    }
    Ok(PhysicsExtensionIndex { rigid_bodies, implicit_shapes, nodes })
}

/// The index of a glTF node.
#[derive(Debug, Clone, Copy, PartialEq, Eq, Structural)]
pub struct NodeId(pub usize);

/// An entity spawned for a glTF node.
#[derive(Debug, Clone, Copy, PartialEq, Eq, Structural)]
pub struct PhysicsNode {
    pub entity: u64,
    pub assembly: i64,
    pub node_id: NodeId,
}

/// The first entity of assembly `assembly` spawned for node `node_id`.
pub open spec fn first_node_entity(nodes: Seq<PhysicsNode>, assembly: i64, node_id: usize) -> Option<u64>
    decreases nodes.len(),
{
    if nodes.len() == 0 {
        None
    } else {
        match first_node_entity(nodes.drop_last(), assembly, node_id) {
            Some(e) => Some(e),
            None => if nodes.last().assembly == assembly && nodes.last().node_id.0 == node_id {
                Some(nodes.last().entity)
            } else {
                None
            },
        }
    }
}

/// A match in a prefix is the first match of the whole sequence.
proof fn lemma_first_node_prefix(nodes: Seq<PhysicsNode>, assembly: i64, node_id: usize, k: int)
    requires
        0 <= k <= nodes.len(),
        first_node_entity(nodes.take(k), assembly, node_id) is Some,
    ensures
        first_node_entity(nodes, assembly, node_id) == first_node_entity(nodes.take(k), assembly, node_id),
    decreases nodes.len() - k,
{
    if k < nodes.len() {
        assert(nodes.take(k + 1).drop_last() =~= nodes.take(k));
        lemma_first_node_prefix(nodes, assembly, node_id, k + 1);
    } else {
        assert(nodes.take(k) =~= nodes);
    }
}

fn find_node_entity(nodes: &Vec<PhysicsNode>, assembly: i64, node_id: usize) -> (r: Option<u64>)
    ensures
        r == first_node_entity(nodes@, assembly, node_id),
{
    let n = nodes.len();
    for i in 0..n
        invariant
            n == nodes@.len(),
            first_node_entity(nodes@.take(i as int), assembly, node_id) is None,
    {
        assert(nodes@.take(i + 1).drop_last() =~= nodes@.take(i as int));
        let node = nodes[i];
        if node.assembly == assembly && node.node_id.0 == node_id {
            proof {
                lemma_first_node_prefix(nodes@, assembly, node_id, i + 1);
            }
            return Some(node.entity);
        }
    }
    assert(nodes@.take(n as int) =~= nodes@);
    None
}

/// The colliders that one node-physics request puts on entities.
pub struct PhysicsBinding {
    /// (entity, position of its shape among the implicit shapes), in request order.
    pub bindings: Vec<(u64, usize)>,
    /// Whether every entry of the request was bound; only then is the request removed.
    pub complete: bool,
}

/// Binds the entries (node id, shape position) of a node-physics request of assembly
/// `assembly` to the entities spawned for those nodes, in order, stopping at the first
/// entry whose node has no entity or whose shape position is not below `shape_count`.
pub fn bind_physics(
    requested: &Vec<(usize, usize)>,
    nodes: &Vec<PhysicsNode>,
    assembly: i64,
    shape_count: usize,
) -> (r: PhysicsBinding)
    ensures
        r.bindings@.len() <= requested@.len(),
        r.complete == (r.bindings@.len() == requested@.len()),
        forall|i: int| 0 <= i < r.bindings@.len() ==> {
            &&& first_node_entity(nodes@, assembly, requested@[i].0) == Some((#[trigger] r.bindings@[i]).0)
            &&& r.bindings@[i].1 == requested@[i].1
            &&& requested@[i].1 < shape_count
        },
        !r.complete ==> {
            let (node_id, shape) = requested@[r.bindings@.len() as int];
            first_node_entity(nodes@, assembly, node_id) is None || shape >= shape_count
        },
{
    let mut bindings: Vec<(u64, usize)> = Vec::new();
    let n = requested.len();
    for i in 0..n
        invariant
            n == requested@.len(),
            bindings@.len() == i,
            forall|j: int| 0 <= j < i ==> {
                &&& first_node_entity(nodes@, assembly, requested@[j].0) == Some((#[trigger] bindings@[j]).0)
                &&& bindings@[j].1 == requested@[j].1
                &&& requested@[j].1 < shape_count
            },
    {
        let node_id = requested[i].0;
        let shape = requested[i].1;
        let found = find_node_entity(nodes, assembly, node_id);
        match found {
            Some(entity) if shape < shape_count => {
                bindings.push((entity, shape));
            },
            _ => {
                return PhysicsBinding { bindings, complete: false };
            },
        }
    }
    PhysicsBinding { bindings, complete: true }
}

/// The position of the first node that has children, among the first `k`.
pub open spec fn first_parent_node(child_counts: Seq<usize>, k: int) -> Option<int>
    decreases k,
{
    if k <= 0 {
        None
    } else {
        match first_parent_node(child_counts, k - 1) {
            Some(i) => Some(i),
            None => if child_counts[k - 1] > 0 {
                Some(k - 1)
            } else {
                None
            },
        }
    }
}

/// The name given to a disassembled glTF model: the name of its root node, the first
/// node that has children, or the empty name when that node has none. `child_counts`
/// and `names` describe the file's nodes in order; some node must have children.
pub fn gltf_model_name(child_counts: &Vec<usize>, names: &Vec<Option<String>>) -> (r: String)
    requires
        child_counts@.len() == names@.len(),
        exists|i: int| 0 <= i < child_counts@.len() && #[trigger] child_counts@[i] > 0,
    ensures
        first_parent_node(child_counts@, child_counts@.len() as int) is Some,
        ({
            let i = first_parent_node(child_counts@, child_counts@.len() as int)->0;
            &&& 0 <= i < child_counts@.len()
            &&& child_counts@[i] > 0
            &&& names@[i] matches Some(n) ==> r@ == n@
            &&& names@[i] is None ==> r@ == Seq::<char>::empty()
        }),
{
    let n = child_counts.len();
    let mut i: usize = 0;
    while i < n
        invariant
            n == child_counts@.len(),
            n == names@.len(),
            i <= n,
            first_parent_node(child_counts@, i as int) is None,
            forall|j: int| 0 <= j < i ==> child_counts@[j] == 0,
            exists|j: int| 0 <= j < child_counts@.len() && #[trigger] child_counts@[j] > 0,
        decreases n - i,
    {
        if child_counts[i] > 0 {
            proof {
                lemma_first_parent_node_stays(child_counts@, i as int + 1, n as int);
            }
            return match &names[i] {
                Some(name) => name.clone(),
                None => String::new(),
            };
        }
        i = i + 1;
    }
    proof {
        let j = choose|j: int| 0 <= j < child_counts@.len() && #[trigger] child_counts@[j] > 0;
        assert(child_counts@[j] == 0);
    }
    String::new()
}

/// Once a node with children is among the first `k`, looking at more nodes finds the same one.
proof fn lemma_first_parent_node_stays(child_counts: Seq<usize>, k: int, m: int)
    requires
        0 <= k <= m,
        first_parent_node(child_counts, k) is Some,
    ensures
        first_parent_node(child_counts, m) == first_parent_node(child_counts, k),
    decreases m - k,
{
    if k < m {
        lemma_first_parent_node_stays(child_counts, k, m - 1);
    }
}

/// How the children of a glTF mesh or of a node's children are placed: split off when
/// the settings say so, and then taking the parent's transform.
pub fn gltf_children_split(settings: crate::assembly::DisassembleSettings) -> (s: crate::assembly::Split)
    ensures
        s.split == settings.split,
        s.inheriet_transform,
{
    crate::assembly::Split { split: settings.split, inheriet_transform: true }
}

/// What a glTF mesh disassembled as a single physics primitive becomes: its only
/// primitive (none when it has several or none), and the collider that its extras
/// request, convex when it has no extras.
#[derive(Debug, Clone, Copy, PartialEq, Eq, Structural)]
pub struct PhysicsPrimitivePlan {
    pub primitive: Option<usize>,
    pub collider: crate::colliders::RequestCollider,
}

/// A glTF mesh that stands for one physics body: how many primitives it has, and its
/// extras, if any.
#[derive(Debug, Clone, PartialEq)]
pub struct GltfPhysicsMeshPrimitive {
    pub primitive_count: usize,
    pub extras: Option<String>,
}

impl GltfPhysicsMeshPrimitive {
    /// The primitive and collider request that this mesh disassembles into.
    pub fn components(&self) -> (p: PhysicsPrimitivePlan)
        ensures
            p.primitive == (if self.primitive_count == 1 { Some(0usize) } else { None::<usize> }),
            p.collider == crate::colliders::spec_collider_request_for_extras(self.extras),
    {
        let primitive = if self.primitive_count > 1 {
            None
        } else if self.primitive_count == 1 {
            Some(0)
        } else {
            None
        };
        PhysicsPrimitivePlan { primitive, collider: crate::colliders::collider_request_for_extras(&self.extras) }
    }
}

} // verus!
