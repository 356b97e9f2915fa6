//! Collider requests and mesh-collider flags.

use vstd::prelude::*;
use crate::text::{
    after_last_colon, chars_eq, is_brace_or_quote, last_colon_segment_unquoted, lemma_after_colon,
    lemma_strip_all, lemma_strip_concat, lemma_strip_plain, strip_braces_quotes,
};

verus! {

/// A request to approximate a collider from the geometry of an entity.
#[derive(Debug, Clone, Copy, PartialEq, Eq, Structural)]
pub enum RequestCollider {
    Cuboid,
    Wheel,
    Convex,
    Sphere,
}

impl Default for RequestCollider {
    fn default() -> (r: Self)
        ensures
            r == RequestCollider::Cuboid,
    {
        RequestCollider::Cuboid
    }
}

/// The lowercase name of a request, as written in an extras attribute.
pub open spec fn request_collider_name(r: RequestCollider) -> Seq<char> {
    match r {
        RequestCollider::Cuboid => seq!['c', 'u', 'b', 'o', 'i', 'd'],
        RequestCollider::Wheel => seq!['w', 'h', 'e', 'e', 'l'],
        RequestCollider::Convex => seq!['c', 'o', 'n', 'v', 'e', 'x'],
        RequestCollider::Sphere => seq!['s', 'p', 'h', 'e', 'r', 'e'],
    }
}

/// The request that a parsed extras value names; the default request when it names none.
pub open spec fn request_collider_for_target(t: Seq<char>) -> RequestCollider {
    if t == request_collider_name(RequestCollider::Cuboid) {
        RequestCollider::Cuboid
    } else if t == request_collider_name(RequestCollider::Wheel) {
        RequestCollider::Wheel
    } else if t == request_collider_name(RequestCollider::Convex) {
        RequestCollider::Convex
    } else if t == request_collider_name(RequestCollider::Sphere) {
        RequestCollider::Sphere
    } else {
        RequestCollider::Cuboid
    }
}

/// The collider that an extras value asks for: braces and quotes are dropped, and the
/// text after the last `:` is matched against the lowercase names of the requests.
pub open spec fn spec_gltf_collider_request(extras: Seq<char>) -> RequestCollider {
    request_collider_for_target(after_last_colon(strip_braces_quotes(extras)))
}


/// The names of the requests hold no brace, quote or colon.
proof fn lemma_request_name_plain(r: RequestCollider)
    ensures
        forall|i: int| 0 <= i < request_collider_name(r).len()
            ==> !is_brace_or_quote(#[trigger] request_collider_name(r)[i]) && request_collider_name(r)[i] != ':',
{
}

/// Each request's lowercase name, as the value of any key in an extras attribute,
/// asks for that request: `key:name` followed by any closing braces and quotes (such as
/// `{"collider":"sphere"}`) gives the request named.
pub proof fn gltf_collider_request_reads_name(key: Seq<char>, r: RequestCollider, closing: Seq<char>)
    requires
        forall|i: int| 0 <= i < closing.len() ==> is_brace_or_quote(#[trigger] closing[i]),
    ensures
        spec_gltf_collider_request(key.push(':') + request_collider_name(r) + closing) == r,
{
    let name = request_collider_name(r);
    lemma_request_name_plain(r);
    lemma_strip_concat(key.push(':') + name, closing);
    lemma_strip_concat(key.push(':'), name);
    lemma_strip_concat(key, seq![':']);
    assert(key.push(':') =~= key + seq![':']);
    lemma_strip_plain(seq![':']);
    lemma_strip_plain(name);
    lemma_strip_all(closing);
    let stripped = strip_braces_quotes(key).push(':') + name;
    assert(strip_braces_quotes(key.push(':') + name + closing) =~= stripped);
    lemma_after_colon(strip_braces_quotes(key), name);
}

impl RequestCollider {
    /// Every request, in declaration order.
    pub fn variants() -> (v: Vec<RequestCollider>)
        ensures
            v@ == seq![
                RequestCollider::Cuboid,
                RequestCollider::Wheel,
                RequestCollider::Convex,
                RequestCollider::Sphere,
            ],
    {
        vec![
            RequestCollider::Cuboid,
            RequestCollider::Wheel,
            RequestCollider::Convex,
            RequestCollider::Sphere,
        ]
    }

    /// The lowercase name of this request.
    pub fn lowercase_name(&self) -> (n: Vec<char>)
        ensures
            n@ == request_collider_name(*self),
    {
        let n = match self {
            RequestCollider::Cuboid => vec!['c', 'u', 'b', 'o', 'i', 'd'],
            RequestCollider::Wheel => vec!['w', 'h', 'e', 'e', 'l'],
            RequestCollider::Convex => vec!['c', 'o', 'n', 'v', 'e', 'x'],
            RequestCollider::Sphere => vec!['s', 'p', 'h', 'e', 'r', 'e'],
        };
        assert(n@ =~= request_collider_name(*self));
        n
    }
}

/// The collider requested by the value of a glTF extras attribute, such as
/// `{"collider":"sphere"}`; the default request when the value names none.
pub fn gltf_collider_request(extras: &str) -> (r: RequestCollider)
    ensures
        r == spec_gltf_collider_request(extras@),
{
    let target = last_colon_segment_unquoted(extras);
    let variants = RequestCollider::variants();
    let n = variants.len();
    for i in 0..n
        invariant
            n == variants.len(),
            variants@ == seq![
                RequestCollider::Cuboid,
                RequestCollider::Wheel,
                RequestCollider::Convex,
                RequestCollider::Sphere,
            ],
            target@ == after_last_colon(strip_braces_quotes(extras@)),
            forall|j: int| 0 <= j < i ==> target@ != request_collider_name(#[trigger] variants@[j]),
    {
        let variant = variants[i];
        let name = variant.lowercase_name();
        if chars_eq(&target, &name) {
            proof {
                assert(i == 0 ==> variant == RequestCollider::Cuboid);
                assert(i == 1 ==> target@ != request_collider_name(variants@[0]));
                assert(i == 2 ==> target@ != request_collider_name(variants@[1]));
                assert(i == 3 ==> target@ != request_collider_name(variants@[2]));
            }
            return variant;
        }
    }
    proof {
        assert(target@ != request_collider_name(variants@[0]));
        assert(target@ != request_collider_name(variants@[1]));
        assert(target@ != request_collider_name(variants@[2]));
        assert(target@ != request_collider_name(variants@[3]));
    }
    RequestCollider::default()
}

/// The collider that a glTF node or mesh requests: the one its extras name, or a
/// convex collider when it has no extras.
pub open spec fn spec_collider_request_for_extras(extras: Option<String>) -> RequestCollider {
    match extras {
        Some(e) => spec_gltf_collider_request(e@),
        None => RequestCollider::Convex,
    }
}

/// The collider that a glTF node or mesh with extras `extras` requests.
pub fn collider_request_for_extras(extras: &Option<String>) -> (r: RequestCollider)
    ensures
        r == spec_collider_request_for_extras(*extras),
{
    match extras {
        Some(e) => gltf_collider_request(e.as_str()),
        None => RequestCollider::Convex,
    }
}

/// How a collider is computed from a mesh.
#[derive(Debug, Clone, Copy, PartialEq, Eq, Structural)]
pub enum ColliderShapeKind {
    /// A triangle mesh of the mesh's faces.
    TriMesh,
    /// The convex hull of the mesh's vertices.
    ConvexHull,
    /// A decomposition of the mesh into convex parts.
    ConvexDecomposition,
}

/// Serializable wrapper for colliders computed from meshes.
#[derive(Debug, Clone, Copy, PartialEq, Eq, Structural)]
pub enum AsyncColliderFlag {
    /// laggy: no internal geometry (will clip through things)
    Trimesh,
    /// fast: accurate assuming mesh geometry is convex, inaccurate otherwise.
    Convex,
}

impl Default for AsyncColliderFlag {
    fn default() -> (f: Self)
        ensures
            f == AsyncColliderFlag::Convex,
    {
        AsyncColliderFlag::Convex
    }
}

/// The shape of the engine's mesh collider for a flag.
pub open spec fn spec_collider_shape(f: AsyncColliderFlag) -> ColliderShapeKind {
    match f {
        AsyncColliderFlag::Trimesh => ColliderShapeKind::TriMesh,
        AsyncColliderFlag::Convex => ColliderShapeKind::ConvexHull,
    }
}

impl From<&ColliderShapeKind> for AsyncColliderFlag {
    /// The flag for an engine mesh collider: always `Convex`, whatever its shape.
    fn from(value: &ColliderShapeKind) -> (f: Self) {
        AsyncColliderFlag::Convex
    }
}

impl vstd::std_specs::convert::FromSpecImpl<&ColliderShapeKind> for AsyncColliderFlag {
    open spec fn obeys_from_spec() -> bool {
        true
    }

    open spec fn from_spec(v: &ColliderShapeKind) -> Self {
        AsyncColliderFlag::Convex
    }
}

impl From<&AsyncColliderFlag> for ColliderShapeKind {
    /// The shape of the engine's mesh collider for a flag: `Trimesh` gives the engine's
    /// default mesh collider, a triangle mesh; `Convex` a convex hull.
    fn from(value: &AsyncColliderFlag) -> (s: Self) {
        match value {
            AsyncColliderFlag::Trimesh => ColliderShapeKind::TriMesh,
            AsyncColliderFlag::Convex => ColliderShapeKind::ConvexHull,
        }
    }
}

impl vstd::std_specs::convert::FromSpecImpl<&AsyncColliderFlag> for ColliderShapeKind {
    open spec fn obeys_from_spec() -> bool {
        true
    }

    open spec fn from_spec(v: &AsyncColliderFlag) -> Self {
        spec_collider_shape(*v)
    }
}

/// A flag comes back unchanged from the engine's mesh collider exactly when it is
/// convex: every engine collider is read back as `Convex`, and `Convex` alone is written
/// as the convex-hull collider that reads back as itself.
pub proof fn collider_flag_round_trip(f: AsyncColliderFlag)
    ensures
        (f == AsyncColliderFlag::Convex) <==> spec_collider_shape(f) == ColliderShapeKind::ConvexHull,
{
}

} // verus!
