//! The integer parts of the glTF physics extension properties: which implicit shape a
//! node's collider uses, the collision filters, and how an implicit shape's type tag
//! selects its kind.

use vstd::prelude::*;
use vstd::string::StringExecFns;

verus! {

/// The geometry of a node's collider: the position of its shape among the file's
/// implicit shapes.
#[derive(Debug, Clone, Copy, PartialEq, Eq, Structural)]
pub struct Geometry {
    pub shape_index: usize,
}

impl Default for Geometry {
    fn default() -> (r: Self)
        ensures
            r.shape_index == 0,
    {
        Geometry { shape_index: 0 }
    }
}

/// The collider of a node: its geometry and the positions of its physics material and
/// collision filter.
#[derive(Debug, Clone, Copy, PartialEq, Eq, Structural)]
pub struct Collider {
    pub geometry: Geometry,
    pub physics_material: u32,
    pub collision_filter: u32,
}

impl Default for Collider {
    fn default() -> (r: Self)
        ensures
            r.geometry.shape_index == 0,
            r.physics_material == 0,
            r.collision_filter == 0,
    {
        Collider { geometry: Geometry::default(), physics_material: 0, collision_filter: 0 }
    }
}

/// A collision filter: the systems a collider belongs to and those it collides with.
#[derive(Debug, Clone, PartialEq)]
pub struct CollisionFilters {
    pub collision_systems: Vec<String>,
    pub collide_with_systems: Vec<String>,
}

impl Default for CollisionFilters {
    fn default() -> (r: Self)
        ensures
            r.collision_systems@.len() == 0,
            r.collide_with_systems@.len() == 0,
    {
        CollisionFilters { collision_systems: Vec::new(), collide_with_systems: Vec::new() }
    }
}

/// The physics request of the nodes that carry the rigid-body extension: for each such
/// node, its position and the position of its collider's shape. `nodes` are the node
/// positions and `colliders` the colliders read from those nodes, in the same order.
pub fn node_collider_ids(nodes: &Vec<usize>, colliders: &Vec<Collider>) -> (r: Vec<(usize, usize)>)
    requires
        nodes@.len() == colliders@.len(),
    ensures
        r@.len() == nodes@.len(),
        forall|i: int|
            0 <= i < nodes@.len() ==> #[trigger] r@[i] == (nodes@[i], colliders@[i].geometry.shape_index),
{
    let mut r: Vec<(usize, usize)> = Vec::new();
    for i in 0..nodes.len()
        invariant
            nodes@.len() == colliders@.len(),
            r@.len() == i,
            forall|j: int| 0 <= j < i ==> #[trigger] r@[j] == (nodes@[j], colliders@[j].geometry.shape_index),
    {
        r.push((nodes[i], colliders[i].geometry.shape_index));
    }
    r
}

/// The kinds of implicit shape.
#[derive(Debug, Clone, Copy, PartialEq, Eq, Structural)]
pub enum ShapeKind {
    Box,
    Cylinder,
}

/// The message when an implicit shape has no type tag.
pub open spec fn missing_shape_type_message() -> Seq<char> {
    "Missing shape type"@
}

/// The message when an implicit shape's type tag is not known.
pub open spec fn unknown_shape_type_message(tag: Seq<char>) -> Seq<char> {
    "Unknown shape type: "@ + tag
}

/// The kind of an implicit shape from its `type` tag (`None` when the shape has none or
/// it is not a string): `box` and `cylinder` are known, anything else is an error.
pub fn shape_kind_from_tag(tag: Option<&str>) -> (r: Result<ShapeKind, String>)
    ensures
        tag is None ==> (r matches Err(m) && m@ == missing_shape_type_message()),
        tag is Some && tag->0@ == "box"@ ==> r == Ok::<ShapeKind, String>(ShapeKind::Box),
        tag is Some && tag->0@ == "cylinder"@ ==> r == Ok::<ShapeKind, String>(ShapeKind::Cylinder),
        tag is Some && tag->0@ != "box"@ && tag->0@ != "cylinder"@
            ==> (r matches Err(m) && m@ == unknown_shape_type_message(tag->0@)),
{
    proof {
        reveal_strlit("box");
        reveal_strlit("cylinder");
        assert("box"@.len() != "cylinder"@.len());
    }
    match tag {
        None => Err(String::from_str("Missing shape type")),
        Some(t) => {
            if crate::text::str_eq(t, "box") {
                Ok(ShapeKind::Box)
            } else if crate::text::str_eq(t, "cylinder") {
                Ok(ShapeKind::Cylinder)
            } else {
                let mut m = String::from_str("Unknown shape type: ");
                m.append(t);
                Err(m)
            }
        },
    }
}

} // verus!
