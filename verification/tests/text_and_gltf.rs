use bevy_serialization_extras::assembly::DisassembleSettings;
use bevy_serialization_extras::colliders::{collider_request_for_extras, gltf_collider_request, RequestCollider};
use bevy_serialization_extras::gltf::{
    bind_physics, eq_ignore_ascii_case, find_extension, gltf_children_split, gltf_model_name,
    parse_gltf_physics, GltfPhysicsMeshPrimitive, NodeId, PhysicsExtensionError, PhysicsNode,
    KHR_IMPLICIT_SHAPES, KHR_PHYSICS_RIGID_BODIES,
};
use bevy_serialization_extras::khr::{
    node_collider_ids, shape_kind_from_tag, Collider, CollisionFilters, Geometry, ShapeKind,
};
use bevy_serialization_extras::text::{
    chars_eq, chars_of, last_colon_segment_unquoted, mesh_path_without_primitive, str_eq,
};

fn strings(v: &[&str]) -> Vec<String> {
    v.iter().map(|s| s.to_string()).collect()
}

#[test]
fn collider_request_reads_extras_value() {
    assert_eq!(gltf_collider_request("{\"collider\":\"sphere\"}"), RequestCollider::Sphere);
    assert_eq!(gltf_collider_request("{\"collider\":\"wheel\"}"), RequestCollider::Wheel);
    assert_eq!(gltf_collider_request("{\"collider\":\"convex\"}"), RequestCollider::Convex);
    assert_eq!(gltf_collider_request("collider:cuboid"), RequestCollider::Cuboid);
    assert_eq!(gltf_collider_request("a:b:sphere"), RequestCollider::Sphere);
}

#[test]
fn collider_request_defaults_when_unnamed() {
    assert_eq!(gltf_collider_request("{\"collider\":\"Sphere\"}"), RequestCollider::Cuboid);
    assert_eq!(gltf_collider_request("{\"collider\":\"cone\"}"), RequestCollider::Cuboid);
    assert_eq!(gltf_collider_request(""), RequestCollider::Cuboid);
    assert_eq!(RequestCollider::default(), RequestCollider::Cuboid);
}

#[test]
fn collider_request_for_missing_extras_is_convex() {
    assert_eq!(collider_request_for_extras(&None), RequestCollider::Convex);
    assert_eq!(
        collider_request_for_extras(&Some("{\"collider\":\"wheel\"}".to_string())),
        RequestCollider::Wheel
    );
}

#[test]
fn request_names_are_lowercase() {
    let names: Vec<String> = RequestCollider::variants()
        .iter()
        .map(|r| r.lowercase_name().into_iter().collect())
        .collect();
    assert_eq!(names, strings(&["cuboid", "wheel", "convex", "sphere"]));
}

#[test]
fn text_helpers() {
    assert_eq!(chars_of("abc"), vec!['a', 'b', 'c']);
    assert!(chars_eq(&vec!['x'], &vec!['x']));
    assert!(!chars_eq(&vec!['x'], &vec!['x', 'y']));
    assert!(str_eq("box", "box"));
    assert!(!str_eq("box", "Box"));
    let seg: String = last_colon_segment_unquoted("{\"a\":\"b\"}").into_iter().collect();
    assert_eq!(seg, "b");
    let whole: String = last_colon_segment_unquoted("plain").into_iter().collect();
    assert_eq!(whole, "plain");
}

#[test]
fn mesh_path_drops_primitive_suffix() {
    assert_eq!(mesh_path_without_primitive("models/bot.glb#Mesh0/Primitive0"), "models/bot.glb#Mesh0");
    assert_eq!(mesh_path_without_primitive("a/Primitive1/Primitive2"), "a");
    assert_eq!(mesh_path_without_primitive("models/bot.glb#Mesh0"), "models/bot.glb#Mesh0");
    assert_eq!(mesh_path_without_primitive("/Primitive"), "");
    let once = mesh_path_without_primitive("x.glb#Mesh1/Primitive3");
    assert_eq!(mesh_path_without_primitive(&once), once);
}

#[test]
fn ascii_case_insensitive_equality() {
    assert!(eq_ignore_ascii_case("KHR_Physics_Rigid_Bodies", KHR_PHYSICS_RIGID_BODIES));
    assert!(eq_ignore_ascii_case("abc", "abc"));
    assert!(!eq_ignore_ascii_case("abc", "abd"));
    assert!(!eq_ignore_ascii_case("abc", "abcd"));
    assert_eq!(eq_ignore_ascii_case("aBc", "AbC"), eq_ignore_ascii_case("AbC", "aBc"));
}

#[test]
fn finds_first_matching_extension() {
    let keys = strings(&["other", "KHR_IMPLICIT_SHAPES", "khr_implicit_shapes"]);
    assert_eq!(find_extension(&keys, KHR_IMPLICIT_SHAPES), Some(1));
    assert_eq!(find_extension(&keys, KHR_PHYSICS_RIGID_BODIES), None);
}

#[test]
fn parse_gltf_physics_locates_extensions_and_nodes() {
    let file = Some(strings(&["KHR_physics_rigid_bodies", "KHR_implicit_shapes"]));
    let nodes = vec![
        Some(strings(&["KHR_physics_rigid_bodies"])),
        None,
        Some(strings(&["something_else"])),
        Some(strings(&["x", "khr_physics_rigid_bodies"])),
    ];
    let index = parse_gltf_physics(&file, &nodes).ok().unwrap();
    assert_eq!(index.rigid_bodies, 0);
    assert_eq!(index.implicit_shapes, 1);
    assert_eq!(index.nodes, vec![(0, 0), (3, 1)]);
}

#[test]
fn parse_gltf_physics_errors() {
    let nodes: Vec<Option<Vec<String>>> = Vec::new();
    assert_eq!(parse_gltf_physics(&None, &nodes).err(), Some(PhysicsExtensionError::NoExtensions));
    assert_eq!(
        parse_gltf_physics(&Some(strings(&["khr_implicit_shapes"])), &nodes).err(),
        Some(PhysicsExtensionError::MissingRigidBodies)
    );
    assert_eq!(
        parse_gltf_physics(&Some(strings(&["khr_physics_rigid_bodies"])), &nodes).err(),
        Some(PhysicsExtensionError::MissingImplicitShapes)
    );
}

#[test]
fn binds_physics_to_node_entities() {
    let nodes = vec![
        PhysicsNode { entity: 10, assembly: 1, node_id: NodeId(0) },
        PhysicsNode { entity: 11, assembly: 2, node_id: NodeId(0) },
        PhysicsNode { entity: 12, assembly: 2, node_id: NodeId(1) },
        PhysicsNode { entity: 13, assembly: 2, node_id: NodeId(1) },
    ];
    let done = bind_physics(&vec![(0, 1), (1, 0)], &nodes, 2, 2);
    assert!(done.complete);
    assert_eq!(done.bindings, vec![(11, 1), (12, 0)]);
    let missing_node = bind_physics(&vec![(0, 0), (5, 0), (1, 0)], &nodes, 2, 2);
    assert!(!missing_node.complete);
    assert_eq!(missing_node.bindings, vec![(11, 0)]);
    let missing_shape = bind_physics(&vec![(1, 2)], &nodes, 2, 2);
    assert!(!missing_shape.complete);
    assert!(missing_shape.bindings.is_empty());
}

#[test]
fn model_name_is_first_parent_node_name() {
    let counts = vec![0, 2, 3];
    let names = vec![Some("leaf".to_string()), Some("root".to_string()), Some("other".to_string())];
    assert_eq!(gltf_model_name(&counts, &names), "root");
    let unnamed = vec![Some("leaf".to_string()), None, Some("other".to_string())];
    assert_eq!(gltf_model_name(&counts, &unnamed), "");
}

#[test]
fn gltf_children_take_parent_transform() {
    let s = gltf_children_split(DisassembleSettings { split: true });
    assert!(s.split && s.inheriet_transform);
    let s = gltf_children_split(DisassembleSettings::default());
    assert!(!s.split && s.inheriet_transform);
}

#[test]
fn physics_mesh_primitive_takes_single_primitive() {
    let one = GltfPhysicsMeshPrimitive { primitive_count: 1, extras: None }.components();
    assert_eq!(one.primitive, Some(0));
    assert_eq!(one.collider, RequestCollider::Convex);
    let many = GltfPhysicsMeshPrimitive { primitive_count: 3, extras: Some("collider:sphere".to_string()) }.components();
    assert_eq!(many.primitive, None);
    assert_eq!(many.collider, RequestCollider::Sphere);
    assert_eq!(GltfPhysicsMeshPrimitive { primitive_count: 0, extras: None }.components().primitive, None);
}

#[test]
fn node_colliders_give_shape_ids() {
    let colliders = vec![
        Collider { geometry: Geometry { shape_index: 4 }, physics_material: 0, collision_filter: 1 },
        Collider::default(),
    ];
    assert_eq!(node_collider_ids(&vec![7, 9], &colliders), vec![(7, 4), (9, 0)]);
    assert_eq!(Geometry::default().shape_index, 0);
    let filters = CollisionFilters::default();
    assert!(filters.collision_systems.is_empty() && filters.collide_with_systems.is_empty());
}

#[test]
fn shape_kinds_from_type_tags() {
    assert_eq!(shape_kind_from_tag(Some("box")), Ok(ShapeKind::Box));
    assert_eq!(shape_kind_from_tag(Some("cylinder")), Ok(ShapeKind::Cylinder));
    assert_eq!(shape_kind_from_tag(Some("sphere")), Err("Unknown shape type: sphere".to_string()));
    assert_eq!(shape_kind_from_tag(None), Err("Missing shape type".to_string()));
}

#[test]
fn physics_extension_error_messages() {
    assert_eq!(PhysicsExtensionError::NoExtensions.message(), "gltf external extensions evaluated to none");
    assert_eq!(
        PhysicsExtensionError::MissingImplicitShapes.message(),
        "could not find khr_physics_rigid_bodies in extensions: "
    );
}
