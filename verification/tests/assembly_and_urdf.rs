use bevy_serialization_extras::assembly::{
    disassemble_components_from_system, disassemble_components_from_world, Assemblies, AssemblyId,
    ChildPlacement, DisassembleSettings, InitializedStagers, Split, StructureKind,
};
use bevy_serialization_extras::axes::{JointAxesMaskWrapper, UrdfJointKind};
use bevy_serialization_extras::colliders::AsyncColliderFlag;
use bevy_serialization_extras::flags::RigidBodyFlag;
use bevy_serialization_extras::joints::{
    bind_joint_request_to_parent, resolve_joint_parent, JointRequestStage, LinkCandidate, PendingJoint,
};
use bevy_serialization_extras::resources::{
    save_file_path, AssetSource, LoadRequest, RefreshCounter, RequestFrom, SaveRequest, ShowSerializable,
    ShowUnserializable,
};
use bevy_serialization_extras::staging::{
    check_roll_down, initialize_asset_structure, resolve_component_ids, roll_down_needs_checker,
    run_proxy_system, wrap_asset_registrations, wrap_comp_registrations, AssetRequestAction,
    AssetRequestState, DisassembleAssetRequest, DisassembleStage, Maybe, RegistryKind, RollDownIded,
    SystemRegistry,
};
use bevy_serialization_extras::urdf::{
    assemble_joints, load_urdf, pair_links_with_joints, urdf_from_read, JointEntry,
    LinkColliders, LinkEntry, Urdf, UrdfLoaderError,
};

fn strings(v: &[&str]) -> Vec<String> {
    v.iter().map(|s| s.to_string()).collect()
}

#[test]
fn first_assembly_gets_id_one() {
    let mut assemblies = Assemblies::new();
    let mut stagers = InitializedStagers::new();
    assert_eq!(assemblies.next_id(), 1);
    let plan = disassemble_components_from_world(
        &mut assemblies, &mut stagers, None, true, 5,
        StructureKind::Children(Split { split: true, inheriet_transform: true }),
        &vec![6, 7],
    );
    assert_eq!(plan.assembly_id, 1);
    assert!(plan.tag_parent);
    assert!(!plan.insert_root);
    assert_eq!(plan.placements, vec![ChildPlacement::CopyParentTransform; 2]);
    assert_eq!(assemblies.0.get(&1).map(|s| s.len()), Some(2));
    assert_eq!(stagers.0.get(&5), Some(&vec![6, 7]));
    assert_eq!(assemblies.next_id(), 2);
}

#[test]
fn root_structure_keeps_existing_assembly() {
    let mut assemblies = Assemblies::new();
    let mut stagers = InitializedStagers::new();
    let plan = disassemble_components_from_system(
        &mut assemblies, &mut stagers, Some(AssemblyId(9)), false, 3, StructureKind::Root, &vec![],
    );
    assert_eq!(plan.assembly_id, 9);
    assert!(!plan.tag_parent);
    assert!(plan.insert_root);
    assert!(plan.placements.is_empty());
    assert!(assemblies.0.is_empty());
    assert!(stagers.0.is_empty());
}

#[test]
fn child_placements_follow_split() {
    let cases = [
        (Split { split: false, inheriet_transform: true }, true, ChildPlacement::AttachToParent),
        (Split { split: true, inheriet_transform: true }, false, ChildPlacement::Detached),
        (Split { split: true, inheriet_transform: false }, true, ChildPlacement::Detached),
    ];
    for (split, has_transform, expected) in cases {
        let mut assemblies = Assemblies::new();
        let mut stagers = InitializedStagers::new();
        let plan = disassemble_components_from_world(
            &mut assemblies, &mut stagers, Some(AssemblyId(1)), has_transform, 0,
            StructureKind::Children(split), &vec![1],
        );
        assert_eq!(plan.placements, vec![expected]);
    }
    assert_eq!(Split::default(), Split { split: false, inheriet_transform: false });
}

#[test]
fn members_and_stagers_accumulate() {
    let mut assemblies = Assemblies::new();
    assemblies.add_members(4, &vec![1, 2]);
    assemblies.add_members(4, &vec![2, 3]);
    let mut members: Vec<u64> = assemblies.0[&4].iter().copied().collect();
    members.sort();
    assert_eq!(members, vec![1, 2, 3]);
    let mut stagers = InitializedStagers::new();
    stagers.record(8, &vec![1]);
    stagers.record(8, &vec![3, 2]);
    assert_eq!(stagers.0[&8], vec![1, 3, 2]);
}

#[test]
fn joint_parent_by_name_in_same_assembly() {
    let links = vec![
        LinkCandidate { entity: 1, name: "base".to_string(), assembly: 1 },
        LinkCandidate { entity: 2, name: "base".to_string(), assembly: 2 },
        LinkCandidate { entity: 3, name: "arm".to_string(), assembly: 2 },
        LinkCandidate { entity: 4, name: "arm".to_string(), assembly: 2 },
    ];
    assert_eq!(resolve_joint_parent(&JointRequestStage::Name("base".to_string()), 2, &links), Some(2));
    assert_eq!(resolve_joint_parent(&JointRequestStage::Name("arm".to_string()), 2, &links), None);
    assert_eq!(resolve_joint_parent(&JointRequestStage::Name("leg".to_string()), 2, &links), None);
    assert_eq!(resolve_joint_parent(&JointRequestStage::Entity(42), 2, &links), Some(42));
}

#[test]
fn joint_binding_stops_at_first_unresolved() {
    let links = vec![LinkCandidate { entity: 1, name: "base".to_string(), assembly: 1 }];
    let joints = vec![
        PendingJoint { entity: 10, stage: JointRequestStage::Name("base".to_string()), assembly: 1 },
        PendingJoint { entity: 11, stage: JointRequestStage::Name("missing".to_string()), assembly: 1 },
        PendingJoint { entity: 12, stage: JointRequestStage::Entity(1), assembly: 1 },
    ];
    assert_eq!(bind_joint_request_to_parent(&joints, &links), vec![(10, 1)]);
}

#[test]
fn registrations_happen_once() {
    let mut sers = SystemRegistry::new();
    let desers = SystemRegistry::new();
    let first = wrap_comp_registrations(&sers, &desers, 3);
    assert_eq!(first.serializer, Some(RegistryKind::CompSerializers));
    assert_eq!(first.deserializer, Some(RegistryKind::CompDeserializers));
    sers.insert(3, 77);
    let second = wrap_comp_registrations(&sers, &desers, 3);
    assert_eq!(second.serializer, None);
    assert_eq!(second.deserializer, Some(RegistryKind::CompDeserializers));
    let asset = wrap_asset_registrations(&SystemRegistry::new(), &SystemRegistry::new(), 1);
    assert_eq!(asset.serializer, Some(RegistryKind::CompSerializers));
    assert_eq!(asset.deserializer, Some(RegistryKind::AssetDeserializers));
    assert!(roll_down_needs_checker(&SystemRegistry::new(), 1));
    assert!(!roll_down_needs_checker(&sers, 3));
}

#[test]
fn proxy_systems_run_once_each() {
    let mut reg = SystemRegistry::new();
    reg.insert(1, 10);
    reg.insert(2, 20);
    reg.insert(1, 11);
    let mut systems = run_proxy_system(&reg);
    systems.sort();
    assert_eq!(systems, vec![11, 20]);
}

#[test]
fn roll_down_targets_children_with_components() {
    assert_eq!(resolve_component_ids(&vec![Some(4), None, Some(6)]), vec![4, 6]);
    let rolldown = RollDownIded::from_lookups(&vec![Some(4), Some(6)]);
    assert!(!rolldown.every_child);
    let children = Some(vec![Some(vec![1, 4]), Some(vec![2]), Some(vec![6])]);
    let step = check_roll_down(&rolldown, &children);
    assert_eq!(step.inserts, vec![0, 2]);
    assert!(step.remove_marker && !step.halt);
    assert_eq!(step.scanned, 3);
    let only_four = RollDownIded::from_lookups(&vec![Some(4)]);
    let broken = Some(vec![Some(vec![2]), None, Some(vec![4])]);
    let step = check_roll_down(&only_four, &broken);
    assert!(step.halt && !step.remove_marker);
    assert_eq!(step.scanned, 1);
    let none = check_roll_down(&only_four, &None);
    assert!(none.halt && none.inserts.is_empty());
    let unknown = RollDownIded::from_lookups(&vec![None]);
    assert!(!unknown.every_child);
    assert!(check_roll_down(&unknown, &children).inserts.is_empty());
}

#[test]
fn empty_roll_down_reaches_every_child() {
    let rolldown = RollDownIded::from_lookups(&Vec::new());
    assert!(rolldown.every_child);
    let children = Some(vec![Some(vec![1]), Some(vec![]), Some(vec![9])]);
    let step = check_roll_down(&rolldown, &children);
    assert_eq!(step.inserts, vec![0, 1, 2]);
    assert!(step.remove_marker && !step.halt);
    let childless = check_roll_down(&rolldown, &Some(Vec::new()));
    assert!(childless.inserts.is_empty() && !childless.remove_marker);
}

#[test]
fn asset_requests_advance() {
    let req = DisassembleAssetRequest::path("robot.xml".to_string(), None);
    assert!(!req.1.split);
    let reg = SystemRegistry::new();
    assert_eq!(
        req.on_add(true, &reg, 0),
        AssetRequestAction::Load { path: "robot.xml".to_string(), with_load_settings: true }
    );
    let split = DisassembleAssetRequest::path("a.glb".to_string(), Some(DisassembleSettings { split: true }));
    let upgraded = split.with_handle(12);
    assert_eq!(upgraded.0, DisassembleStage::Handle(12));
    assert!(upgraded.1.split);
    let handle = DisassembleAssetRequest::handle(5, Some(DisassembleSettings { split: true }));
    assert!(handle.1.split);
    assert_eq!(handle.0, DisassembleStage::Handle(5));
    assert_eq!(handle.on_add(false, &reg, 0), AssetRequestAction::RegisterChecker);
    let mut checkers = SystemRegistry::new();
    checkers.insert(0, 1);
    assert_eq!(handle.on_add(false, &checkers, 0), AssetRequestAction::Nothing);
}

#[test]
fn waiting_for_assets() {
    let requests = vec![
        AssetRequestState::Handle { loaded: true, available: true },
        AssetRequestState::Handle { loaded: false, available: false },
        AssetRequestState::Handle { loaded: true, available: true },
        AssetRequestState::Other,
        AssetRequestState::Handle { loaded: true, available: true },
    ];
    let step = initialize_asset_structure(&requests);
    assert_eq!(step.upgrades, vec![0, 2]);
    assert_eq!(step.scanned, 3);
    let missing = vec![AssetRequestState::Handle { loaded: true, available: false }];
    assert_eq!(initialize_asset_structure(&missing).scanned, 0);
    assert_eq!(Maybe(Some(3)).into_component(), Some(3));
    assert_eq!(Maybe::<u8>(None).into_component(), None);
}

#[test]
fn links_pair_with_last_joint_of_their_name() {
    let links = strings(&["base", "arm", "hand"]);
    let joint_children = strings(&["arm", "hand", "arm"]);
    assert_eq!(pair_links_with_joints(&links, &joint_children), vec![None, Some(2), Some(1)]);
}

#[test]
fn link_collider_components() {
    let one = LinkColliders { count: 1 }.components();
    assert_eq!(one.geometry, Some(0));
    assert_eq!(one.collider, AsyncColliderFlag::Convex);
    assert_eq!(one.rigid_body, RigidBodyFlag::Dynamic);
    assert_eq!(one.solver_groups.to_solver_groups(), (u32::MAX, u32::MAX));
    assert_eq!(LinkColliders { count: 2 }.components().geometry, None);
    assert_eq!(LinkColliders { count: 0 }.components().geometry, None);
}

#[test]
fn assembled_joints_skip_missing_parents() {
    let links = vec![LinkEntry { entity: 1, name: "base".to_string() }];
    let joints = vec![
        JointEntry { parent: 1, locked_axes: JointAxesMaskWrapper::empty(), limit_axes: JointAxesMaskWrapper::ANG_Y() },
        JointEntry { parent: 2, locked_axes: JointAxesMaskWrapper::all(), limit_axes: JointAxesMaskWrapper::empty() },
        JointEntry { parent: 1, locked_axes: JointAxesMaskWrapper::all(), limit_axes: JointAxesMaskWrapper::ANG_AXES() },
    ];
    let out = assemble_joints(&joints, &links);
    assert_eq!(out.len(), 2);
    assert_eq!(out[0].joint, 0);
    assert_eq!(out[0].parent_name, "base");
    assert_eq!(out[0].kind, UrdfJointKind::Continuous);
    assert_eq!(out[0].axis, [0, 1, 0]);
    assert_eq!(out[1].joint, 2);
    assert_eq!(out[1].kind, UrdfJointKind::Fixed);
    assert_eq!(out[1].axis, [1, 1, 1]);
}

const ROBOT: &str = r#"<robot name="bot">
  <link name="base"/>
  <link name="arm"/>
  <joint name="j" type="revolute">
    <parent link="base"/>
    <child link="arm"/>
    <axis xyz="1 0 0"/>
    <limit lower="-1" upper="1" effort="1" velocity="1"/>
  </joint>
</robot>"#;

#[test]
fn loads_urdf_text() {
    let urdf = load_urdf(ROBOT.as_bytes()).ok().unwrap();
    assert_eq!(urdf.0.name, "bot");
    assert_eq!(urdf.0.links.len(), 2);
    assert_eq!(urdf.0.joints.len(), 1);
}

#[test]
fn refuses_invalid_utf8_and_invalid_xml() {
    match load_urdf(&[0xff, 0xfe, 0x00]) {
        Err(UrdfLoaderError::ParsingError(m)) => assert!(!m.is_empty()),
        _ => panic!("invalid UTF-8 must be a parsing error"),
    }
    match load_urdf(b"<robot name=\"x\"><link") {
        Err(UrdfLoaderError::ParsingError(m)) => assert!(!m.is_empty()),
        _ => panic!("invalid XML must be a parsing error"),
    }
}

#[test]
fn default_urdf_is_named_for_errors() {
    let urdf = Urdf::default();
    assert_eq!(urdf.0.name, "DEFAULT_IN_CASE_OF_ERROR");
    assert!(urdf.0.links.is_empty() && urdf.0.joints.is_empty() && urdf.0.materials.is_empty());
}

#[test]
fn save_paths_use_first_extension() {
    assert_eq!(save_file_path("robot", &strings(&["xml", "urdf"])), Ok("robot.xml".to_string()));
    assert_eq!(
        save_file_path("robot", &Vec::new()),
        Err("Asset for robot has no file extensions. Exiting early".to_string())
    );
}

#[test]
fn resource_defaults() {
    assert_eq!(AssetSource::default(), AssetSource::Placeholder("PLACE_HOLDER_PATH".to_string()));
    assert_eq!(
        RequestFrom::default(),
        RequestFrom::AssetServerPath("don't use default for RequestFrom enum or you will get this!".to_string())
    );
    assert_eq!(RequestFrom::from("models/bob.stl".to_string()), RequestFrom::AssetServerPath("models/bob.stl".to_string()));
    assert_eq!(RefreshCounter::default().counter, 0);
    assert!(!ShowSerializable::default().check);
    assert!(ShowUnserializable::default().check);
    assert_eq!(SaveRequest { path: "a.ron".to_string() }.path(), "a.ron");
    assert_eq!(LoadRequest { path: "b.ron".to_string() }.path(), "b.ron");
}

#[test]
fn read_outcome_becomes_load_outcome() {
    let robot = urdf_rs::Robot { name: "r".to_string(), version: None, links: Vec::new(), joints: Vec::new(), materials: Vec::new() };
    let urdf = urdf_from_read(Ok(robot)).ok().unwrap();
    assert_eq!(urdf.0.name, "r");
    match urdf_from_read(Err("bad xml".to_string())) {
        Err(UrdfLoaderError::ParsingError(m)) => assert_eq!(m, "bad xml"),
        _ => panic!("a read error must be a parsing error"),
    }
}

#[test]
fn joint_parent_names_survive_round_trip() {
    let names = ["base", "arm", "hand"];
    let candidates: Vec<LinkCandidate> = names
        .iter()
        .enumerate()
        .map(|(i, n)| LinkCandidate { entity: 100 + i as u64, name: n.to_string(), assembly: 3 })
        .collect();
    let entries: Vec<LinkEntry> = names
        .iter()
        .enumerate()
        .map(|(i, n)| LinkEntry { entity: 100 + i as u64, name: n.to_string() })
        .collect();
    let parent = resolve_joint_parent(&JointRequestStage::Name("arm".to_string()), 3, &candidates).unwrap();
    assert_eq!(parent, 101);
    let joints = vec![JointEntry {
        parent,
        locked_axes: JointAxesMaskWrapper::LOCKED_REVOLUTE_AXES(),
        limit_axes: JointAxesMaskWrapper::empty(),
    }];
    let out = assemble_joints(&joints, &entries);
    assert_eq!(out.len(), 1);
    assert_eq!(out[0].parent_name, "arm");
}

#[test]
fn next_assembly_id_is_above_every_id_in_use() {
    let mut assemblies = Assemblies::new();
    assemblies.add_members(7, &vec![1]);
    assemblies.add_members(3, &vec![2]);
    assemblies.add_members(5, &vec![3]);
    assert_eq!(assemblies.next_id(), 8);
    let mut negative = Assemblies::new();
    negative.add_members(-4, &vec![1]);
    assert_eq!(negative.next_id(), 1);
}
