use bevy_serialization_extras::axes::{JointAxesMaskWrapper, UrdfJointKind};
use bevy_serialization_extras::colliders::{AsyncColliderFlag, ColliderShapeKind};
use bevy_serialization_extras::flags::{
    CcdFlag, CoefficientCombineRule, FrictionCombineRule, MotorAxis, MotorModel, MotorModelWrapper,
    PhysicsUtilitySelection, PhysicsUtilityType, RigidBodyFlag, RigidBodyKind, SelectedMotorAxis,
};
use bevy_serialization_extras::groups::{
    CollisionGroupsFlag, GroupWrapper, PHYSICS_FIXED, SolverGroupsFlag,
};

#[test]
fn axis_bits_match_degrees_of_freedom() {
    assert_eq!(JointAxesMaskWrapper::X().bits(), 1);
    assert_eq!(JointAxesMaskWrapper::Y().bits(), 2);
    assert_eq!(JointAxesMaskWrapper::Z().bits(), 4);
    assert_eq!(JointAxesMaskWrapper::ANG_X().bits(), 8);
    assert_eq!(JointAxesMaskWrapper::ANG_Y().bits(), 16);
    assert_eq!(JointAxesMaskWrapper::ANG_Z().bits(), 32);
    assert_eq!(JointAxesMaskWrapper::all().bits(), 63);
    assert_eq!(JointAxesMaskWrapper::empty().bits(), 0);
    assert_eq!(JointAxesMaskWrapper::default().bits(), 0);
}

#[test]
fn locked_and_free_axes_partition_all_axes() {
    let pairs = [
        (JointAxesMaskWrapper::LOCKED_REVOLUTE_AXES(), JointAxesMaskWrapper::FREE_REVOLUTE_AXES()),
        (JointAxesMaskWrapper::LOCKED_PRISMATIC_AXES(), JointAxesMaskWrapper::FREE_PRISMATIC_AXES()),
        (JointAxesMaskWrapper::LOCKED_FIXED_AXES(), JointAxesMaskWrapper::FREE_FIXED_AXES()),
        (JointAxesMaskWrapper::LOCKED_SPHERICAL_AXES(), JointAxesMaskWrapper::FREE_SPHERICAL_AXES()),
        (JointAxesMaskWrapper::LIN_AXES(), JointAxesMaskWrapper::ANG_AXES()),
    ];
    for (locked, free) in pairs {
        assert_eq!(locked.bits() | free.bits(), 63);
        assert_eq!(locked.bits() & free.bits(), 0);
    }
    assert_eq!(JointAxesMaskWrapper::LOCKED_REVOLUTE_AXES().bits(), 55);
    assert_eq!(JointAxesMaskWrapper::LOCKED_PRISMATIC_AXES().bits(), 62);
    assert_eq!(JointAxesMaskWrapper::LOCKED_SPHERICAL_AXES().bits(), 7);
    assert_eq!(JointAxesMaskWrapper::FREE_SPHERICAL_AXES().bits(), 56);
}

#[test]
fn truncation_drops_undefined_bits() {
    assert_eq!(JointAxesMaskWrapper::from_bits_truncate(0xFF).bits(), 63);
    assert_eq!(JointAxesMaskWrapper::from_bits_truncate(0b0100_1001).bits(), 9);
    let m = JointAxesMaskWrapper::LOCKED_PRISMATIC_AXES();
    assert_eq!(JointAxesMaskWrapper::from_bits_truncate(m.bits()), m);
}

#[test]
fn from_bits_refuses_undefined_bits() {
    assert!(JointAxesMaskWrapper::from_bits(64).is_none());
    assert!(JointAxesMaskWrapper::from_bits(200).is_none());
    assert_eq!(JointAxesMaskWrapper::from_bits(63).map(|m| m.bits()), Some(63));
    assert_eq!(JointAxesMaskWrapper::from_bits(0).map(|m| m.bits()), Some(0));
}

#[test]
fn contains_and_is_empty() {
    let locked = JointAxesMaskWrapper::LOCKED_REVOLUTE_AXES();
    assert!(locked.contains(JointAxesMaskWrapper::X()));
    assert!(locked.contains(JointAxesMaskWrapper::ANG_Z()));
    assert!(!locked.contains(JointAxesMaskWrapper::ANG_X()));
    assert!(locked.contains(JointAxesMaskWrapper::empty()));
    assert!(JointAxesMaskWrapper::empty().is_empty());
    assert!(!locked.is_empty());
}

#[test]
fn urdf_fixed_joint_locks_everything() {
    let m = JointAxesMaskWrapper::locked_for_urdf_axis(UrdfJointKind::Fixed, [1, 1, 1]);
    assert_eq!(m.bits(), 63);
}

#[test]
fn urdf_revolute_joint_about_x_locks_as_revolute() {
    let m = JointAxesMaskWrapper::locked_for_urdf_axis(UrdfJointKind::Revolute, [1, 0, 0]);
    assert_eq!(m, JointAxesMaskWrapper::LOCKED_REVOLUTE_AXES());
}

#[test]
fn urdf_non_fixed_joint_frees_rotations_of_its_axis() {
    let m = JointAxesMaskWrapper::locked_for_urdf_axis(UrdfJointKind::Continuous, [0, 1, 1]);
    assert_eq!(m.bits(), 1 | 2 | 4 | 8);
    let none = JointAxesMaskWrapper::locked_for_urdf_axis(UrdfJointKind::Prismatic, [0, 0, 0]);
    assert_eq!(none.bits(), 63);
    let all = JointAxesMaskWrapper::locked_for_urdf_axis(UrdfJointKind::Spherical, [1, 1, 1]);
    assert_eq!(all.bits(), 7);
}

#[test]
fn urdf_axis_from_limited_rotations() {
    let limits = JointAxesMaskWrapper::from_bits_truncate(8 | 32 | 1);
    assert_eq!(limits.urdf_axis_from_limits(), [1, 0, 1]);
    assert_eq!(JointAxesMaskWrapper::empty().urdf_axis_from_limits(), [0, 0, 0]);
    assert_eq!(JointAxesMaskWrapper::ANG_AXES().urdf_axis_from_limits(), [1, 1, 1]);
}

#[test]
fn urdf_joint_kind_written_for_locked_axes() {
    assert_eq!(JointAxesMaskWrapper::empty().urdf_joint_kind(), UrdfJointKind::Continuous);
    assert_eq!(JointAxesMaskWrapper::LOCKED_FIXED_AXES().urdf_joint_kind(), UrdfJointKind::Fixed);
    assert_eq!(JointAxesMaskWrapper::LOCKED_REVOLUTE_AXES().urdf_joint_kind(), UrdfJointKind::Continuous);
    assert_eq!(JointAxesMaskWrapper::X().urdf_joint_kind(), UrdfJointKind::Continuous);
}

#[test]
fn groups_defaults_and_bits() {
    assert_eq!(GroupWrapper::ALL().bits(), u32::MAX);
    assert_eq!(GroupWrapper::all().bits(), u32::MAX);
    assert_eq!(GroupWrapper::NONE().bits(), 0);
    assert_eq!(GroupWrapper::default().bits(), u32::MAX);
    assert_eq!(GroupWrapper::GROUP_1().bits(), 1);
    assert_eq!(GroupWrapper::GROUP_2().bits(), 2);
    assert_eq!(GroupWrapper::GROUP_32().bits(), 1 << 31);
    assert_eq!(GroupWrapper::from_bits_truncate(0xDEAD_BEEF).bits(), 0xDEAD_BEEF);
    let f = SolverGroupsFlag::default();
    assert_eq!(f.to_solver_groups(), (u32::MAX, u32::MAX));
    assert_eq!(PHYSICS_FIXED().to_solver_groups(), (u32::MAX, u32::MAX));
}

#[test]
fn solver_groups_round_trip() {
    let flag = SolverGroupsFlag { memberships: GroupWrapper(5), filters: GroupWrapper(9) };
    let (m, f) = flag.to_solver_groups();
    assert_eq!(SolverGroupsFlag::from_solver_groups(m, f), flag);
}

#[test]
fn solver_groups_keep_both_groups() {
    let back = SolverGroupsFlag::from_solver_groups(1, 2);
    assert_eq!(back.memberships.bits(), 1);
    assert_eq!(back.filters.bits(), 2);
    assert_eq!(back.to_solver_groups(), (1, 2));
}

#[test]
fn collision_groups_bits() {
    let flag = CollisionGroupsFlag { memberships: GroupWrapper(7), filters: GroupWrapper(9) };
    assert_eq!(flag.to_collision_groups(), (7, 9));
}

#[test]
fn rigid_body_round_trip() {
    for flag in [RigidBodyFlag::Fixed, RigidBodyFlag::Dynamic] {
        assert_eq!(RigidBodyFlag::from_rigid_body(&RigidBodyKind::from(&flag)), flag);
    }
    assert_eq!(RigidBodyKind::from(&RigidBodyFlag::Fixed), RigidBodyKind::Fixed);
    assert_eq!(RigidBodyFlag::from_rigid_body(&RigidBodyKind::Dynamic), RigidBodyFlag::Dynamic);
    assert_eq!(RigidBodyFlag::default(), RigidBodyFlag::Fixed);
}

#[test]
fn friction_rule_round_trip() {
    for rule in [
        CoefficientCombineRule::Average,
        CoefficientCombineRule::Min,
        CoefficientCombineRule::Multiply,
        CoefficientCombineRule::Max,
    ] {
        assert_eq!(CoefficientCombineRule::from(FrictionCombineRule::from(rule)), rule);
    }
    assert_eq!(FrictionCombineRule::from(CoefficientCombineRule::Max), FrictionCombineRule::Max);
    assert_eq!(FrictionCombineRule::default(), FrictionCombineRule::Average);
}

#[test]
fn motor_model_round_trip() {
    for m in [MotorModel::AccelerationBased, MotorModel::ForceBased] {
        assert_eq!(MotorModel::from(&MotorModelWrapper::from(&m)), m);
    }
    assert_eq!(MotorModel::from(&MotorModelWrapper::ForceBased), MotorModel::ForceBased);
    assert_eq!(MotorModelWrapper::default(), MotorModelWrapper::AccelerationBased);
}

#[test]
fn ccd_flag_carries_setting() {
    assert!(CcdFlag::default().enabled);
    assert!(!CcdFlag::from_ccd(false).to_ccd());
    assert!(CcdFlag::from_ccd(true).to_ccd());
}

#[test]
fn collider_flag_conversions() {
    assert_eq!(ColliderShapeKind::from(&AsyncColliderFlag::Trimesh), ColliderShapeKind::TriMesh);
    assert_eq!(ColliderShapeKind::from(&AsyncColliderFlag::Convex), ColliderShapeKind::ConvexHull);
    assert_eq!(AsyncColliderFlag::from(&ColliderShapeKind::TriMesh), AsyncColliderFlag::Convex);
    assert_eq!(
        AsyncColliderFlag::from(&ColliderShapeKind::from(&AsyncColliderFlag::Convex)),
        AsyncColliderFlag::Convex
    );
    assert_eq!(AsyncColliderFlag::default(), AsyncColliderFlag::Convex);
}

#[test]
fn motor_axes_in_order() {
    let axes = MotorAxis::variants();
    assert_eq!(axes.len(), 6);
    for (i, a) in axes.iter().enumerate() {
        assert_eq!(a.index(), i);
    }
    assert_eq!(MotorAxis::default(), MotorAxis::ANGX);
    assert_eq!(SelectedMotorAxis::default().axis, MotorAxis::ANGX);
    assert_eq!(PhysicsUtilitySelection::default().selected, PhysicsUtilityType::Joints);
}

#[test]
fn inspector_checkboxes_show_bits_most_significant_first() {
    let m = JointAxesMaskWrapper::from_bits_truncate(0b0010_0101);
    assert_eq!(m.inspector_checkboxes(), [false, false, true, false, false, true, false, true]);
}

#[test]
fn applying_checkboxes_updates_mask_only_on_change() {
    let mut m = JointAxesMaskWrapper::LOCKED_REVOLUTE_AXES();
    let shown = m.inspector_checkboxes();
    assert!(!m.apply_inspector_checkboxes(shown));
    assert_eq!(m, JointAxesMaskWrapper::LOCKED_REVOLUTE_AXES());
    assert!(m.apply_inspector_checkboxes([true, true, false, false, true, false, false, false]));
    assert_eq!(m.bits(), 8);
}

#[test]
fn urdf_fixed_joint_is_written_back_fixed() {
    let fixed = JointAxesMaskWrapper::locked_for_urdf_axis(UrdfJointKind::Fixed, [0, 0, 1]);
    assert_eq!(fixed.urdf_joint_kind(), UrdfJointKind::Fixed);
    let turning = JointAxesMaskWrapper::locked_for_urdf_axis(UrdfJointKind::Revolute, [0, 0, 1]);
    assert_eq!(turning.urdf_joint_kind(), UrdfJointKind::Continuous);
}
