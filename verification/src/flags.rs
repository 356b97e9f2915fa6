//! Serializable flags for physics components, and their conversions to and from
//! the engine's enumerations.

use vstd::prelude::*;

verus! {

/// The engine's kinds of rigid body.
#[derive(Debug, Clone, Copy, PartialEq, Eq, Structural)]
pub enum RigidBodyKind {
    Dynamic,
    Fixed,
    KinematicPositionBased,
    KinematicVelocityBased,
}

/// Serializable rigid body kind: only fixed and dynamic bodies are carried.
#[derive(Debug, Clone, Copy, PartialEq, Eq, Structural)]
pub enum RigidBodyFlag {
    Fixed,
    Dynamic,
}

impl Default for RigidBodyFlag {
    fn default() -> (f: Self)
        ensures
            f == RigidBodyFlag::Fixed,
    {
        RigidBodyFlag::Fixed
    }
}

/// Whether an engine rigid body has a flag: fixed and dynamic bodies do, kinematic ones do not.
pub open spec fn rigid_body_has_flag(kind: RigidBodyKind) -> bool {
    kind == RigidBodyKind::Fixed || kind == RigidBodyKind::Dynamic
}

/// The engine rigid body of a flag.
pub open spec fn spec_rigid_body(f: RigidBodyFlag) -> RigidBodyKind {
    match f {
        RigidBodyFlag::Fixed => RigidBodyKind::Fixed,
        RigidBodyFlag::Dynamic => RigidBodyKind::Dynamic,
    }
}

/// The flag of an engine rigid body that has one.
pub open spec fn spec_rigid_body_flag(k: RigidBodyKind) -> RigidBodyFlag
    recommends
        rigid_body_has_flag(k),
{
    if k == RigidBodyKind::Fixed {
        RigidBodyFlag::Fixed
    } else {
        RigidBodyFlag::Dynamic
    }
}

impl From<&RigidBodyFlag> for RigidBodyKind {
    /// The engine rigid body for a flag.
    fn from(value: &RigidBodyFlag) -> (k: Self) {
        match value {
            RigidBodyFlag::Fixed => RigidBodyKind::Fixed,
            RigidBodyFlag::Dynamic => RigidBodyKind::Dynamic,
        }
    }
}

impl vstd::std_specs::convert::FromSpecImpl<&RigidBodyFlag> for RigidBodyKind {
    open spec fn obeys_from_spec() -> bool {
        true
    }

    open spec fn from_spec(v: &RigidBodyFlag) -> Self {
        spec_rigid_body(*v)
    }
}

impl RigidBodyFlag {
    /// The flag for an engine rigid body; only fixed and dynamic bodies have one.
    pub fn from_rigid_body(kind: &RigidBodyKind) -> (f: Self)
        requires
            rigid_body_has_flag(*kind),
        ensures
            f == spec_rigid_body_flag(*kind),
    {
        match kind {
            RigidBodyKind::Fixed => RigidBodyFlag::Fixed,
            _ => RigidBodyFlag::Dynamic,
        }
    }
}

/// The engine's rules for combining the friction coefficients of two colliders.
#[derive(Debug, Clone, Copy, PartialEq, Eq, Structural)]
pub enum CoefficientCombineRule {
    Average,
    Min,
    Multiply,
    Max,
}

/// Serializable rule for combining the friction coefficients of two colliders.
#[derive(Debug, Clone, Copy, PartialEq, Eq, Structural)]
pub enum FrictionCombineRule {
    Average,
    Min,
    Multiply,
    Max,
}

impl Default for FrictionCombineRule {
    fn default() -> (r: Self)
        ensures
            r == FrictionCombineRule::Average,
    {
        FrictionCombineRule::Average
    }
}

/// The engine rule with the same name as a serializable rule.
pub open spec fn spec_coefficient_rule(r: FrictionCombineRule) -> CoefficientCombineRule {
    match r {
        FrictionCombineRule::Average => CoefficientCombineRule::Average,
        FrictionCombineRule::Min => CoefficientCombineRule::Min,
        FrictionCombineRule::Multiply => CoefficientCombineRule::Multiply,
        FrictionCombineRule::Max => CoefficientCombineRule::Max,
    }
}

/// The serializable rule with the same name as an engine rule.
pub open spec fn spec_friction_rule(r: CoefficientCombineRule) -> FrictionCombineRule {
    match r {
        CoefficientCombineRule::Average => FrictionCombineRule::Average,
        CoefficientCombineRule::Min => FrictionCombineRule::Min,
        CoefficientCombineRule::Multiply => FrictionCombineRule::Multiply,
        CoefficientCombineRule::Max => FrictionCombineRule::Max,
    }
}

impl From<CoefficientCombineRule> for FrictionCombineRule {
    fn from(value: CoefficientCombineRule) -> (r: Self) {
        match value {
            CoefficientCombineRule::Average => FrictionCombineRule::Average,
            CoefficientCombineRule::Min => FrictionCombineRule::Min,
            CoefficientCombineRule::Multiply => FrictionCombineRule::Multiply,
            CoefficientCombineRule::Max => FrictionCombineRule::Max,
        }
    }
}

impl vstd::std_specs::convert::FromSpecImpl<CoefficientCombineRule> for FrictionCombineRule {
    open spec fn obeys_from_spec() -> bool {
        true
    }

    open spec fn from_spec(v: CoefficientCombineRule) -> Self {
        spec_friction_rule(v)
    }
}

impl From<FrictionCombineRule> for CoefficientCombineRule {
    fn from(value: FrictionCombineRule) -> (r: Self) {
        match value {
            FrictionCombineRule::Average => CoefficientCombineRule::Average,
            FrictionCombineRule::Min => CoefficientCombineRule::Min,
            FrictionCombineRule::Multiply => CoefficientCombineRule::Multiply,
            FrictionCombineRule::Max => CoefficientCombineRule::Max,
        }
    }
}

impl vstd::std_specs::convert::FromSpecImpl<FrictionCombineRule> for CoefficientCombineRule {
    open spec fn obeys_from_spec() -> bool {
        true
    }

    open spec fn from_spec(v: FrictionCombineRule) -> Self {
        spec_coefficient_rule(v)
    }
}

/// Each engine combine rule converts to the serializable rule of the same name and back:
/// average to average, min to min, multiply to multiply, max to max.
pub proof fn combine_rules_keep_their_names(engine: CoefficientCombineRule, flag: FrictionCombineRule)
    ensures
        spec_friction_rule(CoefficientCombineRule::Average) == FrictionCombineRule::Average,
        spec_friction_rule(CoefficientCombineRule::Min) == FrictionCombineRule::Min,
        spec_friction_rule(CoefficientCombineRule::Multiply) == FrictionCombineRule::Multiply,
        spec_friction_rule(CoefficientCombineRule::Max) == FrictionCombineRule::Max,
        spec_coefficient_rule(FrictionCombineRule::Average) == CoefficientCombineRule::Average,
        spec_coefficient_rule(FrictionCombineRule::Min) == CoefficientCombineRule::Min,
        spec_coefficient_rule(FrictionCombineRule::Multiply) == CoefficientCombineRule::Multiply,
        spec_coefficient_rule(FrictionCombineRule::Max) == CoefficientCombineRule::Max,
        (engine == CoefficientCombineRule::Average) == (spec_friction_rule(engine) == FrictionCombineRule::Average),
        (flag == FrictionCombineRule::Average) == (spec_coefficient_rule(flag) == CoefficientCombineRule::Average),
{
}

/// The engine's spring-like models for joint motors.
#[derive(Debug, Clone, Copy, PartialEq, Eq, Structural)]
pub enum MotorModel {
    AccelerationBased,
    ForceBased,
}

/// The spring-like model used for constraints resolution.
#[derive(Debug, Clone, Copy, PartialEq, Eq, Structural)]
pub enum MotorModelWrapper {
    /// The solved spring-like equation is:
    /// `acceleration = stiffness * (pos - target_pos) + damping * (vel - target_vel)`
    AccelerationBased,
    /// The solved spring-like equation is:
    /// `force = stiffness * (pos - target_pos) + damping * (vel - target_vel)`
    ForceBased,
}

impl Default for MotorModelWrapper {
    fn default() -> (m: Self)
        ensures
            m == MotorModelWrapper::AccelerationBased,
    {
        MotorModelWrapper::AccelerationBased
    }
}

/// The engine model with the same name as a serializable model.
pub open spec fn spec_motor_model(m: MotorModelWrapper) -> MotorModel {
    match m {
        MotorModelWrapper::AccelerationBased => MotorModel::AccelerationBased,
        MotorModelWrapper::ForceBased => MotorModel::ForceBased,
    }
}

/// The serializable model with the same name as an engine model.
pub open spec fn spec_motor_model_wrapper(m: MotorModel) -> MotorModelWrapper {
    match m {
        MotorModel::AccelerationBased => MotorModelWrapper::AccelerationBased,
        MotorModel::ForceBased => MotorModelWrapper::ForceBased,
    }
}

impl From<&MotorModel> for MotorModelWrapper {
    fn from(value: &MotorModel) -> (m: Self) {
        match value {
            MotorModel::AccelerationBased => MotorModelWrapper::AccelerationBased,
            MotorModel::ForceBased => MotorModelWrapper::ForceBased,
        }
    }
}

impl vstd::std_specs::convert::FromSpecImpl<&MotorModel> for MotorModelWrapper {
    open spec fn obeys_from_spec() -> bool {
        true
    }

    open spec fn from_spec(v: &MotorModel) -> Self {
        spec_motor_model_wrapper(*v)
    }
}

impl From<&MotorModelWrapper> for MotorModel {
    fn from(value: &MotorModelWrapper) -> (m: Self) {
        match value {
            MotorModelWrapper::AccelerationBased => MotorModel::AccelerationBased,
            MotorModelWrapper::ForceBased => MotorModel::ForceBased,
        }
    }
}

impl vstd::std_specs::convert::FromSpecImpl<&MotorModelWrapper> for MotorModel {
    open spec fn obeys_from_spec() -> bool {
        true
    }

    open spec fn from_spec(v: &MotorModelWrapper) -> Self {
        spec_motor_model(*v)
    }
}

/// Engine values and flags convert by name: a fixed body to the fixed flag and a dynamic
/// body to the dynamic flag, and each motor model to the model of the same name.
pub proof fn flags_keep_their_names()
    ensures
        spec_rigid_body(RigidBodyFlag::Fixed) == RigidBodyKind::Fixed,
        spec_rigid_body(RigidBodyFlag::Dynamic) == RigidBodyKind::Dynamic,
        spec_rigid_body_flag(RigidBodyKind::Fixed) == RigidBodyFlag::Fixed,
        spec_rigid_body_flag(RigidBodyKind::Dynamic) == RigidBodyFlag::Dynamic,
        spec_motor_model(MotorModelWrapper::AccelerationBased) == MotorModel::AccelerationBased,
        spec_motor_model(MotorModelWrapper::ForceBased) == MotorModel::ForceBased,
        spec_motor_model_wrapper(MotorModel::AccelerationBased) == MotorModelWrapper::AccelerationBased,
        spec_motor_model_wrapper(MotorModel::ForceBased) == MotorModelWrapper::ForceBased,
{
}

/// Whether continuous collision detection is enabled for a body.
#[derive(Debug, Clone, Copy, PartialEq, Eq, Structural)]
pub struct CcdFlag {
    pub enabled: bool,
}

impl Default for CcdFlag {
    fn default() -> (f: Self)
        ensures
            f.enabled,
    {
        CcdFlag { enabled: true }
    }
}

impl CcdFlag {
    /// The flag for the engine's setting `enabled`.
    pub fn from_ccd(enabled: bool) -> (f: Self)
        ensures
            f.enabled == enabled,
    {
        CcdFlag { enabled }
    }

    /// The engine's setting for this flag.
    pub fn to_ccd(&self) -> (enabled: bool)
        ensures
            enabled == self.enabled,
    {
        self.enabled
    }
}

/// A flag taken to the engine and back is the same flag, and an engine value that has a
/// flag taken to its flag and back is the same value: for rigid bodies (fixed and
/// dynamic), friction combine rules and motor models.
pub proof fn flag_round_trips(
    body: RigidBodyFlag,
    kind: RigidBodyKind,
    rule: FrictionCombineRule,
    engine_rule: CoefficientCombineRule,
    model: MotorModelWrapper,
    engine_model: MotorModel,
)
    ensures
        spec_rigid_body_flag(spec_rigid_body(body)) == body,
        rigid_body_has_flag(spec_rigid_body(body)),
        rigid_body_has_flag(kind) ==> spec_rigid_body(spec_rigid_body_flag(kind)) == kind,
        spec_friction_rule(spec_coefficient_rule(rule)) == rule,
        spec_coefficient_rule(spec_friction_rule(engine_rule)) == engine_rule,
        spec_motor_model_wrapper(spec_motor_model(model)) == model,
        spec_motor_model(spec_motor_model_wrapper(engine_model)) == engine_model,
{
}

/// The motor axes that the motor controller can select.
#[derive(Debug, Clone, Copy, PartialEq, Eq, Structural)]
pub enum MotorAxis {
    X,
    Y,
    Z,
    ANGX,
    ANGY,
    ANGZ,
}

impl Default for MotorAxis {
    fn default() -> (a: Self)
        ensures
            a == MotorAxis::ANGX,
    {
        MotorAxis::ANGX
    }
}

/// The position of an axis among a joint's six motors.
pub open spec fn spec_motor_index(a: MotorAxis) -> usize {
    match a {
        MotorAxis::X => 0,
        MotorAxis::Y => 1,
        MotorAxis::Z => 2,
        MotorAxis::ANGX => 3,
        MotorAxis::ANGY => 4,
        MotorAxis::ANGZ => 5,
    }
}

impl MotorAxis {
    /// The index of this axis's motor in a joint's six motors.
    pub fn index(&self) -> (i: usize)
        ensures
            i == spec_motor_index(*self),
            i < 6,
    {
        match self {
            MotorAxis::X => 0,
            MotorAxis::Y => 1,
            MotorAxis::Z => 2,
            MotorAxis::ANGX => 3,
            MotorAxis::ANGY => 4,
            MotorAxis::ANGZ => 5,
        }
    }

    /// Every axis, in declaration order.
    pub fn variants() -> (v: Vec<MotorAxis>)
        ensures
            v@ == seq![
                MotorAxis::X,
                MotorAxis::Y,
                MotorAxis::Z,
                MotorAxis::ANGX,
                MotorAxis::ANGY,
                MotorAxis::ANGZ,
            ],
    {
        vec![
            MotorAxis::X,
            MotorAxis::Y,
            MotorAxis::Z,
            MotorAxis::ANGX,
            MotorAxis::ANGY,
            MotorAxis::ANGZ,
        ]
    }
}

/// The axis whose motor the motor controller acts on.
#[derive(Debug, Clone, Copy, PartialEq, Eq, Structural)]
pub struct SelectedMotorAxis {
    pub axis: MotorAxis,
}

impl Default for SelectedMotorAxis {
    fn default() -> (s: Self)
        ensures
            s.axis == MotorAxis::ANGX,
    {
        SelectedMotorAxis { axis: MotorAxis::ANGX }
    }
}

/// The tools of the physics utilities window.
#[derive(Debug, Clone, Copy, PartialEq, Eq, Structural)]
pub enum PhysicsUtilityType {
    Joints,
}

impl Default for PhysicsUtilityType {
    fn default() -> (t: Self)
        ensures
            t == PhysicsUtilityType::Joints,
    {
        PhysicsUtilityType::Joints
    }
}

/// The tool selected in the physics utilities window.
#[derive(Debug, Clone, Copy, PartialEq, Eq, Structural)]
pub struct PhysicsUtilitySelection {
    pub selected: PhysicsUtilityType,
}

impl Default for PhysicsUtilitySelection {
    fn default() -> (s: Self)
        ensures
            s.selected == PhysicsUtilityType::Joints,
    {
        PhysicsUtilitySelection { selected: PhysicsUtilityType::Joints }
    }
}

} // verus!
