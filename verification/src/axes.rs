//! Bit masks for joint degrees of freedom and for physics groups.

use vstd::prelude::*;

verus! {

/// Bit of the translation along the local X axis.
pub const AXIS_X: u8 = 1;
/// Bit of the translation along the local Y axis.
pub const AXIS_Y: u8 = 2;
/// Bit of the translation along the local Z axis.
pub const AXIS_Z: u8 = 4;
/// Bit of the rotation about the local X axis.
pub const AXIS_ANG_X: u8 = 8;
/// Bit of the rotation about the local Y axis.
pub const AXIS_ANG_Y: u8 = 16;
/// Bit of the rotation about the local Z axis.
pub const AXIS_ANG_Z: u8 = 32;
/// Every bit that names a degree of freedom.
pub const AXES_ALL: u8 = 63;

/// The six degrees of freedom of a joint as bits of a `u8`:
/// bits 0..2 are the translations along X, Y, Z and bits 3..5 the rotations.
/// Only those six bits are ever set.
#[derive(Debug, Clone, Copy, PartialEq, Eq, Structural)]
pub struct JointAxesMaskWrapper(u8);

#[allow(non_snake_case)]
impl JointAxesMaskWrapper {
    /// The raw bits of the mask.
    pub closed spec fn spec_bits(self) -> u8 {
        self.0
    }

    /// Only the six defined bits are set; every value of the type satisfies this.
    #[verifier::type_invariant]
    pub open spec fn wf(self) -> bool {
        self.spec_bits() < 64
    }

    /// Whether degree of freedom `i` (0..6) is in the mask.
    pub open spec fn has(self, i: u8) -> bool {
        (self.spec_bits() >> i) & 1 == 1
    }

    pub fn bits(&self) -> (b: u8)
        ensures
            b == self.spec_bits(),
            b < 64,
    {
        proof {
            use_type_invariant(self);
        }
        self.0
    }

    /// Keeps the six defined bits of `bits` and drops the others.
    pub fn from_bits_truncate(bits: u8) -> (m: Self)
        ensures
            m.spec_bits() == bits & AXES_ALL,
    {
        let b = bits & AXES_ALL;
        assert(b < 64) by (bit_vector)
            requires
                b == bits & 63u8,
        ;
        JointAxesMaskWrapper(b)
    }

    /// The mask with exactly the bits of `bits`, or `None` when `bits` sets a bit
    /// that names no degree of freedom.
    pub fn from_bits(bits: u8) -> (m: Option<Self>)
        ensures
            m is Some <==> bits < 64,
            m matches Some(v) ==> v.spec_bits() == bits,
    {
        if bits < 64 {
            Some(JointAxesMaskWrapper(bits))
        } else {
            None
        }
    }

    pub fn empty() -> (m: Self)
        ensures
            m.spec_bits() == 0,
    {
        JointAxesMaskWrapper(0)
    }

    pub fn all() -> (m: Self)
        ensures
            m.spec_bits() == AXES_ALL,
    {
        JointAxesMaskWrapper(AXES_ALL)
    }

    /// Whether every bit of `other` is set in `self`.
    pub fn contains(&self, other: Self) -> (r: bool)
        ensures
            r == (self.spec_bits() & other.spec_bits() == other.spec_bits()),
    {
        (self.0 & other.0) == other.0
    }

    pub fn is_empty(&self) -> (r: bool)
        ensures
            r == (self.spec_bits() == 0),
    {
        self.0 == 0
    }

    /// The translational degree of freedom along the local X axis of a joint.
    pub fn X() -> (m: Self)
        ensures
            m.spec_bits() == AXIS_X,
    {
        JointAxesMaskWrapper(AXIS_X)
    }

    /// The translational degree of freedom along the local Y axis of a joint.
    pub fn Y() -> (m: Self)
        ensures
            m.spec_bits() == AXIS_Y,
    {
        JointAxesMaskWrapper(AXIS_Y)
    }

    /// The translational degree of freedom along the local Z axis of a joint.
    pub fn Z() -> (m: Self)
        ensures
            m.spec_bits() == AXIS_Z,
    {
        JointAxesMaskWrapper(AXIS_Z)
    }

    /// The angular degree of freedom about the local X axis of a joint.
    pub fn ANG_X() -> (m: Self)
        ensures
            m.spec_bits() == AXIS_ANG_X,
    {
        JointAxesMaskWrapper(AXIS_ANG_X)
    }

    /// The angular degree of freedom about the local Y axis of a joint.
    pub fn ANG_Y() -> (m: Self)
        ensures
            m.spec_bits() == AXIS_ANG_Y,
    {
        JointAxesMaskWrapper(AXIS_ANG_Y)
    }

    /// The angular degree of freedom about the local Z axis of a joint.
    pub fn ANG_Z() -> (m: Self)
        ensures
            m.spec_bits() == AXIS_ANG_Z,
    {
        JointAxesMaskWrapper(AXIS_ANG_Z)
    }

    /// The degrees of freedom locked by a revolute joint: X | Y | Z | ANG_Y | ANG_Z.
    pub fn LOCKED_REVOLUTE_AXES() -> (m: Self)
        ensures
            m.spec_bits() == AXIS_X | AXIS_Y | AXIS_Z | AXIS_ANG_Y | AXIS_ANG_Z,
    {
        let b = AXIS_X | AXIS_Y | AXIS_Z | AXIS_ANG_Y | AXIS_ANG_Z;
        assert(AXIS_X | AXIS_Y | AXIS_Z | AXIS_ANG_Y | AXIS_ANG_Z < 64u8) by (bit_vector);
        JointAxesMaskWrapper(b)
    }

    /// The degrees of freedom locked by a prismatic joint: Y | Z | ANG_X | ANG_Y | ANG_Z.
    pub fn LOCKED_PRISMATIC_AXES() -> (m: Self)
        ensures
            m.spec_bits() == AXIS_Y | AXIS_Z | AXIS_ANG_X | AXIS_ANG_Y | AXIS_ANG_Z,
    {
        let b = AXIS_Y | AXIS_Z | AXIS_ANG_X | AXIS_ANG_Y | AXIS_ANG_Z;
        assert(AXIS_Y | AXIS_Z | AXIS_ANG_X | AXIS_ANG_Y | AXIS_ANG_Z < 64u8) by (bit_vector);
        JointAxesMaskWrapper(b)
    }

    /// The degrees of freedom locked by a fixed joint: all six.
    pub fn LOCKED_FIXED_AXES() -> (m: Self)
        ensures
            m.spec_bits() == AXIS_X | AXIS_Y | AXIS_Z | AXIS_ANG_X | AXIS_ANG_Y | AXIS_ANG_Z,
    {
        let b = AXIS_X | AXIS_Y | AXIS_Z | AXIS_ANG_X | AXIS_ANG_Y | AXIS_ANG_Z;
        assert(AXIS_X | AXIS_Y | AXIS_Z | AXIS_ANG_X | AXIS_ANG_Y | AXIS_ANG_Z < 64u8) by (bit_vector);
        JointAxesMaskWrapper(b)
    }

    /// The degrees of freedom locked by a spherical joint: X | Y | Z.
    pub fn LOCKED_SPHERICAL_AXES() -> (m: Self)
        ensures
            m.spec_bits() == AXIS_X | AXIS_Y | AXIS_Z,
    {
        let b = AXIS_X | AXIS_Y | AXIS_Z;
        assert(AXIS_X | AXIS_Y | AXIS_Z < 64u8) by (bit_vector);
        JointAxesMaskWrapper(b)
    }

    /// The degrees of freedom left free by a revolute joint: ANG_X.
    pub fn FREE_REVOLUTE_AXES() -> (m: Self)
        ensures
            m.spec_bits() == AXIS_ANG_X,
    {
        JointAxesMaskWrapper(AXIS_ANG_X)
    }

    /// The degrees of freedom left free by a prismatic joint: X.
    pub fn FREE_PRISMATIC_AXES() -> (m: Self)
        ensures
            m.spec_bits() == AXIS_X,
    {
        JointAxesMaskWrapper(AXIS_X)
    }

    /// The degrees of freedom left free by a fixed joint: none.
    pub fn FREE_FIXED_AXES() -> (m: Self)
        ensures
            m.spec_bits() == 0,
    {
        JointAxesMaskWrapper(0)
    }

    /// The degrees of freedom left free by a spherical joint: ANG_X | ANG_Y | ANG_Z.
    pub fn FREE_SPHERICAL_AXES() -> (m: Self)
        ensures
            m.spec_bits() == AXIS_ANG_X | AXIS_ANG_Y | AXIS_ANG_Z,
    {
        let b = AXIS_ANG_X | AXIS_ANG_Y | AXIS_ANG_Z;
        assert(AXIS_ANG_X | AXIS_ANG_Y | AXIS_ANG_Z < 64u8) by (bit_vector);
        JointAxesMaskWrapper(b)
    }

    /// All translational degrees of freedom: X | Y | Z.
    pub fn LIN_AXES() -> (m: Self)
        ensures
            m.spec_bits() == AXIS_X | AXIS_Y | AXIS_Z,
    {
        let b = AXIS_X | AXIS_Y | AXIS_Z;
        assert(AXIS_X | AXIS_Y | AXIS_Z < 64u8) by (bit_vector);
        JointAxesMaskWrapper(b)
    }

    /// All angular degrees of freedom: ANG_X | ANG_Y | ANG_Z.
    pub fn ANG_AXES() -> (m: Self)
        ensures
            m.spec_bits() == AXIS_ANG_X | AXIS_ANG_Y | AXIS_ANG_Z,
    {
        let b = AXIS_ANG_X | AXIS_ANG_Y | AXIS_ANG_Z;
        assert(AXIS_ANG_X | AXIS_ANG_Y | AXIS_ANG_Z < 64u8) by (bit_vector);
        JointAxesMaskWrapper(b)
    }
}

impl Default for JointAxesMaskWrapper {
    fn default() -> (m: Self)
        ensures
            m.spec_bits() == 0,
    {
        JointAxesMaskWrapper(0)
    }
}


/// The kinds of joint that a URDF file names.
#[derive(Debug, Clone, Copy, PartialEq, Eq, Structural)]
pub enum UrdfJointKind {
    Revolute,
    Continuous,
    Prismatic,
    Fixed,
    Floating,
    Planar,
    Spherical,
}

/// Bits locked by a URDF joint: all six for a fixed joint; otherwise all six
/// with the rotation about each axis whose unit component is 1 set free.
pub open spec fn urdf_locked_bits(kind: UrdfJointKind, axis: [u8; 3]) -> u8 {
    if kind == UrdfJointKind::Fixed {
        AXES_ALL
    } else {
        AXES_ALL ^ (axis@[0] << 3u8) ^ (axis@[1] << 4u8) ^ (axis@[2] << 5u8)
    }
}

/// The joint kind written to a URDF file for a joint's locked axes: a joint that locks
/// all six axes is written as `Fixed`, any other as `Continuous`.
pub open spec fn spec_urdf_joint_kind_for(locked: JointAxesMaskWrapper) -> UrdfJointKind {
    if locked.spec_bits() == AXES_ALL {
        UrdfJointKind::Fixed
    } else {
        UrdfJointKind::Continuous
    }
}


/// Every mask is kept whole by truncation to the defined bits, and truncation always
/// yields a valid mask: `from_bits_truncate` of a mask's bits gives the mask back.
pub proof fn truncation_keeps_masks(m: JointAxesMaskWrapper, bits: u8)
    requires
        m.wf(),
    ensures
        m.spec_bits() & AXES_ALL == m.spec_bits(),
        bits & AXES_ALL < 64,
{
    let b = m.spec_bits();
    assert(b < 64u8 ==> b & 63u8 == b) by (bit_vector);
    assert(bits & 63u8 < 64u8) by (bit_vector);
}

/// For each joint kind, its locked and its free axes split the six degrees of freedom:
/// together they are all six, and no axis is both; likewise the linear and the angular
/// axes.
pub proof fn locked_and_free_axes_partition()
    ensures
        (AXIS_X | AXIS_Y | AXIS_Z | AXIS_ANG_Y | AXIS_ANG_Z) | AXIS_ANG_X == AXES_ALL,
        (AXIS_X | AXIS_Y | AXIS_Z | AXIS_ANG_Y | AXIS_ANG_Z) & AXIS_ANG_X == 0,
        (AXIS_Y | AXIS_Z | AXIS_ANG_X | AXIS_ANG_Y | AXIS_ANG_Z) | AXIS_X == AXES_ALL,
        (AXIS_Y | AXIS_Z | AXIS_ANG_X | AXIS_ANG_Y | AXIS_ANG_Z) & AXIS_X == 0,
        (AXIS_X | AXIS_Y | AXIS_Z | AXIS_ANG_X | AXIS_ANG_Y | AXIS_ANG_Z) | 0u8 == AXES_ALL,
        (AXIS_X | AXIS_Y | AXIS_Z | AXIS_ANG_X | AXIS_ANG_Y | AXIS_ANG_Z) & 0u8 == 0,
        (AXIS_X | AXIS_Y | AXIS_Z) | (AXIS_ANG_X | AXIS_ANG_Y | AXIS_ANG_Z) == AXES_ALL,
        (AXIS_X | AXIS_Y | AXIS_Z) & (AXIS_ANG_X | AXIS_ANG_Y | AXIS_ANG_Z) == 0,
{
    assert(
        (1u8 | 2u8 | 4u8 | 16u8 | 32u8) | 8u8 == 63u8
        && (1u8 | 2u8 | 4u8 | 16u8 | 32u8) & 8u8 == 0u8
        && (2u8 | 4u8 | 8u8 | 16u8 | 32u8) | 1u8 == 63u8
        && (2u8 | 4u8 | 8u8 | 16u8 | 32u8) & 1u8 == 0u8
        && (1u8 | 2u8 | 4u8 | 8u8 | 16u8 | 32u8) | 0u8 == 63u8
        && (1u8 | 2u8 | 4u8 | 8u8 | 16u8 | 32u8) & 0u8 == 0u8
        && (1u8 | 2u8 | 4u8) | (8u8 | 16u8 | 32u8) == 63u8
        && (1u8 | 2u8 | 4u8) & (8u8 | 16u8 | 32u8) == 0u8
    ) by (bit_vector);
}

/// A joint read from a URDF file locks all six axes when it is fixed. Any other joint
/// keeps the three translations locked and frees the rotation about each axis whose
/// component is 1; a joint about the X axis is locked as a revolute joint.
pub proof fn urdf_locked_axes_free_rotations(kind: UrdfJointKind, axis: [u8; 3])
    requires
        axis@[0] <= 1,
        axis@[1] <= 1,
        axis@[2] <= 1,
    ensures
        kind == UrdfJointKind::Fixed ==> urdf_locked_bits(kind, axis) == AXES_ALL,
        kind != UrdfJointKind::Fixed ==> {
            let b = urdf_locked_bits(kind, axis);
            &&& b & (AXIS_X | AXIS_Y | AXIS_Z) == AXIS_X | AXIS_Y | AXIS_Z
            &&& (b & AXIS_ANG_X == 0 <==> axis@[0] == 1)
            &&& (b & AXIS_ANG_Y == 0 <==> axis@[1] == 1)
            &&& (b & AXIS_ANG_Z == 0 <==> axis@[2] == 1)
            &&& b < 64
        },
        kind != UrdfJointKind::Fixed && axis@ == seq![1u8, 0u8, 0u8]
            ==> urdf_locked_bits(kind, axis) == AXIS_X | AXIS_Y | AXIS_Z | AXIS_ANG_Y | AXIS_ANG_Z,
{
    let a0 = axis@[0];
    let a1 = axis@[1];
    let a2 = axis@[2];
    let b = urdf_locked_bits(kind, axis);
    if kind != UrdfJointKind::Fixed {
        assert(b == 63u8 ^ (a0 << 3u8) ^ (a1 << 4u8) ^ (a2 << 5u8));
        assert({
            &&& b & 7u8 == 7u8
            &&& (b & 8u8 == 0u8 <==> a0 == 1u8)
            &&& (b & 16u8 == 0u8 <==> a1 == 1u8)
            &&& (b & 32u8 == 0u8 <==> a2 == 1u8)
            &&& b < 64u8
            &&& (a0 == 1u8 && a1 == 0u8 && a2 == 0u8 ==> b == 1u8 | 2u8 | 4u8 | 16u8 | 32u8)
        }) by (bit_vector)
            requires
                a0 <= 1u8,
                a1 <= 1u8,
                a2 <= 1u8,
                b == 63u8 ^ (a0 << 3u8) ^ (a1 << 4u8) ^ (a2 << 5u8),
        ;
        assert(1u8 | 2u8 | 4u8 == 7u8) by (bit_vector);
    }
}

/// A joint read from a URDF file is written back with its kind: a fixed joint locks all
/// six axes and is written as `Fixed`; a joint of another kind that turns about some
/// axis leaves a rotation free and is written as `Continuous`.
pub proof fn urdf_joint_kind_round_trip(kind: UrdfJointKind, axis: [u8; 3], locked: JointAxesMaskWrapper)
    requires
        axis@[0] <= 1,
        axis@[1] <= 1,
        axis@[2] <= 1,
        locked.spec_bits() == urdf_locked_bits(kind, axis),
    ensures
        kind == UrdfJointKind::Fixed ==> spec_urdf_joint_kind_for(locked) == UrdfJointKind::Fixed,
        kind != UrdfJointKind::Fixed && (axis@[0] == 1 || axis@[1] == 1 || axis@[2] == 1)
            ==> spec_urdf_joint_kind_for(locked) == UrdfJointKind::Continuous,
{
    urdf_locked_axes_free_rotations(kind, axis);
    let b = locked.spec_bits();
    assert((b & 8u8 == 0u8 || b & 16u8 == 0u8 || b & 32u8 == 0u8) ==> b != 63u8) by (bit_vector);
}

/// A joint is written to a URDF file as fixed exactly when it locks all six degrees of
/// freedom; a joint that leaves any translation or rotation free, such as a prismatic
/// joint free along X, is written as continuous.
pub proof fn urdf_joint_kind_is_fixed_only_when_all_locked(locked: JointAxesMaskWrapper)
    requires
        locked.wf(),
    ensures
        (spec_urdf_joint_kind_for(locked) == UrdfJointKind::Fixed) <==> (
            locked.has(0) && locked.has(1) && locked.has(2) && locked.has(3) && locked.has(4) && locked.has(5)
        ),
        spec_urdf_joint_kind_for(locked) == UrdfJointKind::Fixed
            || spec_urdf_joint_kind_for(locked) == UrdfJointKind::Continuous,
        locked.spec_bits() == AXIS_Y | AXIS_Z | AXIS_ANG_X | AXIS_ANG_Y | AXIS_ANG_Z
            ==> spec_urdf_joint_kind_for(locked) == UrdfJointKind::Continuous,
{
    let b = locked.spec_bits();
    assert(b < 64u8 ==> (b == 63u8 <==> (
        (b >> 0u8) & 1u8 == 1u8 && (b >> 1u8) & 1u8 == 1u8 && (b >> 2u8) & 1u8 == 1u8
        && (b >> 3u8) & 1u8 == 1u8 && (b >> 4u8) & 1u8 == 1u8 && (b >> 5u8) & 1u8 == 1u8
    ))) by (bit_vector);
    assert(2u8 | 4u8 | 8u8 | 16u8 | 32u8 == 62u8) by (bit_vector);
}

impl JointAxesMaskWrapper {
    /// Locked axes of a joint read from a URDF file. `axis` holds each component of
    /// the joint axis clamped to `0..=1` and truncated to an integer, so each entry is 0 or 1.
    pub fn locked_for_urdf_axis(kind: UrdfJointKind, axis: [u8; 3]) -> (m: Self)
        requires
            axis@[0] <= 1,
            axis@[1] <= 1,
            axis@[2] <= 1,
        ensures
            m.spec_bits() == urdf_locked_bits(kind, axis),
    {
        let default_locked_axes = Self::LOCKED_FIXED_AXES();
        if kind != UrdfJointKind::Fixed {
            let a0 = axis[0];
            let a1 = axis[1];
            let a2 = axis[2];
            let mut x = default_locked_axes.bits();
            assert(x == 63u8) by (bit_vector)
                requires
                    x == 1u8 | 2u8 | 4u8 | 8u8 | 16u8 | 32u8,
            ;
            x ^= a0 << 3u8;
            x ^= a1 << 4u8;
            x ^= a2 << 5u8;
            assert(x < 64u8) by (bit_vector)
                requires
                    a0 <= 1,
                    a1 <= 1,
                    a2 <= 1,
                    x == 63u8 ^ (a0 << 3u8) ^ (a1 << 4u8) ^ (a2 << 5u8),
            ;
            match Self::from_bits(x) {
                Some(m) => m,
                None => default_locked_axes,
            }
        } else {
            proof {
                let b = default_locked_axes.spec_bits();
                assert(b == 63u8) by (bit_vector)
                    requires
                        b == 1u8 | 2u8 | 4u8 | 8u8 | 16u8 | 32u8,
                ;
            }
            default_locked_axes
        }
    }

    /// The URDF axis of a joint: 1 for each rotation that the joint limits, else 0.
    pub fn urdf_axis_from_limits(&self) -> (axis: [u32; 3])
        ensures
            axis@[0] == (if self.has(3) { 1u32 } else { 0u32 }),
            axis@[1] == (if self.has(4) { 1u32 } else { 0u32 }),
            axis@[2] == (if self.has(5) { 1u32 } else { 0u32 }),
    {
        let b = self.bits();
        let x: u32 = if self.contains(Self::ANG_X()) { 1 } else { 0 };
        let y: u32 = if self.contains(Self::ANG_Y()) { 1 } else { 0 };
        let z: u32 = if self.contains(Self::ANG_Z()) { 1 } else { 0 };
        assert(((b & 8u8) == 8u8) == ((b >> 3u8) & 1u8 == 1u8)) by (bit_vector);
        assert(((b & 16u8) == 16u8) == ((b >> 4u8) & 1u8 == 1u8)) by (bit_vector);
        assert(((b & 32u8) == 32u8) == ((b >> 5u8) & 1u8 == 1u8)) by (bit_vector);
        [x, y, z]
    }

    /// The joint kind written to a URDF file for these locked axes.
    pub fn urdf_joint_kind(&self) -> (k: UrdfJointKind)
        ensures
            k == spec_urdf_joint_kind_for(*self),
    {
        if self.bits() == AXES_ALL {
            UrdfJointKind::Fixed
        } else {
            UrdfJointKind::Continuous
        }
    }
}

/// Whether checkbox `i` (0..8) of the joint inspector is ticked for a mask byte: the
/// inspector shows one checkbox per bit of the byte, most significant bit first.
pub open spec fn inspector_checkbox(bits: u8, i: int) -> bool {
    (bits >> ((7 - i) as u8)) & 1u8 == 1u8
}

/// The byte that ticked checkboxes stand for, most significant bit first.
pub open spec fn checkbox_byte(c: Seq<bool>) -> u8 {
    (if c[0] { 128u8 } else { 0u8 }) | (if c[1] { 64u8 } else { 0u8 }) | (if c[2] { 32u8 } else { 0u8 })
        | (if c[3] { 16u8 } else { 0u8 }) | (if c[4] { 8u8 } else { 0u8 }) | (if c[5] { 4u8 } else { 0u8 })
        | (if c[6] { 2u8 } else { 0u8 }) | (if c[7] { 1u8 } else { 0u8 })
}

impl JointAxesMaskWrapper {
    /// The checkboxes that the joint inspector shows for this mask, most significant bit first.
    pub fn inspector_checkboxes(&self) -> (c: [bool; 8])
        ensures
            forall|i: int| 0 <= i < 8 ==> c@[i] == inspector_checkbox(self.spec_bits(), i),
    {
        let b = self.bits();
        let c = [
            (b >> 7u8) & 1u8 == 1u8,
            (b >> 6u8) & 1u8 == 1u8,
            (b >> 5u8) & 1u8 == 1u8,
            (b >> 4u8) & 1u8 == 1u8,
            (b >> 3u8) & 1u8 == 1u8,
            (b >> 2u8) & 1u8 == 1u8,
            (b >> 1u8) & 1u8 == 1u8,
            (b >> 0u8) & 1u8 == 1u8,
        ];
        assert forall|i: int| 0 <= i < 8 implies c@[i] == inspector_checkbox(self.spec_bits(), i) by {
            assert(i == 0 || i == 1 || i == 2 || i == 3 || i == 4 || i == 5 || i == 6 || i == 7);
        }
        c
    }

    /// Sets the mask from the joint inspector's checkboxes; the bits beyond the six axes
    /// are dropped. Returns whether the mask changed: an unchanged mask is not written,
    /// so the component is not marked as changed.
    pub fn apply_inspector_checkboxes(&mut self, checks: [bool; 8]) -> (changed: bool)
        ensures
            final(self).spec_bits() == checkbox_byte(checks@) & AXES_ALL,
            changed == (old(self).spec_bits() != checkbox_byte(checks@) & AXES_ALL),
    {
        let byte: u8 = (if checks[0] { 128u8 } else { 0u8 }) | (if checks[1] { 64u8 } else { 0u8 })
            | (if checks[2] { 32u8 } else { 0u8 }) | (if checks[3] { 16u8 } else { 0u8 })
            | (if checks[4] { 8u8 } else { 0u8 }) | (if checks[5] { 4u8 } else { 0u8 })
            | (if checks[6] { 2u8 } else { 0u8 }) | (if checks[7] { 1u8 } else { 0u8 });
        let new_mask = Self::from_bits_truncate(byte);
        if self.bits() != new_mask.bits() {
            *self = new_mask;
            true
        } else {
            false
        }
    }
}

/// The checkboxes that the joint inspector shows for a mask stand, cut to the six axes,
/// for the mask's own bits: applying them as shown writes the same mask.
pub proof fn inspector_checkboxes_round_trip(m: JointAxesMaskWrapper, c: Seq<bool>)
    requires
        m.wf(),
        c.len() == 8,
        forall|i: int| 0 <= i < 8 ==> c[i] == inspector_checkbox(m.spec_bits(), i),
    ensures
        checkbox_byte(c) & AXES_ALL == m.spec_bits(),
{
    let b = m.spec_bits();
    let (c0, c1, c2, c3, c4, c5, c6, c7) = (c[0], c[1], c[2], c[3], c[4], c[5], c[6], c[7]);
    assert(c0 == inspector_checkbox(b, 0) && c1 == inspector_checkbox(b, 1) && c2 == inspector_checkbox(b, 2)
        && c3 == inspector_checkbox(b, 3) && c4 == inspector_checkbox(b, 4) && c5 == inspector_checkbox(b, 5)
        && c6 == inspector_checkbox(b, 6) && c7 == inspector_checkbox(b, 7));
    assert(((if c0 { 128u8 } else { 0u8 }) | (if c1 { 64u8 } else { 0u8 }) | (if c2 { 32u8 } else { 0u8 })
        | (if c3 { 16u8 } else { 0u8 }) | (if c4 { 8u8 } else { 0u8 }) | (if c5 { 4u8 } else { 0u8 })
        | (if c6 { 2u8 } else { 0u8 }) | (if c7 { 1u8 } else { 0u8 })) & 63u8 == b) by (bit_vector)
        requires
            b < 64u8,
            c0 == ((b >> 7u8) & 1u8 == 1u8),
            c1 == ((b >> 6u8) & 1u8 == 1u8),
            c2 == ((b >> 5u8) & 1u8 == 1u8),
            c3 == ((b >> 4u8) & 1u8 == 1u8),
            c4 == ((b >> 3u8) & 1u8 == 1u8),
            c5 == ((b >> 2u8) & 1u8 == 1u8),
            c6 == ((b >> 1u8) & 1u8 == 1u8),
            c7 == ((b >> 0u8) & 1u8 == 1u8),
    ;
}

} // verus!
