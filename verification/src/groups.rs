//! Collision and solver groups: 32 membership bits and 32 filter bits.

use vstd::prelude::*;

verus! {

/// A set of physics groups as the bits of a `u32`; every one of the 32 bits names a group.
#[derive(Debug, Clone, Copy, PartialEq, Eq, Structural)]
pub struct GroupWrapper(pub u32);

#[allow(non_snake_case)]
impl GroupWrapper {
    pub fn bits(&self) -> (b: u32)
        ensures
            b == self.0,
    {
        self.0
    }

    /// Keeps the bits that name a group; all 32 do, so nothing is dropped.
    pub fn from_bits_truncate(bits: u32) -> (g: Self)
        ensures
            g.0 == bits,
    {
        GroupWrapper(bits)
    }

    /// All of the groups.
    pub fn ALL() -> (g: Self)
        ensures
            g.0 == u32::MAX,
    {
        GroupWrapper(u32::MAX)
    }

    /// None of the groups.
    pub fn NONE() -> (g: Self)
        ensures
            g.0 == 0,
    {
        GroupWrapper(0)
    }

    /// All of the groups.
    pub fn all() -> (g: Self)
        ensures
            g.0 == u32::MAX,
    {
        GroupWrapper(u32::MAX)
    }

    /// The group n°1.
    pub fn GROUP_1() -> (g: Self)
        ensures
            g.0 == 1u32 << 0u32,
    {
        GroupWrapper(1u32 << 0u32)
    }

    /// The group n°2.
    pub fn GROUP_2() -> (g: Self)
        ensures
            g.0 == 1u32 << 1u32,
    {
        GroupWrapper(1u32 << 1u32)
    }

    /// The group n°3.
    pub fn GROUP_3() -> (g: Self)
        ensures
            g.0 == 1u32 << 2u32,
    {
        GroupWrapper(1u32 << 2u32)
    }

    /// The group n°4.
    pub fn GROUP_4() -> (g: Self)
        ensures
            g.0 == 1u32 << 3u32,
    {
        GroupWrapper(1u32 << 3u32)
    }

    /// The group n°5.
    pub fn GROUP_5() -> (g: Self)
        ensures
            g.0 == 1u32 << 4u32,
    {
        GroupWrapper(1u32 << 4u32)
    }

    /// The group n°6.
    pub fn GROUP_6() -> (g: Self)
        ensures
            g.0 == 1u32 << 5u32,
    {
        GroupWrapper(1u32 << 5u32)
    }

    /// The group n°7.
    pub fn GROUP_7() -> (g: Self)
        ensures
            g.0 == 1u32 << 6u32,
    {
        GroupWrapper(1u32 << 6u32)
    }

    /// The group n°8.
    pub fn GROUP_8() -> (g: Self)
        ensures
            g.0 == 1u32 << 7u32,
    {
        GroupWrapper(1u32 << 7u32)
    }

    /// The group n°9.
    pub fn GROUP_9() -> (g: Self)
        ensures
            g.0 == 1u32 << 8u32,
    {
        GroupWrapper(1u32 << 8u32)
    }

    /// The group n°10.
    pub fn GROUP_10() -> (g: Self)
        ensures
            g.0 == 1u32 << 9u32,
    {
        GroupWrapper(1u32 << 9u32)
    }

    /// The group n°11.
    pub fn GROUP_11() -> (g: Self)
        ensures
            g.0 == 1u32 << 10u32,
    {
        GroupWrapper(1u32 << 10u32)
    }

    /// The group n°12.
    pub fn GROUP_12() -> (g: Self)
        ensures
            g.0 == 1u32 << 11u32,
    {
        GroupWrapper(1u32 << 11u32)
    }

    /// The group n°13.
    pub fn GROUP_13() -> (g: Self)
        ensures
            g.0 == 1u32 << 12u32,
    {
        GroupWrapper(1u32 << 12u32)
    }

    /// The group n°14.
    pub fn GROUP_14() -> (g: Self)
        ensures
            g.0 == 1u32 << 13u32,
    {
        GroupWrapper(1u32 << 13u32)
    }

    /// The group n°15.
    pub fn GROUP_15() -> (g: Self)
        ensures
            g.0 == 1u32 << 14u32,
    {
        GroupWrapper(1u32 << 14u32)
    }

    /// The group n°16.
    pub fn GROUP_16() -> (g: Self)
        ensures
            g.0 == 1u32 << 15u32,
    {
        GroupWrapper(1u32 << 15u32)
    }

    /// The group n°17.
    pub fn GROUP_17() -> (g: Self)
        ensures
            g.0 == 1u32 << 16u32,
    {
        GroupWrapper(1u32 << 16u32)
    }

    /// The group n°18.
    pub fn GROUP_18() -> (g: Self)
        ensures
            g.0 == 1u32 << 17u32,
    {
        GroupWrapper(1u32 << 17u32)
    }

    /// The group n°19.
    pub fn GROUP_19() -> (g: Self)
        ensures
            g.0 == 1u32 << 18u32,
    {
        GroupWrapper(1u32 << 18u32)
    }

    /// The group n°20.
    pub fn GROUP_20() -> (g: Self)
        ensures
            g.0 == 1u32 << 19u32,
    {
        GroupWrapper(1u32 << 19u32)
    }

    /// The group n°21.
    pub fn GROUP_21() -> (g: Self)
        ensures
            g.0 == 1u32 << 20u32,
    {
        GroupWrapper(1u32 << 20u32)
    }

    /// The group n°22.
    pub fn GROUP_22() -> (g: Self)
        ensures
            g.0 == 1u32 << 21u32,
    {
        GroupWrapper(1u32 << 21u32)
    }

    /// The group n°23.
    pub fn GROUP_23() -> (g: Self)
        ensures
            g.0 == 1u32 << 22u32,
    {
        GroupWrapper(1u32 << 22u32)
    }

    /// The group n°24.
    pub fn GROUP_24() -> (g: Self)
        ensures
            g.0 == 1u32 << 23u32,
    {
        GroupWrapper(1u32 << 23u32)
    }

    /// The group n°25.
    pub fn GROUP_25() -> (g: Self)
        ensures
            g.0 == 1u32 << 24u32,
    {
        GroupWrapper(1u32 << 24u32)
    }

    /// The group n°26.
    pub fn GROUP_26() -> (g: Self)
        ensures
            g.0 == 1u32 << 25u32,
    {
        GroupWrapper(1u32 << 25u32)
    }

    /// The group n°27.
    pub fn GROUP_27() -> (g: Self)
        ensures
            g.0 == 1u32 << 26u32,
    {
        GroupWrapper(1u32 << 26u32)
    }

    /// The group n°28.
    pub fn GROUP_28() -> (g: Self)
        ensures
            g.0 == 1u32 << 27u32,
    {
        GroupWrapper(1u32 << 27u32)
    }

    /// The group n°29.
    pub fn GROUP_29() -> (g: Self)
        ensures
            g.0 == 1u32 << 28u32,
    {
        GroupWrapper(1u32 << 28u32)
    }

    /// The group n°30.
    pub fn GROUP_30() -> (g: Self)
        ensures
            g.0 == 1u32 << 29u32,
    {
        GroupWrapper(1u32 << 29u32)
    }

    /// The group n°31.
    pub fn GROUP_31() -> (g: Self)
        ensures
            g.0 == 1u32 << 30u32,
    {
        GroupWrapper(1u32 << 30u32)
    }

    /// The group n°32.
    pub fn GROUP_32() -> (g: Self)
        ensures
            g.0 == 1u32 << 31u32,
    {
        GroupWrapper(1u32 << 31u32)
    }
}

impl Default for GroupWrapper {
    /// All of the groups.
    fn default() -> (g: Self)
        ensures
            g.0 == u32::MAX,
    {
        GroupWrapper(u32::MAX)
    }
}

/// Solver groups: which pairs of colliders get contact forces computed.
#[derive(Debug, Clone, Copy, PartialEq, Eq, Structural)]
pub struct SolverGroupsFlag {
    pub memberships: GroupWrapper,
    pub filters: GroupWrapper,
}

impl Default for SolverGroupsFlag {
    /// Member of every group, interacting with every group.
    fn default() -> (f: Self)
        ensures
            f.memberships.0 == u32::MAX,
            f.filters.0 == u32::MAX,
    {
        SolverGroupsFlag { memberships: GroupWrapper::ALL(), filters: GroupWrapper::ALL() }
    }
}

/// Solver groups of a fixed physics body: every group, both ways.
pub fn PHYSICS_FIXED() -> (f: SolverGroupsFlag)
    ensures
        f.memberships.0 == u32::MAX,
        f.filters.0 == u32::MAX,
{
    SolverGroupsFlag { memberships: GroupWrapper::ALL(), filters: GroupWrapper::ALL() }
}

/// The flag of the engine's solver groups with bits `memberships` and `filters`.
pub open spec fn spec_solver_groups_flag(memberships: u32, filters: u32) -> SolverGroupsFlag {
    SolverGroupsFlag { memberships: GroupWrapper(memberships), filters: GroupWrapper(filters) }
}

impl SolverGroupsFlag {
    /// The flag of the engine's solver groups, given by their bits.
    pub fn from_solver_groups(memberships: u32, filters: u32) -> (f: Self)
        ensures
            f == spec_solver_groups_flag(memberships, filters),
    {
        SolverGroupsFlag {
            memberships: GroupWrapper::from_bits_truncate(memberships),
            filters: GroupWrapper::from_bits_truncate(filters),
        }
    }

    /// The bits of the engine's solver groups (memberships, filters) for this flag.
    pub fn to_solver_groups(&self) -> (g: (u32, u32))
        ensures
            g == (self.memberships.0, self.filters.0),
    {
        (self.memberships.bits(), self.filters.bits())
    }
}

/// A solver-groups flag taken to the engine's groups and back is the same flag, and the
/// engine's groups taken to a flag and back are the same groups.
pub proof fn solver_groups_round_trip(f: SolverGroupsFlag, memberships: u32, filters: u32)
    ensures
        spec_solver_groups_flag(f.memberships.0, f.filters.0) == f,
        ({
            let g = spec_solver_groups_flag(memberships, filters);
            (g.memberships.0, g.filters.0) == (memberships, filters)
        }),
{
}

/// Collision groups: which pairs of colliders get contacts computed at all.
#[derive(Debug, Clone, Copy, PartialEq, Eq, Structural)]
pub struct CollisionGroupsFlag {
    pub memberships: GroupWrapper,
    pub filters: GroupWrapper,
}

impl CollisionGroupsFlag {
    /// The bits of the engine's collision groups (memberships, filters) for this flag.
    pub fn to_collision_groups(self) -> (g: (u32, u32))
        ensures
            g == (self.memberships.0, self.filters.0),
    {
        (self.memberships.bits(), self.filters.bits())
    }
}

} // verus!
