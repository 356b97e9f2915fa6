//! Bookkeeping for disassembled structures: which assembly every spawned part
//! belongs to, which children each staged entity has produced so far, and how
//! the children of a structure are placed.

use vstd::prelude::*;
use std::collections::{HashMap, HashSet};

verus! {

broadcast use vstd::std_specs::hash::group_hash_axioms;

/// Id of an assembled structure.
#[derive(Debug, Clone, Copy, PartialEq, Eq, Structural)]
pub struct AssemblyId(pub i64);

/// The entities (by their bits) that make up each assembly.
pub struct Assemblies(pub HashMap<i64, HashSet<u64>>);

/// The members of every assembly, as sets.
pub open spec fn assembly_members(m: Map<i64, HashSet<u64>>) -> Map<i64, Set<u64>> {
    m.map_values(|s: HashSet<u64>| s@)
}

/// Members of assembly `id` after `children` join it.
pub open spec fn members_with(m: Map<i64, Set<u64>>, id: i64, children: Seq<u64>) -> Set<u64> {
    (if m.contains_key(id) { m[id] } else { Set::empty() }).union(children.to_set())
}

/// Joining an assembly only adds members: the assembly keeps every member it had and
/// gains every child that joins, and nothing else.
pub proof fn joining_keeps_members(m: Map<i64, Set<u64>>, id: i64, children: Seq<u64>, x: u64)
    ensures
        m.contains_key(id) ==> m[id].subset_of(members_with(m, id, children)),
        children.contains(x) ==> members_with(m, id, children).contains(x),
        members_with(m, id, children).contains(x) ==> children.contains(x) || (m.contains_key(id) && m[id].contains(x)),
{
}

/// Recording children for a staged entity keeps those recorded before, in order, and
/// appends the new ones after them.
pub proof fn recording_appends_children(m: Map<u64, Vec<u64>>, e: u64, children: Seq<u64>)
    ensures
        m.contains_key(e) ==> staged_with(m, e, children).take(m[e]@.len() as int) == m[e]@,
        staged_with(m, e, children).skip(staged_with(m, e, children).len() - children.len()) == children,
{
    let s = staged_with(m, e, children);
    let base = if m.contains_key(e) { m[e]@ } else { Seq::<u64>::empty() };
    assert(s.take(base.len() as int) =~= base);
    assert(s.skip(s.len() - children.len()) =~= children);
}

/// Whether `id` is the next assembly id given the ids in use: one more than the largest
/// of them, or 1 when none is above 0. Such an id is never in use.
pub open spec fn is_next_id(used: Set<i64>, id: i64) -> bool {
    &&& id >= 1
    &&& forall|k: i64| #[trigger] used.contains(k) ==> k < id
    &&& (id == 1 || used.contains((id - 1) as i64))
}

/// The next assembly id is not in use, and only one id is the next.
pub proof fn next_id_is_fresh(used: Set<i64>, id: i64, other: i64)
    requires
        is_next_id(used, id),
    ensures
        !used.contains(id),
        is_next_id(used, other) ==> other == id,
{
    if is_next_id(used, other) {
        if other < id {
            assert(other != 1 ==> used.contains((other - 1) as i64));
            assert(used.contains((id - 1) as i64) || id == 1);
        }
    }
}

impl Assemblies {
    pub open spec fn members(&self) -> Map<i64, Set<u64>> {
        assembly_members(self.0@)
    }

    pub fn new() -> (a: Self)
        ensures
            a.members() == Map::<i64, Set<u64>>::empty(),
    {
        let a = Assemblies(HashMap::new());
        assert(a.members() =~= Map::<i64, Set<u64>>::empty());
        a
    }

    /// A fresh id: one more than the largest id in use, or 1 when no id above 0 is in use.
    pub fn next_id(&self) -> (id: i64)
        requires
            forall|k: i64| #[trigger] self.0@.contains_key(k) ==> k < i64::MAX,
        ensures
            is_next_id(self.0@.dom(), id),
    {
        let mut largest: i64 = 0;
        for k in it: self.0.keys()
            invariant
                it.seq().unref().to_set() == self.0@.dom(),
                forall|k: i64| #[trigger] self.0@.contains_key(k) ==> k < i64::MAX,
                largest >= 0,
                largest == 0 || self.0@.contains_key(largest),
                forall|j: int| 0 <= j < it.index() ==> *it.seq()[j] <= largest,
                it.index() == it.seq().len() ==> forall|x: i64| #[trigger] self.0@.dom().contains(x) ==> x <= largest,
        {
            proof {
                assert(it.seq().unref().contains(*k));
            }
            if *k > largest {
                largest = *k;
            }
            assert forall|x: i64| it.index() + 1 == it.seq().len() && #[trigger] self.0@.dom().contains(x)
                implies x <= largest by {
                assert(it.seq().unref().to_set().contains(x));
                let j = choose|j: int| 0 <= j < it.seq().unref().len() && it.seq().unref()[j] == x;
                assert(*it.seq()[j] == x);
            }
        }
        largest + 1
    }

    /// Adds `children` to the members of assembly `id`, creating it when it does not exist.
    pub fn add_members(&mut self, id: i64, children: &Vec<u64>)
        ensures
            final(self).members() == old(self).members().insert(
                id,
                members_with(old(self).members(), id, children@),
            ),
            final(self).0@.dom() == old(self).0@.dom().insert(id),
    {
        let ghost old_members = self.members();
        let mut set = match self.0.remove(&id) {
            Some(s) => s,
            None => HashSet::new(),
        };
        let ghost base = if old_members.contains_key(id) { old_members[id] } else { Set::<u64>::empty() };
        assert(set@ == base);
        let n = children.len();
        for i in 0..n
            invariant
                n == children.len(),
                set@ == base.union(children@.take(i as int).to_set()),
        {
            set.insert(children[i]);
            proof {
                assert(children@.take(i + 1) =~= children@.take(i as int).push(children@[i as int]));
                children@.take(i as int).lemma_push_to_set_commute(children@[i as int]);
                assert(set@ =~= base.union(children@.take(i + 1).to_set()));
            }
        }
        assert(children@.take(n as int) =~= children@);
        self.0.insert(id, set);
        assert(self.members() =~= old(self).members().insert(id, members_with(old_members, id, children@)));
    }
}

/// The children that each staged entity has produced so far, in order.
pub struct InitializedStagers(pub HashMap<u64, Vec<u64>>);

/// The children recorded for `e` after `children` are appended to them.
pub open spec fn staged_with(m: Map<u64, Vec<u64>>, e: u64, children: Seq<u64>) -> Seq<u64> {
    (if m.contains_key(e) { m[e]@ } else { Seq::empty() }) + children
}

impl InitializedStagers {
    pub fn new() -> (s: Self)
        ensures
            s.0@ == Map::<u64, Vec<u64>>::empty(),
    {
        InitializedStagers(HashMap::new())
    }

    /// Appends `children` to those recorded for `e`.
    pub fn record(&mut self, e: u64, children: &Vec<u64>)
        ensures
            final(self).0@.dom() == old(self).0@.dom().insert(e),
            final(self).0@[e]@ == staged_with(old(self).0@, e, children@),
            forall|k: u64| k != e && #[trigger] old(self).0@.contains_key(k) ==> final(self).0@[k] == old(self).0@[k],
    {
        let ghost old_map = self.0@;
        let mut list = match self.0.remove(&e) {
            Some(v) => v,
            None => Vec::new(),
        };
        let ghost base = list@;
        assert(base == (if old_map.contains_key(e) { old_map[e]@ } else { Seq::<u64>::empty() }));
        let n = children.len();
        for i in 0..n
            invariant
                n == children.len(),
                list@ == base + children@.take(i as int),
        {
            list.push(children[i]);
            assert(children@.take(i + 1) =~= children@.take(i as int).push(children@[i as int]));
            assert(list@ =~= base + children@.take(i + 1));
        }
        assert(children@.take(n as int) =~= children@);
        self.0.insert(e, list);
    }
}


/// Whether children are split off from the parent/child hierarchy, and whether split
/// children take the transform of their former parent.
#[derive(Debug, Clone, Copy, PartialEq, Eq, Structural)]
pub struct Split {
    pub split: bool,
    pub inheriet_transform: bool,
}

impl Default for Split {
    fn default() -> (s: Self)
        ensures
            !s.split,
            !s.inheriet_transform,
    {
        Split { split: false, inheriet_transform: false }
    }
}

/// Settings for disassembling a structure.
#[derive(Debug, Clone, Copy, PartialEq, Eq, Structural)]
pub struct DisassembleSettings {
    pub split: bool,
}

impl Default for DisassembleSettings {
    fn default() -> (s: Self)
        ensures
            !s.split,
    {
        DisassembleSettings { split: false }
    }
}

/// What a disassembled structure puts into the world: components on the entity
/// itself, or child entities placed as `Split` says.
#[derive(Debug, Clone, Copy, PartialEq, Eq, Structural)]
pub enum StructureKind {
    Root,
    Children(Split),
}

/// Where a spawned child of a structure goes.
#[derive(Debug, Clone, Copy, PartialEq, Eq, Structural)]
pub enum ChildPlacement {
    /// Becomes a child of the parent entity.
    AttachToParent,
    /// Stays a separate entity and takes a copy of the parent's transform.
    CopyParentTransform,
    /// Stays a separate entity and keeps its own transform.
    Detached,
}

/// The placement of each child of a structure with the given split settings.
pub open spec fn spec_child_placement(split: Split, parent_has_transform: bool) -> ChildPlacement {
    if !split.split {
        ChildPlacement::AttachToParent
    } else if split.inheriet_transform && parent_has_transform {
        ChildPlacement::CopyParentTransform
    } else {
        ChildPlacement::Detached
    }
}

/// Where disassembly puts each spawned child: when the split setting is off, every child
/// is attached to the parent entity, whatever the transform setting and whether the
/// parent has a transform; when it is on, the child stays a separate entity and copies
/// the parent's transform exactly when the transform setting is on and the parent has one.
pub proof fn child_placement_follows_split(split: Split, parent_has_transform: bool)
    ensures
        !split.split ==> spec_child_placement(split, parent_has_transform) == ChildPlacement::AttachToParent,
        split.split ==> spec_child_placement(split, parent_has_transform) != ChildPlacement::AttachToParent,
        split.split ==> ((spec_child_placement(split, parent_has_transform) == ChildPlacement::CopyParentTransform)
            <==> (split.inheriet_transform && parent_has_transform)),
        split.split ==> ((spec_child_placement(split, parent_has_transform) == ChildPlacement::Detached)
            <==> !(split.inheriet_transform && parent_has_transform)),
{
}

/// The commands that disassembling a structure onto an entity issues.
pub struct DisassemblyPlan {
    /// The assembly that the entity and every spawned child belong to; each child is
    /// tagged with it.
    pub assembly_id: i64,
    /// Whether the entity had no assembly yet and gets tagged with `assembly_id`.
    pub tag_parent: bool,
    /// Whether the structure's components go onto the entity itself.
    pub insert_root: bool,
    /// The placement of each spawned child, in spawn order.
    pub placements: Vec<ChildPlacement>,
}

/// What disassembling a structure onto entity `e` leaves behind, given the assemblies
/// and staged children before (`old_*`) and after (`new_*`): the plan's assembly is the
/// entity's own or the next id; a root structure goes onto the entity and changes no
/// bookkeeping; a structure of children places each child as `Split` says, adds the
/// children to the assembly's members and appends them to those recorded for `e`.
pub open spec fn disassembly_done(
    old_assemblies: Map<i64, HashSet<u64>>,
    old_stagers: Map<u64, Vec<u64>>,
    assembly_id: Option<AssemblyId>,
    parent_has_transform: bool,
    e: u64,
    structure: StructureKind,
    children: Seq<u64>,
    plan: DisassemblyPlan,
    new_assemblies: Map<i64, HashSet<u64>>,
    new_stagers: Map<u64, Vec<u64>>,
) -> bool {
    &&& plan.tag_parent == (assembly_id is None)
    &&& assembly_id matches Some(a) ==> plan.assembly_id == a.0
    &&& assembly_id is None ==> is_next_id(old_assemblies.dom(), plan.assembly_id)
    &&& structure == StructureKind::Root ==> {
        &&& plan.insert_root
        &&& plan.placements@.len() == 0
        &&& new_assemblies == old_assemblies
        &&& new_stagers == old_stagers
    }
    &&& structure matches StructureKind::Children(split) ==> {
        &&& !plan.insert_root
        &&& plan.placements@.len() == children.len()
        &&& forall|i: int| 0 <= i < children.len()
            ==> #[trigger] plan.placements@[i] == spec_child_placement(split, parent_has_transform)
        &&& assembly_members(new_assemblies) == assembly_members(old_assemblies).insert(
            plan.assembly_id,
            members_with(assembly_members(old_assemblies), plan.assembly_id, children),
        )
        &&& new_stagers.dom() == old_stagers.dom().insert(e)
        &&& new_stagers[e]@ == staged_with(old_stagers, e, children)
        &&& forall|k: u64| k != e && #[trigger] old_stagers.contains_key(k) ==> new_stagers[k] == old_stagers[k]
    }
}

/// Disassembling a structure has one outcome: any two outcomes of the same disassembly
/// (from the world or from a system) agree on the plan, on every assembly's members and
/// on every entity's recorded children.
pub proof fn disassembly_outcome_is_unique(
    old_assemblies: Map<i64, HashSet<u64>>,
    old_stagers: Map<u64, Vec<u64>>,
    assembly_id: Option<AssemblyId>,
    parent_has_transform: bool,
    e: u64,
    structure: StructureKind,
    children: Seq<u64>,
    plan1: DisassemblyPlan,
    assemblies1: Map<i64, HashSet<u64>>,
    stagers1: Map<u64, Vec<u64>>,
    plan2: DisassemblyPlan,
    assemblies2: Map<i64, HashSet<u64>>,
    stagers2: Map<u64, Vec<u64>>,
)
    requires
        disassembly_done(old_assemblies, old_stagers, assembly_id, parent_has_transform, e, structure,
            children, plan1, assemblies1, stagers1),
        disassembly_done(old_assemblies, old_stagers, assembly_id, parent_has_transform, e, structure,
            children, plan2, assemblies2, stagers2),
    ensures
        plan1.assembly_id == plan2.assembly_id,
        plan1.tag_parent == plan2.tag_parent,
        plan1.insert_root == plan2.insert_root,
        plan1.placements@ == plan2.placements@,
        assembly_members(assemblies1) == assembly_members(assemblies2),
        stagers1.dom() == stagers2.dom(),
        forall|k: u64| #[trigger] stagers1.contains_key(k) ==> stagers1[k]@ == stagers2[k]@,
{
    if assembly_id is None {
        next_id_is_fresh(old_assemblies.dom(), plan1.assembly_id, plan2.assembly_id);
    }
    match structure {
        StructureKind::Root => {
            assert(plan1.placements@ =~= plan2.placements@);
        },
        StructureKind::Children(split) => {
            assert(plan1.placements@ =~= plan2.placements@);
            assert forall|k: u64| #[trigger] stagers1.contains_key(k) implies stagers1[k]@ == stagers2[k]@ by {
                if k != e {
                    assert(old_stagers.contains_key(k));
                }
            }
        },
    }
}

/// Decides how a disassembled structure lands on entity `e`. `assembly_id` is the
/// entity's assembly, if it has one; otherwise a fresh id is taken. For a structure of
/// children, `children` are the entities spawned for them, in order: they join the
/// assembly and are recorded as produced by `e`.
pub fn disassemble_components_from_world(
    assemblies: &mut Assemblies,
    stagers: &mut InitializedStagers,
    assembly_id: Option<AssemblyId>,
    parent_has_transform: bool,
    e: u64,
    structure: StructureKind,
    children: &Vec<u64>,
) -> (plan: DisassemblyPlan)
    requires
        assembly_id is None ==> forall|k: i64| #[trigger] old(assemblies).0@.contains_key(k) ==> k < i64::MAX,
    ensures
        disassembly_done(
            old(assemblies).0@,
            old(stagers).0@,
            assembly_id,
            parent_has_transform,
            e,
            structure,
            children@,
            plan,
            final(assemblies).0@,
            final(stagers).0@,
        ),
{
    let (id, tag_parent) = match assembly_id {
        Some(id) => (id.0, false),
        None => (assemblies.next_id(), true),
    };
    match structure {
        StructureKind::Root => {
            DisassemblyPlan { assembly_id: id, tag_parent, insert_root: true, placements: Vec::new() }
        },
        StructureKind::Children(split) => {
            let mut placements: Vec<ChildPlacement> = Vec::new();
            let n = children.len();
            for i in 0..n
                invariant
                    n == children.len(),
                    placements@.len() == i,
                    forall|j: int| 0 <= j < i
                        ==> #[trigger] placements@[j] == spec_child_placement(split, parent_has_transform),
            {
                let placement = if !split.split {
                    ChildPlacement::AttachToParent
                } else if split.inheriet_transform && parent_has_transform {
                    ChildPlacement::CopyParentTransform
                } else {
                    ChildPlacement::Detached
                };
                placements.push(placement);
            }
            assemblies.add_members(id, children);
            stagers.record(e, children);
            DisassemblyPlan { assembly_id: id, tag_parent, insert_root: false, placements }
        },
    }
}

/// The same decision as [`disassemble_components_from_world`], for callers that read
/// the parent's transform through a query instead of from the world.
pub fn disassemble_components_from_system(
    assemblies: &mut Assemblies,
    stagers: &mut InitializedStagers,
    assembly_id: Option<AssemblyId>,
    parent_has_transform: bool,
    e: u64,
    structure: StructureKind,
    children: &Vec<u64>,
) -> (plan: DisassemblyPlan)
    requires
        assembly_id is None ==> forall|k: i64| #[trigger] old(assemblies).0@.contains_key(k) ==> k < i64::MAX,
    ensures
        disassembly_done(
            old(assemblies).0@,
            old(stagers).0@,
            assembly_id,
            parent_has_transform,
            e,
            structure,
            children@,
            plan,
            final(assemblies).0@,
            final(stagers).0@,
        ),
{
    disassemble_components_from_world(assemblies, stagers, assembly_id, parent_has_transform, e, structure, children)
}

} // verus!
