//! Binding joint requests to the links that they name.

use vstd::prelude::*;

verus! {

/// Current stage of a request for a joint's parent: known by name only, or already an entity.
#[derive(Debug, Clone, PartialEq, Eq)]
pub enum JointRequestStage {
    Name(String),
    Entity(u64),
}

/// A link that a joint can attach to: an entity with a rigid body, a transform and a name.
#[derive(Debug, Clone)]
pub struct LinkCandidate {
    pub entity: u64,
    pub name: String,
    pub assembly: i64,
}

/// A joint entity still waiting for its parent.
#[derive(Debug, Clone)]
pub struct PendingJoint {
    pub entity: u64,
    pub stage: JointRequestStage,
    pub assembly: i64,
}

/// The entities of the links named `name` in assembly `assembly`, in order.
pub open spec fn matching_links(links: Seq<LinkCandidate>, name: Seq<char>, assembly: i64) -> Seq<u64>
    decreases links.len(),
{
    if links.len() == 0 {
        Seq::empty()
    } else {
        let rest = matching_links(links.drop_last(), name, assembly);
        let l = links.last();
        if l.name@ == name && l.assembly == assembly {
            rest.push(l.entity)
        } else {
            rest
        }
    }
}

/// The parent of a joint request: its entity, or else the one link of its assembly
/// with the requested name. `None` when no link or more than one has that name.
pub open spec fn spec_joint_parent(stage: JointRequestStage, assembly: i64, links: Seq<LinkCandidate>) -> Option<u64> {
    match stage {
        JointRequestStage::Entity(e) => Some(e),
        JointRequestStage::Name(name) => {
            let m = matching_links(links, name@, assembly);
            if m.len() == 1 {
                Some(m[0])
            } else {
                None
            }
        },
    }
}

/// The parent that a joint request resolves to among `links`.
pub fn resolve_joint_parent(stage: &JointRequestStage, assembly: i64, links: &Vec<LinkCandidate>) -> (r: Option<u64>)
    ensures
        r == spec_joint_parent(*stage, assembly, links@),
{
    match stage {
        JointRequestStage::Entity(e) => Some(*e),
        JointRequestStage::Name(name) => {
            let mut matches: Vec<u64> = Vec::new();
            let n = links.len();
            for i in 0..n
                invariant
                    n == links.len(),
                    matches@ == matching_links(links@.take(i as int), name@, assembly),
            {
                assert(links@.take(i + 1).drop_last() =~= links@.take(i as int));
                let l = &links[i];
                if l.name == *name && l.assembly == assembly {
                    matches.push(l.entity);
                }
            }
            assert(links@.take(n as int) =~= links@);
            if matches.len() == 1 {
                Some(matches[0])
            } else {
                None
            }
        },
    }
}

/// Binds joint requests to their parents, in order, and stops at the first request
/// whose parent cannot be resolved: that request and every one after it stay pending.
/// Each binding is (joint entity, parent entity).
pub fn bind_joint_request_to_parent(joints: &Vec<PendingJoint>, links: &Vec<LinkCandidate>) -> (r: Vec<(u64, u64)>)
    ensures
        r@.len() <= joints@.len(),
        forall|i: int| 0 <= i < r@.len() ==> {
            &&& (#[trigger] r@[i]).0 == joints@[i].entity
            &&& spec_joint_parent(joints@[i].stage, joints@[i].assembly, links@) == Some(r@[i].1)
        },
        r@.len() < joints@.len() ==> spec_joint_parent(
            joints@[r@.len() as int].stage,
            joints@[r@.len() as int].assembly,
            links@,
        ) is None,
{
    let mut bound: Vec<(u64, u64)> = Vec::new();
    let n = joints.len();
    for i in 0..n
        invariant
            n == joints.len(),
            bound@.len() == i,
            forall|j: int| 0 <= j < i ==> {
                &&& (#[trigger] bound@[j]).0 == joints@[j].entity
                &&& spec_joint_parent(joints@[j].stage, joints@[j].assembly, links@) == Some(bound@[j].1)
            },
    {
        let joint = &joints[i];
        match resolve_joint_parent(&joint.stage, joint.assembly, links) {
            Some(parent) => {
                bound.push((joint.entity, parent));
            },
            None => {
                return bound;
            },
        }
    }
    bound
}

/// Every entity that `matching_links` lists is a link with the name and assembly asked for.
proof fn lemma_matching_links_sound(links: Seq<LinkCandidate>, name: Seq<char>, assembly: i64, k: int)
    requires
        0 <= k < matching_links(links, name, assembly).len(),
    ensures
        exists|i: int| 0 <= i < links.len() && #[trigger] links[i].entity == matching_links(links, name, assembly)[k]
            && links[i].name@ == name && links[i].assembly == assembly,
    decreases links.len(),
{
    let rest = matching_links(links.drop_last(), name, assembly);
    if k < rest.len() {
        lemma_matching_links_sound(links.drop_last(), name, assembly, k);
        let i = choose|i: int| 0 <= i < links.drop_last().len() && #[trigger] links.drop_last()[i].entity == rest[k]
            && links.drop_last()[i].name@ == name && links.drop_last()[i].assembly == assembly;
        assert(links[i] == links.drop_last()[i]);
    } else {
        assert(links[links.len() - 1] == links.last());
    }
}

/// A joint request that names its parent resolves to a link of the joint's own assembly
/// with exactly that name, and only when that link is the one such link.
pub proof fn named_parent_is_that_link(name: String, assembly: i64, links: Seq<LinkCandidate>, parent: u64)
    requires
        spec_joint_parent(JointRequestStage::Name(name), assembly, links) == Some(parent),
    ensures
        exists|i: int| 0 <= i < links.len() && #[trigger] links[i].entity == parent
            && links[i].name@ == name@ && links[i].assembly == assembly,
        matching_links(links, name@, assembly).len() == 1,
{
    lemma_matching_links_sound(links, name@, assembly, 0);
}

/// Among links of one assembly with distinct names, the links named like link `k` are
/// link `k` alone.
pub proof fn lemma_unique_name_matches(links: Seq<LinkCandidate>, assembly: i64, k: int)
    requires
        0 <= k < links.len(),
        forall|i: int| 0 <= i < links.len() ==> (#[trigger] links[i]).assembly == assembly,
        forall|i: int, j: int| 0 <= i < links.len() && 0 <= j < links.len() && i != j
            ==> (#[trigger] links[i]).name@ != (#[trigger] links[j]).name@,
    ensures
        matching_links(links, links[k].name@, assembly) == seq![links[k].entity],
    decreases links.len(),
{
    let rest = links.drop_last();
    let last = links.len() - 1;
    if k < last {
        assert forall|i: int| 0 <= i < rest.len() implies (#[trigger] rest[i]).assembly == assembly by {
            assert(rest[i] == links[i]);
        }
        assert forall|i: int, j: int| 0 <= i < rest.len() && 0 <= j < rest.len() && i != j
            implies (#[trigger] rest[i]).name@ != (#[trigger] rest[j]).name@ by {
            assert(rest[i] == links[i]);
            assert(rest[j] == links[j]);
        }
        assert(rest[k] == links[k]);
        lemma_unique_name_matches(rest, assembly, k);
        assert(links.last() == links[last]);
        assert(links[last].name@ != links[k].name@);
    } else {
        lemma_no_other_name_matches(rest, links[k].name@, assembly, links, k);
        assert(links.last() == links[k]);
        assert(Seq::<u64>::empty().push(links[k].entity) =~= seq![links[k].entity]);
    }
}

/// No link of a prefix of `links` that stops before `k` is named like link `k`, when
/// the names are distinct.
proof fn lemma_no_other_name_matches(prefix: Seq<LinkCandidate>, name: Seq<char>, assembly: i64, links: Seq<LinkCandidate>, k: int)
    requires
        0 <= k < links.len(),
        prefix.len() <= k,
        forall|i: int| 0 <= i < prefix.len() ==> prefix[i] == links[i],
        name == links[k].name@,
        forall|i: int, j: int| 0 <= i < links.len() && 0 <= j < links.len() && i != j
            ==> (#[trigger] links[i]).name@ != (#[trigger] links[j]).name@,
    ensures
        matching_links(prefix, name, assembly) == Seq::<u64>::empty(),
    decreases prefix.len(),
{
    if prefix.len() > 0 {
        let rest = prefix.drop_last();
        assert forall|i: int| 0 <= i < rest.len() implies rest[i] == links[i] by {
            assert(rest[i] == prefix[i]);
        }
        lemma_no_other_name_matches(rest, name, assembly, links, k);
        assert(prefix.last() == links[prefix.len() - 1]);
    }
}

} // verus!
