//! URDF robots: reading them from bytes, pairing each link with the joint that
//! drives it, and the decisions behind turning links and joints into entities and back.

use vstd::prelude::*;
use vstd::utf8::{decode_utf8, valid_utf8};
use crate::axes::{JointAxesMaskWrapper, UrdfJointKind, spec_urdf_joint_kind_for};
use crate::colliders::AsyncColliderFlag;
use crate::flags::RigidBodyFlag;
use crate::groups::{GroupWrapper, SolverGroupsFlag};

verus! {

/// The robot description of the `urdf-rs` crate.
#[verifier::external_type_specification]
#[verifier::external_body]
pub struct ExRobot(urdf_rs::Robot);

/// The error of a failed read from the standard library's I/O.
#[verifier::external_type_specification]
#[verifier::external_body]
pub struct ExIoError(std::io::Error);

/// Name of the asset source that `package://` paths lead to.
pub const PACKAGE: &'static str = "package";

/// A robot read from a URDF file.
pub struct Urdf(pub urdf_rs::Robot);

/// Asset wrapper around a [`Urdf`].
pub struct UrdfWrapper(pub Urdf);

/// Possible errors of reading a URDF file.
pub enum UrdfLoaderError {
    /// Failed to read the file.
    Io(std::io::Error),
    /// Failed to parse the file, with the parser's message.
    ParsingError(String),
}

/// The message of the standard library's UTF-8 decoder for bytes that are not valid UTF-8.
pub uninterp spec fn utf8_error_message(bytes: Seq<u8>) -> Seq<char>;

/// `std::str::from_utf8`, with its error turned into its message. The standard library
/// documents that it succeeds exactly on valid UTF-8 and then holds the decoded text;
/// the message of a failure is named, not stated.
#[verifier::external_body]
fn str_from_utf8(bytes: &[u8]) -> (r: Result<&str, String>)
    ensures
        r is Ok <==> valid_utf8(bytes@),
        r matches Ok(s) ==> s@ == decode_utf8(bytes@),
        r matches Err(m) ==> m@ == utf8_error_message(bytes@),
{
    std::str::from_utf8(bytes).map_err(|e| e.to_string())
}

/// The robot that `urdf_rs::read_from_string` reads from a text, or `None` when it
/// reports an error.
pub uninterp spec fn urdf_read_robot(text: Seq<char>) -> Option<urdf_rs::Robot>;

/// `urdf_rs::read_from_string`, with its error turned into its message. Whether a text
/// reads, and the robot it reads, are named. The message of an error is left unsaid:
/// the crate reprints the XML with each element's attributes in the order of a randomly
/// seeded hash map before reading it, so with several faulty attributes the one reported
/// can differ from run to run.
#[verifier::external_body]
fn read_urdf_from_string(text: &str) -> (r: Result<urdf_rs::Robot, String>)
    ensures
        r is Ok <==> urdf_read_robot(text@) is Some,
        r matches Ok(robot) ==> (urdf_read_robot(text@) matches Some(x) && x == robot),
{
    urdf_rs::read_from_string(text).map_err(|e| e.to_string())
}

/// The `urdf-rs` robot named `name` with no version, links, joints or materials.
pub uninterp spec fn robot_without_parts(name: Seq<char>) -> urdf_rs::Robot;

/// Builds the `urdf-rs` robot named `name` with no version, links, joints or materials;
/// the robot is opaque here, so it is named, not described.
#[verifier::external_body]
fn empty_robot(name: String) -> (r: urdf_rs::Robot)
    ensures
        r == robot_without_parts(name@),
{
    urdf_rs::Robot { name, version: None, links: Vec::new(), joints: Vec::new(), materials: Vec::new() }
}

/// The outcome of loading a URDF file once its text has been read: the robot read, or a
/// parsing error with the reader's message.
pub fn urdf_from_read(read: Result<urdf_rs::Robot, String>) -> (r: Result<Urdf, UrdfLoaderError>)
    ensures
        read matches Ok(robot) ==> (r matches Ok(u) && u.0 == robot),
        read matches Err(m) ==> (r matches Err(UrdfLoaderError::ParsingError(e)) && e == m),
{
    match read {
        Ok(robot) => Ok(Urdf(robot)),
        Err(m) => Err(UrdfLoaderError::ParsingError(m)),
    }
}

/// Reads a robot from the bytes of a URDF file: the bytes must be UTF-8 and the text a
/// robot description; otherwise the error carries the decoder's or the parser's message.
pub fn load_urdf(bytes: &[u8]) -> (r: Result<Urdf, UrdfLoaderError>)
    ensures
        !valid_utf8(bytes@) ==> (r matches Err(UrdfLoaderError::ParsingError(m))
            && m@ == utf8_error_message(bytes@)),
        valid_utf8(bytes@) ==> match urdf_read_robot(decode_utf8(bytes@)) {
            Some(robot) => r matches Ok(u) && u.0 == robot,
            None => r matches Err(UrdfLoaderError::ParsingError(_)),
        },
{
    match str_from_utf8(bytes) {
        Ok(text) => urdf_from_read(read_urdf_from_string(text)),
        Err(m) => Err(UrdfLoaderError::ParsingError(m)),
    }
}

impl Default for Urdf {
    /// A robot named `DEFAULT_IN_CASE_OF_ERROR` with nothing in it.
    fn default() -> (u: Self)
        ensures
            u.0 == robot_without_parts("DEFAULT_IN_CASE_OF_ERROR"@),
    {
        Urdf(empty_robot(String::from_str("DEFAULT_IN_CASE_OF_ERROR")))
    }
}

/// The position of the last name in `names` equal to `name`.
pub open spec fn last_named(names: Seq<String>, name: Seq<char>) -> Option<usize>
    decreases names.len(),
{
    if names.len() == 0 {
        None
    } else if names.last()@ == name {
        Some((names.len() - 1) as usize)
    } else {
        last_named(names.drop_last(), name)
    }
}

/// The joint paired with a link is the last joint whose child is that link: its child is
/// the link's name and no later joint has that child; a link is left unpaired exactly
/// when no joint has it as child.
pub proof fn paired_joint_is_last_with_child(names: Seq<String>, name: Seq<char>)
    requires
        names.len() <= usize::MAX,
    ensures
        last_named(names, name) is Some ==> {
            let j = last_named(names, name)->0;
            &&& j < names.len()
            &&& names[j as int]@ == name
            &&& forall|k: int| j < k < names.len() ==> #[trigger] names[k]@ != name
        },
        last_named(names, name) is None <==> forall|k: int| 0 <= k < names.len() ==> #[trigger] names[k]@ != name,
    decreases names.len(),
{
    if names.len() > 0 {
        let rest = names.drop_last();
        paired_joint_is_last_with_child(rest, name);
        assert(names[names.len() - 1] == names.last());
        if names.last()@ != name && last_named(rest, name) is Some {
            let j = last_named(rest, name)->0;
            assert(names[j as int] == rest[j as int]);
            assert forall|k: int| j < k < names.len() implies #[trigger] names[k]@ != name by {
                if k < names.len() - 1 {
                    assert(names[k] == rest[k]);
                }
            }
        }
        if last_named(names, name) is None {
            assert forall|k: int| 0 <= k < names.len() implies #[trigger] names[k]@ != name by {
                if k < names.len() - 1 {
                    assert(names[k] == rest[k]);
                }
            }
        }
        if exists|k: int| 0 <= k < names.len() && #[trigger] names[k]@ == name {
            let k = choose|k: int| 0 <= k < names.len() && #[trigger] names[k]@ == name;
            if k < names.len() - 1 {
                assert(names[k] == rest[k]);
            }
        }
    }
}

/// For each link, the joint that drives it: among the joints whose child is the link,
/// the last one (joints are collected by child name, and a later joint replaces an
/// earlier one with the same child).
pub fn pair_links_with_joints(link_names: &Vec<String>, joint_children: &Vec<String>) -> (pairs: Vec<Option<usize>>)
    ensures
        pairs@.len() == link_names@.len(),
        forall|i: int| 0 <= i < link_names@.len() ==> #[trigger] pairs@[i] == last_named(joint_children@, link_names@[i]@),
{
    let mut pairs: Vec<Option<usize>> = Vec::new();
    let n = link_names.len();
    let m = joint_children.len();
    for i in 0..n
        invariant
            n == link_names@.len(),
            m == joint_children@.len(),
            pairs@.len() == i,
            forall|k: int| 0 <= k < i ==> #[trigger] pairs@[k] == last_named(joint_children@, link_names@[k]@),
    {
        let mut found: Option<usize> = None;
        for j in 0..m
            invariant
                m == joint_children@.len(),
                i < link_names@.len(),
                found == last_named(joint_children@.take(j as int), link_names@[i as int]@),
        {
            assert(joint_children@.take(j + 1).drop_last() =~= joint_children@.take(j as int));
            if joint_children[j] == link_names[i] {
                found = Some(j);
            }
        }
        assert(joint_children@.take(m as int) =~= joint_children@);
        pairs.push(found);
    }
    pairs
}

/// The geometry that a link's colliders give it: the single collider's, or none when
/// the link has several colliders (several primitives per body are not supported) or none.
pub open spec fn spec_single_geometry(count: usize) -> Option<usize> {
    if count == 1 {
        Some(0usize)
    } else {
        None
    }
}

/// What the colliders of a link put on its entity.
pub struct LinkCollidersPlan {
    pub solver_groups: SolverGroupsFlag,
    pub collider: AsyncColliderFlag,
    pub rigid_body: RigidBodyFlag,
    /// The collider whose geometry the link takes, if any.
    pub geometry: Option<usize>,
}

/// The colliders of a URDF link, by their number.
#[derive(Debug, Clone, Copy, PartialEq, Eq, Structural)]
pub struct LinkColliders {
    pub count: usize,
}

impl LinkColliders {
    /// The components for the colliders of a link: solver groups with every group both
    /// ways, a convex mesh collider, a dynamic body, and the geometry of the single
    /// collider when there is exactly one.
    pub fn components(&self) -> (p: LinkCollidersPlan)
        ensures
            p.solver_groups.memberships.0 == u32::MAX,
            p.solver_groups.filters.0 == u32::MAX,
            p.collider == AsyncColliderFlag::Convex,
            p.rigid_body == RigidBodyFlag::Dynamic,
            p.geometry == spec_single_geometry(self.count),
    {
        let geometry = if self.count > 1 {
            None
        } else if self.count == 1 {
            Some(0)
        } else {
            None
        };
        LinkCollidersPlan {
            solver_groups: SolverGroupsFlag { memberships: GroupWrapper::all(), filters: GroupWrapper::all() },
            collider: AsyncColliderFlag::Convex,
            rigid_body: RigidBodyFlag::Dynamic,
            geometry,
        }
    }
}

/// A link entity as the assembler sees it.
#[derive(Debug, Clone)]
pub struct LinkEntry {
    pub entity: u64,
    pub name: String,
}

/// A joint entity as the assembler sees it.
#[derive(Debug, Clone, Copy)]
pub struct JointEntry {
    pub parent: u64,
    pub locked_axes: JointAxesMaskWrapper,
    pub limit_axes: JointAxesMaskWrapper,
}

/// What the assembler writes for a joint whose parent link was found.
#[derive(Debug, Clone)]
pub struct AssembledJoint {
    /// Position of the joint among the joints given.
    pub joint: usize,
    /// Name of the parent link.
    pub parent_name: String,
    pub kind: UrdfJointKind,
    /// 1 for each rotation that the joint limits, else 0.
    pub axis: [u32; 3],
}

/// The name of the first link whose entity is `e`.
pub open spec fn link_name_of(links: Seq<LinkEntry>, e: u64) -> Option<Seq<char>>
    decreases links.len(),
{
    if links.len() == 0 {
        None
    } else {
        match link_name_of(links.drop_last(), e) {
            Some(n) => Some(n),
            None => if links.last().entity == e {
                Some(links.last().name@)
            } else {
                None
            },
        }
    }
}

proof fn lemma_link_name_prefix(links: Seq<LinkEntry>, e: u64, k: int)
    requires
        0 <= k <= links.len(),
        link_name_of(links.take(k), e) is Some,
    ensures
        link_name_of(links, e) == link_name_of(links.take(k), e),
    decreases links.len() - k,
{
    if k < links.len() {
        assert(links.take(k + 1).drop_last() =~= links.take(k));
        lemma_link_name_prefix(links, e, k + 1);
    } else {
        assert(links.take(k) =~= links);
    }
}

fn find_link_name(links: &Vec<LinkEntry>, e: u64) -> (r: Option<String>)
    ensures
        r is Some <==> link_name_of(links@, e) is Some,
        r matches Some(n) ==> link_name_of(links@, e) == Some(n@),
{
    let n = links.len();
    for i in 0..n
        invariant
            n == links@.len(),
            link_name_of(links@.take(i as int), e) is None,
    {
        assert(links@.take(i + 1).drop_last() =~= links@.take(i as int));
        if links[i].entity == e {
            proof {
                lemma_link_name_prefix(links@, e, i + 1);
            }
            return Some(links[i].name.clone());
        }
    }
    assert(links@.take(n as int) =~= links@);
    None
}

/// The joints that assembling a robot writes: every joint whose parent is one of the
/// links, in order, with the parent's name, the kind written for its locked axes and
/// the axis given by its limited rotations; joints without such a parent are skipped.
pub fn assemble_joints(joints: &Vec<JointEntry>, links: &Vec<LinkEntry>) -> (out: Vec<AssembledJoint>)
    ensures
        out@.len() <= joints@.len(),
        forall|k: int| 0 <= k < out@.len() ==> {
            let a = #[trigger] out@[k];
            let j = joints@[a.joint as int];
            &&& a.joint < joints@.len()
            &&& link_name_of(links@, j.parent) == Some(a.parent_name@)
            &&& a.kind == spec_urdf_joint_kind_for(j.locked_axes)
            &&& a.axis@[0] == (if j.limit_axes.has(3) { 1u32 } else { 0u32 })
            &&& a.axis@[1] == (if j.limit_axes.has(4) { 1u32 } else { 0u32 })
            &&& a.axis@[2] == (if j.limit_axes.has(5) { 1u32 } else { 0u32 })
        },
        forall|k: int, l: int| 0 <= k < l < out@.len() ==> out@[k].joint < out@[l].joint,
        forall|i: int| 0 <= i < joints@.len() ==> (link_name_of(links@, #[trigger] joints@[i].parent) is Some
            <==> exists|k: int| 0 <= k < out@.len() && out@[k].joint == i),
{
    let mut out: Vec<AssembledJoint> = Vec::new();
    let n = joints.len();
    for i in 0..n
        invariant
            n == joints@.len(),
            forall|k: int| 0 <= k < out@.len() ==> {
                let a = #[trigger] out@[k];
                let j = joints@[a.joint as int];
                &&& a.joint < i
                &&& link_name_of(links@, j.parent) == Some(a.parent_name@)
                &&& a.kind == spec_urdf_joint_kind_for(j.locked_axes)
                &&& a.axis@[0] == (if j.limit_axes.has(3) { 1u32 } else { 0u32 })
                &&& a.axis@[1] == (if j.limit_axes.has(4) { 1u32 } else { 0u32 })
                &&& a.axis@[2] == (if j.limit_axes.has(5) { 1u32 } else { 0u32 })
            },
            forall|k: int, l: int| 0 <= k < l < out@.len() ==> out@[k].joint < out@[l].joint,
            forall|x: int| 0 <= x < i ==> (link_name_of(links@, #[trigger] joints@[x].parent) is Some
                <==> exists|k: int| 0 <= k < out@.len() && out@[k].joint == x),
            out@.len() <= i,
    {
        let joint = joints[i];
        match find_link_name(links, joint.parent) {
            Some(parent_name) => {
                let kind = joint.locked_axes.urdf_joint_kind();
                let axis = joint.limit_axes.urdf_axis_from_limits();
                let ghost old_out = out@;
                out.push(AssembledJoint { joint: i, parent_name, kind, axis });
                assert forall|x: int| 0 <= x < i + 1 implies (link_name_of(links@, #[trigger] joints@[x].parent) is Some
                    <==> exists|k: int| 0 <= k < out@.len() && out@[k].joint == x) by {
                    if x < i {
                        if exists|k: int| 0 <= k < old_out.len() && old_out[k].joint == x {
                            let k = choose|k: int| 0 <= k < old_out.len() && old_out[k].joint == x;
                            assert(out@[k] == old_out[k]);
                        }
                        if exists|k: int| 0 <= k < out@.len() && out@[k].joint == x {
                            let k = choose|k: int| 0 <= k < out@.len() && out@[k].joint == x;
                            assert(k < old_out.len());
                            assert(old_out[k] == out@[k]);
                        }
                    } else {
                        assert(out@[old_out.len() as int].joint == x);
                    }
                }
            },
            None => {
                assert forall|x: int| 0 <= x < i + 1 implies (link_name_of(links@, #[trigger] joints@[x].parent) is Some
                    <==> exists|k: int| 0 <= k < out@.len() && out@[k].joint == x) by {
                    if x == i {
                        if exists|k: int| 0 <= k < out@.len() && out@[k].joint == x {
                            let k = choose|k: int| 0 <= k < out@.len() && out@[k].joint == x;
                            assert(out@[k].joint < i);
                        }
                    }
                }
            },
        }
    }
    out
}

/// Among link entries with distinct entities, the name found for entry `k`'s entity is
/// that entry's name.
proof fn lemma_link_name_of_distinct(links: Seq<LinkEntry>, k: int)
    requires
        0 <= k < links.len(),
        forall|i: int, j: int| 0 <= i < links.len() && 0 <= j < links.len() && i != j
            ==> (#[trigger] links[i]).entity != (#[trigger] links[j]).entity,
    ensures
        link_name_of(links, links[k].entity) == Some(links[k].name@),
    decreases links.len(),
{
    let rest = links.drop_last();
    let last = links.len() - 1;
    assert(links.last() == links[last]);
    if k < last {
        assert forall|i: int, j: int| 0 <= i < rest.len() && 0 <= j < rest.len() && i != j
            implies (#[trigger] rest[i]).entity != (#[trigger] rest[j]).entity by {
            assert(rest[i] == links[i]);
            assert(rest[j] == links[j]);
        }
        assert(rest[k] == links[k]);
        lemma_link_name_of_distinct(rest, k);
    } else {
        lemma_link_name_of_absent(rest, links[k].entity, links, k);
    }
}

/// No entry of a prefix that stops before `k` has entry `k`'s entity.
proof fn lemma_link_name_of_absent(prefix: Seq<LinkEntry>, e: u64, links: Seq<LinkEntry>, k: int)
    requires
        0 <= k < links.len(),
        prefix.len() <= k,
        forall|i: int| 0 <= i < prefix.len() ==> prefix[i] == links[i],
        e == links[k].entity,
        forall|i: int, j: int| 0 <= i < links.len() && 0 <= j < links.len() && i != j
            ==> (#[trigger] links[i]).entity != (#[trigger] links[j]).entity,
    ensures
        link_name_of(prefix, e) is None,
    decreases prefix.len(),
{
    if prefix.len() > 0 {
        let rest = prefix.drop_last();
        assert forall|i: int| 0 <= i < rest.len() implies rest[i] == links[i] by {
            assert(rest[i] == prefix[i]);
        }
        lemma_link_name_of_absent(rest, e, links, k);
        assert(prefix.last() == links[prefix.len() - 1]);
    }
}

/// A robot's joints survive disassembly and assembly by name: when the links spawned from
/// a robot (one entity each, in one assembly) have distinct names and entities, a joint
/// that names link `k` as its parent is bound to link `k`'s entity, and assembling writes
/// link `k`'s name back as that joint's parent.
pub proof fn joint_parent_round_trip(
    candidates: Seq<crate::joints::LinkCandidate>,
    entries: Seq<LinkEntry>,
    assembly: i64,
    k: int,
)
    requires
        0 <= k < candidates.len(),
        entries.len() == candidates.len(),
        forall|i: int| 0 <= i < candidates.len() ==> {
            &&& (#[trigger] candidates[i]).assembly == assembly
            &&& entries[i].entity == candidates[i].entity
            &&& entries[i].name@ == candidates[i].name@
        },
        forall|i: int, j: int| 0 <= i < candidates.len() && 0 <= j < candidates.len() && i != j
            ==> (#[trigger] candidates[i]).name@ != (#[trigger] candidates[j]).name@
            && candidates[i].entity != candidates[j].entity,
    ensures
        crate::joints::spec_joint_parent(
            crate::joints::JointRequestStage::Name(candidates[k].name),
            assembly,
            candidates,
        ) == Some(candidates[k].entity),
        link_name_of(entries, candidates[k].entity) == Some(candidates[k].name@),
{
    crate::joints::lemma_unique_name_matches(candidates, assembly, k);
    assert forall|i: int, j: int| 0 <= i < entries.len() && 0 <= j < entries.len() && i != j
        implies (#[trigger] entries[i]).entity != (#[trigger] entries[j]).entity by {
        assert(candidates[i].entity != candidates[j].entity);
    }
    lemma_link_name_of_distinct(entries, k);
}

} // verus!
