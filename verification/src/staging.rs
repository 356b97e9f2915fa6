//! Staging components and the registries of the systems that drive them:
//! which systems a component hook registers, which children a roll-down reaches,
//! how asset requests advance, and which nodes gltf physics lands on.

use vstd::prelude::*;
use std::collections::HashMap;
use crate::assembly::DisassembleSettings;

verus! {

broadcast use vstd::std_specs::hash::group_hash_axioms;

/// The systems registered for each component id (a component id's index, a system's bits).
pub struct SystemRegistry(pub HashMap<usize, u64>);

impl SystemRegistry {
    pub fn new() -> (r: Self)
        ensures
            r.0@ == Map::<usize, u64>::empty(),
    {
        SystemRegistry(HashMap::new())
    }

    pub fn contains(&self, id: usize) -> (b: bool)
        ensures
            b == self.0@.contains_key(id),
    {
        self.0.contains_key(&id)
    }

    /// Records `system` as the one registered for component `id`.
    pub fn insert(&mut self, id: usize, system: u64)
        ensures
            final(self).0@ == old(self).0@.insert(id, system),
    {
        self.0.insert(id, system);
    }
}

/// The systems that a walk over the registry's components in the order `keys` runs.
pub open spec fn systems_in_order(registry: Map<usize, u64>, keys: Seq<usize>) -> Seq<u64> {
    keys.map_values(|k: usize| registry[k])
}

/// The systems to run for a registry: the system of each registered component, once per
/// component, in the order in which the map is walked.
pub fn run_proxy_system(registry: &SystemRegistry) -> (systems: Vec<u64>)
    ensures
        exists|keys: Seq<usize>| {
            &&& keys.no_duplicates()
            &&& keys.to_set() == registry.0@.dom()
            &&& systems@ == systems_in_order(registry.0@, keys)
        },
{
    let mut systems: Vec<u64> = Vec::new();
    for k in it: registry.0.keys()
        invariant
            it.seq().unref().to_set() == registry.0@.dom(),
            it.seq().unref().no_duplicates(),
            systems@ == systems_in_order(registry.0@, it.seq().unref().take(it.index() as int)),
            it.index() == it.seq().len() ==> exists|keys: Seq<usize>| {
                &&& keys.no_duplicates()
                &&& keys.to_set() == registry.0@.dom()
                &&& systems@ == systems_in_order(registry.0@, keys)
            },
    {
        proof {
            assert(it.seq().unref().contains(*k));
        }
        match registry.0.get(k) {
            Some(system) => {
                systems.push(*system);
            },
            None => {},
        }
        assert(systems@ =~= systems_in_order(registry.0@, it.seq().unref().take(it.index() + 1)));
        assert(it.index() + 1 == it.seq().len() ==> it.seq().unref().take(it.index() + 1) =~= it.seq().unref());
    }
    systems
}

/// The registries that hold proxy systems.
#[derive(Debug, Clone, Copy, PartialEq, Eq, Structural)]
pub enum RegistryKind {
    CompSerializers,
    CompDeserializers,
    AssetSerializers,
    AssetDeserializers,
    AssetCheckers,
    RollDownCheckers,
}

/// The systems that a component hook registers: for each, the registry that records it.
#[derive(Debug, Clone, Copy, PartialEq, Eq, Structural)]
pub struct HookRegistrations {
    pub serializer: Option<RegistryKind>,
    pub deserializer: Option<RegistryKind>,
}

/// The registry that records a new system for component `id`: `kind`, unless the
/// registry `reg` already holds a system for it.
pub open spec fn spec_registration(reg: Map<usize, u64>, id: usize, kind: RegistryKind) -> Option<RegistryKind> {
    if reg.contains_key(id) {
        None
    } else {
        Some(kind)
    }
}

/// On adding a wrapped component: a serializer and a deserializer are registered for
/// the component unless the component registries already hold one.
pub fn wrap_comp_registrations(
    comp_serializers: &SystemRegistry,
    comp_deserializers: &SystemRegistry,
    id: usize,
) -> (r: HookRegistrations)
    ensures
        r.serializer == spec_registration(comp_serializers.0@, id, RegistryKind::CompSerializers),
        r.deserializer == spec_registration(comp_deserializers.0@, id, RegistryKind::CompDeserializers),
{
    let serializer = if !comp_serializers.contains(id) { Some(RegistryKind::CompSerializers) } else { None };
    let deserializer = if !comp_deserializers.contains(id) { Some(RegistryKind::CompDeserializers) } else { None };
    HookRegistrations { serializer, deserializer }
}

/// On adding a wrapped asset: a serializer is registered unless the asset serializer
/// registry holds one, and it is recorded in the component serializer registry; a
/// deserializer is registered and recorded unless the asset deserializer registry holds one.
pub fn wrap_asset_registrations(
    asset_serializers: &SystemRegistry,
    asset_deserializers: &SystemRegistry,
    id: usize,
) -> (r: HookRegistrations)
    ensures
        r.serializer == spec_registration(asset_serializers.0@, id, RegistryKind::CompSerializers),
        r.deserializer == spec_registration(asset_deserializers.0@, id, RegistryKind::AssetDeserializers),
{
    let serializer = if !asset_serializers.contains(id) { Some(RegistryKind::CompSerializers) } else { None };
    let deserializer = if !asset_deserializers.contains(id) { Some(RegistryKind::AssetDeserializers) } else { None };
    HookRegistrations { serializer, deserializer }
}

/// Whether adding a roll-down component registers its checker: only the first time
/// for each component id.
pub fn roll_down_needs_checker(checkers: &SystemRegistry, id: usize) -> (b: bool)
    ensures
        b == (spec_registration(checkers.0@, id, RegistryKind::RollDownCheckers) is Some),
{
    !checkers.contains(id)
}

/// Systems are registered once per component: once a system is recorded for a
/// component, adding that component again registers nothing, and recording it leaves
/// what is registered for every other component as it was.
pub proof fn registration_happens_once(reg: Map<usize, u64>, id: usize, system: u64, other: usize, kind: RegistryKind)
    ensures
        spec_registration(reg.insert(id, system), id, kind) is None,
        other != id ==> spec_registration(reg.insert(id, system), other, kind) == spec_registration(reg, other, kind),
{
}

/// The present values of `s`, in order.
pub open spec fn present_ids(s: Seq<Option<usize>>) -> Seq<usize>
    decreases s.len(),
{
    if s.len() == 0 {
        Seq::empty()
    } else {
        let rest = present_ids(s.drop_last());
        match s.last() {
            Some(id) => rest.push(id),
            None => rest,
        }
    }
}

/// The component ids that a roll-down checks for: the type ids that the world knows,
/// as component ids, in order.
pub fn resolve_component_ids(lookups: &Vec<Option<usize>>) -> (ids: Vec<usize>)
    ensures
        ids@ == present_ids(lookups@),
{
    let mut ids: Vec<usize> = Vec::new();
    let n = lookups.len();
    for i in 0..n
        invariant
            n == lookups.len(),
            ids@ == present_ids(lookups@.take(i as int)),
    {
        assert(lookups@.take(i + 1).drop_last() =~= lookups@.take(i as int));
        if let Some(id) = lookups[i] {
            ids.push(id);
        }
    }
    assert(lookups@.take(n as int) =~= lookups@);
    ids
}

/// Whether a child with components `comps` holds one of the components in `ids`.
pub open spec fn shares_component(ids: Seq<usize>, comps: Seq<usize>) -> bool {
    exists|i: int| 0 <= i < ids.len() && comps.contains(#[trigger] ids[i])
}

fn vec_contains(v: &Vec<usize>, x: usize) -> (b: bool)
    ensures
        b == v@.contains(x),
{
    let n = v.len();
    for i in 0..n
        invariant
            n == v.len(),
            forall|j: int| 0 <= j < i ==> v@[j] != x,
    {
        if v[i] == x {
            return true;
        }
    }
    false
}

fn shares_any(ids: &Vec<usize>, comps: &Vec<usize>) -> (b: bool)
    ensures
        b == shares_component(ids@, comps@),
{
    let n = ids.len();
    for i in 0..n
        invariant
            n == ids.len(),
            forall|j: int| 0 <= j < i ==> !comps@.contains(#[trigger] ids@[j]),
    {
        if vec_contains(comps, ids[i]) {
            return true;
        }
    }
    false
}

/// A roll-down once its component types are resolved: `every_child` when it was given
/// no component types, so that the component goes to every child as soon as there are
/// children; else the component ids to look for (those the world knows).
#[derive(Debug, Clone)]
pub struct RollDownIded {
    pub every_child: bool,
    pub ids: Vec<usize>,
}

impl RollDownIded {
    /// Resolves a roll-down's component types: `lookups` holds, for each type it names,
    /// the id the world knows for it, if any.
    pub fn from_lookups(lookups: &Vec<Option<usize>>) -> (r: Self)
        ensures
            r.every_child == (lookups@.len() == 0),
            r.ids@ == present_ids(lookups@),
    {
        RollDownIded { every_child: lookups.len() == 0, ids: resolve_component_ids(lookups) }
    }
}

/// Whether a child with components `comps` receives the rolled-down component.
pub open spec fn rolls_down_to(every_child: bool, ids: Seq<usize>, comps: Seq<usize>) -> bool {
    every_child || shares_component(ids, comps)
}

/// The positions among the first `k` children that receive the component.
pub open spec fn roll_down_targets(every_child: bool, ids: Seq<usize>, children: Seq<Option<Vec<usize>>>, k: int) -> Seq<usize>
    decreases k,
{
    if k <= 0 {
        Seq::empty()
    } else {
        let rest = roll_down_targets(every_child, ids, children, k - 1);
        match children[k - 1] {
            Some(comps) => if rolls_down_to(every_child, ids, comps@) {
                rest.push((k - 1) as usize)
            } else {
                rest
            },
            None => rest,
        }
    }
}

/// Which readable children a roll-down reaches among the first `k`: a child is reached
/// exactly when the roll-down goes to every child, or some id of the roll-down is among
/// the child's components, wherever it sits in the child's list; the children reached
/// come in order.
pub proof fn roll_down_reaches_children_holding_an_id(
    every_child: bool,
    ids: Seq<usize>,
    children: Seq<Option<Vec<usize>>>,
    k: int,
    p: usize,
)
    requires
        0 <= k <= children.len(),
        children.len() <= usize::MAX,
    ensures
        roll_down_targets(every_child, ids, children, k).contains(p) <==> {
            &&& p < k
            &&& children[p as int] matches Some(comps) && (every_child
                || exists|i: int, j: int| 0 <= i < ids.len() && 0 <= j < comps@.len() && ids[i] == comps@[j])
        },
        forall|t: int, u: int| 0 <= t < u < roll_down_targets(every_child, ids, children, k).len()
            ==> roll_down_targets(every_child, ids, children, k)[t] < roll_down_targets(every_child, ids, children, k)[u],
        forall|t: int| 0 <= t < roll_down_targets(every_child, ids, children, k).len()
            ==> (#[trigger] roll_down_targets(every_child, ids, children, k)[t]) < k,
    decreases k,
{
    if k > 0 {
        roll_down_reaches_children_holding_an_id(every_child, ids, children, k - 1, p);
        let rest = roll_down_targets(every_child, ids, children, k - 1);
        let all = roll_down_targets(every_child, ids, children, k);
        let last = (k - 1) as usize;
        if rest.contains(last) {
            let t = choose|t: int| 0 <= t < rest.len() && rest[t] == last;
        }
        match children[k - 1] {
            Some(comps) => {
                let shares = exists|i: int, j: int| 0 <= i < ids.len() && 0 <= j < comps@.len()
                    && ids[i] == comps@[j];
                assert(shares_component(ids, comps@) <==> shares) by {
                    if shares_component(ids, comps@) {
                        let i = choose|i: int| 0 <= i < ids.len() && comps@.contains(#[trigger] ids[i]);
                        let j = choose|j: int| 0 <= j < comps@.len() && comps@[j] == ids[i];
                    }
                    if shares {
                        let (i, j) = choose|i: int, j: int| 0 <= i < ids.len() && 0 <= j < comps@.len()
                            && ids[i] == comps@[j];
                        assert(comps@.contains(ids[i]));
                    }
                }
                if rolls_down_to(every_child, ids, comps@) {
                    assert(all == rest.push(last));
                    if all.contains(p) {
                        let t = choose|t: int| 0 <= t < all.len() && all[t] == p;
                        if t < rest.len() {
                            assert(rest[t] == p);
                        }
                    }
                    if rest.contains(p) {
                        let t = choose|t: int| 0 <= t < rest.len() && rest[t] == p;
                        assert(all[t] == p);
                    }
                    if p == last {
                        assert(all[rest.len() as int] == p);
                    }
                    assert forall|t: int| 0 <= t < all.len() implies (#[trigger] all[t]) < k by {
                        if t < rest.len() {
                            assert(all[t] == rest[t]);
                        }
                    }
                    assert forall|t: int, u: int| 0 <= t < u < all.len() implies all[t] < all[u] by {
                        if u < rest.len() {
                            assert(all[t] == rest[t] && all[u] == rest[u]);
                        } else {
                            assert(all[t] == rest[t]);
                        }
                    }
                } else {
                    assert(all == rest);
                }
            },
            None => {
                assert(all == rest);
            },
        }
    }
}

/// What one roll-down does.
pub struct RollDownStep {
    /// How many children were looked at.
    pub scanned: usize,
    /// The positions of the children that receive the rolled-down component.
    pub inserts: Vec<usize>,
    /// Whether the roll-down marker leaves the parent.
    pub remove_marker: bool,
    /// Whether the whole check stops here.
    pub halt: bool,
}

/// One roll-down: `children` are the parent's children (`None` when it has none), each
/// given by its components (`None` when the child cannot be read). Children are looked
/// at in order until one cannot be read, which stops the whole check; every child read
/// that the roll-down reaches (every child, or one holding one of its ids) receives the
/// component, and then the marker leaves the parent.
#[verifier::loop_isolation(false)]
pub fn check_roll_down(rolldown: &RollDownIded, children: &Option<Vec<Option<Vec<usize>>>>) -> (step: RollDownStep)
    ensures
        children is None ==> step.halt && step.scanned == 0 && step.inserts@.len() == 0 && !step.remove_marker,
        children matches Some(cs) ==> {
            &&& step.scanned <= cs@.len()
            &&& forall|j: int| 0 <= j < step.scanned ==> (#[trigger] cs@[j]) is Some
            &&& step.halt == (step.scanned < cs@.len())
            &&& step.scanned < cs@.len() ==> cs@[step.scanned as int] is None
            &&& step.inserts@ == roll_down_targets(rolldown.every_child, rolldown.ids@, cs@, step.scanned as int)
            &&& step.remove_marker == (step.inserts@.len() > 0)
        },
{
    match children {
        None => RollDownStep { scanned: 0, inserts: Vec::new(), remove_marker: false, halt: true },
        Some(cs) => {
            let mut inserts: Vec<usize> = Vec::new();
            let n = cs.len();
            let mut i: usize = 0;
            while i < n
                invariant
                    n == cs@.len(),
                    i <= n,
                    forall|j: int| 0 <= j < i ==> (#[trigger] cs@[j]) is Some,
                    inserts@ == roll_down_targets(rolldown.every_child, rolldown.ids@, cs@, i as int),
                decreases n - i,
            {
                match &cs[i] {
                    None => {
                        let remove_marker = inserts.len() > 0;
                        return RollDownStep { scanned: i, inserts, remove_marker, halt: true };
                    },
                    Some(comps) => {
                        if rolldown.every_child || shares_any(&rolldown.ids, comps) {
                            inserts.push(i);
                        }
                    },
                }
                i = i + 1;
            }
            let remove_marker = inserts.len() > 0;
            RollDownStep { scanned: n, inserts, remove_marker, halt: false }
        },
    }
}

/// A roll-down given no component types reaches every child: when all children can be
/// read, each receives the component, and the marker leaves a parent that has any.
pub proof fn empty_roll_down_reaches_every_child(ids: Seq<usize>, children: Seq<Option<Vec<usize>>>, k: int)
    requires
        0 <= k <= children.len(),
        children.len() <= usize::MAX,
        forall|j: int| 0 <= j < k ==> (#[trigger] children[j]) is Some,
    ensures
        roll_down_targets(true, ids, children, k).len() == k,
        forall|j: int| 0 <= j < k ==> #[trigger] roll_down_targets(true, ids, children, k)[j] == j,
    decreases k,
{
    if k > 0 {
        empty_roll_down_reaches_every_child(ids, children, k - 1);
        let rest = roll_down_targets(true, ids, children, k - 1);
        assert(children[k - 1] is Some);
        assert(roll_down_targets(true, ids, children, k) == rest.push((k - 1) as usize));
        assert forall|j: int| 0 <= j < k implies #[trigger] roll_down_targets(true, ids, children, k)[j] == j by {
            if j < k - 1 {
                assert(rest[j] == j);
            }
        }
    }
}

/// Stage of disassembly for an asset: a path to load, then a handle (by its id) to wait on.
#[derive(Debug, Clone, PartialEq, Eq)]
pub enum DisassembleStage {
    Path(String),
    Handle(u64),
}

/// Staging component for disassembling an asset, advanced from a path to a handle
/// until the asset can be disassembled.
#[derive(Debug, Clone)]
pub struct DisassembleAssetRequest(pub DisassembleStage, pub DisassembleSettings);

/// What adding a [`DisassembleAssetRequest`] does.
#[derive(Debug, Clone, PartialEq, Eq)]
pub enum AssetRequestAction {
    /// Load the path (with the asset's own load settings when it has some) and
    /// replace the request by one on the returned handle, with the same settings.
    Load { path: String, with_load_settings: bool },
    /// Register the system that waits for the asset to load.
    RegisterChecker,
    /// Nothing: the waiting system is already registered.
    Nothing,
}

impl DisassembleAssetRequest {
    /// A request to load and disassemble the asset at `path`.
    pub fn path(path: String, custom_settings: Option<DisassembleSettings>) -> (r: Self)
        ensures
            r.0 == DisassembleStage::Path(path),
            custom_settings matches Some(s) ==> r.1 == s,
            custom_settings is None ==> !r.1.split,
    {
        let settings = match custom_settings {
            Some(s) => s,
            None => DisassembleSettings::default(),
        };
        DisassembleAssetRequest(DisassembleStage::Path(path), settings)
    }

    /// A request to disassemble the asset behind `handle` once it has loaded.
    pub fn handle(handle: u64, custom_settings: Option<DisassembleSettings>) -> (r: Self)
        ensures
            r.0 == DisassembleStage::Handle(handle),
            custom_settings matches Some(s) ==> r.1 == s,
            custom_settings is None ==> !r.1.split,
    {
        let settings = match custom_settings {
            Some(s) => s,
            None => DisassembleSettings::default(),
        };
        DisassembleAssetRequest(DisassembleStage::Handle(handle), settings)
    }

    /// The request that replaces this one once its path has been loaded into `handle`:
    /// the same settings, waiting on the handle.
    pub fn with_handle(&self, handle: u64) -> (r: Self)
        ensures
            r.0 == DisassembleStage::Handle(handle),
            r.1 == self.1,
    {
        DisassembleAssetRequest(DisassembleStage::Handle(handle), self.1)
    }

    /// What adding this request to an entity does: a path is loaded; a handle has its
    /// waiting system registered the first time a request of this kind is added.
    pub fn on_add(&self, has_load_settings: bool, checkers: &SystemRegistry, id: usize) -> (a: AssetRequestAction)
        ensures
            self.0 matches DisassembleStage::Path(p) ==> (a == (AssetRequestAction::Load {
                path: p,
                with_load_settings: has_load_settings,
            })),
            (self.0 is Handle) ==> (a == (if checkers.0@.contains_key(id) {
                AssetRequestAction::Nothing
            } else {
                AssetRequestAction::RegisterChecker
            })),
    {
        match &self.0 {
            DisassembleStage::Path(p) => AssetRequestAction::Load { path: p.clone(), with_load_settings: has_load_settings },
            DisassembleStage::Handle(_) => {
                if !checkers.contains(id) {
                    AssetRequestAction::RegisterChecker
                } else {
                    AssetRequestAction::Nothing
                }
            },
        }
    }
}

/// The state of an asset-structure request, as the waiting system sees it.
#[derive(Debug, Clone, Copy, PartialEq, Eq, Structural)]
pub enum AssetRequestState {
    /// Waiting on a handle: whether the asset server reports it loaded, and whether
    /// the asset is then present in the asset store.
    Handle { loaded: bool, available: bool },
    /// Any other stage.
    Other,
}

/// What the waiting system does in one run.
pub struct AssetStructureStep {
    /// Positions of the requests upgraded from their handle to the loaded asset.
    pub upgrades: Vec<usize>,
    /// How many requests were looked at.
    pub scanned: usize,
}

/// Whether a request stops the waiting system: it is not waiting on a handle, or its
/// asset is reported loaded but is missing.
pub open spec fn stops_asset_check(s: AssetRequestState) -> bool {
    match s {
        AssetRequestState::Other => true,
        AssetRequestState::Handle { loaded, available } => loaded && !available,
    }
}

/// The positions among the first `k` requests whose asset has loaded.
pub open spec fn loaded_requests(requests: Seq<AssetRequestState>, k: int) -> Seq<usize>
    decreases k,
{
    if k <= 0 {
        Seq::empty()
    } else {
        let rest = loaded_requests(requests, k - 1);
        match requests[k - 1] {
            AssetRequestState::Handle { loaded, available } => if loaded && available {
                rest.push((k - 1) as usize)
            } else {
                rest
            },
            AssetRequestState::Other => rest,
        }
    }
}

/// One run of the system that waits for requested assets: requests are looked at in
/// order until one stops it; each request whose asset has loaded is upgraded.
#[verifier::loop_isolation(false)]
pub fn initialize_asset_structure(requests: &Vec<AssetRequestState>) -> (step: AssetStructureStep)
    ensures
        step.scanned <= requests@.len(),
        forall|j: int| 0 <= j < step.scanned ==> !stops_asset_check(#[trigger] requests@[j]),
        step.scanned < requests@.len() ==> stops_asset_check(requests@[step.scanned as int]),
        step.upgrades@ == loaded_requests(requests@, step.scanned as int),
{
    let mut upgrades: Vec<usize> = Vec::new();
    let n = requests.len();
    let mut i: usize = 0;
    while i < n
        invariant
            n == requests@.len(),
            i <= n,
            forall|j: int| 0 <= j < i ==> !stops_asset_check(#[trigger] requests@[j]),
            upgrades@ == loaded_requests(requests@, i as int),
        decreases n - i,
    {
        match requests[i] {
            AssetRequestState::Other => {
                return AssetStructureStep { upgrades, scanned: i };
            },
            AssetRequestState::Handle { loaded, available } => {
                if loaded {
                    if !available {
                        return AssetStructureStep { upgrades, scanned: i };
                    }
                    upgrades.push(i);
                }
            },
        }
        i = i + 1;
    }
    AssetStructureStep { upgrades, scanned: n }
}

/// Staging component for an optional component: it is replaced by its content, if any.
pub struct Maybe<T>(pub Option<T>);

impl<T> Maybe<T> {
    /// The component that replaces this staging component, if any.
    pub fn into_component(self) -> (c: Option<T>)
        ensures
            c == self.0,
    {
        self.0
    }
}

/// Staging component for resolving one of two components later.
pub enum Resolve<T, U> {
    One(T),
    Other(U),
}

} // verus!
