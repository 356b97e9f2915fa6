//! Keeping a component and its serializable wrapper in step: in each frame, which side
//! is written from the other, and what an asset wrapper is made from.

use vstd::prelude::*;

verus! {

/// The side of a wrapped component that a frame's synchronization writes.
#[derive(Debug, Clone, Copy, PartialEq, Eq, Structural)]
pub enum SyncWrite {
    /// The wrapper is written from the component.
    Wrapper,
    /// The component is written from the wrapper.
    Target,
}

/// For a component: a wrapper added or changed this frame is written to the component;
/// else a component added or changed is written to the wrapper.
pub open spec fn spec_component_sync(target_changed: bool, wrapper_changed: bool) -> Option<SyncWrite> {
    if wrapper_changed {
        Some(SyncWrite::Target)
    } else if target_changed {
        Some(SyncWrite::Wrapper)
    } else {
        None
    }
}

/// For an asset: a side is written from the other only when the other alone changed.
pub open spec fn spec_asset_sync(target_changed: bool, wrapper_changed: bool) -> Option<SyncWrite> {
    if target_changed && !wrapper_changed {
        Some(SyncWrite::Wrapper)
    } else if wrapper_changed && !target_changed {
        Some(SyncWrite::Target)
    } else {
        None
    }
}

/// What one frame writes for a wrapped component: the serializing system skips entities
/// whose wrapper changed, then the deserializing system writes every changed wrapper back.
pub fn component_sync(target_changed: bool, wrapper_changed: bool) -> (w: Option<SyncWrite>)
    ensures
        w == spec_component_sync(target_changed, wrapper_changed),
{
    let serialize = target_changed && !wrapper_changed;
    let deserialize = wrapper_changed;
    if deserialize {
        Some(SyncWrite::Target)
    } else if serialize {
        Some(SyncWrite::Wrapper)
    } else {
        None
    }
}

/// What one frame writes for a wrapped asset handle: each system skips entities whose
/// other side changed in the same frame.
pub fn asset_sync(target_changed: bool, wrapper_changed: bool) -> (w: Option<SyncWrite>)
    ensures
        w == spec_asset_sync(target_changed, wrapper_changed),
{
    if target_changed && !wrapper_changed {
        Some(SyncWrite::Wrapper)
    } else if wrapper_changed && !target_changed {
        Some(SyncWrite::Target)
    } else {
        None
    }
}

/// A frame never writes a wrapped value both ways, and a side that nothing changed is
/// never written over; a wrapper that alone changed is always written back.
pub proof fn sync_never_writes_both_ways(target_changed: bool, wrapper_changed: bool)
    ensures
        !target_changed && !wrapper_changed ==> spec_component_sync(target_changed, wrapper_changed) is None,
        !target_changed && !wrapper_changed ==> spec_asset_sync(target_changed, wrapper_changed) is None,
        spec_component_sync(target_changed, wrapper_changed) == Some(SyncWrite::Wrapper) ==> !wrapper_changed,
        spec_asset_sync(target_changed, wrapper_changed) == Some(SyncWrite::Wrapper) ==> !wrapper_changed,
        spec_asset_sync(target_changed, wrapper_changed) == Some(SyncWrite::Target) ==> !target_changed,
        wrapper_changed && !target_changed ==> spec_component_sync(target_changed, wrapper_changed)
            == Some(SyncWrite::Target) && spec_asset_sync(target_changed, wrapper_changed) == Some(SyncWrite::Target),
{
}

/// An asset handle whose component changed, as the serializing system sees it.
#[derive(Debug, Clone, PartialEq, Eq)]
pub enum AssetHandleView {
    /// The handle names a file.
    Path(String),
    /// The handle holds an asset made in memory, which is loaded.
    Loaded,
    /// The handle holds an asset made in memory that is not loaded.
    Unloaded,
}

/// What a wrapper is made from.
#[derive(Debug, Clone, PartialEq, Eq)]
pub enum WrapperSource {
    /// The file path of the asset.
    Path(String),
    /// A copy of the asset itself.
    Pure,
}

/// One changed asset handle: whether its wrapper changed in the same frame, and the handle.
#[derive(Debug, Clone)]
pub struct ChangedAssetHandle {
    pub wrapper_changed: bool,
    pub handle: AssetHandleView,
}

/// Whether a handle stops the serializing system: its wrapper did not change and its
/// asset is made in memory and not loaded.
pub open spec fn stops_asset_serialize(h: ChangedAssetHandle) -> bool {
    !h.wrapper_changed && h.handle == AssetHandleView::Unloaded
}

/// The wrapper written for a handle among those that do not stop the system, if any.
pub open spec fn spec_wrapper_source(h: ChangedAssetHandle) -> Option<WrapperSource> {
    if h.wrapper_changed {
        None
    } else {
        match h.handle {
            AssetHandleView::Path(p) => Some(WrapperSource::Path(p)),
            AssetHandleView::Loaded => Some(WrapperSource::Pure),
            AssetHandleView::Unloaded => None,
        }
    }
}

/// The writes for the first `k` handles: (position, source).
pub open spec fn asset_serialize_writes(handles: Seq<ChangedAssetHandle>, k: int) -> Seq<(usize, WrapperSource)>
    decreases k,
{
    if k <= 0 {
        Seq::empty()
    } else {
        let rest = asset_serialize_writes(handles, k - 1);
        match spec_wrapper_source(handles[k - 1]) {
            Some(s) => rest.push(((k - 1) as usize, s)),
            None => rest,
        }
    }
}

/// What one run of the serializing system for asset wrappers does.
pub struct AssetSerializeStep {
    /// The wrappers written: the position of the handle and what the wrapper is made of.
    pub writes: Vec<(usize, WrapperSource)>,
    /// How many handles were looked at before the run stopped or ended.
    pub scanned: usize,
}

/// One run of the serializing system for asset wrappers over the changed handles, in
/// order: a handle whose wrapper also changed is skipped; one with a path gives a wrapper
/// of the path, a loaded one a copy of the asset; an unloaded one stops the run.
#[verifier::loop_isolation(false)]
pub fn try_serialize_asset_for(handles: &Vec<ChangedAssetHandle>) -> (step: AssetSerializeStep)
    ensures
        step.scanned <= handles@.len(),
        forall|j: int| 0 <= j < step.scanned ==> !stops_asset_serialize(#[trigger] handles@[j]),
        step.scanned < handles@.len() ==> stops_asset_serialize(handles@[step.scanned as int]),
        step.writes@ == asset_serialize_writes(handles@, step.scanned as int),
{
    let mut writes: Vec<(usize, WrapperSource)> = Vec::new();
    let n = handles.len();
    let mut i: usize = 0;
    while i < n
        invariant
            n == handles@.len(),
            i <= n,
            forall|j: int| 0 <= j < i ==> !stops_asset_serialize(#[trigger] handles@[j]),
            writes@ == asset_serialize_writes(handles@, i as int),
        decreases n - i,
    {
        let h = &handles[i];
        if !h.wrapper_changed {
            match &h.handle {
                AssetHandleView::Path(p) => {
                    writes.push((i, WrapperSource::Path(p.clone())));
                },
                AssetHandleView::Loaded => {
                    writes.push((i, WrapperSource::Pure));
                },
                AssetHandleView::Unloaded => {
                    return AssetSerializeStep { writes, scanned: i };
                },
            }
        }
        i = i + 1;
    }
    AssetSerializeStep { writes, scanned: n }
}

/// The wrappers that serializing the first `k` changed handles writes: a wrapper is
/// written only for a handle whose wrapper did not change in the same frame, from its
/// path when it has one and from the asset when it is loaded; in handle order; and every
/// such handle, with a path or a loaded asset, gets its wrapper.
pub proof fn asset_writes_skip_changed_wrappers(handles: Seq<ChangedAssetHandle>, k: int)
    requires
        0 <= k <= handles.len(),
        handles.len() <= usize::MAX,
    ensures
        forall|t: int| #![trigger asset_serialize_writes(handles, k)[t]]
            0 <= t < asset_serialize_writes(handles, k).len() ==> {
            let (pos, source) = asset_serialize_writes(handles, k)[t];
            &&& 0 <= pos < k
            &&& !handles[pos as int].wrapper_changed
            &&& handles[pos as int].handle != AssetHandleView::Unloaded
            &&& handles[pos as int].handle matches AssetHandleView::Path(p) ==> source == WrapperSource::Path(p)
            &&& handles[pos as int].handle == AssetHandleView::Loaded ==> source == WrapperSource::Pure
        },
        forall|t: int, u: int| 0 <= t < u < asset_serialize_writes(handles, k).len()
            ==> asset_serialize_writes(handles, k)[t].0 < asset_serialize_writes(handles, k)[u].0,
        forall|j: int| 0 <= j < k && !(#[trigger] handles[j]).wrapper_changed
            && handles[j].handle != AssetHandleView::Unloaded
            ==> exists|t: int| 0 <= t < asset_serialize_writes(handles, k).len()
                && asset_serialize_writes(handles, k)[t].0 == j,
    decreases k,
{
    if k > 0 {
        asset_writes_skip_changed_wrappers(handles, k - 1);
        let rest = asset_serialize_writes(handles, k - 1);
        let w = asset_serialize_writes(handles, k);
        let h = handles[k - 1];
        match spec_wrapper_source(h) {
            Some(src) => {
                assert(w == rest.push(((k - 1) as usize, src)));
                assert forall|j: int| 0 <= j < k && !(#[trigger] handles[j]).wrapper_changed
                    && handles[j].handle != AssetHandleView::Unloaded
                    implies exists|t: int| 0 <= t < w.len() && w[t].0 == j by {
                    if j < k - 1 {
                        let t = choose|t: int| 0 <= t < rest.len() && rest[t].0 == j;
                        assert(w[t] == rest[t]);
                    } else {
                        assert(w[rest.len() as int].0 == j);
                    }
                }
                assert forall|t: int| #![trigger w[t]] 0 <= t < w.len() implies {
                    let (pos, source) = w[t];
                    &&& 0 <= pos < k
                    &&& !handles[pos as int].wrapper_changed
                    &&& handles[pos as int].handle != AssetHandleView::Unloaded
                    &&& handles[pos as int].handle matches AssetHandleView::Path(p) ==> source == WrapperSource::Path(p)
                    &&& handles[pos as int].handle == AssetHandleView::Loaded ==> source == WrapperSource::Pure
                } by {
                    if t < rest.len() {
                        assert(w[t] == rest[t]);
                    }
                }
                assert forall|t: int, u: int| 0 <= t < u < w.len() implies w[t].0 < w[u].0 by {
                    if u < rest.len() {
                        assert(w[t] == rest[t] && w[u] == rest[u]);
                    } else {
                        assert(w[t] == rest[t]);
                    }
                }
            },
            None => {
                assert(w == rest);
                assert forall|j: int| 0 <= j < k && !(#[trigger] handles[j]).wrapper_changed
                    && handles[j].handle != AssetHandleView::Unloaded
                    implies exists|t: int| 0 <= t < w.len() && w[t].0 == j by {
                    if j == k - 1 {
                        assert(false);
                    }
                }
            },
        }
    }
}

} // verus!
