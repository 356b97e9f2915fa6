use bevy_serialization_extras::sync::{
    asset_sync, component_sync, try_serialize_asset_for, AssetHandleView, ChangedAssetHandle, SyncWrite,
    WrapperSource,
};

#[test]
fn component_sync_prefers_changed_wrapper() {
    assert_eq!(component_sync(true, true), Some(SyncWrite::Target));
    assert_eq!(component_sync(false, true), Some(SyncWrite::Target));
    assert_eq!(component_sync(true, false), Some(SyncWrite::Wrapper));
    assert_eq!(component_sync(false, false), None);
}

#[test]
fn asset_sync_skips_when_both_changed() {
    assert_eq!(asset_sync(true, true), None);
    assert_eq!(asset_sync(false, true), Some(SyncWrite::Target));
    assert_eq!(asset_sync(true, false), Some(SyncWrite::Wrapper));
    assert_eq!(asset_sync(false, false), None);
}

#[test]
fn asset_wrappers_from_paths_and_loaded_assets() {
    let handles = vec![
        ChangedAssetHandle { wrapper_changed: false, handle: AssetHandleView::Path("cube.glb".to_string()) },
        ChangedAssetHandle { wrapper_changed: true, handle: AssetHandleView::Unloaded },
        ChangedAssetHandle { wrapper_changed: false, handle: AssetHandleView::Loaded },
        ChangedAssetHandle { wrapper_changed: false, handle: AssetHandleView::Unloaded },
        ChangedAssetHandle { wrapper_changed: false, handle: AssetHandleView::Loaded },
    ];
    let step = try_serialize_asset_for(&handles);
    assert_eq!(step.scanned, 3);
    assert_eq!(step.writes, vec![(0, WrapperSource::Path("cube.glb".to_string())), (2, WrapperSource::Pure)]);
    let all = try_serialize_asset_for(&handles[..3].to_vec());
    assert_eq!(all.scanned, 3);
    assert_eq!(all.writes.len(), 2);
}
