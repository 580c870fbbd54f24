use leap::provision_site::{redirect_target, ProvisionStatus, Route};

#[test]
fn status_maps_to_its_page() {
    assert_eq!(Route::from(ProvisionStatus::StorageConfig), Route::StorageConfig);
    assert_eq!(Route::from(ProvisionStatus::NetworkConfig), Route::NetworkConfig);
    assert_eq!(Route::from(ProvisionStatus::LeapConfig), Route::LeapConfig);
    assert_eq!(Route::from(ProvisionStatus::Completed), Route::Completed);
}

#[test]
fn redirect_only_when_elsewhere() {
    assert_eq!(redirect_target(ProvisionStatus::NetworkConfig, Route::Start), Some(Route::NetworkConfig));
    assert_eq!(redirect_target(ProvisionStatus::NetworkConfig, Route::NetworkConfig), None);
    assert_eq!(redirect_target(ProvisionStatus::Completed, Route::LeapConfig), Some(Route::Completed));
    // The start page counts as the storage page, so a fresh device stays on it.
    assert_eq!(redirect_target(ProvisionStatus::StorageConfig, Route::StorageConfig), None);
}

#[test]
fn redirect_settles() {
    for status in [
        ProvisionStatus::StorageConfig,
        ProvisionStatus::NetworkConfig,
        ProvisionStatus::LeapConfig,
        ProvisionStatus::Completed,
    ] {
        let target = redirect_target(status, Route::Start).unwrap();
        assert_eq!(redirect_target(status, target), None);
    }
}
