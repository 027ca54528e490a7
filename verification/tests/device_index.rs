use ovr_overlay::{TrackedDeviceIndex, HMD_DEVICE_INDEX, INVALID_DEVICE_INDEX};

#[test]
fn the_reserved_index_is_rejected() {
    assert_eq!(INVALID_DEVICE_INDEX, 0xFFFF_FFFF);
    assert!(TrackedDeviceIndex::new(INVALID_DEVICE_INDEX).is_err());
    assert_eq!(TrackedDeviceIndex::new(u32::MAX), Err(()));
}

#[test]
fn every_other_index_is_accepted() {
    for raw in [0u32, 1, 2, 63, 64, 65, 1000, 0x7FFF_FFFF, 0x8000_0000, 0xFFFF_FFFE] {
        let index = TrackedDeviceIndex::new(raw).expect("an index other than the reserved one");
        assert_eq!(index.get(), raw);
    }
}

#[test]
fn the_display_has_the_first_index() {
    assert_eq!(HMD_DEVICE_INDEX, 0);
    assert_eq!(TrackedDeviceIndex::hmd().get(), 0);
    assert_eq!(TrackedDeviceIndex::hmd(), TrackedDeviceIndex::new(0).unwrap());
    assert_eq!(TrackedDeviceIndex::MAX, 64);
}
