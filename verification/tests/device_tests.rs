use isoflash::device::SimDevice;

#[test]
fn new_device_is_zero_filled() {
    let device = SimDevice::new(64);
    assert_eq!(device.capacity(), 64);
    assert_eq!(device.read_at(0, 64), vec![0u8; 64]);
}

#[test]
fn write_replaces_exactly_the_addressed_bytes() {
    let mut device = SimDevice::new(8);
    assert!(device.write_at(2, &[5, 6, 7]));
    assert_eq!(device.read_at(0, 8), vec![0, 0, 5, 6, 7, 0, 0, 0]);
}

#[test]
fn armed_write_fails_and_leaves_contents_alone() {
    let mut device = SimDevice::new(8);
    device.arm_write_failure(1);
    assert!(device.write_at(0, &[1, 2]));
    assert!(!device.write_at(2, &[3, 4]));
    assert_eq!(device.read_at(0, 8), vec![1, 2, 0, 0, 0, 0, 0, 0]);
    // Only the armed call fails; the next write is accepted again.
    assert!(device.write_at(2, &[3, 4]));
    assert_eq!(device.read_at(0, 4), vec![1, 2, 3, 4]);
}

#[test]
fn flush_reports_the_armed_outcome() {
    let mut device = SimDevice::new(4);
    assert!(device.flush());
    device.arm_flush_failure();
    assert!(!device.flush());
}
