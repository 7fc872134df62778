use isoflash::device::SimDevice;
use isoflash::pipeline::{flash, verify};
use isoflash::session::{FlashError, FlashStatus, VerifyError};

const MIB: usize = 1024 * 1024;
const BLOCK: usize = 4096;

/// Deterministic pseudo-random bytes from a small linear congruential
/// generator, standing in for an arbitrary image.
fn pseudo_random_bytes(len: usize, seed: u64) -> Vec<u8> {
    let mut state = seed;
    let mut out = Vec::with_capacity(len);
    for _ in 0..len {
        state = state.wrapping_mul(6364136223846793005).wrapping_add(1442695040888963407);
        out.push((state >> 33) as u8);
    }
    out
}

#[test]
fn flash_then_verify_matches() {
    let source = pseudo_random_bytes(10 * MIB, 42);
    let mut device = SimDevice::new(10 * MIB);
    let (session, result) = flash(&source, &mut device, BLOCK);
    let stats = result.expect("flash should succeed");
    assert_eq!(stats.bytes_written, 10 * MIB);
    assert_eq!(session.status(), FlashStatus::Completed);
    assert_eq!(session.bytes_written(), 10 * MIB);
    let vr = verify(&session, &device, 10 * MIB, &stats.digest, BLOCK)
        .expect("read-back should succeed");
    assert!(vr.matched);
    assert_eq!(vr.source_digest, stats.digest);
    assert_eq!(vr.device_digest, stats.digest);
}

#[test]
fn oversized_image_is_rejected_with_nothing_written() {
    let source = pseudo_random_bytes(10 * MIB, 43);
    let mut device = SimDevice::new(5 * MIB);
    let (session, result) = flash(&source, &mut device, BLOCK);
    assert_eq!(
        result.unwrap_err(),
        FlashError::Capacity { image_size: 10 * MIB, device_capacity: 5 * MIB }
    );
    assert_eq!(session.status(), FlashStatus::Failed);
    assert_eq!(session.bytes_written(), 0);
    // The device is untouched: still all zeroes.
    let head = device.read_at(0, BLOCK);
    assert!(head.iter().all(|b| *b == 0));
    let tail = device.read_at(5 * MIB - BLOCK, BLOCK);
    assert!(tail.iter().all(|b| *b == 0));
}

#[test]
fn write_failure_at_third_chunk_stops_after_two() {
    let source = pseudo_random_bytes(10 * BLOCK, 44);
    let mut device = SimDevice::new(10 * BLOCK);
    // Counting write calls from zero, the third chunk write is call 2.
    device.arm_write_failure(2);
    let (session, result) = flash(&source, &mut device, BLOCK);
    assert_eq!(result.unwrap_err(), FlashError::DeviceWrite { bytes_written: 2 * BLOCK });
    assert_eq!(session.status(), FlashStatus::Failed);
    assert_eq!(session.bytes_written(), 2 * BLOCK);
    // The two whole chunks before the failure are on the device, the rest is
    // untouched.
    assert_eq!(device.read_at(0, 2 * BLOCK), source[..2 * BLOCK].to_vec());
    assert!(device.read_at(2 * BLOCK, 8 * BLOCK).iter().all(|b| *b == 0));
}

#[test]
fn mutation_after_flash_fails_verification() {
    let source = pseudo_random_bytes(3 * BLOCK + 17, 45);
    let mut device = SimDevice::new(4 * BLOCK);
    let (session, result) = flash(&source, &mut device, BLOCK);
    let stats = result.expect("flash should succeed");
    // Flip one byte inside the written region.
    let position = BLOCK + 5;
    let original = device.read_at(position, 1)[0];
    let flipped = [original ^ 0x01];
    assert!(device.write_at(position, &flipped));
    let vr = verify(&session, &device, source.len(), &stats.digest, BLOCK)
        .expect("read-back should succeed");
    assert!(!vr.matched);
    assert_ne!(vr.device_digest, vr.source_digest);
}

#[test]
fn reading_a_region_twice_is_identical() {
    let source = pseudo_random_bytes(2 * BLOCK, 46);
    let mut device = SimDevice::new(2 * BLOCK);
    let (_, result) = flash(&source, &mut device, BLOCK);
    result.expect("flash should succeed");
    let first = device.read_at(BLOCK / 2, BLOCK);
    let second = device.read_at(BLOCK / 2, BLOCK);
    assert_eq!(first, second);
}

#[test]
fn flush_failure_fails_the_session() {
    let source = pseudo_random_bytes(2 * BLOCK, 47);
    let mut device = SimDevice::new(2 * BLOCK);
    device.arm_flush_failure();
    let (session, result) = flash(&source, &mut device, BLOCK);
    assert_eq!(result.unwrap_err(), FlashError::Flush { bytes_written: 2 * BLOCK });
    assert_eq!(session.status(), FlashStatus::Failed);
    // Everything was written, only the flush failed.
    assert_eq!(device.read_at(0, 2 * BLOCK), source);
}

#[test]
fn verify_past_device_end_is_a_read_back_error() {
    let source = pseudo_random_bytes(BLOCK, 48);
    let mut device = SimDevice::new(BLOCK);
    let (session, result) = flash(&source, &mut device, BLOCK);
    let stats = result.expect("flash should succeed");
    let err = verify(&session, &device, BLOCK + 1, &stats.digest, BLOCK).unwrap_err();
    assert_eq!(err, VerifyError::ReadBack { bytes_read: 0 });
}

#[test]
fn empty_image_flashes_and_verifies() {
    let source: Vec<u8> = Vec::new();
    let mut device = SimDevice::new(BLOCK);
    let (session, result) = flash(&source, &mut device, BLOCK);
    let stats = result.expect("flash should succeed");
    assert_eq!(stats.bytes_written, 0);
    assert_eq!(session.status(), FlashStatus::Completed);
    let vr = verify(&session, &device, 0, &stats.digest, BLOCK).expect("read-back should succeed");
    assert!(vr.matched);
}

#[test]
fn partial_last_chunk_is_written_exactly() {
    let source = pseudo_random_bytes(2 * BLOCK + 123, 49);
    let mut device = SimDevice::new(3 * BLOCK);
    let (session, result) = flash(&source, &mut device, BLOCK);
    let stats = result.expect("flash should succeed");
    assert_eq!(stats.bytes_written, source.len());
    assert_eq!(session.bytes_written(), source.len());
    assert_eq!(device.read_at(0, source.len()), source);
    // Bytes past the image keep their old value.
    assert!(device.read_at(source.len(), 3 * BLOCK - source.len()).iter().all(|b| *b == 0));
    let vr = verify(&session, &device, source.len(), &stats.digest, BLOCK)
        .expect("read-back should succeed");
    assert!(vr.matched);
}
