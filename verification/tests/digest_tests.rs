use isoflash::digest::DigestState;

fn digest_all(bytes: &[u8]) -> isoflash::digest::Digest {
    let mut st = DigestState::new();
    st.update(bytes);
    st.finish()
}

#[test]
fn empty_digest_is_all_zero() {
    let d = digest_all(&[]);
    assert_eq!(d.count, 0);
    assert_eq!(d.sum, 0);
    assert_eq!(d.mix, 0);
}

#[test]
fn small_digest_has_expected_components() {
    let d = digest_all(&[1, 2, 3]);
    assert_eq!(d.count, 3);
    assert_eq!(d.sum, 6);
    // Running sums are 1, 3, 6; their total is 10.
    assert_eq!(d.mix, 10);
}

#[test]
fn chunked_updates_equal_one_update() {
    let bytes: Vec<u8> = (0u32..1000).map(|i| (i % 251) as u8).collect();
    let whole = digest_all(&bytes);
    let mut st = DigestState::new();
    st.update(&bytes[..337]);
    st.update(&bytes[337..802]);
    st.update(&bytes[802..]);
    let pieces = st.finish();
    assert_eq!(whole, pieces);
}

#[test]
fn single_byte_change_changes_digest() {
    let mut bytes = vec![7u8; 4096];
    let original = digest_all(&bytes);
    bytes[1234] = 8;
    let mutated = digest_all(&bytes);
    assert_ne!(original, mutated);
}

#[test]
fn byte_order_changes_digest() {
    let ab = digest_all(&[1, 2]);
    let ba = digest_all(&[2, 1]);
    assert_eq!(ab.sum, ba.sum);
    assert_ne!(ab.mix, ba.mix);
    assert_ne!(ab, ba);
}

#[test]
fn length_changes_digest() {
    let short = digest_all(&[1]);
    let long = digest_all(&[1, 0]);
    assert_ne!(short, long);
}
