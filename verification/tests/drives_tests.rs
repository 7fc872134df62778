use isoflash::drives::{drive_accepted, is_removable_marker};

#[test]
fn marker_accepts_one_up_to_whitespace() {
    assert!(is_removable_marker(b"1"));
    assert!(is_removable_marker(b"1\n"));
    assert!(is_removable_marker(b" \t1 \r\n"));
}

#[test]
fn marker_rejects_everything_else() {
    assert!(!is_removable_marker(b""));
    assert!(!is_removable_marker(b" \n"));
    assert!(!is_removable_marker(b"0\n"));
    assert!(!is_removable_marker(b"11"));
    assert!(!is_removable_marker(b"1 1"));
    assert!(!is_removable_marker(b"x1\n"));
}

#[test]
fn drive_needs_marker_and_node() {
    let one = b"1\n".to_vec();
    let zero = b"0\n".to_vec();
    assert!(drive_accepted(Some(&one), true));
    assert!(!drive_accepted(Some(&one), false));
    assert!(!drive_accepted(Some(&zero), true));
    assert!(!drive_accepted(None, true));
}
