use hookcore::pattern::{find, Pattern};

fn sig(bytes: &[(u8, bool)]) -> Pattern {
    Pattern(bytes.to_vec())
}

#[test]
fn len_counts_slots() {
    let p = sig(&[(0x8B, true), (0x54, true), (0x00, false), (0x04, true)]);
    assert_eq!(p.len(), 4);
}

#[test]
fn masked_signature_matches_at_offset_ten() {
    // Significant bytes 0x8B 0x54 _ 0x04 with a wildcard third slot, placed
    // at offset 10 of the region.
    let p = sig(&[(0x8B, true), (0x54, true), (0x00, false), (0x04, true)]);
    let mut region = vec![0x11u8; 10];
    region.extend_from_slice(&[0x8B, 0x54, 0x99, 0x04]);
    region.extend_from_slice(&[0x22, 0x33]);
    assert_eq!(find(&region, &p), Some(10));
}

#[test]
fn wildcard_slot_matches_any_value() {
    let p = sig(&[(0x8B, true), (0x54, true), (0x00, false), (0x04, true)]);
    for third in [0x00u8, 0x01, 0x7F, 0x99, 0xFF] {
        let mut region = vec![0x11u8; 10];
        region.extend_from_slice(&[0x8B, 0x54, third, 0x04]);
        assert_eq!(find(&region, &p), Some(10), "third byte {third:#x}");
    }
}

#[test]
fn significant_mismatch_fails() {
    let p = sig(&[(0x8B, true), (0x54, true), (0x00, false), (0x04, true)]);
    let mut region = vec![0x11u8; 10];
    region.extend_from_slice(&[0x8B, 0x54, 0x99, 0x05]);
    assert_eq!(find(&region, &p), None);
}

#[test]
fn find_returns_leftmost_match() {
    let p = sig(&[(0xAA, true), (0xBB, true)]);
    let region = vec![0x00, 0xAA, 0xBB, 0x00, 0xAA, 0xBB];
    assert_eq!(find(&region, &p), Some(1));
}

#[test]
fn find_on_region_shorter_than_signature_is_none() {
    let p = sig(&[(0xAA, true), (0xBB, true), (0xCC, true)]);
    assert_eq!(find(&vec![0xAA, 0xBB], &p), None);
    assert_eq!(find(&vec![], &p), None);
}

#[test]
fn find_region_equal_to_signature_length_matches_flush() {
    let p = sig(&[(0xAA, true), (0xBB, true)]);
    assert_eq!(find(&vec![0xAA, 0xBB], &p), Some(0));
    assert_eq!(find(&vec![0x00, 0xAA, 0xBB], &p), Some(1));
}

#[test]
fn compare_checks_only_the_window() {
    let p = sig(&[(0xAA, true), (0x00, false)]);
    let region = vec![0x10, 0xAA, 0x55, 0x20];
    assert!(p.compare(&region, 1));
    assert!(!p.compare(&region, 0));
    assert!(!p.compare(&region, 2));
}

#[test]
fn all_wildcards_match_anywhere() {
    let p = sig(&[(0x00, false), (0x00, false)]);
    let region = vec![0x42, 0x43, 0x44];
    assert_eq!(find(&region, &p), Some(0));
}
