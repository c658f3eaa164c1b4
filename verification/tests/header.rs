use std::collections::HashSet;

use lockfile::header;

#[test]
fn generated_headers_are_valid_unique_and_nonzero() {
    let mut seen: HashSet<Vec<u8>> = HashSet::new();
    for _ in 0..10_000 {
        let h = header::new();
        assert_eq!(h.len(), header::HEADER_SIZE);
        assert!(header::check_integrity(&h));
        assert!(!header::check_clear(&h));
        assert!(h.iter().any(|b| *b != 0));
        assert!(seen.insert(h), "two generated headers were identical");
    }
}

#[test]
fn generated_header_has_version_nibble() {
    let h = header::new();
    assert_eq!(h[6] & 0xf0, 0x40);
}

#[test]
fn any_single_bit_flip_fails_integrity() {
    let h = header::new();
    assert!(header::check_integrity(&h));
    for byte in 0..header::HEADER_SIZE {
        for bit in 0..8 {
            let mut flipped = h.clone();
            flipped[byte] ^= 1u8 << bit;
            assert!(
                !header::check_integrity(&flipped),
                "flipping bit {} of byte {} went undetected",
                bit,
                byte
            );
        }
    }
}

#[test]
fn clear_header_is_clear_and_not_valid() {
    let clear = header::clear_header();
    assert_eq!(clear.len(), header::HEADER_SIZE);
    assert!(clear.iter().all(|b| *b == 0));
    assert!(header::check_clear(&clear));
    assert!(!header::check_integrity(&clear));
}

#[test]
fn wrong_length_is_neither_valid_nor_clear() {
    for len in [0usize, 1, 47, 49, 96] {
        let bytes = vec![0u8; len];
        assert!(!header::check_integrity(&bytes));
        assert!(!header::check_clear(&bytes));
    }
}

#[test]
fn forged_tag_fails_integrity() {
    let h = header::new();
    let mut forged = h.clone();
    for i in header::GUID_SIZE..header::HEADER_SIZE {
        forged[i] = 0;
    }
    assert!(!header::check_integrity(&forged));

    let mut token_as_tag = h.clone();
    for i in 0..header::GUID_SIZE {
        let t = token_as_tag[i];
        token_as_tag[header::GUID_SIZE + i] = t;
        token_as_tag[header::GUID_SIZE * 2 + i] = t;
    }
    assert!(!header::check_integrity(&token_as_tag));
}

#[test]
fn check_clear_spots_a_single_nonzero_byte() {
    for i in 0..header::HEADER_SIZE {
        let mut bytes = vec![0u8; header::HEADER_SIZE];
        bytes[i] = 1;
        assert!(!header::check_clear(&bytes));
    }
}
