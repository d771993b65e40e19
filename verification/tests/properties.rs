use hamming::bitwise_hamming_distance::{bit_distance, bit_distance_seq};
use hamming::hamming_distance::{element_distance, element_distance_str};
use hamming::LengthMismatch;

#[test]
fn bit_distance_reflexive() {
    let samples: [u8; 5] = [0x00, 0x01, 0x55, 0xAB, 0xFF];
    for x in samples {
        assert!(bit_distance(x, x) == 0);
    }
}

#[test]
fn bit_distance_symmetric() {
    let samples: [u8; 4] = [0x00, 0x2C, 0x81, 0xFF];
    for a in samples {
        for b in samples {
            assert!(bit_distance(a, b) == bit_distance(b, a));
        }
    }
}

#[test]
fn bit_distance_bounded_by_width() {
    let samples: [u8; 5] = [0x00, 0x0F, 0x55, 0xC3, 0xFF];
    for a in samples {
        for b in samples {
            assert!(bit_distance(a, b) <= 8);
        }
    }
    assert!(bit_distance(0x00, 0xFF) == 8);
}

#[test]
fn bit_distance_exact_values() {
    assert!(bit_distance(0x01, 0x03) == 1);
    assert!(bit_distance(0x01, 0xFF) == 7);
}

#[test]
fn bit_distance_seq_exact_value() {
    assert!(bit_distance_seq(&[0x01, 0x01], &[0x03, 0xFF]) == Ok(8));
}

#[test]
fn bit_distance_seq_length_mismatch() {
    assert!(bit_distance_seq(&[0x01], &[0x03, 0xFF]) == Err(LengthMismatch));
    assert!(bit_distance_seq(&[0x01, 0x01], &[0x03]) == Err(LengthMismatch));
}

#[test]
fn bit_distance_seq_empty() {
    assert!(bit_distance_seq(&[], &[]) == Ok(0));
}

#[test]
fn element_distance_reflexive() {
    let s: &[u8] = &[1, 2, 3, 4];
    assert!(element_distance(s, s) == Ok(0));
    let t: &[char] = &['x', 'y'];
    assert!(element_distance(t, t) == Ok(0));
}

#[test]
fn element_distance_symmetric() {
    let a: &[u8] = &[1, 2, 3, 4];
    let b: &[u8] = &[1, 9, 3, 7];
    assert!(element_distance(a, b) == element_distance(b, a));
}

#[test]
fn element_distance_exact_value() {
    let a: &[char] = &['a', 'b'];
    let b: &[char] = &['c', 'd'];
    assert!(element_distance(a, b) == Ok(2));
}

#[test]
fn element_distance_bounded_by_length() {
    let a: &[u8] = &[1, 2, 3];
    let b: &[u8] = &[9, 9, 9];
    let d = element_distance(a, b).unwrap();
    assert!(d <= a.len() as u32);
}

#[test]
fn element_distance_length_mismatch() {
    let a: &[u8] = &[1, 2];
    let b: &[u8] = &[1];
    assert!(element_distance(a, b) == Err(LengthMismatch));
    let c: &[char] = &['a'];
    let d: &[char] = &['a', 'b'];
    assert!(element_distance(c, d) == Err(LengthMismatch));
}

#[test]
fn element_distance_empty() {
    let a: &[u8] = &[];
    let b: &[u8] = &[];
    assert!(element_distance(a, b) == Ok(0));
}

#[test]
fn element_distance_str_exact_value() {
    assert!(element_distance_str("Cat", "Hat") == Ok(1));
}

#[test]
fn element_distance_str_reflexive() {
    assert!(element_distance_str("Cat", "Cat") == Ok(0));
    assert!(element_distance_str("", "") == Ok(0));
}

#[test]
fn element_distance_str_length_mismatch() {
    assert!(element_distance_str("Cats", "Hat") == Err(LengthMismatch));
    assert!(element_distance_str("", "x") == Err(LengthMismatch));
}

#[test]
fn element_distance_str_counts_characters_not_bytes() {
    // "\u{e9}" is one character of two bytes: the character counts
    // match, so the comparison succeeds.
    assert!(element_distance_str("\u{e9}a", "\u{e9}b") == Ok(1));
    assert!(element_distance_str("\u{e9}", "a") == Ok(1));
}
