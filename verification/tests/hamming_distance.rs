use hamming::hamming_distance::HammingDistancable;
use hamming::LengthMismatch;

#[test]
fn vec_hamming_distance() {
    let mut vec1: Vec<char> = Vec::new();
    let mut vec2: Vec<char> = Vec::new();

    vec1.push('a');
    vec1.push('b');

    vec2.push('c');
    vec2.push('d');

    assert!(vec1.hamming_distance(&vec2).unwrap() == 2);
}

#[test]
fn vec_hamming_distance_error() {
    let mut vec1: Vec<char> = Vec::new();
    let mut vec2: Vec<char> = Vec::new();

    vec1.push('a');
    vec1.push('b');

    vec2.push('c');

    assert!(vec1.hamming_distance(&vec2).unwrap_err() == LengthMismatch);
}

#[test]
fn slice_hamming_distance() {
    let byte_slice1: &[u8] = &[0x01, 0x01];
    let byte_slice2: &[u8] = &[0x01, 0xFF];

    assert!(byte_slice1.hamming_distance(byte_slice2).unwrap() == 1);
}

#[test]
fn slice_hamming_distance_error() {
    let byte_slice1: &[u8] = &[0x01];
    let byte_slice2: &[u8] = &[0x01, 0xFF];

    assert!(byte_slice1.hamming_distance(byte_slice2).unwrap_err() == LengthMismatch);
}

#[test]
fn string_hamming_distance() {
    let string1: String = "Cat".to_owned();
    let string2: String = "Hat".to_owned();

    assert!(string1.hamming_distance(&string2).unwrap() == 1);
}

#[test]
fn string_hamming_distance_error() {
    let string1: String = "Cats".to_owned();
    let string2: String = "Hat".to_owned();

    assert!(string1.hamming_distance(&string2).unwrap_err() == LengthMismatch);
}

#[test]
fn borrowed_string_hamming_distance() {
    let string1: &str = "Cat";
    let string2: &str = "Hat";

    assert!(string1.hamming_distance(string2).unwrap() == 1);
}

#[test]
fn borrowed_string_hamming_distance_error() {
    let string1: &str = "Cats";
    let string2: &str = "Hat";

    assert!(string1.hamming_distance(string2).unwrap_err() == LengthMismatch);
}
