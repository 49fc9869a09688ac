use sierra_engine::bytes::{bytes_eq, concat_bytes, copy_bytes, copy_range, replace_all};

#[test]
fn replace_all_replaces_every_occurrence() {
    let out = replace_all(&b"abcabcabc".to_vec(), &b"abc".to_vec(), &b"x".to_vec());
    assert_eq!(out, b"xxx".to_vec());
}

#[test]
fn replace_all_scans_left_to_right_without_rescanning() {
    // The replacement text is never rescanned for further matches.
    let out = replace_all(&b"aab".to_vec(), &b"ab".to_vec(), &b"b".to_vec());
    assert_eq!(out, b"ab".to_vec());
}

#[test]
fn replace_all_with_absent_pattern_keeps_the_text() {
    let out = replace_all(&b"hello".to_vec(), &b"xyz".to_vec(), &b"!".to_vec());
    assert_eq!(out, b"hello".to_vec());
}

#[test]
fn replace_all_with_empty_pattern_keeps_the_text() {
    let out = replace_all(&b"hello".to_vec(), &b"".to_vec(), &b"!".to_vec());
    assert_eq!(out, b"hello".to_vec());
}

#[test]
fn replace_all_with_longer_replacement() {
    let out = replace_all(
        &b"/srv/a.cairo ok".to_vec(),
        &b"/srv/a.cairo".to_vec(),
        &b"a.cairo".to_vec(),
    );
    assert_eq!(out, b"a.cairo ok".to_vec());
}

#[test]
fn copy_and_concat_and_range() {
    let v = b"abcdef".to_vec();
    assert_eq!(copy_bytes(&v), v);
    assert_eq!(copy_range(&v, 1, 4), b"bcd".to_vec());
    assert_eq!(concat_bytes(&b"ab".to_vec(), &b"cd".to_vec()), b"abcd".to_vec());
}

#[test]
fn bytes_eq_compares_contents() {
    assert!(bytes_eq(&b"abc".to_vec(), &b"abc".to_vec()));
    assert!(!bytes_eq(&b"abc".to_vec(), &b"abd".to_vec()));
    assert!(!bytes_eq(&b"abc".to_vec(), &b"ab".to_vec()));
}
