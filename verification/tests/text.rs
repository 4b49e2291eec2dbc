use madura_javac::{decimal, lossy};

#[test]
fn decimal_matches_display() {
    for c in [0, 1, 9, 10, 42, 99, 100, 1234567, -1, -10, -987, i32::MAX, i32::MIN] {
        assert_eq!(decimal(c), c.to_string());
    }
}

#[test]
fn decimal_of_extremes() {
    assert_eq!(decimal(i32::MIN), "-2147483648");
    assert_eq!(decimal(i32::MAX), "2147483647");
}

#[test]
fn lossy_keeps_valid_utf8() {
    assert_eq!(lossy("src/主要/Класс.java".as_bytes()), "src/主要/Класс.java");
}

#[test]
fn lossy_replaces_invalid_sequences() {
    assert_eq!(lossy(b"a\xffb"), "a\u{FFFD}b");
    assert_eq!(lossy(b"\xc3"), "\u{FFFD}");
}
