use bmkg::text::{bytes_eq, spells, str_eq, Text};

#[test]
fn byte_strings_compare_by_content() {
    assert!(bytes_eq(b"", b""));
    assert!(bytes_eq(b"area", b"area"));
    assert!(!bytes_eq(b"area", b"areas"));
    assert!(!bytes_eq(b"area", b"arez"));
    assert!(!bytes_eq(b"Area", b"area"));
}

#[test]
fn strings_compare_by_content() {
    assert!(str_eq("", ""));
    assert!(str_eq("gempa", "gempa"));
    assert!(!str_eq("gempa", "gemp"));
    assert!(!str_eq("gempa", "Gempa"));
    assert!(str_eq("é", "\u{e9}"));
    assert!(spells("é".as_bytes(), "é"));
    assert!(spells(b"value", "value"));
    assert!(!spells(b"values", "value"));
}

#[test]
fn both_string_types_read_as_slices() {
    assert_eq!("abc".as_text(), "abc");
    assert_eq!(String::from("abc").as_text(), "abc");
}
