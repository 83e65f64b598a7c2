use rustypass::bytes::{bytes_of, same_bytes, zeroed};
use rustypass::text::{decimal_string, joined, parse_u32, same_text, text_of};

#[test]
fn numbers_are_written_in_decimal() {
    assert_eq!(decimal_string(0), "0");
    assert_eq!(decimal_string(7), "7");
    assert_eq!(decimal_string(10), "10");
    assert_eq!(decimal_string(4096), "4096");
    assert_eq!(decimal_string(4294967295), "4294967295");
    for n in [1u32, 9, 99, 100, 101, 65535, 1000000007] {
        assert_eq!(decimal_string(n), n.to_string());
    }
}

#[test]
fn numbers_are_read_as_the_standard_library_reads_them() {
    assert_eq!(parse_u32("0"), Some(0));
    assert_eq!(parse_u32("567"), Some(567));
    assert_eq!(parse_u32("+567"), Some(567));
    assert_eq!(parse_u32("007"), Some(7));
    assert_eq!(parse_u32("4294967295"), Some(4294967295));
    assert_eq!(parse_u32("4294967296"), None);
    assert_eq!(parse_u32("99999999999999999999999999"), None);
    assert_eq!(parse_u32(""), None);
    assert_eq!(parse_u32("+"), None);
    assert_eq!(parse_u32("-1"), None);
    assert_eq!(parse_u32("-0"), None);
    assert_eq!(parse_u32("++1"), None);
    assert_eq!(parse_u32("1+"), None);
    assert_eq!(parse_u32(" 1"), None);
    assert_eq!(parse_u32("1 "), None);
    assert_eq!(parse_u32("1_000"), None);
    assert_eq!(parse_u32("0x10"), None);
    assert_eq!(parse_u32("not_a_number"), None);
    assert_eq!(parse_u32("１２"), None);
    assert_eq!(parse_u32("12é"), None);
    for text in ["0", "12", "+12", "-12", "", "+", "4294967295", "4294967296", "a", "1a", "004"] {
        assert_eq!(parse_u32(text), text.parse::<u32>().ok());
    }
}

#[test]
fn what_is_written_is_read_back() {
    for n in [0u32, 1, 8, 10, 4096, 268435455, 4294967295] {
        assert_eq!(parse_u32(&decimal_string(n)), Some(n));
    }
}

#[test]
fn texts_are_compared_by_their_characters() {
    assert!(same_text("", ""));
    assert!(same_text("Argon2id", "Argon2id"));
    assert!(!same_text("Argon2id", "Argon2i"));
    assert!(!same_text("Argon2id", "argon2id"));
    assert!(same_text("zażółć", "zażółć"));
    assert!(!same_text("zażółć", "zazolc"));
}

#[test]
fn texts_are_joined_in_order() {
    assert_eq!(joined("Field ", "x", " was not found."), "Field x was not found.");
    assert_eq!(joined("", "", ""), "");
    assert_eq!(text_of("abc"), "abc");
}

#[test]
fn bytes_are_copied_compared_and_zeroed() {
    assert_eq!(bytes_of(&[1, 2, 3]), vec![1, 2, 3]);
    assert_eq!(bytes_of(&[]), Vec::<u8>::new());
    assert!(same_bytes(&[1, 2, 3], &[1, 2, 3]));
    assert!(!same_bytes(&[1, 2, 3], &[1, 2, 4]));
    assert!(!same_bytes(&[1, 2, 3], &[1, 2]));
    assert!(same_bytes(&[], &[]));
    assert_eq!(zeroed(0), Vec::<u8>::new());
    assert_eq!(zeroed(5), vec![0u8; 5]);
}
