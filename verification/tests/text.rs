use scanox_backend::http::text::{ends_with, parse_i16, parse_i32, push_decimal, push_signed_decimal, text_eq};

#[test]
fn decimals_are_written_without_leading_zeros() {
    for n in [0u64, 7, 10, 99, 100, 1725029869, u64::MAX] {
        let mut out = String::new();
        push_decimal(&mut out, n);
        assert_eq!(out, n.to_string());
    }
}

#[test]
fn signed_decimals_carry_their_sign() {
    for n in [0i64, -1, 42, -2147483648, i64::MIN, i64::MAX] {
        let mut out = String::from("x");
        push_signed_decimal(&mut out, n);
        assert_eq!(out, format!("x{}", n));
    }
}

#[test]
fn i32_parsing_matches_std() {
    for text in ["0", "-0", "+12", "2147483647", "2147483648", "-2147483648", "-2147483649", "", "-", "+", "1a", "٣", "00000000000000000001"] {
        assert_eq!(parse_i32(text), text.parse::<i32>().ok(), "text {:?}", text);
    }
}

#[test]
fn i16_parsing_matches_std() {
    for text in ["32767", "32768", "-32768", "-32769", "12", "x"] {
        assert_eq!(parse_i16(text), text.parse::<i16>().ok(), "text {:?}", text);
    }
}

#[test]
fn suffixes_and_equality() {
    assert!(ends_with("a.pdf", ".pdf"));
    assert!(ends_with("é.pdf", ".pdf"));
    assert!(!ends_with("a.pd", ".pdf"));
    assert!(ends_with("x", ""));
    assert!(text_eq("abc", "abc"));
    assert!(!text_eq("abc", "abd"));
}
