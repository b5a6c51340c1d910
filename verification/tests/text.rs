use tenzro_edge_core::text::{contains_char, last_segment, parse_u128, parse_u32, parse_u64, starts_with, str_eq, IntErrorKind};

#[test]
fn parse_matches_std() {
    let cases = ["", "+", "-", "0", "+0", "007", "12a", "a12", "18446744073709551615", "18446744073709551616",
        "99999999999999999999x", "4294967295", "4294967296", "-5", "+-5", " 1", "1 ", "٣", "340282366920938463463374607431768211455",
        "340282366920938463463374607431768211456"];
    for c in cases {
        assert_eq!(parse_u64(c).ok(), c.parse::<u64>().ok(), "u64 {c:?}");
        assert_eq!(parse_u32(c).ok(), c.parse::<u32>().ok(), "u32 {c:?}");
        assert_eq!(parse_u128(c).ok(), c.parse::<u128>().ok(), "u128 {c:?}");
        if let Err(k) = parse_u64(c) {
            assert_eq!(k.message(), c.parse::<u64>().unwrap_err().to_string(), "msg {c:?}");
        }
        if let Err(k) = parse_u32(c) {
            assert_eq!(k.message(), c.parse::<u32>().unwrap_err().to_string(), "msg32 {c:?}");
        }
    }
    assert_eq!(parse_u64(""), Err(IntErrorKind::Empty));
    assert_eq!(parse_u64("99999999999999999999x"), Err(IntErrorKind::PosOverflow));
    assert_eq!(parse_u64("x99999999999999999999"), Err(IntErrorKind::InvalidDigit));
}

#[test]
fn string_tests() {
    assert!(str_eq("abc", "abc"));
    assert!(!str_eq("abc", "abd"));
    assert!(!str_eq("abc", "ab"));
    assert!(starts_with("tenzro://blob/x", "tenzro://"));
    assert!(!starts_with("tenzro:/", "tenzro://"));
    assert!(starts_with("x", ""));
    assert!(contains_char("1.5", '.'));
    assert!(!contains_char("15", '.'));
    assert_eq!(last_segment("tenzro://model/abc", '/'), "abc");
    assert_eq!(last_segment("noslash", '/'), "noslash");
    assert_eq!(last_segment("ends/", '/'), "");
}
