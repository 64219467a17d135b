use uprobestats::numbers::parse_i32_radix;
use uprobestats::text::{
    str_contains, str_eq, str_lines, str_second_field, str_starts_with, str_trim_start_matches,
};

#[test]
fn contains_and_starts_with() {
    assert!(str_contains("map_DisruptiveApp_x", "DisruptiveApp"));
    assert!(str_contains("abc", ""));
    assert!(!str_contains("ab", "abc"));
    assert!(!str_contains("Bindr", "Binder"));
    assert!(str_starts_with("abc", "ab"));
    assert!(!str_starts_with("ab", "abc"));
    assert!(str_eq("x", "x"));
    assert!(!str_eq("x", "xy"));
}

#[test]
fn second_field_is_second_piece_of_split() {
    for s in ["void a.b()", "a", "a ", " b", "a b c", "", "  ", "é ü ö"] {
        let expected = s.split(' ').nth(1).map(String::from);
        assert_eq!(str_second_field(s, ' '), expected, "{s:?}");
    }
}

#[test]
fn trim_start_matches_removes_every_leading_copy() {
    for (s, p) in [("0x1f", "0x"), ("0x0x1f", "0x"), ("1f", "0x"), ("0x", "0x"), ("abc", "")] {
        assert_eq!(str_trim_start_matches(s, p), s.trim_start_matches(p), "{s:?}");
    }
}

#[test]
fn lines_split_like_std() {
    for s in ["", "a", "a\n", "a\n\n", "\n", "a\r\nb", "a\rb\n", "a\r", "x\ny\r\n", "\r\n\r\n"] {
        let expected: Vec<String> = s.lines().map(String::from).collect();
        assert_eq!(str_lines(s), expected, "{s:?}");
    }
}

#[test]
fn parse_matches_from_str_radix() {
    let cases = [
        "", "+", "-", "0", "1f", "1F", "-1f", "+1f", "7fffffff", "80000000", "-80000000",
        "-80000001", "ffffffff", "0001", "g", "1 ", " 1", "+-1", "--1", "000000000000000000000000001",
        "123456789012345678901234567890",
    ];
    for s in cases {
        assert_eq!(parse_i32_radix(s, 16), i32::from_str_radix(s, 16).ok(), "hex {s:?}");
        assert_eq!(parse_i32_radix(s, 10), i32::from_str_radix(s, 10).ok(), "dec {s:?}");
    }
    assert_eq!(parse_i32_radix("2147483647", 10), Some(i32::MAX));
    assert_eq!(parse_i32_radix("2147483648", 10), None);
    assert_eq!(parse_i32_radix("-2147483648", 10), Some(i32::MIN));
    assert_eq!(parse_i32_radix("zz", 36), Some(1295));
}
