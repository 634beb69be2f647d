use playlog::text::{i32_to_text, parse_i32, str_eq, usize_to_text};

#[test]
fn decimal_rendering_matches_format() {
    for v in [0, 7, -7, 42, -100, i32::MAX, i32::MIN, 1000000] {
        assert_eq!(i32_to_text(v), format!("{}", v));
    }
    for v in [0usize, 9, 10, 12345, usize::MAX] {
        assert_eq!(usize_to_text(v), format!("{}", v));
    }
}

#[test]
fn parse_matches_std_parse() {
    let cases = [
        "0", "12", "-12", "+12", "", "+", "-", "2147483647", "2147483648", "-2147483648",
        "-2147483649", "12a", "a12", " 12", "00042", "99999999999999999999", "-0", "1_0", "٣",
    ];
    for c in cases {
        assert_eq!(parse_i32(c), c.parse::<i32>().ok(), "input {:?}", c);
    }
}

#[test]
fn printed_numbers_parse_back() {
    for v in [0, 1, -1, 250, i32::MAX, i32::MIN] {
        assert_eq!(parse_i32(&i32_to_text(v)), Some(v));
    }
}

#[test]
fn string_equality() {
    assert!(str_eq("cover", "cover"));
    assert!(!str_eq("cover", "Cover"));
    assert!(!str_eq("cover", "covers"));
    assert!(str_eq("", ""));
}
