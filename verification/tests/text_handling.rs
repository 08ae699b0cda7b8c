use workout_tracker::text::{parse_u8, split_semicolons, str_eq, trim_str, u8_to_string};

#[test]
fn trim_removes_surrounding_blanks_only() {
    assert_eq!(trim_str("  hello  "), "hello");
    assert_eq!(trim_str("\thello world\n"), "hello world");
    assert_eq!(trim_str("hello"), "hello");
    assert_eq!(trim_str(""), "");
    assert_eq!(trim_str("   "), "");
    assert_eq!(trim_str(" a b "), "a b");
}

#[test]
fn string_equality_is_exact() {
    assert!(str_eq("Bench", "Bench"));
    assert!(!str_eq("Bench", "bench"));
    assert!(!str_eq("Bench", "Bench "));
    assert!(str_eq("", ""));
}

#[test]
fn counts_parse_as_plain_decimals() {
    assert_eq!(parse_u8("0"), Some(0));
    assert_eq!(parse_u8("3"), Some(3));
    assert_eq!(parse_u8("007"), Some(7));
    assert_eq!(parse_u8("255"), Some(255));
    assert_eq!(parse_u8("+42"), Some(42));
}

#[test]
fn counts_reject_bad_text_and_overflow() {
    assert_eq!(parse_u8(""), None);
    assert_eq!(parse_u8("+"), None);
    assert_eq!(parse_u8("-1"), None);
    assert_eq!(parse_u8("12a"), None);
    assert_eq!(parse_u8("a12"), None);
    assert_eq!(parse_u8("256"), None);
    assert_eq!(parse_u8("1000"), None);
    assert_eq!(parse_u8("4 2"), None);
}

#[test]
fn counts_render_in_decimal() {
    assert_eq!(u8_to_string(0), "0");
    assert_eq!(u8_to_string(7), "7");
    assert_eq!(u8_to_string(10), "10");
    assert_eq!(u8_to_string(42), "42");
    assert_eq!(u8_to_string(100), "100");
    assert_eq!(u8_to_string(255), "255");
}

#[test]
fn splitting_at_semicolons_keeps_every_piece() {
    assert_eq!(split_semicolons("a;b;c"), vec!["a", "b", "c"]);
    assert_eq!(split_semicolons("Alice;"), vec!["Alice", ""]);
    assert_eq!(split_semicolons(";"), vec!["", ""]);
    assert_eq!(split_semicolons(""), vec![""]);
    assert_eq!(split_semicolons("no separators"), vec!["no separators"]);
}
