use guessing_game::text::parse_u32;

#[test]
fn parses_plain_decimal() {
    assert_eq!(parse_u32("42"), Some(42));
    assert_eq!(parse_u32("0"), Some(0));
    assert_eq!(parse_u32("007"), Some(7));
    assert_eq!(parse_u32("100"), Some(100));
}

#[test]
fn trims_surrounding_whitespace() {
    assert_eq!(parse_u32(" 42 "), Some(42));
    assert_eq!(parse_u32("\t42\n"), Some(42));
    assert_eq!(parse_u32("42\r\n"), Some(42));
    assert_eq!(parse_u32("\u{3000}5\u{00A0}"), Some(5));
}

#[test]
fn accepts_one_leading_plus() {
    assert_eq!(parse_u32("+7"), Some(7));
    assert_eq!(parse_u32(" +7 "), Some(7));
    assert_eq!(parse_u32("++7"), None);
    assert_eq!(parse_u32("+"), None);
}

#[test]
fn rejects_empty_and_blank_lines() {
    assert_eq!(parse_u32(""), None);
    assert_eq!(parse_u32("   "), None);
    assert_eq!(parse_u32("\n"), None);
}

#[test]
fn rejects_nonnumeric_text() {
    assert_eq!(parse_u32("abc"), None);
    assert_eq!(parse_u32("4.2"), None);
    assert_eq!(parse_u32("-1"), None);
    assert_eq!(parse_u32("1 2"), None);
    assert_eq!(parse_u32("42abc"), None);
    assert_eq!(parse_u32("１２"), None);
}

#[test]
fn respects_the_u32_limit() {
    assert_eq!(parse_u32("4294967295"), Some(u32::MAX));
    assert_eq!(parse_u32("4294967296"), None);
    assert_eq!(parse_u32("99999999999999999999"), None);
}
