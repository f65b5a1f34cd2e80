use crm_gateway::decimal::{i32_decimal, parse_i32};

#[test]
fn renders_small_numbers() {
    assert_eq!(i32_decimal(0), String::from("0"));
    assert_eq!(i32_decimal(7), String::from("7"));
    assert_eq!(i32_decimal(42), String::from("42"));
    assert_eq!(i32_decimal(120), String::from("120"));
}

#[test]
fn renders_negative_numbers() {
    assert_eq!(i32_decimal(-1), String::from("-1"));
    assert_eq!(i32_decimal(-45), String::from("-45"));
}

#[test]
fn renders_the_extremes() {
    assert_eq!(i32_decimal(i32::MAX), String::from("2147483647"));
    assert_eq!(i32_decimal(i32::MIN), String::from("-2147483648"));
}

#[test]
fn parses_plain_numbers() {
    assert_eq!(parse_i32("0"), Some(0));
    assert_eq!(parse_i32("123"), Some(123));
    assert_eq!(parse_i32("007"), Some(7));
}

#[test]
fn parses_signs() {
    assert_eq!(parse_i32("+7"), Some(7));
    assert_eq!(parse_i32("-7"), Some(-7));
    assert_eq!(parse_i32("-0"), Some(0));
}

#[test]
fn parses_the_extremes_and_rejects_beyond() {
    assert_eq!(parse_i32("2147483647"), Some(i32::MAX));
    assert_eq!(parse_i32("-2147483648"), Some(i32::MIN));
    assert_eq!(parse_i32("2147483648"), None);
    assert_eq!(parse_i32("-2147483649"), None);
    assert_eq!(parse_i32("99999999999999999999"), None);
}

#[test]
fn rejects_non_numbers() {
    assert_eq!(parse_i32(""), None);
    assert_eq!(parse_i32("+"), None);
    assert_eq!(parse_i32("-"), None);
    assert_eq!(parse_i32("12a"), None);
    assert_eq!(parse_i32("a12"), None);
    assert_eq!(parse_i32(" 12"), None);
    assert_eq!(parse_i32("1 2"), None);
    assert_eq!(parse_i32("--5"), None);
}

#[test]
fn agrees_with_the_standard_parser() {
    for s in ["0", "-1", "2147483647", "-2147483648", "2147483648", "+42", "x", ""] {
        assert_eq!(parse_i32(s), s.parse::<i32>().ok());
    }
}
