use timetracker::parse::parse_u64;
use timetracker::settings::threshold_or_default;

#[test]
fn parses_plain_decimals() {
    assert_eq!(parse_u64("0"), Some(0));
    assert_eq!(parse_u64("300"), Some(300));
    assert_eq!(parse_u64("007"), Some(7));
    assert_eq!(parse_u64("+42"), Some(42));
    assert_eq!(parse_u64("18446744073709551615"), Some(u64::MAX));
}

#[test]
fn rejects_non_decimals() {
    assert_eq!(parse_u64(""), None);
    assert_eq!(parse_u64("+"), None);
    assert_eq!(parse_u64("12a"), None);
    assert_eq!(parse_u64("-3"), None);
    assert_eq!(parse_u64(" 5"), None);
    assert_eq!(parse_u64("++1"), None);
}

#[test]
fn rejects_values_out_of_range() {
    assert_eq!(parse_u64("18446744073709551616"), None);
    assert_eq!(parse_u64("99999999999999999999999"), None);
}

#[test]
fn threshold_uses_stored_value_or_default() {
    assert_eq!(threshold_or_default(&Some("120".to_string())), 120);
    assert_eq!(threshold_or_default(&Some("oops".to_string())), 300);
    assert_eq!(threshold_or_default(&Some("".to_string())), 300);
    assert_eq!(threshold_or_default(&None), 300);
}
