use mpv_supervisor::strutil::parse_i64;
use mpv_supervisor::strutil::str_eq;
use mpv_supervisor::strutil::starts_with_str;
use mpv_supervisor::strutil::strip_prefix_str;
use mpv_supervisor::strutil::u64_to_string;

#[test]
fn str_eq_basic() {
    assert!(str_eq("", ""));
    assert!(str_eq("abc", "abc"));
    assert!(!str_eq("abc", "abd"));
    assert!(!str_eq("abc", "ab"));
    assert!(!str_eq("", "x"));
}

#[test]
fn starts_with_basic() {
    assert!(starts_with_str("--wid=42", "--wid="));
    assert!(starts_with_str("abc", ""));
    assert!(!starts_with_str("--wid", "--wid="));
    assert!(!starts_with_str("--wide=1", "--wid="));
}

#[test]
fn strip_prefix_basic() {
    assert_eq!(strip_prefix_str("--wid=42", "--wid="), Some("42"));
    assert_eq!(strip_prefix_str("--vid=no", "--wid="), None);
    assert_eq!(strip_prefix_str("--wid=", "--wid="), Some(""));
}

#[test]
fn u64_to_string_exact() {
    assert_eq!(u64_to_string(0), "0");
    assert_eq!(u64_to_string(7), "7");
    assert_eq!(u64_to_string(12345), "12345");
    assert_eq!(u64_to_string(18446744073709551615), "18446744073709551615");
}

#[test]
fn parse_i64_accepts_plain_decimals() {
    assert_eq!(parse_i64("0"), Some(0));
    assert_eq!(parse_i64("123"), Some(123));
    assert_eq!(parse_i64("007"), Some(7));
    assert_eq!(parse_i64("+7"), Some(7));
    assert_eq!(parse_i64("-42"), Some(-42));
}

#[test]
fn parse_i64_bounds() {
    assert_eq!(parse_i64("9223372036854775807"), Some(i64::MAX));
    assert_eq!(parse_i64("-9223372036854775808"), Some(i64::MIN));
    assert_eq!(parse_i64("9223372036854775808"), None);
    assert_eq!(parse_i64("-9223372036854775809"), None);
    assert_eq!(parse_i64("99999999999999999999999"), None);
}

#[test]
fn parse_i64_rejects_junk() {
    assert_eq!(parse_i64(""), None);
    assert_eq!(parse_i64("+"), None);
    assert_eq!(parse_i64("-"), None);
    assert_eq!(parse_i64("12a"), None);
    assert_eq!(parse_i64("a12"), None);
    assert_eq!(parse_i64("1 2"), None);
    assert_eq!(parse_i64("--5"), None);
}
