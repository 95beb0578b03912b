use weather_cli::digits::{parse_u64, u64_digits};
use weather_cli::json::str_eq;

#[test]
fn render_exact_values() {
    assert_eq!(u64_digits(0), "0");
    assert_eq!(u64_digits(7), "7");
    assert_eq!(u64_digits(40), "40");
    assert_eq!(u64_digits(9075), "9075");
    assert_eq!(u64_digits(u64::MAX), "18446744073709551615");
}

#[test]
fn parse_exact_values() {
    assert_eq!(parse_u64("0"), Some(0));
    assert_eq!(parse_u64("40"), Some(40));
    assert_eq!(parse_u64("007"), Some(7));
    assert_eq!(parse_u64("18446744073709551615"), Some(u64::MAX));
}

#[test]
fn parse_rejects_non_digits_and_overflow() {
    assert_eq!(parse_u64(""), None);
    assert_eq!(parse_u64("40.5"), None);
    assert_eq!(parse_u64("-1"), None);
    assert_eq!(parse_u64("4e1"), None);
    assert_eq!(parse_u64("18446744073709551616"), None);
}

#[test]
fn round_trip_render_then_parse() {
    for n in [0u64, 1, 9, 10, 99, 100, 12345, u64::MAX - 1, u64::MAX] {
        assert_eq!(parse_u64(&u64_digits(n)), Some(n));
    }
}

#[test]
fn str_eq_compares_by_characters() {
    assert!(str_eq("clear sky", "clear sky"));
    assert!(!str_eq("clear sky", "clear skies"));
    assert!(!str_eq("a", "b"));
    assert!(str_eq("", ""));
}
