use the_axum::text::{equals_ascii_lowercase_of, format_i64, format_u64, split_once_char};

#[test]
fn formats_signed_integers_in_decimal() {
    assert_eq!(format_i64(0), "0");
    assert_eq!(format_i64(42), "42");
    assert_eq!(format_i64(-7), "-7");
    assert_eq!(format_i64(1951), "1951");
    assert_eq!(format_i64(i64::MAX), "9223372036854775807");
    assert_eq!(format_i64(i64::MIN), "-9223372036854775808");
}

#[test]
fn formats_unsigned_integers_in_decimal() {
    assert_eq!(format_u64(0), "0");
    assert_eq!(format_u64(10), "10");
    assert_eq!(format_u64(u64::MAX), "18446744073709551615");
}

#[test]
fn splits_at_the_first_occurrence() {
    assert_eq!(split_once_char("a:b:c", ':'), Some(("a".to_string(), "b:c".to_string())));
    assert_eq!(split_once_char(":x", ':'), Some((String::new(), "x".to_string())));
    assert_eq!(split_once_char("x:", ':'), Some(("x".to_string(), String::new())));
    assert_eq!(split_once_char("none", ':'), None);
    assert_eq!(split_once_char("é:ü", ':'), Some(("é".to_string(), "ü".to_string())));
}

#[test]
fn compares_with_ascii_lowercase() {
    assert!(equals_ascii_lowercase_of("authorization", "Authorization"));
    assert!(equals_ascii_lowercase_of("x-api-key", "X-API-KEY"));
    assert!(!equals_ascii_lowercase_of("Authorization", "authorization"));
    assert!(!equals_ascii_lowercase_of("authorization", "authorizatio"));
}
