use findold::offset::get_seconds;
use findold::ConfigError;

#[test]
fn plain_number_is_seconds() {
    assert_eq!(get_seconds("0"), Ok(0));
    assert_eq!(get_seconds("7"), Ok(7));
    assert_eq!(get_seconds("12345"), Ok(12345));
}

#[test]
fn second_suffix() {
    assert_eq!(get_seconds("10s"), Ok(10));
    assert_eq!(get_seconds("10S"), Ok(10));
}

#[test]
fn minute_suffix() {
    assert_eq!(get_seconds("5m"), Ok(300));
    assert_eq!(get_seconds("5M"), Ok(300));
}

#[test]
fn hour_suffix() {
    assert_eq!(get_seconds("2H"), Ok(7200));
    assert_eq!(get_seconds("3h"), Ok(10800));
}

#[test]
fn day_suffix() {
    assert_eq!(get_seconds("2d"), Ok(172800));
    assert_eq!(get_seconds("1D"), Ok(86400));
}

#[test]
fn empty_input_is_rejected() {
    assert_eq!(get_seconds(""), Err(ConfigError::BadOffset));
}

#[test]
fn bare_suffix_is_rejected() {
    assert_eq!(get_seconds("m"), Err(ConfigError::BadOffset));
    assert_eq!(get_seconds("s"), Err(ConfigError::BadOffset));
}

#[test]
fn non_numeric_is_rejected() {
    assert_eq!(get_seconds("abc"), Err(ConfigError::BadOffset));
    assert_eq!(get_seconds("5x"), Err(ConfigError::BadOffset));
    assert_eq!(get_seconds("-5"), Err(ConfigError::BadOffset));
    assert_eq!(get_seconds("1 0"), Err(ConfigError::BadOffset));
}

#[test]
fn largest_value_fits() {
    assert_eq!(get_seconds("18446744073709551615"), Ok(u64::MAX));
    assert_eq!(get_seconds("18446744073709551615s"), Ok(u64::MAX));
}

#[test]
fn too_large_is_rejected() {
    assert_eq!(get_seconds("18446744073709551616"), Err(ConfigError::BadOffset));
    assert_eq!(get_seconds("99999999999999999999999"), Err(ConfigError::BadOffset));
}

#[test]
fn scaled_overflow_is_rejected() {
    assert_eq!(get_seconds("300000000000000000d"), Err(ConfigError::BadOffset));
}

#[test]
fn leading_zeros_are_digits() {
    assert_eq!(get_seconds("007"), Ok(7));
    assert_eq!(get_seconds("000"), Ok(0));
}
