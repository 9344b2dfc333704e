use starter_kit_fps::hud::decimal_string;
use starter_kit_fps::hud::health_text;

#[test]
fn health_text_is_the_number_and_a_percent_sign() {
    assert_eq!(health_text(100), "100%");
    assert_eq!(health_text(95), "95%");
    assert_eq!(health_text(7), "7%");
}

#[test]
fn health_text_of_zero() {
    assert_eq!(health_text(0), "0%");
}

#[test]
fn health_text_of_a_negative_health() {
    assert_eq!(health_text(-1), "-1%");
    assert_eq!(health_text(-5), "-5%");
    assert_eq!(health_text(-120), "-120%");
}

#[test]
fn health_text_at_the_limits() {
    assert_eq!(health_text(i32::MAX), "2147483647%");
    assert_eq!(health_text(i32::MIN), "-2147483648%");
}

#[test]
fn health_text_agrees_with_the_standard_formatting() {
    for health in -1100..1100 {
        assert_eq!(health_text(health), format!("{}%", health));
    }
    for health in [9, 10, 11, 99, 100, 101, 999_999, 1_000_000, -1_000_000, 123_456_789] {
        assert_eq!(health_text(health), format!("{}%", health));
    }
}

#[test]
fn decimal_string_writes_without_leading_zeros() {
    assert_eq!(decimal_string(0), "0");
    assert_eq!(decimal_string(9), "9");
    assert_eq!(decimal_string(10), "10");
    assert_eq!(decimal_string(1005), "1005");
    assert_eq!(decimal_string(u32::MAX), "4294967295");
}
