//! The reference computations on concrete values: distances, chlorine
//! doses, fixed-point parsing and rendering, trimming.

use rust_survival::fixed::{format_centi, format_centi_signed, parse_centi, within_tolerance};
use rust_survival::oracle::{calculate_correct_chlorine, distance_centi, expected_distance_reading};
use rust_survival::text::{trim_str, u64_to_string};

#[test]
fn sanity_distance_is_five() {
    assert_eq!(expected_distance_reading(0, 0, 3, 4), "5.00");
    assert_eq!(distance_centi(0, 0, 3, 4), 500);
}

#[test]
fn distance_of_equal_points_is_zero() {
    assert_eq!(expected_distance_reading(7, -2, 7, -2), "0.00");
}

#[test]
fn distance_rounds_to_nearest_hundredth() {
    // sqrt(2) = 1.41421..., sqrt(5) = 2.23606...
    assert_eq!(expected_distance_reading(0, 0, 1, 1), "1.41");
    assert_eq!(expected_distance_reading(0, 0, 1, 2), "2.24");
}

#[test]
fn distance_handles_negative_coordinates() {
    assert_eq!(expected_distance_reading(-3, -4, 0, 0), "5.00");
    assert_eq!(expected_distance_reading(3, 4, 0, 0), "5.00");
}

#[test]
fn distance_handles_extreme_coordinates() {
    // dx = dy = 2^32 - 1 does not overflow the oracle
    let r = distance_centi(i32::MIN, i32::MIN, i32::MAX, i32::MAX);
    // sqrt(2) * (2^32 - 1) * 100, rounded
    assert_eq!(r, 607400099854);
}

#[test]
fn chlorine_acidic_water_gets_extra_dose() {
    // turbidity 25.00, pH 6.50: 2.50 + 2.00 = 4.50
    assert_eq!(calculate_correct_chlorine(2500, 650), 450);
}

#[test]
fn chlorine_basic_water_gets_reduced_dose() {
    // turbidity 25.00, pH 8.00: 2.50 - 1.00 = 1.50
    assert_eq!(calculate_correct_chlorine(2500, 800), 150);
}

#[test]
fn chlorine_neutral_water_gets_base_dose() {
    assert_eq!(calculate_correct_chlorine(1000, 700), 100);
}

#[test]
fn chlorine_never_negative() {
    // 0.50 / 10 - 1.00 would be negative; the clamp holds it at zero
    assert_eq!(calculate_correct_chlorine(50, 800), 0);
    assert_eq!(calculate_correct_chlorine(0, 800), 0);
    assert_eq!(calculate_correct_chlorine(0, 700), 0);
}

#[test]
fn parse_plain_decimals() {
    assert_eq!(parse_centi("4.50"), Some(450));
    assert_eq!(parse_centi("4.5"), Some(450));
    assert_eq!(parse_centi("450"), Some(45000));
    assert_eq!(parse_centi("0"), Some(0));
}

#[test]
fn parse_signs() {
    assert_eq!(parse_centi("-1"), Some(-100));
    assert_eq!(parse_centi("+2.00"), Some(200));
    assert_eq!(parse_centi("-0.25"), Some(-25));
}

#[test]
fn parse_bare_dot_forms() {
    assert_eq!(parse_centi(".5"), Some(50));
    assert_eq!(parse_centi("3."), Some(300));
    assert_eq!(parse_centi("."), None);
    assert_eq!(parse_centi("-."), None);
}

#[test]
fn parse_rounds_half_up_at_two_decimals() {
    assert_eq!(parse_centi("0.105"), Some(11));
    assert_eq!(parse_centi("0.104"), Some(10));
    assert_eq!(parse_centi("0.1049"), Some(10));
    assert_eq!(parse_centi("2.999"), Some(300));
}

#[test]
fn parse_rejects_junk() {
    assert_eq!(parse_centi(""), None);
    assert_eq!(parse_centi("abc"), None);
    assert_eq!(parse_centi("1.2.3"), None);
    assert_eq!(parse_centi("1e3"), None);
    assert_eq!(parse_centi("4.50 "), None);
    assert_eq!(parse_centi("--1"), None);
}

#[test]
fn parse_rejects_oversized_integer_part() {
    assert_eq!(parse_centi("1000000000000000"), Some(100000000000000000));
    assert_eq!(parse_centi("1000000000000001"), None);
    assert_eq!(parse_centi("99999999999999999999999999"), None);
}

#[test]
fn format_two_decimals() {
    assert_eq!(format_centi(450), "4.50");
    assert_eq!(format_centi(5), "0.05");
    assert_eq!(format_centi(0), "0.00");
    assert_eq!(format_centi(123456), "1234.56");
}

#[test]
fn format_signed_shows_minus() {
    assert_eq!(format_centi_signed(-450), "-4.50");
    assert_eq!(format_centi_signed(450), "4.50");
    assert_eq!(format_centi_signed(0), "0.00");
}

#[test]
fn tolerance_is_strict_tenth() {
    assert!(within_tolerance(450, 459));
    assert!(within_tolerance(459, 450));
    assert!(!within_tolerance(450, 460));
    assert!(!within_tolerance(460, 450));
}

#[test]
fn trim_strips_surrounding_whitespace() {
    assert_eq!(trim_str(" 5.00\n"), "5.00");
    assert_eq!(trim_str("\t a b \r\n"), "a b");
    assert_eq!(trim_str("   "), "");
    assert_eq!(trim_str("x"), "x");
}

#[test]
fn decimal_rendering() {
    assert_eq!(u64_to_string(0), "0");
    assert_eq!(u64_to_string(1234), "1234");
    assert_eq!(u64_to_string(u64::MAX), "18446744073709551615");
}
