//! Tests of the signs and of the numeric helpers.

use std::cmp::Ordering;

use utils_lib::error::NoneError;
use utils_lib::number::divisor::checked_lcm;
use utils_lib::number::sign::levi_civita;
use utils_lib::number::{abs_diff, gcd, lcm, positive_float, zero_one_bounded_float, Sign};
use utils_lib::text::{decimal_text, join, str_eq};

#[test]
fn sign_i8() {
    assert_eq!(Sign::sign_i8(0), Sign::Zero);
    assert_eq!(Sign::sign_i8(-1), Sign::Negative);
    assert_eq!(Sign::sign_i8(1), Sign::Positive);
    assert_eq!(0, Sign::Zero.to_i8());
    assert_eq!(-1, Sign::Negative.to_i8());
    assert_eq!(1, Sign::Positive.to_i8());
}

#[test]
fn levi_civita_test() {
    assert_eq!(Sign::Positive, levi_civita(&[]));
    assert_eq!(Sign::Positive, levi_civita(&[1, 2]));
    assert_eq!(Sign::Positive, levi_civita(&[0, 1]));
    assert_eq!(Sign::Positive, levi_civita(&[1, 2, 3]));
    assert_eq!(Sign::Positive, levi_civita(&[0, 1, 2]));
    assert_eq!(Sign::Positive, levi_civita(&[3, 1, 2]));
    assert_eq!(Sign::Positive, levi_civita(&[2, 3, 1]));
    assert_eq!(Sign::Positive, levi_civita(&[3, 1, 2, 4]));
    assert_eq!(Sign::Positive, levi_civita(&[1, 3, 4, 2]));
    assert_eq!(Sign::Zero, levi_civita(&[3, 3, 1]));
    assert_eq!(Sign::Zero, levi_civita(&[1, 1, 1]));
    assert_eq!(Sign::Zero, levi_civita(&[1, 1]));
    assert_eq!(Sign::Zero, levi_civita(&[2, 2]));
    assert_eq!(Sign::Negative, levi_civita(&[2, 1]));
    assert_eq!(Sign::Negative, levi_civita(&[1, 0]));
    assert_eq!(Sign::Negative, levi_civita(&[1, 3, 2]));
    assert_eq!(Sign::Negative, levi_civita(&[3, 2, 1]));
    assert_eq!(Sign::Negative, levi_civita(&[2, 1, 3]));
    assert_eq!(Sign::Negative, levi_civita(&[2, 1, 3, 4]));

    assert_eq!(Sign::Zero, Sign::sign_from_diff(0, 0));
    assert_eq!(Sign::Zero, Sign::sign_from_diff(4, 4));
    assert_eq!(Sign::Negative, Sign::sign_from_diff(1, 4));
    assert_eq!(Sign::Positive, Sign::sign_from_diff(4, 1));
}

#[test]
fn abs_diff_of_integers() {
    assert_eq!(abs_diff(2_u32, 6_u32), 4_u32);
    assert_eq!(abs_diff(6_usize, 4_usize), 2_usize);
    assert_eq!(abs_diff(16_u8, 6_u8), 10_u8);
    assert_eq!(abs_diff(5_i32, 17_i32), 12_i32);
    assert_eq!(abs_diff(9_i128, 9_i128), 0_i128);
    assert_eq!(abs_diff(9_i128, -3_i128), 12_i128);
}

#[test]
fn sign_operations() {
    assert_eq!(-Sign::Negative, Sign::Positive);
    assert_eq!(-Sign::Positive, Sign::Negative);
    assert_eq!(-Sign::Zero, Sign::Zero);

    assert_eq!(i8::from(Sign::from(0_i8)), 0_i8);
    assert_eq!(i8::from(Sign::from(1_i8)), 1_i8);
    assert_eq!(i8::from(Sign::from(-3_i8)), -1_i8);

    assert_eq!(Sign::default(), Sign::Zero);

    assert_eq!(Sign::Positive * Sign::Positive, Sign::Positive);
    assert_eq!(Sign::Negative * Sign::Positive, Sign::Negative);
    assert_eq!(Sign::Positive * Sign::Negative, Sign::Negative);
    assert_eq!(Sign::Negative * Sign::Negative, Sign::Positive);

    assert_eq!(Sign::Zero * Sign::Positive, Sign::Zero);
    assert_eq!(Sign::Zero * Sign::Negative, Sign::Zero);
    assert_eq!(Sign::Positive * Sign::Zero, Sign::Zero);
    assert_eq!(Sign::Negative * Sign::Zero, Sign::Zero);
}

#[test]
fn sign_order() {
    assert_eq!(Sign::Positive.cmp(&Sign::Zero), Ordering::Greater);
    assert_eq!(Sign::Positive.cmp(&Sign::Negative), Ordering::Greater);
    assert_eq!(Sign::Negative.cmp(&Sign::Zero), Ordering::Less);
    assert_eq!(Sign::Zero.cmp(&Sign::Zero), Ordering::Equal);

    assert_eq!(
        Sign::Positive.partial_cmp(&Sign::Zero),
        Some(Ordering::Greater)
    );
    assert_eq!(
        Sign::Positive.partial_cmp(&Sign::Negative),
        Some(Ordering::Greater)
    );
    assert_eq!(
        Sign::Negative.partial_cmp(&Sign::Zero),
        Some(Ordering::Less)
    );
    assert_eq!(Sign::Zero.partial_cmp(&Sign::Zero), Some(Ordering::Equal));
    assert!(Sign::Negative < Sign::Positive);

    let mut sign = Sign::Negative;
    sign *= Sign::Negative;
    assert_eq!(sign, Sign::Positive);

    assert_eq!(Sign::Positive.to_string(), "positive");
    assert_eq!(Sign::Negative.to_string(), "negative");
    assert_eq!(Sign::Zero.to_string(), "zero");
}

#[test]
fn greatest_common_divider() {
    assert_eq!(gcd(10, 5), 5);
    assert_eq!(gcd(120, 70), 10);
    assert_eq!(gcd(120, 7), 1);
    assert_eq!(gcd(0, 7), 0);
    assert_eq!(gcd(7, 0), 0);
    assert_eq!(gcd(32, 24), 8);
    assert_eq!(gcd(24, 32), 8);
    assert_eq!(gcd(1, 9), 1);
    assert_eq!(gcd(9, 9), 9);
}

#[test]
fn lowest_common_multiplier() {
    assert_eq!(lcm(5, 7), 35);
    assert_eq!(lcm(8, 10), 40);
    assert_eq!(lcm(12, 4), 12);
    assert_eq!(lcm(1, 4), 4);
    assert_eq!(lcm(0, 4), 0);
    assert_eq!(lcm(24, 16), 48);
    assert_eq!(checked_lcm(24, 16), Some(48));
    assert_eq!(checked_lcm(u64::MAX, 2), None);
    assert_eq!(checked_lcm(u64::MAX, 1), Some(u64::MAX));
    assert_eq!(checked_lcm(0, u64::MAX), Some(0));
}

#[test]
fn symbol_of_repeated_entries_is_zero() {
    assert_eq!(Sign::Zero, levi_civita(&[5, 1, 2, 3, 5]));
    assert_eq!(Sign::Positive, levi_civita(&[7]));
    assert_eq!(Sign::Negative, levi_civita(&[4, 3, 2, 1, 0, 5, 7, 6]));
}

#[test]
fn bounds_of_a_positive_float() {
    assert_eq!(positive_float::BoundRange::InRange.check(), Ok(()));
    assert_eq!(positive_float::BoundRange::LowerRange.check(), Err(positive_float::ConversionError::TooLow));
    assert_eq!(positive_float::BoundRange::Nan.check(), Err(positive_float::ConversionError::Nan));
    assert_eq!(positive_float::BoundRange::UpperBound.check(), Err(positive_float::ConversionError::Infinity));
    assert_eq!(positive_float::BoundRange::InRange.bound(), positive_float::Bounded::Given);
    assert_eq!(positive_float::BoundRange::LowerRange.bound(), positive_float::Bounded::Zero);
    assert_eq!(positive_float::BoundRange::Nan.bound(), positive_float::Bounded::Zero);
    assert_eq!(positive_float::BoundRange::UpperBound.bound(), positive_float::Bounded::Maximum);
    assert_eq!(positive_float::BoundRange::default(), positive_float::BoundRange::InRange);
    assert_eq!(positive_float::ConversionError::Infinity.message(), "the float is infinity");
    assert_eq!(positive_float::ConversionError::Nan.message(), "the float is not a number");
    assert_eq!(positive_float::ConversionError::TooLow.message(), "the float is below zero");
}

#[test]
fn bounds_of_a_float_between_zero_and_one() {
    assert_eq!(zero_one_bounded_float::BoundRange::InRange.check(), Ok(()));
    assert_eq!(zero_one_bounded_float::BoundRange::LowerRange.check(), Err(zero_one_bounded_float::ConversionError::TooLow));
    assert_eq!(zero_one_bounded_float::BoundRange::Nan.check(), Err(zero_one_bounded_float::ConversionError::Nan));
    assert_eq!(zero_one_bounded_float::BoundRange::UpperBound.check(), Err(zero_one_bounded_float::ConversionError::TooBig));
    assert_eq!(zero_one_bounded_float::BoundRange::InRange.bound(), zero_one_bounded_float::Bounded::Given);
    assert_eq!(zero_one_bounded_float::BoundRange::LowerRange.bound(), zero_one_bounded_float::Bounded::Zero);
    assert_eq!(zero_one_bounded_float::BoundRange::Nan.bound(), zero_one_bounded_float::Bounded::Zero);
    assert_eq!(zero_one_bounded_float::BoundRange::UpperBound.bound(), zero_one_bounded_float::Bounded::One);
    assert_eq!(zero_one_bounded_float::BoundRange::default(), zero_one_bounded_float::BoundRange::InRange);
    assert_eq!(zero_one_bounded_float::ConversionError::TooBig.message(), "the float is above one");
    assert_eq!(zero_one_bounded_float::ConversionError::Nan.message(), "the float is not a number");
    assert_eq!(zero_one_bounded_float::ConversionError::TooLow.message(), "the float is below zero");
}

#[test]
fn text_helpers() {
    assert!(str_eq("abc", "abc"));
    assert!(!str_eq("abc", "abd"));
    assert!(!str_eq("abc", "ab"));
    assert_eq!(join("ab", "cd"), "abcd");
    assert_eq!(decimal_text(0), "0");
    assert_eq!(decimal_text(7), "7");
    assert_eq!(decimal_text(10), "10");
    assert_eq!(decimal_text(1053), "1053");
    assert_eq!(decimal_text(usize::MAX), usize::MAX.to_string());
}

#[test]
fn message_of_a_missing_value() {
    assert_eq!(NoneError.message(), "the option had a none value");
    assert_eq!(NoneError::default(), NoneError);
}
