//! Contains number and math utilities.

pub mod divisor;
pub mod function;
pub mod positive_float;
pub mod sign;
pub mod zero_one_bounded_float;

pub use self::divisor::{gcd, lcm};
pub use self::function::abs_diff;
pub use self::positive_float::ConversionError as PositiveFloatConversionError;
pub use self::sign::Sign;
pub use self::zero_one_bounded_float::ConversionError as ZeroOneBoundedFloatConversionError;
