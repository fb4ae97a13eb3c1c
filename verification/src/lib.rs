//! Utilities: a two dimensional coordinate, signs and small numeric helpers,
//! and the option compiler behind the accessor derive: it reads the
//! annotations of a field, resolves them into a configuration, validates the
//! configuration and emits the text of the accessor declarations.

pub mod coordinate;
pub mod error;
pub mod getter;
pub mod number;
pub mod text;

pub use coordinate::{Axis2D, Coordinate, CoordinateIterator};
pub use number::{abs_diff, gcd, lcm, Sign};
