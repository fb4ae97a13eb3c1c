//! Contains the errors definitions.

use vstd::prelude::*;

verus! {

/// The error equivalent of getting a [`None`] on an [`Option`].
#[derive(Debug, Clone, Copy, PartialEq, Eq, Structural, Hash, PartialOrd, Ord)]
pub struct NoneError;

impl NoneError {
    /// The text that describes the error.
    pub fn message(&self) -> (r: String)
        ensures
            r@ == "the option had a none value"@,
    {
        String::from_str("the option had a none value")
    }
}

impl Default for NoneError {
    fn default() -> (r: Self)
        ensures
            r == NoneError,
    {
        NoneError
    }
}

} // verus!
