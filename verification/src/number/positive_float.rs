//! The rules of a float that is `>= 0` and is neither not a number nor
//! infinite: which error a float out of these bounds gives, and which value
//! stands in for it. The floats themselves are classified where they are
//! held; here stands what follows from the class.

use vstd::prelude::*;
use vstd::string::*;

verus! {

/// represent in which range a float can be respectively to the bounds of a
/// positive float
#[derive(Debug, Clone, Copy, PartialEq, Eq, Structural)]
pub enum BoundRange {
    /// positive infinity
    UpperBound,
    /// between 0 and the greatest finite float
    InRange,
    /// Strictly below 0
    LowerRange,
    /// Not a number
    Nan,
}

impl Default for BoundRange {
    fn default() -> (r: Self)
        ensures
            r == BoundRange::InRange,
    {
        BoundRange::InRange
    }
}

/// Which value a float is replaced by where a value within the bounds is
/// wanted whatever the float is.
#[derive(Debug, Clone, Copy, PartialEq, Eq, Structural)]
pub enum Bounded {
    /// the float itself
    Given,
    /// the greatest finite float
    Maximum,
    /// zero
    Zero,
}

/// Error for the conversion form a float to a positive float
#[derive(Debug, Clone, Copy, PartialEq, Eq, Structural, Hash)]
pub enum ConversionError {
    /// The float is < 0
    TooLow,
    /// The float is not a number
    Nan,
    /// The float is too big, i.e. infinite
    Infinity,
}

impl BoundRange {
    /// The error of a float in this range, if it is one.
    pub open spec fn error(self) -> Option<ConversionError> {
        match self {
            BoundRange::InRange => None,
            BoundRange::LowerRange => Some(ConversionError::TooLow),
            BoundRange::Nan => Some(ConversionError::Nan),
            BoundRange::UpperBound => Some(ConversionError::Infinity),
        }
    }

    /// The value that stands in for a float in this range.
    pub open spec fn bounded(self) -> Bounded {
        match self {
            BoundRange::InRange => Bounded::Given,
            BoundRange::UpperBound => Bounded::Maximum,
            BoundRange::LowerRange | BoundRange::Nan => Bounded::Zero,
        }
    }

    /// Whether a float in this range is accepted: [`Ok`] within the bounds,
    /// and else the error that names the bound it breaks.
    pub fn check(self) -> (r: Result<(), ConversionError>)
        ensures
            r is Ok <==> self == BoundRange::InRange,
            r matches Err(error) ==> Some(error) == self.error(),
    {
        match self {
            BoundRange::InRange => Ok(()),
            BoundRange::LowerRange => Err(ConversionError::TooLow),
            BoundRange::Nan => Err(ConversionError::Nan),
            BoundRange::UpperBound => Err(ConversionError::Infinity),
        }
    }

    /// Which value stands in for a float in this range: the float itself
    /// within the bounds, the maximum above them, and zero below them or for
    /// what is not a number.
    pub fn bound(self) -> (r: Bounded)
        ensures
            r == self.bounded(),
    {
        match self {
            BoundRange::InRange => Bounded::Given,
            BoundRange::UpperBound => Bounded::Maximum,
            BoundRange::LowerRange | BoundRange::Nan => Bounded::Zero,
        }
    }
}

impl ConversionError {
    /// The text of the error.
    pub open spec fn text(self) -> Seq<char> {
        match self {
            ConversionError::Infinity => "the float is infinity"@,
            ConversionError::Nan => "the float is not a number"@,
            ConversionError::TooLow => "the float is below zero"@,
        }
    }

    /// The text of the error.
    pub fn message(&self) -> (r: String)
        ensures
            r@ == self.text(),
    {
        match self {
            Self::Infinity => String::from_str("the float is infinity"),
            Self::Nan => String::from_str("the float is not a number"),
            Self::TooLow => String::from_str("the float is below zero"),
        }
    }
}

} // verus!
