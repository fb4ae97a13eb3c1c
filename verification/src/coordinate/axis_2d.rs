//! contains [`Axis2D`] an enumeration the of the x and y axis.

use vstd::prelude::*;

use super::Coordinate;
use crate::error::NoneError;

verus! {

/// Represent the Axis in 2 dimensions. It can be either in the `x` direction i.e. [`Self::Vertical`]
/// or the `y` direction, i.e. [`Self::Horizontal`].
#[derive(Debug, Clone, Copy, PartialEq, Eq, Structural, Hash, PartialOrd, Ord)]
pub enum Axis2D {
    /// X axis
    Vertical,
    /// Y Axis
    Horizontal,
}

impl Axis2D {
    /// All the possible axis
    pub const AXIS: [Self; 2] = [Self::Vertical, Self::Horizontal];

    /// The position of the axis: `0` for the x axis and `1` for the y axis.
    pub open spec fn position(self) -> nat {
        match self {
            Axis2D::Vertical => 0,
            Axis2D::Horizontal => 1,
        }
    }

    /// The axis at a position, if there is one.
    pub open spec fn at(index: int) -> Option<Axis2D> {
        if index == 0 {
            Some(Axis2D::Vertical)
        } else if index == 1 {
            Some(Axis2D::Horizontal)
        } else {
            None
        }
    }

    /// The other axis.
    pub open spec fn other(self) -> Axis2D {
        match self {
            Axis2D::Vertical => Axis2D::Horizontal,
            Axis2D::Horizontal => Axis2D::Vertical,
        }
    }

    /// Convert an index into an [`Axis2D`]
    pub fn from_index(index: usize) -> (r: Option<Self>)
        ensures
            r == Axis2D::at(index as int),
            r is Some <==> index < 2,
    {
        match index {
            0 => Some(Self::Vertical),
            1 => Some(Self::Horizontal),
            _ => None,
        }
    }

    /// Convert an [`Axis2D`] into an index
    pub fn to_index(self) -> (r: usize)
        ensures
            r == self.position(),
    {
        match self {
            Self::Vertical => 0,
            Self::Horizontal => 1,
        }
    }

    /// Convert an [`Axis2D`] as an index
    pub fn as_index(self) -> (r: &'static usize)
        ensures
            *r == self.position(),
    {
        match self {
            Self::Vertical => &0,
            Self::Horizontal => &1,
        }
    }

    /// Get the perpendicular axis
    pub fn perpendicular(self) -> (r: Self)
        ensures
            r == self.other(),
            r != self,
    {
        match self {
            Self::Vertical => Self::Horizontal,
            Self::Horizontal => Self::Vertical,
        }
    }

    /// Convert an [`Axis2D`] into a cardinal direction in the form of a [`Coordinate::<usize>`]
    pub fn coordinate_usize(self) -> (r: Coordinate<usize>)
        ensures
            r.x == (if self == Axis2D::Vertical { 1usize } else { 0usize }),
            r.y == (if self == Axis2D::Horizontal { 1usize } else { 0usize }),
    {
        match self {
            Self::Vertical => Coordinate::new(1, 0),
            Self::Horizontal => Coordinate::new(0, 1),
        }
    }
}

impl Default for Axis2D {
    fn default() -> (r: Self)
        ensures
            r == Axis2D::Vertical,
    {
        Axis2D::Vertical
    }
}

impl core::ops::Not for Axis2D {
    type Output = Self;

    fn not(self) -> (r: Self) {
        self.perpendicular()
    }
}

impl vstd::std_specs::ops::NotSpecImpl for Axis2D {
    open spec fn obeys_not_spec() -> bool {
        true
    }

    open spec fn not_req(self) -> bool {
        true
    }

    open spec fn not_spec(self) -> Axis2D {
        self.other()
    }
}

impl From<Axis2D> for usize {
    fn from(value: Axis2D) -> (r: usize) {
        value.to_index()
    }
}

impl vstd::std_specs::convert::FromSpecImpl<Axis2D> for usize {
    open spec fn obeys_from_spec() -> bool {
        true
    }

    open spec fn from_spec(value: Axis2D) -> usize {
        match value {
            Axis2D::Vertical => 0usize,
            Axis2D::Horizontal => 1usize,
        }
    }
}

impl From<Axis2D> for Coordinate<usize> {
    fn from(value: Axis2D) -> (r: Self) {
        value.coordinate_usize()
    }
}

impl vstd::std_specs::convert::FromSpecImpl<Axis2D> for Coordinate<usize> {
    open spec fn obeys_from_spec() -> bool {
        true
    }

    open spec fn from_spec(value: Axis2D) -> Self {
        match value {
            Axis2D::Vertical => Coordinate { x: 1usize, y: 0usize },
            Axis2D::Horizontal => Coordinate { x: 0usize, y: 1usize },
        }
    }
}

impl TryFrom<usize> for Axis2D {
    type Error = NoneError;

    fn try_from(value: usize) -> (r: Result<Self, NoneError>) {
        match Self::from_index(value) {
            Some(axis) => Ok(axis),
            None => Err(NoneError),
        }
    }
}

impl vstd::std_specs::convert::TryFromSpecImpl<usize> for Axis2D {
    open spec fn obeys_try_from_spec() -> bool {
        true
    }

    open spec fn try_from_spec(value: usize) -> Result<Self, NoneError> {
        match Axis2D::at(value as int) {
            Some(axis) => Ok(axis),
            None => Err(NoneError),
        }
    }
}

impl AsRef<usize> for Axis2D {
    fn as_ref(&self) -> (r: &usize)
        ensures
            *r == self.position(),
    {
        self.as_index()
    }
}

} // verus!
