//! Module containing [`Coordinate`] a 2d coordinate and [`Axis2D`] an enumeration
//! of the x and y axis.

pub mod axis_2d;
pub mod conversion;
pub mod distance;
pub mod iterator;
pub mod ops;

use vstd::prelude::*;
use vstd::string::*;

pub use self::axis_2d::Axis2D;
pub use self::iterator::CoordinateIterator;

verus! {

/// A two dimensional vector.
#[derive(Debug, Clone, Copy, PartialEq, Eq, Hash, PartialOrd, Ord)]
pub struct Coordinate<T> {
    /// the x coordinate
    pub x: T,
    /// the y coordinate
    pub y: T,
}

impl<T> Coordinate<T> {
    /// Create a new [`Coordinate`] with two values for, respectively, the x and y coordinate.
    pub fn new(x: T, y: T) -> (r: Self)
        ensures
            r.x == x,
            r.y == y,
    {
        Self { x, y }
    }

    /// The coordinate on an axis.
    pub open spec fn on(self, axis: Axis2D) -> T {
        match axis {
            Axis2D::Vertical => self.x,
            Axis2D::Horizontal => self.y,
        }
    }

    /// Get the x coordinate.
    pub fn x(&self) -> (r: &T)
        ensures
            *r == self.x,
    {
        &self.x
    }

    /// Get a mut reference on the x coordinate.
    pub fn x_mut(&mut self) -> (r: &mut T)
        ensures
            *r == old(self).x,
            *final(self) == (Coordinate { x: *final(r), y: old(self).y }),
    {
        &mut self.x
    }

    /// Get the y coordinate.
    pub fn y(&self) -> (r: &T)
        ensures
            *r == self.y,
    {
        &self.y
    }

    /// Get a mut reference on the y coordinate.
    pub fn y_mut(&mut self) -> (r: &mut T)
        ensures
            *r == old(self).y,
            *final(self) == (Coordinate { x: old(self).x, y: *final(r) }),
    {
        &mut self.y
    }

    /// Get the coordinate given by the [`Axis2D`] direction.
    pub fn get(&self, axis: Axis2D) -> (r: &T)
        ensures
            *r == self.on(axis),
    {
        match axis {
            Axis2D::Vertical => self.x(),
            Axis2D::Horizontal => self.y(),
        }
    }

    /// Get a mutable reference on the coordinate given by the [`Axis2D`] direction.
    pub fn get_mut(&mut self, axis: Axis2D) -> (r: &mut T)
        ensures
            *r == old(self).on(axis),
            axis == Axis2D::Vertical ==> *final(self) == (Coordinate {
                x: *final(r),
                y: old(self).y,
            }),
            axis == Axis2D::Horizontal ==> *final(self) == (Coordinate {
                x: old(self).x,
                y: *final(r),
            }),
    {
        match axis {
            Axis2D::Vertical => self.x_mut(),
            Axis2D::Horizontal => self.y_mut(),
        }
    }

    /// Get the [`Coordinate`] as a tuple references
    pub fn as_tuple(&self) -> (r: (&T, &T))
        ensures
            *r.0 == self.x,
            *r.1 == self.y,
    {
        (self.x(), self.y())
    }

    /// Get the [`Coordinate`] as a tuple mut references
    pub fn as_tuple_mut(&mut self) -> (r: (&mut T, &mut T))
        ensures
            *r.0 == old(self).x,
            *r.1 == old(self).y,
            *final(self) == (Coordinate { x: *final(r.0), y: *final(r.1) }),
    {
        (&mut self.x, &mut self.y)
    }

    /// Get the [`Coordinate`] as an array references
    pub fn as_array(&self) -> (r: [&T; 2])
        ensures
            *r@[0] == self.x,
            *r@[1] == self.y,
    {
        [self.x(), self.y()]
    }

    /// Get the [`Coordinate`] as an array mut references
    pub fn as_array_mut(&mut self) -> (r: [&mut T; 2])
        ensures
            *r@[0] == old(self).x,
            *r@[1] == old(self).y,
            *final(self) == (Coordinate { x: *final(r@[0]), y: *final(r@[1]) }),
    {
        [&mut self.x, &mut self.y]
    }

    /// Get the [`Coordinate`] as a [`Coordinate`] references
    pub fn as_ref(&self) -> (r: Coordinate<&T>)
        ensures
            *r.x == self.x,
            *r.y == self.y,
    {
        Coordinate::new(self.x(), self.y())
    }

    /// Get the [`Coordinate`] as a [`Coordinate`] mut references
    pub fn as_mut(&mut self) -> (r: Coordinate<&mut T>)
        ensures
            *r.x == old(self).x,
            *r.y == old(self).y,
            *final(self) == (Coordinate { x: *final(r.x), y: *final(r.y) }),
    {
        Coordinate::new(&mut self.x, &mut self.y)
    }

    /// Get the [`Coordinate`] as a tuple
    pub fn into_tuple(self) -> (r: (T, T))
        ensures
            r == (self.x, self.y),
    {
        (self.x, self.y)
    }

    /// Get the [`Coordinate`] as an array
    pub fn into_array(self) -> (r: [T; 2])
        ensures
            r@ == seq![self.x, self.y],
    {
        [self.x, self.y]
    }
}

impl<T: Default> Default for Coordinate<T> {
    fn default() -> (r: Self)
        ensures
            T::default.ensures((), r.x),
            T::default.ensures((), r.y),
    {
        Self { x: T::default(), y: T::default() }
    }
}

impl<T: core::fmt::Display> Coordinate<T> {
    /// The coordinate as text: `[x, y]`, each coordinate as it displays.
    pub fn to_string(&self) -> (r: String)
        ensures
            exists|x: String, y: String|
                vstd::string::to_string_from_display_ensures::<T>(&self.x, x)
                    && vstd::string::to_string_from_display_ensures::<T>(&self.y, y) && r@ == "["@
                    + x@ + ", "@ + y@ + "]"@,
    {
        let x = self.x.to_string();
        let y = self.y.to_string();
        let mut out = String::from_str("[");
        out.append(x.as_str());
        out.append(", ");
        out.append(y.as_str());
        out.append("]");
        out
    }
}

impl<T> Coordinate<T> {
    /// The coordinate as text: `[x, y]`, each coordinate as `format` writes
    /// it.
    pub fn format_with<F: Fn(&T) -> String>(&self, format: F) -> (r: String)
        requires
            format.requires((&self.x,)),
            format.requires((&self.y,)),
        ensures
            exists|x: String, y: String|
                format.ensures((&self.x,), x) && format.ensures((&self.y,), y) && r@ == "["@ + x@
                    + ", "@ + y@ + "]"@,
    {
        let x = format(&self.x);
        let y = format(&self.y);
        let mut out = String::from_str("[");
        out.append(x.as_str());
        out.append(", ");
        out.append(y.as_str());
        out.append("]");
        out
    }
}

/// Conversion function using [`Copy`] as a bound on `T`.
impl<T: Copy> Coordinate<T> {
    /// Get the [`Coordinate`] as a tuple.
    pub fn into_tuple_const(self) -> (r: (T, T))
        ensures
            r == (self.x, self.y),
    {
        (self.x, self.y)
    }

    /// Get the [`Coordinate`] as an array.
    pub fn into_array_const(self) -> (r: [T; 2])
        ensures
            r@ == seq![self.x, self.y],
    {
        [self.x, self.y]
    }
}

} // verus!
