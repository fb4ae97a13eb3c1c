//! Indexing of a [`Coordinate`] and its conversions from and to tuples,
//! arrays, slices and vectors.

use vstd::prelude::*;

use super::{Axis2D, Coordinate};

verus! {

impl<T> core::ops::Index<Axis2D> for Coordinate<T> {
    type Output = T;

    fn index(&self, index: Axis2D) -> (r: &T)
        ensures
            *r == self.on(index),
    {
        self.get(index)
    }
}

impl<T> vstd::std_specs::core::IndexSpecImpl<Axis2D> for Coordinate<T> {
    open spec fn index_req(&self, index: &Axis2D) -> bool {
        true
    }
}

impl<T> core::ops::IndexMut<Axis2D> for Coordinate<T> {
    fn index_mut(&mut self, index: Axis2D) -> (r: &mut T)
        ensures
            *r == old(self).on(index),
            index == Axis2D::Vertical ==> *final(self) == (Coordinate {
                x: *final(r),
                y: old(self).y,
            }),
            index == Axis2D::Horizontal ==> *final(self) == (Coordinate {
                x: old(self).x,
                y: *final(r),
            }),
    {
        self.get_mut(index)
    }
}

impl<T> core::ops::Index<usize> for Coordinate<T> {
    type Output = T;

    fn index(&self, index: usize) -> (r: &T)
        ensures
            index == 0 ==> *r == self.x,
            index == 1 ==> *r == self.y,
    {
        match index {
            0 => &self.x,
            1 => &self.y,
            _ => vstd::pervasive::unreached(),
        }
    }
}

impl<T> vstd::std_specs::core::IndexSpecImpl<usize> for Coordinate<T> {
    open spec fn index_req(&self, index: &usize) -> bool {
        *index < 2
    }
}

impl<T> core::ops::IndexMut<usize> for Coordinate<T> {
    fn index_mut(&mut self, index: usize) -> (r: &mut T)
        requires
            index < 2,
        ensures
            index == 0 ==> *r == old(self).x && *final(self) == (Coordinate {
                x: *final(r),
                y: old(self).y,
            }),
            index == 1 ==> *r == old(self).y && *final(self) == (Coordinate {
                x: old(self).x,
                y: *final(r),
            }),
    {
        match index {
            0 => &mut self.x,
            1 => &mut self.y,
            _ => vstd::pervasive::unreached(),
        }
    }
}

impl<T> From<Coordinate<T>> for (T, T) {
    fn from(value: Coordinate<T>) -> (r: Self) {
        (value.x, value.y)
    }
}

impl<T> vstd::std_specs::convert::FromSpecImpl<Coordinate<T>> for (T, T) {
    open spec fn obeys_from_spec() -> bool {
        true
    }

    open spec fn from_spec(value: Coordinate<T>) -> Self {
        (value.x, value.y)
    }
}

impl<T> From<(T, T)> for Coordinate<T> {
    fn from(value: (T, T)) -> (r: Self) {
        Self::new(value.0, value.1)
    }
}

impl<T> vstd::std_specs::convert::FromSpecImpl<(T, T)> for Coordinate<T> {
    open spec fn obeys_from_spec() -> bool {
        true
    }

    open spec fn from_spec(value: (T, T)) -> Self {
        Coordinate { x: value.0, y: value.1 }
    }
}

impl<T> From<Coordinate<T>> for [T; 2] {
    fn from(value: Coordinate<T>) -> (r: Self)
        ensures
            r@ == seq![value.x, value.y],
    {
        [value.x, value.y]
    }
}

impl<T> vstd::std_specs::convert::FromSpecImpl<Coordinate<T>> for [T; 2] {
    open spec fn obeys_from_spec() -> bool {
        false
    }

    open spec fn from_spec(value: Coordinate<T>) -> Self {
        arbitrary()
    }
}

/// Calls `Vec::from` on an array, which moves the items of the array into a
/// new vector, in order.
#[verifier::external_body]
fn vec_of_array<T>(value: [T; 2]) -> (r: Vec<T>)
    ensures
        r@ == value@,
{
    Vec::from(value)
}

impl<T> From<[T; 2]> for Coordinate<T> {
    fn from(value: [T; 2]) -> (r: Self) {
        let mut items = vec_of_array(value);
        let x = items.remove(0);
        let y = items.remove(0);
        Self::new(x, y)
    }
}

impl<T> vstd::std_specs::convert::FromSpecImpl<[T; 2]> for Coordinate<T> {
    open spec fn obeys_from_spec() -> bool {
        true
    }

    open spec fn from_spec(value: [T; 2]) -> Self {
        Coordinate { x: value@[0], y: value@[1] }
    }
}

impl<T: Clone + Default> From<&[T]> for Coordinate<T> {
    /// Takes the first two items of the slice, and the default value in place
    /// of each one that the slice lacks.
    fn from(value: &[T]) -> (r: Self)
        ensures
            value@.len() > 0 ==> cloned(value@[0], r.x),
            value@.len() == 0 ==> T::default.ensures((), r.x),
            value@.len() > 1 ==> cloned(value@[1], r.y),
            value@.len() <= 1 ==> T::default.ensures((), r.y),
    {
        let x = if value.len() > 0 {
            value[0].clone()
        } else {
            T::default()
        };
        let y = if value.len() > 1 {
            value[1].clone()
        } else {
            T::default()
        };
        Self::new(x, y)
    }
}

impl<T: Clone + Default> vstd::std_specs::convert::FromSpecImpl<&[T]> for Coordinate<T> {
    open spec fn obeys_from_spec() -> bool {
        false
    }

    open spec fn from_spec(value: &[T]) -> Self {
        arbitrary()
    }
}

impl<T: Default> From<Vec<T>> for Coordinate<T> {
    /// Takes the first two items of the vector, and the default value in
    /// place of each one that the vector lacks.
    fn from(value: Vec<T>) -> (r: Self)
        ensures
            value@.len() > 0 ==> r.x == value@[0],
            value@.len() == 0 ==> T::default.ensures((), r.x),
            value@.len() > 1 ==> r.y == value@[1],
            value@.len() <= 1 ==> T::default.ensures((), r.y),
    {
        let mut value = value;
        let x = if value.len() > 0 {
            value.remove(0)
        } else {
            T::default()
        };
        let y = if value.len() > 0 {
            value.remove(0)
        } else {
            T::default()
        };
        Self::new(x, y)
    }
}

impl<T: Default> vstd::std_specs::convert::FromSpecImpl<Vec<T>> for Coordinate<T> {
    open spec fn obeys_from_spec() -> bool {
        false
    }

    open spec fn from_spec(value: Vec<T>) -> Self {
        arbitrary()
    }
}

} // verus!
