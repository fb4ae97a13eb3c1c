//! The distance between two [`Coordinate`].

use core::ops::{Add, Sub};
use vstd::prelude::*;
use vstd::std_specs::ops::{AddSpec, SubSpec};

use super::Coordinate;
use crate::number::function::{abs_diff, greater, ordered};

verus! {

/// The absolute difference of two numbers as [`abs_diff`] computes it.
pub open spec fn abs_diff_spec<T: PartialOrd + Sub<T>>(n1: T, n2: T) -> T::Output {
    if greater(n1, n2) {
        n1.sub_spec(n2)
    } else {
        n2.sub_spec(n1)
    }
}

/// Whether the subtraction that [`abs_diff`] makes on two numbers is allowed.
pub open spec fn abs_diff_req<T: PartialOrd + Sub<T>>(n1: T, n2: T) -> bool {
    if greater(n1, n2) {
        n1.sub_req(n2)
    } else {
        n2.sub_req(n1)
    }
}

impl<T> Coordinate<T> where T: Copy + PartialOrd + Sub<T>, T::Output: Add {
    /// The Manhattan distance as a formula: the sum of the absolute
    /// differences of the two x coordinates and of the two y coordinates.
    pub open spec fn manhattan(self, other: Self) -> <T::Output as Add>::Output {
        abs_diff_spec::<T>(self.x, other.x).add_spec(abs_diff_spec::<T>(self.y, other.y))
    }

    /// Manhattan distances: the sum of the absolute differences of the two
    /// x coordinates and of the two y coordinates. The coordinates are
    /// subtracted by value.
    pub fn s1_distance(&self, other: &Self) -> (r: <T::Output as Add>::Output)
        requires
            ordered::<T>(),
            T::obeys_sub_spec(),
            abs_diff_req::<T>(self.x, other.x),
            abs_diff_req::<T>(self.y, other.y),
            abs_diff_spec::<T>(self.x, other.x).add_req(abs_diff_spec::<T>(self.y, other.y)),
        ensures
            <T::Output>::obeys_add_spec() ==> r == self.manhattan(*other),
    {
        abs_diff(self.x, other.x) + abs_diff(self.y, other.y)
    }
}

impl<'a, T> Coordinate<T> where
    T: PartialOrd,
    &'a T: Sub + 'a,
    <&'a T as Sub>::Output: Add,
 {
    /// Manhattan distances of coordinates that are subtracted by reference,
    /// for a type that is not [`Copy`].
    pub fn s1_distance_by_ref(&'a self, other: &'a Self) -> (r: <<&'a T as Sub>::Output as Add>::Output)
        requires
            ordered::<&'a T>(),
            <&'a T>::obeys_sub_spec(),
            abs_diff_req::<&'a T>(&self.x, &other.x),
            abs_diff_req::<&'a T>(&self.y, &other.y),
            abs_diff_spec::<&'a T>(&self.x, &other.x).add_req(
                abs_diff_spec::<&'a T>(&self.y, &other.y),
            ),
        ensures
            <<&'a T as Sub>::Output>::obeys_add_spec() ==> r == abs_diff_spec::<&'a T>(
                &self.x,
                &other.x,
            ).add_spec(abs_diff_spec::<&'a T>(&self.y, &other.y)),
    {
        abs_diff(self.x(), other.x()) + abs_diff(self.y(), other.y())
    }
}

/// The Manhattan distance of two coordinates of 32 bit integers is the sum
/// of the absolute values of the differences of their coordinates; it is not
/// negative, it does not depend on the order of the two coordinates, and it
/// is zero for equal coordinates only.
pub proof fn law_manhattan_distance(a: Coordinate<i32>, b: Coordinate<i32>)
    requires
        i32::MIN <= a.x - b.x <= i32::MAX,
        i32::MIN <= b.x - a.x <= i32::MAX,
        i32::MIN <= a.y - b.y <= i32::MAX,
        i32::MIN <= b.y - a.y <= i32::MAX,
        vstd::math::abs(a.x - b.x) + vstd::math::abs(a.y - b.y) <= i32::MAX,
    ensures
        a.manhattan(b) == vstd::math::abs(a.x - b.x) + vstd::math::abs(a.y - b.y),
        a.manhattan(b) >= 0,
        a.manhattan(b) == b.manhattan(a),
        a.manhattan(b) == 0 <==> a == b,
{
}

} // verus!
