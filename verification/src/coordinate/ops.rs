//! The sum, the difference and the opposite of [`Coordinate`].

use core::ops::{Add, Neg, Sub};
use vstd::prelude::*;
use vstd::std_specs::ops::{AddSpec, NegSpec, SubSpec};

use super::Coordinate;

verus! {

impl<T: Add<T2>, T2> Add<Coordinate<T2>> for Coordinate<T> {
    type Output = Coordinate<T::Output>;

    fn add(self, rhs: Coordinate<T2>) -> (r: Self::Output) {
        Coordinate::new(self.x + rhs.x, self.y + rhs.y)
    }
}

impl<T: Add<T2>, T2> vstd::std_specs::ops::AddSpecImpl<Coordinate<T2>> for Coordinate<T> {
    open spec fn obeys_add_spec() -> bool {
        T::obeys_add_spec()
    }

    open spec fn add_req(self, rhs: Coordinate<T2>) -> bool {
        self.x.add_req(rhs.x) && self.y.add_req(rhs.y)
    }

    open spec fn add_spec(self, rhs: Coordinate<T2>) -> Self::Output {
        Coordinate { x: self.x.add_spec(rhs.x), y: self.y.add_spec(rhs.y) }
    }
}

impl<T: Sub<T2>, T2> Sub<Coordinate<T2>> for Coordinate<T> {
    type Output = Coordinate<T::Output>;

    fn sub(self, rhs: Coordinate<T2>) -> (r: Self::Output) {
        Coordinate::new(self.x - rhs.x, self.y - rhs.y)
    }
}

impl<T: Sub<T2>, T2> vstd::std_specs::ops::SubSpecImpl<Coordinate<T2>> for Coordinate<T> {
    open spec fn obeys_sub_spec() -> bool {
        T::obeys_sub_spec()
    }

    open spec fn sub_req(self, rhs: Coordinate<T2>) -> bool {
        self.x.sub_req(rhs.x) && self.y.sub_req(rhs.y)
    }

    open spec fn sub_spec(self, rhs: Coordinate<T2>) -> Self::Output {
        Coordinate { x: self.x.sub_spec(rhs.x), y: self.y.sub_spec(rhs.y) }
    }
}

impl<T: Neg> Neg for Coordinate<T> {
    type Output = Coordinate<T::Output>;

    fn neg(self) -> (r: Self::Output) {
        Coordinate::new(self.x.neg(), self.y.neg())
    }
}

impl<T: Neg> vstd::std_specs::ops::NegSpecImpl for Coordinate<T> {
    open spec fn obeys_neg_spec() -> bool {
        T::obeys_neg_spec()
    }

    open spec fn neg_req(self) -> bool {
        self.x.neg_req() && self.y.neg_req()
    }

    open spec fn neg_spec(self) -> Self::Output {
        Coordinate { x: self.x.neg_spec(), y: self.y.neg_spec() }
    }
}

} // verus!
