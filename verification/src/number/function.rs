//! Contain useful numerical function

use core::cmp::Ordering;
use core::ops::Sub;
use vstd::prelude::*;
use vstd::std_specs::cmp::PartialOrdSpec;
use vstd::std_specs::ops::SubSpec;

verus! {

/// Whether the comparisons of `T` are those that its order states.
pub open spec fn ordered<T: PartialOrd>() -> bool {
    T::obeys_partial_cmp_spec()
}

/// Whether `n1` is greater than `n2` in the order of `T`.
pub open spec fn greater<T: PartialOrd>(n1: T, n2: T) -> bool {
    n1.partial_cmp_spec(&n2) == Some(Ordering::Greater)
}

/// Do the absolute difference of two numbers. In mathematical notation it is `|a-b|`:
/// the greater one minus the other.
pub fn abs_diff<T>(n1: T, n2: T) -> (r: T::Output) where T: PartialOrd + Sub<T>
    requires
        ordered::<T>(),
        greater(n1, n2) ==> n1.sub_req(n2),
        !greater(n1, n2) ==> n2.sub_req(n1),
    ensures
        T::obeys_sub_spec() ==> r == (if greater(n1, n2) {
            n1.sub_spec(n2)
        } else {
            n2.sub_spec(n1)
        }),
{
    if n1 > n2 {
        n1 - n2
    } else {
        n2 - n1
    }
}

} // verus!
