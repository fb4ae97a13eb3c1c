//! The greatest common divider and the lowest common multiplier.

use vstd::arithmetic::div_mod::{lemma_add_mod_noop, lemma_small_mod, lemma_sub_mod_noop};
use vstd::prelude::*;

verus! {

/// Whether `d` divides both `a` and `b`.
pub open spec fn is_common_divisor(d: nat, a: nat, b: nat) -> bool {
    d > 0 && a % d == 0 && b % d == 0
}

/// Whether `g` is the greatest of the numbers that divide both `a` and `b`.
pub open spec fn is_greatest_common_divisor(g: nat, a: nat, b: nat) -> bool {
    &&& is_common_divisor(g, a, b)
    &&& forall|d: nat| is_common_divisor(d, a, b) ==> d <= g
}

/// The greatest common divider of two numbers as [`gcd`] gives it: zero
/// where one of them is zero, and else the greatest number that divides
/// both.
pub open spec fn gcd_of(a: nat, b: nat) -> nat {
    if a == 0 || b == 0 {
        0
    } else {
        choose|g: nat| is_greatest_common_divisor(g, a, b)
    }
}

/// The lowest common multiplier of two numbers as [`lcm`] gives it: zero
/// where one of them is zero, and else their product divided by their
/// greatest common divider.
pub open spec fn lcm_of(a: nat, b: nat) -> nat {
    if a == 0 || b == 0 {
        0
    } else {
        (a * b) / gcd_of(a, b)
    }
}

/// A number that divides a positive number is not greater than it.
proof fn lemma_divisor_is_not_greater(x: nat, d: nat)
    requires
        x > 0,
        d > 0,
        x % d == 0,
    ensures
        d <= x,
{
    if d > x {
        lemma_small_mod(x, d);
    }
}

/// Two numbers, of which the first is the greater, have the common divisors
/// of their difference and the second.
proof fn lemma_common_divisors_of_difference(a: nat, b: nat, d: nat)
    requires
        a >= b,
        d > 0,
    ensures
        is_common_divisor(d, a, b) <==> is_common_divisor(d, (a - b) as nat, b),
{
    let difference: nat = (a - b) as nat;
    lemma_small_mod(0, d);
    if b % d == 0 {
        if a % d == 0 {
            lemma_sub_mod_noop(a as int, b as int, d as int);
            assert(difference % d == 0);
        }
        if difference % d == 0 {
            lemma_add_mod_noop(difference as int, b as int, d as int);
            assert(a % d == 0);
        }
    }
}

/// Two numbers have at most one greatest common divisor.
proof fn lemma_greatest_common_divisor_is_unique(g: nat, a: nat, b: nat)
    requires
        a > 0,
        b > 0,
        is_greatest_common_divisor(g, a, b),
    ensures
        g == gcd_of(a, b),
{
    let chosen = choose|g: nat| is_greatest_common_divisor(g, a, b);
    assert(is_greatest_common_divisor(chosen, a, b));
    assert(is_common_divisor(g, a, b));
    assert(is_common_divisor(chosen, a, b));
}

/// The greatest common divisor does not depend on the order of the two
/// numbers.
proof fn lemma_greatest_common_divisor_is_symmetric(g: nat, a: nat, b: nat)
    requires
        is_greatest_common_divisor(g, a, b),
    ensures
        is_greatest_common_divisor(g, b, a),
{
    assert forall|d: nat| is_common_divisor(d, b, a) implies d <= g by {
        assert(is_common_divisor(d, a, b));
    }
}

/// The greatest common divisor of a difference and the lesser number is
/// that of the two numbers.
proof fn lemma_greatest_common_divisor_of_difference(g: nat, a: nat, b: nat)
    requires
        a >= b,
        is_greatest_common_divisor(g, (a - b) as nat, b),
    ensures
        is_greatest_common_divisor(g, a, b),
{
    lemma_common_divisors_of_difference(a, b, g);
    assert forall|d: nat| is_common_divisor(d, a, b) implies d <= g by {
        lemma_common_divisors_of_difference(a, b, d);
    }
}

/// Find the greater common divider: zero where one of the numbers is zero.
pub fn gcd(n1: u64, n2: u64) -> (r: u64)
    ensures
        r == gcd_of(n1 as nat, n2 as nat),
        n1 > 0 && n2 > 0 ==> is_greatest_common_divisor(r as nat, n1 as nat, n2 as nat),
    decreases n1 + n2,
{
    if n1 == 0 || n2 == 0 {
        0
    } else if n1 == 1 || n2 == 1 {
        proof {
            assert(is_common_divisor(1, n1 as nat, n2 as nat));
            assert forall|d: nat| is_common_divisor(d, n1 as nat, n2 as nat) implies d <= 1 by {
                lemma_divisor_is_not_greater(1, d);
            }
            lemma_greatest_common_divisor_is_unique(1, n1 as nat, n2 as nat);
        }
        1
    } else if n1 == n2 {
        proof {
            assert(n1 as nat % n1 as nat == 0) by {
                vstd::arithmetic::div_mod::lemma_mod_self_0(n1 as int);
            }
            assert forall|d: nat| is_common_divisor(d, n1 as nat, n2 as nat) implies d
                <= n1 as nat by {
                lemma_divisor_is_not_greater(n1 as nat, d);
            }
            lemma_greatest_common_divisor_is_unique(n1 as nat, n1 as nat, n2 as nat);
        }
        n1
    } else if n1 > n2 {
        let r = gcd(n1 - n2, n2);
        proof {
            lemma_greatest_common_divisor_of_difference(r as nat, n1 as nat, n2 as nat);
            lemma_greatest_common_divisor_is_unique(r as nat, n1 as nat, n2 as nat);
        }
        r
    } else {
        let r = gcd(n1, n2 - n1);
        proof {
            let difference: nat = (n2 - n1) as nat;
            lemma_greatest_common_divisor_is_symmetric(r as nat, n1 as nat, difference);
            lemma_greatest_common_divisor_of_difference(r as nat, n2 as nat, n1 as nat);
            lemma_greatest_common_divisor_is_symmetric(r as nat, n2 as nat, n1 as nat);
            lemma_greatest_common_divisor_is_unique(r as nat, n1 as nat, n2 as nat);
        }
        r
    }
}

/// Find the lowest common multiplier: zero where one of the numbers is
/// zero. The product of the two numbers must fit.
pub fn lcm(n1: u64, n2: u64) -> (r: u64)
    requires
        n1 * n2 <= u64::MAX,
    ensures
        r == lcm_of(n1 as nat, n2 as nat),
{
    if n1 == 0 || n2 == 0 {
        0
    } else {
        let divisor = gcd(n1, n2);
        n1 * n2 / divisor
    }
}

/// The lowest common multiplier, or none where the product of the two
/// numbers does not fit.
pub fn checked_lcm(n1: u64, n2: u64) -> (r: Option<u64>)
    ensures
        r is Some <==> n1 * n2 <= u64::MAX,
        r matches Some(multiple) ==> multiple == lcm_of(n1 as nat, n2 as nat),
{
    match n1.checked_mul(n2) {
        Some(_) => Some(lcm(n1, n2)),
        None => None,
    }
}

} // verus!
