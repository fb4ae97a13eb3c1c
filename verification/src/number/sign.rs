//! Contains the definition of [`Sign`] and related notions.

use core::cmp::Ordering;
use vstd::prelude::*;
use vstd::string::*;

verus! {

/// Represent a sign. The signs are ordered as the integers that stand for
/// them: negative, zero, positive.
#[derive(Copy, Clone, Debug, PartialEq, Eq, Structural, Hash, Ord)]
pub enum Sign {
    /// Strictly negative number (non zero)
    Negative,
    /// Zero
    Zero,
    /// Strictly positive number (non zero)
    Positive,
}

/// The sign of an integer as one of `-1`, `0` and `1`.
pub open spec fn signum(n: int) -> int {
    if n == 0 {
        0
    } else if n > 0 {
        1
    } else {
        -1
    }
}

impl Sign {
    /// The integer that stands for the sign: `-1`, `0` or `1`.
    pub open spec fn value(self) -> int {
        match self {
            Sign::Negative => -1,
            Sign::Zero => 0,
            Sign::Positive => 1,
        }
    }

    /// The sign whose value is the sign of `n`.
    pub open spec fn of_int(n: int) -> Sign {
        if n == 0 {
            Sign::Zero
        } else if n > 0 {
            Sign::Positive
        } else {
            Sign::Negative
        }
    }

    /// The name of the sign: `negative`, `zero` or `positive`.
    pub open spec fn label(self) -> Seq<char> {
        match self {
            Sign::Positive => "positive"@,
            Sign::Zero => "zero"@,
            Sign::Negative => "negative"@,
        }
    }

    /// The name of the sign.
    pub fn to_string(&self) -> (r: String)
        ensures
            r@ == self.label(),
    {
        match self {
            Sign::Positive => String::from_str("positive"),
            Sign::Zero => String::from_str("zero"),
            Sign::Negative => String::from_str("negative"),
        }
    }

    /// Convert the sign to an i8.
    pub fn to_i8(self) -> (r: i8)
        ensures
            r == self.value(),
    {
        match self {
            Sign::Negative => -1_i8,
            Sign::Positive => 1_i8,
            Sign::Zero => 0_i8,
        }
    }

    /// Get the sign of the given [`i8`]
    pub fn sign_i8(n: i8) -> (r: Self)
        ensures
            r == Sign::of_int(n as int),
            r.value() == signum(n as int),
    {
        if n == 0 {
            Sign::Zero
        } else if n > 0 {
            Sign::Positive
        } else {
            Sign::Negative
        }
    }

    /// Returns the sign of `a - b`, where `a` and `b` are usize
    pub fn sign_from_diff(a: usize, b: usize) -> (r: Self)
        ensures
            r == Sign::of_int(a - b),
            r.value() == signum(a - b),
    {
        if a == b {
            Sign::Zero
        } else if a > b {
            Sign::Positive
        } else {
            Sign::Negative
        }
    }
}

impl PartialOrd for Sign {
    fn partial_cmp(&self, other: &Self) -> (r: Option<Ordering>) {
        let left = self.to_i8();
        let right = other.to_i8();
        if left < right {
            Some(Ordering::Less)
        } else if left == right {
            Some(Ordering::Equal)
        } else {
            Some(Ordering::Greater)
        }
    }
}

impl vstd::std_specs::cmp::PartialOrdSpecImpl for Sign {
    open spec fn obeys_partial_cmp_spec() -> bool {
        true
    }

    open spec fn partial_cmp_spec(&self, other: &Self) -> Option<Ordering> {
        if self.value() < other.value() {
            Some(Ordering::Less)
        } else if self.value() == other.value() {
            Some(Ordering::Equal)
        } else {
            Some(Ordering::Greater)
        }
    }
}

impl Default for Sign {
    fn default() -> (r: Self)
        ensures
            r == Sign::Zero,
    {
        Sign::Zero
    }
}

impl From<Sign> for i8 {
    fn from(s: Sign) -> (r: i8) {
        s.to_i8()
    }
}

impl vstd::std_specs::convert::FromSpecImpl<Sign> for i8 {
    open spec fn obeys_from_spec() -> bool {
        true
    }

    open spec fn from_spec(s: Sign) -> i8 {
        match s {
            Sign::Negative => -1_i8,
            Sign::Zero => 0_i8,
            Sign::Positive => 1_i8,
        }
    }
}

impl From<i8> for Sign {
    fn from(i: i8) -> (r: Sign) {
        Sign::sign_i8(i)
    }
}

impl vstd::std_specs::convert::FromSpecImpl<i8> for Sign {
    open spec fn obeys_from_spec() -> bool {
        true
    }

    open spec fn from_spec(i: i8) -> Sign {
        Sign::of_int(i as int)
    }
}

impl core::ops::Neg for Sign {
    type Output = Sign;

    fn neg(self) -> (r: Sign) {
        match self {
            Sign::Positive => Sign::Negative,
            Sign::Zero => Sign::Zero,
            Sign::Negative => Sign::Positive,
        }
    }
}

impl vstd::std_specs::ops::NegSpecImpl for Sign {
    open spec fn obeys_neg_spec() -> bool {
        true
    }

    open spec fn neg_req(self) -> bool {
        true
    }

    open spec fn neg_spec(self) -> Sign {
        Sign::of_int(-self.value())
    }
}

impl core::ops::Mul for Sign {
    type Output = Sign;

    fn mul(self, rhs: Sign) -> (r: Sign) {
        match (self, rhs) {
            (Sign::Negative, Sign::Negative) | (Sign::Positive, Sign::Positive) => Sign::Positive,
            (Sign::Zero, _) | (_, Sign::Zero) => Sign::Zero,
            (Sign::Positive, Sign::Negative) | (Sign::Negative, Sign::Positive) => Sign::Negative,
        }
    }
}

impl vstd::std_specs::ops::MulSpecImpl for Sign {
    open spec fn obeys_mul_spec() -> bool {
        true
    }

    open spec fn mul_req(self, rhs: Sign) -> bool {
        true
    }

    open spec fn mul_spec(self, rhs: Sign) -> Sign {
        Sign::of_int(self.value() * rhs.value())
    }
}

impl core::ops::MulAssign<Sign> for Sign {
    fn mul_assign(&mut self, rhs: Sign)
        ensures
            *final(self) == Sign::of_int(old(self).value() * rhs.value()),
    {
        *self = core::ops::Mul::mul(*self, rhs);
    }
}

/// The product, over every position before `j`, of the sign of the
/// difference between the entry at `i` and the entry at that position.
pub open spec fn row_product(index: Seq<usize>, i: int, j: int) -> int
    decreases j,
{
    if j <= 0 {
        1
    } else {
        row_product(index, i, j - 1) * signum(index[i] - index[j - 1])
    }
}

/// The product of the signs of the differences `index[a] - index[b]` over
/// every pair of positions `b < a < i`.
pub open spec fn pair_product(index: Seq<usize>, i: int) -> int
    decreases i,
{
    if i <= 0 {
        1
    } else {
        pair_product(index, i - 1) * row_product(index, i - 1, i - 1)
    }
}

/// A row product is one of `-1`, `0` and `1`.
pub proof fn lemma_row_product_range(index: Seq<usize>, i: int, j: int)
    ensures
        -1 <= row_product(index, i, j) <= 1,
    decreases j,
{
    if j > 0 {
        lemma_row_product_range(index, i, j - 1);
        let p = row_product(index, i, j - 1);
        let s = signum(index[i] - index[j - 1]);
        assert(-1 <= p * s <= 1) by (nonlinear_arith)
            requires
                -1 <= p <= 1,
                -1 <= s <= 1,
        ;
    }
}

/// A pair product is one of `-1`, `0` and `1`.
pub proof fn lemma_pair_product_range(index: Seq<usize>, i: int)
    ensures
        -1 <= pair_product(index, i) <= 1,
    decreases i,
{
    if i > 0 {
        lemma_pair_product_range(index, i - 1);
        lemma_row_product_range(index, i - 1, i - 1);
        let p = pair_product(index, i - 1);
        let s = row_product(index, i - 1, i - 1);
        assert(-1 <= p * s <= 1) by (nonlinear_arith)
            requires
                -1 <= p <= 1,
                -1 <= s <= 1,
        ;
    }
}

/// Return the levi civita symbol of the given index: the sign of the product
/// of the differences between every entry and each entry before it. It is
/// zero when an entry occurs twice, and else the parity of the permutation
/// that sorts the entries.
pub fn levi_civita(index: &[usize]) -> (r: Sign)
    ensures
        r == Sign::of_int(pair_product(index@, index@.len() as int)),
{
    let mut prod: i8 = 1_i8;
    let mut i: usize = 0_usize;
    while i < index.len()
        invariant
            0 <= i <= index@.len(),
            -1 <= prod <= 1,
            prod == pair_product(index@, i as int),
        decreases index@.len() - i,
    {
        let mut j: usize = 0_usize;
        let ghost before: int = prod as int;
        while j < i
            invariant
                0 <= j <= i < index@.len(),
                -1 <= prod <= 1,
                prod == before * row_product(index@, i as int, j as int),
            decreases i - j,
        {
            let s: i8 = Sign::sign_from_diff(index[i], index[j]).to_i8();
            proof {
                let p = prod as int;
                let rp = row_product(index@, i as int, j as int);
                lemma_row_product_range(index@, i as int, j as int + 1);
                assert(row_product(index@, i as int, j as int + 1) == rp * s);
                assert(p * s == before * (rp * s)) by (nonlinear_arith)
                    requires
                        p == before * rp,
                ;
                assert(-1 <= p * s <= 1) by (nonlinear_arith)
                    requires
                        -1 <= p <= 1,
                        -1 <= s <= 1,
                ;
            }
            prod = prod * s;
            j += 1;
        }
        i += 1;
    }
    Sign::sign_i8(prod)
}

/// A row product is zero exactly when the entry equals one of those that
/// it is compared with.
pub proof fn lemma_row_product_zero(index: Seq<usize>, i: int, j: int)
    requires
        0 <= j,
    ensures
        row_product(index, i, j) == 0 <==> exists|k: int| 0 <= k < j && index[i] == index[k],
    decreases j,
{
    if j > 0 {
        lemma_row_product_zero(index, i, j - 1);
        let p = row_product(index, i, j - 1);
        let s = signum(index[i] - index[j - 1]);
        assert(p * s == 0 <==> (p == 0 || s == 0)) by (nonlinear_arith);
        if row_product(index, i, j) == 0 {
            if p == 0 {
                let k = choose|k: int| 0 <= k < j - 1 && index[i] == index[k];
                assert(0 <= k < j && index[i] == index[k]);
            } else {
                assert(0 <= j - 1 < j && index[i] == index[j - 1]);
            }
        }
        if exists|k: int| 0 <= k < j && index[i] == index[k] {
            let k = choose|k: int| 0 <= k < j && index[i] == index[k];
            if k < j - 1 {
                assert(0 <= k < j - 1 && index[i] == index[k]);
            }
        }
    }
}

/// The symbol of a list of entries is zero exactly when an entry occurs
/// twice in the list.
pub proof fn law_symbol_is_zero_when_an_entry_repeats(index: Seq<usize>, i: int)
    requires
        0 <= i,
    ensures
        pair_product(index, i) == 0 <==> exists|a: int, b: int|
            0 <= b < a < i && index[a] == index[b],
        Sign::of_int(pair_product(index, i)) == Sign::Zero <==> exists|a: int, b: int|
            0 <= b < a < i && index[a] == index[b],
    decreases i,
{
    if i > 0 {
        law_symbol_is_zero_when_an_entry_repeats(index, i - 1);
        lemma_row_product_zero(index, i - 1, i - 1);
        let p = pair_product(index, i - 1);
        let s = row_product(index, i - 1, i - 1);
        assert(p * s == 0 <==> (p == 0 || s == 0)) by (nonlinear_arith);
        if pair_product(index, i) == 0 {
            if p == 0 {
                let (a, b) = choose|a: int, b: int| 0 <= b < a < i - 1 && index[a] == index[b];
                assert(0 <= b < a < i && index[a] == index[b]);
            } else {
                let top = i - 1;
                let k = choose|k: int| 0 <= k < top && index[top] == index[k];
                assert(0 <= k < top < i && index[top] == index[k]);
            }
        }
        if exists|a: int, b: int| 0 <= b < a < i && index[a] == index[b] {
            let (a, b) = choose|a: int, b: int| 0 <= b < a < i && index[a] == index[b];
            if a < i - 1 {
                assert(0 <= b < a < i - 1 && index[a] == index[b]);
            } else {
                let top = i - 1;
                assert(0 <= b < top && index[top] == index[b]);
            }
        }
    }
}

} // verus!
