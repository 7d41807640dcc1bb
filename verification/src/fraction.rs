//! Exact non-negative rational numbers, used for every derived quantity the
//! evaluation engine reports (return ratio, low-CAC threshold, payback).

use vstd::prelude::*;

verus! {

/// The product of two quantities bounded by `u64::MAX` fits in a `u128`.
pub(crate) proof fn lemma_mul_u64_fits_u128(x: int, y: int)
    requires
        0 <= x <= u64::MAX,
        0 <= y <= u64::MAX,
    ensures
        0 <= x * y <= u128::MAX,
{
    vstd::arithmetic::mul::lemma_mul_upper_bound(x, u64::MAX as int, y, u64::MAX as int);
    vstd::arithmetic::mul::lemma_mul_nonnegative(x, y);
}

/// A non-negative rational number `num / den`.
///
/// The numerator is wide enough to hold the product of any two 64-bit
/// quantities, so every fraction the engine builds is exact and no
/// construction can overflow.
#[derive(Clone, Copy, Debug, PartialEq, Eq, Structural)]
pub struct Fraction {
    pub num: u128,
    pub den: u64,
}

impl Fraction {
    /// A fraction denotes a rational only when its denominator is non-zero.
    pub open spec fn wf(self) -> bool {
        self.den > 0
    }

    /// The fraction equals the integer `n`, i.e. `num / den == n`.
    /// For a well-formed fraction this is exactly `num == n * den`.
    pub open spec fn spec_eq_int(self, n: u64) -> bool {
        self.num == n * self.den
    }

    /// Whether this fraction's value is exactly the integer `n`.
    pub fn eq_int(&self, n: u64) -> (r: bool)
        requires
            self.wf(),
        ensures
            r == self.spec_eq_int(n),
    {
        proof {
            lemma_mul_u64_fits_u128(n as int, self.den as int);
        }
        self.num == (n as u128) * (self.den as u128)
    }
}

} // verus!
