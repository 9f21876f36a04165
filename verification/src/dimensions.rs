//! Fixed-point length values and the arithmetic the layout engine uses.
//!
//! Three kinds of length flow through the engine:
//!
//! - pixel lengths, held as `i64` counts of a subpixel quantum of
//!   1/[`PX_QUANTUM`] px ("q units"); every dimension stored in a layout
//!   node is such a count;
//! - em lengths, held as `i64` counts of 1/[`EM_QUANTUM`] em, so that the
//!   classical spacing fractions (3/18 em, 4/18 em, 5/18 em, 1/4 em) are
//!   represented exactly;
//! - font-unit lengths, plain `i64` values in the font's own design units.
//!
//! Conversions divide once, with truncation toward zero, so a length is
//! rounded exactly once on its way into the layout tree.

use vstd::prelude::*;

verus! {

/// Number of q units in one pixel.
pub const PX_QUANTUM: i64 = 256;

/// Number of em subunits in one em.  1152 is divisible by 18 and by 4, so
/// the classical TeX spacing fractions are exact.
pub const EM_QUANTUM: i64 = 1152;

/// Truncating division (round toward zero), the rounding used by every
/// unit conversion.  Defined for positive divisors only.
pub open spec fn tdiv(a: int, b: int) -> int
    recommends
        b > 0,
{
    if a >= 0 {
        a / b
    } else {
        -((-a) / b)
    }
}

/// Absolute value of a mathematical integer.
pub open spec fn iabs(a: int) -> int {
    if a >= 0 {
        a
    } else {
        -a
    }
}

/// Truncating division on machine integers, computed through unsigned
/// division so the rounding direction is pinned down.
pub fn div_trunc(a: i128, b: i128) -> (r: i128)
    requires
        b > 0,
        a > i128::MIN,
    ensures
        r == tdiv(a as int, b as int),
        iabs(r as int) <= iabs(a as int),
{
    if a >= 0 {
        let q: u128 = (a as u128) / (b as u128);
        proof {
            vstd::arithmetic::div_mod::lemma_div_nonincreasing(a as int, b as int);
        }
        q as i128
    } else {
        let m: i128 = -a;
        let q: u128 = (m as u128) / (b as u128);
        proof {
            vstd::arithmetic::div_mod::lemma_div_nonincreasing(m as int, b as int);
        }
        -(q as i128)
    }
}

/// The magnitude of a product is bounded by the product of the bounds.
pub proof fn lemma_mul_bound(a: int, b: int, ma: int, mb: int)
    by (nonlinear_arith)
    requires
        iabs(a) <= ma,
        iabs(b) <= mb,
    ensures
        iabs(a * b) <= ma * mb,
{
}

/// A product of values above positive lower bounds is above the product
/// of the bounds.
pub proof fn lemma_mul_lower(a: int, b: int, ka: int, kb: int)
    by (nonlinear_arith)
    requires
        a >= ka >= 1,
        b >= kb >= 1,
    ensures
        a * b >= ka * kb,
{
}

/// The sign of a three-factor product with non-negative second and
/// third factors follows the first factor.
pub proof fn lemma_mul3_sign(a: int, b: int, c: int)
    by (nonlinear_arith)
    requires
        b >= 0,
        c >= 0,
    ensures
        a >= 0 ==> a * b * c >= 0,
        a <= 0 ==> a * b * c <= 0,
{
}

/// Truncating division keeps the sign of the numerator.
pub proof fn lemma_tdiv_sign(a: int, b: int)
    requires
        b >= 1,
    ensures
        a >= 0 ==> tdiv(a, b) >= 0,
        a <= 0 ==> tdiv(a, b) <= 0,
{
    if a >= 0 {
        vstd::arithmetic::div_mod::lemma_div_pos_is_pos(a, b);
    } else {
        vstd::arithmetic::div_mod::lemma_div_pos_is_pos(-a, b);
    }
}

/// The magnitude of a truncating quotient shrinks with the divisor: with
/// divisor at least `k`, it is at most the numerator's magnitude divided
/// by `k`.
pub proof fn lemma_tdiv_magnitude(a: int, b: int, k: int)
    requires
        1 <= k <= b,
    ensures
        iabs(tdiv(a, b)) <= iabs(a) / k,
{
    if a >= 0 {
        vstd::arithmetic::div_mod::lemma_div_pos_is_pos(a, b);
        vstd::arithmetic::div_mod::lemma_div_is_ordered_by_denominator(a, k, b);
    } else {
        vstd::arithmetic::div_mod::lemma_div_pos_is_pos(-a, b);
        vstd::arithmetic::div_mod::lemma_div_is_ordered_by_denominator(-a, k, b);
    }
}

/// A length as it appears in the formula source: either a number of em
/// subunits or a number of q units.
#[derive(Debug, Clone, Copy, PartialEq, Eq, Structural)]
pub enum AnyUnit {
    /// Em subunits, 1/[`EM_QUANTUM`] em each.
    Em(i64),
    /// Pixel q units, 1/[`PX_QUANTUM`] px each.
    Px(i64),
}

/// The largest magnitude accepted for a raw `AnyUnit` value.
pub const ANY_UNIT_MAX: i64 = 0x8000_0000;

impl AnyUnit {
    /// Whether the carried value is within the accepted range.
    pub open spec fn in_range(self) -> bool {
        match self {
            AnyUnit::Em(v) => iabs(v as int) <= ANY_UNIT_MAX,
            AnyUnit::Px(v) => iabs(v as int) <= ANY_UNIT_MAX,
        }
    }
}

} // verus!
