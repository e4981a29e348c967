//! Fixed-point numbers with six decimal places, and exact ratios.
//!
//! Lengths, relative sizes and scale factors are held as `i64` counts of
//! millionths, so that layout arithmetic is exact and can be reasoned about.
//! Quotients round towards negative infinity.

use vstd::prelude::*;

verus! {

/// The fixed-point representation of `1.0`.
pub const FIXED_ONE: i64 = 1_000_000;

/// Largest magnitude of a relative size, scale factor or point size: `1000.0`.
pub const RATIO_LIMIT: i64 = 1_000_000_000;

/// Largest magnitude of a length in pixels or of a resolution: `1_000_000.0`.
pub const LENGTH_LIMIT: i64 = 1_000_000_000_000;

/// Largest width or height of a buffer or an image, in whole pixels: the
/// width of the widest buffer of 32-bit pixels whose size in bytes the
/// shared-memory pool can count.
pub const DIMENSION_LIMIT: i64 = 536_870_911;

/// Whether `v` lies in `-limit ..= limit`.
pub open spec fn within(v: int, limit: int) -> bool {
    -limit <= v <= limit
}

/// The product of two fixed-point numbers, as a fixed-point number.
pub open spec fn scaled(a: int, b: int) -> int {
    (a * b) / (FIXED_ONE as int)
}

/// A whole number as a fixed-point number.
pub open spec fn whole(n: int) -> int {
    n * (FIXED_ONE as int)
}

/// Half of `a`, rounded down.
pub open spec fn half(a: int) -> int {
    a / 2
}

/// Tests whether `v` lies in `-limit ..= limit`.
pub(crate) fn is_within(v: i64, limit: i64) -> (r: bool)
    requires
        0 <= limit,
    ensures
        r == within(v as int, limit as int),
{
    -limit <= v && v <= limit
}

/// A bound on a product from bounds on its factors.
pub(crate) proof fn lemma_product_within(a: int, b: int, la: int, lb: int)
    requires
        within(a, la),
        within(b, lb),
    ensures
        within(a * b, la * lb),
{
    assert(-(la * lb) <= a * b <= la * lb) by (nonlinear_arith)
        requires
            -la <= a <= la,
            -lb <= b <= lb,
    ;
}

/// The floor of `n / d` for a positive divisor.
pub(crate) fn floor_div(n: i128, d: i128) -> (q: i128)
    requires
        0 < d,
    ensures
        q == n as int / d as int,
{
    let q: Option<i128> = n.checked_div_euclid(d);
    assert(i128::MIN <= n as int / d as int <= i128::MAX) by (nonlinear_arith)
        requires
            0 < d,
            i128::MIN <= n <= i128::MAX,
    ;
    match q {
        Some(v) => v,
        None => 0,
    }
}

/// Multiplies two fixed-point numbers.
pub(crate) fn scale_fixed(a: i64, b: i64) -> (r: i64)
    requires
        i64::MIN <= scaled(a as int, b as int) <= i64::MAX,
    ensures
        r == scaled(a as int, b as int),
{
    proof {
        lemma_product_within(
            a as int,
            b as int,
            0x8000_0000_0000_0000,
            0x8000_0000_0000_0000,
        );
    }
    let p: i128 = (a as i128) * (b as i128);
    let q: i128 = floor_div(p, 1_000_000);
    q as i64
}

/// Multiplies a relative size by a count of whole pixels.
pub(crate) fn times(a: i64, n: i64) -> (r: i64)
    requires
        within(a as int, RATIO_LIMIT as int),
        within(n as int, DIMENSION_LIMIT as int),
    ensures
        r == a * n,
        within(r as int, 600_000_000_000_000_000),
{
    proof {
        lemma_product_within(a as int, n as int, RATIO_LIMIT as int, DIMENSION_LIMIT as int);
    }
    a * n
}

/// A count of whole pixels as a fixed-point number.
pub(crate) fn whole_px(n: i64) -> (r: i64)
    requires
        within(n as int, DIMENSION_LIMIT as int),
    ensures
        r == whole(n as int),
{
    n * 1_000_000
}

/// Halves a number, rounding down.
pub(crate) fn halve(a: i64) -> (r: i64)
    ensures
        r == half(a as int),
{
    let q: i128 = floor_div(a as i128, 2);
    q as i64
}

/// An exact quotient of two integers with a positive denominator.
#[derive(Copy, Clone, Debug, PartialEq, Eq, Structural)]
pub struct Ratio {
    pub num: i64,
    pub den: i64,
}

impl Ratio {
    /// Whether the denominator is positive.
    pub open spec fn wf(self) -> bool {
        0 < self.den
    }
}

} // verus!
