//! Exact resolution-independent coordinates.

use vstd::prelude::*;
use vstd::arithmetic::div_mod::{lemma_fundamental_div_mod, lemma_fundamental_div_mod_converse, lemma_mod_bound};

verus! {

/// A pixel coordinate or extent set against the extent of the image it was
/// measured on: `numerator / denominator`, kept exact.
///
/// A value inside the image lies between zero and one. Nothing keeps a ratio
/// in that range: geometry outside the image gives a ratio outside it, and
/// the library never clamps. With a zero denominator the ratio is no number.
///
/// `==` compares the two fields, so `1/2` and `2/4` are different ratios of
/// the same value; [`Ratio::same_value`] compares the values.
#[derive(Debug, Clone, Copy, PartialEq, Eq, Structural)]
pub struct Ratio {
    pub numerator: i32,
    pub denominator: u16,
}

impl Ratio {
    /// Whether the ratio denotes a rational number.
    pub open spec fn is_number(self) -> bool {
        self.denominator > 0
    }

    /// `self <= other`, decided on the cross products. Between two numbers
    /// this is the order of the rationals.
    pub open spec fn spec_le(self, other: Ratio) -> bool {
        self.numerator * other.denominator <= other.numerator * self.denominator
    }

    /// Whether both ratios have the same cross products; between two numbers,
    /// whether they are the same rational.
    pub open spec fn spec_same_value(self, other: Ratio) -> bool {
        self.numerator * other.denominator == other.numerator * self.denominator
    }

    /// The ratio applied to an extent and rounded down: the largest integer
    /// `q` with `q * denominator <= numerator * extent`.
    pub open spec fn spec_scaled_to(self, extent: int) -> int
        recommends
            self.is_number(),
    {
        (self.numerator * extent) / (self.denominator as int)
    }

    pub fn new(numerator: i32, denominator: u16) -> (ratio: Ratio)
        ensures
            ratio.numerator == numerator,
            ratio.denominator == denominator,
    {
        Ratio { numerator, denominator }
    }

    /// Whether this ratio is at most `other`.
    pub fn le(&self, other: &Ratio) -> (result: bool)
        ensures
            result == self.spec_le(*other),
    {
        let lhs: i64 = Self::cross(self.numerator, other.denominator);
        let rhs: i64 = Self::cross(other.numerator, self.denominator);
        lhs <= rhs
    }

    /// Whether this ratio and `other` have the same value.
    pub fn same_value(&self, other: &Ratio) -> (result: bool)
        ensures
            result == self.spec_same_value(*other),
    {
        let lhs: i64 = Self::cross(self.numerator, other.denominator);
        let rhs: i64 = Self::cross(other.numerator, self.denominator);
        lhs == rhs
    }

    /// The pixel that this ratio denotes on an image of the given extent,
    /// rounded down; `None` where the ratio is no number.
    pub fn scaled_to(&self, extent: u16) -> (pixel: Option<i64>)
        ensures
            pixel is Some <==> self.is_number(),
            pixel matches Some(q) ==> q == self.spec_scaled_to(extent as int),
    {
        if self.denominator == 0 {
            return None;
        }
        let product: i64 = Self::cross(self.numerator, extent);
        let divisor: i64 = self.denominator as i64;
        if product >= 0 {
            Some(product / divisor)
        } else {
            let magnitude: i64 = -product;
            let rounded_up: i64 = (magnitude + (divisor - 1)) / divisor;
            proof {
                lemma_floor_bounds(magnitude + (divisor - 1), divisor as int);
                assert((-rounded_up) * divisor <= product < (-rounded_up + 1) * divisor)
                    by (nonlinear_arith)
                    requires
                        rounded_up * divisor <= magnitude + (divisor - 1) < (rounded_up + 1)
                            * divisor,
                        product == -magnitude,
                ;
                lemma_floor_unique(product as int, divisor as int, -rounded_up);
            }
            Some(-rounded_up)
        }
    }

    fn cross(numerator: i32, denominator: u16) -> (product: i64)
        ensures
            product == numerator * denominator,
            -0x8000_0000 * 0xffff <= product <= 0x7fff_ffff * 0xffff,
    {
        assert(-0x8000_0000 * 0xffff <= numerator * denominator <= 0x7fff_ffff * 0xffff)
            by (nonlinear_arith)
            requires
                -0x8000_0000 <= numerator <= 0x7fff_ffff,
                0 <= denominator <= 0xffff,
        ;
        (numerator as i64) * (denominator as i64)
    }
}

/// Rounding down brackets the dividend between two multiples of the divisor.
pub proof fn lemma_floor_bounds(x: int, d: int)
    requires
        d > 0,
    ensures
        (x / d) * d <= x < (x / d + 1) * d,
{
    lemma_fundamental_div_mod(x, d);
    lemma_mod_bound(x, d);
    assert((x / d) * d == d * (x / d)) by (nonlinear_arith);
    assert((x / d + 1) * d == d * (x / d) + d) by (nonlinear_arith);
}

/// The only `q` with `q * d <= x < (q + 1) * d` is `x / d`.
pub proof fn lemma_floor_unique(x: int, d: int, q: int)
    requires
        d > 0,
        q * d <= x < (q + 1) * d,
    ensures
        q == x / d,
{
    assert((q + 1) * d == q * d + d) by (nonlinear_arith);
    lemma_fundamental_div_mod_converse(x, d, q, x - q * d);
}

} // verus!
