//! The scalar domain: exact fixed-point numbers.
//!
//! A `Fixed` holds a signed count of millionths, so `1.0` is `1_000_000`
//! units.  Every scalar the library handles is kept within `MAX_ABS` units
//! (one million whole units either way); that bound is what makes all of the
//! weighted-sum arithmetic provably free of overflow.

use vstd::prelude::*;

verus! {

/// Units per whole number: a `Fixed` counts millionths.
pub const SCALE: i64 = 1_000_000;

/// Largest magnitude, in units, that a `Fixed` may hold (one million wholes).
pub const MAX_ABS: i64 = 1_000_000_000_000;

/// Truncating division by a positive divisor: rounds toward zero, as the
/// executable helpers below do.
pub open spec fn tdiv(n: int, d: int) -> int {
    if n >= 0 {
        n / d
    } else {
        -((-n) / d)
    }
}

/// An exact fixed-point scalar: `units` millionths.
#[derive(Clone, Copy, Debug, PartialEq, Eq, Structural)]
pub struct Fixed {
    units: i64,
}

impl View for Fixed {
    type V = int;

    closed spec fn view(&self) -> int {
        self.units as int
    }
}

impl Fixed {
    /// Every scalar the library works with stays within `MAX_ABS` units.
    pub open spec fn inv(self) -> bool {
        -(MAX_ABS as int) <= self@ <= MAX_ABS as int
    }

    /// Builds the scalar worth `units` millionths.
    pub fn from_millionths(units: i64) -> (r: Fixed)
        requires
            -MAX_ABS <= units <= MAX_ABS,
        ensures
            r.inv(),
            r@ == units,
    {
        Fixed { units }
    }

    /// The scalar's value as a count of millionths.
    pub fn to_millionths(self) -> (r: i64)
        ensures
            r == self@,
    {
        self.units
    }
}

/// The values of a sequence of scalars, in order.
pub open spec fn vals(s: Seq<Fixed>) -> Seq<int> {
    s.map_values(|f: Fixed| f@)
}

/// Every scalar of the sequence satisfies its invariant.
pub open spec fn all_inv(s: Seq<Fixed>) -> bool {
    forall|i: int| 0 <= i < s.len() ==> s[i].inv()
}

/// Clamps `v` into the closed interval `[lo, hi]`.
pub open spec fn clamp(v: int, lo: int, hi: int) -> int {
    if v < lo {
        lo
    } else if v > hi {
        hi
    } else {
        v
    }
}

/// Truncating division of a unit count by `SCALE`, used to renormalise the
/// product of two fixed-point numbers.
pub fn div_millionths_trunc(n: i128) -> (q: i128)
    requires
        n != i128::MIN,
    ensures
        q == tdiv(n as int, SCALE as int),
{
    if n >= 0 {
        let m: u128 = n as u128;
        assert(m / (SCALE as u128) <= m) by (nonlinear_arith);
        let d: u128 = m / (SCALE as u128);
        d as i128
    } else {
        let m: u128 = (-n) as u128;
        assert(m / (SCALE as u128) <= m) by (nonlinear_arith);
        let d: u128 = m / (SCALE as u128);
        -(d as i128)
    }
}

/// Truncating division of a unit count by four.
pub fn div4_trunc(x: i64) -> (q: i64)
    requires
        x != i64::MIN,
    ensures
        q == tdiv(x as int, 4),
{
    if x >= 0 {
        let m: u64 = x as u64;
        assert(m / 4 <= m) by (nonlinear_arith);
        let d: u64 = m / 4;
        d as i64
    } else {
        let m: u64 = (-x) as u64;
        assert(m / 4 <= m) by (nonlinear_arith);
        let d: u64 = m / 4;
        -(d as i64)
    }
}

} // verus!
