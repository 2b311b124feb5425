//! The closed set of per-layer activation functions.
//!
//! Each variant is a pure scalar transform on the fixed-point domain:
//!
//! - `ReLU` is exact: negative inputs and zero map to zero, positive inputs
//!   pass through unchanged.
//! - `Sigmoid` is the fixed-point rendering of the logistic curve: value
//!   `1/2 + x/4`, clamped into `[0, 1]`.  It is `1/2` exactly at zero and
//!   never leaves `[0, 1]`.
//! - `Tanh` is the fixed-point rendering of the hyperbolic tangent: the
//!   identity clamped into `[-1, 1]`.  It is zero at zero and odd.

use vstd::prelude::*;

use crate::scalar::clamp;
use crate::scalar::div4_trunc;
use crate::scalar::tdiv;
use crate::scalar::Fixed;
use crate::scalar::MAX_ABS;
use crate::scalar::SCALE;

verus! {

/// Value of `Sigmoid` at zero: one half, in units.
pub const HALF: i64 = 500_000;

/// One scalar transform, chosen per layer and shared by the layer's neurons.
#[derive(Clone, Copy, Debug, PartialEq, Eq, Structural)]
pub enum ActivationFunction {
    Sigmoid,
    ReLU,
    Tanh,
}

/// `ReLU` on unit counts: zero for non-positive inputs, identity above zero.
pub open spec fn relu_val(x: int) -> int {
    if x > 0 {
        x
    } else {
        0
    }
}

/// `Sigmoid` on unit counts: `1/2 + x/4`, clamped into `[0, 1]`.
pub open spec fn sigmoid_val(x: int) -> int {
    clamp(HALF + tdiv(x, 4), 0, SCALE as int)
}

/// `Tanh` on unit counts: the identity clamped into `[-1, 1]`.
pub open spec fn tanh_val(x: int) -> int {
    clamp(x, -(SCALE as int), SCALE as int)
}

/// What the chosen activation returns on a unit count.
pub open spec fn apply_val(a: ActivationFunction, x: int) -> int {
    match a {
        ActivationFunction::Sigmoid => sigmoid_val(x),
        ActivationFunction::ReLU => relu_val(x),
        ActivationFunction::Tanh => tanh_val(x),
    }
}

impl ActivationFunction {
    /// Applies the activation to one scalar.
    pub fn activate(&self, x: Fixed) -> (r: Fixed)
        requires
            x.inv(),
        ensures
            r.inv(),
            r@ == apply_val(*self, x@),
    {
        let u: i64 = x.to_millionths();
        match self {
            ActivationFunction::Sigmoid => {
                let q: i64 = div4_trunc(u);
                let lin: i64 = HALF + q;
                let out: i64 = if lin < 0 {
                    0
                } else if lin > SCALE {
                    SCALE
                } else {
                    lin
                };
                Fixed::from_millionths(out)
            },
            ActivationFunction::ReLU => {
                if u > 0 {
                    x
                } else {
                    Fixed::from_millionths(0)
                }
            },
            ActivationFunction::Tanh => {
                let out: i64 = if u < -SCALE {
                    -SCALE
                } else if u > SCALE {
                    SCALE
                } else {
                    u
                };
                Fixed::from_millionths(out)
            },
        }
    }
}

/// Every activation is total on the invariant domain, and its result stays in
/// the variant's range: `Sigmoid` in `[0, 1]`, `ReLU` in `[0, x]`'s bound,
/// `Tanh` in `[-1, 1]`.  In particular every result again satisfies the
/// scalar invariant.
pub proof fn lemma_apply_range(a: ActivationFunction, x: int)
    requires
        -(MAX_ABS as int) <= x <= MAX_ABS as int,
    ensures
        -(MAX_ABS as int) <= apply_val(a, x) <= MAX_ABS as int,
        a is Sigmoid ==> 0 <= apply_val(a, x) <= SCALE as int,
        a is ReLU ==> 0 <= apply_val(a, x) <= MAX_ABS as int,
        a is Tanh ==> -(SCALE as int) <= apply_val(a, x) <= SCALE as int,
{
}

/// `ReLU` exactly: non-positive inputs map to zero, positive inputs map to
/// themselves.
pub proof fn lemma_relu_exact(x: int)
    ensures
        x <= 0 ==> apply_val(ActivationFunction::ReLU, x) == 0,
        x > 0 ==> apply_val(ActivationFunction::ReLU, x) == x,
{
}

/// `Sigmoid` is one half exactly at zero.
pub proof fn lemma_sigmoid_at_zero()
    ensures
        apply_val(ActivationFunction::Sigmoid, 0) == HALF as int,
{
}

/// `Sigmoid` is monotone: it never decreases as its input grows.
pub proof fn lemma_sigmoid_monotone(x: int, y: int)
    requires
        x <= y,
    ensures
        apply_val(ActivationFunction::Sigmoid, x) <= apply_val(ActivationFunction::Sigmoid, y),
{
    lemma_tdiv4_monotone(x, y);
}

/// `Sigmoid` is strictly increasing across the linear region: inputs at
/// least seven units apart (the widest rounding bucket of the truncating
/// quarter), both within the unsaturated band, give strictly ordered
/// results.
pub proof fn lemma_sigmoid_strict(x: int, y: int)
    requires
        -2 * (SCALE as int) <= x,
        y <= 2 * (SCALE as int),
        x + 7 <= y,
    ensures
        apply_val(ActivationFunction::Sigmoid, x) < apply_val(ActivationFunction::Sigmoid, y),
{
    lemma_tdiv4_monotone(x + 4, y);
    if x >= 0 {
        assert(tdiv(x, 4) + 1 <= tdiv(x + 4, 4));
    } else if x + 4 <= 0 {
        assert(tdiv(x, 4) + 1 <= tdiv(x + 4, 4));
    } else {
        assert(tdiv(x, 4) + 1 <= tdiv(x + 7, 4));
        lemma_tdiv4_monotone(x + 7, y);
    }
    lemma_tdiv4_monotone(-2 * (SCALE as int), x);
    lemma_tdiv4_monotone(y, 2 * (SCALE as int));
}

/// `Tanh` is odd: negating the input negates the result.
pub proof fn lemma_tanh_odd(x: int)
    ensures
        apply_val(ActivationFunction::Tanh, -x) == -apply_val(ActivationFunction::Tanh, x),
        apply_val(ActivationFunction::Tanh, 0) == 0,
{
}

/// The truncating quarter never decreases as its argument grows.
proof fn lemma_tdiv4_monotone(x: int, y: int)
    requires
        x <= y,
    ensures
        tdiv(x, 4) <= tdiv(y, 4),
{
    if x >= 0 {
        vstd::arithmetic::div_mod::lemma_div_is_ordered(x, y, 4);
    } else if y < 0 {
        vstd::arithmetic::div_mod::lemma_div_is_ordered(-y, -x, 4);
    } else {
        vstd::arithmetic::div_mod::lemma_div_is_ordered(0, -x, 4);
        vstd::arithmetic::div_mod::lemma_div_is_ordered(0, y, 4);
    }
}

} // verus!
