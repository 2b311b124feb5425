//! A single neuron: a weight vector, a bias, and an activation choice.
//!
//! Activating a neuron pairs the inputs with the weights positionally,
//! renormalises the exact product sum back to units, adds the bias, clamps
//! the pre-activation into the scalar range, and applies the activation.
//! Input and weight vectors must have equal length: shape mismatches are a
//! caller contract violation, not silently truncated.

use vstd::prelude::*;

use crate::activation::apply_val;
use crate::activation::ActivationFunction;
use crate::scalar::all_inv;
use crate::scalar::clamp;
use crate::scalar::div_millionths_trunc;
use crate::scalar::tdiv;
use crate::scalar::vals;
use crate::scalar::Fixed;
use crate::scalar::MAX_ABS;
use crate::scalar::SCALE;

verus! {

/// Most inputs a neuron (and hence a layer) may take; keeps the exact
/// product sum of a weighted summation within `i128`.
pub const MAX_WIDTH: usize = 100_000_000;

/// Largest magnitude, in units, of one product of an input and a weight.
pub const TERM_BOUND: i128 = 1_000_000_000_000_000_000_000_000;

/// Sum of the first `k` positional products of `xs` and `ws`.
pub open spec fn dot_prefix(xs: Seq<int>, ws: Seq<int>, k: int) -> int
    decreases k,
{
    if k <= 0 {
        0
    } else {
        dot_prefix(xs, ws, k - 1) + xs[k - 1] * ws[k - 1]
    }
}

/// The weighted sum of two equal-length value sequences.
pub open spec fn dot(xs: Seq<int>, ws: Seq<int>) -> int {
    dot_prefix(xs, ws, xs.len() as int)
}

/// One neuron of a layer.
pub struct Neuron {
    pub weights: Vec<Fixed>,
    pub bias: Fixed,
    pub activation_fn: ActivationFunction,
}

impl Neuron {
    /// Well-formedness: the width is bounded and every parameter satisfies
    /// the scalar invariant.
    pub open spec fn wf(self) -> bool {
        &&& self.weights@.len() <= MAX_WIDTH
        &&& self.bias.inv()
        &&& all_inv(self.weights@)
    }

    /// The clamped pre-activation: the weighted sum of `xs` and the weights,
    /// renormalised to units, plus the bias, saturated to the scalar range.
    pub open spec fn pre_activation_val(self, xs: Seq<int>) -> int {
        clamp(
            tdiv(dot(xs, vals(self.weights@)), SCALE as int) + self.bias@,
            -(MAX_ABS as int),
            MAX_ABS as int,
        )
    }

    /// What activating the neuron on input values `xs` returns.
    pub open spec fn output_val(self, xs: Seq<int>) -> int {
        apply_val(self.activation_fn, self.pre_activation_val(xs))
    }

    /// Builds a neuron with `input_size` randomly initialised weights and a
    /// randomly initialised bias, each in `[0, 1)`.
    pub fn new(input_size: usize, activation_fn: ActivationFunction) -> (r: Neuron)
        requires
            input_size <= MAX_WIDTH,
        ensures
            r.wf(),
            r.weights@.len() == input_size,
            r.activation_fn == activation_fn,
            forall|j: int| 0 <= j < input_size ==> 0 <= #[trigger] r.weights@[j]@ < SCALE as int,
            0 <= r.bias@ < SCALE as int,
    {
        let mut weights: Vec<Fixed> = Vec::new();
        let mut i: usize = 0;
        while i < input_size
            invariant
                i <= input_size,
                weights@.len() == i,
                forall|j: int| 0 <= j < i ==> 0 <= #[trigger] weights@[j]@ < SCALE as int,
            decreases input_size - i,
        {
            let u: i64 = random_unit_millionths();
            weights.push(Fixed::from_millionths(u));
            i = i + 1;
        }
        let bias: Fixed = Fixed::from_millionths(random_unit_millionths());
        Neuron { weights, bias, activation_fn }
    }

    /// Builds a neuron from explicit parameters.
    pub fn from_parts(weights: Vec<Fixed>, bias: Fixed, activation_fn: ActivationFunction) -> (r:
        Neuron)
        requires
            weights@.len() <= MAX_WIDTH,
            all_inv(weights@),
            bias.inv(),
        ensures
            r.wf(),
            r.weights@ == weights@,
            r.bias == bias,
            r.activation_fn == activation_fn,
    {
        Neuron { weights, bias, activation_fn }
    }

    /// Activates the neuron on one input vector of matching length.
    pub fn activate(&self, inputs: &Vec<Fixed>) -> (r: Fixed)
        requires
            self.wf(),
            inputs@.len() == self.weights@.len(),
            all_inv(inputs@),
        ensures
            r.inv(),
            r@ == self.output_val(vals(inputs@)),
    {
        let ghost xs: Seq<int> = vals(inputs@);
        let ghost ws: Seq<int> = vals(self.weights@);
        let n: usize = self.weights.len();
        let mut acc: i128 = 0;
        let mut i: usize = 0;
        while i < n
            invariant
                i <= n,
                n == self.weights@.len(),
                n == inputs@.len(),
                n <= MAX_WIDTH,
                all_inv(inputs@),
                all_inv(self.weights@),
                xs == vals(inputs@),
                ws == vals(self.weights@),
                acc == dot_prefix(xs, ws, i as int),
                -(i as i128) * TERM_BOUND <= acc <= (i as i128) * TERM_BOUND,
            decreases n - i,
        {
            let xi: i64 = inputs[i].to_millionths();
            let wi: i64 = self.weights[i].to_millionths();
            proof {
                lemma_term_bound(xi as int, wi as int);
                assert(dot_prefix(xs, ws, i + 1) == dot_prefix(xs, ws, i as int) + xs[i as int]
                    * ws[i as int]);
            }
            let p: i128 = (xi as i128) * (wi as i128);
            acc = acc + p;
            i = i + 1;
        }
        assert(acc == dot(xs, ws));
        let scaled: i128 = div_millionths_trunc(acc);
        let s: i128 = scaled + (self.bias.to_millionths() as i128);
        let pre: i64 = if s > (MAX_ABS as i128) {
            MAX_ABS
        } else if s < -(MAX_ABS as i128) {
            -MAX_ABS
        } else {
            s as i64
        };
        assert(pre as int == self.pre_activation_val(xs));
        self.activation_fn.activate(Fixed::from_millionths(pre))
    }
}

/// A neuron whose weights and bias are all zero returns the activation of
/// zero, whatever the input values are.
pub proof fn lemma_zero_parameters(n: Neuron, xs: Seq<int>)
    requires
        n.wf(),
        xs.len() == n.weights@.len(),
        forall|i: int| 0 <= i < n.weights@.len() ==> n.weights@[i]@ == 0,
        n.bias@ == 0,
    ensures
        n.output_val(xs) == apply_val(n.activation_fn, 0),
{
    lemma_dot_zero(xs, vals(n.weights@), xs.len() as int);
}

/// A prefix sum over all-zero weights is zero.
proof fn lemma_dot_zero(xs: Seq<int>, ws: Seq<int>, k: int)
    requires
        k <= ws.len(),
        forall|i: int| 0 <= i < ws.len() ==> ws[i] == 0,
    ensures
        dot_prefix(xs, ws, k) == 0,
    decreases k,
{
    if k > 0 {
        lemma_dot_zero(xs, ws, k - 1);
    }
}

/// The product of two scalars within the invariant bound stays within one
/// term's bound.
proof fn lemma_term_bound(a: int, b: int)
    by (nonlinear_arith)
    requires
        -(MAX_ABS as int) <= a <= MAX_ABS as int,
        -(MAX_ABS as int) <= b <= MAX_ABS as int,
    ensures
        -(TERM_BOUND as int) <= a * b <= TERM_BOUND as int,
{
}

/// Relies on rand::Rng::gen_range over rand::thread_rng: returns a value
/// drawn from the half-open range it is given, here `0..SCALE`, so the
/// result is a unit count in `[0, 1)`.
#[verifier::external_body]
fn random_unit_millionths() -> (r: i64)
    ensures
        0 <= r < SCALE,
{
    rand::Rng::gen_range(&mut rand::thread_rng(), 0..SCALE)
}

} // verus!
