//! A layer: an ordered collection of neurons sharing one input width.
//!
//! Activating a layer activates every neuron independently on the same
//! input vector; the output vector lists the neurons' results in order, so
//! its length always equals the neuron count.

use vstd::prelude::*;

use crate::activation::ActivationFunction;
use crate::neuron::Neuron;
use crate::neuron::MAX_WIDTH;
use crate::scalar::all_inv;
use crate::scalar::vals;
use crate::scalar::Fixed;
use crate::scalar::SCALE;

verus! {

/// One layer of a network.
pub struct NeuralLayer {
    /// The input width every neuron of the layer declares.
    pub input_size: usize,
    pub neurons: Vec<Neuron>,
}

impl NeuralLayer {
    /// Well-formedness: the width is bounded and every neuron is well formed
    /// with exactly `input_size` weights.
    pub open spec fn wf(self) -> bool {
        &&& self.input_size <= MAX_WIDTH
        &&& forall|j: int|
            0 <= j < self.neurons@.len() ==> (#[trigger] self.neurons@[j]).wf()
                && self.neurons@[j].weights@.len() == self.input_size
    }

    /// The values a layer activation returns on input values `xs`: one
    /// output per neuron, in neuron order.
    pub open spec fn output_val(self, xs: Seq<int>) -> Seq<int> {
        Seq::new(self.neurons@.len(), |j: int| self.neurons@[j].output_val(xs))
    }

    /// Builds a layer of `num_neurons` neurons, each independently randomly
    /// initialised with the same input width and the same activation choice.
    pub fn new(input_size: usize, num_neurons: usize, activation_fn: ActivationFunction) -> (r:
        NeuralLayer)
        requires
            input_size <= MAX_WIDTH,
        ensures
            r.wf(),
            r.input_size == input_size,
            r.neurons@.len() == num_neurons,
            forall|j: int|
                0 <= j < num_neurons ==> (#[trigger] r.neurons@[j]).activation_fn
                    == activation_fn,
            forall|j: int| 0 <= j < num_neurons ==> 0 <= (#[trigger] r.neurons@[j]).bias@ < SCALE
                as int,
            forall|j: int, k: int|
                0 <= j < num_neurons && 0 <= k < input_size ==> 0 <= (#[trigger] r.neurons@[
                    j
                ].weights@[k])@ < SCALE as int,
    {
        let mut neurons: Vec<Neuron> = Vec::new();
        let mut i: usize = 0;
        while i < num_neurons
            invariant
                i <= num_neurons,
                neurons@.len() == i,
                input_size <= MAX_WIDTH,
                forall|j: int|
                    0 <= j < i ==> (#[trigger] neurons@[j]).wf() && neurons@[j].weights@.len()
                        == input_size,
                forall|j: int|
                    0 <= j < i ==> (#[trigger] neurons@[j]).activation_fn == activation_fn,
                forall|j: int| 0 <= j < i ==> 0 <= (#[trigger] neurons@[j]).bias@ < SCALE as int,
                forall|j: int, k: int|
                    0 <= j < i && 0 <= k < input_size ==> 0 <= (#[trigger] neurons@[j].weights@[
                        k
                    ])@ < SCALE as int,
            decreases num_neurons - i,
        {
            neurons.push(Neuron::new(input_size, activation_fn));
            i = i + 1;
        }
        NeuralLayer { input_size, neurons }
    }

    /// Builds a layer from explicit neurons that all declare `input_size`
    /// weights.
    pub fn from_neurons(input_size: usize, neurons: Vec<Neuron>) -> (r: NeuralLayer)
        requires
            input_size <= MAX_WIDTH,
            forall|j: int|
                0 <= j < neurons@.len() ==> (#[trigger] neurons@[j]).wf()
                    && neurons@[j].weights@.len() == input_size,
        ensures
            r.wf(),
            r.input_size == input_size,
            r.neurons@ == neurons@,
    {
        NeuralLayer { input_size, neurons }
    }

    /// Activates every neuron on the same input vector; the result has
    /// exactly one value per neuron, in neuron order.
    pub fn activate(&self, inputs: &Vec<Fixed>) -> (r: Vec<Fixed>)
        requires
            self.wf(),
            inputs@.len() == self.input_size,
            all_inv(inputs@),
        ensures
            r@.len() == self.neurons@.len(),
            all_inv(r@),
            vals(r@) == self.output_val(vals(inputs@)),
    {
        let ghost xs: Seq<int> = vals(inputs@);
        let n: usize = self.neurons.len();
        let mut out: Vec<Fixed> = Vec::new();
        let mut i: usize = 0;
        while i < n
            invariant
                i <= n,
                n == self.neurons@.len(),
                self.wf(),
                inputs@.len() == self.input_size,
                all_inv(inputs@),
                xs == vals(inputs@),
                out@.len() == i,
                forall|j: int| 0 <= j < i ==> (#[trigger] out@[j]).inv(),
                forall|j: int|
                    0 <= j < i ==> (#[trigger] out@[j])@ == self.neurons@[j].output_val(xs),
            decreases n - i,
        {
            out.push(self.neurons[i].activate(inputs));
            i = i + 1;
        }
        proof {
            assert(vals(out@) =~= self.output_val(xs));
        }
        out
    }
}

} // verus!
