//! The network: an ordered sequence of layers with compatible widths.
//!
//! Construction takes the topology (`layer_sizes`) and one activation
//! choice per weight-bearing layer; a count mismatch is rejected with a
//! `ConfigError`, never truncated or padded.  A forward pass threads the
//! input vector through the layers in order and is a pure function of the
//! network and the input.

use vstd::prelude::*;

use crate::activation::ActivationFunction;
use crate::layer::NeuralLayer;
use crate::neuron::MAX_WIDTH;
use crate::scalar::all_inv;
use crate::scalar::vals;
use crate::scalar::Fixed;
use crate::scalar::SCALE;

verus! {

/// A construction-time configuration fault.
#[derive(Clone, Copy, Debug, PartialEq, Eq, Structural)]
pub enum ConfigError {
    /// The number of activation choices does not equal the number of
    /// weight-bearing layers.
    ActivationCountMismatch,
}

/// A feed-forward network.
pub struct NeuralNetwork {
    pub layers: Vec<NeuralLayer>,
}

/// The values a forward pass returns: the input threaded through the
/// layers in order; an empty network returns the input unchanged.
pub open spec fn forward_val(layers: Seq<NeuralLayer>, xs: Seq<int>) -> Seq<int>
    decreases layers.len(),
{
    if layers.len() == 0 {
        xs
    } else {
        forward_val(layers.skip(1), layers[0].output_val(xs))
    }
}

impl NeuralNetwork {
    /// Well-formedness: every layer is well formed, and each layer's input
    /// width equals the previous layer's neuron count.
    pub open spec fn wf(self) -> bool {
        &&& forall|i: int| 0 <= i < self.layers@.len() ==> (#[trigger] self.layers@[i]).wf()
        &&& forall|i: int|
            1 <= i < self.layers@.len() ==> (#[trigger] self.layers@[i]).input_size
                == self.layers@[i - 1].neurons@.len()
    }

    /// The network's layers realise the given topology and activation
    /// choices: layer `i` takes `sizes[i]` inputs, holds `sizes[i + 1]`
    /// neurons, and every one of its neurons uses `acts[i]`.
    pub open spec fn matches_config(
        self,
        sizes: Seq<usize>,
        acts: Seq<ActivationFunction>,
    ) -> bool {
        &&& self.layers@.len() + 1 == sizes.len()
        &&& forall|i: int|
            0 <= i < self.layers@.len() ==> {
                &&& (#[trigger] self.layers@[i]).input_size == sizes[i]
                &&& self.layers@[i].neurons@.len() == sizes[i + 1]
                &&& forall|j: int|
                    0 <= j < self.layers@[i].neurons@.len() ==> (#[trigger] self.layers@[
                        i
                    ].neurons@[j]).activation_fn == acts[i]
            }
    }

    /// Every neuron's parameters lie in the initialiser's range: each
    /// weight and each bias is a unit count in `[0, 1)`.
    pub open spec fn unit_initialised(self) -> bool {
        &&& forall|i: int, j: int|
            0 <= i < self.layers@.len() && 0 <= j < self.layers@[i].neurons@.len() ==> 0 <= (
            #[trigger] self.layers@[i].neurons@[j]).bias@ < SCALE as int
        &&& forall|i: int, j: int, k: int|
            0 <= i < self.layers@.len() && 0 <= j < self.layers@[i].neurons@.len() && 0 <= k
                < self.layers@[i].neurons@[j].weights@.len() ==> 0 <= (#[trigger] self.layers@[
                i
            ].neurons@[j].weights@[k])@ < SCALE as int
    }

    /// Builds a network for the given topology: `layer_sizes[0]` is the
    /// input width, and each later entry is one layer's neuron count, with
    /// one activation choice per such layer.  The build is rejected exactly
    /// when the choice count does not fit the topology.
    pub fn new(layer_sizes: &Vec<usize>, activation_fns: Vec<ActivationFunction>) -> (r: Result<
        NeuralNetwork,
        ConfigError,
    >)
        requires
            forall|i: int| 0 <= i < layer_sizes@.len() ==> #[trigger] layer_sizes@[i] <= MAX_WIDTH,
        ensures
            r is Ok <==> layer_sizes@.len() == activation_fns@.len() + 1,
            r matches Ok(net) ==> net.wf() && net.matches_config(layer_sizes@, activation_fns@)
                && net.unit_initialised(),
            r is Err ==> r == Result::<NeuralNetwork, ConfigError>::Err(
                ConfigError::ActivationCountMismatch,
            ),
    {
        if layer_sizes.len() < 1 || activation_fns.len() != layer_sizes.len() - 1 {
            return Err(ConfigError::ActivationCountMismatch);
        }
        let mut layers: Vec<NeuralLayer> = Vec::new();
        let mut i: usize = 1;
        while i < layer_sizes.len()
            invariant
                1 <= i <= layer_sizes@.len(),
                layer_sizes@.len() == activation_fns@.len() + 1,
                forall|k: int| 0 <= k < layer_sizes@.len() ==> #[trigger] layer_sizes@[k]
                    <= MAX_WIDTH,
                layers@.len() == i - 1,
                forall|k: int| 0 <= k < i - 1 ==> (#[trigger] layers@[k]).wf(),
                forall|k: int, j: int|
                    0 <= k < i - 1 && 0 <= j < layers@[k].neurons@.len() ==> 0 <= (
                    #[trigger] layers@[k].neurons@[j]).bias@ < SCALE as int,
                forall|k: int, j: int, m: int|
                    0 <= k < i - 1 && 0 <= j < layers@[k].neurons@.len() && 0 <= m < layers@[
                        k
                    ].neurons@[j].weights@.len() ==> 0 <= (#[trigger] layers@[k].neurons@[
                        j
                    ].weights@[m])@ < SCALE as int,
                forall|k: int|
                    0 <= k < i - 1 ==> {
                        &&& (#[trigger] layers@[k]).input_size == layer_sizes@[k]
                        &&& layers@[k].neurons@.len() == layer_sizes@[k + 1]
                        &&& forall|j: int|
                            0 <= j < layers@[k].neurons@.len() ==> (#[trigger] layers@[
                                k
                            ].neurons@[j]).activation_fn == activation_fns@[k]
                    },
            decreases layer_sizes@.len() - i,
        {
            let input_size: usize = layer_sizes[i - 1];
            let num_neurons: usize = layer_sizes[i];
            let activation_fn: ActivationFunction = activation_fns[i - 1];
            layers.push(NeuralLayer::new(input_size, num_neurons, activation_fn));
            i = i + 1;
        }
        Ok(NeuralNetwork { layers })
    }

    /// Builds a network from explicit layers whose widths chain.
    pub fn from_layers(layers: Vec<NeuralLayer>) -> (r: NeuralNetwork)
        requires
            forall|i: int| 0 <= i < layers@.len() ==> (#[trigger] layers@[i]).wf(),
            forall|i: int|
                1 <= i < layers@.len() ==> (#[trigger] layers@[i]).input_size == layers@[i
                    - 1].neurons@.len(),
        ensures
            r.wf(),
            r.layers@ == layers@,
    {
        NeuralNetwork { layers }
    }

    /// Runs one forward pass: threads `inputs` through the layers in order
    /// and returns the last layer's output (the input itself if there is no
    /// layer).  The result always holds one value per neuron of the last
    /// layer.
    pub fn forward(&self, inputs: &Vec<Fixed>) -> (r: Vec<Fixed>)
        requires
            self.wf(),
            all_inv(inputs@),
            self.layers@.len() > 0 ==> inputs@.len() == self.layers@[0].input_size,
        ensures
            all_inv(r@),
            vals(r@) == forward_val(self.layers@, vals(inputs@)),
            self.layers@.len() > 0 ==> r@.len() == self.layers@[self.layers@.len()
                - 1].neurons@.len(),
            self.layers@.len() == 0 ==> r@ == inputs@,
    {
        let ghost xs0: Seq<int> = vals(inputs@);
        let mut cur: Vec<Fixed> = Vec::new();
        let mut j: usize = 0;
        while j < inputs.len()
            invariant
                j <= inputs@.len(),
                cur@.len() == j,
                forall|k: int| 0 <= k < j ==> cur@[k] == inputs@[k],
            decreases inputs@.len() - j,
        {
            cur.push(inputs[j]);
            j = j + 1;
        }
        proof {
            assert(cur@ =~= inputs@);
            assert(self.layers@.skip(0) =~= self.layers@);
        }
        let num_layers: usize = self.layers.len();
        let mut i: usize = 0;
        while i < num_layers
            invariant
                i <= num_layers,
                num_layers == self.layers@.len(),
                self.wf(),
                all_inv(cur@),
                xs0 == vals(inputs@),
                forward_val(self.layers@, xs0) == forward_val(
                    self.layers@.skip(i as int),
                    vals(cur@),
                ),
                i < num_layers ==> cur@.len() == self.layers@[i as int].input_size,
                i == 0 ==> cur@ == inputs@,
                i > 0 ==> cur@.len() == self.layers@[i - 1].neurons@.len(),
            decreases num_layers - i,
        {
            let next: Vec<Fixed> = self.layers[i].activate(&cur);
            proof {
                lemma_forward_unfold(self.layers@, vals(cur@), i as int);
            }
            cur = next;
            i = i + 1;
        }
        proof {
            assert(self.layers@.skip(num_layers as int).len() == 0);
        }
        cur
    }
}

/// Threading one layer: skipping `i` layers and feeding layer `i`'s output
/// onward equals skipping `i + 1` layers on that output.
proof fn lemma_forward_unfold(layers: Seq<NeuralLayer>, xs: Seq<int>, i: int)
    requires
        0 <= i < layers.len(),
    ensures
        forward_val(layers.skip(i), xs) == forward_val(
            layers.skip(i + 1),
            layers[i].output_val(xs),
        ),
{
    let t: Seq<NeuralLayer> = layers.skip(i);
    assert(t[0] == layers[i]);
    assert(t.skip(1) =~= layers.skip(i + 1));
}

} // verus!
