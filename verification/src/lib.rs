//! Forward evaluation of a feed-forward neural network.
//!
//! The network is a pure tree: a `NeuralNetwork` owns ordered `NeuralLayer`s,
//! each layer owns ordered `Neuron`s, and a forward pass threads one input
//! vector through the layers in order.  Scalars are exact fixed-point values
//! (`scalar::Fixed`, a signed count of millionths), so every weighted sum and
//! every activation is a proved integer computation.

pub mod scalar;
pub mod activation;
pub mod neuron;
pub mod layer;
pub mod network;
