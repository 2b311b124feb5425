use neural_forward::activation::ActivationFunction;
use neural_forward::layer::NeuralLayer;
use neural_forward::network::NeuralNetwork;
use neural_forward::neuron::Neuron;
use neural_forward::scalar::Fixed;

#[test]
fn scenario_relu_weighted_sum() {
    // Topology [2, 1], weights [1.0, 1.0], bias 0.0, ReLU.
    // Input [2.0, 3.0]: weighted sum 5.0, output [5.0].
    let weights: Vec<Fixed> = vec![
        Fixed::from_millionths(1_000_000),
        Fixed::from_millionths(1_000_000),
    ];
    let neuron = Neuron::from_parts(weights, Fixed::from_millionths(0), ActivationFunction::ReLU);
    let layer = NeuralLayer::from_neurons(2, vec![neuron]);
    let net = NeuralNetwork::from_layers(vec![layer]);
    let inputs: Vec<Fixed> = vec![
        Fixed::from_millionths(2_000_000),
        Fixed::from_millionths(3_000_000),
    ];
    let out: Vec<Fixed> = net.forward(&inputs);
    assert_eq!(out.len(), 1);
    assert_eq!(out[0].to_millionths(), 5_000_000);
}

#[test]
fn scenario_sigmoid_zero_weight() {
    // Topology [1, 1], weights [0.0], bias 0.0, Sigmoid.
    // Input [100.0]: weighted sum 0.0, output [0.5].
    let weights: Vec<Fixed> = vec![Fixed::from_millionths(0)];
    let neuron = Neuron::from_parts(
        weights,
        Fixed::from_millionths(0),
        ActivationFunction::Sigmoid,
    );
    let layer = NeuralLayer::from_neurons(1, vec![neuron]);
    let net = NeuralNetwork::from_layers(vec![layer]);
    let inputs: Vec<Fixed> = vec![Fixed::from_millionths(100_000_000)];
    let out: Vec<Fixed> = net.forward(&inputs);
    assert_eq!(out.len(), 1);
    assert_eq!(out[0].to_millionths(), 500_000);
}

#[test]
fn scenario_tanh_cancelling_weights() {
    // Topology [2, 1], weights [1.0, -1.0], bias 0.0, Tanh.
    // Input [5.0, 5.0]: weighted sum 0.0, output [0.0].
    let weights: Vec<Fixed> = vec![
        Fixed::from_millionths(1_000_000),
        Fixed::from_millionths(-1_000_000),
    ];
    let neuron = Neuron::from_parts(weights, Fixed::from_millionths(0), ActivationFunction::Tanh);
    let layer = NeuralLayer::from_neurons(2, vec![neuron]);
    let net = NeuralNetwork::from_layers(vec![layer]);
    let inputs: Vec<Fixed> = vec![
        Fixed::from_millionths(5_000_000),
        Fixed::from_millionths(5_000_000),
    ];
    let out: Vec<Fixed> = net.forward(&inputs);
    assert_eq!(out.len(), 1);
    assert_eq!(out[0].to_millionths(), 0);
}

#[test]
fn scenario_two_relu_layers() {
    // Topology [1, 1, 1]: layer 1 weights [1.0] bias 0.0 ReLU, layer 2
    // weights [2.0] bias 0.0 ReLU.  Input [3.0]: layer 1 gives [3.0],
    // layer 2 gives [6.0].
    let first = Neuron::from_parts(
        vec![Fixed::from_millionths(1_000_000)],
        Fixed::from_millionths(0),
        ActivationFunction::ReLU,
    );
    let second = Neuron::from_parts(
        vec![Fixed::from_millionths(2_000_000)],
        Fixed::from_millionths(0),
        ActivationFunction::ReLU,
    );
    let net = NeuralNetwork::from_layers(vec![
        NeuralLayer::from_neurons(1, vec![first]),
        NeuralLayer::from_neurons(1, vec![second]),
    ]);
    let inputs: Vec<Fixed> = vec![Fixed::from_millionths(3_000_000)];
    let out: Vec<Fixed> = net.forward(&inputs);
    assert_eq!(out.len(), 1);
    assert_eq!(out[0].to_millionths(), 6_000_000);
}
