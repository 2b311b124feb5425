use neural_forward::activation::ActivationFunction;
use neural_forward::scalar::Fixed;

#[test]
fn fixed_round_trips_millionths() {
    let v: i64 = -2_345_678;
    assert_eq!(Fixed::from_millionths(v).to_millionths(), v);
    assert_eq!(Fixed::from_millionths(0).to_millionths(), 0);
}

#[test]
fn relu_zero_and_negative_map_to_zero() {
    let relu = ActivationFunction::ReLU;
    assert_eq!(relu.activate(Fixed::from_millionths(0)).to_millionths(), 0);
    assert_eq!(relu.activate(Fixed::from_millionths(-1)).to_millionths(), 0);
    assert_eq!(
        relu.activate(Fixed::from_millionths(-5_000_000)).to_millionths(),
        0
    );
}

#[test]
fn relu_positive_is_identity() {
    let relu = ActivationFunction::ReLU;
    assert_eq!(relu.activate(Fixed::from_millionths(1)).to_millionths(), 1);
    assert_eq!(
        relu.activate(Fixed::from_millionths(7_250_000)).to_millionths(),
        7_250_000
    );
}

#[test]
fn sigmoid_at_zero_is_half() {
    let sigmoid = ActivationFunction::Sigmoid;
    assert_eq!(
        sigmoid.activate(Fixed::from_millionths(0)).to_millionths(),
        500_000
    );
}

#[test]
fn sigmoid_stays_in_unit_interval_and_saturates() {
    let sigmoid = ActivationFunction::Sigmoid;
    // Far negative inputs saturate at zero, far positive ones at one.
    assert_eq!(
        sigmoid
            .activate(Fixed::from_millionths(-900_000_000))
            .to_millionths(),
        0
    );
    assert_eq!(
        sigmoid
            .activate(Fixed::from_millionths(900_000_000))
            .to_millionths(),
        1_000_000
    );
}

#[test]
fn sigmoid_is_increasing_on_samples() {
    let sigmoid = ActivationFunction::Sigmoid;
    let samples: [i64; 5] = [-1_500_000, -400_000, 0, 400_000, 1_500_000];
    let mut i: usize = 1;
    while i < samples.len() {
        let lo: i64 = sigmoid
            .activate(Fixed::from_millionths(samples[i - 1]))
            .to_millionths();
        let hi: i64 = sigmoid
            .activate(Fixed::from_millionths(samples[i]))
            .to_millionths();
        assert!(lo < hi);
        i += 1;
    }
}

#[test]
fn tanh_at_zero_is_zero() {
    let tanh = ActivationFunction::Tanh;
    assert_eq!(tanh.activate(Fixed::from_millionths(0)).to_millionths(), 0);
}

#[test]
fn tanh_is_odd_on_samples() {
    let tanh = ActivationFunction::Tanh;
    let samples: [i64; 4] = [1, 250_000, 1_000_000, 30_000_000];
    let mut i: usize = 0;
    while i < samples.len() {
        let pos: i64 = tanh
            .activate(Fixed::from_millionths(samples[i]))
            .to_millionths();
        let neg: i64 = tanh
            .activate(Fixed::from_millionths(-samples[i]))
            .to_millionths();
        assert_eq!(neg, -pos);
        i += 1;
    }
}

#[test]
fn tanh_saturates_at_one() {
    let tanh = ActivationFunction::Tanh;
    assert_eq!(
        tanh.activate(Fixed::from_millionths(1_500_000)).to_millionths(),
        1_000_000
    );
    assert_eq!(
        tanh.activate(Fixed::from_millionths(-1_500_000)).to_millionths(),
        -1_000_000
    );
    // Inside the band it is the identity.
    assert_eq!(
        tanh.activate(Fixed::from_millionths(999_999)).to_millionths(),
        999_999
    );
}

#[test]
fn sigmoid_linear_region_is_half_plus_quarter() {
    let sigmoid = ActivationFunction::Sigmoid;
    // sigmoid(0.4) = 0.5 + 0.4/4 = 0.6 exactly.
    assert_eq!(
        sigmoid.activate(Fixed::from_millionths(400_000)).to_millionths(),
        600_000
    );
    // sigmoid(-1.0) = 0.5 - 0.25 = 0.25 exactly.
    assert_eq!(
        sigmoid
            .activate(Fixed::from_millionths(-1_000_000))
            .to_millionths(),
        250_000
    );
}
