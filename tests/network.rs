use approx::{AbsDiffEq, RelativeEq};
use neural_network::{Arithmetic, Layer, LayerTopology, Network, Neuron};
use rand::rngs::StdRng;
use rand::{Rng, SeedableRng};

type F32Ops = Arithmetic<f32, fn(f32, f32) -> f32, fn(f32, f32) -> f32, fn(f32, f32) -> bool>;

fn add(a: f32, b: f32) -> f32 {
    a + b
}

fn mul(a: f32, b: f32) -> f32 {
    a * b
}

fn less(a: f32, b: f32) -> bool {
    a < b
}

fn ops() -> F32Ops {
    Arithmetic { zero: 0.0, sum: add, product: mul, less }
}

/// One draw from `[-1.0, 1.0)` with a seeded generator, passed by value.
fn uniform(mut rng: StdRng) -> (f32, StdRng) {
    let v = rng.gen_range(-1.0..1.0);
    (v, rng)
}

/// Hands out 0, 1, 2, ... so that each parameter shows when it was drawn.
fn count(n: u32) -> (f32, u32) {
    (n as f32, n + 1)
}

fn close(a: f32, b: f32) -> bool {
    a.relative_eq(&b, f32::default_epsilon(), f32::default_max_relative())
}

fn topology(entries: &[(usize, usize)]) -> Vec<LayerTopology> {
    entries
        .iter()
        .map(|&(input_neurons, output_neurons)| LayerTopology { input_neurons, output_neurons })
        .collect()
}

fn seeded(seed: u64) -> StdRng {
    StdRng::seed_from_u64(seed)
}

#[test]
fn propagate() {
    let neuron = Neuron::new(vec![-0.3, 0.8], 0.5);

    assert!(close(neuron.propagate(&ops(), &[-10.0, -10.0]), 0.0));

    assert!(close(
        neuron.propagate(&ops(), &[0.5, 1.0]),
        (-0.3 * 0.5) + (0.8 * 1.0) + 0.5,
    ));
}

#[test]
fn neuron_clamps_negative_to_exact_zero() {
    let neuron = Neuron::new(vec![-0.3f32, 0.8], 0.5);
    assert_eq!(neuron.propagate(&ops(), &[-10.0, -10.0]), 0.0);
}

#[test]
fn neuron_positive_activation_value() {
    let neuron = Neuron::new(vec![-0.3f32, 0.8], 0.5);
    assert!(close(neuron.propagate(&ops(), &[0.5, 1.0]), 1.15));
}

#[test]
fn neuron_without_weights_is_relu_of_bias() {
    assert_eq!(Neuron::new(Vec::<f32>::new(), 2.5).propagate(&ops(), &[]), 2.5);
    assert_eq!(Neuron::new(Vec::<f32>::new(), -2.5).propagate(&ops(), &[]), 0.0);
}

#[test]
fn empty_network_is_identity() {
    let network: Network<f32> = Network::new(vec![]);
    assert_eq!(network.propagate(&ops(), vec![1.0, 2.0, 3.0]), vec![1.0, 2.0, 3.0]);
    assert_eq!(network.propagate(&ops(), vec![]), Vec::<f32>::new());
}

#[test]
fn short_topology_gives_identity_network() {
    let (none, rng): (Network<f32>, StdRng) = Network::random(&uniform, seeded(7), &[]);
    assert!(none.layers().is_empty());
    let (one, _): (Network<f32>, StdRng) = Network::random(&uniform, rng, &topology(&[(3, 3)]));
    assert!(one.layers().is_empty());
    assert_eq!(one.propagate(&ops(), vec![-1.0, 0.5, 9.0]), vec![-1.0, 0.5, 9.0]);
}

#[test]
fn random_network_two_entries() {
    let (network, _) = Network::random(&uniform, seeded(42), &topology(&[(0, 4), (4, 3)]));
    let network: Network<f32> = network;
    assert_eq!(network.layers().len(), 1);
    let neurons = network.layers()[0].neurons();
    // the neuron count is the right entry's `input_neurons`
    assert_eq!(neurons.len(), 4);
    for neuron in neurons {
        assert_eq!(neuron.weights().len(), 4);
        assert!(neuron.weights().iter().all(|w| (-1.0..1.0).contains(w)));
        assert!((-1.0..1.0).contains(neuron.bias()));
    }
    assert!(network.accepts(4));
    let out = network.propagate(&ops(), vec![0.1, 0.2, 0.3, 0.4]);
    assert_eq!(out.len(), 4);
    assert!(out.iter().all(|v| *v >= 0.0));
}

#[test]
fn random_network_dimensions_follow_topology() {
    let top = topology(&[(9, 5), (2, 6), (6, 3), (3, 1)]);
    let (network, _) = Network::random(&uniform, seeded(1), &top);
    assert_eq!(network.layers().len(), top.len() - 1);
    for (i, layer) in network.layers().iter().enumerate() {
        assert_eq!(layer.neurons().len(), top[i + 1].input_neurons);
        for neuron in layer.neurons() {
            assert_eq!(neuron.weights().len(), top[i].output_neurons);
        }
    }
}

#[test]
fn random_is_reproducible_for_a_seed() {
    let top = topology(&[(3, 3), (4, 4), (2, 2)]);
    let (a, _) = Network::random(&uniform, seeded(1234), &top);
    let (b, _) = Network::random(&uniform, seeded(1234), &top);
    assert_eq!(a.layers().len(), b.layers().len());
    for (la, lb) in a.layers().iter().zip(b.layers()) {
        assert_eq!(la.neurons().len(), lb.neurons().len());
        for (na, nb) in la.neurons().iter().zip(lb.neurons()) {
            let wa: Vec<u32> = na.weights().iter().map(|w| w.to_bits()).collect();
            let wb: Vec<u32> = nb.weights().iter().map(|w| w.to_bits()).collect();
            assert_eq!(wa, wb);
            assert_eq!(na.bias().to_bits(), nb.bias().to_bits());
        }
    }
}

#[test]
fn draws_weights_then_bias_neuron_by_neuron_layer_by_layer() {
    let (network, next) = Network::random(&count, 0, &topology(&[(0, 2), (3, 3), (1, 0)]));
    let layers = network.layers();
    assert_eq!(layers.len(), 2);
    let first = layers[0].neurons();
    assert_eq!(first.len(), 3);
    assert_eq!(first[0].weights(), &[0.0, 1.0]);
    assert_eq!(*first[0].bias(), 2.0);
    assert_eq!(first[1].weights(), &[3.0, 4.0]);
    assert_eq!(*first[1].bias(), 5.0);
    assert_eq!(first[2].weights(), &[6.0, 7.0]);
    assert_eq!(*first[2].bias(), 8.0);
    let second = layers[1].neurons();
    assert_eq!(second.len(), 1);
    assert_eq!(second[0].weights(), &[9.0, 10.0, 11.0]);
    assert_eq!(*second[0].bias(), 12.0);
    assert_eq!(next, 13);
}

#[test]
fn neuron_random_draw_count() {
    let (neuron, next) = Neuron::random(&count, 0, 4);
    assert_eq!(neuron.weights(), &[0.0, 1.0, 2.0, 3.0]);
    assert_eq!(*neuron.bias(), 4.0);
    assert_eq!(next, 5);
}

#[test]
fn layer_random_shape() {
    let (layer, next) = Layer::random(&count, 0, 2, 5);
    assert_eq!(layer.neurons().len(), 5);
    assert!(layer.accepts(2));
    assert!(!layer.accepts(3));
    assert_eq!(next, 15);
}

#[test]
fn layer_fans_out_one_value_per_neuron() {
    let neurons = vec![
        Neuron::new(vec![1.0f32, 0.0], 0.0),
        Neuron::new(vec![0.0, 1.0], 0.0),
        Neuron::new(vec![-1.0, -1.0], 0.0),
        Neuron::new(vec![0.5, 0.5], 1.0),
    ];
    let inputs = vec![2.0, 3.0];
    let expected: Vec<f32> = neurons.iter().map(|n| n.propagate(&ops(), &inputs)).collect();
    let layer = Layer::new(neurons);
    let out = layer.propagate(&ops(), inputs);
    assert_eq!(out, expected);
    assert_eq!(out, vec![2.0, 3.0, 0.0, 3.5]);
}

#[test]
fn network_chains_layers() {
    let first = Layer::new(vec![
        Neuron::new(vec![1.0f32, 1.0], 0.0),
        Neuron::new(vec![1.0, -1.0], 0.0),
    ]);
    let second = Layer::new(vec![Neuron::new(vec![2.0f32, 3.0], -1.0)]);
    let network = Network::new(vec![first, second]);
    assert!(network.accepts(2));
    assert_eq!(network.propagate(&ops(), vec![3.0, 1.0]), vec![2.0 * 4.0 + 3.0 * 2.0 - 1.0]);
    assert_eq!(network.propagate(&ops(), vec![1.0, 3.0]), vec![7.0]);
}

#[test]
fn accepts_rejects_mismatched_sizes() {
    let first = Layer::new(vec![Neuron::new(vec![1.0f32, 1.0], 0.0)]);
    let second = Layer::new(vec![Neuron::new(vec![2.0f32, 3.0], 0.0)]);
    let network = Network::new(vec![first, second]);
    assert!(!network.accepts(2));
    assert!(!network.accepts(1));
    let ragged = Layer::new(vec![
        Neuron::new(vec![1.0f32], 0.0),
        Neuron::new(vec![1.0f32, 2.0], 0.0),
    ]);
    assert!(!ragged.accepts(1));
    assert!(!ragged.accepts(2));
    assert!(Network::new(vec![ragged]).accepts(3) == false);
    let empty: Network<f32> = Network::new(vec![]);
    assert!(empty.accepts(0));
    assert!(empty.accepts(17));
}
