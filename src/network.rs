use vstd::prelude::*;
use crate::layer::Layer;
use crate::scalar::Arithmetic;
use crate::source::{is_deterministic, lemma_state_after_add, state_after};
use crate::topology::{LayerTopology, draws_before, layer_count, layer_input, layer_output};

verus! {

/// A chain of layers, each one's output feeding the next one's input.
#[derive(Debug)]
pub struct Network<T> {
    layers: Vec<Layer<T>>,
}

impl<T> Network<T> {
    /// The layers, in evaluation order.
    pub closed spec fn layers_seq(self) -> Seq<Layer<T>> {
        self.layers@
    }

    /// The size of the vector that reaches layer `i` when the network is fed a
    /// vector of size `n`.
    pub open spec fn size_before(self, i: int, n: nat) -> nat {
        if i == 0 {
            n
        } else {
            self.layers_seq()[i - 1].output_size()
        }
    }

    /// The size of the network's output for an input of size `n`.
    pub open spec fn output_size(self, n: nat) -> nat {
        self.size_before(self.layers_seq().len() as int, n)
    }

    /// Every layer takes exactly the size of vector that reaches it from an
    /// input of size `n`.
    pub open spec fn fits(self, n: nat) -> bool {
        forall|i: int|
            0 <= i < self.layers_seq().len() ==> #[trigger] self.layers_seq()[i].takes(
                self.size_before(i, n),
            )
    }

    pub fn new(layers: Vec<Layer<T>>) -> (r: Network<T>)
        ensures
            r.layers_seq() == layers@,
    {
        Network { layers }
    }

    /// The layers are those that `topology` describes: one per pair of
    /// adjacent entries, the left entry's `output_neurons` being the layer's
    /// input size and the right entry's `input_neurons` its neuron count.
    pub open spec fn has_shape(self, topology: Seq<LayerTopology>) -> bool {
        &&& self.layers_seq().len() == layer_count(topology)
        &&& forall|i: int|
            0 <= i < self.layers_seq().len() ==> {
                &&& (#[trigger] self.layers_seq()[i]).output_size() == layer_output(topology, i)
                &&& self.layers_seq()[i].takes(layer_input(topology, i))
            }
    }

    /// Layer `i` is drawn from the state that `g` reaches after
    /// `draws_before(topology, i)` draws: each layer is drawn in full, in layer
    /// order.
    pub open spec fn drawn_from<G, D: Fn(G) -> (T, G)>(self, draw: D, g: G, topology: Seq<LayerTopology>) -> bool {
        forall|i: int|
            0 <= i < self.layers_seq().len() ==> #[trigger] self.layers_seq()[i].drawn_from(
                draw,
                state_after(draw, g, draws_before(topology, i)),
                layer_input(topology, i),
            )
    }

    /// Builds one layer per pair of adjacent topology entries (see
    /// `has_shape`), drawing layer 0 in full before layer 1, and so on,
    /// starting from generator state `state`; also returns the state after
    /// those draws. Fewer than two entries give a network without layers.
    pub fn random<G, D: Fn(G) -> (T, G)>(draw: &D, state: G, layers: &[LayerTopology]) -> (r: (
        Network<T>,
        G,
    ))
        requires
            is_deterministic(*draw),
        ensures
            r.0.has_shape(layers@),
            r.0.drawn_from(*draw, state, layers@),
            r.1 == state_after(*draw, state, draws_before(layers@, layer_count(layers@) as int)),
    {
        let ghost start = state;
        let mut g = state;
        let mut built: Vec<Layer<T>> = Vec::new();
        if layers.len() < 2 {
            return (Network { layers: built }, g);
        }
        let mut i: usize = 0;
        while i < layers.len() - 1
            invariant
                is_deterministic(*draw),
                layers@.len() >= 2,
                i < layers@.len(),
                built@.len() == i,
                forall|j: int|
                    0 <= j < i ==> {
                        &&& (#[trigger] built@[j]).output_size() == layer_output(layers@, j)
                        &&& built@[j].takes(layer_input(layers@, j))
                        &&& built@[j].drawn_from(
                            *draw,
                            state_after(*draw, start, draws_before(layers@, j)),
                            layer_input(layers@, j),
                        )
                    },
                g == state_after(*draw, start, draws_before(layers@, i as int)),
            decreases layers@.len() - i,
        {
            let (layer, next) = Layer::random(draw, g, layers[i].output_neurons, layers[i + 1].input_neurons);
            proof {
                lemma_state_after_add(
                    *draw,
                    start,
                    draws_before(layers@, i as int),
                    layer_output(layers@, i as int) * (layer_input(layers@, i as int) + 1),
                );
            }
            built.push(layer);
            g = next;
            i = i + 1;
        }
        (Network { layers: built }, g)
    }

    pub fn layers(&self) -> (r: &[Layer<T>])
        ensures
            r@ == self.layers_seq(),
    {
        self.layers.as_slice()
    }

    /// Whether the network can be fed a vector of size `n`.
    pub fn accepts(&self, n: usize) -> (r: bool)
        ensures
            r == self.fits(n as nat),
    {
        let mut size: usize = n;
        let mut i: usize = 0;
        while i < self.layers.len()
            invariant
                i <= self.layers@.len(),
                size == self.size_before(i as int, n as nat),
                forall|j: int|
                    0 <= j < i ==> #[trigger] self.layers@[j].takes(self.size_before(j, n as nat)),
            decreases self.layers@.len() - i,
        {
            if !self.layers[i].accepts(size) {
                return false;
            }
            size = self.layers[i].neurons().len();
            i = i + 1;
        }
        true
    }
}

/// The vector that comes out of the first `k` of `layers` when `inputs` is fed
/// to the first of them.
pub open spec fn run_layers<T: Copy, S: Fn(T, T) -> T, P: Fn(T, T) -> T, L: Fn(T, T) -> bool>(
    layers: Seq<Layer<T>>,
    ops: Arithmetic<T, S, P, L>,
    inputs: Seq<T>,
    k: nat,
) -> Seq<T>
    decreases k,
{
    if k == 0 {
        inputs
    } else {
        layers[k - 1].outputs(ops, run_layers(layers, ops, inputs, (k - 1) as nat))
    }
}

impl<T: Copy> Network<T> {
    /// The network's output for `inputs`: each layer's output is the next
    /// layer's input.
    pub open spec fn outputs<S: Fn(T, T) -> T, P: Fn(T, T) -> T, L: Fn(T, T) -> bool>(
        self,
        ops: Arithmetic<T, S, P, L>,
        inputs: Seq<T>,
    ) -> Seq<T> {
        run_layers(self.layers_seq(), ops, inputs, self.layers_seq().len())
    }

    /// Runs `inputs` through every layer in turn and returns the last layer's
    /// output; without layers, returns `inputs` unchanged.
    pub fn propagate<S: Fn(T, T) -> T, P: Fn(T, T) -> T, L: Fn(T, T) -> bool>(
        &self,
        ops: &Arithmetic<T, S, P, L>,
        inputs: Vec<T>,
    ) -> (r: Vec<T>)
        requires
            ops.is_functional(),
            self.fits(inputs@.len()),
        ensures
            r@ == self.outputs(*ops, inputs@),
            r@.len() == self.output_size(inputs@.len()),
            self.layers_seq().len() == 0 ==> r@ == inputs@,
    {
        let ghost n = inputs@.len();
        let ghost original = inputs@;
        let mut current = inputs;
        let mut i: usize = 0;
        while i < self.layers.len()
            invariant
                ops.is_functional(),
                i <= self.layers@.len(),
                self.fits(n),
                current@ == run_layers(self.layers@, *ops, original, i as nat),
                current@.len() == self.size_before(i as int, n),
            decreases self.layers@.len() - i,
        {
            assert(self.layers_seq()[i as int].takes(self.size_before(i as int, n)));
            current = self.layers[i].propagate(ops, current);
            i = i + 1;
        }
        current
    }
}

/// A network without layers hands back its input unchanged, whatever the
/// input; this is the network that `new` gives for no layers and `random` for a
/// topology of fewer than two entries.
pub proof fn lemma_empty_network_identity<T: Copy, S: Fn(T, T) -> T, P: Fn(T, T) -> T, L: Fn(T, T) -> bool>(
    network: Network<T>,
    ops: Arithmetic<T, S, P, L>,
    inputs: Seq<T>,
)
    requires
        network.layers_seq().len() == 0,
    ensures
        network.fits(inputs.len()),
        network.outputs(ops, inputs) == inputs,
        network.output_size(inputs.len()) == inputs.len(),
{
}

/// Reproducibility: two networks built at random from the same topology, with
/// the same deterministic draw function and the same starting state, have the
/// same layers and neurons and hold the same weights and biases at every
/// position.
pub proof fn lemma_random_reproducible<T, G, D: Fn(G) -> (T, G)>(
    a: Network<T>,
    b: Network<T>,
    topology: Seq<LayerTopology>,
    draw: D,
    state: G,
)
    requires
        a.has_shape(topology),
        b.has_shape(topology),
        a.drawn_from(draw, state, topology),
        b.drawn_from(draw, state, topology),
    ensures
        a.layers_seq().len() == b.layers_seq().len(),
        forall|i: int|
            0 <= i < a.layers_seq().len() ==> (#[trigger] a.layers_seq()[i]).output_size()
                == b.layers_seq()[i].output_size(),
        forall|i: int, j: int|
            0 <= i < a.layers_seq().len() && 0 <= j < a.layers_seq()[i].output_size() ==> {
                &&& (#[trigger] a.layers_seq()[i].neurons_seq()[j]).weights_seq()
                    == b.layers_seq()[i].neurons_seq()[j].weights_seq()
                &&& a.layers_seq()[i].neurons_seq()[j].bias_val()
                    == b.layers_seq()[i].neurons_seq()[j].bias_val()
            },
{
    assert forall|i: int, j: int|
        0 <= i < a.layers_seq().len() && 0 <= j < a.layers_seq()[i].output_size() implies {
            &&& (#[trigger] a.layers_seq()[i].neurons_seq()[j]).weights_seq()
                == b.layers_seq()[i].neurons_seq()[j].weights_seq()
            &&& a.layers_seq()[i].neurons_seq()[j].bias_val()
                == b.layers_seq()[i].neurons_seq()[j].bias_val()
        } by {
        let n = layer_input(topology, i);
        let na = a.layers_seq()[i].neurons_seq()[j];
        let nb = b.layers_seq()[i].neurons_seq()[j];
        let g = state_after(draw, state_after(draw, state, draws_before(topology, i)), (j * (n + 1)) as nat);
        assert(a.layers_seq()[i].drawn_from(draw, state_after(draw, state, draws_before(topology, i)), n));
        assert(b.layers_seq()[i].drawn_from(draw, state_after(draw, state, draws_before(topology, i)), n));
        assert(na.drawn_from(draw, g));
        assert(nb.drawn_from(draw, g));
        assert(na.input_size() == n);
        assert(nb.input_size() == n);
        assert(na.weights_seq() =~= nb.weights_seq());
    }
}

} // verus!
