use vstd::prelude::*;
use crate::neuron::Neuron;
use crate::scalar::Arithmetic;
use crate::source::{is_deterministic, lemma_state_after_add, state_after};

verus! {

/// A fully connected layer: every neuron sees the same input vector.
#[derive(Debug)]
pub struct Layer<T> {
    neurons: Vec<Neuron<T>>,
}

impl<T> Layer<T> {
    /// The neurons, in output order.
    pub closed spec fn neurons_seq(self) -> Seq<Neuron<T>> {
        self.neurons@
    }

    /// Number of outputs: one per neuron.
    pub open spec fn output_size(self) -> nat {
        self.neurons_seq().len()
    }

    /// Every neuron of the layer takes `n` inputs.
    pub open spec fn takes(self, n: nat) -> bool {
        forall|j: int| 0 <= j < self.neurons_seq().len() ==> #[trigger] self.neurons_seq()[j].input_size() == n
    }

    pub fn new(neurons: Vec<Neuron<T>>) -> (r: Layer<T>)
        ensures
            r.neurons_seq() == neurons@,
    {
        Layer { neurons }
    }

    /// Neuron `j` of the layer, with `n` inputs, is drawn from the state that
    /// `g` reaches after `j * (n + 1)` draws: each neuron's parameters are
    /// drawn in full, in neuron order.
    pub open spec fn drawn_from<G, D: Fn(G) -> (T, G)>(self, draw: D, g: G, n: nat) -> bool {
        forall|j: int|
            0 <= j < self.output_size() ==> #[trigger] self.neurons_seq()[j].drawn_from(
                draw,
                state_after(draw, g, (j * (n + 1)) as nat),
            )
    }

    /// Builds `output_size` neurons of `input_size` weights each, drawing
    /// neuron 0's parameters in full before neuron 1's, and so on, starting
    /// from generator state `state`; also returns the state after those draws.
    pub fn random<G, D: Fn(G) -> (T, G)>(draw: &D, state: G, input_size: usize, output_size: usize) -> (r: (
        Layer<T>,
        G,
    ))
        requires
            is_deterministic(*draw),
        ensures
            r.0.output_size() == output_size,
            r.0.takes(input_size as nat),
            r.0.drawn_from(*draw, state, input_size as nat),
            r.1 == state_after(*draw, state, (output_size * (input_size + 1)) as nat),
    {
        let ghost start = state;
        let ghost n = input_size as nat;
        let mut g = state;
        let mut neurons: Vec<Neuron<T>> = Vec::new();
        let mut i: usize = 0;
        while i < output_size
            invariant
                is_deterministic(*draw),
                n == input_size,
                i <= output_size,
                neurons@.len() == i,
                forall|j: int| 0 <= j < i ==> #[trigger] neurons@[j].input_size() == input_size,
                forall|j: int|
                    0 <= j < i ==> #[trigger] neurons@[j].drawn_from(
                        *draw,
                        state_after(*draw, start, (j * (n + 1)) as nat),
                    ),
                g == state_after(*draw, start, (i * (n + 1)) as nat),
            decreases output_size - i,
        {
            let (neuron, next) = Neuron::random(draw, g, input_size);
            proof {
                assert(0 <= i * (n + 1)) by (nonlinear_arith);
                assert((i + 1) * (n + 1) == i * (n + 1) + (n + 1)) by (nonlinear_arith);
                lemma_state_after_add(*draw, start, (i * (n + 1)) as nat, n + 1);
            }
            neurons.push(neuron);
            g = next;
            i = i + 1;
        }
        (Layer { neurons }, g)
    }

    pub fn neurons(&self) -> (r: &[Neuron<T>])
        ensures
            r@ == self.neurons_seq(),
    {
        self.neurons.as_slice()
    }

    /// Whether every neuron of the layer takes `n` inputs.
    pub fn accepts(&self, n: usize) -> (r: bool)
        ensures
            r == self.takes(n as nat),
    {
        let mut i: usize = 0;
        while i < self.neurons.len()
            invariant
                i <= self.neurons@.len(),
                forall|j: int| 0 <= j < i ==> #[trigger] self.neurons@[j].input_size() == n,
            decreases self.neurons@.len() - i,
        {
            if self.neurons[i].weights().len() != n {
                assert(self.neurons_seq()[i as int].input_size() != n);
                return false;
            }
            i = i + 1;
        }
        true
    }
}

impl<T: Copy> Layer<T> {
    /// One output per neuron, in neuron order: neuron `j`'s output on `inputs`.
    pub open spec fn outputs<S: Fn(T, T) -> T, P: Fn(T, T) -> T, L: Fn(T, T) -> bool>(
        self,
        ops: Arithmetic<T, S, P, L>,
        inputs: Seq<T>,
    ) -> Seq<T> {
        Seq::new(self.output_size(), |j: int| self.neurons_seq()[j].output(ops, inputs))
    }

    /// Applies every neuron to `inputs`: one output per neuron, in neuron order.
    pub fn propagate<S: Fn(T, T) -> T, P: Fn(T, T) -> T, L: Fn(T, T) -> bool>(
        &self,
        ops: &Arithmetic<T, S, P, L>,
        inputs: Vec<T>,
    ) -> (r: Vec<T>)
        requires
            ops.is_functional(),
            self.takes(inputs@.len()),
        ensures
            r@ == self.outputs(*ops, inputs@),
    {
        let mut outputs: Vec<T> = Vec::new();
        let mut i: usize = 0;
        while i < self.neurons.len()
            invariant
                ops.is_functional(),
                i <= self.neurons@.len(),
                outputs@.len() == i,
                self.takes(inputs@.len()),
                forall|j: int| 0 <= j < i ==> #[trigger] outputs@[j] == self.neurons@[j].output(*ops, inputs@),
            decreases self.neurons@.len() - i,
        {
            assert(self.neurons_seq()[i as int].input_size() == inputs@.len());
            let out = self.neurons[i].propagate(ops, inputs.as_slice());
            outputs.push(out);
            i = i + 1;
        }
        assert(outputs@ =~= self.outputs(*ops, inputs@));
        outputs
    }
}

/// Fan-out: a layer of `K` neurons turns an input it takes into exactly `K`
/// values, value `j` being neuron `j`'s output on that same input.
pub proof fn lemma_layer_fan_out<T: Copy, S: Fn(T, T) -> T, P: Fn(T, T) -> T, L: Fn(T, T) -> bool>(
    layer: Layer<T>,
    ops: Arithmetic<T, S, P, L>,
    inputs: Seq<T>,
)
    requires
        layer.takes(inputs.len()),
    ensures
        layer.outputs(ops, inputs).len() == layer.neurons_seq().len(),
        forall|j: int|
            0 <= j < layer.neurons_seq().len() ==> #[trigger] layer.outputs(ops, inputs)[j]
                == layer.neurons_seq()[j].output(ops, inputs),
{
}

} // verus!
