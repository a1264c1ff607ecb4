use vstd::prelude::*;
use crate::scalar::Arithmetic;
use crate::source::{draw_one, is_deterministic, state_after, value_at};

verus! {

/// One neuron: a weight per input and a bias.
#[derive(Debug)]
pub struct Neuron<T> {
    weights: Vec<T>,
    bias: T,
}

impl<T> Neuron<T> {
    /// The weights, one per input, in input order.
    pub closed spec fn weights_seq(self) -> Seq<T> {
        self.weights@
    }

    /// The bias.
    pub closed spec fn bias_val(self) -> T {
        self.bias
    }

    /// Number of inputs the neuron takes.
    pub open spec fn input_size(self) -> nat {
        self.weights_seq().len()
    }

    pub fn new(weights: Vec<T>, bias: T) -> (r: Neuron<T>)
        ensures
            r.weights_seq() == weights@,
            r.bias_val() == bias,
    {
        Neuron { weights, bias }
    }

    /// The neuron's parameters are the draws from state `g`: first the
    /// weights, in input order, then the bias.
    pub open spec fn drawn_from<G, D: Fn(G) -> (T, G)>(self, draw: D, g: G) -> bool {
        &&& forall|k: int|
            0 <= k < self.input_size() ==> #[trigger] self.weights_seq()[k] == value_at(draw, g, k as nat)
        &&& self.bias_val() == value_at(draw, g, self.input_size())
    }

    /// Draws `input_size` weights, in input order, and then the bias, starting
    /// from generator state `state`; also returns the generator's state after
    /// those `input_size + 1` draws.
    pub fn random<G, D: Fn(G) -> (T, G)>(draw: &D, state: G, input_size: usize) -> (r: (Neuron<T>, G))
        requires
            is_deterministic(*draw),
        ensures
            r.0.input_size() == input_size,
            r.0.drawn_from(*draw, state),
            r.1 == state_after(*draw, state, (input_size + 1) as nat),
    {
        let ghost start = state;
        let mut g = state;
        let mut weights: Vec<T> = Vec::new();
        let mut i: usize = 0;
        while i < input_size
            invariant
                is_deterministic(*draw),
                i <= input_size,
                weights@.len() == i,
                forall|j: int| 0 <= j < i ==> #[trigger] weights@[j] == value_at(*draw, start, j as nat),
                g == state_after(*draw, start, i as nat),
            decreases input_size - i,
        {
            let (w, next) = draw_one(draw, g);
            weights.push(w);
            g = next;
            i = i + 1;
        }
        let (bias, next) = draw_one(draw, g);
        (Neuron { weights, bias }, next)
    }

    pub fn weights(&self) -> (r: &[T])
        ensures
            r@ == self.weights_seq(),
    {
        self.weights.as_slice()
    }

    pub fn bias(&self) -> (r: &T)
        ensures
            *r == self.bias_val(),
    {
        &self.bias
    }
}

impl<T: Copy> Neuron<T> {
    /// The activation for `inputs`: the bias plus the dot product of inputs
    /// and weights, or zero where that is negative.
    pub open spec fn output<S: Fn(T, T) -> T, P: Fn(T, T) -> T, L: Fn(T, T) -> bool>(
        self,
        ops: Arithmetic<T, S, P, L>,
        inputs: Seq<T>,
    ) -> T {
        let activation = ops.add(self.bias_val(), ops.dot(inputs, self.weights_seq(), inputs.len()));
        if ops.lt(activation, ops.zero) {
            ops.zero
        } else {
            activation
        }
    }

    /// The activation for `inputs`: the dot product of inputs and weights, plus
    /// the bias, clamped below at zero.
    ///
    /// The input must have exactly one value per weight.
    pub fn propagate<S: Fn(T, T) -> T, P: Fn(T, T) -> T, L: Fn(T, T) -> bool>(
        &self,
        ops: &Arithmetic<T, S, P, L>,
        inputs: &[T],
    ) -> (r: T)
        requires
            ops.is_functional(),
            inputs@.len() == self.input_size(),
        ensures
            r == self.output(*ops, inputs@),
    {
        let mut output = ops.zero;
        let mut i: usize = 0;
        while i < inputs.len()
            invariant
                ops.is_functional(),
                i <= inputs@.len(),
                inputs@.len() == self.weights@.len(),
                output == ops.dot(inputs@, self.weights@, i as nat),
            decreases inputs@.len() - i,
        {
            let term = ops.call_product(inputs[i], self.weights[i]);
            output = ops.call_sum(output, term);
            i = i + 1;
        }
        let activation = ops.call_sum(self.bias, output);
        if ops.call_less(activation, ops.zero) {
            ops.zero
        } else {
            activation
        }
    }
}

/// Rectified-linear clamping: where the bias plus the dot product of inputs
/// and weights is negative, a neuron's output is exactly zero; otherwise it is
/// exactly that sum.
pub proof fn lemma_relu_clamping<T: Copy, S: Fn(T, T) -> T, P: Fn(T, T) -> T, L: Fn(T, T) -> bool>(
    neuron: Neuron<T>,
    ops: Arithmetic<T, S, P, L>,
    inputs: Seq<T>,
)
    requires
        inputs.len() == neuron.input_size(),
    ensures
        ({
            let activation = ops.add(neuron.bias_val(), ops.dot(inputs, neuron.weights_seq(), inputs.len()));
            &&& ops.lt(activation, ops.zero) ==> neuron.output(ops, inputs) == ops.zero
            &&& !ops.lt(activation, ops.zero) ==> neuron.output(ops, inputs) == activation
        }),
{
}

} // verus!
