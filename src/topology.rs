use vstd::prelude::*;

verus! {

/// Describes one boundary of a network when it is built at random: how many
/// neurons feed into it and how many come out of it.
#[derive(Debug, Clone, Copy, PartialEq, Eq, Structural)]
pub struct LayerTopology {
    pub input_neurons: usize,
    pub output_neurons: usize,
}

/// Number of layers built from a topology: one per pair of adjacent entries.
pub open spec fn layer_count(topology: Seq<LayerTopology>) -> nat {
    if topology.len() < 2 {
        0
    } else {
        (topology.len() - 1) as nat
    }
}

/// Input size of the layer built from entries `i` and `i + 1`.
pub open spec fn layer_input(topology: Seq<LayerTopology>, i: int) -> nat {
    topology[i].output_neurons as nat
}

/// Output size (neuron count) of the layer built from entries `i` and `i + 1`.
pub open spec fn layer_output(topology: Seq<LayerTopology>, i: int) -> nat {
    topology[i + 1].input_neurons as nat
}

/// Number of values drawn to build the first `i` layers of `topology`: for
/// every neuron, its weights and then its bias.
pub open spec fn draws_before(topology: Seq<LayerTopology>, i: int) -> nat
    decreases i,
{
    if i <= 0 {
        0
    } else {
        draws_before(topology, i - 1) + layer_output(topology, i - 1) * (layer_input(topology, i - 1)
            + 1)
    }
}

} // verus!
