//! A small feedforward neural network: neurons grouped into fully connected
//! layers, layers chained into a network, evaluated with a rectified-linear
//! activation.
//!
//! The library is generic over the scalar type. The operations on scalars are
//! supplied as an [`Arithmetic`] value, and random parameters by a draw
//! function that takes a generator state and returns a value and the next
//! state. What is proved here is stated relative to those: the value each
//! neuron, layer and network computes, which draw lands in which weight and
//! bias of a randomly built network, its shape, and which inputs it accepts.
use vstd::prelude::*;

pub mod topology;
pub mod scalar;
pub mod source;
pub mod neuron;
pub mod layer;
pub mod network;

pub use topology::LayerTopology;
pub use scalar::Arithmetic;
pub use neuron::Neuron;
pub use layer::Layer;
pub use network::Network;
