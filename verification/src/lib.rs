//! Resilience simulator for a feed-forward spiking neural network of
//! leaky integrate-and-fire neurons.
//!
//! The library models the network structurally: every neuron parameter and
//! every synaptic weight is held as the 64-bit pattern of its IEEE-754
//! double-precision value, so that single-bit fault injection (stuck-at-0,
//! stuck-at-1, transient bit-flip) can be stated and verified exactly at the
//! level of the stored words. The floating-point integration kernel that
//! turns those words into membrane potentials lives outside the verified
//! library and drives it through the functions exported here.

pub mod accuracy;
pub mod builder;
pub mod components;
pub mod fault_models;
pub mod float_bits;
pub mod layer;
pub mod lif;
pub mod simulation;
pub mod snn;
pub mod spike_event;
pub mod strings;
