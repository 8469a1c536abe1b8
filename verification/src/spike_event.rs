//! The immutable `(time step, dense spike vector)` pair that travels between
//! layers.

use vstd::prelude::*;

verus! {

/// Every entry of a spike vector is 0 or 1.
pub open spec fn spikes_are_binary(spikes: Seq<u8>) -> bool {
    forall|i: int| 0 <= i < spikes.len() ==> spikes[i] <= 1
}

/// Dense binary spike vector emitted at one time instant. The vector holds
/// one entry per neuron of the emitting layer, each 0 or 1, and is never
/// changed after it is created.
#[derive(Debug)]
pub struct SpikeEvent {
    pub t: u64,
    pub spikes: Vec<u8>,
}

impl SpikeEvent {
    /// A well-formed event carries only binary spike values.
    pub open spec fn wf(self) -> bool {
        spikes_are_binary(self.spikes@)
    }

    pub fn new(t: u64, spikes: Vec<u8>) -> (r: Self)
        requires
            spikes_are_binary(spikes@),
        ensures
            r.t == t,
            r.spikes@ == spikes@,
            r.wf(),
    {
        SpikeEvent { t, spikes }
    }

    pub fn get_t(&self) -> (r: u64)
        ensures
            r == self.t,
    {
        self.t
    }

    pub fn get_spikes(&self) -> (r: &Vec<u8>)
        ensures
            r@ == self.spikes@,
    {
        &self.spikes
    }

    /// Whether at least one entry of the spike vector is 1. All-zero events
    /// are suppressed between layers, so this decides whether the event is
    /// forwarded.
    pub fn has_spike(&self) -> (r: bool)
        ensures
            r == exists|i: int| 0 <= i < self.spikes@.len() && self.spikes@[i] == 1,
    {
        let mut k: usize = 0;
        while k < self.spikes.len()
            invariant
                k <= self.spikes.len(),
                forall|i: int| 0 <= i < k ==> self.spikes@[i] != 1,
            decreases self.spikes.len() - k,
        {
            if self.spikes[k] == 1 {
                return true;
            }
            k += 1;
        }
        false
    }
}

} // verus!
