//! Fault descriptors and their bit-exact application to 64-bit words and to
//! one-bit spike decisions.
//!
//! A stored parameter or weight is kept as the 64-bit pattern of its
//! double-precision value, so a fault on such a component is an operation on
//! a `u64`: stuck-at forces one bit, a transient flip inverts one bit at a
//! single time step. A fault on a threshold comparator acts on the one-bit
//! spike decision itself.

use vstd::prelude::*;

use crate::components::{ComponentCategory, ComponentType};

verus! {

/// How the targeted bit misbehaves.
#[derive(Debug, Clone, Copy, PartialEq, Eq, Structural)]
pub enum FaultType {
    StuckAt0,
    StuckAt1,
    TransientBitFlip,
}

impl FaultType {
    pub fn all() -> (r: [FaultType; 3])
        ensures
            r@ == seq![FaultType::StuckAt0, FaultType::StuckAt1, FaultType::TransientBitFlip],
    {
        let r = [FaultType::StuckAt0, FaultType::StuckAt1, FaultType::TransientBitFlip];
        proof {
            assert(r@ =~= seq![
                FaultType::StuckAt0,
                FaultType::StuckAt1,
                FaultType::TransientBitFlip,
            ]);
        }
        r
    }
}

/// One fault occurrence: what goes wrong, when, and in which component.
#[derive(Debug, Clone, Copy)]
pub struct InjectedFault {
    /// Kind of misbehaviour of the targeted bit.
    pub fault_type: FaultType,
    /// Time step at which a transient bit-flip strikes; present exactly for
    /// transient faults.
    pub time_step: Option<u64>,
    /// Index of the layer that owns the targeted component.
    pub layer_index: usize,
    /// Category of the targeted component; determined by `component_type`.
    pub component_category: ComponentCategory,
    /// Kind of the targeted component.
    pub component_type: ComponentType,
    /// Index of the component within its layer and kind: a flattened
    /// row-major weight index for connections, a neuron index otherwise.
    pub component_index: usize,
    /// Targeted bit of the 64-bit word; absent exactly for the one-bit
    /// threshold comparator.
    pub bit_index: Option<usize>,
}

/// `word` with bit `bit` forced to 0.
pub open spec fn spec_stuck_at_0(word: u64, bit: usize) -> u64 {
    word & !(1u64 << bit)
}

/// `word` with bit `bit` forced to 1.
pub open spec fn spec_stuck_at_1(word: u64, bit: usize) -> u64 {
    word | (1u64 << bit)
}

/// `word` with bit `bit` inverted.
pub open spec fn spec_bit_flip(word: u64, bit: usize) -> u64 {
    word ^ (1u64 << bit)
}

impl InjectedFault {
    /// Internal consistency of a descriptor: the category matches the
    /// component kind, a time step is present exactly for transient faults,
    /// and a bit index below 64 is present exactly for components that are
    /// wider than one bit.
    pub open spec fn wf(self) -> bool {
        &&& self.component_category == self.component_type.spec_category()
        &&& (self.fault_type == FaultType::TransientBitFlip <==> self.time_step is Some)
        &&& (self.component_type == ComponentType::ThresholdComparator <==> self.bit_index is None)
        &&& (self.bit_index is Some ==> self.bit_index->0 < 64)
    }

    pub fn new(
        fault_type: FaultType,
        time_step: Option<u64>,
        layer_index: usize,
        component_type: ComponentType,
        component_category: ComponentCategory,
        component_index: usize,
        bit_index: Option<usize>,
    ) -> (r: Self)
        requires
            component_category == component_type.spec_category(),
            fault_type == FaultType::TransientBitFlip <==> time_step is Some,
            component_type == ComponentType::ThresholdComparator <==> bit_index is None,
            bit_index is Some ==> bit_index->0 < 64,
        ensures
            r == (InjectedFault {
                fault_type,
                time_step,
                layer_index,
                component_category,
                component_type,
                component_index,
                bit_index,
            }),
            r.wf(),
    {
        InjectedFault {
            fault_type,
            time_step,
            layer_index,
            component_category,
            component_type,
            component_index,
            bit_index,
        }
    }

    pub fn stuck_at_0(var: u64, bit_index: usize) -> (r: u64)
        requires
            bit_index < 64,
        ensures
            r == spec_stuck_at_0(var, bit_index),
    {
        var & !(1u64 << bit_index)
    }

    pub fn stuck_at_1(var: u64, bit_index: usize) -> (r: u64)
        requires
            bit_index < 64,
        ensures
            r == spec_stuck_at_1(var, bit_index),
    {
        var | (1u64 << bit_index)
    }

    pub fn bit_flip(var: u64, bit_index: usize) -> (r: u64)
        requires
            bit_index < 64,
        ensures
            r == spec_bit_flip(var, bit_index),
    {
        var ^ (1u64 << bit_index)
    }

    /// Value of a 64-bit word read at time `timestamp` while this fault is
    /// active: stuck-at faults force the bit on every access, a transient
    /// flip inverts it only at its own time step.
    pub open spec fn spec_apply_to_word(self, var: u64, timestamp: u64) -> u64 {
        if self.fault_type == FaultType::StuckAt0 {
            spec_stuck_at_0(var, self.bit_index->0)
        } else if self.fault_type == FaultType::StuckAt1 {
            spec_stuck_at_1(var, self.bit_index->0)
        } else if self.time_step->0 == timestamp {
            spec_bit_flip(var, self.bit_index->0)
        } else {
            var
        }
    }

    pub fn apply_fault_to_word(&self, var: u64, timestamp: u64) -> (r: u64)
        requires
            self.bit_index is Some,
            self.bit_index->0 < 64,
            self.fault_type == FaultType::TransientBitFlip ==> self.time_step is Some,
        ensures
            r == self.spec_apply_to_word(var, timestamp),
    {
        match self.fault_type {
            FaultType::StuckAt0 => Self::stuck_at_0(var, self.bit_index.unwrap()),
            FaultType::StuckAt1 => Self::stuck_at_1(var, self.bit_index.unwrap()),
            FaultType::TransientBitFlip => {
                if self.time_step.unwrap() == timestamp {
                    Self::bit_flip(var, self.bit_index.unwrap())
                } else {
                    var
                }
            },
        }
    }

    /// Value of a one-bit spike decision taken at time `timestamp` while
    /// this fault is active: stuck-at-0 suppresses the spike, stuck-at-1
    /// forces it, a transient flip inverts it at its own time step.
    pub open spec fn spec_apply_to_spike(self, spike: u8, timestamp: u64) -> u8 {
        if self.fault_type == FaultType::StuckAt0 {
            0u8
        } else if self.fault_type == FaultType::StuckAt1 {
            1u8
        } else if self.time_step->0 == timestamp {
            (1 - spike) as u8
        } else {
            spike
        }
    }

    pub fn apply_fault_to_spike(&self, spike_value: u8, timestamp: u64) -> (r: u8)
        requires
            spike_value <= 1,
            self.fault_type == FaultType::TransientBitFlip ==> self.time_step is Some,
        ensures
            r == self.spec_apply_to_spike(spike_value, timestamp),
            r <= 1,
    {
        match self.fault_type {
            FaultType::StuckAt0 => 0,
            FaultType::StuckAt1 => 1,
            FaultType::TransientBitFlip => {
                if self.time_step.unwrap() == timestamp {
                    1 - spike_value
                } else {
                    spike_value
                }
            },
        }
    }
}

/// Round trips of the bit operators: forcing a bit to 1 and then to 0 leaves
/// the word with that bit cleared, exactly as forcing it to 0 alone would;
/// flipping a bit twice restores the word it started from.
pub proof fn lemma_bit_fault_round_trip(word: u64, bit: usize)
    requires
        bit < 64,
    ensures
        spec_stuck_at_0(spec_stuck_at_1(word, bit), bit) == spec_stuck_at_0(word, bit),
        spec_bit_flip(spec_bit_flip(word, bit), bit) == word,
{
    assert((word | (1u64 << bit)) & !(1u64 << bit) == word & !(1u64 << bit)) by (bit_vector);
    assert((word ^ (1u64 << bit)) ^ (1u64 << bit) == word) by (bit_vector);
}

/// A stuck-at fault whose forced value the bit already holds does not change
/// the word: stuck-at-0 on a clear bit and stuck-at-1 on a set bit are
/// no-ops. This is what lets the campaign return the baseline accuracy
/// without re-running inference.
pub proof fn lemma_stuck_at_unchanged(word: u64, bit: usize)
    requires
        bit < 64,
    ensures
        word & (1u64 << bit) == 0 ==> spec_stuck_at_0(word, bit) == word,
        word & (1u64 << bit) != 0 ==> spec_stuck_at_1(word, bit) == word,
{
    assert(word & (1u64 << bit) == 0 ==> word & !(1u64 << bit) == word) by (bit_vector);
    assert(word & (1u64 << bit) != 0 ==> word | (1u64 << bit) == word) by (bit_vector);
}

/// A stuck-at fault on a threshold comparator decides the spike outright,
/// whatever the comparison said: stuck-at-0 yields no spike at any time
/// step, stuck-at-1 yields a spike at every time step.
pub proof fn lemma_comparator_stuck_at_decides(fault: InjectedFault, spike: u8, timestamp: u64)
    ensures
        fault.fault_type == FaultType::StuckAt0 ==> fault.spec_apply_to_spike(
            spike,
            timestamp,
        ) == 0,
        fault.fault_type == FaultType::StuckAt1 ==> fault.spec_apply_to_spike(
            spike,
            timestamp,
        ) == 1,
{
}

} // verus!
