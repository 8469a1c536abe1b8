//! Leaky integrate-and-fire neuron state.
//!
//! Every double-precision parameter is stored as its 64-bit IEEE-754 bit
//! pattern, so that single-bit faults act on exactly the word that the
//! neuron reads. The floating-point integration itself is performed by the
//! caller: this module hands out the (possibly faulted) words, and commits
//! the computed membrane potential and the spike decision back, applying
//! the faults that strike those writes.

use vstd::prelude::*;

use crate::components::{ComponentCategory, ComponentType};
use crate::fault_models::{FaultType, InjectedFault};

verus! {

/// One leaky integrate-and-fire neuron. All fields but `ts` hold the 64-bit
/// pattern of a double-precision value; `ts` is the last time step at which
/// the neuron was updated.
#[derive(Debug, Clone, Copy, PartialEq, Eq, Structural)]
pub struct Lif {
    pub reset_potential: u64,
    pub resting_potential: u64,
    pub threshold: u64,
    pub membrane_potential: u64,
    pub tau: u64,
    pub ts: u64,
    pub dt: u64,
}

/// The memory-area kinds whose stored word a fault can be written into:
/// every per-neuron parameter except the time-step counter.
pub open spec fn is_stored_parameter_kind(kind: ComponentType) -> bool {
    match kind {
        ComponentType::ResetPotential
        | ComponentType::RestingPotential
        | ComponentType::Threshold
        | ComponentType::MembranePotential
        | ComponentType::Tau
        | ComponentType::DT => true,
        _ => false,
    }
}

impl Lif {
    /// Stored 64-bit word of one memory area of the neuron.
    pub open spec fn spec_memory_area(self, kind: ComponentType) -> u64 {
        match kind {
            ComponentType::ResetPotential => self.reset_potential,
            ComponentType::RestingPotential => self.resting_potential,
            ComponentType::Threshold => self.threshold,
            ComponentType::MembranePotential => self.membrane_potential,
            ComponentType::Tau => self.tau,
            ComponentType::Ts => self.ts,
            ComponentType::DT => self.dt,
            _ => 0,
        }
    }

    /// The neuron with the stored word of one memory area replaced.
    pub open spec fn spec_with_memory_area(self, kind: ComponentType, value: u64) -> Lif {
        match kind {
            ComponentType::ResetPotential => Lif { reset_potential: value, ..self },
            ComponentType::RestingPotential => Lif { resting_potential: value, ..self },
            ComponentType::Threshold => Lif { threshold: value, ..self },
            ComponentType::MembranePotential => Lif { membrane_potential: value, ..self },
            ComponentType::Tau => Lif { tau: value, ..self },
            ComponentType::Ts => Lif { ts: value, ..self },
            ComponentType::DT => Lif { dt: value, ..self },
            _ => self,
        }
    }

    /// Word of one memory area as the neuron reads it at time `time` while
    /// `fault` is active: a memory-area fault on the same kind perturbs the
    /// stored word, anything else leaves it as stored.
    pub open spec fn spec_faulted_memory_area(
        self,
        kind: ComponentType,
        fault: Option<InjectedFault>,
        time: u64,
    ) -> u64 {
        let stored = self.spec_memory_area(kind);
        match fault {
            Some(f) => {
                if f.component_category == ComponentCategory::MemoryArea && f.component_type
                    == kind {
                    f.spec_apply_to_word(stored, time)
                } else {
                    stored
                }
            },
            None => stored,
        }
    }

    pub fn new(
        reset_potential: u64,
        resting_potential: u64,
        threshold: u64,
        tau: u64,
        dt: u64,
    ) -> (r: Self)
        ensures
            r == (Lif {
                reset_potential,
                resting_potential,
                threshold,
                membrane_potential: resting_potential,
                tau,
                ts: 0u64,
                dt,
            }),
    {
        Lif {
            reset_potential,
            resting_potential,
            threshold,
            membrane_potential: resting_potential,
            tau,
            ts: 0,
            dt,
        }
    }

    pub fn get_v_reset(&self) -> (r: u64)
        ensures
            r == self.reset_potential,
    {
        self.reset_potential
    }

    pub fn get_v_rest(&self) -> (r: u64)
        ensures
            r == self.resting_potential,
    {
        self.resting_potential
    }

    pub fn get_v_th(&self) -> (r: u64)
        ensures
            r == self.threshold,
    {
        self.threshold
    }

    pub fn get_v_mem(&self) -> (r: u64)
        ensures
            r == self.membrane_potential,
    {
        self.membrane_potential
    }

    pub fn get_tau(&self) -> (r: u64)
        ensures
            r == self.tau,
    {
        self.tau
    }

    pub fn get_ts(&self) -> (r: u64)
        ensures
            r == self.ts,
    {
        self.ts
    }

    pub fn set_v_reset(&mut self, new_v_reset: u64)
        ensures
            *final(self) == (Lif { reset_potential: new_v_reset, ..*old(self) }),
    {
        self.reset_potential = new_v_reset;
    }

    pub fn set_v_rest(&mut self, new_v_rest: u64)
        ensures
            *final(self) == (Lif { resting_potential: new_v_rest, ..*old(self) }),
    {
        self.resting_potential = new_v_rest;
    }

    pub fn set_v_th(&mut self, new_v_th: u64)
        ensures
            *final(self) == (Lif { threshold: new_v_th, ..*old(self) }),
    {
        self.threshold = new_v_th;
    }

    /// Reset the neuron for a fresh inference: the membrane potential goes
    /// back to the resting potential and the time-step counter to 0.
    pub fn initialize(&mut self)
        ensures
            *final(self) == (Lif {
                membrane_potential: old(self).resting_potential,
                ts: 0u64,
                ..*old(self)
            }),
    {
        self.membrane_potential = self.resting_potential;
        self.ts = 0;
    }

    /// Stored word of one writable memory area.
    pub fn read_memory_area(&self, component_type: ComponentType) -> (r: u64)
        requires
            is_stored_parameter_kind(component_type),
        ensures
            r == self.spec_memory_area(component_type),
    {
        match component_type {
            ComponentType::ResetPotential => self.reset_potential,
            ComponentType::RestingPotential => self.resting_potential,
            ComponentType::Threshold => self.threshold,
            ComponentType::MembranePotential => self.membrane_potential,
            ComponentType::Tau => self.tau,
            _ => self.dt,
        }
    }

    /// Overwrite the stored word of one writable memory area. Used when a
    /// stuck-at fault on a static parameter is applied once, up front.
    pub fn write_memory_area(&mut self, component_type: ComponentType, value: u64)
        requires
            is_stored_parameter_kind(component_type),
        ensures
            *final(self) == old(self).spec_with_memory_area(component_type, value),
    {
        match component_type {
            ComponentType::ResetPotential => self.reset_potential = value,
            ComponentType::RestingPotential => self.resting_potential = value,
            ComponentType::Threshold => self.threshold = value,
            ComponentType::MembranePotential => self.membrane_potential = value,
            ComponentType::Tau => self.tau = value,
            _ => self.dt = value,
        }
    }

    /// Read all seven memory areas into local words, perturbing the one a
    /// memory-area fault targets. The stored fields stay untouched, so the
    /// fault is re-applied on every read, as stuck-at semantics demand.
    ///
    /// Returns `(reset, resting, threshold, membrane, tau, dt, ts)`.
    pub fn read_memory_areas(&self, fault: Option<InjectedFault>, time: u64) -> (r: (
        u64,
        u64,
        u64,
        u64,
        u64,
        u64,
        u64,
    ))
        requires
            fault matches Some(f) ==> f.wf(),
        ensures
            r.0 == self.spec_faulted_memory_area(ComponentType::ResetPotential, fault, time),
            r.1 == self.spec_faulted_memory_area(ComponentType::RestingPotential, fault, time),
            r.2 == self.spec_faulted_memory_area(ComponentType::Threshold, fault, time),
            r.3 == self.spec_faulted_memory_area(ComponentType::MembranePotential, fault, time),
            r.4 == self.spec_faulted_memory_area(ComponentType::Tau, fault, time),
            r.5 == self.spec_faulted_memory_area(ComponentType::DT, fault, time),
            r.6 == self.spec_faulted_memory_area(ComponentType::Ts, fault, time),
    {
        let mut reset_potential = self.reset_potential;
        let mut resting_potential = self.resting_potential;
        let mut threshold = self.threshold;
        let mut membrane_potential = self.membrane_potential;
        let mut tau = self.tau;
        let mut dt = self.dt;
        let mut ts = self.ts;

        if let Some(injected_fault) = fault {
            if injected_fault.component_category == ComponentCategory::MemoryArea {
                match injected_fault.component_type {
                    ComponentType::ResetPotential => {
                        reset_potential = injected_fault.apply_fault_to_word(reset_potential, time)
                    },
                    ComponentType::RestingPotential => {
                        resting_potential = injected_fault.apply_fault_to_word(
                            resting_potential,
                            time,
                        )
                    },
                    ComponentType::Threshold => {
                        threshold = injected_fault.apply_fault_to_word(threshold, time)
                    },
                    ComponentType::MembranePotential => {
                        membrane_potential = injected_fault.apply_fault_to_word(
                            membrane_potential,
                            time,
                        )
                    },
                    ComponentType::Tau => {
                        tau = injected_fault.apply_fault_to_word(tau, time)
                    },
                    ComponentType::Ts => {
                        ts = injected_fault.apply_fault_to_word(ts, time)
                    },
                    ComponentType::DT => {
                        dt = injected_fault.apply_fault_to_word(dt, time)
                    },
                    _ => {},
                }
            }
        }
        (reset_potential, resting_potential, threshold, membrane_potential, tau, dt, ts)
    }

    /// Commit the freshly computed membrane potential and advance the
    /// time-step counter. A fault on the membrane potential strikes the
    /// value about to be stored.
    pub fn store_membrane_and_ts(
        &mut self,
        time: u64,
        computed_potential: u64,
        fault: Option<InjectedFault>,
    )
        requires
            fault matches Some(f) ==> f.wf(),
        ensures
            *final(self) == (Lif {
                membrane_potential: spec_stored_potential(computed_potential, fault, time),
                ts: time,
                ..*old(self)
            }),
    {
        match fault {
            Some(f) => {
                if f.component_type == ComponentType::MembranePotential {
                    self.membrane_potential = f.apply_fault_to_word(computed_potential, time);
                } else {
                    self.membrane_potential = computed_potential;
                }
            },
            None => {
                self.membrane_potential = computed_potential;
            },
        }
        self.ts = time;
    }

    /// Turn the threshold comparison into the emitted spike: on a spike the
    /// membrane potential is reset to `reset_value` (the possibly faulted
    /// local copy of the reset potential), and a fault on the threshold
    /// comparator perturbs the emitted bit.
    pub fn finish_spike(
        &mut self,
        spiked: bool,
        reset_value: u64,
        fault: Option<InjectedFault>,
        time: u64,
    ) -> (spike: u8)
        requires
            fault matches Some(f) ==> f.wf(),
        ensures
            *final(self) == (Lif {
                membrane_potential: if spiked {
                    reset_value
                } else {
                    old(self).membrane_potential
                },
                ..*old(self)
            }),
            spike == spec_emitted_spike(spiked, fault, time),
            spike <= 1,
    {
        let mut output_spike: u8 = 0;
        if spiked {
            self.membrane_potential = reset_value;
            output_spike = 1;
        }
        match fault {
            Some(f) => {
                if f.component_type == ComponentType::ThresholdComparator {
                    f.apply_fault_to_spike(output_spike, time)
                } else {
                    output_spike
                }
            },
            None => output_spike,
        }
    }
}

/// A vector of `num_neurons` identical neurons with the given parameters,
/// each starting at its resting potential.
pub fn get_neurons(
    num_neurons: usize,
    reset_potential: u64,
    resting_potential: u64,
    threshold: u64,
    tau: u64,
    dt: u64,
) -> (r: Vec<Lif>)
    ensures
        r@.len() == num_neurons,
        forall|i: int|
            0 <= i < num_neurons ==> r@[i] == (Lif {
                reset_potential,
                resting_potential,
                threshold,
                membrane_potential: resting_potential,
                tau,
                ts: 0u64,
                dt,
            }),
{
    let mut neurons: Vec<Lif> = Vec::new();
    let mut k: usize = 0;
    while k < num_neurons
        invariant
            k <= num_neurons,
            neurons@.len() == k,
            forall|i: int|
                0 <= i < k ==> neurons@[i] == (Lif {
                    reset_potential,
                    resting_potential,
                    threshold,
                    membrane_potential: resting_potential,
                    tau,
                    ts: 0u64,
                    dt,
                }),
        decreases num_neurons - k,
    {
        neurons.push(Lif::new(reset_potential, resting_potential, threshold, tau, dt));
        k += 1;
    }
    neurons
}

/// Membrane-potential word that `store_membrane_and_ts` writes back.
pub open spec fn spec_stored_potential(
    computed_potential: u64,
    fault: Option<InjectedFault>,
    time: u64,
) -> u64 {
    match fault {
        Some(f) => {
            if f.component_type == ComponentType::MembranePotential {
                f.spec_apply_to_word(computed_potential, time)
            } else {
                computed_potential
            }
        },
        None => computed_potential,
    }
}

/// A stuck-at fault on the threshold comparator decides the emitted spike
/// outright, whatever the threshold comparison said: stuck-at-0 emits no
/// spike at any time step, stuck-at-1 emits one at every time step.
pub proof fn lemma_comparator_fault_decides_emission(
    spiked: bool,
    fault: InjectedFault,
    time: u64,
)
    requires
        fault.component_type == ComponentType::ThresholdComparator,
    ensures
        fault.fault_type == FaultType::StuckAt0 ==> spec_emitted_spike(spiked, Some(fault), time)
            == 0,
        fault.fault_type == FaultType::StuckAt1 ==> spec_emitted_spike(spiked, Some(fault), time)
            == 1,
{
}

/// Spike bit that `finish_spike` emits for a threshold comparison result.
pub open spec fn spec_emitted_spike(spiked: bool, fault: Option<InjectedFault>, time: u64) -> u8 {
    let raw: u8 = if spiked {
        1u8
    } else {
        0u8
    };
    match fault {
        Some(f) => {
            if f.component_type == ComponentType::ThresholdComparator {
                f.spec_apply_to_spike(raw, time)
            } else {
                raw
            }
        },
        None => raw,
    }
}

} // verus!
