//! The fault-injection campaign: what the user selected, how one
//! replicate's fault is sampled, and how a static fault is written into a
//! cloned network before the batch is run.

use vstd::prelude::*;

use rand::Rng;

use crate::components::ComponentType;
use crate::fault_models::{FaultType, InjectedFault};
use crate::layer::{layer_with_static_fault_written, stuck_bit_already_forced};
use crate::snn::SNN;

verus! {

/// The fault-injection parameters chosen by the user: the component kinds
/// to target, the fault model, the number of replicates, and the batch of
/// input spike trains.
#[derive(Debug, Clone)]
pub struct UserSelection {
    pub components: Vec<ComponentType>,
    pub fault_type: FaultType,
    pub num_faults: u64,
    pub input_sequence: Vec<Vec<Vec<u8>>>,
}

impl UserSelection {
    pub fn new(
        components: Vec<ComponentType>,
        fault_type: FaultType,
        num_faults: u64,
        input_sequence: Vec<Vec<Vec<u8>>>,
    ) -> (r: Self)
        ensures
            r.components@ == components@,
            r.fault_type == fault_type,
            r.num_faults == num_faults,
            r.input_sequence@ == input_sequence@,
    {
        UserSelection { components, fault_type, num_faults, input_sequence }
    }
}

/// How one replicate injects its sampled fault.
#[derive(Debug, Clone, Copy, PartialEq, Eq, Structural)]
pub enum FaultPreparation {
    /// The targeted bit already holds the forced value: the network is
    /// untouched and the baseline accuracy can be reported without running
    /// the batch.
    UseBaseline,
    /// The static fault has been written into the stored word: the batch
    /// runs with no runtime injection.
    AlreadyInjected,
    /// The fault is time-dependent or targets a non-static component: the
    /// batch runs with the descriptor injected on every access.
    InjectAtRuntime,
}

/// Relies on rand's `Rng::gen_range` over `0..n`: the sample lies in that
/// range, which is non-empty.
#[verifier::external_body]
fn rand_below(n: usize) -> (r: usize)
    requires
        n > 0,
    ensures
        r < n,
{
    rand::thread_rng().gen_range(0..n)
}

impl SNN {
    /// Sample a fault uniformly within the user's component selection: a
    /// time step for transient faults, a component kind from the list, a
    /// layer, a component within the layer, and a bit unless the target is
    /// the one-bit threshold comparator.
    pub fn generate_random_fault(
        &self,
        components: &Vec<ComponentType>,
        fault_type: FaultType,
        num_time_steps: usize,
    ) -> (r: InjectedFault)
        requires
            self.wf(),
            components@.len() > 0,
            fault_type == FaultType::TransientBitFlip ==> num_time_steps > 0,
            forall|l: int|
                0 <= l < self.layers@.len() ==> (#[trigger] self.layers@[l]).neurons@.len() > 0,
            forall|l: int|
                0 <= l < self.layers@.len() ==> (#[trigger] self.layers@[l]).spec_input_len() > 0,
        ensures
            r.wf(),
            r.fault_type == fault_type,
            fault_type == FaultType::TransientBitFlip ==> r.time_step->0 < num_time_steps,
            r.layer_index < self.layers@.len(),
            components@.contains(r.component_type),
            r.component_index < self.layers@[r.layer_index as int].spec_num_components(
                r.component_type,
            ),
    {
        let mut time_step: Option<u64> = None;
        if fault_type == FaultType::TransientBitFlip {
            time_step = Some(rand_below(num_time_steps) as u64);
        }

        let choice = rand_below(components.len());
        let component_type = components[choice];
        proof {
            assert(components@.contains(component_type));
        }
        let component_category = component_type.get_category();

        let layer_index = rand_below(self.layers.len());
        let layer = self.get_layer(layer_index);
        let num_components = layer.get_num_components_from_type(&component_type);
        proof {
            let n: int = self.layers@[layer_index as int].neurons@.len() as int;
            let w: int = self.layers@[layer_index as int].spec_input_len() as int;
            assert(n * w > 0) by (nonlinear_arith)
                requires
                    n > 0,
                    w > 0,
            ;
            assert(n * n > 0) by (nonlinear_arith)
                requires
                    n > 0,
            ;
        }
        let component_index = rand_below(num_components);

        let mut bit_index: Option<usize> = None;
        if component_type != ComponentType::ThresholdComparator {
            bit_index = Some(rand_below(64));
        }

        InjectedFault::new(
            fault_type,
            time_step,
            layer_index,
            component_type,
            component_category,
            component_index,
            bit_index,
        )
    }

    /// Write a static stuck-at fault into the targeted component of the
    /// (cloned) network before the batch is processed. Returns true exactly
    /// when the targeted bit already held the forced value, in which case
    /// the network is untouched.
    pub fn apply_fault_before_processing(&mut self, injected_fault: &InjectedFault) -> (r: bool)
        requires
            old(self).wf(),
            injected_fault.wf(),
            injected_fault.fault_type == FaultType::StuckAt0 || injected_fault.fault_type
                == FaultType::StuckAt1,
            injected_fault.component_type.spec_is_static(),
            injected_fault.layer_index < old(self).layers@.len(),
            injected_fault.component_index < old(self).layers@[injected_fault.layer_index as int].spec_num_components(
                injected_fault.component_type,
            ),
        ensures
            r == stuck_bit_already_forced(
                old(self).layers@[injected_fault.layer_index as int].spec_static_target_word(
                    *injected_fault,
                ),
                *injected_fault,
            ),
            r ==> final (self).layers@ == old(self).layers@,
            !r ==> {
                &&& final (self).layers@.len() == old(self).layers@.len()
                &&& forall|l: int|
                    0 <= l < old(self).layers@.len() && l != injected_fault.layer_index
                        ==> final (self).layers@[l] == old(self).layers@[l]
                &&& layer_with_static_fault_written(
                    old(self).layers@[injected_fault.layer_index as int],
                    final (self).layers@[injected_fault.layer_index as int],
                    *injected_fault,
                )
            },
            final (self).wf(),
    {
        let layer = &mut self.layers[injected_fault.layer_index];
        let bit_unchanged = layer.apply_fault_in_component(injected_fault);
        proof {
            lemma_snn_wf_after_layer_update(*old(self), *self, injected_fault.layer_index as int);
        }
        bit_unchanged
    }

    /// Decide how one replicate injects its sampled fault, applying it to
    /// the stored words up front when it is a static stuck-at fault. When
    /// the targeted bit already holds the forced value the network is left
    /// bit-identical, so the replicate's accuracy is the baseline accuracy.
    pub fn prepare_fault(&mut self, injected_fault: &InjectedFault) -> (r: FaultPreparation)
        requires
            old(self).wf(),
            injected_fault.wf(),
            injected_fault.layer_index < old(self).layers@.len(),
            injected_fault.component_index < old(self).layers@[injected_fault.layer_index as int].spec_num_components(
                injected_fault.component_type,
            ),
        ensures
            !(injected_fault.fault_type != FaultType::TransientBitFlip
                && injected_fault.component_type.spec_is_static()) ==> r
                == FaultPreparation::InjectAtRuntime && *final (self) == *old(self),
            injected_fault.fault_type != FaultType::TransientBitFlip
                && injected_fault.component_type.spec_is_static() ==> {
                &&& r != FaultPreparation::InjectAtRuntime
                &&& (r == FaultPreparation::UseBaseline <==> stuck_bit_already_forced(
                    old(self).layers@[injected_fault.layer_index as int].spec_static_target_word(
                        *injected_fault,
                    ),
                    *injected_fault,
                ))
                &&& (r == FaultPreparation::UseBaseline ==> final (self).layers@ == old(
                    self,
                ).layers@)
                &&& (r == FaultPreparation::AlreadyInjected ==> {
                    &&& final (self).layers@.len() == old(self).layers@.len()
                    &&& forall|l: int|
                        0 <= l < old(self).layers@.len() && l != injected_fault.layer_index
                            ==> final (self).layers@[l] == old(self).layers@[l]
                    &&& layer_with_static_fault_written(
                        old(self).layers@[injected_fault.layer_index as int],
                        final (self).layers@[injected_fault.layer_index as int],
                        *injected_fault,
                    )
                })
            },
            final (self).wf(),
    {
        if injected_fault.fault_type != FaultType::TransientBitFlip
            && injected_fault.component_type.is_static_component() {
            let bit_unchanged = self.apply_fault_before_processing(injected_fault);
            if bit_unchanged {
                FaultPreparation::UseBaseline
            } else {
                FaultPreparation::AlreadyInjected
            }
        } else {
            FaultPreparation::InjectAtRuntime
        }
    }
}

/// A network stays well formed when one layer is replaced by a layer of
/// the same shape.
proof fn lemma_snn_wf_after_layer_update(before: SNN, after: SNN, at: int)
    requires
        before.wf(),
        0 <= at < before.layers@.len(),
        after.layers@.len() == before.layers@.len(),
        forall|l: int|
            0 <= l < before.layers@.len() && l != at ==> #[trigger] after.layers@[l]
                == before.layers@[l],
        after.layers@[at].wf(),
        after.layers@[at].neurons@.len() == before.layers@[at].neurons@.len(),
        after.layers@[at].spec_input_len() == before.layers@[at].spec_input_len(),
    ensures
        after.wf(),
{
    assert forall|l: int| 0 <= l < after.layers@.len() implies (
    #[trigger] after.layers@[l]).wf() by {
        if l != at {
            assert(before.layers@[l].wf());
        }
    }
    assert forall|l: int|
        1 <= l < after.layers@.len() && (#[trigger] after.layers@[l]).neurons@.len()
            > 0 implies after.layers@[l].spec_input_len() == after.layers@[l
        - 1].neurons@.len() by {
        assert(before.layers@[l].neurons@.len() == after.layers@[l].neurons@.len());
        assert(before.layers@[l].spec_input_len() == after.layers@[l].spec_input_len());
        assert(before.layers@[l - 1].neurons@.len() == after.layers@[l - 1].neurons@.len());
    }
}

} // verus!
