//! One layer of the network: its neurons, its two weight matrices, and the
//! spike vector it produced at the previous time step.
//!
//! Weights are stored as 64-bit IEEE-754 bit patterns. The layer owns the
//! fault-targeting logic: which stored word a connection fault perturbs,
//! which neuron a neuron-scoped fault is forwarded to, and how a static
//! stuck-at fault is written into the stored words once, up front.

use vstd::prelude::*;

use crate::components::ComponentType;
use crate::fault_models::{FaultType, InjectedFault};
use crate::lif::Lif;
use crate::spike_event::spikes_are_binary;

verus! {

/// A vector of `n` zero spikes.
pub fn zero_vector(n: usize) -> (r: Vec<u8>)
    ensures
        r@.len() == n,
        forall|i: int| 0 <= i < n ==> r@[i] == 0,
{
    let mut r: Vec<u8> = Vec::new();
    let mut k: usize = 0;
    while k < n
        invariant
            k <= n,
            r@.len() == k,
            forall|i: int| 0 <= i < k ==> r@[i] == 0,
        decreases n - k,
    {
        r.push(0);
        k += 1;
    }
    r
}

/// Mathematical view of a matrix held as a vector of rows: the sequence of
/// its row contents.
pub open spec fn matrix_view<T>(m: Seq<Vec<T>>) -> Seq<Seq<T>> {
    m.map_values(|row: Vec<T>| row@)
}

/// `m2` is `m1` with the single entry at `(row, col)` replaced by `value`.
pub open spec fn matrix_updated(
    m1: Seq<Seq<u64>>,
    m2: Seq<Seq<u64>>,
    row: int,
    col: int,
    value: u64,
) -> bool {
    &&& m2.len() == m1.len()
    &&& forall|i: int| 0 <= i < m1.len() ==> #[trigger] m2[i].len() == m1[i].len()
    &&& forall|i: int, j: int|
        0 <= i < m1.len() && 0 <= j < m1[i].len() ==> #[trigger] m2[i][j] == if i == row && j
            == col {
            value
        } else {
            m1[i][j]
        }
}

/// Well-formedness carries over to a layer with the same shape: the same
/// number of neurons, matrices of unchanged dimensions, and a binary
/// previous output of the layer's size.
proof fn lemma_wf_from_same_shape(a: Layer, b: Layer)
    requires
        a.wf(),
        b.neurons@.len() == a.neurons@.len(),
        b.extra_weights@.len() == a.extra_weights@.len(),
        b.intra_weights@.len() == a.intra_weights@.len(),
        forall|i: int|
            0 <= i < b.extra_view().len() ==> #[trigger] b.extra_view()[i].len()
                == a.extra_view()[i].len(),
        forall|i: int|
            0 <= i < b.intra_view().len() ==> #[trigger] b.intra_view()[i].len()
                == a.intra_view()[i].len(),
        b.prev_output@.len() == b.neurons@.len(),
        spikes_are_binary(b.prev_output@),
    ensures
        b.wf(),
{
    assert(b.spec_input_len() == a.spec_input_len());
    assert forall|i: int| 0 <= i < b.extra_view().len() implies #[trigger] b.extra_view()[i].len()
        == b.spec_input_len() by {
        assert(a.extra_view()[i].len() == a.spec_input_len());
    }
    assert forall|i: int| 0 <= i < b.intra_view().len() implies #[trigger] b.intra_view()[i].len()
        == b.neurons@.len() by {
        assert(a.intra_view()[i].len() == a.neurons@.len());
    }
}

/// One network layer. `extra_weights[n][p]` connects neuron `p` of the
/// previous layer to neuron `n` of this one; `intra_weights[n][m]` is the
/// lateral connection from neuron `m` to neuron `n` of this same layer;
/// `prev_output` is this layer's spike vector of the previous time step.
#[derive(Debug, Clone)]
pub struct Layer {
    pub neurons: Vec<Lif>,
    pub extra_weights: Vec<Vec<u64>>,
    pub intra_weights: Vec<Vec<u64>>,
    pub prev_output: Vec<u8>,
}

impl Layer {
    pub open spec fn extra_view(self) -> Seq<Seq<u64>> {
        matrix_view(self.extra_weights@)
    }

    pub open spec fn intra_view(self) -> Seq<Seq<u64>> {
        matrix_view(self.intra_weights@)
    }

    /// Number of columns of the incoming weight matrix, that is the size of
    /// the previous layer (or of the network input for the first layer).
    pub open spec fn spec_input_len(self) -> nat {
        if self.extra_weights@.len() > 0 {
            self.extra_view()[0].len()
        } else {
            0
        }
    }

    /// Structural consistency: one weight row per neuron, a rectangular
    /// incoming matrix, a square lateral matrix, a binary previous output of
    /// the layer's size, and component counts that fit in `usize`.
    pub open spec fn wf(self) -> bool {
        &&& self.extra_weights@.len() == self.neurons@.len()
        &&& self.intra_weights@.len() == self.neurons@.len()
        &&& forall|i: int|
            0 <= i < self.extra_view().len() ==> #[trigger] self.extra_view()[i].len()
                == self.spec_input_len()
        &&& forall|i: int|
            0 <= i < self.intra_view().len() ==> #[trigger] self.intra_view()[i].len()
                == self.neurons@.len()
        &&& self.prev_output@.len() == self.neurons@.len()
        &&& spikes_are_binary(self.prev_output@)
        &&& self.neurons@.len() * self.spec_input_len() <= usize::MAX
        &&& self.neurons@.len() * self.neurons@.len() <= usize::MAX
    }

    /// Number of faultable components of the given kind in this layer: one
    /// per stored weight for the connection kinds, one per neuron otherwise.
    pub open spec fn spec_num_components(self, component_type: ComponentType) -> nat {
        match component_type {
            ComponentType::Extra => self.neurons@.len() * self.spec_input_len(),
            ComponentType::Intra => self.neurons@.len() * self.neurons@.len(),
            _ => self.neurons@.len(),
        }
    }

    pub fn new(neurons: Vec<Lif>, extra_weights: Vec<Vec<u64>>, intra_weights: Vec<Vec<u64>>) -> (r:
        Layer)
        requires
            extra_weights@.len() == neurons@.len(),
            intra_weights@.len() == neurons@.len(),
            forall|i: int|
                0 <= i < extra_weights@.len() ==> #[trigger] extra_weights@[i]@.len()
                    == matrix_view(extra_weights@)[0].len(),
            forall|i: int|
                0 <= i < intra_weights@.len() ==> #[trigger] intra_weights@[i]@.len()
                    == neurons@.len(),
            neurons@.len() * matrix_view(extra_weights@)[0].len() <= usize::MAX,
            neurons@.len() * neurons@.len() <= usize::MAX,
        ensures
            r.neurons@ == neurons@,
            r.extra_weights@ == extra_weights@,
            r.intra_weights@ == intra_weights@,
            r.prev_output@.len() == neurons@.len(),
            forall|i: int| 0 <= i < r.prev_output@.len() ==> r.prev_output@[i] == 0,
            r.wf(),
    {
        let num_n = neurons.len();
        let prev_output = zero_vector(num_n);
        Layer { neurons, extra_weights, intra_weights, prev_output }
    }

    pub fn get_num_neurons(&self) -> (r: usize)
        ensures
            r == self.neurons@.len(),
    {
        self.neurons.len()
    }

    pub fn get_neurons(&self) -> (r: &Vec<Lif>)
        ensures
            r@ == self.neurons@,
    {
        &self.neurons
    }

    pub fn get_extra_weights(&self) -> (r: &Vec<Vec<u64>>)
        ensures
            r@ == self.extra_weights@,
    {
        &self.extra_weights
    }

    pub fn get_intra_weights(&self) -> (r: &Vec<Vec<u64>>)
        ensures
            r@ == self.intra_weights@,
    {
        &self.intra_weights
    }

    pub fn get_prev_output(&self) -> (r: &Vec<u8>)
        ensures
            r@ == self.prev_output@,
    {
        &self.prev_output
    }

    pub fn get_tot_num_extra_weights(&self) -> (r: usize)
        requires
            self.wf(),
            self.neurons@.len() > 0,
        ensures
            r == self.neurons@.len() * self.spec_input_len(),
    {
        let num_rows = self.extra_weights.len();
        let num_cols = self.extra_weights[0].len();
        num_rows * num_cols
    }

    pub fn get_tot_num_intra_weights(&self) -> (r: usize)
        requires
            self.wf(),
            self.neurons@.len() > 0,
        ensures
            r == self.neurons@.len() * self.neurons@.len(),
    {
        let num_rows = self.intra_weights.len();
        let num_cols = self.intra_weights[0].len();
        proof {
            assert(self.intra_view()[0].len() == self.neurons@.len());
        }
        num_rows * num_cols
    }

    pub fn get_num_components_from_type(&self, component_type: &ComponentType) -> (r: usize)
        requires
            self.wf(),
            self.neurons@.len() > 0,
        ensures
            r == self.spec_num_components(*component_type),
    {
        match component_type {
            ComponentType::Extra => self.get_tot_num_extra_weights(),
            ComponentType::Intra => self.get_tot_num_intra_weights(),
            _ => self.get_num_neurons(),
        }
    }

    /// Reset every neuron and clear the previous output, so the layer can
    /// run a fresh inference.
    pub fn initialize(&mut self)
        ensures
            final (self).neurons@.len() == old(self).neurons@.len(),
            forall|i: int|
                0 <= i < old(self).neurons@.len() ==> #[trigger] final (self).neurons@[i] == (Lif {
                    membrane_potential: old(self).neurons@[i].resting_potential,
                    ts: 0u64,
                    ..old(self).neurons@[i]
                }),
            final (self).extra_weights@ == old(self).extra_weights@,
            final (self).intra_weights@ == old(self).intra_weights@,
            final (self).prev_output@.len() == old(self).neurons@.len(),
            forall|i: int| 0 <= i < final (self).prev_output@.len() ==> final (self).prev_output@[i] == 0,
            old(self).wf() ==> final (self).wf(),
    {
        let n = self.neurons.len();
        self.prev_output = zero_vector(n);
        let mut k: usize = 0;
        while k < n
            invariant
                n == self.neurons@.len(),
                k <= n,
                forall|i: int|
                    0 <= i < k ==> #[trigger] self.neurons@[i] == (Lif {
                        membrane_potential: old(self).neurons@[i].resting_potential,
                        ts: 0u64,
                        ..old(self).neurons@[i]
                    }),
                forall|i: int| k <= i < n ==> self.neurons@[i] == old(self).neurons@[i],
                self.extra_weights@ == old(self).extra_weights@,
                self.intra_weights@ == old(self).intra_weights@,
                self.prev_output@.len() == n,
                forall|i: int| 0 <= i < n ==> self.prev_output@[i] == 0,
            decreases n - k,
        {
            let neuron = &mut self.neurons[k];
            neuron.initialize();
            k += 1;
        }
        proof {
            if old(self).wf() {
                lemma_wf_from_same_shape(*old(self), *self);
            }
        }
    }

    /// Replace the stored spike vector of the previous time step with the
    /// one just produced.
    pub fn set_prev_output(&mut self, output: Vec<u8>)
        requires
            output@.len() == old(self).neurons@.len(),
            spikes_are_binary(output@),
        ensures
            *final (self) == (Layer { prev_output: output, ..*old(self) }),
    {
        self.prev_output = output;
    }

    pub fn get_neuron(&self, i: usize) -> (r: Lif)
        requires
            i < self.neurons@.len(),
        ensures
            r == self.neurons@[i as int],
    {
        self.neurons[i]
    }

    pub fn set_neuron(&mut self, i: usize, neuron: Lif)
        requires
            i < old(self).neurons@.len(),
        ensures
            final (self).neurons@ == old(self).neurons@.update(i as int, neuron),
            final (self).extra_weights@ == old(self).extra_weights@,
            final (self).intra_weights@ == old(self).intra_weights@,
            final (self).prev_output@ == old(self).prev_output@,
    {
        self.neurons[i] = neuron;
    }

    /// Incoming weight `(i, j)` as the accumulation reads it at time `time`
    /// while `fault` is active: a connection fault on the matching flattened
    /// index perturbs the stored word on every read, without writing back.
    pub open spec fn spec_faulted_extra_weight(
        self,
        i: int,
        j: int,
        fault: Option<InjectedFault>,
        time: u64,
    ) -> u64 {
        let stored = self.extra_view()[i][j];
        match fault {
            Some(f) => {
                if f.component_type == ComponentType::Extra && f.component_index == i
                    * self.spec_input_len() + j {
                    f.spec_apply_to_word(stored, time)
                } else {
                    stored
                }
            },
            None => stored,
        }
    }

    /// Lateral weight `(i, j)`, read like `spec_faulted_extra_weight`.
    pub open spec fn spec_faulted_intra_weight(
        self,
        i: int,
        j: int,
        fault: Option<InjectedFault>,
        time: u64,
    ) -> u64 {
        let stored = self.intra_view()[i][j];
        match fault {
            Some(f) => {
                if f.component_type == ComponentType::Intra && f.component_index == i
                    * self.neurons@.len() + j {
                    f.spec_apply_to_word(stored, time)
                } else {
                    stored
                }
            },
            None => stored,
        }
    }

    pub fn faulted_extra_weight(
        &self,
        i: usize,
        j: usize,
        fault: Option<InjectedFault>,
        time: u64,
    ) -> (r: u64)
        requires
            self.wf(),
            i < self.neurons@.len(),
            j < self.spec_input_len(),
            fault matches Some(f) ==> f.wf(),
        ensures
            r == self.spec_faulted_extra_weight(i as int, j as int, fault, time),
    {
        let cols = self.extra_weights[0].len();
        proof {
            assert(self.extra_view()[0].len() == self.spec_input_len());
            assert(self.extra_view()[i as int].len() == self.spec_input_len());
            assert(i * cols + j < self.neurons@.len() * cols) by (nonlinear_arith)
                requires
                    i < self.neurons@.len(),
                    j < cols,
            ;
        }
        let w = self.extra_weights[i][j];
        match fault {
            Some(f) => {
                if f.component_type == ComponentType::Extra && f.component_index == i * cols + j {
                    f.apply_fault_to_word(w, time)
                } else {
                    w
                }
            },
            None => w,
        }
    }

    pub fn faulted_intra_weight(
        &self,
        i: usize,
        j: usize,
        fault: Option<InjectedFault>,
        time: u64,
    ) -> (r: u64)
        requires
            self.wf(),
            i < self.neurons@.len(),
            j < self.neurons@.len(),
            fault matches Some(f) ==> f.wf(),
        ensures
            r == self.spec_faulted_intra_weight(i as int, j as int, fault, time),
    {
        let cols = self.intra_weights[0].len();
        proof {
            assert(self.intra_view()[0].len() == self.neurons@.len());
            assert(self.intra_view()[i as int].len() == self.neurons@.len());
            assert(i * cols + j < self.neurons@.len() * cols) by (nonlinear_arith)
                requires
                    i < self.neurons@.len(),
                    j < cols,
            ;
        }
        let w = self.intra_weights[i][j];
        match fault {
            Some(f) => {
                if f.component_type == ComponentType::Intra && f.component_index == i * cols + j {
                    f.apply_fault_to_word(w, time)
                } else {
                    w
                }
            },
            None => w,
        }
    }

    /// Whether `fault` is a neuron-scoped fault (memory area or processing
    /// block) aimed at neuron `i`, and must therefore be forwarded into that
    /// neuron's processing.
    pub open spec fn spec_fault_for_neuron(fault: Option<InjectedFault>, i: int) -> bool {
        match fault {
            Some(f) => f.component_type != ComponentType::Extra && f.component_type
                != ComponentType::Intra && f.component_index == i,
            None => false,
        }
    }

    /// The fault to hand to neuron `i`: a neuron-scoped fault whose
    /// component index selects this neuron, if there is one.
    pub fn fault_for_neuron(fault: Option<InjectedFault>, i: usize) -> (r: Option<InjectedFault>)
        requires
            fault matches Some(f) ==> f.wf(),
        ensures
            r == if Self::spec_fault_for_neuron(fault, i as int) {
                fault
            } else {
                Option::<InjectedFault>::None
            },
            r matches Some(f) ==> f.wf(),
    {
        match fault {
            Some(f) => {
                if f.component_type != ComponentType::Extra && f.component_type
                    != ComponentType::Intra && f.component_index == i {
                    Some(f)
                } else {
                    None
                }
            },
            None => None,
        }
    }

    /// Stored 64-bit word that a static fault targets: one weight for the
    /// connection kinds, one neuron parameter otherwise.
    pub open spec fn spec_static_target_word(self, fault: InjectedFault) -> u64 {
        let idx = fault.component_index as int;
        match fault.component_type {
            ComponentType::Extra => self.extra_view()[idx / self.spec_input_len() as int][idx
                % self.spec_input_len() as int],
            ComponentType::Intra => self.intra_view()[idx / self.neurons@.len() as int][idx
                % self.neurons@.len() as int],
            _ => self.neurons@[idx].spec_memory_area(fault.component_type),
        }
    }

    /// Write a static stuck-at fault into the targeted stored word, unless
    /// the bit already holds the forced value. Returns true exactly when the
    /// bit was already forced, in which case the layer is left unchanged and
    /// the campaign can reuse the baseline accuracy.
    pub fn apply_fault_in_component(&mut self, fault: &InjectedFault) -> (r: bool)
        requires
            old(self).wf(),
            fault.wf(),
            fault.fault_type == FaultType::StuckAt0 || fault.fault_type == FaultType::StuckAt1,
            fault.component_type.spec_is_static(),
            fault.component_index < old(self).spec_num_components(fault.component_type),
        ensures
            r == stuck_bit_already_forced(old(self).spec_static_target_word(*fault), *fault),
            r ==> *final (self) == *old(self),
            !r ==> layer_with_static_fault_written(*old(self), *final (self), *fault),
            final (self).wf(),
    {
        let bit_index = fault.bit_index.unwrap();
        match fault.component_type {
            ComponentType::Extra => {
                proof {
                    assert(self.neurons@.len() > 0) by {
                        if self.neurons@.len() == 0 {
                            assert(self.spec_num_components(fault.component_type) == 0);
                        }
                    }
                }
                let cols = self.extra_weights[0].len();
                let ghost rows: int = self.neurons@.len() as int;
                let ghost idx: int = fault.component_index as int;
                let ghost c: int = cols as int;
                proof {
                    assert(self.extra_view()[0].len() == self.spec_input_len());
                    assert(0 <= idx < rows * c);
                    assert(c > 0) by (nonlinear_arith)
                        requires
                            0 <= idx < rows * c,
                            rows >= 0,
                            c >= 0,
                    ;
                    assert(idx / c < rows) by (nonlinear_arith)
                        requires
                            0 <= idx < rows * c,
                            c > 0,
                    ;
                    assert(self.extra_view()[idx / c].len() == self.spec_input_len());
                }
                let i_weight = fault.component_index / cols;
                let j_weight = fault.component_index % cols;
                let word = self.extra_weights[i_weight][j_weight];
                if stuck_bit_matches(word, bit_index, fault.fault_type) {
                    true
                } else {
                    self.extra_weights[i_weight][j_weight] = fault.apply_fault_to_word(word, 0);
                    proof {
                        lemma_wf_from_same_shape(*old(self), *self);
                    }
                    false
                }
            },
            ComponentType::Intra => {
                proof {
                    assert(self.neurons@.len() > 0) by {
                        if self.neurons@.len() == 0 {
                            assert(self.spec_num_components(fault.component_type) == 0);
                        }
                    }
                }
                let cols = self.intra_weights[0].len();
                let ghost rows: int = self.neurons@.len() as int;
                let ghost idx: int = fault.component_index as int;
                let ghost c: int = cols as int;
                proof {
                    assert(self.intra_view()[0].len() == self.neurons@.len());
                    assert(0 <= idx < rows * c);
                    assert(c > 0) by (nonlinear_arith)
                        requires
                            0 <= idx < rows * c,
                            rows >= 0,
                            c >= 0,
                    ;
                    assert(idx / c < rows) by (nonlinear_arith)
                        requires
                            0 <= idx < rows * c,
                            c > 0,
                    ;
                    assert(self.intra_view()[idx / c].len() == self.neurons@.len());
                }
                let i_weight = fault.component_index / cols;
                let j_weight = fault.component_index % cols;
                let word = self.intra_weights[i_weight][j_weight];
                if stuck_bit_matches(word, bit_index, fault.fault_type) {
                    true
                } else {
                    self.intra_weights[i_weight][j_weight] = fault.apply_fault_to_word(word, 0);
                    proof {
                        lemma_wf_from_same_shape(*old(self), *self);
                    }
                    false
                }
            },
            _ => {
                let word = self.neurons[fault.component_index].read_memory_area(
                    fault.component_type,
                );
                if stuck_bit_matches(word, bit_index, fault.fault_type) {
                    true
                } else {
                    let forced = fault.apply_fault_to_word(word, 0);
                    let neuron = &mut self.neurons[fault.component_index];
                    neuron.write_memory_area(fault.component_type, forced);
                    proof {
                        lemma_wf_from_same_shape(*old(self), *self);
                    }
                    false
                }
            },
        }
    }
}

/// Whether bit `bit_index` of `word` already holds the value that the
/// stuck-at fault forces.
pub open spec fn stuck_bit_already_forced(word: u64, fault: InjectedFault) -> bool {
    if fault.fault_type == FaultType::StuckAt0 {
        word & (1u64 << fault.bit_index->0) == 0
    } else {
        word & (1u64 << fault.bit_index->0) != 0
    }
}

fn stuck_bit_matches(word: u64, bit_index: usize, fault_type: FaultType) -> (r: bool)
    requires
        bit_index < 64,
        fault_type == FaultType::StuckAt0 || fault_type == FaultType::StuckAt1,
    ensures
        r == if fault_type == FaultType::StuckAt0 {
            word & (1u64 << bit_index) == 0
        } else {
            word & (1u64 << bit_index) != 0
        },
{
    if fault_type == FaultType::StuckAt0 {
        word & (1u64 << bit_index) == 0
    } else {
        word & (1u64 << bit_index) != 0
    }
}

/// `after` is `before` with the stuck-at fault written into its targeted
/// stored word (applied at time step 0, which is immaterial for stuck-at
/// faults) and everything else unchanged.
pub open spec fn layer_with_static_fault_written(
    before: Layer,
    after: Layer,
    fault: InjectedFault,
) -> bool {
    let word = before.spec_static_target_word(fault);
    let forced = fault.spec_apply_to_word(word, 0);
    let idx = fault.component_index as int;
    &&& after.prev_output@ == before.prev_output@
    &&& (fault.component_type == ComponentType::Extra ==> {
        &&& matrix_updated(
            before.extra_view(),
            after.extra_view(),
            idx / before.spec_input_len() as int,
            idx % before.spec_input_len() as int,
            forced,
        )
        &&& after.intra_weights@ == before.intra_weights@
        &&& after.neurons@ == before.neurons@
    })
    &&& (fault.component_type == ComponentType::Intra ==> {
        &&& matrix_updated(
            before.intra_view(),
            after.intra_view(),
            idx / before.neurons@.len() as int,
            idx % before.neurons@.len() as int,
            forced,
        )
        &&& after.extra_weights@ == before.extra_weights@
        &&& after.neurons@ == before.neurons@
    })
    &&& (fault.component_type != ComponentType::Extra && fault.component_type
        != ComponentType::Intra ==> {
        &&& after.neurons@ == before.neurons@.update(
            idx,
            before.neurons@[idx].spec_with_memory_area(fault.component_type, forced),
        )
        &&& after.extra_weights@ == before.extra_weights@
        &&& after.intra_weights@ == before.intra_weights@
    })
}

} // verus!
