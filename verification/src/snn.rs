//! The spiking neural network: an ordered sequence of layers, with the
//! pre-processing step that turns an input spike matrix into per-time-step
//! events and the post-processing step that rebuilds the dense output
//! matrix from the events the last layer emitted.

use vstd::prelude::*;

use crate::layer::{matrix_view, zero_vector, Layer};
use crate::spike_event::{spikes_are_binary, SpikeEvent};

verus! {

/// Why an inference could not be run.
#[derive(Debug, Clone, Copy, PartialEq, Eq, Structural)]
pub enum SnnError {
    /// The input spike matrix has the wrong number of rows, rows of unequal
    /// length, or an entry that is neither 0 nor 1.
    MalformedInput,
}

/// A feed-forward spiking neural network.
#[derive(Debug, Clone)]
pub struct SNN {
    pub layers: Vec<Layer>,
}

impl SNN {
    /// Structural consistency: at least one layer, every layer well formed,
    /// and each layer's incoming matrix as wide as the previous layer.
    pub open spec fn wf(self) -> bool {
        &&& self.layers@.len() > 0
        &&& forall|l: int| 0 <= l < self.layers@.len() ==> (#[trigger] self.layers@[l]).wf()
        &&& forall|l: int|
            1 <= l < self.layers@.len() && (#[trigger] self.layers@[l]).neurons@.len() > 0
                ==> self.layers@[l].spec_input_len() == self.layers@[l - 1].neurons@.len()
    }

    /// Size of the network input: the width of the first layer's incoming
    /// weight matrix.
    pub open spec fn spec_input_dim(self) -> nat {
        self.layers@[0].spec_input_len()
    }

    /// Number of neurons of the last layer.
    pub open spec fn spec_output_dim(self) -> nat {
        self.layers@[self.layers@.len() - 1].neurons@.len()
    }

    pub fn new(layers: Vec<Layer>) -> (r: Self)
        ensures
            r.layers@ == layers@,
    {
        SNN { layers }
    }

    pub fn get_num_layers(&self) -> (r: usize)
        ensures
            r == self.layers@.len(),
    {
        self.layers.len()
    }

    pub fn get_layers(&self) -> (r: &Vec<Layer>)
        ensures
            r@ == self.layers@,
    {
        &self.layers
    }

    pub fn get_layer(&self, layer_index: usize) -> (r: &Layer)
        requires
            layer_index < self.layers@.len(),
        ensures
            *r == self.layers@[layer_index as int],
    {
        &self.layers[layer_index]
    }

    pub fn get_input_layer_num_neurons(&self) -> (r: usize)
        requires
            self.layers@.len() > 0,
            self.layers@[0].extra_weights@.len() > 0,
            self.layers@[0].wf(),
        ensures
            r == self.spec_input_dim(),
    {
        proof {
            assert(self.layers@[0].extra_view()[0].len() == self.layers@[0].spec_input_len());
        }
        self.layers[0].get_extra_weights()[0].len()
    }

    pub fn get_output_layer_num_neurons(&self) -> (r: usize)
        requires
            self.layers@.len() > 0,
        ensures
            r == self.spec_output_dim(),
    {
        self.layers[self.layers.len() - 1].get_num_neurons()
    }

    /// The input matrix is acceptable: one row per input neuron, all rows
    /// of equal length, and every entry 0 or 1.
    pub open spec fn spec_input_matrix_ok(self, m: Seq<Seq<u8>>) -> bool {
        &&& m.len() == self.spec_input_dim()
        &&& forall|i: int| 0 <= i < m.len() ==> #[trigger] m[i].len() == m[0].len()
        &&& forall|i: int, t: int| 0 <= i < m.len() && 0 <= t < m[i].len() ==> #[trigger] m[i][t]
            <= 1
    }

    /// Turn the input spike matrix into one event per time step, carrying
    /// the matrix column of that time step. Rejects a matrix whose row
    /// count differs from the input dimension, whose rows have unequal
    /// lengths, or which holds an entry other than 0 and 1.
    pub fn derive_input_spike_events(&self, input_spikes: &Vec<Vec<u8>>) -> (r: Result<
        Vec<SpikeEvent>,
        SnnError,
    >)
        requires
            self.wf(),
            self.layers@[0].neurons@.len() > 0,
            self.spec_input_dim() > 0,
        ensures
            r is Ok <==> self.spec_input_matrix_ok(matrix_view(input_spikes@)),
            r is Err ==> r->Err_0 == SnnError::MalformedInput,
            r matches Ok(events) ==> {
                let m = matrix_view(input_spikes@);
                &&& events@.len() == m[0].len()
                &&& forall|t: int|
                    0 <= t < events@.len() ==> (#[trigger] events@[t]).t == t as u64
                &&& forall|t: int|
                    0 <= t < events@.len() ==> (#[trigger] events@[t]).spikes@.len() == m.len()
                &&& forall|t: int, n: int|
                    #![trigger events@[t].spikes@[n]]
                    0 <= t < events@.len() && 0 <= n < m.len() ==> events@[t].spikes@[n] == m[n][t]
                &&& forall|t: int| 0 <= t < events@.len() ==> (#[trigger] events@[t]).wf()
            },
    {
        let num_rows = input_spikes.len();
        let dim = self.get_input_layer_num_neurons();
        if num_rows != dim {
            return Err(SnnError::MalformedInput);
        }
        let num_time_steps = input_spikes[0].len();

        // All rows must have the length of the first one.
        let mut i: usize = 1;
        while i < num_rows
            invariant
                num_rows == input_spikes@.len(),
                num_time_steps == input_spikes@[0]@.len(),
                1 <= i <= num_rows,
                forall|k: int| 0 <= k < i ==> #[trigger] input_spikes@[k]@.len() == num_time_steps,
            decreases num_rows - i,
        {
            if input_spikes[i].len() != num_time_steps {
                proof {
                    let m = matrix_view(input_spikes@);
                    assert(m[i as int].len() != m[0].len());
                }
                return Err(SnnError::MalformedInput);
            }
            i += 1;
        }

        // Emit the column of each time step, checking every entry.
        let mut spike_events: Vec<SpikeEvent> = Vec::new();
        let mut t: usize = 0;
        while t < num_time_steps
            invariant
                num_rows == input_spikes@.len(),
                num_rows == self.spec_input_dim(),
                num_time_steps == input_spikes@[0]@.len(),
                forall|k: int|
                    0 <= k < num_rows ==> #[trigger] input_spikes@[k]@.len() == num_time_steps,
                t <= num_time_steps,
                spike_events@.len() == t,
                forall|u: int|
                    0 <= u < t ==> (#[trigger] spike_events@[u]).t == u as u64,
                forall|u: int|
                    0 <= u < t ==> (#[trigger] spike_events@[u]).spikes@.len() == num_rows,
                forall|u: int, n: int|
                    #![trigger spike_events@[u].spikes@[n]]
                    0 <= u < t && 0 <= n < num_rows ==> spike_events@[u].spikes@[n]
                        == input_spikes@[n]@[u],
                forall|u: int, n: int|
                    #![trigger spike_events@[u].spikes@[n]]
                    0 <= u < t && 0 <= n < num_rows ==> spike_events@[u].spikes@[n] <= 1,
            decreases num_time_steps - t,
        {
            let mut spikes_t: Vec<u8> = Vec::new();
            let mut n: usize = 0;
            while n < num_rows
                invariant
                    num_rows == input_spikes@.len(),
                    num_time_steps == input_spikes@[0]@.len(),
                    forall|k: int|
                        0 <= k < num_rows ==> #[trigger] input_spikes@[k]@.len() == num_time_steps,
                    t < num_time_steps,
                    n <= num_rows,
                    spikes_t@.len() == n,
                    forall|k: int|
                        0 <= k < n ==> #[trigger] spikes_t@[k] == input_spikes@[k]@[t as int],
                    forall|k: int| 0 <= k < n ==> #[trigger] spikes_t@[k] <= 1,
                decreases num_rows - n,
            {
                let spike = input_spikes[n][t];
                if spike != 0 && spike != 1 {
                    proof {
                        let m = matrix_view(input_spikes@);
                        assert(m[n as int][t as int] == spike);
                    }
                    return Err(SnnError::MalformedInput);
                }
                spikes_t.push(spike);
                n += 1;
            }
            let event = SpikeEvent::new(t as u64, spikes_t);
            spike_events.push(event);
            t += 1;
        }
        proof {
            let m = matrix_view(input_spikes@);
            assert forall|i: int, u: int|
                0 <= i < m.len() && 0 <= u < m[i].len() implies #[trigger] m[i][u] <= 1 by {
                assert(spike_events@[u].spikes@[i] == input_spikes@[i]@[u]);
                assert(spike_events@[u].spikes@[i] <= 1);
            }
        }
        Ok(spike_events)
    }

    /// Value that the rebuilt output matrix holds at row `n`, column `t`:
    /// the spike of the last event for time step `t`, or 0 when every layer
    /// suppressed that time step.
    pub open spec fn spec_output_entry(events: Seq<SpikeEvent>, n: int, t: int) -> u8
        decreases events.len(),
    {
        if events.len() == 0 {
            0u8
        } else {
            let last = events[events.len() - 1];
            if last.t == t {
                last.spikes@[n]
            } else {
                Self::spec_output_entry(events.drop_last(), n, t)
            }
        }
    }

    /// Rebuild the dense `output neurons x spike_len` matrix from the
    /// events the last layer emitted. Columns for which no event arrived
    /// (because an all-zero vector was suppressed) stay zero.
    pub fn derive_output_spikes(&self, output_spike_events: &Vec<SpikeEvent>, spike_len: usize) -> (r: Vec<
        Vec<u8>,
    >)
        requires
            self.layers@.len() > 0,
            forall|k: int|
                0 <= k < output_spike_events@.len() ==> (#[trigger] output_spike_events@[k]).wf(),
            forall|k: int|
                0 <= k < output_spike_events@.len()
                    ==> (#[trigger] output_spike_events@[k]).spikes@.len()
                    == self.spec_output_dim(),
            forall|k: int|
                0 <= k < output_spike_events@.len() ==> (#[trigger] output_spike_events@[k]).t
                    < spike_len,
        ensures
            r@.len() == self.spec_output_dim(),
            forall|n: int| 0 <= n < r@.len() ==> (#[trigger] r@[n]@).len() == spike_len,
            forall|n: int, t: int|
                0 <= n < r@.len() && 0 <= t < spike_len ==> #[trigger] r@[n]@[t]
                    == Self::spec_output_entry(output_spike_events@, n, t),
            forall|n: int, t: int|
                0 <= n < r@.len() && 0 <= t < spike_len ==> #[trigger] r@[n]@[t] <= 1,
    {
        let num_rows = self.get_output_layer_num_neurons();
        let num_cols = spike_len;

        let mut output_spikes: Vec<Vec<u8>> = Vec::new();
        let mut n: usize = 0;
        while n < num_rows
            invariant
                n <= num_rows,
                output_spikes@.len() == n,
                forall|i: int| 0 <= i < n ==> (#[trigger] output_spikes@[i]@).len() == num_cols,
                forall|i: int, t: int|
                    0 <= i < n && 0 <= t < num_cols ==> #[trigger] output_spikes@[i]@[t] == 0,
            decreases num_rows - n,
        {
            let row = zero_vector(num_cols);
            output_spikes.push(row);
            n += 1;
        }

        proof {
            lemma_output_entry_zero_prefix(output_spike_events@);
        }
        let ghost all_events = output_spike_events@;
        let num_events = output_spike_events.len();
        let mut k: usize = 0;
        while k < num_events
            invariant
                num_events == all_events.len(),
                all_events == output_spike_events@,
                num_rows == self.spec_output_dim(),
                forall|e: int| 0 <= e < all_events.len() ==> (#[trigger] all_events[e]).wf(),
                forall|e: int|
                    0 <= e < all_events.len() ==> (#[trigger] all_events[e]).spikes@.len()
                        == num_rows,
                forall|e: int|
                    0 <= e < all_events.len() ==> (#[trigger] all_events[e]).t < num_cols,
                k <= num_events,
                output_spikes@.len() == num_rows,
                forall|i: int| 0 <= i < num_rows ==> (#[trigger] output_spikes@[i]@).len()
                    == num_cols,
                forall|i: int, t: int|
                    0 <= i < num_rows && 0 <= t < num_cols ==> #[trigger] output_spikes@[i]@[t]
                        == Self::spec_output_entry(all_events.take(k as int), i, t),
                forall|i: int, t: int|
                    #![trigger output_spikes@[i]@[t]]
                    0 <= i < num_rows && 0 <= t < num_cols ==> output_spikes@[i]@[t] <= 1,
            decreases num_events - k,
        {
            let event = &output_spike_events[k];
            let te = event.get_t() as usize;
            let event_spikes = event.get_spikes();
            let mut n2: usize = 0;
            while n2 < num_rows
                invariant
                    num_rows == self.spec_output_dim(),
                    k < num_events,
                    num_events == all_events.len(),
                    all_events == output_spike_events@,
                    forall|e: int| 0 <= e < all_events.len() ==> (#[trigger] all_events[e]).wf(),
                    forall|e: int|
                        0 <= e < all_events.len() ==> (#[trigger] all_events[e]).spikes@.len()
                            == num_rows,
                    forall|e: int|
                        0 <= e < all_events.len() ==> (#[trigger] all_events[e]).t < num_cols,
                    event_spikes@ == all_events[k as int].spikes@,
                    te == all_events[k as int].t,
                    te < num_cols,
                    n2 <= num_rows,
                    output_spikes@.len() == num_rows,
                    forall|i: int| 0 <= i < num_rows ==> (#[trigger] output_spikes@[i]@).len()
                        == num_cols,
                    forall|i: int, t: int|
                        0 <= i < num_rows && 0 <= t < num_cols && !(i < n2 && t == te)
                            ==> #[trigger] output_spikes@[i]@[t] == Self::spec_output_entry(
                            all_events.take(k as int),
                            i,
                            t,
                        ),
                    forall|i: int|
                        0 <= i < n2 ==> #[trigger] output_spikes@[i]@[te as int]
                            == all_events[k as int].spikes@[i],
                    forall|i: int, t: int|
                        #![trigger output_spikes@[i]@[t]]
                        0 <= i < num_rows && 0 <= t < num_cols ==> output_spikes@[i]@[t] <= 1,
                decreases num_rows - n2,
            {
                let spike = event_spikes[n2];
                output_spikes[n2][te] = spike;
                n2 += 1;
            }
            proof {
                lemma_output_entry_take_step(all_events, k as int);
            }
            k += 1;
        }
        proof {
            assert(all_events.take(num_events as int) =~= all_events);
        }
        output_spikes
    }
}

/// Before any event is processed, every matrix entry is the value of the
/// empty event prefix: zero.
proof fn lemma_output_entry_zero_prefix(events: Seq<SpikeEvent>)
    ensures
        forall|n: int, t: int| #[trigger] SNN::spec_output_entry(events.take(0), n, t) == 0u8,
{
    assert forall|n: int, t: int| #[trigger] SNN::spec_output_entry(events.take(0), n, t)
        == 0u8 by {
        assert(events.take(0).len() == 0);
    }
}

/// Extending the processed prefix by event `k` changes exactly the column
/// of that event's time step, which takes the event's spike values.
proof fn lemma_output_entry_take_step(events: Seq<SpikeEvent>, k: int)
    requires
        0 <= k < events.len(),
    ensures
        forall|n: int, t: int|
            #![trigger SNN::spec_output_entry(events.take(k + 1), n, t)]
            0 <= n && 0 <= t ==> SNN::spec_output_entry(events.take(k + 1), n, t) == if t
                == events[k].t {
                events[k].spikes@[n]
            } else {
                SNN::spec_output_entry(events.take(k), n, t)
            },
{
    assert forall|n: int, t: int|
        0 <= n && 0 <= t implies #[trigger] SNN::spec_output_entry(events.take(k + 1), n, t) == if t
        == events[k].t {
        events[k].spikes@[n]
    } else {
        SNN::spec_output_entry(events.take(k), n, t)
    } by {
        let pre = events.take(k + 1);
        assert(pre.len() == k + 1);
        assert(pre[k] == events[k]);
        assert(pre.drop_last() =~= events.take(k));
    }
}

} // verus!
