//! Consistency-checked assembly of a network from per-layer parameters.
//!
//! The builder accumulates `(neurons, extra weights, intra weights)`
//! triples and accepts a layer exactly when its dimensions agree with the
//! network built so far and no off-diagonal lateral weight is positive;
//! a network is produced exactly when at least one layer was added.

use vstd::prelude::*;

use crate::float_bits::{is_positive_value, spec_is_positive};
use crate::layer::{matrix_view, Layer};
use crate::lif::Lif;
use crate::snn::SNN;

verus! {

/// Why the builder rejected its input.
#[derive(Debug, Clone, Copy, PartialEq, Eq, Structural)]
pub enum BuilderError {
    /// A layer's dimensions do not agree, or an off-diagonal lateral
    /// weight is positive.
    InconsistentLayer,
    /// `build` was called before any layer was added.
    EmptyNetwork,
}

/// Everything that describes the network under construction.
#[derive(Debug, Clone)]
pub struct BuilderParameters {
    pub input_length: usize,
    pub neurons: Vec<Vec<Lif>>,
    pub extra_weights: Vec<Vec<Vec<u64>>>,
    pub intra_weights: Vec<Vec<Vec<u64>>>,
    pub num_layers: usize,
}

/// A lateral weight matrix is consistent for `n` neurons: square of side
/// `n`, with every off-diagonal entry not positive (diagonal entries are
/// ignored by the processing and may hold anything).
pub open spec fn spec_intra_consistent(intra: Seq<Seq<u64>>, n: nat) -> bool {
    &&& intra.len() == n
    &&& forall|i: int| 0 <= i < intra.len() ==> #[trigger] intra[i].len() == n
    &&& forall|i: int, j: int|
        #![trigger intra[i][j]]
        0 <= i < intra.len() && 0 <= j < intra[i].len() && i != j ==> !spec_is_positive(
            intra[i][j],
        )
}

/// An incoming weight matrix is consistent: one row per neuron, each row
/// as long as the previous layer (or the network input for the first).
pub open spec fn spec_extra_consistent(extra: Seq<Seq<u64>>, n: nat, prev_dim: nat) -> bool {
    &&& extra.len() == n
    &&& forall|i: int| 0 <= i < extra.len() ==> #[trigger] extra[i].len() == prev_dim
}

impl BuilderParameters {
    /// Width that the next layer's incoming matrix must have: the network
    /// input for the first layer, the last layer's size afterwards.
    pub open spec fn spec_next_input_dim(self) -> nat {
        if self.neurons@.len() == 0 {
            self.input_length as nat
        } else {
            self.neurons@[self.neurons@.len() - 1]@.len()
        }
    }

    /// All stored layers are mutually consistent and their component
    /// counts fit in `usize`.
    pub open spec fn wf(self) -> bool {
        &&& self.num_layers == self.neurons@.len()
        &&& self.extra_weights@.len() == self.num_layers
        &&& self.intra_weights@.len() == self.num_layers
        &&& forall|l: int|
            0 <= l < self.num_layers ==> spec_extra_consistent(
                matrix_view(#[trigger] self.extra_weights@[l]@),
                self.neurons@[l]@.len(),
                self.spec_layer_input_dim(l),
            )
        &&& forall|l: int|
            0 <= l < self.num_layers ==> spec_intra_consistent(
                matrix_view(#[trigger] self.intra_weights@[l]@),
                self.neurons@[l]@.len(),
            )
        &&& forall|l: int|
            0 <= l < self.num_layers ==> (#[trigger] self.neurons@[l]@.len())
                * self.spec_layer_input_dim(l) <= usize::MAX
        &&& forall|l: int|
            0 <= l < self.num_layers ==> (#[trigger] self.neurons@[l]@.len()) * self.neurons@[l]@.len()
                <= usize::MAX
    }

    /// Width of layer `l`'s incoming matrix.
    pub open spec fn spec_layer_input_dim(self, l: int) -> nat {
        if l == 0 {
            self.input_length as nat
        } else {
            self.neurons@[l - 1]@.len()
        }
    }

    pub fn get_neurons(&self) -> (r: &Vec<Vec<Lif>>)
        ensures
            r@ == self.neurons@,
    {
        &self.neurons
    }

    pub fn get_extra_weights(&self) -> (r: &Vec<Vec<Vec<u64>>>)
        ensures
            r@ == self.extra_weights@,
    {
        &self.extra_weights
    }

    pub fn get_intra_weights(&self) -> (r: &Vec<Vec<Vec<u64>>>)
        ensures
            r@ == self.intra_weights@,
    {
        &self.intra_weights
    }
}

/// Fluent accumulator that checks each layer as it is added and finally
/// assembles the network.
#[derive(Debug, Clone)]
pub struct SNNBuilder {
    pub parameters: BuilderParameters,
}

impl SNNBuilder {
    pub open spec fn wf(self) -> bool {
        self.parameters.wf()
    }

    pub fn new(input_length: usize) -> (r: Self)
        ensures
            r.parameters.input_length == input_length,
            r.parameters.neurons@.len() == 0,
            r.parameters.extra_weights@.len() == 0,
            r.parameters.intra_weights@.len() == 0,
            r.parameters.num_layers == 0,
            r.wf(),
    {
        SNNBuilder {
            parameters: BuilderParameters {
                input_length,
                neurons: Vec::new(),
                extra_weights: Vec::new(),
                intra_weights: Vec::new(),
                num_layers: 0,
            },
        }
    }

    pub fn get_parameters(self) -> (r: BuilderParameters)
        ensures
            r == self.parameters,
    {
        self.parameters
    }

    /// Check a lateral weight matrix against the number of neurons: square
    /// of that side, no positive off-diagonal entry.
    fn check_intra_weights(&self, intra_weights: &Vec<Vec<u64>>, neurons_len: usize) -> (r: bool)
        ensures
            r == spec_intra_consistent(matrix_view(intra_weights@), neurons_len as nat),
    {
        if neurons_len != intra_weights.len() {
            return false;
        }
        let mut i: usize = 0;
        while i < intra_weights.len()
            invariant
                neurons_len == intra_weights@.len(),
                i <= intra_weights@.len(),
                forall|k: int|
                    0 <= k < i ==> #[trigger] matrix_view(intra_weights@)[k].len() == neurons_len,
                forall|k: int, j: int|
                    #![trigger matrix_view(intra_weights@)[k][j]]
                    0 <= k < i && 0 <= j < matrix_view(intra_weights@)[k].len() && k != j
                        ==> !spec_is_positive(matrix_view(intra_weights@)[k][j]),
            decreases intra_weights@.len() - i,
        {
            let row = &intra_weights[i];
            if row.len() != neurons_len {
                proof {
                    let m = matrix_view(intra_weights@);
                    assert(m[i as int].len() == row@.len());
                }
                return false;
            }
            let mut j: usize = 0;
            while j < row.len()
                invariant
                    neurons_len == intra_weights@.len(),
                    i < intra_weights@.len(),
                    row@ == intra_weights@[i as int]@,
                    row@.len() == neurons_len,
                    j <= row@.len(),
                    forall|jj: int|
                        0 <= jj < j && i != jj ==> !spec_is_positive(#[trigger] row@[jj]),
                decreases row@.len() - j,
            {
                if i != j && is_positive_value(row[j]) {
                    proof {
                        let m = matrix_view(intra_weights@);
                        assert(m[i as int][j as int] == row@[j as int]);
                    }
                    return false;
                }
                j += 1;
            }
            i += 1;
        }
        true
    }

    /// Check an incoming weight matrix: one row per neuron, each row of
    /// width `expected_cols`.
    fn check_extra_weights(
        &self,
        extra_weights: &Vec<Vec<u64>>,
        neurons_len: usize,
        expected_cols: usize,
    ) -> (r: bool)
        ensures
            r == spec_extra_consistent(
                matrix_view(extra_weights@),
                neurons_len as nat,
                expected_cols as nat,
            ),
    {
        if neurons_len != extra_weights.len() {
            return false;
        }
        let mut i: usize = 0;
        while i < extra_weights.len()
            invariant
                neurons_len == extra_weights@.len(),
                i <= extra_weights@.len(),
                forall|k: int|
                    0 <= k < i ==> #[trigger] matrix_view(extra_weights@)[k].len()
                        == expected_cols,
            decreases extra_weights@.len() - i,
        {
            if extra_weights[i].len() != expected_cols {
                proof {
                    let m = matrix_view(extra_weights@);
                    assert(m[i as int].len() != expected_cols);
                }
                return false;
            }
            i += 1;
        }
        true
    }

    /// Add one layer. The layer is accepted exactly when its dimensions
    /// agree with the network built so far and no off-diagonal lateral
    /// weight is positive.
    pub fn add_layer(
        self,
        neurons: Vec<Lif>,
        extra_weights: Vec<Vec<u64>>,
        intra_weights: Vec<Vec<u64>>,
    ) -> (r: Result<Self, BuilderError>)
        requires
            self.wf(),
            self.parameters.num_layers < usize::MAX,
            neurons@.len() * neurons@.len() <= usize::MAX,
            neurons@.len() * self.parameters.spec_next_input_dim() <= usize::MAX,
        ensures
            r is Ok <==> spec_intra_consistent(matrix_view(intra_weights@), neurons@.len())
                && spec_extra_consistent(
                matrix_view(extra_weights@),
                neurons@.len(),
                self.parameters.spec_next_input_dim(),
            ),
            r is Err ==> r->Err_0 == BuilderError::InconsistentLayer,
            r matches Ok(b) ==> {
                &&& b.parameters.input_length == self.parameters.input_length
                &&& b.parameters.num_layers == self.parameters.num_layers + 1
                &&& b.parameters.neurons@ == self.parameters.neurons@.push(neurons)
                &&& b.parameters.extra_weights@ == self.parameters.extra_weights@.push(
                    extra_weights,
                )
                &&& b.parameters.intra_weights@ == self.parameters.intra_weights@.push(
                    intra_weights,
                )
                &&& b.wf()
            },
    {
        let neurons_len = neurons.len();
        if !self.check_intra_weights(&intra_weights, neurons_len) {
            return Err(BuilderError::InconsistentLayer);
        }
        let expected_cols = if self.parameters.num_layers == 0 {
            self.parameters.input_length
        } else {
            proof {
                assert(self.parameters.num_layers == self.parameters.neurons@.len());
            }
            self.parameters.neurons[self.parameters.num_layers - 1].len()
        };
        if !self.check_extra_weights(&extra_weights, neurons_len, expected_cols) {
            return Err(BuilderError::InconsistentLayer);
        }

        let mut parameters = self.parameters;
        parameters.num_layers = parameters.num_layers + 1;
        parameters.neurons.push(neurons);
        parameters.extra_weights.push(extra_weights);
        parameters.intra_weights.push(intra_weights);
        let r = SNNBuilder { parameters };
        proof {
            lemma_wf_after_push(self.parameters, r.parameters);
        }
        Ok(r)
    }

    /// Assemble the network. Succeeds exactly when at least one layer was
    /// added; the produced network holds the accumulated layers in order,
    /// each with a zeroed previous output.
    pub fn build(self) -> (r: Result<SNN, BuilderError>)
        requires
            self.wf(),
        ensures
            r is Ok <==> self.parameters.num_layers > 0,
            r is Err ==> r->Err_0 == BuilderError::EmptyNetwork,
            r matches Ok(snn) ==> {
                &&& snn.layers@.len() == self.parameters.num_layers
                &&& forall|l: int|
                    0 <= l < snn.layers@.len() ==> (#[trigger] snn.layers@[l]).neurons@
                        == self.parameters.neurons@[l]@
                &&& forall|l: int|
                    0 <= l < snn.layers@.len() ==> (#[trigger] snn.layers@[l]).extra_view()
                        == matrix_view(self.parameters.extra_weights@[l]@)
                &&& forall|l: int|
                    0 <= l < snn.layers@.len() ==> (#[trigger] snn.layers@[l]).intra_view()
                        == matrix_view(self.parameters.intra_weights@[l]@)
                &&& snn.wf()
            },
    {
        if self.parameters.num_layers == 0 {
            return Err(BuilderError::EmptyNetwork);
        }
        let BuilderParameters { input_length: _input_length, mut neurons, mut extra_weights, mut intra_weights, num_layers } =
            self.parameters;

        let ghost p = self.parameters;
        let mut layers: Vec<Layer> = Vec::new();

        // Consume the per-layer triples front to back.
        let mut l: usize = 0;
        while l < num_layers
            invariant
                p.wf(),
                p == self.parameters,
                num_layers == p.num_layers,
                l <= num_layers,
                neurons@ == p.neurons@.skip(l as int),
                extra_weights@ == p.extra_weights@.skip(l as int),
                intra_weights@ == p.intra_weights@.skip(l as int),
                layers@.len() == l,
                forall|k: int|
                    0 <= k < l ==> (#[trigger] layers@[k]).neurons@ == p.neurons@[k]@,
                forall|k: int|
                    0 <= k < l ==> (#[trigger] layers@[k]).extra_view() == matrix_view(
                        p.extra_weights@[k]@,
                    ),
                forall|k: int|
                    0 <= k < l ==> (#[trigger] layers@[k]).intra_view() == matrix_view(
                        p.intra_weights@[k]@,
                    ),
                forall|k: int| 0 <= k < l ==> (#[trigger] layers@[k]).wf(),
                forall|k: int|
                    0 <= k < l ==> (#[trigger] layers@[k]).prev_output@.len()
                        == layers@[k].neurons@.len(),
            decreases num_layers - l,
        {
            let layer_neurons = neurons.remove(0);
            let layer_extra = extra_weights.remove(0);
            let layer_intra = intra_weights.remove(0);
            proof {
                assert(layer_neurons@ == p.neurons@[l as int]@);
                assert(spec_extra_consistent(
                    matrix_view(layer_extra@),
                    layer_neurons@.len(),
                    p.spec_layer_input_dim(l as int),
                ));
                assert(spec_intra_consistent(matrix_view(layer_intra@), layer_neurons@.len()));
                assert(p.neurons@[l as int]@.len() * p.spec_layer_input_dim(l as int)
                    <= usize::MAX);
                assert(p.neurons@[l as int]@.len() * p.neurons@[l as int]@.len() <= usize::MAX);
                let nn: int = layer_neurons@.len() as int;
                let w0: int = matrix_view(layer_extra@)[0].len() as int;
                if layer_extra@.len() > 0 {
                    assert(matrix_view(layer_extra@)[0].len() == p.spec_layer_input_dim(l as int));
                    assert(nn * w0 <= usize::MAX);
                } else {
                    assert(nn == 0);
                    assert(nn * w0 == 0) by (nonlinear_arith)
                        requires
                            nn == 0,
                    ;
                    assert(nn * w0 <= usize::MAX);
                }
                assert forall|ii: int|
                    0 <= ii < layer_extra@.len() implies #[trigger] layer_extra@[ii]@.len()
                    == matrix_view(layer_extra@)[0].len() by {
                    assert(matrix_view(layer_extra@)[ii].len() == p.spec_layer_input_dim(
                        l as int,
                    ));
                }
                assert forall|ii: int|
                    0 <= ii < layer_intra@.len() implies #[trigger] layer_intra@[ii]@.len()
                    == layer_neurons@.len() by {
                    assert(matrix_view(layer_intra@)[ii].len() == layer_neurons@.len());
                }
            }
            let layer = Layer::new(layer_neurons, layer_extra, layer_intra);
            layers.push(layer);
            l += 1;
        }
        let snn = SNN::new(layers);
        proof {
            assert forall|k: int|
                1 <= k < snn.layers@.len() && (#[trigger] snn.layers@[k]).neurons@.len()
                    > 0 implies snn.layers@[k].spec_input_len() == snn.layers@[k
                - 1].neurons@.len() by {
                assert(spec_extra_consistent(
                    matrix_view(p.extra_weights@[k]@),
                    p.neurons@[k]@.len(),
                    p.spec_layer_input_dim(k),
                ));
                assert(snn.layers@[k].extra_view()[0].len() == matrix_view(p.extra_weights@[k]@)[0].len());
                assert(matrix_view(p.extra_weights@[k]@)[0].len() == p.spec_layer_input_dim(k));
            }
        }
        Ok(snn)
    }
}

/// Pushing a consistent layer onto well-formed builder parameters keeps
/// them well formed.
proof fn lemma_wf_after_push(before: BuilderParameters, after: BuilderParameters)
    requires
        before.wf(),
        after.input_length == before.input_length,
        after.num_layers == before.num_layers + 1,
        after.neurons@.len() == before.neurons@.len() + 1,
        after.neurons@ == before.neurons@.push(after.neurons@.last()),
        after.extra_weights@ == before.extra_weights@.push(after.extra_weights@.last()),
        after.intra_weights@ == before.intra_weights@.push(after.intra_weights@.last()),
        spec_extra_consistent(
            matrix_view(after.extra_weights@.last()@),
            after.neurons@.last()@.len(),
            before.spec_next_input_dim(),
        ),
        spec_intra_consistent(
            matrix_view(after.intra_weights@.last()@),
            after.neurons@.last()@.len(),
        ),
        after.neurons@.last()@.len() * after.neurons@.last()@.len() <= usize::MAX,
        after.neurons@.last()@.len() * before.spec_next_input_dim() <= usize::MAX,
    ensures
        after.wf(),
{
    let n = after.num_layers as int;
    assert forall|l: int| 0 <= l < n implies spec_extra_consistent(
        matrix_view(#[trigger] after.extra_weights@[l]@),
        after.neurons@[l]@.len(),
        after.spec_layer_input_dim(l),
    ) by {
        if l < n - 1 {
            assert(after.extra_weights@[l] == before.extra_weights@[l]);
            assert(spec_extra_consistent(
                matrix_view(before.extra_weights@[l]@),
                before.neurons@[l]@.len(),
                before.spec_layer_input_dim(l),
            ));
        } else {
            assert(after.spec_layer_input_dim(l) == before.spec_next_input_dim());
        }
    }
    assert forall|l: int| 0 <= l < n implies spec_intra_consistent(
        matrix_view(#[trigger] after.intra_weights@[l]@),
        after.neurons@[l]@.len(),
    ) by {
        if l < n - 1 {
            assert(after.intra_weights@[l] == before.intra_weights@[l]);
            assert(spec_intra_consistent(
                matrix_view(before.intra_weights@[l]@),
                before.neurons@[l]@.len(),
            ));
        }
    }
    assert forall|l: int| 0 <= l < n implies (#[trigger] after.neurons@[l]@.len())
        * after.spec_layer_input_dim(l) <= usize::MAX by {
        if l < n - 1 {
            assert(after.neurons@[l] == before.neurons@[l]);
            assert(before.neurons@[l]@.len() * before.spec_layer_input_dim(l) <= usize::MAX);
        } else {
            assert(after.spec_layer_input_dim(l) == before.spec_next_input_dim());
        }
    }
    assert forall|l: int| 0 <= l < n implies (#[trigger] after.neurons@[l]@.len())
        * after.neurons@[l]@.len() <= usize::MAX by {
        if l < n - 1 {
            assert(after.neurons@[l] == before.neurons@[l]);
            assert(before.neurons@[l]@.len() * before.neurons@[l]@.len() <= usize::MAX);
        }
    }
}

} // verus!
