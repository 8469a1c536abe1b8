//! Classification utilities: the winning output neuron of one inference,
//! and the share of predictions that match the targets.

use vstd::prelude::*;

verus! {

/// Sum of the entries of one output row: how often that neuron spiked.
pub open spec fn spec_row_sum(row: Seq<u8>) -> int
    decreases row.len(),
{
    if row.len() == 0 {
        0
    } else {
        spec_row_sum(row.drop_last()) + row.last()
    }
}

/// Number of positions at which the two sequences agree, over their common
/// prefix of length `k`.
pub open spec fn spec_matching_prefix(a: Seq<u8>, b: Seq<u8>, k: int) -> int
    decreases k,
{
    if k <= 0 {
        0
    } else {
        spec_matching_prefix(a, b, k - 1) + if a[k - 1] == b[k - 1] {
            1int
        } else {
            0int
        }
    }
}

/// Number of positions at which prediction and target agree.
pub open spec fn spec_matching(a: Seq<u8>, b: Seq<u8>) -> int {
    spec_matching_prefix(a, b, if a.len() <= b.len() {
        a.len() as int
    } else {
        b.len() as int
    })
}

/// Total spike count of one row.
fn row_sum(row: &Vec<u8>) -> (r: u64)
    requires
        forall|t: int| 0 <= t < row@.len() ==> #[trigger] row@[t] <= 1,
    ensures
        r == spec_row_sum(row@),
        r <= row@.len(),
{
    let mut sum: u64 = 0;
    let mut k: usize = 0;
    while k < row.len()
        invariant
            forall|t: int| 0 <= t < row@.len() ==> #[trigger] row@[t] <= 1,
            k <= row@.len(),
            sum == spec_row_sum(row@.take(k as int)),
            sum <= k,
        decreases row@.len() - k,
    {
        proof {
            assert(row@.take(k as int + 1).drop_last() =~= row@.take(k as int));
        }
        sum = sum + row[k] as u64;
        k += 1;
    }
    proof {
        assert(row@.take(row@.len() as int) =~= row@);
    }
    sum
}

/// Index of the output neuron with the most spikes over time; the lowest
/// index wins a tie. The argmax over per-neuron total spike count decides
/// the predicted class of one inference.
pub fn compute_max_output_spike(output_spikes: Vec<Vec<u8>>) -> (r: u8)
    requires
        output_spikes@.len() <= 256,
        forall|n: int, t: int|
            #![trigger output_spikes@[n]@[t]]
            0 <= n < output_spikes@.len() && 0 <= t < output_spikes@[n]@.len()
                ==> output_spikes@[n]@[t] <= 1,
    ensures
        output_spikes@.len() == 0 ==> r == 0,
        output_spikes@.len() > 0 ==> r < output_spikes@.len(),
        forall|j: int|
            0 <= j < output_spikes@.len() ==> spec_row_sum(#[trigger] output_spikes@[j]@)
                <= spec_row_sum(output_spikes@[r as int]@),
        forall|j: int|
            0 <= j < r ==> spec_row_sum(#[trigger] output_spikes@[j]@) < spec_row_sum(
                output_spikes@[r as int]@,
            ),
{
    let mut max: u64 = 0;
    let mut max_j: usize = 0;
    let mut j: usize = 0;
    while j < output_spikes.len()
        invariant
            output_spikes@.len() <= 256,
            forall|n: int, t: int|
                #![trigger output_spikes@[n]@[t]]
                0 <= n < output_spikes@.len() && 0 <= t < output_spikes@[n]@.len()
                    ==> output_spikes@[n]@[t] <= 1,
            j <= output_spikes@.len(),
            j == 0 ==> max == 0 && max_j == 0,
            j > 0 ==> max_j < j,
            j > 0 ==> max == spec_row_sum(output_spikes@[max_j as int]@),
            forall|jj: int| 0 <= jj < j ==> spec_row_sum(#[trigger] output_spikes@[jj]@) <= max,
            forall|jj: int| 0 <= jj < max_j ==> spec_row_sum(#[trigger] output_spikes@[jj]@) < max,
            max >= 0,
        decreases output_spikes@.len() - j,
    {
        let v = row_sum(&output_spikes[j]);
        if v > max {
            max = v;
            max_j = j;
        }
        proof {
            if j == 0 && !(v > 0) {
                assert(spec_row_sum(output_spikes@[0]@) == v);
            }
        }
        j += 1;
    }
    max_j as u8
}

/// Accuracy in whole percent, truncated: the number of predictions that
/// equal their target, times 100, divided by the number of targets using
/// integer division.
pub fn compute_accuracy(vec_max: Vec<u8>, targets: &Vec<u8>) -> (r: u64)
    requires
        targets@.len() > 0,
        vec_max@.len() * 100 <= usize::MAX,
    ensures
        r == spec_matching(vec_max@, targets@) * 100 / targets@.len() as int,
{
    let limit = if vec_max.len() <= targets.len() {
        vec_max.len()
    } else {
        targets.len()
    };
    let mut matching: usize = 0;
    let mut i: usize = 0;
    while i < limit
        invariant
            limit <= vec_max@.len(),
            limit <= targets@.len(),
            i <= limit,
            matching == spec_matching_prefix(vec_max@, targets@, i as int),
            matching <= i,
        decreases limit - i,
    {
        if vec_max[i] == targets[i] {
            matching = matching + 1;
        }
        i += 1;
    }
    proof {
        assert(matching * 100 <= vec_max@.len() * 100) by (nonlinear_arith)
            requires
                matching <= vec_max@.len(),
        ;
    }
    ((matching * 100) / targets.len()) as u64
}

} // verus!
