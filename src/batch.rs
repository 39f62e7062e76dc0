//! Whole-slice queries over slots and latencies.
use vstd::prelude::*;
use crate::credits::Slot;

verus! {

/// Sum of all values, as a mathematical integer.
pub open spec fn seq_sum(values: Seq<u64>) -> int
    decreases values.len(),
{
    if values.len() == 0 {
        0
    } else {
        seq_sum(values.drop_last()) + values.last()
    }
}

proof fn lemma_prefix_sum_le(values: Seq<u64>, i: int)
    requires
        0 <= i <= values.len(),
    ensures
        seq_sum(values.subrange(0, i)) <= seq_sum(values),
    decreases values.len() - i,
{
    if i < values.len() {
        lemma_prefix_sum_le(values, i + 1);
        assert(values.subrange(0, i + 1).drop_last() =~= values.subrange(0, i));
    } else {
        assert(values.subrange(0, i) =~= values);
    }
}

/// For each target, whether it occurs among `slots`.
pub fn batch_contains_slot(slots: &[Slot], targets: &[Slot]) -> (r: Vec<bool>)
    ensures
        r@.len() == targets@.len(),
        forall|i: int| 0 <= i < targets@.len() ==> #[trigger] r@[i] == slots@.contains(targets@[i]),
{
    let mut results: Vec<bool> = Vec::new();
    let mut i: usize = 0;
    while i < targets.len()
        invariant
            i <= targets@.len(),
            results@.len() == i,
            forall|k: int| 0 <= k < i ==> #[trigger] results@[k] == slots@.contains(targets@[k]),
        decreases targets@.len() - i,
    {
        let target = targets[i];
        let mut found = false;
        let mut j: usize = 0;
        while j < slots.len()
            invariant
                j <= slots@.len(),
                found == (exists|m: int| 0 <= m < j && slots@[m] == target),
            decreases slots@.len() - j,
        {
            if slots[j] == target {
                found = true;
            }
            j = j + 1;
        }
        proof {
            if found {
                let m = choose|m: int| 0 <= m < slots@.len() && slots@[m] == target;
                assert(slots@.contains(target));
            }
            if slots@.contains(target) {
                let m = choose|m: int| 0 <= m < slots@.len() && slots@[m] == target;
                assert(found);
            }
        }
        results.push(found);
        i = i + 1;
    }
    results
}

/// Sum of all values; the sum must fit in a `u64`.
pub fn simd_sum_u64(values: &[u64]) -> (sum: u64)
    requires
        seq_sum(values@) <= u64::MAX,
    ensures
        sum == seq_sum(values@),
{
    let mut sum: u64 = 0;
    let mut i: usize = 0;
    while i < values.len()
        invariant
            i <= values@.len(),
            sum == seq_sum(values@.subrange(0, i as int)),
            seq_sum(values@) <= u64::MAX,
        decreases values@.len() - i,
    {
        proof {
            lemma_prefix_sum_le(values@, i + 1);
            assert(values@.subrange(0, i + 1).drop_last() =~= values@.subrange(0, i as int));
        }
        sum = sum + values[i];
        i = i + 1;
    }
    assert(values@.subrange(0, i as int) =~= values@);
    sum
}

/// The smallest latency, or `None` for an empty slice.
pub fn simd_min_latency(latencies: &[u64]) -> (r: Option<u64>)
    ensures
        r is None <==> latencies@.len() == 0,
        r matches Some(m) ==> latencies@.contains(m) && forall|k: int|
            0 <= k < latencies@.len() ==> m <= #[trigger] latencies@[k],
{
    if latencies.len() == 0 {
        return None;
    }
    let mut min = latencies[0];
    let mut i: usize = 1;
    while i < latencies.len()
        invariant
            1 <= i <= latencies@.len(),
            latencies@.contains(min),
            forall|k: int| 0 <= k < i ==> min <= #[trigger] latencies@[k],
        decreases latencies@.len() - i,
    {
        if latencies[i] < min {
            min = latencies[i];
        }
        i = i + 1;
    }
    Some(min)
}

} // verus!
