//! Aggregate processor load from per-core readings.
use crate::percent::{is_percentage, FULL_SCALE};
use vstd::prelude::*;

verus! {

/// Sum of all readings.
pub open spec fn total_load(loads: Seq<u32>) -> nat
    decreases loads.len(),
{
    if loads.len() == 0 {
        0
    } else {
        total_load(loads.drop_last()) + loads.last() as nat
    }
}

/// Arithmetic mean of the readings, rounded down to the unit; 0 for no
/// readings at all.
pub open spec fn mean_load(loads: Seq<u32>) -> nat {
    if loads.len() == 0 {
        0
    } else {
        total_load(loads) / loads.len()
    }
}

/// Every reading is at most `bound`.
pub open spec fn all_at_most(loads: Seq<u32>, bound: nat) -> bool {
    forall|i: int| 0 <= i < loads.len() ==> loads[i] <= bound
}

/// The sum of readings that are each at most `bound` is at most
/// `len * bound`.
pub proof fn lemma_total_load_bounded(loads: Seq<u32>, bound: nat)
    requires
        all_at_most(loads, bound),
    ensures
        total_load(loads) <= loads.len() * bound,
    decreases loads.len(),
{
    if loads.len() > 0 {
        let front = loads.drop_last();
        lemma_total_load_bounded(front, bound);
        assert(front.len() * bound + bound == loads.len() * bound) by (nonlinear_arith)
            requires
                front.len() + 1 == loads.len(),
        ;
    }
}

/// The mean never exceeds a bound that holds of every reading. With
/// `bound` at 100 %, the aggregate of readings that are percentages is a
/// percentage.
pub proof fn lemma_mean_load_bounded(loads: Seq<u32>, bound: nat)
    requires
        all_at_most(loads, bound),
    ensures
        mean_load(loads) <= bound,
{
    if loads.len() > 0 {
        lemma_total_load_bounded(loads, bound);
        let n = loads.len();
        let total = total_load(loads);
        assert(total / n <= bound) by (nonlinear_arith)
            requires
                n > 0,
                total <= n * bound,
        ;
    }
}

/// The aggregate of readings that are percentages is a percentage.
pub proof fn lemma_aggregate_is_percentage(loads: Seq<u32>)
    requires
        all_at_most(loads, FULL_SCALE as nat),
    ensures
        is_percentage(mean_load(loads) as int),
{
    lemma_mean_load_bounded(loads, FULL_SCALE as nat);
}

/// The mean is the quotient of the sum by the count: multiplied back it
/// misses the sum by less than one unit per reading.
pub proof fn lemma_mean_load_is_quotient(loads: Seq<u32>)
    requires
        loads.len() > 0,
    ensures
        loads.len() * mean_load(loads) <= total_load(loads),
        total_load(loads) < loads.len() * (mean_load(loads) + 1),
{
    let n = loads.len();
    let total = total_load(loads);
    assert(n * (total / n) <= total && total < n * (total / n + 1)) by (nonlinear_arith)
        requires
            n > 0,
    ;
}

/// Aggregate load over all cores: the arithmetic mean of the per-core
/// readings, and 0 when no core is reported.
pub fn aggregate_load(loads: &Vec<u32>) -> (usage: u32)
    ensures
        usage == mean_load(loads@),
{
    let count: usize = loads.len();
    if count == 0 {
        return 0;
    }
    let mut sum: u128 = 0;
    let mut i: usize = 0;
    while i < count
        invariant
            count == loads.len(),
            i <= count,
            sum == total_load(loads@.take(i as int)),
            sum <= i * u32::MAX,
        decreases count - i,
    {
        proof {
            let next = loads@.take(i + 1);
            assert(next.drop_last() =~= loads@.take(i as int));
            assert(next.last() == loads@[i as int]);
            assert(i * u32::MAX + u32::MAX == (i + 1) * u32::MAX) by (nonlinear_arith);
        }
        sum = sum + loads[i] as u128;
        i = i + 1;
    }
    proof {
        assert(loads@.take(count as int) =~= loads@);
        lemma_mean_load_bounded(loads@, u32::MAX as nat);
    }
    let mean: u128 = sum / (count as u128);
    mean as u32
}

} // verus!
