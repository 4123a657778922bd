//! The CPU field: the mean load over all cores, in whole percent.
//!
//! The loads may be given in whole percent or, where the source measures
//! finer, in thousandths of a percent: the mean is taken first and cut to
//! whole percent last.

use vstd::prelude::*;

verus! {

/// How many parts make one percent where loads are given in thousandths.
pub const PER_PERCENT: u32 = 1000;

/// The sum of the loads.
pub open spec fn total_load(loads: Seq<u32>) -> nat
    decreases loads.len(),
{
    if loads.len() == 0 {
        0
    } else {
        total_load(loads.drop_last()) + loads.last() as nat
    }
}

/// The mean of the loads, rounded toward zero; 0 where there is no core.
pub open spec fn mean_load(loads: Seq<u32>) -> nat {
    if loads.len() == 0 {
        0
    } else {
        total_load(loads) / loads.len()
    }
}

/// Loads that are all within `bound` add up to no more than `bound` for
/// each core.
pub proof fn lemma_total_load_bound(loads: Seq<u32>, bound: nat)
    requires
        forall|i: int| 0 <= i < loads.len() ==> loads[i] <= bound,
    ensures
        total_load(loads) <= loads.len() * bound,
    decreases loads.len(),
{
    if loads.len() > 0 {
        let front = loads.drop_last();
        assert forall|i: int| 0 <= i < front.len() implies front[i] <= bound by {
            assert(front[i] == loads[i]);
        }
        lemma_total_load_bound(front, bound);
        assert(loads.last() <= bound);
        assert(front.len() * bound + bound == loads.len() * bound) by (nonlinear_arith)
            requires
                front.len() + 1 == loads.len(),
        ;
    }
}

/// The mean of loads that are all within `bound` is within `bound` too: of
/// percentages it is a percentage.
pub proof fn lemma_mean_load_bound(loads: Seq<u32>, bound: nat)
    requires
        forall|i: int| 0 <= i < loads.len() ==> loads[i] <= bound,
    ensures
        mean_load(loads) <= bound,
{
    if loads.len() > 0 {
        lemma_total_load_bound(loads, bound);
        let total: nat = total_load(loads);
        let count: nat = loads.len();
        assert(total / count <= bound) by (nonlinear_arith)
            requires
                total <= count * bound,
                count > 0,
        ;
    }
}

/// The CPU field, from the load of each core in thousandths of a percent:
/// the mean in whole percent, rounded toward zero.
///
/// With no core to average over the field is 0.
pub fn cpu_percent(fine_loads: &[u32]) -> (percent: u32)
    ensures
        percent == mean_load(fine_loads@) / (PER_PERCENT as nat),
        fine_loads.len() == 0 ==> percent == 0,
        (forall|i: int| 0 <= i < fine_loads.len() ==> fine_loads[i] <= 100 * PER_PERCENT)
            ==> percent <= 100,
{
    proof {
        if forall|i: int| 0 <= i < fine_loads.len() ==> fine_loads[i] <= 100 * PER_PERCENT {
            lemma_mean_load_bound(fine_loads@, 100_000);
        }
    }
    cpu_average(fine_loads) / PER_PERCENT
}

/// The CPU field, from the load of each core in whole percent.
///
/// With no core to average over the field is 0.
pub fn cpu_average(loads: &[u32]) -> (mean: u32)
    ensures
        mean == mean_load(loads@),
        loads.len() == 0 ==> mean == 0,
        (forall|i: int| 0 <= i < loads.len() ==> loads[i] <= 100) ==> mean <= 100,
{
    let count: usize = loads.len();
    if count == 0 {
        return 0;
    }
    let mut total: u128 = 0;
    let mut i: usize = 0;
    while i < count
        invariant
            count == loads.len(),
            i <= count,
            total == total_load(loads@.take(i as int)),
            total <= i * u32::MAX,
        decreases count - i,
    {
        assert(loads@.take(i as int + 1).drop_last() =~= loads@.take(i as int));
        assert(i * u32::MAX + u32::MAX == (i + 1) * u32::MAX) by (nonlinear_arith);
        assert((i + 1) * u32::MAX <= usize::MAX * u32::MAX) by (nonlinear_arith)
            requires
                i + 1 <= usize::MAX,
        ;
        total = total + loads[i] as u128;
        i += 1;
    }
    proof {
        assert(loads@.take(i as int) =~= loads@);
        lemma_mean_load_bound(loads@, u32::MAX as nat);
        if forall|i: int| 0 <= i < loads.len() ==> loads[i] <= 100 {
            lemma_mean_load_bound(loads@, 100);
        }
    }
    (total / count as u128) as u32
}

} // verus!
