//! Share of physical memory in use.

use vstd::prelude::*;

verus! {

/// The used share of `total`, in whole percent, rounded toward zero.
///
/// A total of zero is taken as "unknown" and gives 0. A share that does not
/// fit in 64 bits, which takes `used` far above `total`, is held at the
/// largest value.
pub open spec fn used_share(used: nat, total: nat) -> nat {
    if total == 0 {
        0
    } else if used * 100 / total > u64::MAX {
        u64::MAX as nat
    } else {
        used * 100 / total
    }
}

/// With no more in use than there is in total, the share is at most 100.
pub proof fn lemma_share_at_most_hundred(used: nat, total: nat)
    requires
        used <= total,
    ensures
        used_share(used, total) <= 100,
{
    if total > 0 {
        assert(used * 100 / total <= 100) by (nonlinear_arith)
            requires
                used <= total,
                total > 0,
        ;
    }
}

/// Percentage of memory in use, from the two counters of a memory refresh.
pub fn memory_percent(used: u64, total: u64) -> (percent: u64)
    ensures
        percent == used_share(used as nat, total as nat),
        total == 0 ==> percent == 0,
        used <= total ==> percent <= 100,
{
    if total == 0 {
        return 0;
    }
    proof {
        if used <= total {
            lemma_share_at_most_hundred(used as nat, total as nat);
        }
    }
    let scaled: u128 = used as u128 * 100;
    let share: u128 = scaled / (total as u128);
    if share > u64::MAX as u128 {
        u64::MAX
    } else {
        share as u64
    }
}

} // verus!
