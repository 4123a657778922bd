//! The temperature field: the hottest of the sensors.

use vstd::prelude::*;

verus! {

/// The highest of the readings, in whole degrees; 0 where there is none.
pub open spec fn hottest(readings: Seq<u16>) -> nat
    decreases readings.len(),
{
    if readings.len() == 0 {
        0
    } else if readings.last() > hottest(readings.drop_last()) {
        readings.last() as nat
    } else {
        hottest(readings.drop_last())
    }
}

/// The hottest reading is no lower than any reading, and it is one of them
/// unless it is 0.
pub proof fn lemma_hottest_is_maximum(readings: Seq<u16>)
    ensures
        forall|i: int| 0 <= i < readings.len() ==> readings[i] <= hottest(readings),
        hottest(readings) == 0 || exists|i: int|
            0 <= i < readings.len() && readings[i] == hottest(readings),
        readings.len() == 0 ==> hottest(readings) == 0,
    decreases readings.len(),
{
    if readings.len() > 0 {
        let front = readings.drop_last();
        lemma_hottest_is_maximum(front);
        assert forall|i: int| 0 <= i < readings.len() implies readings[i] <= hottest(
            readings,
        ) by {
            if i < front.len() {
                assert(front[i] == readings[i]);
            }
        }
        if hottest(readings) != 0 {
            if readings.last() > hottest(front) {
                assert(readings[readings.len() - 1] == hottest(readings));
            } else {
                let i: int = choose|i: int| 0 <= i < front.len() && front[i] == hottest(front);
                assert(readings[i] == hottest(readings));
            }
        }
    }
}

/// The temperature to show, from the readings of all sensors.
///
/// No sensor at all gives 0.
pub fn max_temperature(readings: &[u16]) -> (max: u16)
    ensures
        max == hottest(readings@),
        forall|i: int| 0 <= i < readings.len() ==> readings[i] <= max,
        max == 0 || exists|i: int| 0 <= i < readings.len() && readings[i] == max,
{
    let mut max: u16 = 0;
    let mut i: usize = 0;
    while i < readings.len()
        invariant
            i <= readings.len(),
            max == hottest(readings@.take(i as int)),
        decreases readings.len() - i,
    {
        assert(readings@.take(i as int + 1).drop_last() =~= readings@.take(i as int));
        if readings[i] > max {
            max = readings[i];
        }
        i += 1;
    }
    proof {
        assert(readings@.take(i as int) =~= readings@);
        lemma_hottest_is_maximum(readings@);
    }
    max
}

} // verus!
