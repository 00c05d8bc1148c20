//! The timers of the polling loops: a loop reads the clock once per tick,
//! and some ticks restart the loop's timer.
use vstd::prelude::*;

verus! {

/// Nanoseconds in a millisecond.
pub const NANOS_PER_MS: u64 = 1000000;

/// When the timer was last restarted before tick `k`: the restart time of
/// the latest earlier tick that restarted it (`restarted[j]`, at
/// `restarts[j]`), or the loop's start, time zero.
pub open spec fn timer_start(restarted: Seq<bool>, restarts: Seq<int>, k: int) -> int
    decreases k,
{
    if k <= 0 {
        0
    } else if restarted[k - 1] {
        restarts[k - 1]
    } else {
        timer_start(restarted, restarts, k - 1)
    }
}

/// How a loop meets the clock, in nanoseconds since it started: tick `k`
/// reads the clock at `reads[k]` and restarts its timer, if it does, at
/// `restarts[k]`, no earlier than that read; reads never go back.
pub open spec fn clock_ordered(reads: Seq<int>, restarts: Seq<int>) -> bool {
    &&& reads.len() == restarts.len()
    &&& forall|k: int| 0 <= k < reads.len() ==> 0 <= #[trigger] reads[k] <= restarts[k]
    &&& forall|j: int, k: int| 0 <= j <= k < reads.len() ==> #[trigger] reads[j] <= #[trigger] reads[k]
}

/// The timer never starts before the loop, nor before the read of an
/// earlier tick that restarted it.
pub proof fn lemma_timer_start_after(restarted: Seq<bool>, reads: Seq<int>, restarts: Seq<int>, j: int, k: int)
    requires
        clock_ordered(reads, restarts),
        restarted.len() == reads.len(),
        0 <= k <= reads.len(),
    ensures
        timer_start(restarted, restarts, k) >= 0,
        0 <= j < k && restarted[j] ==> timer_start(restarted, restarts, k) >= reads[j],
    decreases k,
{
    if k > 0 {
        lemma_timer_start_after(restarted, reads, restarts, j, k - 1);
        if restarted[k - 1] {
            assert(reads[k - 1] <= restarts[k - 1]);
            if 0 <= j < k {
                assert(reads[j] <= reads[k - 1]);
            }
        }
    }
}

} // verus!
