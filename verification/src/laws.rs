use vstd::arithmetic::mul::lemma_mul_inequality;
use vstd::arithmetic::mul::lemma_mul_nonnegative;
use vstd::prelude::*;

use crate::types::Stream;

verus! {

/// For any well-formed stream, the claimable amount is monotonically
/// non-decreasing in time, and never exceeds the remaining (un-withdrawn)
/// balance at which it saturates.
pub proof fn lemma_claimable_monotone(s: Stream, t1: u64, t2: u64)
    requires
        s.wf(),
        t1 <= t2,
    ensures
        s.claimable(t1) <= s.claimable(t2),
        s.claimable(t2) <= s.remaining(),
{
    let e1: int = if t1 >= s.last_update_time {
        t1 - s.last_update_time
    } else {
        0
    };
    let e2: int = if t2 >= s.last_update_time {
        t2 - s.last_update_time
    } else {
        0
    };
    lemma_mul_inequality(e1, e2, s.rate_per_second as int);
}

/// A stream whose accounting was just brought up to `now` (its
/// `last_update_time` is not in the past) has nothing claimable at `now`:
/// zero time has elapsed, so zero tokens have streamed. In particular a
/// second withdrawal with no elapsed time in between finds a claimable of
/// zero and fails.
pub proof fn lemma_no_claimable_without_elapsed(s: Stream, now: u64)
    requires
        s.wf(),
        now <= s.last_update_time,
    ensures
        s.claimable(now) == 0,
{
}

/// Cancellation settlement conserves funds: the accrued amount paid to the
/// recipient plus the refund returned to the sender equals exactly the
/// balance that remained before cancellation, and neither leg is negative.
pub proof fn lemma_cancel_settlement(s: Stream, now: u64)
    requires
        s.wf(),
    ensures
        0 <= s.claimable(now),
        s.deposited_amount - (s.withdrawn_amount + s.claimable(now)) >= 0,
        s.claimable(now) + (s.deposited_amount - (s.withdrawn_amount + s.claimable(now)))
            == s.remaining(),
{
    let elapsed: int = if now >= s.last_update_time {
        now - s.last_update_time
    } else {
        0
    };
    lemma_mul_nonnegative(elapsed, s.rate_per_second as int);
}

} // verus!
