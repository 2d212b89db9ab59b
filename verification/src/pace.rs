use vstd::prelude::*;

verus! {

/// Nanoseconds left of a pacing interval of `target_ns` after an iteration
/// spent `spent_ns`: the time a loop should sleep before its next iteration,
/// clamped to zero when the iteration overran its target.
pub open spec fn spec_sleep_budget(target_ns: u64, spent_ns: u64) -> u64 {
    if spent_ns >= target_ns {
        0u64
    } else {
        (target_ns - spent_ns) as u64
    }
}

/// How long a paced loop sleeps at the end of an iteration.  An iteration
/// that took longer than its target interval yields a zero sleep: the loop
/// proceeds immediately and never tries to "catch up" across iterations.
pub fn sleep_budget_ns(target_ns: u64, spent_ns: u64) -> (r: u64)
    ensures
        r == spec_sleep_budget(target_ns, spent_ns),
        spent_ns >= target_ns ==> r == 0,
        spent_ns < target_ns ==> r == target_ns - spent_ns,
        r <= target_ns,
{
    if spent_ns >= target_ns {
        0
    } else {
        target_ns - spent_ns
    }
}

} // verus!
