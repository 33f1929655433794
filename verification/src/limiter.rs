//! The minimum interval between two runs of the transform stage.
//!
//! Time is a count of milliseconds on a clock of the caller's choosing. The
//! limiter needs no clock of its own and never blocks: it only answers
//! whether enough time has gone by since it last let a run through.

use vstd::prelude::*;

verus! {

/// Whether a limiter that last let a run through at `last` lets one through
/// at `now`: always if it never did, else once `min_interval` has gone by.
/// While the clock reads earlier than `last`, no run goes through.
pub open spec fn may_pass(last: Option<u64>, now: u64, min_interval: u64) -> bool {
    match last {
        None => true,
        Some(passed_at) => now >= passed_at && now - passed_at >= min_interval,
    }
}

/// When the limiter last let a run through, after a run was offered at each
/// of `times` in turn.
pub open spec fn last_after(last: Option<u64>, times: Seq<u64>, min_interval: u64) -> Option<u64>
    decreases times.len(),
{
    if times.len() == 0 {
        last
    } else {
        let before = last_after(last, times.drop_last(), min_interval);
        if may_pass(before, times.last(), min_interval) {
            Some(times.last())
        } else {
            before
        }
    }
}

/// Whether the run offered at `times[i]` is let through, when a run is
/// offered at each of `times` in turn.
pub open spec fn passes(last: Option<u64>, times: Seq<u64>, min_interval: u64, i: int) -> bool {
    may_pass(last_after(last, times.take(i), min_interval), times[i], min_interval)
}

proof fn lemma_last_after_a_pass(
    last: Option<u64>,
    times: Seq<u64>,
    min_interval: u64,
    i: int,
    j: int,
)
    requires
        0 <= i < j <= times.len(),
        passes(last, times, min_interval, i),
    ensures
        last_after(last, times.take(j), min_interval) matches Some(passed_at) && passed_at >= times[i],
    decreases j - i,
{
    assert(times.take(j).drop_last() =~= times.take(j - 1));
    assert(times.take(j).last() == times[j - 1]);
    if j > i + 1 {
        lemma_last_after_a_pass(last, times, min_interval, i, j - 1);
    }
}

/// Any two runs that the limiter lets through are at least `min_interval`
/// apart, whatever was offered in between and however often.
pub proof fn lemma_passes_are_spaced(
    last: Option<u64>,
    times: Seq<u64>,
    min_interval: u64,
    i: int,
    j: int,
)
    requires
        0 <= i < j < times.len(),
        passes(last, times, min_interval, i),
        passes(last, times, min_interval, j),
    ensures
        times[j] - times[i] >= min_interval,
{
    lemma_last_after_a_pass(last, times, min_interval, i, j);
}

/// Lets a run through at most once per `min_interval`.
pub struct RateLimiter {
    min_interval_ms: u64,
    last_ms: Option<u64>,
}

impl RateLimiter {
    /// The least time between two runs, in milliseconds.
    pub closed spec fn spec_min_interval(&self) -> u64 {
        self.min_interval_ms
    }

    /// When a run last went through, if one ever did.
    pub closed spec fn spec_last(&self) -> Option<u64> {
        self.last_ms
    }

    /// Whether a run offered at `now_ms` would go through.
    pub open spec fn spec_is_open(&self, now_ms: u64) -> bool {
        may_pass(self.spec_last(), now_ms, self.spec_min_interval())
    }

    /// A limiter that has let nothing through yet: the first run offered
    /// goes through.
    pub fn new(min_interval_ms: u64) -> (limiter: Self)
        ensures
            limiter.spec_min_interval() == min_interval_ms,
            limiter.spec_last() == None::<u64>,
    {
        RateLimiter { min_interval_ms, last_ms: None }
    }

    #[verifier::when_used_as_spec(spec_min_interval)]
    pub fn min_interval(&self) -> (min_interval_ms: u64)
        ensures
            min_interval_ms == self.spec_min_interval(),
    {
        self.min_interval_ms
    }

    #[verifier::when_used_as_spec(spec_last)]
    pub fn last(&self) -> (last_ms: Option<u64>)
        ensures
            last_ms == self.spec_last(),
    {
        self.last_ms
    }

    #[verifier::when_used_as_spec(spec_is_open)]
    pub fn is_open(&self, now_ms: u64) -> (open: bool)
        ensures
            open == self.spec_is_open(now_ms),
    {
        match self.last_ms {
            None => true,
            Some(passed_at) => now_ms >= passed_at && now_ms - passed_at >= self.min_interval_ms,
        }
    }

    /// Records that a run was made at `now_ms`.
    pub fn mark(&mut self, now_ms: u64)
        ensures
            final(self).spec_last() == Some(now_ms),
            final(self).spec_min_interval() == old(self).spec_min_interval(),
    {
        self.last_ms = Some(now_ms);
    }

    /// Offers a run at `now_ms`: if it may pass, it is recorded and `true`
    /// comes back, else nothing changes.
    pub fn try_pass(&mut self, now_ms: u64) -> (passed: bool)
        ensures
            passed == old(self).spec_is_open(now_ms),
            final(self).spec_last() == if passed {
                Some(now_ms)
            } else {
                old(self).spec_last()
            },
            final(self).spec_last() == last_after(
                old(self).spec_last(),
                seq![now_ms],
                old(self).spec_min_interval(),
            ),
            final(self).spec_min_interval() == old(self).spec_min_interval(),
    {
        proof {
            assert(seq![now_ms].drop_last() =~= Seq::<u64>::empty());
            reveal_with_fuel(last_after, 2);
        }
        if self.is_open(now_ms) {
            self.last_ms = Some(now_ms);
            true
        } else {
            false
        }
    }

    /// Forgets the last run: the next one offered goes through.
    pub fn reset(&mut self)
        ensures
            final(self).spec_last() == None::<u64>,
            final(self).spec_min_interval() == old(self).spec_min_interval(),
    {
        self.last_ms = None;
    }
}

} // verus!
