//! Retry pacing for connection attempts.
//!
//! A backend that must poll for its simulator's presence retries forever, but
//! never more than once per configured retry interval: no busy-spinning while
//! nothing is reachable, and no more than one interval of delay once the
//! simulator appears.  `RetryTimer` is that decision: given the current time,
//! it says whether a new attempt is due now.

use vstd::prelude::*;

verus! {

/// Whether a new attempt is due at `now_ms`, given the instant of the last
/// attempt: always for the first attempt, and afterwards exactly when a full
/// retry interval has passed.
pub open spec fn grants(delay_ms: u64, last_attempt_ms: Option<u64>, now_ms: u64) -> bool {
    match last_attempt_ms {
        None => true,
        Some(t) => now_ms >= t + delay_ms,
    }
}

/// The instants, among the poll instants `polls`, at which an attempt
/// actually fires, starting from a given last-attempt instant.
pub open spec fn granted_from(delay_ms: u64, last_attempt_ms: Option<u64>, polls: Seq<u64>) -> Seq<
    u64,
>
    decreases polls.len(),
{
    if polls.len() == 0 {
        Seq::empty()
    } else if grants(delay_ms, last_attempt_ms, polls[0]) {
        seq![polls[0]] + granted_from(delay_ms, Some(polls[0]), polls.drop_first())
    } else {
        granted_from(delay_ms, last_attempt_ms, polls.drop_first())
    }
}

/// Paces one backend's connection attempts: grants an attempt only when a
/// full retry interval has passed since the last one.
pub struct RetryTimer {
    delay_ms: u64,
    last_attempt_ms: Option<u64>,
}

impl RetryTimer {
    pub closed spec fn spec_delay_ms(self) -> u64 {
        self.delay_ms
    }

    pub closed spec fn spec_last_attempt_ms(self) -> Option<u64> {
        self.last_attempt_ms
    }

    /// A timer that has not attempted yet: its first poll is granted at once.
    pub fn new(delay_ms: u64) -> (r: RetryTimer)
        ensures
            r.spec_delay_ms() == delay_ms,
            r.spec_last_attempt_ms() is None,
    {
        RetryTimer { delay_ms, last_attempt_ms: None }
    }

    /// Asks whether an attempt is due at `now_ms`; when it is, the instant is
    /// recorded as the new last attempt.
    pub fn poll(&mut self, now_ms: u64) -> (attempt: bool)
        ensures
            attempt == grants(old(self).spec_delay_ms(), old(self).spec_last_attempt_ms(), now_ms),
            final(self).spec_delay_ms() == old(self).spec_delay_ms(),
            attempt ==> final(self).spec_last_attempt_ms() == Some(now_ms),
            !attempt ==> final(self).spec_last_attempt_ms() == old(self).spec_last_attempt_ms(),
    {
        let due: bool = match self.last_attempt_ms {
            None => true,
            Some(t) => now_ms >= t && now_ms - t >= self.delay_ms,
        };
        if due {
            self.last_attempt_ms = Some(now_ms);
        }
        due
    }
}

/// The attempts granted over any run of polls are spaced at least one full
/// retry interval apart, and all of them lie at least one interval past the
/// attempt the run started from.
proof fn lemma_granted_spaced(delay_ms: u64, last_attempt_ms: Option<u64>, polls: Seq<u64>)
    ensures
        ({
            let g = granted_from(delay_ms, last_attempt_ms, polls);
            &&& (last_attempt_ms matches Some(t) ==> forall|k: int|
                0 <= k < g.len() ==> #[trigger] g[k] >= t + delay_ms)
            &&& (forall|k: int| 0 <= k && k + 1 < g.len() ==> #[trigger] g[k + 1] >= g[k]
                + delay_ms)
        }),
    decreases polls.len(),
{
    if polls.len() == 0 {
    } else {
        let first = polls[0];
        let rest = polls.drop_first();
        if grants(delay_ms, last_attempt_ms, first) {
            lemma_granted_spaced(delay_ms, Some(first), rest);
            let tail = granted_from(delay_ms, Some(first), rest);
            let g = granted_from(delay_ms, last_attempt_ms, polls);
            assert(g == seq![first] + tail);
            assert(g[0] == first);
            assert(forall|k: int| 0 <= k < tail.len() ==> g[k + 1] == #[trigger] tail[k]);
            assert forall|k: int| 0 <= k && k + 1 < g.len() implies #[trigger] g[k + 1] >= g[k]
                + delay_ms by {
                if k == 0 {
                    assert(g[1] == tail[0]);
                    assert(tail[0] >= first + delay_ms);
                } else {
                    assert(g[k] == tail[k - 1]);
                    assert(g[k + 1] == tail[k]);
                }
            }
            match last_attempt_ms {
                Some(t) => {
                    assert forall|k: int| 0 <= k < g.len() implies #[trigger] g[k] >= t
                        + delay_ms by {
                        if k == 0 {
                            assert(g[0] == first);
                        } else {
                            assert(g[k] == tail[k - 1]);
                            assert(tail[k - 1] >= first + delay_ms);
                        }
                    }
                },
                None => {},
            }
        } else {
            lemma_granted_spaced(delay_ms, last_attempt_ms, rest);
            assert(granted_from(delay_ms, last_attempt_ms, polls) == granted_from(
                delay_ms,
                last_attempt_ms,
                rest,
            ));
        }
    }
}

/// No busy-spinning: over any run of polls with no attempt made before it,
/// any two consecutive granted attempts lie at least one full retry interval
/// apart — no more than one connection attempt per backend per interval.
pub proof fn lemma_one_attempt_per_interval(delay_ms: u64, polls: Seq<u64>, k: int)
    requires
        0 <= k,
        k + 1 < granted_from(delay_ms, None, polls).len(),
    ensures
        granted_from(delay_ms, None, polls)[k + 1] >= granted_from(delay_ms, None, polls)[k]
            + delay_ms,
{
    lemma_granted_spaced(delay_ms, None, polls);
}

/// Bounded waiting: any poll made a full retry interval or more after the
/// last attempt is granted, so a simulator that has become reachable is
/// attempted within one interval of the next poll.
pub proof fn lemma_attempt_within_one_interval(delay_ms: u64, last_attempt_ms: u64, now_ms: u64)
    requires
        now_ms >= last_attempt_ms + delay_ms,
    ensures
        grants(delay_ms, Some(last_attempt_ms), now_ms),
{
}

} // verus!
