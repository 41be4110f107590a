//! The reconnect policy of the dedicated connection: after each attempt the
//! caller sleeps `retry * 30` seconds, and the loop gives up once the attempt
//! made with `retry` at its limit has ended.
use vstd::prelude::*;

verus! {

/// The value of `retry` of the last attempt: the loop gives up when it ends.
pub const RETRY_LIMIT: u64 = 100;

/// Seconds of sleep per unit of `retry`.
pub const RETRY_STEP_SECS: u64 = 30;

/// What to do once a connection attempt has ended.
#[derive(PartialEq, Eq, Structural, Debug, Clone, Copy)]
pub enum RetryStep {
    /// Sleep, then attempt again.
    Retry { sleep_secs: u64 },
    /// Sleep, then stop with a fatal error: no further attempt.
    GiveUp { sleep_secs: u64 },
}

/// How a connection attempt ended.
#[derive(PartialEq, Eq, Structural, Debug, Clone, Copy)]
pub enum AttemptOutcome {
    /// The session opened and was dropped later.
    Dropped,
    /// The session could not be opened (invalid credential, connect failure).
    OpenFailed,
    /// The session failed while it ran (a subscribe or publish error).
    SessionFailed,
}

/// The retry counter of the reconnect loop. It starts at 1 and each ended
/// attempt adds one; attempts are made while it is at most the limit, so
/// the loop makes 100 attempts.
pub struct RetryLoop {
    retry: u64,
}

/// The step taken when the attempt made with counter `retry` ends.
pub open spec fn retry_step(retry: u64) -> RetryStep {
    if retry >= RETRY_LIMIT {
        RetryStep::GiveUp { sleep_secs: (retry * RETRY_STEP_SECS) as u64 }
    } else {
        RetryStep::Retry { sleep_secs: (retry * RETRY_STEP_SECS) as u64 }
    }
}

impl RetryLoop {
    pub closed spec fn counter(&self) -> u64 {
        self.retry
    }

    /// An attempt may still be made.
    pub open spec fn active(&self) -> bool {
        1 <= self.counter() <= RETRY_LIMIT
    }

    /// The number of attempts that have ended so far.
    pub open spec fn ended(&self) -> nat {
        (self.counter() - 1) as nat
    }

    pub fn new() -> (r: RetryLoop)
        ensures
            r.counter() == 1,
            r.active(),
    {
        RetryLoop { retry: 1 }
    }

    /// The current value of the counter.
    pub fn retry(&self) -> (r: u64)
        ensures
            r == self.counter(),
    {
        self.retry
    }

    /// Whether another attempt may be made.
    pub fn may_attempt(&self) -> (r: bool)
        ensures
            r == self.active(),
    {
        1 <= self.retry && self.retry <= RETRY_LIMIT
    }

    /// Records that an attempt ended, however it ended: a transport error is
    /// never fatal by itself and counts against the same budget as a dropped
    /// session. The caller sleeps `retry * 30` seconds, and then tries again
    /// unless the counter has reached the limit.
    pub fn attempt_ended(&mut self, outcome: AttemptOutcome) -> (r: RetryStep)
        requires
            old(self).active(),
        ensures
            r == retry_step(old(self).counter()),
            final(self).counter() == old(self).counter() + 1,
            final(self).active() <==> (r matches RetryStep::Retry { .. }),
    {
        let sleep_secs = self.retry * RETRY_STEP_SECS;
        let last = self.retry >= RETRY_LIMIT;
        self.retry = self.retry + 1;
        if last {
            RetryStep::GiveUp { sleep_secs }
        } else {
            RetryStep::Retry { sleep_secs }
        }
    }
}

/// The loop that starts at 1 and records each ended attempt makes exactly
/// 100 attempts: after each of the first 99 failed attempts it sleeps and
/// tries again, after the 100th it sleeps 100 * 30 seconds and gives up, and
/// no 101st attempt follows.
pub proof fn lemma_retry_budget(l: RetryLoop, k: nat)
    requires
        l.active(),
        l.ended() == k,
    ensures
        k < 100,
        l.counter() == k + 1,
        k + 1 < 100 ==> retry_step(l.counter()) == (RetryStep::Retry {
            sleep_secs: ((k + 1) * 30) as u64,
        }),
        k + 1 == 100 ==> retry_step(l.counter()) == (RetryStep::GiveUp { sleep_secs: 3000 }),
{
}

/// Once the loop has given up it is no longer active, so no further attempt
/// can be recorded.
pub proof fn lemma_no_attempt_after_give_up(before: RetryLoop, after: RetryLoop)
    requires
        before.active(),
        after.counter() == before.counter() + 1,
        (retry_step(before.counter()) matches RetryStep::GiveUp { .. }),
    ensures
        !after.active(),
        after.ended() == 100,
{
}

} // verus!
