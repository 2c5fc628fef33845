use vstd::prelude::*;

verus! {

/// Below this many consecutive empty cycles an idle worker only spins.
pub const SPIN_LIMIT: u64 = 10;

/// Below this many consecutive empty cycles (and from `SPIN_LIMIT` on) an
/// idle worker yields its time slice.
pub const YIELD_LIMIT: u64 = 100;

/// How long, in microseconds, an idle worker sleeps from `YIELD_LIMIT` on.
pub const SLEEP_MICROS: u64 = 50;

/// What an idle worker does before it looks for work again.
#[derive(Debug, Clone, Copy, PartialEq, Eq, Structural)]
pub enum IdleAction {
    /// A processor hint inside a busy loop.
    Spin,
    /// Give the rest of the time slice back to the operating system.
    Yield,
    /// Sleep for `SLEEP_MICROS` microseconds.
    Sleep,
}

/// The action owed after `count` consecutive empty cycles.
pub open spec fn action_for(count: nat) -> IdleAction {
    if count < SPIN_LIMIT {
        IdleAction::Spin
    } else if count < YIELD_LIMIT {
        IdleAction::Yield
    } else {
        IdleAction::Sleep
    }
}

/// How intense an action is: spinning reacts fastest, sleeping saves most.
pub open spec fn tier(a: IdleAction) -> nat {
    match a {
        IdleAction::Spin => 0,
        IdleAction::Yield => 1,
        IdleAction::Sleep => 2,
    }
}

/// The idle counter of one worker.
pub struct Backoff {
    pub spin_count: u64,
}

impl Backoff {
    /// A worker starts with no empty cycle behind it.
    pub fn new() -> (r: Backoff)
        ensures
            r.spin_count == 0,
    {
        Backoff { spin_count: 0 }
    }

    /// Records a cycle that found no job and says what to do about it. The
    /// counter stops at its largest value instead of wrapping, so a worker
    /// idle for ever keeps sleeping.
    pub fn record_empty(&mut self) -> (a: IdleAction)
        ensures
            final(self).spin_count as int == if old(self).spin_count == u64::MAX {
                u64::MAX as int
            } else {
                old(self).spin_count + 1
            },
            a == action_for(final(self).spin_count as nat),
    {
        self.spin_count = self.spin_count.saturating_add(1);
        if self.spin_count < SPIN_LIMIT {
            IdleAction::Spin
        } else if self.spin_count < YIELD_LIMIT {
            IdleAction::Yield
        } else {
            IdleAction::Sleep
        }
    }

    /// Records a cycle that obtained a job.
    pub fn reset(&mut self)
        ensures
            final(self).spin_count == 0,
    {
        self.spin_count = 0;
    }
}

/// The longer a worker has been idle, the less eagerly it polls: the action
/// never falls back to a cheaper tier while the counter grows.
pub proof fn lemma_backoff_monotone(a: nat, b: nat)
    requires
        a <= b,
    ensures
        tier(action_for(a)) <= tier(action_for(b)),
{
}

/// Once the counter reaches `YIELD_LIMIT`, every further empty cycle sleeps
/// for the same fixed interval: the backoff never waits longer than
/// `SLEEP_MICROS` between two looks at the queues.
pub proof fn lemma_backoff_sleep_bounded(count: nat)
    requires
        count >= YIELD_LIMIT,
    ensures
        action_for(count) == IdleAction::Sleep,
        action_for(count + 1) == IdleAction::Sleep,
{
}

} // verus!
