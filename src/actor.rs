use crate::backoff::{action_for, Backoff, IdleAction};
use crate::queues::{
    first_of_spec, or_else_spec, pop_local, steal_batch_and_pop, steal_one, steal_or_else,
    StealOutcome,
};
use crossbeam::deque::{Injector, Stealer, Worker};
use std::sync::Arc;
use vstd::prelude::*;

verus! {

/// What a worker does next after one look at the queues.
pub enum Step<J> {
    /// Run this job against the worker's context.
    Run(J),
    /// A queue was contended: look again at once, without backing off.
    Retry,
    /// No job anywhere: back off in this way, then look again.
    Idle(IdleAction),
}

/// Tries the sibling queues in order and stops at the first job taken: a
/// job if one was taken, else a retry if any sibling asked for one, else
/// empty. Without a job, every sibling has been tried once.
pub fn steal_from_siblings<J>(stealers: &Vec<Stealer<J>>) -> (r: StealOutcome<J>)
    ensures
        exists|s: Seq<StealOutcome<J>>|
            {
                &&& s.len() <= stealers@.len()
                &&& !(r is Success) ==> s.len() == stealers@.len()
                &&& r == #[trigger] first_of_spec(s)
            },
{
    let mut acc: StealOutcome<J> = StealOutcome::Empty;
    let ghost mut seen: Seq<StealOutcome<J>> = Seq::empty();
    let mut i: usize = 0;
    while i < stealers.len()
        invariant
            i <= stealers@.len(),
            seen.len() == i,
            acc == first_of_spec(seen),
            !(acc is Success),
        decreases stealers@.len() - i,
    {
        let next = steal_one(&stealers[i]);
        let ghost prev = seen;
        proof {
            seen = seen.push(next);
            assert(seen.drop_last() =~= prev);
        }
        match next {
            StealOutcome::Success(j) => {
                assert(first_of_spec(seen) == StealOutcome::Success(j));
                return StealOutcome::Success(j);
            },
            StealOutcome::Retry => {
                acc = StealOutcome::Retry;
            },
            StealOutcome::Empty => {},
        }
        i = i + 1;
    }
    acc
}

/// The outcome of one cycle from what each source gave, in order of
/// priority: a job from the worker's own queue, else the shared queue's
/// outcome unless it was not a job, in which case that of the siblings is
/// combined with it. A source that was not asked is passed as empty.
pub open spec fn cycle_spec<J>(
    local: Option<J>,
    global: StealOutcome<J>,
    siblings: StealOutcome<J>,
) -> StealOutcome<J> {
    match local {
        Some(j) => StealOutcome::Success(j),
        None => if global is Success {
            global
        } else {
            or_else_spec(global, siblings)
        },
    }
}

/// Combines what one cycle obtained from each source, by `cycle_spec`.
pub fn pick_job<J>(
    local: Option<J>,
    global: StealOutcome<J>,
    siblings: StealOutcome<J>,
) -> (r: StealOutcome<J>)
    ensures
        r == cycle_spec(local, global, siblings),
{
    match local {
        Some(j) => StealOutcome::Success(j),
        None => match global {
            StealOutcome::Success(j) => StealOutcome::Success(j),
            _ => steal_or_else(global, siblings),
        },
    }
}

/// One pinned worker: its context, its own queue, the queue shared by the
/// whole pool, a handle on every worker's queue, the core it is bound to,
/// and its idle counter.
#[verifier::reject_recursive_types(J)]
pub struct Actor<T, J> {
    pub ctx: T,
    pub fifo: Worker<J>,
    pub global: Arc<Injector<J>>,
    pub stealers: Arc<Vec<Stealer<J>>>,
    pub core_id: usize,
    pub backoff: Backoff,
}

/// How the idle counter answers the outcome of a round of steals.
pub open spec fn after_round<J>(spin: u64, outcome: StealOutcome<J>) -> (u64, Step<J>) {
    match outcome {
        StealOutcome::Success(j) => (0, Step::Run(j)),
        StealOutcome::Retry => (spin, Step::Retry),
        StealOutcome::Empty => {
            let next: u64 = if spin == u64::MAX { spin } else { (spin + 1) as u64 };
            (next, Step::Idle(action_for(next as nat)))
        },
    }
}

impl<T, J> Actor<T, J> {
    /// A worker that owns `ctx` and has not been idle yet.
    pub fn new(
        ctx: T,
        fifo: Worker<J>,
        global: Arc<Injector<J>>,
        stealers: Arc<Vec<Stealer<J>>>,
        core_id: usize,
    ) -> (r: Actor<T, J>)
        ensures
            r.ctx == ctx,
            r.fifo == fifo,
            r.global == global,
            r.stealers == stealers,
            r.core_id == core_id,
            r.backoff.spin_count == 0,
    {
        Actor { ctx, fifo, global, stealers, core_id, backoff: Backoff::new() }
    }

    /// Turns the outcome of a round of steals into the next step: a job
    /// resets the idle counter, a retry leaves it alone, and an empty round
    /// counts one more idle cycle and picks the backoff for it.
    pub fn on_round(&mut self, outcome: StealOutcome<J>) -> (r: Step<J>)
        ensures
            (final(self).backoff.spin_count, r) == after_round(old(self).backoff.spin_count, outcome),
            final(self).ctx == old(self).ctx,
            final(self).fifo == old(self).fifo,
            final(self).global == old(self).global,
            final(self).stealers == old(self).stealers,
            final(self).core_id == old(self).core_id,
    {
        match outcome {
            StealOutcome::Success(j) => {
                self.backoff.reset();
                Step::Run(j)
            },
            StealOutcome::Retry => Step::Retry,
            StealOutcome::Empty => Step::Idle(self.backoff.record_empty()),
        }
    }

    /// One look at the queues, in order of cost: the worker's own queue, then
    /// a batch from the shared queue, then one job from each sibling in turn.
    /// The shared queue is asked only when the own queue gave nothing, and
    /// the siblings only when the shared queue gave no job either.
    pub fn next_step(&mut self) -> (r: Step<J>)
        ensures
            exists|l: Option<J>, g: StealOutcome<J>, s: StealOutcome<J>|
                {
                    &&& (l is Some ==> g is Empty && s is Empty)
                    &&& (g is Success ==> s is Empty)
                    &&& (final(self).backoff.spin_count, r) == #[trigger] after_round(
                        old(self).backoff.spin_count,
                        cycle_spec(l, g, s),
                    )
                },
            final(self).ctx == old(self).ctx,
            final(self).fifo == old(self).fifo,
            final(self).global == old(self).global,
            final(self).stealers == old(self).stealers,
            final(self).core_id == old(self).core_id,
    {
        let local = pop_local(&self.fifo);
        let (global, siblings) = if local.is_some() {
            (StealOutcome::Empty, StealOutcome::Empty)
        } else {
            let first = steal_batch_and_pop(&self.global, &self.fifo);
            if first.is_success() {
                (first, StealOutcome::Empty)
            } else {
                (first, steal_from_siblings(&self.stealers))
            }
        };
        let outcome = pick_job(local, global, siblings);
        self.on_round(outcome)
    }
}

} // verus!
