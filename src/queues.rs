use crossbeam::deque::Worker as Deque;
use crossbeam::deque::{Injector, Steal, Stealer};
use std::sync::Arc;
use vstd::prelude::*;

verus! {

#[verifier::external_type_specification]
#[verifier::external_body]
#[verifier::reject_recursive_types(T)]
pub struct ExInjector<T>(Injector<T>);

#[verifier::external_type_specification]
#[verifier::external_body]
#[verifier::reject_recursive_types(T)]
pub struct ExDequeWorker<T>(Deque<T>);

#[verifier::external_type_specification]
#[verifier::external_body]
#[verifier::reject_recursive_types(T)]
pub struct ExStealer<T>(Stealer<T>);

#[verifier::external_type_specification]
#[verifier::external_body]
#[verifier::reject_recursive_types(T)]
pub struct ExSteal<T>(Steal<T>);

/// The outcome of one attempt to take a job from a queue shared with other
/// threads.
pub enum StealOutcome<J> {
    /// The queue held no job.
    Empty,
    /// A job was taken.
    Success(J),
    /// Another thread got in the way; the attempt may be made again.
    Retry,
}

impl<J> StealOutcome<J> {
    pub fn is_retry(&self) -> (r: bool)
        ensures
            r == (*self is Retry),
    {
        match self {
            StealOutcome::Retry => true,
            _ => false,
        }
    }

    pub fn is_success(&self) -> (r: bool)
        ensures
            r == (*self is Success),
    {
        match self {
            StealOutcome::Success(_) => true,
            _ => false,
        }
    }
}

/// The outcome of a first attempt followed, unless it succeeded, by a second
/// one: a success wins, and a retry of either attempt is kept over an empty
/// queue.
pub open spec fn or_else_spec<J>(first: StealOutcome<J>, second: StealOutcome<J>) -> StealOutcome<J> {
    match first {
        StealOutcome::Success(_) => first,
        StealOutcome::Empty => second,
        StealOutcome::Retry => if second is Success {
            second
        } else {
            StealOutcome::Retry
        },
    }
}

/// The outcome of trying a sequence of queues in order, stopping at the
/// first success: that success if there is one, else a retry if any queue
/// asked for one, else empty.
pub open spec fn first_of_spec<J>(s: Seq<StealOutcome<J>>) -> StealOutcome<J>
    decreases s.len(),
{
    if s.len() == 0 {
        StealOutcome::Empty
    } else {
        let last = s.last();
        let rest = first_of_spec(s.drop_last());
        if rest is Success {
            rest
        } else if last is Success {
            last
        } else if rest is Retry || last is Retry {
            StealOutcome::Retry
        } else {
            StealOutcome::Empty
        }
    }
}

/// A round of steals never drops a job and never reports a queue empty
/// that was not: it yields a job if any queue handed one out, it reports
/// empty only if every queue was empty, and a job it yields is one that a
/// queue handed out.
pub proof fn lemma_first_of_faithful<J>(s: Seq<StealOutcome<J>>)
    ensures
        (exists|i: int| 0 <= i < s.len() && (#[trigger] s[i]) is Success) ==> first_of_spec(s) is Success,
        first_of_spec(s) is Empty ==> forall|i: int| 0 <= i < s.len() ==> (#[trigger] s[i]) is Empty,
        first_of_spec(s) is Success ==> exists|i: int| 0 <= i < s.len() && s[i] == first_of_spec(s),
    decreases s.len(),
{
    if s.len() > 0 {
        let rest = s.drop_last();
        lemma_first_of_faithful(rest);
        assert forall|i: int| 0 <= i < rest.len() implies rest[i] == s[i] by {}
        if exists|i: int| 0 <= i < s.len() && (#[trigger] s[i]) is Success {
            let i = choose|i: int| 0 <= i < s.len() && (#[trigger] s[i]) is Success;
            if i < rest.len() {
                assert(rest[i] is Success);
            }
        }
        if first_of_spec(rest) is Success {
            let i = choose|i: int| 0 <= i < rest.len() && rest[i] == first_of_spec(rest);
            assert(s[i] == first_of_spec(s));
        } else if s.last() is Success {
            assert(s[s.len() - 1] == first_of_spec(s));
        }
    }
}

/// Combining two attempts keeps a job that either of them yielded, and
/// reports empty only when both were empty.
pub proof fn lemma_or_else_faithful<J>(first: StealOutcome<J>, second: StealOutcome<J>)
    requires
        !(first is Success),
    ensures
        second is Success ==> or_else_spec(first, second) == second,
        or_else_spec(first, second) is Empty <==> (first is Empty && second is Empty),
        or_else_spec(first, second) is Retry <==> (first is Retry || second is Retry) && !(second is Success),
{
}

/// Combines an attempt whose outcome is known with the outcome of the next
/// attempt, which is only made when the first did not succeed.
pub fn steal_or_else<J>(first: StealOutcome<J>, second: StealOutcome<J>) -> (r: StealOutcome<J>)
    requires
        !(first is Success),
    ensures
        r == or_else_spec(first, second),
{
    match first {
        StealOutcome::Retry => match second {
            StealOutcome::Success(j) => StealOutcome::Success(j),
            _ => StealOutcome::Retry,
        },
        _ => second,
    }
}

/// Relies on `Worker::new_fifo`: a new, empty local queue whose owner pops
/// in arrival order.
#[verifier::external_body]
pub(crate) fn new_local_queue<J>() -> Deque<J> {
    Deque::new_fifo()
}

/// Relies on `Worker::stealer`: a handle through which other threads take
/// jobs from this local queue.
#[verifier::external_body]
pub(crate) fn stealer_of<J>(local: &Deque<J>) -> Stealer<J> {
    local.stealer()
}

/// Relies on `Worker::pop`: takes a job from the worker's own queue, `None`
/// when it is empty.
#[verifier::external_body]
pub(crate) fn pop_local<J>(local: &Deque<J>) -> Option<J> {
    local.pop()
}

/// Relies on `Injector::new`: a new, empty shared queue.
#[verifier::external_body]
fn new_injector<J>() -> Injector<J> {
    Injector::new()
}

/// The queue shared by a pool and all its workers, with a record of every
/// job handed to it through this handle. The record says what went in, not
/// what is still inside: workers take jobs out on other threads.
#[verifier::reject_recursive_types(J)]
pub struct InjectorQueue<J> {
    queue: Arc<Injector<J>>,
    pushed: Ghost<Seq<J>>,
}

impl<J> InjectorQueue<J> {
    /// The jobs pushed through this handle, in the order they were pushed.
    pub closed spec fn pushed_through(&self) -> Seq<J> {
        self.pushed@
    }

    /// The queue itself, as the workers share it.
    pub closed spec fn shared(&self) -> Arc<Injector<J>> {
        self.queue
    }

    /// A handle on the queue for one more worker.
    pub fn handle(&self) -> (r: Arc<Injector<J>>)
        ensures
            r == self.shared(),
    {
        self.queue.clone()
    }

    /// A new, empty shared queue through which nothing has been pushed.
    pub fn new() -> (r: InjectorQueue<J>)
        ensures
            r.pushed_through() == Seq::<J>::empty(),
    {
        InjectorQueue { queue: Arc::new(new_injector()), pushed: Ghost(Seq::empty()) }
    }

    /// Relies on `Injector::push`: appends the job to the shared queue; the
    /// queue has no bound and the call does not fail.
    #[verifier::external_body]
    pub(crate) fn push(&mut self, job: J)
        ensures
            final(self).pushed_through() == old(self).pushed_through().push(job),
            final(self).shared() == old(self).shared(),
    {
        self.queue.push(job)
    }
}

/// Relies on `Injector::steal_batch_and_pop`: moves some jobs of the shared
/// queue into `local` and hands one of them out. Its three variants map one
/// for one onto those of `StealOutcome`.
#[verifier::external_body]
pub(crate) fn steal_batch_and_pop<J>(global: &Injector<J>, local: &Deque<J>) -> StealOutcome<J> {
    match global.steal_batch_and_pop(local) {
        Steal::Empty => StealOutcome::Empty,
        Steal::Success(j) => StealOutcome::Success(j),
        Steal::Retry => StealOutcome::Retry,
    }
}

/// Relies on `Stealer::steal`: takes one job from another worker's queue.
/// Its three variants map one for one onto those of `StealOutcome`.
#[verifier::external_body]
pub(crate) fn steal_one<J>(stealer: &Stealer<J>) -> StealOutcome<J> {
    match stealer.steal() {
        Steal::Empty => StealOutcome::Empty,
        Steal::Success(j) => StealOutcome::Success(j),
        Steal::Retry => StealOutcome::Retry,
    }
}

} // verus!
