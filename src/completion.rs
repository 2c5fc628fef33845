use crate::error::DriveShaftError;
use vstd::prelude::*;

verus! {

/// Where the result of one job stands.
pub enum Delivery<R> {
    /// The job has not finished.
    Empty,
    /// The job finished and its result waits for the caller.
    Filled(R),
    /// The caller has taken the result.
    Taken,
    /// The job will never deliver: the worker that held it stopped first.
    Lost,
}

/// What one poll of the caller's handle gives.
pub enum PollResult<R> {
    /// The outcome of the job, handed out once.
    Ready(Result<R, DriveShaftError>),
    /// No outcome yet; the waker handed to the poll is kept to be woken.
    Pending,
}

/// The cell shared by a submitted job and the caller awaiting it: the
/// result slot and the wake handle of the caller's last poll. The caller
/// keeps it behind a lock, so each method below runs as one step.
pub struct SharedState<R, W> {
    pub result: Delivery<R>,
    pub waker: Option<W>,
}

/// The cell and the waker to wake after a job delivers `r`. A slot that was
/// already filled, taken or lost is never overwritten.
pub open spec fn deliver_spec<R, W>(s: SharedState<R, W>, r: R) -> (SharedState<R, W>, Option<W>) {
    if s.result is Empty {
        (SharedState { result: Delivery::Filled(r), waker: None }, s.waker)
    } else {
        (s, None)
    }
}

/// The cell and the waker to wake after the job is dropped undelivered.
pub open spec fn abandon_spec<R, W>(s: SharedState<R, W>) -> (SharedState<R, W>, Option<W>) {
    if s.result is Empty {
        (SharedState { result: Delivery::Lost, waker: None }, s.waker)
    } else {
        (s, None)
    }
}

/// The cell and the answer after the caller polls with waker `w`: a waiting
/// result is taken, a lost one reported, and otherwise `w` is registered.
/// A result is handed out at most once; later polls report it lost.
pub open spec fn poll_spec<R, W>(s: SharedState<R, W>, w: W) -> (SharedState<R, W>, PollResult<R>) {
    match s.result {
        Delivery::Filled(r) => (
            SharedState { result: Delivery::Taken, waker: s.waker },
            PollResult::Ready(Ok(r)),
        ),
        Delivery::Empty => (
            SharedState { result: Delivery::Empty, waker: Some(w) },
            PollResult::Pending,
        ),
        _ => (
            SharedState { result: Delivery::Taken, waker: s.waker },
            PollResult::Ready(Err(DriveShaftError::RecvError)),
        ),
    }
}

impl<R, W> SharedState<R, W> {
    /// A fresh cell: no result, nobody waiting.
    pub fn new() -> (r: SharedState<R, W>)
        ensures
            r.result is Empty,
            r.waker is None,
    {
        SharedState { result: Delivery::Empty, waker: None }
    }

    /// Called by the job when it finishes: stores `r` and hands back the
    /// waker of a caller that polled too early, which must then be woken.
    pub fn deliver(&mut self, r: R) -> (w: Option<W>)
        ensures
            (*final(self), w) == deliver_spec(*old(self), r),
    {
        if let Delivery::Empty = self.result {
            self.result = Delivery::Filled(r);
            self.waker.take()
        } else {
            None
        }
    }

    /// Called when the job is dropped without having delivered (its worker
    /// stopped): marks the result lost and hands back the waker to wake.
    pub fn abandon(&mut self) -> (w: Option<W>)
        ensures
            (*final(self), w) == abandon_spec(*old(self)),
    {
        if let Delivery::Empty = self.result {
            self.result = Delivery::Lost;
            self.waker.take()
        } else {
            None
        }
    }

    /// Called by the caller: takes the result if there is one, else
    /// registers `w` to be woken when there is.
    pub fn poll(&mut self, w: W) -> (p: PollResult<R>)
        ensures
            (*final(self), p) == poll_spec(*old(self), w),
    {
        let mut state = Delivery::Taken;
        core::mem::swap(&mut self.result, &mut state);
        match state {
            Delivery::Filled(r) => PollResult::Ready(Ok(r)),
            Delivery::Empty => {
                self.result = Delivery::Empty;
                self.waker = Some(w);
                PollResult::Pending
            },
            _ => PollResult::Ready(Err(DriveShaftError::RecvError)),
        }
    }

    /// Whether the job is still running.
    pub fn is_pending(&self) -> (b: bool)
        ensures
            b == (self.result is Empty),
    {
        if let Delivery::Empty = self.result {
            true
        } else {
            false
        }
    }
}

/// No wake-up is lost: when the caller polls before the job finishes, its
/// waker is registered, the delivery hands exactly that waker back to be
/// woken, and the next poll yields the delivered result.
pub proof fn lemma_poll_then_deliver<R, W>(s: SharedState<R, W>, w: W, w2: W, r: R)
    requires
        s.result is Empty,
    ensures
        poll_spec(s, w).1 is Pending,
        deliver_spec(poll_spec(s, w).0, r).1 == Some(w),
        poll_spec(deliver_spec(poll_spec(s, w).0, r).0, w2).1 == PollResult::<R>::Ready(Ok(r)),
{
}

/// When the job finishes before the caller polls, nobody is woken and the
/// caller's poll yields the result at once.
pub proof fn lemma_deliver_then_poll<R, W>(r: R, w: W)
    ensures
        deliver_spec(SharedState::<R, W> { result: Delivery::Empty, waker: None }, r).1 is None,
        poll_spec(deliver_spec(SharedState::<R, W> { result: Delivery::Empty, waker: None }, r).0, w).1
            == PollResult::<R>::Ready(Ok(r)),
{
}

/// A result is written at most once and read at most once: a second
/// delivery changes nothing and wakes nobody, and once the result has been
/// handed out no later poll hands out a value again.
pub proof fn lemma_exactly_once<R, W>(s: SharedState<R, W>, r: R, r2: R, w: W, w2: W)
    requires
        s.result is Empty,
    ensures
        deliver_spec(deliver_spec(s, r).0, r2) == (deliver_spec(s, r).0, None::<W>),
        poll_spec(deliver_spec(s, r).0, w).1 == PollResult::<R>::Ready(Ok(r)),
        poll_spec(poll_spec(deliver_spec(s, r).0, w).0, w2).1 == PollResult::<R>::Ready(
            Err(DriveShaftError::RecvError),
        ),
{
}

/// A job dropped before it delivers is reported to its caller as lost,
/// whether the caller was already waiting (and is then woken) or polls
/// later.
pub proof fn lemma_abandon_reports_lost<R, W>(s: SharedState<R, W>, w: W)
    requires
        s.result is Empty,
    ensures
        abandon_spec(s).1 == s.waker,
        poll_spec(abandon_spec(s).0, w).1 == PollResult::<R>::Ready(Err(DriveShaftError::RecvError)),
{
}

} // verus!
