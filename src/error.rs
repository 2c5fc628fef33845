use vstd::prelude::*;

verus! {

/// What can go wrong between submitting a job and receiving its result.
#[derive(Debug, Clone, Copy, PartialEq, Eq, Structural)]
pub enum DriveShaftError {
    /// The queue that should have taken the job no longer accepts it.
    SendError,
    /// The worker that held the job stopped before delivering its result.
    RecvError,
    /// The pool has no worker that could run the job.
    NoWorkers,
}

} // verus!
