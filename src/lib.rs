//! A fixed-size pool of workers that each own one execution context, fed by a
//! work-stealing scheduler. The decisions of the scheduler (which queue a job
//! comes from, how an idle worker backs off, how a result reaches its caller,
//! how contexts are dealt out to cores) are verified here; threads, locks and
//! wake-ups are driven by the caller.
mod actor;
mod backoff;
mod completion;
mod error;
mod pool;
mod queues;
mod worker;

pub use crate::actor::{pick_job, steal_from_siblings, Actor, Step};
pub use crate::backoff::{Backoff, IdleAction, SLEEP_MICROS, SPIN_LIMIT, YIELD_LIMIT};
pub use crate::completion::{Delivery, PollResult, SharedState};
pub use crate::error::DriveShaftError;
pub use crate::pool::DriveShaftPool;
pub use crate::queues::{steal_or_else, InjectorQueue, StealOutcome};
pub use crate::worker::{BoundedWorker, JobSender, UnboundedWorker, Worker, WorkerType, MAX_QUEUE_BOUND};
