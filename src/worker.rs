use crate::error::DriveShaftError;
use crossbeam::channel::{Receiver, SendError, Sender};
use vstd::prelude::*;

verus! {

#[verifier::external_type_specification]
#[verifier::external_body]
#[verifier::reject_recursive_types(T)]
pub struct ExSender<T>(Sender<T>);

#[verifier::external_type_specification]
#[verifier::external_body]
#[verifier::reject_recursive_types(T)]
pub struct ExReceiver<T>(Receiver<T>);

#[verifier::external_type_specification]
#[verifier::external_body]
#[verifier::reject_recursive_types(T)]
pub struct ExSendError<T>(SendError<T>);

/// The largest bound a bounded worker queue may be given.
pub const MAX_QUEUE_BOUND: usize = 0xFFFF_FFFF;

/// How the queue in front of a channel-fed worker is sized.
#[derive(Debug, Clone, Copy, PartialEq, Eq, Structural)]
pub enum WorkerType {
    /// At most this many jobs wait; a sender blocks while the queue is full.
    /// With zero, each send waits for the worker to take the job.
    Bound(usize),
    /// Any number of jobs may wait.
    UnBound,
}

/// The sending side of a worker's channel, with the capacity the channel
/// was opened with (`None` for no bound) and a record of every job it
/// accepted, in order.
#[verifier::reject_recursive_types(J)]
pub struct JobSender<J> {
    sender: Sender<J>,
    capacity: Ghost<Option<nat>>,
    sent: Ghost<Seq<J>>,
}

impl<J> JobSender<J> {
    /// How many jobs the channel holds at most; `None` when it has no bound.
    pub closed spec fn capacity(&self) -> Option<nat> {
        self.capacity@
    }

    /// The jobs the channel has accepted from this sender.
    pub closed spec fn sent(&self) -> Seq<J> {
        self.sent@
    }

    /// Relies on `Sender::send`: queues the job, waiting while a bounded
    /// channel is full, and fails, giving the job back, once every receiver
    /// is gone. The channel stays the one it was.
    #[verifier::external_body]
    fn send(&mut self, job: J) -> (r: Result<(), SendError<J>>)
        ensures
            r is Ok ==> final(self).sent() == old(self).sent().push(job),
            r is Err ==> final(self).sent() == old(self).sent(),
            final(self).capacity() == old(self).capacity(),
    {
        self.sender.send(job)
    }
}

/// Relies on `crossbeam::channel::bounded`: a new channel that holds at most
/// `cap` messages. It panics only for a capacity near `usize::MAX`, which
/// the bound above excludes.
#[verifier::external_body]
fn bounded_channel<J>(cap: usize) -> (r: (JobSender<J>, Receiver<J>))
    requires
        cap <= MAX_QUEUE_BOUND,
    ensures
        r.0.capacity() == Some(cap as nat),
        r.0.sent() == Seq::<J>::empty(),
{
    let (tx, rx) = crossbeam::channel::bounded(cap);
    (JobSender { sender: tx, capacity: Ghost(Some(cap as nat)), sent: Ghost(Seq::empty()) }, rx)
}

/// Relies on `crossbeam::channel::unbounded`: a new channel of unlimited
/// capacity.
#[verifier::external_body]
fn unbounded_channel<J>() -> (r: (JobSender<J>, Receiver<J>))
    ensures
        r.0.capacity() == None::<nat>,
        r.0.sent() == Seq::<J>::empty(),
{
    let (tx, rx) = crossbeam::channel::unbounded();
    (JobSender { sender: tx, capacity: Ghost(None), sent: Ghost(Seq::empty()) }, rx)
}

/// A channel-fed worker whose queue holds at most `size` jobs.
#[verifier::reject_recursive_types(J)]
pub struct BoundedWorker<J> {
    pub sender: JobSender<J>,
    pub size: usize,
}

impl<J> BoundedWorker<J> {
    /// The sending side of a new queue of bound `size`, and its receiving
    /// side for the thread that runs the jobs.
    pub fn new(size: usize) -> (r: (BoundedWorker<J>, Receiver<J>))
        requires
            size <= MAX_QUEUE_BOUND,
        ensures
            r.0.size == size,
            r.0.sender.capacity() == Some(size as nat),
            r.0.sender.sent() == Seq::<J>::empty(),
    {
        let (tx, rx) = bounded_channel(size);
        (BoundedWorker { sender: tx, size }, rx)
    }
}

/// A channel-fed worker whose queue has no bound.
#[verifier::reject_recursive_types(J)]
pub struct UnboundedWorker<J> {
    pub sender: JobSender<J>,
}

impl<J> UnboundedWorker<J> {
    /// The sending side of a new unbounded queue, and its receiving side for
    /// the thread that runs the jobs.
    pub fn new() -> (r: (UnboundedWorker<J>, Receiver<J>))
        ensures
            r.0.sender.capacity() == None::<nat>,
            r.0.sender.sent() == Seq::<J>::empty(),
    {
        let (tx, rx) = unbounded_channel();
        (UnboundedWorker { sender: tx }, rx)
    }
}

/// A worker fed through a channel of its own, as an alternative to the
/// work-stealing pool: each job goes to the one worker it is sent to.
#[verifier::reject_recursive_types(J)]
pub enum Worker<J> {
    Bounded(BoundedWorker<J>),
    Unbounded(UnboundedWorker<J>),
}

impl<J> Worker<J> {
    /// The kind of queue this worker was made with.
    pub open spec fn kind(&self) -> WorkerType {
        match self {
            Worker::Bounded(w) => WorkerType::Bound(w.size),
            Worker::Unbounded(_) => WorkerType::UnBound,
        }
    }

    /// The sending side of the worker's channel.
    pub open spec fn sender(&self) -> JobSender<J> {
        match self {
            Worker::Bounded(w) => w.sender,
            Worker::Unbounded(w) => w.sender,
        }
    }

    /// The capacity a channel for this kind of worker is opened with.
    pub open spec fn capacity_for(t: WorkerType) -> Option<nat> {
        match t {
            WorkerType::Bound(n) => Some(n as nat),
            WorkerType::UnBound => None,
        }
    }

    /// A worker of the given kind and the receiving side of its queue, from
    /// which the thread that owns the worker's context takes the jobs.
    pub fn new(worker_type: WorkerType) -> (r: (Worker<J>, Receiver<J>))
        requires
            worker_type matches WorkerType::Bound(n) ==> n <= MAX_QUEUE_BOUND,
        ensures
            r.0.kind() == worker_type,
            r.0.sender().capacity() == Self::capacity_for(worker_type),
            r.0.sender().sent() == Seq::<J>::empty(),
    {
        match worker_type {
            WorkerType::Bound(size) => {
                let (w, rx) = BoundedWorker::new(size);
                (Worker::Bounded(w), rx)
            },
            WorkerType::UnBound => {
                let (w, rx) = UnboundedWorker::new();
                (Worker::Unbounded(w), rx)
            },
        }
    }

    /// The kind of queue this worker was made with.
    pub fn worker_type(&self) -> (t: WorkerType)
        ensures
            t == self.kind(),
    {
        match self {
            Worker::Bounded(w) => WorkerType::Bound(w.size),
            Worker::Unbounded(_) => WorkerType::UnBound,
        }
    }

    /// Queues a job for this worker. The one way it fails is a worker whose
    /// thread has gone, which is reported as a failed dispatch; the job is
    /// then not recorded as sent.
    pub fn send(&mut self, job: J) -> (r: Result<(), DriveShaftError>)
        ensures
            r is Ok ==> final(self).sender().sent() == old(self).sender().sent().push(job),
            r matches Err(e) ==> e == DriveShaftError::SendError && final(self).sender().sent()
                == old(self).sender().sent(),
            final(self).kind() == old(self).kind(),
            final(self).sender().capacity() == old(self).sender().capacity(),
    {
        let sent = match self {
            Worker::Bounded(w) => w.sender.send(job),
            Worker::Unbounded(w) => w.sender.send(job),
        };
        match sent {
            Ok(()) => Ok(()),
            Err(_) => Err(DriveShaftError::SendError),
        }
    }
}

} // verus!
