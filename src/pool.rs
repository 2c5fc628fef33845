use crate::actor::Actor;
use crate::error::DriveShaftError;
use crate::queues::{new_local_queue, stealer_of, InjectorQueue};
use crossbeam::deque::{Injector, Stealer, Worker};
use std::sync::Arc;
use vstd::prelude::*;

verus! {

/// The logical cores that the pool may bind workers to: none when they
/// cannot be listed.
pub open spec fn cores_of(core_ids: Option<Vec<usize>>) -> Seq<usize> {
    match core_ids {
        Some(v) => v@,
        None => Seq::empty(),
    }
}

pub open spec fn min_nat(a: nat, b: nat) -> nat {
    if a <= b {
        a
    } else {
        b
    }
}

/// The shared queue of a pool and what it knows of its workers.
#[verifier::reject_recursive_types(J)]
pub struct DriveShaftPool<J> {
    pub injector: InjectorQueue<J>,
    /// How many contexts were supplied.
    pub requested: usize,
    /// How many of them received a worker: one per available core at most.
    pub workers: usize,
}

/// Relies on `core_affinity::get_core_ids`: the identifiers of the logical
/// cores this process may run on, or `None` when the platform does not say.
/// Each identifier is handed on as its number.
#[verifier::external_body]
fn logical_core_ids() -> Option<Vec<usize>> {
    core_affinity::get_core_ids().map(|v| v.into_iter().map(|c| c.id).collect())
}

impl<J> DriveShaftPool<J> {
    /// Builds a pool over the cores of this machine: see `with_cores`.
    pub fn new<T>(ctxs: Vec<T>) -> (r: (DriveShaftPool<J>, Vec<Actor<T, J>>))
        ensures
            exists|cores: Option<Vec<usize>>| #[trigger]
                Self::layout(ctxs@, cores_of(cores), r.0, r.1@),
    {
        let cores = logical_core_ids();
        Self::with_cores(ctxs, cores)
    }

    /// What a pool built from `ctxs` over `cores` looks like: one worker for
    /// each context that a core is left for, the `i`-th context going to the
    /// `i`-th core, every worker fed by the pool's shared queue and able to
    /// steal from the queue of every context; excess contexts get no worker.
    pub open spec fn layout<T>(
        ctxs: Seq<T>,
        cores: Seq<usize>,
        pool: DriveShaftPool<J>,
        actors: Seq<Actor<T, J>>,
    ) -> bool {
        &&& pool.requested == ctxs.len()
        &&& pool.injector.pushed_through() == Seq::<J>::empty()
        &&& pool.workers == actors.len()
        &&& actors.len() == min_nat(ctxs.len(), cores.len())
        &&& forall|i: int|
            0 <= i < actors.len() ==> {
                &&& (#[trigger] actors[i]).ctx == ctxs[i]
                &&& actors[i].core_id == cores[i]
                &&& actors[i].global == pool.injector.shared()
                &&& actors[i].stealers == actors[0].stealers
                &&& actors[i].stealers@.len() == ctxs.len()
                &&& actors[i].backoff.spin_count == 0
            }
    }

    /// Builds a pool over the given cores. The caller runs each returned
    /// actor on a thread of its own, bound to the actor's core.
    pub fn with_cores<T>(ctxs: Vec<T>, core_ids: Option<Vec<usize>>) -> (r: (
        DriveShaftPool<J>,
        Vec<Actor<T, J>>,
    ))
        ensures
            Self::layout(ctxs@, cores_of(core_ids), r.0, r.1@),
    {
        let ghost all_ctxs = ctxs@;
        let ghost cores = cores_of(core_ids);
        let core_ids: Vec<usize> = match core_ids {
            Some(v) => v,
            None => Vec::new(),
        };
        let n = ctxs.len();
        let injector = InjectorQueue::new();

        let mut locals: Vec<Worker<J>> = Vec::new();
        let mut stealers: Vec<Stealer<J>> = Vec::new();
        let mut i: usize = 0;
        while i < n
            invariant
                i <= n,
                locals@.len() == i,
                stealers@.len() == i,
            decreases n - i,
        {
            let local = new_local_queue();
            stealers.push(stealer_of(&local));
            locals.push(local);
            i = i + 1;
        }
        let stealers = Arc::new(stealers);

        let k: usize = if n <= core_ids.len() {
            n
        } else {
            core_ids.len()
        };
        let mut ctxs = ctxs;
        let mut actors: Vec<Actor<T, J>> = Vec::new();
        let mut j: usize = 0;
        while j < k
            invariant
                k <= n,
                k <= core_ids@.len(),
                injector.pushed_through() == Seq::<J>::empty(),
                core_ids@ == cores,
                j <= k,
                ctxs@ == all_ctxs.skip(j as int),
                all_ctxs.len() == n,
                locals@.len() == n - j,
                stealers@.len() == n,
                actors@.len() == j,
                forall|m: int|
                    0 <= m < j ==> {
                        &&& (#[trigger] actors@[m]).ctx == all_ctxs[m]
                        &&& actors@[m].core_id == cores[m]
                        &&& actors@[m].global == injector.shared()
                        &&& actors@[m].stealers == stealers
                        &&& actors@[m].backoff.spin_count == 0
                    },
            decreases k - j,
        {
            let ctx = ctxs.remove(0);
            let local = locals.remove(0);
            let actor = Actor::new(ctx, local, injector.handle(), stealers.clone(), core_ids[j]);
            actors.push(actor);
            proof {
                assert(all_ctxs.skip(j as int)[0] == all_ctxs[j as int]);
                assert(ctxs@ =~= all_ctxs.skip(j + 1));
            }
            j = j + 1;
        }
        let pool = DriveShaftPool { injector, requested: n, workers: k };
        (pool, actors)
    }

    /// Whether more contexts were supplied than there are cores to run
    /// them, so that some received no worker.
    pub fn oversubscribed(&self) -> (b: bool)
        ensures
            b == (self.requested > self.workers),
    {
        self.requested > self.workers
    }

    /// Hands a job to the pool's shared queue, from which any worker may
    /// take it. A pool without workers refuses it at once and pushes
    /// nothing.
    pub fn submit(&mut self, job: J) -> (r: Result<(), DriveShaftError>)
        ensures
            r == if old(self).workers == 0 {
                Err::<(), DriveShaftError>(DriveShaftError::NoWorkers)
            } else {
                Ok(())
            },
            old(self).workers > 0 ==> final(self).injector.pushed_through() == old(
                self,
            ).injector.pushed_through().push(job),
            old(self).workers == 0 ==> final(self).injector.pushed_through() == old(
                self,
            ).injector.pushed_through(),
            final(self).injector.shared() == old(self).injector.shared(),
            final(self).workers == old(self).workers,
            final(self).requested == old(self).requested,
    {
        if self.workers == 0 {
            return Err(DriveShaftError::NoWorkers);
        }
        self.injector.push(job);
        Ok(())
    }
}

} // verus!
