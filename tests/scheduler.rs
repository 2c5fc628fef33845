use driveshaft::{
    pick_job, steal_from_siblings, steal_or_else, Actor, Backoff, DriveShaftError, DriveShaftPool,
    IdleAction, StealOutcome, Step,
};
use std::sync::atomic::{AtomicUsize, Ordering};
use std::sync::Arc;

type Job = Box<dyn FnOnce(&mut u64) -> u64 + Send>;

/// Drives the actors in turn, one look at the queues each, until `n` jobs
/// have run; returns what the jobs returned, in the order they ran.
fn drive(actors: &mut Vec<Actor<u64, Job>>, n: usize) -> Vec<u64> {
    let mut out = Vec::new();
    let mut rounds = 0;
    while out.len() < n {
        for a in actors.iter_mut() {
            if let Step::Run(job) = a.next_step() {
                out.push(job(&mut a.ctx));
            }
        }
        rounds += 1;
        assert!(rounds < 10_000, "jobs were lost");
    }
    out
}

#[test]
fn four_contexts_each_incremented_once() {
    let (mut pool, mut actors) = DriveShaftPool::<Job>::with_cores(vec![0, 1, 2, 3], Some(vec![0, 1, 2, 3]));
    assert_eq!(pool.workers, 4);
    for _ in 0..4 {
        let job: Job = Box::new(|ctx: &mut u64| {
            *ctx += 1;
            *ctx
        });
        assert_eq!(pool.submit(job), Ok(()));
    }
    let mut results = drive(&mut actors, 4);
    results.sort();
    assert_eq!(results, vec![1, 2, 3, 4]);
    // nothing is left to run
    for a in actors.iter_mut() {
        assert!(matches!(a.next_step(), Step::Idle(IdleAction::Spin)));
    }
}

#[test]
fn empty_pool_refuses_jobs() {
    let (mut pool, actors) = DriveShaftPool::<Job>::with_cores(Vec::<u64>::new(), Some(vec![0, 1]));
    assert!(actors.is_empty());
    assert_eq!(pool.workers, 0);
    let job: Job = Box::new(|ctx: &mut u64| *ctx);
    assert_eq!(pool.submit(job), Err(DriveShaftError::NoWorkers));
}

#[test]
fn no_listed_cores_means_no_workers() {
    let (mut pool, actors) = DriveShaftPool::<Job>::with_cores(vec![5, 6], None);
    assert!(actors.is_empty());
    assert!(pool.oversubscribed());
    let job: Job = Box::new(|ctx: &mut u64| *ctx);
    assert_eq!(pool.submit(job), Err(DriveShaftError::NoWorkers));
}

#[test]
fn excess_contexts_get_no_worker() {
    let (pool, actors) = DriveShaftPool::<Job>::with_cores(vec![10, 11, 12], Some(vec![7, 3]));
    assert_eq!(pool.requested, 3);
    assert_eq!(pool.workers, 2);
    assert!(pool.oversubscribed());
    assert_eq!(actors.len(), 2);
    assert_eq!(actors[0].ctx, 10);
    assert_eq!(actors[1].ctx, 11);
    assert_eq!(actors[0].core_id, 7);
    assert_eq!(actors[1].core_id, 3);
    assert_eq!(actors[0].stealers.len(), 3);
}

#[test]
fn fewer_contexts_than_cores() {
    let (pool, actors) = DriveShaftPool::<Job>::with_cores(vec![1], Some(vec![0, 1, 2]));
    assert_eq!(pool.workers, 1);
    assert!(!pool.oversubscribed());
    assert_eq!(actors[0].core_id, 0);
}

#[test]
fn pool_over_this_machine() {
    let (pool, actors) = DriveShaftPool::<Job>::new(vec![0u64]);
    assert_eq!(pool.requested, 1);
    assert!(pool.workers <= 1);
    assert_eq!(actors.len(), pool.workers);
}

#[test]
fn every_job_runs_exactly_once() {
    let n = 64;
    let (mut pool, mut actors) = DriveShaftPool::<Job>::with_cores(vec![0, 0, 0], Some(vec![0, 1, 2]));
    let counter = Arc::new(AtomicUsize::new(0));
    for _ in 0..n {
        let c = counter.clone();
        let job: Job = Box::new(move |_ctx: &mut u64| {
            c.fetch_add(1, Ordering::SeqCst);
            0
        });
        pool.submit(job).unwrap();
    }
    drive(&mut actors, n);
    assert_eq!(counter.load(Ordering::SeqCst), n);
    for a in actors.iter_mut() {
        assert!(matches!(a.next_step(), Step::Idle(_)));
    }
    assert_eq!(counter.load(Ordering::SeqCst), n);
}

#[test]
fn each_job_mutates_one_context() {
    let n = 5;
    let (mut pool, mut actors) = DriveShaftPool::<Job>::with_cores(vec![100, 200, 300, 400, 500], Some(vec![0, 1, 2, 3, 4]));
    for _ in 0..n {
        let job: Job = Box::new(|ctx: &mut u64| {
            let id = *ctx;
            *ctx += 1;
            id
        });
        pool.submit(job).unwrap();
    }
    let results = drive(&mut actors, n);
    assert_eq!(results.len(), n);
    let total: u64 = actors.iter().map(|a| a.ctx).sum();
    assert_eq!(total, 100 + 200 + 300 + 400 + 500 + n as u64);
    for r in &results {
        assert!((100..=504).contains(r) && r % 100 < n as u64);
    }
}

#[test]
fn consistent_context_state_per_worker() {
    let (mut pool, mut actors) = DriveShaftPool::<Job>::with_cores(vec![0, 1000], Some(vec![0, 1]));
    for _ in 0..20 {
        let job: Job = Box::new(|ctx: &mut u64| {
            let before = *ctx;
            *ctx += 1;
            assert_eq!(*ctx, before + 1);
            before
        });
        pool.submit(job).unwrap();
    }
    let results = drive(&mut actors, 20);
    let mut low: Vec<u64> = results.iter().cloned().filter(|r| *r < 1000).collect();
    let mut high: Vec<u64> = results.iter().cloned().filter(|r| *r >= 1000).collect();
    low.sort();
    high.sort();
    assert_eq!(low, (0..low.len() as u64).collect::<Vec<_>>());
    assert_eq!(high, (1000..1000 + high.len() as u64).collect::<Vec<_>>());
}

#[test]
fn idle_actor_backs_off_in_tiers() {
    let (_pool, mut actors) = DriveShaftPool::<Job>::with_cores(vec![0], Some(vec![0]));
    let a = &mut actors[0];
    for i in 1..=150u64 {
        let step = a.next_step();
        let expected = if i < 10 {
            IdleAction::Spin
        } else if i < 100 {
            IdleAction::Yield
        } else {
            IdleAction::Sleep
        };
        assert!(matches!(step, Step::Idle(x) if x == expected));
        assert_eq!(a.backoff.spin_count, i);
    }
}

#[test]
fn job_after_long_idle_resets_backoff() {
    let (mut pool, mut actors) = DriveShaftPool::<Job>::with_cores(vec![0], Some(vec![0]));
    for _ in 0..500 {
        actors[0].next_step();
    }
    assert_eq!(actors[0].backoff.spin_count, 500);
    for round in 0..3u64 {
        let job: Job = Box::new(|ctx: &mut u64| {
            *ctx += 1;
            *ctx
        });
        pool.submit(job).unwrap();
        match actors[0].next_step() {
            Step::Run(job) => assert_eq!(job(&mut actors[0].ctx), round + 1),
            _ => panic!("a waiting job was not picked up"),
        }
        assert_eq!(actors[0].backoff.spin_count, 0);
        for _ in 0..200 {
            actors[0].next_step();
        }
    }
}

#[test]
fn on_round_outcomes() {
    let (_pool, mut actors) = DriveShaftPool::<Job>::with_cores(vec![0], Some(vec![0]));
    let a = &mut actors[0];
    a.backoff.spin_count = 9;
    assert!(matches!(a.on_round(StealOutcome::Retry), Step::Retry));
    assert_eq!(a.backoff.spin_count, 9);
    assert!(matches!(a.on_round(StealOutcome::Empty), Step::Idle(IdleAction::Yield)));
    assert_eq!(a.backoff.spin_count, 10);
    let job: Job = Box::new(|_: &mut u64| 7);
    match a.on_round(StealOutcome::Success(job)) {
        Step::Run(j) => assert_eq!(j(&mut 0), 7),
        _ => panic!("a stolen job was not run"),
    }
    assert_eq!(a.backoff.spin_count, 0);
    a.backoff.spin_count = u64::MAX;
    assert!(matches!(a.on_round(StealOutcome::Empty), Step::Idle(IdleAction::Sleep)));
    assert_eq!(a.backoff.spin_count, u64::MAX);
}

#[test]
fn backoff_thresholds() {
    let mut b = Backoff::new();
    assert_eq!(b.spin_count, 0);
    let mut actions = Vec::new();
    for _ in 0..101 {
        actions.push(b.record_empty());
    }
    assert_eq!(actions[0], IdleAction::Spin);
    assert_eq!(actions[8], IdleAction::Spin);
    assert_eq!(actions[9], IdleAction::Yield);
    assert_eq!(actions[98], IdleAction::Yield);
    assert_eq!(actions[99], IdleAction::Sleep);
    assert_eq!(actions[100], IdleAction::Sleep);
    b.reset();
    assert_eq!(b.spin_count, 0);
    assert_eq!(b.record_empty(), IdleAction::Spin);
}

#[test]
fn siblings_are_tried_in_order() {
    let q0 = crossbeam::deque::Worker::<u32>::new_fifo();
    let q1 = crossbeam::deque::Worker::<u32>::new_fifo();
    let q2 = crossbeam::deque::Worker::<u32>::new_fifo();
    q1.push(11);
    q2.push(22);
    let stealers = vec![q0.stealer(), q1.stealer(), q2.stealer()];
    assert!(matches!(steal_from_siblings(&stealers), StealOutcome::Success(11)));
    assert!(matches!(steal_from_siblings(&stealers), StealOutcome::Success(22)));
    assert!(matches!(steal_from_siblings(&stealers), StealOutcome::Empty));
    assert!(matches!(steal_from_siblings::<u32>(&Vec::new()), StealOutcome::Empty));
}

#[test]
fn or_else_keeps_a_job_and_a_retry() {
    assert!(matches!(steal_or_else(StealOutcome::Retry, StealOutcome::Success(3u8)), StealOutcome::Success(3)));
    assert!(matches!(steal_or_else(StealOutcome::Retry, StealOutcome::<u8>::Empty), StealOutcome::Retry));
    assert!(matches!(steal_or_else(StealOutcome::Empty, StealOutcome::<u8>::Retry), StealOutcome::Retry));
    assert!(matches!(steal_or_else(StealOutcome::Empty, StealOutcome::<u8>::Empty), StealOutcome::Empty));
    assert!(matches!(steal_or_else(StealOutcome::Empty, StealOutcome::Success(4u8)), StealOutcome::Success(4)));
    assert!(StealOutcome::<u8>::Retry.is_retry());
    assert!(!StealOutcome::<u8>::Empty.is_success());
}

#[test]
fn cycle_prefers_own_queue_then_shared_then_siblings() {
    assert!(matches!(pick_job(Some(1u8), StealOutcome::Success(2), StealOutcome::Success(3)), StealOutcome::Success(1)));
    assert!(matches!(pick_job(None, StealOutcome::Success(2u8), StealOutcome::Success(3)), StealOutcome::Success(2)));
    assert!(matches!(pick_job(None, StealOutcome::Empty, StealOutcome::Success(3u8)), StealOutcome::Success(3)));
    assert!(matches!(pick_job(None, StealOutcome::Retry, StealOutcome::Success(3u8)), StealOutcome::Success(3)));
    assert!(matches!(pick_job(None, StealOutcome::Retry, StealOutcome::<u8>::Empty), StealOutcome::Retry));
    assert!(matches!(pick_job(None, StealOutcome::Empty, StealOutcome::<u8>::Retry), StealOutcome::Retry));
    assert!(matches!(pick_job(None, StealOutcome::<u8>::Empty, StealOutcome::Empty), StealOutcome::Empty));
}

#[test]
fn own_queue_is_served_before_shared_queue() {
    let (mut pool, mut actors) = DriveShaftPool::<Job>::with_cores(vec![0], Some(vec![0]));
    let own: Job = Box::new(|_: &mut u64| 1);
    actors[0].fifo.push(own);
    let shared: Job = Box::new(|_: &mut u64| 2);
    pool.submit(shared).unwrap();
    let mut order = Vec::new();
    for _ in 0..2 {
        match actors[0].next_step() {
            Step::Run(job) => order.push(job(&mut 0)),
            _ => panic!("a waiting job was not picked up"),
        }
    }
    assert_eq!(order, vec![1, 2]);
}
