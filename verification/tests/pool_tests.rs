use threadpool::pool::ThreadPool;

#[test]
fn construct_spawns_exactly_k_workers() {
    let pool: ThreadPool<u32> = ThreadPool::new(4);
    assert_eq!(pool.worker_count(), 4);
    assert_eq!(pool.pending(), 0);
    assert!(pool.workers.iter().all(|w| w.is_none()));
}

#[test]
fn exactly_once_delivery() {
    // Three jobs, two workers: once the queue is drained, every job was
    // handed out exactly once, in submission order.
    let mut pool: ThreadPool<u32> = ThreadPool::new(2);
    pool.execute(10, 100);
    pool.execute(11, 101);
    pool.execute(12, 102);

    let j0 = pool.worker_take(0).expect("idle worker with pending job");
    let j1 = pool.worker_take(1).expect("idle worker with pending job");
    assert_eq!((j0.id, j0.handler, j0.payload), (0, 10, 100));
    assert_eq!((j1.id, j1.handler, j1.payload), (1, 11, 101));

    pool.worker_finish(0);
    let j2 = pool.worker_take(0).expect("idle worker with pending job");
    assert_eq!((j2.id, j2.handler, j2.payload), (2, 12, 102));

    pool.worker_finish(1);
    pool.worker_finish(0);

    assert_eq!(pool.pending(), 0);
    assert_eq!(pool.delivered, vec![0, 1, 2]);
    assert_eq!(pool.finished, vec![0, 1, 2]);
}

#[test]
fn parallelism_bound_third_job_waits() {
    // Pool of two: with both workers occupied, no further job leaves the
    // queue until one of the first two completes.
    let mut pool: ThreadPool<&'static str> = ThreadPool::new(2);
    pool.execute(1, "a");
    pool.execute(2, "b");
    pool.execute(3, "c");

    assert!(pool.worker_take(0).is_some());
    assert!(pool.worker_take(1).is_some());

    // Every slot busy: neither worker can begin the third job.
    assert!(pool.worker_take(0).is_none());
    assert!(pool.worker_take(1).is_none());
    assert_eq!(pool.pending(), 1);

    pool.worker_finish(1);
    let j = pool.worker_take(1).expect("slot freed, third job starts");
    assert_eq!(j.id, 2);
}

#[test]
fn fifo_within_one_producer() {
    // One producer, pool size 1: completions are recorded in submission
    // order.
    let mut pool: ThreadPool<u8> = ThreadPool::new(1);
    pool.execute(7, 1);
    pool.execute(7, 2);
    pool.execute(7, 3);

    let mut sink: Vec<u8> = Vec::new();
    while let Some(job) = pool.worker_take(0) {
        sink.push(job.payload);
        pool.worker_finish(0);
    }

    assert_eq!(sink, vec![1, 2, 3]);
    assert_eq!(pool.finished, vec![0, 1, 2]);
}

#[test]
fn blocked_handlers_exhaust_capacity() {
    // A handler that never returns keeps its slot busy: after K such jobs a
    // (K+1)-th submission is accepted but never begins.
    let k = 3;
    let mut pool: ThreadPool<u32> = ThreadPool::new(k);
    for i in 0..(k as u32 + 1) {
        pool.execute(99, i);
    }
    for w in 0..k {
        assert!(pool.worker_take(w).is_some());
    }
    // No worker_finish ever comes; every slot stays occupied.
    for w in 0..k {
        assert!(pool.worker_take(w).is_none());
    }
    assert_eq!(pool.pending(), 1);
    assert_eq!(pool.delivered.len(), k);
}

#[test]
fn zero_workers_accept_but_never_execute() {
    let mut pool: ThreadPool<u32> = ThreadPool::new(0);
    pool.execute(5, 50);
    pool.execute(6, 60);
    assert_eq!(pool.worker_count(), 0);
    assert_eq!(pool.pending(), 2);
    assert!(pool.delivered.is_empty());
    assert!(pool.finished.is_empty());
}

#[test]
fn submit_returns_immediately_on_saturated_pool() {
    // Submission only appends to the queue: it succeeds even while every
    // worker is occupied and touches no worker slot.
    let mut pool: ThreadPool<u32> = ThreadPool::new(1);
    pool.execute(1, 1);
    assert!(pool.worker_take(0).is_some());
    let before = pool.workers.clone();

    pool.execute(2, 2);
    pool.execute(3, 3);

    assert_eq!(pool.workers, before);
    assert_eq!(pool.pending(), 2);
}

#[test]
fn shutdown_is_inert() {
    let mut pool: ThreadPool<u32> = ThreadPool::new(2);
    pool.execute(1, 1);
    assert!(pool.worker_take(0).is_some());
    let (w, q, d, f) = (
        pool.workers.clone(),
        pool.pending(),
        pool.delivered.clone(),
        pool.finished.clone(),
    );
    pool.shutdown();
    assert_eq!(pool.workers, w);
    assert_eq!(pool.pending(), q);
    assert_eq!(pool.delivered, d);
    assert_eq!(pool.finished, f);
}
