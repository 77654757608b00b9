//! The dispatch core: a fixed worker set draining one shared FIFO queue.
//!
//! The pool is modelled as a state machine over plain values. Each submitted
//! job receives the next sequence number; the queue holds pending jobs in
//! submission order; a worker slot is `None` while idle and `Some(id)` while
//! the worker executes job `id`. The surrounding program drives the
//! transitions (`execute`, `worker_take`, `worker_finish`) from its producer
//! and worker threads; the contracts here state what each transition does and
//! the well-formedness invariant ties the whole history together.

use vstd::prelude::*;

verus! {

/// A job: an opaque payload paired with the key of the handler that will
/// consume it. The pool never interprets either; it only routes the pair to
/// exactly one worker.
pub struct Job<T> {
    /// Submission sequence number, unique within one pool.
    pub id: u64,
    /// Key naming the handler that consumes the payload.
    pub handler: u64,
    /// The owned payload handed to the handler.
    pub payload: T,
}

/// A fixed-size worker pool around one shared, unbounded, FIFO job queue.
///
/// The worker set is fixed at construction; the queue never rejects a
/// submission; each queued job is handed to exactly one worker.
pub struct ThreadPool<T> {
    /// One slot per worker: `None` while idle, `Some(id)` while executing
    /// the job with that sequence number.
    pub workers: Vec<Option<u64>>,
    /// Pending jobs in submission order; index 0 is served next.
    pub queue: Vec<Job<T>>,
    /// Sequence number assigned to the next submission.
    pub next_id: u64,
    /// Job ids in the order they were handed to workers.
    pub delivered: Vec<u64>,
    /// Job ids in the order their execution completed.
    pub finished: Vec<u64>,
}

impl<T> ThreadPool<T> {
    /// The ids of the queued jobs, front first.
    pub open spec fn queue_ids(self) -> Seq<u64> {
        self.queue@.map(|i: int, j: Job<T>| j.id)
    }

    /// Every id submitted so far, in submission order.
    pub open spec fn submitted_ids(self) -> Seq<u64> {
        Seq::new(self.next_id as nat, |i: int| i as u64)
    }

    /// How many of the first `n` worker slots are executing a job.
    pub open spec fn busy_upto(workers: Seq<Option<u64>>, n: int) -> int
        decreases n,
    {
        if n <= 0 {
            0
        } else {
            Self::busy_upto(workers, n - 1) + if workers[n - 1] is Some {
                1int
            } else {
                0int
            }
        }
    }

    /// How many workers are executing a job right now.
    pub open spec fn executing_count(self) -> int {
        Self::busy_upto(self.workers@, self.workers@.len() as int)
    }

    /// Well-formedness: the delivery record followed by the queue is exactly
    /// the submission history, every executing or completed id was delivered,
    /// no two workers share a job, nothing finishes twice, and a single
    /// worker completes jobs in the order they were delivered.
    pub open spec fn wf(self) -> bool {
        &&& self.delivered@ + self.queue_ids() == self.submitted_ids()
        &&& (forall|w: int|
            0 <= w < self.workers@.len() && self.workers@[w] is Some
                ==> self.delivered@.contains(self.workers@[w].unwrap()))
        &&& (forall|i: int|
            0 <= i < self.finished@.len() ==> self.delivered@.contains(self.finished@[i]))
        &&& (self.workers@.len() == 0 ==> self.delivered@.len() == 0)
        &&& (self.workers@.len() == 1 ==> (self.workers@[0] is None && self.finished@
            == self.delivered@) || (self.workers@[0] is Some && self.delivered@.len() > 0
            && self.workers@[0].unwrap() == self.delivered@.last() && self.finished@
            == self.delivered@.drop_last()))
        &&& (forall|w1: int, w2: int|
            0 <= w1 < self.workers@.len() && 0 <= w2 < self.workers@.len() && w1 != w2
                && self.workers@[w1] is Some && self.workers@[w2] is Some
                ==> self.workers@[w1].unwrap() != self.workers@[w2].unwrap())
        &&& (forall|i: int, j: int|
            0 <= i < j < self.finished@.len() ==> self.finished@[i] != self.finished@[j])
        &&& (forall|w: int, i: int|
            0 <= w < self.workers@.len() && self.workers@[w] is Some && 0 <= i
                < self.finished@.len() ==> self.workers@[w].unwrap() != self.finished@[i])
        &&& self.executing_count() + self.finished@.len() == self.delivered@.len()
    }

    /// Changing one slot moves the busy count of a range by the slot's own
    /// change, and only when the slot lies inside the range.
    proof fn lemma_busy_upto_update(ws: Seq<Option<u64>>, w: int, v: Option<u64>, n: int)
        requires
            0 <= w < ws.len(),
            0 <= n <= ws.len(),
        ensures
            Self::busy_upto(ws.update(w, v), n) == Self::busy_upto(ws, n) + if w < n {
                (if v is Some {
                    1int
                } else {
                    0int
                }) - (if ws[w] is Some {
                    1int
                } else {
                    0int
                })
            } else {
                0int
            },
        decreases n,
    {
        if n > 0 {
            Self::lemma_busy_upto_update(ws, w, v, n - 1);
        }
    }

    /// With every slot idle, nothing counts as busy.
    proof fn lemma_busy_upto_none(ws: Seq<Option<u64>>, n: int)
        requires
            0 <= n <= ws.len(),
            forall|w: int| 0 <= w < ws.len() ==> ws[w] is None,
        ensures
            Self::busy_upto(ws, n) == 0,
        decreases n,
    {
        if n > 0 {
            Self::lemma_busy_upto_none(ws, n - 1);
        }
    }

    /// In a well-formed pool the delivery record is an initial run of the
    /// sequence numbers and the queue continues it.
    pub proof fn lemma_ids_in_order(self)
        requires
            self.wf(),
        ensures
            forall|i: int| 0 <= i < self.delivered@.len() ==> self.delivered@[i] == i,
            forall|j: int|
                0 <= j < self.queue@.len() ==> self.queue@[j].id == self.delivered@.len() + j,
            self.delivered@.len() + self.queue@.len() == self.next_id,
    {
        assert(self.delivered@.len() + self.queue_ids().len() == self.submitted_ids().len());
        assert forall|i: int| 0 <= i < self.delivered@.len() implies self.delivered@[i] == i by {
            assert((self.delivered@ + self.queue_ids())[i] == self.submitted_ids()[i]);
        }
        assert forall|j: int|
            0 <= j < self.queue@.len() implies self.queue@[j].id == self.delivered@.len() + j by {
            let k = self.delivered@.len() + j;
            assert((self.delivered@ + self.queue_ids())[k] == self.submitted_ids()[k]);
        }
    }

    /// Builds a pool with `n` worker slots, all idle, and an empty queue.
    pub fn new(n: usize) -> (p: ThreadPool<T>)
        ensures
            p.wf(),
            p.workers@.len() == n,
            forall|w: int| 0 <= w < n ==> p.workers@[w] is None,
            p.queue@.len() == 0,
            p.next_id == 0,
            p.delivered@.len() == 0,
            p.finished@.len() == 0,
    {
        let mut workers: Vec<Option<u64>> = Vec::new();
        let mut i: usize = 0;
        while i < n
            invariant
                i <= n,
                workers@.len() == i,
                forall|w: int| 0 <= w < i ==> workers@[w] is None,
            decreases n - i,
        {
            workers.push(None);
            i = i + 1;
        }
        let p = ThreadPool {
            workers,
            queue: Vec::new(),
            next_id: 0,
            delivered: Vec::new(),
            finished: Vec::new(),
        };
        proof {
            assert(p.delivered@ + p.queue_ids() =~= p.submitted_ids());
            Self::lemma_busy_upto_none(p.workers@, p.workers@.len() as int);
        }
        p
    }

    /// Submits a job: appends it to the queue and returns at once. Nothing
    /// else changes — submission never waits for a worker and never touches
    /// the worker slots, whatever state they are in.
    pub fn execute(&mut self, handler: u64, payload: T)
        requires
            old(self).wf(),
            old(self).next_id < u64::MAX,
        ensures
            final(self).wf(),
            final(self).queue@ == old(self).queue@.push(
                Job { id: old(self).next_id, handler, payload },
            ),
            final(self).next_id == old(self).next_id + 1,
            final(self).workers@ == old(self).workers@,
            final(self).delivered@ == old(self).delivered@,
            final(self).finished@ == old(self).finished@,
    {
        proof {
            old(self).lemma_ids_in_order();
        }
        let job = Job { id: self.next_id, handler, payload };
        self.queue.push(job);
        self.next_id = self.next_id + 1;
        proof {
            assert(self.queue_ids() =~= old(self).queue_ids().push(old(self).next_id));
            assert(self.delivered@ + self.queue_ids() =~= self.submitted_ids());
        }
    }

    /// Worker `w` asks for work. If the worker is already executing, or the
    /// queue is empty, nothing changes and no job is handed out; otherwise the
    /// front job leaves the queue, is recorded as delivered, and worker `w`
    /// alone owns it until `worker_finish`.
    pub fn worker_take(&mut self, w: usize) -> (job: Option<Job<T>>)
        requires
            old(self).wf(),
            w < old(self).workers@.len(),
        ensures
            final(self).wf(),
            old(self).workers@[w as int] is Some ==> job is None && *final(self) == *old(self),
            old(self).workers@[w as int] is None && old(self).queue@.len() == 0 ==> job is None
                && *final(self) == *old(self),
            old(self).workers@[w as int] is None && old(self).queue@.len() > 0 ==> {
                &&& job == Some(old(self).queue@[0])
                &&& final(self).queue@ == old(self).queue@.subrange(
                    1,
                    old(self).queue@.len() as int,
                )
                &&& final(self).workers@ == old(self).workers@.update(
                    w as int,
                    Some(old(self).queue@[0].id),
                )
                &&& final(self).delivered@ == old(self).delivered@.push(old(self).queue@[0].id)
                &&& final(self).finished@ == old(self).finished@
                &&& final(self).next_id == old(self).next_id
            },
    {
        if self.workers[w].is_some() {
            return None;
        }
        if self.queue.len() == 0 {
            return None;
        }
        proof {
            old(self).lemma_ids_in_order();
        }
        let job = self.queue.remove(0);
        self.workers.set(w, Some(job.id));
        self.delivered.push(job.id);
        proof {
            let pre = *old(self);
            let id = pre.queue@[0].id;
            assert(pre.queue@.remove(0) =~= pre.queue@.subrange(1, pre.queue@.len() as int));
            assert(self.queue_ids() =~= pre.queue_ids().subrange(
                1,
                pre.queue_ids().len() as int,
            ));
            assert(self.delivered@ + self.queue_ids() =~= pre.submitted_ids());
            // delivered ids still point into the record, and the new id is fresh
            assert(id == pre.delivered@.len());
            assert forall|v: u64| pre.delivered@.contains(v) implies self.delivered@.contains(v)
                && v < pre.delivered@.len() by {
                let k = choose|k: int|
                    0 <= k < pre.delivered@.len() && pre.delivered@[k] == v;
                assert(self.delivered@[k] == v);
            }
            assert forall|i: int| 0 <= i < self.finished@.len() implies self.delivered@.contains(
                self.finished@[i],
            ) by {
                assert(pre.delivered@.contains(pre.finished@[i]));
            }
            assert(self.delivered@.contains(id)) by {
                assert(self.delivered@.last() == id);
            }
            assert forall|w2: int|
                0 <= w2 < self.workers@.len() && self.workers@[w2] is Some
                implies self.delivered@.contains(self.workers@[w2].unwrap()) by {
                if w2 != w as int {
                    assert(pre.delivered@.contains(pre.workers@[w2].unwrap()));
                }
            }
            if pre.workers@.len() == 1 {
                assert(self.finished@ =~= self.delivered@.drop_last());
            }
            Self::lemma_busy_upto_update(
                pre.workers@,
                w as int,
                Some(id),
                pre.workers@.len() as int,
            );
        }
        Some(job)
    }

    /// Worker `w` reports that the job it was executing has completed: the
    /// slot becomes idle again and the job id is appended to the completion
    /// record.
    pub fn worker_finish(&mut self, w: usize)
        requires
            old(self).wf(),
            w < old(self).workers@.len(),
            old(self).workers@[w as int] is Some,
        ensures
            final(self).wf(),
            final(self).workers@ == old(self).workers@.update(w as int, None::<u64>),
            final(self).finished@ == old(self).finished@.push(
                old(self).workers@[w as int].unwrap(),
            ),
            final(self).queue@ == old(self).queue@,
            final(self).delivered@ == old(self).delivered@,
            final(self).next_id == old(self).next_id,
    {
        let id = self.workers[w].unwrap();
        self.workers.set(w, None);
        self.finished.push(id);
        proof {
            let pre = *old(self);
            assert(self.queue_ids() =~= pre.queue_ids());
            if pre.workers@.len() == 1 {
                assert(self.finished@ =~= self.delivered@);
            }
            assert forall|i: int| 0 <= i < self.finished@.len() implies self.delivered@.contains(
                self.finished@[i],
            ) by {
                if i < pre.finished@.len() {
                    assert(pre.delivered@.contains(pre.finished@[i]));
                }
            }
            Self::lemma_busy_upto_update(
                pre.workers@,
                w as int,
                None,
                pre.workers@.len() as int,
            );
        }
    }

    /// Deliberately inert: the design declares a shutdown operation but it
    /// neither stops workers nor drains the queue, and that limitation is part
    /// of the interface.
    pub fn shutdown(&mut self)
        ensures
            *final(self) == *old(self),
    {
    }

    /// Delivery is exactly-once. No job id is ever handed to a worker twice
    /// and nothing completes twice (at-most-once); the delivery record is
    /// always the initial run of the submission history, so once the queue is
    /// drained every submitted job has been handed to exactly one worker
    /// (at-least-once).
    pub proof fn lemma_exactly_once_delivery(self)
        requires
            self.wf(),
        ensures
            forall|i: int, j: int|
                0 <= i < j < self.delivered@.len() ==> self.delivered@[i] != self.delivered@[j],
            forall|i: int, j: int|
                0 <= i < j < self.finished@.len() ==> self.finished@[i] != self.finished@[j],
            self.delivered@ == self.submitted_ids().take(self.delivered@.len() as int),
            self.queue@.len() == 0 ==> self.delivered@ == self.submitted_ids(),
    {
        self.lemma_ids_in_order();
        assert(self.delivered@ =~= self.submitted_ids().take(self.delivered@.len() as int));
        if self.queue@.len() == 0 {
            assert(self.delivered@ =~= self.submitted_ids());
        }
    }

    /// At most `n` of the first `n` worker slots are busy.
    proof fn lemma_busy_upto_bound(workers: Seq<Option<u64>>, n: int)
        requires
            0 <= n <= workers.len(),
        ensures
            0 <= Self::busy_upto(workers, n) <= n,
        decreases n,
    {
        if n > 0 {
            Self::lemma_busy_upto_bound(workers, n - 1);
        }
    }

    /// If all of the first `n` slots count as busy, each one of them is.
    proof fn lemma_busy_upto_full(workers: Seq<Option<u64>>, n: int)
        requires
            0 <= n <= workers.len(),
            Self::busy_upto(workers, n) == n,
        ensures
            forall|w: int| 0 <= w < n ==> workers[w] is Some,
        decreases n,
    {
        if n > 0 {
            Self::lemma_busy_upto_bound(workers, n - 1);
            Self::lemma_busy_upto_full(workers, n - 1);
        }
    }

    /// The pool never executes more jobs at once than it has workers, and
    /// when the count reaches the pool size every single slot is occupied —
    /// so, by the contract of `worker_take`, no further job can begin until
    /// some handler completes and `worker_finish` frees its slot.
    pub proof fn lemma_parallelism_bound(self)
        requires
            self.wf(),
        ensures
            0 <= self.executing_count() <= self.workers@.len(),
            self.executing_count() == self.delivered@.len() - self.finished@.len(),
            self.executing_count() == self.workers@.len() ==> forall|w: int|
                0 <= w < self.workers@.len() ==> self.workers@[w] is Some,
    {
        Self::lemma_busy_upto_bound(self.workers@, self.workers@.len() as int);
        if self.executing_count() == self.workers@.len() {
            Self::lemma_busy_upto_full(self.workers@, self.workers@.len() as int);
        }
    }

    /// Once the queue is drained and every worker is idle again, each
    /// submitted job's handler has been executed exactly once: the completion
    /// record repeats nothing and covers the whole submission history.
    pub proof fn lemma_all_executed_exactly_once(self)
        requires
            self.wf(),
            self.queue@.len() == 0,
            self.executing_count() == 0,
        ensures
            self.finished@.no_duplicates(),
            self.finished@.len() == self.next_id,
            self.finished@.to_set() == self.submitted_ids().to_set(),
    {
        broadcast use vstd::seq_lib::seq_to_set_is_finite;
        broadcast use vstd::set::group_set_axioms;

        self.lemma_exactly_once_delivery();
        assert(self.delivered@ == self.submitted_ids());
        assert(self.finished@.no_duplicates());
        assert(self.delivered@.no_duplicates());
        self.finished@.unique_seq_to_set();
        self.delivered@.unique_seq_to_set();
        assert(self.finished@.to_set().subset_of(self.delivered@.to_set()));
        vstd::set_lib::lemma_subset_equality(
            self.finished@.to_set(),
            self.delivered@.to_set(),
        );
    }

    /// A pool built with no workers accepts submissions but never delivers or
    /// completes anything: with no slot to take from the queue, the delivery
    /// and completion records stay empty forever.
    pub proof fn lemma_zero_workers_never_execute(self)
        requires
            self.wf(),
            self.workers@.len() == 0,
        ensures
            self.delivered@.len() == 0,
            self.finished@.len() == 0,
    {
        if self.finished@.len() > 0 {
            assert(self.delivered@.contains(self.finished@[0]));
        }
    }

    /// With a single worker, completion order is submission order: the
    /// completion record is exactly the first sequence numbers, in order.
    pub proof fn lemma_fifo_single_worker(self)
        requires
            self.wf(),
            self.workers@.len() == 1,
        ensures
            forall|i: int| 0 <= i < self.finished@.len() ==> self.finished@[i] == i,
            self.finished@ == self.submitted_ids().take(self.finished@.len() as int),
    {
        self.lemma_ids_in_order();
        assert forall|i: int| 0 <= i < self.finished@.len() implies self.finished@[i] == i by {
            if self.workers@[0] is None {
                assert(self.finished@[i] == self.delivered@[i]);
            } else {
                assert(self.finished@[i] == self.delivered@.drop_last()[i]);
            }
        }
        assert(self.finished@ =~= self.submitted_ids().take(self.finished@.len() as int));
    }

    /// How many worker slots the pool was built with.
    pub fn worker_count(&self) -> (n: usize)
        ensures
            n == self.workers@.len(),
    {
        self.workers.len()
    }

    /// How many submitted jobs are still waiting in the queue.
    pub fn pending(&self) -> (n: usize)
        ensures
            n == self.queue@.len(),
    {
        self.queue.len()
    }
}

} // verus!
