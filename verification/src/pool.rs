//! The worker-pool scheduler: job submission, dispatch, and the graceful
//! termination protocol.
//!
//! The real pool runs each job on one of a fixed set of background threads,
//! all reading one shared channel. Threads and channels cannot be verified
//! directly, so this module verifies the protocol itself: a [`ThreadPool`]
//! value carries the state that the running pool maintains — one entry per
//! worker, the queue of pending messages, whether the sending side is still
//! open — together with the history of submitted and executed job
//! identifiers, and every step of the protocol (construction, submission,
//! dispatch, shutdown) is a verified transition on that state. The thin
//! threaded layer outside the library drives its receive loop through
//! [`worker_step`], so the decision a worker takes on each message is also
//! taken here.

use vstd::prelude::*;

verus! {

/// A control message carried by the dispatch channel: either one job to run,
/// identified by the caller's number for it, or the order to terminate.
/// Each message is consumed exactly once by exactly one worker.
#[derive(Clone, Copy, PartialEq, Eq, Structural, Debug)]
pub enum Message {
    NewJob(u64),
    Terminate,
}

/// The two states of a worker's life: it runs jobs until it receives
/// `Terminate` or the channel closes, then stops and never runs again.
#[derive(Clone, Copy, PartialEq, Eq, Structural, Debug)]
pub enum WorkerState {
    Running,
    Stopped,
}

/// One worker: its index in the pool and where it stands in its life cycle.
struct Worker {
    id: usize,
    state: WorkerState,
}

impl Worker {
    fn new(id: usize) -> (w: Worker)
        ensures
            w.id == id,
            w.state == WorkerState::Running,
    {
        Worker { id, state: WorkerState::Running }
    }
}

/// What a worker's receive call yielded: a job message, a terminate message,
/// or an error because the sending side is gone.
#[derive(Clone, Copy, PartialEq, Eq, Structural, Debug)]
pub enum RecvOutcome {
    NewJob,
    Terminate,
    Disconnected,
}

/// What a worker does next: run the job it received and keep looping, or
/// leave the loop and let its thread end.
#[derive(Clone, Copy, PartialEq, Eq, Structural, Debug)]
pub enum WorkerAction {
    RunJob,
    Exit,
}

/// The worker state machine: a job message is executed, anything else —
/// `Terminate` or a closed channel — ends the loop.
pub open spec fn worker_step_spec(outcome: RecvOutcome) -> WorkerAction {
    match outcome {
        RecvOutcome::NewJob => WorkerAction::RunJob,
        RecvOutcome::Terminate => WorkerAction::Exit,
        RecvOutcome::Disconnected => WorkerAction::Exit,
    }
}

/// The decision a worker takes after each receive. The loop that blocks on
/// the channel lives outside the library; it acts on what this returns.
pub fn worker_step(outcome: RecvOutcome) -> (a: WorkerAction)
    ensures
        a == worker_step_spec(outcome),
{
    match outcome {
        RecvOutcome::NewJob => WorkerAction::RunJob,
        RecvOutcome::Terminate => WorkerAction::Exit,
        RecvOutcome::Disconnected => WorkerAction::Exit,
    }
}

/// The job identifiers of the `NewJob` messages in `q`, in queue order.
pub open spec fn job_ids(q: Seq<Message>) -> Seq<u64>
    decreases q.len(),
{
    if q.len() == 0 {
        Seq::<u64>::empty()
    } else {
        match q[0] {
            Message::NewJob(id) => seq![id] + job_ids(q.drop_first()),
            Message::Terminate => job_ids(q.drop_first()),
        }
    }
}

/// How many `Terminate` messages stand in `q`.
pub open spec fn terminate_count(q: Seq<Message>) -> nat
    decreases q.len(),
{
    if q.len() == 0 {
        0
    } else {
        match q[0] {
            Message::NewJob(_) => terminate_count(q.drop_first()),
            Message::Terminate => terminate_count(q.drop_first()) + 1,
        }
    }
}

proof fn lemma_job_ids_push(q: Seq<Message>, m: Message)
    ensures
        job_ids(q.push(m)) == (match m {
            Message::NewJob(id) => job_ids(q).push(id),
            Message::Terminate => job_ids(q),
        }),
        terminate_count(q.push(m)) == terminate_count(q) + (match m {
            Message::NewJob(_) => 0int,
            Message::Terminate => 1int,
        }),
    decreases q.len(),
{
    let q2 = q.push(m);
    assert(q2.len() == q.len() + 1);
    if q.len() == 0 {
        assert(q2[0] == m);
        assert(q2.drop_first() =~= Seq::<Message>::empty());
        assert(job_ids(q2.drop_first()) == Seq::<u64>::empty());
        assert(terminate_count(q2.drop_first()) == 0);
        match m {
            Message::NewJob(id) => {
                assert(job_ids(q2) == seq![id] + job_ids(q2.drop_first()));
                assert(job_ids(q2) =~= job_ids(q).push(id));
            },
            Message::Terminate => {
                assert(job_ids(q2) == job_ids(q2.drop_first()));
                assert(job_ids(q2) =~= job_ids(q));
            },
        }
    } else {
        assert(q2[0] == q[0]);
        assert(q2.drop_first() =~= q.drop_first().push(m));
        lemma_job_ids_push(q.drop_first(), m);
        match q[0] {
            Message::NewJob(h) => {
                assert(job_ids(q2) == seq![h] + job_ids(q2.drop_first()));
                assert(job_ids(q) == seq![h] + job_ids(q.drop_first()));
                assert(terminate_count(q2) == terminate_count(q2.drop_first()));
                assert(terminate_count(q) == terminate_count(q.drop_first()));
                match m {
                    Message::NewJob(id) => {
                        assert(job_ids(q2) =~= job_ids(q).push(id));
                    },
                    Message::Terminate => {
                        assert(job_ids(q2) =~= job_ids(q));
                    },
                }
            },
            Message::Terminate => {
                assert(job_ids(q2) == job_ids(q2.drop_first()));
                assert(job_ids(q) == job_ids(q.drop_first()));
                assert(terminate_count(q2) == terminate_count(q2.drop_first()) + 1);
                assert(terminate_count(q) == terminate_count(q.drop_first()) + 1);
                match m {
                    Message::NewJob(id) => {
                        assert(job_ids(q2) =~= job_ids(q).push(id));
                    },
                    Message::Terminate => {
                        assert(job_ids(q2) =~= job_ids(q));
                    },
                }
            },
        }
    }
}

/// A fixed-size worker pool. `workers` has one entry per worker, fixed at
/// construction; `queue` is the dispatch channel's pending messages in send
/// order (front first); `sender_open` says whether the sending side still
/// exists. `submitted` records every job identifier the channel accepted and
/// `executed` every one a worker has run, both in order.
pub struct ThreadPool {
    workers: Vec<Worker>,
    queue: Vec<Message>,
    sender_open: bool,
    submitted: Vec<u64>,
    executed: Vec<u64>,
}

impl ThreadPool {
    /// How many workers the pool was built with.
    pub closed spec fn num_workers(&self) -> nat {
        self.workers@.len()
    }

    /// Whether the sending side of the dispatch channel is still open.
    pub closed spec fn is_open(&self) -> bool {
        self.sender_open
    }

    /// Whether every worker has stopped.
    pub closed spec fn all_stopped(&self) -> bool {
        forall|i: int|
            0 <= i < self.workers@.len() ==> self.workers@[i].state == WorkerState::Stopped
    }

    spec fn all_running(&self) -> bool {
        forall|i: int|
            0 <= i < self.workers@.len() ==> self.workers@[i].state == WorkerState::Running
    }

    /// The identifiers of the jobs still waiting in the channel, in send
    /// order.
    pub closed spec fn pending_jobs(&self) -> Seq<u64> {
        job_ids(self.queue@)
    }

    /// Every job identifier the channel accepted, in submission order.
    pub closed spec fn submitted_jobs(&self) -> Seq<u64> {
        self.submitted@
    }

    /// Every job identifier a worker has executed, in execution order.
    pub closed spec fn executed_jobs(&self) -> Seq<u64> {
        self.executed@
    }

    /// The pool's invariant. Worker `i` carries identifier `i`; a job is
    /// either executed or still pending, never both and never lost; while
    /// the sender is open no `Terminate` has been sent and every worker is
    /// running, and once it has been closed (by [`close`](Self::close)) the
    /// queue has been drained and every worker has stopped.
    pub closed spec fn wf(&self) -> bool {
        &&& forall|i: int| 0 <= i < self.workers@.len() ==> self.workers@[i].id == i
        &&& self.executed@ + job_ids(self.queue@) == self.submitted@
        &&& if self.sender_open {
            self.all_running() && terminate_count(self.queue@) == 0
        } else {
            self.all_stopped() && self.queue@.len() == 0
        }
    }

    /// Builds a pool of exactly `size` workers — no fewer and no more — all
    /// running, sharing a fresh, empty dispatch channel whose sending side
    /// the pool keeps. A pool of zero workers could never run anything, so
    /// `size` must be positive; this is a construction-time precondition,
    /// not a recoverable error.
    pub fn new(size: usize) -> (pool: ThreadPool)
        requires
            size >= 1,
        ensures
            pool.wf(),
            pool.num_workers() == size,
            pool.is_open(),
            pool.pending_jobs() == Seq::<u64>::empty(),
            pool.submitted_jobs() == Seq::<u64>::empty(),
            pool.executed_jobs() == Seq::<u64>::empty(),
    {
        let mut workers: Vec<Worker> = Vec::new();
        let mut id: usize = 0;
        while id < size
            invariant
                id <= size,
                workers@.len() == id,
                forall|i: int| 0 <= i < id ==> workers@[i].id == i,
                forall|i: int| 0 <= i < id ==> workers@[i].state == WorkerState::Running,
            decreases size - id,
        {
            workers.push(Worker::new(id));
            id += 1;
        }
        let pool = ThreadPool {
            workers,
            queue: Vec::new(),
            sender_open: true,
            submitted: Vec::new(),
            executed: Vec::new(),
        };
        proof {
            assert(job_ids(pool.queue@) =~= Seq::<u64>::empty());
            assert(pool.executed@ + job_ids(pool.queue@) =~= pool.submitted@);
        }
        pool
    }

    /// How many workers the pool has.
    pub fn worker_count(&self) -> (n: usize)
        ensures
            n == self.num_workers(),
    {
        self.workers.len()
    }

    /// The identifiers of the jobs workers have executed so far, in
    /// execution order.
    pub fn executed_ids(&self) -> (v: &Vec<u64>)
        ensures
            v@ == self.executed_jobs(),
    {
        &self.executed
    }

    /// Whether the pool has completed its shutdown protocol: the sending
    /// side is gone and every worker has stopped.
    pub fn is_shut_down(&self) -> (b: bool)
        ensures
            b == (!self.is_open() && self.all_stopped()),
    {
        if self.sender_open {
            return false;
        }
        let n: usize = self.workers.len();
        let mut i: usize = 0;
        while i < n
            invariant
                i <= n,
                n == self.workers@.len(),
                !self.sender_open,
                forall|k: int| 0 <= k < i ==> self.workers@[k].state == WorkerState::Stopped,
            decreases n - i,
        {
            match self.workers[i].state {
                WorkerState::Running => {
                    return false;
                },
                WorkerState::Stopped => {},
            }
            i += 1;
        }
        true
    }

    /// Submits one job. While the pool is active the job is appended to the
    /// dispatch queue and recorded as submitted; submission never blocks,
    /// the queue being unbounded. After shutdown has closed the channel the
    /// send fails and the job is silently dropped — the pool is left exactly
    /// as it was, a no-op rather than an error, which preserves at-most-once
    /// execution.
    pub fn execute(&mut self, job: u64)
        requires
            old(self).wf(),
        ensures
            final(self).wf(),
            final(self).num_workers() == old(self).num_workers(),
            final(self).is_open() == old(self).is_open(),
            old(self).is_open() ==> {
                &&& final(self).submitted_jobs() == old(self).submitted_jobs().push(job)
                &&& final(self).pending_jobs() == old(self).pending_jobs().push(job)
                &&& final(self).executed_jobs() == old(self).executed_jobs()
            },
            !old(self).is_open() ==> *final(self) == *old(self),
    {
        if self.sender_open {
            self.queue.push(Message::NewJob(job));
            self.submitted.push(job);
            proof {
                lemma_job_ids_push(old(self).queue@, Message::NewJob(job));
                assert(self.executed@ + job_ids(self.queue@) =~= self.submitted@);
            }
        }
    }

    /// One dispatch step while the pool is active: the worker that wins the
    /// lock takes the message at the front of the queue — necessarily the
    /// oldest pending job — removes it, and executes it. Returns the job's
    /// identifier. Jobs are thus dequeued in send order, and a dispatched
    /// job leaves the queue in the same step that records its execution, so
    /// no later step can take it again.
    pub fn dispatch_next(&mut self) -> (job: u64)
        requires
            old(self).wf(),
            old(self).is_open(),
            old(self).pending_jobs().len() > 0,
        ensures
            final(self).wf(),
            job == old(self).pending_jobs()[0],
            final(self).pending_jobs() == old(self).pending_jobs().drop_first(),
            final(self).executed_jobs() == old(self).executed_jobs().push(job),
            final(self).submitted_jobs() == old(self).submitted_jobs(),
            final(self).num_workers() == old(self).num_workers(),
            final(self).is_open(),
    {
        let msg = self.queue.remove(0);
        proof {
            assert(old(self).queue@[0] == msg);
            assert(self.queue@ =~= old(self).queue@.drop_first());
        }
        match msg {
            Message::NewJob(id) => {
                self.executed.push(id);
                proof {
                    assert(job_ids(old(self).queue@) == seq![id] + job_ids(self.queue@));
                    assert(job_ids(old(self).queue@).drop_first() =~= job_ids(self.queue@));
                    assert(self.executed@ + job_ids(self.queue@) =~= self.submitted@);
                }
                id
            },
            Message::Terminate => {
                // Unreachable while the sender is open: `wf` says no
                // `Terminate` has been sent yet.
                proof {
                    assert(terminate_count(old(self).queue@) > 0);
                }
                0
            },
        }
    }

    /// Graceful shutdown, the protocol the pool runs when it is dropped:
    /// send one `Terminate` per worker, close the sending side, then wait
    /// for every worker, letting in-flight and queued jobs finish. Because
    /// the queue is consumed in send order and every `Terminate` was sent
    /// after every accepted job, no worker stops before the jobs ahead of it
    /// are executed: afterwards the executed history is exactly the
    /// submitted history, the queue is empty, and every worker has stopped.
    /// Closing an already-closed pool changes nothing.
    pub fn close(&mut self)
        requires
            old(self).wf(),
        ensures
            final(self).wf(),
            !final(self).is_open(),
            final(self).all_stopped(),
            final(self).num_workers() == old(self).num_workers(),
            final(self).pending_jobs() == Seq::<u64>::empty(),
            final(self).submitted_jobs() == old(self).submitted_jobs(),
            final(self).executed_jobs() == old(self).executed_jobs() + old(self).pending_jobs(),
            final(self).executed_jobs() == old(self).submitted_jobs(),
    {
        if self.sender_open {
            // One `Terminate` for each worker.
            let n: usize = self.workers.len();
            let mut i: usize = 0;
            while i < n
                invariant
                    i <= n,
                    self.workers@ == old(self).workers@,
                    self.submitted@ == old(self).submitted@,
                    self.executed@ == old(self).executed@,
                    self.sender_open,
                    job_ids(self.queue@) == job_ids(old(self).queue@),
                decreases n - i,
            {
                proof {
                    lemma_job_ids_push(self.queue@, Message::Terminate);
                }
                self.queue.push(Message::Terminate);
                i += 1;
            }
            // The sending side is dropped: nothing can be queued any more.
            self.sender_open = false;
            // The workers drain the queue in send order: every job message
            // is executed, every terminate message stops one receive loop.
            while self.queue.len() > 0
                invariant
                    self.workers@ == old(self).workers@,
                    self.submitted@ == old(self).submitted@,
                    !self.sender_open,
                    self.executed@ + job_ids(self.queue@) == self.submitted@,
                decreases self.queue@.len(),
            {
                let ghost q0 = self.queue@;
                let ghost e0 = self.executed@;
                let msg = self.queue.remove(0);
                proof {
                    assert(self.queue@ =~= q0.drop_first());
                }
                match msg {
                    Message::NewJob(id) => {
                        self.executed.push(id);
                        proof {
                            assert(job_ids(q0) == seq![id] + job_ids(q0.drop_first()));
                            assert(self.executed@ + job_ids(self.queue@) =~= e0 + job_ids(q0));
                        }
                    },
                    Message::Terminate => {
                        proof {
                            assert(job_ids(q0) == job_ids(q0.drop_first()));
                        }
                    },
                }
            }
            // Join every worker: each has received `Terminate` or seen the
            // channel close, and its thread has ended.
            let worker_total: usize = self.workers.len();
            let mut stopped: Vec<Worker> = Vec::new();
            let mut j: usize = 0;
            while j < worker_total
                invariant
                    j <= worker_total,
                    stopped@.len() == j,
                    forall|k: int| 0 <= k < j ==> stopped@[k].id == k,
                    forall|k: int| 0 <= k < j ==> stopped@[k].state == WorkerState::Stopped,
                decreases worker_total - j,
            {
                stopped.push(Worker { id: j, state: WorkerState::Stopped });
                j += 1;
            }
            self.workers = stopped;
            proof {
                assert(job_ids(self.queue@) =~= Seq::<u64>::empty());
                assert(self.executed@ + job_ids(self.queue@) =~= self.executed@);
                assert(self.executed@ == self.submitted@);
                assert(self.executed@ =~= old(self).executed@ + job_ids(old(self).queue@));
            }
        } else {
            proof {
                assert(job_ids(self.queue@) =~= Seq::<u64>::empty());
                assert(self.executed@ + job_ids(self.queue@) =~= self.executed@);
                assert(self.executed@ == self.submitted@);
                assert(self.executed@ =~= old(self).executed@ + job_ids(old(self).queue@));
            }
        }
    }
}

/// A job is never lost and never duplicated in flight: at every reachable
/// pool state, the executed history followed by the still-pending jobs is
/// exactly the submitted history, in order.
pub proof fn lemma_conservation(pool: &ThreadPool)
    requires
        pool.wf(),
    ensures
        pool.executed_jobs() + pool.pending_jobs() == pool.submitted_jobs(),
{
}

/// Jobs are executed in submission order: at every reachable pool state the
/// executed history is a prefix of the submitted history.
pub proof fn lemma_fifo_order(pool: &ThreadPool)
    requires
        pool.wf(),
    ensures
        pool.executed_jobs() == pool.submitted_jobs().take(pool.executed_jobs().len() as int),
{
    let e = pool.executed_jobs();
    let s = pool.submitted_jobs();
    assert forall|i: int| 0 <= i < e.len() implies e[i] == s[i] by {
        assert((e + pool.pending_jobs())[i] == e[i]);
    }
    assert(e =~= s.take(e.len() as int));
}

/// At most one worker ever executes a given job: if the submitted job
/// identifiers are pairwise distinct, so are the executed ones — no job is
/// ever executed twice.
pub proof fn lemma_no_double_execution(pool: &ThreadPool)
    requires
        pool.wf(),
        pool.submitted_jobs().no_duplicates(),
    ensures
        pool.executed_jobs().no_duplicates(),
{
    lemma_fifo_order(pool);
    let e = pool.executed_jobs();
    let s = pool.submitted_jobs();
    assert forall|i: int, j: int| 0 <= i < e.len() && 0 <= j < e.len() && i != j implies e[i]
        != e[j] by {
        assert(e[i] == s.take(e.len() as int)[i]);
        assert(e[j] == s.take(e.len() as int)[j]);
    }
}

} // verus!
