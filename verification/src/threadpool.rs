//! The protocol of a worker pool: a fixed number of workers that take
//! jobs from one queue, first come first served, until each has taken a
//! shutdown sentinel.
//!
//! The pool here is the state that the workers share. A worker's loop
//! asks `take` what to do, runs the job it is handed outside the pool,
//! and reports back with `finish`. The queue holds the jobs that wait and,
//! behind them, the sentinels: once shutdown has begun no job is
//! accepted, so no job ever stands behind a sentinel.

use vstd::prelude::*;
use std::collections::VecDeque;

verus! {

/// What a worker is doing.
#[derive(Clone, Copy, Debug, PartialEq, Eq, Structural)]
pub enum WorkerState {
    /// Waiting on the queue.
    Idle,
    /// Running a job.
    Busy,
    /// Gone, after taking a sentinel.
    Exited,
}

/// What a worker does next.
pub enum Step<J> {
    /// Run this job, then call `finish`.
    Run(J),
    /// Leave the loop.
    Exit,
    /// Block until the queue changes, then ask again.
    Wait,
}

pub struct ThreadPool<J> {
    workers: Vec<WorkerState>,
    jobs: VecDeque<J>,
    sentinels: usize,
    closing: bool,
    accepted: Ghost<Seq<J>>,
    handed: Ghost<Seq<J>>,
    finished: Ghost<nat>,
}

/// How many of `workers` are in state `state`.
pub open spec fn count_state(workers: Seq<WorkerState>, state: WorkerState) -> nat
    decreases workers.len(),
{
    if workers.len() == 0 {
        0
    } else {
        count_state(workers.drop_last(), state) + if workers.last() == state {
            1nat
        } else {
            0nat
        }
    }
}

pub proof fn lemma_count_bounded(workers: Seq<WorkerState>, state: WorkerState)
    ensures
        count_state(workers, state) <= workers.len(),
    decreases workers.len(),
{
    if workers.len() > 0 {
        lemma_count_bounded(workers.drop_last(), state);
    }
}

/// A count is full exactly when every worker is in the state.
pub proof fn lemma_count_full(workers: Seq<WorkerState>, state: WorkerState)
    ensures
        count_state(workers, state) == workers.len() <==> forall|i: int|
            0 <= i < workers.len() ==> workers[i] == state,
        count_state(workers, state) == 0 <==> forall|i: int|
            0 <= i < workers.len() ==> workers[i] != state,
    decreases workers.len(),
{
    if workers.len() > 0 {
        let front = workers.drop_last();
        lemma_count_full(front, state);
        lemma_count_bounded(front, state);
        if forall|i: int| 0 <= i < front.len() ==> front[i] == state {
            assert forall|i: int| 0 <= i < workers.len() && workers.last() == state implies workers[i]
                == state by {
                if i < front.len() {
                    assert(workers[i] == front[i]);
                }
            }
        } else {
            let i = choose|i: int| 0 <= i < front.len() && front[i] != state;
        }
        if forall|i: int| 0 <= i < front.len() ==> front[i] != state {
            assert forall|i: int| 0 <= i < workers.len() && workers.last() != state implies workers[i]
                != state by {
                if i < front.len() {
                    assert(workers[i] == front[i]);
                }
            }
        } else {
            let i = choose|i: int| 0 <= i < front.len() && front[i] == state;
        }
    }
}

/// What a change of one worker's state does to a count.
pub proof fn lemma_count_update(
    workers: Seq<WorkerState>,
    at: int,
    to: WorkerState,
    state: WorkerState,
)
    requires
        0 <= at < workers.len(),
    ensures
        count_state(workers.update(at, to), state) + (if workers[at] == state {
            1nat
        } else {
            0nat
        }) == count_state(workers, state) + (if to == state {
            1nat
        } else {
            0nat
        }),
    decreases workers.len(),
{
    let after = workers.update(at, to);
    if at == workers.len() - 1 {
        assert(after.drop_last() =~= workers.drop_last());
    } else {
        lemma_count_update(workers.drop_last(), at, to, state);
        assert(after.drop_last() =~= workers.drop_last().update(at, to));
    }
}

impl<J> ThreadPool<J> {
    /// The state of each worker, by the worker's number.
    pub closed spec fn workers(&self) -> Seq<WorkerState> {
        self.workers@
    }

    /// The jobs that wait, the oldest first.
    pub closed spec fn pending(&self) -> Seq<J> {
        self.jobs@
    }

    /// The sentinels in the queue, all of them behind the jobs.
    pub closed spec fn sentinels(&self) -> nat {
        self.sentinels as nat
    }

    /// Shutdown has begun.
    pub closed spec fn closing(&self) -> bool {
        self.closing
    }

    /// Every job that was accepted since the pool was made, in the order
    /// of acceptance.
    pub closed spec fn accepted(&self) -> Seq<J> {
        self.accepted@
    }

    /// Every job that was handed to a worker, in the order of handing
    /// out.
    pub closed spec fn handed_out(&self) -> Seq<J> {
        self.handed@
    }

    /// How many jobs were run to their end.
    pub closed spec fn finished(&self) -> nat {
        self.finished@
    }

    /// The number of workers.
    pub open spec fn size(&self) -> nat {
        self.workers().len()
    }

    /// The number of jobs that run.
    pub open spec fn running(&self) -> nat {
        count_state(self.workers(), WorkerState::Busy)
    }

    /// The number of workers that are gone.
    pub open spec fn exited(&self) -> nat {
        count_state(self.workers(), WorkerState::Exited)
    }

    /// Every worker is gone.
    pub open spec fn torn_down(&self) -> bool {
        forall|i: int| 0 <= i < self.size() ==> self.workers()[i] == WorkerState::Exited
    }

    /// The invariant of a pool. It has a worker. Before shutdown there is
    /// no sentinel and no worker is gone; from its beginning on there
    /// is one sentinel for each worker, taken or still queued. A worker is
    /// gone only when no job waits. The jobs that were accepted are those
    /// that were handed out followed by those that wait: none is lost,
    /// none overtakes another. A job that was handed out runs or was run
    /// to its end.
    pub open spec fn wf(&self) -> bool {
        &&& self.size() >= 1
        &&& !self.closing() ==> self.sentinels() == 0 && self.exited() == 0
        &&& self.closing() ==> self.sentinels() + self.exited() == self.size()
        &&& self.exited() > 0 ==> self.pending().len() == 0
        &&& self.accepted() == self.handed_out() + self.pending()
        &&& self.handed_out().len() == self.finished() + self.running()
    }

    /// A pool of `size` idle workers with an empty queue.
    pub fn new(size: usize) -> (pool: ThreadPool<J>)
        requires
            size > 0,
        ensures
            pool.wf(),
            pool.size() == size,
            forall|i: int| 0 <= i < size ==> pool.workers()[i] == WorkerState::Idle,
            pool.pending() == Seq::<J>::empty(),
            pool.sentinels() == 0,
            !pool.closing(),
            pool.accepted() == Seq::<J>::empty(),
            pool.handed_out() == Seq::<J>::empty(),
            pool.finished() == 0,
    {
        let mut workers: Vec<WorkerState> = Vec::with_capacity(size);
        let mut id: usize = 0;
        while id < size
            invariant
                id <= size,
                workers@.len() == id,
                forall|i: int| 0 <= i < id ==> workers@[i] == WorkerState::Idle,
            decreases size - id,
        {
            workers.push(WorkerState::Idle);
            id += 1;
        }
        proof {
            lemma_count_full(workers@, WorkerState::Exited);
            lemma_count_full(workers@, WorkerState::Busy);
        }
        ThreadPool {
            workers,
            jobs: VecDeque::new(),
            sentinels: 0,
            closing: false,
            accepted: Ghost(Seq::empty()),
            handed: Ghost(Seq::empty()),
            finished: Ghost(0),
        }
    }

    /// The number of workers.
    pub fn len(&self) -> (n: usize)
        ensures
            n == self.size(),
    {
        self.workers.len()
    }

    /// Whether shutdown has begun.
    pub fn is_closing(&self) -> (r: bool)
        ensures
            r == self.closing(),
    {
        self.closing
    }

    /// The state of worker `worker`, if there is such a worker.
    pub fn state(&self, worker: usize) -> (r: Option<WorkerState>)
        ensures
            r == (if worker < self.size() {
                Some(self.workers()[worker as int])
            } else {
                None
            }),
    {
        if worker < self.workers.len() {
            Some(self.workers[worker])
        } else {
            None
        }
    }

    /// The number of jobs that wait.
    pub fn queued(&self) -> (n: usize)
        ensures
            n == self.pending().len(),
    {
        self.jobs.len()
    }

    /// Whether every worker is gone.
    pub fn is_torn_down(&self) -> (r: bool)
        ensures
            r == self.torn_down(),
    {
        let mut i: usize = 0;
        while i < self.workers.len()
            invariant
                i <= self.workers@.len(),
                forall|j: int| 0 <= j < i ==> self.workers@[j] == WorkerState::Exited,
            decreases self.workers@.len() - i,
        {
            match self.workers[i] {
                WorkerState::Exited => {},
                _ => {
                    return false;
                },
            }
            i += 1;
        }
        true
    }

    /// Puts `job` at the end of the queue. Once shutdown has begun the
    /// job is refused and handed back.
    pub fn execute(&mut self, job: J) -> (r: Result<(), J>)
        requires
            old(self).wf(),
        ensures
            final(self).wf(),
            final(self).workers() == old(self).workers(),
            final(self).sentinels() == old(self).sentinels(),
            final(self).closing() == old(self).closing(),
            final(self).handed_out() == old(self).handed_out(),
            final(self).finished() == old(self).finished(),
            old(self).closing() ==> {
                &&& r == Err::<(), J>(job)
                &&& final(self).pending() == old(self).pending()
                &&& final(self).accepted() == old(self).accepted()
            },
            !old(self).closing() ==> {
                &&& r is Ok
                &&& final(self).pending() == old(self).pending().push(job)
                &&& final(self).accepted() == old(self).accepted().push(job)
            },
    {
        if self.closing {
            Err(job)
        } else {
            proof {
                self.accepted@ = self.accepted@.push(job);
            }
            self.jobs.push_back(job);
            Ok(())
        }
    }

    /// Begins shutdown: queues one sentinel for each worker, behind the
    /// jobs that wait. A second call changes nothing.
    pub fn shutdown(&mut self)
        requires
            old(self).wf(),
        ensures
            final(self).wf(),
            final(self).closing(),
            final(self).workers() == old(self).workers(),
            final(self).pending() == old(self).pending(),
            final(self).accepted() == old(self).accepted(),
            final(self).handed_out() == old(self).handed_out(),
            final(self).finished() == old(self).finished(),
            final(self).sentinels() == (if old(self).closing() {
                old(self).sentinels()
            } else {
                old(self).size()
            }),
    {
        if !self.closing {
            self.sentinels = self.workers.len();
            self.closing = true;
        }
    }

    /// The idle worker `worker` takes what stands first in the queue: the
    /// oldest job, which it then runs; or, where no job waits, a
    /// sentinel, on which it is gone. With an empty queue it waits.
    pub fn take(&mut self, worker: usize) -> (step: Step<J>)
        requires
            old(self).wf(),
            worker < old(self).size(),
            old(self).workers()[worker as int] == WorkerState::Idle,
        ensures
            final(self).wf(),
            final(self).closing() == old(self).closing(),
            final(self).accepted() == old(self).accepted(),
            final(self).finished() == old(self).finished(),
            old(self).pending().len() == 0 ==> final(self).handed_out() == old(self).handed_out(),
            old(self).pending().len() > 0 ==> {
                &&& step == Step::Run(old(self).pending()[0])
                &&& final(self).handed_out() == old(self).handed_out().push(old(self).pending()[0])
                &&& final(self).pending() == old(self).pending().drop_first()
                &&& final(self).sentinels() == old(self).sentinels()
                &&& final(self).workers() == old(self).workers().update(
                    worker as int,
                    WorkerState::Busy,
                )
            },
            old(self).pending().len() == 0 && old(self).sentinels() > 0 ==> {
                &&& step is Exit
                &&& final(self).pending() == old(self).pending()
                &&& final(self).sentinels() == old(self).sentinels() - 1
                &&& final(self).workers() == old(self).workers().update(
                    worker as int,
                    WorkerState::Exited,
                )
            },
            old(self).pending().len() == 0 && old(self).sentinels() == 0 ==> {
                &&& step is Wait
                &&& final(self).pending() == old(self).pending()
                &&& final(self).sentinels() == old(self).sentinels()
                &&& final(self).workers() == old(self).workers()
            },
    {
        proof {
            lemma_count_update(
                self.workers@,
                worker as int,
                WorkerState::Busy,
                WorkerState::Exited,
            );
            lemma_count_update(
                self.workers@,
                worker as int,
                WorkerState::Exited,
                WorkerState::Exited,
            );
            lemma_count_bounded(self.workers@, WorkerState::Exited);
            lemma_count_update(self.workers@, worker as int, WorkerState::Busy, WorkerState::Busy);
            lemma_count_update(
                self.workers@,
                worker as int,
                WorkerState::Exited,
                WorkerState::Busy,
            );
        }
        match self.jobs.pop_front() {
            Some(job) => {
                self.workers.set(worker, WorkerState::Busy);
                proof {
                    self.handed@ = self.handed@.push(job);
                }
                assert(self.handed@ + self.jobs@ =~= old(self).handed@ + old(self).jobs@);
                Step::Run(job)
            },
            None => {
                if self.sentinels > 0 {
                    self.sentinels = self.sentinels - 1;
                    self.workers.set(worker, WorkerState::Exited);
                    Step::Exit
                } else {
                    Step::Wait
                }
            },
        }
    }

    /// The busy worker `worker` has run its job to the end and is idle
    /// again. With `stop` the job asks for shutdown, which then begins.
    pub fn finish(&mut self, worker: usize, stop: bool)
        requires
            old(self).wf(),
            worker < old(self).size(),
            old(self).workers()[worker as int] == WorkerState::Busy,
        ensures
            final(self).wf(),
            final(self).workers() == old(self).workers().update(worker as int, WorkerState::Idle),
            final(self).pending() == old(self).pending(),
            final(self).accepted() == old(self).accepted(),
            final(self).handed_out() == old(self).handed_out(),
            final(self).finished() == old(self).finished() + 1,
            final(self).closing() == (old(self).closing() || stop),
            final(self).sentinels() == (if stop && !old(self).closing() {
                old(self).size()
            } else {
                old(self).sentinels()
            }),
    {
        proof {
            lemma_count_update(
                self.workers@,
                worker as int,
                WorkerState::Idle,
                WorkerState::Exited,
            );
            lemma_count_update(self.workers@, worker as int, WorkerState::Idle, WorkerState::Busy);
            self.finished@ = self.finished@ + 1;
        }
        self.workers.set(worker, WorkerState::Idle);
        if stop {
            self.shutdown();
        }
    }
}

/// At most as many jobs run as the pool has workers.
pub proof fn law_running_bounded<J>(pool: ThreadPool<J>)
    ensures
        pool.running() <= pool.size(),
        pool.running() + pool.exited() <= pool.size(),
{
    lemma_count_bounded(pool.workers(), WorkerState::Busy);
    lemma_running_and_exited(pool.workers());
}

pub proof fn lemma_running_and_exited(workers: Seq<WorkerState>)
    ensures
        count_state(workers, WorkerState::Busy) + count_state(workers, WorkerState::Exited)
            <= workers.len(),
    decreases workers.len(),
{
    if workers.len() > 0 {
        lemma_running_and_exited(workers.drop_last());
    }
}

/// A pool is torn down exactly when shutdown has begun and every sentinel
/// is taken. Then no job waits and none runs: every job that was accepted
/// was handed to a worker, in the order of acceptance, and was run to its
/// end.
pub proof fn law_torn_down_when_sentinels_taken<J>(pool: ThreadPool<J>)
    requires
        pool.wf(),
    ensures
        pool.torn_down() <==> pool.closing() && pool.sentinels() == 0,
        pool.torn_down() ==> pool.pending().len() == 0 && pool.running() == 0,
        pool.torn_down() ==> pool.handed_out() == pool.accepted(),
        pool.torn_down() ==> pool.finished() == pool.accepted().len(),
{
    lemma_count_full(pool.workers(), WorkerState::Exited);
    lemma_count_full(pool.workers(), WorkerState::Busy);
}

/// While a job waits no worker is gone: a worker takes a sentinel only
/// after every job that was accepted has been handed out.
pub proof fn law_jobs_before_sentinels<J>(pool: ThreadPool<J>)
    requires
        pool.wf(),
        pool.pending().len() > 0,
    ensures
        pool.exited() == 0,
        !pool.torn_down(),
        forall|i: int| 0 <= i < pool.size() ==> pool.workers()[i] != WorkerState::Exited,
{
    lemma_count_full(pool.workers(), WorkerState::Exited);
}

} // verus!
