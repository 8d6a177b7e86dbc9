//! The pool of workers, as a model that runs without a network: workers take
//! turns, in any order, and each turn is one step of one worker. A worker
//! that is claiming draws from the claim cursor; a worker that transfers
//! ends its transfer, well or badly. A draw reads the cursor and moves it on
//! in one step, as an atomic fetch-and-add does, so no two workers draw the
//! same number. The laws of the pool are proved of every order of turns.

use vstd::prelude::*;
use vstd::set_lib::{lemma_int_range, lemma_len_subset, lemma_subset_equality, set_int_range};
use crate::worker::{step_worker, worker_step, Input, Turn, WorkerState};

verus! {

/// What has become of a task.
#[derive(Clone, Copy, Debug, PartialEq, Eq, Structural)]
pub enum TaskState {
    /// No worker has claimed it.
    Unclaimed,
    /// The worker `worker` transfers it.
    Running { worker: usize },
    /// Its transfer ended well.
    Succeeded,
    /// Its transfer failed.
    Failed,
}

/// A pool as a plain value.
pub struct PoolView {
    /// The number that the next draw from the cursor gives.
    pub cursor: nat,
    /// The state of each worker.
    pub workers: Seq<WorkerState>,
    /// The state of each task.
    pub tasks: Seq<TaskState>,
    /// The tasks whose transfer was begun, in the order in which it was.
    pub started: Seq<usize>,
    /// The count of tasks done, whether they ended well or not.
    pub done: nat,
    /// The count of tasks that failed.
    pub failed: nat,
}

/// A pool of workers over a list of tasks.
pub struct Pool {
    cursor: usize,
    workers: Vec<WorkerState>,
    tasks: Vec<TaskState>,
    started: Vec<usize>,
    done: usize,
    failed: usize,
}

impl View for Pool {
    type V = PoolView;

    closed spec fn view(&self) -> PoolView {
        PoolView {
            cursor: self.cursor as nat,
            workers: self.workers@,
            tasks: self.tasks@,
            started: self.started@,
            done: self.done as nat,
            failed: self.failed as nat,
        }
    }
}

/// Whether a task has reached its end.
pub open spec fn is_done(task: TaskState) -> bool {
    task is Succeeded || task is Failed
}

impl PoolView {
    /// The number of tasks.
    pub open spec fn total(self) -> nat {
        self.tasks.len()
    }

    /// The number of tasks that were claimed.
    pub open spec fn claimed(self) -> nat {
        if self.cursor < self.total() {
            self.cursor
        } else {
            self.total()
        }
    }

    /// The tasks that are done.
    pub open spec fn completed(self) -> Set<int> {
        Set::new(|i: int| 0 <= i < self.tasks.len() && is_done(self.tasks[i]))
    }

    /// The tasks that failed.
    pub open spec fn failures(self) -> Set<int> {
        Set::new(|i: int| 0 <= i < self.tasks.len() && self.tasks[i] is Failed)
    }

    /// The workers that have stopped.
    pub open spec fn stopped(self) -> Set<int> {
        Set::new(|w: int| 0 <= w < self.workers.len() && self.workers[w] is Stopped)
    }

    /// Whether every worker has stopped: the pool has returned.
    pub open spec fn finished(self) -> bool {
        forall|w: int| 0 <= w < self.workers.len() ==> (#[trigger] self.workers[w]) is Stopped
    }

    /// What holds of a pool at all times.
    pub open spec fn inv(self) -> bool {
        &&& self.total() + self.workers.len() <= usize::MAX
        &&& self.started == Seq::new(self.claimed(), |i: int| i as usize)
        &&& self.cursor == self.claimed() + self.stopped().len()
        &&& forall|i: int|
            0 <= i < self.tasks.len() ==> ((#[trigger] self.tasks[i]) is Unclaimed <==> i
                >= self.cursor)
        &&& forall|w: int|
            0 <= w < self.workers.len() ==> match #[trigger] self.workers[w] {
                WorkerState::Transferring { index } => index < self.tasks.len()
                    && self.tasks[index as int] == (TaskState::Running { worker: w as usize }),
                _ => true,
            }
        &&& forall|i: int|
            0 <= i < self.tasks.len() ==> match #[trigger] self.tasks[i] {
                TaskState::Running { worker } => worker < self.workers.len()
                    && self.workers[worker as int] == (WorkerState::Transferring {
                    index: i as usize,
                }),
                _ => true,
            }
        &&& self.done == self.completed().len()
        &&& self.failed == self.failures().len()
    }

    /// The number of turns that still change the pool: two for each task
    /// that is not claimed, one for each that is claimed and not done, one
    /// for each worker that has not stopped.
    pub open spec fn remaining(self) -> int {
        2 * self.total() + self.workers.len() - self.claimed() - self.done - self.stopped().len()
    }
}

/// A pool of `workers` workers over `total` tasks, before the first turn.
pub open spec fn initial_pool(total: nat, workers: nat) -> PoolView {
    PoolView {
        cursor: 0,
        workers: Seq::new(workers, |w: int| WorkerState::Claiming),
        tasks: Seq::new(total, |i: int| TaskState::Unclaimed),
        started: Seq::empty(),
        done: 0,
        failed: 0,
    }
}

/// What the worker `w` is told in its turn: the cursor's number where it is
/// claiming, how its transfer ends where it transfers.
pub open spec fn input_of(p: PoolView, w: int, failed: bool) -> Input {
    match p.workers[w] {
        WorkerState::Transferring { .. } => Input::Ended { failed },
        _ => Input::Drawn { number: p.cursor as usize },
    }
}

/// The pool after a turn of the worker `w`, and what the worker did. The
/// worker takes one step. Where it drew from the cursor, the cursor has
/// moved on by one. Where it began a task, the task runs with it and is
/// entered in the list of transfers begun. Where it ended a task, the task
/// is done, well or badly as `failed` says, and is counted.
pub open spec fn turn_of(p: PoolView, w: int, failed: bool) -> (PoolView, Turn) {
    if !(0 <= w < p.workers.len()) {
        (p, Turn::Idle)
    } else {
        let (state, turn) = worker_step(p.workers[w], input_of(p, w, failed), p.total() as usize);
        let workers = p.workers.update(w, state);
        match turn {
            Turn::Idle => (p, turn),
            Turn::Started { index } => (
                PoolView {
                    cursor: p.cursor + 1,
                    workers,
                    tasks: p.tasks.update(index as int, TaskState::Running { worker: w as usize }),
                    started: p.started.push(index),
                    ..p
                },
                turn,
            ),
            Turn::Stopped => (PoolView { cursor: p.cursor + 1, workers, ..p }, turn),
            Turn::Finished { index, failed } => (
                PoolView {
                    workers,
                    tasks: p.tasks.update(
                        index as int,
                        if failed {
                            TaskState::Failed
                        } else {
                            TaskState::Succeeded
                        },
                    ),
                    done: p.done + 1,
                    failed: if failed {
                        p.failed + 1
                    } else {
                        p.failed
                    },
                    ..p
                },
                turn,
            ),
        }
    }
}

/// The pool after the turns `turns`, each a worker and how its transfer
/// ends if it ends one.
pub open spec fn after_turns(p: PoolView, turns: Seq<(int, bool)>) -> PoolView
    decreases turns.len(),
{
    if turns.len() == 0 {
        p
    } else {
        turn_of(after_turns(p, turns.drop_last()), turns.last().0, turns.last().1).0
    }
}

/// A set of numbers below `n` is finite and has at most `n` members; with
/// `n` members it holds every number below `n`.
proof fn lemma_bounded_set(s: Set<int>, n: nat)
    requires
        forall|i: int| s.contains(i) ==> 0 <= i < n,
    ensures
        s.finite(),
        s.len() <= n,
        s.len() == n ==> forall|i: int| 0 <= i < n ==> s.contains(i),
{
    lemma_int_range(0, n as int);
    lemma_len_subset(s, set_int_range(0, n as int));
    if s.len() == n {
        lemma_subset_equality(s, set_int_range(0, n as int));
    }
}

/// The sets that a pool is counted by are finite and within their bounds.
proof fn lemma_counts_bounded(p: PoolView)
    ensures
        p.completed().finite(),
        p.failures().finite(),
        p.stopped().finite(),
        p.completed().len() <= p.total(),
        p.failures().len() <= p.completed().len(),
        p.stopped().len() <= p.workers.len(),
{
    lemma_bounded_set(p.completed(), p.total());
    lemma_bounded_set(p.stopped(), p.workers.len());
    lemma_len_subset(p.failures(), p.completed());
}

/// A pool before its first turn is as a pool should be.
pub proof fn lemma_initial_pool(total: nat, workers: nat)
    requires
        total + workers <= usize::MAX,
    ensures
        initial_pool(total, workers).inv(),
        initial_pool(total, workers).remaining() == 2 * total + workers,
{
    let p = initial_pool(total, workers);
    assert(p.completed() =~= Set::empty());
    assert(p.failures() =~= Set::empty());
    assert(p.stopped() =~= Set::empty());
    assert(p.started =~= Seq::new(p.claimed(), |i: int| i as usize));
}

/// A turn keeps a pool as it should be. A turn of a worker that has not
/// stopped brings the pool one turn nearer to its end; any other turn
/// changes nothing.
pub proof fn lemma_turn(p: PoolView, w: int, failed: bool)
    requires
        p.inv(),
    ensures
        turn_of(p, w, failed).0.inv(),
        0 <= w < p.workers.len() && !(p.workers[w] is Stopped) ==> turn_of(
            p,
            w,
            failed,
        ).0.remaining() == p.remaining() - 1,
        !(0 <= w < p.workers.len()) || p.workers[w] is Stopped ==> turn_of(p, w, failed).0 == p,
        turn_of(p, w, failed).0.workers.len() == p.workers.len(),
        turn_of(p, w, failed).0.tasks.len() == p.tasks.len(),
{
    let q = turn_of(p, w, failed).0;
    lemma_counts_bounded(p);
    if 0 <= w < p.workers.len() {
        match p.workers[w] {
            WorkerState::Stopped => {},
            WorkerState::Claiming => {
                if p.cursor < p.total() {
                    assert(q.stopped() =~= p.stopped());
                    assert(q.completed() =~= p.completed());
                    assert(q.failures() =~= p.failures());
                    assert(q.started =~= Seq::new(q.claimed(), |i: int| i as usize));
                } else {
                    assert(q.stopped() =~= p.stopped().insert(w));
                }
            },
            WorkerState::Transferring { index } => {
                assert(q.stopped() =~= p.stopped());
                assert(q.completed() =~= p.completed().insert(index as int));
                if failed {
                    assert(q.failures() =~= p.failures().insert(index as int));
                } else {
                    assert(q.failures() =~= p.failures());
                }
            },
        }
    }
}

/// Any turns keep a pool as it should be.
pub proof fn lemma_turns(p: PoolView, turns: Seq<(int, bool)>)
    requires
        p.inv(),
    ensures
        after_turns(p, turns).inv(),
        after_turns(p, turns).workers.len() == p.workers.len(),
        after_turns(p, turns).tasks.len() == p.tasks.len(),
        after_turns(p, turns).remaining() <= p.remaining(),
    decreases turns.len(),
{
    if turns.len() > 0 {
        lemma_turns(p, turns.drop_last());
        lemma_turn(after_turns(p, turns.drop_last()), turns.last().0, turns.last().1);
    }
}

/// No index is claimed twice: the transfers begun are those of rising
/// indices, each one above the one before it.
pub proof fn lemma_claims_rise(p: PoolView, i: int, j: int)
    requires
        p.inv(),
        0 <= i < j < p.started.len(),
    ensures
        p.started[i] < p.started[j],
        p.started[j] < p.total(),
{
}

/// When a pool with at least one worker has returned, the transfers that
/// were begun are those of the tasks 0, 1, 2 and so on up to the last, each
/// once; every task is done; and the count of tasks done is their number.
pub proof fn lemma_finished_pool(p: PoolView)
    requires
        p.inv(),
        p.workers.len() >= 1,
        p.finished(),
    ensures
        p.started == Seq::new(p.total(), |i: int| i as usize),
        forall|i: int| 0 <= i < p.total() ==> is_done(#[trigger] p.tasks[i]),
        p.done == p.total(),
        p.remaining() == 0,
{
    assert(p.stopped() =~= set_int_range(0, p.workers.len() as int));
    lemma_int_range(0, p.workers.len() as int);
    assert(p.completed() =~= set_int_range(0, p.total() as int));
    lemma_int_range(0, p.total() as int);
}

/// A pool that has no turn left to make has returned.
pub proof fn lemma_no_turn_left(p: PoolView)
    requires
        p.inv(),
        p.remaining() == 0,
    ensures
        p.finished(),
{
    lemma_counts_bounded(p);
    lemma_bounded_set(p.stopped(), p.workers.len());
    assert forall|w: int| 0 <= w < p.workers.len() implies (#[trigger] p.workers[w]) is Stopped by {
        assert(p.stopped().contains(w));
    }
}

/// Running the pool: whatever the number of tasks, with at least one worker,
/// in whatever order the workers take their turns and however the transfers
/// end, once every worker has returned each task was transferred exactly
/// once and counted as done.
pub proof fn lemma_every_task_once(total: nat, workers: nat, turns: Seq<(int, bool)>)
    requires
        total + workers <= usize::MAX,
        workers >= 1,
        after_turns(initial_pool(total, workers), turns).finished(),
    ensures
        ({
            let p = after_turns(initial_pool(total, workers), turns);
            &&& p.started == Seq::new(total, |i: int| i as usize)
            &&& p.tasks.len() == total
            &&& forall|i: int| 0 <= i < total ==> is_done(#[trigger] p.tasks[i])
            &&& p.done == total
        }),
{
    lemma_initial_pool(total, workers);
    lemma_turns(initial_pool(total, workers), turns);
    lemma_finished_pool(after_turns(initial_pool(total, workers), turns));
}

/// A pool without tasks never begins a transfer and never counts a task as
/// done, and its workers need one turn each to return.
pub proof fn lemma_empty_pool(workers: nat, turns: Seq<(int, bool)>)
    requires
        workers <= usize::MAX,
    ensures
        after_turns(initial_pool(0, workers), turns).started.len() == 0,
        after_turns(initial_pool(0, workers), turns).done == 0,
        initial_pool(0, workers).remaining() == workers,
{
    lemma_initial_pool(0, workers);
    lemma_turns(initial_pool(0, workers), turns);
    lemma_counts_bounded(after_turns(initial_pool(0, workers), turns));
}

/// A transfer that fails stops nothing: the turn that ends it leaves the
/// cursor, the workers, the transfers begun and the count of tasks done as
/// the same turn would with a transfer that ends well, and no other task is
/// touched.
pub proof fn lemma_failure_is_contained(p: PoolView, w: int)
    requires
        p.inv(),
    ensures
        ({
            let bad = turn_of(p, w, true).0;
            let good = turn_of(p, w, false).0;
            &&& bad.cursor == good.cursor
            &&& bad.workers == good.workers
            &&& bad.started == good.started
            &&& bad.done == good.done
            &&& bad.tasks.len() == good.tasks.len()
            &&& forall|i: int|
                0 <= i < bad.tasks.len() && bad.tasks[i] != good.tasks[i] ==> 0 <= w
                    < p.workers.len() && p.workers[w] == (WorkerState::Transferring {
                    index: i as usize,
                })
        }),
{
}

/// When a pool with at least one worker has returned, a task that failed
/// has kept no later task from being done.
pub proof fn lemma_later_tasks_done(p: PoolView, k: int)
    requires
        p.inv(),
        p.workers.len() >= 1,
        p.finished(),
        0 <= k < p.total(),
        p.tasks[k] is Failed,
    ensures
        forall|j: int| k < j < p.total() ==> is_done(#[trigger] p.tasks[j]),
{
    lemma_finished_pool(p);
}

/// How the transfer of the task `index` ends by the list `failures`: it
/// fails where the list has an entry for the task and the entry is set.
pub open spec fn outcome_of(failures: Seq<bool>, index: int) -> TaskState {
    if 0 <= index < failures.len() && failures[index] {
        TaskState::Failed
    } else {
        TaskState::Succeeded
    }
}

impl Pool {
    /// A pool of `workers` workers over `total` tasks, before the first turn.
    pub fn new(total: usize, workers: usize) -> (pool: Pool)
        requires
            total + workers <= usize::MAX,
        ensures
            pool@ == initial_pool(total as nat, workers as nat),
            pool@.inv(),
    {
        let mut states: Vec<WorkerState> = Vec::new();
        let mut w: usize = 0;
        while w < workers
            invariant
                w <= workers,
                states@ == Seq::new(w as nat, |v: int| WorkerState::Claiming),
            decreases workers - w,
        {
            states.push(WorkerState::Claiming);
            w += 1;
        }
        let mut tasks: Vec<TaskState> = Vec::new();
        let mut i: usize = 0;
        while i < total
            invariant
                i <= total,
                tasks@ == Seq::new(i as nat, |j: int| TaskState::Unclaimed),
            decreases total - i,
        {
            tasks.push(TaskState::Unclaimed);
            i += 1;
        }
        proof {
            lemma_initial_pool(total as nat, workers as nat);
        }
        Pool { cursor: 0, workers: states, tasks, started: Vec::new(), done: 0, failed: 0 }
    }

    /// The number of tasks.
    pub fn total(&self) -> (n: usize)
        ensures
            n == self@.total(),
    {
        self.tasks.len()
    }

    /// The number of workers.
    pub fn worker_count(&self) -> (n: usize)
        ensures
            n == self@.workers.len(),
    {
        self.workers.len()
    }

    /// The count of tasks done, whether they ended well or not.
    pub fn done(&self) -> (n: usize)
        ensures
            n == self@.done,
    {
        self.done
    }

    /// The count of tasks that failed.
    pub fn failed(&self) -> (n: usize)
        ensures
            n == self@.failed,
    {
        self.failed
    }

    /// The tasks whose transfer was begun, in the order in which it was.
    pub fn started(&self) -> (log: &Vec<usize>)
        ensures
            log@ == self@.started,
    {
        &self.started
    }

    /// The state of the worker `worker`, if there is such a worker.
    pub fn worker(&self, worker: usize) -> (state: Option<WorkerState>)
        ensures
            state == if worker < self@.workers.len() {
                Some(self@.workers[worker as int])
            } else {
                None
            },
    {
        if worker < self.workers.len() {
            Some(self.workers[worker])
        } else {
            None
        }
    }

    /// The state of the task `index`, if there is such a task.
    pub fn task(&self, index: usize) -> (state: Option<TaskState>)
        ensures
            state == if index < self@.tasks.len() {
                Some(self@.tasks[index as int])
            } else {
                None
            },
    {
        if index < self.tasks.len() {
            Some(self.tasks[index])
        } else {
            None
        }
    }

    /// Whether every worker has stopped.
    pub fn is_finished(&self) -> (b: bool)
        ensures
            b == self@.finished(),
    {
        let mut w: usize = 0;
        while w < self.workers.len()
            invariant
                w <= self.workers.len(),
                forall|v: int| 0 <= v < w ==> (#[trigger] self.workers@[v]) is Stopped,
            decreases self.workers.len() - w,
        {
            match self.workers[w] {
                WorkerState::Stopped => {},
                _ => {
                    return false;
                },
            }
            w += 1;
        }
        true
    }

    /// Runs a pool of `workers` workers over `total` tasks until every worker
    /// has returned. The workers take their turns one after the other, round
    /// after round; the transfer of a task fails where `failures` says so.
    pub fn run(total: usize, workers: usize, failures: &Vec<bool>) -> (pool: Pool)
        requires
            total + workers <= usize::MAX,
        ensures
            pool@.inv(),
            pool@.finished(),
            pool@.tasks.len() == total,
            pool@.workers.len() == workers,
            workers >= 1 ==> {
                &&& pool@.started == Seq::new(total as nat, |i: int| i as usize)
                &&& pool@.done == total
                &&& forall|i: int|
                    0 <= i < total ==> #[trigger] pool@.tasks[i] == outcome_of(failures@, i)
            },
            workers == 0 ==> pool@ == initial_pool(total as nat, 0),
    {
        let mut pool = Pool::new(total, workers);
        while !pool.is_finished()
            invariant
                pool@.inv(),
                pool@.tasks.len() == total,
                pool@.workers.len() == workers,
                workers == 0 ==> pool@ == initial_pool(total as nat, 0),
                forall|i: int|
                    0 <= i < total && is_done(#[trigger] pool@.tasks[i]) ==> pool@.tasks[i]
                        == outcome_of(failures@, i),
            decreases pool@.remaining(),
        {
            let ghost before = pool@;
            let ghost mut moved = false;
            let mut w: usize = 0;
            while w < workers
                invariant
                    w <= workers,
                    pool@.inv(),
                    before.inv(),
                    pool@.tasks.len() == total,
                    pool@.workers.len() == workers,
                    before.workers.len() == workers,
                    forall|i: int|
                        0 <= i < total && is_done(#[trigger] pool@.tasks[i]) ==> pool@.tasks[i]
                            == outcome_of(failures@, i),
                    moved ==> pool@.remaining() < before.remaining(),
                    !moved ==> pool@ == before,
                    !moved ==> forall|v: int| 0 <= v < w ==> (#[trigger] before.workers[v]) is Stopped,
                decreases workers - w,
            {
                let failed = match pool.worker(w) {
                    Some(WorkerState::Transferring { index }) => index < failures.len()
                        && failures[index],
                    _ => false,
                };
                proof {
                    lemma_turn(pool@, w as int, failed);
                    if !(pool@.workers[w as int] is Stopped) {
                        moved = true;
                    }
                }
                pool.turn(w, failed);
                w += 1;
            }
            proof {
                lemma_counts_bounded(pool@);
            }
        }
        proof {
            if workers >= 1 {
                lemma_finished_pool(pool@);
            }
        }
        pool
    }

    /// Lets the worker `worker` take its turn, and tells what it did. Where
    /// the worker ends a transfer in this turn, `failed` says whether the
    /// transfer failed.
    pub fn turn(&mut self, worker: usize, failed: bool) -> (turn: Turn)
        requires
            old(self)@.inv(),
        ensures
            (final(self)@, turn) == turn_of(old(self)@, worker as int, failed),
            final(self)@.inv(),
    {
        proof {
            lemma_turn(self@, worker as int, failed);
            lemma_counts_bounded(turn_of(self@, worker as int, failed).0);
        }
        if worker >= self.workers.len() {
            return Turn::Idle;
        }
        let input = match self.workers[worker] {
            WorkerState::Transferring { .. } => Input::Ended { failed },
            _ => Input::Drawn { number: self.cursor },
        };
        let (state, turn) = step_worker(self.workers[worker], input, self.tasks.len());
        match turn {
            Turn::Idle => {},
            Turn::Started { index } => {
                self.cursor = self.cursor + 1;
                self.workers.set(worker, state);
                self.tasks.set(index, TaskState::Running { worker });
                self.started.push(index);
            },
            Turn::Stopped => {
                proof {
                    assert(self@.stopped().insert(worker as int).len() <= self@.workers.len()) by {
                        lemma_bounded_set(
                            self@.stopped().insert(worker as int),
                            self@.workers.len(),
                        );
                    }
                }
                self.cursor = self.cursor + 1;
                self.workers.set(worker, state);
            },
            Turn::Finished { index, failed } => {
                self.workers.set(worker, state);
                self.tasks.set(
                    index,
                    if failed {
                        TaskState::Failed
                    } else {
                        TaskState::Succeeded
                    },
                );
                self.done = self.done + 1;
                if failed {
                    self.failed = self.failed + 1;
                }
            },
        }
        turn
    }
}

} // verus!
