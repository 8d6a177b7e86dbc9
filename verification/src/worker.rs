//! One worker, as a machine: it draws from the claim cursor, transfers the
//! task it drew, counts it as done whether the transfer ended well or not,
//! and draws again, until it draws a number beyond the last task.

use std::sync::atomic::AtomicUsize;
use vstd::prelude::*;
use crate::arguments::{connections_for, effective_connections};
use crate::cursor::{claim_of, decide_claim, draw};

verus! {

/// What a worker is doing.
#[derive(Clone, Copy, Debug, PartialEq, Eq, Structural)]
pub enum WorkerState {
    /// It is about to draw from the cursor.
    Claiming,
    /// It transfers the task `index`.
    Transferring { index: usize },
    /// It found the tasks used up and has returned.
    Stopped,
}

/// What a worker is told.
#[derive(Clone, Copy, Debug, PartialEq, Eq, Structural)]
pub enum Input {
    /// The cursor gave it `number`.
    Drawn { number: usize },
    /// Its transfer ended, and `failed` says how.
    Ended { failed: bool },
}

/// What a worker did in its turn.
#[derive(Clone, Copy, Debug, PartialEq, Eq, Structural)]
pub enum Turn {
    /// Nothing: it has stopped, or was told what it did not wait for.
    Idle,
    /// It claimed the task `index`, and its transfer is to begin.
    Started { index: usize },
    /// The transfer of the task `index` ended and is to be counted as done,
    /// after the failure is reported where `failed` is set.
    Finished { index: usize, failed: bool },
    /// It drew a number beyond the last task and stopped.
    Stopped,
}

/// The worker after it is told `input`, with `total` tasks, and what it did.
/// A worker that is claiming takes the task of the number it drew or stops.
/// A worker that transfers goes back to claiming when its transfer ends,
/// however it ends.
pub open spec fn worker_step(state: WorkerState, input: Input, total: usize) -> (
    WorkerState,
    Turn,
) {
    match (state, input) {
        (WorkerState::Claiming, Input::Drawn { number }) => match claim_of(number, total) {
            Some(index) => (WorkerState::Transferring { index }, Turn::Started { index }),
            None => (WorkerState::Stopped, Turn::Stopped),
        },
        (WorkerState::Transferring { index }, Input::Ended { failed }) => (
            WorkerState::Claiming,
            Turn::Finished { index, failed },
        ),
        _ => (state, Turn::Idle),
    }
}

/// The worker after it is told `input`, with `total` tasks, and what it did.
pub fn step_worker(state: WorkerState, input: Input, total: usize) -> (r: (WorkerState, Turn))
    ensures
        r == worker_step(state, input, total),
{
    match (state, input) {
        (WorkerState::Claiming, Input::Drawn { number }) => match decide_claim(number, total) {
            Some(index) => (WorkerState::Transferring { index }, Turn::Started { index }),
            None => (WorkerState::Stopped, Turn::Stopped),
        },
        (WorkerState::Transferring { index }, Input::Ended { failed }) => (
            WorkerState::Claiming,
            Turn::Finished { index, failed },
        ),
        _ => (state, Turn::Idle),
    }
}

/// A failure does not stop a worker: after a transfer that failed the worker
/// is where it is after one that ended well.
pub proof fn lemma_failure_does_not_stop_worker(state: WorkerState, total: usize)
    ensures
        worker_step(state, Input::Ended { failed: true }, total).0 == worker_step(
            state,
            Input::Ended { failed: false },
            total,
        ).0,
        !(state is Stopped) ==> !(worker_step(state, Input::Ended { failed: true }, total).0
            is Stopped),
{
}

/// A worker stops only on drawing a number beyond the last task, and begins
/// only transfers of tasks that there are.
pub proof fn lemma_worker_turns(state: WorkerState, input: Input, total: usize)
    ensures
        ({
            let (after, turn) = worker_step(state, input, total);
            &&& turn is Stopped ==> state is Claiming && (input matches Input::Drawn { number }
                && number >= total)
            &&& turn matches Turn::Started { index } ==> index < total && input == (Input::Drawn {
                number: index,
            })
            &&& after is Stopped ==> state is Stopped || turn is Stopped
        }),
{
}

/// One worker over a list of `total` tasks.
pub struct Worker {
    total: usize,
    state: WorkerState,
}

/// The workers that a pool starts for a request of `requested` connections,
/// over `total` tasks: as many as the request gives, each about to draw from
/// the cursor.
pub fn workers_for(total: usize, requested: usize) -> (workers: Vec<Worker>)
    ensures
        workers.len() == connections_for(requested),
        forall|w: int|
            0 <= w < workers.len() ==> (#[trigger] workers[w]).state() == WorkerState::Claiming
                && workers[w].total() == total,
{
    let count = effective_connections(requested);
    let mut workers: Vec<Worker> = Vec::new();
    while workers.len() < count
        invariant
            workers.len() <= count,
            forall|w: int|
                0 <= w < workers.len() ==> (#[trigger] workers[w]).state()
                    == WorkerState::Claiming && workers[w].total() == total,
        decreases count - workers.len(),
    {
        workers.push(Worker::new(total));
    }
    workers
}

impl Worker {
    /// The number of tasks.
    pub closed spec fn spec_total(&self) -> usize {
        self.total
    }

    /// What the worker is doing.
    pub closed spec fn spec_state(&self) -> WorkerState {
        self.state
    }

    /// A worker over `total` tasks that is about to draw from the cursor.
    pub fn new(total: usize) -> (worker: Worker)
        ensures
            worker.spec_total() == total,
            worker.spec_state() == WorkerState::Claiming,
    {
        Worker { total, state: WorkerState::Claiming }
    }

    /// The number of tasks.
    #[verifier::when_used_as_spec(spec_total)]
    pub fn total(&self) -> (n: usize)
        ensures
            n == self.spec_total(),
    {
        self.total
    }

    /// What the worker is doing.
    #[verifier::when_used_as_spec(spec_state)]
    pub fn state(&self) -> (s: WorkerState)
        ensures
            s == self.spec_state(),
    {
        self.state
    }

    /// Tells the worker `input`, and answers what it did.
    pub fn step(&mut self, input: Input) -> (turn: Turn)
        ensures
            (final(self).state(), turn) == worker_step(old(self).state(), input, old(self).total()),
            final(self).total() == old(self).total(),
    {
        let (state, turn) = step_worker(self.state, input, self.total);
        self.state = state;
        turn
    }

    /// Lets a worker that is claiming draw from the shared cursor, and
    /// answers what it did: it began a task that there is, or stopped. A
    /// worker that is not claiming leaves the cursor alone.
    pub fn claim(&mut self, cursor: &AtomicUsize) -> (turn: Turn)
        ensures
            final(self).total() == old(self).total(),
            old(self).state() is Claiming ==> exists|number: usize|
                (final(self).state(), turn) == #[trigger] worker_step(
                    old(self).state(),
                    Input::Drawn { number },
                    old(self).total(),
                ),
            !(old(self).state() is Claiming) ==> turn is Idle && final(self).state() == old(
                self,
            ).state(),
    {
        match self.state {
            WorkerState::Claiming => {
                let number = draw(cursor);
                self.step(Input::Drawn { number })
            },
            _ => Turn::Idle,
        }
    }
}

} // verus!
