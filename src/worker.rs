use vstd::prelude::*;

use crate::message::Message;

verus! {

/// The pool's record of one worker: its identity and the slot that holds its
/// thread handle until teardown takes it out.
pub struct Worker<H> {
    pub id: usize,
    pub thread: Option<H>,
}

impl<H> Worker<H> {
    /// A record for the worker `id`, holding the handle of its thread.
    pub fn new(id: usize, thread: H) -> (r: Worker<H>)
        ensures
            r.id == id,
            r.thread == Some(thread),
    {
        Worker { id, thread: Some(thread) }
    }

    /// Moves the handle out and leaves the slot empty, so that a thread is
    /// waited on at most once.
    pub fn take_thread(&mut self) -> (r: Option<H>)
        ensures
            r == old(self).thread,
            final(self).thread is None,
            final(self).id == old(self).id,
    {
        self.thread.take()
    }
}

/// Where a worker's fetch-execute loop stands: waiting for the next message,
/// running a job, or gone for good.
#[derive(PartialEq, Eq, Structural, Clone, Copy, Debug)]
pub enum WorkerState {
    Idle,
    Busy,
    Exited,
}

/// What a worker's thread is to do with the message it took.
pub enum Action<J> {
    Run(J),
    Exit,
}

/// The loop of one worker: it takes a message when idle, runs a job to its
/// end before it takes another, and leaves on the shutdown signal.
pub struct WorkerLoop {
    id: usize,
    state: WorkerState,
}

impl WorkerLoop {
    pub closed spec fn spec_id(&self) -> usize {
        self.id
    }

    pub closed spec fn spec_state(&self) -> WorkerState {
        self.state
    }

    /// A loop for the worker `id`, waiting for its first message.
    pub fn new(id: usize) -> (r: WorkerLoop)
        ensures
            r.spec_id() == id,
            r.spec_state() == WorkerState::Idle,
    {
        WorkerLoop { id, state: WorkerState::Idle }
    }

    pub fn id(&self) -> (r: usize)
        ensures
            r == self.spec_id(),
    {
        self.id
    }

    pub fn state(&self) -> (r: WorkerState)
        ensures
            r == self.spec_state(),
    {
        self.state
    }

    /// Acts on a message taken from the queue: a job is handed back to be run
    /// and the worker is busy until it finishes; the shutdown signal ends the
    /// loop, which never starts again.
    pub fn handle<J>(&mut self, message: Message<J>) -> (r: Action<J>)
        requires
            old(self).spec_state() == WorkerState::Idle,
        ensures
            final(self).spec_id() == old(self).spec_id(),
            match message {
                Message::NewJob(job) => r == Action::Run(job) && final(self).spec_state()
                    == WorkerState::Busy,
                Message::Terminate => r == Action::<J>::Exit && final(self).spec_state()
                    == WorkerState::Exited,
            },
    {
        match message {
            Message::NewJob(job) => {
                self.state = WorkerState::Busy;
                Action::Run(job)
            },
            Message::Terminate => {
                self.state = WorkerState::Exited;
                Action::Exit
            },
        }
    }

    /// Records that the running job has returned; the worker may take the
    /// next message.
    pub fn finish(&mut self)
        requires
            old(self).spec_state() == WorkerState::Busy,
        ensures
            final(self).spec_id() == old(self).spec_id(),
            final(self).spec_state() == WorkerState::Idle,
    {
        self.state = WorkerState::Idle;
    }
}

/// How many of the given workers are running a job.
pub open spec fn busy_count(states: Seq<WorkerState>) -> nat
    decreases states.len(),
{
    if states.len() == 0 {
        0
    } else {
        busy_count(states.drop_last()) + if states.last() == WorkerState::Busy {
            1nat
        } else {
            0nat
        }
    }
}

/// A worker runs at most one job at a time, so a pool of `n` workers never
/// has more than `n` jobs running.
pub proof fn busy_workers_bounded(states: Seq<WorkerState>)
    ensures
        busy_count(states) <= states.len(),
    decreases states.len(),
{
    if states.len() > 0 {
        busy_workers_bounded(states.drop_last());
    }
}

} // verus!
