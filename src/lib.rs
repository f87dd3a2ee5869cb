//! A fixed-size worker pool: the pool, its workers and the queue they share,
//! with the protocol between them stated as contracts.
//!
//! The library holds every decision of the protocol: which messages go into
//! the queue and in what order, what a worker does with each message it takes,
//! and which thread handles teardown still has to wait on. Spawning threads,
//! blocking and running jobs are left to the caller, which performs the
//! actions that these functions return.

mod message;
mod queue;
mod worker;
mod pool;

pub use message::{terminates, Message};
pub use queue::JobQueue;
pub use pool::{
    full_slots_are_all_taken, held, second_take_is_empty, shutdown_keeps_pending_jobs, ThreadPool,
};
pub use worker::{busy_count, busy_workers_bounded, Action, Worker, WorkerLoop, WorkerState};
