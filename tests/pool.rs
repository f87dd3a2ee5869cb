use std::cell::Cell;
use std::sync::Arc;
use std::sync::Mutex;

use threadpool::{Action, JobQueue, Message, ThreadPool, Worker, WorkerLoop, WorkerState};

type Job = Box<dyn FnOnce() + Send + 'static>;

fn take_next<J>(queue: &mut JobQueue<J>, worker: &mut WorkerLoop) -> Option<Action<J>> {
    queue.receive().map(|m| worker.handle(m))
}

#[test]
fn new_spawns_one_worker_per_id() {
    let spawned = Cell::new(0usize);
    let pool = ThreadPool::new(4, |id: usize| {
        spawned.set(spawned.get() + 1);
        id * 10
    });
    assert_eq!(spawned.get(), 4);
    assert_eq!(pool.size(), 4);
    for i in 0..4 {
        assert_eq!(pool.worker_id(i), i);
    }
    assert!(pool.is_accepting());
}

#[test]
fn zero_size_pool_fails_before_spawning() {
    let spawned = Cell::new(0usize);
    let pool = ThreadPool::try_new(0, |id: usize| {
        spawned.set(spawned.get() + 1);
        id
    });
    assert!(pool.is_none());
    assert_eq!(spawned.get(), 0);
}

#[test]
fn positive_size_pool_is_built() {
    let pool = ThreadPool::try_new(3, |id: usize| id).unwrap();
    assert_eq!(pool.size(), 3);
    assert!(pool.is_accepting());
}

#[test]
fn single_worker_pool() {
    let mut pool = ThreadPool::new(1, |id: usize| id + 100);
    let mut queue: JobQueue<u32> = JobQueue::new();
    pool.terminate(&mut queue);
    assert_eq!(queue.len(), 1);
    assert_eq!(pool.take_threads(), vec![100]);
}

#[test]
fn execute_appends_jobs_in_order() {
    let pool = ThreadPool::new(2, |id: usize| id);
    let mut queue: JobQueue<u32> = JobQueue::new();
    pool.execute(&mut queue, 7);
    pool.execute(&mut queue, 9);
    assert_eq!(queue.len(), 2);
    assert!(matches!(queue.receive(), Some(Message::NewJob(7))));
    assert!(matches!(queue.receive(), Some(Message::NewJob(9))));
    assert!(queue.receive().is_none());
    assert!(queue.is_empty());
}

#[test]
fn queued_jobs_precede_shutdown_signals() {
    let mut pool = ThreadPool::new(2, |id: usize| id);
    let mut queue: JobQueue<u32> = JobQueue::new();
    pool.execute(&mut queue, 1);
    pool.execute(&mut queue, 2);
    pool.execute(&mut queue, 3);
    pool.terminate(&mut queue);
    assert!(!pool.is_accepting());
    assert_eq!(queue.len(), 5);
    assert!(matches!(queue.receive(), Some(Message::NewJob(1))));
    assert!(matches!(queue.receive(), Some(Message::NewJob(2))));
    assert!(matches!(queue.receive(), Some(Message::NewJob(3))));
    assert!(matches!(queue.receive(), Some(Message::Terminate)));
    assert!(matches!(queue.receive(), Some(Message::Terminate)));
    assert!(queue.receive().is_none());
}

#[test]
fn teardown_takes_each_handle_once() {
    let mut pool = ThreadPool::new(3, |id: usize| id + 1);
    let mut queue: JobQueue<u32> = JobQueue::new();
    pool.terminate(&mut queue);
    assert_eq!(pool.take_threads(), vec![1, 2, 3]);
    assert_eq!(pool.take_threads(), Vec::<usize>::new());
    assert_eq!(pool.size(), 3);
}

#[test]
fn worker_record_gives_up_its_handle_once() {
    let mut w = Worker::new(5, "handle");
    assert_eq!(w.take_thread(), Some("handle"));
    assert_eq!(w.take_thread(), None);
    assert_eq!(w.id, 5);
}

#[test]
fn worker_loop_runs_jobs_and_exits_on_signal() {
    let mut w = WorkerLoop::new(2);
    assert_eq!(w.id(), 2);
    assert_eq!(w.state(), WorkerState::Idle);
    assert!(matches!(w.handle(Message::NewJob(42u32)), Action::Run(42)));
    assert_eq!(w.state(), WorkerState::Busy);
    w.finish();
    assert_eq!(w.state(), WorkerState::Idle);
    assert!(matches!(w.handle(Message::<u32>::Terminate), Action::Exit));
    assert_eq!(w.state(), WorkerState::Exited);
    assert_eq!(w.id(), 2);
}

#[test]
fn message_kinds() {
    assert!(Message::<u8>::Terminate.is_terminate());
    assert!(!Message::NewJob(1u8).is_terminate());
}

#[test]
fn at_most_n_jobs_run_at_once() {
    let n = 4;
    let pool = ThreadPool::new(n, |id: usize| id);
    let mut queue: JobQueue<u32> = JobQueue::new();
    for j in 1..=8 {
        pool.execute(&mut queue, j);
    }
    let mut workers: Vec<WorkerLoop> = (0..n).map(WorkerLoop::new).collect();
    let mut started = Vec::new();
    for w in workers.iter_mut() {
        match take_next(&mut queue, w) {
            Some(Action::Run(j)) => started.push(j),
            _ => panic!("expected a job"),
        }
    }
    assert_eq!(started, vec![1, 2, 3, 4]);
    let busy = workers.iter().filter(|w| w.state() == WorkerState::Busy).count();
    assert_eq!(busy, 4);
    // The remaining four wait in the queue until a worker is free again.
    assert_eq!(queue.len(), 4);
    workers[1].finish();
    match take_next(&mut queue, &mut workers[1]) {
        Some(Action::Run(j)) => assert_eq!(j, 5),
        _ => panic!("expected the fifth job"),
    }
    assert_eq!(queue.len(), 3);
    let busy = workers.iter().filter(|w| w.state() == WorkerState::Busy).count();
    assert!(busy <= n);
}

#[test]
fn two_jobs_share_a_counter() {
    let mut pool = ThreadPool::new(2, |id: usize| id);
    let mut queue: JobQueue<Job> = JobQueue::new();
    let counter = Arc::new(Mutex::new(0u32));
    for _ in 0..2 {
        let c = Arc::clone(&counter);
        pool.execute(&mut queue, Box::new(move || *c.lock().unwrap() += 1));
    }
    pool.terminate(&mut queue);
    let mut workers = vec![WorkerLoop::new(0), WorkerLoop::new(1)];
    let mut exited = 0;
    while exited < 2 {
        for w in workers.iter_mut() {
            if w.state() != WorkerState::Idle {
                continue;
            }
            match take_next(&mut queue, w) {
                Some(Action::Run(job)) => {
                    job();
                    w.finish();
                }
                Some(Action::Exit) => exited += 1,
                None => panic!("queue drained without a shutdown signal"),
            }
        }
    }
    assert_eq!(*counter.lock().unwrap(), 2);
    assert_eq!(pool.take_threads(), vec![0, 1]);
}

#[test]
fn teardown_with_no_jobs_runs_nothing() {
    let mut pool = ThreadPool::new(3, |id: usize| id);
    let mut queue: JobQueue<u32> = JobQueue::new();
    pool.terminate(&mut queue);
    let mut runs = 0;
    for id in 0..3 {
        let mut w = WorkerLoop::new(id);
        match take_next(&mut queue, &mut w) {
            Some(Action::Run(_)) => runs += 1,
            Some(Action::Exit) => {}
            None => panic!("missing shutdown signal"),
        }
        assert_eq!(w.state(), WorkerState::Exited);
    }
    assert_eq!(runs, 0);
    assert!(queue.is_empty());
    assert_eq!(pool.take_threads(), vec![0, 1, 2]);
}

#[test]
fn teardown_lets_a_running_job_finish() {
    let mut pool = ThreadPool::new(1, |id: usize| id);
    let mut queue: JobQueue<u32> = JobQueue::new();
    pool.execute(&mut queue, 11);
    let mut w = WorkerLoop::new(0);
    assert!(matches!(take_next(&mut queue, &mut w), Some(Action::Run(11))));
    // Shutdown begins while the job is still running.
    pool.terminate(&mut queue);
    assert_eq!(w.state(), WorkerState::Busy);
    assert_eq!(queue.len(), 1);
    // The signal is only taken once the job has returned.
    w.finish();
    assert!(matches!(take_next(&mut queue, &mut w), Some(Action::Exit)));
    assert_eq!(w.state(), WorkerState::Exited);
    assert_eq!(pool.take_threads(), vec![0]);
}
