use vstd::prelude::*;

use crate::message::{terminates, Message};
use crate::queue::JobQueue;
use crate::worker::Worker;

verus! {

/// The handles that are still in the slots, in worker order.
pub open spec fn held<H>(slots: Seq<Option<H>>) -> Seq<H>
    decreases slots.len(),
{
    if slots.len() == 0 {
        Seq::empty()
    } else {
        match slots.last() {
            Some(h) => held(slots.drop_last()).push(h),
            None => held(slots.drop_last()),
        }
    }
}

/// A fixed set of workers, numbered from 0, and the producing side of the
/// queue they share. The pool accepts jobs until shutdown begins; then it
/// sends one shutdown signal per worker, and only after that hands out the
/// thread handles to wait on.
pub struct ThreadPool<H> {
    workers: Vec<Worker<H>>,
    accepting: bool,
}

impl<H> ThreadPool<H> {
    /// The identity of each worker, by position.
    pub closed spec fn ids(&self) -> Seq<usize> {
        self.workers@.map_values(|w: Worker<H>| w.id)
    }

    /// The thread slot of each worker, by position.
    pub closed spec fn slots(&self) -> Seq<Option<H>> {
        self.workers@.map_values(|w: Worker<H>| w.thread)
    }

    /// Whether jobs may still be submitted, that is, shutdown has not begun.
    pub closed spec fn accepting(&self) -> bool {
        self.accepting
    }

    /// The number of workers.
    pub open spec fn spec_size(&self) -> nat {
        self.ids().len()
    }

    /// At least one worker, each numbered by its position, each with a slot.
    pub open spec fn wf(&self) -> bool {
        &&& self.ids().len() > 0
        &&& self.slots().len() == self.ids().len()
        &&& forall|i: int| 0 <= i < self.ids().len() ==> self.ids()[i] == i
    }

    /// Builds a pool of `pool_size` workers; `spawn(id)` starts the thread of
    /// worker `id` and returns its handle. It is called once for each id, in
    /// increasing order.
    pub fn new<F: Fn(usize) -> H>(pool_size: usize, spawn: F) -> (r: ThreadPool<H>)
        requires
            pool_size > 0,
            forall|id: usize| id < pool_size ==> spawn.requires((id,)),
        ensures
            r.wf(),
            r.spec_size() == pool_size,
            r.accepting(),
            forall|i: int|
                0 <= i < pool_size ==> (#[trigger] r.slots()[i]) is Some && spawn.ensures(
                    (i as usize,),
                    r.slots()[i]->Some_0,
                ),
    {
        let mut workers: Vec<Worker<H>> = Vec::with_capacity(pool_size);
        let mut id: usize = 0;
        while id < pool_size
            invariant
                id <= pool_size,
                workers@.len() == id,
                forall|id: usize| id < pool_size ==> spawn.requires((id,)),
                forall|i: int|
                    0 <= i < id ==> (#[trigger] workers@[i]).id == i && workers@[i].thread is Some
                        && spawn.ensures((i as usize,), workers@[i].thread->Some_0),
            decreases pool_size - id,
        {
            let thread = spawn(id);
            workers.push(Worker::new(id, thread));
            id = id + 1;
        }
        let r = ThreadPool { workers, accepting: true };
        assert forall|i: int| 0 <= i < pool_size implies (#[trigger] r.slots()[i]) is Some
            && spawn.ensures((i as usize,), r.slots()[i]->Some_0) by {
            assert(r.slots()[i] == r.workers@[i].thread);
        }
        assert forall|i: int| 0 <= i < r.ids().len() implies r.ids()[i] == i by {
            assert(r.ids()[i] == r.workers@[i].id);
        }
        r
    }

    /// Builds a pool as `new` does when `pool_size` is positive; with no
    /// worker asked for it fails at once, before any thread is spawned.
    pub fn try_new<F: Fn(usize) -> H>(pool_size: usize, spawn: F) -> (r: Option<ThreadPool<H>>)
        requires
            forall|id: usize| id < pool_size ==> spawn.requires((id,)),
        ensures
            r is None <==> pool_size == 0,
            r matches Some(p) ==> p.wf() && p.spec_size() == pool_size && p.accepting(),
    {
        if pool_size == 0 {
            None
        } else {
            Some(ThreadPool::new(pool_size, spawn))
        }
    }

    /// The number of workers.
    pub fn size(&self) -> (r: usize)
        ensures
            r == self.spec_size(),
    {
        self.workers.len()
    }

    /// The identity of the worker at position `i`.
    pub fn worker_id(&self, i: usize) -> (r: usize)
        requires
            i < self.spec_size(),
        ensures
            r == self.ids()[i as int],
    {
        self.workers[i].id
    }

    /// Whether jobs may still be submitted.
    pub fn is_accepting(&self) -> (r: bool)
        ensures
            r == self.accepting(),
    {
        self.accepting
    }

    /// Submits a job: it goes to the back of the queue, to be taken by
    /// whichever worker is free first.
    pub fn execute<J>(&self, queue: &mut JobQueue<J>, job: J)
        requires
            self.accepting(),
        ensures
            final(queue)@ == old(queue)@.push(Message::NewJob(job)),
    {
        queue.send(Message::NewJob(job));
    }

    /// Begins shutdown: one shutdown signal per worker goes to the back of the
    /// queue, behind every job already submitted, and no job is accepted
    /// after.
    pub fn terminate<J>(&mut self, queue: &mut JobQueue<J>)
        requires
            old(self).wf(),
            old(self).accepting(),
        ensures
            final(self).wf(),
            !final(self).accepting(),
            final(self).ids() == old(self).ids(),
            final(self).slots() == old(self).slots(),
            final(queue)@ == old(queue)@ + terminates::<J>(old(self).spec_size()),
    {
        let n = self.workers.len();
        let mut i: usize = 0;
        while i < n
            invariant
                i <= n,
                n == self.workers@.len(),
                queue@ == old(queue)@ + terminates::<J>(i as nat),
            decreases n - i,
        {
            queue.send(Message::Terminate);
            assert(terminates::<J>(i as nat).push(Message::Terminate) =~= terminates::<J>(
                (i + 1) as nat,
            ));
            assert(old(queue)@ + terminates::<J>((i + 1) as nat) =~= (old(queue)@
                + terminates::<J>(i as nat)).push(Message::Terminate));
            i = i + 1;
        }
        self.accepting = false;
    }

    /// Takes every handle still held, leaving each slot empty, and returns
    /// them in worker order for the caller to wait on. Allowed only once the
    /// shutdown signals are sent, so that no wait can precede a signal.
    pub fn take_threads(&mut self) -> (r: Vec<H>)
        requires
            old(self).wf(),
            !old(self).accepting(),
        ensures
            final(self).wf(),
            !final(self).accepting(),
            final(self).ids() == old(self).ids(),
            r@ == held(old(self).slots()),
            forall|i: int| 0 <= i < final(self).spec_size() ==> #[trigger] final(self).slots()[i] is None,
    {
        let ghost before = self.slots();
        let n = self.workers.len();
        let mut taken: Vec<H> = Vec::new();
        let mut i: usize = 0;
        while i < n
            invariant
                i <= n,
                n == self.workers@.len(),
                n == before.len(),
                !self.accepting,
                self.ids() == old(self).ids(),
                taken@ == held(before.subrange(0, i as int)),
                forall|k: int| 0 <= k < i ==> (#[trigger] self.workers@[k]).thread is None,
                forall|k: int| i <= k < n ==> (#[trigger] self.workers@[k]).thread == before[k],
            decreases n - i,
        {
            let ghost ids_before = self.ids();
            let mut w = self.workers.remove(i);
            let t = w.take_thread();
            self.workers.insert(i, w);
            assert(before.subrange(0, i + 1).drop_last() =~= before.subrange(0, i as int));
            match t {
                Some(h) => {
                    taken.push(h);
                },
                None => {},
            }
            assert(self.ids() =~= ids_before);
            i = i + 1;
        }
        assert(before.subrange(0, n as int) =~= before);
        assert forall|k: int| 0 <= k < self.spec_size() implies #[trigger] self.slots()[k] is None by {
            assert(self.slots()[k] == self.workers@[k].thread);
        }
        taken
    }
}

} // verus!

verus! {

/// Shutdown keeps every job already in the queue ahead of the signals: the
/// messages that were waiting come out first and unchanged, and after them
/// come only shutdown signals, one per worker. So no signal can be taken while
/// a job submitted before shutdown is still waiting: with this pool, queued
/// jobs are never dropped at shutdown.
pub proof fn shutdown_keeps_pending_jobs<J>(pending: Seq<Message<J>>, workers: nat)
    ensures
        (pending + terminates::<J>(workers)).len() == pending.len() + workers,
        forall|i: int|
            0 <= i < pending.len() ==> #[trigger] (pending + terminates::<J>(workers))[i]
                == pending[i],
        forall|i: int|
            pending.len() <= i < pending.len() + workers ==> #[trigger] (pending + terminates::<
                J,
            >(workers))[i] is Terminate,
{
}

/// Teardown waits on every worker's thread: while every slot still holds its
/// handle, the handles taken out are all of them, in worker order.
pub proof fn full_slots_are_all_taken<H>(slots: Seq<Option<H>>)
    requires
        forall|i: int| 0 <= i < slots.len() ==> #[trigger] slots[i] is Some,
    ensures
        held(slots).len() == slots.len(),
        forall|i: int| 0 <= i < slots.len() ==> #[trigger] held(slots)[i] == slots[i]->Some_0,
    decreases slots.len(),
{
    if slots.len() > 0 {
        full_slots_are_all_taken(slots.drop_last());
    }
}

/// A thread is waited on at most once: once teardown has emptied the slots,
/// taking the handles again yields none.
pub proof fn second_take_is_empty<H>(slots: Seq<Option<H>>)
    requires
        forall|i: int| 0 <= i < slots.len() ==> #[trigger] slots[i] is None,
    ensures
        held(slots) == Seq::<H>::empty(),
    decreases slots.len(),
{
    if slots.len() > 0 {
        second_take_is_empty(slots.drop_last());
    }
}

} // verus!
