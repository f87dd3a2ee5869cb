use std::collections::VecDeque;
use vstd::prelude::*;

use crate::message::Message;

verus! {

/// The channel between the pool and its workers: messages leave in the order
/// in which they were sent, and each one leaves exactly once.
pub struct JobQueue<J> {
    items: VecDeque<Message<J>>,
}

impl<J> View for JobQueue<J> {
    type V = Seq<Message<J>>;

    closed spec fn view(&self) -> Seq<Message<J>> {
        self.items@
    }
}

impl<J> JobQueue<J> {
    /// An empty queue.
    pub fn new() -> (r: JobQueue<J>)
        ensures
            r@ == Seq::<Message<J>>::empty(),
    {
        JobQueue { items: VecDeque::new() }
    }

    /// Appends a message at the back; sending never blocks and never fails.
    pub fn send(&mut self, message: Message<J>)
        ensures
            final(self)@ == old(self)@.push(message),
    {
        self.items.push_back(message);
    }

    /// Removes the message at the front, if there is one.
    pub fn receive(&mut self) -> (r: Option<Message<J>>)
        ensures
            old(self)@.len() == 0 ==> r is None && final(self)@ == old(self)@,
            old(self)@.len() > 0 ==> r == Some(old(self)@[0]) && final(self)@ == old(
                self,
            )@.drop_first(),
    {
        self.items.pop_front()
    }

    /// The number of messages waiting.
    pub fn len(&self) -> (r: usize)
        ensures
            r == self@.len(),
    {
        self.items.len()
    }

    /// Whether no message is waiting.
    pub fn is_empty(&self) -> (r: bool)
        ensures
            r == (self@.len() == 0),
    {
        self.items.len() == 0
    }
}

} // verus!
