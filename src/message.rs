use vstd::prelude::*;

verus! {

/// What travels through the queue: a job to run, or the signal that tells
/// exactly one worker to leave its loop.
pub enum Message<J> {
    NewJob(J),
    Terminate,
}

impl<J> Message<J> {
    /// Whether this message is the shutdown signal.
    pub fn is_terminate(&self) -> (r: bool)
        ensures
            r == (*self is Terminate),
    {
        match self {
            Message::NewJob(_) => false,
            Message::Terminate => true,
        }
    }
}

/// `n` shutdown signals in a row.
pub open spec fn terminates<J>(n: nat) -> Seq<Message<J>> {
    Seq::new(n, |i: int| Message::Terminate)
}

} // verus!
