use std::collections::VecDeque;
use vstd::prelude::*;

verus! {

/// A multi-message channel: a first-in, first-out queue of pending messages.
///
/// A blocking implementation guards the queue with a mutex and parks a receiver on
/// a condition variable until a message arrives. The queue's content is the
/// whole state; here it is held directly, each call is one holder-of-the-lock
/// critical section, and the receiver's wait is represented by its
/// precondition: a receive that would block is a receive that is not yet
/// enabled.
pub struct Channel<T> {
    queue: VecDeque<T>,
}

impl<T> View for Channel<T> {
    type V = Seq<T>;

    closed spec fn view(&self) -> Seq<T> {
        self.queue@
    }
}

impl<T> Channel<T> {
    /// An empty channel.
    pub fn new() -> (c: Self)
        ensures
            c@ == Seq::<T>::empty(),
    {
        Channel { queue: VecDeque::new() }
    }

    /// Queues a message at the back and wakes one waiting receiver.
    pub fn send(&mut self, message: T)
        ensures
            final(self)@ == old(self)@.push(message),
    {
        self.queue.push_back(message);
    }

    /// Takes the oldest pending message. The concurrent implementation blocks until one is
    /// there; that wait is excluded here, so the queue must not be empty.
    pub fn receive(&mut self) -> (message: T)
        requires
            old(self)@.len() > 0,
        ensures
            message == old(self)@[0],
            final(self)@ == old(self)@.subrange(1, old(self)@.len() as int),
    {
        match self.queue.pop_front() {
            Some(message) => message,
            None => unreached(),
        }
    }

    /// How many messages are pending.
    pub fn len(&self) -> (n: usize)
        ensures
            n == self@.len(),
    {
        self.queue.len()
    }
}

} // verus!
