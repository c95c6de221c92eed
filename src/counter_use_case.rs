use vstd::prelude::*;
use crate::broadcast::{Broadcast, RecvResult, Subscription, recv_outcome};
use crate::repositories::{CounterRepository, incremented, decremented};

verus! {

/// How many of the latest values a subscriber can fall behind without losing any.
pub const CHANNEL_CAPACITY: usize = 5;

/// A counter store together with the channel that announces each of its new values.
/// Sharing one between tasks, behind a reader/writer lock, is up to the caller.
pub struct CounterUseCase<R: CounterRepository> {
    repo: R,
    sender: Broadcast,
}

impl<R: CounterRepository> CounterUseCase<R> {
    /// The counter's current value.
    pub closed spec fn value(&self) -> i32 {
        self.repo.value()
    }

    /// Every value announced so far, in order.
    pub closed spec fn announced(&self) -> Seq<i32> {
        self.sender@
    }

    /// How many of the latest announced values are kept for subscribers.
    pub closed spec fn capacity(&self) -> nat {
        self.sender.capacity()
    }

    pub closed spec fn wf(&self) -> bool {
        self.sender.wf()
    }

    pub fn new(repo: R) -> (r: Self)
        ensures
            r.wf(),
            r.value() == repo.value(),
            r.announced() == Seq::<i32>::empty(),
            r.capacity() == CHANNEL_CAPACITY,
    {
        CounterUseCase { repo, sender: Broadcast::new(CHANNEL_CAPACITY) }
    }

    /// How many values were announced so far.
    pub fn announced_count(&self) -> (r: u64)
        requires
            self.wf(),
        ensures
            r == self.announced().len(),
    {
        self.sender.published()
    }

    /// Adds one to the counter and announces the new value.
    pub fn increment(&mut self)
        requires
            old(self).wf(),
            old(self).announced().len() < u64::MAX,
        ensures
            final(self).wf(),
            final(self).value() == incremented(old(self).value()),
            final(self).announced() == old(self).announced().push(final(self).value()),
            final(self).capacity() == old(self).capacity(),
    {
        self.repo.increment();
        let value = self.repo.get_value();
        self.sender.publish(value);
    }

    /// Takes one from the counter and announces the new value.
    pub fn decrement(&mut self)
        requires
            old(self).wf(),
            old(self).announced().len() < u64::MAX,
        ensures
            final(self).wf(),
            final(self).value() == decremented(old(self).value()),
            final(self).announced() == old(self).announced().push(final(self).value()),
            final(self).capacity() == old(self).capacity(),
    {
        self.repo.decrement();
        let value = self.repo.get_value();
        self.sender.publish(value);
    }

    pub fn get_value(&self) -> (r: i32)
        ensures
            r == self.value(),
    {
        self.repo.get_value()
    }

    /// A subscriber that will receive only the values announced from now on.
    pub fn subscribe(&self) -> (r: Subscription)
        requires
            self.wf(),
        ensures
            r.position() == self.announced().len(),
    {
        self.sender.subscribe()
    }

    /// The next announced value for `sub`, or how many it missed, or that nothing is new.
    pub fn recv(&self, sub: &mut Subscription) -> (r: RecvResult)
        requires
            self.wf(),
        ensures
            (r, final(sub).position()) == recv_outcome(
                self.announced(),
                self.capacity(),
                old(sub).position(),
            ),
    {
        self.sender.recv(sub)
    }
}

} // verus!
