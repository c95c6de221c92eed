use vstd::prelude::*;

verus! {

/// What one attempt to receive from a subscription gives.
#[derive(Debug, Clone, Copy, PartialEq, Eq, Structural)]
pub enum RecvResult {
    /// The next value published after the subscriber's position.
    Value(i32),
    /// The subscriber fell behind by more than the channel keeps: this many of the
    /// oldest unread values were overwritten, and its position moved to the oldest kept one.
    Lagged(u64),
    /// Nothing new has been published since the last value this subscriber read.
    Empty,
}

/// Position of the oldest value still kept, once `len` values were published
/// into a channel that keeps `cap` of them.
pub open spec fn oldest_kept(len: nat, cap: nat) -> nat {
    if len > cap {
        (len - cap) as nat
    } else {
        0
    }
}

/// What a subscriber at position `next` receives from a channel that has published
/// `history` and keeps `cap` values, and the position it is at afterwards.
pub open spec fn recv_outcome(history: Seq<i32>, cap: nat, next: nat) -> (RecvResult, nat) {
    if next >= history.len() {
        (RecvResult::Empty, next)
    } else if next < oldest_kept(history.len(), cap) {
        let oldest = oldest_kept(history.len(), cap);
        (RecvResult::Lagged((oldest - next) as u64), oldest)
    } else {
        (RecvResult::Value(history[next as int]), next + 1)
    }
}

/// One subscriber's receiving end: the position in the publish history of the
/// next value it will read.
#[derive(Debug)]
pub struct Subscription {
    next: u64,
}

impl Subscription {
    pub closed spec fn position(&self) -> nat {
        self.next as nat
    }
}

/// A bounded, lossy channel from one publisher to any number of subscribers.
/// It keeps the latest `capacity` values; a subscriber that falls further behind
/// loses the oldest ones, and publishing never waits on anyone.
pub struct Broadcast {
    capacity: usize,
    /// The latest values, oldest first.
    buffer: Vec<i32>,
    /// How many values were ever published.
    published: u64,
    history: Ghost<Seq<i32>>,
}

impl View for Broadcast {
    type V = Seq<i32>;

    /// Every value published so far, in publish order.
    closed spec fn view(&self) -> Seq<i32> {
        self.history@
    }
}

impl Broadcast {
    /// How many of the latest values the channel keeps for subscribers.
    pub closed spec fn capacity(&self) -> nat {
        self.capacity as nat
    }

    pub closed spec fn wf(&self) -> bool {
        &&& self.capacity > 0
        &&& self.published == self.history@.len()
        &&& self.buffer@ == self.history@.subrange(
            oldest_kept(self.history@.len(), self.capacity as nat) as int,
            self.history@.len() as int,
        )
    }

    /// A channel with nothing published that keeps the latest `capacity` values.
    pub fn new(capacity: usize) -> (r: Self)
        requires
            capacity > 0,
        ensures
            r.wf(),
            r@ == Seq::<i32>::empty(),
            r.capacity() == capacity,
    {
        let r = Broadcast {
            capacity,
            buffer: Vec::new(),
            published: 0,
            history: Ghost(Seq::empty()),
        };
        assert(r.buffer@ =~= r.history@.subrange(0, 0));
        r
    }

    /// How many values were ever published.
    pub fn published(&self) -> (r: u64)
        requires
            self.wf(),
        ensures
            r == self@.len(),
    {
        self.published
    }

    /// Sends `value` to every subscriber. Never fails and never waits, whether
    /// anybody is subscribed or not; the oldest kept value makes room once the
    /// channel is full.
    pub fn publish(&mut self, value: i32)
        requires
            old(self).wf(),
            old(self)@.len() < u64::MAX,
        ensures
            final(self).wf(),
            final(self)@ == old(self)@.push(value),
            final(self).capacity() == old(self).capacity(),
    {
        if self.buffer.len() == self.capacity {
            self.buffer.remove(0);
        }
        self.buffer.push(value);
        self.published = self.published + 1;
        self.history = Ghost(self.history@.push(value));
        assert(self.buffer@ =~= self.history@.subrange(
            oldest_kept(self.history@.len(), self.capacity as nat) as int,
            self.history@.len() as int,
        ));
    }

    /// A new subscriber that will see only what is published from now on.
    pub fn subscribe(&self) -> (r: Subscription)
        requires
            self.wf(),
        ensures
            r.position() == self@.len(),
    {
        Subscription { next: self.published }
    }

    /// The next value for `sub`, or how many it missed, or that nothing is new.
    pub fn recv(&self, sub: &mut Subscription) -> (r: RecvResult)
        requires
            self.wf(),
        ensures
            (r, final(sub).position()) == recv_outcome(self@, self.capacity(), old(sub).position()),
    {
        let oldest: u64 = self.published - self.buffer.len() as u64;
        if sub.next >= self.published {
            RecvResult::Empty
        } else if sub.next < oldest {
            let missed = oldest - sub.next;
            sub.next = oldest;
            RecvResult::Lagged(missed)
        } else {
            let v = self.buffer[(sub.next - oldest) as usize];
            sub.next = sub.next + 1;
            RecvResult::Value(v)
        }
    }
}

} // verus!
