//! The broadcast hub: one totally ordered stream of text payloads, read by any
//! number of subscriptions, each of which sees at most `capacity` payloads that
//! it has not yet taken.
use std::collections::VecDeque;
use vstd::prelude::*;

verus! {

/// What a subscription observes on one receive, in mathematical terms.
pub ghost enum Observation {
    Message(Seq<char>),
    Lagged(nat),
    Empty,
    Closed,
}

/// What a receive hands back.
pub enum RecvOutcome {
    /// The next payload in publish order.
    Message(String),
    /// The subscription fell behind: this many payloads were skipped.
    Lagged(u64),
    /// Nothing new has been published yet.
    Empty,
    /// The hub is closed and everything published has been taken.
    Closed,
}

impl RecvOutcome {
    pub open spec fn view(&self) -> Observation {
        match self {
            RecvOutcome::Message(m) => Observation::Message(m@),
            RecvOutcome::Lagged(n) => Observation::Lagged(*n as nat),
            RecvOutcome::Empty => Observation::Empty,
            RecvOutcome::Closed => Observation::Closed,
        }
    }
}

/// A reader of the hub. Its cursor is the position in the hub's history of the
/// next payload it will take.
pub struct Subscription {
    next: u64,
    start: Ghost<nat>,
}

impl Subscription {
    /// Position of the next payload this subscription will take.
    pub closed spec fn cursor(&self) -> nat {
        self.next as nat
    }

    /// Write cursor of the hub when this subscription was made.
    pub closed spec fn joined_at(&self) -> nat {
        self.start@
    }

    pub closed spec fn wf(&self) -> bool {
        self.start@ <= self.next
    }

    pub fn position(&self) -> (r: u64)
        ensures
            r == self.cursor(),
    {
        self.next
    }
}

/// The process-wide publish/subscribe channel.
pub struct Hub {
    capacity: usize,
    ring: VecDeque<String>,
    write: u64,
    subscribers: u64,
    closed: bool,
    log: Ghost<Seq<Seq<char>>>,
}

pub open spec fn min_nat(a: nat, b: nat) -> nat {
    if a <= b { a } else { b }
}

impl Hub {
    /// Every payload recorded so far, in write order.
    pub closed spec fn history(&self) -> Seq<Seq<char>> {
        self.log@
    }

    pub closed spec fn capacity(&self) -> nat {
        self.capacity as nat
    }

    pub open spec fn write_cursor(&self) -> nat {
        self.history().len()
    }

    pub closed spec fn subscriber_count(&self) -> nat {
        self.subscribers as nat
    }

    pub closed spec fn is_closed(&self) -> bool {
        self.closed
    }

    /// Position of the oldest payload still held.
    pub open spec fn oldest(&self) -> nat {
        (self.write_cursor() - min_nat(self.write_cursor(), self.capacity())) as nat
    }

    /// Number of payloads held in the ring.
    pub closed spec fn buffered(&self) -> nat {
        self.ring@.len()
    }

    /// Payloads that a subscription at cursor `n` can still take.
    pub open spec fn pending(&self, n: nat) -> nat {
        let from = if n < self.oldest() { self.oldest() } else { n };
        if from < self.write_cursor() { (self.write_cursor() - from) as nat } else { 0 }
    }

    pub closed spec fn wf(&self) -> bool {
        &&& self.capacity > 0
        &&& self.write as nat == self.log@.len()
        &&& self.ring@.len() == min_nat(self.write as nat, self.capacity as nat)
        &&& forall|i: int|
            0 <= i < self.ring@.len() ==> #[trigger] self.ring@[i]@ == self.log@[self.oldest() + i]
    }

    /// What one receive by a subscription at cursor `n` observes, and its
    /// cursor afterwards.
    pub open spec fn recv_step(&self, n: nat) -> (Observation, nat) {
        if n < self.oldest() {
            (Observation::Lagged((self.oldest() - n) as nat), self.oldest())
        } else if n < self.write_cursor() {
            (Observation::Message(self.history()[n as int]), n + 1)
        } else if self.is_closed() {
            (Observation::Closed, n)
        } else {
            (Observation::Empty, n)
        }
    }

    /// A hub whose subscriptions each hold at most `capacity` payloads.
    pub fn new(capacity: usize) -> (r: Hub)
        requires
            capacity > 0,
        ensures
            r.wf(),
            r.capacity() == capacity,
            r.history() == Seq::<Seq<char>>::empty(),
            r.subscriber_count() == 0,
            !r.is_closed(),
    {
        Hub {
            capacity,
            ring: VecDeque::new(),
            write: 0,
            subscribers: 0,
            closed: false,
            log: Ghost(Seq::empty()),
        }
    }

    pub fn write_position(&self) -> (r: u64)
        requires
            self.wf(),
        ensures
            r == self.write_cursor(),
    {
        self.write
    }

    pub fn receivers(&self) -> (r: u64)
        ensures
            r == self.subscriber_count(),
    {
        self.subscribers
    }

    /// A new subscription, which starts at the current write cursor and so
    /// takes nothing published before it.
    pub fn subscribe(&mut self) -> (s: Subscription)
        requires
            old(self).wf(),
            old(self).subscriber_count() < u64::MAX,
        ensures
            final(self).wf(),
            s.wf(),
            s.cursor() == old(self).write_cursor(),
            s.joined_at() == old(self).write_cursor(),
            final(self).subscriber_count() == old(self).subscriber_count() + 1,
            final(self).history() == old(self).history(),
            final(self).capacity() == old(self).capacity(),
            final(self).is_closed() == old(self).is_closed(),
    {
        self.subscribers = self.subscribers + 1;
        Subscription { next: self.write, start: Ghost(self.write as nat) }
    }

    /// Gives a subscription back, so that the hub counts one reader less.
    pub fn unsubscribe(&mut self, s: Subscription)
        requires
            old(self).wf(),
        ensures
            final(self).wf(),
            final(self).subscriber_count() == if old(self).subscriber_count() > 0 {
                (old(self).subscriber_count() - 1) as nat
            } else {
                0
            },
            final(self).history() == old(self).history(),
            final(self).capacity() == old(self).capacity(),
            final(self).is_closed() == old(self).is_closed(),
    {
        if self.subscribers > 0 {
            self.subscribers = self.subscribers - 1;
        }
    }

    /// Marks the hub as shutting down: subscriptions take what is left and
    /// then observe `Closed`.
    pub fn close(&mut self)
        requires
            old(self).wf(),
        ensures
            final(self).wf(),
            final(self).is_closed(),
            final(self).history() == old(self).history(),
            final(self).capacity() == old(self).capacity(),
            final(self).subscriber_count() == old(self).subscriber_count(),
    {
        self.closed = true;
    }

    /// Records `payload` at the write cursor and returns the number of
    /// subscriptions. With no subscription, or once closed, the payload is
    /// dropped and 0 is returned.
    pub fn publish(&mut self, payload: String) -> (r: u64)
        requires
            old(self).wf(),
            old(self).write_cursor() < u64::MAX,
        ensures
            final(self).wf(),
            final(self).capacity() == old(self).capacity(),
            final(self).subscriber_count() == old(self).subscriber_count(),
            final(self).is_closed() == old(self).is_closed(),
            r == if old(self).is_closed() { 0 } else { old(self).subscriber_count() },
            r == 0 ==> final(self).history() == old(self).history(),
            r > 0 ==> final(self).history() == old(self).history().push(payload@),
    {
        if self.subscribers == 0 || self.closed {
            return 0;
        }
        let ghost old_ring = self.ring@;
        let ghost old_oldest = self.oldest();
        if self.ring.len() == self.capacity {
            self.ring.pop_front();
        }
        self.ring.push_back(payload);
        self.write = self.write + 1;
        self.log = Ghost(self.log@.push(payload@));
        assert forall|i: int| 0 <= i < self.ring@.len() implies #[trigger] self.ring@[i]@
            == self.log@[self.oldest() + i] by {
            if i + 1 < self.ring@.len() {
                if old_ring.len() == self.capacity {
                    assert(self.ring@[i] == old_ring[i + 1]);
                } else {
                    assert(self.ring@[i] == old_ring[i]);
                }
            }
        }
        self.subscribers
    }

    /// Takes the next observation for `s`: a skipped window when it fell
    /// behind by more than the capacity, else the next payload in order.
    pub fn recv(&self, s: &mut Subscription) -> (r: RecvOutcome)
        requires
            self.wf(),
            old(s).wf(),
        ensures
            final(s).wf(),
            final(s).joined_at() == old(s).joined_at(),
            (r@, final(s).cursor()) == self.recv_step(old(s).cursor()),
    {
        let oldest = self.write - self.ring.len() as u64;
        if s.next < oldest {
            let skipped = oldest - s.next;
            s.next = oldest;
            RecvOutcome::Lagged(skipped)
        } else if s.next < self.write {
            let idx = (s.next - oldest) as usize;
            let m = self.ring[idx].clone();
            s.next = s.next + 1;
            RecvOutcome::Message(m)
        } else if self.closed {
            RecvOutcome::Closed
        } else {
            RecvOutcome::Empty
        }
    }
}

/// Fan-out completeness: a subscription whose cursor has not yet passed a
/// recorded payload at position `k` either takes that payload on its next
/// receive, is told of a skipped window that covers it, or moves strictly
/// closer to it.
pub proof fn lemma_fan_out(hub: Hub, n: nat, k: nat)
    requires
        hub.wf(),
        n <= k < hub.write_cursor(),
    ensures
        ({
            let (obs, n2) = hub.recv_step(n);
            &&& n < n2
            &&& (n == k && obs == Observation::Message(hub.history()[k as int])) || (
            obs is Lagged && n <= k < n2) || n2 <= k
        }),
{
}

/// Order preservation: two payloads taken by consecutive receives, with any
/// publishes in between, stand in that order in the hub's history.
pub proof fn lemma_order_kept(h1: Hub, h2: Hub, n: nat)
    requires
        h1.wf(),
        h2.wf(),
        h1.capacity() == h2.capacity(),
        h1.history().len() <= h2.history().len(),
        h1.history() == h2.history().subrange(0, h1.history().len() as int),
    ensures
        ({
            let (o1, n2) = h1.recv_step(n);
            let (o2, n3) = h2.recv_step(n2);
            (o1 is Message && o2 is Message) ==> exists|i: int, j: int|
                0 <= i < j < h2.history().len() && o1 == Observation::Message(h2.history()[i])
                    && o2 == Observation::Message(h2.history()[j])
        }),
{
    let (o1, n2) = h1.recv_step(n);
    let (o2, n3) = h2.recv_step(n2);
    if o1 is Message && o2 is Message {
        assert(h1.history()[n as int] == h2.history()[n as int]);
        assert(0 <= n < n2 < h2.history().len() && o1 == Observation::Message(h2.history()[n as int])
            && o2 == Observation::Message(h2.history()[n2 as int]));
    }
}

/// Bounded memory: the hub holds at most `capacity` payloads, and no
/// subscription has more than `capacity` payloads waiting for it.
pub proof fn lemma_bounded_memory(hub: Hub, n: nat)
    requires
        hub.wf(),
    ensures
        hub.buffered() <= hub.capacity(),
        hub.pending(n) <= hub.capacity(),
{
}

/// Late-join exclusion: a subscription whose cursor is at or after the write
/// cursor `k` at which it joined takes no payload recorded before `k`, and any
/// window it is told it skipped starts at or after `k`.
pub proof fn lemma_late_join(hub: Hub, k: nat, n: nat)
    requires
        hub.wf(),
        k <= n,
    ensures
        ({
            let (obs, n2) = hub.recv_step(n);
            &&& n <= n2
            &&& obs is Message ==> exists|i: int|
                k <= i < hub.write_cursor() && obs == Observation::Message(hub.history()[i])
        }),
{
    let (obs, n2) = hub.recv_step(n);
    if obs is Message {
        assert(k <= n < hub.write_cursor() && obs == Observation::Message(hub.history()[n as int]));
    }
}

} // verus!
