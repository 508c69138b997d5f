//! Bounded FIFO channel carrying encoded image payloads from the poller to the
//! renderer.
//!
//! The capacity is the only backpressure mechanism: a full channel hands the
//! payload back to the producer to retry, it never drops. A closed channel
//! (the consumer is gone) rejects every send; that is fatal to the producer.

use vstd::prelude::*;

verus! {

/// Outcome of offering a payload to the channel.
#[derive(Debug, PartialEq)]
pub enum SendOutcome {
    /// The payload was accepted and queued behind the ones already waiting.
    Accepted,
    /// The channel is full. The payload is handed back so the producer can
    /// wait and retry: backpressure, not drop.
    Full(Vec<u8>),
    /// The consumer is gone. The payload is handed back; sending is hopeless.
    Closed(Vec<u8>),
}

/// A bounded single-producer, single-consumer queue of image payloads,
/// delivered oldest first.
pub struct ImageChannel {
    queue: Vec<Vec<u8>>,
    capacity: usize,
    closed: bool,
}

impl ImageChannel {
    /// The queued payloads, oldest first.
    pub closed spec fn contents(self) -> Seq<Seq<u8>> {
        self.queue@.map(|i: int, p: Vec<u8>| p@)
    }

    /// How many payloads may wait unconsumed at once.
    pub closed spec fn capacity(self) -> usize {
        self.capacity
    }

    /// Whether the consumer has gone away.
    pub closed spec fn is_closed(self) -> bool {
        self.closed
    }

    /// The queue never exceeds its capacity, and a capacity of zero could
    /// carry nothing at all.
    pub open spec fn well_formed(self) -> bool {
        self.capacity() >= 1 && self.contents().len() <= self.capacity()
    }

    /// An empty open channel of the given capacity.
    pub fn new(capacity: usize) -> (c: Self)
        requires
            capacity >= 1,
        ensures
            c.well_formed(),
            c.contents() == Seq::<Seq<u8>>::empty(),
            c.capacity() == capacity,
            !c.is_closed(),
    {
        let c = ImageChannel { queue: Vec::new(), capacity, closed: false };
        proof {
            assert(c.contents() =~= Seq::<Seq<u8>>::empty());
        }
        c
    }

    /// Offer a payload without blocking. An accepted payload queues behind
    /// every payload already waiting; a full or closed channel changes nothing
    /// and reports why.
    pub fn try_send(&mut self, payload: Vec<u8>) -> (outcome: SendOutcome)
        requires
            old(self).well_formed(),
        ensures
            final(self).well_formed(),
            final(self).capacity() == old(self).capacity(),
            final(self).is_closed() == old(self).is_closed(),
            old(self).is_closed() ==> {
                &&& outcome matches SendOutcome::Closed(p) && p == payload
                &&& *final(self) == *old(self)
            },
            !old(self).is_closed() && old(self).contents().len() == old(self).capacity() ==> {
                &&& outcome matches SendOutcome::Full(p) && p == payload
                &&& *final(self) == *old(self)
            },
            !old(self).is_closed() && old(self).contents().len() < old(self).capacity() ==> {
                &&& outcome is Accepted
                &&& final(self).contents() == old(self).contents().push(payload@)
            },
    {
        if self.closed {
            SendOutcome::Closed(payload)
        } else if self.queue.len() == self.capacity {
            SendOutcome::Full(payload)
        } else {
            let ghost prior = self.queue@;
            self.queue.push(payload);
            proof {
                assert(self.contents() =~= prior.map(|i: int, p: Vec<u8>| p@).push(payload@));
            }
            SendOutcome::Accepted
        }
    }

    /// Take the oldest queued payload, if any. Never blocks: an empty channel
    /// returns nothing at once and is left untouched.
    pub fn try_recv(&mut self) -> (received: Option<Vec<u8>>)
        requires
            old(self).well_formed(),
        ensures
            final(self).well_formed(),
            final(self).capacity() == old(self).capacity(),
            final(self).is_closed() == old(self).is_closed(),
            old(self).contents().len() == 0 ==> {
                &&& received is None
                &&& *final(self) == *old(self)
            },
            old(self).contents().len() > 0 ==> {
                &&& received matches Some(p) && p@ == old(self).contents()[0]
                &&& final(self).contents() == old(self).contents().drop_first()
            },
    {
        if self.queue.len() == 0 {
            None
        } else {
            let ghost prior = self.queue@;
            let front = self.queue.remove(0);
            proof {
                assert(self.contents() =~= prior.map(|i: int, p: Vec<u8>| p@).drop_first());
            }
            Some(front)
        }
    }

    /// Drain everything queued and return the newest payload: the consumer
    /// shows the most recent image and silently supersedes any backlog that
    /// piled up since its last look. Never blocks: an empty channel returns
    /// nothing at once and is left untouched.
    pub fn drain_latest(&mut self) -> (latest: Option<Vec<u8>>)
        requires
            old(self).well_formed(),
        ensures
            final(self).well_formed(),
            final(self).capacity() == old(self).capacity(),
            final(self).is_closed() == old(self).is_closed(),
            old(self).contents().len() == 0 ==> {
                &&& latest is None
                &&& *final(self) == *old(self)
            },
            old(self).contents().len() > 0 ==> {
                &&& latest matches Some(p) && p@ == old(self).contents().last()
                &&& final(self).contents() == Seq::<Seq<u8>>::empty()
            },
    {
        if self.queue.len() == 0 {
            None
        } else {
            let newest = self.queue.pop();
            self.queue.clear();
            proof {
                assert(self.contents() =~= Seq::<Seq<u8>>::empty());
            }
            newest
        }
    }

    /// Record that the consumer is gone: every later send is rejected.
    pub fn close(&mut self)
        ensures
            final(self).is_closed(),
            final(self).contents() == old(self).contents(),
            final(self).capacity() == old(self).capacity(),
    {
        self.closed = true;
    }
}

/// Law: the channel is first-in, first-out. Two payloads accepted in order
/// into an empty channel are received in that same order when taken one at a
/// time, and nothing else is left behind.
pub proof fn lemma_fifo_order(first: Seq<u8>, second: Seq<u8>)
    ensures
        ({
            let queued = Seq::<Seq<u8>>::empty().push(first).push(second);
            &&& queued[0] == first
            &&& queued.drop_first()[0] == second
            &&& queued.drop_first().drop_first().len() == 0
        }),
{
}

} // verus!
