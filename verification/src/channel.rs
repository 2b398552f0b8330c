//! The backpressure channel: a single bounded FIFO queue of captured packets
//! between the capture loop (producer) and its one logical consumer.
//!
//! The bound is the core's flow control: a full queue turns the producer away
//! (it suspends and retries; nothing is dropped, nothing grows without bound),
//! and a closed queue — the consumer is gone — ends the capture run. Two ghost
//! sequences record every packet ever accepted and every packet ever handed
//! out, so delivery order, absence of loss and absence of duplication are part
//! of the queue's well-formedness rather than a property of one caller.

use vstd::prelude::*;

use crate::packet::CapturedPacket;

verus! {

/// What one attempt to enqueue a packet came to.
pub enum SendOutcome {
    /// The packet was accepted and now sits at the back of the queue.
    Sent,
    /// The queue is at capacity; the packet comes back to the producer, which
    /// must stall and retry once the consumer makes room.
    Full(CapturedPacket),
    /// The consumer is gone; the packet comes back, and no later packet will
    /// ever be accepted.
    Closed(CapturedPacket),
}

/// A bounded FIFO queue of captured packets with one producer and one
/// consumer. The capacity is fixed for the lifetime of a capture run.
pub struct PacketChannel {
    /// The packets accepted and not yet consumed, front first.
    pub queue: Vec<CapturedPacket>,
    /// The fixed bound: `queue` never holds more than this many packets.
    pub capacity: usize,
    /// The consumer has gone away; nothing more will be accepted.
    pub closed: bool,
    /// Every packet ever accepted, in acceptance order.
    pub history: Ghost<Seq<CapturedPacket>>,
    /// Every packet ever handed to the consumer, in delivery order.
    pub delivered: Ghost<Seq<CapturedPacket>>,
}

impl PacketChannel {
    /// The packets currently queued, front first.
    pub open spec fn queued(&self) -> Seq<CapturedPacket> {
        self.queue@
    }

    /// Well-formedness: the queue respects its bound, and what was delivered,
    /// followed by what still waits, is exactly what was ever accepted — no
    /// loss, no duplication, no reordering.
    pub open spec fn wf(&self) -> bool {
        &&& self.capacity >= 1
        &&& self.queue@.len() <= self.capacity
        &&& self.delivered@ + self.queue@ == self.history@
    }

    /// A fresh open channel with the given bound.
    pub fn new(capacity: usize) -> (r: PacketChannel)
        requires
            capacity >= 1,
        ensures
            r.wf(),
            r.capacity == capacity,
            !r.closed,
            r.queued().len() == 0,
            r.history@.len() == 0,
            r.delivered@.len() == 0,
    {
        let r = PacketChannel {
            queue: Vec::new(),
            capacity,
            closed: false,
            history: Ghost(Seq::empty()),
            delivered: Ghost(Seq::empty()),
        };
        proof {
            assert(r.delivered@ + r.queue@ =~= r.history@);
        }
        r
    }

    /// How many packets wait in the queue.
    pub fn len(&self) -> (r: usize)
        ensures
            r == self.queued().len(),
    {
        self.queue.len()
    }

    /// Producer side: offer one packet.
    ///
    /// Accepted exactly when the channel is open and below capacity; a full or
    /// closed channel hands the packet back unchanged, and changes nothing.
    pub fn try_send(&mut self, packet: CapturedPacket) -> (r: SendOutcome)
        requires
            old(self).wf(),
        ensures
            final(self).wf(),
            final(self).capacity == old(self).capacity,
            final(self).closed == old(self).closed,
            final(self).delivered == old(self).delivered,
            old(self).closed ==> {
                &&& r matches SendOutcome::Closed(p) && p == packet
                &&& *final(self) == *old(self)
            },
            !old(self).closed && old(self).queued().len() < old(self).capacity ==> {
                &&& r is Sent
                &&& final(self).queued() == old(self).queued().push(packet)
                &&& final(self).history@ == old(self).history@.push(packet)
            },
            !old(self).closed && old(self).queued().len() == old(self).capacity ==> {
                &&& r matches SendOutcome::Full(p) && p == packet
                &&& *final(self) == *old(self)
            },
    {
        if self.closed {
            return SendOutcome::Closed(packet);
        }
        if self.queue.len() < self.capacity {
            proof {
                assert(self.delivered@ + self.queue@.push(packet) =~= self.history@.push(
                    packet,
                ));
            }
            self.history = Ghost(self.history@.push(packet));
            self.queue.push(packet);
            SendOutcome::Sent
        } else {
            SendOutcome::Full(packet)
        }
    }

    /// Consumer side: take the packet at the front, if any.
    pub fn recv(&mut self) -> (r: Option<CapturedPacket>)
        requires
            old(self).wf(),
        ensures
            final(self).wf(),
            final(self).capacity == old(self).capacity,
            final(self).closed == old(self).closed,
            final(self).history == old(self).history,
            old(self).queued().len() == 0 ==> r is None && *final(self) == *old(self),
            old(self).queued().len() > 0 ==> {
                &&& r == Some(old(self).queued()[0])
                &&& final(self).queued() == old(self).queued().drop_first()
                &&& final(self).delivered@ == old(self).delivered@.push(old(self).queued()[0])
            },
    {
        if self.queue.len() == 0 {
            return None;
        }
        let front = self.queue.remove(0);
        proof {
            assert(self.queue@ =~= old(self).queue@.drop_first());
            assert(self.delivered@.push(front) + self.queue@ =~= self.history@);
        }
        self.delivered = Ghost(self.delivered@.push(front));
        Some(front)
    }

    /// The consumer drops its end: nothing more will be accepted.
    pub fn close(&mut self)
        requires
            old(self).wf(),
        ensures
            final(self).wf(),
            final(self).closed,
            final(self).capacity == old(self).capacity,
            final(self).queued() == old(self).queued(),
            final(self).history == old(self).history,
            final(self).delivered == old(self).delivered,
    {
        self.closed = true;
    }
}

/// Law: a slow consumer stalls the producer instead of costing memory or
/// packets — however many offers were made, the queue never holds more than
/// its fixed capacity (an offer beyond it comes back `Full`, the queue
/// untouched, by `try_send`'s contract), so what waits in memory is bounded
/// for the whole life of the channel.
pub proof fn lemma_bounded_backpressure(c: &PacketChannel)
    requires
        c.wf(),
    ensures
        c.queued().len() <= c.capacity,
{
}

/// Law: the consumer observes exactly the packets the producer had accepted,
/// in exactly the order produced, with no duplication and no loss — what was
/// delivered so far is a prefix of the acceptance history, and what still
/// waits in the queue is precisely the rest of it.
pub proof fn lemma_fifo_order_no_loss(c: &PacketChannel)
    requires
        c.wf(),
    ensures
        c.delivered@ == c.history@.subrange(0, c.delivered@.len() as int),
        c.queued() == c.history@.subrange(c.delivered@.len() as int, c.history@.len() as int),
        c.delivered@.len() + c.queued().len() == c.history@.len(),
{
    assert(c.delivered@ =~= c.history@.subrange(0, c.delivered@.len() as int));
    assert(c.queued() =~= c.history@.subrange(
        c.delivered@.len() as int,
        c.history@.len() as int,
    ));
}

} // verus!
