//! An unbounded single-producer, single-consumer FIFO of bytes that keeps a
//! record of everything sent and received through it.
use vstd::prelude::*;
use std::collections::VecDeque;

verus! {

/// Outcome of a non-blocking receive.
#[derive(Clone, Copy, Debug, PartialEq, Eq, Structural)]
pub enum Received {
    /// The oldest byte not yet received.
    Byte(u8),
    /// Nothing is pending, and the producer is still there.
    Empty,
    /// Nothing is pending, and the producer is gone for good.
    Closed,
}

/// A send on a channel whose producer side has already closed it.
#[derive(Clone, Copy, Debug, PartialEq, Eq, Structural)]
pub struct ChannelClosed;

pub struct ByteChannel {
    queue: VecDeque<u8>,
    closed: bool,
    sent: Ghost<Seq<u8>>,
    received: Ghost<Seq<u8>>,
}

impl View for ByteChannel {
    type V = Seq<u8>;

    /// The bytes sent and not yet received, oldest first.
    closed spec fn view(&self) -> Seq<u8> {
        self.queue@
    }
}

impl ByteChannel {
    /// Whether the channel has reached its terminal closed state.
    pub closed spec fn is_closed(&self) -> bool {
        self.closed
    }

    /// Every byte ever sent, in send order.
    pub closed spec fn sent(&self) -> Seq<u8> {
        self.sent@
    }

    /// Every byte ever received, in receive order.
    pub closed spec fn received(&self) -> Seq<u8> {
        self.received@
    }

    /// What was received, followed by what is pending, is what was sent.
    pub closed spec fn wf(&self) -> bool {
        self.received@ + self.queue@ == self.sent@
    }

    /// An open, empty channel.
    pub fn new() -> (r: ByteChannel)
        ensures
            r.wf(),
            r@ == Seq::<u8>::empty(),
            !r.is_closed(),
            r.sent() == Seq::<u8>::empty(),
            r.received() == Seq::<u8>::empty(),
    {
        let r = ByteChannel {
            queue: VecDeque::new(),
            closed: false,
            sent: Ghost(Seq::empty()),
            received: Ghost(Seq::empty()),
        };
        assert(r.received@ + r.queue@ =~= r.sent@);
        r
    }

    /// Number of bytes pending.
    pub fn len(&self) -> (r: usize)
        ensures
            r == self@.len(),
    {
        self.queue.len()
    }

    /// Appends a byte. The queue is unbounded, so a send never waits; it
    /// fails only once the channel is closed, and then changes nothing.
    pub fn send(&mut self, b: u8) -> (r: Result<(), ChannelClosed>)
        requires
            old(self).wf(),
        ensures
            final(self).wf(),
            final(self).is_closed() == old(self).is_closed(),
            final(self).received() == old(self).received(),
            old(self).is_closed() ==> r is Err && final(self)@ == old(self)@ && final(self).sent()
                == old(self).sent(),
            !old(self).is_closed() ==> r is Ok && final(self)@ == old(self)@.push(b)
                && final(self).sent() == old(self).sent().push(b),
    {
        if self.closed {
            return Err(ChannelClosed);
        }
        self.queue.push_back(b);
        self.sent = Ghost(self.sent@.push(b));
        assert(self.received@ + self.queue@ =~= self.sent@);
        Ok(())
    }

    /// Takes the oldest pending byte, if any, without waiting.
    pub fn try_recv(&mut self) -> (r: Received)
        requires
            old(self).wf(),
        ensures
            final(self).wf(),
            final(self).is_closed() == old(self).is_closed(),
            final(self).sent() == old(self).sent(),
            old(self)@.len() > 0 ==> r == Received::Byte(old(self)@[0]) && final(self)@ == old(
                self,
            )@.drop_first() && final(self).received() == old(self).received().push(
                old(self)@[0],
            ),
            old(self)@.len() == 0 ==> final(self)@ == old(self)@ && final(self).received()
                == old(self).received() && r == if old(self).is_closed() {
                Received::Closed
            } else {
                Received::Empty
            },
    {
        match self.queue.pop_front() {
            Some(b) => {
                self.received = Ghost(self.received@.push(b));
                assert(self.received@ + self.queue@ =~= self.sent@);
                Received::Byte(b)
            },
            None => {
                if self.closed {
                    Received::Closed
                } else {
                    Received::Empty
                }
            },
        }
    }

    /// Moves the channel to its terminal closed state; pending bytes can
    /// still be received.
    pub fn close(&mut self)
        requires
            old(self).wf(),
        ensures
            final(self).wf(),
            final(self).is_closed(),
            final(self)@ == old(self)@,
            final(self).sent() == old(self).sent(),
            final(self).received() == old(self).received(),
    {
        self.closed = true;
    }
}

/// Whatever the interleaving of sends and receives, the receiver has seen
/// exactly the oldest bytes sent, each once and in send order, and the rest
/// are pending in send order: none is dropped, duplicated or reordered.
pub proof fn lemma_delivery_in_order(ch: &ByteChannel)
    requires
        ch.wf(),
    ensures
        ch.received().len() <= ch.sent().len(),
        ch.received() == ch.sent().subrange(0, ch.received().len() as int),
        ch@ == ch.sent().subrange(ch.received().len() as int, ch.sent().len() as int),
{
    assert(ch.received@ =~= ch.sent@.subrange(0, ch.received@.len() as int));
    assert(ch.queue@ =~= ch.sent@.subrange(ch.received@.len() as int, ch.sent@.len() as int));
}

} // verus!
