//! The event bridge: an ordered, unbounded, single-writer/single-reader
//! queue that carries domain events from the background dispatch loop to
//! the foreground caller.
//!
//! The verified model is a FIFO queue viewed as a `Seq` of the events it
//! still holds: `send` appends at the back and `try_receive` takes from the
//! front, so events come out in exactly the order they were sent in.

use vstd::prelude::*;

verus! {

/// Ordered queue of events in transit from producer to consumer.
pub struct EventBridge<T> {
    events: Vec<T>,
}

impl<T> View for EventBridge<T> {
    type V = Seq<T>;

    closed spec fn view(&self) -> Seq<T> {
        self.events@
    }
}

impl<T> EventBridge<T> {
    /// A fresh bridge holds no events.
    pub fn new() -> (bridge: Self)
        ensures
            bridge@ == Seq::<T>::empty(),
    {
        EventBridge { events: Vec::new() }
    }

    /// Enqueue an event at the back; never blocks the producer.
    pub fn send(&mut self, event: T)
        ensures
            final(self)@ == old(self)@.push(event),
    {
        self.events.push(event);
    }

    /// Dequeue the oldest event, if any: events leave in send order.
    pub fn try_receive(&mut self) -> (received: Option<T>)
        ensures
            old(self)@.len() == 0 ==> received is None && final(self)@ == old(self)@,
            old(self)@.len() > 0 ==> received == Some(old(self)@[0]) && final(self)@
                == old(self)@.skip(1),
    {
        if self.events.len() == 0 {
            None
        } else {
            let event = self.events.remove(0);
            proof {
                assert(self@ =~= old(self)@.skip(1));
            }
            Some(event)
        }
    }

    /// How many events are waiting to be received.
    pub fn pending(&self) -> (n: usize)
        ensures
            n == self@.len(),
    {
        self.events.len()
    }
}

/// Send order is preserved. A consumer that has already taken `taken`
/// events from a bridge into which the producer sent the sequence `sent`
/// sees, by `try_receive`'s contract, the queue `sent.skip(taken)`: the
/// next receive therefore returns `sent[taken]`, the events keep arriving
/// in exactly the order they were sent, whether or not the consumer was
/// listening when they were sent.
pub proof fn lemma_send_order_preserved<T>(sent: Seq<T>, taken: int)
    requires
        0 <= taken < sent.len(),
    ensures
        sent.skip(taken)[0] == sent[taken],
        sent.skip(taken).skip(1) == sent.skip(taken + 1),
{
    assert(sent.skip(taken).skip(1) =~= sent.skip(taken + 1));
}

} // verus!
