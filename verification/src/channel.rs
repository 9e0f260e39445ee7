//! The event channel: the single ordered point of consumption.
//!
//! Every polling service pushes its events here and the reducer drains them
//! one at a time. The channel is an unbounded FIFO queue: sends append at the
//! back, the consumer takes from the front, so events pushed by one producer
//! are delivered in the order produced.

use vstd::prelude::*;

use crate::events::Message;

verus! {

/// An unbounded FIFO queue of events, viewed as the sequence of pending
/// events, oldest first.
#[derive(Debug)]
pub struct EventChannel {
    queue: Vec<Message>,
}

impl View for EventChannel {
    type V = Seq<Message>;

    closed spec fn view(&self) -> Seq<Message> {
        self.queue@
    }
}

impl EventChannel {
    /// An empty channel.
    pub fn new() -> (r: Self)
        ensures
            r@ == Seq::<Message>::empty(),
    {
        EventChannel { queue: Vec::new() }
    }

    /// Appends one event at the back.
    pub fn send(&mut self, message: Message)
        ensures
            final(self)@ == old(self)@.push(message),
    {
        self.queue.push(message);
    }

    /// Takes the oldest pending event, or nothing when the channel is empty.
    pub fn recv(&mut self) -> (r: Option<Message>)
        ensures
            old(self)@.len() == 0 ==> r is None && final(self)@ == old(self)@,
            old(self)@.len() > 0 ==> r == Some(old(self)@[0]) && final(self)@ == old(
                self,
            )@.drop_first(),
    {
        if self.queue.len() == 0 {
            None
        } else {
            let message = self.queue.remove(0);
            proof {
                assert(self@ =~= old(self)@.drop_first());
            }
            Some(message)
        }
    }

    /// The number of pending events.
    pub fn len(&self) -> (r: usize)
        ensures
            r == self@.len(),
    {
        self.queue.len()
    }
}

} // verus!
