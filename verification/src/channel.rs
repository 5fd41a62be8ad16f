//! A model of the pool's queue channel: an unbounded first-in-first-out
//! mailbox with one shared send side and one receive side.
//!
//! Messages leave in exactly the order they were sent, each message is
//! consumed exactly once, and once the receive side is gone every further
//! send is refused. These are the channel facts the shutdown protocol
//! rests on.

use vstd::prelude::*;

use crate::message::Message;
use crate::pool_error::PoolError;

verus! {

/// The queue channel. `queue` holds the messages sent but not yet
/// received, oldest first; `receiver_attached` records whether the
/// receive side still exists.
pub struct Channel {
    pub queue: Vec<Message>,
    pub receiver_attached: bool,
}

impl Channel {
    /// A fresh channel: empty, with its receive side attached.
    pub fn new() -> (c: Channel)
        ensures
            c.queue@ == Seq::<Message>::empty(),
            c.receiver_attached,
    {
        Channel { queue: Vec::new(), receiver_attached: true }
    }

    /// Send a message: it is appended behind every earlier message, so
    /// delivery order is send order. Refused exactly when the receive
    /// side is gone, in which case the channel is unchanged.
    pub fn send(&mut self, m: Message) -> (r: Result<(), PoolError>)
        ensures
            final(self).receiver_attached == old(self).receiver_attached,
            old(self).receiver_attached ==> r is Ok && final(self).queue@ == old(self).queue@.push(m),
            !old(self).receiver_attached ==> r == Err::<(), PoolError>(PoolError::Disconnected)
                && final(self).queue@ == old(self).queue@,
    {
        if self.receiver_attached {
            self.queue.push(m);
            Ok(())
        } else {
            Err(PoolError::Disconnected)
        }
    }

    /// Take the next message: the oldest one, which is removed — no
    /// peeking, no duplication. `None` exactly when the queue is empty.
    pub fn recv(&mut self) -> (r: Option<Message>)
        ensures
            final(self).receiver_attached == old(self).receiver_attached,
            old(self).queue@.len() == 0 ==> r is None && final(self).queue@ == old(self).queue@,
            old(self).queue@.len() > 0 ==> r == Some(old(self).queue@[0])
                && final(self).queue@ == old(self).queue@.drop_first(),
    {
        if self.queue.len() == 0 {
            None
        } else {
            let m = self.queue.remove(0);
            proof {
                assert(old(self).queue@.remove(0) =~= old(self).queue@.drop_first());
            }
            Some(m)
        }
    }

    /// Drop the receive side: every later send is refused. Pending
    /// messages are kept (they are simply never delivered).
    pub fn close_receiver(&mut self)
        ensures
            !final(self).receiver_attached,
            final(self).queue@ == old(self).queue@,
    {
        self.receiver_attached = false;
    }
}

} // verus!
