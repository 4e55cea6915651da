//! The unbounded FIFO between a native producer and its consumer, kept in
//! futures' mpsc channel. Both ends live together: the producer side and the
//! consumer side share one queue, which is what the names below describe.
use futures::channel::mpsc::{UnboundedReceiver, UnboundedSender};
use futures::StreamExt;
use vstd::prelude::*;

use crate::envelope::Envelope;

verus! {

#[verifier::external_type_specification]
#[verifier::external_body]
pub struct ExContext<'a>(std::task::Context<'a>);

/// The largest number of messages the channel can hold at once: its state
/// word reserves the top bit for the open flag and asserts below this bound.
pub const CHANNEL_LIMIT: usize = usize::MAX / 2;

/// Both ends of one futures unbounded channel of envelopes. They are held
/// together because a send on one end changes what the other end yields: the
/// names below describe the queue they share.
#[verifier::external_body]
pub struct Channel {
    sender: UnboundedSender<Envelope>,
    receiver: UnboundedReceiver<Envelope>,
}

/// The envelopes buffered in the channel, oldest first.
pub uninterp spec fn channel_items(c: Channel) -> Seq<Envelope>;

/// Whether the channel still accepts messages.
pub uninterp spec fn channel_open(c: Channel) -> bool;

/// What one attempt to take an envelope from the channel saw.
#[derive(Debug)]
pub enum Pull {
    /// The oldest buffered envelope.
    Item(Envelope),
    /// Nothing buffered yet, and the channel is still open.
    Pending,
    /// The channel is closed and drained.
    Ended,
}

/// The outcome of a pull on a queue holding `items`, open or not.
pub open spec fn pull_outcome(items: Seq<Envelope>, open: bool) -> Pull {
    if items.len() > 0 {
        Pull::Item(items[0])
    } else if open {
        Pull::Pending
    } else {
        Pull::Ended
    }
}

impl Channel {
    /// Relies on futures::channel::mpsc::unbounded: a fresh channel is open and empty.
    #[verifier::external_body]
    pub(crate) fn new() -> (r: Channel)
        ensures
            channel_items(r) == Seq::<Envelope>::empty(),
            channel_open(r),
    {
        let (sender, receiver) = futures::channel::mpsc::unbounded();
        Channel { sender, receiver }
    }

    /// Relies on UnboundedSender::unbounded_send: on an open channel the message
    /// joins the back of the queue; on a closed one it is handed back. The
    /// `requires` keeps the message count under the bound the channel asserts.
    #[verifier::external_body]
    pub(crate) fn send(&mut self, e: Envelope) -> (r: Result<(), Envelope>)
        requires
            channel_items(*old(self)).len() < CHANNEL_LIMIT,
        ensures
            channel_open(*final(self)) == channel_open(*old(self)),
            channel_open(*old(self)) ==> r is Ok && channel_items(*final(self))
                == channel_items(*old(self)).push(e),
            !channel_open(*old(self)) ==> r is Err && r->Err_0 == e,
            !channel_open(*old(self)) ==> channel_items(*final(self)) == channel_items(*old(self)),
    {
        self.sender.unbounded_send(e).map_err(|err| err.into_inner())
    }

    /// Relies on UnboundedSender::close_channel: the channel stops accepting
    /// messages, keeps those already buffered, and closing again changes nothing.
    #[verifier::external_body]
    pub(crate) fn close(&mut self)
        ensures
            !channel_open(*final(self)),
            channel_items(*final(self)) == channel_items(*old(self)),
    {
        self.sender.close_channel()
    }

    /// Relies on UnboundedReceiver::poll_next: the oldest buffered message
    /// comes first; with none buffered it is pending while the channel is open
    /// and ended once it is closed. A pending poll registers the task's waker.
    #[verifier::external_body]
    pub(crate) fn poll_next(&mut self, cx: &mut std::task::Context) -> (r: Pull)
        ensures
            r == pull_outcome(channel_items(*old(self)), channel_open(*old(self))),
            channel_open(*final(self)) == channel_open(*old(self)),
            channel_items(*final(self)) == if channel_items(*old(self)).len() > 0 {
                channel_items(*old(self)).drop_first()
            } else {
                channel_items(*old(self))
            },
    {
        match self.receiver.poll_next_unpin(cx) {
            std::task::Poll::Ready(Some(e)) => Pull::Item(e),
            std::task::Poll::Ready(None) => Pull::Ended,
            std::task::Poll::Pending => Pull::Pending,
        }
    }
}

} // verus!
