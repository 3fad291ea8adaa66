//! The sending end of a channel of messages, with the record of what the
//! channel took. The record is changed only by [`MessageSender::new`], which
//! starts it empty, and [`MessageSender::send`], which states its effect.

use futures::channel::mpsc::{UnboundedReceiver, UnboundedSender};
use vstd::prelude::*;

verus! {

#[verifier::external_type_specification]
#[verifier::external_body]
#[verifier::reject_recursive_types(T)]
pub struct ExUnboundedSender<T>(UnboundedSender<T>);

#[verifier::external_type_specification]
#[verifier::external_body]
#[verifier::reject_recursive_types(T)]
pub struct ExUnboundedReceiver<T>(UnboundedReceiver<T>);

/// The sending end of a channel of messages, with the record of what it has
/// put on the channel.
pub struct MessageSender {
    tx: UnboundedSender<Vec<u8>>,
    /// The messages that the channel took from this sender, in order.
    sent: Ghost<Seq<Seq<u8>>>,
    /// Whether the channel has refused a message of this sender.
    refused: Ghost<bool>,
}

impl MessageSender {
    /// The messages that the channel took from this sender, in order.
    pub closed spec fn sent(&self) -> Seq<Seq<u8>> {
        self.sent@
    }

    /// Whether the channel has refused a message of this sender: its
    /// receiving side is gone.
    pub closed spec fn refused(&self) -> bool {
        self.refused@
    }

    /// The channel this sender sends on.
    pub closed spec fn channel(&self) -> UnboundedSender<Vec<u8>> {
        self.tx
    }

    /// A sender on the channel of `tx` that has sent nothing yet.
    pub fn new(tx: UnboundedSender<Vec<u8>>) -> (r: MessageSender)
        ensures
            r.sent() == Seq::<Seq<u8>>::empty(),
            !r.refused(),
            r.channel() == tx,
    {
        MessageSender { tx, sent: Ghost(Seq::empty()), refused: Ghost(false) }
    }

    /// Puts `data` on the channel with `UnboundedSender::unbounded_send`.
    ///
    /// When the channel takes it (`Ok`), the message is queued behind those
    /// sent before, so the record grows by `data`. When the receiving side is
    /// gone the channel refuses it and hands it back (`TrySendError::into_inner`)
    /// unchanged; a channel closed once stays closed, so every later message
    /// is refused too. Whether the receiving side is alive is not known here,
    /// so success is not promised. `unbounded_send` panics only when
    /// 2^63 - 1 messages are queued at once.
    #[verifier::external_body]
    pub(crate) fn send(&mut self, data: Vec<u8>) -> (r: Result<(), Vec<u8>>)
        ensures
            final(self).channel() == old(self).channel(),
            r is Ok ==> final(self).sent() == old(self).sent().push(data@) && final(self).refused() == old(
                self,
            ).refused(),
            r matches Err(back) ==> back@ == data@ && final(self).sent() == old(self).sent()
                && final(self).refused(),
            old(self).refused() ==> r is Err,
    {
        match self.tx.unbounded_send(data) {
            Ok(()) => Ok(()),
            Err(e) => Err(e.into_inner()),
        }
    }
}

} // verus!
