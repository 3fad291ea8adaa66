//! The two tasks between a WebSocket and its byte stream. The receiving task
//! moves received messages into the channel read by the byte stream: binary
//! payloads are forwarded in order, a close message ends the relay, anything
//! else is passed over. The sending task sends each write of the byte stream
//! as one binary message and stops at the first send that fails.
//!
//! The relay reads its messages from the connection, which is I/O; whoever
//! reads them hands each over as a [`Frame`].

use crate::channel::MessageSender;
use async_tungstenite::tungstenite::Error as WsError;
use vstd::prelude::*;

verus! {

#[verifier::external_type_specification]
#[verifier::external_body]
pub struct ExWsError(WsError);

/// A received WebSocket message (one variant for each of tungstenite's
/// `Message`), with the payload the relay may need.
#[derive(Debug, PartialEq, Eq)]
pub enum Frame {
    Text(String),
    Binary(Vec<u8>),
    Ping(Vec<u8>),
    Pong(Vec<u8>),
    /// A close message; its close code and reason are not carried.
    Close,
    /// A raw frame; its contents are not carried.
    Raw,
}

/// What the relay does with one received item.
#[derive(Debug, PartialEq, Eq)]
pub enum Relay {
    /// Put this payload on the channel of the byte stream.
    Forward(Vec<u8>),
    /// Pass the item over and wait for the next.
    Skip,
    /// End the relay.
    Stop,
}

/// The relay's rule for a received message: a binary payload is forwarded, a
/// close message ends the relay, text, ping, pong and raw frames are passed
/// over.
pub open spec fn relay_rule(frame: Frame) -> Relay {
    match frame {
        Frame::Binary(d) => Relay::Forward(d),
        Frame::Close => Relay::Stop,
        _ => Relay::Skip,
    }
}

/// The relay's rule for a received message: a binary payload is forwarded, a
/// close message ends the relay, text, ping, pong and raw frames are passed
/// over.
pub fn frame_action(frame: Frame) -> (r: Relay)
    ensures
        r == relay_rule(frame),
        frame matches Frame::Binary(d) ==> r == Relay::Forward(d),
        frame is Close ==> r is Stop,
        !(frame is Binary || frame is Close) ==> r is Skip,
{
    match frame {
        Frame::Binary(d) => Relay::Forward(d),
        Frame::Close => Relay::Stop,
        _ => Relay::Skip,
    }
}

/// The relay's rule for a received item: a read error is passed over, a
/// message goes by [`frame_action`].
pub fn inbound_action(item: Result<Frame, WsError>) -> (r: Relay)
    ensures
        item is Err ==> r is Skip,
        item is Ok ==> r == relay_rule(item->Ok_0),
{
    match item {
        Ok(frame) => frame_action(frame),
        Err(_) => Relay::Skip,
    }
}

/// Relays one received item to the channel of the byte stream through `tx`,
/// and tells whether the relay goes on: a binary payload is put on the
/// channel, as one message with exactly its bytes; the relay ends on a close
/// message, or once the channel refuses a payload because nobody reads the
/// byte stream any more. Nothing else is sent.
///
/// Whether the channel takes a binary payload depends on its receiving side,
/// so for a binary message either result can come back.
pub fn relay_inbound(tx: &mut MessageSender, item: Result<Frame, WsError>) -> (r: bool)
    ensures
        final(tx).channel() == old(tx).channel(),
        item is Err ==> r && final(tx).sent() == old(tx).sent() && final(tx).refused() == old(tx).refused(),
        item is Ok && relay_rule(item->Ok_0) is Skip ==> r && final(tx).sent() == old(tx).sent()
            && final(tx).refused() == old(tx).refused(),
        item is Ok && relay_rule(item->Ok_0) is Stop ==> !r && final(tx).sent() == old(tx).sent()
            && final(tx).refused() == old(tx).refused(),
        item matches Ok(Frame::Binary(d)) ==> (r ==> final(tx).sent() == old(tx).sent().push(d@))
            && (!r ==> final(tx).sent() == old(tx).sent() && final(tx).refused()),
        old(tx).refused() ==> (item matches Ok(Frame::Binary(_)) ==> !r),
        item is Ok ==> (r ==> relay_step(old(tx).sent(), item->Ok_0) == (final(tx).sent(), r)),
{
    match inbound_action(item) {
        Relay::Forward(data) => match tx.send(data) {
            Ok(()) => true,
            Err(_) => false,
        },
        Relay::Skip => true,
        Relay::Stop => false,
    }
}

/// One step of the relay when the channel takes every payload: the record of
/// sent messages after `frame`, and whether the relay goes on.
pub open spec fn relay_step(sent: Seq<Seq<u8>>, frame: Frame) -> (Seq<Seq<u8>>, bool) {
    match relay_rule(frame) {
        Relay::Forward(d) => (sent.push(d@), true),
        Relay::Skip => (sent, true),
        Relay::Stop => (sent, false),
    }
}

/// The relay run over `frames` from the record `sent`, while the channel
/// takes every payload: it stops after the first close message.
pub open spec fn relay_run(sent: Seq<Seq<u8>>, frames: Seq<Frame>) -> Seq<Seq<u8>>
    decreases frames.len(),
{
    if frames.len() == 0 {
        sent
    } else {
        let (next, go) = relay_step(sent, frames[0]);
        if go {
            relay_run(next, frames.drop_first())
        } else {
            next
        }
    }
}

/// The payloads of the binary messages of `frames` that come before the first
/// close message, in order.
pub open spec fn binary_before_close(frames: Seq<Frame>) -> Seq<Seq<u8>>
    decreases frames.len(),
{
    if frames.len() == 0 {
        Seq::empty()
    } else {
        match frames[0] {
            Frame::Binary(d) => seq![d@] + binary_before_close(frames.drop_first()),
            Frame::Close => Seq::empty(),
            _ => binary_before_close(frames.drop_first()),
        }
    }
}

/// While nobody stops reading, the relay puts on the channel exactly the
/// payloads of the binary messages received before the first close message,
/// each as one message, in the order received; text, ping, pong and raw
/// frames add nothing, and nothing after the close is sent.
pub proof fn lemma_relay_sends_binary_before_close(sent: Seq<Seq<u8>>, frames: Seq<Frame>)
    ensures
        relay_run(sent, frames) == sent + binary_before_close(frames),
    decreases frames.len(),
{
    if frames.len() == 0 {
        assert(sent + Seq::<Seq<u8>>::empty() =~= sent);
    } else {
        let rest = frames.drop_first();
        match frames[0] {
            Frame::Binary(d) => {
                lemma_relay_sends_binary_before_close(sent.push(d@), rest);
                assert(sent.push(d@) + binary_before_close(rest) =~= sent + (seq![d@] + binary_before_close(rest)));
            },
            Frame::Close => {
                assert(sent + Seq::<Seq<u8>>::empty() =~= sent);
            },
            _ => {
                lemma_relay_sends_binary_before_close(sent, rest);
            },
        }
    }
}

/// The message the sending task sends for one write of the byte stream: a
/// binary message carrying exactly the written bytes.
pub fn outgoing_frame(data: Vec<u8>) -> (f: Frame)
    ensures
        f == Frame::Binary(data),
{
    Frame::Binary(data)
}

/// Whether the sending task goes on after a send: exactly when the
/// connection took the message.
pub fn outgoing_goes_on(sent_ok: bool) -> (r: bool)
    ensures
        r == sent_ok,
{
    sent_ok
}

/// The payloads of the messages the sending task hands to the connection
/// for the writes `writes`, when the connection takes or refuses them as
/// `accepted` says: one message per write, in order, up to and including the
/// first refused one; nothing after it.
pub open spec fn outgoing_run(writes: Seq<Seq<u8>>, accepted: Seq<bool>) -> Seq<Seq<u8>>
    decreases writes.len(),
{
    if writes.len() == 0 || accepted.len() == 0 {
        Seq::empty()
    } else if accepted[0] {
        seq![writes[0]] + outgoing_run(writes.drop_first(), accepted.drop_first())
    } else {
        seq![writes[0]]
    }
}

/// The sending task hands the connection the writes in order, each as one
/// message with its bytes, never anything else: what it hands over is a
/// prefix of the writes, all of them when every send is taken, and it stops
/// right after the first refused one.
pub proof fn lemma_outgoing_sends_writes_in_order(writes: Seq<Seq<u8>>, accepted: Seq<bool>)
    ensures
        outgoing_run(writes, accepted).len() <= writes.len(),
        outgoing_run(writes, accepted) == writes.take(outgoing_run(writes, accepted).len() as int),
        accepted.len() >= writes.len() && (forall|i: int| 0 <= i < writes.len() ==> #[trigger] accepted[i])
            ==> outgoing_run(writes, accepted) == writes,
        forall|i: int|
            0 <= i < writes.len() && i < accepted.len() && !#[trigger] accepted[i]
                && (forall|j: int| 0 <= j < i ==> accepted[j])
                ==> outgoing_run(writes, accepted) == writes.take(i + 1),
    decreases writes.len(),
{
    let run = outgoing_run(writes, accepted);
    if writes.len() == 0 || accepted.len() == 0 {
        assert(writes.take(0) =~= Seq::<Seq<u8>>::empty());
        if writes.len() == 0 {
            assert(writes =~= Seq::<Seq<u8>>::empty());
        }
    } else {
        let (w, a) = (writes.drop_first(), accepted.drop_first());
        lemma_outgoing_sends_writes_in_order(w, a);
        let rest = outgoing_run(w, a);
        if accepted[0] {
            assert(run =~= writes.take(run.len() as int)) by {
                assert forall|k: int| 0 <= k < run.len() implies run[k] == writes.take(run.len() as int)[k] by {
                    if k > 0 {
                        assert(run[k] == rest[k - 1]);
                        assert(rest[k - 1] == w.take(rest.len() as int)[k - 1]);
                    }
                }
            }
            if accepted.len() >= writes.len() && (forall|i: int| 0 <= i < writes.len() ==> #[trigger] accepted[i]) {
                assert forall|i: int| 0 <= i < w.len() implies #[trigger] a[i] by {
                    assert(a[i] == accepted[i + 1]);
                }
                assert(run =~= writes);
            }
            assert forall|i: int|
                0 <= i < writes.len() && i < accepted.len() && !#[trigger] accepted[i]
                    && (forall|j: int| 0 <= j < i ==> accepted[j])
                implies run == writes.take(i + 1) by {
                assert(i > 0);
                assert(!a[i - 1]);
                assert forall|j: int| 0 <= j < i - 1 implies a[j] by {
                    assert(a[j] == accepted[j + 1]);
                }
                assert(rest == w.take(i));
                assert(run =~= writes.take(i + 1));
            }
        } else {
            assert(run =~= writes.take(1));
            assert forall|i: int|
                0 <= i < writes.len() && i < accepted.len() && !#[trigger] accepted[i]
                    && (forall|j: int| 0 <= j < i ==> accepted[j])
                implies run == writes.take(i + 1) by {
                if i > 0 {
                    assert(accepted[0]);
                }
            }
        }
    }
}

} // verus!
