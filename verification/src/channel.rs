//! The byte stream that the connection's user reads and writes: received
//! messages come in over one channel, written bytes go out over another, and a
//! [`ReadBuffer`] keeps what a read had no room for.

use crate::read_buffer::{ChannelPoll, Outcome, ReadBuffer, ReadPoll, read_step, take_front, leave_behind};
use futures::channel::mpsc::{UnboundedReceiver, UnboundedSender};
pub use crate::sender::MessageSender;
use vstd::prelude::*;

verus! {

/// Why a write failed.
#[derive(Debug, Clone, Copy, PartialEq, Eq, Structural)]
pub enum WriteError {
    /// The task that sends messages to the peer has gone: the connection is
    /// closed for writing.
    BrokenPipe,
}

impl WriteError {
    /// The error's description.
    pub fn message(&self) -> (r: &'static str)
        ensures
            r@ == "WebSocket write channel closed"@,
    {
        "WebSocket write channel closed"
    }
}

/// What a write of `len` bytes reports, given whether the channel took them:
/// all `len` bytes written, or a broken pipe.
pub fn write_outcome(sent: Result<(), Vec<u8>>, len: usize) -> (r: Result<usize, WriteError>)
    ensures
        r matches Ok(n) ==> sent is Ok && n == len,
        r matches Err(e) ==> sent is Err && e == WriteError::BrokenPipe,
        sent is Ok <==> r is Ok,
{
    match sent {
        Ok(()) => Ok(len),
        Err(_) => Err(WriteError::BrokenPipe),
    }
}

/// A WebSocket connection seen as a byte stream.
///
/// Reads take the payloads of received binary messages, in order, from
/// `read_channel`; each write becomes one message on the write channel.
pub struct WebSocketChannelWrapper {
    /// The channel of received message payloads. It is polled, with the
    /// caller's waker, only when [`WebSocketChannelWrapper::read_buffered`]
    /// found nothing buffered.
    pub read_channel: UnboundedReceiver<Vec<u8>>,
    write_channel: MessageSender,
    read: ReadBuffer,
}

impl WebSocketChannelWrapper {
    /// The bytes received but not yet read.
    pub closed spec fn pending(&self) -> Seq<u8> {
        self.read@
    }

    /// The channel that reads take received payloads from.
    pub closed spec fn reads_from(&self) -> UnboundedReceiver<Vec<u8>> {
        self.read_channel
    }

    /// The channel that writes go to.
    pub closed spec fn writes_to(&self) -> UnboundedSender<Vec<u8>> {
        self.write_channel.channel()
    }

    /// The messages that writes have put on the write channel, in order.
    pub closed spec fn sent(&self) -> Seq<Seq<u8>> {
        self.write_channel.sent()
    }

    /// Whether the write channel has refused a write: the task that sends to
    /// the peer is gone.
    pub closed spec fn write_closed(&self) -> bool {
        self.write_channel.refused()
    }

    /// A stream over the two channels, with nothing buffered and nothing
    /// written: reads take from `read_channel`, writes go to `write_channel`.
    pub fn new(read_channel: UnboundedReceiver<Vec<u8>>, write_channel: UnboundedSender<Vec<u8>>) -> (r: Self)
        ensures
            r.pending() == Seq::<u8>::empty(),
            r.reads_from() == read_channel,
            r.writes_to() == write_channel,
            r.sent() == Seq::<Seq<u8>>::empty(),
            !r.write_closed(),
    {
        WebSocketChannelWrapper { read_channel, write_channel: MessageSender::new(write_channel), read: ReadBuffer::new() }
    }

    /// Whether bytes are buffered, so that a read needs no message.
    pub fn has_pending(&self) -> (r: bool)
        ensures
            r == (self.pending().len() > 0),
    {
        self.read.has_pending()
    }

    /// The first half of a read with room for `capacity` bytes: serves it from
    /// the buffer, or returns `None` when nothing is buffered and the channel
    /// must be polled. The channels and what was written stay as they are.
    pub fn read_buffered(&mut self, capacity: usize) -> (r: Option<Vec<u8>>)
        ensures
            old(self).pending().len() == 0 ==> r is None && final(self).pending() == old(self).pending(),
            old(self).pending().len() > 0 ==> (r matches Some(d)
                && d@ == take_front(old(self).pending(), capacity as nat)
                && final(self).pending() == leave_behind(old(self).pending(), capacity as nat)),
            final(self).reads_from() == old(self).reads_from(),
            final(self).writes_to() == old(self).writes_to(),
            final(self).sent() == old(self).sent(),
            final(self).write_closed() == old(self).write_closed(),
    {
        self.read.read_buffered(capacity)
    }

    /// The second half of a read with room for `capacity` bytes: completes it
    /// from what polling `read_channel` gave. The channels and what was
    /// written stay as they are.
    pub fn read_polled(&mut self, capacity: usize, poll: ChannelPoll) -> (r: ReadPoll)
        requires
            old(self).pending().len() == 0,
        ensures
            (final(self).pending(), r@) == read_step(old(self).pending(), capacity as nat, poll@),
            poll is Closed ==> r@ == Outcome::Ready(Seq::<u8>::empty()) && final(self).pending() == Seq::<u8>::empty(),
            r is Pending <==> poll is Pending,
            final(self).reads_from() == old(self).reads_from(),
            final(self).writes_to() == old(self).writes_to(),
            final(self).sent() == old(self).sent(),
            final(self).write_closed() == old(self).write_closed(),
    {
        self.read.read_polled(capacity, poll)
    }

    /// Writes `buf` as one message carrying exactly its bytes, queued behind
    /// the earlier writes: all of it is taken, or, when the sending task has
    /// gone, none of it and the pipe is broken. Once the pipe is broken every
    /// later write fails too. Reading is not affected.
    pub fn poll_write(&mut self, buf: &[u8]) -> (r: Result<usize, WriteError>)
        ensures
            r matches Ok(n) ==> n == buf@.len() && final(self).sent() == old(self).sent().push(buf@),
            r matches Err(e) ==> e == WriteError::BrokenPipe && final(self).sent() == old(self).sent()
                && final(self).write_closed(),
            old(self).write_closed() ==> r is Err,
            r is Ok ==> final(self).write_closed() == old(self).write_closed(),
            final(self).pending() == old(self).pending(),
            final(self).reads_from() == old(self).reads_from(),
            final(self).writes_to() == old(self).writes_to(),
    {
        let sent = self.write_channel.send(vstd::slice::slice_to_vec(buf));
        write_outcome(sent, buf.len())
    }

    /// Flushing has nothing to wait for: every write is handed to the sending
    /// task at once. It sends nothing and changes nothing.
    pub fn poll_flush(&self) -> (r: Result<(), WriteError>)
        ensures
            r is Ok,
    {
        Ok(())
    }

    /// Shutting down the writing half always succeeds at once; it sends
    /// nothing (no close message) and changes nothing, so later writes go
    /// through as before. The sending task ends when the stream is dropped.
    pub fn poll_shutdown(&self) -> (r: Result<(), WriteError>)
        ensures
            r is Ok,
    {
        Ok(())
    }

    /// Closing the writing half always succeeds at once, as shutting it down,
    /// and likewise sends nothing and changes nothing.
    pub fn poll_close(&self) -> (r: Result<(), WriteError>)
        ensures
            r is Ok,
    {
        Ok(())
    }
}

} // verus!
