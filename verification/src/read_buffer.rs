//! The read side of the transport: a buffer that serves the bytes of received
//! messages to readers with a bounded amount of room.

use vstd::prelude::*;

verus! {

/// How many bytes a read with room for `capacity` bytes takes out of `len`
/// available ones.
pub open spec fn chunk_len(len: nat, capacity: nat) -> nat {
    if len <= capacity {
        len
    } else {
        capacity
    }
}

/// What a read with room for `capacity` bytes takes from the front of `s`.
pub open spec fn take_front(s: Seq<u8>, capacity: nat) -> Seq<u8> {
    s.take(chunk_len(s.len(), capacity) as int)
}

/// What stays of `s` after a read with room for `capacity` bytes.
pub open spec fn leave_behind(s: Seq<u8>, capacity: nat) -> Seq<u8> {
    s.skip(chunk_len(s.len(), capacity) as int)
}

/// What polling the channel of received messages gave.
#[derive(Debug, PartialEq, Eq)]
pub enum ChannelPoll {
    /// The payload of the next message.
    Message(Vec<u8>),
    /// Every sender is gone and no message is left: the stream has ended.
    Closed,
    /// No message yet; the poller will be woken when one comes.
    Pending,
}

/// [`ChannelPoll`] with the payload as a sequence.
pub enum Polled {
    Message(Seq<u8>),
    Closed,
    Pending,
}

impl View for ChannelPoll {
    type V = Polled;

    open spec fn view(&self) -> Polled {
        match self {
            ChannelPoll::Message(d) => Polled::Message(d@),
            ChannelPoll::Closed => Polled::Closed,
            ChannelPoll::Pending => Polled::Pending,
        }
    }
}

/// The outcome of a read.
#[derive(Debug, PartialEq, Eq)]
pub enum ReadPoll {
    /// The read completed with these bytes; none at all means the end of the
    /// stream (or a read with no room).
    Ready(Vec<u8>),
    /// The message taken from the channel was empty and carried no bytes:
    /// poll the channel again.
    Again,
    /// Nothing to read yet.
    Pending,
}

/// [`ReadPoll`] with the bytes as a sequence.
pub enum Outcome {
    Ready(Seq<u8>),
    Again,
    Pending,
}

impl View for ReadPoll {
    type V = Outcome;

    open spec fn view(&self) -> Outcome {
        match self {
            ReadPoll::Ready(d) => Outcome::Ready(d@),
            ReadPoll::Again => Outcome::Again,
            ReadPoll::Pending => Outcome::Pending,
        }
    }
}

/// One read with room for `capacity` bytes, from the bytes still `pending`
/// and, when none are, from what polling the channel gave: the bytes pending
/// afterwards and the read's outcome.
///
/// Bytes already buffered are served first and the channel is not consulted.
/// A message is served from its front; what does not fit stays pending. An
/// empty message carries no bytes and is passed over: the channel is polled
/// again. A closed channel completes the read with no bytes: the stream has
/// ended.
pub open spec fn read_step(pending: Seq<u8>, capacity: nat, polled: Polled) -> (Seq<u8>, Outcome) {
    if pending.len() > 0 {
        (leave_behind(pending, capacity), Outcome::Ready(take_front(pending, capacity)))
    } else {
        match polled {
            Polled::Message(d) => if d.len() == 0 {
                (Seq::empty(), Outcome::Again)
            } else {
                (leave_behind(d, capacity), Outcome::Ready(take_front(d, capacity)))
            },
            Polled::Closed => (Seq::empty(), Outcome::Ready(Seq::empty())),
            Polled::Pending => (Seq::empty(), Outcome::Pending),
        }
    }
}

/// The message payload that a read takes from the channel: that of the polled
/// message when nothing was pending, else nothing.
pub open spec fn consumed(pending: Seq<u8>, polled: Polled) -> Seq<u8> {
    if pending.len() == 0 {
        match polled {
            Polled::Message(d) => d,
            _ => Seq::empty(),
        }
    } else {
        Seq::empty()
    }
}

/// The bytes a read outcome hands over.
pub open spec fn delivered(outcome: Outcome) -> Seq<u8> {
    match outcome {
        Outcome::Ready(d) => d,
        _ => Seq::empty(),
    }
}

/// A series of reads, each given by its room and by what polling the channel
/// would give it, run from the bytes `pending`: the bytes pending at the end,
/// all bytes the reads handed over, and all message payloads they consumed.
pub open spec fn run_reads(pending: Seq<u8>, reads: Seq<(nat, Polled)>) -> (Seq<u8>, Seq<u8>, Seq<u8>)
    decreases reads.len(),
{
    if reads.len() == 0 {
        (pending, Seq::empty(), Seq::empty())
    } else {
        let (capacity, polled) = reads[0];
        let (next, outcome) = read_step(pending, capacity, polled);
        let rest = run_reads(next, reads.drop_first());
        (rest.0, delivered(outcome) + rest.1, consumed(pending, polled) + rest.2)
    }
}

/// No byte is lost, duplicated or reordered by a read: the bytes handed over,
/// followed by those pending afterwards, are the bytes pending before,
/// followed by the payload of the message the read consumed.
pub proof fn lemma_read_step_conserves_bytes(pending: Seq<u8>, capacity: nat, polled: Polled)
    ensures
        delivered(read_step(pending, capacity, polled).1) + read_step(pending, capacity, polled).0
            == pending + consumed(pending, polled),
{
    let k = chunk_len(pending.len(), capacity) as int;
    if pending.len() > 0 {
        assert(pending.take(k) + pending.skip(k) =~= pending);
        assert(pending + Seq::<u8>::empty() =~= pending);
    } else {
        match polled {
            Polled::Message(d) => {
                let j = chunk_len(d.len(), capacity) as int;
                assert(d.take(j) + d.skip(j) =~= d);
                assert(pending + d =~= d);
                assert(Seq::<u8>::empty() + Seq::<u8>::empty() =~= Seq::<u8>::empty());
            },
            _ => {
                assert(pending + Seq::<u8>::empty() =~= Seq::<u8>::empty());
                assert(Seq::<u8>::empty() + Seq::<u8>::empty() =~= Seq::<u8>::empty());
            },
        }
    }
}

/// Over any series of reads the byte stream is the series of message
/// payloads: everything the reads handed over, followed by what is still
/// pending, is what was pending at the start followed by every payload the
/// reads took from the channel, in order.
pub proof fn lemma_reads_conserve_stream(pending: Seq<u8>, reads: Seq<(nat, Polled)>)
    ensures
        run_reads(pending, reads).1 + run_reads(pending, reads).0 == pending + run_reads(pending, reads).2,
    decreases reads.len(),
{
    if reads.len() > 0 {
        let (capacity, polled) = reads[0];
        let (next, outcome) = read_step(pending, capacity, polled);
        let rest = run_reads(next, reads.drop_first());
        lemma_read_step_conserves_bytes(pending, capacity, polled);
        lemma_reads_conserve_stream(next, reads.drop_first());
        let c = consumed(pending, polled);
        assert(delivered(outcome) + rest.1 + rest.0 =~= delivered(outcome) + (rest.1 + rest.0));
        assert(delivered(outcome) + (next + rest.2) =~= (delivered(outcome) + next) + rest.2);
        assert((pending + c) + rest.2 =~= pending + (c + rest.2));
    } else {
        assert(Seq::<u8>::empty() + pending =~= pending + Seq::<u8>::empty());
    }
}

/// A read never hands over more bytes than it has room for, and a read with
/// room that completes hands over at least one byte unless the stream has
/// ended: a read completes with no bytes only when it has no room or when
/// nothing is pending and the channel is closed. An empty message never
/// completes a read: the read polls again.
pub proof fn lemma_read_step_bounds(pending: Seq<u8>, capacity: nat, polled: Polled)
    ensures
        delivered(read_step(pending, capacity, polled).1).len() <= capacity,
        capacity > 0 && read_step(pending, capacity, polled).1 is Ready
            ==> delivered(read_step(pending, capacity, polled).1).len() > 0
                || (pending.len() == 0 && polled is Closed),
        capacity > 0 && consumed(pending, polled).len() + pending.len() > 0
            ==> delivered(read_step(pending, capacity, polled).1).len() > 0,
        read_step(pending, capacity, polled).1 is Again
            <==> (pending.len() == 0 && polled == Polled::Message(Seq::<u8>::empty())),
{
    if pending.len() == 0 {
        if let Polled::Message(d) = polled {
            if d.len() == 0 {
                assert(d =~= Seq::<u8>::empty());
            }
        }
    }
}

/// A read with nothing pending on a closed channel completes at once with no
/// bytes, whatever its room: the stream has ended, and nothing stays pending.
/// A read waits (is pending) exactly when nothing is pending and the channel
/// has nothing to give yet.
pub proof fn lemma_closed_channel_ends_stream(pending: Seq<u8>, capacity: nat, polled: Polled)
    ensures
        read_step(Seq::empty(), capacity, Polled::Closed) == (Seq::<u8>::empty(), Outcome::Ready(Seq::<u8>::empty())),
        read_step(pending, capacity, polled).1 is Pending <==> (pending.len() == 0 && polled is Pending),
{
}

/// A message that fits into the read is handed over whole and leaves nothing
/// pending; a channel with nothing to give leaves the read pending and the
/// buffer empty.
pub proof fn lemma_read_step_whole_message(capacity: nat, polled: Polled)
    ensures
        forall|d: Seq<u8>|
            polled == Polled::Message(d) && 0 < d.len() <= capacity
                ==> #[trigger] read_step(Seq::empty(), capacity, Polled::Message(d)) == (Seq::<u8>::empty(), Outcome::Ready(d)),
        polled is Pending ==> read_step(Seq::empty(), capacity, polled) == (Seq::<u8>::empty(), Outcome::Pending),
{
    if let Polled::Message(d) = polled {
        if d.len() <= capacity {
            assert(d.take(d.len() as int) =~= d);
            assert(d.skip(d.len() as int) =~= Seq::<u8>::empty());
        }
    }
}

/// Copies `v[start..end]` into a fresh vector.
fn copy_range(v: &Vec<u8>, start: usize, end: usize) -> (r: Vec<u8>)
    requires
        start <= end <= v@.len(),
    ensures
        r@ == v@.subrange(start as int, end as int),
{
    let mut r: Vec<u8> = Vec::new();
    let mut i: usize = start;
    while i < end
        invariant
            start <= i <= end <= v@.len(),
            r@ == v@.subrange(start as int, i as int),
        decreases end - i,
    {
        r.push(v[i]);
        i = i + 1;
        assert(r@ =~= v@.subrange(start as int, i as int));
    }
    r
}

/// Bytes received but not yet handed to a reader.
///
/// The buffer holds the tail of one received message: the part that did not
/// fit into the read that took the message from the channel. `read_pos` marks
/// how much of it later reads have taken.
pub struct ReadBuffer {
    read_buffer: Vec<u8>,
    read_pos: usize,
}

impl ReadBuffer {
    /// Either some bytes are left to read, or the buffer is empty and rewound:
    /// a buffer that reads have used up is cleared and its position reset.
    /// The bytes left to read are `read_buffer[read_pos..]` (the view).
    #[verifier::type_invariant]
    pub closed spec fn well_formed(&self) -> bool {
        ||| self.read_pos < self.read_buffer@.len()
        ||| (self.read_buffer@.len() == 0 && self.read_pos == 0)
    }
}

impl View for ReadBuffer {
    type V = Seq<u8>;

    /// The bytes still to be read, in order.
    closed spec fn view(&self) -> Seq<u8> {
        self.read_buffer@.subrange(self.read_pos as int, self.read_buffer@.len() as int)
    }
}

impl ReadBuffer {
    /// An empty buffer.
    pub fn new() -> (r: ReadBuffer)
        ensures
            r@ == Seq::<u8>::empty(),
            r.well_formed(),
    {
        let r = ReadBuffer { read_buffer: Vec::new(), read_pos: 0 };
        assert(r@ =~= Seq::<u8>::empty());
        proof {
            use_type_invariant(&r);
        }
        r
    }

    /// Whether bytes are waiting to be read.
    pub fn has_pending(&self) -> (r: bool)
        ensures
            r == (self@.len() > 0),
    {
        proof {
            use_type_invariant(self);
        }
        self.read_pos < self.read_buffer.len()
    }

    /// Serves a read with room for `capacity` bytes from the buffer.
    ///
    /// Returns `None`, and changes nothing, when the buffer is empty: the
    /// reader must then take the next message from the channel.
    pub fn read_buffered(&mut self, capacity: usize) -> (r: Option<Vec<u8>>)
        ensures
            old(self)@.len() == 0 ==> r is None && final(self)@ == old(self)@,
            old(self)@.len() > 0 ==> (r matches Some(d) && d@ == take_front(old(self)@, capacity as nat)
                && final(self)@ == leave_behind(old(self)@, capacity as nat)),
            final(self).well_formed(),
    {
        proof {
            use_type_invariant(&*self);
        }
        if self.read_pos < self.read_buffer.len() {
            let remaining = self.read_buffer.len() - self.read_pos;
            let to_copy = if remaining <= capacity {
                remaining
            } else {
                capacity
            };
            let ghost before = self@;
            let out = copy_range(&self.read_buffer, self.read_pos, self.read_pos + to_copy);
            assert(out@ =~= take_front(before, capacity as nat));
            let new_pos = self.read_pos + to_copy;
            if new_pos >= self.read_buffer.len() {
                self.read_pos = 0;
                self.read_buffer = Vec::new();
                assert(self@ =~= leave_behind(before, capacity as nat));
            } else {
                self.read_pos = new_pos;
                assert(self@ =~= leave_behind(before, capacity as nat));
            }
            proof {
                use_type_invariant(&*self);
            }
            Some(out)
        } else {
            None
        }
    }

    /// Completes a read with room for `capacity` bytes from what polling the
    /// channel gave, once [`ReadBuffer::read_buffered`] found nothing pending.
    ///
    /// A message is served from its front; the rest of it stays buffered for
    /// the next reads. An empty message is passed over: the caller polls the
    /// channel again.
    pub fn read_polled(&mut self, capacity: usize, poll: ChannelPoll) -> (r: ReadPoll)
        requires
            old(self)@.len() == 0,
        ensures
            (final(self)@, r@) == read_step(old(self)@, capacity as nat, poll@),
            final(self).well_formed(),
            poll is Closed ==> r@ == Outcome::Ready(Seq::<u8>::empty()) && final(self)@ == Seq::<u8>::empty(),
            r is Pending <==> poll is Pending,
    {
        proof {
            use_type_invariant(&*self);
        }
        match poll {
            ChannelPoll::Message(data) => {
                let mut data = data;
                let ghost whole = data@;
                let len = data.len();
                if len == 0 {
                    assert(self@ =~= Seq::<u8>::empty());
                    return ReadPoll::Again;
                }
                let to_copy = if len <= capacity {
                    len
                } else {
                    capacity
                };
                let rest = data.split_off(to_copy);
                if to_copy < len {
                    self.read_buffer = rest;
                    self.read_pos = 0;
                }
                assert(data@ =~= take_front(whole, capacity as nat));
                assert(self@ =~= leave_behind(whole, capacity as nat));
                proof {
                    use_type_invariant(&*self);
                }
                ReadPoll::Ready(data)
            },
            ChannelPoll::Closed => {
                assert(self@ =~= Seq::<u8>::empty());
                ReadPoll::Ready(Vec::new())
            },
            ChannelPoll::Pending => {
                assert(self@ =~= Seq::<u8>::empty());
                ReadPoll::Pending
            },
        }
    }
}

} // verus!
