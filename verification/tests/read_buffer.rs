use ws_transport::read_buffer::{ChannelPoll, ReadBuffer, ReadPoll};

fn read(buf: &mut ReadBuffer, capacity: usize, poll: ChannelPoll) -> ReadPoll {
    match buf.read_buffered(capacity) {
        Some(bytes) => ReadPoll::Ready(bytes),
        None => buf.read_polled(capacity, poll),
    }
}

#[test]
fn new_buffer_is_empty() {
    let mut buf = ReadBuffer::new();
    assert!(!buf.has_pending());
    assert_eq!(buf.read_buffered(16), None);
    assert!(!buf.has_pending());
}

#[test]
fn message_that_fits_is_delivered_whole() {
    let mut buf = ReadBuffer::new();
    let r = buf.read_polled(8, ChannelPoll::Message(vec![1, 2, 3]));
    assert_eq!(r, ReadPoll::Ready(vec![1, 2, 3]));
    assert!(!buf.has_pending());
}

#[test]
fn message_exactly_the_capacity_leaves_nothing() {
    let mut buf = ReadBuffer::new();
    let r = buf.read_polled(3, ChannelPoll::Message(vec![7, 8, 9]));
    assert_eq!(r, ReadPoll::Ready(vec![7, 8, 9]));
    assert!(!buf.has_pending());
}

#[test]
fn long_message_is_split_across_reads() {
    let mut buf = ReadBuffer::new();
    let r = buf.read_polled(3, ChannelPoll::Message((1..=10).collect()));
    assert_eq!(r, ReadPoll::Ready(vec![1, 2, 3]));
    assert!(buf.has_pending());
    assert_eq!(buf.read_buffered(3), Some(vec![4, 5, 6]));
    assert_eq!(buf.read_buffered(3), Some(vec![7, 8, 9]));
    assert_eq!(buf.read_buffered(3), Some(vec![10]));
    assert!(!buf.has_pending());
    assert_eq!(buf.read_buffered(3), None);
}

#[test]
fn buffered_bytes_come_before_the_channel() {
    let mut buf = ReadBuffer::new();
    let _ = buf.read_polled(2, ChannelPoll::Message(vec![1, 2, 3, 4]));
    // The polled message is not consulted while bytes are buffered.
    let r = read(&mut buf, 8, ChannelPoll::Message(vec![9, 9]));
    assert_eq!(r, ReadPoll::Ready(vec![3, 4]));
    assert!(!buf.has_pending());
}

#[test]
fn closed_channel_ends_the_stream() {
    let mut buf = ReadBuffer::new();
    assert_eq!(buf.read_polled(8, ChannelPoll::Closed), ReadPoll::Ready(vec![]));
    assert!(!buf.has_pending());
}

#[test]
fn pending_channel_leaves_the_read_pending() {
    let mut buf = ReadBuffer::new();
    assert_eq!(buf.read_polled(8, ChannelPoll::Pending), ReadPoll::Pending);
    assert!(!buf.has_pending());
}

#[test]
fn read_with_no_room_keeps_the_whole_message() {
    let mut buf = ReadBuffer::new();
    assert_eq!(buf.read_polled(0, ChannelPoll::Message(vec![5, 6])), ReadPoll::Ready(vec![]));
    assert!(buf.has_pending());
    assert_eq!(buf.read_buffered(0), Some(vec![]));
    assert_eq!(buf.read_buffered(5), Some(vec![5, 6]));
    assert!(!buf.has_pending());
}

#[test]
fn empty_message_is_passed_over() {
    let mut buf = ReadBuffer::new();
    assert_eq!(buf.read_polled(4, ChannelPoll::Message(vec![])), ReadPoll::Again);
    assert!(!buf.has_pending());
    assert_eq!(buf.read_polled(4, ChannelPoll::Message(vec![5])), ReadPoll::Ready(vec![5]));
}

#[test]
fn empty_message_does_not_end_the_stream() {
    // The messages [1, 2], [], [3] read with room 4, polling again after an
    // empty message, give 1 2 then 3, and only the closed channel gives an
    // empty read.
    let mut polls = vec![
        ChannelPoll::Message(vec![1, 2]),
        ChannelPoll::Message(vec![]),
        ChannelPoll::Message(vec![3]),
        ChannelPoll::Closed,
    ]
    .into_iter();
    let mut buf = ReadBuffer::new();
    let mut reads: Vec<Vec<u8>> = Vec::new();
    loop {
        let r = match buf.read_buffered(4) {
            Some(bytes) => ReadPoll::Ready(bytes),
            None => buf.read_polled(4, polls.next().unwrap()),
        };
        match r {
            ReadPoll::Ready(bytes) => {
                let end = bytes.is_empty();
                reads.push(bytes);
                if end {
                    break;
                }
            }
            ReadPoll::Again => continue,
            ReadPoll::Pending => panic!("no read here is pending"),
        }
    }
    assert_eq!(reads, vec![vec![1, 2], vec![3], vec![]]);
}

#[test]
fn stream_of_reads_equals_the_stream_of_messages() {
    let messages: Vec<Vec<u8>> = vec![vec![1, 2, 3, 4, 5], vec![6], vec![], vec![7, 8, 9, 10, 11, 12, 13]];
    let capacities = [2usize, 1, 4, 3, 0, 5, 5, 2, 2, 8, 1];
    let mut buf = ReadBuffer::new();
    let mut next = messages.into_iter();
    let mut consumed: Vec<u8> = Vec::new();
    let mut delivered: Vec<u8> = Vec::new();
    for &cap in capacities.iter() {
        let r = match buf.read_buffered(cap) {
            Some(bytes) => ReadPoll::Ready(bytes),
            None => {
                let poll = match next.next() {
                    Some(m) => {
                        consumed.extend_from_slice(&m);
                        ChannelPoll::Message(m)
                    }
                    None => ChannelPoll::Closed,
                };
                buf.read_polled(cap, poll)
            }
        };
        match r {
            ReadPoll::Ready(bytes) => {
                assert!(bytes.len() <= cap);
                delivered.extend_from_slice(&bytes);
            }
            ReadPoll::Again => {}
            ReadPoll::Pending => panic!("no read here is pending"),
        }
    }
    while let Some(rest) = buf.read_buffered(usize::MAX) {
        delivered.extend_from_slice(&rest);
    }
    assert_eq!(delivered, consumed);
    assert_eq!(delivered, (1..=13).collect::<Vec<u8>>());
}
