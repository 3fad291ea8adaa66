use futures::channel::mpsc::unbounded;
use ws_transport::channel::{write_outcome, WebSocketChannelWrapper, WriteError};
use ws_transport::read_buffer::{ChannelPoll, ReadPoll};

fn wrapper() -> (
    WebSocketChannelWrapper,
    futures::channel::mpsc::UnboundedSender<Vec<u8>>,
    futures::channel::mpsc::UnboundedReceiver<Vec<u8>>,
) {
    let (tx_in, rx_in) = unbounded::<Vec<u8>>();
    let (tx_out, rx_out) = unbounded::<Vec<u8>>();
    (WebSocketChannelWrapper::new(rx_in, tx_out), tx_in, rx_out)
}

#[test]
fn each_write_is_one_message() {
    let (mut w, _tx_in, mut rx_out) = wrapper();
    assert_eq!(w.poll_write(&[1, 2, 3]), Ok(3));
    assert_eq!(w.poll_write(&[]), Ok(0));
    assert_eq!(w.poll_write(&[4]), Ok(1));
    assert_eq!(rx_out.try_next().unwrap(), Some(vec![1, 2, 3]));
    assert_eq!(rx_out.try_next().unwrap(), Some(vec![]));
    assert_eq!(rx_out.try_next().unwrap(), Some(vec![4]));
}

#[test]
fn write_after_the_sender_task_is_gone_is_a_broken_pipe() {
    let (mut w, _tx_in, rx_out) = wrapper();
    drop(rx_out);
    let r = w.poll_write(&[1, 2]);
    assert_eq!(r, Err(WriteError::BrokenPipe));
    assert_eq!(w.poll_write(&[3]), Err(WriteError::BrokenPipe));
    assert_eq!(WriteError::BrokenPipe.message(), "WebSocket write channel closed");
}

#[test]
fn flush_shutdown_and_close_always_succeed() {
    let (mut w, _tx_in, rx_out) = wrapper();
    assert_eq!(w.poll_flush(), Ok(()));
    assert_eq!(w.poll_shutdown(), Ok(()));
    assert_eq!(w.poll_close(), Ok(()));
    drop(rx_out);
    assert_eq!(w.poll_flush(), Ok(()));
    assert_eq!(w.poll_close(), Ok(()));
}

#[test]
fn write_outcome_reports_the_length_or_a_broken_pipe() {
    assert_eq!(write_outcome(Ok(()), 17), Ok(17));
    assert_eq!(write_outcome(Err(vec![1, 2]), 2), Err(WriteError::BrokenPipe));
}

#[test]
fn reads_take_received_messages_in_order() {
    let (mut w, tx_in, _rx_out) = wrapper();
    tx_in.unbounded_send(vec![10, 11, 12]).unwrap();
    tx_in.unbounded_send(vec![13]).unwrap();
    drop(tx_in);
    assert!(!w.has_pending());
    assert_eq!(w.read_buffered(2), None);
    let poll = match w.read_channel.try_next() {
        Ok(Some(m)) => ChannelPoll::Message(m),
        Ok(None) => ChannelPoll::Closed,
        Err(_) => ChannelPoll::Pending,
    };
    assert_eq!(w.read_polled(2, poll), ReadPoll::Ready(vec![10, 11]));
    assert!(w.has_pending());
    assert_eq!(w.read_buffered(2), Some(vec![12]));
    assert_eq!(w.read_buffered(2), None);
    let poll = ChannelPoll::Message(w.read_channel.try_next().unwrap().unwrap());
    assert_eq!(w.read_polled(2, poll), ReadPoll::Ready(vec![13]));
    assert_eq!(w.read_channel.try_next().unwrap(), None);
    assert_eq!(w.read_polled(2, ChannelPoll::Closed), ReadPoll::Ready(vec![]));
}

#[test]
fn shutdown_and_close_send_nothing() {
    let (mut w, _tx_in, mut rx_out) = wrapper();
    assert_eq!(w.poll_write(&[1, 2, 3]), Ok(3));
    assert_eq!(w.poll_shutdown(), Ok(()));
    assert_eq!(w.poll_close(), Ok(()));
    assert_eq!(w.poll_flush(), Ok(()));
    assert_eq!(w.poll_write(&[4]), Ok(1));
    assert_eq!(rx_out.try_next().unwrap(), Some(vec![1, 2, 3]));
    assert_eq!(rx_out.try_next().unwrap(), Some(vec![4]));
    assert!(rx_out.try_next().is_err());
}

#[test]
fn empty_received_message_is_skipped() {
    let (mut w, tx_in, _rx_out) = wrapper();
    tx_in.unbounded_send(vec![]).unwrap();
    tx_in.unbounded_send(vec![7]).unwrap();
    drop(tx_in);
    assert_eq!(w.read_buffered(4), None);
    let m = w.read_channel.try_next().unwrap().unwrap();
    assert_eq!(w.read_polled(4, ChannelPoll::Message(m)), ReadPoll::Again);
    let m = w.read_channel.try_next().unwrap().unwrap();
    assert_eq!(w.read_polled(4, ChannelPoll::Message(m)), ReadPoll::Ready(vec![7]));
}
