use karma_p2p::error::Error;
use karma_p2p::stream::P2pStream;
use karma_p2p::stream::P2pStreamExt;
use karma_p2p::stream::ReadFutureInner;
use karma_p2p::stream::ReadPoll;
use karma_p2p::stream::WebrtcStream;

#[test]
fn messages_become_whole_read_units_in_order() {
    let mut stream: WebrtcStream<u32> = WebrtcStream::new();
    assert_eq!(stream.push_message(vec![1, 2, 3]), None);
    assert_eq!(stream.push_message(vec![4]), None);
    assert_eq!(stream.poll_read(1), ReadPoll::Data(vec![1, 2, 3]));
    assert_eq!(stream.poll_read(2), ReadPoll::Data(vec![4]));
    assert_eq!(stream.poll_read(3), ReadPoll::Pending);
}

#[test]
fn read_suspends_then_wakes_on_message() {
    let mut stream: WebrtcStream<u32> = WebrtcStream::new();
    assert_eq!(stream.poll_read(17), ReadPoll::Pending);
    // the registered handle comes back with the first message
    assert_eq!(stream.push_message(vec![9]), Some(17));
    // and is not handed out again for the next one
    assert_eq!(stream.push_message(vec![10]), None);
    assert_eq!(stream.poll_read(18), ReadPoll::Data(vec![9]));
}

#[test]
fn write_passes_bytes_through_as_one_message() {
    let stream: WebrtcStream<u32> = WebrtcStream::new();
    let message = stream.write(&[5, 6, 7]).unwrap();
    assert_eq!(message, vec![5, 6, 7]);
    let empty = stream.write(&[]).unwrap();
    assert_eq!(empty, Vec::<u8>::new());
}

#[test]
fn read_after_close_is_end_of_stream_and_write_fails() {
    let mut stream: WebrtcStream<u32> = WebrtcStream::new();
    stream.push_message(vec![1]);
    stream.close();
    assert_eq!(stream.poll_read(1), ReadPoll::EndOfStream);
    assert_eq!(stream.write(&[2]), Err(Error::ErrChannelClosed));
    // close is idempotent
    stream.close();
    assert_eq!(stream.poll_read(2), ReadPoll::EndOfStream);
}

#[test]
fn remote_close_wakes_a_suspended_reader() {
    let mut stream: WebrtcStream<u32> = WebrtcStream::new();
    assert_eq!(stream.poll_read(23), ReadPoll::Pending);
    // the reader's handle comes back so it re-polls and sees the close
    assert_eq!(stream.remote_close(), Some(23));
    assert_eq!(stream.poll_read(24), ReadPoll::EndOfStream);
}

#[test]
fn remote_close_drains_pending_messages_first() {
    let mut stream: WebrtcStream<u32> = WebrtcStream::new();
    stream.push_message(vec![1]);
    stream.push_message(vec![2]);
    assert_eq!(stream.remote_close(), None);
    assert_eq!(stream.poll_read(1), ReadPoll::Data(vec![1]));
    assert_eq!(stream.poll_read(2), ReadPoll::Data(vec![2]));
    // no error: the exhausted stream reports end-of-stream
    assert_eq!(stream.poll_read(3), ReadPoll::EndOfStream);
    // the local side may still write until it closes itself
    assert!(stream.write(&[3]).is_ok());
}

#[test]
fn read_inner_buffers_datagrams_in_order() {
    let mut inner: ReadFutureInner<u32> = ReadFutureInner::new();
    assert_eq!(inner.poll(5), None);
    assert_eq!(inner.push(vec![1]), Some(5));
    assert_eq!(inner.push(vec![2]), None);
    assert_eq!(inner.poll(6), Some(vec![1]));
    assert_eq!(inner.poll(7), Some(vec![2]));
}

fn echo_one<W, S: P2pStreamExt<W>>(stream: &mut S, wake: W) -> Option<Vec<u8>> {
    match stream.poll_read(wake) {
        ReadPoll::Data(data) => stream.write(&data).ok(),
        _ => None,
    }
}

#[test]
fn capability_trait_covers_the_stream() {
    let mut stream: WebrtcStream<u32> = WebrtcStream::new();
    stream.push_message(vec![8, 9]);
    assert_eq!(echo_one(&mut stream, 1), Some(vec![8, 9]));
    assert_eq!(echo_one(&mut stream, 2), None);
}

#[test]
fn flush_is_a_no_op() {
    let mut stream: WebrtcStream<u32> = WebrtcStream::new();
    stream.push_message(vec![1]);
    stream.flush();
    assert_eq!(stream.poll_read(1), ReadPoll::Data(vec![1]));
}
