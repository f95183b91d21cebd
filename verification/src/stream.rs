//! The stream capability: a byte-stream projection over a message-oriented
//! channel.  Each inbound message becomes one available read unit; each
//! write passes the caller's buffer through as a single outbound message,
//! with no re-framing, buffering or coalescing.  `close` is idempotent;
//! after it, reads yield an end-of-stream signal (not an error) and writes
//! fail.  `flush` is a no-op: messages are sent immediately.
//!
//! The engine's send and close themselves happen outside this crate: `write`
//! hands back the exact wire message to send, `close` asks the caller to
//! close the underlying channel.

use vstd::prelude::*;
use vstd::slice::slice_to_vec;

use crate::bridge::BridgeModel;
use crate::bridge::EventBridge;
use crate::bridge::empty_bridge;
use crate::bridge::spec_poll;
use crate::bridge::spec_push;
use crate::error::Error;

verus! {

/// The stream's inbound side: the event bridge its message callback fills
/// with datagrams, each surfacing as one read unit.
pub struct ReadFutureInner<W> {
    bridge: EventBridge<Vec<u8>, W>,
}

impl<W> View for ReadFutureInner<W> {
    type V = BridgeModel<Vec<u8>, W>;

    closed spec fn view(&self) -> BridgeModel<Vec<u8>, W> {
        self.bridge@
    }
}

impl<W> Default for ReadFutureInner<W> {
    /// An inbox with no pending datagrams and no registered wake handle.
    fn default() -> (inner: Self)
        ensures
            inner@ == empty_bridge::<Vec<u8>, W>(),
    {
        ReadFutureInner::new()
    }
}

impl<W> ReadFutureInner<W> {
    /// An inbox with no pending datagrams and no registered wake handle.
    pub fn new() -> (inner: Self)
        ensures
            inner@ == empty_bridge::<Vec<u8>, W>(),
    {
        ReadFutureInner { bridge: EventBridge::new() }
    }

    /// Appends one inbound datagram and takes any stored wake handle.
    pub fn push(&mut self, data: Vec<u8>) -> (wake: Option<W>)
        ensures
            final(self)@ == spec_push(old(self)@, data).0,
            wake == spec_push(old(self)@, data).1,
    {
        self.bridge.push(data)
    }

    /// Pops the oldest pending datagram, or registers `wake`.
    pub fn poll(&mut self, wake: W) -> (data: Option<Vec<u8>>)
        ensures
            final(self)@ == spec_poll(old(self)@, wake).0,
            data == spec_poll(old(self)@, wake).1,
    {
        self.bridge.poll(wake)
    }

    /// Takes the registered wake handle, if any, without touching the
    /// queue.
    pub fn take_waker(&mut self) -> (wake: Option<W>)
        ensures
            final(self)@ == (BridgeModel { queue: old(self)@.queue, waker: None::<W> }),
            wake == old(self)@.waker,
    {
        self.bridge.take_waker()
    }
}

/// The outcome of one read poll.
#[derive(Debug, Clone, PartialEq, Eq)]
pub enum ReadPoll {
    /// The oldest pending inbound message, handed out whole; the caller's
    /// destination buffer must be at least this large.
    Data(Vec<u8>),
    /// The stream was closed, or the remote side closed it and no further
    /// messages are pending.
    EndOfStream,
    /// Nothing is available yet; the wake handle was registered.
    Pending,
}

/// The mathematical state of a stream.
#[verifier::ext_equal]
pub ghost struct StreamModel<W> {
    pub inbox: BridgeModel<Vec<u8>, W>,
    pub closed: bool,
    pub remote_closed: bool,
}

/// One end of a ready data channel: the bridge its message callback fills,
/// and whether either side has closed the channel.
pub struct WebrtcStream<W> {
    inner: ReadFutureInner<W>,
    closed: bool,
    remote_closed: bool,
}

impl<W> View for WebrtcStream<W> {
    type V = StreamModel<W>;

    closed spec fn view(&self) -> StreamModel<W> {
        StreamModel {
            inbox: self.inner@,
            closed: self.closed,
            remote_closed: self.remote_closed,
        }
    }
}

impl<W> WebrtcStream<W> {
    /// A stream over a freshly opened channel: open, with no pending
    /// messages.
    pub fn new() -> (s: Self)
        ensures
            s@ == (StreamModel {
                inbox: empty_bridge::<Vec<u8>, W>(),
                closed: false,
                remote_closed: false,
            }),
    {
        let s = WebrtcStream { inner: ReadFutureInner::new(), closed: false, remote_closed: false };
        proof {
            assert(s@ =~= (StreamModel {
                inbox: empty_bridge::<Vec<u8>, W>(),
                closed: false,
                remote_closed: false,
            }));
        }
        s
    }

    /// The message callback: enqueues one inbound message as one read unit.
    /// The returned wake handle, if any, must be invoked once.
    pub fn push_message(&mut self, data: Vec<u8>) -> (wake: Option<W>)
        ensures
            ({
                let pushed = spec_push(old(self)@.inbox, data);
                &&& wake == pushed.1
                &&& final(self)@ == (StreamModel { inbox: pushed.0, ..old(self)@ })
            }),
    {
        let wake = self.inner.push(data);
        proof {
            assert(final(self)@ =~= (StreamModel { inbox: final(self)@.inbox, ..old(self)@ }));
        }
        wake
    }

    /// The remote side closed the channel: pending messages stay readable,
    /// and once they are drained reads yield end-of-stream.  Any registered
    /// wake handle is handed back, so a suspended reader re-polls and
    /// observes the close.
    pub fn remote_close(&mut self) -> (wake: Option<W>)
        ensures
            final(self)@ == (StreamModel {
                remote_closed: true,
                inbox: BridgeModel { queue: old(self)@.inbox.queue, waker: None::<W> },
                ..old(self)@
            }),
            wake == old(self)@.inbox.waker,
    {
        self.remote_closed = true;
        let wake = self.inner.take_waker();
        proof {
            assert(final(self)@ =~= (StreamModel {
                remote_closed: true,
                inbox: final(self)@.inbox,
                ..old(self)@
            }));
        }
        wake
    }

    /// One step of `read`.  A closed stream yields end-of-stream at once;
    /// otherwise the oldest pending message is handed out whole; with none
    /// pending, a remotely closed stream yields end-of-stream and an open
    /// one registers `wake` and reports that nothing is available yet.
    pub fn poll_read(&mut self, wake: W) -> (r: ReadPoll)
        ensures
            old(self)@.closed ==> (r is EndOfStream && final(self)@ == old(self)@),
            !old(self)@.closed ==> ({
                let polled = spec_poll(old(self)@.inbox, wake);
                &&& final(self)@ == (StreamModel { inbox: polled.0, ..old(self)@ })
                &&& r == match polled.1 {
                    Some(data) => ReadPoll::Data(data),
                    None => if old(self)@.remote_closed {
                        ReadPoll::EndOfStream
                    } else {
                        ReadPoll::Pending
                    },
                }
            }),
    {
        if self.closed {
            return ReadPoll::EndOfStream;
        }
        let polled = self.inner.poll(wake);
        proof {
            assert(final(self)@ =~= (StreamModel { inbox: final(self)@.inbox, ..old(self)@ }));
        }
        match polled {
            Some(data) => ReadPoll::Data(data),
            None => if self.remote_closed {
                ReadPoll::EndOfStream
            } else {
                ReadPoll::Pending
            },
        }
    }

    /// One write call maps to one wire message: on an open stream the
    /// result is exactly the caller's bytes, to be sent as a single
    /// message; on a closed stream the write fails.
    pub fn write(&self, buf: &[u8]) -> (r: Result<Vec<u8>, Error>)
        ensures
            !self@.closed ==> (r matches Ok(message) && message@ == buf@),
            self@.closed ==> (r matches Err(e) && e == Error::ErrChannelClosed),
    {
        if self.closed {
            Err(Error::ErrChannelClosed)
        } else {
            Ok(slice_to_vec(buf))
        }
    }

    /// Closes the stream; the caller must close the underlying channel.
    /// Idempotent: closing an already-closed stream changes nothing.
    pub fn close(&mut self)
        ensures
            final(self)@ == (StreamModel { closed: true, ..old(self)@ }),
    {
        self.closed = true;
        proof {
            assert(final(self)@ =~= (StreamModel { closed: true, ..old(self)@ }));
        }
    }

    /// A no-op: there is no internal write buffering to drain.
    pub fn flush(&mut self)
        ensures
            final(self)@ == old(self)@,
    {
        proof {
            assert(final(self)@ =~= old(self)@);
        }
    }
}

/// The unified stream capability surface every backend presents: polled
/// reads, pass-through writes, idempotent close, and a no-op flush.  The
/// detailed contracts live on the implementing type.
pub trait P2pStream<W> {
    /// One step of `read`.
    fn poll_read(&mut self, wake: W) -> ReadPoll;

    /// One write call maps to one wire message.
    fn write(&self, buf: &[u8]) -> Result<Vec<u8>, Error>;

    /// Closes the stream.
    fn close(&mut self);

    /// Drains nothing: messages are sent immediately.
    fn flush(&mut self);
}

impl<W> P2pStream<W> for WebrtcStream<W> {
    fn poll_read(&mut self, wake: W) -> ReadPoll {
        WebrtcStream::poll_read(self, wake)
    }

    fn write(&self, buf: &[u8]) -> Result<Vec<u8>, Error> {
        WebrtcStream::write(self, buf)
    }

    fn close(&mut self) {
        WebrtcStream::close(self)
    }

    fn flush(&mut self) {
        WebrtcStream::flush(self)
    }
}

/// Carried over from the capability layer: everything a `P2pStream` is,
/// available on every implementor.
pub trait P2pStreamExt<W>: P2pStream<W> {

}

impl<W, T: P2pStream<W>> P2pStreamExt<W> for T {

}

} // verus!
