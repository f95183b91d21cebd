//! The socket capability: bind, start, connect, accept, fetch-local-address
//! and set-remote-address, expressed as suspension points over the event
//! bridge, together with the signaling state machine they drive.
//!
//! Engine work (producing descriptions, committing them, adding candidates,
//! opening channels) happens outside this crate.  Each operation that needs
//! the engine is split in two: a decision function here checks the address
//! variant and the signaling state and says what to ask the engine for, and
//! a completion function commits the engine's result and enqueues whatever
//! must flow back to the caller.  A failed engine call therefore leaves the
//! socket exactly where the decision function put it: no state is rolled
//! back, and nothing is enqueued.

use vstd::prelude::*;

use crate::addr::Candidate;
use crate::addr::IceServer;
use crate::addr::SdpKind;
use crate::addr::SessionDescription;
use crate::addr::WebrtcAddr;
use crate::bridge::AddressFutureInner;
use crate::bridge::BridgeModel;
use crate::bridge::EventBridge;
use crate::bridge::empty_bridge;
use crate::bridge::spec_poll;
use crate::bridge::spec_push;
use crate::error::Error;

verus! {

/// Where a socket stands in the signaling progression.
///
/// `Offering` and `AnswerPending` are the in-flight positions while the
/// engine produces a local description: an offer after `start_begin`, an
/// answer after `set_remote_begin` accepted a remote offer on a socket that
/// never started (the responder role).
#[derive(Debug, Clone, Copy, PartialEq, Eq, Structural)]
pub enum SocketState {
    Bound,
    Offering,
    LocalDescriptionReady,
    AnswerPending,
    Negotiating,
    Connected,
    Closed,
}

/// An opaque token the caller assigns to an engine channel handed to
/// `push_incoming_channel`, and gets back from `poll_accept`.
pub type ChannelId = u64;

/// What the engine must be asked to do after `set_remote_begin` accepted an
/// address.
#[derive(Debug, Clone, PartialEq, Eq)]
pub enum RemoteAction {
    /// Commit the description as the remote one; the local description is
    /// already in place (the initiator receiving the answer).
    CommitRemote(SessionDescription),
    /// Commit the description as the remote one, then generate and commit a
    /// local answer and hand its body to `answer_complete` (the responder
    /// receiving the offer).
    CommitRemoteAndAnswer(SessionDescription),
    /// Feed the candidate to the engine's connectivity-check machinery.
    AddCandidate(Candidate),
}

/// How a data channel is to be opened for `connect`: by this label, with
/// this pre-negotiated id on both peers.
#[derive(Debug, Clone, PartialEq, Eq)]
pub struct ChannelConfig {
    pub label: String,
    pub id: u16,
    pub negotiated: bool,
}

/// The mathematical state of a socket.
#[verifier::ext_equal]
pub ghost struct SocketModel<W> {
    pub state: SocketState,
    pub ice_servers: Seq<IceServer>,
    pub addrs: BridgeModel<WebrtcAddr, W>,
    pub chans: BridgeModel<ChannelId, W>,
}

/// A peer endpoint: the signaling state, the bootstrap configuration, the
/// bridge its callbacks fill with outgoing local addresses, and the bridge
/// that buffers incoming channels for `accept`.
pub struct WebrtcSocket<W> {
    state: SocketState,
    ice_servers: Vec<IceServer>,
    addr_bridge: AddressFutureInner<W>,
    chan_bridge: EventBridge<ChannelId, W>,
}

impl<W> View for WebrtcSocket<W> {
    type V = SocketModel<W>;

    closed spec fn view(&self) -> SocketModel<W> {
        SocketModel {
            state: self.state,
            ice_servers: self.ice_servers@,
            addrs: self.addr_bridge@,
            chans: self.chan_bridge@,
        }
    }
}

impl<W> WebrtcSocket<W> {
    /// Creates a socket from a bootstrap address.  Fails with `ErrAddrType`
    /// on any other address variant, in which case no socket (and hence no
    /// underlying peer connection) is constructed.
    pub fn bind(bootstrap: WebrtcAddr) -> (r: Result<Self, Error>)
        ensures
            bootstrap matches WebrtcAddr::Bootstrap(servers) ==> (r matches Ok(s) && s@
                == (SocketModel {
                state: SocketState::Bound,
                ice_servers: servers@,
                addrs: empty_bridge::<WebrtcAddr, W>(),
                chans: empty_bridge::<ChannelId, W>(),
            })),
            !(bootstrap is Bootstrap) ==> (r matches Err(e) && e == Error::ErrAddrType),
    {
        match bootstrap {
            WebrtcAddr::Bootstrap(servers) => {
                let s = WebrtcSocket {
                    state: SocketState::Bound,
                    ice_servers: servers,
                    addr_bridge: EventBridge::new(),
                    chan_bridge: EventBridge::new(),
                };
                proof {
                    assert(s@ =~= (SocketModel {
                        state: SocketState::Bound,
                        ice_servers: s.ice_servers@,
                        addrs: empty_bridge::<WebrtcAddr, W>(),
                        chans: empty_bridge::<ChannelId, W>(),
                    }));
                }
                Ok(s)
            },
            _ => Err(Error::ErrAddrType),
        }
    }

    /// Which connectivity servers the peer connection must be configured
    /// with.
    pub fn ice_servers(&self) -> (servers: &Vec<IceServer>)
        ensures
            servers@ == self@.ice_servers,
    {
        &self.ice_servers
    }

    /// Where the socket stands in the signaling progression.
    pub fn state(&self) -> (s: SocketState)
        ensures
            s == self@.state,
    {
        self.state
    }

    /// First half of `start`: records that the engine has been asked to
    /// produce the local offer.  Only a socket still in `Bound` may start;
    /// a second `start` is rejected with `ErrInvalidState`.
    pub fn start_begin(&mut self) -> (r: Result<(), Error>)
        ensures
            old(self)@.state is Bound ==> r is Ok && final(self)@ == (SocketModel {
                state: SocketState::Offering,
                ..old(self)@
            }),
            !(old(self)@.state is Bound) ==> (r matches Err(e) && e
                == Error::ErrInvalidState && final(self)@ == old(self)@),
    {
        if matches!(self.state, SocketState::Bound) {
            self.state = SocketState::Offering;
            proof {
                assert(final(self)@ =~= (SocketModel {
                    state: SocketState::Offering,
                    ..old(self)@
                }));
            }
            Ok(())
        } else {
            proof {
                assert(final(self)@ =~= old(self)@);
            }
            Err(Error::ErrInvalidState)
        }
    }

    /// Second half of `start`: the engine has produced and committed the
    /// local offer with this body.  The offer is enqueued as a
    /// `SessionDescription` address event, so the caller's
    /// `poll_fetch_local_addr` loop yields it; the returned wake handle, if
    /// any, must be invoked once.
    pub fn start_complete(&mut self, sdp: String) -> (r: Result<Option<W>, Error>)
        ensures
            old(self)@.state is Offering ==> ({
                let pushed = spec_push(
                    old(self)@.addrs,
                    WebrtcAddr::SDP(SessionDescription { kind: SdpKind::Offer, sdp: sdp }),
                );
                &&& r matches Ok(wake) && wake == pushed.1
                &&& final(self)@ == (SocketModel {
                    state: SocketState::LocalDescriptionReady,
                    addrs: pushed.0,
                    ..old(self)@
                })
            }),
            !(old(self)@.state is Offering) ==> (r matches Err(e) && e
                == Error::ErrInvalidState && final(self)@ == old(self)@),
    {
        if matches!(self.state, SocketState::Offering) {
            self.state = SocketState::LocalDescriptionReady;
            let wake = self.addr_bridge.push(
                WebrtcAddr::SDP(SessionDescription { kind: SdpKind::Offer, sdp }),
            );
            proof {
                assert(final(self)@ =~= (SocketModel {
                    state: SocketState::LocalDescriptionReady,
                    addrs: final(self)@.addrs,
                    ..old(self)@
                }));
            }
            Ok(wake)
        } else {
            proof {
                assert(final(self)@ =~= old(self)@);
            }
            Err(Error::ErrInvalidState)
        }
    }

    /// Accepts one remote address and says what to ask the engine for.
    ///
    /// A `SessionDescription` is accepted from `Bound` (the responder
    /// receiving the offer; an answer must then be produced) or from
    /// `LocalDescriptionReady` (the initiator receiving the answer); a
    /// `Candidate` is accepted in every state but `Closed`; `Bootstrap` and
    /// `Label` always fail with `ErrAddrType`.  On every failure the socket
    /// is left unchanged.
    pub fn set_remote_begin(&mut self, remote: WebrtcAddr) -> (r: Result<RemoteAction, Error>)
        ensures
            remote matches WebrtcAddr::SDP(desc) ==> if old(self)@.state is Bound {
                r matches Ok(a) && a == RemoteAction::CommitRemoteAndAnswer(desc) && final(self)@
                    == (SocketModel { state: SocketState::AnswerPending, ..old(self)@ })
            } else if old(self)@.state is LocalDescriptionReady {
                r matches Ok(a) && a == RemoteAction::CommitRemote(desc) && final(self)@
                    == (SocketModel { state: SocketState::Negotiating, ..old(self)@ })
            } else {
                r matches Err(e) && e == Error::ErrInvalidState && final(self)@ == old(self)@
            },
            remote matches WebrtcAddr::ICE(candidate) ==> if !(old(self)@.state is Closed) {
                r matches Ok(a) && a == RemoteAction::AddCandidate(candidate) && final(self)@
                    == old(self)@
            } else {
                r matches Err(e) && e == Error::ErrInvalidState && final(self)@ == old(self)@
            },
            (remote is Bootstrap || remote is Label) ==> (r matches Err(e) && e
                == Error::ErrAddrType && final(self)@ == old(self)@),
    {
        match remote {
            WebrtcAddr::SDP(desc) => {
                if matches!(self.state, SocketState::Bound) {
                    self.state = SocketState::AnswerPending;
                    proof {
                        assert(final(self)@ =~= (SocketModel {
                            state: SocketState::AnswerPending,
                            ..old(self)@
                        }));
                    }
                    Ok(RemoteAction::CommitRemoteAndAnswer(desc))
                } else if matches!(self.state, SocketState::LocalDescriptionReady) {
                    self.state = SocketState::Negotiating;
                    proof {
                        assert(final(self)@ =~= (SocketModel {
                            state: SocketState::Negotiating,
                            ..old(self)@
                        }));
                    }
                    Ok(RemoteAction::CommitRemote(desc))
                } else {
                    proof {
                        assert(final(self)@ =~= old(self)@);
                    }
                    Err(Error::ErrInvalidState)
                }
            },
            WebrtcAddr::ICE(candidate) => {
                if matches!(self.state, SocketState::Closed) {
                    proof {
                        assert(final(self)@ =~= old(self)@);
                    }
                    Err(Error::ErrInvalidState)
                } else {
                    proof {
                        assert(final(self)@ =~= old(self)@);
                    }
                    Ok(RemoteAction::AddCandidate(candidate))
                }
            },
            _ => {
                proof {
                    assert(final(self)@ =~= old(self)@);
                }
                Err(Error::ErrAddrType)
            },
        }
    }

    /// Completion of the responder path: the engine has produced and
    /// committed the local answer with this body.  The answer is enqueued as
    /// a `SessionDescription` address event, so the caller's
    /// `poll_fetch_local_addr` loop also yields it for relaying back to the
    /// initiator; the returned wake handle, if any, must be invoked once.
    pub fn answer_complete(&mut self, sdp: String) -> (r: Result<Option<W>, Error>)
        ensures
            old(self)@.state is AnswerPending ==> ({
                let pushed = spec_push(
                    old(self)@.addrs,
                    WebrtcAddr::SDP(SessionDescription { kind: SdpKind::Answer, sdp: sdp }),
                );
                &&& r matches Ok(wake) && wake == pushed.1
                &&& final(self)@ == (SocketModel {
                    state: SocketState::Negotiating,
                    addrs: pushed.0,
                    ..old(self)@
                })
            }),
            !(old(self)@.state is AnswerPending) ==> (r matches Err(e) && e
                == Error::ErrInvalidState && final(self)@ == old(self)@),
    {
        if matches!(self.state, SocketState::AnswerPending) {
            self.state = SocketState::Negotiating;
            let wake = self.addr_bridge.push(
                WebrtcAddr::SDP(SessionDescription { kind: SdpKind::Answer, sdp }),
            );
            proof {
                assert(final(self)@ =~= (SocketModel {
                    state: SocketState::Negotiating,
                    addrs: final(self)@.addrs,
                    ..old(self)@
                }));
            }
            Ok(wake)
        } else {
            proof {
                assert(final(self)@ =~= old(self)@);
            }
            Err(Error::ErrInvalidState)
        }
    }

    /// Checks the address handed to `connect` and says how the data channel
    /// must be opened: by the given label, pre-negotiated with the given
    /// fixed id on both peers.  Fails with `ErrAddrType` on any non-`Label`
    /// address; the socket itself is never mutated.
    pub fn connect_request(&self, label: WebrtcAddr, port: u16) -> (r: Result<ChannelConfig, Error>)
        ensures
            label matches WebrtcAddr::Label(name) ==> (r matches Ok(c) && c.label@ == name@ && c.id
                == port && c.negotiated == true),
            !(label is Label) ==> (r matches Err(e) && e == Error::ErrAddrType),
    {
        match label {
            WebrtcAddr::Label(name) => Ok(ChannelConfig { label: name, id: port, negotiated: true }),
            _ => Err(Error::ErrAddrType),
        }
    }

    /// The candidate-discovered callback: enqueues the candidate as an
    /// address event.  The returned wake handle, if any, must be invoked
    /// once.
    pub fn push_candidate(&mut self, candidate: Candidate) -> (wake: Option<W>)
        ensures
            ({
                let pushed = spec_push(old(self)@.addrs, WebrtcAddr::ICE(candidate));
                &&& wake == pushed.1
                &&& final(self)@ == (SocketModel { addrs: pushed.0, ..old(self)@ })
            }),
    {
        let wake = self.addr_bridge.set_addr(WebrtcAddr::ICE(candidate));
        proof {
            assert(final(self)@ =~= (SocketModel { addrs: final(self)@.addrs, ..old(self)@ }));
        }
        wake
    }

    /// The incoming-channel callback: enqueues the token of a channel the
    /// remote peer opened.  The returned wake handle, if any, must be
    /// invoked once.
    pub fn push_incoming_channel(&mut self, channel: ChannelId) -> (wake: Option<W>)
        ensures
            ({
                let pushed = spec_push(old(self)@.chans, channel);
                &&& wake == pushed.1
                &&& final(self)@ == (SocketModel { chans: pushed.0, ..old(self)@ })
            }),
    {
        let wake = self.chan_bridge.push(channel);
        proof {
            assert(final(self)@ =~= (SocketModel { chans: final(self)@.chans, ..old(self)@ }));
        }
        wake
    }

    /// One step of `fetch_local_addr`: yields the oldest pending address
    /// event (the offer or answer from `start`/`set_remote_addr`, or a
    /// discovered candidate), or registers `wake` and reports that nothing
    /// is available yet.  The caller drains this in a loop to relay every
    /// address to the remote peer.
    pub fn poll_fetch_local_addr(&mut self, wake: W) -> (r: Option<WebrtcAddr>)
        ensures
            ({
                let polled = spec_poll(old(self)@.addrs, wake);
                &&& r == polled.1
                &&& final(self)@ == (SocketModel { addrs: polled.0, ..old(self)@ })
            }),
    {
        let r = self.addr_bridge.poll(wake);
        proof {
            assert(final(self)@ =~= (SocketModel { addrs: final(self)@.addrs, ..old(self)@ }));
        }
        r
    }

    /// One step of `accept`: yields the token of the oldest channel the
    /// remote peer opened, or registers `wake` and reports that nothing is
    /// available yet.  It never blocks the calling context.
    pub fn poll_accept(&mut self, wake: W) -> (r: Option<ChannelId>)
        ensures
            ({
                let polled = spec_poll(old(self)@.chans, wake);
                &&& r == polled.1
                &&& final(self)@ == (SocketModel { chans: polled.0, ..old(self)@ })
            }),
    {
        let r = self.chan_bridge.poll(wake);
        proof {
            assert(final(self)@ =~= (SocketModel { chans: final(self)@.chans, ..old(self)@ }));
        }
        r
    }

    /// The engine reports that connectivity checks completed: a socket in
    /// `Negotiating` moves to `Connected`; in any other state this is a
    /// no-op.
    pub fn on_connected(&mut self)
        ensures
            old(self)@.state is Negotiating ==> final(self)@ == (SocketModel {
                state: SocketState::Connected,
                ..old(self)@
            }),
            !(old(self)@.state is Negotiating) ==> final(self)@ == old(self)@,
    {
        if matches!(self.state, SocketState::Negotiating) {
            self.state = SocketState::Connected;
            proof {
                assert(final(self)@ =~= (SocketModel {
                    state: SocketState::Connected,
                    ..old(self)@
                }));
            }
        } else {
            proof {
                assert(final(self)@ =~= old(self)@);
            }
        }
    }

    /// Tears the socket down; the caller must close the underlying peer
    /// connection.  Idempotent.
    pub fn close(&mut self)
        ensures
            final(self)@ == (SocketModel { state: SocketState::Closed, ..old(self)@ }),
    {
        self.state = SocketState::Closed;
        proof {
            assert(final(self)@ =~= (SocketModel { state: SocketState::Closed, ..old(self)@ }));
        }
    }
}

} // verus!
