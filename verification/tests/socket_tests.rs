use karma_p2p::addr::Candidate;
use karma_p2p::addr::CredentialType;
use karma_p2p::addr::IceServer;
use karma_p2p::addr::SdpKind;
use karma_p2p::addr::SessionDescription;
use karma_p2p::addr::WebrtcAddr;
use karma_p2p::error::Error;
use karma_p2p::socket::RemoteAction;
use karma_p2p::socket::SocketState;
use karma_p2p::socket::WebrtcSocket;

fn bound_socket() -> WebrtcSocket<u32> {
    WebrtcSocket::bind(WebrtcAddr::Bootstrap(Vec::new())).unwrap()
}

fn offer(sdp: &str) -> WebrtcAddr {
    WebrtcAddr::SDP(SessionDescription {
        kind: SdpKind::Offer,
        sdp: sdp.to_string(),
    })
}

#[test]
fn bind_accepts_bootstrap() {
    let servers = vec![IceServer {
        credential: String::new(),
        credential_type: CredentialType::Password,
        urls: vec!["stun:stun.example.org".to_string()],
        username: String::new(),
    }];
    let sock: WebrtcSocket<u32> = WebrtcSocket::bind(WebrtcAddr::Bootstrap(servers)).unwrap();
    assert_eq!(sock.state(), SocketState::Bound);
    assert_eq!(sock.ice_servers().len(), 1);
    assert_eq!(sock.ice_servers()[0].urls[0], "stun:stun.example.org");
}

#[test]
fn bind_rejects_non_bootstrap() {
    for addr in [
        offer("v=0"),
        WebrtcAddr::ICE(Candidate {
            candidate: String::new(),
        }),
        WebrtcAddr::Label("chan".to_string()),
    ] {
        match WebrtcSocket::<u32>::bind(addr) {
            Err(Error::ErrAddrType) => {}
            other => panic!("expected ErrAddrType, got {:?}", other.map(|_| ())),
        }
    }
}

#[test]
fn start_then_fetch_yields_one_offer_before_candidates() {
    let mut sock = bound_socket();
    sock.start_begin().unwrap();
    assert_eq!(sock.state(), SocketState::Offering);
    let wake = sock.start_complete("v=0 offer".to_string()).unwrap();
    assert_eq!(wake, None);
    assert_eq!(sock.state(), SocketState::LocalDescriptionReady);
    // a candidate discovered after the offer stays behind it in the queue
    sock.push_candidate(Candidate {
        candidate: "candidate:1".to_string(),
    });
    let first = sock.poll_fetch_local_addr(1).unwrap();
    assert_eq!(first, offer("v=0 offer"));
    let second = sock.poll_fetch_local_addr(2).unwrap();
    assert_eq!(
        second,
        WebrtcAddr::ICE(Candidate {
            candidate: "candidate:1".to_string()
        })
    );
    assert_eq!(sock.poll_fetch_local_addr(3), None);
}

#[test]
fn second_start_is_rejected() {
    let mut sock = bound_socket();
    sock.start_begin().unwrap();
    sock.start_complete("v=0".to_string()).unwrap();
    assert_eq!(sock.start_begin(), Err(Error::ErrInvalidState));
    assert_eq!(sock.state(), SocketState::LocalDescriptionReady);
}

#[test]
fn responder_answer_flows_back_through_fetch() {
    // the responder never calls start; the remote offer arrives first
    let mut sock = bound_socket();
    let action = sock.set_remote_begin(offer("their offer")).unwrap();
    match action {
        RemoteAction::CommitRemoteAndAnswer(desc) => {
            assert_eq!(desc.kind, SdpKind::Offer);
            assert_eq!(desc.sdp, "their offer");
        }
        other => panic!("expected CommitRemoteAndAnswer, got {:?}", other),
    }
    assert_eq!(sock.state(), SocketState::AnswerPending);
    // the engine produced the answer; it is enqueued for relaying back
    sock.answer_complete("our answer".to_string()).unwrap();
    assert_eq!(sock.state(), SocketState::Negotiating);
    let relayed = sock.poll_fetch_local_addr(1).unwrap();
    assert_eq!(
        relayed,
        WebrtcAddr::SDP(SessionDescription {
            kind: SdpKind::Answer,
            sdp: "our answer".to_string()
        })
    );
}

#[test]
fn initiator_commits_answer_without_generating_one() {
    let mut sock = bound_socket();
    sock.start_begin().unwrap();
    sock.start_complete("my offer".to_string()).unwrap();
    let answer = WebrtcAddr::SDP(SessionDescription {
        kind: SdpKind::Answer,
        sdp: "their answer".to_string(),
    });
    match sock.set_remote_begin(answer) {
        Ok(RemoteAction::CommitRemote(desc)) => assert_eq!(desc.sdp, "their answer"),
        other => panic!("expected CommitRemote, got {:?}", other),
    }
    assert_eq!(sock.state(), SocketState::Negotiating);
}

#[test]
fn set_remote_rejects_local_only_variants_without_mutation() {
    let mut sock = bound_socket();
    assert_eq!(
        sock.set_remote_begin(WebrtcAddr::Bootstrap(Vec::new())),
        Err(Error::ErrAddrType)
    );
    assert_eq!(
        sock.set_remote_begin(WebrtcAddr::Label("chan".to_string())),
        Err(Error::ErrAddrType)
    );
    assert_eq!(sock.state(), SocketState::Bound);
    assert_eq!(sock.poll_fetch_local_addr(1), None);
}

#[test]
fn candidates_are_accepted_in_any_open_state() {
    let mut sock = bound_socket();
    let candidate = Candidate {
        candidate: "candidate:9".to_string(),
    };
    match sock.set_remote_begin(WebrtcAddr::ICE(candidate.clone())) {
        Ok(RemoteAction::AddCandidate(c)) => assert_eq!(c, candidate),
        other => panic!("expected AddCandidate, got {:?}", other),
    }
    assert_eq!(sock.state(), SocketState::Bound);
    sock.close();
    assert_eq!(
        sock.set_remote_begin(WebrtcAddr::ICE(candidate)),
        Err(Error::ErrInvalidState)
    );
}

#[test]
fn connect_requires_label() {
    let sock = bound_socket();
    let config = sock
        .connect_request(WebrtcAddr::Label("data".to_string()), 7)
        .unwrap();
    assert_eq!(config.label, "data");
    assert_eq!(config.id, 7);
    assert!(config.negotiated);
    assert_eq!(
        sock.connect_request(offer("v=0"), 7),
        Err(Error::ErrAddrType)
    );
}

#[test]
fn accept_suspends_until_channel_event() {
    let mut sock = bound_socket();
    // nothing pending: the poll registers the wake handle
    assert_eq!(sock.poll_accept(41), None);
    // the remote peer opened a channel: the stored handle is handed out
    let wake = sock.push_incoming_channel(900);
    assert_eq!(wake, Some(41));
    // re-polling now yields the channel token
    assert_eq!(sock.poll_accept(42), Some(900));
    assert_eq!(sock.poll_accept(43), None);
}

#[test]
fn connectivity_completion_moves_negotiating_to_connected() {
    let mut sock = bound_socket();
    sock.start_begin().unwrap();
    sock.start_complete("offer".to_string()).unwrap();
    sock.set_remote_begin(WebrtcAddr::SDP(SessionDescription {
        kind: SdpKind::Answer,
        sdp: "answer".to_string(),
    }))
    .unwrap();
    sock.on_connected();
    assert_eq!(sock.state(), SocketState::Connected);
    // outside Negotiating the report is a no-op
    sock.close();
    sock.on_connected();
    assert_eq!(sock.state(), SocketState::Closed);
}

#[test]
fn error_messages_name_each_failure() {
    assert_eq!(Error::ErrAddrType.message(), "address kind mismatch");
    assert_eq!(Error::ErrChannelClosed.message(), "channel closed");
    assert_eq!(Error::ErrInvalidState.message(), "invalid signaling state");
    assert_eq!(
        Error::WebrtcError("boom".to_string()).message(),
        "engine error"
    );
}
