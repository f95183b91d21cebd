use karma_p2p::addr::Candidate;
use karma_p2p::addr::SdpKind;
use karma_p2p::addr::SessionDescription;
use karma_p2p::addr::WebrtcAddr;
use karma_p2p::codec::decode_addr;
use karma_p2p::codec::encode_addr;

fn offer(sdp: &str) -> WebrtcAddr {
    WebrtcAddr::SDP(SessionDescription {
        kind: SdpKind::Offer,
        sdp: sdp.to_string(),
    })
}

fn answer(sdp: &str) -> WebrtcAddr {
    WebrtcAddr::SDP(SessionDescription {
        kind: SdpKind::Answer,
        sdp: sdp.to_string(),
    })
}

fn ice(candidate: &str) -> WebrtcAddr {
    WebrtcAddr::ICE(Candidate {
        candidate: candidate.to_string(),
    })
}

#[test]
fn encode_offer_exact() {
    assert_eq!(encode_addr(&offer("v=0")).unwrap(), "So3:v=0");
}

#[test]
fn encode_answer_exact() {
    assert_eq!(encode_addr(&answer("")).unwrap(), "Sa0:");
}

#[test]
fn encode_candidate_exact() {
    assert_eq!(
        encode_addr(&ice("candidate:0 1 UDP 2122 192.0.2.1 54400 typ host")).unwrap(),
        "C47:candidate:0 1 UDP 2122 192.0.2.1 54400 typ host"
    );
}

#[test]
fn local_only_variants_do_not_encode() {
    assert_eq!(encode_addr(&WebrtcAddr::Bootstrap(Vec::new())), None);
    assert_eq!(encode_addr(&WebrtcAddr::Label("chan".to_string())), None);
}

#[test]
fn round_trip_offer() {
    let a = offer("v=0\r\no=- 4611731400430051336 2 IN IP4 127.0.0.1\r\n");
    let wire = encode_addr(&a).unwrap();
    assert_eq!(decode_addr(&wire), Some(a));
}

#[test]
fn round_trip_answer() {
    let a = answer("v=0\r\ns=-\r\n");
    let wire = encode_addr(&a).unwrap();
    assert_eq!(decode_addr(&wire), Some(a));
}

#[test]
fn round_trip_candidate() {
    let a = ice("candidate:842163049 1 udp 1677729535 192.0.2.7 40517 typ srflx");
    let wire = encode_addr(&a).unwrap();
    assert_eq!(decode_addr(&wire), Some(a));
}

#[test]
fn round_trip_empty_candidate_marker() {
    // the terminal empty marker some engines emit at the end of gathering
    let a = ice("");
    let wire = encode_addr(&a).unwrap();
    assert_eq!(wire, "C0:");
    assert_eq!(decode_addr(&wire), Some(a));
}

#[test]
fn round_trip_non_ascii_body() {
    let a = offer("λ≠🦀");
    let wire = encode_addr(&a).unwrap();
    assert_eq!(wire, "So3:λ≠🦀");
    assert_eq!(decode_addr(&wire), Some(a));
}

#[test]
fn decode_rejects_malformed_input() {
    for s in [
        "",
        "S",
        "So",
        "So:",
        "Sx3:abc",
        "so3:abc",
        "X3:abc",
        "C",
        "C:",
        "Cabc",
        "C3abc",
    ] {
        assert_eq!(decode_addr(s), None, "accepted {:?}", s);
    }
}

#[test]
fn decode_rejects_wrong_lengths() {
    // body shorter than the prefix claims
    assert_eq!(decode_addr("So5:abc"), None);
    assert_eq!(decode_addr("C10:short"), None);
    // trailing characters past the claimed body
    assert_eq!(decode_addr("So3:abcd"), None);
    assert_eq!(decode_addr("C1:ab"), None);
}

#[test]
fn decode_rejects_non_canonical_length() {
    assert_eq!(decode_addr("So03:abc"), None);
    assert_eq!(decode_addr("C00:"), None);
}

#[test]
fn decode_rejects_huge_length() {
    assert_eq!(decode_addr("C18446744073709551616:x"), None);
    assert_eq!(decode_addr("C99999999999999999999999999:x"), None);
}

#[test]
fn decoded_strings_reencode_to_themselves() {
    for s in ["So3:abc", "Sa0:", "C4:abcd", "C0:", "So11:hello world"] {
        let addr = decode_addr(s).expect(s);
        assert_eq!(encode_addr(&addr).unwrap(), s);
    }
}
