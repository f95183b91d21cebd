//! The closed set of address variants exchanged during connection setup.
//!
//! `Bootstrap` and `Label` are local-only configuration and never cross the
//! wire; `SessionDescription` and `Candidate` are exactly the two variants
//! that serialize symmetrically (see the codec module).

use vstd::prelude::*;

verus! {

/// How an ICE server credential is to be interpreted.
#[derive(Debug, Clone, Copy, PartialEq, Eq, Structural)]
pub enum CredentialType {
    Password,
    Oauth,
}

/// One connectivity-server descriptor from the bootstrap list.
#[derive(Debug, Clone, PartialEq, Eq)]
pub struct IceServer {
    pub credential: String,
    pub credential_type: CredentialType,
    pub urls: Vec<String>,
    pub username: String,
}

/// Whether a session description proposes (offer) or accepts (answer)
/// a configuration.
#[derive(Debug, Clone, Copy, PartialEq, Eq, Structural)]
pub enum SdpKind {
    Offer,
    Answer,
}

/// An opaque signaling blob produced by the local engine or supplied by the
/// remote peer.
#[derive(Debug, Clone, PartialEq, Eq)]
pub struct SessionDescription {
    pub kind: SdpKind,
    pub sdp: String,
}

/// One discovered network path a peer might use to reach the other side,
/// exchanged incrementally (zero or more per connection attempt, occasionally
/// a terminal empty marker).
#[derive(Debug, Clone, PartialEq, Eq)]
pub struct Candidate {
    pub candidate: String,
}

/// An address exchanged while a connection is set up.
#[derive(Debug, Clone, PartialEq, Eq)]
pub enum WebrtcAddr {
    /// The ordered connectivity-server list handed to `bind`; local-only.
    Bootstrap(Vec<IceServer>),
    /// A session description flowing out of `start`/`set_remote_addr` or in
    /// from the remote peer.
    SDP(SessionDescription),
    /// An incremental connectivity candidate.
    ICE(Candidate),
    /// A caller-chosen channel identifier handed to `connect`; local-only.
    Label(String),
}

/// The two variants that cross the wire encoding.
pub open spec fn is_wire_addr(a: WebrtcAddr) -> bool {
    a is SDP || a is ICE
}

/// The mathematical value of a session description.
#[verifier::ext_equal]
pub ghost struct SessionDescriptionModel {
    pub kind: SdpKind,
    pub sdp: Seq<char>,
}

impl View for SessionDescription {
    type V = SessionDescriptionModel;

    open spec fn view(&self) -> SessionDescriptionModel {
        SessionDescriptionModel { kind: self.kind, sdp: self.sdp@ }
    }
}

/// The mathematical value of a candidate.
#[verifier::ext_equal]
pub ghost struct CandidateModel {
    pub candidate: Seq<char>,
}

impl View for Candidate {
    type V = CandidateModel;

    open spec fn view(&self) -> CandidateModel {
        CandidateModel { candidate: self.candidate@ }
    }
}

/// The mathematical value of an address.
#[verifier::ext_equal]
pub ghost enum AddrModel {
    Bootstrap(Seq<IceServer>),
    SDP(SessionDescriptionModel),
    ICE(CandidateModel),
    Label(Seq<char>),
}

impl View for WebrtcAddr {
    type V = AddrModel;

    open spec fn view(&self) -> AddrModel {
        match self {
            WebrtcAddr::Bootstrap(servers) => AddrModel::Bootstrap(servers@),
            WebrtcAddr::SDP(desc) => AddrModel::SDP(desc@),
            WebrtcAddr::ICE(candidate) => AddrModel::ICE(candidate@),
            WebrtcAddr::Label(name) => AddrModel::Label(name@),
        }
    }
}

/// The two model variants that cross the wire encoding.
pub open spec fn is_wire_model(a: AddrModel) -> bool {
    a is SDP || a is ICE
}

} // verus!
