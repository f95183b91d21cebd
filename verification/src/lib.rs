//! A backend-agnostic abstraction for 1:1 peer-to-peer transport connections
//! established via out-of-band signaling (offer/answer session descriptions
//! plus incremental connectivity candidates) and carried over a
//! message-oriented data channel.
//!
//! The core is the cooperative polling model: externally triggered events
//! (a discovered candidate, an inbound message, an accepted channel) are
//! buffered in an [`bridge::EventBridge`] and surfaced to a polling caller
//! with single-shot wake-up semantics.  On top of it sit the signaling state
//! machine of [`socket::WebrtcSocket`], the byte-stream projection of
//! [`stream::WebrtcStream`], and the wire codec for the two address variants
//! that cross the signaling channel.

pub mod addr;
pub mod bridge;
pub mod codec;
pub mod error;
pub mod socket;
pub mod stream;
