//! Messages and the classification of inbound payloads.
//!
//! The transport hands over inbound payloads in one of three shapes: an
//! addressable binary buffer, an opaque blob-like value whose bytes need
//! an asynchronous host read, or text. Classification routes each shape to
//! exactly one outcome; a shape outside the transport contract is a
//! reported classification error, never a panic.

use vstd::prelude::*;

verus! {

/// A websocket message that can be sent or received.
#[derive(Debug, Clone, PartialEq)]
pub enum Message {
    /// A text message.
    Text(String),
    /// A binary message.
    Binary(Vec<u8>),
}

/// An inbound payload as the host transport hands it over, reduced to the
/// shapes the classifier distinguishes. The bytes of a blob-like payload
/// are not here: they arrive only after the host finishes an asynchronous
/// read.
#[derive(Debug, Clone, PartialEq)]
pub enum RawPayload {
    /// An already-addressable binary buffer.
    Buffer(Vec<u8>),
    /// An opaque blob-like payload; its bytes need a host-mediated
    /// asynchronous read before they can become a message.
    Blob,
    /// A text payload.
    Text(String),
    /// A payload of a shape the transport contract does not name.
    Unrecognized,
}

/// The outcome of classifying one inbound payload.
#[derive(Debug, Clone, PartialEq)]
pub enum Classified {
    /// The payload maps directly to this message.
    Ready(Message),
    /// Blob-like: the host must materialize the bytes first.
    AwaitBytes,
    /// No recognized shape: a classification error to report.
    Malformed,
}

/// What classification makes of each payload shape: a buffer is a binary
/// message, text is a text message, a blob awaits its bytes, and anything
/// else is malformed.
pub open spec fn classify_spec(p: RawPayload) -> Classified {
    match p {
        RawPayload::Buffer(b) => Classified::Ready(Message::Binary(b)),
        RawPayload::Blob => Classified::AwaitBytes,
        RawPayload::Text(t) => Classified::Ready(Message::Text(t)),
        RawPayload::Unrecognized => Classified::Malformed,
    }
}

/// Classify one inbound payload into a message, a pending read, or a
/// classification error.
pub fn classify(p: RawPayload) -> (c: Classified)
    ensures
        c == classify_spec(p),
{
    match p {
        RawPayload::Buffer(b) => Classified::Ready(Message::Binary(b)),
        RawPayload::Blob => Classified::AwaitBytes,
        RawPayload::Text(t) => Classified::Ready(Message::Text(t)),
        RawPayload::Unrecognized => Classified::Malformed,
    }
}

/// The payload a cooperating echo transport hands back after receiving one
/// outbound message unchanged: text comes back as a text payload, binary
/// as an addressable buffer.
pub open spec fn echo_payload(m: Message) -> RawPayload {
    match m {
        Message::Text(t) => RawPayload::Text(t),
        Message::Binary(b) => RawPayload::Buffer(b),
    }
}

/// Round trip: a message echoed back by a cooperating transport classifies
/// to a message identical to the one sent — text to text with the same
/// characters, binary to binary with the same bytes.
pub proof fn lemma_echo_round_trip(m: Message)
    ensures
        classify_spec(echo_payload(m)) == Classified::Ready(m),
{
}

} // verus!
