//! A client-side core for a persistent, message-oriented socket connection.
//!
//! Two access models are offered over the same connection. The event model
//! ([`EventClient`]) keeps the connection status, the four registrable
//! handler slots, and the dispatch decision for every transport
//! notification. The polling model ([`PollingClient`]) buffers inbound
//! messages and hands them out on a fixed-interval `receive` loop instead
//! of pushing them through callbacks.
//!
//! The transport primitive itself — opening the socket, sending frames,
//! delivering notifications — belongs to the host; this crate decides what
//! each notification means: how the status moves, which handler must be
//! invoked with what, and what frame a send hands to the transport.

pub mod event_client;
pub mod message;
pub mod polling;
pub mod status;

pub use crate::event_client::{EventClient, MessageDirective, SendError, WebSocketError};
pub use crate::message::{Classified, Message, RawPayload};
pub use crate::polling::PollingClient;
pub use crate::status::{ConnectionStatus, EventKind};
