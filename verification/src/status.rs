//! The connection lifecycle state machine.
//!
//! A client's status starts at `Connecting` when the client is built and
//! moves only in response to transport notifications: to `Connected` on an
//! open, to `Error` on a transport error, and to `Disconnected` on a close
//! that no error preceded. Leaving `Connecting` is final for the attempt,
//! and `Error` and `Disconnected` are terminal: only constructing a new
//! client yields a fresh `Connecting` status.

use vstd::prelude::*;

verus! {

/// The lifecycle status of one transport connection attempt.
#[derive(Debug, Clone, Copy, PartialEq, Eq, Structural)]
pub enum ConnectionStatus {
    /// Connecting to a server.
    Connecting,
    /// Connected to a server.
    Connected,
    /// Disconnected from a server due to an error.
    Error,
    /// Disconnected from a server without an error.
    Disconnected,
}

/// The four notification kinds the transport can deliver.
#[derive(Debug, Clone, Copy, PartialEq, Eq, Structural)]
pub enum EventKind {
    /// The remote peer accepted the connection.
    Opened,
    /// The transport reported an error.
    Errored,
    /// The connection closed.
    Closed,
    /// An inbound message arrived.
    MessageArrived,
}

/// The status of a freshly constructed client, before any notification
/// has been processed.
pub open spec fn initial_status() -> ConnectionStatus {
    ConnectionStatus::Connecting
}

/// How one transport notification moves the status. An open connects only
/// a connecting client; an error ends a live attempt; a close ends a live
/// attempt unless an error already did, in which case the error stands;
/// message arrival never touches the status.
pub open spec fn status_after(s: ConnectionStatus, k: EventKind) -> ConnectionStatus {
    match k {
        EventKind::Opened => if s is Connecting {
            ConnectionStatus::Connected
        } else {
            s
        },
        EventKind::Errored => if s is Connecting || s is Connected {
            ConnectionStatus::Error
        } else {
            s
        },
        EventKind::Closed => if s is Connecting || s is Connected {
            ConnectionStatus::Disconnected
        } else {
            s
        },
        EventKind::MessageArrived => s,
    }
}

/// Apply one transport notification to a status value.
pub fn apply_event(s: ConnectionStatus, k: EventKind) -> (r: ConnectionStatus)
    ensures
        r == status_after(s, k),
{
    match k {
        EventKind::Opened => match s {
            ConnectionStatus::Connecting => ConnectionStatus::Connected,
            _ => s,
        },
        EventKind::Errored => match s {
            ConnectionStatus::Connecting | ConnectionStatus::Connected => ConnectionStatus::Error,
            _ => s,
        },
        EventKind::Closed => match s {
            ConnectionStatus::Connecting | ConnectionStatus::Connected => ConnectionStatus::Disconnected,
            _ => s,
        },
        EventKind::MessageArrived => s,
    }
}

/// The status after a whole history of notifications, processed oldest
/// first, starting from a freshly constructed client.
pub open spec fn status_of_history(ks: Seq<EventKind>) -> ConnectionStatus
    decreases ks.len(),
{
    if ks.len() == 0 {
        initial_status()
    } else {
        status_after(status_of_history(ks.drop_last()), ks.last())
    }
}

/// Over any history of notifications: the status is still `Connecting`
/// exactly as long as nothing but message arrivals has been processed.
/// Once any open, error or close has been seen, no later notification sets
/// the status back to `Connecting` — only a new construction does.
pub proof fn lemma_connecting_only_when_fresh(ks: Seq<EventKind>)
    ensures
        status_of_history(ks) is Connecting <==> (forall|i: int|
            0 <= i < ks.len() ==> ks[i] is MessageArrived),
    decreases ks.len(),
{
    if ks.len() > 0 {
        lemma_connecting_only_when_fresh(ks.drop_last());
        assert forall|i: int| 0 <= i < ks.len() - 1 implies ks.drop_last()[i] == ks[i] by {
            assert(ks.drop_last()[i] == ks[i]);
        }
    }
}

/// Once a client has left `Connecting`, no notification brings it back:
/// a fresh `Connecting` status exists only on a freshly constructed client.
pub proof fn lemma_connecting_never_reentered(s: ConnectionStatus, k: EventKind)
    requires
        s !is Connecting,
    ensures
        status_after(s, k) !is Connecting,
{
}

/// Once the status has reached `Error`, a subsequent close notification
/// does not change it: the prior error takes precedence over the close.
pub proof fn lemma_error_survives_close()
    ensures
        status_after(ConnectionStatus::Error, EventKind::Closed) == ConnectionStatus::Error,
{
}

/// `Error` and `Disconnected` are terminal: no further notification moves
/// the status without a new connection attempt.
pub proof fn lemma_settled_status_is_stable(s: ConnectionStatus, k: EventKind)
    requires
        s is Error || s is Disconnected,
    ensures
        status_after(s, k) == s,
{
}

} // verus!
