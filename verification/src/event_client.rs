//! The event-driven client core.
//!
//! The core keeps the connection status, the four registrable handler
//! slots, and decides for every transport notification how the status
//! moves and which handler must be invoked with what. The host glue owns
//! the transport primitive: it feeds each notification into the matching
//! `handle_*` method and performs the decision that comes back — invoking
//! the slotted handler, starting an asynchronous blob read, or nothing.
//! Handler slots hold whatever callable the host side uses; the core never
//! invokes one itself, it only says when one must run.

use vstd::prelude::*;
use vstd::string::StringExecFns;
use crate::message::{classify, classify_spec, Classified, Message, RawPayload};
use crate::status::{apply_event, initial_status, status_after, ConnectionStatus, EventKind};

verus! {

/// The error a constructor returns when the host cannot create the
/// transport primitive; it carries the host's detail. Construction never
/// panics, and a successful construction does not mean the remote peer
/// accepted the connection — that is signaled later through the
/// `on_connection` or `on_error` slot.
#[derive(Debug, Clone, PartialEq)]
pub enum WebSocketError {
    /// The transport primitive could not be constructed.
    ConnectionCreationError(String),
}

impl WebSocketError {
    /// A readable description of the error.
    pub fn describe(&self) -> (r: String)
        ensures
            (match self {
                WebSocketError::ConnectionCreationError(d) => r@ == "Failed to create websocket connection: "@
                    + d@,
            }),
    {
        match self {
            WebSocketError::ConnectionCreationError(d) => String::from_str(
                "Failed to create websocket connection: ",
            ).concat(d.as_str()),
        }
    }
}

/// The error a send returns when the transport is not in a sendable state.
/// The connection is left as it was: a caller may retry once the status
/// reports `Connected`.
#[derive(Debug, Clone, PartialEq)]
pub enum SendError {
    /// No open notification has been processed yet, or the connection is
    /// already down.
    NotConnected,
}

/// What the host glue must do after one inbound message notification.
#[derive(Debug, Clone, PartialEq)]
pub enum MessageDirective {
    /// The message handler is registered: invoke it with this message.
    Deliver(Message),
    /// The payload is blob-like: ask the host to materialize its bytes and
    /// hand them back through `handle_blob_bytes`.
    BeginRead,
    /// The payload shape is unrecognized and the error handler is
    /// registered: report the classification error to it.
    ReportMalformed,
    /// Nothing to invoke: the handler the outcome would go to is not
    /// registered.
    Silent,
}

/// The event client core: the connection status and the four handler
/// slots, one per notification kind, each independently settable and
/// clearable.
pub struct EventClient<FE, FC, FM, FK> {
    /// The URL this client is connected to.
    pub url: String,
    /// The current connection status.
    pub status: ConnectionStatus,
    /// The handler slot for transport error notifications.
    pub on_error: Option<FE>,
    /// The handler slot for the open notification.
    pub on_connection: Option<FC>,
    /// The handler slot for classified inbound messages.
    pub on_message: Option<FM>,
    /// The handler slot for the close notification.
    pub on_close: Option<FK>,
}

/// The parts of a client no notification may touch: the URL and all four
/// handler slots. Only `set_on_*` changes a slot.
pub open spec fn slots_unchanged<FE, FC, FM, FK>(
    pre: EventClient<FE, FC, FM, FK>,
    post: EventClient<FE, FC, FM, FK>,
) -> bool {
    &&& post.url == pre.url
    &&& post.on_error == pre.on_error
    &&& post.on_connection == pre.on_connection
    &&& post.on_message == pre.on_message
    &&& post.on_close == pre.on_close
}

/// One registration on the error slot: the slot holds exactly `f`
/// afterwards and nothing else moved.
pub open spec fn sets_on_error<FE, FC, FM, FK>(
    pre: EventClient<FE, FC, FM, FK>,
    post: EventClient<FE, FC, FM, FK>,
    f: Option<FE>,
) -> bool {
    &&& post.on_error == f
    &&& post.url == pre.url
    &&& post.status == pre.status
    &&& post.on_connection == pre.on_connection
    &&& post.on_message == pre.on_message
    &&& post.on_close == pre.on_close
}

/// One registration on the connection slot.
pub open spec fn sets_on_connection<FE, FC, FM, FK>(
    pre: EventClient<FE, FC, FM, FK>,
    post: EventClient<FE, FC, FM, FK>,
    f: Option<FC>,
) -> bool {
    &&& post.on_connection == f
    &&& post.url == pre.url
    &&& post.status == pre.status
    &&& post.on_error == pre.on_error
    &&& post.on_message == pre.on_message
    &&& post.on_close == pre.on_close
}

/// One registration on the message slot.
pub open spec fn sets_on_message<FE, FC, FM, FK>(
    pre: EventClient<FE, FC, FM, FK>,
    post: EventClient<FE, FC, FM, FK>,
    f: Option<FM>,
) -> bool {
    &&& post.on_message == f
    &&& post.url == pre.url
    &&& post.status == pre.status
    &&& post.on_error == pre.on_error
    &&& post.on_connection == pre.on_connection
    &&& post.on_close == pre.on_close
}

/// One registration on the close slot.
pub open spec fn sets_on_close<FE, FC, FM, FK>(
    pre: EventClient<FE, FC, FM, FK>,
    post: EventClient<FE, FC, FM, FK>,
    f: Option<FK>,
) -> bool {
    &&& post.on_close == f
    &&& post.url == pre.url
    &&& post.status == pre.status
    &&& post.on_error == pre.on_error
    &&& post.on_connection == pre.on_connection
    &&& post.on_message == pre.on_message
}

/// Whether the open notification invokes a handler: exactly when the
/// connection slot is occupied at that moment.
pub open spec fn open_dispatch<FE, FC, FM, FK>(c: EventClient<FE, FC, FM, FK>) -> bool {
    c.on_connection is Some
}

/// Whether a transport error notification invokes a handler.
pub open spec fn error_dispatch<FE, FC, FM, FK>(c: EventClient<FE, FC, FM, FK>) -> bool {
    c.on_error is Some
}

/// Whether the close notification invokes a handler.
pub open spec fn close_dispatch<FE, FC, FM, FK>(c: EventClient<FE, FC, FM, FK>) -> bool {
    c.on_close is Some
}

/// The dispatch decision for one inbound message notification: a payload
/// classified to a message is delivered to the message handler if one is
/// registered; a blob starts an asynchronous read; a malformed payload is
/// reported to the error handler if one is registered; otherwise nothing
/// is invoked.
pub open spec fn message_dispatch<FE, FC, FM, FK>(
    c: EventClient<FE, FC, FM, FK>,
    p: RawPayload,
) -> MessageDirective {
    match classify_spec(p) {
        Classified::Ready(m) => if c.on_message is Some {
            MessageDirective::Deliver(m)
        } else {
            MessageDirective::Silent
        },
        Classified::AwaitBytes => MessageDirective::BeginRead,
        Classified::Malformed => if c.on_error is Some {
            MessageDirective::ReportMalformed
        } else {
            MessageDirective::Silent
        },
    }
}

/// The dispatch decision when an asynchronous blob read completes: the
/// bytes form a binary message for the message handler registered at that
/// moment, or nothing if the slot is empty.
pub open spec fn blob_dispatch<FE, FC, FM, FK>(
    c: EventClient<FE, FC, FM, FK>,
    bytes: Vec<u8>,
) -> MessageDirective {
    if c.on_message is Some {
        MessageDirective::Deliver(Message::Binary(bytes))
    } else {
        MessageDirective::Silent
    }
}

/// Gate one outbound text send on the current status: exactly when the
/// status is `Connected`, the frame to hand to the transport holds the
/// text unmodified; otherwise the send fails and nothing is altered.
pub fn outbound_text(status: ConnectionStatus, message: &str) -> (r: Result<Message, SendError>)
    ensures
        status is Connected ==> (r matches Ok(m) && (m matches Message::Text(t) && t@
            == message@)),
        status !is Connected ==> r == Result::<Message, SendError>::Err(SendError::NotConnected),
{
    match status {
        ConnectionStatus::Connected => Ok(Message::Text(String::from_str(message))),
        _ => Err(SendError::NotConnected),
    }
}

/// Gate one outbound binary send on the current status: exactly when the
/// status is `Connected`, the frame holds the bytes unmodified; otherwise
/// the send fails and nothing is altered.
pub fn outbound_binary(status: ConnectionStatus, message: Vec<u8>) -> (r: Result<
    Message,
    SendError,
>)
    ensures
        status is Connected ==> r == Result::<Message, SendError>::Ok(Message::Binary(message)),
        status !is Connected ==> r == Result::<Message, SendError>::Err(SendError::NotConnected),
{
    match status {
        ConnectionStatus::Connected => Ok(Message::Binary(message)),
        _ => Err(SendError::NotConnected),
    }
}

impl<FE, FC, FM, FK> EventClient<FE, FC, FM, FK> {
    /// Create a client core for `url`, given the outcome of the host's
    /// attempt to construct the transport primitive. Succeeds exactly when
    /// the transport was constructed, with the status at `Connecting` and
    /// every handler slot empty; fails with the host's detail otherwise.
    pub fn new(url: &str, transport: Result<(), String>) -> (r: Result<Self, WebSocketError>)
        ensures
            transport is Ok <==> r is Ok,
            (r matches Ok(c) ==> {
                &&& c.url@ == url@
                &&& c.status == initial_status()
                &&& c.on_error is None
                &&& c.on_connection is None
                &&& c.on_message is None
                &&& c.on_close is None
            }),
            (r matches Err(e) ==> (transport matches Err(d) && e
                == WebSocketError::ConnectionCreationError(d))),
    {
        match transport {
            Ok(()) => Ok(
                EventClient {
                    url: String::from_str(url),
                    status: ConnectionStatus::Connecting,
                    on_error: None,
                    on_connection: None,
                    on_message: None,
                    on_close: None,
                },
            ),
            Err(d) => Err(WebSocketError::ConnectionCreationError(d)),
        }
    }

    /// Replace the error handler slot. `None` disables dispatch for that
    /// kind; a new handler overwrites, never composes with, the old one.
    pub fn set_on_error(&mut self, f: Option<FE>)
        ensures
            sets_on_error(*old(self), *final(self), f),
    {
        self.on_error = f;
    }

    /// Replace the connection handler slot. `None` disables dispatch for
    /// that kind; a new handler overwrites, never composes with, the old
    /// one.
    pub fn set_on_connection(&mut self, f: Option<FC>)
        ensures
            sets_on_connection(*old(self), *final(self), f),
    {
        self.on_connection = f;
    }

    /// Replace the message handler slot. `None` disables dispatch for that
    /// kind; a new handler overwrites, never composes with, the old one.
    pub fn set_on_message(&mut self, f: Option<FM>)
        ensures
            sets_on_message(*old(self), *final(self), f),
    {
        self.on_message = f;
    }

    /// Replace the close handler slot. `None` disables dispatch for that
    /// kind; a new handler overwrites, never composes with, the old one.
    pub fn set_on_close(&mut self, f: Option<FK>)
        ensures
            sets_on_close(*old(self), *final(self), f),
    {
        self.on_close = f;
    }

    /// Process the transport's open notification: the status moves as the
    /// state machine says, the slots stay put, and the result says whether
    /// the connection handler registered at this moment must be invoked.
    pub fn handle_open(&mut self) -> (invoke: bool)
        ensures
            final(self).status == status_after(old(self).status, EventKind::Opened),
            slots_unchanged(*old(self), *final(self)),
            invoke == open_dispatch(*old(self)),
    {
        self.status = apply_event(self.status, EventKind::Opened);
        self.on_connection.is_some()
    }

    /// Process a transport error notification: the status moves to
    /// `Error` from a live attempt, the slots stay put, and the result
    /// says whether the error handler must be invoked with the detail.
    /// The status records only the fact of the error; the detail goes to
    /// the handler and is not kept.
    pub fn handle_error(&mut self) -> (invoke: bool)
        ensures
            final(self).status == status_after(old(self).status, EventKind::Errored),
            slots_unchanged(*old(self), *final(self)),
            invoke == error_dispatch(*old(self)),
    {
        self.status = apply_event(self.status, EventKind::Errored);
        self.on_error.is_some()
    }

    /// Process the transport's close notification: the status moves to
    /// `Disconnected` unless an error already ended the attempt, the slots
    /// stay put, and the result says whether the close handler must be
    /// invoked.
    pub fn handle_close(&mut self) -> (invoke: bool)
        ensures
            final(self).status == status_after(old(self).status, EventKind::Closed),
            slots_unchanged(*old(self), *final(self)),
            invoke == close_dispatch(*old(self)),
    {
        self.status = apply_event(self.status, EventKind::Closed);
        self.on_close.is_some()
    }

    /// Process one inbound message notification: classify the payload and
    /// decide the dispatch. Neither the status nor any slot moves; an
    /// unrecognized shape becomes a reported classification error, never a
    /// panic.
    pub fn handle_message(&self, payload: RawPayload) -> (d: MessageDirective)
        ensures
            d == message_dispatch(*self, payload),
    {
        match classify(payload) {
            Classified::Ready(m) => if self.on_message.is_some() {
                MessageDirective::Deliver(m)
            } else {
                MessageDirective::Silent
            },
            Classified::AwaitBytes => MessageDirective::BeginRead,
            Classified::Malformed => if self.on_error.is_some() {
                MessageDirective::ReportMalformed
            } else {
                MessageDirective::Silent
            },
        }
    }

    /// Process the completion of an asynchronous blob read: the bytes form
    /// a binary message for the message handler registered at this moment,
    /// if any.
    pub fn handle_blob_bytes(&self, bytes: Vec<u8>) -> (d: MessageDirective)
        ensures
            d == blob_dispatch(*self, bytes),
    {
        if self.on_message.is_some() {
            MessageDirective::Deliver(Message::Binary(bytes))
        } else {
            MessageDirective::Silent
        }
    }

    /// Build the text frame one send forwards unmodified to the transport,
    /// or fail when the status is not `Connected`. Nothing is altered
    /// either way.
    pub fn send_string(&self, message: &str) -> (r: Result<Message, SendError>)
        ensures
            self.status is Connected ==> (r matches Ok(m) && (m matches Message::Text(t) && t@
                == message@)),
            self.status !is Connected ==> r == Result::<Message, SendError>::Err(
                SendError::NotConnected,
            ),
    {
        outbound_text(self.status, message)
    }

    /// Build the binary frame one send forwards unmodified to the
    /// transport, or fail when the status is not `Connected`. Nothing is
    /// altered either way.
    pub fn send_binary(&self, message: Vec<u8>) -> (r: Result<Message, SendError>)
        ensures
            self.status is Connected ==> r == Result::<Message, SendError>::Ok(
                Message::Binary(message),
            ),
            self.status !is Connected ==> r == Result::<Message, SendError>::Err(
                SendError::NotConnected,
            ),
    {
        outbound_binary(self.status, message)
    }
}

/// A handler slot cleared to `None` is never chosen for dispatch again:
/// with the slot empty, no notification of that kind invokes anything —
/// and since notifications never refill a slot (`slots_unchanged` in every
/// `handle_*` contract), this holds for every later event of that kind
/// until a new registration.
pub proof fn lemma_cleared_handler_stays_silent<FE, FC, FM, FK>(
    c: EventClient<FE, FC, FM, FK>,
    p: RawPayload,
    bytes: Vec<u8>,
)
    ensures
        c.on_message is None ==> !(message_dispatch(c, p) is Deliver) && !(blob_dispatch(c, bytes)
            is Deliver),
        c.on_error is None ==> !error_dispatch(c) && !(message_dispatch(c, p) is ReportMalformed),
        c.on_connection is None ==> !open_dispatch(c),
        c.on_close is None ==> !close_dispatch(c),
{
}

/// Re-registering a handler overwrites, never composes with, the previous
/// one: after two successive registrations on the message slot, the slot
/// holds exactly the latest value, whatever was set first, and the pair of
/// registrations amounts to the latest one alone.
pub proof fn lemma_reregistration_overwrites<FE, FC, FM, FK>(
    c0: EventClient<FE, FC, FM, FK>,
    c1: EventClient<FE, FC, FM, FK>,
    c2: EventClient<FE, FC, FM, FK>,
    f1: Option<FM>,
    f2: Option<FM>,
)
    requires
        sets_on_message(c0, c1, f1),
        sets_on_message(c1, c2, f2),
    ensures
        c2.on_message == f2,
        sets_on_message(c0, c2, f2),
{
}

} // verus!
