//! The polling client core: a pull-based adapter over the event model.
//!
//! Instead of pushing each inbound message through a callback, the polling
//! client records the transport's notifications itself — its `note_*` and
//! `buffer_message` methods are the internal sinks the host glue installs
//! as the event client's handlers — and hands the accumulated messages out
//! on the next `receive` call, oldest first. The wired event client, with
//! its raw handler slots, lives beside the host glue as a lower-level
//! escape hatch; writing to its slots directly bypasses this bookkeeping.

use vstd::prelude::*;
use vstd::string::StringExecFns;
use crate::event_client::{outbound_binary, outbound_text, SendError, WebSocketError};
use crate::message::Message;
use crate::status::{apply_event, initial_status, status_after, ConnectionStatus, EventKind};

verus! {

/// The polling client core: the connection status as its sinks recorded it
/// and the buffer of messages not yet handed out. The buffer is mutated
/// only by `buffer_message` and drained only by `receive`.
pub struct PollingClient {
    /// The URL this client is connected to.
    pub url: String,
    /// The current connection status.
    pub status: ConnectionStatus,
    data: Vec<Message>,
}

/// The mathematical model of a polling client: the URL, the recorded
/// status, and the buffered messages, oldest first.
pub struct PollingView {
    /// The characters of the URL.
    pub url: Seq<char>,
    /// The recorded connection status.
    pub status: ConnectionStatus,
    /// What the buffer holds, oldest first.
    pub buffered: Seq<Message>,
}

impl View for PollingClient {
    type V = PollingView;

    closed spec fn view(&self) -> PollingView {
        PollingView { url: self.url@, status: self.status, buffered: self.data@ }
    }
}

/// One status notification recorded: the status moves as the state machine
/// says and the buffer is untouched.
pub open spec fn records_event(pre: PollingView, post: PollingView, k: EventKind) -> bool {
    &&& post.status == status_after(pre.status, k)
    &&& post.buffered == pre.buffered
    &&& post.url == pre.url
}

/// One inbound message buffered: appended at the end, status untouched.
pub open spec fn buffers(pre: PollingView, post: PollingView, m: Message) -> bool {
    &&& post.buffered == pre.buffered.push(m)
    &&& post.status == pre.status
    &&& post.url == pre.url
}

/// One drain: everything buffered comes out, oldest first, the buffer is
/// left empty, and nothing else moves.
pub open spec fn drains(pre: PollingView, post: PollingView, out: Seq<Message>) -> bool {
    &&& out == pre.buffered
    &&& post.buffered == Seq::<Message>::empty()
    &&& post.status == pre.status
    &&& post.url == pre.url
}

/// The messages `ms` buffered one after another, in order, between `pre`
/// and `post`, with no drain in between.
pub open spec fn buffers_all(pre: PollingView, post: PollingView, ms: Seq<Message>) -> bool
    decreases ms.len(),
{
    if ms.len() == 0 {
        post == pre
    } else {
        exists|mid: PollingView|
            buffers_all(pre, mid, ms.drop_last()) && #[trigger] buffers(mid, post, ms.last())
    }
}

impl PollingClient {
    /// Create a polling client for `url`, given the outcome of the host's
    /// attempt to construct the transport primitive. Succeeds exactly when
    /// the transport was constructed, with the status at `Connecting` and
    /// the buffer empty; fails with the host's detail otherwise.
    pub fn new(url: &str, transport: Result<(), String>) -> (r: Result<Self, WebSocketError>)
        ensures
            transport is Ok <==> r is Ok,
            (r matches Ok(c) ==> {
                &&& c@.url == url@
                &&& c@.status == initial_status()
                &&& c@.buffered == Seq::<Message>::empty()
            }),
            (r matches Err(e) ==> (transport matches Err(d) && e
                == WebSocketError::ConnectionCreationError(d))),
    {
        match transport {
            Ok(()) => Ok(
                PollingClient {
                    url: String::from_str(url),
                    status: ConnectionStatus::Connecting,
                    data: Vec::new(),
                },
            ),
            Err(d) => Err(WebSocketError::ConnectionCreationError(d)),
        }
    }

    /// Internal sink for the transport's open notification.
    pub fn note_open(&mut self)
        ensures
            records_event(old(self)@, final(self)@, EventKind::Opened),
    {
        self.status = apply_event(self.status, EventKind::Opened);
    }

    /// Internal sink for a transport error notification.
    pub fn note_error(&mut self)
        ensures
            records_event(old(self)@, final(self)@, EventKind::Errored),
    {
        self.status = apply_event(self.status, EventKind::Errored);
    }

    /// Internal sink for the transport's close notification. A close that
    /// follows an error leaves the recorded `Error` standing.
    pub fn note_close(&mut self)
        ensures
            records_event(old(self)@, final(self)@, EventKind::Closed),
    {
        self.status = apply_event(self.status, EventKind::Closed);
    }

    /// Internal sink for one classified inbound message: append it to the
    /// buffer, behind everything already waiting.
    pub fn buffer_message(&mut self, m: Message)
        ensures
            buffers(old(self)@, final(self)@, m),
    {
        self.data.push(m);
    }

    /// Hand out every message received since the previous call (or since
    /// construction), oldest first, and leave the buffer empty. With
    /// nothing pending the result is empty — never an error.
    pub fn receive(&mut self) -> (out: Vec<Message>)
        ensures
            drains(old(self)@, final(self)@, out@),
    {
        let mut out: Vec<Message> = Vec::new();
        core::mem::swap(&mut out, &mut self.data);
        out
    }

    /// The current connection status, by value: a snapshot, not a live
    /// reference.
    pub fn status(&self) -> (s: ConnectionStatus)
        ensures
            s == self@.status,
    {
        self.status
    }

    /// Build the text frame one send forwards unmodified to the transport,
    /// or fail when the status is not `Connected` — the same gate the
    /// event client applies. Nothing is altered either way.
    pub fn send_string(&self, message: &str) -> (r: Result<Message, SendError>)
        ensures
            self@.status is Connected ==> (r matches Ok(m) && (m matches Message::Text(t) && t@
                == message@)),
            self@.status !is Connected ==> r == Result::<Message, SendError>::Err(
                SendError::NotConnected,
            ),
    {
        outbound_text(self.status, message)
    }

    /// Build the binary frame one send forwards unmodified to the
    /// transport, or fail when the status is not `Connected`. Nothing is
    /// altered either way.
    pub fn send_binary(&self, message: Vec<u8>) -> (r: Result<Message, SendError>)
        ensures
            self@.status is Connected ==> r == Result::<Message, SendError>::Ok(
                Message::Binary(message),
            ),
            self@.status !is Connected ==> r == Result::<Message, SendError>::Err(
                SendError::NotConnected,
            ),
    {
        outbound_binary(self.status, message)
    }
}

/// Two drains in succession with nothing buffered in between: the second
/// one returns the empty sequence — `receive` is idempotent on an
/// undisturbed client.
pub proof fn lemma_receive_twice_empty(
    c0: PollingView,
    c1: PollingView,
    c2: PollingView,
    out1: Seq<Message>,
    out2: Seq<Message>,
)
    requires
        drains(c0, c1, out1),
        drains(c1, c2, out2),
    ensures
        out2 == Seq::<Message>::empty(),
{
}

/// Buffering appends: after `ms` is buffered in order, the buffer holds
/// what it held before followed by `ms`, and the status never moved.
pub proof fn lemma_buffers_all_appends(pre: PollingView, post: PollingView, ms: Seq<Message>)
    requires
        buffers_all(pre, post, ms),
    ensures
        post.buffered == pre.buffered + ms,
        post.status == pre.status,
        post.url == pre.url,
    decreases ms.len(),
{
    if ms.len() == 0 {
        assert(pre.buffered + ms =~= pre.buffered);
    } else {
        let mid = choose|mid: PollingView|
            buffers_all(pre, mid, ms.drop_last()) && #[trigger] buffers(mid, post, ms.last());
        lemma_buffers_all_appends(pre, mid, ms.drop_last());
        assert(pre.buffered + ms =~= (pre.buffered + ms.drop_last()).push(ms.last()));
    }
}

/// Messages come out in delivery order: buffering `ms` into a client whose
/// buffer is empty and then draining returns exactly `ms`, element for
/// element, oldest first.
pub proof fn lemma_receive_in_delivery_order(
    c0: PollingView,
    c1: PollingView,
    c2: PollingView,
    ms: Seq<Message>,
    out: Seq<Message>,
)
    requires
        c0.buffered == Seq::<Message>::empty(),
        buffers_all(c0, c1, ms),
        drains(c1, c2, out),
    ensures
        out == ms,
{
    lemma_buffers_all_appends(c0, c1, ms);
    assert(out =~= ms);
}

} // verus!
