use wasm_sockets::message::classify;
use wasm_sockets::{
    Classified, ConnectionStatus, EventClient, Message, MessageDirective, RawPayload, SendError,
    WebSocketError,
};

// The slots of the core hold whatever the host glue uses; small integer
// tokens stand in for its callables here.
type TokenClient = EventClient<u32, u32, u32, u32>;

fn open_client(url: &str) -> TokenClient {
    EventClient::new(url, Ok(())).unwrap()
}

#[test]
fn event_construction_starts_connecting_with_empty_slots() {
    let c = open_client("wss://echo.example");
    assert_eq!(c.status, ConnectionStatus::Connecting);
    assert_eq!(c.url, "wss://echo.example".to_string());
    assert_eq!(c.on_error, None);
    assert_eq!(c.on_connection, None);
    assert_eq!(c.on_message, None);
    assert_eq!(c.on_close, None);
}

#[test]
fn event_construction_failure_is_typed() {
    let r = TokenClient::new("nope", Err("no transport".to_string()));
    assert_eq!(
        r.err(),
        Some(WebSocketError::ConnectionCreationError(
            "no transport".to_string()
        ))
    );
}

#[test]
fn classify_routes_each_shape() {
    assert_eq!(
        classify(RawPayload::Buffer(vec![20])),
        Classified::Ready(Message::Binary(vec![20]))
    );
    assert_eq!(
        classify(RawPayload::Text("New Message".to_string())),
        Classified::Ready(Message::Text("New Message".to_string()))
    );
    assert_eq!(classify(RawPayload::Blob), Classified::AwaitBytes);
    assert_eq!(classify(RawPayload::Unrecognized), Classified::Malformed);
}

#[test]
fn open_moves_status_and_consults_the_slot() {
    let mut c = open_client("wss://echo.example");
    assert!(!c.handle_open());
    assert_eq!(c.status, ConnectionStatus::Connected);

    let mut with_handler = open_client("wss://echo.example");
    with_handler.set_on_connection(Some(1));
    assert!(with_handler.handle_open());
}

#[test]
fn message_delivery_needs_a_registered_handler() {
    let mut c = open_client("wss://echo.example");
    c.handle_open();
    assert_eq!(
        c.handle_message(RawPayload::Text("dropped".to_string())),
        MessageDirective::Silent
    );
    c.set_on_message(Some(1));
    assert_eq!(
        c.handle_message(RawPayload::Text("seen".to_string())),
        MessageDirective::Deliver(Message::Text("seen".to_string()))
    );
    assert_eq!(
        c.handle_message(RawPayload::Buffer(vec![9, 8])),
        MessageDirective::Deliver(Message::Binary(vec![9, 8]))
    );
}

#[test]
fn blob_payload_begins_a_read_and_bytes_deliver_later() {
    let mut c = open_client("wss://echo.example");
    c.set_on_message(Some(1));
    assert_eq!(c.handle_message(RawPayload::Blob), MessageDirective::BeginRead);
    assert_eq!(
        c.handle_blob_bytes(vec![1, 2, 3]),
        MessageDirective::Deliver(Message::Binary(vec![1, 2, 3]))
    );
    c.set_on_message(None);
    assert_eq!(c.handle_blob_bytes(vec![1, 2, 3]), MessageDirective::Silent);
}

#[test]
fn unrecognized_payload_reports_instead_of_panicking() {
    let mut c = open_client("wss://echo.example");
    assert_eq!(
        c.handle_message(RawPayload::Unrecognized),
        MessageDirective::Silent
    );
    c.set_on_error(Some(1));
    assert_eq!(
        c.handle_message(RawPayload::Unrecognized),
        MessageDirective::ReportMalformed
    );
    assert_eq!(c.status, ConnectionStatus::Connecting);
}

#[test]
fn cleared_handler_is_never_invoked_again() {
    let mut c = open_client("wss://echo.example");
    c.handle_open();
    c.set_on_message(Some(1));
    assert_eq!(
        c.handle_message(RawPayload::Text("first".to_string())),
        MessageDirective::Deliver(Message::Text("first".to_string()))
    );
    c.set_on_message(None);
    assert_eq!(
        c.handle_message(RawPayload::Text("second".to_string())),
        MessageDirective::Silent
    );
    assert_eq!(
        c.handle_message(RawPayload::Buffer(vec![1])),
        MessageDirective::Silent
    );
}

#[test]
fn reregistration_overwrites_never_composes() {
    let mut c = open_client("wss://echo.example");
    c.set_on_message(Some(1));
    c.set_on_message(Some(2));
    assert_eq!(c.on_message, Some(2));
    c.set_on_close(Some(3));
    c.set_on_close(Some(4));
    assert_eq!(c.on_close, Some(4));
    assert_eq!(c.on_message, Some(2));
}

#[test]
fn notifications_do_not_touch_the_slots() {
    let mut c = open_client("wss://echo.example");
    c.set_on_error(Some(1));
    c.set_on_connection(Some(2));
    c.set_on_message(Some(3));
    c.set_on_close(Some(4));
    c.handle_open();
    c.handle_message(RawPayload::Text("x".to_string()));
    c.handle_error();
    c.handle_close();
    assert_eq!(c.on_error, Some(1));
    assert_eq!(c.on_connection, Some(2));
    assert_eq!(c.on_message, Some(3));
    assert_eq!(c.on_close, Some(4));
}

#[test]
fn error_notification_wins_over_later_close() {
    let mut c = open_client("wss://echo.example");
    c.handle_open();
    assert!(!c.handle_error());
    assert_eq!(c.status, ConnectionStatus::Error);
    c.handle_close();
    assert_eq!(c.status, ConnectionStatus::Error);
}

#[test]
fn text_round_trip_through_an_echo_transport() {
    let mut c = open_client("wss://echo.example");
    c.handle_open();
    c.set_on_message(Some(1));
    let sent = c.send_string("Hello, World!").unwrap();
    // A cooperating echo transport returns the text frame as a text payload.
    let Message::Text(echoed) = sent else {
        panic!("a text send must produce a text frame")
    };
    assert_eq!(
        c.handle_message(RawPayload::Text(echoed)),
        MessageDirective::Deliver(Message::Text("Hello, World!".to_string()))
    );
}

#[test]
fn binary_round_trip_through_an_echo_transport() {
    let mut c = open_client("wss://echo.example");
    c.handle_open();
    c.set_on_message(Some(1));
    let sent = c.send_binary(vec![0xDE, 0xAD, 0xBE, 0xEF]).unwrap();
    // A cooperating echo transport returns the binary frame as a buffer.
    let Message::Binary(echoed) = sent else {
        panic!("a binary send must produce a binary frame")
    };
    assert_eq!(
        c.handle_message(RawPayload::Buffer(echoed)),
        MessageDirective::Deliver(Message::Binary(vec![0xDE, 0xAD, 0xBE, 0xEF]))
    );
}

#[test]
fn event_client_send_gate_matches_status() {
    let mut c = open_client("wss://echo.example");
    assert_eq!(c.send_string("early"), Err(SendError::NotConnected));
    c.handle_open();
    assert_eq!(
        c.send_string("now"),
        Ok(Message::Text("now".to_string()))
    );
    c.handle_close();
    assert_eq!(c.send_binary(vec![7]), Err(SendError::NotConnected));
}
