use glimpse::models::{UpdatePayload, CONTENT_FIELD, CURSOR_LINE_FIELD, FILE_NAME_FIELD};
use glimpse::server::{
    publish_diagnostic, serve_diagnostic, update_handler, Decoded, IngressReply, STATUS_BAD_REQUEST,
    STATUS_OK, UPDATE_EVENT, UPDATE_ROUTE,
};

#[test]
fn wire_names_are_lower_camel_case() {
    assert_eq!(CONTENT_FIELD, "content");
    assert_eq!(CURSOR_LINE_FIELD, "cursorLine");
    assert_eq!(FILE_NAME_FIELD, "fileName");
}

#[test]
fn endpoint_and_event_names() {
    assert_eq!(UPDATE_ROUTE, "/update");
    assert_eq!(UPDATE_EVENT, "markdown-update");
    assert_eq!(STATUS_OK, 200);
    assert_eq!(STATUS_BAD_REQUEST, 400);
}

#[test]
fn payload_keeps_its_fields() {
    let payload = UpdatePayload::new(String::from("# Title"), 3, String::from("doc.md"));
    assert_eq!(payload.content, "# Title");
    assert_eq!(payload.cursor_line, 3);
    assert_eq!(payload.file_name, "doc.md");
}

#[test]
fn well_formed_request_is_published_once_and_answered_200() {
    let payload = UpdatePayload::new(String::from("# Title"), 3, String::from("doc.md"));
    let reply = update_handler(Decoded::Payload(payload.clone()));
    assert_eq!(reply.status, 200);
    assert_eq!(reply.event, Some(payload));
    let event = reply.event.unwrap();
    assert_eq!(event.content, "# Title");
    assert_eq!(event.cursor_line, 3);
    assert_eq!(event.file_name, "doc.md");
}

#[test]
fn malformed_request_is_a_client_error_and_publishes_nothing() {
    let reply = update_handler(Decoded::Rejected(422));
    assert_eq!(reply, IngressReply { status: 422, event: None });
    let reply = update_handler(Decoded::Rejected(400));
    assert_eq!(reply, IngressReply { status: 400, event: None });
    let reply = update_handler(Decoded::Rejected(415));
    assert_eq!(reply, IngressReply { status: 415, event: None });
}

#[test]
fn rejection_outside_the_client_range_becomes_400() {
    assert_eq!(update_handler(Decoded::Rejected(500)).status, 400);
    assert_eq!(update_handler(Decoded::Rejected(200)).status, 400);
    assert_eq!(update_handler(Decoded::Rejected(399)).status, 400);
    assert_eq!(update_handler(Decoded::Rejected(499)).status, 499);
    assert_eq!(update_handler(Decoded::Rejected(0)).status, 400);
    assert_eq!(update_handler(Decoded::Rejected(u16::MAX)).event, None);
}

#[test]
fn publication_failure_is_logged() {
    assert_eq!(
        publish_diagnostic("window closed"),
        "Failed to emit update event: window closed"
    );
}

#[test]
fn listener_failure_is_logged() {
    assert_eq!(serve_diagnostic("accept failed"), "Server error: accept failed");
}
