use nil::config::root_path;
use nil::error::{
    error_to_response, failure_to_response, panic_location, panic_reason, panic_report,
    ErrorResponse, INTERNAL_ERROR, REQUEST_CANCELLED,
};
use nil::protocol::{configuration_items, configuration_reply, MessageType};
use serde_json::Value;
use std::fmt;

#[derive(Debug)]
struct Cancelled;

impl fmt::Display for Cancelled {
    fn fmt(&self, f: &mut fmt::Formatter<'_>) -> fmt::Result {
        f.write_str("cancelled")
    }
}

impl std::error::Error for Cancelled {}

fn new_response(response: ErrorResponse) -> (i32, String) {
    match response {
        ErrorResponse::New { code, message } => (code, message),
        ErrorResponse::Own(_) => panic!("not a new response"),
    }
}

fn own_response() -> async_lsp::ResponseError {
    async_lsp::ResponseError::new_with_data(
        async_lsp::ErrorCode::REQUEST_FAILED,
        "No references found",
        Value::Bool(true),
    )
}

fn is_own_response(response: ErrorResponse) -> bool {
    match response {
        ErrorResponse::Own(own) => {
            own.code == async_lsp::ErrorCode::REQUEST_FAILED
                && own.message == "No references found"
                && own.data == Some(Value::Bool(true))
        }
        ErrorResponse::New { .. } => false,
    }
}

#[test]
fn error_codes_are_the_ones_of_the_protocol() {
    assert_eq!(REQUEST_CANCELLED, async_lsp::ErrorCode::REQUEST_CANCELLED.0);
    assert_eq!(INTERNAL_ERROR, async_lsp::ErrorCode::INTERNAL_ERROR.0);
}

#[test]
fn cancelled_requests_are_answered_as_cancelled() {
    let error = anyhow::Error::new(Cancelled).context("while looking");
    let (code, message) = new_response(error_to_response::<Cancelled>(error));
    assert_eq!((code, message.as_str()), (-32800, "Client cancelled"));
}

#[test]
fn an_answer_of_the_request_is_kept() {
    let error = anyhow::Error::new(own_response());
    assert!(is_own_response(error_to_response::<Cancelled>(error)));
}

#[test]
fn other_errors_are_internal_errors() {
    let error = anyhow::Error::msg("inner").context("outer");
    let (code, message) = new_response(error_to_response::<Cancelled>(error));
    assert_eq!((code, message.as_str()), (-32603, "outer"));
}

#[test]
fn failures_are_answered() {
    let cancelled = failure_to_response(true, Ok(own_response()));
    assert_eq!(new_response(cancelled), (-32800, "Client cancelled".to_string()));
    assert!(is_own_response(failure_to_response(false, Ok(own_response()))));
    let other = failure_to_response(false, Err("broken".to_string()));
    assert_eq!(new_response(other), (-32603, "broken".to_string()));
}

#[test]
fn panic_reasons() {
    assert_eq!(panic_reason(Some("formatted".to_string()), Some("literal")), "formatted");
    assert_eq!(panic_reason(None, Some("literal")), "literal");
    assert_eq!(panic_reason(None, None), "unknown");
}

#[test]
fn panic_locations() {
    let backtrace = "0: main".to_string();
    assert_eq!(
        panic_location(Some("src/a.rs:1:2".to_string()), &backtrace),
        "Location: src/a.rs:1:2\nBacktrace: 0: main"
    );
    assert_eq!(panic_location(None, &backtrace), "Location: \nBacktrace: 0: main");
}

#[test]
fn panic_reports() {
    let reason = "index out of bounds".to_string();
    assert_eq!(
        panic_report("diagnostics", &reason, "Location: here".to_string()),
        "Panicked in diagnostics: index out of bounds\nLocation: here"
    );
    assert_eq!(
        panic_report("diagnostics", &reason, String::new()),
        "Panicked in diagnostics: index out of bounds\nLocation: unknown"
    );
}

#[test]
fn the_own_section_is_asked_for() {
    let items = configuration_items("nil");
    assert_eq!(items.len(), 1);
    assert!(items[0].scope_uri.is_none());
    assert_eq!(items[0].section.as_deref(), Some("nil"));
}

#[test]
fn the_last_section_is_the_configuration() {
    let reply = configuration_reply(Ok(vec![Value::Bool(true), Value::String("s".to_string())]));
    assert_eq!(reply.ok(), Some(Value::String("s".to_string())));
}

#[test]
fn without_a_section_the_configuration_is_null() {
    assert_eq!(configuration_reply(Ok(Vec::new())).ok(), Some(Value::Null));
}

#[test]
fn a_failed_configuration_request_is_shown() {
    match configuration_reply(Err("no reply".to_string())) {
        Err(message) => {
            assert_eq!(message.typ, MessageType::Error);
            assert_eq!(message.message, "Failed to update config: no reply");
        }
        Ok(_) => panic!("no message"),
    }
}

fn root(uri: &str) -> Option<Vec<u8>> {
    root_path(Some(&uri.to_string())).map(|path| path.bytes)
}

#[test]
fn the_root_is_the_path_of_a_file_url() {
    assert_eq!(root("file:///home/user/a%20b"), Some(b"/home/user/a b".to_vec()));
    assert_eq!(root("file:///%FF"), Some(vec![b'/', 0xff]));
}

#[test]
fn other_urls_name_no_root() {
    assert_eq!(root("untitled:Untitled-1"), None);
    assert_eq!(root("file://host/share"), None);
    assert_eq!(root("no url"), None);
    assert!(root_path(None).is_none());
}
