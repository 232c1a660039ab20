use order_book::error::FeedError;
use order_book::subscribe::stream_url;
use order_book::token::{get_token, token_from_body, token_from_document, HttpReply};

fn answered(status: u16, body: &str) -> HttpReply {
    HttpReply::Answered { status, body: String::from(body) }
}

#[test]
fn token_is_taken_from_the_reply_and_put_in_the_address() {
    let token = get_token(&answered(200, r#"{"data":{"token":"abc123"}}"#)).expect("a token");
    assert_eq!(token, "abc123");
    assert_eq!(stream_url(&token), "wss://ws-api-spot.kucoin.com/?token=abc123");
}

#[test]
fn failed_request_is_a_transport_error() {
    assert_eq!(get_token(&HttpReply::Failed), Err(FeedError::Transport));
}

#[test]
fn status_outside_success_is_a_transport_error() {
    let body = r#"{"data":{"token":"abc123"}}"#;
    for status in [0u16, 100, 199, 300, 301, 404, 429, 500, 503, u16::MAX] {
        assert_eq!(get_token(&answered(status, body)), Err(FeedError::Transport), "{}", status);
    }
    for status in [200u16, 201, 204, 299] {
        assert_eq!(get_token(&answered(status, body)), Ok(String::from("abc123")), "{}", status);
    }
}

#[test]
fn body_without_token_is_a_protocol_error() {
    for body in [
        r#"{}"#,
        r#"{"data":{}}"#,
        r#"{"data":null}"#,
        r#"{"data":"token"}"#,
        r#"{"data":{"token":null}}"#,
        r#"{"data":{"token":17}}"#,
        r#"{"data":{"token":["abc123"]}}"#,
        r#"{"data":{"Token":"abc123"}}"#,
        r#"{"token":"abc123"}"#,
        r#"{"code":"200000","data":{"instanceServers":[]}}"#,
        r#"[{"data":{"token":"abc123"}}]"#,
    ] {
        assert_eq!(get_token(&answered(200, body)), Err(FeedError::Protocol), "{}", body);
    }
}

#[test]
fn empty_token_is_a_protocol_error() {
    assert_eq!(get_token(&answered(200, r#"{"data":{"token":""}}"#)), Err(FeedError::Protocol));
}

#[test]
fn body_that_is_no_json_is_a_transport_error() {
    for body in ["", "<html></html>", r#"{"data":{"token":"abc123"}"#] {
        assert_eq!(get_token(&answered(200, body)), Err(FeedError::Transport), "{:?}", body);
        assert_eq!(token_from_body(body), Err(FeedError::Transport), "{:?}", body);
    }
}

#[test]
fn same_body_gives_the_same_token() {
    let body = r#"{"code":"200000","data":{"token":"2neAiuYvAU61ZD","instanceServers":[{"pingInterval":18000}]}}"#;
    let first = token_from_body(body);
    let second = token_from_body(body);
    assert_eq!(first, Ok(String::from("2neAiuYvAU61ZD")));
    assert_eq!(first, second);
    assert_eq!(get_token(&answered(200, body)), first);
}

#[test]
fn token_is_found_in_a_parsed_body() {
    let doc: serde_json::Value =
        serde_json::from_str(r#"{"data":{"token":"t-é\"x"}}"#).expect("a document");
    assert_eq!(token_from_document(&doc), Ok(String::from("t-\u{e9}\"x")));
    let none: serde_json::Value = serde_json::from_str(r#"{"data":[]}"#).expect("a document");
    assert_eq!(token_from_document(&none), Err(FeedError::Protocol));
}
