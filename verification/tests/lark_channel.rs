use zeroclaw::channels::json::Json;
use zeroclaw::channels::lark::LarkError;
use zeroclaw::channels::lark_types::{
    LarkSendMessageRequest, LarkSendMessageResponse, LarkTokenResponse,
};
use zeroclaw::channels::LarkChannel;

fn channel(allowed: Vec<String>) -> LarkChannel {
    LarkChannel::new("test".into(), "secret".into(), None, "token".into(), allowed)
}

fn token_response(code: i32, msg: &str, token: Option<&str>, expire: Option<i32>) -> LarkTokenResponse {
    LarkTokenResponse {
        code,
        msg: msg.to_string(),
        tenant_access_token: token.map(|t| t.to_string()),
        expire,
    }
}

fn text_of<'a>(json: &'a Json, key: &str) -> Option<&'a str> {
    json.get(key).and_then(|v| v.as_str())
}

#[test]
fn lark_channel_creation() {
    let channel = LarkChannel::new("test".into(), "secret".into(), None, "token".into(), vec!["*".into()]);
    assert_eq!(channel.name(), "lark");
}

#[test]
fn lark_user_whitelist() {
    let channel = LarkChannel::new("test".into(), "secret".into(), None, "token".into(), vec!["ou_123".into()]);
    assert!(channel.is_user_allowed("ou_123"));
}

#[test]
fn lark_user_allowlist_rules() {
    let ch = channel(vec!["ou_123".into()]);
    assert!(!ch.is_user_allowed("ou_12"));
    assert!(!ch.is_user_allowed("ou_1234"));
    assert!(!ch.is_user_allowed(""));
    let open = channel(vec!["*".into()]);
    assert!(open.is_user_allowed("anyone"));
    let closed = channel(vec![]);
    assert!(!closed.is_user_allowed("ou_123"));
}

#[test]
fn lark_encryption_placeholder() {
    let ch = channel(vec![]);
    assert_eq!(ch.verify_event_encryption("key", "cipher").unwrap(), "");
}

#[test]
fn lark_token_request_body() {
    let ch = LarkChannel::new("app".into(), "shh".into(), None, "vt".into(), vec![]);
    let body = ch.token_request_body();
    assert_eq!(text_of(&body, "app_id"), Some("app"));
    assert_eq!(text_of(&body, "app_secret"), Some("shh"));
}

#[test]
fn lark_token_cache_lifecycle() {
    let mut ch = channel(vec![]);
    assert_eq!(ch.cached_token(1000), None);
    assert_eq!(ch.any_cached_token(), None);
    assert_eq!(ch.health_check_token(), "");

    let resp = token_response(0, "ok", Some("t-1"), Some(3600));
    assert_eq!(ch.accept_token_response(&resp, 1000).unwrap(), "t-1");
    // Cached until 1000 + 3600, served while more than 300 s remain.
    assert_eq!(ch.cached_token(1000), Some("t-1".to_string()));
    assert_eq!(ch.cached_token(4299), Some("t-1".to_string()));
    assert_eq!(ch.cached_token(4300), None);
    assert_eq!(ch.cached_token(9000), None);
    assert_eq!(ch.any_cached_token(), Some("t-1".to_string()));
    assert_eq!(ch.health_check_token(), "t-1");
}

#[test]
fn lark_token_default_lifetime() {
    let mut ch = channel(vec![]);
    let resp = token_response(0, "ok", Some("t-2"), None);
    assert_eq!(ch.accept_token_response(&resp, 0).unwrap(), "t-2");
    assert_eq!(ch.cached_token(6899), Some("t-2".to_string()));
    assert_eq!(ch.cached_token(6900), None);
}

#[test]
fn lark_token_errors_keep_cache() {
    let mut ch = channel(vec![]);
    ch.accept_token_response(&token_response(0, "ok", Some("old"), Some(7200)), 0).unwrap();

    let err = ch.accept_token_response(&token_response(99991663, "invalid app", None, None), 10);
    match err {
        Err(LarkError::TokenRequestFailed { msg }) => assert_eq!(msg, "invalid app"),
        other => panic!("unexpected {:?}", other),
    }
    let err = ch.accept_token_response(&token_response(0, "ok", None, Some(10)), 10);
    assert!(matches!(err, Err(LarkError::MissingToken)));
    assert_eq!(ch.cached_token(10), Some("old".to_string()));
}

#[test]
fn lark_token_from_response() {
    let ok = LarkChannel::token_from_response(&token_response(0, "ok", Some("abc"), None));
    assert_eq!(ok.unwrap(), "abc");
    let empty = LarkChannel::token_from_response(&token_response(0, "ok", None, None));
    assert_eq!(empty.unwrap(), "");
    let failed = LarkChannel::token_from_response(&token_response(1, "bad", Some("abc"), None));
    assert_eq!(failed.unwrap_err().display_text(), "Failed to get access token: bad");
}

#[test]
fn lark_check_send_response() {
    let ok = LarkSendMessageResponse { code: 0, msg: "success".into(), data: None };
    assert!(LarkChannel::check_send_response(&ok).is_ok());
    let bad = LarkSendMessageResponse { code: 230001, msg: "no permission".into(), data: None };
    let err = LarkChannel::check_send_response(&bad).unwrap_err();
    assert_eq!(err.display_text(), "Lark send failed: no permission");
}

#[test]
fn lark_error_texts() {
    assert_eq!(LarkError::MissingToken.display_text(), "No token in response");
    assert_eq!(
        LarkError::TokenRequestFailed { msg: "x".into() }.display_text(),
        "Failed to get access token: x"
    );
}

#[test]
fn lark_text_send_request() {
    let req = LarkSendMessageRequest::text("ou_1", "hi there");
    assert_eq!(req.receive_id_type, "open_id");
    assert_eq!(req.msg_type, "text");
    assert_eq!(req.receive_id, "ou_1");
    assert_eq!(text_of(&req.content, "text"), Some("hi there"));
    let json = req.to_json();
    assert_eq!(text_of(&json, "receive_id_type"), Some("open_id"));
    assert_eq!(text_of(&json, "msg_type"), Some("text"));
    assert_eq!(text_of(&json, "receive_id"), Some("ou_1"));
    let content = json.get("content").unwrap();
    assert_eq!(text_of(content, "text"), Some("hi there"));
}
