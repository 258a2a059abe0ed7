use base64::Engine;
use hmac::{Hmac, Mac};
use sha2::Sha256;
use std::time::Duration;
use zeroclaw::channels::json::Json;
use zeroclaw::channels::line::channel::{RetryDecision, RetryDelay, RetryState};
use zeroclaw::channels::line::{
    LineApiError, LineChannel, LineRateLimitInfo, QuickReplyAction, QuickReplyItem,
    TemplateAction,
};

type HmacSha256 = Hmac<Sha256>;

fn text_at<'a>(json: &'a Json, path: &[&str]) -> Option<&'a str> {
    let mut cur = json;
    for key in path {
        cur = cur.get(key)?;
    }
    cur.as_str()
}

#[test]
fn line_channel_name() {
    let ch = LineChannel::new("token".into(), "secret".into(), vec![]);
    assert_eq!(ch.name(), "line");
}

#[test]
fn line_signature_verification_valid() {
    let channel_secret = "test_secret";
    let body = b"test_body";

    let mut mac = HmacSha256::new_from_slice(channel_secret.as_bytes()).unwrap();
    mac.update(body);
    let signature = mac.finalize().into_bytes();
    let signature_b64 = base64::engine::general_purpose::URL_SAFE_NO_PAD.encode(signature);

    let ch = LineChannel::new("token".into(), channel_secret.into(), vec![]);
    assert!(ch.verify_webhook_signature(body, &signature_b64));
}

#[test]
fn line_signature_verification_invalid() {
    let ch = LineChannel::new("token".into(), "secret".into(), vec![]);
    assert!(!ch.verify_webhook_signature(b"test_body", "invalid_signature"));
}

#[test]
fn line_signature_verification_empty_body() {
    let channel_secret = "secret";
    let body = b"";

    let mut mac = HmacSha256::new_from_slice(channel_secret.as_bytes()).unwrap();
    mac.update(body);
    let signature = mac.finalize().into_bytes();
    let signature_b64 = base64::engine::general_purpose::URL_SAFE_NO_PAD.encode(signature);

    let ch = LineChannel::new("token".into(), channel_secret.into(), vec![]);
    assert!(ch.verify_webhook_signature(body, &signature_b64));
}

#[test]
fn line_signature_for_other_body_rejected() {
    let mut mac = HmacSha256::new_from_slice(b"secret").unwrap();
    mac.update(b"body one");
    let signature_b64 =
        base64::engine::general_purpose::URL_SAFE_NO_PAD.encode(mac.finalize().into_bytes());
    let ch = LineChannel::new("token".into(), "secret".into(), vec![]);
    assert!(ch.verify_webhook_signature(b"body one", &signature_b64));
    assert!(!ch.verify_webhook_signature(b"body two", &signature_b64));
    let other = LineChannel::new("token".into(), "other secret".into(), vec![]);
    assert!(!other.verify_webhook_signature(b"body one", &signature_b64));
}

#[test]
fn line_signature_truncated_rejected() {
    let mut mac = HmacSha256::new_from_slice(b"secret").unwrap();
    mac.update(b"body");
    let bytes = mac.finalize().into_bytes();
    let short = base64::engine::general_purpose::URL_SAFE_NO_PAD.encode(&bytes[..31]);
    let ch = LineChannel::new("token".into(), "secret".into(), vec![]);
    assert!(!ch.verify_webhook_signature(b"body", &short));
    // Standard (padded) base64 is not accepted by the URL-safe, unpadded decoding.
    let padded = base64::engine::general_purpose::STANDARD.encode(bytes);
    assert!(padded.ends_with('='));
    assert!(!ch.verify_webhook_signature(b"body", &padded));
}

#[test]
fn line_user_allowed_wildcard() {
    let ch = LineChannel::new("t".into(), "s".into(), vec!["*".into()]);
    assert!(ch.is_user_allowed("U123"));
    assert!(ch.is_user_allowed("any_user"));
}

#[test]
fn line_user_allowed_specific() {
    let ch = LineChannel::new("t".into(), "s".into(), vec!["U111".into(), "U222".into()]);
    assert!(ch.is_user_allowed("U111"));
    assert!(ch.is_user_allowed("U222"));
    assert!(!ch.is_user_allowed("U333"));
}

#[test]
fn line_user_denied_empty() {
    let ch = LineChannel::new("t".into(), "s".into(), vec![]);
    assert!(!ch.is_user_allowed("U123"));
}

#[test]
fn line_user_exact_match() {
    let ch = LineChannel::new("t".into(), "s".into(), vec!["U123".into()]);
    assert!(ch.is_user_allowed("U123"));
    assert!(!ch.is_user_allowed("U1234"));
    assert!(!ch.is_user_allowed("U12"));
}

#[test]
fn line_quick_reply_item_creation() {
    let item = QuickReplyItem {
        label: "Yes".to_string(),
        text: "yes".to_string(),
    };
    assert_eq!(item.label, "Yes");
    assert_eq!(item.text, "yes");
}

#[test]
fn line_quick_reply_item_json() {
    let item = QuickReplyItem { label: "Yes".to_string(), text: "yes".to_string() };
    let json = item.to_json();
    assert_eq!(text_at(&json, &["type"]), Some("action"));
    assert_eq!(text_at(&json, &["action", "type"]), Some("message"));
    assert_eq!(text_at(&json, &["action", "label"]), Some("Yes"));
    assert_eq!(text_at(&json, &["action", "text"]), Some("yes"));
}

#[test]
fn line_quick_reply_action_message() {
    let action = QuickReplyAction::Message {
        label: "OK".into(),
        text: "ok".into(),
    };
    let json = action.to_json();
    assert_eq!(text_at(&json, &["type"]), Some("action"));
    assert_eq!(text_at(&json, &["action", "type"]), Some("message"));
    assert_eq!(text_at(&json, &["action", "label"]), Some("OK"));
    assert_eq!(text_at(&json, &["action", "text"]), Some("ok"));
}

#[test]
fn line_quick_reply_action_postback() {
    let action = QuickReplyAction::Postback {
        label: "Select".into(),
        data: "value=123".into(),
        text: Some("Selected".into()),
    };
    let json = action.to_json();
    assert_eq!(text_at(&json, &["action", "type"]), Some("postback"));
    assert_eq!(text_at(&json, &["action", "data"]), Some("value=123"));
    assert_eq!(text_at(&json, &["action", "text"]), Some("Selected"));
}

#[test]
fn line_quick_reply_action_postback_without_text() {
    let action = QuickReplyAction::Postback {
        label: "Select".into(),
        data: "value=1".into(),
        text: None,
    };
    let json = action.to_json();
    assert!(json.get("action").unwrap().get("text").is_none());
}

#[test]
fn line_quick_reply_action_uri() {
    let action = QuickReplyAction::Uri {
        label: "Open".into(),
        uri: "https://example.com".into(),
        alt_uri: None,
    };
    let json = action.to_json();
    assert_eq!(text_at(&json, &["action", "type"]), Some("uri"));
    assert_eq!(text_at(&json, &["action", "uri"]), Some("https://example.com"));
    assert!(json.get("action").unwrap().get("altUri").is_none());
}

#[test]
fn line_quick_reply_action_uri_with_alt() {
    let action = QuickReplyAction::Uri {
        label: "Open".into(),
        uri: "https://example.com".into(),
        alt_uri: Some("https://example.com/desktop".into()),
    };
    let json = action.to_json();
    assert_eq!(
        text_at(&json, &["action", "altUri", "desktop"]),
        Some("https://example.com/desktop")
    );
}

#[test]
fn line_quick_reply_action_date_picker() {
    let action = QuickReplyAction::DatePicker {
        label: "Pick Date".into(),
        data: "date".into(),
        initial: Some("2023-01-01".into()),
        max: Some("2023-12-31".into()),
        min: Some("2023-01-01".into()),
    };
    let json = action.to_json();
    assert_eq!(text_at(&json, &["action", "type"]), Some("datepicker"));
    assert_eq!(text_at(&json, &["action", "initial"]), Some("2023-01-01"));
    assert_eq!(text_at(&json, &["action", "max"]), Some("2023-12-31"));
    assert_eq!(text_at(&json, &["action", "min"]), Some("2023-01-01"));
}

#[test]
fn line_quick_reply_action_time_picker() {
    let action = QuickReplyAction::TimePicker {
        label: "Pick".into(),
        data: "t".into(),
        initial: None,
    };
    let json = action.to_json();
    assert_eq!(text_at(&json, &["action", "type"]), Some("timepicker"));
    assert!(json.get("action").unwrap().get("initial").is_none());
}

#[test]
fn line_template_action_message() {
    let action = TemplateAction::Message {
        label: "Click".into(),
        text: "clicked".into(),
    };
    let json = action.to_json();
    assert_eq!(text_at(&json, &["type"]), Some("message"));
    assert_eq!(text_at(&json, &["label"]), Some("Click"));
    assert_eq!(text_at(&json, &["text"]), Some("clicked"));
}

#[test]
fn line_template_action_postback() {
    let action = TemplateAction::Postback {
        label: "Submit".into(),
        data: "data=value".into(),
        text: Some("Submitted".into()),
    };
    let json = action.to_json();
    assert_eq!(text_at(&json, &["type"]), Some("postback"));
    assert_eq!(text_at(&json, &["data"]), Some("data=value"));
    assert_eq!(text_at(&json, &["text"]), Some("Submitted"));
}

#[test]
fn line_template_action_datetime_picker() {
    let action = TemplateAction::DatetimePicker {
        label: "When".into(),
        data: "when".into(),
        mode: "datetime".into(),
        initial: None,
        max: Some("2024-12-31t23:59".into()),
        min: None,
    };
    let json = action.to_json();
    assert_eq!(text_at(&json, &["type"]), Some("datetimepicker"));
    assert_eq!(text_at(&json, &["mode"]), Some("datetime"));
    assert_eq!(text_at(&json, &["max"]), Some("2024-12-31t23:59"));
    assert!(json.get("min").is_none());
}

#[test]
fn line_api_error_display() {
    let error = LineApiError {
        status: 429,
        code: Some("RATE_LIMIT".into()),
        message: "Too many requests".into(),
        retryable: true,
        retry_after: Some(Duration::from_secs(60).as_secs()),
    };
    let display = error.display_text();
    assert!(display.contains("429"));
    assert!(display.contains("RATE_LIMIT"));
    assert!(display.contains("Too many requests"));
}

#[test]
fn line_api_error_display_exact() {
    let error = LineApiError {
        status: 400,
        code: None,
        message: "Bad".into(),
        retryable: false,
        retry_after: None,
    };
    assert_eq!(error.display_text(), "LINE API error (400): Bad");
    let coded = LineApiError { code: Some("X".into()), ..error };
    assert_eq!(coded.display_text(), "LINE API error (400): [X] Bad");
}

#[test]
fn line_rate_limit_info() {
    let info = LineRateLimitInfo {
        limit: 1000,
        remaining: 500,
        reset_at: 1234567890,
    };
    assert_eq!(info.limit, 1000);
    assert_eq!(info.remaining, 500);
    assert_eq!(info.reset_at, 1234567890);
}

#[test]
fn line_rate_limit_from_headers() {
    let mut ch = LineChannel::new("t".into(), "s".into(), vec![]);
    assert!(ch.rate_limit_info().is_none());
    ch.update_rate_limit_from_headers(Some("5"), Some("1700000000"));
    assert_eq!(
        ch.rate_limit_info(),
        Some(LineRateLimitInfo { limit: 1000, remaining: 5, reset_at: 1700000000 })
    );
    assert_eq!(ch.rate_limit_wait(1699999990), Some(10));
    assert_eq!(ch.rate_limit_wait(1700000000), None);
    // Values that do not read as numbers leave the state as it was.
    ch.update_rate_limit_from_headers(Some("abc"), Some("-1"));
    assert_eq!(ch.rate_limit_info().unwrap().remaining, 5);
    assert_eq!(ch.rate_limit_info().unwrap().reset_at, 1700000000);
    ch.update_rate_limit_from_headers(Some("+50"), None);
    assert_eq!(ch.rate_limit_info().unwrap().remaining, 50);
    assert_eq!(ch.rate_limit_wait(1), None);
}

#[test]
fn line_parse_api_error_json_body() {
    let ch = LineChannel::new("t".into(), "s".into(), vec![]);
    let e = ch.parse_api_error(400, r#"{"message":"The request body has 1 error(s)","error":"INVALID"}"#, None);
    assert_eq!(e.status, 400);
    assert_eq!(e.message, "The request body has 1 error(s)");
    assert_eq!(e.code.as_deref(), Some("INVALID"));
    assert!(!e.retryable);
    assert!(e.retry_after.is_none());

    let e = ch.parse_api_error(503, r#"{"details":[]}"#, None);
    assert_eq!(e.message, "Unknown error");
    assert_eq!(e.code, None);
    assert!(e.retryable);
}

#[test]
fn line_parse_api_error_text_body() {
    let ch = LineChannel::new("t".into(), "s".into(), vec![]);
    let e = ch.parse_api_error(429, "slow down", Some("5"));
    assert_eq!(e.message, "slow down");
    assert_eq!(e.code, None);
    assert!(e.retryable);
    assert_eq!(e.retry_after, Some(5));
    let e = ch.parse_api_error(408, "", None);
    assert!(e.retryable);
    let e = ch.parse_api_error(404, "not found", Some("Wed, 21 Oct 2015 07:28:00 GMT"));
    assert!(!e.retryable);
    assert_eq!(e.retry_after, None);
}

#[test]
fn line_retry_state_gives_up_after_budget() {
    // max_retries 3: the first try and three retries.
    let mut state = RetryState::new(3);
    let retryable = LineApiError {
        status: 500,
        code: None,
        message: "boom".into(),
        retryable: true,
        retry_after: None,
    };
    let mut attempts: u64 = 0;
    loop {
        assert!(state.start_attempt());
        attempts += 1;
        match state.after_api_error(&retryable) {
            RetryDecision::Retry(RetryDelay::Backoff { exponent }) => assert_eq!(exponent, attempts - 1),
            RetryDecision::Retry(RetryDelay::Given(_)) => panic!("no delay was given"),
            RetryDecision::GiveUp => break,
        }
    }
    assert_eq!(attempts, 4);
    assert_eq!(state.attempt(), 4);
    assert!(!state.start_attempt());
}

#[test]
fn line_retry_state_failures_budget() {
    let mut state = RetryState::new(1);
    assert!(state.start_attempt());
    assert!(matches!(state.after_failure(), RetryDecision::Retry(RetryDelay::Backoff { exponent: 0 })));
    assert!(state.start_attempt());
    assert!(matches!(state.after_failure(), RetryDecision::GiveUp));
    assert!(!state.start_attempt());
    assert_eq!(state.attempt(), 2);
}

#[test]
fn line_retry_state_non_retryable_error() {
    let mut state = RetryState::new(5);
    let fatal = LineApiError {
        status: 401,
        code: None,
        message: "no".into(),
        retryable: false,
        retry_after: None,
    };
    assert!(state.start_attempt());
    assert!(matches!(state.after_api_error(&fatal), RetryDecision::GiveUp));
    assert_eq!(state.attempt(), 1);
}

#[test]
fn line_retry_state_given_delay_and_zero_budget() {
    let ch = LineChannel::new("t".into(), "s".into(), vec![]);
    let limited = ch.parse_api_error(429, "later", Some("7"));
    let mut state = RetryState::new(2);
    assert!(state.start_attempt());
    match state.after_api_error(&limited) {
        RetryDecision::Retry(RetryDelay::Given(secs)) => assert_eq!(secs, 7),
        _ => panic!("expected the given delay"),
    }
    // No retries: only the first try.
    let mut none = RetryState::new(0);
    assert!(none.start_attempt());
    assert!(matches!(none.after_failure(), RetryDecision::GiveUp));
    assert!(!none.start_attempt());
}
