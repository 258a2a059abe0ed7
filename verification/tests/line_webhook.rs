use zeroclaw::channels::line_webhook::{
    BeaconType, LineMessage, Member, ParsedEvent, PostbackParams, WebhookBeacon, WebhookEvent,
    WebhookEventType, WebhookMember, WebhookMessage, WebhookPostback, WebhookSource,
};

fn user_source(user_id: &str) -> WebhookSource {
    WebhookSource {
        source_type: "user".into(),
        user_id: user_id.into(),
        group_id: None,
        room_id: None,
    }
}

fn event(event_type: WebhookEventType, source: WebhookSource) -> WebhookEvent {
    WebhookEvent {
        event_type,
        mode: "active".into(),
        timestamp: 1234567890,
        source,
        message: None,
        reply_token: None,
        postback: None,
        beacon: None,
        joined: None,
        left: None,
        link: None,
        webhook_event_id: None,
    }
}

#[test]
fn line_message_serialization() {
    let msg = LineMessage::text("test");
    let json = msg.to_json();
    assert_eq!(json.get("type").and_then(|v| v.as_str()), Some("text"));
    assert_eq!(json.get("text").and_then(|v| v.as_str()), Some("test"));
}

#[test]
fn webhook_postback_parse_data() {
    let postback = WebhookPostback {
        data: "action=buy&item=123&qty=2".into(),
        params: None,
    };
    let parsed = postback.parse_data();
    assert_eq!(parsed.get("action"), Some(&"buy".to_string()));
    assert_eq!(parsed.get("item"), Some(&"123".to_string()));
    assert_eq!(parsed.get("qty"), Some(&"2".to_string()));
}

#[test]
fn webhook_postback_get_param() {
    let postback = WebhookPostback {
        data: "key=value&foo=bar".into(),
        params: None,
    };
    assert_eq!(postback.get_param("key"), Some("value".to_string()));
    assert_eq!(postback.get_param("foo"), Some("bar".to_string()));
    assert_eq!(postback.get_param("missing"), None);
}

#[test]
fn webhook_postback_parse_data_edge_cases() {
    let postback = WebhookPostback {
        data: "a=1&&novalue&b=x=y&a=2&=empty&c=".into(),
        params: None,
    };
    let parsed = postback.parse_data();
    // A later key replaces an earlier one.
    assert_eq!(parsed.get("a"), Some(&"2".to_string()));
    // Only the first '=' splits.
    assert_eq!(parsed.get("b"), Some(&"x=y".to_string()));
    // Pieces without '=' are skipped.
    assert_eq!(parsed.get("novalue"), None);
    assert_eq!(parsed.get(""), Some(&"empty".to_string()));
    assert_eq!(parsed.get("c"), Some(&"".to_string()));
    assert_eq!(parsed.pair_count(), 5);
    let empty = WebhookPostback { data: "".into(), params: None };
    assert_eq!(empty.parse_data().pair_count(), 0);
}

#[test]
fn webhook_postback_params_value() {
    let p = PostbackParams { date: None, time: Some("10:00".into()), datetime: Some("x".into()) };
    assert_eq!(p.value(), Some("10:00"));
    let p = PostbackParams { date: Some("2024-01-01".into()), time: Some("10:00".into()), datetime: None };
    assert_eq!(p.value(), Some("2024-01-01"));
    let p = PostbackParams { date: None, time: None, datetime: None };
    assert_eq!(p.value(), None);
}

#[test]
fn webhook_source_user() {
    let source = WebhookSource {
        source_type: "user".into(),
        user_id: "U123".into(),
        group_id: None,
        room_id: None,
    };
    assert_eq!(source.source_id(), "U123");
    assert!(source.is_direct());
    assert!(!source.is_group());
    assert!(!source.is_room());
}

#[test]
fn webhook_source_group() {
    let source = WebhookSource {
        source_type: "group".into(),
        user_id: "U123".into(),
        group_id: Some("G456".into()),
        room_id: None,
    };
    assert_eq!(source.source_id(), "G456");
    assert!(!source.is_direct());
    assert!(source.is_group());
    assert!(!source.is_room());
}

#[test]
fn webhook_source_room() {
    let source = WebhookSource {
        source_type: "room".into(),
        user_id: "U123".into(),
        group_id: None,
        room_id: Some("R789".into()),
    };
    assert_eq!(source.source_id(), "R789");
    assert!(!source.is_direct());
    assert!(!source.is_group());
    assert!(source.is_room());
}

#[test]
fn webhook_parse_message_to_parsed_event() {
    let mut e = event(WebhookEventType::Message, user_source("Uabc123"));
    e.message = Some(WebhookMessage {
        message_type: "text".into(),
        id: "msg_id".into(),
        text: Some("Hello World".into()),
        file_id: None,
        content_provider: None,
    });
    let parsed = e.parse();

    match parsed {
        ParsedEvent::Message { source, text, .. } => {
            assert_eq!(source.user_id, "Uabc123");
            assert_eq!(text, "Hello World");
        }
        _ => panic!("Expected Message event"),
    }
}

#[test]
fn webhook_parse_postback_to_parsed_event() {
    let mut e = event(WebhookEventType::Postback, user_source("Uabc123"));
    e.postback = Some(WebhookPostback { data: "data=test".into(), params: None });
    let parsed = e.parse();

    match parsed {
        ParsedEvent::Postback { data, .. } => {
            assert_eq!(data, "data=test");
        }
        _ => panic!("Expected Postback event"),
    }
}

#[test]
fn webhook_parse_missing_data_and_other_types() {
    let e = event(WebhookEventType::Message, user_source("U1"));
    match e.parse() {
        ParsedEvent::Unknown { event_type, .. } => assert_eq!(event_type, "message_no_data"),
        _ => panic!("Expected Unknown event"),
    }
    let e = event(WebhookEventType::Things, user_source("U1"));
    match e.parse() {
        ParsedEvent::Unknown { event_type, source } => {
            assert_eq!(event_type, "Things");
            assert_eq!(source.user_id, "U1");
        }
        _ => panic!("Expected Unknown event"),
    }
    let mut e = event(WebhookEventType::Follow, user_source("U2"));
    e.reply_token = Some("rt".into());
    match e.parse() {
        ParsedEvent::Follow { reply_token, .. } => assert_eq!(reply_token, "rt"),
        _ => panic!("Expected Follow event"),
    }
    let e = event(WebhookEventType::Unfollow, user_source("U3"));
    assert!(matches!(e.parse(), ParsedEvent::Unfollow { .. }));
}

#[test]
fn webhook_parse_member_and_beacon_events() {
    let mut e = event(WebhookEventType::MemberJoined, user_source("U1"));
    e.joined = Some(WebhookMember { members: vec![Member { user_id: "M1".into() }] });
    match e.parse() {
        ParsedEvent::MemberJoined { members, reply_token, .. } => {
            assert_eq!(members.len(), 1);
            assert_eq!(members[0].user_id, "M1");
            assert_eq!(reply_token, "");
        }
        _ => panic!("Expected MemberJoined event"),
    }
    let mut e = event(WebhookEventType::Beacon, user_source("U1"));
    e.beacon = Some(WebhookBeacon { hwid: "hw".into(), beacon_type: BeaconType::Enter, device_message: None });
    match e.parse() {
        ParsedEvent::Beacon { hwid, beacon_type, reply_token, .. } => {
            assert_eq!(hwid, "hw");
            assert_eq!(beacon_type, BeaconType::Enter);
            assert_eq!(reply_token, None);
        }
        _ => panic!("Expected Beacon event"),
    }
    let e = event(WebhookEventType::MemberLeft, user_source("U1"));
    match e.parse() {
        ParsedEvent::Unknown { event_type, .. } => assert_eq!(event_type, "member_left_no_data"),
        _ => panic!("Expected Unknown event"),
    }
}

#[test]
fn webhook_event_type_should_respond() {
    assert!(WebhookEventType::Message.should_respond());
    assert!(WebhookEventType::Postback.should_respond());
    assert!(WebhookEventType::Follow.should_respond());
    assert!(WebhookEventType::MemberJoined.should_respond());
    assert!(!WebhookEventType::Unfollow.should_respond());
    assert!(!WebhookEventType::Beacon.should_respond());
}

#[test]
fn webhook_event_type_has_reply_token() {
    assert!(WebhookEventType::Message.has_reply_token());
    assert!(WebhookEventType::Postback.has_reply_token());
    assert!(WebhookEventType::Follow.has_reply_token());
    assert!(!WebhookEventType::Unfollow.has_reply_token());
}

#[test]
fn webhook_event_type_names() {
    assert_eq!(WebhookEventType::AccountLink.name(), "AccountLink");
    assert_eq!(WebhookEventType::Unknown.name(), "Unknown");
    assert_eq!(WebhookEventType::MemberJoined.name(), "MemberJoined");
}

#[test]
fn webhook_postback_distinct_key_count_and_first_equals() {
    let pb = WebhookPostback { data: "a=b=c&x&&a=2&k=".into(), params: None };
    let m = pb.parse_data();
    assert_eq!(m.len(), 2);
    assert_eq!(m.pair_count(), 3);
    assert_eq!(m.get("a"), Some(&"2".to_string()));
    assert_eq!(m.get("k"), Some(&"".to_string()));
    assert_eq!(m.get("x"), None);
    let pb = WebhookPostback { data: "a=b=c".into(), params: None };
    assert_eq!(pb.get_param("a"), Some("b=c".to_string()));
    assert_eq!(pb.parse_data().len(), 1);
    let empty = WebhookPostback { data: "".into(), params: None };
    assert_eq!(empty.parse_data().len(), 0);
}
