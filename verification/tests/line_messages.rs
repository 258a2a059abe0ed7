use zeroclaw::channels::json::{Json, json_str};
use zeroclaw::channels::line::actions::{QuickReplyAction, QuickReplyItem, TemplateAction, TemplateColumn};
use zeroclaw::channels::line::messages::{
    audio_messages, buttons_template_messages, carousel_template_messages, confirm_template_messages,
    flex_messages, image_carousel_template_messages, image_messages, push_request,
    quick_reply_action_messages, quick_reply_item_messages, reply_request, sticker_messages,
    text_messages, upload_content_id, upload_url, video_messages,
};

fn at<'a>(json: &'a Json, path: &[&str]) -> Option<&'a Json> {
    let mut cur = json;
    for key in path {
        cur = cur.get(key)?;
    }
    Some(cur)
}

fn text_at<'a>(json: &'a Json, path: &[&str]) -> Option<&'a str> {
    at(json, path)?.as_str()
}

fn items(json: &Json) -> &Vec<Json> {
    match json {
        Json::Array(v) => v,
        other => panic!("not an array: {:?}", other),
    }
}

fn keys(json: &Json) -> Vec<String> {
    match json {
        Json::Object(es) => es.iter().map(|(k, _)| k.clone()).collect(),
        other => panic!("not an object: {:?}", other),
    }
}

fn only(messages: &Json) -> &Json {
    let list = items(messages);
    assert_eq!(list.len(), 1);
    &list[0]
}

fn column(title: &str, thumb: Option<&str>, ratio: Option<&str>, actions: Vec<TemplateAction>) -> TemplateColumn {
    TemplateColumn {
        title: title.to_string(),
        text: format!("{} text", title),
        thumbnail_image_url: thumb.map(|s| s.to_string()),
        image_background_color: None,
        image_aspect_ratio: ratio.map(|s| s.to_string()),
        image_size: None,
        image_content_mode: None,
        actions,
    }
}

fn message_action(label: &str) -> TemplateAction {
    TemplateAction::Message { label: label.to_string(), text: label.to_lowercase() }
}

#[test]
fn line_push_and_reply_bodies() {
    let push = push_request("U1", text_messages("hi"));
    assert_eq!(keys(&push), vec!["to", "messages"]);
    assert_eq!(text_at(&push, &["to"]), Some("U1"));
    let msg = only(at(&push, &["messages"]).unwrap());
    assert_eq!(keys(msg), vec!["type", "text"]);
    assert_eq!(text_at(msg, &["type"]), Some("text"));
    assert_eq!(text_at(msg, &["text"]), Some("hi"));

    let reply = reply_request("tok", text_messages("yo"));
    assert_eq!(keys(&reply), vec!["replyToken", "messages"]);
    assert_eq!(text_at(&reply, &["replyToken"]), Some("tok"));
}

#[test]
fn line_flex_message() {
    let msgs = flex_messages("alt", json_str("contents"));
    let msg = only(&msgs);
    assert_eq!(keys(msg), vec!["type", "altText", "contents"]);
    assert_eq!(text_at(msg, &["type"]), Some("flex"));
    assert_eq!(text_at(msg, &["altText"]), Some("alt"));
    assert_eq!(text_at(msg, &["contents"]), Some("contents"));
}

#[test]
fn line_quick_reply_messages() {
    let actions = vec![
        QuickReplyAction::Message { label: "A".into(), text: "a".into() },
        QuickReplyAction::Postback { label: "B".into(), data: "b=1".into(), text: None },
    ];
    let msgs = quick_reply_action_messages("pick", &actions);
    let msg = only(&msgs);
    assert_eq!(text_at(msg, &["text"]), Some("pick"));
    let list = items(at(msg, &["quickReply", "items"]).unwrap());
    assert_eq!(list.len(), 2);
    assert_eq!(text_at(&list[0], &["type"]), Some("action"));
    assert_eq!(text_at(&list[0], &["action", "label"]), Some("A"));
    assert_eq!(text_at(&list[1], &["action", "type"]), Some("postback"));
    assert_eq!(text_at(&list[1], &["action", "data"]), Some("b=1"));

    let simple = vec![QuickReplyItem { label: "Yes".into(), text: "yes".into() }];
    let msgs = quick_reply_item_messages("ok?", &simple);
    let list = items(at(only(&msgs), &["quickReply", "items"]).unwrap());
    assert_eq!(text_at(&list[0], &["action", "type"]), Some("message"));
    assert_eq!(text_at(&list[0], &["action", "text"]), Some("yes"));
}

#[test]
fn line_buttons_template() {
    let actions = vec![message_action("One"), message_action("Two")];
    let msgs = buttons_template_messages("alt", "Title", "Body", Some("https://thumb"), &actions);
    let msg = only(&msgs);
    assert_eq!(text_at(msg, &["type"]), Some("template"));
    assert_eq!(text_at(msg, &["altText"]), Some("alt"));
    let template = at(msg, &["template"]).unwrap();
    assert_eq!(keys(template), vec!["type", "title", "text", "actions", "thumbnailImageUrl"]);
    assert_eq!(text_at(template, &["type"]), Some("buttons"));
    assert_eq!(text_at(template, &["thumbnailImageUrl"]), Some("https://thumb"));
    assert_eq!(items(at(template, &["actions"]).unwrap()).len(), 2);

    let msgs = buttons_template_messages("alt", "T", "B", None, &actions);
    assert_eq!(keys(at(only(&msgs), &["template"]).unwrap()), vec!["type", "title", "text", "actions"]);
}

#[test]
fn line_confirm_template() {
    let msgs = confirm_template_messages("alt", "Sure?", &message_action("Yes"), &message_action("No"));
    let template = at(only(&msgs), &["template"]).unwrap();
    assert_eq!(text_at(template, &["type"]), Some("confirm"));
    assert_eq!(text_at(template, &["text"]), Some("Sure?"));
    let actions = items(at(template, &["actions"]).unwrap());
    assert_eq!(actions.len(), 2);
    assert_eq!(text_at(&actions[0], &["label"]), Some("Yes"));
    assert_eq!(text_at(&actions[1], &["label"]), Some("No"));
}

#[test]
fn line_carousel_template_aspect_ratio() {
    let cols = vec![
        column("A", Some("https://a"), None, vec![message_action("Go")]),
        column("B", None, Some("square"), vec![]),
    ];
    let msgs = carousel_template_messages("alt", &cols, Some("rectangle"));
    let template = at(only(&msgs), &["template"]).unwrap();
    assert_eq!(keys(template), vec!["type", "columns", "imageAspectRatio"]);
    assert_eq!(text_at(template, &["imageAspectRatio"]), Some("rectangle"));
    let columns = items(at(template, &["columns"]).unwrap());
    assert_eq!(text_at(&columns[0], &["title"]), Some("A"));
    assert_eq!(text_at(&columns[0], &["thumbnailImageUrl"]), Some("https://a"));
    // A column without its own ratio takes the carousel's; one with its own keeps it.
    assert_eq!(text_at(&columns[0], &["imageAspectRatio"]), Some("rectangle"));
    assert_eq!(text_at(&columns[1], &["imageAspectRatio"]), Some("square"));

    let msgs = carousel_template_messages("alt", &cols, None);
    let template = at(only(&msgs), &["template"]).unwrap();
    assert_eq!(keys(template), vec!["type", "columns"]);
    let columns = items(at(template, &["columns"]).unwrap());
    assert_eq!(keys(&columns[0]), vec!["title", "text", "actions", "thumbnailImageUrl"]);
}

#[test]
fn line_image_carousel_template() {
    let cols = vec![
        column("Pic", Some("https://p"), None, vec![message_action("Open")]),
        column("", None, None, vec![]),
    ];
    let msgs = image_carousel_template_messages("alt", &cols);
    let template = at(only(&msgs), &["template"]).unwrap();
    assert_eq!(text_at(template, &["type"]), Some("image_carousel"));
    let columns = items(at(template, &["columns"]).unwrap());
    assert_eq!(keys(&columns[0]), vec!["imageUrl", "action", "label"]);
    assert_eq!(text_at(&columns[0], &["imageUrl"]), Some("https://p"));
    assert_eq!(text_at(&columns[0], &["action", "label"]), Some("Open"));
    assert_eq!(text_at(&columns[0], &["label"]), Some("Pic"));
    // No thumbnail: empty image URL; no action: a message action from title and text;
    // empty title: no label.
    assert_eq!(keys(&columns[1]), vec!["imageUrl", "action"]);
    assert_eq!(text_at(&columns[1], &["imageUrl"]), Some(""));
    assert_eq!(text_at(&columns[1], &["action", "type"]), Some("message"));
    assert_eq!(text_at(&columns[1], &["action", "text"]), Some(" text"));
}

#[test]
fn line_media_messages() {
    let msg = image_messages("https://o", "https://p");
    let m = only(&msg);
    assert_eq!(keys(m), vec!["type", "originalContentUrl", "previewImageUrl"]);
    assert_eq!(text_at(m, &["type"]), Some("image"));
    let msg = video_messages("https://v", "https://p");
    assert_eq!(text_at(only(&msg), &["type"]), Some("video"));
    let msg = audio_messages("https://a", 60000);
    let m = only(&msg);
    assert_eq!(text_at(m, &["type"]), Some("audio"));
    match at(m, &["duration"]) {
        Some(Json::Number(n)) => assert_eq!(n, "60000"),
        other => panic!("unexpected {:?}", other),
    }
    let msg = sticker_messages("446", "1988");
    let m = only(&msg);
    assert_eq!(keys(m), vec!["type", "packageId", "stickerId"]);
    assert_eq!(text_at(m, &["stickerId"]), Some("1988"));
}

#[test]
fn line_upload_helpers() {
    assert_eq!(upload_url("U9"), "https://api.line.me/v2/bot/message/U9/upload");
    let resp = Json::Object(vec![("id".to_string(), json_str("content-1"))]);
    assert_eq!(upload_content_id(&resp), Some("content-1".to_string()));
    let no_id = Json::Object(vec![("other".to_string(), json_str("x"))]);
    assert_eq!(upload_content_id(&no_id), None);
    let numeric = Json::Object(vec![("id".to_string(), Json::Number("5".to_string()))]);
    assert_eq!(upload_content_id(&numeric), None);
}
