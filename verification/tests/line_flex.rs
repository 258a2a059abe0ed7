use zeroclaw::channels::json::Json;
use zeroclaw::channels::line::actions::TemplateAction;
use zeroclaw::channels::line::flex::{
    FlexBox, FlexBoxLayout, FlexBubble, FlexButton, FlexButtonStyle, FlexCarousel,
    FlexComponentData, FlexDirection, FlexFiller, FlexIcon, FlexImage, FlexSeparator, FlexSpacer,
    FlexText,
};

fn at<'a>(json: &'a Json, path: &[&str]) -> Option<&'a Json> {
    let mut cur = json;
    for key in path {
        cur = cur.get(key)?;
    }
    Some(cur)
}

fn text_at<'a>(json: &'a Json, path: &[&str]) -> Option<&'a str> {
    at(json, path)?.as_str()
}

fn number_at(json: &Json, path: &[&str]) -> Option<String> {
    match at(json, path)? {
        Json::Number(n) => Some(n.clone()),
        _ => None,
    }
}

fn items(json: &Json) -> &Vec<Json> {
    match json {
        Json::Array(v) => v,
        other => panic!("not an array: {:?}", other),
    }
}

fn keys(json: &Json) -> Vec<String> {
    match json {
        Json::Object(es) => es.iter().map(|(k, _)| k.clone()).collect(),
        other => panic!("not an object: {:?}", other),
    }
}

#[test]
fn flex_text_json_exact() {
    let t = FlexText::new("Hello").size("xl").align("center").color("#111111").bold().wrap().max_lines(3).margin("md");
    let json = FlexComponentData::Text(t).to_json();
    assert_eq!(
        keys(&json),
        vec!["type", "text", "size", "align", "color", "weight", "margin", "wrap", "maxLines"]
    );
    assert_eq!(text_at(&json, &["type"]), Some("text"));
    assert_eq!(text_at(&json, &["text"]), Some("Hello"));
    assert_eq!(text_at(&json, &["size"]), Some("xl"));
    assert_eq!(text_at(&json, &["weight"]), Some("bold"));
    assert!(matches!(at(&json, &["wrap"]), Some(Json::Bool(true))));
    assert_eq!(number_at(&json, &["maxLines"]), Some("3".to_string()));
}

#[test]
fn flex_plain_text_has_only_type_and_text() {
    let json = FlexComponentData::Text(FlexText::new("x")).to_json();
    assert_eq!(keys(&json), vec!["type", "text"]);
}

#[test]
fn flex_box_json_with_contents() {
    let b = FlexBox::vertical()
        .add_component(FlexComponentData::Text(FlexText::new("a")))
        .add_component(FlexComponentData::Separator(FlexSeparator::new().margin("sm").color("#cccccc")))
        .add_component(FlexComponentData::Spacer(FlexSpacer::new("lg")))
        .add_component(FlexComponentData::Filler(FlexFiller))
        .flex(-3)
        .spacing("md")
        .padding("10px")
        .background("#ffffff")
        .corner_radius("4px");
    let json = b.to_json();
    assert_eq!(
        keys(&json),
        vec!["type", "layout", "contents", "flex", "spacing", "paddingAll", "backgroundColor", "cornerRadius"]
    );
    assert_eq!(text_at(&json, &["layout"]), Some("vertical"));
    assert_eq!(number_at(&json, &["flex"]), Some("-3".to_string()));
    let contents = items(at(&json, &["contents"]).unwrap());
    assert_eq!(contents.len(), 4);
    assert_eq!(text_at(&contents[0], &["text"]), Some("a"));
    assert_eq!(text_at(&contents[1], &["type"]), Some("separator"));
    assert_eq!(text_at(&contents[1], &["margin"]), Some("sm"));
    assert_eq!(text_at(&contents[1], &["color"]), Some("#cccccc"));
    assert_eq!(text_at(&contents[2], &["size"]), Some("lg"));
    assert_eq!(keys(&contents[3]), vec!["type"]);
    assert_eq!(text_at(&contents[3], &["type"]), Some("filler"));
}

#[test]
fn flex_nested_box_and_layouts() {
    let inner = FlexBox::horizontal().add_component(FlexComponentData::Text(FlexText::new("in")));
    let outer = FlexBox::new(FlexBoxLayout::Baseline).add_component(FlexComponentData::Box(inner)).margin("xs");
    let json = outer.to_json();
    assert_eq!(text_at(&json, &["layout"]), Some("baseline"));
    assert_eq!(text_at(&json, &["margin"]), Some("xs"));
    let contents = items(at(&json, &["contents"]).unwrap());
    assert_eq!(text_at(&contents[0], &["layout"]), Some("horizontal"));
    let inner_contents = items(at(&contents[0], &["contents"]).unwrap());
    assert_eq!(text_at(&inner_contents[0], &["text"]), Some("in"));
}

#[test]
fn flex_image_button_icon_json() {
    let img = FlexImage::new("https://img").flex(2).margin("none").aspect_ratio("20:13").size("full");
    let json = img.to_json();
    assert_eq!(keys(&json), vec!["type", "url", "flex", "margin", "aspectRatio", "size"]);
    assert_eq!(number_at(&json, &["flex"]), Some("2".to_string()));
    assert_eq!(text_at(&json, &["aspectRatio"]), Some("20:13"));

    let button = FlexButton::new(TemplateAction::Uri {
        label: "Go".into(),
        uri: "https://x".into(),
        alt_uri: None,
    })
    .style(FlexButtonStyle::Primary)
    .margin("lg");
    let json = FlexComponentData::Button(button).to_json();
    assert_eq!(keys(&json), vec!["type", "action", "style", "margin"]);
    assert_eq!(text_at(&json, &["style"]), Some("primary"));
    assert_eq!(text_at(&json, &["action", "type"]), Some("uri"));
    assert_eq!(text_at(&json, &["action", "uri"]), Some("https://x"));

    let icon = FlexIcon::new("https://icon").size("sm").margin("md");
    let json = FlexComponentData::Icon(icon).to_json();
    assert_eq!(keys(&json), vec!["type", "url", "size", "margin"]);
}

#[test]
fn flex_bubble_and_carousel_json() {
    let bubble = FlexBubble::new(FlexBox::vertical())
        .header(FlexBox::horizontal())
        .hero(FlexImage::new("https://hero"))
        .footer(FlexBox::vertical())
        .direction(FlexDirection::RightToLeft);
    let json = bubble.to_json();
    assert_eq!(keys(&json), vec!["type", "body", "header", "hero", "footer", "direction"]);
    assert_eq!(text_at(&json, &["direction"]), Some("rtl"));
    assert_eq!(text_at(&json, &["hero", "url"]), Some("https://hero"));
    assert_eq!(text_at(&json, &["header", "layout"]), Some("horizontal"));

    let carousel = FlexCarousel::new()
        .add_bubble(FlexBubble::new(FlexBox::vertical()))
        .add_bubble(FlexBubble::new(FlexBox::horizontal()).direction(FlexDirection::LeftToRight));
    let json = carousel.to_json();
    assert_eq!(text_at(&json, &["type"]), Some("carousel"));
    let bubbles = items(at(&json, &["contents"]).unwrap());
    assert_eq!(bubbles.len(), 2);
    assert_eq!(keys(&bubbles[0]), vec!["type", "body"]);
    assert_eq!(text_at(&bubbles[1], &["direction"]), Some("ltr"));

    let replaced = FlexCarousel::new().add_bubble(FlexBubble::new(FlexBox::vertical())).contents(vec![]);
    assert_eq!(items(at(&replaced.to_json(), &["contents"]).unwrap()).len(), 0);
}

#[test]
fn flex_box_contents_builder_replaces() {
    let b = FlexBox::vertical()
        .add_component(FlexComponentData::Text(FlexText::new("old")))
        .contents(vec![FlexComponentData::Text(FlexText::new("new"))]);
    assert_eq!(b.contents.len(), 1);
    let json = b.to_json();
    let contents = items(at(&json, &["contents"]).unwrap());
    assert_eq!(text_at(&contents[0], &["text"]), Some("new"));
}

#[test]
fn flex_documented_properties_are_written() {
    let mut b = FlexBox::vertical();
    b.padding_top = Some("1px".into());
    b.padding_bottom = Some("2px".into());
    b.padding_start = Some("3px".into());
    b.padding_end = Some("4px".into());
    b.align_items = Some("center".into());
    b.justify_content = Some("center".into());
    let json = b.to_json();
    assert_eq!(
        keys(&json),
        vec!["type", "layout", "contents", "paddingTop", "paddingBottom", "paddingStart", "paddingEnd", "alignItems", "justifyContent"]
    );
    assert_eq!(text_at(&json, &["justifyContent"]), Some("center"));
    assert_eq!(text_at(&json, &["paddingEnd"]), Some("4px"));

    let mut t = FlexText::new("g");
    t.gravity = Some("bottom".into());
    assert_eq!(text_at(&FlexComponentData::Text(t).to_json(), &["gravity"]), Some("bottom"));

    let mut img = FlexImage::new("https://i");
    img.align_items = Some("top".into());
    assert_eq!(keys(&img.to_json()), vec!["type", "url", "alignItems"]);

    let mut button = FlexButton::new(TemplateAction::Message { label: "a".into(), text: "b".into() });
    button.flex = Some(2);
    let json = FlexComponentData::Button(button).to_json();
    assert_eq!(keys(&json), vec!["type", "action", "flex"]);
    assert_eq!(number_at(&json, &["flex"]), Some("2".to_string()));
}

#[test]
fn flex_clones_render_the_same() {
    let bubble = FlexBubble::new(
        FlexBox::vertical()
            .add_component(FlexComponentData::Text(FlexText::new("hi").bold()))
            .add_component(FlexComponentData::Box(FlexBox::horizontal().spacing("sm"))),
    )
    .hero(FlexImage::new("https://h"))
    .footer(FlexBox::vertical().margin("md"));
    let carousel = FlexCarousel::new().add_bubble(bubble.clone()).add_bubble(bubble);
    let copy = carousel.clone();
    assert_eq!(format!("{:?}", copy.to_json()), format!("{:?}", carousel.to_json()));
}
