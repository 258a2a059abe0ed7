//! Request bodies of the LINE Messaging API: push and reply requests and
//! the message objects they carry.

use vstd::prelude::*;
use vstd::string::StringExecFns;
use crate::channels::json::{
    entries_view, field, int_text, items_view, json_array, json_object, json_str, json_uint,
    opt_str_view, push_item, put, put_opt_str, put_str, with_opt_str, Json, JsonView,
};
use crate::channels::line::actions::{
    quick_reply_action_json, quick_reply_item_json, template_action_json, three_entries,
    QuickReplyAction, QuickReplyItem, TemplateAction, TemplateColumn,
};

verus! {

/// An optional borrowed text, by its view.
pub open spec fn opt_ref_view(o: Option<&str>) -> Option<Seq<char>> {
    match o {
        Some(s) => Some(s@),
        None => None,
    }
}

/// The body of a push request: `{"to": to, "messages": messages}`.
pub open spec fn push_body(to: Seq<char>, messages: JsonView) -> JsonView {
    JsonView::Object(seq![("to"@, JsonView::Str(to)), ("messages"@, messages)])
}

/// The body of a reply request: `{"replyToken": token, "messages": messages}`.
pub open spec fn reply_body(reply_token: Seq<char>, messages: JsonView) -> JsonView {
    JsonView::Object(seq![("replyToken"@, JsonView::Str(reply_token)), ("messages"@, messages)])
}

/// A message list holding one message.
pub open spec fn single(message: JsonView) -> JsonView {
    JsonView::Array(seq![message])
}

/// A text message.
pub open spec fn text_message(text: Seq<char>) -> JsonView {
    JsonView::Object(seq![("type"@, JsonView::Str("text"@)), ("text"@, JsonView::Str(text))])
}

/// A flex message.
pub open spec fn flex_message(alt_text: Seq<char>, contents: JsonView) -> JsonView {
    JsonView::Object(
        seq![
            ("type"@, JsonView::Str("flex"@)),
            ("altText"@, JsonView::Str(alt_text)),
            ("contents"@, contents),
        ],
    )
}

/// A text message with quick reply items.
pub open spec fn quick_reply_message(text: Seq<char>, items: Seq<JsonView>) -> JsonView {
    JsonView::Object(
        seq![
            ("type"@, JsonView::Str("text"@)),
            ("text"@, JsonView::Str(text)),
            ("quickReply"@, JsonView::Object(seq![("items"@, JsonView::Array(items))])),
        ],
    )
}

/// A template message.
pub open spec fn template_message(alt_text: Seq<char>, template: JsonView) -> JsonView {
    JsonView::Object(
        seq![
            ("type"@, JsonView::Str("template"@)),
            ("altText"@, JsonView::Str(alt_text)),
            ("template"@, template),
        ],
    )
}

/// The JSON of each template action, in order.
pub open spec fn actions_json(actions: Seq<TemplateAction>) -> Seq<JsonView> {
    actions.map_values(|a: TemplateAction| template_action_json(a))
}

/// A buttons template.
pub open spec fn buttons_template(
    title: Seq<char>,
    text: Seq<char>,
    thumbnail_image_url: Option<Seq<char>>,
    actions: Seq<TemplateAction>,
) -> JsonView {
    JsonView::Object(
        with_opt_str(
            seq![
                ("type"@, JsonView::Str("buttons"@)),
                ("title"@, JsonView::Str(title)),
                ("text"@, JsonView::Str(text)),
                ("actions"@, JsonView::Array(actions_json(actions))),
            ],
            "thumbnailImageUrl"@,
            thumbnail_image_url,
        ),
    )
}

/// A confirm template.
pub open spec fn confirm_template(
    text: Seq<char>,
    ok_action: TemplateAction,
    cancel_action: TemplateAction,
) -> JsonView {
    JsonView::Object(
        seq![
            ("type"@, JsonView::Str("confirm"@)),
            ("text"@, JsonView::Str(text)),
            (
                "actions"@,
                JsonView::Array(
                    seq![template_action_json(ok_action), template_action_json(cancel_action)],
                ),
            ),
        ],
    )
}

/// A carousel column: title, text and actions, then the optional
/// thumbnailImageUrl, imageBackgroundColor, imageAspectRatio (the column's
/// own, else the carousel's), imageSize and imageContentMode.
pub open spec fn carousel_column(col: TemplateColumn, aspect_ratio: Option<Seq<char>>) -> JsonView {
    JsonView::Object(
        with_opt_str(
            with_opt_str(
                with_opt_str(
                    with_opt_str(
                        with_opt_str(
                            seq![
                                ("title"@, JsonView::Str(col.title@)),
                                ("text"@, JsonView::Str(col.text@)),
                                ("actions"@, JsonView::Array(actions_json(col.actions@))),
                            ],
                            "thumbnailImageUrl"@,
                            opt_str_view(col.thumbnail_image_url),
                        ),
                        "imageBackgroundColor"@,
                        opt_str_view(col.image_background_color),
                    ),
                    "imageAspectRatio"@,
                    match col.image_aspect_ratio {
                        Some(r) => Some(r@),
                        None => aspect_ratio,
                    },
                ),
                "imageSize"@,
                opt_str_view(col.image_size),
            ),
            "imageContentMode"@,
            opt_str_view(col.image_content_mode),
        ),
    )
}

/// The carousel columns, in order.
pub open spec fn carousel_columns(
    columns: Seq<TemplateColumn>,
    aspect_ratio: Option<Seq<char>>,
) -> Seq<JsonView> {
    columns.map_values(|c: TemplateColumn| carousel_column(c, aspect_ratio))
}

/// A carousel template.
pub open spec fn carousel_template(
    columns: Seq<TemplateColumn>,
    aspect_ratio: Option<Seq<char>>,
) -> JsonView {
    JsonView::Object(
        with_opt_str(
            seq![
                ("type"@, JsonView::Str("carousel"@)),
                ("columns"@, JsonView::Array(carousel_columns(columns, aspect_ratio))),
            ],
            "imageAspectRatio"@,
            aspect_ratio,
        ),
    )
}

/// An image carousel column: the thumbnail as image (empty when absent),
/// the first action (or a message action made of the title and text), and
/// the title as label when it is not empty.
pub open spec fn image_column(col: TemplateColumn) -> JsonView {
    JsonView::Object(
        with_opt_str(
            seq![
                (
                    "imageUrl"@,
                    JsonView::Str(
                        match col.thumbnail_image_url {
                            Some(u) => u@,
                            None => Seq::empty(),
                        },
                    ),
                ),
                (
                    "action"@,
                    if col.actions@.len() > 0 {
                        template_action_json(col.actions@[0])
                    } else {
                        JsonView::Object(three_entries("message"@, col.title@, "text"@, col.text@))
                    },
                ),
            ],
            "label"@,
            if col.title@.len() > 0 {
                Some(col.title@)
            } else {
                None
            },
        ),
    )
}

/// An image carousel template.
pub open spec fn image_carousel_template(columns: Seq<TemplateColumn>) -> JsonView {
    JsonView::Object(
        seq![
            ("type"@, JsonView::Str("image_carousel"@)),
            ("columns"@, JsonView::Array(columns.map_values(|c: TemplateColumn| image_column(c)))),
        ],
    )
}

/// An image or video message (`kind` is `image` or `video`).
pub open spec fn media_message(kind: Seq<char>, original: Seq<char>, preview: Seq<char>) -> JsonView {
    JsonView::Object(
        seq![
            ("type"@, JsonView::Str(kind)),
            ("originalContentUrl"@, JsonView::Str(original)),
            ("previewImageUrl"@, JsonView::Str(preview)),
        ],
    )
}

/// An image message.
pub open spec fn image_message(original: Seq<char>, preview: Seq<char>) -> JsonView {
    media_message("image"@, original, preview)
}

/// A video message.
pub open spec fn video_message(original: Seq<char>, preview: Seq<char>) -> JsonView {
    media_message("video"@, original, preview)
}

/// An audio message.
pub open spec fn audio_message(original: Seq<char>, duration: u64) -> JsonView {
    JsonView::Object(
        seq![
            ("type"@, JsonView::Str("audio"@)),
            ("originalContentUrl"@, JsonView::Str(original)),
            ("duration"@, JsonView::Number(int_text(duration as int))),
        ],
    )
}

/// A sticker message.
pub open spec fn sticker_message(package_id: Seq<char>, sticker_id: Seq<char>) -> JsonView {
    JsonView::Object(
        seq![
            ("type"@, JsonView::Str("sticker"@)),
            ("packageId"@, JsonView::Str(package_id)),
            ("stickerId"@, JsonView::Str(sticker_id)),
        ],
    )
}

// ---------------------------------------------------------------------------
// What the bodies hold
// ---------------------------------------------------------------------------

/// The JSON string of an optional text.
pub open spec fn opt_text_view(o: Option<Seq<char>>) -> Option<JsonView> {
    match o {
        Some(s) => Some(JsonView::Str(s)),
        None => None,
    }
}

/// A push request is sent `to` its recipient, a reply request answers its
/// reply token, and both carry the messages as given; a message list of one
/// message holds exactly that message.
pub proof fn lemma_request_bodies(to: Seq<char>, reply_token: Seq<char>, messages: JsonView, m: JsonView)
    ensures
        field(push_body(to, messages), "to"@) == Some(JsonView::Str(to)),
        field(push_body(to, messages), "messages"@) == Some(messages),
        field(push_body(to, messages), "replyToken"@) is None,
        field(reply_body(reply_token, messages), "replyToken"@) == Some(JsonView::Str(reply_token)),
        field(reply_body(reply_token, messages), "messages"@) == Some(messages),
        field(reply_body(reply_token, messages), "to"@) is None,
        single(m) == JsonView::Array(Seq::empty().push(m)),
{
    broadcast use crate::channels::json::group_lookup_entries, crate::channels::json::lemma_lookup_push, crate::channels::json::lemma_lookup_empty;
    reveal_with_fuel(crate::channels::json::lookup, 5);
    reveal_strlit("to");
    reveal_strlit("messages");
    reveal_strlit("replyToken");
    assert("to"@.len() == 2);
    assert("messages"@.len() == 8);
    assert("replyToken"@.len() == 10);
    assert(seq![m] =~= Seq::empty().push(m));
}

/// A text message is `{"type": "text", "text": ..}`; a flex message is
/// `{"type": "flex"}` with its alt text and contents; a quick reply message
/// is a text message whose `quickReply` holds the items in order; a
/// template message is `{"type": "template"}` with its alt text and
/// template.
pub proof fn lemma_message_fields(
    text: Seq<char>,
    alt_text: Seq<char>,
    contents: JsonView,
    items: Seq<JsonView>,
    template: JsonView,
)
    ensures
        field(text_message(text), "type"@) == Some(JsonView::Str("text"@)),
        field(text_message(text), "text"@) == Some(JsonView::Str(text)),
        field(flex_message(alt_text, contents), "type"@) == Some(JsonView::Str("flex"@)),
        field(flex_message(alt_text, contents), "altText"@) == Some(JsonView::Str(alt_text)),
        field(flex_message(alt_text, contents), "contents"@) == Some(contents),
        field(quick_reply_message(text, items), "type"@) == Some(JsonView::Str("text"@)),
        field(quick_reply_message(text, items), "text"@) == Some(JsonView::Str(text)),
        field(quick_reply_message(text, items), "quickReply"@) matches Some(q) && field(q, "items"@)
            == Some(JsonView::Array(items)),
        field(template_message(alt_text, template), "type"@) == Some(JsonView::Str("template"@)),
        field(template_message(alt_text, template), "altText"@) == Some(JsonView::Str(alt_text)),
        field(template_message(alt_text, template), "template"@) == Some(template),
{
    broadcast use crate::channels::json::group_lookup_entries, crate::channels::json::lemma_lookup_push, crate::channels::json::lemma_lookup_empty;
    reveal_with_fuel(crate::channels::json::lookup, 5);
    reveal_strlit("type");
    reveal_strlit("text");
    reveal_strlit("altText");
    reveal_strlit("contents");
    reveal_strlit("quickReply");
    reveal_strlit("items");
    reveal_strlit("template");
    assert("type"@.len() == 4);
    assert("text"@.len() == 4);
    assert("altText"@.len() == 7);
    assert("contents"@.len() == 8);
    assert("quickReply"@.len() == 10);
    assert("items"@.len() == 5);
    assert("template"@.len() == 8);
    assert("contents"@[0] == 'c');
    assert("template"@[0] == 't');
    assert("text"@[1] == 'e');
    assert("type"@[1] == 'y');
}

/// A buttons template is `{"type": "buttons"}` with the title under
/// `title`, the text under `text`, the actions rendered in order and the
/// thumbnail when given.
pub proof fn lemma_buttons_template_fields(
    title: Seq<char>,
    text: Seq<char>,
    thumbnail_image_url: Option<Seq<char>>,
    actions: Seq<TemplateAction>,
)
    ensures
        field(buttons_template(title, text, thumbnail_image_url, actions), "type"@) == Some(
            JsonView::Str("buttons"@),
        ),
        field(buttons_template(title, text, thumbnail_image_url, actions), "title"@) == Some(
            JsonView::Str(title),
        ),
        field(buttons_template(title, text, thumbnail_image_url, actions), "text"@) == Some(
            JsonView::Str(text),
        ),
        field(buttons_template(title, text, thumbnail_image_url, actions), "actions"@) == Some(
            JsonView::Array(Seq::new(actions.len(), |i: int| template_action_json(actions[i]))),
        ),
        field(buttons_template(title, text, thumbnail_image_url, actions), "thumbnailImageUrl"@)
            == opt_text_view(thumbnail_image_url),
{
    broadcast use crate::channels::json::group_lookup_entries, crate::channels::json::lemma_lookup_push, crate::channels::json::lemma_lookup_empty;
    reveal_with_fuel(crate::channels::json::lookup, 5);
    reveal_strlit("type");
    reveal_strlit("title");
    reveal_strlit("text");
    reveal_strlit("actions");
    reveal_strlit("thumbnailImageUrl");
    assert("type"@.len() == 4);
    assert("title"@.len() == 5);
    assert("text"@.len() == 4);
    assert("actions"@.len() == 7);
    assert("thumbnailImageUrl"@.len() == 17);
    assert("text"@[1] == 'e');
    assert("type"@[1] == 'y');
    assert(actions_json(actions) =~= Seq::new(actions.len(), |i: int| template_action_json(actions[i])));
}

/// A confirm template is `{"type": "confirm"}` with its text and exactly
/// two actions: the confirming one first, the cancelling one second.
pub proof fn lemma_confirm_template_fields(text: Seq<char>, ok: TemplateAction, cancel: TemplateAction)
    ensures
        field(confirm_template(text, ok, cancel), "type"@) == Some(JsonView::Str("confirm"@)),
        field(confirm_template(text, ok, cancel), "text"@) == Some(JsonView::Str(text)),
        field(confirm_template(text, ok, cancel), "actions"@) matches Some(JsonView::Array(acts))
            && acts.len() == 2 && acts[0] == template_action_json(ok) && acts[1]
            == template_action_json(cancel),
{
    broadcast use crate::channels::json::group_lookup_entries, crate::channels::json::lemma_lookup_push, crate::channels::json::lemma_lookup_empty;
    reveal_with_fuel(crate::channels::json::lookup, 5);
    reveal_strlit("type");
    reveal_strlit("text");
    reveal_strlit("actions");
    assert("type"@.len() == 4);
    assert("text"@.len() == 4);
    assert("actions"@.len() == 7);
    assert("text"@[1] == 'e');
    assert("type"@[1] == 'y');
}

/// A carousel column holds its title, text and actions in order, and each
/// set image property under its own key; its `imageAspectRatio` is its own
/// when set, else the carousel's. A carousel template is
/// `{"type": "carousel"}` with its columns in order and the carousel's
/// aspect ratio when given.
pub proof fn lemma_carousel_fields(col: TemplateColumn, columns: Seq<TemplateColumn>, ratio: Option<Seq<char>>)
    ensures
        field(carousel_column(col, ratio), "title"@) == Some(JsonView::Str(col.title@)),
        field(carousel_column(col, ratio), "text"@) == Some(JsonView::Str(col.text@)),
        field(carousel_column(col, ratio), "actions"@) == Some(
            JsonView::Array(Seq::new(col.actions@.len(), |i: int| template_action_json(col.actions@[i]))),
        ),
        field(carousel_column(col, ratio), "thumbnailImageUrl"@) == opt_text_view(
            opt_str_view(col.thumbnail_image_url),
        ),
        field(carousel_column(col, ratio), "imageBackgroundColor"@) == opt_text_view(
            opt_str_view(col.image_background_color),
        ),
        field(carousel_column(col, ratio), "imageAspectRatio"@) == match col.image_aspect_ratio {
            Some(r) => Some(JsonView::Str(r@)),
            None => opt_text_view(ratio),
        },
        field(carousel_column(col, ratio), "imageSize"@) == opt_text_view(opt_str_view(col.image_size)),
        field(carousel_column(col, ratio), "imageContentMode"@) == opt_text_view(
            opt_str_view(col.image_content_mode),
        ),
        field(carousel_template(columns, ratio), "type"@) == Some(JsonView::Str("carousel"@)),
        field(carousel_template(columns, ratio), "columns"@) == Some(
            JsonView::Array(Seq::new(columns.len(), |i: int| carousel_column(columns[i], ratio))),
        ),
        field(carousel_template(columns, ratio), "imageAspectRatio"@) == opt_text_view(ratio),
{
    broadcast use crate::channels::json::group_lookup_entries, crate::channels::json::lemma_lookup_push, crate::channels::json::lemma_lookup_empty;
    reveal_with_fuel(crate::channels::json::lookup, 5);
    reveal_strlit("type");
    reveal_strlit("title");
    reveal_strlit("text");
    reveal_strlit("actions");
    reveal_strlit("thumbnailImageUrl");
    reveal_strlit("imageBackgroundColor");
    reveal_strlit("imageAspectRatio");
    reveal_strlit("imageSize");
    reveal_strlit("imageContentMode");
    reveal_strlit("columns");
    assert("type"@.len() == 4);
    assert("title"@.len() == 5);
    assert("text"@.len() == 4);
    assert("actions"@.len() == 7);
    assert("thumbnailImageUrl"@.len() == 17);
    assert("imageBackgroundColor"@.len() == 20);
    assert("imageAspectRatio"@.len() == 16);
    assert("imageSize"@.len() == 9);
    assert("imageContentMode"@.len() == 16);
    assert("columns"@.len() == 7);
    assert("actions"@[0] == 'a');
    assert("columns"@[0] == 'c');
    assert("imageAspectRatio"@[5] == 'A');
    assert("imageContentMode"@[5] == 'C');
    assert("text"@[1] == 'e');
    assert("type"@[1] == 'y');
    assert(actions_json(col.actions@) =~= Seq::new(col.actions@.len(), |i: int| template_action_json(col.actions@[i])));
    assert(carousel_columns(columns, ratio) =~= Seq::new(columns.len(), |i: int| carousel_column(columns[i], ratio)));
}

/// An image carousel column shows its thumbnail (the empty text when it
/// has none), acts as its first action (or, with no action, as a message
/// action labelled with its title that sends its text), and is labelled with
/// its title when the title is not empty. An image carousel template is
/// `{"type": "image_carousel"}` with its columns in order.
pub proof fn lemma_image_carousel_fields(col: TemplateColumn, columns: Seq<TemplateColumn>)
    ensures
        field(image_column(col), "imageUrl"@) == Some(
            JsonView::Str(
                match col.thumbnail_image_url {
                    Some(u) => u@,
                    None => Seq::empty(),
                },
            ),
        ),
        col.actions@.len() > 0 ==> field(image_column(col), "action"@) == Some(
            template_action_json(col.actions@[0]),
        ),
        col.actions@.len() == 0 ==> (field(image_column(col), "action"@) matches Some(act) && field(
            act,
            "type"@,
        ) == Some(JsonView::Str("message"@)) && field(act, "label"@) == Some(JsonView::Str(col.title@))
            && field(act, "text"@) == Some(JsonView::Str(col.text@))),
        field(image_column(col), "label"@) == if col.title@.len() > 0 {
            Some(JsonView::Str(col.title@))
        } else {
            None
        },
        field(image_carousel_template(columns), "type"@) == Some(JsonView::Str("image_carousel"@)),
        field(image_carousel_template(columns), "columns"@) == Some(
            JsonView::Array(Seq::new(columns.len(), |i: int| image_column(columns[i]))),
        ),
{
    broadcast use crate::channels::json::group_lookup_entries, crate::channels::json::lemma_lookup_push, crate::channels::json::lemma_lookup_empty;
    reveal_with_fuel(crate::channels::json::lookup, 5);
    reveal_strlit("type");
    reveal_strlit("imageUrl");
    reveal_strlit("action");
    reveal_strlit("label");
    reveal_strlit("text");
    reveal_strlit("columns");
    assert("type"@.len() == 4);
    assert("imageUrl"@.len() == 8);
    assert("action"@.len() == 6);
    assert("label"@.len() == 5);
    assert("text"@.len() == 4);
    assert("columns"@.len() == 7);
    assert("text"@[1] == 'e');
    assert("type"@[1] == 'y');
    assert(columns.map_values(|c: TemplateColumn| image_column(c)) =~= Seq::new(columns.len(), |i: int| image_column(columns[i])));
}

/// Media messages: an image, video or audio message has its own type
/// (`image`, `video`, `audio`) and its content URL; image and video carry
/// the preview URL, audio its duration in milliseconds; a sticker message
/// is `{"type": "sticker"}` with its package and sticker ids.
pub proof fn lemma_media_message_fields(
    original: Seq<char>,
    preview: Seq<char>,
    duration: u64,
    package_id: Seq<char>,
    sticker_id: Seq<char>,
)
    ensures
        field(image_message(original, preview), "type"@) == Some(JsonView::Str("image"@)),
        field(video_message(original, preview), "type"@) == Some(JsonView::Str("video"@)),
        field(image_message(original, preview), "originalContentUrl"@) == Some(JsonView::Str(original)),
        field(video_message(original, preview), "originalContentUrl"@) == Some(JsonView::Str(original)),
        field(image_message(original, preview), "previewImageUrl"@) == Some(JsonView::Str(preview)),
        field(video_message(original, preview), "previewImageUrl"@) == Some(JsonView::Str(preview)),
        field(audio_message(original, duration), "type"@) == Some(JsonView::Str("audio"@)),
        field(audio_message(original, duration), "originalContentUrl"@) == Some(JsonView::Str(original)),
        field(audio_message(original, duration), "duration"@) == Some(
            JsonView::Number(int_text(duration as int)),
        ),
        field(sticker_message(package_id, sticker_id), "type"@) == Some(JsonView::Str("sticker"@)),
        field(sticker_message(package_id, sticker_id), "packageId"@) == Some(JsonView::Str(package_id)),
        field(sticker_message(package_id, sticker_id), "stickerId"@) == Some(JsonView::Str(sticker_id)),
{
    broadcast use crate::channels::json::group_lookup_entries, crate::channels::json::lemma_lookup_push, crate::channels::json::lemma_lookup_empty;
    reveal_with_fuel(crate::channels::json::lookup, 5);
    reveal_strlit("type");
    reveal_strlit("originalContentUrl");
    reveal_strlit("previewImageUrl");
    reveal_strlit("duration");
    reveal_strlit("packageId");
    reveal_strlit("stickerId");
    assert("type"@.len() == 4);
    assert("originalContentUrl"@.len() == 18);
    assert("previewImageUrl"@.len() == 15);
    assert("duration"@.len() == 8);
    assert("packageId"@.len() == 9);
    assert("stickerId"@.len() == 9);
    assert("packageId"@[0] == 'p');
    assert("stickerId"@[0] == 's');
}

fn object3(k1: &str, v1: Json, k2: &str, v2: Json, k3: &str, v3: Json) -> (r: Json)
    ensures
        r@ == JsonView::Object(seq![(k1@, v1@), (k2@, v2@), (k3@, v3@)]),
{
    let mut es: Vec<(String, Json)> = Vec::new();
    assert(entries_view(es@) =~= seq![]);
    put(&mut es, k1, v1);
    put(&mut es, k2, v2);
    put(&mut es, k3, v3);
    let r = json_object(es);
    assert(r@->Object_0 =~= seq![(k1@, v1@), (k2@, v2@), (k3@, v3@)]);
    r
}

fn object2(k1: &str, v1: Json, k2: &str, v2: Json) -> (r: Json)
    ensures
        r@ == JsonView::Object(seq![(k1@, v1@), (k2@, v2@)]),
{
    let mut es: Vec<(String, Json)> = Vec::new();
    assert(entries_view(es@) =~= seq![]);
    put(&mut es, k1, v1);
    put(&mut es, k2, v2);
    let r = json_object(es);
    assert(r@->Object_0 =~= seq![(k1@, v1@), (k2@, v2@)]);
    r
}

/// A message list holding one message.
pub fn single_message(message: Json) -> (r: Json)
    ensures
        r@ == single(message@),
{
    let mut items: Vec<Json> = Vec::new();
    assert(items_view(items@) =~= seq![]);
    push_item(&mut items, message);
    let r = json_array(items);
    assert(r@->Array_0 =~= seq![message@]);
    r
}

/// The body of a push request to `to`.
pub fn push_request(to: &str, messages: Json) -> (r: Json)
    ensures
        r@ == push_body(to@, messages@),
{
    object2("to", json_str(to), "messages", messages)
}

/// The body of a reply request answering `reply_token`.
pub fn reply_request(reply_token: &str, messages: Json) -> (r: Json)
    ensures
        r@ == reply_body(reply_token@, messages@),
{
    object2("replyToken", json_str(reply_token), "messages", messages)
}

/// One text message.
pub fn text_messages(text: &str) -> (r: Json)
    ensures
        r@ == single(text_message(text@)),
{
    single_message(object2("type", json_str("text"), "text", json_str(text)))
}

/// One flex message.
pub fn flex_messages(alt_text: &str, contents: Json) -> (r: Json)
    ensures
        r@ == single(flex_message(alt_text@, contents@)),
{
    single_message(object3("type", json_str("flex"), "altText", json_str(alt_text), "contents", contents))
}

fn quick_reply_text(text: &str, items: Vec<Json>) -> (r: Json)
    ensures
        r@ == quick_reply_message(text@, items_view(items@)),
{
    let mut es: Vec<(String, Json)> = Vec::new();
    assert(entries_view(es@) =~= seq![]);
    put(&mut es, "items", json_array(items));
    let quick = json_object(es);
    assert(quick@->Object_0 =~= seq![("items"@, JsonView::Array(items_view(items@)))]);
    object3("type", json_str("text"), "text", json_str(text), "quickReply", quick)
}

/// One text message with a quick reply item per action.
pub fn quick_reply_action_messages(text: &str, actions: &Vec<QuickReplyAction>) -> (r: Json)
    ensures
        r@ == single(
            quick_reply_message(
                text@,
                actions@.map_values(|a: QuickReplyAction| quick_reply_action_json(a)),
            ),
        ),
{
    let mut items: Vec<Json> = Vec::new();
    let mut i: usize = 0;
    while i < actions.len()
        invariant
            0 <= i <= actions.len(),
            items_view(items@) =~= actions@.take(i as int).map_values(
                |a: QuickReplyAction| quick_reply_action_json(a),
            ),
        decreases actions.len() - i,
    {
        push_item(&mut items, actions[i].to_json());
        i = i + 1;
    }
    assert(actions@.take(actions.len() as int) =~= actions@);
    single_message(quick_reply_text(text, items))
}

/// One text message with a quick reply item per legacy item.
pub fn quick_reply_item_messages(text: &str, items_in: &Vec<QuickReplyItem>) -> (r: Json)
    ensures
        r@ == single(
            quick_reply_message(
                text@,
                items_in@.map_values(|it: QuickReplyItem| quick_reply_item_json(it)),
            ),
        ),
{
    let mut items: Vec<Json> = Vec::new();
    let mut i: usize = 0;
    while i < items_in.len()
        invariant
            0 <= i <= items_in.len(),
            items_view(items@) =~= items_in@.take(i as int).map_values(
                |it: QuickReplyItem| quick_reply_item_json(it),
            ),
        decreases items_in.len() - i,
    {
        push_item(&mut items, items_in[i].to_json());
        i = i + 1;
    }
    assert(items_in@.take(items_in.len() as int) =~= items_in@);
    single_message(quick_reply_text(text, items))
}

/// The JSON array of some template actions.
fn template_actions(actions: &Vec<TemplateAction>) -> (r: Json)
    ensures
        r@ == JsonView::Array(actions_json(actions@)),
{
    let mut items: Vec<Json> = Vec::new();
    let mut i: usize = 0;
    while i < actions.len()
        invariant
            0 <= i <= actions.len(),
            items_view(items@) =~= actions_json(actions@.take(i as int)),
        decreases actions.len() - i,
    {
        push_item(&mut items, actions[i].to_json());
        i = i + 1;
    }
    assert(actions@.take(actions.len() as int) =~= actions@);
    json_array(items)
}

fn opt_text(o: Option<&str>) -> (r: Option<String>)
    ensures
        opt_str_view(r) == opt_ref_view(o),
{
    match o {
        Some(s) => Some(s.to_owned()),
        None => None,
    }
}

/// A buttons template.
pub fn buttons_template_json(
    title: &str,
    text: &str,
    thumbnail_image_url: Option<&str>,
    actions: &Vec<TemplateAction>,
) -> (r: Json)
    ensures
        r@ == buttons_template(title@, text@, opt_ref_view(thumbnail_image_url), actions@),
{
    let mut es: Vec<(String, Json)> = Vec::new();
    assert(entries_view(es@) =~= seq![]);
    put_str(&mut es, "type", "buttons");
    put_str(&mut es, "title", title);
    put_str(&mut es, "text", text);
    put(&mut es, "actions", template_actions(actions));
    assert(entries_view(es@) =~= seq![
        ("type"@, JsonView::Str("buttons"@)),
        ("title"@, JsonView::Str(title@)),
        ("text"@, JsonView::Str(text@)),
        ("actions"@, JsonView::Array(actions_json(actions@))),
    ]);
    put_opt_str(&mut es, "thumbnailImageUrl", &opt_text(thumbnail_image_url));
    json_object(es)
}

/// One buttons template message.
pub fn buttons_template_messages(
    alt_text: &str,
    title: &str,
    text: &str,
    thumbnail_image_url: Option<&str>,
    actions: &Vec<TemplateAction>,
) -> (r: Json)
    ensures
        r@ == single(
            template_message(
                alt_text@,
                buttons_template(title@, text@, opt_ref_view(thumbnail_image_url), actions@),
            ),
        ),
{
    let template = buttons_template_json(title, text, thumbnail_image_url, actions);
    single_message(
        object3("type", json_str("template"), "altText", json_str(alt_text), "template", template),
    )
}

/// One confirm template message (a yes / no dialog).
pub fn confirm_template_messages(
    alt_text: &str,
    text: &str,
    ok_action: &TemplateAction,
    cancel_action: &TemplateAction,
) -> (r: Json)
    ensures
        r@ == single(template_message(alt_text@, confirm_template(text@, *ok_action, *cancel_action))),
{
    let mut items: Vec<Json> = Vec::new();
    assert(items_view(items@) =~= seq![]);
    push_item(&mut items, ok_action.to_json());
    push_item(&mut items, cancel_action.to_json());
    let actions = json_array(items);
    assert(actions@->Array_0 =~= seq![
        template_action_json(*ok_action),
        template_action_json(*cancel_action),
    ]);
    let template = object3("type", json_str("confirm"), "text", json_str(text), "actions", actions);
    single_message(
        object3("type", json_str("template"), "altText", json_str(alt_text), "template", template),
    )
}

fn carousel_column_json(col: &TemplateColumn, aspect_ratio: Option<&str>) -> (r: Json)
    ensures
        r@ == carousel_column(*col, opt_ref_view(aspect_ratio)),
{
    let mut es: Vec<(String, Json)> = Vec::new();
    assert(entries_view(es@) =~= seq![]);
    put_str(&mut es, "title", col.title.as_str());
    put_str(&mut es, "text", col.text.as_str());
    put(&mut es, "actions", template_actions(&col.actions));
    assert(entries_view(es@) =~= seq![
        ("title"@, JsonView::Str(col.title@)),
        ("text"@, JsonView::Str(col.text@)),
        ("actions"@, JsonView::Array(actions_json(col.actions@))),
    ]);
    put_opt_str(&mut es, "thumbnailImageUrl", &col.thumbnail_image_url);
    put_opt_str(&mut es, "imageBackgroundColor", &col.image_background_color);
    match &col.image_aspect_ratio {
        Some(ratio) => put_str(&mut es, "imageAspectRatio", ratio.as_str()),
        None => put_opt_str(&mut es, "imageAspectRatio", &opt_text(aspect_ratio)),
    }
    put_opt_str(&mut es, "imageSize", &col.image_size);
    put_opt_str(&mut es, "imageContentMode", &col.image_content_mode);
    json_object(es)
}

/// One carousel template message (scrollable columns).
pub fn carousel_template_messages(
    alt_text: &str,
    columns: &Vec<TemplateColumn>,
    image_aspect_ratio: Option<&str>,
) -> (r: Json)
    ensures
        r@ == single(
            template_message(alt_text@, carousel_template(columns@, opt_ref_view(image_aspect_ratio))),
        ),
{
    let ghost ratio = opt_ref_view(image_aspect_ratio);
    let mut items: Vec<Json> = Vec::new();
    let mut i: usize = 0;
    while i < columns.len()
        invariant
            0 <= i <= columns.len(),
            ratio == opt_ref_view(image_aspect_ratio),
            items_view(items@) =~= carousel_columns(columns@.take(i as int), ratio),
        decreases columns.len() - i,
    {
        push_item(&mut items, carousel_column_json(&columns[i], image_aspect_ratio));
        i = i + 1;
    }
    assert(columns@.take(columns.len() as int) =~= columns@);
    let mut es: Vec<(String, Json)> = Vec::new();
    assert(entries_view(es@) =~= seq![]);
    put_str(&mut es, "type", "carousel");
    put(&mut es, "columns", json_array(items));
    assert(entries_view(es@) =~= seq![
        ("type"@, JsonView::Str("carousel"@)),
        ("columns"@, JsonView::Array(carousel_columns(columns@, ratio))),
    ]);
    put_opt_str(&mut es, "imageAspectRatio", &opt_text(image_aspect_ratio));
    let template = json_object(es);
    single_message(
        object3("type", json_str("template"), "altText", json_str(alt_text), "template", template),
    )
}

fn image_column_json(col: &TemplateColumn) -> (r: Json)
    ensures
        r@ == image_column(*col),
{
    let mut es: Vec<(String, Json)> = Vec::new();
    assert(entries_view(es@) =~= seq![]);
    match &col.thumbnail_image_url {
        Some(u) => put_str(&mut es, "imageUrl", u.as_str()),
        None => {
            proof {
                reveal_strlit("");
            }
            put_str(&mut es, "imageUrl", "");
        },
    }
    if col.actions.len() > 0 {
        put(&mut es, "action", col.actions[0].to_json());
    } else {
        let mut action: Vec<(String, Json)> = Vec::new();
        assert(entries_view(action@) =~= seq![]);
        put_str(&mut action, "type", "message");
        put_str(&mut action, "label", col.title.as_str());
        put_str(&mut action, "text", col.text.as_str());
        assert(entries_view(action@) =~= three_entries("message"@, col.title@, "text"@, col.text@));
        put(&mut es, "action", json_object(action));
    }
    assert(entries_view(es@).len() == 2);
    assert(entries_view(es@)[0] == (
            "imageUrl"@,
            JsonView::Str(
                match col.thumbnail_image_url {
                    Some(u) => u@,
                    None => Seq::empty(),
                },
            ),
        ));
    assert(entries_view(es@) =~= seq![
        (
            "imageUrl"@,
            JsonView::Str(
                match col.thumbnail_image_url {
                    Some(u) => u@,
                    None => Seq::empty(),
                },
            ),
        ),
        (
            "action"@,
            if col.actions@.len() > 0 {
                template_action_json(col.actions@[0])
            } else {
                JsonView::Object(three_entries("message"@, col.title@, "text"@, col.text@))
            },
        ),
    ]);
    if col.title.as_str().unicode_len() > 0 {
        put_str(&mut es, "label", col.title.as_str());
    }
    json_object(es)
}

/// One image carousel template message (several images).
pub fn image_carousel_template_messages(alt_text: &str, columns: &Vec<TemplateColumn>) -> (r: Json)
    ensures
        r@ == single(template_message(alt_text@, image_carousel_template(columns@))),
{
    let mut items: Vec<Json> = Vec::new();
    let mut i: usize = 0;
    while i < columns.len()
        invariant
            0 <= i <= columns.len(),
            items_view(items@) =~= columns@.take(i as int).map_values(
                |c: TemplateColumn| image_column(c),
            ),
        decreases columns.len() - i,
    {
        push_item(&mut items, image_column_json(&columns[i]));
        i = i + 1;
    }
    assert(columns@.take(columns.len() as int) =~= columns@);
    let template = object2("type", json_str("image_carousel"), "columns", json_array(items));
    single_message(
        object3("type", json_str("template"), "altText", json_str(alt_text), "template", template),
    )
}

/// One image message.
pub fn image_messages(original_content_url: &str, preview_image_url: &str) -> (r: Json)
    ensures
        r@ == single(image_message(original_content_url@, preview_image_url@)),
{
    single_message(
        object3(
            "type",
            json_str("image"),
            "originalContentUrl",
            json_str(original_content_url),
            "previewImageUrl",
            json_str(preview_image_url),
        ),
    )
}

/// One video message.
pub fn video_messages(original_content_url: &str, preview_image_url: &str) -> (r: Json)
    ensures
        r@ == single(video_message(original_content_url@, preview_image_url@)),
{
    single_message(
        object3(
            "type",
            json_str("video"),
            "originalContentUrl",
            json_str(original_content_url),
            "previewImageUrl",
            json_str(preview_image_url),
        ),
    )
}

/// One audio message.
pub fn audio_messages(original_content_url: &str, duration: u64) -> (r: Json)
    ensures
        r@ == single(audio_message(original_content_url@, duration)),
{
    single_message(
        object3(
            "type",
            json_str("audio"),
            "originalContentUrl",
            json_str(original_content_url),
            "duration",
            json_uint(duration),
        ),
    )
}

/// One sticker message.
pub fn sticker_messages(package_id: &str, sticker_id: &str) -> (r: Json)
    ensures
        r@ == single(sticker_message(package_id@, sticker_id@)),
{
    single_message(
        object3(
            "type",
            json_str("sticker"),
            "packageId",
            json_str(package_id),
            "stickerId",
            json_str(sticker_id),
        ),
    )
}

/// The URL an image for `to` is uploaded to.
pub fn upload_url(to: &str) -> (r: String)
    ensures
        r@ == "https://api.line.me/v2/bot/message/"@ + to@ + "/upload"@,
{
    let mut s = String::new();
    s.append("https://api.line.me/v2/bot/message/");
    s.append(to);
    s.append("/upload");
    assert(s@ =~= "https://api.line.me/v2/bot/message/"@ + to@ + "/upload"@);
    s
}

/// The content id of an upload response: its `id` entry, when that is a
/// string.
pub fn upload_content_id(response: &Json) -> (r: Option<String>)
    ensures
        match r {
            Some(id) => field(response@, "id"@) == Some(JsonView::Str(id@)),
            None => !(field(response@, "id"@) matches Some(JsonView::Str(_))),
        },
{
    match response.get("id") {
        Some(v) => match v.as_str() {
            Some(s) => Some(s.to_owned()),
            None => None,
        },
        None => None,
    }
}

} // verus!
