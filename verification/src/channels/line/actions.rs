//! Actions attached to LINE quick replies, templates and flex buttons.

use vstd::prelude::*;
use crate::channels::json::{
    entries_view, field, json_object, opt_str_view, put, put_opt, put_opt_str, put_str, with_opt,
    with_opt_str, Json, JsonView,
};

verus! {

/// Quick reply action types for LINE messages.
#[allow(inconsistent_fields)]
#[derive(Debug, Clone)]
pub enum QuickReplyAction {
    /// Sends a text message when tapped.
    Message { label: String, text: String },
    /// Sends data through a postback event.
    Postback { label: String, data: String, text: Option<String> },
    /// Opens a URL.
    Uri { label: String, uri: String, alt_uri: Option<String> },
    /// Sends a date value.
    DatePicker {
        label: String,
        data: String,
        initial: Option<String>,
        max: Option<String>,
        min: Option<String>,
    },
    /// Sends a time value.
    TimePicker { label: String, data: String, initial: Option<String> },
    /// Sends a date and time value.
    DateTimePicker {
        label: String,
        data: String,
        initial: Option<String>,
        max: Option<String>,
        min: Option<String>,
    },
}

/// Action for template message buttons.
#[allow(inconsistent_fields)]
#[derive(Debug, Clone)]
pub enum TemplateAction {
    Message { label: String, text: String },
    Postback { label: String, data: String, text: Option<String> },
    Uri { label: String, uri: String, alt_uri: Option<String> },
    DatetimePicker {
        label: String,
        data: String,
        mode: String,
        initial: Option<String>,
        max: Option<String>,
        min: Option<String>,
    },
}

/// Template message column for carousels.
#[derive(Debug, Clone)]
pub struct TemplateColumn {
    pub title: String,
    pub text: String,
    pub thumbnail_image_url: Option<String>,
    pub image_background_color: Option<String>,
    pub image_aspect_ratio: Option<String>,
    pub image_size: Option<String>,
    pub image_content_mode: Option<String>,
    pub actions: Vec<TemplateAction>,
}

/// Quick reply item for LINE messages (the older form, a message action
/// only; `QuickReplyAction` offers every action type).
pub struct QuickReplyItem {
    pub label: String,
    pub text: String,
}

/// The entries `type`, `label` and a third string entry.
pub open spec fn three_entries(
    kind: Seq<char>,
    label: Seq<char>,
    key: Seq<char>,
    value: Seq<char>,
) -> Seq<(Seq<char>, JsonView)> {
    seq![
        ("type"@, JsonView::Str(kind)),
        ("label"@, JsonView::Str(label)),
        (key, JsonView::Str(value)),
    ]
}

/// `{"desktop": url}` when an alternative URL is given.
pub open spec fn alt_uri_view(alt_uri: Option<Seq<char>>) -> Option<JsonView> {
    match alt_uri {
        Some(u) => Some(JsonView::Object(seq![("desktop"@, JsonView::Str(u))])),
        None => None,
    }
}

/// The entries of a picker action: type, label, data and the optional
/// initial / max / min values.
pub open spec fn picker_entries(
    kind: Seq<char>,
    label: Seq<char>,
    data: Seq<char>,
    initial: Option<Seq<char>>,
    max: Option<Seq<char>>,
    min: Option<Seq<char>>,
) -> Seq<(Seq<char>, JsonView)> {
    with_opt_str(
        with_opt_str(
            with_opt_str(three_entries(kind, label, "data"@, data), "initial"@, initial),
            "max"@,
            max,
        ),
        "min"@,
        min,
    )
}

/// The action object (the inner `action` value) of a quick reply action.
pub open spec fn quick_reply_action_object(a: QuickReplyAction) -> JsonView {
    match a {
        QuickReplyAction::Message { label, text } => JsonView::Object(
            three_entries("message"@, label@, "text"@, text@),
        ),
        QuickReplyAction::Postback { label, data, text } => JsonView::Object(
            with_opt_str(three_entries("postback"@, label@, "data"@, data@), "text"@, opt_str_view(text)),
        ),
        QuickReplyAction::Uri { label, uri, alt_uri } => JsonView::Object(
            with_opt(
                three_entries("uri"@, label@, "uri"@, uri@),
                "altUri"@,
                alt_uri_view(opt_str_view(alt_uri)),
            ),
        ),
        QuickReplyAction::DatePicker { label, data, initial, max, min } => JsonView::Object(
            picker_entries(
                "datepicker"@,
                label@,
                data@,
                opt_str_view(initial),
                opt_str_view(max),
                opt_str_view(min),
            ),
        ),
        QuickReplyAction::TimePicker { label, data, initial } => JsonView::Object(
            picker_entries("timepicker"@, label@, data@, opt_str_view(initial), None, None),
        ),
        QuickReplyAction::DateTimePicker { label, data, initial, max, min } => JsonView::Object(
            picker_entries(
                "datetimepicker"@,
                label@,
                data@,
                opt_str_view(initial),
                opt_str_view(max),
                opt_str_view(min),
            ),
        ),
    }
}

/// The quick reply item of an action: `{"type": "action", "action": ...}`.
pub open spec fn quick_reply_action_json(a: QuickReplyAction) -> JsonView {
    JsonView::Object(
        seq![("type"@, JsonView::Str("action"@)), ("action"@, quick_reply_action_object(a))],
    )
}

/// The JSON object of a template action.
pub open spec fn template_action_json(a: TemplateAction) -> JsonView {
    match a {
        TemplateAction::Message { label, text } => JsonView::Object(
            three_entries("message"@, label@, "text"@, text@),
        ),
        TemplateAction::Postback { label, data, text } => JsonView::Object(
            with_opt_str(three_entries("postback"@, label@, "data"@, data@), "text"@, opt_str_view(text)),
        ),
        TemplateAction::Uri { label, uri, alt_uri } => JsonView::Object(
            with_opt(
                three_entries("uri"@, label@, "uri"@, uri@),
                "altUri"@,
                alt_uri_view(opt_str_view(alt_uri)),
            ),
        ),
        TemplateAction::DatetimePicker { label, data, mode, initial, max, min } => JsonView::Object(
            with_opt_str(
                with_opt_str(
                    with_opt_str(
                        three_entries("datetimepicker"@, label@, "data"@, data@).push(
                            ("mode"@, JsonView::Str(mode@)),
                        ),
                        "initial"@,
                        opt_str_view(initial),
                    ),
                    "max"@,
                    opt_str_view(max),
                ),
                "min"@,
                opt_str_view(min),
            ),
        ),
    }
}

/// The quick reply item of a legacy item: a message action.
pub open spec fn quick_reply_item_json(item: QuickReplyItem) -> JsonView {
    JsonView::Object(
        seq![
            ("type"@, JsonView::Str("action"@)),
            ("action"@, JsonView::Object(three_entries("message"@, item.label@, "text"@, item.text@))),
        ],
    )
}

/// The optional JSON string of an optional text.
pub open spec fn opt_text_json(o: Option<String>) -> Option<JsonView> {
    match o {
        Some(s) => Some(JsonView::Str(s@)),
        None => None,
    }
}

/// The action type of a quick reply action, by its variant.
pub open spec fn quick_reply_kind(a: QuickReplyAction) -> Seq<char> {
    match a {
        QuickReplyAction::Message { .. } => "message"@,
        QuickReplyAction::Postback { .. } => "postback"@,
        QuickReplyAction::Uri { .. } => "uri"@,
        QuickReplyAction::DatePicker { .. } => "datepicker"@,
        QuickReplyAction::TimePicker { .. } => "timepicker"@,
        QuickReplyAction::DateTimePicker { .. } => "datetimepicker"@,
    }
}

/// A quick reply item is `{"type": "action", "action": ..}`, whose action
/// has the type of its variant (`message`, `postback`, `uri`, `datepicker`,
/// `timepicker`, `datetimepicker`) and its label, and carries each field of
/// the variant under its own key: `text` (a message's, or a postback's when
/// set), `data`, `uri`, `altUri` as `{"desktop": ..}` when set, and the
/// pickers' set `initial`, `max` and `min`.
pub proof fn lemma_quick_reply_action_fields(a: QuickReplyAction)
    ensures
        field(quick_reply_action_json(a), "type"@) == Some(JsonView::Str("action"@)),
        field(quick_reply_action_json(a), "action"@) == Some(quick_reply_action_object(a)),
        field(quick_reply_action_object(a), "type"@) == Some(JsonView::Str(quick_reply_kind(a))),
        match a {
            QuickReplyAction::Message { label, text } => {
                &&& field(quick_reply_action_object(a), "label"@) == Some(JsonView::Str(label@))
                &&& field(quick_reply_action_object(a), "text"@) == Some(JsonView::Str(text@))
            },
            QuickReplyAction::Postback { label, data, text } => {
                &&& field(quick_reply_action_object(a), "label"@) == Some(JsonView::Str(label@))
                &&& field(quick_reply_action_object(a), "data"@) == Some(JsonView::Str(data@))
                &&& field(quick_reply_action_object(a), "text"@) == opt_text_json(text)
            },
            QuickReplyAction::Uri { label, uri, alt_uri } => {
                &&& field(quick_reply_action_object(a), "label"@) == Some(JsonView::Str(label@))
                &&& field(quick_reply_action_object(a), "uri"@) == Some(JsonView::Str(uri@))
                &&& field(quick_reply_action_object(a), "altUri"@) == match alt_uri {
                    Some(u) => Some(JsonView::Object(seq![("desktop"@, JsonView::Str(u@))])),
                    None => None,
                }
            },
            QuickReplyAction::DatePicker { label, data, initial, max, min } => {
                &&& field(quick_reply_action_object(a), "label"@) == Some(JsonView::Str(label@))
                &&& field(quick_reply_action_object(a), "data"@) == Some(JsonView::Str(data@))
                &&& field(quick_reply_action_object(a), "initial"@) == opt_text_json(initial)
                &&& field(quick_reply_action_object(a), "max"@) == opt_text_json(max)
                &&& field(quick_reply_action_object(a), "min"@) == opt_text_json(min)
            },
            QuickReplyAction::TimePicker { label, data, initial } => {
                &&& field(quick_reply_action_object(a), "label"@) == Some(JsonView::Str(label@))
                &&& field(quick_reply_action_object(a), "data"@) == Some(JsonView::Str(data@))
                &&& field(quick_reply_action_object(a), "initial"@) == opt_text_json(initial)
                &&& field(quick_reply_action_object(a), "max"@) is None
                &&& field(quick_reply_action_object(a), "min"@) is None
            },
            QuickReplyAction::DateTimePicker { label, data, initial, max, min } => {
                &&& field(quick_reply_action_object(a), "label"@) == Some(JsonView::Str(label@))
                &&& field(quick_reply_action_object(a), "data"@) == Some(JsonView::Str(data@))
                &&& field(quick_reply_action_object(a), "initial"@) == opt_text_json(initial)
                &&& field(quick_reply_action_object(a), "max"@) == opt_text_json(max)
                &&& field(quick_reply_action_object(a), "min"@) == opt_text_json(min)
            },
        },
{
    broadcast use crate::channels::json::group_lookup_entries;
    reveal_with_fuel(crate::channels::json::lookup, 4);
    reveal_strlit("type");
    reveal_strlit("label");
    reveal_strlit("text");
    reveal_strlit("data");
    reveal_strlit("uri");
    reveal_strlit("altUri");
    reveal_strlit("desktop");
    reveal_strlit("initial");
    reveal_strlit("max");
    reveal_strlit("min");
    reveal_strlit("action");
    reveal_strlit("mode");
    assert("type"@ =~= seq!['t', 'y', 'p', 'e']);
    assert("label"@ =~= seq!['l', 'a', 'b', 'e', 'l']);
    assert("text"@ =~= seq!['t', 'e', 'x', 't']);
    assert("data"@ =~= seq!['d', 'a', 't', 'a']);
    assert("uri"@ =~= seq!['u', 'r', 'i']);
    assert("altUri"@ =~= seq!['a', 'l', 't', 'U', 'r', 'i']);
    assert("desktop"@ =~= seq!['d', 'e', 's', 'k', 't', 'o', 'p']);
    assert("initial"@ =~= seq!['i', 'n', 'i', 't', 'i', 'a', 'l']);
    assert("max"@ =~= seq!['m', 'a', 'x']);
    assert("min"@ =~= seq!['m', 'i', 'n']);
    assert("action"@ =~= seq!['a', 'c', 't', 'i', 'o', 'n']);
    assert("mode"@ =~= seq!['m', 'o', 'd', 'e']);
}

/// The quick reply action types differ from variant to variant.
pub proof fn lemma_quick_reply_kinds_distinct(a: QuickReplyAction, b: QuickReplyAction)
    ensures
        quick_reply_kind(a) == quick_reply_kind(b) ==> (a is Message <==> b is Message) && (
        a is Postback <==> b is Postback) && (a is Uri <==> b is Uri) && (a is DatePicker
            <==> b is DatePicker) && (a is TimePicker <==> b is TimePicker) && (a is DateTimePicker
            <==> b is DateTimePicker),
{
    reveal_strlit("message");
    reveal_strlit("postback");
    reveal_strlit("uri");
    reveal_strlit("datepicker");
    reveal_strlit("timepicker");
    reveal_strlit("datetimepicker");
    assert("message"@ =~= seq!['m', 'e', 's', 's', 'a', 'g', 'e']);
    assert("postback"@ =~= seq!['p', 'o', 's', 't', 'b', 'a', 'c', 'k']);
    assert("uri"@ =~= seq!['u', 'r', 'i']);
    assert("datepicker"@ =~= seq!['d', 'a', 't', 'e', 'p', 'i', 'c', 'k', 'e', 'r']);
    assert("timepicker"@ =~= seq!['t', 'i', 'm', 'e', 'p', 'i', 'c', 'k', 'e', 'r']);
    assert("datetimepicker"@ =~= seq!['d', 'a', 't', 'e', 't', 'i', 'm', 'e', 'p', 'i', 'c', 'k', 'e', 'r']);
}

/// A template action has the type of its variant (`message`, `postback`,
/// `uri`, `datetimepicker`) and its label, and carries each field of the
/// variant under its own key: `text`, `data`, `uri`, `altUri` as
/// `{"desktop": ..}` when set, and the picker's `mode` and set `initial`,
/// `max` and `min`.
pub proof fn lemma_template_action_fields(a: TemplateAction)
    ensures
        match a {
            TemplateAction::Message { label, text } => {
                &&& field(template_action_json(a), "type"@) == Some(JsonView::Str("message"@))
                &&& field(template_action_json(a), "label"@) == Some(JsonView::Str(label@))
                &&& field(template_action_json(a), "text"@) == Some(JsonView::Str(text@))
            },
            TemplateAction::Postback { label, data, text } => {
                &&& field(template_action_json(a), "type"@) == Some(JsonView::Str("postback"@))
                &&& field(template_action_json(a), "label"@) == Some(JsonView::Str(label@))
                &&& field(template_action_json(a), "data"@) == Some(JsonView::Str(data@))
                &&& field(template_action_json(a), "text"@) == opt_text_json(text)
            },
            TemplateAction::Uri { label, uri, alt_uri } => {
                &&& field(template_action_json(a), "type"@) == Some(JsonView::Str("uri"@))
                &&& field(template_action_json(a), "label"@) == Some(JsonView::Str(label@))
                &&& field(template_action_json(a), "uri"@) == Some(JsonView::Str(uri@))
                &&& field(template_action_json(a), "altUri"@) == match alt_uri {
                    Some(u) => Some(JsonView::Object(seq![("desktop"@, JsonView::Str(u@))])),
                    None => None,
                }
            },
            TemplateAction::DatetimePicker { label, data, mode, initial, max, min } => {
                &&& field(template_action_json(a), "type"@) == Some(JsonView::Str("datetimepicker"@))
                &&& field(template_action_json(a), "label"@) == Some(JsonView::Str(label@))
                &&& field(template_action_json(a), "data"@) == Some(JsonView::Str(data@))
                &&& field(template_action_json(a), "mode"@) == Some(JsonView::Str(mode@))
                &&& field(template_action_json(a), "initial"@) == opt_text_json(initial)
                &&& field(template_action_json(a), "max"@) == opt_text_json(max)
                &&& field(template_action_json(a), "min"@) == opt_text_json(min)
            },
        },
{
    broadcast use crate::channels::json::lemma_lookup_push;
    broadcast use crate::channels::json::group_lookup_entries;
    reveal_with_fuel(crate::channels::json::lookup, 4);
    reveal_strlit("type");
    reveal_strlit("label");
    reveal_strlit("text");
    reveal_strlit("data");
    reveal_strlit("uri");
    reveal_strlit("altUri");
    reveal_strlit("desktop");
    reveal_strlit("initial");
    reveal_strlit("max");
    reveal_strlit("min");
    reveal_strlit("action");
    reveal_strlit("mode");
    assert("type"@ =~= seq!['t', 'y', 'p', 'e']);
    assert("label"@ =~= seq!['l', 'a', 'b', 'e', 'l']);
    assert("text"@ =~= seq!['t', 'e', 'x', 't']);
    assert("data"@ =~= seq!['d', 'a', 't', 'a']);
    assert("uri"@ =~= seq!['u', 'r', 'i']);
    assert("altUri"@ =~= seq!['a', 'l', 't', 'U', 'r', 'i']);
    assert("desktop"@ =~= seq!['d', 'e', 's', 'k', 't', 'o', 'p']);
    assert("initial"@ =~= seq!['i', 'n', 'i', 't', 'i', 'a', 'l']);
    assert("max"@ =~= seq!['m', 'a', 'x']);
    assert("min"@ =~= seq!['m', 'i', 'n']);
    assert("action"@ =~= seq!['a', 'c', 't', 'i', 'o', 'n']);
    assert("mode"@ =~= seq!['m', 'o', 'd', 'e']);
}

/// A legacy quick reply item is a message action with its label and text.
pub proof fn lemma_quick_reply_item_fields(item: QuickReplyItem)
    ensures
        field(quick_reply_item_json(item), "type"@) == Some(JsonView::Str("action"@)),
        field(quick_reply_item_json(item), "action"@) matches Some(act) && field(act, "type"@) == Some(
            JsonView::Str("message"@),
        ) && field(act, "label"@) == Some(JsonView::Str(item.label@)) && field(act, "text"@) == Some(
            JsonView::Str(item.text@),
        ),
{
    broadcast use crate::channels::json::lemma_lookup_push, crate::channels::json::lemma_lookup_empty;
    reveal_with_fuel(crate::channels::json::lookup, 4);
    reveal_strlit("type");
    reveal_strlit("action");
    reveal_strlit("label");
    reveal_strlit("text");
    assert("type"@ =~= seq!['t', 'y', 'p', 'e']);
    assert("action"@ =~= seq!['a', 'c', 't', 'i', 'o', 'n']);
    assert("label"@ =~= seq!['l', 'a', 'b', 'e', 'l']);
    assert("text"@ =~= seq!['t', 'e', 'x', 't']);
}

/// Entries `type`, `label` and one more string entry.
fn start_entries(kind: &str, label: &str, key: &str, value: &str) -> (es: Vec<(String, Json)>)
    ensures
        entries_view(es@) == three_entries(kind@, label@, key@, value@),
{
    let mut es: Vec<(String, Json)> = Vec::new();
    assert(entries_view(es@) =~= seq![]);
    put_str(&mut es, "type", kind);
    put_str(&mut es, "label", label);
    put_str(&mut es, key, value);
    es
}

/// `{"desktop": url}` when an alternative URL is given.
fn alt_uri_json(alt_uri: &Option<String>) -> (r: Option<Json>)
    ensures
        match r {
            Some(j) => alt_uri_view(opt_str_view(*alt_uri)) == Some(j@),
            None => alt_uri_view(opt_str_view(*alt_uri)) is None,
        },
{
    match alt_uri {
        Some(u) => {
            let mut es: Vec<(String, Json)> = Vec::new();
            assert(entries_view(es@) =~= seq![]);
            put_str(&mut es, "desktop", u.as_str());
            Some(json_object(es))
        },
        None => None,
    }
}

fn picker_object(
    kind: &str,
    label: &String,
    data: &String,
    initial: &Option<String>,
    max: &Option<String>,
    min: &Option<String>,
) -> (r: Json)
    ensures
        r@ == JsonView::Object(
            picker_entries(
                kind@,
                label@,
                data@,
                opt_str_view(*initial),
                opt_str_view(*max),
                opt_str_view(*min),
            ),
        ),
{
    let mut es = start_entries(kind, label.as_str(), "data", data.as_str());
    put_opt_str(&mut es, "initial", initial);
    put_opt_str(&mut es, "max", max);
    put_opt_str(&mut es, "min", min);
    json_object(es)
}

impl QuickReplyAction {
    /// The quick reply item for this action.
    pub fn to_json(&self) -> (r: Json)
        ensures
            r@ == quick_reply_action_json(*self),
    {
        let action = match self {
            QuickReplyAction::Message { label, text } => {
                json_object(start_entries("message", label.as_str(), "text", text.as_str()))
            },
            QuickReplyAction::Postback { label, data, text } => {
                let mut es = start_entries("postback", label.as_str(), "data", data.as_str());
                put_opt_str(&mut es, "text", text);
                json_object(es)
            },
            QuickReplyAction::Uri { label, uri, alt_uri } => {
                let mut es = start_entries("uri", label.as_str(), "uri", uri.as_str());
                put_opt(&mut es, "altUri", alt_uri_json(alt_uri));
                json_object(es)
            },
            QuickReplyAction::DatePicker { label, data, initial, max, min } => {
                picker_object("datepicker", label, data, initial, max, min)
            },
            QuickReplyAction::TimePicker { label, data, initial } => {
                picker_object("timepicker", label, data, initial, &None, &None)
            },
            QuickReplyAction::DateTimePicker { label, data, initial, max, min } => {
                picker_object("datetimepicker", label, data, initial, max, min)
            },
        };
        assert(action@ == quick_reply_action_object(*self));
        let mut es: Vec<(String, Json)> = Vec::new();
        assert(entries_view(es@) =~= seq![]);
        put_str(&mut es, "type", "action");
        put(&mut es, "action", action);
        assert(entries_view(es@) =~= seq![
            ("type"@, JsonView::Str("action"@)),
            ("action"@, quick_reply_action_object(*self)),
        ]);
        json_object(es)
    }
}

impl TemplateAction {
    /// The JSON object of this action.
    pub fn to_json(&self) -> (r: Json)
        ensures
            r@ == template_action_json(*self),
    {
        match self {
            TemplateAction::Message { label, text } => {
                json_object(start_entries("message", label.as_str(), "text", text.as_str()))
            },
            TemplateAction::Postback { label, data, text } => {
                let mut es = start_entries("postback", label.as_str(), "data", data.as_str());
                put_opt_str(&mut es, "text", text);
                json_object(es)
            },
            TemplateAction::Uri { label, uri, alt_uri } => {
                let mut es = start_entries("uri", label.as_str(), "uri", uri.as_str());
                put_opt(&mut es, "altUri", alt_uri_json(alt_uri));
                json_object(es)
            },
            TemplateAction::DatetimePicker { label, data, mode, initial, max, min } => {
                let mut es = start_entries("datetimepicker", label.as_str(), "data", data.as_str());
                put_str(&mut es, "mode", mode.as_str());
                put_opt_str(&mut es, "initial", initial);
                put_opt_str(&mut es, "max", max);
                put_opt_str(&mut es, "min", min);
                json_object(es)
            },
        }
    }
}

impl QuickReplyItem {
    /// The quick reply item for this legacy item (a message action).
    pub fn to_json(&self) -> (r: Json)
        ensures
            r@ == quick_reply_item_json(*self),
    {
        let action = json_object(
            start_entries("message", self.label.as_str(), "text", self.text.as_str()),
        );
        let mut es: Vec<(String, Json)> = Vec::new();
        assert(entries_view(es@) =~= seq![]);
        put_str(&mut es, "type", "action");
        put(&mut es, "action", action);
        assert(entries_view(es@) =~= seq![
            ("type"@, JsonView::Str("action"@)),
            ("action"@, JsonView::Object(three_entries("message"@, self.label@, "text"@, self.text@))),
        ]);
        json_object(es)
    }
}

} // verus!
