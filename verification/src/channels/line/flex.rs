//! Flex message component types and builders.
//!
//! Reference: https://developers.line.biz/en/docs/messaging-api/messages/#flex-messages

use vstd::prelude::*;
use crate::channels::json::{
    entries_view, field, int_text, lookup, items_view, json_array, json_bool, json_int, json_object, json_uint,
    opt_str_view, put, put_opt, put_opt_str, put_str, push_item, with_opt, with_opt_str, Json,
    JsonView,
};
use crate::channels::line::actions::{template_action_json, TemplateAction};

verus! {

/// Base trait for Flex components.
pub trait FlexComponent {
    fn component_type(&self) -> &'static str;

    fn to_json(&self) -> Json;
}

/// Box container for components.
#[derive(Debug)]
pub struct FlexBox {
    pub layout: FlexBoxLayout,
    pub contents: Vec<FlexComponentData>,
    pub flex: Option<i32>,
    pub spacing: Option<String>,
    pub margin: Option<String>,
    pub padding_all: Option<String>,
    pub padding_top: Option<String>,
    pub padding_bottom: Option<String>,
    pub padding_start: Option<String>,
    pub padding_end: Option<String>,
    pub background_color: Option<String>,
    pub background_width: Option<String>,
    pub corner_radius: Option<String>,
    pub width: Option<String>,
    pub height: Option<String>,
    pub align_items: Option<String>,
    pub justify_content: Option<String>,
    pub position: Option<String>,
    pub offset_top: Option<String>,
    pub offset_bottom: Option<String>,
    pub offset_start: Option<String>,
    pub offset_end: Option<String>,
}

#[derive(Clone, Copy, PartialEq, Eq, Structural, Debug)]
pub enum FlexBoxLayout {
    Horizontal,
    Vertical,
    Baseline,
}

/// Text component.
#[derive(Debug, Clone)]
pub struct FlexText {
    pub text: String,
    pub size: Option<String>,
    pub align: Option<String>,
    pub gravity: Option<String>,
    pub wrap: Option<bool>,
    pub max_lines: Option<u32>,
    pub weight: Option<String>,
    pub color: Option<String>,
    pub margin: Option<String>,
    pub position: Option<String>,
    pub offset_top: Option<String>,
    pub offset_bottom: Option<String>,
    pub offset_start: Option<String>,
    pub offset_end: Option<String>,
    pub line_spacing: Option<String>,
    pub decoration: Option<String>,
    pub style: Option<FlexTextStyle>,
}

#[derive(Clone, Copy, PartialEq, Eq, Structural, Debug)]
pub enum FlexTextStyle {
    Normal,
    Bold,
    Italic,
}

/// Image component.
#[derive(Debug, Clone)]
pub struct FlexImage {
    pub url: String,
    pub flex: Option<i32>,
    pub margin: Option<String>,
    pub align_items: Option<String>,
    pub gravity: Option<String>,
    pub aspect_ratio: Option<String>,
    pub aspect_mode: Option<String>,
    pub size: Option<String>,
    pub position: Option<String>,
    pub offset_top: Option<String>,
    pub offset_bottom: Option<String>,
    pub offset_start: Option<String>,
    pub offset_end: Option<String>,
}

/// Button component.
#[derive(Debug, Clone)]
pub struct FlexButton {
    pub action: TemplateAction,
    pub style: Option<FlexButtonStyle>,
    pub flex: Option<i32>,
    pub margin: Option<String>,
    pub height: Option<String>,
    pub position: Option<String>,
    pub offset_top: Option<String>,
    pub offset_bottom: Option<String>,
    pub offset_start: Option<String>,
    pub offset_end: Option<String>,
}

#[derive(Clone, Copy, PartialEq, Eq, Structural, Debug)]
pub enum FlexButtonStyle {
    Link,
    Primary,
    Secondary,
}

/// Icon component.
#[derive(Debug, Clone)]
pub struct FlexIcon {
    pub url: String,
    pub margin: Option<String>,
    pub size: Option<String>,
    pub aspect_ratio: Option<String>,
    pub position: Option<String>,
}

/// Separator component.
#[derive(Debug, Clone)]
pub struct FlexSeparator {
    pub margin: Option<String>,
    pub color: Option<String>,
}

/// Spacer component.
#[derive(Debug, Clone)]
pub struct FlexSpacer {
    pub size: String,
}

/// Filler component (takes up the available space).
#[derive(Debug, Clone)]
pub struct FlexFiller;

/// Any Flex component.
#[derive(Debug)]
pub enum FlexComponentData {
    Box(FlexBox),
    Text(FlexText),
    Image(FlexImage),
    Button(FlexButton),
    Icon(FlexIcon),
    Separator(FlexSeparator),
    Spacer(FlexSpacer),
    Filler(FlexFiller),
}

/// Bubble container for Flex messages.
#[derive(Debug)]
pub struct FlexBubble {
    pub header: Option<FlexBox>,
    pub hero: Option<FlexImage>,
    pub body: FlexBox,
    pub footer: Option<FlexBox>,
    pub styles: Option<FlexBubbleStyles>,
    pub direction: Option<FlexDirection>,
}

#[derive(Clone, Copy, PartialEq, Eq, Structural, Debug)]
pub enum FlexDirection {
    LeftToRight,
    RightToLeft,
}

#[derive(Debug, Clone)]
pub struct FlexBubbleStyles {
    pub header: Option<FlexBlockStyle>,
    pub hero: Option<FlexBlockStyle>,
    pub body: Option<FlexBlockStyle>,
    pub footer: Option<FlexBlockStyle>,
}

#[derive(Debug, Clone)]
pub struct FlexBlockStyle {
    pub background_color: Option<String>,
    pub separator: Option<bool>,
    pub separator_color: Option<String>,
}

/// Carousel container for Flex messages.
#[derive(Debug)]
pub struct FlexCarousel {
    pub contents: Vec<FlexBubble>,
}

// ---------------------------------------------------------------------------
// What each component renders to
// ---------------------------------------------------------------------------

pub open spec fn layout_text(l: FlexBoxLayout) -> Seq<char> {
    match l {
        FlexBoxLayout::Horizontal => "horizontal"@,
        FlexBoxLayout::Vertical => "vertical"@,
        FlexBoxLayout::Baseline => "baseline"@,
    }
}

pub open spec fn button_style_text(s: FlexButtonStyle) -> Seq<char> {
    match s {
        FlexButtonStyle::Link => "link"@,
        FlexButtonStyle::Primary => "primary"@,
        FlexButtonStyle::Secondary => "secondary"@,
    }
}

pub open spec fn direction_text(d: FlexDirection) -> Seq<char> {
    match d {
        FlexDirection::LeftToRight => "ltr"@,
        FlexDirection::RightToLeft => "rtl"@,
    }
}

/// A number entry value for an optional integer.
pub open spec fn opt_int_view(o: Option<i32>) -> Option<JsonView> {
    match o {
        Some(n) => Some(JsonView::Number(int_text(n as int))),
        None => None,
    }
}

/// The JSON of a box: type, layout, contents, then the optional flex,
/// spacing, margin, paddingAll, paddingTop, paddingBottom, paddingStart,
/// paddingEnd, backgroundColor, cornerRadius, width, height, alignItems and
/// justifyContent entries.
pub open spec fn box_json(b: FlexBox) -> JsonView
    decreases b, 1nat,
{
    let base = seq![
        ("type"@, JsonView::Str("box"@)),
        ("layout"@, JsonView::Str(layout_text(b.layout))),
        ("contents"@, JsonView::Array(box_contents_json(b))),
    ];
    let spaced = with_opt_str(
        with_opt_str(with_opt(base, "flex"@, opt_int_view(b.flex)), "spacing"@, opt_str_view(b.spacing)),
        "margin"@,
        opt_str_view(b.margin),
    );
    let padded = with_opt_str(
        with_opt_str(
            with_opt_str(
                with_opt_str(
                    with_opt_str(spaced, "paddingAll"@, opt_str_view(b.padding_all)),
                    "paddingTop"@,
                    opt_str_view(b.padding_top),
                ),
                "paddingBottom"@,
                opt_str_view(b.padding_bottom),
            ),
            "paddingStart"@,
            opt_str_view(b.padding_start),
        ),
        "paddingEnd"@,
        opt_str_view(b.padding_end),
    );
    let styled = with_opt_str(
        with_opt_str(
            with_opt_str(
                with_opt_str(padded, "backgroundColor"@, opt_str_view(b.background_color)),
                "cornerRadius"@,
                opt_str_view(b.corner_radius),
            ),
            "width"@,
            opt_str_view(b.width),
        ),
        "height"@,
        opt_str_view(b.height),
    );
    JsonView::Object(
        with_opt_str(
            with_opt_str(styled, "alignItems"@, opt_str_view(b.align_items)),
            "justifyContent"@,
            opt_str_view(b.justify_content),
        ),
    )
}

/// The JSON of each component of a box, in order.
pub open spec fn box_contents_json(b: FlexBox) -> Seq<JsonView>
    decreases b, 0nat,
{
    Seq::new(
        b.contents.len() as nat,
        |i: int|
            if 0 <= i < b.contents.len() {
                component_json(b.contents[i])
            } else {
                JsonView::Null
            },
    )
}

/// The JSON of a text: type, text, then the optional size, align,
/// gravity, color, weight, margin, wrap and maxLines entries.
pub open spec fn text_json(t: FlexText) -> JsonView {
    let base = seq![("type"@, JsonView::Str("text"@)), ("text"@, JsonView::Str(t.text@))];
    let aligned = with_opt_str(
        with_opt_str(with_opt_str(base, "size"@, opt_str_view(t.size)), "align"@, opt_str_view(t.align)),
        "gravity"@,
        opt_str_view(t.gravity),
    );
    JsonView::Object(
        with_opt(
            with_opt(
                with_opt_str(
                    with_opt_str(
                        with_opt_str(
                            aligned,
                            "color"@,
                            opt_str_view(t.color),
                        ),
                        "weight"@,
                        opt_str_view(t.weight),
                    ),
                    "margin"@,
                    opt_str_view(t.margin),
                ),
                "wrap"@,
                match t.wrap {
                    Some(w) => Some(JsonView::Bool(w)),
                    None => None,
                },
            ),
            "maxLines"@,
            match t.max_lines {
                Some(m) => Some(JsonView::Number(int_text(m as int))),
                None => None,
            },
        ),
    )
}

/// The JSON of an image: type, url, then the optional flex, margin,
/// alignItems, aspectRatio and size entries.
pub open spec fn image_json(i: FlexImage) -> JsonView {
    let base = seq![("type"@, JsonView::Str("image"@)), ("url"@, JsonView::Str(i.url@))];
    JsonView::Object(
        with_opt_str(
            with_opt_str(
                with_opt_str(
                    with_opt_str(
                        with_opt(base, "flex"@, opt_int_view(i.flex)),
                        "margin"@,
                        opt_str_view(i.margin),
                    ),
                    "alignItems"@,
                    opt_str_view(i.align_items),
                ),
                "aspectRatio"@,
                opt_str_view(i.aspect_ratio),
            ),
            "size"@,
            opt_str_view(i.size),
        ),
    )
}

/// The JSON of a button: type, action, then the optional style, flex and
/// margin.
pub open spec fn button_json(b: FlexButton) -> JsonView {
    let base = seq![
        ("type"@, JsonView::Str("button"@)),
        ("action"@, template_action_json(b.action)),
    ];
    JsonView::Object(
        with_opt_str(
            with_opt(
                with_opt_str(
                    base,
                    "style"@,
                    match b.style {
                        Some(s) => Some(button_style_text(s)),
                        None => None,
                    },
                ),
                "flex"@,
                opt_int_view(b.flex),
            ),
            "margin"@,
            opt_str_view(b.margin),
        ),
    )
}

/// The JSON of an icon: type, url, then the optional size and margin.
pub open spec fn icon_json(i: FlexIcon) -> JsonView {
    let base = seq![("type"@, JsonView::Str("icon"@)), ("url"@, JsonView::Str(i.url@))];
    JsonView::Object(
        with_opt_str(with_opt_str(base, "size"@, opt_str_view(i.size)), "margin"@, opt_str_view(i.margin)),
    )
}

/// The JSON of a separator: type, then the optional margin and color.
pub open spec fn separator_json(s: FlexSeparator) -> JsonView {
    JsonView::Object(
        with_opt_str(
            with_opt_str(seq![("type"@, JsonView::Str("separator"@))], "margin"@, opt_str_view(s.margin)),
            "color"@,
            opt_str_view(s.color),
        ),
    )
}

/// The JSON of any component.
pub open spec fn component_json(c: FlexComponentData) -> JsonView
    decreases c, 2nat,
{
    match c {
        FlexComponentData::Box(b) => box_json(b),
        FlexComponentData::Text(t) => text_json(t),
        FlexComponentData::Image(i) => image_json(i),
        FlexComponentData::Button(b) => button_json(b),
        FlexComponentData::Icon(i) => icon_json(i),
        FlexComponentData::Separator(s) => separator_json(s),
        FlexComponentData::Spacer(s) => JsonView::Object(
            seq![("type"@, JsonView::Str("spacer"@)), ("size"@, JsonView::Str(s.size@))],
        ),
        FlexComponentData::Filler(_) => JsonView::Object(seq![("type"@, JsonView::Str("filler"@))]),
    }
}

/// The JSON of a bubble: type, body, then the optional header, hero,
/// footer and direction.
pub open spec fn bubble_json(b: FlexBubble) -> JsonView {
    let base = seq![("type"@, JsonView::Str("bubble"@)), ("body"@, box_json(b.body))];
    JsonView::Object(
        with_opt_str(
            with_opt(
                with_opt(
                    with_opt(
                        base,
                        "header"@,
                        match b.header {
                            Some(h) => Some(box_json(h)),
                            None => None,
                        },
                    ),
                    "hero"@,
                    match b.hero {
                        Some(h) => Some(image_json(h)),
                        None => None,
                    },
                ),
                "footer"@,
                match b.footer {
                    Some(f) => Some(box_json(f)),
                    None => None,
                },
            ),
            "direction"@,
            match b.direction {
                Some(d) => Some(direction_text(d)),
                None => None,
            },
        ),
    )
}

/// The JSON of a carousel: type and the bubbles in order.
pub open spec fn carousel_json(c: FlexCarousel) -> JsonView {
    JsonView::Object(
        seq![
            ("type"@, JsonView::Str("carousel"@)),
            ("contents"@, JsonView::Array(Seq::new(c.contents.len() as nat, |i: int| bubble_json(c.contents[i])))),
        ],
    )
}

// ---------------------------------------------------------------------------
// What a rendered component holds
// ---------------------------------------------------------------------------

/// The JSON string of an optional text.
pub open spec fn opt_text(o: Option<String>) -> Option<JsonView> {
    match o {
        Some(s) => Some(JsonView::Str(s@)),
        None => None,
    }
}

/// A rendered button is `{"type": "button", "action": <its action>}` with
/// `style` the style's own name (`link`, `primary` or `secondary`), `flex`
/// its flex ratio and `margin` its margin, each exactly when set.
pub proof fn lemma_button_json_fields(b: FlexButton)
    ensures
        field(component_json(FlexComponentData::Button(b)), "type"@) == Some(JsonView::Str("button"@)),
        field(component_json(FlexComponentData::Button(b)), "action"@) == Some(
            template_action_json(b.action),
        ),
        field(component_json(FlexComponentData::Button(b)), "style"@) == match b.style {
            Some(FlexButtonStyle::Link) => Some(JsonView::Str("link"@)),
            Some(FlexButtonStyle::Primary) => Some(JsonView::Str("primary"@)),
            Some(FlexButtonStyle::Secondary) => Some(JsonView::Str("secondary"@)),
            None => None,
        },
        field(component_json(FlexComponentData::Button(b)), "flex"@) == match b.flex {
            Some(n) => Some(JsonView::Number(int_text(n as int))),
            None => None,
        },
        field(component_json(FlexComponentData::Button(b)), "margin"@) == opt_text(b.margin),
{
    broadcast use crate::channels::json::lemma_lookup_push, crate::channels::json::lemma_lookup_empty;
    reveal_with_fuel(crate::channels::json::lookup, 4);
    reveal_strlit("type");
    reveal_strlit("action");
    reveal_strlit("style");
    reveal_strlit("flex");
    reveal_strlit("margin");
    assert("type"@ =~= seq!['t', 'y', 'p', 'e']);
    assert("action"@ =~= seq!['a', 'c', 't', 'i', 'o', 'n']);
    assert("style"@ =~= seq!['s', 't', 'y', 'l', 'e']);
    assert("flex"@ =~= seq!['f', 'l', 'e', 'x']);
    assert("margin"@ =~= seq!['m', 'a', 'r', 'g', 'i', 'n']);
}

/// A rendered box is `{"type": "box"}` with `layout` the layout's own name
/// (`horizontal`, `vertical` or `baseline`), `contents` its components
/// rendered in order, and its set `flex`, `spacing` and `margin`.
pub proof fn lemma_box_json_fields(b: FlexBox)
    ensures
        field(component_json(FlexComponentData::Box(b)), "type"@) == Some(JsonView::Str("box"@)),
        field(component_json(FlexComponentData::Box(b)), "layout"@) == Some(
            JsonView::Str(
                match b.layout {
                    FlexBoxLayout::Horizontal => "horizontal"@,
                    FlexBoxLayout::Vertical => "vertical"@,
                    FlexBoxLayout::Baseline => "baseline"@,
                },
            ),
        ),
        field(component_json(FlexComponentData::Box(b)), "contents"@) == Some(
            JsonView::Array(Seq::new(b.contents.len() as nat, |i: int| component_json(b.contents[i]))),
        ),
        field(component_json(FlexComponentData::Box(b)), "flex"@) == match b.flex {
            Some(n) => Some(JsonView::Number(int_text(n as int))),
            None => None,
        },
        field(component_json(FlexComponentData::Box(b)), "spacing"@) == opt_text(b.spacing),
        field(component_json(FlexComponentData::Box(b)), "margin"@) == opt_text(b.margin),
{
    broadcast use crate::channels::json::group_lookup_entries;
    reveal_strlit("type");
    reveal_strlit("layout");
    reveal_strlit("contents");
    reveal_strlit("flex");
    reveal_strlit("spacing");
    reveal_strlit("margin");
    reveal_strlit("paddingAll");
    reveal_strlit("paddingTop");
    reveal_strlit("paddingBottom");
    reveal_strlit("paddingStart");
    reveal_strlit("paddingEnd");
    reveal_strlit("backgroundColor");
    reveal_strlit("cornerRadius");
    reveal_strlit("width");
    reveal_strlit("height");
    reveal_strlit("alignItems");
    reveal_strlit("justifyContent");
    assert("type"@.len() == 4);
    assert("layout"@.len() == 6);
    assert("contents"@.len() == 8);
    assert("flex"@.len() == 4);
    assert("spacing"@.len() == 7);
    assert("margin"@.len() == 6);
    assert("paddingAll"@.len() == 10);
    assert("paddingTop"@.len() == 10);
    assert("paddingBottom"@.len() == 13);
    assert("paddingStart"@.len() == 12);
    assert("paddingEnd"@.len() == 10);
    assert("backgroundColor"@.len() == 15);
    assert("cornerRadius"@.len() == 12);
    assert("width"@.len() == 5);
    assert("height"@.len() == 6);
    assert("alignItems"@.len() == 10);
    assert("justifyContent"@.len() == 14);
    assert("alignItems"@[0] == 'a');
    assert("cornerRadius"@[0] == 'c');
    assert("flex"@[0] == 'f');
    assert("height"@[0] == 'h');
    assert("layout"@[0] == 'l');
    assert("margin"@[0] == 'm');
    assert("paddingAll"@[0] == 'p');
    assert("paddingAll"@[7] == 'A');
    assert("paddingEnd"@[0] == 'p');
    assert("paddingEnd"@[7] == 'E');
    assert("paddingStart"@[0] == 'p');
    assert("paddingTop"@[0] == 'p');
    assert("paddingTop"@[7] == 'T');
    assert("type"@[0] == 't');
    assert(box_contents_json(b) =~= Seq::new(b.contents.len() as nat, |i: int| component_json(b.contents[i])));
    let base = seq![
        ("type"@, JsonView::Str("box"@)),
        ("layout"@, JsonView::Str(layout_text(b.layout))),
        ("contents"@, JsonView::Array(box_contents_json(b))),
    ];
    crate::channels::json::lemma_lookup_three(base, "type"@);
    crate::channels::json::lemma_lookup_three(base, "layout"@);
    crate::channels::json::lemma_lookup_three(base, "contents"@);
    crate::channels::json::lemma_lookup_three(base, "flex"@);
    crate::channels::json::lemma_lookup_three(base, "spacing"@);
    crate::channels::json::lemma_lookup_three(base, "margin"@);
    crate::channels::json::lemma_lookup_three(base, "paddingAll"@);
    crate::channels::json::lemma_lookup_three(base, "paddingTop"@);
    crate::channels::json::lemma_lookup_three(base, "paddingBottom"@);
    crate::channels::json::lemma_lookup_three(base, "paddingStart"@);
    crate::channels::json::lemma_lookup_three(base, "paddingEnd"@);
    crate::channels::json::lemma_lookup_three(base, "backgroundColor"@);
    crate::channels::json::lemma_lookup_three(base, "cornerRadius"@);
    crate::channels::json::lemma_lookup_three(base, "width"@);
    crate::channels::json::lemma_lookup_three(base, "height"@);
    crate::channels::json::lemma_lookup_three(base, "alignItems"@);
    crate::channels::json::lemma_lookup_three(base, "justifyContent"@);
}

/// A rendered box holds its set paddings under `paddingAll`, `paddingTop`,
/// `paddingBottom`, `paddingStart` and `paddingEnd`.
pub proof fn lemma_box_json_paddings(b: FlexBox)
    ensures
        field(component_json(FlexComponentData::Box(b)), "paddingAll"@) == opt_text(b.padding_all),
        field(component_json(FlexComponentData::Box(b)), "paddingTop"@) == opt_text(b.padding_top),
        field(component_json(FlexComponentData::Box(b)), "paddingBottom"@) == opt_text(b.padding_bottom),
        field(component_json(FlexComponentData::Box(b)), "paddingStart"@) == opt_text(b.padding_start),
        field(component_json(FlexComponentData::Box(b)), "paddingEnd"@) == opt_text(b.padding_end),
{
    broadcast use crate::channels::json::group_lookup_entries;
    reveal_strlit("type");
    reveal_strlit("layout");
    reveal_strlit("contents");
    reveal_strlit("flex");
    reveal_strlit("spacing");
    reveal_strlit("margin");
    reveal_strlit("paddingAll");
    reveal_strlit("paddingTop");
    reveal_strlit("paddingBottom");
    reveal_strlit("paddingStart");
    reveal_strlit("paddingEnd");
    reveal_strlit("backgroundColor");
    reveal_strlit("cornerRadius");
    reveal_strlit("width");
    reveal_strlit("height");
    reveal_strlit("alignItems");
    reveal_strlit("justifyContent");
    assert("type"@.len() == 4);
    assert("layout"@.len() == 6);
    assert("contents"@.len() == 8);
    assert("flex"@.len() == 4);
    assert("spacing"@.len() == 7);
    assert("margin"@.len() == 6);
    assert("paddingAll"@.len() == 10);
    assert("paddingTop"@.len() == 10);
    assert("paddingBottom"@.len() == 13);
    assert("paddingStart"@.len() == 12);
    assert("paddingEnd"@.len() == 10);
    assert("backgroundColor"@.len() == 15);
    assert("cornerRadius"@.len() == 12);
    assert("width"@.len() == 5);
    assert("height"@.len() == 6);
    assert("alignItems"@.len() == 10);
    assert("justifyContent"@.len() == 14);
    assert("alignItems"@[0] == 'a');
    assert("cornerRadius"@[0] == 'c');
    assert("flex"@[0] == 'f');
    assert("height"@[0] == 'h');
    assert("layout"@[0] == 'l');
    assert("margin"@[0] == 'm');
    assert("paddingAll"@[0] == 'p');
    assert("paddingAll"@[7] == 'A');
    assert("paddingEnd"@[0] == 'p');
    assert("paddingEnd"@[7] == 'E');
    assert("paddingStart"@[0] == 'p');
    assert("paddingTop"@[0] == 'p');
    assert("paddingTop"@[7] == 'T');
    assert("type"@[0] == 't');

    let base = seq![
        ("type"@, JsonView::Str("box"@)),
        ("layout"@, JsonView::Str(layout_text(b.layout))),
        ("contents"@, JsonView::Array(box_contents_json(b))),
    ];
    crate::channels::json::lemma_lookup_three(base, "type"@);
    crate::channels::json::lemma_lookup_three(base, "layout"@);
    crate::channels::json::lemma_lookup_three(base, "contents"@);
    crate::channels::json::lemma_lookup_three(base, "flex"@);
    crate::channels::json::lemma_lookup_three(base, "spacing"@);
    crate::channels::json::lemma_lookup_three(base, "margin"@);
    crate::channels::json::lemma_lookup_three(base, "paddingAll"@);
    crate::channels::json::lemma_lookup_three(base, "paddingTop"@);
    crate::channels::json::lemma_lookup_three(base, "paddingBottom"@);
    crate::channels::json::lemma_lookup_three(base, "paddingStart"@);
    crate::channels::json::lemma_lookup_three(base, "paddingEnd"@);
    crate::channels::json::lemma_lookup_three(base, "backgroundColor"@);
    crate::channels::json::lemma_lookup_three(base, "cornerRadius"@);
    crate::channels::json::lemma_lookup_three(base, "width"@);
    crate::channels::json::lemma_lookup_three(base, "height"@);
    crate::channels::json::lemma_lookup_three(base, "alignItems"@);
    crate::channels::json::lemma_lookup_three(base, "justifyContent"@);
}

/// A rendered box holds its set `backgroundColor`, `cornerRadius`,
/// `width`, `height`, `alignItems` and `justifyContent`.
pub proof fn lemma_box_json_styles(b: FlexBox)
    ensures
        field(component_json(FlexComponentData::Box(b)), "backgroundColor"@) == opt_text(b.background_color),
        field(component_json(FlexComponentData::Box(b)), "cornerRadius"@) == opt_text(b.corner_radius),
        field(component_json(FlexComponentData::Box(b)), "width"@) == opt_text(b.width),
        field(component_json(FlexComponentData::Box(b)), "height"@) == opt_text(b.height),
        field(component_json(FlexComponentData::Box(b)), "alignItems"@) == opt_text(b.align_items),
        field(component_json(FlexComponentData::Box(b)), "justifyContent"@) == opt_text(b.justify_content),
{
    broadcast use crate::channels::json::group_lookup_entries;
    reveal_strlit("type");
    reveal_strlit("layout");
    reveal_strlit("contents");
    reveal_strlit("flex");
    reveal_strlit("spacing");
    reveal_strlit("margin");
    reveal_strlit("paddingAll");
    reveal_strlit("paddingTop");
    reveal_strlit("paddingBottom");
    reveal_strlit("paddingStart");
    reveal_strlit("paddingEnd");
    reveal_strlit("backgroundColor");
    reveal_strlit("cornerRadius");
    reveal_strlit("width");
    reveal_strlit("height");
    reveal_strlit("alignItems");
    reveal_strlit("justifyContent");
    assert("type"@.len() == 4);
    assert("layout"@.len() == 6);
    assert("contents"@.len() == 8);
    assert("flex"@.len() == 4);
    assert("spacing"@.len() == 7);
    assert("margin"@.len() == 6);
    assert("paddingAll"@.len() == 10);
    assert("paddingTop"@.len() == 10);
    assert("paddingBottom"@.len() == 13);
    assert("paddingStart"@.len() == 12);
    assert("paddingEnd"@.len() == 10);
    assert("backgroundColor"@.len() == 15);
    assert("cornerRadius"@.len() == 12);
    assert("width"@.len() == 5);
    assert("height"@.len() == 6);
    assert("alignItems"@.len() == 10);
    assert("justifyContent"@.len() == 14);
    assert("alignItems"@[0] == 'a');
    assert("cornerRadius"@[0] == 'c');
    assert("flex"@[0] == 'f');
    assert("height"@[0] == 'h');
    assert("layout"@[0] == 'l');
    assert("margin"@[0] == 'm');
    assert("paddingAll"@[0] == 'p');
    assert("paddingAll"@[7] == 'A');
    assert("paddingEnd"@[0] == 'p');
    assert("paddingEnd"@[7] == 'E');
    assert("paddingStart"@[0] == 'p');
    assert("paddingTop"@[0] == 'p');
    assert("paddingTop"@[7] == 'T');
    assert("type"@[0] == 't');

    let base = seq![
        ("type"@, JsonView::Str("box"@)),
        ("layout"@, JsonView::Str(layout_text(b.layout))),
        ("contents"@, JsonView::Array(box_contents_json(b))),
    ];
    crate::channels::json::lemma_lookup_three(base, "type"@);
    crate::channels::json::lemma_lookup_three(base, "layout"@);
    crate::channels::json::lemma_lookup_three(base, "contents"@);
    crate::channels::json::lemma_lookup_three(base, "flex"@);
    crate::channels::json::lemma_lookup_three(base, "spacing"@);
    crate::channels::json::lemma_lookup_three(base, "margin"@);
    crate::channels::json::lemma_lookup_three(base, "paddingAll"@);
    crate::channels::json::lemma_lookup_three(base, "paddingTop"@);
    crate::channels::json::lemma_lookup_three(base, "paddingBottom"@);
    crate::channels::json::lemma_lookup_three(base, "paddingStart"@);
    crate::channels::json::lemma_lookup_three(base, "paddingEnd"@);
    crate::channels::json::lemma_lookup_three(base, "backgroundColor"@);
    crate::channels::json::lemma_lookup_three(base, "cornerRadius"@);
    crate::channels::json::lemma_lookup_three(base, "width"@);
    crate::channels::json::lemma_lookup_three(base, "height"@);
    crate::channels::json::lemma_lookup_three(base, "alignItems"@);
    crate::channels::json::lemma_lookup_three(base, "justifyContent"@);
}

/// A rendered text is `{"type": "text", "text": <its text>}` with each set
/// property under its LINE key: `size`, `align`, `gravity`, `color`,
/// `weight`, `margin`, `wrap` (a boolean) and `maxLines` (a number).
pub proof fn lemma_text_json_fields(t: FlexText)
    ensures
        field(component_json(FlexComponentData::Text(t)), "type"@) == Some(JsonView::Str("text"@)),
        field(component_json(FlexComponentData::Text(t)), "text"@) == Some(JsonView::Str(t.text@)),
        field(component_json(FlexComponentData::Text(t)), "size"@) == opt_text(t.size),
        field(component_json(FlexComponentData::Text(t)), "align"@) == opt_text(t.align),
        field(component_json(FlexComponentData::Text(t)), "gravity"@) == opt_text(t.gravity),
        field(component_json(FlexComponentData::Text(t)), "color"@) == opt_text(t.color),
        field(component_json(FlexComponentData::Text(t)), "weight"@) == opt_text(t.weight),
        field(component_json(FlexComponentData::Text(t)), "margin"@) == opt_text(t.margin),
        field(component_json(FlexComponentData::Text(t)), "wrap"@) == match t.wrap {
            Some(w) => Some(JsonView::Bool(w)),
            None => None,
        },
        field(component_json(FlexComponentData::Text(t)), "maxLines"@) == match t.max_lines {
            Some(m) => Some(JsonView::Number(int_text(m as int))),
            None => None,
        },
{
    broadcast use crate::channels::json::group_lookup_entries;
    reveal_with_fuel(crate::channels::json::lookup, 4);
    reveal_strlit("type");
    reveal_strlit("text");
    reveal_strlit("size");
    reveal_strlit("align");
    reveal_strlit("gravity");
    reveal_strlit("color");
    reveal_strlit("weight");
    reveal_strlit("margin");
    reveal_strlit("wrap");
    reveal_strlit("maxLines");
    assert("type"@ =~= seq!['t', 'y', 'p', 'e']);
    assert("text"@ =~= seq!['t', 'e', 'x', 't']);
    assert("size"@ =~= seq!['s', 'i', 'z', 'e']);
    assert("align"@ =~= seq!['a', 'l', 'i', 'g', 'n']);
    assert("gravity"@ =~= seq!['g', 'r', 'a', 'v', 'i', 't', 'y']);
    assert("color"@ =~= seq!['c', 'o', 'l', 'o', 'r']);
    assert("weight"@ =~= seq!['w', 'e', 'i', 'g', 'h', 't']);
    assert("margin"@ =~= seq!['m', 'a', 'r', 'g', 'i', 'n']);
    assert("wrap"@ =~= seq!['w', 'r', 'a', 'p']);
    assert("maxLines"@ =~= seq!['m', 'a', 'x', 'L', 'i', 'n', 'e', 's']);
}

/// A rendered image is `{"type": "image", "url": <its url>}` with each set
/// property under its LINE key: `flex`, `margin`, `alignItems`,
/// `aspectRatio` and `size`.
pub proof fn lemma_image_json_fields(i: FlexImage)
    ensures
        field(component_json(FlexComponentData::Image(i)), "type"@) == Some(JsonView::Str("image"@)),
        field(component_json(FlexComponentData::Image(i)), "url"@) == Some(JsonView::Str(i.url@)),
        field(component_json(FlexComponentData::Image(i)), "flex"@) == match i.flex {
            Some(n) => Some(JsonView::Number(int_text(n as int))),
            None => None,
        },
        field(component_json(FlexComponentData::Image(i)), "margin"@) == opt_text(i.margin),
        field(component_json(FlexComponentData::Image(i)), "alignItems"@) == opt_text(i.align_items),
        field(component_json(FlexComponentData::Image(i)), "aspectRatio"@) == opt_text(i.aspect_ratio),
        field(component_json(FlexComponentData::Image(i)), "size"@) == opt_text(i.size),
{
    broadcast use crate::channels::json::lemma_lookup_push, crate::channels::json::lemma_lookup_empty;
    reveal_with_fuel(crate::channels::json::lookup, 4);
    reveal_strlit("type");
    reveal_strlit("url");
    reveal_strlit("flex");
    reveal_strlit("margin");
    reveal_strlit("alignItems");
    reveal_strlit("aspectRatio");
    reveal_strlit("size");
    assert("type"@ =~= seq!['t', 'y', 'p', 'e']);
    assert("url"@ =~= seq!['u', 'r', 'l']);
    assert("flex"@ =~= seq!['f', 'l', 'e', 'x']);
    assert("margin"@ =~= seq!['m', 'a', 'r', 'g', 'i', 'n']);
    assert("alignItems"@ =~= seq!['a', 'l', 'i', 'g', 'n', 'I', 't', 'e', 'm', 's']);
    assert("aspectRatio"@ =~= seq!['a', 's', 'p', 'e', 'c', 't', 'R', 'a', 't', 'i', 'o']);
    assert("size"@ =~= seq!['s', 'i', 'z', 'e']);
}

/// The small components: an icon is `{"type": "icon", "url": ..}` with its
/// set `size` and `margin`; a separator is `{"type": "separator"}` with its
/// set `margin` and `color`; a spacer is `{"type": "spacer", "size": ..}`;
/// a filler is `{"type": "filler"}` and nothing else.
pub proof fn lemma_small_component_json_fields(
    icon: FlexIcon,
    sep: FlexSeparator,
    spacer: FlexSpacer,
    filler: FlexFiller,
)
    ensures
        field(component_json(FlexComponentData::Icon(icon)), "type"@) == Some(JsonView::Str("icon"@)),
        field(component_json(FlexComponentData::Icon(icon)), "url"@) == Some(JsonView::Str(icon.url@)),
        field(component_json(FlexComponentData::Icon(icon)), "size"@) == opt_text(icon.size),
        field(component_json(FlexComponentData::Icon(icon)), "margin"@) == opt_text(icon.margin),
        field(component_json(FlexComponentData::Separator(sep)), "type"@) == Some(
            JsonView::Str("separator"@),
        ),
        field(component_json(FlexComponentData::Separator(sep)), "margin"@) == opt_text(sep.margin),
        field(component_json(FlexComponentData::Separator(sep)), "color"@) == opt_text(sep.color),
        field(component_json(FlexComponentData::Spacer(spacer)), "type"@) == Some(
            JsonView::Str("spacer"@),
        ),
        field(component_json(FlexComponentData::Spacer(spacer)), "size"@) == Some(
            JsonView::Str(spacer.size@),
        ),
        component_json(FlexComponentData::Filler(filler)) == JsonView::Object(
            seq![("type"@, JsonView::Str("filler"@))],
        ),
{
    broadcast use crate::channels::json::lemma_lookup_push, crate::channels::json::lemma_lookup_empty;
    reveal_with_fuel(crate::channels::json::lookup, 4);
    reveal_strlit("type");
    reveal_strlit("url");
    reveal_strlit("size");
    reveal_strlit("margin");
    reveal_strlit("color");
    assert("type"@ =~= seq!['t', 'y', 'p', 'e']);
    assert("url"@ =~= seq!['u', 'r', 'l']);
    assert("size"@ =~= seq!['s', 'i', 'z', 'e']);
    assert("margin"@ =~= seq!['m', 'a', 'r', 'g', 'i', 'n']);
    assert("color"@ =~= seq!['c', 'o', 'l', 'o', 'r']);
}

/// A rendered bubble is `{"type": "bubble", "body": <its body box>}` with
/// its set `header` and `footer` boxes, `hero` image, and `direction` as
/// `ltr` or `rtl`; a rendered carousel is `{"type": "carousel"}` with its
/// bubbles rendered in order under `contents`.
pub proof fn lemma_bubble_carousel_json_fields(b: FlexBubble, c: FlexCarousel)
    ensures
        field(bubble_json(b), "type"@) == Some(JsonView::Str("bubble"@)),
        field(bubble_json(b), "body"@) == Some(component_json(FlexComponentData::Box(b.body))),
        field(bubble_json(b), "header"@) == match b.header {
            Some(h) => Some(component_json(FlexComponentData::Box(h))),
            None => None,
        },
        field(bubble_json(b), "hero"@) == match b.hero {
            Some(h) => Some(component_json(FlexComponentData::Image(h))),
            None => None,
        },
        field(bubble_json(b), "footer"@) == match b.footer {
            Some(f) => Some(component_json(FlexComponentData::Box(f))),
            None => None,
        },
        field(bubble_json(b), "direction"@) == match b.direction {
            Some(FlexDirection::LeftToRight) => Some(JsonView::Str("ltr"@)),
            Some(FlexDirection::RightToLeft) => Some(JsonView::Str("rtl"@)),
            None => None,
        },
        field(carousel_json(c), "type"@) == Some(JsonView::Str("carousel"@)),
        field(carousel_json(c), "contents"@) == Some(
            JsonView::Array(Seq::new(c.contents.len() as nat, |i: int| bubble_json(c.contents[i]))),
        ),
{
    broadcast use crate::channels::json::lemma_lookup_push, crate::channels::json::lemma_lookup_empty;
    reveal_with_fuel(crate::channels::json::lookup, 4);
    reveal_strlit("type");
    reveal_strlit("body");
    reveal_strlit("header");
    reveal_strlit("hero");
    reveal_strlit("footer");
    reveal_strlit("direction");
    reveal_strlit("contents");
    assert("type"@ =~= seq!['t', 'y', 'p', 'e']);
    assert("body"@ =~= seq!['b', 'o', 'd', 'y']);
    assert("header"@ =~= seq!['h', 'e', 'a', 'd', 'e', 'r']);
    assert("hero"@ =~= seq!['h', 'e', 'r', 'o']);
    assert("footer"@ =~= seq!['f', 'o', 'o', 't', 'e', 'r']);
    assert("direction"@ =~= seq!['d', 'i', 'r', 'e', 'c', 't', 'i', 'o', 'n']);
    assert("contents"@ =~= seq!['c', 'o', 'n', 't', 'e', 'n', 't', 's']);
}

// ---------------------------------------------------------------------------
// Rendering
// ---------------------------------------------------------------------------

fn layout_name(l: FlexBoxLayout) -> (r: &'static str)
    ensures
        r@ == layout_text(l),
{
    match l {
        FlexBoxLayout::Horizontal => "horizontal",
        FlexBoxLayout::Vertical => "vertical",
        FlexBoxLayout::Baseline => "baseline",
    }
}

fn opt_int_json(o: Option<i32>) -> (r: Option<Json>)
    ensures
        match r {
            Some(j) => opt_int_view(o) == Some(j@),
            None => opt_int_view(o) is None,
        },
{
    match o {
        Some(n) => Some(json_int(n as i64)),
        None => None,
    }
}

fn entries2(k1: &str, v1: Json, k2: &str, v2: Json) -> (es: Vec<(String, Json)>)
    ensures
        entries_view(es@) =~= seq![(k1@, v1@), (k2@, v2@)],
{
    let mut es: Vec<(String, Json)> = Vec::new();
    assert(entries_view(es@) =~= seq![]);
    put(&mut es, k1, v1);
    put(&mut es, k2, v2);
    es
}

fn str_json(s: &str) -> (r: Json)
    ensures
        r@ == JsonView::Str(s@),
{
    crate::channels::json::json_str(s)
}

fn box_to_json(b: &FlexBox) -> (r: Json)
    ensures
        r@ == box_json(*b),
    decreases b,
{
    let mut items: Vec<Json> = Vec::new();
    let mut i: usize = 0;
    assert(items_view(items@) =~= Seq::new(0, |k: int| component_json(b.contents[k])));
    while i < b.contents.len()
        invariant
            0 <= i <= b.contents.len(),
            items_view(items@) =~= Seq::new(i as nat, |k: int| component_json(b.contents[k])),
        decreases b.contents.len() - i,
    {
        let j = b.contents[i].to_json();
        push_item(&mut items, j);
        i = i + 1;
    }
    let contents = json_array(items);
    assert(contents@ == JsonView::Array(box_contents_json(*b))) by {
        assert(contents@->Array_0 =~= box_contents_json(*b));
    }
    let mut es: Vec<(String, Json)> = Vec::new();
    assert(entries_view(es@) =~= seq![]);
    put_str(&mut es, "type", "box");
    put_str(&mut es, "layout", layout_name(b.layout));
    put(&mut es, "contents", contents);
    assert(entries_view(es@) =~= seq![
        ("type"@, JsonView::Str("box"@)),
        ("layout"@, JsonView::Str(layout_text(b.layout))),
        ("contents"@, JsonView::Array(box_contents_json(*b))),
    ]);
    put_opt(&mut es, "flex", opt_int_json(b.flex));
    put_opt_str(&mut es, "spacing", &b.spacing);
    put_opt_str(&mut es, "margin", &b.margin);
    put_opt_str(&mut es, "paddingAll", &b.padding_all);
    put_opt_str(&mut es, "paddingTop", &b.padding_top);
    put_opt_str(&mut es, "paddingBottom", &b.padding_bottom);
    put_opt_str(&mut es, "paddingStart", &b.padding_start);
    put_opt_str(&mut es, "paddingEnd", &b.padding_end);
    put_opt_str(&mut es, "backgroundColor", &b.background_color);
    put_opt_str(&mut es, "cornerRadius", &b.corner_radius);
    put_opt_str(&mut es, "width", &b.width);
    put_opt_str(&mut es, "height", &b.height);
    put_opt_str(&mut es, "alignItems", &b.align_items);
    put_opt_str(&mut es, "justifyContent", &b.justify_content);
    json_object(es)
}

fn image_to_json(i: &FlexImage) -> (r: Json)
    ensures
        r@ == image_json(*i),
{
    let mut es = entries2("type", str_json("image"), "url", str_json(i.url.as_str()));
    put_opt(&mut es, "flex", opt_int_json(i.flex));
    put_opt_str(&mut es, "margin", &i.margin);
    put_opt_str(&mut es, "alignItems", &i.align_items);
    put_opt_str(&mut es, "aspectRatio", &i.aspect_ratio);
    put_opt_str(&mut es, "size", &i.size);
    json_object(es)
}

fn text_to_json(t: &FlexText) -> (r: Json)
    ensures
        r@ == text_json(*t),
{
    let mut es = entries2("type", str_json("text"), "text", str_json(t.text.as_str()));
    put_opt_str(&mut es, "size", &t.size);
    put_opt_str(&mut es, "align", &t.align);
    put_opt_str(&mut es, "gravity", &t.gravity);
    put_opt_str(&mut es, "color", &t.color);
    put_opt_str(&mut es, "weight", &t.weight);
    put_opt_str(&mut es, "margin", &t.margin);
    let wrap = match t.wrap {
        Some(w) => Some(json_bool(w)),
        None => None,
    };
    put_opt(&mut es, "wrap", wrap);
    let max_lines = match t.max_lines {
        Some(m) => Some(json_uint(m as u64)),
        None => None,
    };
    put_opt(&mut es, "maxLines", max_lines);
    json_object(es)
}

fn button_to_json(b: &FlexButton) -> (r: Json)
    ensures
        r@ == button_json(*b),
{
    let mut es = entries2("type", str_json("button"), "action", b.action.to_json());
    match b.style {
        Some(s) => {
            let name = match s {
                FlexButtonStyle::Link => "link",
                FlexButtonStyle::Primary => "primary",
                FlexButtonStyle::Secondary => "secondary",
            };
            put_str(&mut es, "style", name);
        },
        None => {},
    }
    put_opt(&mut es, "flex", opt_int_json(b.flex));
    put_opt_str(&mut es, "margin", &b.margin);
    json_object(es)
}

impl FlexComponentData {
    /// The JSON of this component.
    pub fn to_json(&self) -> (r: Json)
        ensures
            r@ == component_json(*self),
        decreases self,
    {
        match self {
            FlexComponentData::Box(b) => box_to_json(b),
            FlexComponentData::Text(t) => text_to_json(t),
            FlexComponentData::Image(i) => image_to_json(i),
            FlexComponentData::Button(b) => button_to_json(b),
            FlexComponentData::Icon(i) => {
                let mut es = entries2("type", str_json("icon"), "url", str_json(i.url.as_str()));
                put_opt_str(&mut es, "size", &i.size);
                put_opt_str(&mut es, "margin", &i.margin);
                json_object(es)
            },
            FlexComponentData::Separator(s) => {
                let mut es: Vec<(String, Json)> = Vec::new();
                assert(entries_view(es@) =~= seq![]);
                put_str(&mut es, "type", "separator");
                put_opt_str(&mut es, "margin", &s.margin);
                put_opt_str(&mut es, "color", &s.color);
                json_object(es)
            },
            FlexComponentData::Spacer(s) => {
                json_object(entries2("type", str_json("spacer"), "size", str_json(s.size.as_str())))
            },
            FlexComponentData::Filler(_) => {
                let mut es: Vec<(String, Json)> = Vec::new();
                assert(entries_view(es@) =~= seq![]);
                put_str(&mut es, "type", "filler");
                assert(entries_view(es@) =~= seq![("type"@, JsonView::Str("filler"@))]);
                json_object(es)
            },
        }
    }
}

impl FlexBox {
    /// The JSON of this box, as a component.
    pub fn to_json(&self) -> (r: Json)
        ensures
            r@ == box_json(*self),
            r@ == component_json(FlexComponentData::Box(*self)),
    {
        box_to_json(self)
    }
}

impl FlexImage {
    /// The JSON of this image, as a component.
    pub fn to_json(&self) -> (r: Json)
        ensures
            r@ == image_json(*self),
            r@ == component_json(FlexComponentData::Image(*self)),
    {
        image_to_json(self)
    }
}

impl FlexBubble {
    /// The JSON of this bubble.
    pub fn to_json(&self) -> (r: Json)
        ensures
            r@ == bubble_json(*self),
    {
        let mut es = entries2("type", str_json("bubble"), "body", box_to_json(&self.body));
        let header = match &self.header {
            Some(h) => Some(box_to_json(h)),
            None => None,
        };
        put_opt(&mut es, "header", header);
        let hero = match &self.hero {
            Some(h) => Some(image_to_json(h)),
            None => None,
        };
        put_opt(&mut es, "hero", hero);
        let footer = match &self.footer {
            Some(f) => Some(box_to_json(f)),
            None => None,
        };
        put_opt(&mut es, "footer", footer);
        match self.direction {
            Some(d) => {
                let name = match d {
                    FlexDirection::LeftToRight => "ltr",
                    FlexDirection::RightToLeft => "rtl",
                };
                put_str(&mut es, "direction", name);
            },
            None => {},
        }
        json_object(es)
    }
}

impl FlexCarousel {
    /// The JSON of this carousel.
    pub fn to_json(&self) -> (r: Json)
        ensures
            r@ == carousel_json(*self),
    {
        let mut items: Vec<Json> = Vec::new();
        let mut i: usize = 0;
        while i < self.contents.len()
            invariant
                0 <= i <= self.contents.len(),
                items_view(items@) =~= Seq::new(i as nat, |k: int| bubble_json(self.contents[k])),
            decreases self.contents.len() - i,
        {
            let j = self.contents[i].to_json();
            push_item(&mut items, j);
            i = i + 1;
        }
        json_object(entries2("type", str_json("carousel"), "contents", json_array(items)))
    }
}

// ---------------------------------------------------------------------------
// Copies
// ---------------------------------------------------------------------------

fn copy_component(c: &FlexComponentData) -> FlexComponentData
    decreases c,
{
    match c {
        FlexComponentData::Box(b) => FlexComponentData::Box(copy_box(b)),
        FlexComponentData::Text(t) => FlexComponentData::Text(t.clone()),
        FlexComponentData::Image(i) => FlexComponentData::Image(i.clone()),
        FlexComponentData::Button(b) => FlexComponentData::Button(b.clone()),
        FlexComponentData::Icon(i) => FlexComponentData::Icon(i.clone()),
        FlexComponentData::Separator(s) => FlexComponentData::Separator(s.clone()),
        FlexComponentData::Spacer(s) => FlexComponentData::Spacer(s.clone()),
        FlexComponentData::Filler(_) => FlexComponentData::Filler(FlexFiller),
    }
}

fn copy_box(b: &FlexBox) -> FlexBox
    decreases b,
{
    let mut contents: Vec<FlexComponentData> = Vec::new();
    let mut i: usize = 0;
    while i < b.contents.len()
        invariant
            0 <= i <= b.contents.len(),
        decreases b.contents.len() - i,
    {
        proof {
            assert(decreases_to!(*b => b.contents));
            assert(decreases_to!(b.contents => b.contents[i as int]));
        }
        contents.push(copy_component(&b.contents[i]));
        i = i + 1;
    }
    FlexBox {
        layout: b.layout,
        contents,
        flex: b.flex,
        spacing: b.spacing.clone(),
        margin: b.margin.clone(),
        padding_all: b.padding_all.clone(),
        padding_top: b.padding_top.clone(),
        padding_bottom: b.padding_bottom.clone(),
        padding_start: b.padding_start.clone(),
        padding_end: b.padding_end.clone(),
        background_color: b.background_color.clone(),
        background_width: b.background_width.clone(),
        corner_radius: b.corner_radius.clone(),
        width: b.width.clone(),
        height: b.height.clone(),
        align_items: b.align_items.clone(),
        justify_content: b.justify_content.clone(),
        position: b.position.clone(),
        offset_top: b.offset_top.clone(),
        offset_bottom: b.offset_bottom.clone(),
        offset_start: b.offset_start.clone(),
        offset_end: b.offset_end.clone(),
    }
}

fn copy_opt_box(b: &Option<FlexBox>) -> Option<FlexBox> {
    match b {
        Some(b) => Some(copy_box(b)),
        None => None,
    }
}

fn copy_bubble(b: &FlexBubble) -> FlexBubble {
    FlexBubble {
        header: copy_opt_box(&b.header),
        hero: b.hero.clone(),
        body: copy_box(&b.body),
        footer: copy_opt_box(&b.footer),
        styles: b.styles.clone(),
        direction: b.direction,
    }
}

impl Clone for FlexComponentData {
    fn clone(&self) -> Self {
        copy_component(self)
    }
}

impl Clone for FlexBox {
    fn clone(&self) -> Self {
        copy_box(self)
    }
}

impl Clone for FlexBubble {
    fn clone(&self) -> Self {
        copy_bubble(self)
    }
}

impl Clone for FlexCarousel {
    fn clone(&self) -> Self {
        let mut contents: Vec<FlexBubble> = Vec::new();
        let mut i: usize = 0;
        while i < self.contents.len()
            invariant
                0 <= i <= self.contents.len(),
            decreases self.contents.len() - i,
        {
            contents.push(copy_bubble(&self.contents[i]));
            i = i + 1;
        }
        FlexCarousel { contents }
    }
}


// ---------------------------------------------------------------------------
// Builders
// ---------------------------------------------------------------------------

/// `o` holds exactly the text `s`.
pub open spec fn holds(o: Option<String>, s: Seq<char>) -> bool {
    opt_str_view(o) == Some(s)
}

/// A box with the given layout, no contents and every option unset.
pub open spec fn is_bare_box(b: FlexBox, layout: FlexBoxLayout) -> bool {
    &&& b.layout == layout
    &&& b.contents@.len() == 0
    &&& b.flex is None
    &&& b.spacing is None
    &&& b.margin is None
    &&& b.padding_all is None
    &&& b.padding_top is None
    &&& b.padding_bottom is None
    &&& b.padding_start is None
    &&& b.padding_end is None
    &&& b.background_color is None
    &&& b.background_width is None
    &&& b.corner_radius is None
    &&& b.width is None
    &&& b.height is None
    &&& b.align_items is None
    &&& b.justify_content is None
    &&& b.position is None
    &&& b.offset_top is None
    &&& b.offset_bottom is None
    &&& b.offset_start is None
    &&& b.offset_end is None
}

fn some_text(s: &str) -> (r: Option<String>)
    ensures
        opt_str_view(r) == Some(s@),
{
    Some(s.to_owned())
}

impl FlexBox {
    pub fn new(layout: FlexBoxLayout) -> (r: Self)
        ensures
            is_bare_box(r, layout),
    {
        FlexBox {
            layout,
            contents: Vec::new(),
            flex: None,
            spacing: None,
            margin: None,
            padding_all: None,
            padding_top: None,
            padding_bottom: None,
            padding_start: None,
            padding_end: None,
            background_color: None,
            background_width: None,
            corner_radius: None,
            width: None,
            height: None,
            align_items: None,
            justify_content: None,
            position: None,
            offset_top: None,
            offset_bottom: None,
            offset_start: None,
            offset_end: None,
        }
    }

    pub fn horizontal() -> (r: Self)
        ensures
            is_bare_box(r, FlexBoxLayout::Horizontal),
    {
        Self::new(FlexBoxLayout::Horizontal)
    }

    pub fn vertical() -> (r: Self)
        ensures
            is_bare_box(r, FlexBoxLayout::Vertical),
    {
        Self::new(FlexBoxLayout::Vertical)
    }

    /// Appends a component to the contents.
    pub fn add_component(self, component: FlexComponentData) -> (r: Self)
        ensures
            r.contents@ == self.contents@.push(component),
            r == (FlexBox { contents: r.contents, ..self }),
    {
        let mut b = self;
        b.contents.push(component);
        b
    }

    /// Replaces the contents.
    pub fn contents(self, contents: Vec<FlexComponentData>) -> (r: Self)
        ensures
            r == (FlexBox { contents: contents, ..self }),
    {
        let mut b = self;
        b.contents = contents;
        b
    }

    pub fn flex(self, flex: i32) -> (r: Self)
        ensures
            r == (FlexBox { flex: Some(flex), ..self }),
    {
        let mut b = self;
        b.flex = Some(flex);
        b
    }

    pub fn spacing(self, spacing: &str) -> (r: Self)
        ensures
            holds(r.spacing, spacing@),
            r == (FlexBox { spacing: r.spacing, ..self }),
    {
        let mut b = self;
        b.spacing = some_text(spacing);
        b
    }

    pub fn margin(self, margin: &str) -> (r: Self)
        ensures
            holds(r.margin, margin@),
            r == (FlexBox { margin: r.margin, ..self }),
    {
        let mut b = self;
        b.margin = some_text(margin);
        b
    }

    /// Sets the padding on every side (`paddingAll`).
    pub fn padding(self, padding: &str) -> (r: Self)
        ensures
            holds(r.padding_all, padding@),
            r == (FlexBox { padding_all: r.padding_all, ..self }),
    {
        let mut b = self;
        b.padding_all = some_text(padding);
        b
    }

    /// Sets the background color.
    pub fn background(self, color: &str) -> (r: Self)
        ensures
            holds(r.background_color, color@),
            r == (FlexBox { background_color: r.background_color, ..self }),
    {
        let mut b = self;
        b.background_color = some_text(color);
        b
    }

    pub fn corner_radius(self, radius: &str) -> (r: Self)
        ensures
            holds(r.corner_radius, radius@),
            r == (FlexBox { corner_radius: r.corner_radius, ..self }),
    {
        let mut b = self;
        b.corner_radius = some_text(radius);
        b
    }
}

impl FlexText {
    pub fn new(text: &str) -> (r: Self)
        ensures
            r.text@ == text@,
            r.size is None && r.align is None && r.gravity is None && r.wrap is None,
            r.max_lines is None && r.weight is None && r.color is None && r.margin is None,
            r.position is None && r.offset_top is None && r.offset_bottom is None,
            r.offset_start is None && r.offset_end is None && r.line_spacing is None,
            r.decoration is None && r.style is None,
    {
        FlexText {
            text: text.to_owned(),
            size: None,
            align: None,
            gravity: None,
            wrap: None,
            max_lines: None,
            weight: None,
            color: None,
            margin: None,
            position: None,
            offset_top: None,
            offset_bottom: None,
            offset_start: None,
            offset_end: None,
            line_spacing: None,
            decoration: None,
            style: None,
        }
    }

    pub fn size(self, size: &str) -> (r: Self)
        ensures
            holds(r.size, size@),
            r == (FlexText { size: r.size, ..self }),
    {
        let mut b = self;
        b.size = some_text(size);
        b
    }

    pub fn align(self, align: &str) -> (r: Self)
        ensures
            holds(r.align, align@),
            r == (FlexText { align: r.align, ..self }),
    {
        let mut b = self;
        b.align = some_text(align);
        b
    }

    pub fn color(self, color: &str) -> (r: Self)
        ensures
            holds(r.color, color@),
            r == (FlexText { color: r.color, ..self }),
    {
        let mut b = self;
        b.color = some_text(color);
        b
    }

    /// Sets the weight to `bold`.
    pub fn bold(self) -> (r: Self)
        ensures
            holds(r.weight, "bold"@),
            r == (FlexText { weight: r.weight, ..self }),
    {
        let mut b = self;
        b.weight = some_text("bold");
        b
    }

    /// Turns wrapping on.
    pub fn wrap(self) -> (r: Self)
        ensures
            r == (FlexText { wrap: Some(true), ..self }),
    {
        let mut b = self;
        b.wrap = Some(true);
        b
    }

    pub fn max_lines(self, lines: u32) -> (r: Self)
        ensures
            r == (FlexText { max_lines: Some(lines), ..self }),
    {
        let mut b = self;
        b.max_lines = Some(lines);
        b
    }

    pub fn margin(self, margin: &str) -> (r: Self)
        ensures
            holds(r.margin, margin@),
            r == (FlexText { margin: r.margin, ..self }),
    {
        let mut b = self;
        b.margin = some_text(margin);
        b
    }
}

impl FlexImage {
    pub fn new(url: &str) -> (r: Self)
        ensures
            r.url@ == url@,
            r.flex is None && r.margin is None && r.align_items is None && r.gravity is None,
            r.aspect_ratio is None && r.aspect_mode is None && r.size is None,
            r.position is None && r.offset_top is None && r.offset_bottom is None,
            r.offset_start is None && r.offset_end is None,
    {
        FlexImage {
            url: url.to_owned(),
            flex: None,
            margin: None,
            align_items: None,
            gravity: None,
            aspect_ratio: None,
            aspect_mode: None,
            size: None,
            position: None,
            offset_top: None,
            offset_bottom: None,
            offset_start: None,
            offset_end: None,
        }
    }

    pub fn flex(self, flex: i32) -> (r: Self)
        ensures
            r == (FlexImage { flex: Some(flex), ..self }),
    {
        let mut b = self;
        b.flex = Some(flex);
        b
    }

    pub fn margin(self, margin: &str) -> (r: Self)
        ensures
            holds(r.margin, margin@),
            r == (FlexImage { margin: r.margin, ..self }),
    {
        let mut b = self;
        b.margin = some_text(margin);
        b
    }

    pub fn aspect_ratio(self, ratio: &str) -> (r: Self)
        ensures
            holds(r.aspect_ratio, ratio@),
            r == (FlexImage { aspect_ratio: r.aspect_ratio, ..self }),
    {
        let mut b = self;
        b.aspect_ratio = some_text(ratio);
        b
    }

    pub fn size(self, size: &str) -> (r: Self)
        ensures
            holds(r.size, size@),
            r == (FlexImage { size: r.size, ..self }),
    {
        let mut b = self;
        b.size = some_text(size);
        b
    }
}

impl FlexButton {
    pub fn new(action: TemplateAction) -> (r: Self)
        ensures
            r.action == action,
            r.style is None && r.flex is None && r.margin is None && r.height is None,
            r.position is None && r.offset_top is None && r.offset_bottom is None,
            r.offset_start is None && r.offset_end is None,
    {
        FlexButton {
            action,
            style: None,
            flex: None,
            margin: None,
            height: None,
            position: None,
            offset_top: None,
            offset_bottom: None,
            offset_start: None,
            offset_end: None,
        }
    }

    pub fn style(self, style: FlexButtonStyle) -> (r: Self)
        ensures
            r == (FlexButton { style: Some(style), ..self }),
    {
        let mut b = self;
        b.style = Some(style);
        b
    }

    pub fn margin(self, margin: &str) -> (r: Self)
        ensures
            holds(r.margin, margin@),
            r == (FlexButton { margin: r.margin, ..self }),
    {
        let mut b = self;
        b.margin = some_text(margin);
        b
    }
}

impl FlexIcon {
    pub fn new(url: &str) -> (r: Self)
        ensures
            r.url@ == url@,
            r.margin is None && r.size is None && r.aspect_ratio is None && r.position is None,
    {
        FlexIcon { url: url.to_owned(), margin: None, size: None, aspect_ratio: None, position: None }
    }

    pub fn size(self, size: &str) -> (r: Self)
        ensures
            holds(r.size, size@),
            r == (FlexIcon { size: r.size, ..self }),
    {
        let mut b = self;
        b.size = some_text(size);
        b
    }

    pub fn margin(self, margin: &str) -> (r: Self)
        ensures
            holds(r.margin, margin@),
            r == (FlexIcon { margin: r.margin, ..self }),
    {
        let mut b = self;
        b.margin = some_text(margin);
        b
    }
}

impl FlexSeparator {
    pub fn new() -> (r: Self)
        ensures
            r.margin is None && r.color is None,
    {
        FlexSeparator { margin: None, color: None }
    }

    pub fn margin(self, margin: &str) -> (r: Self)
        ensures
            holds(r.margin, margin@),
            r.color == self.color,
    {
        let mut b = self;
        b.margin = some_text(margin);
        b
    }

    pub fn color(self, color: &str) -> (r: Self)
        ensures
            holds(r.color, color@),
            r.margin == self.margin,
    {
        let mut b = self;
        b.color = some_text(color);
        b
    }
}

impl FlexSpacer {
    pub fn new(size: &str) -> (r: Self)
        ensures
            r.size@ == size@,
    {
        FlexSpacer { size: size.to_owned() }
    }
}

impl FlexBubble {
    /// A bubble with the given body and nothing else.
    pub fn new(body: FlexBox) -> (r: Self)
        ensures
            r.body == body,
            r.header is None && r.hero is None && r.footer is None,
            r.styles is None && r.direction is None,
    {
        FlexBubble { header: None, hero: None, body, footer: None, styles: None, direction: None }
    }

    pub fn header(self, header: FlexBox) -> (r: Self)
        ensures
            r == (FlexBubble { header: Some(header), ..self }),
    {
        let mut b = self;
        b.header = Some(header);
        b
    }

    pub fn hero(self, hero: FlexImage) -> (r: Self)
        ensures
            r == (FlexBubble { hero: Some(hero), ..self }),
    {
        let mut b = self;
        b.hero = Some(hero);
        b
    }

    pub fn footer(self, footer: FlexBox) -> (r: Self)
        ensures
            r == (FlexBubble { footer: Some(footer), ..self }),
    {
        let mut b = self;
        b.footer = Some(footer);
        b
    }

    pub fn direction(self, direction: FlexDirection) -> (r: Self)
        ensures
            r == (FlexBubble { direction: Some(direction), ..self }),
    {
        let mut b = self;
        b.direction = Some(direction);
        b
    }
}

impl FlexCarousel {
    /// A carousel without bubbles.
    pub fn new() -> (r: Self)
        ensures
            r.contents@.len() == 0,
    {
        FlexCarousel { contents: Vec::new() }
    }

    /// Appends a bubble.
    pub fn add_bubble(self, bubble: FlexBubble) -> (r: Self)
        ensures
            r.contents@ == self.contents@.push(bubble),
    {
        let mut b = self;
        b.contents.push(bubble);
        b
    }

    /// Replaces the bubbles.
    pub fn contents(self, contents: Vec<FlexBubble>) -> (r: Self)
        ensures
            r.contents == contents,
    {
        let mut b = self;
        b.contents = contents;
        b
    }
}

} // verus!
