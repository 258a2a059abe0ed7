//! Lark (Feishu) API types.

use vstd::prelude::*;
use crate::channels::json::{copy_json, entries_view, field, json_object, json_str, put, put_str, Json, JsonView};

verus! {

/// Lark webhook / event request.
#[derive(Debug)]
pub struct LarkWebRequest {
    pub challenge: Option<String>,
    pub token: Option<String>,
    pub event_type: Option<String>,
}

/// Lark event.
#[derive(Debug)]
pub struct LarkEvent {
    pub app_id: String,
    pub tenant_key: String,
    pub event: LarkEventDetail,
}

/// Lark event detail.
#[derive(Debug)]
pub enum LarkEventDetail {
    Message(LarkMessageEvent),
    Unknown(Json),
}

/// Lark message event.
#[derive(Debug)]
pub struct LarkMessageEvent {
    pub sender: LarkSender,
    pub message: LarkMessage,
    pub create_time: String,
}

/// Lark sender info.
#[derive(Debug)]
pub struct LarkSender {
    pub sender_id: LarkSenderId,
    pub sender_type: String,
}

/// Lark sender ID.
#[derive(Debug)]
pub struct LarkSenderId {
    pub open_id: String,
    pub user_id: Option<String>,
    pub union_id: Option<String>,
}

/// Lark message content.
#[derive(Debug)]
pub struct LarkMessage {
    pub message_id: String,
    pub root_id: Option<String>,
    pub parent_id: Option<String>,
    pub create_time: String,
    pub chat_id: String,
    pub chat_type: String,
    pub message_type: String,
    pub content: Json,
    pub mention: Option<Json>,
}

/// Lark API response for a tenant access token.
#[derive(Debug)]
pub struct LarkTokenResponse {
    pub code: i32,
    pub msg: String,
    pub tenant_access_token: Option<String>,
    pub expire: Option<i32>,
}

/// Lark API send message request.
#[derive(Debug)]
pub struct LarkSendMessageRequest {
    pub receive_id_type: String,
    pub msg_type: String,
    pub receive_id: String,
    pub content: Json,
}

/// The JSON of a send request: its four fields in order.
pub open spec fn send_request_json(r: LarkSendMessageRequest) -> JsonView {
    JsonView::Object(
        seq![
            ("receive_id_type"@, JsonView::Str(r.receive_id_type@)),
            ("msg_type"@, JsonView::Str(r.msg_type@)),
            ("receive_id"@, JsonView::Str(r.receive_id@)),
            ("content"@, r.content@),
        ],
    )
}

/// The request that sends `text` to the user with open id `user_id`.
pub open spec fn is_text_request(r: LarkSendMessageRequest, user_id: Seq<char>, text: Seq<char>) -> bool {
    &&& r.receive_id_type@ == "open_id"@
    &&& r.msg_type@ == "text"@
    &&& r.receive_id@ == user_id
    &&& r.content@ == JsonView::Object(seq![("text"@, JsonView::Str(text))])
}

/// A send request carries its receive id type, message type, receive id
/// and content under their own keys; a text request to a user is addressed
/// by open id, has message type `text` and content `{"text": <the text>}`.
pub proof fn lemma_send_request_fields(r: LarkSendMessageRequest, user_id: Seq<char>, text: Seq<char>)
    ensures
        field(send_request_json(r), "receive_id_type"@) == Some(JsonView::Str(r.receive_id_type@)),
        field(send_request_json(r), "msg_type"@) == Some(JsonView::Str(r.msg_type@)),
        field(send_request_json(r), "receive_id"@) == Some(JsonView::Str(r.receive_id@)),
        field(send_request_json(r), "content"@) == Some(r.content@),
        is_text_request(r, user_id, text) ==> {
            &&& r.receive_id_type@ == "open_id"@
            &&& r.msg_type@ == "text"@
            &&& r.receive_id@ == user_id
            &&& field(r.content@, "text"@) == Some(JsonView::Str(text))
        },
{
    broadcast use crate::channels::json::group_lookup_entries, crate::channels::json::lemma_lookup_push, crate::channels::json::lemma_lookup_empty;
    reveal_with_fuel(crate::channels::json::lookup, 5);
    reveal_strlit("receive_id_type");
    reveal_strlit("msg_type");
    reveal_strlit("receive_id");
    reveal_strlit("content");
    reveal_strlit("text");
    assert("receive_id_type"@.len() == 15);
    assert("msg_type"@.len() == 8);
    assert("receive_id"@.len() == 10);
    assert("content"@.len() == 7);
    assert("text"@.len() == 4);
}

impl LarkSendMessageRequest {
    /// A text message to the user with open id `user_id`: content
    /// `{"text": text}`.
    pub fn text(user_id: &str, text: &str) -> (r: Self)
        ensures
            is_text_request(r, user_id@, text@),
    {
        let mut es: Vec<(String, Json)> = Vec::new();
        assert(entries_view(es@) =~= seq![]);
        put_str(&mut es, "text", text);
        let content = json_object(es);
        assert(content@->Object_0 =~= seq![("text"@, JsonView::Str(text@))]);
        LarkSendMessageRequest {
            receive_id_type: "open_id".to_owned(),
            msg_type: "text".to_owned(),
            receive_id: user_id.to_owned(),
            content,
        }
    }

    /// The JSON body of this request.
    pub fn to_json(&self) -> (r: Json)
        ensures
            r@ == send_request_json(*self),
    {
        let mut es: Vec<(String, Json)> = Vec::new();
        assert(entries_view(es@) =~= seq![]);
        put_str(&mut es, "receive_id_type", self.receive_id_type.as_str());
        put_str(&mut es, "msg_type", self.msg_type.as_str());
        put_str(&mut es, "receive_id", self.receive_id.as_str());
        put(&mut es, "content", copy_json(&self.content));
        let r = json_object(es);
        assert(r@->Object_0 =~= send_request_json(*self)->Object_0);
        r
    }
}

/// Lark API send message response.
#[derive(Debug)]
pub struct LarkSendMessageResponse {
    pub code: i32,
    pub msg: String,
    pub data: Option<LarkMessageData>,
}

/// Lark message data.
#[derive(Debug)]
pub struct LarkMessageData {
    pub message_id: String,
}

/// Lark rich text content element.
#[derive(Debug)]
pub struct LarkTextElement {
    pub tag: String,
    pub text: String,
}

/// Lark post (rich text) content.
#[derive(Debug)]
pub struct LarkPostContent {
    pub post: LarkPost,
}

#[derive(Debug)]
pub struct LarkPost {
    pub zh_cn: LarkPostContentZhCn,
}

#[derive(Debug)]
pub struct LarkPostContentZhCn {
    pub title: Option<String>,
    pub content: Vec<Vec<LarkTextElement>>,
}

/// Lark card content.
#[derive(Debug)]
pub struct LarkCardContent {
    pub msg_type: String,
    pub card: LarkCard,
}

#[derive(Debug)]
pub struct LarkCard {
    pub header: Option<LarkCardHeader>,
    pub elements: Vec<Json>,
}

#[derive(Debug)]
pub struct LarkCardHeader {
    pub title: LarkCardTitle,
    pub template: Option<String>,
}

#[derive(Debug)]
pub struct LarkCardTitle {
    pub content: String,
    pub tag: String,
}

/// Error response from the Lark API.
#[derive(Debug)]
pub struct LarkErrorResponse {
    pub code: i32,
    pub msg: String,
}

} // verus!
