//! LINE webhook event types and their interpretation.
//!
//! This module holds the webhook payload types (message, postback,
//! follow / unfollow, member and beacon events) and what the channel
//! makes of them.

use vstd::prelude::*;
use crate::channels::json::{entries_view, json_object, put_str, Json, JsonView};
use crate::channels::text::{chars_of, same_text, string_of};

verus! {

/// LINE webhook request body.
#[derive(Debug)]
pub struct LineWebhook {
    pub destination: String,
    pub events: Vec<WebhookEvent>,
}

/// A webhook event from LINE.
#[derive(Debug)]
pub struct WebhookEvent {
    pub event_type: WebhookEventType,
    pub mode: String,
    pub timestamp: i64,
    pub source: WebhookSource,
    pub message: Option<WebhookMessage>,
    pub reply_token: Option<String>,
    pub postback: Option<WebhookPostback>,
    pub beacon: Option<WebhookBeacon>,
    pub joined: Option<WebhookMember>,
    pub left: Option<WebhookMember>,
    pub link: Option<WebhookAccountLink>,
    /// Webhook event ID (for deduplication).
    pub webhook_event_id: Option<String>,
}

/// Event type of a webhook event.
#[derive(Debug, PartialEq, Eq, Structural, Clone, Copy)]
pub enum WebhookEventType {
    Message,
    Postback,
    Beacon,
    MemberJoined,
    MemberLeft,
    Follow,
    Unfollow,
    AccountLink,
    Things,
    Unknown,
}

/// The event types that call for a bot response.
pub open spec fn responds(t: WebhookEventType) -> bool {
    t is Message || t is Postback || t is Follow || t is MemberJoined
}

/// The event types that carry a reply token.
pub open spec fn carries_reply_token(t: WebhookEventType) -> bool {
    t is Message || t is Postback || t is Follow || t is MemberJoined || t is Beacon
}

/// The name of an event type as its variant is written.
pub open spec fn event_type_name(t: WebhookEventType) -> Seq<char> {
    match t {
        WebhookEventType::Message => "Message"@,
        WebhookEventType::Postback => "Postback"@,
        WebhookEventType::Beacon => "Beacon"@,
        WebhookEventType::MemberJoined => "MemberJoined"@,
        WebhookEventType::MemberLeft => "MemberLeft"@,
        WebhookEventType::Follow => "Follow"@,
        WebhookEventType::Unfollow => "Unfollow"@,
        WebhookEventType::AccountLink => "AccountLink"@,
        WebhookEventType::Things => "Things"@,
        WebhookEventType::Unknown => "Unknown"@,
    }
}

impl WebhookEventType {
    /// Whether this event type should trigger a bot response.
    pub fn should_respond(&self) -> (r: bool)
        ensures
            r == responds(*self),
    {
        match self {
            WebhookEventType::Message
            | WebhookEventType::Postback
            | WebhookEventType::Follow
            | WebhookEventType::MemberJoined => true,
            _ => false,
        }
    }

    /// Whether this event type has a reply token.
    pub fn has_reply_token(&self) -> (r: bool)
        ensures
            r == carries_reply_token(*self),
    {
        match self {
            WebhookEventType::Message
            | WebhookEventType::Postback
            | WebhookEventType::Follow
            | WebhookEventType::MemberJoined
            | WebhookEventType::Beacon => true,
            _ => false,
        }
    }

    /// The name of this event type as its variant is written.
    pub fn name(&self) -> (r: &'static str)
        ensures
            r@ == event_type_name(*self),
    {
        match self {
            WebhookEventType::Message => "Message",
            WebhookEventType::Postback => "Postback",
            WebhookEventType::Beacon => "Beacon",
            WebhookEventType::MemberJoined => "MemberJoined",
            WebhookEventType::MemberLeft => "MemberLeft",
            WebhookEventType::Follow => "Follow",
            WebhookEventType::Unfollow => "Unfollow",
            WebhookEventType::AccountLink => "AccountLink",
            WebhookEventType::Things => "Things",
            WebhookEventType::Unknown => "Unknown",
        }
    }
}

/// Every event type that calls for a response carries a reply token.
pub proof fn lemma_responding_events_carry_reply_token(t: WebhookEventType)
    ensures
        responds(t) ==> carries_reply_token(t),
{
}

/// Source of a webhook event.
#[derive(Debug, Clone)]
pub struct WebhookSource {
    pub source_type: String,
    pub user_id: String,
    pub group_id: Option<String>,
    pub room_id: Option<String>,
}

/// The identifier a source is answered at: its group, else its room,
/// else its user.
pub open spec fn source_id_of(s: WebhookSource) -> Seq<char> {
    match s.group_id {
        Some(g) => g@,
        None => match s.room_id {
            Some(r) => r@,
            None => s.user_id@,
        },
    }
}

fn clone_opt_string(o: &Option<String>) -> (r: Option<String>)
    ensures
        r == *o,
{
    match o {
        Some(s) => Some(s.clone()),
        None => None,
    }
}

impl WebhookSource {
    /// The source identifier (group id, room id or user id).
    pub fn source_id(&self) -> (r: &str)
        ensures
            r@ == source_id_of(*self),
    {
        match &self.group_id {
            Some(gid) => gid.as_str(),
            None => match &self.room_id {
                Some(rid) => rid.as_str(),
                None => self.user_id.as_str(),
            },
        }
    }

    /// Whether this is a group chat event.
    pub fn is_group(&self) -> (r: bool)
        ensures
            r == self.group_id is Some,
    {
        self.group_id.is_some()
    }

    /// Whether this is a room chat event.
    pub fn is_room(&self) -> (r: bool)
        ensures
            r == self.room_id is Some,
    {
        self.room_id.is_some()
    }

    /// Whether this is a direct (one-to-one) message.
    pub fn is_direct(&self) -> (r: bool)
        ensures
            r == (self.group_id is None && self.room_id is None),
    {
        self.group_id.is_none() && self.room_id.is_none()
    }

    /// An equal copy of this source.
    pub fn duplicate(&self) -> (r: Self)
        ensures
            r == *self,
    {
        WebhookSource {
            source_type: self.source_type.clone(),
            user_id: self.user_id.clone(),
            group_id: clone_opt_string(&self.group_id),
            room_id: clone_opt_string(&self.room_id),
        }
    }
}

/// A source is direct exactly when it is neither a group nor a room, and
/// a direct source is answered at its user id.
pub proof fn lemma_direct_source(s: WebhookSource)
    ensures
        (s.group_id is None && s.room_id is None) <==> !(s.group_id is Some || s.room_id is Some),
        (s.group_id is None && s.room_id is None) ==> source_id_of(s) == s.user_id@,
{
}

/// Message data of a webhook event.
#[derive(Debug)]
pub struct WebhookMessage {
    pub message_type: String,
    pub id: String,
    pub text: Option<String>,
    pub file_id: Option<String>,
    pub content_provider: Option<ContentProvider>,
}

/// Content provider of a media message.
#[derive(Debug)]
pub struct ContentProvider {
    pub provider_type: Option<String>,
    pub original_content_url: Option<String>,
    pub preview_image_url: Option<String>,
}

/// Postback data of a webhook event.
#[derive(Debug, Clone)]
pub struct WebhookPostback {
    pub data: String,
    pub params: Option<PostbackParams>,
}

/// Parameters of a postback from a date / time picker.
#[derive(Debug, Clone)]
pub struct PostbackParams {
    pub date: Option<String>,
    pub time: Option<String>,
    pub datetime: Option<String>,
}

/// The picked value: the date, else the time, else the datetime.
pub open spec fn picked_value(p: PostbackParams) -> Option<Seq<char>> {
    match p.date {
        Some(d) => Some(d@),
        None => match p.time {
            Some(t) => Some(t@),
            None => match p.datetime {
                Some(dt) => Some(dt@),
                None => None,
            },
        },
    }
}

impl PostbackParams {
    /// The date / time value, whichever picker sent it.
    pub fn value(&self) -> (r: Option<&str>)
        ensures
            match r {
                Some(v) => picked_value(*self) == Some(v@),
                None => picked_value(*self) is None,
            },
    {
        match &self.date {
            Some(d) => Some(d.as_str()),
            None => match &self.time {
                Some(t) => Some(t.as_str()),
                None => match &self.datetime {
                    Some(dt) => Some(dt.as_str()),
                    None => None,
                },
            },
        }
    }

    /// An equal copy of these parameters.
    pub fn duplicate(&self) -> (r: Self)
        ensures
            r == *self,
    {
        PostbackParams {
            date: clone_opt_string(&self.date),
            time: clone_opt_string(&self.time),
            datetime: clone_opt_string(&self.datetime),
        }
    }
}

/// Beacon event data.
#[derive(Debug, Clone)]
pub struct WebhookBeacon {
    pub hwid: String,
    pub beacon_type: BeaconType,
    pub device_message: Option<String>,
}

/// Beacon event type.
#[derive(Debug, PartialEq, Eq, Structural, Clone, Copy)]
pub enum BeaconType {
    Enter,
    Leave,
    Ban,
    Unknown,
}

/// Member event data (joined / left).
#[derive(Debug, Clone)]
pub struct WebhookMember {
    pub members: Vec<Member>,
}

/// Member information.
#[derive(Debug, Clone)]
pub struct Member {
    pub user_id: String,
}

/// An equal copy of a member list.
pub fn duplicate_members(members: &Vec<Member>) -> (r: Vec<Member>)
    ensures
        r@ == members@,
{
    let mut out: Vec<Member> = Vec::new();
    let mut i: usize = 0;
    while i < members.len()
        invariant
            0 <= i <= members.len(),
            out@ == members@.take(i as int),
        decreases members.len() - i,
    {
        out.push(Member { user_id: members[i].user_id.clone() });
        i = i + 1;
        assert(out@ =~= members@.take(i as int));
    }
    assert(out@ =~= members@);
    out
}

/// Account link event data.
#[derive(Debug, Clone)]
pub struct WebhookAccountLink {
    pub result: AccountLinkResult,
    pub nonce: String,
    pub user_id: Option<String>,
}

/// Account link result (`ok` on the wire is `Succeeded`).
#[derive(Debug, PartialEq, Eq, Structural, Clone, Copy)]
pub enum AccountLinkResult {
    Succeeded,
    Failed,
    Unknown,
}

/// An event with its content extracted.
#[derive(Debug, Clone)]
#[allow(inconsistent_fields)]
pub enum ParsedEvent {
    Message { source: WebhookSource, reply_token: String, text: String, message_id: String },
    Postback {
        source: WebhookSource,
        reply_token: String,
        data: String,
        params: Option<PostbackParams>,
    },
    Follow { source: WebhookSource, reply_token: String },
    Unfollow { source: WebhookSource },
    MemberJoined { source: WebhookSource, reply_token: String, members: Vec<Member> },
    MemberLeft { source: WebhookSource, members: Vec<Member> },
    Beacon {
        source: WebhookSource,
        reply_token: Option<String>,
        hwid: String,
        beacon_type: BeaconType,
    },
    Unknown { source: WebhookSource, event_type: String },
}

/// The text of an optional string, empty when absent.
pub open spec fn text_or_empty(o: Option<String>) -> Seq<char> {
    match o {
        Some(s) => s@,
        None => Seq::empty(),
    }
}

/// `p` is an unknown event from `source` with the given type text.
pub open spec fn is_unknown_event(p: ParsedEvent, source: WebhookSource, name: Seq<char>) -> bool {
    p matches ParsedEvent::Unknown { source: s, event_type } && s == source && event_type@ == name
}

/// What parsing `e` gives: the variant of its type with the data that type
/// needs, or an unknown event naming what was missing.
pub open spec fn parsed_from(e: WebhookEvent, p: ParsedEvent) -> bool {
    match e.event_type {
        WebhookEventType::Message => match e.message {
            Some(m) => p matches ParsedEvent::Message { source, reply_token, text, message_id }
                && source == e.source && reply_token@ == text_or_empty(e.reply_token)
                && text@ == text_or_empty(m.text) && message_id@ == m.id@,
            None => is_unknown_event(p, e.source, "message_no_data"@),
        },
        WebhookEventType::Postback => match e.postback {
            Some(pb) => p matches ParsedEvent::Postback { source, reply_token, data, params }
                && source == e.source && reply_token@ == text_or_empty(e.reply_token)
                && data@ == pb.data@ && params == pb.params,
            None => is_unknown_event(p, e.source, "postback_no_data"@),
        },
        WebhookEventType::Follow => p matches ParsedEvent::Follow { source, reply_token }
            && source == e.source && reply_token@ == text_or_empty(e.reply_token),
        WebhookEventType::Unfollow => p matches ParsedEvent::Unfollow { source } && source == e.source,
        WebhookEventType::MemberJoined => match e.joined {
            Some(j) => p matches ParsedEvent::MemberJoined { source, reply_token, members }
                && source == e.source && reply_token@ == text_or_empty(e.reply_token)
                && members@ == j.members@,
            None => is_unknown_event(p, e.source, "member_joined_no_data"@),
        },
        WebhookEventType::MemberLeft => match e.left {
            Some(l) => p matches ParsedEvent::MemberLeft { source, members } && source == e.source
                && members@ == l.members@,
            None => is_unknown_event(p, e.source, "member_left_no_data"@),
        },
        WebhookEventType::Beacon => match e.beacon {
            Some(b) => p matches ParsedEvent::Beacon { source, reply_token, hwid, beacon_type }
                && source == e.source && reply_token == e.reply_token && hwid@ == b.hwid@
                && beacon_type == b.beacon_type,
            None => is_unknown_event(p, e.source, "beacon_no_data"@),
        },
        _ => is_unknown_event(p, e.source, event_type_name(e.event_type)),
    }
}

/// The text of an event's reply token, empty when it has none.
pub open spec fn reply_text(t: Option<String>) -> Seq<char> {
    match t {
        Some(s) => s@,
        None => Seq::empty(),
    }
}

/// What a parsed event holds, read off the event itself: a message event
/// keeps its source, its reply token (empty only when it has none), the
/// message's text (empty only when it has none) and the message id; a
/// postback keeps its source, reply token, data and picker parameters; a
/// follow keeps its source and reply token; an unfollow its source; member
/// events their source, the joining event its reply token, and the members;
/// a beacon its source, its reply token as given, the hardware id and the
/// beacon type. An event missing the data its type needs is unknown, named
/// `message_no_data`, `postback_no_data`, `member_joined_no_data`,
/// `member_left_no_data` or `beacon_no_data`; the other types are unknown
/// under their variant name.
pub proof fn lemma_parsed_event_fields(e: WebhookEvent, p: ParsedEvent)
    requires
        parsed_from(e, p),
    ensures
        e.event_type == WebhookEventType::Message && e.message is Some ==> (p matches ParsedEvent::Message {
            source,
            reply_token,
            text,
            message_id,
        } && source == e.source && reply_token@ == reply_text(e.reply_token) && text@ == reply_text(
            e.message->0.text,
        ) && message_id@ == e.message->0.id@),
        e.event_type == WebhookEventType::Postback && e.postback is Some ==> (p matches ParsedEvent::Postback {
            source,
            reply_token,
            data,
            params,
        } && source == e.source && reply_token@ == reply_text(e.reply_token) && data@
            == e.postback->0.data@ && params == e.postback->0.params),
        e.event_type == WebhookEventType::Follow ==> (p matches ParsedEvent::Follow { source, reply_token }
            && source == e.source && reply_token@ == reply_text(e.reply_token)),
        e.event_type == WebhookEventType::Unfollow ==> (p matches ParsedEvent::Unfollow { source }
            && source == e.source),
        e.event_type == WebhookEventType::MemberJoined && e.joined is Some ==> (p matches ParsedEvent::MemberJoined {
            source,
            reply_token,
            members,
        } && source == e.source && reply_token@ == reply_text(e.reply_token) && members@
            == e.joined->0.members@),
        e.event_type == WebhookEventType::MemberLeft && e.left is Some ==> (p matches ParsedEvent::MemberLeft {
            source,
            members,
        } && source == e.source && members@ == e.left->0.members@),
        e.event_type == WebhookEventType::Beacon && e.beacon is Some ==> (p matches ParsedEvent::Beacon {
            source,
            reply_token,
            hwid,
            beacon_type,
        } && source == e.source && reply_token == e.reply_token && hwid@ == e.beacon->0.hwid@
            && beacon_type == e.beacon->0.beacon_type),
        e.event_type == WebhookEventType::Message && e.message is None ==> (p matches ParsedEvent::Unknown {
            source,
            event_type,
        } && source == e.source && event_type@ == "message_no_data"@),
        e.event_type == WebhookEventType::Postback && e.postback is None ==> (p matches ParsedEvent::Unknown {
            source,
            event_type,
        } && source == e.source && event_type@ == "postback_no_data"@),
        e.event_type == WebhookEventType::MemberJoined && e.joined is None ==> (p matches ParsedEvent::Unknown {
            source,
            event_type,
        } && source == e.source && event_type@ == "member_joined_no_data"@),
        e.event_type == WebhookEventType::MemberLeft && e.left is None ==> (p matches ParsedEvent::Unknown {
            source,
            event_type,
        } && source == e.source && event_type@ == "member_left_no_data"@),
        e.event_type == WebhookEventType::Beacon && e.beacon is None ==> (p matches ParsedEvent::Unknown {
            source,
            event_type,
        } && source == e.source && event_type@ == "beacon_no_data"@),
        e.event_type == WebhookEventType::AccountLink ==> (p matches ParsedEvent::Unknown {
            source,
            event_type,
        } && source == e.source && event_type@ == "AccountLink"@),
        e.event_type == WebhookEventType::Things ==> (p matches ParsedEvent::Unknown {
            source,
            event_type,
        } && source == e.source && event_type@ == "Things"@),
        e.event_type == WebhookEventType::Unknown ==> (p matches ParsedEvent::Unknown {
            source,
            event_type,
        } && source == e.source && event_type@ == "Unknown"@),
{
}

/// The event types a bot answers are message, postback, follow and member
/// joined; those and beacon events carry a reply token; each type is named
/// as its variant is written.
pub proof fn lemma_event_type_classes(t: WebhookEventType)
    ensures
        responds(t) <==> (t == WebhookEventType::Message || t == WebhookEventType::Postback || t
            == WebhookEventType::Follow || t == WebhookEventType::MemberJoined),
        carries_reply_token(t) <==> (t == WebhookEventType::Message || t == WebhookEventType::Postback
            || t == WebhookEventType::Follow || t == WebhookEventType::MemberJoined || t
            == WebhookEventType::Beacon),
        event_type_name(t) == match t {
            WebhookEventType::Message => "Message"@,
            WebhookEventType::Postback => "Postback"@,
            WebhookEventType::Beacon => "Beacon"@,
            WebhookEventType::MemberJoined => "MemberJoined"@,
            WebhookEventType::MemberLeft => "MemberLeft"@,
            WebhookEventType::Follow => "Follow"@,
            WebhookEventType::Unfollow => "Unfollow"@,
            WebhookEventType::AccountLink => "AccountLink"@,
            WebhookEventType::Things => "Things"@,
            WebhookEventType::Unknown => "Unknown"@,
        },
{
}

/// A source is answered at its group when it has one, else at its room,
/// else at its user; a picker's value is its date, else its time, else its
/// datetime.
pub proof fn lemma_source_and_picker(s: WebhookSource, p: PostbackParams)
    ensures
        s.group_id is Some ==> source_id_of(s) == s.group_id->0@,
        s.group_id is None && s.room_id is Some ==> source_id_of(s) == s.room_id->0@,
        s.group_id is None && s.room_id is None ==> source_id_of(s) == s.user_id@,
        p.date is Some ==> picked_value(p) == Some(p.date->0@),
        p.date is None && p.time is Some ==> picked_value(p) == Some(p.time->0@),
        p.date is None && p.time is None ==> picked_value(p) == match p.datetime {
            Some(d) => Some(d@),
            None => None,
        },
{
}

fn text_or_empty_of(o: &Option<String>) -> (r: String)
    ensures
        r@ == text_or_empty(*o),
{
    match o {
        Some(s) => s.clone(),
        None => String::new(),
    }
}

fn unknown_event(source: &WebhookSource, name: &str) -> (r: ParsedEvent)
    ensures
        is_unknown_event(r, *source, name@),
{
    ParsedEvent::Unknown { source: source.duplicate(), event_type: name.to_owned() }
}

impl WebhookEvent {
    /// Parses the event into a [`ParsedEvent`].
    pub fn parse(&self) -> (r: ParsedEvent)
        ensures
            parsed_from(*self, r),
    {
        match self.event_type {
            WebhookEventType::Message => match &self.message {
                Some(msg) => ParsedEvent::Message {
                    source: self.source.duplicate(),
                    reply_token: text_or_empty_of(&self.reply_token),
                    text: text_or_empty_of(&msg.text),
                    message_id: msg.id.clone(),
                },
                None => unknown_event(&self.source, "message_no_data"),
            },
            WebhookEventType::Postback => match &self.postback {
                Some(pb) => ParsedEvent::Postback {
                    source: self.source.duplicate(),
                    reply_token: text_or_empty_of(&self.reply_token),
                    data: pb.data.clone(),
                    params: match &pb.params {
                        Some(p) => Some(p.duplicate()),
                        None => None,
                    },
                },
                None => unknown_event(&self.source, "postback_no_data"),
            },
            WebhookEventType::Follow => ParsedEvent::Follow {
                source: self.source.duplicate(),
                reply_token: text_or_empty_of(&self.reply_token),
            },
            WebhookEventType::Unfollow => ParsedEvent::Unfollow { source: self.source.duplicate() },
            WebhookEventType::MemberJoined => match &self.joined {
                Some(joined) => ParsedEvent::MemberJoined {
                    source: self.source.duplicate(),
                    reply_token: text_or_empty_of(&self.reply_token),
                    members: duplicate_members(&joined.members),
                },
                None => unknown_event(&self.source, "member_joined_no_data"),
            },
            WebhookEventType::MemberLeft => match &self.left {
                Some(left) => ParsedEvent::MemberLeft {
                    source: self.source.duplicate(),
                    members: duplicate_members(&left.members),
                },
                None => unknown_event(&self.source, "member_left_no_data"),
            },
            WebhookEventType::Beacon => match &self.beacon {
                Some(beacon) => ParsedEvent::Beacon {
                    source: self.source.duplicate(),
                    reply_token: clone_opt_string(&self.reply_token),
                    hwid: beacon.hwid.clone(),
                    beacon_type: beacon.beacon_type,
                },
                None => unknown_event(&self.source, "beacon_no_data"),
            },
            _ => unknown_event(&self.source, self.event_type.name()),
        }
    }
}

/// Message object for sending.
#[derive(Debug)]
pub struct LineMessage {
    pub message_type: String,
    pub text: String,
}

impl LineMessage {
    /// A text message.
    pub fn text(text: &str) -> (r: Self)
        ensures
            r.message_type@ == "text"@,
            r.text@ == text@,
    {
        LineMessage { message_type: "text".to_owned(), text: text.to_owned() }
    }

    /// The message as a JSON object: `{"type": message_type, "text": text}`.
    pub fn to_json(&self) -> (r: Json)
        ensures
            r@ == JsonView::Object(
                seq![
                    ("type"@, JsonView::Str(self.message_type@)),
                    ("text"@, JsonView::Str(self.text@)),
                ],
            ),
    {
        let mut es: Vec<(String, Json)> = Vec::new();
        put_str(&mut es, "type", self.message_type.as_str());
        put_str(&mut es, "text", self.text.as_str());
        assert(entries_view(es@) =~= seq![
            ("type"@, JsonView::Str(self.message_type@)),
            ("text"@, JsonView::Str(self.text@)),
        ]);
        json_object(es)
    }
}

// ---------------------------------------------------------------------------
// Postback data: `key=value` pairs separated by `&`
// ---------------------------------------------------------------------------

/// The pieces of `s` between occurrences of `sep` (as `str::split` gives
/// them: an empty text is one empty piece).
pub open spec fn split_on(s: Seq<char>, sep: char) -> Seq<Seq<char>>
    decreases s.len(),
{
    if s.len() == 0 {
        seq![Seq::empty()]
    } else {
        let init = split_on(s.drop_last(), sep);
        if s.last() == sep {
            init.push(Seq::empty())
        } else {
            init.update(init.len() - 1, init.last().push(s.last()))
        }
    }
}

/// The index of the first `c` in `s`.
pub open spec fn find_first(s: Seq<char>, c: char) -> Option<int>
    decreases s.len(),
{
    if s.len() == 0 {
        None
    } else if s[0] == c {
        Some(0)
    } else {
        match find_first(s.drop_first(), c) {
            Some(i) => Some(i + 1),
            None => None,
        }
    }
}

/// A piece `key=value` split at its first `=`; none when it has no `=`.
pub open spec fn pair_of(piece: Seq<char>) -> Option<(Seq<char>, Seq<char>)> {
    match find_first(piece, '=') {
        Some(i) => Some((piece.take(i), piece.skip(i + 1))),
        None => None,
    }
}

/// The pairs of the pieces that hold an `=`, in order.
pub open spec fn pairs_of(pieces: Seq<Seq<char>>) -> Seq<(Seq<char>, Seq<char>)>
    decreases pieces.len(),
{
    if pieces.len() == 0 {
        seq![]
    } else {
        let init = pairs_of(pieces.drop_last());
        match pair_of(pieces.last()) {
            Some(p) => init.push(p),
            None => init,
        }
    }
}

/// The map the pairs make, a later pair replacing an earlier one with the
/// same key.
pub open spec fn pairs_map(ps: Seq<(Seq<char>, Seq<char>)>) -> Map<Seq<char>, Seq<char>>
    decreases ps.len(),
{
    if ps.len() == 0 {
        Map::empty()
    } else {
        pairs_map(ps.drop_last()).insert(ps.last().0, ps.last().1)
    }
}

/// The parameters a postback's data holds.
pub open spec fn postback_data_map(data: Seq<char>) -> Map<Seq<char>, Seq<char>> {
    pairs_map(pairs_of(split_on(data, '&')))
}

pub proof fn lemma_split_nonempty(s: Seq<char>, sep: char)
    ensures
        split_on(s, sep).len() >= 1,
    decreases s.len(),
{
    if s.len() > 0 {
        lemma_split_nonempty(s.drop_last(), sep);
    }
}

pub proof fn lemma_find_first_at(s: Seq<char>, c: char, j: int)
    requires
        0 <= j < s.len(),
        s[j] == c,
        forall|k: int| 0 <= k < j ==> s[k] != c,
    ensures
        find_first(s, c) == Some(j),
    decreases s.len(),
{
    if j > 0 {
        lemma_find_first_at(s.drop_first(), c, j - 1);
    }
}

pub proof fn lemma_find_first_none(s: Seq<char>, c: char)
    requires
        forall|k: int| 0 <= k < s.len() ==> s[k] != c,
    ensures
        find_first(s, c) is None,
    decreases s.len(),
{
    if s.len() > 0 {
        lemma_find_first_none(s.drop_first(), c);
    }
}

/// Entries after position `i` that do not hold `k` do not change what the
/// map holds at `k`.
pub proof fn lemma_pairs_map_prefix(ps: Seq<(Seq<char>, Seq<char>)>, i: int, k: Seq<char>)
    requires
        0 <= i <= ps.len(),
        forall|j: int| i <= j < ps.len() ==> ps[j].0 != k,
    ensures
        pairs_map(ps).contains_key(k) == pairs_map(ps.take(i)).contains_key(k),
        pairs_map(ps).contains_key(k) ==> pairs_map(ps)[k] == pairs_map(ps.take(i))[k],
    decreases ps.len(),
{
    if i == ps.len() {
        assert(ps.take(i) =~= ps);
    } else {
        lemma_pairs_map_prefix(ps.drop_last(), i, k);
        assert(ps.drop_last().take(i) =~= ps.take(i));
    }
}

/// `find_first` gives the index of the first `c`, and none when there is
/// no `c`.
pub proof fn lemma_find_first_spec(s: Seq<char>, c: char)
    ensures
        find_first(s, c) is Some ==> {
            let i = find_first(s, c)->0;
            &&& 0 <= i < s.len()
            &&& s[i] == c
            &&& forall|k: int| 0 <= k < i ==> s[k] != c
        },
        find_first(s, c) is None ==> forall|k: int| 0 <= k < s.len() ==> s[k] != c,
    decreases s.len(),
{
    if s.len() > 0 {
        lemma_find_first_spec(s.drop_first(), c);
        if s[0] != c {
            if find_first(s.drop_first(), c) is None {
                assert forall|k: int| 0 <= k < s.len() implies s[k] != c by {
                    if k > 0 {
                        assert(s[k] == s.drop_first()[k - 1]);
                    }
                }
            } else {
                let j = find_first(s.drop_first(), c)->0;
                assert forall|k: int| 0 <= k < j + 1 implies s[k] != c by {
                    if k > 0 {
                        assert(s[k] == s.drop_first()[k - 1]);
                    }
                }
            }
        }
    }
}

/// A `key=value` piece splits at its first `=`: the piece is the key, an
/// `=` and the value, and the key holds no `=`; a piece without `=` gives
/// no pair.
pub proof fn lemma_pair_of_spec(piece: Seq<char>)
    ensures
        pair_of(piece) is Some ==> {
            let p = pair_of(piece)->0;
            &&& piece == p.0 + seq!['='] + p.1
            &&& forall|k: int| 0 <= k < p.0.len() ==> p.0[k] != '='
        },
        pair_of(piece) is None <==> forall|k: int| 0 <= k < piece.len() ==> piece[k] != '=',
{
    lemma_find_first_spec(piece, '=');
    if pair_of(piece) is Some {
        let i = find_first(piece, '=')->0;
        assert(piece =~= piece.take(i) + seq!['='] + piece.skip(i + 1));
    }
}

/// No piece of `s` split on `sep` holds `sep`.
pub proof fn lemma_split_on_pieces(s: Seq<char>, sep: char)
    ensures
        forall|i: int, k: int|
            0 <= i < split_on(s, sep).len() && 0 <= k < split_on(s, sep)[i].len() ==> #[trigger] split_on(
                s,
                sep,
            )[i][k] != sep,
    decreases s.len(),
{
    if s.len() > 0 {
        lemma_split_on_pieces(s.drop_last(), sep);
        lemma_split_nonempty(s.drop_last(), sep);
    }
}

/// The keys of the map the pairs make are exactly the keys of the pairs.
pub proof fn lemma_pairs_map_dom(ps: Seq<(Seq<char>, Seq<char>)>)
    ensures
        pairs_map(ps).dom().finite(),
        forall|k: Seq<char>|
            pairs_map(ps).contains_key(k) <==> exists|j: int| 0 <= j < ps.len() && #[trigger] ps[j].0 == k,
    decreases ps.len(),
{
    if ps.len() > 0 {
        let init = ps.drop_last();
        lemma_pairs_map_dom(init);
        assert forall|k: Seq<char>|
            pairs_map(ps).contains_key(k) <==> exists|j: int| 0 <= j < ps.len() && #[trigger] ps[j].0 == k by {
            if pairs_map(ps).contains_key(k) && k != ps.last().0 {
                let j = choose|j: int| 0 <= j < init.len() && #[trigger] init[j].0 == k;
                assert(ps[j].0 == k);
            }
            if exists|j: int| 0 <= j < ps.len() && #[trigger] ps[j].0 == k {
                let j = choose|j: int| 0 <= j < ps.len() && #[trigger] ps[j].0 == k;
                if j < ps.len() - 1 {
                    assert(init[j].0 == k);
                }
            }
        }
    }
}

/// Whether piece `i` holds an `=` with `key` before its first `=`.
pub open spec fn piece_has_key(pieces: Seq<Seq<char>>, i: int, key: Seq<char>) -> bool {
    pair_of(pieces[i]) matches Some(p) && p.0 == key
}

/// The text after the first `=` of a piece.
pub open spec fn piece_value(piece: Seq<char>) -> Seq<char> {
    match pair_of(piece) {
        Some(p) => p.1,
        None => Seq::empty(),
    }
}

/// The map of the pieces holds `key` exactly when some piece has `key`
/// before its first `=`, and then the text after the first `=` of the last
/// such piece.
pub proof fn lemma_pieces_map(pieces: Seq<Seq<char>>, key: Seq<char>)
    ensures
        pairs_map(pairs_of(pieces)).contains_key(key) <==> exists|i: int|
            0 <= i < pieces.len() && #[trigger] piece_has_key(pieces, i, key),
        forall|i: int|
            0 <= i < pieces.len() && #[trigger] piece_has_key(pieces, i, key) && (forall|j: int|
                i < j < pieces.len() ==> !piece_has_key(pieces, j, key)) ==> pairs_map(
                pairs_of(pieces),
            )[key] == piece_value(pieces[i]),
    decreases pieces.len(),
{
    if pieces.len() > 0 {
        let n = pieces.len() - 1;
        let init = pieces.drop_last();
        lemma_pieces_map(init, key);
        assert forall|i: int| 0 <= i < n implies #[trigger] piece_has_key(pieces, i, key)
            == piece_has_key(init, i, key) by {
            assert(pieces[i] == init[i]);
        }
        let ps0 = pairs_of(init);
        match pair_of(pieces.last()) {
            Some(p) => {
                assert(pairs_of(pieces) == ps0.push(p));
                assert(ps0.push(p).drop_last() =~= ps0);
                assert(pairs_map(ps0.push(p)) == pairs_map(ps0).insert(p.0, p.1));
            },
            None => {
                assert(pairs_of(pieces) == ps0);
            },
        }
        if piece_has_key(pieces, n, key) {
            assert forall|i: int|
                0 <= i < pieces.len() && #[trigger] piece_has_key(pieces, i, key) && (forall|j: int|
                    i < j < pieces.len() ==> !piece_has_key(pieces, j, key)) implies pairs_map(
                pairs_of(pieces),
            )[key] == piece_value(pieces[i]) by {
                if i < n {
                    assert(!piece_has_key(pieces, n, key));
                }
            }
        } else {
            assert(pairs_map(pairs_of(pieces)).contains_key(key) == pairs_map(ps0).contains_key(key));
            assert(pairs_map(ps0).contains_key(key) ==> pairs_map(pairs_of(pieces))[key]
                == pairs_map(ps0)[key]);
            if exists|i: int| 0 <= i < pieces.len() && #[trigger] piece_has_key(pieces, i, key) {
                let i = choose|i: int| 0 <= i < pieces.len() && #[trigger] piece_has_key(pieces, i, key);
                assert(piece_has_key(init, i, key));
            }
            if exists|i: int| 0 <= i < init.len() && #[trigger] piece_has_key(init, i, key) {
                let i = choose|i: int| 0 <= i < init.len() && #[trigger] piece_has_key(init, i, key);
                assert(pieces[i] == init[i]);
                assert(piece_has_key(pieces, i, key));
            }
            assert forall|i: int|
                0 <= i < pieces.len() && #[trigger] piece_has_key(pieces, i, key) && (forall|j: int|
                    i < j < pieces.len() ==> !piece_has_key(pieces, j, key)) implies pairs_map(
                pairs_of(pieces),
            )[key] == piece_value(pieces[i]) by {
                assert(piece_has_key(init, i, key));
                assert forall|j: int| i < j < init.len() implies !piece_has_key(init, j, key) by {
                    assert(!piece_has_key(pieces, j, key));
                }
            }
        }
    }
}

/// Postback data holds a parameter `key` exactly when some `&`-separated
/// piece of the data has `key` before its first `=`; the parameter's value
/// is the text after the first `=` of the last such piece. (No decoding and
/// no trimming: pieces without `=` are skipped.)
pub proof fn lemma_postback_data_map(data: Seq<char>, key: Seq<char>)
    ensures
        postback_data_map(data).contains_key(key) <==> exists|i: int|
            0 <= i < split_on(data, '&').len() && #[trigger] piece_has_key(split_on(data, '&'), i, key),
        forall|i: int|
            0 <= i < split_on(data, '&').len() && #[trigger] piece_has_key(split_on(data, '&'), i, key)
                && (forall|j: int|
                i < j < split_on(data, '&').len() ==> !piece_has_key(split_on(data, '&'), j, key))
                ==> postback_data_map(data)[key] == piece_value(split_on(data, '&')[i]),
{
    lemma_pieces_map(split_on(data, '&'), key);
}

/// The `key=value` parameters of a postback, a later key replacing an
/// earlier one.
pub struct ParamMap {
    entries: Vec<(String, String)>,
}

/// The entries of a parameter map, by their views.
pub open spec fn pair_views(es: Seq<(String, String)>) -> Seq<(Seq<char>, Seq<char>)> {
    Seq::new(es.len(), |i: int| (es[i].0@, es[i].1@))
}

impl ParamMap {
    pub closed spec fn pairs(&self) -> Seq<(Seq<char>, Seq<char>)> {
        pair_views(self.entries@)
    }
}

impl View for ParamMap {
    type V = Map<Seq<char>, Seq<char>>;

    open spec fn view(&self) -> Map<Seq<char>, Seq<char>> {
        pairs_map(self.pairs())
    }
}

impl ParamMap {
    /// The value of `key`.
    pub fn get(&self, key: &str) -> (r: Option<&String>)
        ensures
            match r {
                Some(v) => self@.contains_key(key@) && self@[key@] == v@,
                None => !self@.contains_key(key@),
            },
    {
        let ghost ps = self.pairs();
        let k = key.to_owned();
        let mut i = self.entries.len();
        while i > 0
            invariant
                0 <= i <= self.entries.len(),
                ps == pair_views(self.entries@),
                k@ == key@,
                forall|j: int| i <= j < ps.len() ==> ps[j].0 != key@,
            decreases i,
        {
            if self.entries[i - 1].0 == k {
                proof {
                    lemma_pairs_map_prefix(ps, i as int, key@);
                    assert(ps.take(i as int).drop_last() =~= ps.take(i - 1));
                }
                return Some(&self.entries[i - 1].1);
            }
            i = i - 1;
        }
        proof {
            lemma_pairs_map_prefix(ps, 0, key@);
        }
        None
    }

    /// The number of distinct keys.
    pub fn len(&self) -> (r: usize)
        ensures
            r == self@.len(),
    {
        let ghost ps = self.pairs();
        let mut count: usize = 0;
        let mut i: usize = 0;
        proof {
            assert(ps.take(0) =~= Seq::<(Seq<char>, Seq<char>)>::empty());
            lemma_pairs_map_dom(ps.take(0));
            assert(pairs_map(ps.take(0)).dom() =~= Set::<Seq<char>>::empty());
        }
        while i < self.entries.len()
            invariant
                0 <= count <= i <= self.entries.len(),
                ps == pair_views(self.entries@),
                count == pairs_map(ps.take(i as int)).dom().len(),
            decreases self.entries.len() - i,
        {
            let mut seen = false;
            let mut j: usize = 0;
            while j < i
                invariant
                    0 <= j <= i < self.entries.len(),
                    ps == pair_views(self.entries@),
                    seen <==> exists|m: int| 0 <= m < j && #[trigger] ps[m].0 == ps[i as int].0,
                decreases i - j,
            {
                if self.entries[j].0 == self.entries[i].0 {
                    seen = true;
                    assert(ps[j as int].0 == ps[i as int].0);
                }
                j = j + 1;
            }
            proof {
                let before = ps.take(i as int);
                let after = ps.take(i + 1);
                lemma_pairs_map_dom(before);
                assert(after.drop_last() =~= before);
                assert(pairs_map(after) == pairs_map(before).insert(ps[i as int].0, ps[i as int].1));
                assert(pairs_map(after).dom() == pairs_map(before).dom().insert(ps[i as int].0));
                if seen {
                    let m = choose|m: int| 0 <= m < i && #[trigger] ps[m].0 == ps[i as int].0;
                    assert(before[m].0 == ps[i as int].0);
                } else {
                    if pairs_map(before).contains_key(ps[i as int].0) {
                        let m = choose|m: int| 0 <= m < before.len() && #[trigger] before[m].0 == ps[i as int].0;
                        assert(ps[m].0 == ps[i as int].0);
                    }
                }
            }
            if !seen {
                count = count + 1;
            }
            i = i + 1;
        }
        proof {
            assert(ps.take(i as int) =~= ps);
        }
        count
    }

    /// The number of pairs read, repeated keys included.
    pub fn pair_count(&self) -> (r: usize)
        ensures
            r == self.pairs().len(),
    {
        self.entries.len()
    }
}

/// The index of the first `c` in `chars[from..to]`, as an index of `chars`.
fn find_in(chars: &Vec<char>, from: usize, to: usize, c: char) -> (r: Option<usize>)
    requires
        from <= to <= chars.len(),
    ensures
        match r {
            Some(j) => from <= j < to && find_first(chars@.subrange(from as int, to as int), c)
                == Some(j - from),
            None => find_first(chars@.subrange(from as int, to as int), c) is None,
        },
{
    let ghost piece = chars@.subrange(from as int, to as int);
    let mut i = from;
    while i < to
        invariant
            from <= i <= to <= chars.len(),
            piece == chars@.subrange(from as int, to as int),
            forall|k: int| 0 <= k < i - from ==> piece[k] != c,
        decreases to - i,
    {
        if chars[i] == c {
            proof {
                lemma_find_first_at(piece, c, i - from);
            }
            return Some(i);
        }
        i = i + 1;
    }
    proof {
        lemma_find_first_none(piece, c);
    }
    None
}

/// Appends the pair of `chars[from..to]`, when it holds an `=`.
fn push_pair(
    chars: &Vec<char>,
    from: usize,
    to: usize,
    out: &mut Vec<(String, String)>,
)
    requires
        from <= to <= chars.len(),
    ensures
        pair_views(final(out)@) == match pair_of(chars@.subrange(from as int, to as int)) {
            Some(p) => pair_views(old(out)@).push(p),
            None => pair_views(old(out)@),
        },
{
    match find_in(chars, from, to, '=') {
        Some(j) => {
            let key = string_of(chars, from, j);
            let value = string_of(chars, j + 1, to);
            let ghost piece = chars@.subrange(from as int, to as int);
            assert(piece.take(j - from) =~= chars@.subrange(from as int, j as int));
            assert(piece.skip(j - from + 1) =~= chars@.subrange(j + 1, to as int));
            out.push((key, value));
            assert(pair_views(out@) =~= pair_views(old(out)@).push(
                pair_of(chars@.subrange(from as int, to as int))->0,
            ));
        },
        None => {},
    }
}

impl WebhookPostback {
    /// Parses the data as `key=value` pairs separated by `&`; a piece
    /// without `=` is skipped and a later key replaces an earlier one.
    pub fn parse_data(&self) -> (r: ParamMap)
        ensures
            r@ == postback_data_map(self.data@),
    {
        let chars = chars_of(self.data.as_str());
        let ghost s = chars@;
        let mut out: Vec<(String, String)> = Vec::new();
        let mut start: usize = 0;
        let mut i: usize = 0;
        proof {
            assert(s.take(0) =~= Seq::<char>::empty());
            assert(pair_views(out@) =~= seq![]);
        }
        while i < chars.len()
            invariant
                0 <= start <= i <= chars.len(),
                s == chars@,
                split_on(s.take(i as int), '&').last() == s.subrange(start as int, i as int),
                pairs_of(split_on(s.take(i as int), '&').drop_last()) == pair_views(out@),
            decreases chars.len() - i,
        {
            let ghost before = split_on(s.take(i as int), '&');
            proof {
                lemma_split_nonempty(s.take(i as int), '&');
                assert(s.take(i + 1).drop_last() =~= s.take(i as int));
            }
            if chars[i] == '&' {
                push_pair(&chars, start, i, &mut out);
                proof {
                    assert(split_on(s.take(i + 1), '&') == before.push(Seq::empty()));
                    assert(before =~= before.drop_last().push(before.last()));
                    assert(split_on(s.take(i + 1), '&').drop_last() =~= before);
                }
                start = i + 1;
                i = i + 1;
                assert(s.subrange(start as int, i as int) =~= Seq::<char>::empty());
            } else {
                proof {
                    let after = split_on(s.take(i + 1), '&');
                    assert(after == before.update(before.len() - 1, before.last().push(chars[i as int])));
                    assert(after.drop_last() =~= before.drop_last());
                    assert(after.last() =~= s.subrange(start as int, i + 1));
                }
                i = i + 1;
            }
        }
        let ghost pieces = split_on(s, '&');
        proof {
            assert(s.take(chars.len() as int) =~= s);
            lemma_split_nonempty(s, '&');
            assert(pieces =~= pieces.drop_last().push(pieces.last()));
        }
        push_pair(&chars, start, chars.len(), &mut out);
        ParamMap { entries: out }
    }

    /// The value of one parameter of the data.
    pub fn get_param(&self, key: &str) -> (r: Option<String>)
        ensures
            match r {
                Some(v) => postback_data_map(self.data@).contains_key(key@)
                    && postback_data_map(self.data@)[key@] == v@,
                None => !postback_data_map(self.data@).contains_key(key@),
            },
    {
        let map = self.parse_data();
        match map.get(key) {
            Some(v) => Some(v.clone()),
            None => None,
        }
    }
}

} // verus!
