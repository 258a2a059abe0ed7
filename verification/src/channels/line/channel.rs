//! The LINE channel: credentials, user allowlist, webhook signature check,
//! API error reading and the retry / rate-limit decisions of a request.

use vstd::prelude::*;
use vstd::string::StringExecFns;
use vstd::utf8::encode_utf8;
use crate::channels::crypto::{
    base64_url_decode, compute_hmac_sha256, constant_time_eq, decode_base64_url, hmac_sha256,
};
use crate::channels::json::{int_text, opt_str_view, u64_text};
use crate::channels::text::{parse_u64, parse_u64_text, same_text};

verus! {

/// LINE API rate limit information.
#[derive(Debug, Clone, Copy, PartialEq, Eq, Structural)]
pub struct LineRateLimitInfo {
    /// API call limit per unit (e.g. 1000).
    pub limit: u64,
    /// Remaining calls allowed.
    pub remaining: u64,
    /// Epoch time when the limit resets.
    pub reset_at: u64,
}

/// LINE API error information.
#[derive(Debug, Clone)]
pub struct LineApiError {
    /// HTTP status code.
    pub status: u16,
    /// LINE error code (e.g. "INVALID_TOKEN").
    pub code: Option<String>,
    /// Human-readable error message.
    pub message: String,
    /// Whether this error is retryable.
    pub retryable: bool,
    /// Suggested retry delay in seconds, when the response's `Retry-After`
    /// header gave one.
    pub retry_after: Option<u64>,
}

/// The text an API error is shown as:
/// `LINE API error (<status>): [<code>] <message>`, the code part only when
/// there is a code.
pub open spec fn api_error_text(e: LineApiError) -> Seq<char> {
    "LINE API error ("@ + int_text(e.status as int) + "): "@ + match e.code {
        Some(c) => "["@ + c@ + "] "@,
        None => Seq::empty(),
    } + e.message@
}

impl LineApiError {
    /// The text this error is shown as.
    pub fn display_text(&self) -> (r: String)
        ensures
            r@ == api_error_text(*self),
    {
        let mut s = String::new();
        s.append("LINE API error (");
        let status = u64_text(self.status as u64);
        s.append(status.as_str());
        s.append("): ");
        match &self.code {
            Some(code) => {
                s.append("[");
                s.append(code.as_str());
                s.append("] ");
            },
            None => {},
        }
        s.append(self.message.as_str());
        proof {
            assert(s@ =~= api_error_text(*self));
        }
        s
    }
}

/// Statuses worth retrying: 429 (rate limit), 408 (timeout) and 5xx.
pub open spec fn retryable_status(status: u16) -> bool {
    status == 429 || status == 408 || (500 <= status && status <= 599)
}

/// Whether a status is worth retrying.
pub fn is_retryable_status(status: u16) -> (r: bool)
    ensures
        r == retryable_status(status),
{
    status == 429 || status == 408 || (500 <= status && status <= 599)
}

/// The top-level entries of a JSON body as `serde_json` reads it into a
/// `serde_json::Value`: none when the body is not JSON; no entries when it
/// is JSON but not an object; else each key of the object, in the order the
/// object's map walks them, with its text when the value is a string.
pub uninterp spec fn json_object_texts(body: Seq<char>) -> Option<Seq<(Seq<char>, Option<Seq<char>>)>>;

/// The entries of a read body, by their views.
pub open spec fn text_entries_view(es: Seq<(String, Option<String>)>) -> Seq<(Seq<char>, Option<Seq<char>>)> {
    Seq::new(es.len(), |i: int| (es[i].0@, opt_str_view(es[i].1)))
}

#[verifier::external_body]
/// Parses `body` with `serde_json::from_str::<serde_json::Value>` and, for
/// an object, converts each entry to its key and `Value::as_str` of its
/// value. The contract claims the result is the named reading of the body.
fn read_object_texts(body: &str) -> (r: Option<Vec<(String, Option<String>)>>)
    ensures
        json_object_texts(body@) == match r {
            Some(es) => Some(text_entries_view(es@)),
            None => None,
        },
{
    match serde_json::from_str::<serde_json::Value>(body) {
        Ok(serde_json::Value::Object(map)) => Some(
            map.iter().map(|(k, v)| (k.clone(), v.as_str().map(|t| t.to_string()))).collect(),
        ),
        Ok(_) => Some(Vec::new()),
        Err(_) => None,
    }
}

/// The text under `key` in the entries: that of the first entry with the
/// key, when its value is a string.
pub open spec fn text_under(es: Seq<(Seq<char>, Option<Seq<char>>)>, key: Seq<char>) -> Option<Seq<char>>
    decreases es.len(),
{
    if es.len() == 0 {
        None
    } else if es[0].0 == key {
        es[0].1
    } else {
        text_under(es.drop_first(), key)
    }
}

/// The text under `key` in the entries of a read body.
fn find_text(es: &Vec<(String, Option<String>)>, key: &str) -> (r: Option<String>)
    ensures
        opt_str_view(r) == text_under(text_entries_view(es@), key@),
{
    let ghost all = text_entries_view(es@);
    let mut i: usize = 0;
    assert(all.skip(0) =~= all);
    while i < es.len()
        invariant
            0 <= i <= es.len(),
            all == text_entries_view(es@),
            text_under(all, key@) == text_under(all.skip(i as int), key@),
        decreases es.len() - i,
    {
        let ghost rest = all.skip(i as int);
        assert(rest[0] == (es@[i as int].0@, opt_str_view(es@[i as int].1)));
        if same_text(es[i].0.as_str(), key) {
            return match &es[i].1 {
                Some(t) => Some(t.clone()),
                None => None,
            };
        }
        assert(rest.drop_first() =~= all.skip(i + 1));
        i = i + 1;
    }
    None
}

/// The delay a `Retry-After` header asks for, in seconds: its value when it
/// reads as a whole number.
pub open spec fn retry_after_secs(header: Option<Seq<char>>) -> Option<u64> {
    match header {
        Some(h) => parse_u64_text(h),
        None => None,
    }
}

/// The error an unsuccessful response with `status`, `body` and
/// `Retry-After` header `retry_after` stands for: the body's `message` (or
/// `Unknown error`) and `error` code when the body is JSON, else the body
/// itself as the message; retryable by its status; the header's delay.
pub open spec fn api_error_of(
    e: LineApiError,
    status: u16,
    body: Seq<char>,
    retry_after: Option<Seq<char>>,
) -> bool {
    &&& e.status == status
    &&& e.retryable == retryable_status(status)
    &&& e.retry_after == retry_after_secs(retry_after)
    &&& match json_object_texts(body) {
        Some(es) => {
            &&& e.message@ == match text_under(es, "message"@) {
                Some(m) => m,
                None => "Unknown error"@,
            }
            &&& opt_str_view(e.code) == text_under(es, "error"@)
        },
        None => e.message@ == body && e.code is None,
    }
}

/// Whether `user` is allowed by `allowed`: the list holds `*` or `user`.
pub open spec fn user_allowed(allowed: Seq<String>, user: Seq<char>) -> bool {
    exists|i: int| 0 <= i < allowed.len() && (allowed[i]@ == "*"@ || allowed[i]@ == user)
}

/// Whether `signature` is a valid webhook signature of `body` for the
/// channel secret: it decodes (URL-safe base64 without padding) to the
/// HMAC-SHA256 tag of the body under the secret's UTF-8 bytes.
pub open spec fn signature_valid(secret: Seq<char>, body: Seq<u8>, signature: Seq<char>) -> bool {
    match base64_url_decode(signature) {
        Some(sig) => sig == hmac_sha256(encode_utf8(secret), body),
        None => false,
    }
}

/// Whether any entry of `allowed` is `*` or `user`.
pub fn allowlist_admits(allowed: &Vec<String>, user: &str) -> (r: bool)
    ensures
        r == user_allowed(allowed@, user@),
{
    let mut i: usize = 0;
    while i < allowed.len()
        invariant
            0 <= i <= allowed.len(),
            forall|k: int| 0 <= k < i ==> !(allowed@[k]@ == "*"@ || allowed@[k]@ == user@),
        decreases allowed.len() - i,
    {
        if same_text(allowed[i].as_str(), "*") || same_text(allowed[i].as_str(), user) {
            return true;
        }
        i = i + 1;
    }
    false
}

/// An allowlist that holds `*` admits every user.
pub proof fn lemma_wildcard_admits_everyone(allowed: Seq<String>, user: Seq<char>)
    requires
        exists|i: int| 0 <= i < allowed.len() && allowed[i]@ == "*"@,
    ensures
        user_allowed(allowed, user),
{
}

/// An empty allowlist admits no user.
pub proof fn lemma_empty_allowlist_admits_no_one(user: Seq<char>)
    ensures
        !user_allowed(Seq::<String>::empty(), user),
{
}

/// Without `*`, an allowlist admits a user exactly when it lists the
/// user's id verbatim: no prefix or partial match admits anyone.
pub proof fn lemma_allowlist_exact_match(allowed: Seq<String>, user: Seq<char>)
    requires
        forall|i: int| 0 <= i < allowed.len() ==> allowed[i]@ != "*"@,
    ensures
        user_allowed(allowed, user) <==> exists|i: int|
            0 <= i < allowed.len() && #[trigger] allowed[i]@ == user,
{
}

/// Server errors (5xx), rate limiting (429) and request timeouts (408) are
/// retried and no other status is. The error read from a response keeps its
/// status, takes its retry delay from a whole-number `Retry-After` header,
/// and, from a JSON body, the string `message` (else `Unknown error`) and
/// string `error` code; a body that is not JSON is the message itself.
pub proof fn lemma_api_error_reading(
    e: LineApiError,
    status: u16,
    body: Seq<char>,
    header: Option<Seq<char>>,
)
    ensures
        retryable_status(status) <==> (status == 408 || status == 429 || (500 <= status
            && status <= 599)),
        api_error_of(e, status, body, header) ==> {
            &&& e.status == status
            &&& (e.retryable <==> (status == 408 || status == 429 || (500 <= status && status <= 599)))
            &&& e.retry_after == match header {
                Some(h) => parse_u64_text(h),
                None => None,
            }
            &&& json_object_texts(body) is None ==> e.message@ == body && e.code is None
            &&& json_object_texts(body) is Some ==> e.message@ == match text_under(
                json_object_texts(body)->0,
                "message"@,
            ) {
                Some(m) => m,
                None => "Unknown error"@,
            } && opt_str_view(e.code) == text_under(json_object_texts(body)->0, "error"@)
        },
{
}

/// `text_under` answers with the first entry holding the key: none when no
/// entry holds it, else that entry's text.
pub proof fn lemma_text_under_first(es: Seq<(Seq<char>, Option<Seq<char>>)>, key: Seq<char>, i: int)
    requires
        0 <= i < es.len(),
        es[i].0 == key,
        forall|j: int| 0 <= j < i ==> es[j].0 != key,
    ensures
        text_under(es, key) == es[i].1,
    decreases i,
{
    if i > 0 {
        assert forall|j: int| 0 <= j < i - 1 implies es.drop_first()[j].0 != key by {
            assert(es.drop_first()[j] == es[j + 1]);
        }
        lemma_text_under_first(es.drop_first(), key, i - 1);
    }
}

/// With no entry holding the key, `text_under` finds nothing.
pub proof fn lemma_text_under_absent(es: Seq<(Seq<char>, Option<Seq<char>>)>, key: Seq<char>)
    requires
        forall|j: int| 0 <= j < es.len() ==> es[j].0 != key,
    ensures
        text_under(es, key) is None,
    decreases es.len(),
{
    if es.len() > 0 {
        assert forall|j: int| 0 <= j < es.len() - 1 implies es.drop_first()[j].0 != key by {
            assert(es.drop_first()[j] == es[j + 1]);
        }
        lemma_text_under_absent(es.drop_first(), key);
    }
}

/// An API error is shown as `LINE API error (<status>): `, then
/// `[<code>] ` when it has a code, then its message; a signature is valid
/// exactly when it decodes to the HMAC-SHA256 tag of the body under the
/// secret's UTF-8 bytes.
pub proof fn lemma_error_text_and_signature(e: LineApiError, secret: Seq<char>, body: Seq<u8>, signature: Seq<char>)
    ensures
        api_error_text(e) == "LINE API error ("@ + int_text(e.status as int) + "): "@ + match e.code {
            Some(c) => "["@ + c@ + "] "@,
            None => Seq::<char>::empty(),
        } + e.message@,
        signature_valid(secret, body, signature) <==> base64_url_decode(signature) == Some(
            hmac_sha256(encode_utf8(secret), body),
        ),
{
}

/// The wait before a request: the seconds until the reset when fewer than
/// 10 calls remain and the reset time is known and ahead.
pub open spec fn rate_limit_delay(remaining: u64, reset_at: u64, now: u64) -> Option<u64> {
    if remaining < 10 && reset_at > 0 && reset_at > now {
        Some((reset_at - now) as u64)
    } else {
        None
    }
}

/// The rate limit information known from the headers: none until a reset
/// time was told, then LINE's usual limit of 1000 calls with the remaining
/// calls and the reset time.
pub open spec fn rate_limit_info_of(remaining: u64, reset_at: u64) -> Option<LineRateLimitInfo> {
    if reset_at > 0 {
        Some(LineRateLimitInfo { limit: 1000, remaining, reset_at })
    } else {
        None
    }
}

/// A request waits only when fewer than 10 calls remain and the known reset
/// time is still ahead, and then exactly until the reset; the information
/// is known once a reset time is, with a limit of 1000 calls.
pub proof fn lemma_rate_limit_rules(remaining: u64, reset_at: u64, now: u64)
    ensures
        rate_limit_delay(remaining, reset_at, now) is Some <==> (remaining < 10 && reset_at > 0
            && reset_at > now),
        rate_limit_delay(remaining, reset_at, now) matches Some(secs) ==> now + secs == reset_at,
        rate_limit_info_of(remaining, reset_at) is Some <==> reset_at != 0,
        rate_limit_info_of(remaining, reset_at) matches Some(info) ==> info.limit == 1000
            && info.remaining == remaining && info.reset_at == reset_at,
{
}

/// LINE channel: receives messages through the webhook, sends them through
/// the Messaging API.
pub struct LineChannel {
    channel_access_token: String,
    channel_secret: String,
    allowed_users: Vec<String>,
    /// Rate limit: calls remaining.
    rate_limit_remaining: u64,
    /// Rate limit: reset time (epoch seconds); 0 while unknown.
    rate_limit_reset_at: u64,
}

/// The channel's name.
pub open spec fn line_channel_name() -> Seq<char> {
    "line"@
}

impl LineChannel {
    pub closed spec fn access_token(&self) -> Seq<char> {
        self.channel_access_token@
    }

    pub closed spec fn secret(&self) -> Seq<char> {
        self.channel_secret@
    }

    pub closed spec fn allowed(&self) -> Seq<String> {
        self.allowed_users@
    }

    pub closed spec fn remaining(&self) -> u64 {
        self.rate_limit_remaining
    }

    pub closed spec fn reset_at(&self) -> u64 {
        self.rate_limit_reset_at
    }

    /// A channel with the given credentials and allowlist, and no rate
    /// limit known yet.
    pub fn new(
        channel_access_token: String,
        channel_secret: String,
        allowed_users: Vec<String>,
    ) -> (r: Self)
        ensures
            r.access_token() == channel_access_token@,
            r.secret() == channel_secret@,
            r.allowed() == allowed_users@,
            r.remaining() == u64::MAX,
            r.reset_at() == 0,
    {
        LineChannel {
            channel_access_token,
            channel_secret,
            allowed_users,
            rate_limit_remaining: u64::MAX,
            rate_limit_reset_at: 0,
        }
    }

    /// The channel's name: `line`.
    pub fn name(&self) -> (r: &'static str)
        ensures
            r@ == line_channel_name(),
    {
        "line"
    }

    /// The access token sent as bearer credentials.
    pub fn channel_access_token(&self) -> (r: &str)
        ensures
            r@ == self.access_token(),
    {
        self.channel_access_token.as_str()
    }

    /// The rate limit information, once an API response has told the reset
    /// time.
    pub fn rate_limit_info(&self) -> (r: Option<LineRateLimitInfo>)
        ensures
            r is Some <==> self.reset_at() > 0,
            r == rate_limit_info_of(self.remaining(), self.reset_at()),
            r matches Some(info) ==> info == (LineRateLimitInfo {
                limit: 1000,
                remaining: self.remaining(),
                reset_at: self.reset_at(),
            }),
    {
        let reset_at = self.rate_limit_reset_at;
        let remaining = self.rate_limit_remaining;
        if reset_at > 0 {
            Some(LineRateLimitInfo { limit: 1000, remaining, reset_at })
        } else {
            None
        }
    }

    /// Verifies a webhook signature in constant time.
    pub fn verify_webhook_signature(&self, body: &[u8], signature: &str) -> (r: bool)
        ensures
            r == signature_valid(self.secret(), body@, signature@),
    {
        let decoded = match decode_base64_url(signature) {
            Ok(s) => s,
            Err(_) => return false,
        };
        let expected = compute_hmac_sha256(self.channel_secret.as_str().as_bytes(), body);
        decoded.len() == expected.len() && constant_time_eq(decoded.as_slice(), expected.as_slice())
    }

    /// Whether a LINE user id is allowed.
    pub fn is_user_allowed(&self, user_id: &str) -> (r: bool)
        ensures
            r == user_allowed(self.allowed(), user_id@),
    {
        allowlist_admits(&self.allowed_users, user_id)
    }

    /// Records the rate limit headers of a response
    /// (`x-ratelimit-remaining`, `x-ratelimit-reset`): each value that reads
    /// as a number replaces the one held.
    pub fn update_rate_limit_from_headers(&mut self, remaining: Option<&str>, reset: Option<&str>)
        ensures
            final(self).access_token() == old(self).access_token(),
            final(self).secret() == old(self).secret(),
            final(self).allowed() == old(self).allowed(),
            final(self).remaining() == match remaining {
                Some(v) => match parse_u64_text(v@) {
                    Some(n) => n,
                    None => old(self).remaining(),
                },
                None => old(self).remaining(),
            },
            final(self).reset_at() == match reset {
                Some(v) => match parse_u64_text(v@) {
                    Some(n) => n,
                    None => old(self).reset_at(),
                },
                None => old(self).reset_at(),
            },
    {
        match remaining {
            Some(v) => match parse_u64(v) {
                Some(n) => {
                    self.rate_limit_remaining = n;
                },
                None => {},
            },
            None => {},
        }
        match reset {
            Some(v) => match parse_u64(v) {
                Some(n) => {
                    self.rate_limit_reset_at = n;
                },
                None => {},
            },
            None => {},
        }
    }

    /// How long to wait before the next request: when fewer than 10 calls
    /// remain and the reset time is known and still ahead of `now`, the
    /// seconds until it; otherwise no wait.
    pub fn rate_limit_wait(&self, now: u64) -> (r: Option<u64>)
        ensures
            r is Some <==> (self.remaining() < 10 && self.reset_at() > 0 && self.reset_at() > now),
            r matches Some(secs) ==> secs == self.reset_at() - now,
            r == rate_limit_delay(self.remaining(), self.reset_at(), now),
    {
        if self.rate_limit_remaining < 10 && self.rate_limit_reset_at > 0 {
            if self.rate_limit_reset_at > now {
                return Some(self.rate_limit_reset_at - now);
            }
        }
        None
    }

    /// Reads the error of an unsuccessful response from its status, body and
    /// `Retry-After` header.
    pub fn parse_api_error(&self, status: u16, body: &str, retry_after: Option<&str>) -> (e: LineApiError)
        ensures
            api_error_of(
                e,
                status,
                body@,
                match retry_after {
                    Some(h) => Some(h@),
                    None => None,
                },
            ),
    {
        let retryable = is_retryable_status(status);
        let delay = match retry_after {
            Some(h) => parse_u64(h),
            None => None,
        };
        match read_object_texts(body) {
            Some(es) => {
                let message = match find_text(&es, "message") {
                    Some(m) => m,
                    None => "Unknown error".to_owned(),
                };
                let code = find_text(&es, "error");
                LineApiError { status, code, message, retryable, retry_after: delay }
            },
            None => LineApiError {
                status,
                code: None,
                message: body.to_owned(),
                retryable,
                retry_after: delay,
            },
        }
    }
}

// ---------------------------------------------------------------------------
// Retries
// ---------------------------------------------------------------------------

/// The most attempts a request with `max_retries` gets: the first try and
/// up to `max_retries` retries.
pub open spec fn attempt_budget(max_retries: u32) -> nat {
    max_retries as nat + 1
}

/// The backoff exponent after `attempts` attempts: the number of retries
/// made before the one about to start (so the first retry waits the
/// initial delay).
pub open spec fn backoff_exponent(attempts: u64) -> u64 {
    if attempts == 0 {
        0
    } else {
        (attempts - 1) as u64
    }
}

/// Whether a failed request may be retried after `attempts` attempts: the
/// retries made so far are fewer than the limit.
pub open spec fn may_retry(attempts: u64, max_retries: u32) -> bool {
    attempts <= max_retries
}

/// A request is attempted at most once more than its retry limit, and the
/// backoff before a retry grows with the retries already made, the first
/// retry waiting the initial delay.
pub proof fn lemma_budget_and_backoff(max_retries: u32, attempts: u64)
    ensures
        attempt_budget(max_retries) == max_retries + 1,
        may_retry(attempts, max_retries) <==> attempts < max_retries + 1,
        may_retry(attempts, max_retries) ==> attempts + 1 <= attempt_budget(max_retries),
        attempts >= 1 ==> backoff_exponent(attempts) == attempts - 1,
        backoff_exponent(1) == 0,
{
}

/// Where the delay before a retry comes from.
pub enum RetryDelay {
    /// The delay the API asked for, in seconds.
    Given(u64),
    /// Exponential backoff: the initial delay times the multiplier raised
    /// to `exponent`.
    Backoff { exponent: u64 },
}

/// What to do after a failed attempt.
pub enum RetryDecision {
    /// Wait, then make another attempt.
    Retry(RetryDelay),
    /// Report the failure.
    GiveUp,
}

/// The attempts made for one request.
pub struct RetryState {
    attempt: u64,
    max_retries: u32,
    may_continue: bool,
}

impl RetryState {
    #[verifier::type_invariant]
    spec fn within_budget(self) -> bool {
        &&& self.attempt <= attempt_budget(self.max_retries)
        &&& (self.may_continue ==> self.attempt <= self.max_retries)
    }

    /// The number of attempts started.
    pub closed spec fn attempts(&self) -> u64 {
        self.attempt
    }

    /// The retry limit.
    pub closed spec fn limit(&self) -> u32 {
        self.max_retries
    }

    /// Whether another attempt may start.
    pub closed spec fn open(&self) -> bool {
        self.may_continue
    }

    /// No attempt made yet.
    pub fn new(max_retries: u32) -> (r: Self)
        ensures
            r.attempts() == 0,
            r.limit() == max_retries,
            r.open(),
    {
        RetryState { attempt: 0, max_retries, may_continue: true }
    }

    /// The number of attempts started.
    pub fn attempt(&self) -> (r: u64)
        ensures
            r == self.attempts(),
    {
        self.attempt
    }

    /// Starts the next attempt, when one may start (at first, or after a
    /// failure that is retried). However it is driven, a request is never
    /// attempted more often than its budget: the first try and
    /// `max_retries` retries.
    pub fn start_attempt(&mut self) -> (started: bool)
        ensures
            started == old(self).open(),
            final(self).limit() == old(self).limit(),
            started ==> final(self).attempts() == old(self).attempts() + 1 && !final(self).open(),
            !started ==> final(self).attempts() == old(self).attempts() && !final(self).open(),
            final(self).attempts() <= attempt_budget(final(self).limit()),
    {
        proof {
            use_type_invariant(&*self);
        }
        if self.may_continue {
            *self = RetryState {
                attempt: self.attempt + 1,
                max_retries: self.max_retries,
                may_continue: false,
            };
            true
        } else {
            false
        }
    }

    fn retries_made(&self) -> (r: u64)
        ensures
            r == backoff_exponent(self.attempts()),
    {
        if self.attempt == 0 {
            0
        } else {
            self.attempt - 1
        }
    }

    /// Decides after an attempt that got an error response: retry when the
    /// error is retryable and at most `max_retries` attempts were made,
    /// after the delay the API asked for or else the backoff.
    pub fn after_api_error(&mut self, error: &LineApiError) -> (r: RetryDecision)
        ensures
            final(self).attempts() == old(self).attempts(),
            final(self).limit() == old(self).limit(),
            (r is Retry) == (error.retryable && old(self).attempts() <= old(self).limit()),
            (r is Retry) == (error.retryable && may_retry(old(self).attempts(), old(self).limit())),
            final(self).open() == (r is Retry),
            r matches RetryDecision::Retry(delay) ==> match error.retry_after {
                Some(secs) => delay == RetryDelay::Given(secs),
                None => delay == (RetryDelay::Backoff {
                    exponent: backoff_exponent(old(self).attempts()),
                }),
            },
    {
        proof {
            use_type_invariant(&*self);
        }
        let exponent = self.retries_made();
        if self.attempt <= self.max_retries as u64 && error.retryable {
            *self = RetryState {
                attempt: self.attempt,
                max_retries: self.max_retries,
                may_continue: true,
            };
            let delay = match error.retry_after {
                Some(secs) => RetryDelay::Given(secs),
                None => RetryDelay::Backoff { exponent },
            };
            RetryDecision::Retry(delay)
        } else {
            *self = RetryState {
                attempt: self.attempt,
                max_retries: self.max_retries,
                may_continue: false,
            };
            RetryDecision::GiveUp
        }
    }

    /// Decides after an attempt that failed without a response (or an
    /// upload that failed): retry while at most `max_retries` attempts were
    /// made, after the backoff delay.
    pub fn after_failure(&mut self) -> (r: RetryDecision)
        ensures
            final(self).attempts() == old(self).attempts(),
            final(self).limit() == old(self).limit(),
            (r is Retry) == (old(self).attempts() <= old(self).limit()),
            (r is Retry) == may_retry(old(self).attempts(), old(self).limit()),
            final(self).open() == (r is Retry),
            r matches RetryDecision::Retry(delay) ==> delay == (RetryDelay::Backoff {
                exponent: backoff_exponent(old(self).attempts()),
            }),
    {
        proof {
            use_type_invariant(&*self);
        }
        let exponent = self.retries_made();
        if self.attempt <= self.max_retries as u64 {
            *self = RetryState {
                attempt: self.attempt,
                max_retries: self.max_retries,
                may_continue: true,
            };
            RetryDecision::Retry(RetryDelay::Backoff { exponent })
        } else {
            *self = RetryState {
                attempt: self.attempt,
                max_retries: self.max_retries,
                may_continue: false,
            };
            RetryDecision::GiveUp
        }
    }
}

/// Caps a backoff delay at the configured maximum (milliseconds).
pub fn cap_delay_ms(delay_ms: u64, max_delay_ms: u64) -> (r: u64)
    ensures
        r == if delay_ms < max_delay_ms {
            delay_ms
        } else {
            max_delay_ms
        },
{
    if delay_ms < max_delay_ms {
        delay_ms
    } else {
        max_delay_ms
    }
}

} // verus!
