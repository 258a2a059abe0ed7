//! Lark (Feishu) channel: credentials, user allowlist, the tenant access
//! token cache and the checks on the API's answers.

use vstd::prelude::*;
use vstd::string::StringExecFns;
use crate::channels::json::{entries_view, json_object, put_str, Json, JsonView};
use crate::channels::lark_types::{LarkSendMessageResponse, LarkTokenResponse};
use crate::channels::line::channel::{allowlist_admits, user_allowed};

verus! {

/// Why a Lark API call failed.
#[derive(Debug)]
pub enum LarkError {
    /// The token endpoint answered with a non-zero code.
    TokenRequestFailed { msg: String },
    /// The token endpoint answered without a token.
    MissingToken,
    /// The send endpoint answered with a non-zero code.
    SendFailed { msg: String },
}

/// The text a Lark error is shown as.
pub open spec fn lark_error_text(e: LarkError) -> Seq<char> {
    match e {
        LarkError::TokenRequestFailed { msg } => "Failed to get access token: "@ + msg@,
        LarkError::MissingToken => "No token in response"@,
        LarkError::SendFailed { msg } => "Lark send failed: "@ + msg@,
    }
}

impl LarkError {
    /// The text this error is shown as.
    pub fn display_text(&self) -> (r: String)
        ensures
            r@ == lark_error_text(*self),
    {
        match self {
            LarkError::TokenRequestFailed { msg } => {
                let mut s = "Failed to get access token: ".to_owned();
                s.append(msg.as_str());
                s
            },
            LarkError::MissingToken => "No token in response".to_owned(),
            LarkError::SendFailed { msg } => {
                let mut s = "Lark send failed: ".to_owned();
                s.append(msg.as_str());
                s
            },
        }
    }
}

/// Seconds before its expiry at which a cached token is no longer used.
pub open spec fn token_refresh_margin() -> int {
    300
}

/// Lifetime assumed for a token whose response gives none (seconds).
pub open spec fn default_token_lifetime() -> int {
    7200
}

/// Lark channel: receives messages through the webhook / event endpoint,
/// sends them through the Messaging API.
pub struct LarkChannel {
    app_id: String,
    app_secret: String,
    encrypt_key: Option<String>,
    verify_token: String,
    access_token: Option<String>,
    token_expires_at: Option<i64>,
    allowed_users: Vec<String>,
}

impl LarkChannel {
    pub closed spec fn app_id_view(&self) -> Seq<char> {
        self.app_id@
    }

    pub closed spec fn app_secret_view(&self) -> Seq<char> {
        self.app_secret@
    }

    pub closed spec fn encrypt_key_view(&self) -> Option<String> {
        self.encrypt_key
    }

    pub closed spec fn verify_token_view(&self) -> Seq<char> {
        self.verify_token@
    }

    /// The cached token, if any.
    pub closed spec fn token(&self) -> Option<String> {
        self.access_token
    }

    /// When the cached token expires (epoch seconds), if known.
    pub closed spec fn expires_at(&self) -> Option<i64> {
        self.token_expires_at
    }

    pub closed spec fn allowed(&self) -> Seq<String> {
        self.allowed_users@
    }

    /// A channel with the given credentials and allowlist, and no token yet.
    pub fn new(
        app_id: String,
        app_secret: String,
        encrypt_key: Option<String>,
        verify_token: String,
        allowed_users: Vec<String>,
    ) -> (r: Self)
        ensures
            r.app_id_view() == app_id@,
            r.app_secret_view() == app_secret@,
            r.encrypt_key_view() == encrypt_key,
            r.verify_token_view() == verify_token@,
            r.token() is None,
            r.expires_at() is None,
            r.allowed() == allowed_users@,
    {
        LarkChannel {
            app_id,
            app_secret,
            encrypt_key,
            verify_token,
            access_token: None,
            token_expires_at: None,
            allowed_users,
        }
    }

    /// The channel's name: `lark`.
    pub fn name(&self) -> (r: &'static str)
        ensures
            r@ == "lark"@,
    {
        "lark"
    }

    /// Whether a user (by open id) is allowed: the allowlist holds `*` or
    /// the id.
    pub fn is_user_allowed(&self, open_id: &str) -> (r: bool)
        ensures
            r == user_allowed(self.allowed(), open_id@),
    {
        allowlist_admits(&self.allowed_users, open_id)
    }

    /// Checks an encrypted event. Decryption is not implemented: every
    /// ciphertext reads as the empty text.
    pub fn verify_event_encryption(&self, encrypt_key: &str, ciphertext: &str) -> (r: Result<
        String,
        LarkError,
    >)
        ensures
            r matches Ok(text) && text@ == Seq::<char>::empty(),
    {
        Ok(String::new())
    }

    /// The body of a tenant access token request:
    /// `{"app_id": ..., "app_secret": ...}`.
    pub fn token_request_body(&self) -> (r: Json)
        ensures
            r@ == JsonView::Object(
                seq![
                    ("app_id"@, JsonView::Str(self.app_id_view())),
                    ("app_secret"@, JsonView::Str(self.app_secret_view())),
                ],
            ),
    {
        let mut es: Vec<(String, Json)> = Vec::new();
        assert(entries_view(es@) =~= seq![]);
        put_str(&mut es, "app_id", self.app_id.as_str());
        put_str(&mut es, "app_secret", self.app_secret.as_str());
        let r = json_object(es);
        assert(r@->Object_0 =~= seq![
            ("app_id"@, JsonView::Str(self.app_id_view())),
            ("app_secret"@, JsonView::Str(self.app_secret_view())),
        ]);
        r
    }

    /// The cached token, when there is one whose expiry is known and more
    /// than five minutes after `now`.
    pub fn cached_token(&self, now: i64) -> (r: Option<String>)
        ensures
            r is Some <==> token_fresh(*self, now as int),
            r matches Some(t) ==> self.token() == Some(t),
    {
        match (&self.access_token, self.token_expires_at) {
            (Some(token), Some(expires_at)) => {
                if (now as i128) < (expires_at as i128) - 300 {
                    Some(token.clone())
                } else {
                    None
                }
            },
            _ => None,
        }
    }

    /// The cached token whatever its expiry.
    pub fn any_cached_token(&self) -> (r: Option<String>)
        ensures
            r == self.token(),
    {
        match &self.access_token {
            Some(t) => Some(t.clone()),
            None => None,
        }
    }

    /// The token sent with a health check: the cached one, or the empty
    /// text.
    pub fn health_check_token(&self) -> (r: String)
        ensures
            r@ == match self.token() {
                Some(t) => t@,
                None => Seq::empty(),
            },
    {
        match &self.access_token {
            Some(t) => t.clone(),
            None => String::new(),
        }
    }

    /// Takes the answer of the token endpoint received at `now`: a non-zero
    /// code or a missing token is an error and leaves the cache as it was;
    /// otherwise the token is cached until `now` plus its lifetime (7200
    /// seconds when the answer gives none) and returned.
    pub fn accept_token_response(&mut self, resp: &LarkTokenResponse, now: i64) -> (r: Result<
        String,
        LarkError,
    >)
        requires
            i64::MIN <= now + match resp.expire {
                Some(e) => e as int,
                None => default_token_lifetime(),
            } <= i64::MAX,
        ensures
            final(self).app_id_view() == old(self).app_id_view(),
            final(self).app_secret_view() == old(self).app_secret_view(),
            final(self).encrypt_key_view() == old(self).encrypt_key_view(),
            final(self).verify_token_view() == old(self).verify_token_view(),
            final(self).allowed() == old(self).allowed(),
            resp.code != 0 ==> (r matches Err(LarkError::TokenRequestFailed { msg }) && msg@
                == resp.msg@) && final(self).token() == old(self).token() && final(self).expires_at()
                == old(self).expires_at(),
            resp.code == 0 && resp.tenant_access_token is None ==> (r matches Err(
                LarkError::MissingToken,
            )) && final(self).token() == old(self).token() && final(self).expires_at()
                == old(self).expires_at(),
            resp.code == 0 && resp.tenant_access_token is Some ==> {
                &&& r == Ok::<String, LarkError>(resp.tenant_access_token->0)
                &&& final(self).token() == resp.tenant_access_token
                &&& final(self).expires_at() == Some(
                    (now + match resp.expire {
                        Some(e) => e as int,
                        None => default_token_lifetime(),
                    }) as i64,
                )
            },
    {
        if resp.code != 0 {
            return Err(LarkError::TokenRequestFailed { msg: resp.msg.clone() });
        }
        match &resp.tenant_access_token {
            None => Err(LarkError::MissingToken),
            Some(token) => {
                let lifetime: i64 = match resp.expire {
                    Some(e) => e as i64,
                    None => 7200,
                };
                self.access_token = Some(token.clone());
                self.token_expires_at = Some(lifetime + now);
                Ok(token.clone())
            },
        }
    }

    /// Reads the answer of the token endpoint without caching it: a
    /// non-zero code is an error; otherwise the token, or the empty text
    /// when the answer holds none.
    pub fn token_from_response(resp: &LarkTokenResponse) -> (r: Result<String, LarkError>)
        ensures
            resp.code != 0 ==> (r matches Err(LarkError::TokenRequestFailed { msg }) && msg@
                == resp.msg@),
            resp.code == 0 ==> (r matches Ok(t) && t@ == match resp.tenant_access_token {
                Some(s) => s@,
                None => Seq::empty(),
            }),
    {
        if resp.code != 0 {
            return Err(LarkError::TokenRequestFailed { msg: resp.msg.clone() });
        }
        match &resp.tenant_access_token {
            Some(t) => Ok(t.clone()),
            None => Ok(String::new()),
        }
    }

    /// Checks the answer of the send endpoint: a non-zero code is an error.
    pub fn check_send_response(resp: &LarkSendMessageResponse) -> (r: Result<(), LarkError>)
        ensures
            resp.code == 0 <==> r is Ok,
            resp.code != 0 ==> (r matches Err(LarkError::SendFailed { msg }) && msg@ == resp.msg@),
    {
        if resp.code != 0 {
            Err(LarkError::SendFailed { msg: resp.msg.clone() })
        } else {
            Ok(())
        }
    }
}

/// Whether the channel holds a token that may still be served at `now`:
/// its expiry is known and more than five minutes away.
pub open spec fn token_fresh(ch: LarkChannel, now: int) -> bool {
    ch.token() is Some && (ch.expires_at() matches Some(e) && now < e - token_refresh_margin())
}

/// A token accepted from an answer received at `now` with lifetime
/// `lifetime` is served from the cache at a later time exactly while that
/// time is more than five minutes before `now + lifetime`.
pub proof fn lemma_accepted_token_window(ch: LarkChannel, now: int, lifetime: int, later: int)
    requires
        ch.token() is Some,
        i64::MIN <= now + lifetime <= i64::MAX,
        ch.expires_at() == Some((now + lifetime) as i64),
    ensures
        token_fresh(ch, later) <==> later < now + lifetime - 300,
{
}

/// A token without a lifetime in its answer lives two hours, and a cached
/// token stops being served five minutes before it expires.
pub proof fn lemma_token_timing()
    ensures
        default_token_lifetime() == 7200,
        token_refresh_margin() == 300,
{
}

/// Lark errors are shown as `Failed to get access token: <msg>`,
/// `No token in response` and `Lark send failed: <msg>`.
pub proof fn lemma_lark_error_texts(msg: String)
    ensures
        lark_error_text(LarkError::TokenRequestFailed { msg }) == "Failed to get access token: "@ + msg@,
        lark_error_text(LarkError::MissingToken) == "No token in response"@,
        lark_error_text(LarkError::SendFailed { msg }) == "Lark send failed: "@ + msg@,
{
}

} // verus!
