//! The bearer credential of the authenticated poller: when to refresh it, the
//! password-grant request that refreshes it, and how the reply is read.
use vstd::prelude::*;
use crate::document::{is_json_text, json_of, parse_document, string_member, string_member_of};
use crate::poller::{is_success, Reply};

verus! {

/// Longest age, in seconds, at which a fetched token is used without refresh.
pub const TOKEN_TTL_SECS: u64 = 3600;

/// Why no token could be had.
#[derive(Clone, Debug, PartialEq, Eq)]
pub enum AuthError {
    /// The request could not be sent or no reply came back.
    Network(String),
    /// The token endpoint answered with a status outside 2xx; its body.
    Rejected(String),
    /// The reply body is not a JSON document.
    Malformed,
    /// The reply holds no string `access_token`.
    MissingToken,
}

/// A bearer token and the time, in seconds since the epoch, it was fetched.
/// No token means none was ever fetched.
pub struct Credential {
    pub token: Option<String>,
    pub fetched_at: u64,
}

/// Settings of the password-grant exchange.
pub struct OidcConfig {
    pub client_id: String,
    pub client_secret: String,
    pub token_url: String,
    pub username: String,
    pub password: String,
}

impl Credential {
    /// Whether a fresh token must be fetched at time `now`: none was fetched,
    /// or the one held is older than the TTL.
    pub open spec fn spec_needs_refresh(&self, now: u64) -> bool {
        self.token is None || now - self.fetched_at > TOKEN_TTL_SECS
    }

    /// The credential after a fetch made at `now`: the new token stamped
    /// `now` on success, the old credential untouched on failure.
    pub open spec fn spec_after_fetch(self, outcome: Result<String, AuthError>, now: u64) -> Credential {
        match outcome {
            Ok(t) => Credential { token: Some(t), fetched_at: now },
            Err(_) => self,
        }
    }

    /// The credential before any token was fetched.
    pub fn unset() -> (r: Credential)
        ensures
            r.token is None,
            r.fetched_at == 0,
    {
        Credential { token: None, fetched_at: 0 }
    }

    pub fn needs_refresh(&self, now: u64) -> (r: bool)
        ensures
            r == self.spec_needs_refresh(now),
    {
        match &self.token {
            None => true,
            Some(_) => now > self.fetched_at && now - self.fetched_at > TOKEN_TTL_SECS,
        }
    }

    /// The token to send at time `now`, only while it is still valid.
    pub fn usable_token(&self, now: u64) -> (r: Option<String>)
        ensures
            r is Some <==> !self.spec_needs_refresh(now),
            r matches Some(t) ==> self.token == Some(t),
    {
        if self.needs_refresh(now) {
            None
        } else {
            match &self.token {
                Some(t) => Some(t.clone()),
                None => None,
            }
        }
    }

    /// Records the outcome of a token fetch made at `now`. A failure keeps the
    /// previous token, stale or not, and is handed back.
    pub fn complete_refresh(&mut self, outcome: Result<String, AuthError>, now: u64) -> (r: Result<
        (),
        AuthError,
    >)
        ensures
            *final(self) == old(self).spec_after_fetch(outcome, now),
            outcome is Ok ==> r is Ok,
            outcome matches Err(e) ==> r == Err::<(), AuthError>(e),
    {
        match outcome {
            Ok(t) => {
                self.token = Some(t);
                self.fetched_at = now;
                Ok(())
            },
            Err(e) => Err(e),
        }
    }
}

/// The form fields of the password-grant request, as (name, value) pairs.
pub open spec fn token_form_fields(cfg: OidcConfig) -> Seq<(Seq<char>, Seq<char>)> {
    seq![
        ("client_id"@, cfg.client_id@),
        ("client_secret"@, cfg.client_secret@),
        ("grant_type"@, "password"@),
        ("username"@, cfg.username@),
        ("password"@, cfg.password@),
    ]
}

impl OidcConfig {
    /// The form-encoded body of the token request, field by field.
    pub fn token_form(&self) -> (r: Vec<(String, String)>)
        ensures
            r@.len() == 5,
            forall|i: int|
                0 <= i < 5 ==> (#[trigger] r@[i].0@, r@[i].1@) == token_form_fields(*self)[i],
    {
        let mut r: Vec<(String, String)> = Vec::new();
        r.push(("client_id".to_owned(), self.client_id.clone()));
        r.push(("client_secret".to_owned(), self.client_secret.clone()));
        r.push(("grant_type".to_owned(), "password".to_owned()));
        r.push(("username".to_owned(), self.username.clone()));
        r.push(("password".to_owned(), self.password.clone()));
        r
    }
}

/// The token held by the `access_token` member, or `MissingToken`.
pub fn token_from_field(field: Option<String>) -> (r: Result<String, AuthError>)
    ensures
        field matches Some(t) ==> r == Ok::<String, AuthError>(t),
        field is None ==> r == Err::<String, AuthError>(AuthError::MissingToken),
{
    match field {
        Some(t) => Ok(t),
        None => Err(AuthError::MissingToken),
    }
}

/// Reads the token endpoint's answer: a non-2xx status is a rejection that
/// carries the body; a 2xx body must be JSON holding a string `access_token`,
/// which is the token.
pub fn token_from_reply(outcome: Result<Reply, String>) -> (r: Result<String, AuthError>)
    ensures
        outcome matches Err(e) ==> r == Err::<String, AuthError>(AuthError::Network(e)),
        outcome matches Ok(rep) ==> {
            if !is_success(rep.status) {
                r == Err::<String, AuthError>(AuthError::Rejected(rep.body))
            } else if !is_json_text(rep.body@) {
                r == Err::<String, AuthError>(AuthError::Malformed)
            } else {
                match string_member_of(json_of(rep.body@), "access_token"@) {
                    Some(a) => r matches Ok(t) && t@ == a,
                    None => r == Err::<String, AuthError>(AuthError::MissingToken),
                }
            }
        },
{
    match outcome {
        Err(e) => Err(AuthError::Network(e)),
        Ok(rep) => {
            if !rep.is_success() {
                Err(AuthError::Rejected(rep.body))
            } else {
                match parse_document(rep.body.as_str()) {
                    Err(_) => Err(AuthError::Malformed),
                    Ok(doc) => token_from_field(string_member(&doc, "access_token")),
                }
            }
        },
    }
}

/// With a token in hand, no fetch is due while its age is within the TTL and
/// one is due once it is older; a successful fetch stamps the credential with
/// the time of the fetch, and a failed one changes nothing.
pub proof fn lemma_refresh_policy(c: Credential, now: u64, token: String, e: AuthError)
    requires
        c.token is Some,
    ensures
        now - c.fetched_at <= TOKEN_TTL_SECS ==> !c.spec_needs_refresh(now),
        now - c.fetched_at > TOKEN_TTL_SECS ==> c.spec_needs_refresh(now),
        c.spec_after_fetch(Ok(token), now).fetched_at == now,
        c.spec_after_fetch(Ok(token), now).token == Some(token),
        c.spec_after_fetch(Err(e), now) == c,
{
}

/// While every token fetch fails, a credential that never held a token keeps
/// holding none and never yields a token to send, at any time; so the
/// authenticated poller never fetches its endpoint and never sends a message.
pub proof fn lemma_failing_grant_never_authorizes(c: Credential, errs: Seq<AuthError>, times: Seq<u64>)
    requires
        c.token is None,
        times.len() == errs.len(),
    ensures
        after_failed_fetches(c, errs, times) == c,
        forall|now: u64| #[trigger] after_failed_fetches(c, errs, times).spec_needs_refresh(now),
    decreases errs.len(),
{
    if errs.len() > 0 {
        lemma_failing_grant_never_authorizes(c, errs.drop_last(), times.drop_last());
    }
}

/// The credential after a run of fetches that all failed, the i-th with
/// `errs[i]` at time `times[i]`.
pub open spec fn after_failed_fetches(c: Credential, errs: Seq<AuthError>, times: Seq<u64>) -> Credential
    decreases errs.len(),
{
    if errs.len() == 0 || times.len() == 0 {
        c
    } else {
        after_failed_fetches(c, errs.drop_last(), times.drop_last()).spec_after_fetch(
            Err(errs.last()),
            times.last(),
        )
    }
}

} // verus!
