//! The decisions of a session: when to fetch a new token, what a token reply
//! does to the cached record, how a lyrics request looks and which lyrics
//! replies are accepted. The caller performs the HTTP exchanges.
use vstd::prelude::*;
use crate::model::{Authorization, Error};

verus! {

/// Host of the lyrics endpoint.
pub const BASE_URL: &'static str = "https://spclient.wg.spotify.com";
/// Endpoint that exchanges the session cookie for a bearer token.
pub const TOKEN_URL: &'static str = "https://open.spotify.com/get_access_token";
/// Address the session cookie is stored under in the cookie jar.
pub const COOKIE_URL: &'static str = "https://open.spotify.com";
/// User agent sent with every request.
pub const USER_AGENT: &'static str = "Mozilla/5.0 (Windows NT 10.0; Win64; x64) AppleWebKit/537.36 (KHTML, like Gecko) Chrome/123.0.0.0 Safari/537.3";

/// A token is expired once the clock reaches its expiration instant.
pub open spec fn is_expired(a: Authorization, now_ms: u64) -> bool {
    now_ms >= a.expiration_ms
}

/// What a session does when asked for a valid authorization.
#[derive(Debug)]
pub enum AuthStep {
    /// The cached record is still valid: hand out this copy of it.
    Ready(Authorization),
    /// Call the token endpoint first.
    FetchToken,
}

/// The step owed to a session holding `cached` at clock `now_ms`.
pub open spec fn step_for(cached: Option<Authorization>, now_ms: u64) -> AuthStep {
    match cached {
        Some(a) => if is_expired(a, now_ms) {
            AuthStep::FetchToken
        } else {
            AuthStep::Ready(a)
        },
        None => AuthStep::FetchToken,
    }
}

/// The cached record and the result after a token reply: a received record
/// replaces the cached one, a failed exchange leaves it as it was.
pub open spec fn after_token(
    cached: Option<Authorization>,
    reply: Option<Authorization>,
) -> (Option<Authorization>, Result<Authorization, Error>) {
    match reply {
        Some(a) => (Some(a), Ok(a)),
        None => (cached, Err(Error::AuthFetchError)),
    }
}

/// The authorization a session currently holds, if any.
#[derive(Clone, Debug, Default)]
pub struct AuthCache {
    pub auth: Option<Authorization>,
}

impl AuthCache {
    /// A session that has not fetched a token yet.
    pub fn new() -> (r: AuthCache)
        ensures
            r.auth.is_none(),
    {
        AuthCache { auth: None }
    }

    /// Decides between handing out the cached record and fetching a new one.
    pub fn next_step(&self, now_ms: u64) -> (r: AuthStep)
        ensures
            r == step_for(self.auth, now_ms),
    {
        match &self.auth {
            Some(a) => if now_ms >= a.expiration_ms {
                AuthStep::FetchToken
            } else {
                AuthStep::Ready(a.snapshot())
            },
            None => AuthStep::FetchToken,
        }
    }

    /// Takes the token endpoint's reply: `Some` with the decoded record, or
    /// `None` where the exchange failed.
    pub fn accept_token(&mut self, reply: Option<Authorization>) -> (r: Result<Authorization, Error>)
        ensures
            (final(self).auth, r) == after_token(old(self).auth, reply),
    {
        match reply {
            Some(a) => {
                let copy = a.snapshot();
                self.auth = Some(a);
                Ok(copy)
            },
            None => Err(Error::AuthFetchError),
        }
    }
}

/// A record that is still valid is handed out as it is, with no call to the
/// token endpoint.
pub proof fn lemma_valid_token_is_reused(a: Authorization, now_ms: u64)
    requires
        now_ms < a.expiration_ms,
    ensures
        step_for(Some(a), now_ms) == AuthStep::Ready(a),
{
}

/// An expired record leads to one call to the token endpoint; the record it
/// returns is cached and handed out, and while it is valid no further call
/// is made.
pub proof fn lemma_expired_token_fetched_once(
    a: Authorization,
    now_ms: u64,
    fresh: Authorization,
)
    requires
        now_ms >= a.expiration_ms,
    ensures
        step_for(Some(a), now_ms) == AuthStep::FetchToken,
        after_token(Some(a), Some(fresh)) == (Some(fresh), Ok::<Authorization, Error>(fresh)),
        now_ms < fresh.expiration_ms ==> step_for(Some(fresh), now_ms) == AuthStep::Ready(fresh),
{
}

/// A failed token exchange surfaces as an error and keeps no record but the
/// one held before.
pub proof fn lemma_failed_refresh_keeps_cache(cached: Option<Authorization>)
    ensures
        after_token(cached, None) == (cached, Err::<Authorization, Error>(Error::AuthFetchError)),
{
}

/// The lyrics endpoint's address for a track.
pub open spec fn lyrics_url(track_id: Seq<char>) -> Seq<char> {
    BASE_URL@ + "/color-lyrics/v2/track/"@ + track_id + "?format=json"@
}

/// The value of the `Authorization` header for a token.
pub open spec fn bearer(token: Seq<char>) -> Seq<char> {
    "Bearer "@ + token
}

/// A GET request to the lyrics endpoint, with its two headers.
#[derive(Debug)]
pub struct LyricsRequest {
    pub url: String,
    /// Value of the `Authorization` header.
    pub authorization: String,
    /// Value of the `App-Platform` header, without which the service refuses.
    pub app_platform: String,
}

/// Builds the lyrics request for `track_id` under `auth`.
pub fn lyrics_request(track_id: &str, auth: &Authorization) -> (r: LyricsRequest)
    ensures
        r.url@ == lyrics_url(track_id@),
        r.authorization@ == bearer(auth.access_token@),
        r.app_platform@ == "WebPlayer"@,
{
    let mut url = String::from_str(BASE_URL);
    url.append("/color-lyrics/v2/track/");
    url.append(track_id);
    url.append("?format=json");
    let mut authorization = String::from_str("Bearer ");
    authorization.append(auth.access_token.as_str());
    LyricsRequest { url, authorization, app_platform: String::from_str("WebPlayer") }
}

/// HTTP success: a status in 200..=299.
pub open spec fn is_success(status: u16) -> bool {
    200 <= status <= 299
}

/// Whether an HTTP status counts as success.
pub fn is_success_status(status: u16) -> (r: bool)
    ensures
        r == is_success(status),
{
    200 <= status && status <= 299
}

/// Accepts a lyrics reply by its status alone; the body of a refused reply
/// is never read.
pub fn check_lyrics_status(status: u16) -> (r: Result<(), Error>)
    ensures
        is_success(status) ==> r == Ok::<(), Error>(()),
        !is_success(status) ==> r == Err::<(), Error>(Error::LyricsFetchError { status }),
{
    if is_success_status(status) {
        Ok(())
    } else {
        Err(Error::LyricsFetchError { status })
    }
}

} // verus!
