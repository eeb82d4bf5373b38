//! The records the service hands out, and the errors of this library.
use vstd::prelude::*;

verus! {

/// A bearer token and what the token endpoint said about it.
#[derive(Clone, Debug, Default, PartialEq, Eq)]
pub struct Authorization {
    pub client_id: String,
    pub access_token: String,
    /// Epoch milliseconds after which the token is no longer valid.
    pub expiration_ms: u64,
    pub is_anonymous: bool,
}

impl Authorization {
    /// A field-for-field copy.
    pub fn snapshot(&self) -> (r: Authorization)
        ensures
            r == *self,
    {
        Authorization {
            client_id: self.client_id.clone(),
            access_token: self.access_token.clone(),
            expiration_ms: self.expiration_ms,
            is_anonymous: self.is_anonymous,
        }
    }
}

/// The full answer to a lyrics request.
#[derive(Clone, Debug, Default, PartialEq, Eq)]
pub struct ColorLyrics {
    pub lyrics: Lyrics,
    pub colors: Colors,
    pub has_vocal_removal: bool,
}

/// Synced lyrics of one track, with their provider and display flags.
#[derive(Clone, Debug, Default, PartialEq, Eq)]
pub struct Lyrics {
    pub sync_type: String,
    pub lines: Vec<Line>,
    pub provider: String,
    pub provider_lyrics_id: String,
    pub provider_display_name: String,
    pub sync_lyrics_uri: String,
    pub is_dense_typeface: bool,
    pub alternatives: Vec<String>,
    pub language: String,
    pub is_rtl_language: bool,
    pub fullscreen_action: String,
    pub show_upsell: bool,
}

/// One line of lyrics; times are milliseconds from the start of the track.
#[derive(Clone, Debug, Default, PartialEq, Eq)]
pub struct Line {
    pub start_time_ms: u64,
    pub words: String,
    pub syllables: Vec<String>,
    pub end_time_ms: u64,
}

/// Packed colour values for the lyrics view.
#[derive(Clone, Copy, Debug, Default, PartialEq, Eq)]
pub struct Colors {
    pub background: i64,
    pub text: i64,
    pub highlight_text: i64,
}

/// Which step of a session failed.
#[derive(Clone, Copy, Debug, PartialEq, Eq, Structural)]
pub enum Error {
    /// No session cookie was found in the browser cookie store, or the store
    /// could not be read.
    CookieNotFound,
    /// The HTTP client or its cookie jar could not be set up.
    ClientBuildError,
    /// The system clock reads a time before the Unix epoch, so a token's
    /// expiration cannot be judged.
    ClockError,
    /// The token endpoint could not be reached, refused, or sent an
    /// unreadable body.
    AuthFetchError,
    /// The lyrics endpoint could not be reached.
    LyricsRequestError,
    /// The lyrics endpoint answered with a status outside 200..=299.
    LyricsFetchError { status: u16 },
    /// The lyrics endpoint's body did not have the expected shape.
    LyricsDecodeError,
}

} // verus!
