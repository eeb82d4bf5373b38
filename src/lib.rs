//! Client-side logic for fetching time-synced lyrics and their colours:
//! the data model, the decimal time fields of the wire format, the
//! token-refresh decisions of a session, request building and cookie
//! selection. Transport (HTTP, the browser cookie store, JSON) lives outside.
pub mod cookie;
pub mod decimal;
pub mod lines;
pub mod model;
pub mod session;

pub use cookie::{is_cookie_pair, session_cookie, Browser, Platform, StoredCookie, COOKIE_DOMAIN, COOKIE_NAME};
pub use decimal::{format_u64, parse_u64};
pub use lines::{decode_lines, encode_lines, WireLine};
pub use model::{Authorization, ColorLyrics, Colors, Error, Line, Lyrics};
pub use session::{
    check_lyrics_status, is_success_status, lyrics_request, AuthCache, AuthStep, LyricsRequest,
    BASE_URL, COOKIE_URL, TOKEN_URL, USER_AGENT,
};
