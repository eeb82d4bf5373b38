//! Browsers whose cookie stores can be read, and the choice of the session
//! cookie among the cookies read from them.
use vstd::prelude::*;
use crate::model::Error;

verus! {

/// Domain whose cookies are read from a browser.
pub const COOKIE_DOMAIN: &'static str = ".spotify.com";
/// Name of the session cookie.
pub const COOKIE_NAME: &'static str = "sp_dc";

/// A browser to read the session cookie from; `All` tries every one.
#[derive(Clone, Copy, Debug, PartialEq, Eq, Structural)]
pub enum Browser {
    All,
    Brave,
    Cachy,
    Chrome,
    Chromium,
    Edge,
    Firefox,
    InternetExplorer,
    LibreWolf,
    Opera,
    OperaGX,
    Safari,
    Vivaldi,
}

/// The operating system the process runs on.
#[derive(Clone, Copy, Debug, PartialEq, Eq, Structural)]
pub enum Platform {
    Linux,
    Windows,
    MacOs,
    Other,
}

/// The browsers tied to one operating system; every other one is looked
/// for anywhere.
pub open spec fn available_on(b: Browser, p: Platform) -> bool {
    match b {
        Browser::Cachy => p == Platform::Linux,
        Browser::InternetExplorer => p == Platform::Windows,
        Browser::Safari => p == Platform::MacOs,
        _ => true,
    }
}

impl Browser {
    /// Whether this browser's cookie store can exist on `p`.
    pub fn is_available_on(&self, p: Platform) -> (r: bool)
        ensures
            r == available_on(*self, p),
    {
        match self {
            Browser::Cachy => p == Platform::Linux,
            Browser::InternetExplorer => p == Platform::Windows,
            Browser::Safari => p == Platform::MacOs,
            _ => true,
        }
    }
}

/// Unicode `White_Space`, the characters that `str::trim` removes.
pub open spec fn is_white_space(c: char) -> bool {
    ('\u{9}' <= c && c <= '\u{d}') || c == ' ' || c == '\u{85}' || c == '\u{a0}' || c
        == '\u{1680}' || ('\u{2000}' <= c && c <= '\u{200a}') || c == '\u{2028}' || c
        == '\u{2029}' || c == '\u{202f}' || c == '\u{205f}' || c == '\u{3000}'
}

/// Scanning `s` from its start, with `named` telling whether a character
/// other than white space has been seen: an `=` comes before any `;`, and
/// the name before it is not blank.
pub open spec fn pair_from(s: Seq<char>, named: bool) -> bool
    decreases s.len(),
{
    if s.len() == 0 {
        false
    } else if s[0] == ';' {
        false
    } else if s[0] == '=' {
        named
    } else {
        pair_from(s.drop_first(), named || !is_white_space(s[0]))
    }
}

/// `s` starts with a `name=value` pair whose trimmed name is not empty: the
/// cookie text a cookie jar can store; the attributes after `;` are free.
pub open spec fn is_cookie_pair_text(s: Seq<char>) -> bool {
    pair_from(s, false)
}

fn white_space(c: char) -> (r: bool)
    ensures
        r == is_white_space(c),
{
    ('\u{9}' <= c && c <= '\u{d}') || c == ' ' || c == '\u{85}' || c == '\u{a0}' || c
        == '\u{1680}' || ('\u{2000}' <= c && c <= '\u{200a}') || c == '\u{2028}' || c
        == '\u{2029}' || c == '\u{202f}' || c == '\u{205f}' || c == '\u{3000}'
}

/// Whether `s` is cookie text with a `name=value` pair, so that installing
/// it in the session's cookie jar keeps a cookie.
pub fn is_cookie_pair(s: &str) -> (r: bool)
    ensures
        r == is_cookie_pair_text(s@),
{
    let len = s.unicode_len();
    let mut named = false;
    let mut i: usize = 0;
    assert(s@.subrange(0, len as int) =~= s@);
    while i < len
        invariant
            i <= len,
            len == s@.len(),
            is_cookie_pair_text(s@) == pair_from(s@.subrange(i as int, len as int), named),
        decreases len - i,
    {
        let ghost rest = s@.subrange(i as int, len as int);
        assert(rest.drop_first() =~= s@.subrange(i + 1, len as int));
        let c = s.get_char(i);
        assert(rest[0] == c);
        if c == ';' {
            return false;
        }
        if c == '=' {
            return named;
        }
        named = named || !white_space(c);
        i = i + 1;
    }
    false
}

/// A cookie as a browser's cookie store gives it.
#[derive(Clone, Debug, PartialEq, Eq)]
pub struct StoredCookie {
    pub name: String,
    pub value: String,
}

/// The `name=value` text of the first session cookie in `cs`, if there is one.
pub open spec fn session_cookie_text(cs: Seq<StoredCookie>) -> Option<Seq<char>>
    decreases cs.len(),
{
    if cs.len() == 0 {
        None
    } else if cs[0].name@ == COOKIE_NAME@ {
        Some(COOKIE_NAME@ + "="@ + cs[0].value@)
    } else {
        session_cookie_text(cs.drop_first())
    }
}

/// Picks the session cookie out of what a browser's cookie store gave:
/// `None` where the store could not be read.
pub fn session_cookie(found: Option<Vec<StoredCookie>>) -> (r: Result<String, Error>)
    ensures
        found.is_none() ==> r == Err::<String, Error>(Error::CookieNotFound),
        found matches Some(cs) ==> match session_cookie_text(cs@) {
            Some(t) => r matches Ok(s) && s@ == t,
            None => r == Err::<String, Error>(Error::CookieNotFound),
        },
{
    let cs = match found {
        Some(cs) => cs,
        None => return Err(Error::CookieNotFound),
    };
    assert(cs@.subrange(0, cs@.len() as int) =~= cs@);
    let name = String::from_str(COOKIE_NAME);
    let mut i: usize = 0;
    while i < cs.len()
        invariant
            i <= cs@.len(),
            found == Some(cs),
            name@ == COOKIE_NAME@,
            session_cookie_text(cs@) == session_cookie_text(cs@.subrange(i as int, cs@.len() as int)),
        decreases cs.len() - i,
    {
        let ghost rest = cs@.subrange(i as int, cs@.len() as int);
        assert(rest.drop_first() =~= cs@.subrange(i + 1, cs@.len() as int));
        assert(rest[0] == cs@[i as int]);
        if cs[i].name == name {
            let mut text = String::from_str(COOKIE_NAME);
            text.append("=");
            text.append(cs[i].value.as_str());
            return Ok(text);
        }
        i = i + 1;
    }
    assert(cs@.subrange(i as int, cs@.len() as int) =~= Seq::<StoredCookie>::empty());
    Err(Error::CookieNotFound)
}

} // verus!
