//! Lyric lines as the service writes them: the two times travel as decimal
//! strings. Reading them is strict: a time that is not the text of a `u64`
//! makes the whole body undecodable.
use vstd::prelude::*;
use crate::decimal::{decimal_text, format_u64, is_u64_text, lemma_decimal_round_trip, parse_u64, u64_text_value};
use crate::model::{Error, Line};

verus! {

/// A lyric line in its wire form.
#[derive(Clone, Debug, Default, PartialEq, Eq)]
pub struct WireLine {
    pub start_time_ms: String,
    pub words: String,
    pub syllables: Vec<String>,
    pub end_time_ms: String,
}

/// Both times of `w` are texts of a `u64`.
pub open spec fn is_decodable(w: WireLine) -> bool {
    is_u64_text(w.start_time_ms@) && is_u64_text(w.end_time_ms@)
}

/// `l` is what `w` reads as.
pub open spec fn decodes_to(w: WireLine, l: Line) -> bool {
    &&& is_decodable(w)
    &&& l.start_time_ms == u64_text_value(w.start_time_ms@)
    &&& l.end_time_ms == u64_text_value(w.end_time_ms@)
    &&& l.words == w.words
    &&& l.syllables == w.syllables
}

/// `w` is how `l` is written.
pub open spec fn encodes_as(l: Line, w: WireLine) -> bool {
    &&& w.start_time_ms@ == decimal_text(l.start_time_ms as nat)
    &&& w.end_time_ms@ == decimal_text(l.end_time_ms as nat)
    &&& w.words == l.words
    &&& w.syllables == l.syllables
}

impl Line {
    /// Reads a line; fails exactly where a time is not the text of a `u64`.
    pub fn from_wire(w: WireLine) -> (r: Result<Line, Error>)
        ensures
            r.is_ok() <==> is_decodable(w),
            r matches Ok(l) ==> decodes_to(w, l),
            r matches Err(e) ==> e == Error::LyricsDecodeError,
    {
        let start = parse_u64(w.start_time_ms.as_str());
        let end = parse_u64(w.end_time_ms.as_str());
        match (start, end) {
            (Some(start_time_ms), Some(end_time_ms)) => Ok(
                Line { start_time_ms, words: w.words, syllables: w.syllables, end_time_ms },
            ),
            _ => Err(Error::LyricsDecodeError),
        }
    }

    /// Writes a line, each time as its shortest decimal text.
    pub fn into_wire(self) -> (w: WireLine)
        ensures
            encodes_as(self, w),
    {
        WireLine {
            start_time_ms: format_u64(self.start_time_ms),
            words: self.words,
            syllables: self.syllables,
            end_time_ms: format_u64(self.end_time_ms),
        }
    }
}

/// Reads every line, in order; fails where any line fails.
pub fn decode_lines(ws: Vec<WireLine>) -> (r: Result<Vec<Line>, Error>)
    ensures
        r.is_ok() <==> forall|i: int| 0 <= i < ws@.len() ==> is_decodable(#[trigger] ws@[i]),
        r matches Ok(ls) ==> ls@.len() == ws@.len() && forall|i: int|
            0 <= i < ws@.len() ==> decodes_to(#[trigger] ws@[i], ls@[i]),
        r matches Err(e) ==> e == Error::LyricsDecodeError,
{
    let ghost all = ws@;
    let mut rest = ws;
    let mut out: Vec<Line> = Vec::new();
    while rest.len() > 0
        invariant
            all == ws@,
            out@.len() + rest@.len() == all.len(),
            rest@ == all.subrange(out@.len() as int, all.len() as int),
            forall|i: int| 0 <= i < out@.len() ==> decodes_to(#[trigger] all[i], out@[i]),
        decreases rest@.len(),
    {
        let ghost k = out@.len() as int;
        let w = rest.remove(0);
        assert(w == all[k]);
        match Line::from_wire(w) {
            Ok(l) => {
                out.push(l);
            },
            Err(e) => {
                assert(!is_decodable(all[k]));
                return Err(e);
            },
        }
        assert(rest@ =~= all.subrange(out@.len() as int, all.len() as int));
    }
    assert forall|i: int| 0 <= i < all.len() implies is_decodable(#[trigger] all[i]) by {
        assert(decodes_to(all[i], out@[i]));
    }
    Ok(out)
}

/// Writes every line, in order.
pub fn encode_lines(ls: Vec<Line>) -> (ws: Vec<WireLine>)
    ensures
        ws@.len() == ls@.len(),
        forall|i: int| 0 <= i < ls@.len() ==> encodes_as(#[trigger] ls@[i], ws@[i]),
{
    let ghost all = ls@;
    let mut rest = ls;
    let mut out: Vec<WireLine> = Vec::new();
    while rest.len() > 0
        invariant
            all == ls@,
            out@.len() + rest@.len() == all.len(),
            rest@ == all.subrange(out@.len() as int, all.len() as int),
            forall|i: int| 0 <= i < out@.len() ==> encodes_as(#[trigger] all[i], out@[i]),
        decreases rest@.len(),
    {
        let ghost k = out@.len() as int;
        let l = rest.remove(0);
        assert(l == all[k]);
        out.push(l.into_wire());
        assert(rest@ =~= all.subrange(out@.len() as int, all.len() as int));
    }
    out
}

/// A line written to its wire form reads back as the same line.
pub proof fn lemma_line_round_trip(l: Line, w: WireLine)
    requires
        encodes_as(l, w),
    ensures
        is_decodable(w),
        decodes_to(w, l),
{
    lemma_decimal_round_trip(l.start_time_ms);
    lemma_decimal_round_trip(l.end_time_ms);
}

/// Lines written to their wire form read back as the same lines, in order.
pub proof fn lemma_lines_round_trip(ls: Seq<Line>, ws: Seq<WireLine>)
    requires
        ws.len() == ls.len(),
        forall|i: int| 0 <= i < ls.len() ==> encodes_as(#[trigger] ls[i], ws[i]),
    ensures
        forall|i: int| 0 <= i < ws.len() ==> is_decodable(#[trigger] ws[i]),
        forall|i: int| 0 <= i < ws.len() ==> decodes_to(#[trigger] ws[i], ls[i]),
{
    assert forall|i: int| 0 <= i < ws.len() implies is_decodable(#[trigger] ws[i]) && decodes_to(
        ws[i],
        ls[i],
    ) by {
        assert(encodes_as(ls[i], ws[i]));
        lemma_line_round_trip(ls[i], ws[i]);
    }
}

} // verus!
