use spotify_lyrics::{decode_lines, encode_lines, Error, Line, WireLine};

fn wire(start: &str, words: &str, end: &str) -> WireLine {
    WireLine {
        start_time_ms: start.to_string(),
        words: words.to_string(),
        syllables: vec!["a".to_string(), "b".to_string()],
        end_time_ms: end.to_string(),
    }
}

#[test]
fn decodes_numeric_start_time() {
    let line = Line::from_wire(wire("12345", "hello", "13000")).unwrap();
    assert_eq!(line.start_time_ms, 12345);
    assert_eq!(line.end_time_ms, 13000);
    assert_eq!(line.words, "hello");
    assert_eq!(line.syllables, vec!["a".to_string(), "b".to_string()]);
}

#[test]
fn malformed_start_time_is_decode_error() {
    assert_eq!(Line::from_wire(wire("abc", "hello", "0")), Err(Error::LyricsDecodeError));
}

#[test]
fn malformed_end_time_is_decode_error() {
    assert_eq!(Line::from_wire(wire("1", "hello", "")), Err(Error::LyricsDecodeError));
    assert_eq!(Line::from_wire(wire("1", "hello", "18446744073709551616")), Err(Error::LyricsDecodeError));
}

#[test]
fn line_wire_round_trip() {
    let line = Line {
        start_time_ms: 12345,
        words: "la la".to_string(),
        syllables: vec!["la".to_string()],
        end_time_ms: u64::MAX,
    };
    let w = line.clone().into_wire();
    assert_eq!(w.start_time_ms, "12345");
    assert_eq!(w.end_time_ms, "18446744073709551615");
    assert_eq!(Line::from_wire(w), Ok(line));
}

#[test]
fn decode_lines_keeps_order() {
    let lines = decode_lines(vec![wire("0", "one", "10"), wire("10", "two", "20"), wire("20", "three", "30")]).unwrap();
    let words: Vec<&str> = lines.iter().map(|l| l.words.as_str()).collect();
    assert_eq!(words, vec!["one", "two", "three"]);
    assert_eq!(lines[2].start_time_ms, 20);
    assert_eq!(lines[2].end_time_ms, 30);
}

#[test]
fn decode_lines_fails_on_any_bad_line() {
    let r = decode_lines(vec![wire("0", "one", "10"), wire("x", "two", "20"), wire("20", "three", "30")]);
    assert_eq!(r, Err(Error::LyricsDecodeError));
}

#[test]
fn decode_lines_empty() {
    assert_eq!(decode_lines(Vec::new()), Ok(Vec::new()));
    assert!(encode_lines(Vec::new()).is_empty());
}

#[test]
fn lines_round_trip() {
    let lines = vec![
        Line { start_time_ms: 0, words: "a".to_string(), syllables: vec![], end_time_ms: 500 },
        Line { start_time_ms: 500, words: "b".to_string(), syllables: vec!["b".to_string()], end_time_ms: 1000 },
    ];
    let ws = encode_lines(lines.clone());
    assert_eq!(ws[1].start_time_ms, "500");
    assert_eq!(ws[1].end_time_ms, "1000");
    assert_eq!(decode_lines(ws), Ok(lines));
}
