//! Parsing of transcription output into timed segments.
//!
//! The transcription engine hands back lines of the form
//! `[MM:SS.mmm] - [MM:SS.mmm] text`: two bracketed timestamps (two digits of
//! minutes, two of seconds, three of milliseconds), separated by a dash with
//! whitespace on both sides, followed by the spoken text. Each line is
//! parsed independently; a line that does not match the grammar is skipped,
//! never fatal.

use vstd::prelude::*;
use vstd::string::StrSliceExecFns;

verus! {

/// One parsed line: a timed span of transcribed text, offsets in
/// milliseconds.
#[derive(Debug)]
pub struct TranscriptionSegment {
    pub start_ms: i64,
    pub end_ms: i64,
    pub text: String,
}

/// The mathematical content of a segment: start, end, and text.
pub open spec fn seg_tuple(t: TranscriptionSegment) -> (int, int, Seq<char>) {
    (t.start_ms as int, t.end_ms as int, t.text@)
}

/// The mathematical content of a segment list.
pub open spec fn seg_tuples(s: Seq<TranscriptionSegment>) -> Seq<(int, int, Seq<char>)> {
    s.map_values(|t: TranscriptionSegment| seg_tuple(t))
}

/// An ASCII decimal digit.
pub open spec fn is_digit(c: char) -> bool {
    48 <= c as u32 <= 57
}

/// Numeric value of an ASCII decimal digit.
pub open spec fn digit_val(c: char) -> int {
    c as u32 - 48
}

/// Whitespace inside a line (a line never holds a newline).
pub open spec fn is_ws(c: char) -> bool {
    c == ' ' || c == '\t' || c == '\r'
}

/// Whether a bracketed `[MM:SS.mmm]` timestamp stands at position `i`.
pub open spec fn timestamp_at(q: Seq<char>, i: int) -> bool {
    &&& 0 <= i
    &&& i + 11 <= q.len()
    &&& q[i] == '['
    &&& is_digit(q[i + 1])
    &&& is_digit(q[i + 2])
    &&& q[i + 3] == ':'
    &&& is_digit(q[i + 4])
    &&& is_digit(q[i + 5])
    &&& q[i + 6] == '.'
    &&& is_digit(q[i + 7])
    &&& is_digit(q[i + 8])
    &&& is_digit(q[i + 9])
    &&& q[i + 10] == ']'
}

/// Milliseconds encoded by the timestamp at position `i`.
pub open spec fn timestamp_ms(q: Seq<char>, i: int) -> int {
    (10 * digit_val(q[i + 1]) + digit_val(q[i + 2])) * 60000 + (10 * digit_val(q[i + 4])
        + digit_val(q[i + 5])) * 1000 + 100 * digit_val(q[i + 7]) + 10 * digit_val(q[i + 8])
        + digit_val(q[i + 9])
}

/// First position at or after `i` that is not line whitespace.
pub open spec fn skip_ws(q: Seq<char>, i: int) -> int
    decreases q.len() - i,
{
    if i < q.len() && is_ws(q[i]) {
        skip_ws(q, i + 1)
    } else {
        i
    }
}

/// `skip_ws` stays between its start and the end of the sequence.
pub proof fn lemma_skip_ws_bounds(q: Seq<char>, i: int)
    requires
        0 <= i <= q.len(),
    ensures
        i <= skip_ws(q, i) <= q.len(),
    decreases q.len() - i,
{
    if i < q.len() && is_ws(q[i]) {
        lemma_skip_ws_bounds(q, i + 1);
    }
}

/// What a single line parses to: `Some((start_ms, end_ms, text))` when the
/// line is a timestamp, whitespace, a dash, whitespace, a second
/// timestamp, whitespace, and at least one character of text; `None`
/// otherwise.
pub open spec fn parse_line(q: Seq<char>) -> Option<(int, int, Seq<char>)> {
    if !timestamp_at(q, 0) {
        None
    } else {
        let a = skip_ws(q, 11);
        if a == 11 || a >= q.len() || q[a] != '-' {
            None
        } else {
            let b = skip_ws(q, a + 1);
            if b == a + 1 || !timestamp_at(q, b) {
                None
            } else {
                let c = skip_ws(q, b + 11);
                if c == b + 11 || c >= q.len() {
                    None
                } else {
                    Some((timestamp_ms(q, 0), timestamp_ms(q, b), q.subrange(c, q.len() as int)))
                }
            }
        }
    }
}

/// Position of the newline that ends the line starting at `i`, or the end
/// of the text.
pub open spec fn line_end(q: Seq<char>, i: int) -> int
    decreases q.len() - i,
{
    if i < q.len() && q[i] != '\n' {
        line_end(q, i + 1)
    } else {
        i
    }
}

/// `line_end` stays between its start and the end of the sequence.
pub proof fn lemma_line_end_bounds(q: Seq<char>, i: int)
    requires
        0 <= i <= q.len(),
    ensures
        i <= line_end(q, i) <= q.len(),
    decreases q.len() - i,
{
    if i < q.len() && q[i] != '\n' {
        lemma_line_end_bounds(q, i + 1);
    }
}

/// The segments parsed from the lines of `q` from position `i` on, in
/// order, with unparsable lines skipped.
pub open spec fn parse_from(q: Seq<char>, i: int) -> Seq<(int, int, Seq<char>)>
    decreases q.len() - i,
    when 0 <= i <= q.len()
    via parse_from_decreases
{
    let e = line_end(q, i);
    let this_line = match parse_line(q.subrange(i, e)) {
        Some(t) => seq![t],
        None => Seq::empty(),
    };
    if e >= q.len() {
        this_line
    } else {
        this_line + parse_from(q, e + 1)
    }
}

#[via_fn]
proof fn parse_from_decreases(q: Seq<char>, i: int) {
    lemma_line_end_bounds(q, i);
}

/// Two-digit minutes, two-digit seconds and three-digit milliseconds
/// never encode more than 6039999 ms.
pub proof fn lemma_timestamp_ms_bounds(q: Seq<char>, i: int)
    requires
        timestamp_at(q, i),
    ensures
        0 <= timestamp_ms(q, i) <= 6039999,
{
    assert(0 <= digit_val(q[i + 1]) <= 9);
    assert(0 <= digit_val(q[i + 2]) <= 9);
    assert(0 <= digit_val(q[i + 4]) <= 9);
    assert(0 <= digit_val(q[i + 5]) <= 9);
    assert(0 <= digit_val(q[i + 7]) <= 9);
    assert(0 <= digit_val(q[i + 8]) <= 9);
    assert(0 <= digit_val(q[i + 9]) <= 9);
}

/// Whether a parsed tuple's offsets are valid millisecond counts.
pub open spec fn valid_offsets(t: (int, int, Seq<char>)) -> bool {
    0 <= t.0 <= 6039999 && 0 <= t.1 <= 6039999
}

/// Every offset a line parses to is a valid millisecond count.
pub proof fn lemma_parse_line_bounds(q: Seq<char>)
    ensures
        parse_line(q) is Some ==> valid_offsets(parse_line(q)->0),
{
    if parse_line(q) is Some {
        let a = skip_ws(q, 11);
        let b = skip_ws(q, a + 1);
        lemma_timestamp_ms_bounds(q, 0);
        lemma_timestamp_ms_bounds(q, b);
    }
}

/// Every offset in a parsed transcript is a valid millisecond count.
pub proof fn lemma_parse_from_bounds(q: Seq<char>, i: int)
    requires
        0 <= i <= q.len(),
    ensures
        forall|j: int|
            0 <= j < parse_from(q, i).len() ==> valid_offsets(#[trigger] parse_from(q, i)[j]),
    decreases q.len() - i,
{
    lemma_line_end_bounds(q, i);
    let e = line_end(q, i);
    lemma_parse_line_bounds(q.subrange(i, e));
    if e < q.len() {
        lemma_parse_from_bounds(q, e + 1);
    }
    let r = parse_from(q, i);
    let rest = if e >= q.len() {
        Seq::<(int, int, Seq<char>)>::empty()
    } else {
        parse_from(q, e + 1)
    };
    assert forall|j: int| 0 <= j < r.len() implies valid_offsets(#[trigger] r[j]) by {
        match parse_line(q.subrange(i, e)) {
            Some(t) => {
                if j == 0 {
                    assert(r[j] == t);
                } else {
                    assert(r[j] == rest[j - 1]);
                }
            },
            None => {
                assert(r[j] == rest[j]);
            },
        }
    }
}

/// An ASCII decimal digit.
fn is_digit_exec(c: char) -> (r: bool)
    ensures
        r == is_digit(c),
{
    let u = c as u32;
    48 <= u && u <= 57
}

/// Whitespace inside a line.
fn is_ws_exec(c: char) -> (r: bool)
    ensures
        r == is_ws(c),
{
    c == ' ' || c == '\t' || c == '\r'
}

/// Whether a `[MM:SS.mmm]` timestamp stands at position `i` of the line
/// `s[ls..le]`.
fn timestamp_at_exec(s: &str, ls: usize, le: usize, i: usize) -> (r: bool)
    requires
        ls <= le <= s@.len(),
    ensures
        r == timestamp_at(s@.subrange(ls as int, le as int), i as int),
{
    let ghost line = s@.subrange(ls as int, le as int);
    let line_len = le - ls;
    if i > line_len || line_len - i < 11 {
        return false;
    }
    assert(forall|k: int| 0 <= k < line.len() ==> line[k] == s@[ls + k]);
    let r = s.get_char(ls + i) == '[' && is_digit_exec(s.get_char(ls + i + 1)) && is_digit_exec(
        s.get_char(ls + i + 2),
    ) && s.get_char(ls + i + 3) == ':' && is_digit_exec(s.get_char(ls + i + 4)) && is_digit_exec(
        s.get_char(ls + i + 5),
    ) && s.get_char(ls + i + 6) == '.' && is_digit_exec(s.get_char(ls + i + 7)) && is_digit_exec(
        s.get_char(ls + i + 8),
    ) && is_digit_exec(s.get_char(ls + i + 9)) && s.get_char(ls + i + 10) == ']';
    r
}

/// Milliseconds encoded by the timestamp at position `i` of the line
/// `s[ls..le]`.
fn timestamp_value_exec(s: &str, ls: usize, le: usize, i: usize) -> (v: i64)
    requires
        ls <= le <= s@.len(),
        timestamp_at(s@.subrange(ls as int, le as int), i as int),
    ensures
        v == timestamp_ms(s@.subrange(ls as int, le as int), i as int),
        0 <= v <= 6039999,
{
    let ghost line = s@.subrange(ls as int, le as int);
    assert(forall|k: int| 0 <= k < line.len() ==> line[k] == s@[ls + k]);
    let d_min_hi = s.get_char(ls + i + 1) as u32 - 48;
    let d_min_lo = s.get_char(ls + i + 2) as u32 - 48;
    let d_sec_hi = s.get_char(ls + i + 4) as u32 - 48;
    let d_sec_lo = s.get_char(ls + i + 5) as u32 - 48;
    let d_ms_hi = s.get_char(ls + i + 7) as u32 - 48;
    let d_ms_mid = s.get_char(ls + i + 8) as u32 - 48;
    let d_ms_lo = s.get_char(ls + i + 9) as u32 - 48;
    let minutes = 10 * d_min_hi + d_min_lo;
    let seconds = 10 * d_sec_hi + d_sec_lo;
    let millis = 100 * d_ms_hi + 10 * d_ms_mid + d_ms_lo;
    let v: u32 = minutes * 60000 + seconds * 1000 + millis;
    v as i64
}

/// First position at or after `i` of the line `s[ls..le]` that is not
/// whitespace.
fn skip_ws_exec(s: &str, ls: usize, le: usize, i: usize) -> (r: usize)
    requires
        ls <= le <= s@.len(),
        i <= le - ls,
    ensures
        r == skip_ws(s@.subrange(ls as int, le as int), i as int),
        i <= r <= le - ls,
{
    let ghost line = s@.subrange(ls as int, le as int);
    assert(forall|k: int| 0 <= k < line.len() ==> line[k] == s@[ls + k]);
    let line_len = le - ls;
    let mut k = i;
    while k < line_len && is_ws_exec(s.get_char(ls + k))
        invariant
            ls <= le <= s@.len(),
            line == s@.subrange(ls as int, le as int),
            line_len == le - ls,
            i <= k <= line_len,
            skip_ws(line, k as int) == skip_ws(line, i as int),
        decreases line_len - k,
    {
        assert(is_ws(line[k as int]));
        k = k + 1;
    }
    assert(skip_ws(line, k as int) == k);
    k
}

/// Parse one line `s[ls..le]` of the transcript; `None` when the line does
/// not match the grammar.
fn parse_line_exec(s: &str, ls: usize, le: usize) -> (r: Option<TranscriptionSegment>)
    requires
        ls <= le <= s@.len(),
    ensures
        match r {
            Some(t) => parse_line(s@.subrange(ls as int, le as int)) == Some(seg_tuple(t)),
            None => parse_line(s@.subrange(ls as int, le as int)) is None,
        },
{
    let ghost line = s@.subrange(ls as int, le as int);
    assert(forall|k: int| 0 <= k < line.len() ==> line[k] == s@[ls + k]);
    let line_len = le - ls;

    if !timestamp_at_exec(s, ls, le, 0) {
        return None;
    }
    let start_ms = timestamp_value_exec(s, ls, le, 0);

    let a = skip_ws_exec(s, ls, le, 11);
    if a == 11 || a >= line_len {
        return None;
    }
    if !(s.get_char(ls + a) == '-') {
        return None;
    }

    let b = skip_ws_exec(s, ls, le, a + 1);
    if b == a + 1 {
        return None;
    }
    if !timestamp_at_exec(s, ls, le, b) {
        return None;
    }
    let end_ms = timestamp_value_exec(s, ls, le, b);

    let c = skip_ws_exec(s, ls, le, b + 11);
    if c == b + 11 || c >= line_len {
        return None;
    }

    let text = s.substring_char(ls + c, le).to_owned();
    assert(text@ == line.subrange(c as int, line.len() as int));
    Some(TranscriptionSegment { start_ms, end_ms, text })
}

/// Parse a whole transcript into its timed segments: each line is held to
/// the `[MM:SS.mmm] - [MM:SS.mmm] text` grammar, in order, and lines that
/// do not match are skipped.
pub fn parse_transcript_to_segments(transcript: &str) -> (segments: Vec<TranscriptionSegment>)
    ensures
        seg_tuples(segments@) == parse_from(transcript@, 0),
{
    let ghost q = transcript@;
    let n = transcript.unicode_len();
    let mut out: Vec<TranscriptionSegment> = Vec::new();
    let mut i: usize = 0;
    loop
        invariant_except_break
            n == q.len(),
            q == transcript@,
            0 <= i <= n,
            parse_from(q, 0) == seg_tuples(out@) + parse_from(q, i as int),
        ensures
            seg_tuples(out@) == parse_from(q, 0),
        decreases n - i,
    {
        let mut e = i;
        while e < n && !(transcript.get_char(e) == '\n')
            invariant
                n == q.len(),
                q == transcript@,
                i <= e <= n,
                line_end(q, e as int) == line_end(q, i as int),
            decreases n - e,
        {
            e = e + 1;
        }
        assert(line_end(q, e as int) == e);
        proof {
            lemma_line_end_bounds(q, i as int);
        }

        let parsed = parse_line_exec(transcript, i, e);
        let ghost before = out@;
        match parsed {
            Some(t) => {
                out.push(t);
            },
            None => {},
        }
        proof {
            match parse_line(q.subrange(i as int, e as int)) {
                Some(tup) => {
                    assert(seg_tuples(out@) =~= seg_tuples(before) + seq![tup]);
                },
                None => {
                    assert(seg_tuples(out@) =~= seg_tuples(before) + Seq::empty());
                },
            }
        }
        if e == n {
            proof {
                assert(parse_from(q, i as int) == match parse_line(
                    q.subrange(i as int, e as int),
                ) {
                    Some(t) => seq![t],
                    None => Seq::empty(),
                });
            }
            break;
        }
        i = e + 1;
    }
    out
}

} // verus!
