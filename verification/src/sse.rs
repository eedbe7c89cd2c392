//! The Server-Sent-Events machinery shared by the streaming decoders:
//! delimiting frames in a growing text buffer, parsing a frame's `event:`
//! and `data:` fields into an event, and the helper text operations the
//! classifiers use.
//!
//! An SSE stream is a sequence of frames separated by blank lines: the
//! delimiter is the earliest occurrence of either `"\r\n\r\n"` or `"\n\n"`,
//! with an exact tie broken toward `"\r\n\r\n"`. Because the transport may
//! cut the byte stream anywhere, the central fact proved here is
//! [`lemma_chunk_boundary_independence`]: however the incoming text is split
//! into pieces, extracting events piece by piece yields exactly the events of
//! the whole.

use vstd::prelude::*;

verus! {

/// The pattern `pat` occurs in `s` at position `i`.
pub open spec fn matches_at(s: Seq<char>, pat: Seq<char>, i: int) -> bool {
    0 <= i && i + pat.len() <= s.len() && s.subrange(i, i + pat.len() as int) == pat
}

/// Position of the first occurrence of `pat` in `s`, scanning from `i`.
pub open spec fn spec_find_from(s: Seq<char>, pat: Seq<char>, i: int) -> Option<int>
    decreases s.len() - i + 1,
{
    if i < 0 || i + pat.len() > s.len() {
        None
    } else if s.subrange(i, i + pat.len() as int) == pat {
        Some(i)
    } else {
        spec_find_from(s, pat, i + 1)
    }
}

/// Position of the first occurrence of `pat` in `s`.
pub open spec fn spec_find(s: Seq<char>, pat: Seq<char>) -> Option<int> {
    spec_find_from(s, pat, 0)
}

/// First occurrence of a pattern in a text, by character positions.
pub fn find_pattern(s: &str, pat: &str) -> (r: Option<usize>)
    ensures
        match r {
            Some(i) => spec_find(s@, pat@) == Some(i as int),
            None => spec_find(s@, pat@) is None,
        },
{
    let n: usize = s.unicode_len();
    let m: usize = pat.unicode_len();
    if m == 0 {
        assert(s@.subrange(0, 0) =~= pat@);
        return Some(0);
    }
    if m > n {
        assert(spec_find_from(s@, pat@, 0) is None);
        return None;
    }
    let mut i: usize = 0;
    while i <= n - m
        invariant
            0 < m <= n,
            n == s@.len(),
            m == pat@.len(),
            0 <= i <= n - m + 1,
            spec_find(s@, pat@) == spec_find_from(s@, pat@, i as int),
        decreases n - m + 1 - i,
    {
        let mut j: usize = 0;
        let mut all_eq = true;
        assert(s@.subrange(i as int, i as int) =~= pat@.subrange(0, 0));
        while j < m
            invariant
                0 < m <= n,
                n == s@.len(),
                m == pat@.len(),
                0 <= i <= n - m,
                0 <= j <= m,
                all_eq <==> s@.subrange(i as int, i + j) == pat@.subrange(0, j as int),
            decreases m - j,
        {
            proof {
                assert(s@.subrange(i as int, i + j + 1).drop_last() == s@.subrange(
                    i as int,
                    i + j,
                ));
                assert(pat@.subrange(0, j + 1).drop_last() == pat@.subrange(0, j as int));
            }
            if s.get_char(i + j) != pat.get_char(j) {
                assert(s@.subrange(i as int, i + j + 1).last() == s@[i + j]);
                assert(pat@.subrange(0, j + 1).last() == pat@[j as int]);
                all_eq = false;
            } else {
                proof {
                    if all_eq {
                        assert(s@.subrange(i as int, i + j + 1) =~= pat@.subrange(0, j + 1));
                    } else {
                        assert(s@.subrange(i as int, i + j) != pat@.subrange(0, j as int));
                        assert(s@.subrange(i as int, i + j + 1).drop_last() != pat@.subrange(
                            0,
                            j + 1,
                        ).drop_last());
                    }
                }
            }
            j = j + 1;
        }
        proof {
            assert(pat@.subrange(0, m as int) =~= pat@);
        }
        if all_eq {
            assert(s@.subrange(i as int, i + m) =~= pat@);
            return Some(i);
        }
        assert(s@.subrange(i as int, i + m) != pat@);
        i = i + 1;
    }
    assert(spec_find_from(s@, pat@, i as int) is None);
    None
}

/// A `Some` result of `spec_find_from` is the first match at or after `i`.
pub proof fn lemma_find_some(s: Seq<char>, pat: Seq<char>, i: int, k: int)
    requires
        spec_find_from(s, pat, i) == Some(k),
    ensures
        matches_at(s, pat, k),
        i <= k,
        forall|j: int| i <= j < k ==> !matches_at(s, pat, j),
    decreases s.len() - i + 1,
{
    if !(i < 0 || i + pat.len() > s.len()) && s.subrange(i, i + pat.len() as int) != pat {
        lemma_find_some(s, pat, i + 1, k);
    }
}

/// A `None` result of `spec_find_from` means no match at or after `i`.
pub proof fn lemma_find_none(s: Seq<char>, pat: Seq<char>, i: int)
    requires
        0 <= i,
        spec_find_from(s, pat, i) is None,
    ensures
        forall|j: int| j >= i ==> !matches_at(s, pat, j),
    decreases s.len() - i + 1,
{
    if i + pat.len() <= s.len() {
        lemma_find_none(s, pat, i + 1);
    }
}

/// The blank-line delimiter that uses carriage returns.
pub open spec fn delim_crlf() -> Seq<char> {
    seq!['\r', '\n', '\r', '\n']
}

/// The plain blank-line delimiter.
pub open spec fn delim_lf() -> Seq<char> {
    seq!['\n', '\n']
}

/// Position and length of the frame delimiter chosen in `s`: the earliest
/// occurrence of `"\r\n\r\n"` or `"\n\n"`, ties broken toward `"\r\n\r\n"`.
pub open spec fn spec_delimiter(s: Seq<char>) -> Option<(int, int)> {
    match (spec_find(s, delim_crlf()), spec_find(s, delim_lf())) {
        (Some(r), Some(n)) => if r <= n {
            Some((r, 4))
        } else {
            Some((n, 2))
        },
        (Some(r), None) => Some((r, 4)),
        (None, Some(n)) => Some((n, 2)),
        (None, None) => None,
    }
}

/// A chosen delimiter lies inside the buffer and has length 2 or 4.
pub proof fn lemma_delimiter_bounds(s: Seq<char>)
    ensures
        spec_delimiter(s) matches Some(d) ==> 0 <= d.0 && (d.1 == 2 || d.1 == 4) && d.0 + d.1
            <= s.len(),
{
    if let Some(r) = spec_find(s, delim_crlf()) {
        lemma_find_some(s, delim_crlf(), 0, r);
    }
    if let Some(n) = spec_find(s, delim_lf()) {
        lemma_find_some(s, delim_lf(), 0, n);
    }
}

/// Locate the earliest frame delimiter in the buffer: the index of the first
/// `"\r\n\r\n"` or `"\n\n"`, whichever starts earlier (`"\r\n\r\n"` on an
/// exact tie), together with the delimiter's length.
pub fn find_event_delimiter(buffer: &str) -> (r: Option<(usize, usize)>)
    ensures
        match r {
            Some(d) => spec_delimiter(buffer@) == Some((d.0 as int, d.1 as int)) && d.0 + d.1
                <= buffer@.len(),
            None => spec_delimiter(buffer@) is None,
        },
{
    proof {
        reveal_strlit("\r\n\r\n");
        reveal_strlit("\n\n");
        assert("\r\n\r\n"@ =~= delim_crlf());
        assert("\n\n"@ =~= delim_lf());
        lemma_delimiter_bounds(buffer@);
    }
    let carriage_idx = find_pattern(buffer, "\r\n\r\n");
    let newline_idx = find_pattern(buffer, "\n\n");

    match (carriage_idx, newline_idx) {
        (Some(r_idx), Some(n_idx)) => {
            if r_idx <= n_idx {
                Some((r_idx, 4))
            } else {
                Some((n_idx, 2))
            }
        },
        (Some(r_idx), None) => Some((r_idx, 4)),
        (None, Some(n_idx)) => Some((n_idx, 2)),
        (None, None) => None,
    }
}

/// Split off the earliest complete frame: the text before the chosen
/// delimiter, and the buffer contents past it.
pub open spec fn spec_frame_split(s: Seq<char>) -> Option<(Seq<char>, Seq<char>)> {
    match spec_delimiter(s) {
        Some(d) => Some((s.subrange(0, d.0), s.subrange(d.0 + d.1, s.len() as int))),
        None => None,
    }
}

/// Splitting off a frame consumes at least the two delimiter characters.
pub proof fn lemma_frame_split_shrinks(s: Seq<char>)
    ensures
        spec_frame_split(s) matches Some(p) ==> p.1.len() + 2 <= s.len(),
{
    lemma_delimiter_bounds(s);
}

/// Remove the earliest complete frame from the front of the buffer and
/// return it, or return `None` and leave the buffer unchanged when no
/// complete frame has arrived yet.
pub fn next_frame(buffer: &mut String) -> (r: Option<String>)
    ensures
        match spec_frame_split(old(buffer)@) {
            Some(p) => r matches Some(f) && f@ == p.0 && final (buffer)@ == p.1,
            None => r is None && final (buffer)@ == old(buffer)@,
        },
{
    match find_event_delimiter(buffer.as_str()) {
        Some((idx, delimiter_len)) => {
            let s = buffer.as_str();
            let n = s.unicode_len();
            let frame = String::from_str(s.substring_char(0, idx));
            let rest = String::from_str(s.substring_char(idx + delimiter_len, n));
            *buffer = rest;
            Some(frame)
        },
        None => None,
    }
}

/// The characters that count as whitespace when a field value is trimmed,
/// following Unicode's `White_Space` property.
pub open spec fn is_white_space(c: char) -> bool {
    let u = c as u32;
    u == 0x09 || u == 0x0A || u == 0x0B || u == 0x0C || u == 0x0D || u == 0x20 || u == 0x85 || u
        == 0xA0 || u == 0x1680 || (0x2000 <= u && u <= 0x200A) || u == 0x2028 || u == 0x2029 || u
        == 0x202F || u == 0x205F || u == 0x3000
}

/// Whether `c` counts as whitespace for trimming.
pub fn is_white_space_char(c: char) -> (r: bool)
    ensures
        r == is_white_space(c),
{
    let u = c as u32;
    u == 0x09 || u == 0x0A || u == 0x0B || u == 0x0C || u == 0x0D || u == 0x20 || u == 0x85 || u
        == 0xA0 || u == 0x1680 || (0x2000 <= u && u <= 0x200A) || u == 0x2028 || u == 0x2029 || u
        == 0x202F || u == 0x205F || u == 0x3000
}

/// `s` without its leading whitespace.
pub open spec fn spec_trim_start(s: Seq<char>) -> Seq<char>
    decreases s.len(),
{
    if s.len() > 0 && is_white_space(s[0]) {
        spec_trim_start(s.subrange(1, s.len() as int))
    } else {
        s
    }
}

/// `s` without its trailing whitespace.
pub open spec fn spec_trim_end(s: Seq<char>) -> Seq<char>
    decreases s.len(),
{
    if s.len() > 0 && is_white_space(s.last()) {
        spec_trim_end(s.drop_last())
    } else {
        s
    }
}

/// `s` without leading and trailing whitespace.
pub open spec fn spec_trim(s: Seq<char>) -> Seq<char> {
    spec_trim_end(spec_trim_start(s))
}

/// Copy of `s` with leading and trailing whitespace removed.
pub fn trim_str(s: &str) -> (r: String)
    ensures
        r@ == spec_trim(s@),
{
    let n: usize = s.unicode_len();
    proof {
        assert(s@.subrange(0, n as int) =~= s@);
    }
    let mut a: usize = 0;
    while a < n && is_white_space_char(s.get_char(a))
        invariant
            0 <= a <= n,
            n == s@.len(),
            spec_trim_start(s@) == spec_trim_start(s@.subrange(a as int, n as int)),
        decreases n - a,
    {
        proof {
            assert(s@.subrange(a as int, n as int).subrange(1, n - a) =~= s@.subrange(
                a + 1,
                n as int,
            ));
        }
        a = a + 1;
    }
    proof {
        assert(spec_trim_start(s@) == s@.subrange(a as int, n as int));
    }
    let mut b: usize = n;
    while b > a && is_white_space_char(s.get_char(b - 1))
        invariant
            0 <= a <= b <= n,
            n == s@.len(),
            spec_trim_start(s@) == s@.subrange(a as int, n as int),
            spec_trim_end(s@.subrange(a as int, n as int)) == spec_trim_end(
                s@.subrange(a as int, b as int),
            ),
        decreases b,
    {
        proof {
            assert(s@.subrange(a as int, b as int).drop_last() =~= s@.subrange(
                a as int,
                b - 1,
            ));
        }
        b = b - 1;
    }
    proof {
        assert(spec_trim_end(s@.subrange(a as int, b as int)) == s@.subrange(
            a as int,
            b as int,
        ));
    }
    String::from_str(s.substring_char(a, b))
}

/// Copy of `s` with every two-character sequence `\` `n` replaced by a
/// newline, scanning left to right without overlap.
pub open spec fn spec_unescape_newlines(s: Seq<char>) -> Seq<char>
    decreases s.len(),
{
    if s.len() >= 2 && s[0] == '\\' && s[1] == 'n' {
        seq!['\n'] + spec_unescape_newlines(s.subrange(2, s.len() as int))
    } else if s.len() == 0 {
        s
    } else {
        seq![s[0]] + spec_unescape_newlines(s.subrange(1, s.len() as int))
    }
}

/// Replace each literal two-character escape `\` `n` with a real newline.
pub fn unescape_newlines(s: &str) -> (r: String)
    ensures
        r@ == spec_unescape_newlines(s@),
{
    let n: usize = s.unicode_len();
    let mut out = String::new();
    proof {
        assert(s@.subrange(0, n as int) =~= s@);
        assert(out@ + spec_unescape_newlines(s@) =~= spec_unescape_newlines(s@));
    }
    let mut i: usize = 0;
    while i < n
        invariant
            0 <= i <= n,
            n == s@.len(),
            spec_unescape_newlines(s@) == out@ + spec_unescape_newlines(
                s@.subrange(i as int, n as int),
            ),
        decreases n - i,
    {
        let c = s.get_char(i);
        if c == '\\' && i + 1 < n && s.get_char(i + 1) == 'n' {
            proof {
                reveal_strlit("\n");
                assert("\n"@ =~= seq!['\n']);
                assert(s@.subrange(i as int, n as int).subrange(2, n - i) =~= s@.subrange(
                    i + 2,
                    n as int,
                ));
                assert(s@.subrange(i as int, n as int)[0] == s@[i as int]);
                assert(s@.subrange(i as int, n as int)[1] == s@[i + 1]);
            }
            out.append("\n");
            i = i + 2;
        } else {
            proof {
                assert(s@.subrange(i as int, n as int).subrange(1, n - i) =~= s@.subrange(
                    i + 1,
                    n as int,
                ));
                assert(s@.subrange(i as int, n as int)[0] == s@[i as int]);
                assert(s@.subrange(i as int, i + 1) =~= seq![s@[i as int]]);
            }
            out.append(s.substring_char(i, i + 1));
            i = i + 1;
        }
    }
    proof {
        assert(spec_unescape_newlines(s@.subrange(n as int, n as int)) =~= Seq::<
            char,
        >::empty());
        assert(out@ + Seq::<char>::empty() =~= out@);
    }
    out
}

/// The frame's text split at every newline character.
pub open spec fn spec_split_lines(s: Seq<char>) -> Seq<Seq<char>>
    decreases s.len(),
    via spec_split_lines_decreases
{
    match spec_find(s, seq!['\n']) {
        Some(i) => seq![s.subrange(0, i)] + spec_split_lines(s.subrange(i + 1, s.len() as int)),
        None => seq![s],
    }
}

#[via_fn]
proof fn spec_split_lines_decreases(s: Seq<char>) {
    if let Some(i) = spec_find(s, seq!['\n']) {
        lemma_find_some(s, seq!['\n'], 0, i);
    }
}

/// A line with one trailing carriage return removed.
pub open spec fn strip_cr(l: Seq<char>) -> Seq<char> {
    if l.len() > 0 && l.last() == '\r' {
        l.drop_last()
    } else {
        l
    }
}

/// The `data` field prefix.
pub open spec fn key_data() -> Seq<char> {
    seq!['d', 'a', 't', 'a', ':']
}

/// The `event` field prefix.
pub open spec fn key_event() -> Seq<char> {
    seq!['e', 'v', 'e', 'n', 't', ':']
}

/// The value of a `key`-prefixed line: what follows the prefix, less one
/// directly following space; `None` when the line does not carry the key.
pub open spec fn field_value(l: Seq<char>, key: Seq<char>) -> Option<Seq<char>> {
    if l.len() >= key.len() && l.subrange(0, key.len() as int) == key {
        let rest = l.subrange(key.len() as int, l.len() as int);
        if rest.len() > 0 && rest[0] == ' ' {
            Some(rest.subrange(1, rest.len() as int))
        } else {
            Some(rest)
        }
    } else {
        None
    }
}

/// The event name set by one line, if any: the line's `event:` value,
/// trimmed, when that is non-empty.
pub open spec fn line_event_name(l: Seq<char>) -> Option<Seq<char>> {
    match field_value(strip_cr(l), key_event()) {
        Some(v) => {
            let t = spec_trim(v);
            if t.len() > 0 {
                Some(t)
            } else {
                None
            }
        },
        None => None,
    }
}

/// The data contributed by one line, if any: the line's `data:` value, when
/// that is non-empty.
pub open spec fn line_data_content(l: Seq<char>) -> Option<Seq<char>> {
    match field_value(strip_cr(l), key_data()) {
        Some(v) => if v.len() > 0 {
            Some(v)
        } else {
            None
        },
        None => None,
    }
}

/// The frame's event name: set by the last line that carries one.
pub open spec fn spec_event_name(lines: Seq<Seq<char>>) -> Option<Seq<char>>
    decreases lines.len(),
{
    if lines.len() == 0 {
        None
    } else {
        match line_event_name(lines.last()) {
            Some(n) => Some(n),
            None => spec_event_name(lines.drop_last()),
        }
    }
}

/// The non-empty `data:` contents of the frame's lines, in order.
pub open spec fn spec_data_pieces(lines: Seq<Seq<char>>) -> Seq<Seq<char>>
    decreases lines.len(),
{
    if lines.len() == 0 {
        Seq::empty()
    } else {
        let pre = spec_data_pieces(lines.drop_last());
        match line_data_content(lines.last()) {
            Some(c) => pre.push(c),
            None => pre,
        }
    }
}

/// The pieces joined with a newline between each two.
pub open spec fn spec_join_newlines(pieces: Seq<Seq<char>>) -> Seq<char>
    decreases pieces.len(),
{
    if pieces.len() == 0 {
        Seq::empty()
    } else if pieces.len() == 1 {
        pieces[0]
    } else {
        spec_join_newlines(pieces.drop_last()) + seq!['\n'] + pieces.last()
    }
}

/// One parsed frame: an optional event name and the reassembled data payload.
pub struct SseEvent {
    /// Set by the last `event:` line whose trimmed value is non-empty.
    pub name: Option<String>,
    /// The non-empty `data:` line values, joined with newlines.
    pub data: String,
}

/// What one frame parses to: `None` when no line contributes data (the frame
/// is a comment or keep-alive), else the event name and the joined payload.
pub open spec fn spec_parse_frame(f: Seq<char>) -> Option<(Option<Seq<char>>, Seq<char>)> {
    let lines = spec_split_lines(f);
    let data = spec_join_newlines(spec_data_pieces(lines));
    if data.len() == 0 {
        None
    } else {
        Some((spec_event_name(lines), data))
    }
}

/// Whether `s` starts with `pre`, by characters.
pub fn str_starts_with(s: &str, pre: &str) -> (r: bool)
    ensures
        r == (s@.len() >= pre@.len() && s@.subrange(0, pre@.len() as int) == pre@),
{
    let n: usize = s.unicode_len();
    let m: usize = pre.unicode_len();
    if m > n {
        return false;
    }
    let mut j: usize = 0;
    proof {
        assert(s@.subrange(0, 0) =~= pre@.subrange(0, 0));
    }
    while j < m
        invariant
            m <= n,
            n == s@.len(),
            m == pre@.len(),
            0 <= j <= m,
            s@.subrange(0, j as int) == pre@.subrange(0, j as int),
        decreases m - j,
    {
        proof {
            assert(s@.subrange(0, j + 1).drop_last() == s@.subrange(0, j as int));
            assert(pre@.subrange(0, j + 1).drop_last() == pre@.subrange(0, j as int));
            assert(s@.subrange(0, j + 1).last() == s@[j as int]);
            assert(pre@.subrange(0, j + 1).last() == pre@[j as int]);
        }
        if s.get_char(j) != pre.get_char(j) {
            assert(s@.subrange(0, pre@.len() as int)[j as int] == s@[j as int]);
            return false;
        }
        assert(s@.subrange(0, j + 1) =~= pre@.subrange(0, j + 1));
        j = j + 1;
    }
    proof {
        assert(pre@.subrange(0, m as int) =~= pre@);
    }
    true
}

/// The exec counterpart of `field_value`, on a line already stripped of its
/// trailing carriage return.
fn field_value_str(l: &str, key: &str) -> (r: Option<String>)
    ensures
        r matches Some(v) ==> field_value(l@, key@) == Some(v@),
        r is None ==> field_value(l@, key@) is None,
{
    if !str_starts_with(l, key) {
        return None;
    }
    let n: usize = l.unicode_len();
    let m: usize = key.unicode_len();
    let ghost rest = l@.subrange(m as int, n as int);
    if m < n && l.get_char(m) == ' ' {
        proof {
            assert(rest[0] == l@[m as int]);
            assert(rest.subrange(1, rest.len() as int) =~= l@.subrange(m + 1, n as int));
        }
        Some(String::from_str(l.substring_char(m + 1, n)))
    } else {
        proof {
            if rest.len() > 0 {
                assert(rest[0] == l@[m as int]);
            }
        }
        Some(String::from_str(l.substring_char(m, n)))
    }
}

/// One line's event name, per `line_event_name`.
fn line_event_name_str(line: &str) -> (r: Option<String>)
    ensures
        r matches Some(v) ==> line_event_name(line@) == Some(v@),
        r is None ==> line_event_name(line@) is None,
{
    let stripped = strip_cr_str(line);
    proof {
        reveal_strlit("event:");
        assert("event:"@ =~= key_event());
    }
    match field_value_str(stripped.as_str(), "event:") {
        Some(v) => {
            let t = trim_str(v.as_str());
            if t.as_str().unicode_len() > 0 {
                Some(t)
            } else {
                None
            }
        },
        None => None,
    }
}

/// One line's data contribution, per `line_data_content`.
fn line_data_content_str(line: &str) -> (r: Option<String>)
    ensures
        r matches Some(v) ==> line_data_content(line@) == Some(v@),
        r is None ==> line_data_content(line@) is None,
{
    let stripped = strip_cr_str(line);
    proof {
        reveal_strlit("data:");
        assert("data:"@ =~= key_data());
    }
    match field_value_str(stripped.as_str(), "data:") {
        Some(v) => {
            if v.as_str().unicode_len() > 0 {
                Some(v)
            } else {
                None
            }
        },
        None => None,
    }
}

/// Copy of the line with one trailing carriage return removed.
fn strip_cr_str(line: &str) -> (r: String)
    ensures
        r@ == strip_cr(line@),
{
    let n: usize = line.unicode_len();
    if n > 0 && line.get_char(n - 1) == '\r' {
        proof {
            assert(line@.subrange(0, n - 1) =~= line@.drop_last());
        }
        String::from_str(line.substring_char(0, n - 1))
    } else {
        proof {
            assert(line@.subrange(0, n as int) =~= line@);
        }
        String::from_str(line.substring_char(0, n))
    }
}

/// Parse one frame into an event: scan its lines for `event:` and `data:`
/// fields; a frame without data produces no event.
pub fn parse_frame(frame: &str) -> (r: Option<SseEvent>)
    ensures
        r is Some <==> spec_parse_frame(frame@) is Some,
        r matches Some(ev) ==> spec_parse_frame(frame@) == Some(
            (ev.name.deep_view(), ev.data@),
        ),
{
    let n: usize = frame.unicode_len();
    let mut pos: usize = 0;
    let mut name: Option<String> = None;
    let mut data = String::new();
    let ghost mut lines_done: Seq<Seq<char>> = Seq::empty();
    let mut finished = false;
    proof {
        assert(frame@.subrange(0, n as int) =~= frame@);
        assert(Seq::<Seq<char>>::empty() + spec_split_lines(frame@) =~= spec_split_lines(
            frame@,
        ));
        reveal_strlit("\n");
        assert("\n"@ =~= seq!['\n']);
    }
    while !finished
        invariant
            0 <= pos <= n,
            n == frame@.len(),
            spec_split_lines(frame@) == if finished {
                lines_done
            } else {
                lines_done + spec_split_lines(frame@.subrange(pos as int, n as int))
            },
            name.deep_view() == spec_event_name(lines_done),
            data@ == spec_join_newlines(spec_data_pieces(lines_done)),
            data@.len() == 0 <==> spec_data_pieces(lines_done).len() == 0,
        decreases n - pos + 1, (if finished { 0int } else { 1int }),
    {
        proof {
            reveal_strlit("\n");
            assert("\n"@ =~= seq!['\n']);
        }
        let rest = frame.substring_char(pos, n);
        let ghost rest_view = rest@;
        let found = find_pattern(rest, "\n");
        proof {
            if let Some(i) = found {
                lemma_find_some(rest_view, seq!['\n'], 0, i as int);
            }
        }
        let (line, next_pos, is_last) = match found {
            Some(i) => (rest.substring_char(0, i), pos + i + 1, false),
            None => (rest, n, true),
        };
        proof {
            if !is_last {
                let i = next_pos - pos - 1;
                assert(spec_split_lines(rest_view) == seq![rest_view.subrange(0, i as int)]
                    + spec_split_lines(rest_view.subrange(i + 1, rest_view.len() as int)));
                assert(rest_view.subrange(i + 1, rest_view.len() as int) =~= frame@.subrange(
                    next_pos as int,
                    n as int,
                ));
            } else {
                assert(spec_split_lines(rest_view) == seq![rest_view]);
            }
            assert(lines_done + (seq![line@] + spec_split_lines(
                frame@.subrange(next_pos as int, n as int),
            )) =~= (lines_done.push(line@)) + spec_split_lines(
                frame@.subrange(next_pos as int, n as int),
            ));
            assert(lines_done + seq![line@] =~= lines_done.push(line@));
            assert(lines_done.push(line@).drop_last() =~= lines_done);
            assert(lines_done.push(line@).last() == line@);
        }
        if let Some(nm) = line_event_name_str(line) {
            name = Some(nm);
        }
        if let Some(c) = line_data_content_str(line) {
            proof {
                let pieces = spec_data_pieces(lines_done);
                assert(pieces.push(c@).drop_last() =~= pieces);
                assert(pieces.push(c@).last() == c@);
                if pieces.len() == 0 {
                    assert(spec_join_newlines(pieces.push(c@)) == c@);
                    assert(data@ + c@ =~= c@);
                }
            }
            if data.as_str().unicode_len() == 0 {
                data.append(c.as_str());
            } else {
                data.append("\n");
                data.append(c.as_str());
            }
        }
        proof {
            lines_done = lines_done.push(line@);
        }
        pos = next_pos;
        if is_last {
            finished = true;
        }
    }
    if data.as_str().unicode_len() == 0 {
        None
    } else {
        Some(SseEvent { name, data })
    }
}

/// The next event a buffer yields under a classifier, with the buffer
/// contents left after it: frames are taken from the front; one that parses
/// to no event, or whose event the classifier drops, is consumed and skipped.
pub open spec fn spec_next_event<M>(
    s: Seq<char>,
    classify: spec_fn(Option<Seq<char>>, Seq<char>) -> Option<M>,
) -> (Option<M>, Seq<char>)
    decreases s.len(),
    via spec_next_event_decreases::<M>
{
    match spec_frame_split(s) {
        None => (None, s),
        Some(p) => match spec_parse_frame(p.0) {
            None => spec_next_event(p.1, classify),
            Some(ev) => match classify(ev.0, ev.1) {
                Some(m) => (Some(m), p.1),
                None => spec_next_event(p.1, classify),
            },
        },
    }
}

#[via_fn]
proof fn spec_next_event_decreases<M>(
    s: Seq<char>,
    classify: spec_fn(Option<Seq<char>>, Seq<char>) -> Option<M>,
) {
    lemma_frame_split_shrinks(s);
}

/// Extracting an event consumes at least one frame delimiter.
pub proof fn lemma_next_event_shrinks<M>(
    s: Seq<char>,
    classify: spec_fn(Option<Seq<char>>, Seq<char>) -> Option<M>,
)
    ensures
        spec_next_event(s, classify).0 is Some ==> spec_next_event(s, classify).1.len() < s.len(),
    decreases s.len(),
{
    lemma_frame_split_shrinks(s);
    if let Some(p) = spec_frame_split(s) {
        lemma_next_event_shrinks(p.1, classify);
    }
}

/// Every event a buffer yields under a classifier, in order, with the
/// unconsumed residue.
pub open spec fn spec_drain_events<M>(
    s: Seq<char>,
    classify: spec_fn(Option<Seq<char>>, Seq<char>) -> Option<M>,
) -> (Seq<M>, Seq<char>)
    decreases s.len(),
    via spec_drain_events_decreases::<M>
{
    match spec_next_event(s, classify) {
        (Some(m), rest) => {
            let tail = spec_drain_events(rest, classify);
            (seq![m] + tail.0, tail.1)
        },
        (None, rest) => (Seq::empty(), rest),
    }
}

#[via_fn]
proof fn spec_drain_events_decreases<M>(
    s: Seq<char>,
    classify: spec_fn(Option<Seq<char>>, Seq<char>) -> Option<M>,
) {
    lemma_next_event_shrinks(s, classify);
}

/// When no event comes out, every complete frame has been consumed: the
/// residue holds no delimiter.
pub proof fn lemma_next_event_residue<M>(
    s: Seq<char>,
    classify: spec_fn(Option<Seq<char>>, Seq<char>) -> Option<M>,
)
    requires
        spec_next_event(s, classify).0 is None,
    ensures
        spec_delimiter(spec_next_event(s, classify).1) is None,
    decreases s.len(),
{
    if let Some(p) = spec_frame_split(s) {
        lemma_frame_split_shrinks(s);
        lemma_next_event_residue(p.1, classify);
    }
}

/// The buffer left after draining holds only the unconsumed tail of an
/// incomplete frame: no delimiter, so no complete frame.
pub proof fn lemma_drain_residue_incomplete<M>(
    s: Seq<char>,
    classify: spec_fn(Option<Seq<char>>, Seq<char>) -> Option<M>,
)
    ensures
        spec_delimiter(spec_drain_events(s, classify).1) is None,
    decreases s.len(),
{
    let next = spec_next_event(s, classify);
    match next.0 {
        None => {
            lemma_next_event_residue(s, classify);
        },
        Some(m) => {
            lemma_next_event_shrinks(s, classify);
            lemma_drain_residue_incomplete(next.1, classify);
        },
    }
}

/// A first match found in `s` is still the first match after text is
/// appended to `s`.
pub proof fn lemma_find_prefix_stable(s: Seq<char>, t: Seq<char>, pat: Seq<char>, i: int, k: int)
    requires
        spec_find_from(s, pat, i) == Some(k),
    ensures
        spec_find_from(s + t, pat, i) == Some(k),
    decreases s.len() - i + 1,
{
    let u = s + t;
    if s.subrange(i, i + pat.len() as int) == pat {
        assert(u.subrange(i, i + pat.len() as int) =~= s.subrange(i, i + pat.len() as int));
    } else {
        assert(u.subrange(i, i + pat.len() as int) =~= s.subrange(i, i + pat.len() as int));
        lemma_find_prefix_stable(s, t, pat, i + 1, k);
    }
}

/// When `s` holds no match, any match after appending text must reach into
/// the appended part.
pub proof fn lemma_find_append_new(s: Seq<char>, t: Seq<char>, pat: Seq<char>, i: int)
    requires
        0 <= i,
        spec_find_from(s, pat, i) is None,
    ensures
        spec_find_from(s + t, pat, i) matches Some(k) ==> k + pat.len() > s.len(),
{
    let u = s + t;
    if let Some(k) = spec_find_from(u, pat, i) {
        lemma_find_some(u, pat, i, k);
        lemma_find_none(s, pat, i);
        if k + pat.len() <= s.len() {
            assert(s.subrange(k, k + pat.len() as int) =~= u.subrange(k, k + pat.len() as int));
            assert(matches_at(s, pat, k));
        }
    }
}

/// A delimiter chosen in the buffer keeps its place and kind when more text
/// arrives: appending can neither move the earliest delimiter nor flip the
/// tie between the two delimiter forms.
pub proof fn lemma_delimiter_append(s: Seq<char>, t: Seq<char>)
    requires
        spec_delimiter(s) is Some,
    ensures
        spec_delimiter(s + t) == spec_delimiter(s),
{
    let u = s + t;
    let rr = spec_find(s, delim_crlf());
    let nn = spec_find(s, delim_lf());
    if let Some(r) = rr {
        lemma_find_prefix_stable(s, t, delim_crlf(), 0, r);
        lemma_find_some(s, delim_crlf(), 0, r);
    } else {
        lemma_find_append_new(s, t, delim_crlf(), 0);
    }
    if let Some(n) = nn {
        lemma_find_prefix_stable(s, t, delim_lf(), 0, n);
        lemma_find_some(s, delim_lf(), 0, n);
    } else {
        lemma_find_append_new(s, t, delim_lf(), 0);
    }
    if rr is None && nn is Some {
        let n = nn.unwrap();
        if let Some(rp) = spec_find(u, delim_crlf()) {
            lemma_find_some(u, delim_crlf(), 0, rp);
            if rp <= n {
                let len = s.len() as int;
                assert(u.subrange(rp, rp + 4)[0] == u[rp]);
                assert(u.subrange(rp, rp + 4)[1] == u[rp + 1]);
                assert(u.subrange(rp, rp + 4)[2] == u[rp + 2]);
                assert(s.subrange(n, n + 2)[0] == s[n]);
                assert(s.subrange(n, n + 2)[1] == s[n + 1]);
                assert(u[rp] == '\r' && u[rp + 1] == '\n' && u[rp + 2] == '\r');
                assert(s[n] == '\n' && s[n + 1] == '\n');
                assert(rp + 4 > len);
                assert(n + 2 <= len);
                if rp == n {
                    assert(u[rp] == s[n]);
                    assert(false);
                } else {
                    assert(rp == len - 3 && n == len - 2);
                    assert(u[rp + 2] == s[n + 1]);
                    assert(false);
                }
            }
        }
    }
}

/// A complete frame at the front of the buffer is unchanged by appending
/// text, which lands past the delimiter.
pub proof fn lemma_frame_split_append(s: Seq<char>, t: Seq<char>)
    requires
        spec_frame_split(s) is Some,
    ensures
        spec_frame_split(s + t) == Some(
            (spec_frame_split(s).unwrap().0, spec_frame_split(s).unwrap().1 + t),
        ),
{
    let u = s + t;
    lemma_delimiter_append(s, t);
    lemma_delimiter_bounds(s);
    let d = spec_delimiter(s).unwrap();
    assert(u.subrange(0, d.0) =~= s.subrange(0, d.0));
    assert(u.subrange(d.0 + d.1, u.len() as int) =~= s.subrange(d.0 + d.1, s.len() as int) + t);
}

/// When a buffer yields an event, appending text changes neither the event
/// nor what precedes the appended text in the residue.
pub proof fn lemma_next_event_append<M>(
    s: Seq<char>,
    t: Seq<char>,
    classify: spec_fn(Option<Seq<char>>, Seq<char>) -> Option<M>,
)
    requires
        spec_next_event(s, classify).0 is Some,
    ensures
        spec_next_event(s + t, classify) == (
            spec_next_event(s, classify).0,
            spec_next_event(s, classify).1 + t,
        ),
    decreases s.len(),
{
    lemma_frame_split_shrinks(s);
    let p = spec_frame_split(s).unwrap();
    lemma_frame_split_append(s, t);
    match spec_parse_frame(p.0) {
        None => {
            lemma_next_event_append(p.1, t, classify);
        },
        Some(ev) => {
            if classify(ev.0, ev.1) is None {
                lemma_next_event_append(p.1, t, classify);
            }
        },
    }
}

/// When a buffer yields no event, the frames it consumed stay consumed:
/// appending text to it or to its residue leads to the same next event.
pub proof fn lemma_next_event_skip_append<M>(
    s: Seq<char>,
    t: Seq<char>,
    classify: spec_fn(Option<Seq<char>>, Seq<char>) -> Option<M>,
)
    requires
        spec_next_event(s, classify).0 is None,
    ensures
        spec_next_event(s + t, classify) == spec_next_event(
            spec_next_event(s, classify).1 + t,
            classify,
        ),
    decreases s.len(),
{
    match spec_frame_split(s) {
        None => {
            assert(spec_next_event(s, classify).1 == s);
        },
        Some(p) => {
            lemma_frame_split_shrinks(s);
            lemma_frame_split_append(s, t);
            lemma_next_event_skip_append(p.1, t, classify);
        },
    }
}

/// Chunk-boundary independence: however the incoming text is cut, the events
/// come out the same. Draining a buffer, appending the next piece of text to
/// the residue and draining again yields exactly the events of draining the
/// concatenation in one pass, with the same final residue.
pub proof fn lemma_chunk_boundary_independence<M>(
    s: Seq<char>,
    t: Seq<char>,
    classify: spec_fn(Option<Seq<char>>, Seq<char>) -> Option<M>,
)
    ensures
        spec_drain_events(s + t, classify) == (
            spec_drain_events(s, classify).0 + spec_drain_events(
                spec_drain_events(s, classify).1 + t,
                classify,
            ).0,
            spec_drain_events(spec_drain_events(s, classify).1 + t, classify).1,
        ),
    decreases s.len(),
{
    let next = spec_next_event(s, classify);
    match next.0 {
        None => {
            lemma_next_event_skip_append(s, t, classify);
            let rest = next.1;
            assert(spec_drain_events(s, classify) == (Seq::<M>::empty(), rest));
            assert(spec_next_event(s + t, classify) == spec_next_event(rest + t, classify));
            assert(spec_drain_events(s + t, classify) == spec_drain_events(rest + t, classify));
            assert(Seq::<M>::empty() + spec_drain_events(rest + t, classify).0
                =~= spec_drain_events(rest + t, classify).0);
        },
        Some(m) => {
            lemma_next_event_append(s, t, classify);
            lemma_next_event_shrinks(s, classify);
            let rest = next.1;
            lemma_chunk_boundary_independence(rest, t, classify);
            assert(seq![m] + (spec_drain_events(rest, classify).0 + spec_drain_events(
                spec_drain_events(rest, classify).1 + t,
                classify,
            ).0) =~= (seq![m] + spec_drain_events(rest, classify).0) + spec_drain_events(
                spec_drain_events(rest, classify).1 + t,
                classify,
            ).0);
        },
    }
}

/// Whether two texts hold the same characters.
pub fn str_eq(a: &str, b: &str) -> (r: bool)
    ensures
        r == (a@ == b@),
{
    let n: usize = a.unicode_len();
    let m: usize = b.unicode_len();
    if n != m {
        return false;
    }
    let mut i: usize = 0;
    proof {
        assert(a@.subrange(0, 0) =~= b@.subrange(0, 0));
    }
    while i < n
        invariant
            n == a@.len() == b@.len(),
            0 <= i <= n,
            a@.subrange(0, i as int) == b@.subrange(0, i as int),
        decreases n - i,
    {
        proof {
            assert(a@.subrange(0, i + 1).drop_last() == a@.subrange(0, i as int));
            assert(b@.subrange(0, i + 1).drop_last() == b@.subrange(0, i as int));
            assert(a@.subrange(0, i + 1).last() == a@[i as int]);
            assert(b@.subrange(0, i + 1).last() == b@[i as int]);
        }
        if a.get_char(i) != b.get_char(i) {
            assert(a@ != b@);
            return false;
        }
        assert(a@.subrange(0, i + 1) =~= b@.subrange(0, i + 1));
        i = i + 1;
    }
    proof {
        assert(a@.subrange(0, n as int) =~= a@);
        assert(b@.subrange(0, n as int) =~= b@);
    }
    true
}

/// First occurrence of a character in a text, scanning from a position.
pub fn find_char_from(s: &str, c: char, from: usize) -> (r: Option<usize>)
    ensures
        match r {
            Some(i) => spec_find_from(s@, seq![c], from as int) == Some(i as int) && from <= i
                < s@.len(),
            None => spec_find_from(s@, seq![c], from as int) is None,
        },
{
    let n: usize = s.unicode_len();
    if from >= n {
        return None;
    }
    let mut i: usize = from;
    while i < n
        invariant
            from <= i <= n,
            n == s@.len(),
            spec_find_from(s@, seq![c], from as int) == spec_find_from(s@, seq![c], i as int),
        decreases n - i,
    {
        proof {
            assert(s@.subrange(i as int, i + 1) =~= seq![s@[i as int]]);
        }
        if s.get_char(i) == c {
            return Some(i);
        }
        proof {
            assert(s@.subrange(i as int, i + 1) != seq![c]) by {
                assert(seq![s@[i as int]][0] == s@[i as int]);
                assert(seq![c][0] == c);
            }
        }
        i = i + 1;
    }
    None
}

/// The terminal sentinel payload: the provider signals the end of a stream
/// with a data payload that trims to this text.
pub open spec fn done_sentinel() -> Seq<char> {
    seq!['[', 'D', 'O', 'N', 'E', ']']
}

/// Whether a data payload, trimmed, is the terminal sentinel.
pub fn is_done_payload(payload: &str) -> (r: bool)
    ensures
        r == (spec_trim(payload@) == done_sentinel()),
{
    let trimmed = trim_str(payload);
    proof {
        reveal_strlit("[DONE]");
        assert("[DONE]"@ =~= done_sentinel());
    }
    str_eq(trimmed.as_str(), "[DONE]")
}

/// What `String::from_utf8_lossy` makes of a byte sequence: a function of the
/// bytes alone.
pub uninterp spec fn lossy_of(bytes: Seq<u8>) -> Seq<char>;

/// Relies on String::from_utf8_lossy: the decoding depends on the bytes
/// alone, and valid UTF-8 decodes exactly, without substitution.
#[verifier::external_body]
pub fn lossy_decode(bytes: &[u8]) -> (r: String)
    ensures
        r@ == lossy_of(bytes@),
        vstd::utf8::valid_utf8(bytes@) ==> r@ == vstd::utf8::decode_utf8(bytes@),
{
    String::from_utf8_lossy(bytes).into_owned()
}

} // verus!
