//! The game-server log-line parser.
//!
//! A line of game-server output carries a record exactly when it has the
//! shape `[<timestamp>][<spaces><digits>]<body>`: a leading bracketed
//! timestamp of digits and `.`, `-`, `:`; then a bracketed emitter index of
//! digits, optionally preceded by whitespace; then a non-empty body running
//! to the end of the line. Anything else is discarded. Each bracketed run is
//! maximal, so the decomposition is unique. An index too large for `i32`
//! discards the line.

use vstd::prelude::*;

verus! {

/// A parsed log record: the emitter index and the body after the prefix.
#[derive(Debug)]
pub struct LogRecord {
    pub index: i32,
    pub body: String,
}

/// The mathematical shape of a log record.
pub ghost struct LogRecordData {
    pub index: int,
    pub body: Seq<char>,
}

impl View for LogRecord {
    type V = LogRecordData;

    open spec fn view(&self) -> LogRecordData {
        LogRecordData { index: self.index as int, body: self.body@ }
    }
}

/// A character the timestamp field may hold.
pub open spec fn is_ts_char(c: char) -> bool {
    ('0' <= c && c <= '9') || c == '.' || c == '-' || c == ':'
}

/// A decimal digit.
pub open spec fn is_digit_char(c: char) -> bool {
    '0' <= c && c <= '9'
}

/// A whitespace character, as the index field allows before the digits.
pub open spec fn is_space_char(c: char) -> bool {
    c == ' ' || c == '\t' || c == '\n' || c == '\r' || c == '\u{b}' || c == '\u{c}'
}

/// Length of the maximal run of timestamp characters starting at `i`.
pub open spec fn spec_ts_run(s: Seq<char>, i: int) -> int
    decreases s.len() - i when 0 <= i <= s.len()
{
    if i < 0 || i >= s.len() || !is_ts_char(s[i]) {
        0
    } else {
        1 + spec_ts_run(s, i + 1)
    }
}

/// Length of the maximal run of whitespace characters starting at `i`.
pub open spec fn spec_space_run(s: Seq<char>, i: int) -> int
    decreases s.len() - i when 0 <= i <= s.len()
{
    if i < 0 || i >= s.len() || !is_space_char(s[i]) {
        0
    } else {
        1 + spec_space_run(s, i + 1)
    }
}

/// Length of the maximal run of digits starting at `i`.
pub open spec fn spec_digit_run(s: Seq<char>, i: int) -> int
    decreases s.len() - i when 0 <= i <= s.len()
{
    if i < 0 || i >= s.len() || !is_digit_char(s[i]) {
        0
    } else {
        1 + spec_digit_run(s, i + 1)
    }
}

/// The number a sequence of digits denotes, most significant first.
pub open spec fn spec_digits_value(s: Seq<char>) -> int
    decreases s.len(),
{
    if s.len() == 0 {
        0
    } else {
        spec_digits_value(s.drop_last()) * 10 + (s.last() as int - '0' as int)
    }
}

/// No newline anywhere: the body of a record cannot cross lines.
pub open spec fn spec_no_newline(s: Seq<char>) -> bool {
    forall|i: int| 0 <= i < s.len() ==> s[i] != '\n'
}

/// The record a line carries, if any: the unique decomposition of the line
/// into `[` timestamp `][` whitespace digits `]` body, with every run
/// maximal, the timestamp and digit runs non-empty, a non-empty body free of
/// newlines, and the index within `i32`.
pub open spec fn spec_parse_log_line(line: Seq<char>) -> Option<LogRecordData> {
    let n = line.len() as int;
    if n < 1 || line[0] != '[' {
        None
    } else {
        let ts = spec_ts_run(line, 1);
        if ts == 0 || 1 + ts >= n || line[1 + ts] != ']' || 2 + ts >= n || line[2 + ts] != '[' {
            None
        } else {
            let d_start = 3 + ts + spec_space_run(line, 3 + ts);
            let d = spec_digit_run(line, d_start);
            if d == 0 || d_start + d >= n || line[d_start + d] != ']' {
                None
            } else {
                let body_start = d_start + d + 1;
                let value = spec_digits_value(line.subrange(d_start, d_start + d));
                if body_start >= n || !spec_no_newline(line.subrange(body_start, n)) || value
                    > i32::MAX {
                    None
                } else {
                    Some(LogRecordData { index: value, body: line.subrange(body_start, n) })
                }
            }
        }
    }
}

/// A run of timestamp characters up to a non-member (or the end) has exactly
/// the length of that stretch.
proof fn lemma_ts_run_exact(s: Seq<char>, start: int, end: int)
    requires
        0 <= start <= end <= s.len(),
        forall|j: int| start <= j < end ==> is_ts_char(s[j]),
        end == s.len() || !is_ts_char(s[end]),
    ensures
        spec_ts_run(s, start) == end - start,
    decreases end - start,
{
    if start < end {
        lemma_ts_run_exact(s, start + 1, end);
    }
}

/// As `lemma_ts_run_exact`, for whitespace runs.
proof fn lemma_space_run_exact(s: Seq<char>, start: int, end: int)
    requires
        0 <= start <= end <= s.len(),
        forall|j: int| start <= j < end ==> is_space_char(s[j]),
        end == s.len() || !is_space_char(s[end]),
    ensures
        spec_space_run(s, start) == end - start,
    decreases end - start,
{
    if start < end {
        lemma_space_run_exact(s, start + 1, end);
    }
}

/// As `lemma_ts_run_exact`, for digit runs.
proof fn lemma_digit_run_exact(s: Seq<char>, start: int, end: int)
    requires
        0 <= start <= end <= s.len(),
        forall|j: int| start <= j < end ==> is_digit_char(s[j]),
        end == s.len() || !is_digit_char(s[end]),
    ensures
        spec_digit_run(s, start) == end - start,
    decreases end - start,
{
    if start < end {
        lemma_digit_run_exact(s, start + 1, end);
    }
}

/// A digit sequence denotes a non-negative number.
proof fn lemma_digits_value_nonneg(s: Seq<char>)
    requires
        forall|j: int| 0 <= j < s.len() ==> is_digit_char(s[j]),
    ensures
        spec_digits_value(s) >= 0,
    decreases s.len(),
{
    if s.len() > 0 {
        lemma_digits_value_nonneg(s.drop_last());
    }
}

/// Extending a digit sequence cannot shrink its value.
proof fn lemma_digits_value_mono(s: Seq<char>, m: int)
    requires
        0 <= m <= s.len(),
        forall|j: int| 0 <= j < s.len() ==> is_digit_char(s[j]),
    ensures
        spec_digits_value(s.take(m)) <= spec_digits_value(s),
    decreases s.len() - m,
{
    if m < s.len() {
        lemma_digits_value_mono(s, m + 1);
        let t = s.take(m + 1);
        assert(t.drop_last() =~= s.take(m));
        lemma_digits_value_nonneg(s.take(m));
        assert(spec_digits_value(t) == spec_digits_value(s.take(m)) * 10 + (s[m] as int
            - '0' as int));
    } else {
        assert(s.take(m) =~= s);
    }
}

/// Whether a character may stand in the timestamp field.
fn is_ts(c: char) -> (r: bool)
    ensures
        r == is_ts_char(c),
{
    ('0' <= c && c <= '9') || c == '.' || c == '-' || c == ':'
}

/// Whether a character is a decimal digit.
fn is_digit(c: char) -> (r: bool)
    ensures
        r == is_digit_char(c),
{
    '0' <= c && c <= '9'
}

/// Whether a character is whitespace.
fn is_space(c: char) -> (r: bool)
    ensures
        r == is_space_char(c),
{
    c == ' ' || c == '\t' || c == '\n' || c == '\r' || c == '\u{b}' || c == '\u{c}'
}

/// Parses one line of game-server output; lines without the prefix shape
/// carry no record and are discarded.
#[verifier::loop_isolation(false)]
pub fn parse_log_line(line: &str) -> (r: Option<LogRecord>)
    ensures
        match r {
            Some(rec) => spec_parse_log_line(line@) == Some(rec@),
            None => spec_parse_log_line(line@) is None,
        },
{
    let n = line.unicode_len();
    if n < 1 || line.get_char(0) != '[' {
        return None;
    }
    // The timestamp run after the opening bracket.
    let mut i: usize = 1;
    while i < n && is_ts(line.get_char(i))
        invariant
            n == line@.len(),
            1 <= i <= n,
            forall|j: int| 1 <= j < i ==> is_ts_char(line@[j]),
        decreases n - i,
    {
        i = i + 1;
    }
    proof {
        lemma_ts_run_exact(line@, 1, i as int);
    }
    let ts: usize = i - 1;
    if ts == 0 || i >= n || line.get_char(i) != ']' {
        return None;
    }
    if i + 1 >= n || line.get_char(i + 1) != '[' {
        return None;
    }
    // The whitespace run after the second opening bracket.
    let mut k: usize = i + 2;
    while k < n && is_space(line.get_char(k))
        invariant
            n == line@.len(),
            i + 2 <= k <= n,
            forall|j: int| i + 2 <= j < k ==> is_space_char(line@[j]),
        decreases n - k,
    {
        k = k + 1;
    }
    proof {
        lemma_space_run_exact(line@, i as int + 2, k as int);
    }
    let d_start: usize = k;
    // The digit run holding the emitter index.
    let mut value: i64 = 0;
    while k < n && is_digit(line.get_char(k))
        invariant
            n == line@.len(),
            d_start <= k <= n,
            forall|j: int| d_start <= j < k ==> is_digit_char(line@[j]),
            0 <= value <= i32::MAX,
            value == spec_digits_value(line@.subrange(d_start as int, k as int)),
        decreases n - k,
    {
        let c = line.get_char(k);
        let d: i64 = (c as u32) as i64 - 48;
        proof {
            assert(line@.subrange(d_start as int, k + 1).drop_last() =~= line@.subrange(
                d_start as int,
                k as int,
            ));
        }
        value = value * 10 + d;
        k = k + 1;
        if value > i32::MAX as i64 {
            // The index overflows: the full digit run can only denote more.
            proof {
                assert(d == c as int - '0' as int);
                let seen = line@.subrange(d_start as int, k as int);
                assert(seen.last() == line@[k - 1] && seen.last() == c);
                assert(value == spec_digits_value(seen));
                lemma_digit_run_exact_prefix(line@, d_start as int, k as int);
                let dr = spec_digit_run(line@, d_start as int);
                let all = line@.subrange(d_start as int, d_start + dr);
                assert(k - d_start <= dr && d_start + dr <= n);
                assert(all.take(k - d_start as int) =~= seen);
                lemma_digits_value_mono(all, k - d_start as int);
                assert(spec_digits_value(all) > i32::MAX);
            }
            return None;
        }
    }
    proof {
        lemma_digit_run_exact(line@, d_start as int, k as int);
    }
    if k == d_start || k >= n || line.get_char(k) != ']' {
        return None;
    }
    let body_start: usize = k + 1;
    if body_start >= n {
        return None;
    }
    // The body must be free of newlines.
    let mut b: usize = body_start;
    while b < n
        invariant
            n == line@.len(),
            body_start <= b <= n,
            forall|j: int| body_start <= j < b ==> line@[j] != '\n',
        decreases n - b,
    {
        if line.get_char(b) == '\n' {
            proof {
                assert(line@.subrange(body_start as int, n as int)[b - body_start]
                    == line@[b as int]);
            }
            return None;
        }
        b = b + 1;
    }
    let body = line.substring_char(body_start, n).to_owned();
    proof {
        assert(spec_no_newline(line@.subrange(body_start as int, n as int)));
    }
    Some(LogRecord { index: value as i32, body })
}

/// A digit stretch observed so far is a prefix of the maximal digit run.
proof fn lemma_digit_run_exact_prefix(s: Seq<char>, start: int, seen: int)
    requires
        0 <= start <= seen <= s.len(),
        forall|j: int| start <= j < seen ==> is_digit_char(s[j]),
    ensures
        spec_digit_run(s, start) >= seen - start,
        start + spec_digit_run(s, start) <= s.len(),
        forall|j: int|
            start <= j < start + spec_digit_run(s, start) ==> is_digit_char(s[j]),
    decreases seen - start,
{
    lemma_digit_run_bounds(s, start);
    if start < seen {
        lemma_digit_run_exact_prefix(s, start + 1, seen);
    }
}

/// The maximal digit run stays within the sequence and holds only digits.
proof fn lemma_digit_run_bounds(s: Seq<char>, start: int)
    requires
        0 <= start <= s.len(),
    ensures
        spec_digit_run(s, start) >= 0,
        start + spec_digit_run(s, start) <= s.len(),
        forall|j: int| start <= j < start + spec_digit_run(s, start) ==> is_digit_char(s[j]),
    decreases s.len() - start,
{
    if start < s.len() && is_digit_char(s[start]) {
        lemma_digit_run_bounds(s, start + 1);
    }
}

} // verus!
