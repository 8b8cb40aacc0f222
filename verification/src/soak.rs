//! Figures of the soak run read from text: a field of the kernel's process
//! status, a whole-number setting with a fallback, and the whole-number
//! columns of the CSV lines a run prints; and whether a run can be judged
//! for leaks at all.

use vstd::prelude::*;
use crate::text::{before_first, chars_of, is_whitespace, is_ws, lemma_before_first, trim_chars, trimmed};

verus! {

/// An ASCII decimal digit.
pub open spec fn is_digit(c: char) -> bool {
    '0' <= c && c <= '9'
}

/// The value of a run of decimal digits, most significant first.
pub open spec fn digits_value(s: Seq<char>) -> nat
    decreases s.len(),
{
    if s.len() == 0 {
        0
    } else {
        digits_value(s.drop_last()) * 10 + ((s.last() as u32) - 48) as nat
    }
}

/// Whether every character is an ASCII digit.
pub open spec fn all_digits(s: Seq<char>) -> bool {
    forall|i: int| 0 <= i < s.len() ==> is_digit(#[trigger] s[i])
}

/// The digits of a number as `u64::from_str` reads it: after one optional
/// leading `+`.
pub open spec fn unsigned_digits(tok: Seq<char>) -> Seq<char> {
    if tok.len() > 0 && tok[0] == '+' {
        tok.drop_first()
    } else {
        tok
    }
}

/// What `u64::from_str` accepts: an optional `+`, then one or more ASCII
/// digits whose value fits in 64 bits.
pub open spec fn parse_u64_spec(tok: Seq<char>) -> Option<u64> {
    let digits = unsigned_digits(tok);
    if digits.len() > 0 && all_digits(digits) && digits_value(digits) <= u64::MAX {
        Some(digits_value(digits) as u64)
    } else {
        None
    }
}

proof fn lemma_digits_prefix(s: Seq<char>, k: int)
    requires
        0 <= k <= s.len(),
        forall|i: int| 0 <= i < s.len() ==> is_digit(#[trigger] s[i]),
    ensures
        digits_value(s.take(k)) <= digits_value(s),
    decreases s.len(),
{
    if k < s.len() {
        let d = s.drop_last();
        assert forall|i: int| 0 <= i < d.len() implies is_digit(#[trigger] d[i]) by {
            assert(d[i] == s[i]);
        }
        lemma_digits_prefix(d, k);
        assert(d.take(k) == s.take(k));
    } else {
        assert(s.take(k) == s);
    }
}

/// Parses a decimal number as `u64::from_str` does.
pub fn parse_u64(tok: &[char]) -> (r: Option<u64>)
    ensures
        r == parse_u64_spec(tok@),
{
    let n = tok.len();
    let start: usize = if n > 0 && tok[0] == '+' {
        1
    } else {
        0
    };
    let ghost digits = unsigned_digits(tok@);
    assert(digits == tok@.subrange(start as int, n as int));
    if start == n {
        return None;
    }
    let mut acc: u64 = 0;
    let mut i: usize = start;
    while i < n
        invariant
            start <= i <= n,
            n == tok@.len(),
            digits == tok@.subrange(start as int, n as int),
            digits == unsigned_digits(tok@),
            acc == digits_value(tok@.subrange(start as int, i as int)),
            forall|j: int| start <= j < i ==> is_digit(#[trigger] tok@[j]),
        decreases n - i,
    {
        let c = tok[i];
        if !('0' <= c && c <= '9') {
            assert(digits[i - start] == c);
            assert(!is_digit(digits[i - start]));
            assert(!all_digits(digits));

            return None;
        }
        let d: u64 = ((c as u32) - 48) as u64;
        let ghost next = tok@.subrange(start as int, i + 1);
        assert(next.drop_last() == tok@.subrange(start as int, i as int));
        assert(next.last() == c);
        assert(digits_value(next) == acc * 10 + d);
        let m = acc.checked_mul(10);
        let sum = match m {
            Some(m) => m.checked_add(d),
            None => None,
        };
        match sum {
            Some(v) => {
                acc = v;
            },
            None => {
                proof {
                    if all_digits(digits) {
                        lemma_digits_prefix(digits, i + 1 - start);
                        assert(digits.take(i + 1 - start) == next);
                    }
                }
                return None;
            },
        }
        i = i + 1;
    }
    assert(tok@.subrange(start as int, n as int) == digits);
    Some(acc)
}

/// A whole-number setting: the trimmed text when it parses, else the
/// fallback (also when the setting is absent).
pub fn env_u64(value: Option<&str>, default: u64) -> (r: u64)
    ensures
        r == match value {
            Some(v) => match parse_u64_spec(trimmed(v@)) {
                Some(n) => n,
                None => default,
            },
            None => default,
        },
{
    match value {
        Some(v) => {
            let chars = chars_of(v);
            let t = trim_chars(&chars);
            match parse_u64(&t) {
                Some(n) => n,
                None => default,
            }
        },
        None => default,
    }
}

/// One line as `str::lines` yields it: the text before the first line feed,
/// without the carriage return that may stand right before that feed.
pub open spec fn first_line(s: Seq<char>) -> Seq<char> {
    let raw = before_first(s, '\n');
    if raw.len() < s.len() && raw.len() > 0 && raw.last() == '\r' {
        raw.drop_last()
    } else {
        raw
    }
}

/// The text with its leading colons removed (`trim_start_matches(':')`).
pub open spec fn without_colons(s: Seq<char>) -> Seq<char>
    decreases s.len(),
{
    if s.len() > 0 && s[0] == ':' {
        without_colons(s.drop_first())
    } else {
        s
    }
}

/// The characters before the first white space.
pub open spec fn first_word(s: Seq<char>) -> Seq<char>
    decreases s.len(),
{
    if s.len() == 0 || is_ws(s[0]) {
        seq![]
    } else {
        seq![s[0]] + first_word(s.drop_first())
    }
}

/// The number that follows `field` on a line that starts with it: colons
/// and white space skipped, the first word read as a `u64`.
pub open spec fn field_value(line: Seq<char>, field: Seq<char>) -> Option<u64> {
    parse_u64_spec(first_word(trimmed(without_colons(line.skip(field.len() as int)))))
}

/// The value of `field` in a process status text: taken from the first line
/// that starts with `field` (`None` when that value does not parse), or
/// `None` when no line does.
pub open spec fn status_field_spec(s: Seq<char>, field: Seq<char>) -> Option<u64>
    decreases s.len(),
{
    if s.len() == 0 {
        None
    } else {
        let k = before_first(s, '\n').len();
        if field.is_prefix_of(first_line(s)) {
            field_value(first_line(s), field)
        } else if k < s.len() {
            status_field_spec(s.skip(k as int + 1), field)
        } else {
            None
        }
    }
}

proof fn lemma_without_colons(s: Seq<char>, k: int)
    requires
        0 <= k <= s.len(),
        forall|j: int| 0 <= j < k ==> #[trigger] s[j] == ':',
        k == s.len() || s[k] != ':',
    ensures
        without_colons(s) == s.skip(k),
    decreases k,
{
    if k > 0 {
        assert forall|j: int| 0 <= j < k - 1 implies #[trigger] s.drop_first()[j] == ':' by {
            assert(s.drop_first()[j] == s[j + 1]);
        }
        lemma_without_colons(s.drop_first(), k - 1);
        assert(s.drop_first().skip(k - 1) == s.skip(k));
    } else {
        assert(s.skip(0) == s);
    }
}

proof fn lemma_first_word(s: Seq<char>, k: int)
    requires
        0 <= k <= s.len(),
        forall|j: int| 0 <= j < k ==> !is_ws(#[trigger] s[j]),
        k == s.len() || is_ws(s[k]),
    ensures
        first_word(s) == s.take(k),
    decreases k,
{
    if k > 0 {
        assert forall|j: int| 0 <= j < k - 1 implies !is_ws(#[trigger] s.drop_first()[j]) by {
            assert(s.drop_first()[j] == s[j + 1]);
        }
        lemma_first_word(s.drop_first(), k - 1);
        assert(seq![s[0]] + s.drop_first().take(k - 1) == s.take(k));
    }
}

/// Whether `v` starts with `f`.
fn starts_with(v: &[char], f: &[char]) -> (r: bool)
    ensures
        r == f@.is_prefix_of(v@),
{
    if f.len() > v.len() {
        return false;
    }
    let mut i: usize = 0;
    while i < f.len()
        invariant
            i <= f@.len() <= v@.len(),
            forall|j: int| 0 <= j < i ==> f@[j] == v@[j],
        decreases f@.len() - i,
    {
        if f[i] != v[i] {
            assert(f@[i as int] != v@.subrange(0, f@.len() as int)[i as int]);
            return false;
        }
        i = i + 1;
    }
    assert(f@ == v@.subrange(0, f@.len() as int));
    true
}

/// The number after `field` on a line that starts with it.
fn line_field_value(line: &[char], f: &[char]) -> (r: Option<u64>)
    requires
        f@.is_prefix_of(line@),
    ensures
        r == field_value(line@, f@),
{
    let n = line.len();
    let mut a: usize = f.len();
    while a < n && line[a] == ':'
        invariant
            f@.len() <= a <= n,
            n == line@.len(),
            forall|j: int| f@.len() <= j < a ==> #[trigger] line@[j] == ':',
        decreases n - a,
    {
        a = a + 1;
    }
    proof {
        let t = line@.skip(f@.len() as int);
        let k = a - f@.len();
        assert forall|j: int| 0 <= j < k implies #[trigger] t[j] == ':' by {
            assert(t[j] == line@[j + f@.len()]);
        }
        if k < t.len() {
            assert(t[k] == line@[a as int]);
        }
        lemma_without_colons(t, k);
        assert(t.skip(k) == line@.skip(a as int));
    }
    let mut rest: Vec<char> = Vec::new();
    for i in a..n
        invariant
            a <= n,
            n == line@.len(),
            rest@ == line@.subrange(a as int, i as int),
    {
        rest.push(line[i]);
        assert(line@.subrange(a as int, i + 1) == line@.subrange(a as int, i as int).push(
            line@[i as int],
        ));
    }
    assert(rest@ == line@.skip(a as int));
    let t = trim_chars(&rest);
    let mut w: Vec<char> = Vec::new();
    let mut i: usize = 0;
    while i < t.len() && !is_whitespace(t[i])
        invariant
            i <= t@.len(),
            w@ == t@.take(i as int),
            forall|j: int| 0 <= j < i ==> !is_ws(#[trigger] t@[j]),
        decreases t@.len() - i,
    {
        w.push(t[i]);
        assert(t@.take(i + 1) == t@.take(i as int).push(t@[i as int]));
        i = i + 1;
    }
    proof {
        lemma_first_word(t@, i as int);
    }
    parse_u64(&w)
}

/// The value of `field` in the kernel's process status text (as
/// `/proc/self/status` holds it): the first word after the field name and
/// its colon on the first line that starts with `field`.
pub fn proc_status_field(status: &str, field: &str) -> (r: Option<u64>)
    ensures
        r == status_field_spec(status@, field@),
{
    let s = chars_of(status);
    let f = chars_of(field);
    let n = s.len();
    let mut start: usize = 0;
    assert(s@.skip(0) == s@);
    while start < n
        invariant
            start <= n,
            n == s@.len(),
            s@ == status@,
            f@ == field@,
            status_field_spec(s@, f@) == status_field_spec(s@.skip(start as int), f@),
        decreases n - start,
    {
        let ghost rest = s@.skip(start as int);
        let mut end: usize = start;
        while end < n && s[end] != '\n'
            invariant
                start <= end <= n,
                n == s@.len(),
                forall|j: int| start <= j < end ==> #[trigger] s@[j] != '\n',
            decreases n - end,
        {
            end = end + 1;
        }
        proof {
            assert forall|j: int| 0 <= j < end - start implies #[trigger] rest[j] != '\n' by {
                assert(rest[j] == s@[j + start]);
            }
            if end < n {
                assert(rest[end - start] == s@[end as int]);
            }
            lemma_before_first(rest, '\n', end - start);
            assert(rest.take(end - start) == s@.subrange(start as int, end as int));
        }
        let line_stop: usize = if end < n && end > start && s[end - 1] == '\r' {
            end - 1
        } else {
            end
        };
        let mut line: Vec<char> = Vec::new();
        for i in start..line_stop
            invariant
                start <= line_stop <= end <= n,
                n == s@.len(),
                line@ == s@.subrange(start as int, i as int),
        {
            line.push(s[i]);
            assert(s@.subrange(start as int, i + 1) == s@.subrange(start as int, i as int).push(
                s@[i as int],
            ));
        }
        proof {
            let raw = before_first(rest, '\n');
            if line_stop < end {
                assert(raw.drop_last() == s@.subrange(start as int, line_stop as int));
            }
            assert(line@ == first_line(rest));
        }
        assert(rest.len() > 0);
        assert(before_first(rest, '\n').len() == end - start);
        if starts_with(&line, &f) {
            assert(status_field_spec(rest, f@) == field_value(first_line(rest), f@));
            return line_field_value(&line, &f);
        }
        assert(!f@.is_prefix_of(first_line(rest)));
        if end == n {
            assert(status_field_spec(rest, f@) is None);
            return None;
        }
        proof {
            assert(rest.skip(end - start + 1) == s@.skip(end + 1));
        }
        start = end + 1;
    }
    None
}

/// Fewer sampled windows than this give no trend verdict.
pub const MIN_SAMPLES_FOR_TREND: usize = 6;

/// What a soak run's windows allow the leak verdict to do.
#[derive(Clone, Copy, Debug, PartialEq, Eq, Structural)]
pub enum TrendGate {
    /// Some window lacks a memory or thread reading: the verdict is skipped.
    ProbesUnavailable,
    /// Too few windows were sampled for a trend.
    TooFewWindows,
    /// The windows can be judged.
    Judge,
}

/// Whether a soak run can be judged for leaks, given for each sampled
/// window whether it has both its memory size and its thread count.
pub fn trend_gate(probed: &[bool]) -> (r: TrendGate)
    ensures
        r == if exists|i: int| 0 <= i < probed@.len() && !probed@[i] {
            TrendGate::ProbesUnavailable
        } else if probed@.len() < MIN_SAMPLES_FOR_TREND {
            TrendGate::TooFewWindows
        } else {
            TrendGate::Judge
        },
{
    let mut i: usize = 0;
    while i < probed.len()
        invariant
            i <= probed@.len(),
            forall|j: int| 0 <= j < i ==> probed@[j],
        decreases probed@.len() - i,
    {
        if !probed[i] {
            return TrendGate::ProbesUnavailable;
        }
        i = i + 1;
    }
    if probed.len() < MIN_SAMPLES_FOR_TREND {
        TrendGate::TooFewWindows
    } else {
        TrendGate::Judge
    }
}

/// The fields of a comma-separated line, `field` continuing the first:
/// the text between commas, as `str::split(',')` yields it.
pub open spec fn split_commas(s: Seq<char>, field: Seq<char>) -> Seq<Seq<char>>
    decreases s.len(),
{
    if s.len() == 0 {
        seq![field]
    } else if s[0] == ',' {
        seq![field] + split_commas(s.drop_first(), seq![])
    } else {
        split_commas(s.drop_first(), field.push(s[0]))
    }
}

/// The fields of a comma-separated line.
pub fn csv_fields(line: &str) -> (r: Vec<Vec<char>>)
    ensures
        r@.map_values(|f: Vec<char>| f@) == split_commas(line@, seq![]),
{
    let v = chars_of(line);
    let mut out: Vec<Vec<char>> = Vec::new();
    let mut field: Vec<char> = Vec::new();
    let mut i: usize = 0;
    assert(v@.skip(0) == v@);
    assert(out@.map_values(|f: Vec<char>| f@) + split_commas(v@, field@) == split_commas(v@, field@));
    while i < v.len()
        invariant
            i <= v@.len(),
            v@ == line@,
            out@.map_values(|f: Vec<char>| f@) + split_commas(v@.skip(i as int), field@)
                == split_commas(line@, seq![]),
        decreases v@.len() - i,
    {
        let ghost rest = v@.skip(i as int);
        assert(rest[0] == v@[i as int]);
        assert(rest.drop_first() == v@.skip(i + 1));
        if v[i] == ',' {
            let ghost before = out@.map_values(|f: Vec<char>| f@);
            let ghost done = field@;
            out.push(field);
            assert(out@.map_values(|f: Vec<char>| f@) == before.push(done));
            assert(before + (seq![done] + split_commas(rest.drop_first(), seq![])) == before.push(
                done,
            ) + split_commas(rest.drop_first(), seq![]));
            field = Vec::new();
        } else {
            field.push(v[i]);
        }
        i = i + 1;
    }
    let ghost before = out@.map_values(|f: Vec<char>| f@);
    let ghost done = field@;
    out.push(field);
    assert(v@.skip(i as int) == Seq::<char>::empty());
    assert(out@.map_values(|f: Vec<char>| f@) == before.push(done));
    out
}

/// The whole-number columns of one line of a soak run's CSV
/// (`ts_s,rss_kib,threads,fds,ingress_depth,ingress_dropped,flush_p50_us,flush_p95_us`).
#[derive(Clone, Copy, Debug, PartialEq, Eq, Structural)]
pub struct SoakCounts {
    /// Resident memory in KiB, when the platform could read it.
    pub rss_kib: Option<u64>,
    /// Thread count, when the platform could read it.
    pub threads: Option<u64>,
    pub fds: u64,
    pub ingress_depth: u64,
    pub ingress_dropped: u64,
}

/// Why a soak CSV line was refused.
#[derive(Clone, Copy, Debug, PartialEq, Eq, Structural)]
pub enum SoakLineError {
    /// The line does not have eight fields; it has this many.
    FieldCount(usize),
    /// The field at this position is not a whole number.
    NotANumber(usize),
}

/// A whole-number field, trimmed.
pub open spec fn count_field(f: Seq<char>) -> Option<u64> {
    parse_u64_spec(trimmed(f))
}

/// A field that may be empty (no reading) or else a whole number, trimmed.
pub open spec fn optional_field(f: Seq<char>) -> Option<Option<u64>> {
    if trimmed(f).len() == 0 {
        Some(None)
    } else {
        match count_field(f) {
            Some(n) => Some(Some(n)),
            None => None,
        }
    }
}

/// The whole-number columns of a soak CSV line given its fields: eight
/// fields are needed; memory and threads may be empty; the first field
/// among them that does not parse is named.
pub open spec fn soak_counts_spec(f: Seq<Seq<char>>) -> Result<SoakCounts, SoakLineError> {
    if f.len() != 8 {
        Err(SoakLineError::FieldCount(f.len() as usize))
    } else if optional_field(f[1]) is None {
        Err(SoakLineError::NotANumber(1))
    } else if optional_field(f[2]) is None {
        Err(SoakLineError::NotANumber(2))
    } else if count_field(f[3]) is None {
        Err(SoakLineError::NotANumber(3))
    } else if count_field(f[4]) is None {
        Err(SoakLineError::NotANumber(4))
    } else if count_field(f[5]) is None {
        Err(SoakLineError::NotANumber(5))
    } else {
        Ok(
            SoakCounts {
                rss_kib: optional_field(f[1]).unwrap(),
                threads: optional_field(f[2]).unwrap(),
                fds: count_field(f[3]).unwrap(),
                ingress_depth: count_field(f[4]).unwrap(),
                ingress_dropped: count_field(f[5]).unwrap(),
            },
        )
    }
}

fn parse_count_field(f: &[char]) -> (r: Option<u64>)
    ensures
        r == count_field(f@),
{
    let t = trim_chars(f);
    parse_u64(&t)
}

fn parse_optional_field(f: &[char]) -> (r: Option<Option<u64>>)
    ensures
        r == optional_field(f@),
{
    let t = trim_chars(f);
    if t.len() == 0 {
        Some(None)
    } else {
        match parse_u64(&t) {
            Some(n) => Some(Some(n)),
            None => None,
        }
    }
}

/// The whole-number columns of a soak CSV line given its fields.
pub fn soak_counts(fields: &[Vec<char>]) -> (r: Result<SoakCounts, SoakLineError>)
    ensures
        r == soak_counts_spec(fields@.map_values(|f: Vec<char>| f@)),
{
    let ghost fv = fields@.map_values(|f: Vec<char>| f@);
    if fields.len() != 8 {
        return Err(SoakLineError::FieldCount(fields.len()));
    }
    assert(fv[1] == fields@[1]@ && fv[2] == fields@[2]@ && fv[3] == fields@[3]@);
    assert(fv[4] == fields@[4]@ && fv[5] == fields@[5]@);
    let rss_kib = match parse_optional_field(fields[1].as_slice()) {
        Some(v) => v,
        None => {
            return Err(SoakLineError::NotANumber(1));
        },
    };
    let threads = match parse_optional_field(fields[2].as_slice()) {
        Some(v) => v,
        None => {
            return Err(SoakLineError::NotANumber(2));
        },
    };
    let fds = match parse_count_field(fields[3].as_slice()) {
        Some(v) => v,
        None => {
            return Err(SoakLineError::NotANumber(3));
        },
    };
    let ingress_depth = match parse_count_field(fields[4].as_slice()) {
        Some(v) => v,
        None => {
            return Err(SoakLineError::NotANumber(4));
        },
    };
    let ingress_dropped = match parse_count_field(fields[5].as_slice()) {
        Some(v) => v,
        None => {
            return Err(SoakLineError::NotANumber(5));
        },
    };
    Ok(SoakCounts { rss_kib, threads, fds, ingress_depth, ingress_dropped })
}

} // verus!
