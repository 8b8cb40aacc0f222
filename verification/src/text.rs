//! Character-level helpers shared by the display-copy modules: whitespace,
//! trimming, decimal and fixed-point number rendering.

use vstd::prelude::*;
use vstd::string::StringExecFns;

verus! {

broadcast use vstd::string::group_string_axioms;

/// Appends one character to a string (`String::push`).
#[verifier::external_body]
pub(crate) fn push_char(s: &mut String, c: char)
    ensures
        final(s)@ == old(s)@.push(c),
{
    s.push(c);
}

/// Appends a string slice to a string.
pub fn push_str(s: &mut String, t: &str)
    ensures
        final(s)@ == old(s)@ + t@,
{
    s.append(t);
}

/// The characters of a string slice, in order.
pub fn chars_of(s: &str) -> (v: Vec<char>)
    ensures
        v@ == s@,
{
    let mut v: Vec<char> = Vec::new();
    for c in it: s.chars()
        invariant
            it.seq() == s@,
            v@ == it.seq().take(it.index() as int),
    {
        v.push(c);
    }
    v
}

/// A string holding exactly the given characters.
pub fn string_from_chars(v: &[char]) -> (s: String)
    ensures
        s@ == v@,
{
    let mut s = String::new();
    for i in 0..v.len()
        invariant
            s@ == v@.take(i as int),
    {
        push_char(&mut s, v[i]);
        assert(v@.take(i + 1) == v@.take(i as int).push(v@[i as int]));
    }
    assert(v@.take(v@.len() as int) == v@);
    s
}

/// The Unicode `White_Space` property, which is what `char::is_whitespace`
/// reports.
pub open spec fn is_ws(c: char) -> bool {
    let u = c as u32;
    ||| (0x09 <= u && u <= 0x0d)
    ||| u == 0x20
    ||| u == 0x85
    ||| u == 0xa0
    ||| u == 0x1680
    ||| (0x2000 <= u && u <= 0x200a)
    ||| u == 0x2028
    ||| u == 0x2029
    ||| u == 0x202f
    ||| u == 0x205f
    ||| u == 0x3000
}

/// Whether a character is Unicode white space.
pub fn is_whitespace(c: char) -> (r: bool)
    ensures
        r == is_ws(c),
{
    let u = c as u32;
    (0x09 <= u && u <= 0x0d) || u == 0x20 || u == 0x85 || u == 0xa0 || u == 0x1680 || (0x2000
        <= u && u <= 0x200a) || u == 0x2028 || u == 0x2029 || u == 0x202f || u == 0x205f || u
        == 0x3000
}

/// The ASCII digit for a value below ten.
pub open spec fn digit_char(d: nat) -> char {
    if d == 0 {
        '0'
    } else if d == 1 {
        '1'
    } else if d == 2 {
        '2'
    } else if d == 3 {
        '3'
    } else if d == 4 {
        '4'
    } else if d == 5 {
        '5'
    } else if d == 6 {
        '6'
    } else if d == 7 {
        '7'
    } else if d == 8 {
        '8'
    } else {
        '9'
    }
}

/// The decimal rendering of a natural number, without leading zeros.
pub open spec fn decimal(n: nat) -> Seq<char>
    decreases n,
{
    if n < 10 {
        seq![digit_char(n)]
    } else {
        decimal(n / 10).push(digit_char(n % 10))
    }
}

/// A run of `k` zero digits.
pub open spec fn zeros(k: nat) -> Seq<char> {
    Seq::new(k, |i: int| '0')
}

/// The decimal rendering of `n` left-padded with zeros to at least `width`
/// characters, as `{:0width$}` renders it.
pub open spec fn padded(n: nat, width: nat) -> Seq<char> {
    let d = decimal(n);
    if d.len() >= width {
        d
    } else {
        zeros((width - d.len()) as nat) + d
    }
}

fn digit(d: u128) -> (c: char)
    requires
        d < 10,
    ensures
        c == digit_char(d as nat),
{
    if d == 0 {
        '0'
    } else if d == 1 {
        '1'
    } else if d == 2 {
        '2'
    } else if d == 3 {
        '3'
    } else if d == 4 {
        '4'
    } else if d == 5 {
        '5'
    } else if d == 6 {
        '6'
    } else if d == 7 {
        '7'
    } else if d == 8 {
        '8'
    } else {
        '9'
    }
}

/// Appends the decimal rendering of `n`.
pub fn push_decimal(s: &mut String, n: u128)
    ensures
        final(s)@ == old(s)@ + decimal(n as nat),
    decreases n,
{
    if n >= 10 {
        push_decimal(s, n / 10);
    }
    push_char(s, digit(n % 10));
}

/// The number of decimal digits of `n`.
pub fn decimal_len(n: u128) -> (k: usize)
    ensures
        k == decimal(n as nat).len(),
    decreases n,
{
    if n >= 10 {
        let k = decimal_len(n / 10);
        proof {
            lemma_decimal_len_bound(n as nat);
        }
        k + 1
    } else {
        1
    }
}

spec fn pow10(m: nat) -> nat
    decreases m,
{
    if m == 0 {
        1
    } else {
        10 * pow10((m - 1) as nat)
    }
}

proof fn lemma_decimal_len_below(n: nat, m: nat)
    requires
        n < pow10(m),
        m >= 1,
    ensures
        decimal(n).len() <= m,
    decreases n,
{
    if n >= 10 {
        if m == 1 {
            assert(pow10(1) == 10) by {
                reveal_with_fuel(pow10, 2);
            }
        }
        assert(n / 10 < pow10((m - 1) as nat));
        lemma_decimal_len_below(n / 10, (m - 1) as nat);
    }
}

proof fn lemma_decimal_len_bound(n: nat)
    requires
        n <= u128::MAX,
    ensures
        decimal(n).len() <= 40,
{
    reveal_with_fuel(pow10, 41);
    assert(u128::MAX < pow10(40));
    lemma_decimal_len_below(n, 40);
}

/// Appends `n` zero-padded to at least `width` digits.
pub fn push_padded(s: &mut String, n: u128, width: usize)
    ensures
        final(s)@ == old(s)@ + padded(n as nat, width as nat),
{
    let k = decimal_len(n);
    if k < width {
        let ghost start = s@;
        let mut i: usize = 0;
        while i < width - k
            invariant
                i <= width - k,
                k < width,
                s@ == start + zeros(i as nat),
            decreases width - k - i,
        {
            push_char(s, '0');
            assert(zeros((i + 1) as nat) == zeros(i as nat).push('0'));
            i = i + 1;
        }
    }
    push_decimal(s, n);
    assert(padded(n as nat, width as nat) == (if k >= width {
        decimal(n as nat)
    } else {
        zeros((width - k) as nat) + decimal(n as nat)
    }));
}

/// `num / den` rounded to the nearest integer, ties to the even neighbour.
pub open spec fn round_half_even(num: nat, den: nat) -> nat
    recommends
        den > 0,
{
    let q = num / den;
    let r = num % den;
    if 2 * r > den {
        q + 1
    } else if 2 * r < den {
        q
    } else if q % 2 == 0 {
        q
    } else {
        q + 1
    }
}

/// Division rounded to nearest, ties to even.
pub fn div_round_half_even(num: u128, den: u128) -> (q: u128)
    requires
        den > 0,
    ensures
        q == round_half_even(num as nat, den as nat),
{
    let q = num / den;
    let r = num % den;
    if den >= 2 {
        assert(q <= num / 2) by (nonlinear_arith)
            requires
                q == num / den,
                den >= 2,
        ;
    }
    if r > den - r {
        q + 1
    } else if r < den - r {
        q
    } else if q % 2 == 0 {
        q
    } else {
        q + 1
    }
}

/// The rendering of `units / 10^places` with exactly `places` fraction
/// digits (`places` of 1 or 2).
pub open spec fn fixed(units: nat, places: nat) -> Seq<char> {
    let scale: nat = if places == 1 {
        10
    } else {
        100
    };
    decimal(units / scale) + seq!['.'] + padded(units % scale, places)
}

/// Appends `units / 10^places` with `places` (1 or 2) fraction digits.
pub fn push_fixed(s: &mut String, units: u128, places: usize)
    requires
        places == 1 || places == 2,
    ensures
        final(s)@ == old(s)@ + fixed(units as nat, places as nat),
{
    let scale: u128 = if places == 1 {
        10
    } else {
        100
    };
    push_decimal(s, units / scale);
    push_char(s, '.');
    push_padded(s, units % scale, places);
    assert(fixed(units as nat, places as nat) == decimal((units / scale) as nat) + seq!['.']
        + padded((units % scale) as nat, places as nat));
}


/// The characters that survive a filter dropping white space.
pub open spec fn without_ws(s: Seq<char>) -> Seq<char>
    decreases s.len(),
{
    if s.len() == 0 {
        seq![]
    } else if is_ws(s.last()) {
        without_ws(s.drop_last())
    } else {
        without_ws(s.drop_last()).push(s.last())
    }
}

/// `s` with every white-space character removed.
pub fn strip_ws(v: &[char]) -> (r: Vec<char>)
    ensures
        r@ == without_ws(v@),
{
    let mut r: Vec<char> = Vec::new();
    for i in 0..v.len()
        invariant
            r@ == without_ws(v@.take(i as int)),
    {
        assert(v@.take(i + 1).drop_last() == v@.take(i as int));
        if !is_whitespace(v[i]) {
            r.push(v[i]);
        }
    }
    assert(v@.take(v@.len() as int) == v@);
    r
}

/// What `split_whitespace` followed by `join(" ")` yields: runs of white
/// space become one space, and leading or trailing white space disappears.
pub open spec fn collapse_ws(s: Seq<char>) -> Seq<char>
    decreases s.len(),
{
    if s.len() == 0 {
        seq![]
    } else {
        let p = collapse_ws(s.drop_last());
        let c = s.last();
        if is_ws(c) {
            p
        } else if s.len() >= 2 && !is_ws(s[s.len() - 2]) {
            p.push(c)
        } else if p.len() == 0 {
            p.push(c)
        } else {
            p.push(' ').push(c)
        }
    }
}

/// Every character of a collapsed text is a plain space or not white space
/// at all, so no line break survives.
pub proof fn lemma_collapse_ws_single_spaces(s: Seq<char>)
    ensures
        forall|j: int|
            0 <= j < collapse_ws(s).len() ==> #[trigger] collapse_ws(s)[j] == ' ' || !is_ws(
                collapse_ws(s)[j],
            ),
    decreases s.len(),
{
    if s.len() > 0 {
        lemma_collapse_ws_single_spaces(s.drop_last());
        let p = collapse_ws(s.drop_last());
        assert forall|j: int| 0 <= j < collapse_ws(s).len() implies #[trigger] collapse_ws(s)[j]
            == ' ' || !is_ws(collapse_ws(s)[j]) by {
            if j < p.len() {
                assert(collapse_ws(s)[j] == p[j]);
            }
        }
    }
}

/// Collapses white space runs as `split_whitespace().join(" ")` does.
pub fn collapse_whitespace(v: &[char]) -> (r: Vec<char>)
    ensures
        r@ == collapse_ws(v@),
{
    let mut r: Vec<char> = Vec::new();
    for i in 0..v.len()
        invariant
            r@ == collapse_ws(v@.take(i as int)),
    {
        let ghost t = v@.take(i + 1);
        assert(t.drop_last() == v@.take(i as int));
        let c = v[i];
        if is_whitespace(c) {
        } else if i >= 1 && !is_whitespace(v[i - 1]) {
            r.push(c);
        } else if r.len() == 0 {
            r.push(c);
        } else {
            r.push(' ');
            r.push(c);
        }
    }
    assert(v@.take(v@.len() as int) == v@);
    r
}

/// Number of leading white-space characters.
pub open spec fn leading_ws(s: Seq<char>) -> nat
    decreases s.len(),
{
    if s.len() > 0 && is_ws(s[0]) {
        1 + leading_ws(s.drop_first())
    } else {
        0
    }
}

/// Number of trailing white-space characters.
pub open spec fn trailing_ws(s: Seq<char>) -> nat
    decreases s.len(),
{
    if s.len() > 0 && is_ws(s.last()) {
        1 + trailing_ws(s.drop_last())
    } else {
        0
    }
}

/// `str::trim`: white space removed from both ends.
pub open spec fn trimmed(s: Seq<char>) -> Seq<char> {
    let t = s.skip(leading_ws(s) as int);
    t.take(t.len() - trailing_ws(t))
}

proof fn lemma_leading_ws(s: Seq<char>, i: int)
    requires
        0 <= i <= s.len(),
        forall|j: int| 0 <= j < i ==> is_ws(#[trigger] s[j]),
        i == s.len() || !is_ws(s[i]),
    ensures
        leading_ws(s) == i,
    decreases i,
{
    if i > 0 {
        assert forall|j: int| 0 <= j < i - 1 implies is_ws(#[trigger] s.drop_first()[j]) by {
            assert(s.drop_first()[j] == s[j + 1]);
        }
        lemma_leading_ws(s.drop_first(), i - 1);
    }
}

proof fn lemma_trailing_ws(s: Seq<char>, k: int)
    requires
        0 <= k <= s.len(),
        forall|j: int| s.len() - k <= j < s.len() ==> is_ws(#[trigger] s[j]),
        k == s.len() || !is_ws(s[s.len() - k - 1]),
    ensures
        trailing_ws(s) == k,
    decreases k,
{
    if k > 0 {
        let d = s.drop_last();
        assert forall|j: int| d.len() - (k - 1) <= j < d.len() implies is_ws(#[trigger] d[j]) by {
            assert(d[j] == s[j]);
        }
        lemma_trailing_ws(d, k - 1);
    }
}

/// Index bounds `(start, end)` of the trimmed part of `v`.
pub fn trim_bounds(v: &[char]) -> (r: (usize, usize))
    ensures
        r.0 <= r.1 <= v@.len(),
        v@.subrange(r.0 as int, r.1 as int) == trimmed(v@),
{
    let n = v.len();
    let mut a: usize = 0;
    while a < n && is_whitespace(v[a])
        invariant
            a <= n,
            n == v@.len(),
            forall|j: int| 0 <= j < a ==> is_ws(#[trigger] v@[j]),
        decreases n - a,
    {
        a = a + 1;
    }
    proof {
        lemma_leading_ws(v@, a as int);
    }
    let mut b: usize = n;
    while b > a && is_whitespace(v[b - 1])
        invariant
            a <= b <= n,
            n == v@.len(),
            forall|j: int| b <= j < n ==> is_ws(#[trigger] v@[j]),
        decreases b - a,
    {
        b = b - 1;
    }
    proof {
        let t = v@.skip(a as int);
        assert forall|j: int| t.len() - (n - b) <= j < t.len() implies is_ws(#[trigger] t[j]) by {
            assert(t[j] == v@[j + a]);
        }
        if b > a {
            assert(t[t.len() - (n - b) - 1] == v@[b - 1]);
        }
        lemma_trailing_ws(t, (n - b) as int);
        assert(t.take(t.len() - trailing_ws(t)) == v@.subrange(a as int, b as int));
    }
    (a, b)
}

/// `str::trim` as a fresh character vector.
pub fn trim_chars(v: &[char]) -> (r: Vec<char>)
    ensures
        r@ == trimmed(v@),
{
    let (a, b) = trim_bounds(v);
    let mut r: Vec<char> = Vec::new();
    for i in a..b
        invariant
            a <= b <= v@.len(),
            r@ == v@.subrange(a as int, i as int),
    {
        r.push(v[i]);
        assert(v@.subrange(a as int, i + 1) == v@.subrange(a as int, i as int).push(v@[i as int]));
    }
    r
}

/// Whether `t` occurs as a contiguous run inside `s`.
pub open spec fn has_infix(s: Seq<char>, t: Seq<char>) -> bool {
    exists|i: int| 0 <= i && i + t.len() <= s.len() && #[trigger] s.subrange(i, i + t.len()) == t
}

fn matches_at(s: &[char], t: &[char], i: usize) -> (r: bool)
    requires
        i + t@.len() <= s@.len(),
    ensures
        r == (s@.subrange(i as int, i + t@.len()) == t@),
{
    let n = s.len();
    let mut k: usize = 0;
    while k < t.len()
        invariant
            n == s@.len(),
            i + t@.len() <= s@.len(),
            k <= t@.len(),
            forall|j: int| 0 <= j < k ==> s@[i + j] == t@[j],
        decreases t@.len() - k,
    {
        if s[i + k] != t[k] {
            assert(s@.subrange(i as int, i + t@.len())[k as int] != t@[k as int]);
            return false;
        }
        k = k + 1;
    }
    assert(s@.subrange(i as int, i + t@.len()) == t@);
    true
}

/// Substring search (`str::contains`).
pub fn contains_chars(s: &[char], t: &[char]) -> (r: bool)
    ensures
        r == has_infix(s@, t@),
{
    if t.len() > s.len() {
        return false;
    }
    let last = s.len() - t.len();
    let mut i: usize = 0;
    loop
        invariant
            last == s@.len() - t@.len(),
            t@.len() <= s@.len(),
            i <= last,
            forall|j: int| 0 <= j < i ==> #[trigger] s@.subrange(j, j + t@.len()) != t@,
        decreases last - i,
    {
        if matches_at(s, t, i) {
            return true;
        }
        if i == last {
            return false;
        }
        i = i + 1;
    }
}

/// Lower-case mapping of a text, as `str::to_lowercase` computes it.
pub uninterp spec fn lowercase(s: Seq<char>) -> Seq<char>;

/// Calls `str::to_lowercase`; its full Unicode mapping is not restated here,
/// only that the result is that function of the input characters.
#[verifier::external_body]
pub(crate) fn to_lowercase(s: &str) -> (r: String)
    ensures
        r@ == lowercase(s@),
{
    s.to_lowercase()
}

/// The part of `s` before the first `c` (all of `s` when `c` is absent), as
/// `split(c).next()` yields it.
pub open spec fn before_first(s: Seq<char>, c: char) -> Seq<char>
    decreases s.len(),
{
    if s.len() == 0 {
        s
    } else if s[0] == c {
        seq![]
    } else {
        seq![s[0]] + before_first(s.drop_first(), c)
    }
}

pub(crate) proof fn lemma_before_first(s: Seq<char>, c: char, k: int)
    requires
        0 <= k <= s.len(),
        forall|j: int| 0 <= j < k ==> #[trigger] s[j] != c,
        k == s.len() || s[k] == c,
    ensures
        before_first(s, c) == s.take(k),
    decreases k,
{
    if k > 0 {
        assert forall|j: int| 0 <= j < k - 1 implies #[trigger] s.drop_first()[j] != c by {
            assert(s.drop_first()[j] == s[j + 1]);
        }
        lemma_before_first(s.drop_first(), c, k - 1);
        assert(seq![s[0]] + s.drop_first().take(k - 1) == s.take(k));
    }
}

/// The characters before the first occurrence of `c`.
pub fn prefix_before(v: &[char], c: char) -> (r: Vec<char>)
    ensures
        r@ == before_first(v@, c),
{
    let mut r: Vec<char> = Vec::new();
    let mut i: usize = 0;
    while i < v.len() && v[i] != c
        invariant
            i <= v@.len(),
            r@ == v@.take(i as int),
            forall|j: int| 0 <= j < i ==> #[trigger] v@[j] != c,
        decreases v@.len() - i,
    {
        r.push(v[i]);
        assert(v@.take(i + 1) == v@.take(i as int).push(v@[i as int]));
        i = i + 1;
    }
    proof {
        lemma_before_first(v@, c, i as int);
    }
    r
}

/// Number of bytes UTF-8 uses for a character.
pub open spec fn utf8_width(c: char) -> nat {
    let u = c as u32;
    if u < 0x80 {
        1
    } else if u < 0x800 {
        2
    } else if u < 0x10000 {
        3
    } else {
        4
    }
}

/// Length in bytes of the UTF-8 encoding of a text.
pub open spec fn utf8_len(s: Seq<char>) -> nat
    decreases s.len(),
{
    if s.len() == 0 {
        0
    } else {
        utf8_len(s.drop_last()) + utf8_width(s.last())
    }
}

/// Byte width of one character.
pub fn char_utf8_width(c: char) -> (w: usize)
    ensures
        w == utf8_width(c),
{
    let u = c as u32;
    if u < 0x80 {
        1
    } else if u < 0x800 {
        2
    } else if u < 0x10000 {
        3
    } else {
        4
    }
}


/// Whether two character vectors hold the same text.
pub fn same_chars(a: &[char], b: &[char]) -> (r: bool)
    ensures
        r == (a@ == b@),
{
    if a.len() != b.len() {
        return false;
    }
    let mut i: usize = 0;
    while i < a.len()
        invariant
            a@.len() == b@.len(),
            i <= a@.len(),
            forall|j: int| 0 <= j < i ==> a@[j] == b@[j],
        decreases a@.len() - i,
    {
        if a[i] != b[i] {
            return false;
        }
        i = i + 1;
    }
    assert(a@ == b@);
    true
}

/// Whether two string slices hold the same text.
pub fn same_text(a: &str, b: &str) -> (r: bool)
    ensures
        r == (a@ == b@),
{
    let x = chars_of(a);
    let y = chars_of(b);
    same_chars(x.as_slice(), y.as_slice())
}

/// Whether a string slice, trimmed, equals another text.
pub fn trimmed_equals(a: &str, b: &str) -> (r: bool)
    ensures
        r == (trimmed(a@) == b@),
{
    let x = chars_of(a);
    let t = trim_chars(x.as_slice());
    let y = chars_of(b);
    same_chars(t.as_slice(), y.as_slice())
}

/// Whether a string slice is empty or only white space.
pub fn is_blank(a: &str) -> (r: bool)
    ensures
        r == (trimmed(a@).len() == 0),
{
    let x = chars_of(a);
    let (lo, hi) = trim_bounds(x.as_slice());
    lo == hi
}

/// Whether `t` ends `s`.
pub open spec fn has_suffix(s: Seq<char>, t: Seq<char>) -> bool {
    t.len() <= s.len() && s.skip(s.len() - t.len()) == t
}

/// `str::ends_with`.
pub fn ends_with(s: &str, t: &str) -> (r: bool)
    ensures
        r == has_suffix(s@, t@),
{
    let a = chars_of(s);
    let b = chars_of(t);
    if b.len() > a.len() {
        return false;
    }
    let n = a.len();
    let off = n - b.len();
    let mut i: usize = 0;
    while i < b.len()
        invariant
            a@ == s@,
            b@ == t@,
            n == a@.len(),
            off + b@.len() == a@.len(),
            i <= b@.len(),
            forall|j: int| 0 <= j < i ==> #[trigger] a@.skip(off as int)[j] == b@[j],
        decreases b@.len() - i,
    {
        assert(a@.skip(off as int)[i as int] == a@[off + i]);
        if a[off + i] != b[i] {
            assert(a@.skip(off as int)[i as int] != b@[i as int]);
            return false;
        }
        i = i + 1;
    }
    assert(a@.skip(off as int) == b@);
    true
}

} // verus!
