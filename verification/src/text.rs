//! Character-level text utilities on which the parsers of this crate are built.
//!
//! Text is handled as a sequence of Unicode scalar values (`Seq<char>`), which is
//! the view that Verus gives to `str` and `String`.
use vstd::prelude::*;

verus! {

// ---------------------------------------------------------------------------
// Character classes
// ---------------------------------------------------------------------------

/// The characters that carry the Unicode `White_Space` property, which is what
/// `char::is_whitespace` (and so `str::trim`) tests.
pub open spec fn is_white_space(c: char) -> bool {
    let u = c as u32;
    ||| (0x09 <= u && u <= 0x0D)
    ||| u == 0x20
    ||| u == 0x85
    ||| u == 0xA0
    ||| u == 0x1680
    ||| (0x2000 <= u && u <= 0x200A)
    ||| u == 0x2028
    ||| u == 0x2029
    ||| u == 0x202F
    ||| u == 0x205F
    ||| u == 0x3000
}

/// The five characters that `char::is_ascii_whitespace` accepts.
pub open spec fn is_ascii_white_space(c: char) -> bool {
    c == ' ' || c == '\t' || c == '\n' || c == '\x0C' || c == '\r'
}

pub open spec fn is_digit(c: char) -> bool {
    '0' <= c && c <= '9'
}

/// The numeric value of a decimal digit character.
pub open spec fn digit_value(c: char) -> int {
    (c as u32) - ('0' as u32)
}

/// The decimal digit character for `d < 10`.
pub open spec fn digit_char(d: int) -> char {
    (d + ('0' as u32)) as char
}

pub fn white_space(c: char) -> (r: bool)
    ensures
        r == is_white_space(c),
{
    let u = c as u32;
    (0x09 <= u && u <= 0x0D) || u == 0x20 || u == 0x85 || u == 0xA0 || u == 0x1680 || (0x2000
        <= u && u <= 0x200A) || u == 0x2028 || u == 0x2029 || u == 0x202F || u == 0x205F || u
        == 0x3000
}

pub fn ascii_white_space(c: char) -> (r: bool)
    ensures
        r == is_ascii_white_space(c),
{
    c == ' ' || c == '\t' || c == '\n' || c == '\x0C' || c == '\r'
}

pub fn digit(c: char) -> (r: bool)
    ensures
        r == is_digit(c),
{
    '0' <= c && c <= '9'
}

// ---------------------------------------------------------------------------
// Trimming
// ---------------------------------------------------------------------------

/// Number of characters left after `str::trim_end`.
pub open spec fn trim_end_len(s: Seq<char>) -> nat
    decreases s.len(),
{
    if s.len() == 0 {
        0
    } else if is_white_space(s.last()) {
        trim_end_len(s.drop_last())
    } else {
        s.len()
    }
}

/// Number of characters that `str::trim_start` removes.
pub open spec fn trim_start_len(s: Seq<char>) -> nat
    decreases s.len(),
{
    if s.len() == 0 {
        0
    } else if is_white_space(s[0]) {
        1 + trim_start_len(s.drop_first())
    } else {
        0
    }
}

/// `s` without trailing white space.
pub open spec fn trim_end(s: Seq<char>) -> Seq<char> {
    s.take(trim_end_len(s) as int)
}

/// `s` without leading white space.
pub open spec fn trim_start(s: Seq<char>) -> Seq<char> {
    s.skip(trim_start_len(s) as int)
}

/// `s` without leading or trailing white space, as `str::trim` gives it.
pub open spec fn trim(s: Seq<char>) -> Seq<char> {
    trim_start(trim_end(s))
}

pub proof fn lemma_trim_end_len_bound(s: Seq<char>)
    ensures
        trim_end_len(s) <= s.len(),
    decreases s.len(),
{
    if s.len() > 0 && is_white_space(s.last()) {
        lemma_trim_end_len_bound(s.drop_last());
    }
}

pub proof fn lemma_trim_start_len_bound(s: Seq<char>)
    ensures
        trim_start_len(s) <= s.len(),
    decreases s.len(),
{
    if s.len() > 0 && is_white_space(s[0]) {
        lemma_trim_start_len_bound(s.drop_first());
    }
}

/// The end (exclusive) of `v[lo..hi]` once trailing white space is dropped.
pub fn trim_end_index(v: &Vec<char>, lo: usize, hi: usize) -> (e: usize)
    requires
        lo <= hi <= v.len(),
    ensures
        lo <= e <= hi,
        e - lo == trim_end_len(v@.subrange(lo as int, hi as int)),
{
    let mut e = hi;
    while e > lo && white_space(v[e - 1])
        invariant
            lo <= e <= hi <= v.len(),
            trim_end_len(v@.subrange(lo as int, hi as int)) == trim_end_len(
                v@.subrange(lo as int, e as int),
            ),
        decreases e,
    {
        assert(v@.subrange(lo as int, e as int).drop_last() =~= v@.subrange(
            lo as int,
            e - 1 as int,
        ));
        e = e - 1;
    }
    e
}

/// The start of `v[lo..hi]` once leading white space is dropped.
pub fn trim_start_index(v: &Vec<char>, lo: usize, hi: usize) -> (b: usize)
    requires
        lo <= hi <= v.len(),
    ensures
        lo <= b <= hi,
        b - lo == trim_start_len(v@.subrange(lo as int, hi as int)),
{
    let mut b = lo;
    while b < hi && white_space(v[b])
        invariant
            lo <= b <= hi <= v.len(),
            trim_start_len(v@.subrange(lo as int, hi as int)) == (b - lo) + trim_start_len(
                v@.subrange(b as int, hi as int),
            ),
        decreases hi - b,
    {
        assert(v@.subrange(b as int, hi as int).drop_first() =~= v@.subrange(
            b + 1 as int,
            hi as int,
        ));
        b = b + 1;
    }
    b
}

/// The bounds of `v[lo..hi]` trimmed on both sides, as `str::trim` does.
pub fn trim_bounds(v: &Vec<char>, lo: usize, hi: usize) -> (r: (usize, usize))
    requires
        lo <= hi <= v.len(),
    ensures
        lo <= r.0 <= r.1 <= hi,
        v@.subrange(r.0 as int, r.1 as int) == trim(v@.subrange(lo as int, hi as int)),
{
    let e = trim_end_index(v, lo, hi);
    let b = trim_start_index(v, lo, e);
    proof {
        let s = v@.subrange(lo as int, hi as int);
        assert(trim_end(s) =~= v@.subrange(lo as int, e as int));
        assert(trim_start(v@.subrange(lo as int, e as int)) =~= v@.subrange(b as int, e as int));
    }
    (b, e)
}

// ---------------------------------------------------------------------------
// Searching
// ---------------------------------------------------------------------------

/// `needle` occurs in `hay` starting at position `i`.
pub open spec fn occurs_at(hay: Seq<char>, needle: Seq<char>, i: int) -> bool {
    0 <= i && i + needle.len() <= hay.len() && hay.subrange(i, i + needle.len()) == needle
}

/// The first position at or after `start` where `needle` occurs in `hay`,
/// as `str::find` reports it (in characters rather than bytes).
pub open spec fn find_from(hay: Seq<char>, needle: Seq<char>, start: int) -> Option<int>
    decreases hay.len() + 1 - start,
{
    if start < 0 || start + needle.len() > hay.len() {
        None
    } else if occurs_at(hay, needle, start) {
        Some(start)
    } else {
        find_from(hay, needle, start + 1)
    }
}

/// The first position where `needle` occurs in `hay`.
pub open spec fn find(hay: Seq<char>, needle: Seq<char>) -> Option<int> {
    find_from(hay, needle, 0)
}

pub proof fn lemma_find_from_facts(hay: Seq<char>, needle: Seq<char>, start: int)
    requires
        0 <= start,
    ensures
        find_from(hay, needle, start) matches Some(i) ==> start <= i && occurs_at(hay, needle, i)
            && forall|j: int| start <= j < i ==> !occurs_at(hay, needle, j),
        find_from(hay, needle, start) is None ==> forall|j: int|
            start <= j ==> !occurs_at(hay, needle, j),
    decreases hay.len() + 1 - start,
{
    if start + needle.len() > hay.len() {
    } else if occurs_at(hay, needle, start) {
    } else {
        lemma_find_from_facts(hay, needle, start + 1);
    }
}

/// Does `hay[i..]` begin with `needle`?
fn matches_at(hay: &Vec<char>, needle: &Vec<char>, i: usize) -> (r: bool)
    requires
        i + needle.len() <= hay.len(),
    ensures
        r == occurs_at(hay@, needle@, i as int),
{
    let mut k: usize = 0;
    while k < needle.len()
        invariant
            k <= needle.len(),
            i + needle.len() <= hay.len(),
            forall|m: int| 0 <= m < k ==> hay@[i + m] == needle@[m],
        decreases needle.len() - k,
    {
        if hay[i + k] != needle[k] {
            proof {
                assert(hay@.subrange(i as int, i + needle.len())[k as int] != needle@[k as int]);
            }
            return false;
        }
        k = k + 1;
    }
    assert(hay@.subrange(i as int, i + needle.len()) =~= needle@);
    true
}

/// The first position at or after `start` where `needle` occurs in `hay`.
pub fn find_chars_from(hay: &Vec<char>, needle: &Vec<char>, start: usize) -> (r: Option<usize>)
    ensures
        r matches Some(i) ==> find_from(hay@, needle@, start as int) == Some(i as int),
        r is None ==> find_from(hay@, needle@, start as int) is None,
{
    let mut i = start;
    if i > hay.len() || needle.len() > hay.len() - i {
        return None;
    }
    if needle.len() == 0 {
        assert(hay@.subrange(i as int, i as int) =~= needle@);
        return Some(i);
    }
    while i <= hay.len() - needle.len()
        invariant
            start <= i <= hay.len() - needle.len() + 1,
            1 <= needle.len() <= hay.len(),
            find_from(hay@, needle@, start as int) == find_from(hay@, needle@, i as int),
        decreases hay.len() - i,
    {
        if matches_at(hay, needle, i) {
            return Some(i);
        }
        i = i + 1;
    }
    None
}

/// The first position where `needle` occurs in `hay`.
pub fn find_chars(hay: &Vec<char>, needle: &Vec<char>) -> (r: Option<usize>)
    ensures
        r matches Some(i) ==> find(hay@, needle@) == Some(i as int),
        r is None ==> find(hay@, needle@) is None,
{
    find_chars_from(hay, needle, 0)
}

/// `s` with every occurrence of `from` replaced by `to`, scanning from the left
/// without overlaps, as `str::replace` does for a non-empty `from`.
pub open spec fn replace_all(s: Seq<char>, from: Seq<char>, to: Seq<char>) -> Seq<char>
    decreases s.len(),
{
    if from.len() == 0 {
        s
    } else {
        match find(s, from) {
            None => s,
            Some(i) => if 0 <= i && i + from.len() <= s.len() {
                s.take(i) + to + replace_all(s.skip(i + from.len()), from, to)
            } else {
                s
            },
        }
    }
}

/// Searching the suffix `hay[p..]` finds what searching `hay` from `p` finds, shifted by `p`.
pub proof fn lemma_find_skip(hay: Seq<char>, needle: Seq<char>, p: int, q: int)
    requires
        0 <= p <= q,
        p <= hay.len(),
    ensures
        find_from(hay.skip(p), needle, q - p) == (match find_from(hay, needle, q) {
            Some(i) => Some(i - p),
            None => None,
        }),
    decreases hay.len() + 1 - q,
{
    let t = hay.skip(p);
    if q + needle.len() > hay.len() {
    } else {
        assert(occurs_at(t, needle, q - p) == occurs_at(hay, needle, q)) by {
            assert(t.subrange(q - p, q - p + needle.len()) =~= hay.subrange(q, q + needle.len()));
        }
        if !occurs_at(hay, needle, q) {
            lemma_find_skip(hay, needle, p, q + 1);
        }
    }
}

/// `s` with every occurrence of `from` replaced by `to` (`str::replace`).
pub fn replace_str(s: &Vec<char>, from: &Vec<char>, to: &Vec<char>) -> (r: String)
    requires
        from.len() > 0,
    ensures
        r@ == replace_all(s@, from@, to@),
{
    let mut out = String::new();
    let mut pos: usize = 0;
    assert(s@.skip(0) =~= s@);
    assert(out@ + replace_all(s@, from@, to@) =~= replace_all(s@, from@, to@));
    loop
        invariant
            pos <= s.len(),
            from.len() > 0,
            out@ + replace_all(s@.skip(pos as int), from@, to@) == replace_all(s@, from@, to@),
        decreases s.len() - pos,
    {
        let found = find_chars_from(s, from, pos);
        proof {
            lemma_find_skip(s@, from@, pos as int, pos as int);
            lemma_find_from_facts(s@, from@, pos as int);
        }
        match found {
            None => {
                push_chars(&mut out, s, pos, s.len());
                assert(s@.subrange(pos as int, s.len() as int) =~= s@.skip(pos as int));
                return out;
            },
            Some(i) => {
                let ghost rest = s@.skip(pos as int);
                push_chars(&mut out, s, pos, i);
                push_chars(&mut out, to, 0, to.len());
                proof {
                    assert(rest.take(i - pos) =~= s@.subrange(pos as int, i as int));
                    assert(to@.subrange(0, to@.len() as int) =~= to@);
                    assert(rest.skip(i - pos + from.len()) =~= s@.skip(i + from.len()));
                }
                pos = i + from.len();
            },
        }
    }
}

// ---------------------------------------------------------------------------
// Conversions between `str`, `String` and character vectors
// ---------------------------------------------------------------------------

/// The characters of `s`, in order.
pub fn chars_of(s: &str) -> (v: Vec<char>)
    ensures
        v@ == s@,
{
    let mut v: Vec<char> = Vec::new();
    for c in it: s.chars()
        invariant
            v@ == it.seq().take(it.index() as int),
            it.seq() == s@,
    {
        v.push(c);
    }
    v
}

/// Appends one character to a string (`String::push`).
#[verifier::external_body]
pub fn push_char(s: &mut String, c: char)
    ensures
        final(s)@ == old(s)@.push(c),
{
    s.push(c)
}

/// Appends the characters `v[lo..hi]` to `s`.
pub fn push_chars(s: &mut String, v: &Vec<char>, lo: usize, hi: usize)
    requires
        lo <= hi <= v.len(),
    ensures
        final(s)@ == old(s)@ + v@.subrange(lo as int, hi as int),
{
    let mut i = lo;
    while i < hi
        invariant
            lo <= i <= hi <= v.len(),
            s@ == old(s)@ + v@.subrange(lo as int, i as int),
        decreases hi - i,
    {
        push_char(s, v[i]);
        assert(v@.subrange(lo as int, i + 1 as int) =~= v@.subrange(lo as int, i as int).push(
            v@[i as int],
        ));
        i = i + 1;
    }
}

/// A new string holding the characters `v[lo..hi]`.
pub fn string_of(v: &Vec<char>, lo: usize, hi: usize) -> (s: String)
    requires
        lo <= hi <= v.len(),
    ensures
        s@ == v@.subrange(lo as int, hi as int),
{
    let mut s = String::new();
    push_chars(&mut s, v, lo, hi);
    s
}

/// A new string holding the characters of `t`.
pub fn string_from(t: &str) -> (s: String)
    ensures
        s@ == t@,
{
    let v = chars_of(t);
    string_of(&v, 0, v.len())
}

/// Appends the characters of `t` to `s`.
pub fn push_str(s: &mut String, t: &str)
    ensures
        final(s)@ == old(s)@ + t@,
{
    let v = chars_of(t);
    push_chars(s, &v, 0, v.len());
    assert(v@.subrange(0, v@.len() as int) =~= v@);
}

/// Do `a` and `b` hold the same characters?
pub fn str_eq(a: &str, b: &str) -> (r: bool)
    ensures
        r == (a@ == b@),
{
    let va = chars_of(a);
    let vb = chars_of(b);
    if va.len() != vb.len() {
        return false;
    }
    let mut i: usize = 0;
    while i < va.len()
        invariant
            i <= va.len() == vb.len(),
            va@ == a@,
            vb@ == b@,
            forall|k: int| 0 <= k < i ==> va@[k] == vb@[k],
        decreases va.len() - i,
    {
        if va[i] != vb[i] {
            assert(va@[i as int] != vb@[i as int]);
            return false;
        }
        i = i + 1;
    }
    assert(va@ =~= vb@);
    true
}

/// Does the character vector `k` spell `lit`?
pub fn eq_literal(k: &Vec<char>, lit: &str) -> (r: bool)
    ensures
        r == (k@ == lit@),
{
    let v = chars_of(lit);
    if k.len() != v.len() {
        return false;
    }
    let mut i: usize = 0;
    while i < k.len()
        invariant
            i <= k.len() == v.len(),
            v@ == lit@,
            forall|m: int| 0 <= m < i ==> k@[m] == v@[m],
        decreases k.len() - i,
    {
        if k[i] != v[i] {
            assert(k@[i as int] != v@[i as int]);
            return false;
        }
        i = i + 1;
    }
    assert(k@ =~= v@);
    true
}

// ---------------------------------------------------------------------------
// Decimal numerals
// ---------------------------------------------------------------------------

/// The decimal numeral of `n`, without leading zeros, as `{}` formats it.
pub open spec fn decimal(n: nat) -> Seq<char>
    decreases n,
{
    if n < 10 {
        seq![digit_char(n as int)]
    } else {
        decimal(n / 10).push(digit_char((n % 10) as int))
    }
}

/// The numeral of `n < 100` on two digits, as `{:02}` formats it.
pub open spec fn two_digits(n: nat) -> Seq<char> {
    seq![digit_char((n / 10) as int), digit_char((n % 10) as int)]
}

/// Appends the decimal numeral of `n` to `s`.
pub fn push_decimal(s: &mut String, n: u64)
    ensures
        final(s)@ == old(s)@ + decimal(n as nat),
    decreases n,
{
    if n >= 10 {
        push_decimal(s, n / 10);
    }
    let c = ((n % 10) as u8 + 48u8) as char;
    push_char(s, c);
    proof {
        if n < 10 {
            assert(decimal(n as nat) =~= seq![digit_char(n as int)]);
        }
    }
    assert(s@ =~= old(s)@ + decimal(n as nat));
}

/// The decimal numeral of `n` as a new string.
pub fn decimal_string(n: u64) -> (s: String)
    ensures
        s@ == decimal(n as nat),
{
    let mut s = String::new();
    push_decimal(&mut s, n);
    assert(s@ =~= decimal(n as nat));
    s
}

/// Appends `n < 100` on two digits to `s`.
pub fn push_two_digits(s: &mut String, n: u32)
    requires
        n < 100,
    ensures
        final(s)@ == old(s)@ + two_digits(n as nat),
{
    let hi = ((n / 10) as u8 + 48u8) as char;
    let lo = ((n % 10) as u8 + 48u8) as char;
    push_char(s, hi);
    push_char(s, lo);
    assert(s@ =~= old(s)@ + two_digits(n as nat));
}

} // verus!
