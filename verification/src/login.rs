//! Reading the output of AtomCode's `/login` command: the plan, the days left, the
//! usage and the reset time of the account, and the name it is logged in as.
use vstd::prelude::*;

use crate::datetime::{
    combine_reset_datetime, format_minute_stamp, minute_stamp, reset_moment, LocalDateTime,
    MAX_YEAR,
};
use crate::models::{ManagedAccount, Percent};
use crate::text::{
    chars_of, digit, digit_value, find, find_chars, find_chars_from, find_from, is_ascii_white_space,
    is_digit, is_white_space, lemma_find_from_facts, lemma_trim_end_len_bound,
    lemma_trim_start_len_bound, occurs_at, string_of, trim, trim_bounds, trim_end,
    trim_end_index, trim_end_len, trim_start_len, white_space, ascii_white_space,
};

verus! {

// ---------------------------------------------------------------------------
// Runs of characters
// ---------------------------------------------------------------------------

/// The classes of characters that the parser reads runs of.
pub enum CharClass {
    /// `0`..`9`
    Digit,
    /// `0`..`9` and `.`
    DigitOrDot,
    /// Unicode white space
    Space,
    /// Anything but ASCII white space and `。`
    NameChar,
}

pub open spec fn in_class(k: CharClass, c: char) -> bool {
    match k {
        CharClass::Digit => is_digit(c),
        CharClass::DigitOrDot => is_digit(c) || c == '.',
        CharClass::Space => is_white_space(c),
        CharClass::NameChar => !(is_ascii_white_space(c) || c == '。'),
    }
}

fn class_has(k: &CharClass, c: char) -> (r: bool)
    ensures
        r == in_class(*k, c),
{
    match k {
        CharClass::Digit => digit(c),
        CharClass::DigitOrDot => digit(c) || c == '.',
        CharClass::Space => white_space(c),
        CharClass::NameChar => !(ascii_white_space(c) || c == '。'),
    }
}

/// The end of the run of characters of class `k` that starts at `i`.
pub open spec fn run_end(t: Seq<char>, i: int, k: CharClass) -> int
    decreases t.len() - i,
{
    if 0 <= i < t.len() && in_class(k, t[i]) {
        run_end(t, i + 1, k)
    } else {
        i
    }
}

/// The start of the run of digits that ends just before `i`.
pub open spec fn digits_start(t: Seq<char>, i: int) -> int
    decreases i,
{
    if 0 < i <= t.len() && is_digit(t[i - 1]) {
        digits_start(t, i - 1)
    } else {
        i
    }
}

proof fn lemma_run_end(t: Seq<char>, i: int, k: CharClass)
    requires
        0 <= i <= t.len(),
    ensures
        i <= run_end(t, i, k) <= t.len(),
        forall|j: int| i <= j < run_end(t, i, k) ==> in_class(k, #[trigger] t[j]),
        run_end(t, i, k) < t.len() ==> !in_class(k, t[run_end(t, i, k)]),
    decreases t.len() - i,
{
    if i < t.len() && in_class(k, t[i]) {
        lemma_run_end(t, i + 1, k);
    }
}

proof fn lemma_digits_start(t: Seq<char>, i: int)
    requires
        0 <= i <= t.len(),
    ensures
        0 <= digits_start(t, i) <= i,
        forall|j: int| digits_start(t, i) <= j < i ==> is_digit(#[trigger] t[j]),
    decreases i,
{
    if 0 < i && is_digit(t[i - 1]) {
        lemma_digits_start(t, i - 1);
    }
}

fn scan_run(v: &Vec<char>, i: usize, k: CharClass) -> (r: usize)
    requires
        i <= v.len(),
    ensures
        r == run_end(v@, i as int, k),
        i <= r <= v.len(),
{
    let mut j = i;
    while j < v.len() && class_has(&k, v[j])
        invariant
            i <= j <= v.len(),
            run_end(v@, i as int, k) == run_end(v@, j as int, k),
        decreases v.len() - j,
    {
        j = j + 1;
    }
    j
}

fn scan_digits_back(v: &Vec<char>, i: usize) -> (r: usize)
    requires
        i <= v.len(),
    ensures
        r == digits_start(v@, i as int),
        r <= i,
{
    let mut j = i;
    while j > 0 && digit(v[j - 1])
        invariant
            j <= i <= v.len(),
            digits_start(v@, i as int) == digits_start(v@, j as int),
        decreases j,
    {
        j = j - 1;
    }
    j
}

// ---------------------------------------------------------------------------
// Numbers
// ---------------------------------------------------------------------------

/// The value of a string of decimal digits.
pub open spec fn digits_value(s: Seq<char>) -> nat
    decreases s.len(),
{
    if s.len() == 0 {
        0
    } else {
        digits_value(s.drop_last()) * 10 + digit_value(s.last()) as nat
    }
}

/// `str::parse::<u32>` of a string of decimal digits: its value when it fits.
pub open spec fn digits_u32(s: Seq<char>) -> Option<u32> {
    if s.len() > 0 && digits_value(s) <= u32::MAX {
        Some(digits_value(s) as u32)
    } else {
        None
    }
}

proof fn lemma_digits_value_prefix(s: Seq<char>, k: int)
    requires
        0 <= k <= s.len(),
        forall|j: int| 0 <= j < s.len() ==> is_digit(#[trigger] s[j]),
    ensures
        digits_value(s.take(k)) <= digits_value(s),
    decreases s.len(),
{
    if k < s.len() {
        assert(s.drop_last().take(k) =~= s.take(k));
        lemma_digits_value_prefix(s.drop_last(), k);
        assert(s.take(s.len() as int) =~= s);
    } else {
        assert(s.take(k) =~= s);
    }
}

/// Parses the digits `v[lo..hi]` as a `u32`.
fn parse_digits(v: &Vec<char>, lo: usize, hi: usize) -> (r: Option<u32>)
    requires
        lo <= hi <= v.len(),
        forall|j: int| lo <= j < hi ==> is_digit(#[trigger] v@[j]),
    ensures
        r == digits_u32(v@.subrange(lo as int, hi as int)),
{
    let ghost s = v@.subrange(lo as int, hi as int);
    if lo == hi {
        return None;
    }
    let mut acc: u32 = 0;
    let mut i = lo;
    while i < hi
        invariant
            lo <= i <= hi <= v.len(),
            s == v@.subrange(lo as int, hi as int),
            forall|j: int| lo <= j < hi ==> is_digit(#[trigger] v@[j]),
            acc == digits_value(s.take(i - lo)),
        decreases hi - i,
    {
        let d = (v[i] as u32) - ('0' as u32);
        assert(is_digit(v@[i as int]));
        assert(s.take(i - lo + 1).drop_last() =~= s.take(i - lo));
        assert(s.take(i - lo + 1).last() == v@[i as int]);
        if acc > (u32::MAX - d) / 10 {
            proof {
                assert(digits_value(s.take(i - lo + 1)) > u32::MAX) by (nonlinear_arith)
                    requires
                        acc > (u32::MAX - d) / 10,
                        digits_value(s.take(i - lo + 1)) == acc * 10 + d,
                        d <= 9,
                ;
                lemma_digits_value_prefix(s, i - lo + 1);
            }
            return None;
        }
        acc = acc * 10 + d;
        i = i + 1;
    }
    assert(s.take(hi - lo) =~= s);
    Some(acc)
}

// ---------------------------------------------------------------------------
// The fields of the output
// ---------------------------------------------------------------------------

/// Text from `a` up to the first `·` after it, else up to the first line break after
/// it, trimmed; nothing when neither follows.
pub open spec fn text_until_separator(t: Seq<char>, a: int) -> Option<Seq<char>> {
    match find_from(t, "·"@, a) {
        Some(e) => Some(trim(t.subrange(a, e))),
        None => match find_from(t, "\n"@, a) {
            Some(e) => Some(trim(t.subrange(a, e))),
            None => None,
        },
    }
}

/// The plan name: what follows `套餐：` (or `Plan:` when the output has no `套餐：`).
pub open spec fn plan_from(t: Seq<char>) -> Option<Seq<char>> {
    match find(t, "套餐："@) {
        Some(s) => text_until_separator(t, s + "套餐："@.len()),
        None => match find(t, "Plan:"@) {
            Some(s) => text_until_separator(t, s + "Plan:"@.len()),
            None => None,
        },
    }
}

/// The days left: the digits after `剩余 `, or the digits just before `d /` when the
/// output has no `剩余 `.
pub open spec fn days_from(t: Seq<char>) -> Option<u32> {
    match find(t, "剩余 "@) {
        Some(p) => {
            let a = p + "剩余 "@.len();
            digits_u32(t.subrange(a, run_end(t, a, CharClass::Digit)))
        },
        None => match find(t, "d /"@) {
            Some(p) => digits_u32(t.subrange(digits_start(t, p), p)),
            None => None,
        },
    }
}

/// The usage figure: the digits and points after `用量约` and any white space.
pub open spec fn usage_text(t: Seq<char>) -> Option<Seq<char>> {
    match find(t, "用量约"@) {
        Some(p) => {
            let b = run_end(t, p + "用量约"@.len(), CharClass::Space);
            let u = t.subrange(b, run_end(t, b, CharClass::DigitOrDot));
            if u.len() > 0 {
                Some(u)
            } else {
                None
            }
        },
        None => None,
    }
}

/// On the first line that holds `marker`, the text between its first occurrence and
/// the next one (or the end of the line), trimmed.
pub open spec fn text_after_on_line(t: Seq<char>, marker: Seq<char>) -> Option<Seq<char>> {
    match find(t, marker) {
        Some(p) => {
            let a = p + marker.len();
            let e1 = match find_from(t, "\n"@, a) {
                Some(e) => e,
                None => t.len() as int,
            };
            let e2 = match find_from(t, marker, a) {
                Some(e) => e,
                None => t.len() as int,
            };
            let e = if e1 < e2 {
                e1
            } else {
                e2
            };
            Some(trim(t.subrange(a, e)))
        },
        None => None,
    }
}

/// The reset time as written: after `重置于`, or after `resets` when no `重置于` occurs.
pub open spec fn reset_text(t: Seq<char>) -> Option<Seq<char>> {
    match text_after_on_line(t, "重置于"@) {
        Some(r) => Some(r),
        None => text_after_on_line(t, "resets"@),
    }
}

/// `HH:MM` with an hour below 24 and a minute below 60.
pub open spec fn clock_time(s: Seq<char>) -> Option<(int, int)> {
    if s.len() == 5 && is_digit(s[0]) && is_digit(s[1]) && s[2] == ':' && is_digit(s[3])
        && is_digit(s[4]) {
        let h = digit_value(s[0]) * 10 + digit_value(s[1]);
        let m = digit_value(s[3]) * 10 + digit_value(s[4]);
        if h < 24 && m < 60 {
            Some((h, m))
        } else {
            None
        }
    } else {
        None
    }
}

/// The reset time to store: a clock time `HH:MM` becomes the `YYYY-MM-DD HH:MM` of
/// its next occurrence; other text is kept as written.
pub open spec fn reset_from(t: Seq<char>, now: LocalDateTime) -> Option<Seq<char>> {
    match reset_text(t) {
        Some(r) => match clock_time(r) {
            Some((h, m)) => Some(minute_stamp(reset_moment(now, h, m))),
            None => Some(r),
        },
        None => None,
    }
}

// ---------------------------------------------------------------------------
// Executable readers
// ---------------------------------------------------------------------------

/// The first occurrence of `needle` at or after `start` is at `i` when it occurs there
/// and nowhere in between.
proof fn lemma_find_from_first(hay: Seq<char>, needle: Seq<char>, start: int, i: int)
    requires
        0 <= start <= i,
        occurs_at(hay, needle, i),
        forall|j: int| start <= j < i ==> !occurs_at(hay, needle, j),
    ensures
        find_from(hay, needle, start) == Some(i),
    decreases i - start,
{
    if start < i {
        lemma_find_from_first(hay, needle, start + 1, i);
    }
}

/// In `u` followed by a line break and `x`, a needle without line breaks occurs at a
/// position within `u` exactly where it occurs in `u`, and never across the break.
proof fn lemma_occurs_before_break(u: Seq<char>, x: Seq<char>, m: Seq<char>, j: int)
    requires
        0 <= j,
        forall|i: int| 0 <= i < m.len() ==> m[i] != '\n',
    ensures
        j + m.len() <= u.len() ==> (occurs_at(u + "\n"@ + x, m, j) == occurs_at(u, m, j)),
        j <= u.len() < j + m.len() ==> !occurs_at(u + "\n"@ + x, m, j),
{
    reveal_strlit("\n");
    let w = u + "\n"@ + x;
    if j + m.len() <= u.len() {
        assert(w.subrange(j, j + m.len()) =~= u.subrange(j, j + m.len()));
    } else if j <= u.len() && occurs_at(w, m, j) {
        assert(w.subrange(j, j + m.len())[u.len() - j] == w[u.len() as int]);
        assert(m[u.len() - j] == '\n');
    }
}

/// What follows the marker is read from its own line only: it holds no line break.
pub proof fn law_text_after_marker_has_no_line_break(t: Seq<char>, marker: Seq<char>)
    ensures
        text_after_on_line(t, marker) matches Some(r) ==> forall|i: int|
            0 <= i < r.len() ==> r[i] != '\n',
{
    reveal_strlit("\n");
    if let Some(p) = find(t, marker) {
        lemma_find_from_facts(t, marker, 0);
        let a = p + marker.len();
        lemma_find_from_facts(t, "\n"@, a);
        lemma_find_from_facts(t, marker, a);
        let e1 = match find_from(t, "\n"@, a) {
            Some(e) => e,
            None => t.len() as int,
        };
        let e2 = match find_from(t, marker, a) {
            Some(e) => e,
            None => t.len() as int,
        };
        let e = if e1 < e2 {
            e1
        } else {
            e2
        };
        let sub = t.subrange(a, e);
        assert(forall|k: int| 0 <= k < sub.len() ==> sub[k] != '\n') by {
            assert forall|k: int| 0 <= k < sub.len() implies sub[k] != '\n' by {
                assert(a <= a + k < e1);
                assert(!occurs_at(t, "\n"@, a + k));
                assert(t.subrange(a + k, a + k + 1) =~= seq![sub[k]]);
                if sub[k] == '\n' {
                    assert(seq![sub[k]] =~= "\n"@);
                }
            }
        }
        lemma_trim_end_len_bound(sub);
        lemma_trim_start_len_bound(sub.take(trim_end_len(sub) as int));
        let r = trim(sub);
        assert forall|i: int| 0 <= i < r.len() implies r[i] != '\n' by {
            let l = trim_start_len(sub.take(trim_end_len(sub) as int));
            assert(r[i] == sub[l + i]);
        }
    }
}

/// Once a text holds the marker, a line break and anything after it do not change
/// what is read: only the rest of the marker's own line counts, so further lines may
/// be appended or inserted after it.
pub proof fn law_text_after_marker_ignores_later_lines(
    u: Seq<char>,
    x: Seq<char>,
    marker: Seq<char>,
)
    requires
        find(u, marker) is Some,
        forall|i: int| 0 <= i < marker.len() ==> marker[i] != '\n',
    ensures
        text_after_on_line(u + "\n"@ + x, marker) == text_after_on_line(u, marker),
{
    reveal_strlit("\n");
    let w = u + "\n"@ + x;
    let nl = "\n"@;
    let p = find(u, marker)->0;
    lemma_find_from_facts(u, marker, 0);
    assert forall|j: int| 0 <= j < p implies !occurs_at(w, marker, j) by {
        lemma_occurs_before_break(u, x, marker, j);
    }
    lemma_occurs_before_break(u, x, marker, p);
    lemma_find_from_first(w, marker, 0, p);
    let a = p + marker.len();
    assert(a <= u.len());
    // The end of the line.
    lemma_find_from_facts(u, nl, a);
    assert forall|j: int| 0 <= j && j + 1 <= u.len() implies occurs_at(w, nl, j) == occurs_at(
        u,
        nl,
        j,
    ) by {
        assert(w.subrange(j, j + 1) =~= u.subrange(j, j + 1));
    }
    match find_from(u, nl, a) {
        Some(e) => {
            lemma_find_from_first(w, nl, a, e);
        },
        None => {
            assert(w.subrange(u.len() as int, u.len() + 1 as int) =~= nl);
            lemma_find_from_first(w, nl, a, u.len() as int);
        },
    }
    // The next occurrence of the marker.
    lemma_find_from_facts(u, marker, a);
    lemma_find_from_facts(w, marker, a);
    match find_from(u, marker, a) {
        Some(q) => {
            assert forall|j: int| a <= j < q implies !occurs_at(w, marker, j) by {
                lemma_occurs_before_break(u, x, marker, j);
            }
            lemma_occurs_before_break(u, x, marker, q);
            lemma_find_from_first(w, marker, a, q);
        },
        None => {
            if let Some(q) = find_from(w, marker, a) {
                lemma_occurs_before_break(u, x, marker, q);
                assert(q > u.len());
            }
        },
    }
    let e1 = match find_from(u, nl, a) {
        Some(e) => e,
        None => u.len() as int,
    };
    let e2 = match find_from(u, marker, a) {
        Some(e) => e,
        None => u.len() as int,
    };
    let e = if e1 < e2 {
        e1
    } else {
        e2
    };
    assert(w.subrange(a, e) =~= u.subrange(a, e));
}

/// The reset time is taken from the line that holds `重置于`: lines after it never
/// change the stored reset time, and the reset text read holds no line break.
pub proof fn law_reset_read_from_its_line(u: Seq<char>, x: Seq<char>, now: LocalDateTime)
    requires
        find(u, "重置于"@) is Some,
    ensures
        reset_from(u + "\n"@ + x, now) == reset_from(u, now),
        reset_text(u) matches Some(r) ==> forall|i: int| 0 <= i < r.len() ==> r[i] != '\n',
{
    reveal_strlit("重置于");
    law_text_after_marker_ignores_later_lines(u, x, "重置于"@);
    law_text_after_marker_has_no_line_break(u, "重置于"@);
}

/// Likewise for English output, which marks the reset time with `resets`: when no
/// `重置于` occurs, lines after the one holding `resets` never change the stored reset
/// time, and the reset text read holds no line break.
pub proof fn law_english_reset_read_from_its_line(u: Seq<char>, x: Seq<char>, now: LocalDateTime)
    requires
        find(u, "resets"@) is Some,
        find(u + "\n"@ + x, "重置于"@) is None,
    ensures
        reset_from(u + "\n"@ + x, now) == reset_from(u, now),
        reset_text(u) matches Some(r) ==> forall|i: int| 0 <= i < r.len() ==> r[i] != '\n',
{
    reveal_strlit("resets");
    reveal_strlit("重置于");
    law_text_after_marker_ignores_later_lines(u, x, "resets"@);
    law_text_after_marker_has_no_line_break(u, "resets"@);
    law_text_after_marker_has_no_line_break(u, "重置于"@);
    if find(u, "重置于"@) is Some {
        law_text_after_marker_ignores_later_lines(u, x, "重置于"@);
    }
}

fn find_literal(v: &Vec<char>, lit: &str) -> (r: Option<usize>)
    ensures
        r matches Some(i) ==> find(v@, lit@) == Some(i as int) && i + lit@.len() <= v.len(),
        r is None ==> find(v@, lit@) is None,
{
    let n = chars_of(lit);
    let r = find_chars(v, &n);
    proof {
        lemma_find_from_facts(v@, lit@, 0);
    }
    r
}

fn find_literal_from(v: &Vec<char>, lit: &str, start: usize) -> (r: Option<usize>)
    ensures
        r matches Some(i) ==> find_from(v@, lit@, start as int) == Some(i as int) && start <= i
            && i + lit@.len() <= v.len(),
        r is None ==> find_from(v@, lit@, start as int) is None,
{
    let n = chars_of(lit);
    let r = find_chars_from(v, &n, start);
    proof {
        lemma_find_from_facts(v@, lit@, start as int);
    }
    r
}

fn literal_len(lit: &str) -> (r: usize)
    ensures
        r == lit@.len(),
{
    chars_of(lit).len()
}

/// `v[lo..hi]` trimmed, as a string.
fn trimmed_string(v: &Vec<char>, lo: usize, hi: usize) -> (r: String)
    requires
        lo <= hi <= v.len(),
    ensures
        r@ == trim(v@.subrange(lo as int, hi as int)),
{
    let (b, e) = trim_bounds(v, lo, hi);
    string_of(v, b, e)
}

fn read_until_separator(v: &Vec<char>, a: usize) -> (r: Option<String>)
    requires
        a <= v.len(),
    ensures
        match r {
            Some(s) => text_until_separator(v@, a as int) == Some(s@),
            None => text_until_separator(v@, a as int) is None,
        },
{
    match find_literal_from(v, "·", a) {
        Some(e) => Some(trimmed_string(v, a, e)),
        None => match find_literal_from(v, "\n", a) {
            Some(e) => Some(trimmed_string(v, a, e)),
            None => None,
        },
    }
}

fn read_plan(v: &Vec<char>) -> (r: Option<String>)
    ensures
        match r {
            Some(s) => plan_from(v@) == Some(s@),
            None => plan_from(v@) is None,
        },
{
    match find_literal(v, "套餐：") {
        Some(s) => read_until_separator(v, s + literal_len("套餐：")),
        None => match find_literal(v, "Plan:") {
            Some(s) => read_until_separator(v, s + literal_len("Plan:")),
            None => None,
        },
    }
}

fn read_days(v: &Vec<char>) -> (r: Option<u32>)
    ensures
        r == days_from(v@),
{
    match find_literal(v, "剩余 ") {
        Some(p) => {
            let a = p + literal_len("剩余 ");
            let e = scan_run(v, a, CharClass::Digit);
            proof {
                lemma_run_end(v@, a as int, CharClass::Digit);
            }
            parse_digits(v, a, e)
        },
        None => match find_literal(v, "d /") {
            Some(p) => {
                let b = scan_digits_back(v, p);
                proof {
                    lemma_digits_start(v@, p as int);
                }
                parse_digits(v, b, p)
            },
            None => None,
        },
    }
}

/// The usage figure that the `/login` output states, as written: the digits and
/// points after `用量约`. Reading it as a number is the caller's part.
pub fn usage_number(text: &str) -> (r: Option<String>)
    ensures
        match r {
            Some(s) => usage_text(text@) == Some(s@),
            None => usage_text(text@) is None,
        },
{
    let v = chars_of(text);
    match find_literal(&v, "用量约") {
        Some(p) => {
            let a = p + literal_len("用量约");
            let b = scan_run(&v, a, CharClass::Space);
            proof {
                lemma_run_end(v@, a as int, CharClass::Space);
            }
            let c = scan_run(&v, b, CharClass::DigitOrDot);
            if c == b {
                return None;
            }
            Some(string_of(&v, b, c))
        },
        None => None,
    }
}

fn read_after_on_line(v: &Vec<char>, marker: &str) -> (r: Option<String>)
    ensures
        match r {
            Some(s) => text_after_on_line(v@, marker@) == Some(s@),
            None => text_after_on_line(v@, marker@) is None,
        },
{
    match find_literal(v, marker) {
        Some(p) => {
            let a = p + literal_len(marker);
            let e1 = match find_literal_from(v, "\n", a) {
                Some(e) => e,
                None => v.len(),
            };
            let e2 = match find_literal_from(v, marker, a) {
                Some(e) => e,
                None => v.len(),
            };
            let e = if e1 < e2 {
                e1
            } else {
                e2
            };
            Some(trimmed_string(v, a, e))
        },
        None => None,
    }
}

fn read_clock(s: &Vec<char>) -> (r: Option<(u32, u32)>)
    ensures
        match r {
            Some((h, m)) => clock_time(s@) == Some((h as int, m as int)),
            None => clock_time(s@) is None,
        },
{
    if s.len() == 5 && digit(s[0]) && digit(s[1]) && s[2] == ':' && digit(s[3]) && digit(s[4]) {
        let h = ((s[0] as u32) - 48) * 10 + ((s[1] as u32) - 48);
        let m = ((s[3] as u32) - 48) * 10 + ((s[4] as u32) - 48);
        if h < 24 && m < 60 {
            Some((h, m))
        } else {
            None
        }
    } else {
        None
    }
}

fn read_reset(v: &Vec<char>, now: &LocalDateTime) -> (r: Option<String>)
    requires
        now.wf(),
        now.year < MAX_YEAR,
    ensures
        match r {
            Some(s) => reset_from(v@, *now) == Some(s@),
            None => reset_from(v@, *now) is None,
        },
{
    let raw = match read_after_on_line(v, "重置于") {
        Some(r) => Some(r),
        None => read_after_on_line(v, "resets"),
    };
    match raw {
        Some(r) => {
            let rc = chars_of(r.as_str());
            match read_clock(&rc) {
                Some((h, m)) => {
                    let when = combine_reset_datetime(now, h, m);
                    Some(format_minute_stamp(&when))
                },
                None => Some(r),
            }
        },
        None => None,
    }
}

/// What `apply_fields` leaves in an account: each field that the output states
/// replaced, every other field as it was. `usage` is the number read from the
/// output's usage figure (`usage_text`), when it could be read.
pub open spec fn parsed_fields_applied(
    before: ManagedAccount,
    after: ManagedAccount,
    t: Seq<char>,
    now: LocalDateTime,
    usage: Option<Percent>,
) -> bool {
    &&& after@.plan_name == (match plan_from(t) {
        Some(p) => p,
        None => before@.plan_name,
    })
    &&& after.remaining_days == (match days_from(t) {
        Some(d) => d,
        None => before.remaining_days,
    })
    &&& after.usage_percent == (match usage {
        Some(u) => u,
        None => before.usage_percent,
    })
    &&& after@.reset_time == (match reset_from(t, now) {
        Some(r) => r,
        None => before@.reset_time,
    })
    &&& after@.id == before@.id
    &&& after@.auth_data == before@.auth_data
    &&& after.is_valid == before.is_valid
    &&& after@.last_updated == before@.last_updated
}

/// Applies what the `/login` output `text` states to the account; `usage` is the
/// number read from its usage figure, so there is none when the text states no figure.
pub fn apply_fields(
    acc: &mut ManagedAccount,
    text: &str,
    now: &LocalDateTime,
    usage: Option<Percent>,
)
    requires
        now.wf(),
        now.year < MAX_YEAR,
        usage is Some ==> usage_text(text@) is Some,
    ensures
        parsed_fields_applied(*old(acc), *final(acc), text@, *now, usage),
{
    let v = chars_of(text);
    if let Some(p) = read_plan(&v) {
        acc.plan_name = p;
    }
    if let Some(d) = read_days(&v) {
        acc.remaining_days = d;
    }
    if let Some(u) = usage {
        acc.usage_percent = u;
    }
    if let Some(r) = read_reset(&v, now) {
        acc.reset_time = r;
    }
}

// ---------------------------------------------------------------------------
// The name the output is logged in as
// ---------------------------------------------------------------------------

/// The name after `logged in as `: up to the first ASCII white space or `。` (else
/// the rest with trailing white space dropped), cut before any `(`, trimmed.
pub open spec fn login_name(t: Seq<char>) -> Option<Seq<char>> {
    match find(t, "logged in as "@) {
        Some(p) => {
            let a = p + "logged in as "@.len();
            let e = run_end(t, a, CharClass::NameChar);
            let section = if e < t.len() {
                t.subrange(a, e)
            } else {
                trim_end(t.subrange(a, t.len() as int))
            };
            Some(
                match find(section, "("@) {
                    Some(q) => trim(section.take(q)),
                    None => trim(section),
                },
            )
        },
        None => None,
    }
}

/// Reads the name that the `/login` output says it is logged in as.
pub fn read_login_name(text: &str) -> (r: Option<String>)
    ensures
        match r {
            Some(s) => login_name(text@) == Some(s@),
            None => login_name(text@) is None,
        },
{
    let v = chars_of(text);
    match find_literal(&v, "logged in as ") {
        Some(p) => {
            let a = p + literal_len("logged in as ");
            let e = scan_run(&v, a, CharClass::NameChar);
            let sec_end = if e < v.len() {
                e
            } else {
                trim_end_index(&v, a, v.len())
            };
            let section = string_of(&v, a, sec_end);
            let sv = chars_of(section.as_str());
            proof {
                if e >= v.len() {
                    assert(trim_end(v@.subrange(a as int, v.len() as int)) =~= v@.subrange(
                        a as int,
                        sec_end as int,
                    ));
                }
            }
            match find_literal(&sv, "(") {
                Some(q) => {
                    let r = trimmed_string(&sv, 0, q);
                    assert(sv@.subrange(0, q as int) =~= sv@.take(q as int));
                    Some(r)
                },
                None => {
                    let r = trimmed_string(&sv, 0, sv.len());
                    assert(sv@.subrange(0, sv.len() as int) =~= sv@);
                    Some(r)
                },
            }
        },
        None => None,
    }
}

} // verus!
