//! The languages of the user interface and the persisted names that select them.
use vstd::prelude::*;

use crate::en_us;
use crate::text::{chars_of, eq_literal, string_of, trim, trim_bounds, trim_end_len, trim_start_len};
use crate::zh_cn;

verus! {

/// A language of the user interface.
#[derive(Debug, Clone, Copy, PartialEq, Eq, Structural)]
pub enum Language {
    ZhCn,
    EnUs,
}

/// The result of `str::to_lowercase` on `s`.
pub uninterp spec fn lowercase(s: Seq<char>) -> Seq<char>;

/// `s` with the ASCII capitals `A`..`Z` replaced by their small letters.
pub open spec fn ascii_lowercase(s: Seq<char>) -> Seq<char> {
    s.map_values(|c: char| if 'A' <= c && c <= 'Z' { ((c as u32) + 32) as char } else { c })
}

pub open spec fn all_ascii(s: Seq<char>) -> bool {
    forall|i: int| 0 <= i < s.len() ==> (s[i] as u32) < 128
}

/// `str::to_lowercase`: the Unicode lowercase form of `s`. The contract names the
/// result and states only what the documentation shows of it for ASCII text, where
/// the capitals `A`..`Z` become `a`..`z` and every other character stays.
#[verifier::external_body]
fn to_lowercase(s: &str) -> (r: String)
    ensures
        r@ == lowercase(s@),
        all_ascii(s@) ==> r@ == ascii_lowercase(s@),
{
    s.to_lowercase()
}

/// The language that a persisted name selects: English for `en`, `en_us`, `en-us`
/// or `english` in any case and with surrounding white space, Chinese otherwise.
pub open spec fn language_named(s: Seq<char>) -> Language {
    let t = trim(s);
    let l = if all_ascii(t) {
        ascii_lowercase(t)
    } else {
        lowercase(t)
    };
    if l == "en"@ || l == "en_us"@ || l == "en-us"@ || l == "english"@ {
        Language::EnUs
    } else {
        Language::ZhCn
    }
}

/// The name under which a language is persisted.
pub open spec fn language_name(l: Language) -> Seq<char> {
    match l {
        Language::ZhCn => "zh_cn"@,
        Language::EnUs => "en_us"@,
    }
}

/// The language that the toolbar's language button switches to from `l`.
pub open spec fn other_language(l: Language) -> Language {
    match l {
        Language::ZhCn => Language::EnUs,
        Language::EnUs => Language::ZhCn,
    }
}

/// The text that `lang` shows for `key`: its table entry, or the key itself.
pub open spec fn text_for(lang: Language, key: Seq<char>) -> Seq<char> {
    let e = match lang {
        Language::ZhCn => zh_cn::entry(key),
        Language::EnUs => en_us::entry(key),
    };
    match e {
        Some(t) => t,
        None => key,
    }
}

impl Language {
    /// Parses a persisted language name.
    pub fn from_str(s: &str) -> (r: Language)
        ensures
            r == language_named(s@),
    {
        let v = chars_of(s);
        let (b, e) = trim_bounds(&v, 0, v.len());
        assert(v@.subrange(0, v@.len() as int) =~= v@);
        let trimmed = string_of(&v, b, e);
        let low = to_lowercase(trimmed.as_str());
        let l = chars_of(low.as_str());
        if eq_literal(&l, "en") || eq_literal(&l, "en_us") || eq_literal(&l, "en-us")
            || eq_literal(&l, "english") {
            Language::EnUs
        } else {
            Language::ZhCn
        }
    }

    /// The persisted name of the language.
    pub fn as_str(&self) -> (r: &'static str)
        ensures
            r@ == language_name(*self),
    {
        match self {
            Language::ZhCn => "zh_cn",
            Language::EnUs => "en_us",
        }
    }

    /// The text of this language for `key`.
    pub fn lookup<'a>(&self, key: &'a str) -> (r: &'a str)
        ensures
            r@ == text_for(*self, key@),
    {
        match self {
            Language::ZhCn => zh_cn::get(key),
            Language::EnUs => en_us::get(key),
        }
    }

    /// The other language: what the toolbar's language button switches to.
    pub fn toggled(&self) -> (r: Language)
        ensures
            r == other_language(*self),
            r != *self,
    {
        match self {
            Language::ZhCn => Language::EnUs,
            Language::EnUs => Language::ZhCn,
        }
    }
}

/// Switching the language twice gives back the language one started from.
pub proof fn law_toggle_twice(l: Language)
    ensures
        other_language(other_language(l)) == l,
        other_language(l) != l,
{
}

/// Both languages translate the same keys: a key has a text in Chinese exactly when it
/// has one in English.
pub proof fn law_languages_share_keys(key: Seq<char>)
    ensures
        zh_cn::entry(key) is Some <==> en_us::entry(key) is Some,
{
}

/// Reading back the name under which a language is persisted gives that language.
pub proof fn law_language_name_round_trip(l: Language)
    ensures
        language_named(language_name(l)) == l,
{
    reveal_strlit("zh_cn");
    reveal_strlit("en_us");
    reveal_strlit("en");
    reveal_strlit("en-us");
    reveal_strlit("english");
    let n = language_name(l);
    assert(n.len() == 5);
    assert(trim_end_len(n) == n.len());
    assert(trim_start_len(n) == 0);
    assert(trim(n) =~= n);
    assert(all_ascii(n));
    assert(ascii_lowercase(n) =~= n);
    assert(n.len() != "en"@.len());
    assert(n.len() != "english"@.len());
    if l == Language::ZhCn {
        assert(n[0] != "en_us"@[0]);
        assert(n[0] != "en-us"@[0]);
    } else {
        assert(n =~= "en_us"@);
    }
}

} // verus!
