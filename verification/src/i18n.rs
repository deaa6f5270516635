//! Look-up of user-interface texts, with `{0}`, `{1}`, ... placeholders filled in.
use vstd::prelude::*;

use crate::lang::{text_for, Language};
use crate::text::{
    chars_of, decimal, find, find_from, lemma_find_from_facts, occurs_at, push_char, push_decimal,
    replace_all, replace_str, string_from,
};

verus! {

/// The placeholder `{i}` that a template holds for its `i`-th argument.
pub open spec fn placeholder(i: nat) -> Seq<char> {
    seq!['{'] + decimal(i) + seq!['}']
}

/// `template` with the placeholders `{0}`, `{1}`, ... replaced by `args`, one after the
/// other: first every `{0}` by `args[0]`, then every `{1}` in the result by `args[1]`, ...
pub open spec fn substitute(template: Seq<char>, args: Seq<Seq<char>>) -> Seq<char>
    decreases args.len(),
{
    if args.len() == 0 {
        template
    } else {
        replace_all(
            substitute(template, args.drop_last()),
            placeholder((args.len() - 1) as nat),
            args.last(),
        )
    }
}

/// The views of a slice of string slices.
pub open spec fn views(args: Seq<&str>) -> Seq<Seq<char>> {
    args.map_values(|a: &str| a@)
}

/// Texts of the user interface in one language.
pub struct I18n {
    lang: Language,
}

impl View for I18n {
    type V = Language;

    closed spec fn view(&self) -> Language {
        self.lang
    }
}

/// The placeholder `{i}` as characters.
fn placeholder_chars(i: usize) -> (v: Vec<char>)
    ensures
        v@ == placeholder(i as nat),
{
    let mut s = String::new();
    push_char(&mut s, '{');
    push_decimal(&mut s, i as u64);
    push_char(&mut s, '}');
    assert(s@ =~= placeholder(i as nat));
    chars_of(s.as_str())
}

impl I18n {
    /// The texts of `lang`.
    pub fn load(lang: Language) -> (r: I18n)
        ensures
            r@ == lang,
    {
        I18n { lang }
    }

    /// The language of these texts.
    pub fn language(&self) -> (r: Language)
        ensures
            r == self@,
    {
        self.lang
    }

    /// The text for `key` as stored, placeholders left in; the key itself when no
    /// text is stored under it.
    pub fn raw(&self, key: &str) -> (r: String)
        ensures
            r@ == text_for(self@, key@),
    {
        string_from(self.lang.lookup(key))
    }

    /// The text for `key` with its placeholders replaced by `args`.
    pub fn t(&self, key: &str, args: &[&str]) -> (r: String)
        ensures
            r@ == substitute(text_for(self@, key@), views(args@)),
    {
        let template = self.lang.lookup(key);
        if args.len() == 0 {
            return string_from(template);
        }
        let mut result = string_from(template);
        let ghost avs = views(args@);
        let mut i: usize = 0;
        while i < args.len()
            invariant
                i <= args.len(),
                avs == views(args@),
                result@ == substitute(template@, avs.take(i as int)),
            decreases args.len() - i,
        {
            let cur = chars_of(result.as_str());
            let ph = placeholder_chars(i);
            let arg = chars_of(args[i]);
            result = replace_str(&cur, &ph, &arg);
            proof {
                assert(avs.take(i + 1 as int).drop_last() =~= avs.take(i as int));
                assert(avs[i as int] == args@[i as int]@);
            }
            i = i + 1;
        }
        assert(avs.take(args.len() as int) =~= avs);
        result
    }

    /// The text for `key`, without arguments.
    pub fn t0(&self, key: &str) -> (r: String)
        ensures
            r@ == text_for(self@, key@),
    {
        string_from(self.lang.lookup(key))
    }

    /// The text for `key` with `{0}` filled in.
    pub fn t1(&self, key: &str, a0: &str) -> (r: String)
        ensures
            r@ == substitute(text_for(self@, key@), seq![a0@]),
    {
        let args = [a0];
        let r = self.t(key, &args);
        assert(views(args@) =~= seq![a0@]);
        r
    }

    /// The text for `key` with `{0}` and `{1}` filled in.
    pub fn t2(&self, key: &str, a0: &str, a1: &str) -> (r: String)
        ensures
            r@ == substitute(text_for(self@, key@), seq![a0@, a1@]),
    {
        let args = [a0, a1];
        let r = self.t(key, &args);
        assert(views(args@) =~= seq![a0@, a1@]);
        r
    }

    /// The text for `key` with `{0}` .. `{2}` filled in.
    pub fn t3(&self, key: &str, a0: &str, a1: &str, a2: &str) -> (r: String)
        ensures
            r@ == substitute(text_for(self@, key@), seq![a0@, a1@, a2@]),
    {
        let args = [a0, a1, a2];
        let r = self.t(key, &args);
        assert(views(args@) =~= seq![a0@, a1@, a2@]);
        r
    }

    /// The text for `key` with `{0}` .. `{3}` filled in.
    pub fn t4(&self, key: &str, a0: &str, a1: &str, a2: &str, a3: &str) -> (r: String)
        ensures
            r@ == substitute(text_for(self@, key@), seq![a0@, a1@, a2@, a3@]),
    {
        let args = [a0, a1, a2, a3];
        let r = self.t(key, &args);
        assert(views(args@) =~= seq![a0@, a1@, a2@, a3@]);
        r
    }
}

/// `s` holds no `{`.
pub open spec fn no_brace(s: Seq<char>) -> bool {
    forall|i: int| 0 <= i < s.len() ==> s[i] != '{'
}

proof fn lemma_no_placeholder_in(s: Seq<char>, ph: Seq<char>, to: Seq<char>)
    requires
        no_brace(s),
        ph.len() > 0,
        ph[0] == '{',
    ensures
        replace_all(s, ph, to) == s,
{
    lemma_find_from_facts(s, ph, 0);
    assert forall|j: int| 0 <= j implies !occurs_at(s, ph, j) by {
        if occurs_at(s, ph, j) {
            assert(s.subrange(j, j + ph.len())[0] == ph[0]);
        }
    }
}

proof fn lemma_find_reaches(t: Seq<char>, ph: Seq<char>, j: int, target: int)
    requires
        0 <= j <= target,
        occurs_at(t, ph, target),
        forall|k: int| j <= k < target ==> !occurs_at(t, ph, k),
    ensures
        find_from(t, ph, j) == Some(target),
    decreases target - j,
{
    if j < target {
        lemma_find_reaches(t, ph, j + 1, target);
    }
}

proof fn lemma_find_after_braceless(p: Seq<char>, ph: Seq<char>, q: Seq<char>)
    requires
        no_brace(p),
        ph.len() > 0,
        ph[0] == '{',
    ensures
        find(p + ph + q, ph) == Some(p.len() as int),
{
    let t = p + ph + q;
    assert(occurs_at(t, ph, p.len() as int)) by {
        assert(t.subrange(p.len() as int, (p.len() + ph.len()) as int) =~= ph);
    }
    assert forall|k: int| 0 <= k < p.len() implies !occurs_at(t, ph, k) by {
        if occurs_at(t, ph, k) {
            assert(t.subrange(k, k + ph.len())[0] == t[k]);
        }
    }
    lemma_find_reaches(t, ph, 0, p.len() as int);
}

/// A template that holds `{0}` once, with no other `{` in it, shows the argument in
/// that place: `t1` on `p{0}q` gives `p`, the argument, then `q`.
pub proof fn law_single_placeholder(p: Seq<char>, q: Seq<char>, arg: Seq<char>)
    requires
        no_brace(p),
        no_brace(q),
    ensures
        substitute(p + placeholder(0) + q, seq![arg]) == p + arg + q,
{
    let ph = placeholder(0);
    assert(decimal(0) =~= seq!['0']);
    assert(ph =~= seq!['{', '0', '}']);
    let t = p + ph + q;
    let args = seq![arg];
    assert(args.drop_last() =~= Seq::<Seq<char>>::empty());
    assert(substitute(t, args.drop_last()) == t);
    assert(args.last() == arg);
    assert(substitute(t, args) == replace_all(t, ph, arg));
    lemma_find_after_braceless(p, ph, q);
    assert(t.take(p.len() as int) =~= p);
    assert(t.skip((p.len() + ph.len()) as int) =~= q);
    lemma_no_placeholder_in(q, ph, arg);
    assert(replace_all(t, ph, arg) == t.take(p.len() as int) + arg + replace_all(
        t.skip((p.len() + ph.len()) as int),
        ph,
        arg,
    ));
}

} // verus!
