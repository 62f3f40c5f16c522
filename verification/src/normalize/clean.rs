//! The first half of the pipeline: the rows that stand for the whole city are
//! recognized, dashes and tildes are unified, and annotations that carry no
//! town name are removed from the working string.

use crate::error::NormalizeError;
use crate::normalize::rules::{cleaning_accepted, Rules};
use crate::pattern::{regex_replace_all, replace_all};
use crate::text::{
    collapse_runs, collapsed, ends_with, from_chars, has_suffix, replace_each, replaced_each,
    same_text, strip_suffix, to_chars, without_suffix,
};
use vstd::prelude::*;

verus! {

/// The row carries no town of its own: its town field is the "not listed"
/// phrase, or says that a lot number follows the city, or names (with or
/// without the "whole area" ending) what the city field ends with.
pub open spec fn is_sentinel(rules: Rules, city: Seq<char>, town: Seq<char>) -> bool {
    ||| town == rules.not_listed@
    ||| has_suffix(town, rules.lot_follows@)
    ||| (town != rules.whole_area@ && has_suffix(city, without_suffix(town, rules.whole_area@)))
}

/// The character that stands for `c` after unification: the full-width tilde
/// for the wave dash and the full-width tilde, the full-width hyphen for the
/// em dash, the hyphen-minus, the minus sign, the en dash and the full-width
/// hyphen, and `c` itself for any other character.
pub open spec fn unified_char(c: char) -> char {
    if c == '\u{301C}' || c == '\u{FF5E}' {
        '\u{FF5E}'
    } else if c == '\u{2014}' || c == '\u{002D}' || c == '\u{2212}' || c == '\u{2013}' || c
        == '\u{FF0D}' {
        '\u{FF0D}'
    } else {
        c
    }
}

/// `s` with every character unified.
pub open spec fn unified(s: Seq<char>) -> Seq<char> {
    Seq::new(s.len(), |i: int| unified_char(s[i]))
}

/// `s` without the eight fixed annotations, removed one after the other.
pub open spec fn without_notes(rules: Rules, s: Seq<char>) -> Seq<char> {
    let s = replaced_each(s, rules.note_whole@, Seq::empty());
    let s = replaced_each(s, rules.note_floor_unknown@, Seq::empty());
    let s = replaced_each(s, rules.note_except_buildings@, Seq::empty());
    let s = replaced_each(s, rules.note_chome@, Seq::empty());
    let s = replaced_each(s, rules.note_each_town@, Seq::empty());
    let s = replaced_each(s, rules.note_lot@, Seq::empty());
    let s = replaced_each(s, rules.note_no_lot@, Seq::empty());
    replaced_each(s, rules.note_others@, Seq::empty())
}

/// `s` after the pattern rewrites, in their order: the yashiki gloss goes, a
/// parenthesized floor loses its brackets, lot numbers and their qualifiers
/// go, and the gloss behind a chiwari goes.
pub open spec fn without_glosses(rules: Rules, s: Seq<char>) -> Seq<char> {
    let s = regex_replace_all(rules.yashiki@, s, ""@);
    let s = regex_replace_all(rules.floor@, s, "$1"@);
    let s = regex_replace_all(rules.lots@, s, ""@);
    let s = regex_replace_all(rules.within@, s, ""@);
    let s = regex_replace_all(rules.excluding@, s, ""@);
    let s = regex_replace_all(rules.other_than@, s, ""@);
    let s = regex_replace_all(rules.bare_number@, s, ""@);
    regex_replace_all(rules.chiwari_gloss@, s, rules.chiwari@)
}

/// `s` without what the removals leave behind: runs of commas become one
/// comma, a comma just inside a round bracket goes, and empty round brackets
/// go.
pub open spec fn tidied(s: Seq<char>) -> Seq<char> {
    let s = collapsed(s, '、');
    let s = replaced_each(s, "（、"@, "（"@);
    let s = replaced_each(s, "、）"@, "）"@);
    replaced_each(s, "（）"@, Seq::empty())
}

/// The working string that the second half of the pipeline reads, made from
/// the unified town field.
pub open spec fn cleaned(rules: Rules, s: Seq<char>) -> Seq<char> {
    tidied(without_glosses(rules, without_notes(rules, s)))
}

/// Unifying twice changes nothing more.
pub proof fn lemma_unified_twice(s: Seq<char>)
    ensures
        unified(unified(s)) == unified(s),
{
    assert(unified(unified(s)) =~= unified(s));
}

/// Whether the row carries no town of its own.
pub fn stands_for_city(rules: &Rules, city: &str, town: &str) -> (b: bool)
    ensures
        b == is_sentinel(*rules, city@, town@),
{
    if same_text(town, rules.not_listed) {
        return true;
    }
    if ends_with(town, rules.lot_follows) {
        return true;
    }
    if same_text(town, rules.whole_area) {
        return false;
    }
    let name = strip_suffix(town, rules.whole_area);
    ends_with(city, name.as_str())
}

fn unify_char(c: char) -> (r: char)
    ensures
        r == unified_char(c),
{
    if c == '\u{301C}' || c == '\u{FF5E}' {
        '\u{FF5E}'
    } else if c == '\u{2014}' || c == '\u{002D}' || c == '\u{2212}' || c == '\u{2013}' || c
        == '\u{FF0D}' {
        '\u{FF0D}'
    } else {
        c
    }
}

/// `s` with the wave dash and the full-width tilde written as the full-width
/// tilde, and the five dashes written as the full-width hyphen.
pub fn unify(s: &str) -> (r: String)
    ensures
        r@ == unified(s@),
{
    let x = to_chars(s);
    let mut out: Vec<char> = Vec::new();
    let mut i: usize = 0;
    while i < x.len()
        invariant
            i <= x.len(),
            out@ == unified(x@).take(i as int),
        decreases x.len() - i,
    {
        out.push(unify_char(x[i]));
        i += 1;
        assert(unified(x@).take(i as int) =~= unified(x@).take(i - 1).push(unified_char(x@[i - 1])));
    }
    assert(unified(x@).take(x.len() as int) =~= unified(x@));
    from_chars(&out)
}

/// `s` without the eight fixed annotations.
pub fn remove_notes(rules: &Rules, s: &str) -> (r: String)
    ensures
        r@ == without_notes(*rules, s@),
{
    let s = replace_each(s, rules.note_whole, "");
    let s = replace_each(s.as_str(), rules.note_floor_unknown, "");
    let s = replace_each(s.as_str(), rules.note_except_buildings, "");
    let s = replace_each(s.as_str(), rules.note_chome, "");
    let s = replace_each(s.as_str(), rules.note_each_town, "");
    let s = replace_each(s.as_str(), rules.note_lot, "");
    let s = replace_each(s.as_str(), rules.note_no_lot, "");
    let s = replace_each(s.as_str(), rules.note_others, "");
    proof {
        reveal_strlit("");
        assert(""@ =~= Seq::<char>::empty());
    }
    s
}

/// `s` after the pattern rewrites. Fails exactly where the engine refuses one
/// of the eight patterns.
pub fn remove_glosses(rules: &Rules, s: &str) -> (r: Result<String, NormalizeError>)
    ensures
        r is Ok <==> cleaning_accepted(*rules),
        r matches Ok(out) ==> out@ == without_glosses(*rules, s@),
        r matches Err(e) ==> e == NormalizeError::Pattern,
{
    let s = replace_all(rules.yashiki, s, "")?;
    let s = replace_all(rules.floor, s.as_str(), "$1")?;
    let s = replace_all(rules.lots, s.as_str(), "")?;
    let s = replace_all(rules.within, s.as_str(), "")?;
    let s = replace_all(rules.excluding, s.as_str(), "")?;
    let s = replace_all(rules.other_than, s.as_str(), "")?;
    let s = replace_all(rules.bare_number, s.as_str(), "")?;
    replace_all(rules.chiwari_gloss, s.as_str(), rules.chiwari)
}

/// `s` without what the removals leave behind.
pub fn tidy(s: &str) -> (r: String)
    ensures
        r@ == tidied(s@),
{
    let s = collapse_runs(s, '、');
    let s = replace_each(s.as_str(), "（、", "（");
    let s = replace_each(s.as_str(), "、）", "）");
    let s = replace_each(s.as_str(), "（）", "");
    proof {
        reveal_strlit("");
        assert(""@ =~= Seq::<char>::empty());
    }
    s
}

/// The working string made from the unified town field `s`. Fails exactly
/// where the engine refuses one of the eight patterns of the cleaning.
pub fn clean(rules: &Rules, s: &str) -> (r: Result<String, NormalizeError>)
    ensures
        r is Ok <==> cleaning_accepted(*rules),
        r matches Ok(out) ==> out@ == cleaned(*rules, s@),
        r matches Err(e) ==> e == NormalizeError::Pattern,
{
    let s = remove_notes(rules, s);
    let s = remove_glosses(rules, s.as_str())?;
    Ok(tidy(s.as_str()))
}

} // verus!
