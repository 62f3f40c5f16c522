//! What holds of every result of the normalizers, proved from the definitions
//! of the pipeline.

use crate::error::NormalizeError;
use crate::normalize::clean::{
    cleaned, is_sentinel, lemma_unified_twice, unified, unified_char,
};
use crate::normalize::expand::{
    entries, groups_of, items, lemma_prefixed_by_nothing, range_ends, rest_for, shape_of, Shape,
};
use crate::pattern::group;
use crate::normalize::pipeline::{city_only, normalized};
use crate::normalize::rules::{kana, kanji, Rules};
use crate::text::{
    has_suffix, lemma_split_pieces_nonempty, occurs_at, prefixed, replaced_each, without_suffix,
};
use crate::zenkaku::zenkaku_usize;
use vstd::prelude::*;

verus! {

/// The match is a parenthesized range of chiwari whose first number is above
/// its last.
pub open spec fn is_reversed_chiwari(
    rules: Rules,
    shape: Shape,
    groups: Seq<Option<Seq<char>>>,
) -> bool {
    &&& shape is ChiwariInParens
    &&& range_ends(rules, shape, groups) matches Ok((first, last))
    &&& zenkaku_usize(first) matches Some(a)
    &&& zenkaku_usize(last) matches Some(b)
    &&& a > b
}

/// A working string gives at least one town name, unless it holds a
/// parenthesized range of chiwari that runs backwards: such a range lists
/// nothing, and no parent is added to it.
pub proof fn lemma_entries_never_empty(
    rules: Rules,
    shape: Shape,
    rest: Seq<char>,
    groups: Seq<Option<Seq<char>>>,
)
    requires
        entries(rules, shape, rest, groups) is Ok,
        !is_reversed_chiwari(rules, shape, groups),
    ensures
        entries(rules, shape, rest, groups)->Ok_0.len() >= 1,
{
    match shape {
        Shape::KoOtsu => {
            lemma_split_pieces_nonempty(rest, '、', '・');
        },
        Shape::DotList => {
            let inner = group(groups, 1)->0;
            lemma_split_pieces_nonempty(
                replaced_each(
                    replaced_each(inner, rules.and_others@, Seq::empty()),
                    rules.including@,
                    Seq::empty(),
                ),
                '・',
                '・',
            );
        },
        Shape::BareCommas => {
            lemma_split_pieces_nonempty(rest, '、', '、');
        },
        _ => {},
    }
}

/// Every row gives at least one town name, unless its working string holds a
/// parenthesized range of chiwari that runs backwards.
pub proof fn lemma_normalized_never_empty(rules: Rules, city: Seq<char>, town: Seq<char>)
    requires
        normalized(rules, city, town) is Ok,
        is_sentinel(rules, city, town) || !is_reversed_chiwari(
            rules,
            shape_of(rules, cleaned(rules, unified(town))),
            groups_of(rules, cleaned(rules, unified(town))),
        ),
    ensures
        normalized(rules, city, town)->Ok_0.len() >= 1,
{
    if !is_sentinel(rules, city, town) {
        let t = cleaned(rules, unified(town));
        lemma_entries_never_empty(
            rules,
            shape_of(rules, t),
            rest_for(rules, shape_of(rules, t), t)->Ok_0,
            groups_of(rules, t),
        );
    }
}

/// Which shapes bring the parent town along. A parenthesized range of chome, a
/// range of chiwari outside brackets and a parenthesized list with commas end
/// with the bare rest of the string, after one name for each item. A range of
/// named chiwari ends with the rest and the name. The Ko-Otsu list, a
/// parenthesized range of chiwari, a list with middle dots and a bare list
/// with commas give one name for each item and nothing more. Any other string
/// gives one name.
pub proof fn lemma_parent_inclusion(
    rules: Rules,
    shape: Shape,
    rest: Seq<char>,
    groups: Seq<Option<Seq<char>>>,
)
    requires
        entries(rules, shape, rest, groups) is Ok,
    ensures
        ({
            let names = entries(rules, shape, rest, groups)->Ok_0;
            let listed = items(rules, shape, rest, groups)->Ok_0;
            match shape {
                Shape::ChomeRange | Shape::ChiwariRange | Shape::CommaList => {
                    &&& names.len() == listed.len() + 1
                    &&& names.last() == rest
                    &&& names.drop_last() == prefixed(rest, listed)
                },
                Shape::NamedChiwariRange => {
                    &&& names.len() == listed.len() + 1
                    &&& group(groups, 2) matches Some(name)
                    &&& names.last() == rest + name
                    &&& names.drop_last() == prefixed(rest, listed)
                },
                Shape::ChiwariInParens | Shape::DotList => names == prefixed(rest, listed),
                Shape::KoOtsu | Shape::BareCommas => names == listed,
                Shape::Plain => names == seq![rest],
            }
        }),
{
    let names = entries(rules, shape, rest, groups)->Ok_0;
    let listed = items(rules, shape, rest, groups)->Ok_0;
    match shape {
        Shape::ChomeRange | Shape::ChiwariRange | Shape::CommaList => {
            assert(rest + Seq::<char>::empty() =~= rest);
            assert(names.drop_last() =~= prefixed(rest, listed));
        },
        Shape::NamedChiwariRange => {
            assert(names.drop_last() =~= prefixed(rest, listed));
        },
        Shape::KoOtsu | Shape::BareCommas | Shape::Plain => {
            lemma_prefixed_by_nothing(listed);
        },
        _ => {},
    }
}

/// A town field whose dashes and tildes are unified already gives what the
/// field as it was gives, as long as unifying does not change whether the row
/// stands for the whole city.
pub proof fn lemma_unified_town_gives_the_same(rules: Rules, city: Seq<char>, town: Seq<char>)
    requires
        is_sentinel(rules, city, unified(town)) == is_sentinel(rules, city, town),
    ensures
        normalized(rules, city, unified(town)) == normalized(rules, city, town),
{
    lemma_unified_twice(town);
}

/// `c` is one of the seven characters that unification rewrites or writes:
/// the wave dash, the full-width tilde, the em dash, the hyphen-minus, the
/// minus sign, the en dash and the full-width hyphen.
pub open spec fn is_separator(c: char) -> bool {
    c == '\u{301C}' || c == '\u{FF5E}' || c == '\u{2014}' || c == '\u{002D}' || c == '\u{2212}'
        || c == '\u{2013}' || c == '\u{FF0D}'
}

/// `s` holds none of the seven separators.
pub open spec fn is_plain(s: Seq<char>) -> bool {
    forall|i: int| 0 <= i < s.len() ==> !is_separator(#[trigger] s[i])
}

/// The three phrases by which a row is told to stand for the whole city hold
/// none of the seven separators.
pub open spec fn has_plain_phrases(rules: Rules) -> bool {
    is_plain(rules.not_listed@) && is_plain(rules.lot_follows@) && is_plain(rules.whole_area@)
}

proof fn lemma_unified_equals_plain(s: Seq<char>, p: Seq<char>)
    requires
        is_plain(p),
    ensures
        (unified(s) == p) == (s == p),
{
    if s == p {
        assert(unified(s) =~= p);
    }
    if unified(s) == p {
        assert forall|i: int| 0 <= i < s.len() implies s[i] == p[i] by {
            assert(unified(s)[i] == unified_char(s[i]));
            assert(!is_separator(p[i]));
        }
        assert(s =~= p);
    }
}

proof fn lemma_unified_occurs_plain(s: Seq<char>, p: Seq<char>, i: int)
    requires
        is_plain(p),
    ensures
        occurs_at(unified(s), p, i) == occurs_at(s, p, i),
{
    if 0 <= i && i + p.len() <= s.len() {
        assert(unified(s).subrange(i, i + p.len()) =~= unified(s.subrange(i, i + p.len())));
        lemma_unified_equals_plain(s.subrange(i, i + p.len()), p);
    }
}

proof fn lemma_plain_occurs_unified(city: Seq<char>, x: Seq<char>, i: int)
    requires
        is_plain(city),
    ensures
        occurs_at(city, unified(x), i) == occurs_at(city, x, i),
{
    if 0 <= i && i + x.len() <= city.len() {
        let part = city.subrange(i, i + x.len());
        assert forall|j: int| 0 <= j < part.len() implies !is_separator(#[trigger] part[j]) by {
            assert(part[j] == city[i + j]);
        }
        lemma_unified_equals_plain(x, part);
    }
}

/// Unifying the town field does not change whether the row stands for the
/// whole city, where neither the city nor the three phrases of the table hold
/// one of the seven separators.
pub proof fn lemma_unified_keeps_sentinel(rules: Rules, city: Seq<char>, town: Seq<char>)
    requires
        is_plain(city),
        has_plain_phrases(rules),
    ensures
        is_sentinel(rules, city, unified(town)) == is_sentinel(rules, city, town),
{
    let u = unified(town);
    let w = rules.whole_area@;
    lemma_unified_equals_plain(town, rules.not_listed@);
    lemma_unified_equals_plain(town, w);
    lemma_unified_occurs_plain(town, rules.lot_follows@, town.len() - rules.lot_follows@.len());
    lemma_unified_occurs_plain(town, w, town.len() - w.len());
    assert(has_suffix(u, w) == has_suffix(town, w));
    let x = without_suffix(town, w);
    assert(without_suffix(u, w) =~= unified(x));
    lemma_plain_occurs_unified(city, x, city.len() - x.len());
}

/// A town field whose dashes and tildes are unified already gives what the
/// field as it was gives, for every row whose city holds none of the seven
/// separators, after a table whose three phrases hold none either.
pub proof fn lemma_unified_town_of_plain_city_gives_the_same(
    rules: Rules,
    city: Seq<char>,
    town: Seq<char>,
)
    requires
        is_plain(city),
        has_plain_phrases(rules),
    ensures
        normalized(rules, city, unified(town)) == normalized(rules, city, town),
{
    lemma_unified_keeps_sentinel(rules, city, town);
    lemma_unified_twice(town);
}

/// The three phrases of the kanji table hold none of the seven separators.
pub proof fn lemma_kanji_phrases_plain()
    ensures
        has_plain_phrases(kanji()),
{
    reveal_strlit("以下に掲載がない場合");
    reveal_strlit("の次に番地がくる場合");
    reveal_strlit("一円");
}

/// The three phrases of the katakana table hold none of the seven separators.
pub proof fn lemma_kana_phrases_plain()
    ensures
        has_plain_phrases(kana()),
{
    reveal_strlit("イカニケイサイガナイバアイ");
    reveal_strlit("ノツギニバンチガクルバアイ");
    reveal_strlit("イチエン");
}

/// A row whose town field is the "not listed" phrase gives one empty name,
/// whatever its city.
pub proof fn lemma_not_listed_gives_city_only(rules: Rules, city: Seq<char>, town: Seq<char>)
    requires
        town == rules.not_listed@,
    ensures
        normalized(rules, city, town) == Ok::<Seq<Seq<char>>, NormalizeError>(city_only()),
{
}

/// Every row that stands for the whole city gives one empty name.
pub proof fn lemma_sentinel_gives_city_only(rules: Rules, city: Seq<char>, town: Seq<char>)
    requires
        is_sentinel(rules, city, town),
    ensures
        normalized(rules, city, town) == Ok::<Seq<Seq<char>>, NormalizeError>(city_only()),
        normalized(rules, city, town)->Ok_0.len() == 1,
{
}

} // verus!
