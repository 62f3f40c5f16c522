//! The second half of the pipeline: the shape of the working string is told,
//! and the string is expanded into the town names that it stands for.
//!
//! The shapes are tried in a fixed order and the first that fits decides. The
//! pattern engine tells the shape, hands out the groups of the match and the
//! rest of the string around it. What is made of these is decided here: a
//! range or a list is written out item by item, each item behind the rest;
//! some shapes add the parent town, the rest without an item, at the end.

use crate::error::NormalizeError;
use crate::normalize::fences::{replace_all_unfenced, unfenced_all};
use crate::normalize::rules::{expanding_accepted, Rules};
use crate::pattern::{captures, group, regex_captures, regex_replace_all, replace_all};
use crate::text::{
    contains_char, has_prefix, joined, prefix_each, prefixed, replace_each, replaced_each,
    split_at, split_pieces, starts_with,
};
use crate::zenkaku::{range_label_result, zenkaku_range_label};
use vstd::prelude::*;

verus! {

/// What a working string is taken to be.
#[derive(Debug, Clone, Copy, PartialEq, Eq)]
pub enum Shape {
    /// It begins with the sections Ko and Otsu.
    KoOtsu,
    /// It holds a parenthesized range of chome.
    ChomeRange,
    /// It holds a parenthesized range of chiwari.
    ChiwariInParens,
    /// It holds a range of chiwari outside brackets.
    ChiwariRange,
    /// It holds a range of chiwari with a name before each number.
    NamedChiwariRange,
    /// It holds a parenthesized list with middle dots.
    DotList,
    /// It holds a parenthesized list with commas, or one ending in "including".
    CommaList,
    /// It holds a comma outside any list.
    BareCommas,
    /// None of these.
    Plain,
}

/// The pattern whose match decides the shape, for the shapes that a pattern
/// decides.
pub open spec fn pattern_of(rules: Rules, shape: Shape) -> Option<Seq<char>> {
    match shape {
        Shape::ChomeRange => Some(rules.chome_range@),
        Shape::ChiwariInParens => Some(rules.chiwari_in_parens@),
        Shape::ChiwariRange => Some(rules.chiwari_range@),
        Shape::NamedChiwariRange => Some(rules.named_chiwari_range@),
        Shape::DotList => Some(rules.dot_list@),
        Shape::CommaList => Some(rules.comma_list@),
        _ => None,
    }
}

/// The shape of the working string `t`: the first that fits, in the order of
/// the variants.
pub open spec fn shape_of(rules: Rules, t: Seq<char>) -> Shape {
    if has_prefix(t, rules.ko_otsu@) {
        Shape::KoOtsu
    } else if regex_captures(rules.chome_range@, t) is Some {
        Shape::ChomeRange
    } else if regex_captures(rules.chiwari_in_parens@, t) is Some {
        Shape::ChiwariInParens
    } else if regex_captures(rules.chiwari_range@, t) is Some {
        Shape::ChiwariRange
    } else if regex_captures(rules.named_chiwari_range@, t) is Some {
        Shape::NamedChiwariRange
    } else if regex_captures(rules.dot_list@, t) is Some {
        Shape::DotList
    } else if regex_captures(rules.comma_list@, t) is Some {
        Shape::CommaList
    } else if t.contains('、') {
        Shape::BareCommas
    } else {
        Shape::Plain
    }
}

/// The groups of the match that decides the shape of `t`; no groups for the
/// shapes that no pattern decides.
pub open spec fn groups_of(rules: Rules, t: Seq<char>) -> Seq<Option<Seq<char>>> {
    match pattern_of(rules, shape_of(rules, t)) {
        Some(pattern) => regex_captures(pattern, t)->0,
        None => Seq::empty(),
    }
}

/// What the engine leaves of the working string `t`, taken to be of the shape
/// `shape`: the string without the matched part, for the shapes that a pattern
/// decides; the string without a trailing gloss, for the Ko-Otsu list; the
/// string itself where it holds bare commas; and else the string without its
/// brackets, first the round ones and then those of the second kind, the kept
/// token apart.
pub open spec fn rest_for(rules: Rules, shape: Shape, t: Seq<char>) -> Result<
    Seq<char>,
    NormalizeError,
> {
    match shape {
        Shape::KoOtsu => Ok(regex_replace_all(rules.ko_otsu_gloss@, t, "$1"@)),
        Shape::BareCommas => Ok(t),
        Shape::Plain => match unfenced_all(rules.round_fence@, t, rules.kept@) {
            Ok(inner) => unfenced_all(rules.second_fence@, inner, rules.kept@),
            Err(e) => Err(e),
        },
        _ => Ok(regex_replace_all(pattern_of(rules, shape)->0, t, ""@)),
    }
}

/// The items of a list: `inner` without the ending ", others" and without the
/// word "including", cut at the delimiter.
pub open spec fn list_items(
    inner: Seq<char>,
    and_others: Seq<char>,
    including: Seq<char>,
    delimiter: char,
) -> Seq<Seq<char>> {
    split_pieces(
        replaced_each(replaced_each(inner, and_others, Seq::empty()), including, Seq::empty()),
        delimiter,
        delimiter,
    )
}

/// The two labels between which a range runs, for the shapes that are ranges:
/// the two numbers with the chome word behind each, for a range of chome; the
/// first and the last group, for a range of chiwari. Fails where the match
/// lacks a group.
pub open spec fn range_ends(rules: Rules, shape: Shape, groups: Seq<Option<Seq<char>>>) -> Result<
    (Seq<char>, Seq<char>),
    NormalizeError,
> {
    match shape {
        Shape::ChomeRange => match (group(groups, 1), group(groups, 2)) {
            (Some(first), Some(last)) => Ok((first + rules.chome@, last + rules.chome@)),
            _ => Err(NormalizeError::Pattern),
        },
        Shape::NamedChiwariRange => match (group(groups, 1), group(groups, 2), group(groups, 3)) {
            (Some(first), Some(_), Some(last)) => Ok((first, last)),
            _ => Err(NormalizeError::Pattern),
        },
        _ => match (group(groups, 1), group(groups, 2)) {
            (Some(first), Some(last)) => Ok((first, last)),
            _ => Err(NormalizeError::Pattern),
        },
    }
}

/// The items that a working string of the shape `shape` lists, in order,
/// without what stands in front of them and without the parent town. `rest`
/// is what the engine left of the string, `groups` the groups of the match.
pub open spec fn items(
    rules: Rules,
    shape: Shape,
    rest: Seq<char>,
    groups: Seq<Option<Seq<char>>>,
) -> Result<Seq<Seq<char>>, NormalizeError> {
    match shape {
        Shape::KoOtsu => Ok(split_pieces(rest, '、', '・')),
        Shape::ChomeRange | Shape::ChiwariInParens | Shape::ChiwariRange | Shape::NamedChiwariRange => {
            match range_ends(rules, shape, groups) {
                Ok((first, last)) => range_label_result(first, last),
                Err(e) => Err(e),
            }
        },
        Shape::DotList => match group(groups, 1) {
            Some(inner) => Ok(list_items(inner, rules.and_others@, rules.including@, '・')),
            None => Err(NormalizeError::Pattern),
        },
        Shape::CommaList => match group(groups, 1) {
            Some(inner) => Ok(list_items(inner, rules.and_others@, rules.including@, '、')),
            None => Err(NormalizeError::Pattern),
        },
        Shape::BareCommas => Ok(split_pieces(rest, '、', '、')),
        Shape::Plain => Ok(seq![rest]),
    }
}

/// What is added behind the items to stand for the parent town: nothing for
/// a range of chome, a range of chiwari outside brackets and a list with
/// commas, so that the bare rest comes out; the name for a range of named
/// chiwari. The other shapes add no parent.
pub open spec fn parent(shape: Shape, groups: Seq<Option<Seq<char>>>) -> Option<Seq<char>> {
    match shape {
        Shape::ChomeRange | Shape::ChiwariRange | Shape::CommaList => Some(Seq::empty()),
        Shape::NamedChiwariRange => group(groups, 2),
        _ => None,
    }
}

/// What stands in front of every item: the rest of the string, for the shapes
/// that a pattern decides; nothing for the others, whose items are cut from
/// the rest itself.
pub open spec fn front(shape: Shape, rest: Seq<char>) -> Seq<char> {
    match shape {
        Shape::KoOtsu | Shape::BareCommas | Shape::Plain => Seq::empty(),
        _ => rest,
    }
}

/// The items `items` followed by the parent, where there is one, each behind
/// `prefix`.
pub open spec fn assembled(prefix: Seq<char>, items: Seq<Seq<char>>, parent: Option<Seq<char>>) -> Seq<
    Seq<char>,
> {
    prefixed(
        prefix,
        match parent {
            Some(p) => items.push(p),
            None => items,
        },
    )
}

/// The town names of a working string of the shape `shape`, from what the
/// engine left of it and the groups of the match.
pub open spec fn entries(
    rules: Rules,
    shape: Shape,
    rest: Seq<char>,
    groups: Seq<Option<Seq<char>>>,
) -> Result<Seq<Seq<char>>, NormalizeError> {
    match items(rules, shape, rest, groups) {
        Ok(listed) => Ok(assembled(front(shape, rest), listed, parent(shape, groups))),
        Err(e) => Err(e),
    }
}

/// The town names that the working string `t` stands for.
pub open spec fn expanded(rules: Rules, t: Seq<char>) -> Result<Seq<Seq<char>>, NormalizeError> {
    match rest_for(rules, shape_of(rules, t), t) {
        Ok(rest) => entries(rules, shape_of(rules, t), rest, groups_of(rules, t)),
        Err(e) => Err(e),
    }
}

/// A result is what is expected of it, list for list and error for error.
pub open spec fn equals(
    r: Result<Vec<String>, NormalizeError>,
    expected: Result<Seq<Seq<char>>, NormalizeError>,
) -> bool {
    match r {
        Ok(names) => expected == Ok::<Seq<Seq<char>>, NormalizeError>(names.deep_view()),
        Err(e) => expected == Err::<Seq<Seq<char>>, NormalizeError>(e),
    }
}

/// Putting nothing in front of the items leaves them as they are.
pub proof fn lemma_prefixed_by_nothing(items: Seq<Seq<char>>)
    ensures
        prefixed(Seq::empty(), items) == items,
{
    assert forall|i: int| 0 <= i < items.len() implies prefixed(Seq::empty(), items)[i]
        == items[i] by {
        assert(Seq::<char>::empty() + items[i] =~= items[i]);
    }
    assert(prefixed(Seq::empty(), items) =~= items);
}

/// The items followed by the parent, where there is one, each behind `prefix`.
pub fn assemble(prefix: &str, items: Vec<String>, parent: Option<String>) -> (names: Vec<String>)
    ensures
        names.deep_view() == assembled(prefix@, items.deep_view(), parent.deep_view()),
{
    let mut items = items;
    let ghost listed = items.deep_view();
    match parent {
        Some(p) => {
            items.push(p);
            assert(items.deep_view() =~= listed.push(p@));
        },
        None => {},
    }
    prefix_each(prefix, &items)
}

/// The items of a list: `inner` without the ending ", others" and without the
/// word "including", cut at the delimiter.
pub fn list_entries(inner: &str, and_others: &str, including: &str, delimiter: char) -> (items: Vec<
    String,
>)
    ensures
        items.deep_view() == list_items(inner@, and_others@, including@, delimiter),
{
    proof {
        reveal_strlit("");
        assert(""@ =~= Seq::<char>::empty());
    }
    let inner = replace_each(inner, and_others, "");
    let inner = replace_each(inner.as_str(), including, "");
    split_at(inner.as_str(), delimiter, delimiter)
}

fn group_text(groups: &Vec<Option<String>>, i: usize) -> (r: Result<String, NormalizeError>)
    ensures
        match r {
            Ok(text) => group(groups.deep_view(), i as int) == Some(text@),
            Err(e) => e == NormalizeError::Pattern && group(groups.deep_view(), i as int) is None,
        },
{
    if i < groups.len() {
        match &groups[i] {
            Some(text) => Ok(text.clone()),
            None => Err(NormalizeError::Pattern),
        }
    } else {
        Err(NormalizeError::Pattern)
    }
}

fn range_items(rules: &Rules, shape: Shape, groups: &Vec<Option<String>>) -> (r: Result<
    Vec<String>,
    NormalizeError,
>)
    requires
        shape is ChomeRange || shape is ChiwariInParens || shape is ChiwariRange
            || shape is NamedChiwariRange,
    ensures
        equals(
            r,
            match range_ends(*rules, shape, groups.deep_view()) {
                Ok((first, last)) => range_label_result(first, last),
                Err(e) => Err(e),
            },
        ),
{
    let first = group_text(groups, 1)?;
    match shape {
        Shape::ChomeRange => {
            let last = group_text(groups, 2)?;
            let first = joined(first.as_str(), rules.chome);
            let last = joined(last.as_str(), rules.chome);
            zenkaku_range_label(first.as_str(), last.as_str())
        },
        Shape::NamedChiwariRange => {
            let _name = group_text(groups, 2)?;
            let last = group_text(groups, 3)?;
            zenkaku_range_label(first.as_str(), last.as_str())
        },
        _ => {
            let last = group_text(groups, 2)?;
            zenkaku_range_label(first.as_str(), last.as_str())
        },
    }
}

/// The town names of a working string of the shape `shape`, made from what the
/// pattern engine found: `rest` is what it left of the string, `groups` are
/// the groups of the match that decided the shape.
///
/// A range gives one name for each number from its first to its last; a list
/// gives one name for each item. The names of a range of chome, of a range of
/// chiwari outside brackets and of a list with commas are followed by the
/// rest alone, the parent town; those of a range of named chiwari by the rest
/// and the name. Fails with `Pattern` where a group that the shape needs is
/// missing, and with `MalformedRange` where a label of a range holds no number
/// that can be read.
pub fn entries_of(rules: &Rules, shape: Shape, rest: &str, groups: &Vec<Option<String>>) -> (r:
    Result<Vec<String>, NormalizeError>)
    ensures
        equals(r, entries(*rules, shape, rest@, groups.deep_view())),
{
    match shape {
        Shape::KoOtsu => {
            let names = split_at(rest, '、', '・');
            proof {
                lemma_prefixed_by_nothing(names.deep_view());
            }
            Ok(names)
        },
        Shape::ChomeRange | Shape::ChiwariRange => {
            let listed = range_items(rules, shape, groups)?;
            Ok(assemble(rest, listed, Some(String::new())))
        },
        Shape::ChiwariInParens => {
            let listed = range_items(rules, shape, groups)?;
            Ok(assemble(rest, listed, None))
        },
        Shape::NamedChiwariRange => {
            let listed = range_items(rules, shape, groups)?;
            let name = group_text(groups, 2)?;
            Ok(assemble(rest, listed, Some(name)))
        },
        Shape::DotList => {
            let inner = group_text(groups, 1)?;
            let listed = list_entries(inner.as_str(), rules.and_others, rules.including, '・');
            Ok(assemble(rest, listed, None))
        },
        Shape::CommaList => {
            let inner = group_text(groups, 1)?;
            let listed = list_entries(inner.as_str(), rules.and_others, rules.including, '、');
            Ok(assemble(rest, listed, Some(String::new())))
        },
        Shape::BareCommas => {
            let names = split_at(rest, '、', '、');
            proof {
                lemma_prefixed_by_nothing(names.deep_view());
            }
            Ok(names)
        },
        Shape::Plain => {
            let mut names: Vec<String> = Vec::new();
            names.push(rest.to_owned());
            assert(names.deep_view() =~= seq![rest@]);
            proof {
                lemma_prefixed_by_nothing(names.deep_view());
            }
            Ok(names)
        },
    }
}

/// The shape of the working string `town` and the groups of the match that
/// decides it. Fails only where the engine refuses a pattern of the table.
pub fn classify(rules: &Rules, town: &str) -> (r: Result<
    (Shape, Vec<Option<String>>),
    NormalizeError,
>)
    ensures
        expanding_accepted(*rules) ==> r is Ok,
        r matches Ok(found) ==> found.0 == shape_of(*rules, town@) && found.1.deep_view()
            == groups_of(*rules, town@),
        r matches Err(e) ==> e == NormalizeError::Pattern,
{
    if starts_with(town, rules.ko_otsu) {
        let none: Vec<Option<String>> = Vec::new();
        assert(none.deep_view() =~= Seq::<Option<Seq<char>>>::empty());
        return Ok((Shape::KoOtsu, none));
    }
    match captures(rules.chome_range, town)? {
        Some(groups) => {
            return Ok((Shape::ChomeRange, groups));
        },
        None => {},
    }
    match captures(rules.chiwari_in_parens, town)? {
        Some(groups) => {
            return Ok((Shape::ChiwariInParens, groups));
        },
        None => {},
    }
    match captures(rules.chiwari_range, town)? {
        Some(groups) => {
            return Ok((Shape::ChiwariRange, groups));
        },
        None => {},
    }
    match captures(rules.named_chiwari_range, town)? {
        Some(groups) => {
            return Ok((Shape::NamedChiwariRange, groups));
        },
        None => {},
    }
    match captures(rules.dot_list, town)? {
        Some(groups) => {
            return Ok((Shape::DotList, groups));
        },
        None => {},
    }
    match captures(rules.comma_list, town)? {
        Some(groups) => {
            return Ok((Shape::CommaList, groups));
        },
        None => {},
    }
    let none: Vec<Option<String>> = Vec::new();
    assert(none.deep_view() =~= Seq::<Option<Seq<char>>>::empty());
    if contains_char(town, '、') {
        Ok((Shape::BareCommas, none))
    } else {
        Ok((Shape::Plain, none))
    }
}

/// What the engine leaves of the working string `town`, taken to be of the
/// shape `shape`. Where the engine accepts the patterns of the table, the
/// result is what `rest_for` says; it fails only where the engine refuses a
/// pattern, or hands back parts and matches that do not fit.
pub fn rest_of(rules: &Rules, shape: Shape, town: &str) -> (r: Result<String, NormalizeError>)
    ensures
        expanding_accepted(*rules) ==> match r {
            Ok(rest) => rest_for(*rules, shape, town@) == Ok::<Seq<char>, NormalizeError>(rest@),
            Err(e) => rest_for(*rules, shape, town@) == Err::<Seq<char>, NormalizeError>(e),
        },
        r matches Ok(rest) ==> rest_for(*rules, shape, town@) == Ok::<Seq<char>, NormalizeError>(
            rest@,
        ),
        r matches Err(e) ==> e == NormalizeError::Pattern,
{
    match shape {
        Shape::KoOtsu => replace_all(rules.ko_otsu_gloss, town, "$1"),
        Shape::ChomeRange => replace_all(rules.chome_range, town, ""),
        Shape::ChiwariInParens => replace_all(rules.chiwari_in_parens, town, ""),
        Shape::ChiwariRange => replace_all(rules.chiwari_range, town, ""),
        Shape::NamedChiwariRange => replace_all(rules.named_chiwari_range, town, ""),
        Shape::DotList => replace_all(rules.dot_list, town, ""),
        Shape::CommaList => replace_all(rules.comma_list, town, ""),
        Shape::BareCommas => Ok(town.to_owned()),
        Shape::Plain => {
            let town = replace_all_unfenced(rules.round_fence, town, rules.kept)?;
            replace_all_unfenced(rules.second_fence, town.as_str(), rules.kept)
        },
    }
}

/// The town names that the working string `town` stands for. The shapes are
/// tried in their order; the first that fits decides what comes out.
///
/// Where the engine accepts the patterns of the table, the result is what
/// `expanded` says: the names, or `MalformedRange` where a label of a range
/// holds no number that can be read, or `Pattern` where a match lacks a group
/// that is needed. Where it refuses one, the result is that or `Pattern`.
pub fn expand(rules: &Rules, town: &str) -> (r: Result<Vec<String>, NormalizeError>)
    ensures
        expanding_accepted(*rules) ==> equals(r, expanded(*rules, town@)),
        equals(r, expanded(*rules, town@)) || r == Err::<Vec<String>, NormalizeError>(
            NormalizeError::Pattern,
        ),
{
    let (shape, groups) = classify(rules, town)?;
    let rest = rest_of(rules, shape, town)?;
    entries_of(rules, shape, rest.as_str(), &groups)
}

} // verus!
