//! The pattern engine: the `regex` crate, called through functions whose
//! contracts Verus takes on trust.
//!
//! What the engine returns for a pattern and a text is not described here; it
//! is given a name, and the contracts of the callers speak of that name. So is
//! whether the engine accepts a pattern: that depends on the pattern alone.

use crate::error::NormalizeError;
use vstd::prelude::*;

verus! {

#[verifier::external_type_specification]
#[verifier::external_body]
pub struct ExRegexError(regex::Error);

/// Whether `regex::Regex::new` compiles `pattern`.
pub uninterp spec fn regex_accepts(pattern: Seq<char>) -> bool;

/// What `regex::Regex::replace_all` returns for the text `text` and the
/// replacement template `rep`, on the regex compiled from `pattern`.
pub uninterp spec fn regex_replace_all(pattern: Seq<char>, text: Seq<char>, rep: Seq<char>) -> Seq<
    char,
>;

/// What `regex::Regex::captures` returns for the text `text`, on the regex
/// compiled from `pattern`: `None` where nothing matches, else the text of each
/// group of the leftmost match, the whole match first, with `None` for a group
/// that took no part in it.
pub uninterp spec fn regex_captures(pattern: Seq<char>, text: Seq<char>) -> Option<
    Seq<Option<Seq<char>>>,
>;

/// What `regex::Regex::captures_iter` yields for the text `text`, on the regex
/// compiled from `pattern`: the groups of each match, the matches from left to
/// right.
pub uninterp spec fn regex_captures_iter(pattern: Seq<char>, text: Seq<char>) -> Seq<
    Seq<Option<Seq<char>>>,
>;

/// What `regex::Regex::split` yields for the text `text`, on the regex
/// compiled from `pattern`: the parts of the text that no match covers, from
/// left to right.
pub uninterp spec fn regex_split(pattern: Seq<char>, text: Seq<char>) -> Seq<Seq<char>>;

/// The text of group `i` of a match, where the group took part in it.
pub open spec fn group(groups: Seq<Option<Seq<char>>>, i: int) -> Option<Seq<char>> {
    if 0 <= i < groups.len() {
        groups[i]
    } else {
        None
    }
}

/// Compiles `pattern` with `regex::Regex::new` and calls
/// `regex::Regex::replace_all` with the template `rep`. The engine's error is
/// handed on where it refuses the pattern, which depends on the pattern alone.
/// Of a result it is claimed only that it is the one named
/// `regex_replace_all`, that is, that it depends on the three arguments alone.
#[verifier::external_body]
fn engine_replace_all(pattern: &str, text: &str, rep: &str) -> (out: Result<String, regex::Error>)
    ensures
        out is Ok <==> regex_accepts(pattern@),
        out matches Ok(s) ==> s@ == regex_replace_all(pattern@, text@, rep@),
{
    let re = regex::Regex::new(pattern)?;
    Ok(re.replace_all(text, rep).into_owned())
}

/// Compiles `pattern` with `regex::Regex::new` and calls
/// `regex::Regex::captures`. The groups of the match come back as owned
/// strings, in the engine's order. Of a result it is claimed only that it is
/// the one named `regex_captures`.
#[verifier::external_body]
fn engine_captures(pattern: &str, text: &str) -> (out: Result<
    Option<Vec<Option<String>>>,
    regex::Error,
>)
    ensures
        out is Ok <==> regex_accepts(pattern@),
        out matches Ok(found) ==> found.deep_view() == regex_captures(pattern@, text@),
{
    let re = regex::Regex::new(pattern)?;
    let found = re.captures(text);
    Ok(found.map(|caps| caps.iter().map(|g| g.map(|m| m.as_str().to_owned())).collect()))
}

/// Compiles `pattern` with `regex::Regex::new` and calls
/// `regex::Regex::captures_iter`. The groups of every match come back as owned
/// strings, the matches in the engine's order. Of a result it is claimed only
/// that it is the one named `regex_captures_iter`.
#[verifier::external_body]
fn engine_captures_iter(pattern: &str, text: &str) -> (out: Result<
    Vec<Vec<Option<String>>>,
    regex::Error,
>)
    ensures
        out is Ok <==> regex_accepts(pattern@),
        out matches Ok(found) ==> found.deep_view() == regex_captures_iter(pattern@, text@),
{
    let re = regex::Regex::new(pattern)?;
    let all = re.captures_iter(text);
    Ok(all.map(|caps| caps.iter().map(|g| g.map(|m| m.as_str().to_owned())).collect()).collect())
}

/// Compiles `pattern` with `regex::Regex::new` and calls `regex::Regex::split`.
/// The parts come back as owned strings, in the engine's order. Of a result it
/// is claimed only that it is the one named `regex_split`.
#[verifier::external_body]
fn engine_split(pattern: &str, text: &str) -> (out: Result<Vec<String>, regex::Error>)
    ensures
        out is Ok <==> regex_accepts(pattern@),
        out matches Ok(parts) ==> parts.deep_view() == regex_split(pattern@, text@),
{
    let re = regex::Regex::new(pattern)?;
    Ok(re.split(text).map(|part| part.to_owned()).collect())
}

/// `text` with every match of `pattern` replaced after the template `rep`.
/// Fails exactly where the engine refuses the pattern.
pub fn replace_all(pattern: &str, text: &str, rep: &str) -> (r: Result<String, NormalizeError>)
    ensures
        r is Ok <==> regex_accepts(pattern@),
        r matches Ok(s) ==> s@ == regex_replace_all(pattern@, text@, rep@),
        r matches Err(e) ==> e == NormalizeError::Pattern,
{
    match engine_replace_all(pattern, text, rep) {
        Ok(s) => Ok(s),
        Err(_) => Err(NormalizeError::Pattern),
    }
}

/// The groups of the leftmost match of `pattern` in `text`, or `None` where
/// nothing matches. Fails exactly where the engine refuses the pattern.
pub fn captures(pattern: &str, text: &str) -> (r: Result<
    Option<Vec<Option<String>>>,
    NormalizeError,
>)
    ensures
        r is Ok <==> regex_accepts(pattern@),
        r matches Ok(found) ==> found.deep_view() == regex_captures(pattern@, text@),
        r matches Err(e) ==> e == NormalizeError::Pattern,
{
    match engine_captures(pattern, text) {
        Ok(found) => Ok(found),
        Err(_) => Err(NormalizeError::Pattern),
    }
}

/// The groups of every match of `pattern` in `text`, from left to right.
/// Fails exactly where the engine refuses the pattern.
pub fn captures_iter(pattern: &str, text: &str) -> (r: Result<
    Vec<Vec<Option<String>>>,
    NormalizeError,
>)
    ensures
        r is Ok <==> regex_accepts(pattern@),
        r matches Ok(found) ==> found.deep_view() == regex_captures_iter(pattern@, text@),
        r matches Err(e) ==> e == NormalizeError::Pattern,
{
    match engine_captures_iter(pattern, text) {
        Ok(found) => Ok(found),
        Err(_) => Err(NormalizeError::Pattern),
    }
}

/// The parts of `text` that no match of `pattern` covers, from left to right.
/// Fails exactly where the engine refuses the pattern.
pub fn split(pattern: &str, text: &str) -> (r: Result<Vec<String>, NormalizeError>)
    ensures
        r is Ok <==> regex_accepts(pattern@),
        r matches Ok(parts) ==> parts.deep_view() == regex_split(pattern@, text@),
        r matches Err(e) ==> e == NormalizeError::Pattern,
{
    match engine_split(pattern, text) {
        Ok(parts) => Ok(parts),
        Err(_) => Err(NormalizeError::Pattern),
    }
}

/// Whether the engine accepts `pattern`.
pub fn accepts(pattern: &str) -> (b: bool)
    ensures
        b == regex_accepts(pattern@),
{
    match engine_split(pattern, "") {
        Ok(_) => true,
        Err(_) => false,
    }
}

} // verus!
