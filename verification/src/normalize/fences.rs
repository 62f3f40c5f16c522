//! Removing the brackets that are left around a text, the kept token apart.
//!
//! The pattern engine finds the bracketed texts; what stands for each of them
//! is decided here, and the parts are woven together again.

use crate::error::NormalizeError;
use crate::pattern::{
    captures_iter, group, regex_accepts, regex_captures_iter, regex_split, split,
};
use crate::text::{from_chars, same_text, to_chars};
use vstd::prelude::*;

verus! {

/// What stands for a match `whole` whose first group is `inner`: the match
/// itself where it is the token `keep` or has no first group, else the group,
/// which is the text between the brackets.
pub open spec fn unfenced_text(whole: Seq<char>, inner: Option<Seq<char>>, keep: Seq<char>) -> Seq<
    char,
> {
    if whole == keep {
        whole
    } else {
        match inner {
            Some(text) => text,
            None => whole,
        }
    }
}

/// What stands for the match with the groups `groups`; nothing for a match
/// that lacks even its whole text.
pub open spec fn unfenced_match(groups: Seq<Option<Seq<char>>>, keep: Seq<char>) -> Seq<char> {
    match group(groups, 0) {
        Some(whole) => unfenced_text(whole, group(groups, 1), keep),
        None => Seq::empty(),
    }
}

/// The first `n` matches woven between the parts: the first part, then for
/// each match what stands for it and the part behind it.
pub open spec fn woven_to(
    parts: Seq<Seq<char>>,
    matches: Seq<Seq<Option<Seq<char>>>>,
    keep: Seq<char>,
    n: nat,
) -> Seq<char>
    decreases n,
{
    if n == 0 {
        parts[0]
    } else {
        woven_to(parts, matches, keep, (n - 1) as nat) + unfenced_match(matches[n - 1], keep)
            + parts[n as int]
    }
}

/// The parts and the matches fit: there is one part before each match and one
/// behind the last, and every match has its whole text.
pub open spec fn fits(parts: Seq<Seq<char>>, matches: Seq<Seq<Option<Seq<char>>>>) -> bool {
    &&& parts.len() == matches.len() + 1
    &&& forall|i: int| 0 <= i < matches.len() ==> group(#[trigger] matches[i], 0) is Some
}

/// The text made of the parts between the matches and of what stands for each
/// match. Fails where parts and matches do not fit.
pub open spec fn woven(
    parts: Seq<Seq<char>>,
    matches: Seq<Seq<Option<Seq<char>>>>,
    keep: Seq<char>,
) -> Result<Seq<char>, NormalizeError> {
    if fits(parts, matches) {
        Ok(woven_to(parts, matches, keep, matches.len()))
    } else {
        Err(NormalizeError::Pattern)
    }
}

/// `text` with every match of `pattern` replaced by its first group, the
/// matches that are the token `keep` apart.
pub open spec fn unfenced_all(pattern: Seq<char>, text: Seq<char>, keep: Seq<char>) -> Result<
    Seq<char>,
    NormalizeError,
> {
    woven(regex_split(pattern, text), regex_captures_iter(pattern, text), keep)
}

/// A match that is the kept token stands for itself.
pub proof fn lemma_kept_token_stays(groups: Seq<Option<Seq<char>>>, keep: Seq<char>)
    requires
        group(groups, 0) == Some(keep),
    ensures
        unfenced_match(groups, keep) == keep,
{
}

/// Any other match with a first group stands for that group.
pub proof fn lemma_other_match_loses_brackets(
    groups: Seq<Option<Seq<char>>>,
    keep: Seq<char>,
    whole: Seq<char>,
    inner: Seq<char>,
)
    requires
        group(groups, 0) == Some(whole),
        group(groups, 1) == Some(inner),
        whole != keep,
    ensures
        unfenced_match(groups, keep) == inner,
{
}

/// What stands for one match when brackets are removed: the match itself where
/// it is the token `keep` or has no first group, else the first group.
pub fn unfenced(whole: &str, inner: Option<&str>, keep: &str) -> (r: String)
    ensures
        r@ == unfenced_text(whole@, inner.deep_view(), keep@),
{
    if same_text(whole, keep) {
        whole.to_owned()
    } else {
        match inner {
            Some(text) => text.to_owned(),
            None => whole.to_owned(),
        }
    }
}

fn push_text(out: &mut Vec<char>, text: &str)
    ensures
        final(out)@ == old(out)@ + text@,
{
    let x = to_chars(text);
    let ghost before = out@;
    let mut k: usize = 0;
    assert(before + x@.take(0) =~= before);
    while k < x.len()
        invariant
            k <= x.len(),
            out@ == before + x@.take(k as int),
        decreases x.len() - k,
    {
        out.push(x[k]);
        k += 1;
        assert(before + x@.take(k as int) =~= (before + x@.take(k - 1)).push(x@[k - 1]));
    }
    assert(x@.take(x.len() as int) =~= x@);
}

fn unfence_match(groups: &Vec<Option<String>>, keep: &str) -> (r: Option<String>)
    ensures
        match r {
            Some(text) => group(groups.deep_view(), 0) is Some && text@ == unfenced_match(
                groups.deep_view(),
                keep@,
            ),
            None => group(groups.deep_view(), 0) is None,
        },
{
    if groups.len() == 0 {
        return None;
    }
    match &groups[0] {
        None => None,
        Some(whole) => {
            let inner: Option<&str> = if groups.len() > 1 {
                match &groups[1] {
                    Some(text) => Some(text.as_str()),
                    None => None,
                }
            } else {
                None
            };
            Some(unfenced(whole.as_str(), inner, keep))
        },
    }
}

/// Weaves the parts of a text and what stands for each match between them:
/// the first part, then for each match its first group (or the match itself,
/// where it is the token `keep`) and the part behind it. Fails with `Pattern`
/// where parts and matches do not fit.
pub fn weave(parts: &Vec<String>, matches: &Vec<Vec<Option<String>>>, keep: &str) -> (r: Result<
    String,
    NormalizeError,
>)
    ensures
        match r {
            Ok(text) => woven(parts.deep_view(), matches.deep_view(), keep@) == Ok::<
                Seq<char>,
                NormalizeError,
            >(text@),
            Err(e) => woven(parts.deep_view(), matches.deep_view(), keep@) == Err::<
                Seq<char>,
                NormalizeError,
            >(e),
        },
{
    if matches.len() >= parts.len() || parts.len() - matches.len() != 1 {
        return Err(NormalizeError::Pattern);
    }
    let ghost p = parts.deep_view();
    let ghost m = matches.deep_view();
    let mut out: Vec<char> = Vec::new();
    push_text(&mut out, parts[0].as_str());
    assert(Seq::<char>::empty() + p[0] =~= p[0]);
    let mut i: usize = 0;
    while i < matches.len()
        invariant
            i <= matches.len(),
            parts.len() == matches.len() + 1,
            p == parts.deep_view(),
            m == matches.deep_view(),
            forall|j: int| 0 <= j < i ==> group(#[trigger] m[j], 0) is Some,
            out@ == woven_to(p, m, keep@, i as nat),
        decreases matches.len() - i,
    {
        match unfence_match(&matches[i], keep) {
            None => {
                assert(group(m[i as int], 0) is None);
                return Err(NormalizeError::Pattern);
            },
            Some(text) => {
                push_text(&mut out, text.as_str());
            },
        }
        push_text(&mut out, parts[i + 1].as_str());
        i += 1;
    }
    Ok(from_chars(&out))
}

/// `text` with every match of `pattern` replaced by its first group, the
/// matches that are the token `keep` apart. Fails where the engine refuses the
/// pattern, and where what it hands back does not fit together.
pub fn replace_all_unfenced(pattern: &str, text: &str, keep: &str) -> (r: Result<
    String,
    NormalizeError,
>)
    ensures
        regex_accepts(pattern@) ==> match r {
            Ok(out) => unfenced_all(pattern@, text@, keep@) == Ok::<Seq<char>, NormalizeError>(
                out@,
            ),
            Err(e) => unfenced_all(pattern@, text@, keep@) == Err::<Seq<char>, NormalizeError>(e),
        },
        r matches Ok(out) ==> unfenced_all(pattern@, text@, keep@) == Ok::<
            Seq<char>,
            NormalizeError,
        >(out@),
        r matches Err(e) ==> e == NormalizeError::Pattern,
{
    let parts = split(pattern, text)?;
    let matches = captures_iter(pattern, text)?;
    weave(&parts, &matches, keep)
}

} // verus!
