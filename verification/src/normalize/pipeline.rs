//! The pipeline that both town fields go through, from the raw field to the
//! list of town names.

use crate::error::NormalizeError;
use crate::normalize::clean::{clean, cleaned, is_sentinel, stands_for_city, unified, unify};
use crate::normalize::expand::{equals, expand, expanded};
use crate::normalize::rules::{accepted, Rules};
use vstd::prelude::*;

verus! {

/// The list that stands for "no town of its own": one empty name.
pub open spec fn city_only() -> Seq<Seq<char>> {
    seq![Seq::<char>::empty()]
}

/// The town names of a row, from its city field and its town field: one empty
/// name where the row carries no town of its own; else what the working
/// string expands to, the working string being the town field unified and
/// cleaned.
pub open spec fn normalized(rules: Rules, city: Seq<char>, town: Seq<char>) -> Result<
    Seq<Seq<char>>,
    NormalizeError,
> {
    if is_sentinel(rules, city, town) {
        Ok(city_only())
    } else {
        expanded(rules, cleaned(rules, unified(town)))
    }
}

/// The town names of a row, after the table `rules`.
///
/// A row that carries no town of its own always gives one empty name. For any
/// other row, where the engine accepts the patterns of the table, the result
/// is what `normalized` says: the names, or the error. Where the engine
/// refuses a pattern, the result is that or `Pattern`.
pub fn normalize(rules: &Rules, city: &str, town: &str) -> (r: Result<Vec<String>, NormalizeError>)
    ensures
        accepted(*rules) || is_sentinel(*rules, city@, town@) ==> equals(
            r,
            normalized(*rules, city@, town@),
        ),
        equals(r, normalized(*rules, city@, town@)) || r == Err::<Vec<String>, NormalizeError>(
            NormalizeError::Pattern,
        ),
{
    if stands_for_city(rules, city, town) {
        let mut names: Vec<String> = Vec::new();
        names.push(String::new());
        assert(names.deep_view() =~= city_only());
        return Ok(names);
    }
    let town = unify(town);
    let town = clean(rules, town.as_str())?;
    expand(rules, town.as_str())
}

} // verus!
