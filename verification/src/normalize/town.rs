//! The normalizer of the kanji town field.

use crate::error::NormalizeError;
use crate::model::UtfKenAllRecord;
use crate::normalize::clean::is_sentinel;
use crate::normalize::expand::equals;
use crate::normalize::pipeline::{city_only, normalize, normalized};
use crate::normalize::rules::{accepted, kanji, kanji_rules};
use vstd::prelude::*;

verus! {

/// The town names that the kanji town field of `record` stands for. Only the
/// fields `city` and `town` are read.
///
/// A record whose town is "以下に掲載がない場合", or ends with
/// "の次に番地がくる場合", or names what the city ends with, gives one empty
/// name. Any other record gives exactly what `normalized` says for the kanji
/// table, names or error, where the pattern engine accepts the patterns of the
/// table; where it refuses one, the result is that or `Pattern`.
pub fn normalize_utf_ken_all_record_town(record: &UtfKenAllRecord) -> (r: Result<
    Vec<String>,
    NormalizeError,
>)
    ensures
        accepted(kanji()) || is_sentinel(kanji(), record.city@, record.town@) ==> equals(
            r,
            normalized(kanji(), record.city@, record.town@),
        ),
        equals(r, normalized(kanji(), record.city@, record.town@)) || r == Err::<
            Vec<String>,
            NormalizeError,
        >(NormalizeError::Pattern),
        record.town@ == "以下に掲載がない場合"@ ==> (r matches Ok(names) && names.deep_view()
            == city_only()),
{
    let rules = kanji_rules();
    normalize(&rules, record.city.as_str(), record.town.as_str())
}

} // verus!
