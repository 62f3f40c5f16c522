//! The normalizer of the katakana town field.

use crate::error::NormalizeError;
use crate::model::UtfKenAllRecord;
use crate::normalize::clean::is_sentinel;
use crate::normalize::expand::equals;
use crate::normalize::pipeline::{city_only, normalize, normalized};
use crate::normalize::rules::{accepted, kana, kana_rules};
use vstd::prelude::*;

verus! {

/// The town names that the katakana town field of `record` stands for. Only
/// the fields `city_kana` and `town_kana` are read.
///
/// A record whose town is "イカニケイサイガナイバアイ", or ends with
/// "ノツギニバンチガクルバアイ", or names what the city ends with, gives one
/// empty name. Any other record gives exactly what `normalized` says for the
/// katakana table, names or error, where the pattern engine accepts the
/// patterns of the table; where it refuses one, the result is that or
/// `Pattern`.
pub fn normalize_utf_ken_all_record_town_kana(record: &UtfKenAllRecord) -> (r: Result<
    Vec<String>,
    NormalizeError,
>)
    ensures
        accepted(kana()) || is_sentinel(kana(), record.city_kana@, record.town_kana@) ==> equals(
            r,
            normalized(kana(), record.city_kana@, record.town_kana@),
        ),
        equals(r, normalized(kana(), record.city_kana@, record.town_kana@)) || r == Err::<
            Vec<String>,
            NormalizeError,
        >(NormalizeError::Pattern),
        record.town_kana@ == "イカニケイサイガナイバアイ"@ ==> (r matches Ok(names) && names.deep_view()
            == city_only()),
{
    let rules = kana_rules();
    normalize(&rules, record.city_kana.as_str(), record.town_kana.as_str())
}

} // verus!
