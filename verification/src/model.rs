//! The postal-code record as Japan Post publishes it, one per line of
//! `utf_ken_all.csv`.

use vstd::prelude::*;

verus! {

/// One row of the postal-code file. Every column is kept as it was read.
#[derive(Debug, PartialEq, Eq, PartialOrd, Ord)]
pub struct UtfKenAllRecord {
    /// Local government code (JIS X0401, X0402).
    pub local_government_code: String,
    /// Old postal code, five characters.
    pub old_postal_code: String,
    /// Postal code, seven digits.
    pub postal_code: String,
    /// Prefecture name in katakana.
    pub prefecture_kana: String,
    /// City name in katakana.
    pub city_kana: String,
    /// Town name in katakana.
    pub town_kana: String,
    /// Prefecture name.
    pub prefecture: String,
    /// City name.
    pub city: String,
    /// Town name.
    pub town: String,
    /// 1 where one town has two or more postal codes, else 0.
    pub has_multi_postal_code: i16,
    /// 1 where the town has numbered blocks (chome), else 0.
    pub has_chome: i16,
    /// 1 where one postal code covers two or more towns, else 0.
    pub has_multi_town: i16,
    /// 0: unchanged, 1: changed, 2: abolished.
    pub update_code: i16,
    /// The reason of the update, 0 to 6.
    pub update_reason: i16,
}

/// What a record holds, each text as its sequence of characters.
pub struct RecordText {
    pub local_government_code: Seq<char>,
    pub old_postal_code: Seq<char>,
    pub postal_code: Seq<char>,
    pub prefecture_kana: Seq<char>,
    pub city_kana: Seq<char>,
    pub town_kana: Seq<char>,
    pub prefecture: Seq<char>,
    pub city: Seq<char>,
    pub town: Seq<char>,
    pub has_multi_postal_code: i16,
    pub has_chome: i16,
    pub has_multi_town: i16,
    pub update_code: i16,
    pub update_reason: i16,
}

impl View for UtfKenAllRecord {
    type V = RecordText;

    open spec fn view(&self) -> RecordText {
        RecordText {
            local_government_code: self.local_government_code@,
            old_postal_code: self.old_postal_code@,
            postal_code: self.postal_code@,
            prefecture_kana: self.prefecture_kana@,
            city_kana: self.city_kana@,
            town_kana: self.town_kana@,
            prefecture: self.prefecture@,
            city: self.city@,
            town: self.town@,
            has_multi_postal_code: self.has_multi_postal_code,
            has_chome: self.has_chome,
            has_multi_town: self.has_multi_town,
            update_code: self.update_code,
            update_reason: self.update_reason,
        }
    }
}

impl DeepView for UtfKenAllRecord {
    type V = RecordText;

    open spec fn deep_view(&self) -> RecordText {
        self@
    }
}

impl Clone for UtfKenAllRecord {
    /// A record with the same columns.
    fn clone(&self) -> (copy: Self)
        ensures
            copy == *self,
    {
        UtfKenAllRecord {
            local_government_code: self.local_government_code.clone(),
            old_postal_code: self.old_postal_code.clone(),
            postal_code: self.postal_code.clone(),
            prefecture_kana: self.prefecture_kana.clone(),
            city_kana: self.city_kana.clone(),
            town_kana: self.town_kana.clone(),
            prefecture: self.prefecture.clone(),
            city: self.city.clone(),
            town: self.town.clone(),
            has_multi_postal_code: self.has_multi_postal_code,
            has_chome: self.has_chome,
            has_multi_town: self.has_multi_town,
            update_code: self.update_code,
            update_reason: self.update_reason,
        }
    }
}

} // verus!
