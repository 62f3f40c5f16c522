//! The words and patterns that the normalizer looks for, one table for the
//! kanji town field and one for the katakana town field.

use crate::pattern::{accepts, regex_accepts};
use vstd::prelude::*;

verus! {

/// The trigger words and patterns of one script. The two tables have the same
/// shape, so one pipeline serves both fields.
#[derive(Debug, Clone, Copy)]
pub struct Rules {
    /// The whole town field of a row that stands for "not listed below".
    pub not_listed: &'static str,
    /// The ending of a town field that says a lot number follows the city.
    pub lot_follows: &'static str,
    /// The ending that says "the whole area" of a village or island.
    pub whole_area: &'static str,
    /// Annotation: the whole area.
    pub note_whole: &'static str,
    /// Annotation: basement or floor unknown.
    pub note_floor_unknown: &'static str,
    /// Annotation: except the following buildings.
    pub note_except_buildings: &'static str,
    /// Annotation: chome.
    pub note_chome: &'static str,
    /// Annotation: each town.
    pub note_each_town: &'static str,
    /// Annotation: lot number.
    pub note_lot: &'static str,
    /// Annotation: no lot number.
    pub note_no_lot: &'static str,
    /// Annotation: others.
    pub note_others: &'static str,
    /// Pattern: a parenthesized yashiki gloss.
    pub yashiki: &'static str,
    /// Pattern: a parenthesized floor, the floor in its first group.
    pub floor: &'static str,
    /// Pattern: a list of lot numbers with its qualifier.
    pub lots: &'static str,
    /// Pattern: a parenthesized "within lot n of m".
    pub within: &'static str,
    /// Pattern: a fenced exception.
    pub excluding: &'static str,
    /// Pattern: a fenced list followed by "other than".
    pub other_than: &'static str,
    /// Pattern: a parenthesized number or pair of numbers.
    pub bare_number: &'static str,
    /// Pattern: the chiwari word followed by a parenthesized gloss.
    pub chiwari_gloss: &'static str,
    /// The chiwari word.
    pub chiwari: &'static str,
    /// The beginning of a town field that lists the sections Ko and Otsu.
    pub ko_otsu: &'static str,
    /// Pattern: a Ko-Otsu field with a trailing gloss, the field in its first
    /// group.
    pub ko_otsu_gloss: &'static str,
    /// Pattern: a parenthesized range of chome, its two numbers in groups.
    pub chome_range: &'static str,
    /// The chome word.
    pub chome: &'static str,
    /// Pattern: a parenthesized range of chiwari, its two labels in groups.
    pub chiwari_in_parens: &'static str,
    /// Pattern: a range of chiwari, its two labels in groups.
    pub chiwari_range: &'static str,
    /// Pattern: a range of chiwari with a name before each number: the first
    /// label, its name and the last label in groups.
    pub named_chiwari_range: &'static str,
    /// Pattern: a parenthesized list with middle dots, the list in its first
    /// group.
    pub dot_list: &'static str,
    /// Pattern: a parenthesized list with commas, or one that ends with
    /// "including", the list in its first group.
    pub comma_list: &'static str,
    /// The list ending ", others".
    pub and_others: &'static str,
    /// The word "including".
    pub including: &'static str,
    /// Pattern: text between round brackets, the text in its first group.
    pub round_fence: &'static str,
    /// Pattern: text between the second kind of brackets, the text in its
    /// first group.
    pub second_fence: &'static str,
    /// The bracketed token that keeps its brackets.
    pub kept: &'static str,
}

/// The engine accepts the eight patterns by which the working string is
/// cleaned.
pub open spec fn cleaning_accepted(rules: Rules) -> bool {
    &&& regex_accepts(rules.yashiki@)
    &&& regex_accepts(rules.floor@)
    &&& regex_accepts(rules.lots@)
    &&& regex_accepts(rules.within@)
    &&& regex_accepts(rules.excluding@)
    &&& regex_accepts(rules.other_than@)
    &&& regex_accepts(rules.bare_number@)
    &&& regex_accepts(rules.chiwari_gloss@)
}

/// The engine accepts the nine patterns by which the working string is
/// expanded.
pub open spec fn expanding_accepted(rules: Rules) -> bool {
    &&& regex_accepts(rules.ko_otsu_gloss@)
    &&& regex_accepts(rules.chome_range@)
    &&& regex_accepts(rules.chiwari_in_parens@)
    &&& regex_accepts(rules.chiwari_range@)
    &&& regex_accepts(rules.named_chiwari_range@)
    &&& regex_accepts(rules.dot_list@)
    &&& regex_accepts(rules.comma_list@)
    &&& regex_accepts(rules.round_fence@)
    &&& regex_accepts(rules.second_fence@)
}

/// The engine accepts every pattern of the table.
pub open spec fn accepted(rules: Rules) -> bool {
    cleaning_accepted(rules) && expanding_accepted(rules)
}

/// The table for the kanji town field.
pub open spec fn kanji() -> Rules {
    Rules {
        not_listed: "以下に掲載がない場合",
        lot_follows: "の次に番地がくる場合",
        whole_area: "一円",
        note_whole: "（全域）",
        note_floor_unknown: "（地階・階層不明）",
        note_except_buildings: "（次のビルを除く）",
        note_chome: "（丁目）",
        note_each_town: "（各町）",
        note_lot: "（番地）",
        note_no_lot: "（無番地）",
        note_others: "（その他）",
        yashiki: "（.*?屋敷）",
        floor: "（([０-９]+階)）",
        lots: "(?:(?:[０-９]+[～－])?[０-９]+、)*(?:[０-９]+[～－])?[０-９]+番地?(?:以降|以下|以上|以外)?",
        within: "（[０-９]+の[０-９]+以内）",
        excluding: "「.*?を除く」",
        other_than: "「.*?」以外",
        bare_number: "（(?:[０-９]+[～－])?[０-９]+）",
        chiwari_gloss: "地割（.*?）",
        chiwari: "地割",
        ko_otsu: "甲、乙",
        ko_otsu_gloss: "^(甲、乙.*?)（.*）$",
        chome_range: "（([０-９]+)[～－]([０-９]+)丁目）",
        chome: "丁目",
        chiwari_in_parens: "（(第[０-９]+地割)[～－](第[０-９]+地割)）",
        chiwari_range: "(第[０-９]+地割)[～－](第[０-９]+地割)",
        named_chiwari_range: "((.*?)[０-９]+地割)[～－](.*?[０-９]+地割)",
        dot_list: "（(.*?・.*?)）",
        comma_list: "（(.*?、.*?|.*?を含む)）",
        and_others: "、その他",
        including: "を含む",
        round_fence: "（(.*?)）",
        second_fence: "「(.*?)」",
        kept: "（高層棟）",
    }
}

/// The table for the katakana town field.
pub open spec fn kana() -> Rules {
    Rules {
        not_listed: "イカニケイサイガナイバアイ",
        lot_follows: "ノツギニバンチガクルバアイ",
        whole_area: "イチエン",
        note_whole: "（ゼンイキ）",
        note_floor_unknown: "（チカイ・カイソウフメイ）",
        note_except_buildings: "（ツギノビルヲノゾク）",
        note_chome: "（チョウメ）",
        note_each_town: "（カクマチ）",
        note_lot: "（バンチ）",
        note_no_lot: "（ムバンチ）",
        note_others: "（ソノタ）",
        yashiki: "（.*?ヤシキチク）",
        floor: "（([０-９]+カイ)）",
        lots: "(?:(?:[０-９]+[～－])?[０-９]+、)*(?:[０-９]+[～－])?[０-９]+バンチ?(?:イコウ|イカ|イジョウ|イガイ)?",
        within: "（[０-９]+ノ[０-９]+イナイ）",
        excluding: "＜.*?ヲノゾク＞",
        other_than: "＜.*?＞イガイ",
        bare_number: "（(?:[０-９]+[～－])?[０-９]+）",
        chiwari_gloss: "チワリ（.*?）",
        chiwari: "チワリ",
        ko_otsu: "コウ、オツ",
        ko_otsu_gloss: "^(コウ、オツ.*?)（.*）$",
        chome_range: "（([０-９]+)[～－]([０-９]+)チョウメ）",
        chome: "チョウメ",
        chiwari_in_parens: "（(ダイ[０-９]+チワリ)[～－](ダイ[０-９]+チワリ)）",
        chiwari_range: "(ダイ[０-９]+チワリ)[～－](ダイ[０-９]+チワリ)",
        named_chiwari_range: "((.*?)[０-９]+チワリ)[～－](.*?[０-９]+チワリ)",
        dot_list: "（(.*?・.*?)）",
        comma_list: "（(.*?、.*?|.*?ヲフクム)）",
        and_others: "、ソノタ",
        including: "ヲフクム",
        round_fence: "（(.*?)）",
        second_fence: "＜(.*?)＞",
        kept: "（コウソウトウ）",
    }
}

/// The table for the kanji town field.
pub fn kanji_rules() -> (rules: Rules)
    ensures
        rules == kanji(),
{
    Rules {
        not_listed: "以下に掲載がない場合",
        lot_follows: "の次に番地がくる場合",
        whole_area: "一円",
        note_whole: "（全域）",
        note_floor_unknown: "（地階・階層不明）",
        note_except_buildings: "（次のビルを除く）",
        note_chome: "（丁目）",
        note_each_town: "（各町）",
        note_lot: "（番地）",
        note_no_lot: "（無番地）",
        note_others: "（その他）",
        yashiki: "（.*?屋敷）",
        floor: "（([０-９]+階)）",
        lots: "(?:(?:[０-９]+[～－])?[０-９]+、)*(?:[０-９]+[～－])?[０-９]+番地?(?:以降|以下|以上|以外)?",
        within: "（[０-９]+の[０-９]+以内）",
        excluding: "「.*?を除く」",
        other_than: "「.*?」以外",
        bare_number: "（(?:[０-９]+[～－])?[０-９]+）",
        chiwari_gloss: "地割（.*?）",
        chiwari: "地割",
        ko_otsu: "甲、乙",
        ko_otsu_gloss: "^(甲、乙.*?)（.*）$",
        chome_range: "（([０-９]+)[～－]([０-９]+)丁目）",
        chome: "丁目",
        chiwari_in_parens: "（(第[０-９]+地割)[～－](第[０-９]+地割)）",
        chiwari_range: "(第[０-９]+地割)[～－](第[０-９]+地割)",
        named_chiwari_range: "((.*?)[０-９]+地割)[～－](.*?[０-９]+地割)",
        dot_list: "（(.*?・.*?)）",
        comma_list: "（(.*?、.*?|.*?を含む)）",
        and_others: "、その他",
        including: "を含む",
        round_fence: "（(.*?)）",
        second_fence: "「(.*?)」",
        kept: "（高層棟）",
    }
}

/// The table for the katakana town field.
pub fn kana_rules() -> (rules: Rules)
    ensures
        rules == kana(),
{
    Rules {
        not_listed: "イカニケイサイガナイバアイ",
        lot_follows: "ノツギニバンチガクルバアイ",
        whole_area: "イチエン",
        note_whole: "（ゼンイキ）",
        note_floor_unknown: "（チカイ・カイソウフメイ）",
        note_except_buildings: "（ツギノビルヲノゾク）",
        note_chome: "（チョウメ）",
        note_each_town: "（カクマチ）",
        note_lot: "（バンチ）",
        note_no_lot: "（ムバンチ）",
        note_others: "（ソノタ）",
        yashiki: "（.*?ヤシキチク）",
        floor: "（([０-９]+カイ)）",
        lots: "(?:(?:[０-９]+[～－])?[０-９]+、)*(?:[０-９]+[～－])?[０-９]+バンチ?(?:イコウ|イカ|イジョウ|イガイ)?",
        within: "（[０-９]+ノ[０-９]+イナイ）",
        excluding: "＜.*?ヲノゾク＞",
        other_than: "＜.*?＞イガイ",
        bare_number: "（(?:[０-９]+[～－])?[０-９]+）",
        chiwari_gloss: "チワリ（.*?）",
        chiwari: "チワリ",
        ko_otsu: "コウ、オツ",
        ko_otsu_gloss: "^(コウ、オツ.*?)（.*）$",
        chome_range: "（([０-９]+)[～－]([０-９]+)チョウメ）",
        chome: "チョウメ",
        chiwari_in_parens: "（(ダイ[０-９]+チワリ)[～－](ダイ[０-９]+チワリ)）",
        chiwari_range: "(ダイ[０-９]+チワリ)[～－](ダイ[０-９]+チワリ)",
        named_chiwari_range: "((.*?)[０-９]+チワリ)[～－](.*?[０-９]+チワリ)",
        dot_list: "（(.*?・.*?)）",
        comma_list: "（(.*?、.*?|.*?ヲフクム)）",
        and_others: "、ソノタ",
        including: "ヲフクム",
        round_fence: "（(.*?)）",
        second_fence: "＜(.*?)＞",
        kept: "（コウソウトウ）",
    }
}

impl Rules {
    /// Whether the engine accepts every pattern of the table.
    pub fn is_accepted(&self) -> (b: bool)
        ensures
            b == accepted(*self),
    {
        accepts(self.yashiki) && accepts(self.floor) && accepts(self.lots) && accepts(self.within)
            && accepts(self.excluding) && accepts(self.other_than) && accepts(self.bare_number)
            && accepts(self.chiwari_gloss) && accepts(self.ko_otsu_gloss) && accepts(
            self.chome_range,
        ) && accepts(self.chiwari_in_parens) && accepts(self.chiwari_range) && accepts(
            self.named_chiwari_range,
        ) && accepts(self.dot_list) && accepts(self.comma_list) && accepts(self.round_fence)
            && accepts(self.second_fence)
    }
}

} // verus!
