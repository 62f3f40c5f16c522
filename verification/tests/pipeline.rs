use jp_postal_code::error::NormalizeError;
use jp_postal_code::normalize::clean::{
    clean, remove_glosses, remove_notes, stands_for_city, tidy, unify,
};
use jp_postal_code::normalize::expand::{
    assemble, classify, entries_of, expand, list_entries, rest_of, Shape,
};
use jp_postal_code::normalize::pipeline::normalize;
use jp_postal_code::normalize::rules::{kana_rules, kanji_rules, Rules};

#[test]
fn stands_for_city_tells_the_three_cases() {
    let rules = kanji_rules();
    assert!(stands_for_city(&rules, "札幌市中央区", "以下に掲載がない場合"));
    assert!(stands_for_city(&rules, "境町", "境町の次に番地がくる場合"));
    assert!(stands_for_city(&rules, "北安曇郡松川村", "松川村一円"));
    assert!(stands_for_city(&rules, "北安曇郡松川村", "松川村"));
    assert!(stands_for_city(&rules, "北安曇郡松川村", ""));
    assert!(!stands_for_city(&rules, "犬上郡多賀町", "一円"));
    assert!(!stands_for_city(&rules, "札幌市中央区", "旭ケ丘"));
    assert!(!stands_for_city(&rules, "松川村", "北安曇郡松川村一円"));
}

#[test]
fn stands_for_city_reads_the_katakana_table() {
    let rules = kana_rules();
    assert!(stands_for_city(&rules, "サッポロシチュウオウク", "イカニケイサイガナイバアイ"));
    assert!(stands_for_city(&rules, "シモダシ", "シモダシノツギニバンチガクルバアイ"));
    assert!(stands_for_city(&rules, "トシマムラ", "トシマムライチエン"));
    assert!(!stands_for_city(&rules, "タガチョウ", "イチエン"));
    assert!(!stands_for_city(&rules, "サッポロシ", "以下に掲載がない場合"));
}

#[test]
fn unify_rewrites_the_seven_characters() {
    assert_eq!(unify("\u{301C}\u{FF5E}"), "\u{FF5E}\u{FF5E}");
    assert_eq!(
        unify("\u{2014}\u{002D}\u{2212}\u{2013}\u{FF0D}"),
        "\u{FF0D}\u{FF0D}\u{FF0D}\u{FF0D}\u{FF0D}"
    );
    assert_eq!(unify("大通西（１〜１９丁目）"), "大通西（１～１９丁目）");
    assert_eq!(unify("旭ケ丘ー"), "旭ケ丘ー");
    assert_eq!(unify(""), "");
}

#[test]
fn unify_twice_changes_nothing_more() {
    for s in ["北-条—西−町–東－", "北〜南～", "旭ケ丘", ""] {
        let once = unify(s);
        assert_eq!(unify(&once), once);
    }
}

#[test]
fn remove_notes_removes_each_annotation() {
    let rules = kanji_rules();
    assert_eq!(remove_notes(&rules, "東町（全域）（その他）"), "東町");
    assert_eq!(remove_notes(&rules, "東町（川西）"), "東町（川西）");
    let rules = kana_rules();
    assert_eq!(remove_notes(&rules, "ヒガシマチ（ゼンイキ）（バンチ）"), "ヒガシマチ");
}

#[test]
fn remove_glosses_runs_the_rewrites_in_order() {
    let rules = kanji_rules();
    assert_eq!(
        remove_glosses(&rules, "葛巻（第４０地割「５７番地１２５、１７６を除く」～第４５地割）"),
        Ok("葛巻（第４０地割～第４５地割）".to_string())
    );
    assert_eq!(
        remove_glosses(&rules, "東洋（油駒、１３２～１５６、３６７番地）"),
        Ok("東洋（油駒、）".to_string())
    );
}

#[test]
fn tidy_removes_what_is_left_behind() {
    assert_eq!(tidy("南山（、大谷地、、折渡、）"), "南山（大谷地、折渡）");
    assert_eq!(tidy("青木島乙（）"), "青木島乙");
    assert_eq!(tidy("青木島乙（、）"), "青木島乙");
}

#[test]
fn clean_makes_the_working_string() {
    let rules = kanji_rules();
    assert_eq!(
        clean(&rules, "東洋（油駒、南東洋、１３２～１５６、１５８～３５４、３６６、３６７番地）"),
        Ok("東洋（油駒、南東洋）".to_string())
    );
    assert_eq!(clean(&rules, "紀の川市竹房（４５０番地以下）"), Ok("紀の川市竹房".to_string()));
}

#[test]
fn list_entries_cuts_the_list() {
    assert_eq!(list_entries("北原、その他", "、その他", "を含む", '、'), vec!["北原"]);
    assert_eq!(
        list_entries("葛籠川、轟崎を含む", "、その他", "を含む", '、'),
        vec!["葛籠川", "轟崎"]
    );
    assert_eq!(list_entries("土手畑・藤場", "、その他", "を含む", '・'), vec!["土手畑", "藤場"]);
    assert_eq!(list_entries("", "、その他", "を含む", '・'), vec![""]);
}

#[test]
fn assemble_adds_the_parent_last() {
    let items = vec!["１丁目".to_string(), "２丁目".to_string()];
    assert_eq!(
        assemble("芝浦", items.clone(), Some("".to_string())),
        vec!["芝浦１丁目", "芝浦２丁目", "芝浦"]
    );
    assert_eq!(assemble("芝浦", items, None), vec!["芝浦１丁目", "芝浦２丁目"]);
    assert_eq!(assemble("", vec![], Some("越中畑".to_string())), vec!["越中畑"]);
    assert_eq!(assemble("芝浦", vec![], None), Vec::<String>::new());
}

#[test]
fn expand_tries_the_shapes_in_order() {
    let rules = kanji_rules();
    assert_eq!(expand(&rules, "甲、乙（１～２丁目）"), Ok(vec!["甲".to_string(), "乙".to_string()]));
    assert_eq!(
        expand(&rules, "東（１～２丁目）（南・北）"),
        Ok(vec![
            "東（南・北）１丁目".to_string(),
            "東（南・北）２丁目".to_string(),
            "東（南・北）".to_string()
        ])
    );
    assert_eq!(
        expand(&rules, "東（南・北、西）"),
        Ok(vec!["東南".to_string(), "東北、西".to_string()])
    );
}

#[test]
fn expand_parent_comes_with_some_shapes_only() {
    let rules = kanji_rules();
    assert_eq!(expand(&rules, "芝浦（２～４丁目）").unwrap().last().unwrap(), "芝浦");
    assert_eq!(expand(&rules, "種市第５０地割～第５２地割").unwrap().last().unwrap(), "種市");
    assert_eq!(expand(&rules, "上美唄町（協和、南）").unwrap().last().unwrap(), "上美唄町");
    assert_eq!(
        expand(&rules, "越中畑６４地割～越中畑６５地割").unwrap().last().unwrap(),
        "越中畑"
    );
    assert_eq!(expand(&rules, "葛巻（第４０地割～第４１地割）").unwrap().len(), 2);
    assert_eq!(expand(&rules, "釜ケ島（土手畑・藤場）").unwrap().len(), 2);
    assert_eq!(expand(&rules, "穴明２２地割、穴明２３地割").unwrap().len(), 2);
    assert_eq!(expand(&rules, "甲、乙").unwrap().len(), 2);
}

fn groups(texts: &[&str]) -> Vec<Option<String>> {
    texts.iter().map(|t| Some(t.to_string())).collect()
}

#[test]
fn classify_tells_each_shape() {
    let rules = kanji_rules();
    let shape = |town: &str| classify(&rules, town).unwrap().0;
    assert_eq!(shape("甲、乙（大木戸）"), Shape::KoOtsu);
    assert_eq!(shape("三ツ木（１～５丁目）"), Shape::ChomeRange);
    assert_eq!(shape("葛巻（第４０地割～第４５地割）"), Shape::ChiwariInParens);
    assert_eq!(shape("種市第５０地割～第７０地割"), Shape::ChiwariRange);
    assert_eq!(shape("越中畑６４地割～越中畑６６地割"), Shape::NamedChiwariRange);
    assert_eq!(shape("釜ケ島（土手畑・藤場）"), Shape::DotList);
    assert_eq!(shape("上美唄町（協和、南）"), Shape::CommaList);
    assert_eq!(shape("大正（轟崎を含む）"), Shape::CommaList);
    assert_eq!(shape("穴明２２地割、穴明２３地割"), Shape::BareCommas);
    assert_eq!(shape("旭ケ丘"), Shape::Plain);
    assert_eq!(shape(""), Shape::Plain);
}

#[test]
fn classify_hands_out_the_groups() {
    let rules = kanji_rules();
    assert_eq!(
        classify(&rules, "三ツ木（１～５丁目）"),
        Ok((Shape::ChomeRange, groups(&["（１～５丁目）", "１", "５"])))
    );
    assert_eq!(
        classify(&rules, "越中畑６４地割～越中畑６６地割"),
        Ok((
            Shape::NamedChiwariRange,
            groups(&[
                "越中畑６４地割～越中畑６６地割",
                "越中畑６４地割",
                "越中畑",
                "越中畑６６地割"
            ])
        ))
    );
    assert_eq!(classify(&rules, "旭ケ丘"), Ok((Shape::Plain, vec![])));
    assert_eq!(classify(&rules, "甲、乙"), Ok((Shape::KoOtsu, vec![])));
}

#[test]
fn rest_of_takes_the_match_away() {
    let rules = kanji_rules();
    assert_eq!(rest_of(&rules, Shape::ChomeRange, "三ツ木（１～５丁目）"), Ok("三ツ木".to_string()));
    assert_eq!(rest_of(&rules, Shape::KoOtsu, "甲、乙（大木戸）"), Ok("甲、乙".to_string()));
    assert_eq!(rest_of(&rules, Shape::BareCommas, "甲、乙"), Ok("甲、乙".to_string()));
    assert_eq!(
        rest_of(&rules, Shape::Plain, "山「川」（高層棟）（西）"),
        Ok("山川（高層棟）西".to_string())
    );
    assert_eq!(rest_of(&rules, Shape::DotList, "釜ケ島（土手畑・藤場）北"), Ok("釜ケ島北".to_string()));
}

#[test]
fn entries_of_writes_out_ranges() {
    let rules = kanji_rules();
    assert_eq!(
        entries_of(&rules, Shape::ChomeRange, "三ツ木", &groups(&["（１～３丁目）", "１", "３"])),
        Ok(vec![
            "三ツ木１丁目".to_string(),
            "三ツ木２丁目".to_string(),
            "三ツ木３丁目".to_string(),
            "三ツ木".to_string()
        ])
    );
    assert_eq!(
        entries_of(
            &rules,
            Shape::ChiwariInParens,
            "葛巻",
            &groups(&["（第９地割～第１０地割）", "第９地割", "第１０地割"])
        ),
        Ok(vec!["葛巻第９地割".to_string(), "葛巻第１０地割".to_string()])
    );
    assert_eq!(
        entries_of(
            &rules,
            Shape::ChiwariRange,
            "種市",
            &groups(&["第９地割～第１０地割", "第９地割", "第１０地割"])
        ),
        Ok(vec!["種市第９地割".to_string(), "種市第１０地割".to_string(), "種市".to_string()])
    );
    assert_eq!(
        entries_of(
            &rules,
            Shape::NamedChiwariRange,
            "",
            &groups(&["畑６４地割～畑６５地割", "畑６４地割", "畑", "畑６５地割"])
        ),
        Ok(vec!["畑６４地割".to_string(), "畑６５地割".to_string(), "畑".to_string()])
    );
}

#[test]
fn entries_of_reversed_ranges() {
    let rules = kanji_rules();
    let reversed = groups(&["", "第５地割", "第３地割"]);
    assert_eq!(entries_of(&rules, Shape::ChiwariInParens, "葛巻", &reversed), Ok(vec![]));
    assert_eq!(
        entries_of(&rules, Shape::ChiwariRange, "葛巻", &reversed),
        Ok(vec!["葛巻".to_string()])
    );
}

#[test]
fn entries_of_writes_out_lists() {
    let rules = kanji_rules();
    assert_eq!(
        entries_of(&rules, Shape::DotList, "釜ケ島", &groups(&["（土手畑・藤場）", "土手畑・藤場"])),
        Ok(vec!["釜ケ島土手畑".to_string(), "釜ケ島藤場".to_string()])
    );
    assert_eq!(
        entries_of(&rules, Shape::CommaList, "高師町", &groups(&["（北原、その他）", "北原、その他"])),
        Ok(vec!["高師町北原".to_string(), "高師町".to_string()])
    );
    assert_eq!(
        entries_of(&rules, Shape::KoOtsu, "甲、乙・丙", &vec![]),
        Ok(vec!["甲".to_string(), "乙".to_string(), "丙".to_string()])
    );
    assert_eq!(
        entries_of(&rules, Shape::BareCommas, "甲、乙・丙", &vec![]),
        Ok(vec!["甲".to_string(), "乙・丙".to_string()])
    );
    assert_eq!(entries_of(&rules, Shape::Plain, "甲、乙", &vec![]), Ok(vec!["甲、乙".to_string()]));
}

#[test]
fn entries_of_fails_on_what_is_missing() {
    let rules = kanji_rules();
    assert_eq!(
        entries_of(&rules, Shape::ChomeRange, "三ツ木", &groups(&["（１～３丁目）", "１"])),
        Err(NormalizeError::Pattern)
    );
    assert_eq!(
        entries_of(&rules, Shape::ChomeRange, "三ツ木", &vec![Some("x".to_string()), None, None]),
        Err(NormalizeError::Pattern)
    );
    assert_eq!(
        entries_of(&rules, Shape::NamedChiwariRange, "", &groups(&["", "畑１地割", "畑"])),
        Err(NormalizeError::Pattern)
    );
    assert_eq!(entries_of(&rules, Shape::DotList, "釜ケ島", &vec![]), Err(NormalizeError::Pattern));
    assert_eq!(
        entries_of(&rules, Shape::ChiwariRange, "種市", &groups(&["", "第地割", "第２地割"])),
        Err(NormalizeError::MalformedRange)
    );
    assert_eq!(
        entries_of(&rules, Shape::ChomeRange, "三ツ木", &groups(&["", "一", "３"])),
        Err(NormalizeError::MalformedRange)
    );
}

#[test]
fn normalize_follows_the_table() {
    let kanji = kanji_rules();
    let kana = kana_rules();
    assert_eq!(normalize(&kanji, "港区", "芝浦（２〜４丁目）").unwrap().len(), 4);
    assert_eq!(
        normalize(&kana, "ミナトク", "シバウラ（２－４チョウメ）"),
        Ok(vec![
            "シバウラ２チョウメ".to_string(),
            "シバウラ３チョウメ".to_string(),
            "シバウラ４チョウメ".to_string(),
            "シバウラ".to_string()
        ])
    );
    assert_eq!(
        normalize(&kanji, "ミナトク", "シバウラ（２－４チョウメ）"),
        Ok(vec!["シバウラ２－４チョウメ".to_string()])
    );
}

#[test]
fn normalize_with_a_refused_pattern_fails() {
    let broken = Rules { yashiki: "（(", ..kanji_rules() };
    assert_eq!(normalize(&broken, "港区", "芝浦"), Err(NormalizeError::Pattern));
    assert_eq!(normalize(&broken, "港区", "以下に掲載がない場合"), Ok(vec!["".to_string()]));
}

#[test]
fn normalize_with_a_label_without_number_is_malformed() {
    let loose = Rules { chiwari_range: "(第.*?地割)[～－](第.*?地割)", ..kanji_rules() };
    assert_eq!(
        normalize(&loose, "洋野町", "種市第一地割～第二地割"),
        Err(NormalizeError::MalformedRange)
    );
}

#[test]
fn normalize_with_a_missing_group_fails() {
    let loose = Rules { dot_list: "（.*?・.*?）", ..kanji_rules() };
    assert_eq!(normalize(&loose, "長岡市", "釜ケ島（土手畑・藤場）"), Err(NormalizeError::Pattern));
}
