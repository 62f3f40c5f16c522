use jp_postal_code::model::UtfKenAllRecord;
use jp_postal_code::normalize::{
    normalize_utf_ken_all_record_town, normalize_utf_ken_all_record_town_kana,
};

fn kana_record(city_kana: &str, town_kana: &str) -> UtfKenAllRecord {
    UtfKenAllRecord {
        local_government_code: "00000".to_string(),
        old_postal_code: "000  ".to_string(),
        postal_code: "0000000".to_string(),
        prefecture_kana: "".to_string(),
        city_kana: city_kana.to_string(),
        town_kana: town_kana.to_string(),
        prefecture: "".to_string(),
        city: "".to_string(),
        town: "".to_string(),
        has_multi_postal_code: 0,
        has_chome: 0,
        has_multi_town: 0,
        update_code: 0,
        update_reason: 0,
    }
}

fn kanas(city_kana: &str, town_kana: &str) -> Vec<String> {
    normalize_utf_ken_all_record_town_kana(&kana_record(city_kana, town_kana)).unwrap()
}

#[test]
fn kana_not_listed_gives_city_only() {
    assert_eq!(kanas("サッポロシチュウオウク", "イカニケイサイガナイバアイ"), vec![""]);
}

#[test]
fn kana_lot_follows_gives_city_only() {
    assert_eq!(
        kanas("サシマグンサカイマチ", "サカイマチノツギニバンチガクルバアイ"),
        vec![""]
    );
}

#[test]
fn kana_whole_area_gives_city_only() {
    assert_eq!(kanas("キタアヅミグンマツカワムラ", "マツカワムライチエン"), vec![""]);
    assert_eq!(kanas("トシマムラ", "トシマムライチエン"), vec![""]);
}

#[test]
fn kana_chome_range_in_parens_includes_parent() {
    assert_eq!(
        kanas("ムサシムラヤマシ", "ミツギ（１－５チョウメ）"),
        vec![
            "ミツギ１チョウメ",
            "ミツギ２チョウメ",
            "ミツギ３チョウメ",
            "ミツギ４チョウメ",
            "ミツギ５チョウメ",
            "ミツギ"
        ]
    );
    assert_eq!(
        kanas("サッポロシチュウオウク", "オオドオリニシ（２０−２２チョウメ）"),
        vec![
            "オオドオリニシ２０チョウメ",
            "オオドオリニシ２１チョウメ",
            "オオドオリニシ２２チョウメ",
            "オオドオリニシ"
        ]
    );
}

#[test]
fn kana_chiwari_range_in_parens_has_no_parent() {
    assert_eq!(
        kanas(
            "イワテグンクズマキマチ",
            "クズマキ（ダイ４０チワリ＜５７バンチ１２５、１７６ヲノゾク＞－ダイ４５チワリ）"
        ),
        vec![
            "クズマキダイ４０チワリ",
            "クズマキダイ４１チワリ",
            "クズマキダイ４２チワリ",
            "クズマキダイ４３チワリ",
            "クズマキダイ４４チワリ",
            "クズマキダイ４５チワリ"
        ]
    );
}

#[test]
fn kana_chiwari_range_includes_parent() {
    let names = kanas(
        "クノヘグンヒロノチョウ",
        "タネイチダイ５０チワリ－ダイ７０チワリ（オオサワ、ジョウナイ、タキサワ）",
    );
    assert_eq!(names.len(), 22);
    assert_eq!(names[0], "タネイチダイ５０チワリ");
    assert_eq!(names[20], "タネイチダイ７０チワリ");
    assert_eq!(names[21], "タネイチ");
}

#[test]
fn kana_named_chiwari_range_includes_name() {
    assert_eq!(
        kanas("ワガグンニシワガマチ", "エッチュウハタ６４チワリ－エッチュウハタ６６チワリ"),
        vec![
            "エッチュウハタ６４チワリ",
            "エッチュウハタ６５チワリ",
            "エッチュウハタ６６チワリ",
            "エッチュウハタ"
        ]
    );
}

#[test]
fn kana_dot_list_has_no_parent() {
    assert_eq!(
        kanas("ナガオカシ", "カマガシマ（ドテバタケ・フジバ）"),
        vec!["カマガシマドテバタケ", "カマガシマフジバ"]
    );
}

#[test]
fn kana_comma_list_includes_parent() {
    assert_eq!(
        kanas("ビバイシ", "カミビバイチョウ（キョウワ、ミナミ）"),
        vec!["カミビバイチョウキョウワ", "カミビバイチョウミナミ", "カミビバイチョウ"]
    );
    assert_eq!(
        kanas("トヨハシシ", "タカシチョウ（キタハラ、ソノタ）"),
        vec!["タカシチョウキタハラ", "タカシチョウ"]
    );
    assert_eq!(
        kanas("タカオカグンシマントチョウ", "タイショウ（ツヅラガワ、トドロキザキヲフクム）"),
        vec!["タイショウツヅラガワ", "タイショウトドロキザキ", "タイショウ"]
    );
}

#[test]
fn kana_lot_numbers_are_removed() {
    assert_eq!(
        kanas(
            "ホロイズミグンエリモチョウ",
            "トウヨウ（アブラコマ、ミナミトウヨウ、１３２－１５６、１５８－３５４、３６６、３６７バンチ）"
        ),
        vec!["トウヨウアブラコマ", "トウヨウミナミトウヨウ", "トウヨウ"]
    );
    assert_eq!(kanas("キノカワシ", "タケブサ（４５０バンチイカ）"), vec!["タケブサ"]);
    assert_eq!(kanas("カゴシマシ", "ミドリガオカチョウ（３５バンイコウ）"), vec!["ミドリガオカチョウ"]);
    assert_eq!(
        kanas("ヒュウガシ", "トウゴウチョウヤマゲボ（５１３ノ１イナイ）"),
        vec!["トウゴウチョウヤマゲボ"]
    );
    assert_eq!(kanas("イチハラシ", "クサカリ（１６５６－１９９９）"), vec!["クサカリ"]);
}

#[test]
fn kana_fenced_exceptions_are_removed() {
    assert_eq!(
        kanas(
            "ヨイチグンニキチョウ",
            "オオエ（１チョウメ、２チョウメ＜６５１、６６２、６６８バンチ＞イガイ、３チョウメ５、１３－４、２０、６７８、６８７バンチ）"
        ),
        vec!["オオエ１チョウメ", "オオエ２チョウメ", "オオエ３チョウメ", "オオエ"]
    );
}

#[test]
fn kana_yashiki_gloss_is_removed() {
    assert_eq!(kanas("シンシロシ", "トミオカ（ヤシキチク）"), vec!["トミオカ"]);
}

#[test]
fn kana_floor_loses_its_brackets() {
    assert_eq!(
        kanas("ミナトク", "ロッポンギロッポンギヒルズモリタワー（１カイ）"),
        vec!["ロッポンギロッポンギヒルズモリタワー１カイ"]
    );
}

#[test]
fn kana_wing_token_keeps_its_brackets() {
    assert_eq!(
        kanas("ナゴヤシナカムラク", "メイエキミッドランドスクエア（コウソウトウ）（１０カイ）"),
        vec!["メイエキミッドランドスクエア（コウソウトウ）１０カイ"]
    );
}

#[test]
fn kana_remaining_brackets_are_removed() {
    assert_eq!(kanas("サッポロシ", "ヤマダ（カワニシ）"), vec!["ヤマダカワニシ"]);
    assert_eq!(kanas("サッポロシ", "ヤマダ＜カワニシ＞"), vec!["ヤマダカワニシ"]);
}

#[test]
fn kana_ko_otsu_is_split() {
    assert_eq!(kanas("ショウズグントノショウチョウ", "コウ、オツ（オオキド）"), vec!["コウ", "オツ"]);
}

#[test]
fn kana_bare_commas_are_split() {
    assert_eq!(
        kanas("ワガグンニシワガマチ", "アナアケ２２チワリ、アナアケ２３チワリ"),
        vec!["アナアケ２２チワリ", "アナアケ２３チワリ"]
    );
}

#[test]
fn kana_plain_passes_through() {
    assert_eq!(kanas("サッポロシチュウオウク", "アサヒガオカ"), vec!["アサヒガオカ"]);
}

#[test]
fn both_fields_give_lists_of_equal_length() {
    let rows = [
        ("札幌市中央区", "以下に掲載がない場合", "サッポロシチュウオウク", "イカニケイサイガナイバアイ"),
        ("札幌市中央区", "旭ケ丘", "サッポロシチュウオウク", "アサヒガオカ"),
        ("札幌市中央区", "大通西（１〜１９丁目）", "サッポロシチュウオウク", "オオドオリニシ（１−１９チョウメ）"),
        ("長岡市", "釜ケ島（土手畑・藤場）", "ナガオカシ", "カマガシマ（ドテバタケ・フジバ）"),
        ("美唄市", "上美唄町（協和、南）", "ビバイシ", "カミビバイチョウ（キョウワ、ミナミ）"),
    ];
    for (city, town, city_kana, town_kana) in rows {
        let mut record = kana_record(city_kana, town_kana);
        record.city = city.to_string();
        record.town = town.to_string();
        let towns = normalize_utf_ken_all_record_town(&record).unwrap();
        let kanas = normalize_utf_ken_all_record_town_kana(&record).unwrap();
        assert_eq!(towns.len(), kanas.len());
    }
}

#[test]
fn kana_names_hold_no_brackets_but_the_wing_token() {
    let rows = [
        "ミツギ（１－５チョウメ）",
        "クズマキ（ダイ４０チワリ＜５７バンチ１２５、１７６ヲノゾク＞－ダイ４５チワリ）",
        "タネイチダイ５０チワリ－ダイ７０チワリ（オオサワ、ジョウナイ、タキサワ）",
        "カマガシマ（ドテバタケ・フジバ）",
        "カミビバイチョウ（キョウワ、ミナミ）",
        "ロッポンギロッポンギヒルズモリタワー（１カイ）",
        "メイエキミッドランドスクエア（コウソウトウ）（１０カイ）",
        "コウ、オツ（オオキド）",
        "ヤマダ＜カワニシ＞",
    ];
    for town_kana in rows {
        for name in kanas("サッポロシチュウオウク", town_kana) {
            let bare = name.replace("（コウソウトウ）", "");
            assert!(!bare.contains(['（', '）', '「', '」', '＜', '＞']));
        }
    }
}

#[test]
fn kana_dashes_are_unified() {
    assert_eq!(kanas("サッポロシ", "キタ-ミナミ−ニシ"), vec!["キタ－ミナミ－ニシ"]);
    assert_eq!(
        kanas("ミナトク", "シバウラ（２〜４チョウメ）"),
        kanas("ミナトク", "シバウラ（２～４チョウメ）")
    );
}
