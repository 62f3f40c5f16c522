use jp_postal_code::error::NormalizeError;
use jp_postal_code::normalize::fences::{replace_all_unfenced, unfenced, weave};
use jp_postal_code::normalize::rules::{kana_rules, kanji_rules, Rules};
use jp_postal_code::pattern::{accepts, captures, captures_iter, replace_all, split};

#[test]
fn replace_all_rewrites_every_match() {
    assert_eq!(replace_all("（.*?屋敷）", "富岡（○○屋敷）", ""), Ok("富岡".to_string()));
    assert_eq!(
        replace_all("（([０-９]+階)）", "アエル（１階）と（２階）", "$1"),
        Ok("アエル１階と２階".to_string())
    );
    assert_eq!(replace_all("地割（.*?）", "第５０地割（大沢）", "地割"), Ok("第５０地割".to_string()));
}

#[test]
fn replace_all_without_match_keeps_text() {
    assert_eq!(replace_all("（.*?屋敷）", "富岡", ""), Ok("富岡".to_string()));
}

#[test]
fn replace_all_refused_pattern_fails() {
    assert_eq!(replace_all("（(", "富岡", ""), Err(NormalizeError::Pattern));
}

#[test]
fn captures_hands_out_groups_in_order() {
    assert_eq!(
        captures("（([０-９]+)[～－]([０-９]+)丁目）", "三ツ木（１～５丁目）"),
        Ok(Some(vec![
            Some("（１～５丁目）".to_string()),
            Some("１".to_string()),
            Some("５".to_string())
        ]))
    );
}

#[test]
fn captures_takes_the_leftmost_match() {
    assert_eq!(
        captures("([０-９]+)番", "１番２番"),
        Ok(Some(vec![Some("１番".to_string()), Some("１".to_string())]))
    );
}

#[test]
fn captures_marks_groups_that_took_no_part() {
    assert_eq!(
        captures("(a)|(b)", "b"),
        Ok(Some(vec![Some("b".to_string()), None, Some("b".to_string())]))
    );
}

#[test]
fn captures_without_match_is_none() {
    assert_eq!(captures("（([０-９]+)丁目）", "三ツ木"), Ok(None));
}

#[test]
fn captures_refused_pattern_fails() {
    assert_eq!(captures("[", "三ツ木"), Err(NormalizeError::Pattern));
}

#[test]
fn unfenced_keeps_the_token() {
    assert_eq!(unfenced("（高層棟）", Some("高層棟"), "（高層棟）"), "（高層棟）");
    assert_eq!(unfenced("（川西）", Some("川西"), "（高層棟）"), "川西");
    assert_eq!(unfenced("（川西）", None, "（高層棟）"), "（川西）");
    assert_eq!(unfenced("（）", Some(""), "（高層棟）"), "");
}

#[test]
fn replace_all_unfenced_removes_brackets_but_the_token() {
    assert_eq!(
        replace_all_unfenced("（(.*?)）", "名駅（高層棟）（東）と（西）", "（高層棟）"),
        Ok("名駅（高層棟）東と西".to_string())
    );
    assert_eq!(
        replace_all_unfenced("「(.*?)」", "山田「川西」", "（高層棟）"),
        Ok("山田川西".to_string())
    );
    assert_eq!(
        replace_all_unfenced("（(.*?)）", "山田", "（高層棟）"),
        Ok("山田".to_string())
    );
}

#[test]
fn replace_all_unfenced_refused_pattern_fails() {
    assert_eq!(replace_all_unfenced("(", "山田", "（高層棟）"), Err(NormalizeError::Pattern));
}

#[test]
fn accepts_tells_patterns_apart() {
    assert!(accepts("（(.*?)）"));
    assert!(accepts(""));
    assert!(!accepts("（("));
    assert!(!accepts("["));
}

#[test]
fn both_tables_are_accepted() {
    assert!(kanji_rules().is_accepted());
    assert!(kana_rules().is_accepted());
    let broken = Rules { second_fence: "(", ..kanji_rules() };
    assert!(!broken.is_accepted());
    let broken = Rules { yashiki: "(", ..kana_rules() };
    assert!(!broken.is_accepted());
}

#[test]
fn split_hands_out_the_parts_between_matches() {
    assert_eq!(
        split("（(.*?)）", "名駅（高層棟）（東）と（西）"),
        Ok(vec!["名駅".to_string(), "".to_string(), "と".to_string(), "".to_string()])
    );
    assert_eq!(split("（(.*?)）", "山田"), Ok(vec!["山田".to_string()]));
    assert_eq!(split("（(.*?)）", ""), Ok(vec!["".to_string()]));
    assert_eq!(split("(", "山田"), Err(NormalizeError::Pattern));
}

#[test]
fn captures_iter_hands_out_every_match() {
    assert_eq!(
        captures_iter("（(.*?)）", "名駅（高層棟）（東）"),
        Ok(vec![
            vec![Some("（高層棟）".to_string()), Some("高層棟".to_string())],
            vec![Some("（東）".to_string()), Some("東".to_string())]
        ])
    );
    assert_eq!(captures_iter("（(.*?)）", "山田"), Ok(vec![]));
    assert_eq!(
        captures_iter("(a)|(b)", "ab"),
        Ok(vec![
            vec![Some("a".to_string()), Some("a".to_string()), None],
            vec![Some("b".to_string()), None, Some("b".to_string())]
        ])
    );
    assert_eq!(captures_iter("[", "山田"), Err(NormalizeError::Pattern));
}

fn found(whole: &str, inner: &str) -> Vec<Option<String>> {
    vec![Some(whole.to_string()), Some(inner.to_string())]
}

#[test]
fn weave_puts_the_parts_together() {
    let parts = vec!["名駅".to_string(), "".to_string(), "と".to_string()];
    let matches = vec![found("（高層棟）", "高層棟"), found("（東）", "東")];
    assert_eq!(weave(&parts, &matches, "（高層棟）"), Ok("名駅（高層棟）東と".to_string()));
    assert_eq!(weave(&parts, &matches, "（東）"), Ok("名駅高層棟（東）と".to_string()));
    assert_eq!(weave(&vec!["山田".to_string()], &vec![], "（高層棟）"), Ok("山田".to_string()));
    let bare = vec![vec![Some("（東）".to_string())]];
    assert_eq!(
        weave(&vec!["a".to_string(), "b".to_string()], &bare, "（高層棟）"),
        Ok("a（東）b".to_string())
    );
}

#[test]
fn weave_fails_where_parts_and_matches_do_not_fit() {
    let matches = vec![found("（東）", "東")];
    assert_eq!(weave(&vec![], &vec![], "k"), Err(NormalizeError::Pattern));
    assert_eq!(weave(&vec!["a".to_string()], &matches, "k"), Err(NormalizeError::Pattern));
    assert_eq!(
        weave(&vec!["a".to_string(), "b".to_string(), "c".to_string()], &matches, "k"),
        Err(NormalizeError::Pattern)
    );
    assert_eq!(
        weave(&vec!["a".to_string(), "b".to_string()], &vec![vec![None]], "k"),
        Err(NormalizeError::Pattern)
    );
    assert_eq!(
        weave(&vec!["a".to_string(), "b".to_string()], &vec![vec![]], "k"),
        Err(NormalizeError::Pattern)
    );
}

#[test]
fn replace_all_unfenced_keeps_a_match_that_holds_the_token() {
    assert_eq!(
        replace_all_unfenced("（(.*?)）", "山（a（高層棟）", "（高層棟）"),
        Ok("山a（高層棟".to_string())
    );
}
