use jp_postal_code::error::NormalizeError;
use jp_postal_code::zenkaku::{
    extract_zenkaku_numeric, from_zenkaku_numeric, is_zenkaku_numeric, to_zenkaku_numeric,
    zenkaku_range_label,
};

#[test]
fn test_is_zenkaku_numeric() {
    assert!(is_zenkaku_numeric(&'０'));
    assert!(is_zenkaku_numeric(&'１'));
    assert!(is_zenkaku_numeric(&'２'));
    assert!(is_zenkaku_numeric(&'３'));
    assert!(is_zenkaku_numeric(&'４'));
    assert!(is_zenkaku_numeric(&'５'));
    assert!(is_zenkaku_numeric(&'６'));
    assert!(is_zenkaku_numeric(&'７'));
    assert!(is_zenkaku_numeric(&'８'));
    assert!(is_zenkaku_numeric(&'９'));
    assert!(!is_zenkaku_numeric(&'あ'));
    assert!(!is_zenkaku_numeric(&'ア'));
    assert!(!is_zenkaku_numeric(&'一'));
    assert!(!is_zenkaku_numeric(&'1'));
    assert!(!is_zenkaku_numeric(&'a'));
}

#[test]
fn test_extract_zenkaku_numeric() {
    assert_eq!(extract_zenkaku_numeric("１２３"), "１２３");
    assert_eq!(extract_zenkaku_numeric("１２３abc"), "１２３");
    assert_eq!(extract_zenkaku_numeric("abc１２３"), "１２３");
    assert_eq!(extract_zenkaku_numeric("abc１２３abc"), "１２３");
    assert_eq!(extract_zenkaku_numeric("abc１２３abc４５６"), "１２３");
}

#[test]
fn test_from_zenkaku_numeric() {
    assert_eq!(from_zenkaku_numeric("１２３"), Ok(123));
    assert_eq!(from_zenkaku_numeric("１２３abc"), Ok(123));
    assert_eq!(from_zenkaku_numeric("abc１２３"), Ok(123));
    assert_eq!(from_zenkaku_numeric("abc１２３abc"), Ok(123));
    assert_eq!(from_zenkaku_numeric("abc１２３abc４５６"), Ok(123));
}

#[test]
fn test_to_zenkaku_numeric() {
    assert_eq!(to_zenkaku_numeric(123), "１２３");
}

#[test]
fn test_range_label() {
    assert_eq!(zenkaku_range_label("１", "３").unwrap(), vec!["１", "２", "３"]);
    assert_eq!(
        zenkaku_range_label("８丁目", "１２丁目").unwrap(),
        vec!["８丁目", "９丁目", "１０丁目", "１１丁目", "１２丁目"]
    );
    assert_eq!(
        zenkaku_range_label("第８地割", "第１２地割").unwrap(),
        vec![
            "第８地割",
            "第９地割",
            "第１０地割",
            "第１１地割",
            "第１２地割"
        ]
    );
}

#[test]
fn extract_without_digits_is_empty() {
    assert_eq!(extract_zenkaku_numeric(""), "");
    assert_eq!(extract_zenkaku_numeric("丁目"), "");
    assert_eq!(extract_zenkaku_numeric("123"), "");
}

#[test]
fn from_zenkaku_numeric_without_digits_fails() {
    assert_eq!(from_zenkaku_numeric(""), Err(NormalizeError::MalformedNumber));
    assert_eq!(from_zenkaku_numeric("丁目"), Err(NormalizeError::MalformedNumber));
    assert_eq!(from_zenkaku_numeric("12"), Err(NormalizeError::MalformedNumber));
}

#[test]
fn from_zenkaku_numeric_reads_leading_zeros() {
    assert_eq!(from_zenkaku_numeric("００７"), Ok(7));
    assert_eq!(from_zenkaku_numeric("０"), Ok(0));
}

#[test]
fn from_zenkaku_numeric_beyond_usize_fails() {
    assert_eq!(
        from_zenkaku_numeric("９９９９９９９９９９９９９９９９９９９９９９９９９９９９９９"),
        Err(NormalizeError::MalformedNumber)
    );
    let max = to_zenkaku_numeric(usize::MAX);
    assert_eq!(from_zenkaku_numeric(&max), Ok(usize::MAX));
}

#[test]
fn to_zenkaku_numeric_writes_every_digit() {
    assert_eq!(to_zenkaku_numeric(0), "０");
    assert_eq!(to_zenkaku_numeric(9), "９");
    assert_eq!(to_zenkaku_numeric(10), "１０");
    assert_eq!(to_zenkaku_numeric(1234567890), "１２３４５６７８９０");
}

#[test]
fn written_numbers_read_back() {
    for n in [0usize, 1, 9, 10, 99, 100, 4567, 1_000_000] {
        assert_eq!(from_zenkaku_numeric(&to_zenkaku_numeric(n)), Ok(n));
    }
}

#[test]
fn range_label_numbers_are_contiguous() {
    let labels = zenkaku_range_label("第９８地割", "第１０３地割").unwrap();
    assert_eq!(labels.len(), 6);
    for (k, label) in labels.iter().enumerate() {
        assert_eq!(from_zenkaku_numeric(label), Ok(98 + k));
    }
}

#[test]
fn range_label_replaces_only_the_first_number() {
    assert_eq!(
        zenkaku_range_label("１丁目２番", "２丁目").unwrap(),
        vec!["１丁目２番", "２丁目２番"]
    );
}

#[test]
fn range_label_of_one_number() {
    assert_eq!(zenkaku_range_label("５丁目", "５丁目").unwrap(), vec!["５丁目"]);
}

#[test]
fn range_label_reversed_is_empty() {
    assert_eq!(zenkaku_range_label("５丁目", "３丁目"), Ok(vec![]));
}

#[test]
fn range_label_without_number_fails() {
    assert_eq!(zenkaku_range_label("丁目", "３丁目"), Err(NormalizeError::MalformedRange));
    assert_eq!(zenkaku_range_label("１丁目", "丁目"), Err(NormalizeError::MalformedRange));
    assert_eq!(zenkaku_range_label("", ""), Err(NormalizeError::MalformedRange));
}
