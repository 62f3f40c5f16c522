//! What the service does with the records: it turns each row of the file into
//! the rows of the store, one for each town name, and it answers searches.

use crate::error::NormalizeError;
use crate::infra::ephemeral::UtfKenAllRepositoryEphemeral;
use crate::model::{RecordText, UtfKenAllRecord};
use crate::normalize::pipeline::normalized;
use crate::normalize::rules::{accepted, kana, kanji};
use crate::normalize::town::normalize_utf_ken_all_record_town;
use crate::normalize::town_kana::normalize_utf_ken_all_record_town_kana;
use crate::repo::{
    matching, next_token_of, offset_of, page_of, page_size_of, UtfKenAllRepositorySearchRequest,
    UtfKenAllRepositorySearchResponse,
};
use vstd::prelude::*;

verus! {

/// A search for postal codes, as a caller of the service states it.
#[derive(Debug)]
pub struct SearchPostalCodeRequest<'a> {
    /// What the postal code begins with.
    pub postal_code: &'a str,
    /// The number of records on a page.
    pub page_size: Option<usize>,
    /// The token that the page before handed out.
    pub page_token: Option<&'a str>,
}

/// One page of records, as the service hands it to its caller.
#[derive(Debug)]
pub struct SearchPostalCodeResponse {
    /// The records of the page.
    pub records: Vec<UtfKenAllRecord>,
    /// The token for the next page, where there may be one.
    pub next_page_token: Option<String>,
}

/// The two lists of town names of one row did not have the same length.
#[derive(Debug, Clone, Copy, PartialEq, Eq)]
pub struct LengthMismatch {
    /// The number of kanji town names.
    pub towns: usize,
    /// The number of katakana town names.
    pub town_kanas: usize,
}

/// The rows that one row of the file becomes.
#[derive(Debug)]
pub struct PairedRows {
    /// One row for each pair of a kanji and a katakana town name.
    pub rows: Vec<UtfKenAllRecord>,
    /// Set where names were left without a partner.
    pub mismatch: Option<LengthMismatch>,
}

/// `row` with the two town fields replaced.
pub open spec fn with_towns(row: RecordText, town: Seq<char>, town_kana: Seq<char>) -> RecordText {
    RecordText {
        local_government_code: row.local_government_code,
        old_postal_code: row.old_postal_code,
        postal_code: row.postal_code,
        prefecture_kana: row.prefecture_kana,
        city_kana: row.city_kana,
        town_kana: town_kana,
        prefecture: row.prefecture,
        city: row.city,
        town: town,
        has_multi_postal_code: row.has_multi_postal_code,
        has_chome: row.has_chome,
        has_multi_town: row.has_multi_town,
        update_code: row.update_code,
        update_reason: row.update_reason,
    }
}

/// The rows made from `row` by pairing the town names in order: the first with
/// the first, and so on, as far as both lists go.
pub open spec fn paired(row: RecordText, towns: Seq<Seq<char>>, town_kanas: Seq<Seq<char>>) -> Seq<
    RecordText,
> {
    Seq::new(
        if towns.len() <= town_kanas.len() {
            towns.len()
        } else {
            town_kanas.len()
        },
        |i: int| with_towns(row, towns[i], town_kanas[i]),
    )
}

/// What is reported of two lists of the lengths `towns` and `town_kanas`.
pub open spec fn mismatch_of(towns: nat, town_kanas: nat) -> Option<LengthMismatch> {
    if towns == town_kanas {
        None
    } else {
        Some(LengthMismatch { towns: towns as usize, town_kanas: town_kanas as usize })
    }
}

/// Pairs the kanji and the katakana town names of `record` in order, and makes
/// a row of each pair: the record with its two town fields replaced. Names
/// left without a partner make no row; that they were left is reported.
pub fn pair_towns(record: &UtfKenAllRecord, towns: &Vec<String>, town_kanas: &Vec<String>) -> (out:
    PairedRows)
    ensures
        out.rows.deep_view() == paired(record@, towns.deep_view(), town_kanas.deep_view()),
        out.mismatch == mismatch_of(towns.len() as nat, town_kanas.len() as nat),
{
    let n: usize = if towns.len() <= town_kanas.len() {
        towns.len()
    } else {
        town_kanas.len()
    };
    let ghost all = paired(record@, towns.deep_view(), town_kanas.deep_view());
    let mut rows: Vec<UtfKenAllRecord> = Vec::new();
    let mut i: usize = 0;
    while i < n
        invariant
            i <= n,
            n <= towns.len(),
            n <= town_kanas.len(),
            all == paired(record@, towns.deep_view(), town_kanas.deep_view()),
            all.len() == n,
            rows.deep_view() == all.take(i as int),
        decreases n - i,
    {
        let ghost before = rows.deep_view();
        let mut row = record.clone();
        row.town = towns[i].clone();
        row.town_kana = town_kanas[i].clone();
        rows.push(row);
        assert(rows.deep_view() =~= before.push(row@));
        assert(row@ == with_towns(record@, towns[i as int]@, town_kanas[i as int]@));
        i += 1;
        assert(all.take(i as int) =~= all.take(i - 1).push(all[i - 1]));
    }
    assert(all.take(n as int) =~= all);
    let mismatch = if towns.len() == town_kanas.len() {
        None
    } else {
        Some(LengthMismatch { towns: towns.len(), town_kanas: town_kanas.len() })
    };
    PairedRows { rows, mismatch }
}

/// What one row of the file becomes: the rows of its paired town names, or the
/// error of the kanji field, or else that of the katakana field.
pub open spec fn record_rows(row: RecordText) -> Result<Seq<RecordText>, NormalizeError> {
    match normalized(kanji(), row.city, row.town) {
        Ok(towns) => match normalized(kana(), row.city_kana, row.town_kana) {
            Ok(town_kanas) => Ok(paired(row, towns, town_kanas)),
            Err(e) => Err(e),
        },
        Err(e) => Err(e),
    }
}

/// Whether the two lists of town names of a row have different lengths.
pub open spec fn is_mismatched(row: RecordText) -> bool {
    &&& normalized(kanji(), row.city, row.town) matches Ok(towns)
    &&& normalized(kana(), row.city_kana, row.town_kana) matches Ok(town_kanas)
    &&& towns.len() != town_kanas.len()
}

/// A result is what `record_rows` says of the row.
pub open spec fn is_record_rows(r: Result<PairedRows, NormalizeError>, row: RecordText) -> bool {
    match r {
        Ok(out) => {
            &&& normalized(kanji(), row.city, row.town) matches Ok(towns)
            &&& normalized(kana(), row.city_kana, row.town_kana) matches Ok(town_kanas)
            &&& out.rows.deep_view() == paired(row, towns, town_kanas)
            &&& out.mismatch == mismatch_of(towns.len(), town_kanas.len())
        },
        Err(e) => record_rows(row) == Err::<Seq<RecordText>, NormalizeError>(e),
    }
}

/// The rows that `record` becomes: both town fields are normalized and the
/// names are paired.
///
/// Where the pattern engine accepts the patterns of both tables, the result is
/// what `record_rows` says: it fails exactly where a normalizer fails, with
/// the error of the kanji field before that of the katakana field. Where the
/// engine refuses a pattern, the result is that or `Pattern`.
pub fn expand_record(record: &UtfKenAllRecord) -> (r: Result<PairedRows, NormalizeError>)
    ensures
        accepted(kanji()) && accepted(kana()) ==> is_record_rows(r, record@),
        is_record_rows(r, record@) || r matches Err(NormalizeError::Pattern),
{
    let towns = normalize_utf_ken_all_record_town(record)?;
    let town_kanas = normalize_utf_ken_all_record_town_kana(record)?;
    Ok(pair_towns(record, &towns, &town_kanas))
}

/// The rows of many records, with the positions of the records that gave none
/// or gave lists that did not pair up.
#[derive(Debug)]
pub struct ExpandedRecords {
    /// The rows of all records that could be normalized, in their order.
    pub rows: Vec<UtfKenAllRecord>,
    /// The positions of the records that could not be normalized.
    pub skipped: Vec<usize>,
    /// The positions of the records whose two lists had different lengths.
    pub mismatched: Vec<usize>,
}

/// The rows of the records that can be normalized, in the order of the
/// records.
pub open spec fn rows_of(records: Seq<RecordText>) -> Seq<RecordText>
    decreases records.len(),
{
    if records.len() == 0 {
        Seq::empty()
    } else {
        rows_of(records.drop_last()) + match record_rows(records.last()) {
            Ok(rows) => rows,
            Err(_) => Seq::empty(),
        }
    }
}

/// The positions of the records that cannot be normalized, in ascending
/// order.
pub open spec fn skipped_of(records: Seq<RecordText>) -> Seq<usize>
    decreases records.len(),
{
    if records.len() == 0 {
        Seq::empty()
    } else if record_rows(records.last()) is Err {
        skipped_of(records.drop_last()).push((records.len() - 1) as usize)
    } else {
        skipped_of(records.drop_last())
    }
}

/// The positions of the records whose two lists of town names have different
/// lengths, in ascending order.
pub open spec fn mismatched_of(records: Seq<RecordText>) -> Seq<usize>
    decreases records.len(),
{
    if records.len() == 0 {
        Seq::empty()
    } else if is_mismatched(records.last()) {
        mismatched_of(records.drop_last()).push((records.len() - 1) as usize)
    } else {
        mismatched_of(records.drop_last())
    }
}

/// The rows that the records of the file become. A record that cannot be
/// normalized is skipped and its position noted; the rows of the others are
/// joined in the order of the records. The positions of the records whose
/// names did not pair up are noted too.
///
/// Where the pattern engine accepts the patterns of both tables, rows and
/// positions are exactly what `rows_of`, `skipped_of` and `mismatched_of` say.
pub fn expand_records(records: &Vec<UtfKenAllRecord>) -> (out: ExpandedRecords)
    ensures
        accepted(kanji()) && accepted(kana()) ==> {
            &&& out.rows.deep_view() == rows_of(records.deep_view())
            &&& out.skipped@ == skipped_of(records.deep_view())
            &&& out.mismatched@ == mismatched_of(records.deep_view())
        },
        forall|k: int| 0 <= k < out.skipped@.len() ==> out.skipped@[k] < records.len(),
        forall|k: int| 0 <= k < out.mismatched@.len() ==> out.mismatched@[k] < records.len(),
{
    let ghost all = records.deep_view();
    let mut rows: Vec<UtfKenAllRecord> = Vec::new();
    let mut skipped: Vec<usize> = Vec::new();
    let mut mismatched: Vec<usize> = Vec::new();
    let mut i: usize = 0;
    assert(all.take(0) =~= Seq::<RecordText>::empty());
    assert(rows.deep_view() =~= Seq::<RecordText>::empty());
    while i < records.len()
        invariant
            i <= records.len(),
            all == records.deep_view(),
            accepted(kanji()) && accepted(kana()) ==> {
                &&& rows.deep_view() == rows_of(all.take(i as int))
                &&& skipped@ == skipped_of(all.take(i as int))
                &&& mismatched@ == mismatched_of(all.take(i as int))
            },
            forall|k: int| 0 <= k < skipped@.len() ==> skipped@[k] < records.len(),
            forall|k: int| 0 <= k < mismatched@.len() ==> mismatched@[k] < records.len(),
        decreases records.len() - i,
    {
        let ghost before = rows.deep_view();
        proof {
            assert(all.take(i + 1).drop_last() =~= all.take(i as int));
            assert(all.take(i + 1).last() == records[i as int]@);
        }
        match expand_record(&records[i]) {
            Ok(paired) => {
                if paired.mismatch.is_some() {
                    mismatched.push(i);
                }
                let mut fresh = paired.rows;
                let ghost added = fresh.deep_view();
                rows.append(&mut fresh);
                assert(rows.deep_view() =~= before + added);
            },
            Err(_) => {
                skipped.push(i);
                assert(before + Seq::<RecordText>::empty() =~= before);
            },
        }
        i += 1;
    }
    assert(all.take(records.len() as int) =~= all);
    ExpandedRecords { rows, skipped, mismatched }
}

impl<'a> SearchPostalCodeRequest<'a> {
    /// The same search, as a store takes it.
    pub fn repository_request(&self) -> (req: UtfKenAllRepositorySearchRequest<'a>)
        ensures
            req.postal_code == self.postal_code,
            req.page_size == self.page_size,
            req.page_token == self.page_token,
    {
        UtfKenAllRepositorySearchRequest {
            postal_code: self.postal_code,
            page_size: self.page_size,
            page_token: self.page_token,
        }
    }
}

impl SearchPostalCodeResponse {
    /// The page that a store answered with, as the service hands it on.
    pub fn from_repository(response: UtfKenAllRepositorySearchResponse) -> (out: Self)
        ensures
            out.records == response.records,
            out.next_page_token == response.next_page_token,
    {
        SearchPostalCodeResponse {
            records: response.records,
            next_page_token: response.next_page_token,
        }
    }
}

/// One page of the records in `repo` whose postal code begins with what the
/// request names.
pub fn search_postal_code(repo: &UtfKenAllRepositoryEphemeral, req: SearchPostalCodeRequest<'_>) -> (out:
    SearchPostalCodeResponse)
    ensures
        out.records.deep_view() == page_of(
            matching(repo@, req.postal_code@),
            offset_of(req.page_token.deep_view()),
            page_size_of(req.page_size),
        ),
        out.next_page_token.deep_view() == next_token_of(
            matching(repo@, req.postal_code@),
            offset_of(req.page_token.deep_view()),
            page_size_of(req.page_size),
        ),
{
    let response = repo.search(req.repository_request());
    SearchPostalCodeResponse::from_repository(response)
}

} // verus!
