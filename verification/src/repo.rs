//! What is asked of a store of postal-code records, and what it answers.

use crate::decimal::{decimal_digits, lemma_decimal_reads_back, parsed_usize};
use crate::model::{RecordText, UtfKenAllRecord};
use crate::text::has_prefix;
use vstd::prelude::*;

verus! {

/// The number of records on a page where the request names none.
pub const DEFAULT_SEARCH_PAGE_SIZE: usize = 10;

/// A search by the beginning of the postal code, one page at a time.
#[derive(Debug, Clone)]
pub struct UtfKenAllRepositorySearchRequest<'a> {
    /// What the postal code begins with.
    pub postal_code: &'a str,
    /// The number of records on a page.
    pub page_size: Option<usize>,
    /// The token that the page before handed out, for every page but the first.
    pub page_token: Option<&'a str>,
}

/// One page of a search.
#[derive(Debug, Clone)]
pub struct UtfKenAllRepositorySearchResponse {
    /// The records of the page, in the order of the store.
    pub records: Vec<UtfKenAllRecord>,
    /// The token for the next page, where there may be one.
    pub next_page_token: Option<String>,
}

/// The number of records on a page of the request.
pub open spec fn page_size_of(page_size: Option<usize>) -> nat {
    match page_size {
        Some(n) => n as nat,
        None => DEFAULT_SEARCH_PAGE_SIZE as nat,
    }
}

/// The number of matching records that come before the page: what the token
/// says, and none where there is no token or it is no number.
pub open spec fn offset_of(page_token: Option<Seq<char>>) -> nat {
    match page_token {
        Some(token) => match parsed_usize(token) {
            Some(n) => n as nat,
            None => 0,
        },
        None => 0,
    }
}

/// The records whose postal code begins with `prefix`, in their order.
pub open spec fn matching(records: Seq<RecordText>, prefix: Seq<char>) -> Seq<RecordText> {
    records.filter(|r: RecordText| has_prefix(r.postal_code, prefix))
}

/// The page of `found` that begins behind `offset` records and holds at most
/// `size` of them.
pub open spec fn page_of(found: Seq<RecordText>, offset: nat, size: nat) -> Seq<RecordText> {
    let len = found.len();
    found.subrange(
        if offset <= len {
            offset as int
        } else {
            len as int
        },
        if offset + size <= len {
            (offset + size) as int
        } else {
            len as int
        },
    )
}

/// The token behind a page: the offset of the next page where the page is
/// full, none where it is not.
pub open spec fn next_token_of(found: Seq<RecordText>, offset: nat, size: nat) -> Option<
    Seq<char>,
> {
    if page_of(found, offset, size).len() == size {
        Some(decimal_digits(offset + size))
    } else {
        None
    }
}

/// The token behind a full page leads to the page that follows: read as the
/// token of the next request, it says to begin behind the records of this page
/// and of all pages before it.
pub proof fn lemma_next_token_leads_on(found: Seq<RecordText>, offset: nat, size: nat)
    requires
        next_token_of(found, offset, size) is Some,
        offset + size <= usize::MAX,
    ensures
        offset_of(next_token_of(found, offset, size)) == offset + size,
{
    lemma_decimal_reads_back(offset + size);
}

/// The number of rows to fetch for a page of `page_size` records: one more than
/// the page holds, so that the store can tell whether a next page exists.
/// `None` where that number is beyond `i64::MAX`.
pub fn fetch_limit(page_size: usize) -> (limit: Option<i64>)
    ensures
        limit == if page_size < i64::MAX {
            Some((page_size + 1) as i64)
        } else {
            None
        },
{
    let size: u64 = page_size as u64;
    if size < 0x7fff_ffff_ffff_ffff {
        Some((size + 1) as i64)
    } else {
        None
    }
}

/// Parts what was fetched for a page of `page_size` records into the page and
/// the row behind it. Where more rows came than the page holds, the last row
/// is taken off: it is the first of the next page. Else all rows are the page.
pub fn split_page<T>(rows: Vec<T>, page_size: usize) -> (out: (Vec<T>, Option<T>))
    ensures
        rows@.len() > page_size ==> out.0@ == rows@.drop_last() && out.1 == Some(rows@.last()),
        rows@.len() <= page_size ==> out.0@ == rows@ && out.1 is None,
{
    let mut rows = rows;
    if rows.len() > page_size {
        let next = rows.pop();
        (rows, next)
    } else {
        (rows, None)
    }
}

} // verus!
