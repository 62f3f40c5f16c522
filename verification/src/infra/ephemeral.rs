//! A store that keeps the records in memory.

use crate::decimal::{parse_usize, write_usize};
use crate::model::{RecordText, UtfKenAllRecord};
use crate::repo::{
    matching, next_token_of, offset_of, page_of, page_size_of, UtfKenAllRepositorySearchRequest,
    UtfKenAllRepositorySearchResponse, DEFAULT_SEARCH_PAGE_SIZE,
};
use crate::text::{has_prefix, starts_with};
use vstd::prelude::*;

verus! {

/// The records in memory, in the order in which they were given.
#[derive(Debug)]
pub struct UtfKenAllRepositoryEphemeral {
    records: Vec<UtfKenAllRecord>,
}

impl View for UtfKenAllRepositoryEphemeral {
    type V = Seq<RecordText>;

    closed spec fn view(&self) -> Seq<RecordText> {
        self.records.deep_view()
    }
}

impl Default for UtfKenAllRepositoryEphemeral {
    /// A store without records.
    fn default() -> (repo: Self)
        ensures
            repo@ == Seq::<RecordText>::empty(),
    {
        let repo = UtfKenAllRepositoryEphemeral { records: Vec::new() };
        assert(repo@ =~= Seq::<RecordText>::empty());
        repo
    }
}

impl UtfKenAllRepositoryEphemeral {
    /// A store that holds `records`.
    pub fn new(records: Vec<UtfKenAllRecord>) -> (repo: Self)
        ensures
            repo@ == records.deep_view(),
    {
        UtfKenAllRepositoryEphemeral { records }
    }

    /// The records of the store.
    pub fn into_inner(self) -> (records: Vec<UtfKenAllRecord>)
        ensures
            records.deep_view() == self@,
    {
        self.records
    }

    /// Puts `records` in the place of all that the store held.
    pub fn replace(&mut self, records: &[UtfKenAllRecord])
        ensures
            final(self)@ == records.deep_view(),
    {
        let mut fresh: Vec<UtfKenAllRecord> = Vec::new();
        let mut i: usize = 0;
        while i < records.len()
            invariant
                i <= records.len(),
                fresh.deep_view() == records.deep_view().take(i as int),
            decreases records.len() - i,
        {
            let ghost before = fresh.deep_view();
            fresh.push(records[i].clone());
            assert(fresh.deep_view() =~= before.push(records[i as int]@));
            i += 1;
            assert(records.deep_view().take(i as int) =~= records.deep_view().take(i - 1).push(
                records[i - 1]@,
            ));
        }
        assert(records.deep_view().take(records.len() as int) =~= records.deep_view());
        self.records = fresh;
    }

    /// The page of the records whose postal code begins with what the request
    /// names. The page begins behind as many matching records as the token
    /// says, and holds at most as many as the page size says. A full page
    /// comes with the token of the next one.
    pub fn search(&self, req: UtfKenAllRepositorySearchRequest<'_>) -> (response:
        UtfKenAllRepositorySearchResponse)
        ensures
            response.records.deep_view() == page_of(
                matching(self@, req.postal_code@),
                offset_of(req.page_token.deep_view()),
                page_size_of(req.page_size),
            ),
            response.next_page_token.deep_view() == next_token_of(
                matching(self@, req.postal_code@),
                offset_of(req.page_token.deep_view()),
                page_size_of(req.page_size),
            ),
    {
        let size: usize = match req.page_size {
            Some(n) => n,
            None => DEFAULT_SEARCH_PAGE_SIZE,
        };
        let offset: usize = match req.page_token {
            Some(token) => match parse_usize(token) {
                Some(n) => n,
                None => 0,
            },
            None => 0,
        };
        let ghost all = self@;
        let ghost prefix = req.postal_code@;
        let mut records: Vec<UtfKenAllRecord> = Vec::new();
        let mut seen: usize = 0;
        let mut i: usize = 0;
        proof {
            assert(all.take(0) =~= Seq::<RecordText>::empty());
            reveal(Seq::filter);
            assert(matching(all.take(0), prefix) =~= Seq::<RecordText>::empty());
            assert(records.deep_view() =~= page_of(
                matching(all.take(0), prefix),
                offset as nat,
                size as nat,
            ));
        }
        while i < self.records.len()
            invariant
                i <= self.records.len(),
                all == self@,
                all == self.records.deep_view(),
                prefix == req.postal_code@,
                seen <= i,
                seen == matching(all.take(i as int), prefix).len(),
                records.deep_view() == page_of(
                    matching(all.take(i as int), prefix),
                    offset as nat,
                    size as nat,
                ),
            decreases self.records.len() - i,
        {
            let record = &self.records[i];
            let ghost found = matching(all.take(i as int), prefix);
            let ghost before = records.deep_view();
            proof {
                assert(all.take(i + 1) =~= all.take(i as int).push(record@));
                all.take(i as int).lemma_filter_push(
                    record@,
                    |r: RecordText| has_prefix(r.postal_code, prefix),
                );
            }
            if starts_with(record.postal_code.as_str(), req.postal_code) {
                if seen >= offset && records.len() < size {
                    records.push(record.clone());
                    assert(records.deep_view() =~= before.push(record@));
                }
                seen += 1;
                assert(records.deep_view() =~= page_of(
                    found.push(record@),
                    offset as nat,
                    size as nat,
                ));
            }
            i += 1;
        }
        proof {
            assert(all.take(self.records.len() as int) =~= all);
            matching(all, prefix).lemma_filter_len(|r: RecordText| true);
            all.lemma_filter_len(|r: RecordText| has_prefix(r.postal_code, prefix));
        }
        let next_page_token = if records.len() == size {
            Some(write_usize(offset + size))
        } else {
            None
        };
        UtfKenAllRepositorySearchResponse { records, next_page_token }
    }

    /// The number of records in the store.
    pub fn count(&self) -> (n: usize)
        ensures
            n == self@.len(),
    {
        self.records.len()
    }
}

} // verus!
