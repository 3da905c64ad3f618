//! Generic paginated response envelope: one page of items plus metadata
//! derived from the total record count.

use vstd::prelude::*;
use crate::pagination::MAX_PAGE_SIZE;

verus! {

/// `ceil(total / page_size)` for a positive page size.
pub open spec fn spec_total_pages(total: nat, page_size: nat) -> nat
    recommends
        page_size >= 1,
{
    ((total + page_size - 1) / page_size as int) as nat
}

/// A page of items together with count-derived metadata. Well-formedness
/// ties `total_pages` to `ceil(total_records / page_size)` and bounds the
/// page to the page size.
pub struct PaginatedResponse<T> {
    pub items: Vec<T>,
    pub total_records: u64,
    pub page: i32,
    pub page_size: i32,
    pub total_pages: u64,
}

impl<T> PaginatedResponse<T> {
    /// Structural invariant of the envelope.
    pub open spec fn wf(&self) -> bool {
        &&& self.page >= 1
        &&& 1 <= self.page_size <= MAX_PAGE_SIZE
        &&& self.total_pages == spec_total_pages(self.total_records as nat, self.page_size as nat)
        &&& self.items@.len() <= self.page_size
    }

    /// Wraps one page of items, computing `total_pages` as
    /// `ceil(total_records / page_size)`.
    pub fn new(items: Vec<T>, total_records: u64, page: i32, page_size: i32) -> (r:
        PaginatedResponse<T>)
        requires
            page >= 1,
            1 <= page_size <= MAX_PAGE_SIZE,
            items@.len() <= page_size,
        ensures
            r.items == items,
            r.total_records == total_records,
            r.page == page,
            r.page_size == page_size,
            r.total_pages == spec_total_pages(total_records as nat, page_size as nat),
            r.wf(),
    {
        let ps: u64 = page_size as u64;
        let q: u64 = total_records / ps;
        let rem: u64 = total_records % ps;
        proof {
            assert(rem > 0 ==> q < u64::MAX) by (nonlinear_arith)
                requires
                    1 <= ps,
                    q == total_records as int / ps as int,
                    rem == total_records as int % ps as int,
                    total_records <= u64::MAX,
            ;
        }
        let total_pages: u64 = if rem > 0 {
            q + 1
        } else {
            q
        };
        proof {
            assert(total_pages == spec_total_pages(total_records as nat, page_size as nat))
                by (nonlinear_arith)
                requires
                    1 <= ps <= MAX_PAGE_SIZE,
                    ps == page_size,
                    q == total_records as int / ps as int,
                    rem == total_records as int % ps as int,
                    total_pages == if rem > 0 { q + 1 as int } else { q as int },
            ;
        }
        PaginatedResponse { items, total_records, page, page_size, total_pages }
    }
}

/// `total_pages` is zero exactly when there are no records at all.
pub proof fn lemma_total_pages_zero_iff_no_records(total: nat, page_size: nat)
    requires
        page_size >= 1,
    ensures
        spec_total_pages(total, page_size) == 0 <==> total == 0,
{
    if total == 0 {
        assert((0 + page_size - 1) / page_size as int == 0) by (nonlinear_arith)
            requires
                page_size >= 1,
        ;
    } else {
        assert((total + page_size - 1) / page_size as int >= 1) by (nonlinear_arith)
            requires
                page_size >= 1,
                total >= 1,
        ;
    }
}

} // verus!
