//! Pagination normalization: converts untrusted page / page-size input into
//! safe, bounded limit / offset values. Normalization always succeeds by
//! correcting invalid input, never by rejecting it.

use vstd::prelude::*;

verus! {

/// Page size used when the caller supplies none, zero or a negative value.
pub const DEFAULT_PAGE_SIZE: i32 = 10;

/// Upper bound on the page size; larger requests are clamped to this.
pub const MAX_PAGE_SIZE: i32 = 100;

/// Untrusted pagination input as it arrives from a caller. Both fields are
/// optional; any integer value (including zero and negatives) is accepted.
#[derive(Clone, Copy, Debug)]
pub struct PaginationParams {
    pub page: Option<i32>,
    pub page_size: Option<i32>,
}

/// The page number after normalization: absent or non-positive pages
/// become page 1.
pub open spec fn spec_page(params: PaginationParams) -> int {
    match params.page {
        Some(p) => if p >= 1 { p as int } else { 1 },
        None => 1,
    }
}

/// The page size after normalization: absent or non-positive sizes become
/// the default, oversized requests are clamped to the maximum.
pub open spec fn spec_page_size(params: PaginationParams) -> int {
    match params.page_size {
        Some(s) => if s < 1 {
            DEFAULT_PAGE_SIZE as int
        } else if s > MAX_PAGE_SIZE {
            MAX_PAGE_SIZE as int
        } else {
            s as int
        },
        None => DEFAULT_PAGE_SIZE as int,
    }
}

/// The row offset of the normalized page: `(page - 1) * page_size`.
pub open spec fn spec_offset(params: PaginationParams) -> int {
    (spec_page(params) - 1) * spec_page_size(params)
}

impl PaginationParams {
    /// Normalizes to `(limit, offset, page, page_size)` where
    /// `limit = page_size` and `offset = (page - 1) * page_size`.
    pub fn normalize(&self) -> (r: (i64, i64, i32, i32))
        ensures
            r.2 == spec_page(*self),
            r.3 == spec_page_size(*self),
            r.0 == spec_page_size(*self),
            r.1 == spec_offset(*self),
            r.2 >= 1,
            1 <= r.3 <= MAX_PAGE_SIZE,
            r.0 >= 1,
            r.1 >= 0,
    {
        let page: i32 = match self.page {
            Some(p) => if p >= 1 { p } else { 1 },
            None => 1,
        };
        let page_size: i32 = match self.page_size {
            Some(s) => if s < 1 {
                DEFAULT_PAGE_SIZE
            } else if s > MAX_PAGE_SIZE {
                MAX_PAGE_SIZE
            } else {
                s
            },
            None => DEFAULT_PAGE_SIZE,
        };
        let limit: i64 = page_size as i64;
        proof {
            assert((page - 1) * (page_size as int) <= (i32::MAX - 1) * 100 && (page - 1) * (
            page_size as int) >= 0) by (nonlinear_arith)
                requires
                    1 <= page <= i32::MAX,
                    1 <= page_size <= 100,
            ;
        }
        let offset: i64 = (page as i64 - 1) * (page_size as i64);
        (limit, offset, page, page_size)
    }
}

} // verus!
