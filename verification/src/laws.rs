//! Laws of the pagination and storage model that relate several
//! operations, stated and proved once over the sequence models that the
//! executable contracts speak of.

use vstd::prelude::*;
use crate::models::{CustomerView, LocationFilterView, OrderFilterView, OrderView, ProductFilterView, ProductView, SellerView};
use crate::repository::{
    customer_id_fresh, customers_without_id, filtered_customers, filtered_orders,
    filtered_products, filtered_sellers, lemma_customers_without_id, order_id_fresh,
    product_id_fresh, seller_id_fresh, spec_window,
};
use crate::response::spec_total_pages;

verus! {

// ---------------------------------------------------------------------------
// Pages cover the filtered set exactly
// ---------------------------------------------------------------------------
/// The summed item count of the first `pages` pages of `f` under a fixed
/// page size (page `p` starts at offset `(p - 1) * page_size`).
pub open spec fn sum_of_page_lens<A>(f: Seq<A>, page_size: int, pages: int) -> int
    recommends
        page_size >= 1,
    decreases pages,
{
    if pages <= 0 {
        0
    } else {
        sum_of_page_lens(f, page_size, pages - 1) + spec_window(
            f,
            (pages - 1) * page_size,
            page_size,
        ).len()
    }
}

/// The first `pages` pages hold `min(pages * page_size, f.len())` items.
proof fn lemma_sum_of_page_lens<A>(f: Seq<A>, page_size: int, pages: int)
    requires
        page_size >= 1,
        pages >= 0,
    ensures
        sum_of_page_lens(f, page_size, pages) == if pages * page_size <= f.len() {
            pages * page_size
        } else {
            f.len() as int
        },
    decreases pages,
{
    let n = f.len() as int;
    if pages > 0 {
        lemma_sum_of_page_lens(f, page_size, pages - 1);
        let off = (pages - 1) * page_size;
        assert(off >= 0 && off + page_size == pages * page_size) by (nonlinear_arith)
            requires
                pages >= 1,
                page_size >= 1,
                off == (pages - 1) * page_size,
        ;
        let start = if off <= n {
            off
        } else {
            n
        };
        let end = if off + page_size <= n {
            off + page_size
        } else {
            n
        };
        assert(start <= end);
        assert(spec_window(f, off, page_size).len() == end - start);
    } else {
        assert(pages * page_size == 0) by (nonlinear_arith)
            requires
                pages == 0,
        ;
    }
}

/// Fetching every page sequentially with a fixed page size and summing
/// `items.length` yields exactly the total count: pages neither repeat nor
/// skip elements.
///
/// Here `f` stands for the rows matching a filter, `spec_total_pages` for
/// the page count the response envelope reports for `f.len()` records.
pub proof fn lemma_pages_sum_to_total<A>(f: Seq<A>, page_size: int)
    requires
        page_size >= 1,
    ensures
        sum_of_page_lens(f, page_size, spec_total_pages(f.len(), page_size as nat) as int)
            == f.len(),
{
    let n = f.len() as int;
    let pages = spec_total_pages(f.len(), page_size as nat) as int;
    assert(pages == (n + page_size - 1) / page_size);
    assert(pages >= 0 && pages * page_size >= n) by (nonlinear_arith)
        requires
            page_size >= 1,
            n >= 0,
            pages == (n + page_size - 1) / page_size,
    ;
    lemma_sum_of_page_lens(f, page_size, pages);
}

// ---------------------------------------------------------------------------
// Filtered pages are subsets of the unfiltered store
// ---------------------------------------------------------------------------
/// Every row matching a location filter over customers is a row of the
/// store.
proof fn lemma_filtered_customers_contains(s: Seq<CustomerView>, f: LocationFilterView)
    ensures
        forall|j: int|
            0 <= j < filtered_customers(s, f).len() ==> s.contains(
                #[trigger] filtered_customers(s, f)[j],
            ),
    decreases s.len(),
{
    if s.len() > 0 {
        lemma_filtered_customers_contains(s.drop_last(), f);
        assert forall|j: int| 0 <= j < filtered_customers(s, f).len() implies s.contains(
            #[trigger] filtered_customers(s, f)[j],
        ) by {
            let pre = filtered_customers(s.drop_last(), f);
            if j < pre.len() {
                let x = pre[j];
                let i = choose|i: int| 0 <= i < s.drop_last().len() && s.drop_last()[i] == x;
                assert(s[i] == x);
            } else {
                assert(s[s.len() - 1] == filtered_customers(s, f)[j]);
            }
        }
    }
}

/// Every item of any page that `find_all` returns for customers is a row
/// of the unfiltered store.
pub proof fn lemma_customer_page_subset(
    s: Seq<CustomerView>,
    f: LocationFilterView,
    offset: int,
    limit: int,
)
    requires
        offset >= 0,
        limit >= 1,
    ensures
        forall|j: int|
            0 <= j < spec_window(filtered_customers(s, f), offset, limit).len() ==> s.contains(
                #[trigger] spec_window(filtered_customers(s, f), offset, limit)[j],
            ),
{
    let fs = filtered_customers(s, f);
    let w = spec_window(fs, offset, limit);
    lemma_filtered_customers_contains(s, f);
    assert forall|j: int| 0 <= j < w.len() implies s.contains(#[trigger] w[j]) by {
        let start = if offset <= fs.len() as int {
            offset
        } else {
            fs.len() as int
        };
        assert(w[j] == fs[start + j]);
    }
}

/// Every row matching a location filter over sellers is a row of the
/// store.
proof fn lemma_filtered_sellers_contains(s: Seq<SellerView>, f: LocationFilterView)
    ensures
        forall|j: int|
            0 <= j < filtered_sellers(s, f).len() ==> s.contains(
                #[trigger] filtered_sellers(s, f)[j],
            ),
    decreases s.len(),
{
    if s.len() > 0 {
        lemma_filtered_sellers_contains(s.drop_last(), f);
        assert forall|j: int| 0 <= j < filtered_sellers(s, f).len() implies s.contains(
            #[trigger] filtered_sellers(s, f)[j],
        ) by {
            let pre = filtered_sellers(s.drop_last(), f);
            if j < pre.len() {
                let x = pre[j];
                let i = choose|i: int| 0 <= i < s.drop_last().len() && s.drop_last()[i] == x;
                assert(s[i] == x);
            } else {
                assert(s[s.len() - 1] == filtered_sellers(s, f)[j]);
            }
        }
    }
}

/// Every item of any page that `find_all` returns for sellers is a row of
/// the unfiltered store.
pub proof fn lemma_seller_page_subset(
    s: Seq<SellerView>,
    f: LocationFilterView,
    offset: int,
    limit: int,
)
    requires
        offset >= 0,
        limit >= 1,
    ensures
        forall|j: int|
            0 <= j < spec_window(filtered_sellers(s, f), offset, limit).len() ==> s.contains(
                #[trigger] spec_window(filtered_sellers(s, f), offset, limit)[j],
            ),
{
    let fs = filtered_sellers(s, f);
    let w = spec_window(fs, offset, limit);
    lemma_filtered_sellers_contains(s, f);
    assert forall|j: int| 0 <= j < w.len() implies s.contains(#[trigger] w[j]) by {
        let start = if offset <= fs.len() as int {
            offset
        } else {
            fs.len() as int
        };
        assert(w[j] == fs[start + j]);
    }
}

/// Every row matching a status filter over orders is a row of the store.
proof fn lemma_filtered_orders_contains(s: Seq<OrderView>, f: OrderFilterView)
    ensures
        forall|j: int|
            0 <= j < filtered_orders(s, f).len() ==> s.contains(
                #[trigger] filtered_orders(s, f)[j],
            ),
    decreases s.len(),
{
    if s.len() > 0 {
        lemma_filtered_orders_contains(s.drop_last(), f);
        assert forall|j: int| 0 <= j < filtered_orders(s, f).len() implies s.contains(
            #[trigger] filtered_orders(s, f)[j],
        ) by {
            let pre = filtered_orders(s.drop_last(), f);
            if j < pre.len() {
                let x = pre[j];
                let i = choose|i: int| 0 <= i < s.drop_last().len() && s.drop_last()[i] == x;
                assert(s[i] == x);
            } else {
                assert(s[s.len() - 1] == filtered_orders(s, f)[j]);
            }
        }
    }
}

/// Every item of any page that `find_all` returns for orders is a row of
/// the unfiltered store.
pub proof fn lemma_order_page_subset(s: Seq<OrderView>, f: OrderFilterView, offset: int, limit: int)
    requires
        offset >= 0,
        limit >= 1,
    ensures
        forall|j: int|
            0 <= j < spec_window(filtered_orders(s, f), offset, limit).len() ==> s.contains(
                #[trigger] spec_window(filtered_orders(s, f), offset, limit)[j],
            ),
{
    let fs = filtered_orders(s, f);
    let w = spec_window(fs, offset, limit);
    lemma_filtered_orders_contains(s, f);
    assert forall|j: int| 0 <= j < w.len() implies s.contains(#[trigger] w[j]) by {
        let start = if offset <= fs.len() as int {
            offset
        } else {
            fs.len() as int
        };
        assert(w[j] == fs[start + j]);
    }
}

/// Every row matching a category filter over products is a row of the
/// store.
proof fn lemma_filtered_products_contains(s: Seq<ProductView>, f: ProductFilterView)
    ensures
        forall|j: int|
            0 <= j < filtered_products(s, f).len() ==> s.contains(
                #[trigger] filtered_products(s, f)[j],
            ),
    decreases s.len(),
{
    if s.len() > 0 {
        lemma_filtered_products_contains(s.drop_last(), f);
        assert forall|j: int| 0 <= j < filtered_products(s, f).len() implies s.contains(
            #[trigger] filtered_products(s, f)[j],
        ) by {
            let pre = filtered_products(s.drop_last(), f);
            if j < pre.len() {
                let x = pre[j];
                let i = choose|i: int| 0 <= i < s.drop_last().len() && s.drop_last()[i] == x;
                assert(s[i] == x);
            } else {
                assert(s[s.len() - 1] == filtered_products(s, f)[j]);
            }
        }
    }
}

/// Every item of any page that `find_all` returns for products is a row
/// of the unfiltered store.
pub proof fn lemma_product_page_subset(
    s: Seq<ProductView>,
    f: ProductFilterView,
    offset: int,
    limit: int,
)
    requires
        offset >= 0,
        limit >= 1,
    ensures
        forall|j: int|
            0 <= j < spec_window(filtered_products(s, f), offset, limit).len() ==> s.contains(
                #[trigger] spec_window(filtered_products(s, f), offset, limit)[j],
            ),
{
    let fs = filtered_products(s, f);
    let w = spec_window(fs, offset, limit);
    lemma_filtered_products_contains(s, f);
    assert forall|j: int| 0 <= j < w.len() implies s.contains(#[trigger] w[j]) by {
        let start = if offset <= fs.len() as int {
            offset
        } else {
            fs.len() as int
        };
        assert(w[j] == fs[start + j]);
    }
}

// ---------------------------------------------------------------------------
// Delete twice, create twice
// ---------------------------------------------------------------------------
/// After a successful delete the identifier is gone from the store, so a
/// second delete of the same identifier affects zero rows: the service,
/// whose contract ties `NotFound` to freshness, reports `NotFound` on the
/// second call — as it does for an identifier that never existed.
pub proof fn lemma_delete_twice_not_found(s: Seq<CustomerView>, id: Seq<char>)
    ensures
        customer_id_fresh(customers_without_id(s, id), id),
{
    lemma_customers_without_id(s, id);
}

/// After a create inserts a row, its identifier is no longer fresh, so a
/// second create with the same identifier hits the uniqueness constraint:
/// the service, whose contract ties `AlreadyExists` to staleness, reports
/// the conflict — never a generic storage failure.
pub proof fn lemma_create_twice_conflicts(s: Seq<CustomerView>, c: CustomerView)
    ensures
        !customer_id_fresh(s.push(c), c.customer_id),
{
    assert(s.push(c)[s.len() as int] == c);
}

/// The seller counterpart of the create-twice conflict.
pub proof fn lemma_create_seller_twice_conflicts(s: Seq<SellerView>, c: SellerView)
    ensures
        !seller_id_fresh(s.push(c), c.seller_id),
{
    assert(s.push(c)[s.len() as int] == c);
}

/// The order counterpart of the create-twice conflict.
pub proof fn lemma_create_order_twice_conflicts(s: Seq<OrderView>, c: OrderView)
    ensures
        !order_id_fresh(s.push(c), c.order_id),
{
    assert(s.push(c)[s.len() as int] == c);
}

/// The product counterpart of the create-twice conflict.
pub proof fn lemma_create_product_twice_conflicts(s: Seq<ProductView>, c: ProductView)
    ensures
        !product_id_fresh(s.push(c), c.product_id),
{
    assert(s.push(c)[s.len() as int] == c);
}

} // verus!
