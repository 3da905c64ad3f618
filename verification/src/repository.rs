//! Repository contract per resource, stated over sequence models, together
//! with verified in-memory stores implementing it. The stores return rows
//! in insertion order, which keeps pagination deterministic and
//! reproducible across sequential page requests.

use vstd::prelude::*;
use crate::error::StorageError;
use crate::models::{
    apply_update, customer_matches, item_of, joined_row, order_matches, product_matches,
    seller_matches, AddItemToOrderDto, CreateCustomerDto, CreateOrderDto, CreateProductDto,
    CreateSellerDto, Customer, CustomerFilter, CustomerView, LocationFilterView, Order,
    OrderFilter, OrderFilterView, OrderItem, OrderItemView, OrderProduct, OrderProductView,
    OrderView, Payment, PaymentView, Product, ProductFilter, ProductFilterView, ProductView,
    Review, ReviewView, Seller, SellerFilter, SellerView, UpdateCustomerDto,
};
use crate::pagination::{spec_offset, spec_page_size, PaginationParams};

verus! {

/// The sequence type of the storage models, re-exported so that outside
/// adapters can name the model items of the repository traits without
/// referring to the verifier's library directly.
pub type ModelSeq<A> = Seq<A>;

// ---------------------------------------------------------------------------
// Pagination windows over a filtered sequence
// ---------------------------------------------------------------------------
/// The page of `f` selected by `offset` and `limit`: the slice from
/// `offset` (clamped to the length) of at most `limit` elements.
pub open spec fn spec_window<A>(f: Seq<A>, offset: int, limit: int) -> Seq<A>
    recommends
        offset >= 0,
        limit >= 1,
{
    let n = f.len() as int;
    let start = if offset <= n {
        offset
    } else {
        n
    };
    let end = if offset + limit <= n {
        offset + limit
    } else {
        n
    };
    if start <= end {
        f.subrange(start, end)
    } else {
        Seq::empty()
    }
}

/// Appending one element to the underlying sequence extends the window
/// exactly when the element's position falls inside the page.
pub proof fn lemma_window_push<A>(f: Seq<A>, x: A, offset: int, limit: int)
    requires
        offset >= 0,
        limit >= 1,
    ensures
        spec_window(f.push(x), offset, limit) == if offset <= f.len() < offset + limit {
            spec_window(f, offset, limit).push(x)
        } else {
            spec_window(f, offset, limit)
        },
{
    let n = f.len() as int;
    if offset <= n < offset + limit {
        assert(spec_window(f.push(x), offset, limit) =~= spec_window(f, offset, limit).push(x));
    } else {
        assert(spec_window(f.push(x), offset, limit) =~= spec_window(f, offset, limit));
    }
}

/// A window never holds more than `limit` elements, and every element of
/// the window is an element of the underlying sequence.
pub proof fn lemma_window_len<A>(f: Seq<A>, offset: int, limit: int)
    requires
        offset >= 0,
        limit >= 1,
    ensures
        spec_window(f, offset, limit).len() <= limit,
        forall|j: int|
            0 <= j < spec_window(f, offset, limit).len() ==> f.contains(
                #[trigger] spec_window(f, offset, limit)[j],
            ),
{
    let w = spec_window(f, offset, limit);
    assert forall|j: int| 0 <= j < w.len() implies f.contains(#[trigger] w[j]) by {
        let n = f.len() as int;
        let start = if offset <= n {
            offset
        } else {
            n
        };
        assert(w[j] == f[start + j]);
    }
}

// ---------------------------------------------------------------------------
// Customer store model
// ---------------------------------------------------------------------------
/// No row of `s` carries the identifier `id`.
pub open spec fn customer_id_fresh(s: Seq<CustomerView>, id: Seq<char>) -> bool {
    forall|i: int| 0 <= i < s.len() ==> (#[trigger] s[i]).customer_id != id
}

/// `i` is the first position of `s` whose row carries `id`.
pub open spec fn first_customer_idx_is(s: Seq<CustomerView>, id: Seq<char>, i: int) -> bool {
    &&& 0 <= i < s.len()
    &&& s[i].customer_id == id
    &&& forall|j: int| 0 <= j < i ==> (#[trigger] s[j]).customer_id != id
}

/// The subsequence of `s` satisfying the location filter, in order.
pub open spec fn filtered_customers(s: Seq<CustomerView>, f: LocationFilterView) -> Seq<
    CustomerView,
>
    decreases s.len(),
{
    if s.len() == 0 {
        Seq::empty()
    } else {
        let rest = filtered_customers(s.drop_last(), f);
        if customer_matches(s.last(), f) {
            rest.push(s.last())
        } else {
            rest
        }
    }
}

/// The store with every row carrying `id` removed, in order.
pub open spec fn customers_without_id(s: Seq<CustomerView>, id: Seq<char>) -> Seq<CustomerView>
    decreases s.len(),
{
    if s.len() == 0 {
        Seq::empty()
    } else {
        let rest = customers_without_id(s.drop_last(), id);
        if s.last().customer_id != id {
            rest.push(s.last())
        } else {
            rest
        }
    }
}

/// Removing an identifier removes at least the rows it matched: afterwards
/// the identifier is fresh, and the length shrank exactly when it was
/// present.
pub proof fn lemma_customers_without_id(s: Seq<CustomerView>, id: Seq<char>)
    ensures
        customer_id_fresh(customers_without_id(s, id), id),
        customers_without_id(s, id).len() <= s.len(),
        customers_without_id(s, id).len() == s.len() <==> customer_id_fresh(s, id),
        customer_id_fresh(s, id) ==> customers_without_id(s, id) == s,
    decreases s.len(),
{
    if s.len() > 0 {
        lemma_customers_without_id(s.drop_last(), id);
        if customer_id_fresh(s, id) {
            assert forall|i: int|
                0 <= i < s.drop_last().len() implies (#[trigger] s.drop_last()[i]).customer_id
                != id by {
                assert(s.drop_last()[i] == s[i]);
            }
            assert(customer_id_fresh(s.drop_last(), id));
        }
        if customer_id_fresh(s.drop_last(), id) && s.last().customer_id != id {
            assert forall|i: int| 0 <= i < s.len() implies (#[trigger] s[i]).customer_id != id by {
                if i < s.len() - 1 {
                    assert(s[i] == s.drop_last()[i]);
                } else {
                    assert(s[i] == s.last());
                }
            }
            assert(customer_id_fresh(s, id));
        }
        if customer_id_fresh(s, id) {
            assert(customers_without_id(s, id) =~= s);
        }
    }
}

/// Polymorphic storage contract for customers: create, find, list with
/// filter and pagination, partial update, delete.
pub trait CustomerRepository: Sized {
    /// The rows held by the store, in storage-return order.
    spec fn customers(&self) -> Seq<CustomerView>;

    /// Inserts one row. On an identifier collision the store reports the
    /// raw unique-violation signal, untranslated.
    fn create(&mut self, dto: CreateCustomerDto) -> (r: Result<Customer, StorageError>)
        ensures
            customer_id_fresh(old(self).customers(), dto@.customer_id) ==> (r matches Ok(c) && c@
                == dto@ && final(self).customers() == old(self).customers().push(dto@)),
            !customer_id_fresh(old(self).customers(), dto@.customer_id) ==> (r matches Err(e) && e
                == StorageError::UniqueViolation && final(self).customers() == old(
            self).customers()),
    ;

    /// Lists one page of the rows matching the filter, together with the
    /// total count of matching rows (independent of the page bounds).
    fn find_all(&self, filter: &CustomerFilter, pagination: &PaginationParams) -> (r: Result<
        (Vec<Customer>, u64),
        StorageError,
    >)
        ensures
            ({
                let f = filtered_customers(self.customers(), filter@);
                &&& r matches Ok(page)
                &&& page.0.deep_view() == spec_window(
                    f,
                    spec_offset(*pagination),
                    spec_page_size(*pagination),
                )
                &&& page.1 == f.len()
            }),
    ;

    /// Returns the first row carrying `id`, or absent — never an error —
    /// when no row matches.
    fn find_by_id(&self, id: &str) -> (r: Result<Option<Customer>, StorageError>)
        ensures
            customer_id_fresh(self.customers(), id@) ==> (r matches Ok(o) && o is None),
            !customer_id_fresh(self.customers(), id@) ==> (r matches Ok(o) && o matches Some(c)
                && exists|i: int|
                #![auto]
                first_customer_idx_is(self.customers(), id@, i) && c@ == self.customers()[i]),
    ;

    /// Overwrites the present fields of the row carrying `id`, leaving
    /// absent fields untouched; absent row reported as `None`.
    fn update(&mut self, id: &str, dto: UpdateCustomerDto) -> (r: Result<
        Option<Customer>,
        StorageError,
    >)
        ensures
            customer_id_fresh(old(self).customers(), id@) ==> (r matches Ok(o) && o is None
                && final(self).customers() == old(self).customers()),
            !customer_id_fresh(old(self).customers(), id@) ==> (r matches Ok(o) && o matches Some(
                c,
            ) && exists|i: int|
                #![auto]
                first_customer_idx_is(old(self).customers(), id@, i) && c@ == apply_update(
                    old(self).customers()[i],
                    dto@,
                ) && final(self).customers() == old(self).customers().update(
                    i,
                    apply_update(old(self).customers()[i], dto@),
                )),
    ;


    fn delete(&mut self, id: &str) -> (r: Result<u64, StorageError>)
        ensures
            r matches Ok(cnt) && cnt == old(self).customers().len() - customers_without_id(
                old(self).customers(),
                id@,
            ).len() && final(self).customers() == customers_without_id(old(self).customers(), id@),
    ;
}

/// Vec-backed customer store; rows are kept in insertion order.
pub struct InMemoryCustomerRepository {
    pub rows: Vec<Customer>,
}

impl InMemoryCustomerRepository {
    /// An empty store.
    pub fn new() -> (r: Self)
        ensures
            r.customers() == Seq::<CustomerView>::empty(),
    {
        let r = InMemoryCustomerRepository { rows: Vec::new() };
        proof {
            assert(r.customers() =~= Seq::<CustomerView>::empty());
        }
        r
    }
}

/// Whether a stored string field satisfies an optional equality
/// constraint: an absent constraint always matches.
fn opt_matches(field: &String, constraint: &Option<String>) -> (r: bool)
    ensures
        r == match constraint.deep_view() {
            Some(v) => field@ == v,
            None => true,
        },
{
    match constraint {
        Some(c) => *field == *c,
        None => true,
    }
}

impl CustomerRepository for InMemoryCustomerRepository {
    open spec fn customers(&self) -> Seq<CustomerView> {
        self.rows.deep_view()
    }

    fn create(&mut self, dto: CreateCustomerDto) -> (r: Result<Customer, StorageError>) {
        let n = self.rows.len();
        for i in 0..n
            invariant
                n == self.rows.len(),
                forall|j: int|
                    0 <= j < i ==> (#[trigger] self.customers()[j]).customer_id != dto@.customer_id,
                self == old(self),
        {
            if self.rows[i].customer_id == dto.customer_id {
                proof {
                    assert(self.customers()[i as int].customer_id == dto@.customer_id);
                    assert(!customer_id_fresh(self.customers(), dto@.customer_id));
                }
                return Err(StorageError::UniqueViolation);
            }
        }
        let row = Customer {
            customer_id: dto.customer_id,
            customer_unique_id: dto.customer_unique_id,
            customer_zip_code_prefix: dto.customer_zip_code_prefix,
            customer_city: dto.customer_city,
            customer_state: dto.customer_state,
        };
        let out = row.clone();
        self.rows.push(row);
        proof {
            assert(self.customers() =~= old(self).customers().push(out@));
        }
        Ok(out)
    }

    fn find_all(&self, filter: &CustomerFilter, pagination: &PaginationParams) -> (r: Result<
        (Vec<Customer>, u64),
        StorageError,
    >) {
        let (limit, offset, _, _) = pagination.normalize();
        let n = self.rows.len();
        let mut out: Vec<Customer> = Vec::new();
        let mut cnt: u64 = 0;
        let ghost fv = filter@;
        let ghost off = offset as int;
        let ghost lim = limit as int;
        for i in 0..n
            invariant
                n == self.rows.len(),
                off == spec_offset(*pagination),
                lim == spec_page_size(*pagination),
                off == offset as int,
                lim == limit as int,
                off >= 0,
                1 <= lim,
                fv == filter@,
                cnt <= i,
                cnt == filtered_customers(self.customers().take(i as int), fv).len(),
                out.deep_view() == spec_window(
                    filtered_customers(self.customers().take(i as int), fv),
                    off,
                    lim,
                ),
        {
            let ghost pre = filtered_customers(self.customers().take(i as int), fv);
            let ghost wpre = out.deep_view();
            let row = &self.rows[i];
            let is_match = opt_matches(&row.customer_city, &filter.city) && opt_matches(
                &row.customer_state,
                &filter.state,
            );
            proof {
                assert(self.customers().take(i + 1).drop_last() =~= self.customers().take(
                    i as int,
                ));
                assert(self.customers().take(i + 1).last() == self.customers()[i as int]);
                assert(is_match == customer_matches(self.customers()[i as int], fv));
                if is_match {
                    assert(filtered_customers(self.customers().take(i + 1), fv) == pre.push(
                        self.customers()[i as int],
                    ));
                } else {
                    assert(filtered_customers(self.customers().take(i + 1), fv) == pre);
                }
            }
            if is_match {
                if cnt >= offset as u64 && (cnt - offset as u64) < (limit as u64) {
                    let c = row.clone();
                    let ghost cv = c@;
                    let ghost opre = out@;
                    proof {
                        assert(cv == self.customers()[i as int]);
                    }
                    out.push(c);
                    proof {
                        lemma_window_push(pre, self.customers()[i as int], off, lim);
                        assert(off <= pre.len() < off + lim);
                        assert(out@.len() == wpre.len() + 1);
                        assert(out@[out@.len() - 1]@ == cv);
                        assert forall|j: int| 0 <= j < out@.len() implies out.deep_view()[j]
                            == wpre.push(cv)[j] by {
                            if j < out@.len() - 1 {
                                assert(out@[j] == opre[j]);
                            }
                        }
                        assert(out.deep_view() =~= wpre.push(cv));
                        assert(out.deep_view() == spec_window(
                            filtered_customers(self.customers().take(i + 1), fv),
                            off,
                            lim,
                        ));
                    }
                } else {
                    proof {
                        lemma_window_push(pre, self.customers()[i as int], off, lim);
                        assert(!(off <= pre.len() < off + lim));
                        assert(out.deep_view() == spec_window(
                            filtered_customers(self.customers().take(i + 1), fv),
                            off,
                            lim,
                        ));
                    }
                }
                cnt = cnt + 1;
            }
        }
        proof {
            assert(self.customers().take(n as int) =~= self.customers());
        }
        Ok((out, cnt))
    }

    fn find_by_id(&self, id: &str) -> (r: Result<Option<Customer>, StorageError>) {
        let idv = id.to_owned();
        let n = self.rows.len();
        for i in 0..n
            invariant
                idv@ == id@,
                n == self.rows.len(),
                forall|j: int| 0 <= j < i ==> (#[trigger] self.customers()[j]).customer_id != id@,
        {
            if self.rows[i].customer_id == idv {
                let c = self.rows[i].clone();
                proof {
                    assert(self.customers()[i as int].customer_id == id@);
                    assert(first_customer_idx_is(self.customers(), id@, i as int));
                }
                return Ok(Some(c));
            }
        }
        Ok(None)
    }

    fn update(&mut self, id: &str, dto: UpdateCustomerDto) -> (r: Result<
        Option<Customer>,
        StorageError,
    >) {
        let idv = id.to_owned();
        let n = self.rows.len();
        for i in 0..n
            invariant
                idv@ == id@,
                n == self.rows.len(),
                forall|j: int| 0 <= j < i ==> (#[trigger] self.customers()[j]).customer_id != id@,
                self == old(self),
        {
            if self.rows[i].customer_id == idv {
                proof {
                    assert(self.customers()[i as int].customer_id == id@);
                    assert(first_customer_idx_is(old(self).customers(), id@, i as int));
                }
                let prev = &self.rows[i];
                let updated = Customer {
                    customer_id: prev.customer_id.clone(),
                    customer_unique_id: match dto.customer_unique_id {
                        Some(v) => v,
                        None => prev.customer_unique_id.clone(),
                    },
                    customer_zip_code_prefix: match dto.customer_zip_code_prefix {
                        Some(v) => v,
                        None => prev.customer_zip_code_prefix.clone(),
                    },
                    customer_city: match dto.customer_city {
                        Some(v) => v,
                        None => prev.customer_city.clone(),
                    },
                    customer_state: match dto.customer_state {
                        Some(v) => v,
                        None => prev.customer_state.clone(),
                    },
                };
                let out = updated.clone();
                self.rows.set(i, updated);
                proof {
                    assert(out@ == apply_update(old(self).customers()[i as int], dto@));
                    assert(self.customers() =~= old(self).customers().update(
                        i as int,
                        apply_update(old(self).customers()[i as int], dto@),
                    ));
                }
                return Ok(Some(out));
            }
        }
        Ok(None)
    }

    fn delete(&mut self, id: &str) -> (r: Result<u64, StorageError>) {
        let idv = id.to_owned();
        let n = self.rows.len();
        let mut kept: Vec<Customer> = Vec::new();
        let mut removed: u64 = 0;
        for i in 0..n
            invariant
                idv@ == id@,
                n == self.rows.len(),
                kept.deep_view() == customers_without_id(
                    self.customers().take(i as int),
                    id@,
                ),
                removed == i - kept.len(),
                kept.len() <= i,
                self == old(self),
        {
            proof {
                assert(self.customers().take(i + 1).drop_last() =~= self.customers().take(
                    i as int,
                ));
                assert(self.customers().take(i + 1).last() == self.customers()[i as int]);
            }
            let row = &self.rows[i];
            if !(row.customer_id == idv) {
                kept.push(row.clone());
                proof {
                    assert(kept.deep_view() =~= customers_without_id(
                        self.customers().take(i + 1),
                        id@,
                    ));
                }
            } else {
                removed = removed + 1;
            }
        }
        proof {
            assert(self.customers().take(n as int) =~= self.customers());
        }
        self.rows = kept;
        Ok(removed)
    }
}

// ---------------------------------------------------------------------------
// Seller store model
// ---------------------------------------------------------------------------
/// No row of `s` carries the identifier `id`.
pub open spec fn seller_id_fresh(s: Seq<SellerView>, id: Seq<char>) -> bool {
    forall|i: int| 0 <= i < s.len() ==> (#[trigger] s[i]).seller_id != id
}

/// `i` is the first position of `s` whose row carries `id`.
pub open spec fn first_seller_idx_is(s: Seq<SellerView>, id: Seq<char>, i: int) -> bool {
    &&& 0 <= i < s.len()
    &&& s[i].seller_id == id
    &&& forall|j: int| 0 <= j < i ==> (#[trigger] s[j]).seller_id != id
}

/// The subsequence of `s` satisfying the location filter, in order.
pub open spec fn filtered_sellers(s: Seq<SellerView>, f: LocationFilterView) -> Seq<SellerView>
    decreases s.len(),
{
    if s.len() == 0 {
        Seq::empty()
    } else {
        let rest = filtered_sellers(s.drop_last(), f);
        if seller_matches(s.last(), f) {
            rest.push(s.last())
        } else {
            rest
        }
    }
}

/// Polymorphic storage contract for sellers: create, find, list with
/// filter and pagination.
pub trait SellerRepository: Sized {
    /// The rows held by the store, in storage-return order.
    spec fn sellers(&self) -> Seq<SellerView>;

    /// Inserts one row. On an identifier collision the store reports the
    /// raw unique-violation signal, untranslated.
    fn create(&mut self, dto: CreateSellerDto) -> (r: Result<Seller, StorageError>)
        ensures
            seller_id_fresh(old(self).sellers(), dto@.seller_id) ==> (r matches Ok(c) && c@ == dto@
                && final(self).sellers() == old(self).sellers().push(dto@)),
            !seller_id_fresh(old(self).sellers(), dto@.seller_id) ==> (r matches Err(e) && e
                == StorageError::UniqueViolation && final(self).sellers() == old(self).sellers()),
    ;

    /// Lists one page of the rows matching the filter, together with the
    /// total count of matching rows (independent of the page bounds).
    fn find_all(&self, filter: &SellerFilter, pagination: &PaginationParams) -> (r: Result<
        (Vec<Seller>, u64),
        StorageError,
    >)
        ensures
            ({
                let f = filtered_sellers(self.sellers(), filter@);
                &&& r matches Ok(page)
                &&& page.0.deep_view() == spec_window(
                    f,
                    spec_offset(*pagination),
                    spec_page_size(*pagination),
                )
                &&& page.1 == f.len()
            }),
    ;

    /// Returns the first row carrying `id`, or absent — never an error —
    /// when no row matches.
    fn find_by_id(&self, id: &str) -> (r: Result<Option<Seller>, StorageError>)
        ensures
            seller_id_fresh(self.sellers(), id@) ==> (r matches Ok(o) && o is None),
            !seller_id_fresh(self.sellers(), id@) ==> (r matches Ok(o) && o matches Some(c)
                && exists|i: int|
                #![auto]
                first_seller_idx_is(self.sellers(), id@, i) && c@ == self.sellers()[i]),
    ;
}

/// Vec-backed seller store; rows are kept in insertion order.
pub struct InMemorySellerRepository {
    pub rows: Vec<Seller>,
}

impl InMemorySellerRepository {
    /// An empty store.
    pub fn new() -> (r: Self)
        ensures
            r.sellers() == Seq::<SellerView>::empty(),
    {
        let r = InMemorySellerRepository { rows: Vec::new() };
        proof {
            assert(r.sellers() =~= Seq::<SellerView>::empty());
        }
        r
    }
}

impl SellerRepository for InMemorySellerRepository {
    open spec fn sellers(&self) -> Seq<SellerView> {
        self.rows.deep_view()
    }

    fn create(&mut self, dto: CreateSellerDto) -> (r: Result<Seller, StorageError>) {
        let n = self.rows.len();
        for i in 0..n
            invariant
                n == self.rows.len(),
                forall|j: int|
                    0 <= j < i ==> (#[trigger] self.sellers()[j]).seller_id != dto@.seller_id,
                self == old(self),
        {
            if self.rows[i].seller_id == dto.seller_id {
                proof {
                    assert(self.sellers()[i as int].seller_id == dto@.seller_id);
                    assert(!seller_id_fresh(self.sellers(), dto@.seller_id));
                }
                return Err(StorageError::UniqueViolation);
            }
        }
        let row = Seller {
            seller_id: dto.seller_id,
            seller_zip_code_prefix: dto.seller_zip_code_prefix,
            seller_city: dto.seller_city,
            seller_state: dto.seller_state,
        };
        let out = row.clone();
        self.rows.push(row);
        proof {
            assert(self.sellers() =~= old(self).sellers().push(out@));
        }
        Ok(out)
    }

    fn find_all(&self, filter: &SellerFilter, pagination: &PaginationParams) -> (r: Result<
        (Vec<Seller>, u64),
        StorageError,
    >) {
        let (limit, offset, _, _) = pagination.normalize();
        let n = self.rows.len();
        let mut out: Vec<Seller> = Vec::new();
        let mut cnt: u64 = 0;
        let ghost fv = filter@;
        let ghost off = offset as int;
        let ghost lim = limit as int;
        for i in 0..n
            invariant
                n == self.rows.len(),
                off == spec_offset(*pagination),
                lim == spec_page_size(*pagination),
                off == offset as int,
                lim == limit as int,
                off >= 0,
                1 <= lim,
                fv == filter@,
                cnt <= i,
                cnt == filtered_sellers(self.sellers().take(i as int), fv).len(),
                out.deep_view() == spec_window(
                    filtered_sellers(self.sellers().take(i as int), fv),
                    off,
                    lim,
                ),
        {
            let ghost pre = filtered_sellers(self.sellers().take(i as int), fv);
            let ghost wpre = out.deep_view();
            let row = &self.rows[i];
            let is_match = opt_matches(&row.seller_city, &filter.city) && opt_matches(
                &row.seller_state,
                &filter.state,
            );
            proof {
                assert(self.sellers().take(i + 1).drop_last() =~= self.sellers().take(i as int));
                assert(self.sellers().take(i + 1).last() == self.sellers()[i as int]);
                assert(is_match == seller_matches(self.sellers()[i as int], fv));
                if is_match {
                    assert(filtered_sellers(self.sellers().take(i + 1), fv) == pre.push(
                        self.sellers()[i as int],
                    ));
                } else {
                    assert(filtered_sellers(self.sellers().take(i + 1), fv) == pre);
                }
            }
            if is_match {
                if cnt >= offset as u64 && (cnt - offset as u64) < (limit as u64) {
                    let c = row.clone();
                    let ghost cv = c@;
                    let ghost opre = out@;
                    proof {
                        assert(cv == self.sellers()[i as int]);
                    }
                    out.push(c);
                    proof {
                        lemma_window_push(pre, self.sellers()[i as int], off, lim);
                        assert(off <= pre.len() < off + lim);
                        assert forall|j: int| 0 <= j < out@.len() implies out.deep_view()[j]
                            == wpre.push(cv)[j] by {
                            if j < out@.len() - 1 {
                                assert(out@[j] == opre[j]);
                            }
                        }
                        assert(out.deep_view() =~= wpre.push(cv));
                        assert(out.deep_view() == spec_window(
                            filtered_sellers(self.sellers().take(i + 1), fv),
                            off,
                            lim,
                        ));
                    }
                } else {
                    proof {
                        lemma_window_push(pre, self.sellers()[i as int], off, lim);
                        assert(!(off <= pre.len() < off + lim));
                        assert(out.deep_view() == spec_window(
                            filtered_sellers(self.sellers().take(i + 1), fv),
                            off,
                            lim,
                        ));
                    }
                }
                cnt = cnt + 1;
            }
        }
        proof {
            assert(self.sellers().take(n as int) =~= self.sellers());
        }
        Ok((out, cnt))
    }

    fn find_by_id(&self, id: &str) -> (r: Result<Option<Seller>, StorageError>) {
        let idv = id.to_owned();
        let n = self.rows.len();
        for i in 0..n
            invariant
                idv@ == id@,
                n == self.rows.len(),
                forall|j: int| 0 <= j < i ==> (#[trigger] self.sellers()[j]).seller_id != id@,
        {
            if self.rows[i].seller_id == idv {
                let c = self.rows[i].clone();
                proof {
                    assert(self.sellers()[i as int].seller_id == id@);
                    assert(first_seller_idx_is(self.sellers(), id@, i as int));
                }
                return Ok(Some(c));
            }
        }
        Ok(None)
    }
}

// ---------------------------------------------------------------------------
// Product store model
// ---------------------------------------------------------------------------
/// No row of `s` carries the identifier `id`.
pub open spec fn product_id_fresh(s: Seq<ProductView>, id: Seq<char>) -> bool {
    forall|i: int| 0 <= i < s.len() ==> (#[trigger] s[i]).product_id != id
}

/// `i` is the first position of `s` whose row carries `id`.
pub open spec fn first_product_idx_is(s: Seq<ProductView>, id: Seq<char>, i: int) -> bool {
    &&& 0 <= i < s.len()
    &&& s[i].product_id == id
    &&& forall|j: int| 0 <= j < i ==> (#[trigger] s[j]).product_id != id
}

/// The subsequence of `s` satisfying the category filter, in order.
pub open spec fn filtered_products(s: Seq<ProductView>, f: ProductFilterView) -> Seq<ProductView>
    decreases s.len(),
{
    if s.len() == 0 {
        Seq::empty()
    } else {
        let rest = filtered_products(s.drop_last(), f);
        if product_matches(s.last(), f) {
            rest.push(s.last())
        } else {
            rest
        }
    }
}

/// Polymorphic storage contract for products: create, find, list with
/// filter and pagination.
pub trait ProductRepository: Sized {
    /// The rows held by the store, in storage-return order.
    spec fn products(&self) -> Seq<ProductView>;

    /// Inserts one row. On an identifier collision the store reports the
    /// raw unique-violation signal, untranslated.
    fn create(&mut self, dto: CreateProductDto) -> (r: Result<Product, StorageError>)
        ensures
            product_id_fresh(old(self).products(), dto@.product_id) ==> (r matches Ok(c) && c@
                == dto@ && final(self).products() == old(self).products().push(dto@)),
            !product_id_fresh(old(self).products(), dto@.product_id) ==> (r matches Err(e) && e
                == StorageError::UniqueViolation && final(self).products() == old(
            self).products()),
    ;

    /// Lists one page of the rows matching the filter, together with the
    /// total count of matching rows (independent of the page bounds).
    fn find_all(&self, filter: &ProductFilter, pagination: &PaginationParams) -> (r: Result<
        (Vec<Product>, u64),
        StorageError,
    >)
        ensures
            ({
                let f = filtered_products(self.products(), filter@);
                &&& r matches Ok(page)
                &&& page.0.deep_view() == spec_window(
                    f,
                    spec_offset(*pagination),
                    spec_page_size(*pagination),
                )
                &&& page.1 == f.len()
            }),
    ;

    /// Returns the first row carrying `id`, or absent — never an error —
    /// when no row matches.
    fn find_by_id(&self, id: &str) -> (r: Result<Option<Product>, StorageError>)
        ensures
            product_id_fresh(self.products(), id@) ==> (r matches Ok(o) && o is None),
            !product_id_fresh(self.products(), id@) ==> (r matches Ok(o) && o matches Some(c)
                && exists|i: int|
                #![auto]
                first_product_idx_is(self.products(), id@, i) && c@ == self.products()[i]),
    ;
}

/// Vec-backed product store; rows are kept in insertion order.
pub struct InMemoryProductRepository {
    pub rows: Vec<Product>,
}

impl InMemoryProductRepository {
    /// An empty store.
    pub fn new() -> (r: Self)
        ensures
            r.products() == Seq::<ProductView>::empty(),
    {
        let r = InMemoryProductRepository { rows: Vec::new() };
        proof {
            assert(r.products() =~= Seq::<ProductView>::empty());
        }
        r
    }
}

impl ProductRepository for InMemoryProductRepository {
    open spec fn products(&self) -> Seq<ProductView> {
        self.rows.deep_view()
    }

    fn create(&mut self, dto: CreateProductDto) -> (r: Result<Product, StorageError>) {
        let n = self.rows.len();
        for i in 0..n
            invariant
                n == self.rows.len(),
                forall|j: int|
                    0 <= j < i ==> (#[trigger] self.products()[j]).product_id != dto@.product_id,
                self == old(self),
        {
            if self.rows[i].product_id == dto.product_id {
                proof {
                    assert(self.products()[i as int].product_id == dto@.product_id);
                    assert(!product_id_fresh(self.products(), dto@.product_id));
                }
                return Err(StorageError::UniqueViolation);
            }
        }
        let row = Product {
            product_id: dto.product_id,
            product_category_name: dto.product_category_name,
            product_name_lenght: dto.product_name_lenght,
            product_description_lenght: dto.product_description_lenght,
            product_photos_qty: dto.product_photos_qty,
            product_weight_g: dto.product_weight_g,
            product_length_cm: dto.product_length_cm,
            product_height_cm: dto.product_height_cm,
            product_width_cm: dto.product_width_cm,
        };
        let out = row.clone();
        self.rows.push(row);
        proof {
            assert(self.products() =~= old(self).products().push(out@));
        }
        Ok(out)
    }

    fn find_all(&self, filter: &ProductFilter, pagination: &PaginationParams) -> (r: Result<
        (Vec<Product>, u64),
        StorageError,
    >) {
        let (limit, offset, _, _) = pagination.normalize();
        let n = self.rows.len();
        let mut out: Vec<Product> = Vec::new();
        let mut cnt: u64 = 0;
        let ghost fv = filter@;
        let ghost off = offset as int;
        let ghost lim = limit as int;
        for i in 0..n
            invariant
                n == self.rows.len(),
                off == spec_offset(*pagination),
                lim == spec_page_size(*pagination),
                off == offset as int,
                lim == limit as int,
                off >= 0,
                1 <= lim,
                fv == filter@,
                cnt <= i,
                cnt == filtered_products(self.products().take(i as int), fv).len(),
                out.deep_view() == spec_window(
                    filtered_products(self.products().take(i as int), fv),
                    off,
                    lim,
                ),
        {
            let ghost pre = filtered_products(self.products().take(i as int), fv);
            let ghost wpre = out.deep_view();
            let row = &self.rows[i];
            let is_match = opt_matches(&row.product_category_name, &filter.category_name);
            proof {
                assert(self.products().take(i + 1).drop_last() =~= self.products().take(i as int));
                assert(self.products().take(i + 1).last() == self.products()[i as int]);
                assert(is_match == product_matches(self.products()[i as int], fv));
                if is_match {
                    assert(filtered_products(self.products().take(i + 1), fv) == pre.push(
                        self.products()[i as int],
                    ));
                } else {
                    assert(filtered_products(self.products().take(i + 1), fv) == pre);
                }
            }
            if is_match {
                if cnt >= offset as u64 && (cnt - offset as u64) < (limit as u64) {
                    let c = row.clone();
                    let ghost cv = c@;
                    let ghost opre = out@;
                    proof {
                        assert(cv == self.products()[i as int]);
                    }
                    out.push(c);
                    proof {
                        lemma_window_push(pre, self.products()[i as int], off, lim);
                        assert(off <= pre.len() < off + lim);
                        assert forall|j: int| 0 <= j < out@.len() implies out.deep_view()[j]
                            == wpre.push(cv)[j] by {
                            if j < out@.len() - 1 {
                                assert(out@[j] == opre[j]);
                            }
                        }
                        assert(out.deep_view() =~= wpre.push(cv));
                        assert(out.deep_view() == spec_window(
                            filtered_products(self.products().take(i + 1), fv),
                            off,
                            lim,
                        ));
                    }
                } else {
                    proof {
                        lemma_window_push(pre, self.products()[i as int], off, lim);
                        assert(!(off <= pre.len() < off + lim));
                        assert(out.deep_view() == spec_window(
                            filtered_products(self.products().take(i + 1), fv),
                            off,
                            lim,
                        ));
                    }
                }
                cnt = cnt + 1;
            }
        }
        proof {
            assert(self.products().take(n as int) =~= self.products());
        }
        Ok((out, cnt))
    }

    fn find_by_id(&self, id: &str) -> (r: Result<Option<Product>, StorageError>) {
        let idv = id.to_owned();
        let n = self.rows.len();
        for i in 0..n
            invariant
                idv@ == id@,
                n == self.rows.len(),
                forall|j: int| 0 <= j < i ==> (#[trigger] self.products()[j]).product_id != id@,
        {
            if self.rows[i].product_id == idv {
                let c = self.rows[i].clone();
                proof {
                    assert(self.products()[i as int].product_id == id@);
                    assert(first_product_idx_is(self.products(), id@, i as int));
                }
                return Ok(Some(c));
            }
        }
        Ok(None)
    }
}

// ---------------------------------------------------------------------------
// Order store model
// ---------------------------------------------------------------------------
/// No row of `s` carries the identifier `id`.
pub open spec fn order_id_fresh(s: Seq<OrderView>, id: Seq<char>) -> bool {
    forall|i: int| 0 <= i < s.len() ==> (#[trigger] s[i]).order_id != id
}

/// `i` is the first position of `s` whose row carries `id`.
pub open spec fn first_order_idx_is(s: Seq<OrderView>, id: Seq<char>, i: int) -> bool {
    &&& 0 <= i < s.len()
    &&& s[i].order_id == id
    &&& forall|j: int| 0 <= j < i ==> (#[trigger] s[j]).order_id != id
}

/// The subsequence of `s` satisfying the status filter, in order.
pub open spec fn filtered_orders(s: Seq<OrderView>, f: OrderFilterView) -> Seq<OrderView>
    decreases s.len(),
{
    if s.len() == 0 {
        Seq::empty()
    } else {
        let rest = filtered_orders(s.drop_last(), f);
        if order_matches(s.last(), f) {
            rest.push(s.last())
        } else {
            rest
        }
    }
}

/// The orders belonging to one customer, in order.
pub open spec fn orders_of_customer(s: Seq<OrderView>, customer_id: Seq<char>) -> Seq<OrderView>
    decreases s.len(),
{
    if s.len() == 0 {
        Seq::empty()
    } else {
        let rest = orders_of_customer(s.drop_last(), customer_id);
        if s.last().customer_id == customer_id {
            rest.push(s.last())
        } else {
            rest
        }
    }
}

/// The payments recorded against one order, in order.
pub open spec fn payments_of_order(s: Seq<PaymentView>, id: Seq<char>) -> Seq<PaymentView>
    decreases s.len(),
{
    if s.len() == 0 {
        Seq::empty()
    } else {
        let rest = payments_of_order(s.drop_last(), id);
        if s.last().order_id == id {
            rest.push(s.last())
        } else {
            rest
        }
    }
}

/// The reviews recorded against one order, in order.
pub open spec fn reviews_of_order(s: Seq<ReviewView>, id: Seq<char>) -> Seq<ReviewView>
    decreases s.len(),
{
    if s.len() == 0 {
        Seq::empty()
    } else {
        let rest = reviews_of_order(s.drop_last(), id);
        if s.last().order_id == id {
            rest.push(s.last())
        } else {
            rest
        }
    }
}

/// The first product of `s` carrying `pid`, if any.
pub open spec fn product_lookup(s: Seq<ProductView>, pid: Seq<char>) -> Option<ProductView>
    decreases s.len(),
{
    if s.len() == 0 {
        None
    } else if s[0].product_id == pid {
        Some(s[0])
    } else {
        product_lookup(s.drop_first(), pid)
    }
}

/// A scan that saw no match in the first `i` rows determines the lookup
/// result: the match at `i` if there is one, or absence at the end.
pub proof fn lemma_product_lookup_prefix(s: Seq<ProductView>, pid: Seq<char>, i: int)
    requires
        0 <= i <= s.len(),
        forall|j: int| 0 <= j < i ==> (#[trigger] s[j]).product_id != pid,
    ensures
        i < s.len() && s[i].product_id == pid ==> product_lookup(s, pid) == Some(s[i]),
        i == s.len() ==> product_lookup(s, pid) is None,
    decreases i,
{
    if i > 0 {
        assert(s[0].product_id != pid);
        let rest = s.drop_first();
        assert forall|j: int| 0 <= j < i - 1 implies (#[trigger] rest[j]).product_id != pid by {
            assert(rest[j] == s[j + 1]);
        }
        lemma_product_lookup_prefix(rest, pid, i - 1);
        if i < s.len() && s[i].product_id == pid {
            assert(rest[i - 1] == s[i]);
        }
    }
}

/// The product/order-item join for order `id`: one row per item of the
/// order whose product exists in the catalogue, in item order, carrying
/// the first matching product's fields.
pub open spec fn order_products(
    products: Seq<ProductView>,
    items: Seq<OrderItemView>,
    id: Seq<char>,
) -> Seq<OrderProductView>
    decreases items.len(),
{
    if items.len() == 0 {
        Seq::empty()
    } else {
        let rest = order_products(products, items.drop_last(), id);
        let it = items.last();
        if it.order_id == id {
            match product_lookup(products, it.product_id) {
                Some(p) => rest.push(joined_row(p, it)),
                None => rest,
            }
        } else {
            rest
        }
    }
}

/// Polymorphic storage contract for orders, their items, and the
/// read-only joins an order exposes.
pub trait OrderRepository: Sized {
    /// The order rows held by the store, in storage-return order.
    spec fn orders(&self) -> Seq<OrderView>;

    /// The order-item rows held by the store, in storage-return order.
    spec fn items(&self) -> Seq<OrderItemView>;

    /// The product catalogue rows visible to the join.
    spec fn products(&self) -> Seq<ProductView>;

    /// The payment rows held by the store.
    spec fn payments(&self) -> Seq<PaymentView>;

    /// The review rows held by the store.
    spec fn reviews(&self) -> Seq<ReviewView>;

    /// Inserts one order row. On an identifier collision the store reports
    /// the raw unique-violation signal, untranslated.
    fn create(&mut self, dto: CreateOrderDto) -> (r: Result<Order, StorageError>)
        ensures
            order_id_fresh(old(self).orders(), dto@.order_id) ==> (r matches Ok(c) && c@ == dto@
                && final(self).orders() == old(self).orders().push(dto@)),
            !order_id_fresh(old(self).orders(), dto@.order_id) ==> (r matches Err(e) && e
                == StorageError::UniqueViolation && final(self).orders() == old(self).orders()),
            final(self).items() == old(self).items(),
            final(self).products() == old(self).products(),
            final(self).payments() == old(self).payments(),
            final(self).reviews() == old(self).reviews(),
    ;

    /// Appends one item to an existing order; a missing order surfaces as
    /// a raw storage failure (the row references no parent).
    fn add_item(&mut self, order_id: &str, dto: AddItemToOrderDto) -> (r: Result<
        OrderItem,
        StorageError,
    >)
        ensures
            !order_id_fresh(old(self).orders(), order_id@) ==> (r matches Ok(it) && it@ == item_of(
                order_id@,
                dto@,
            ) && final(self).items() == old(self).items().push(item_of(order_id@, dto@))),
            order_id_fresh(old(self).orders(), order_id@) ==> (r matches Err(e) && e
                == StorageError::Other && final(self).items() == old(self).items()),
            final(self).orders() == old(self).orders(),
            final(self).products() == old(self).products(),
            final(self).payments() == old(self).payments(),
            final(self).reviews() == old(self).reviews(),
    ;

    /// Lists one page of the orders matching the filter, together with the
    /// total count of matching rows (independent of the page bounds).
    fn find_all(&self, filter: &OrderFilter, pagination: &PaginationParams) -> (r: Result<
        (Vec<Order>, u64),
        StorageError,
    >)
        ensures
            ({
                let f = filtered_orders(self.orders(), filter@);
                &&& r matches Ok(page)
                &&& page.0.deep_view() == spec_window(
                    f,
                    spec_offset(*pagination),
                    spec_page_size(*pagination),
                )
                &&& page.1 == f.len()
            }),
    ;

    /// Returns the first order carrying `id`, or absent — never an error —
    /// when no row matches.
    fn find_by_id(&self, id: &str) -> (r: Result<Option<Order>, StorageError>)
        ensures
            order_id_fresh(self.orders(), id@) ==> (r matches Ok(o) && o is None),
            !order_id_fresh(self.orders(), id@) ==> (r matches Ok(o) && o matches Some(c)
                && exists|i: int|
                #![auto]
                first_order_idx_is(self.orders(), id@, i) && c@ == self.orders()[i]),
    ;

    /// The product/order-item join for order `id`.
    fn find_products_by_order_id(&self, id: &str) -> (r: Result<Vec<OrderProduct>, StorageError>)
        ensures
            r matches Ok(v) && v.deep_view() == order_products(
                self.products(),
                self.items(),
                id@,
            ),
    ;

    /// The payments recorded against order `id`.
    fn find_payments_by_order_id(&self, id: &str) -> (r: Result<Vec<Payment>, StorageError>)
        ensures
            r matches Ok(v) && v.deep_view() == payments_of_order(self.payments(), id@),
    ;

    /// The reviews recorded against order `id`.
    fn find_reviews_by_order_id(&self, id: &str) -> (r: Result<Vec<Review>, StorageError>)
        ensures
            r matches Ok(v) && v.deep_view() == reviews_of_order(self.reviews(), id@),
    ;

    /// Lists one page of a customer's orders, together with the customer's
    /// total order count.
    fn find_by_customer_id(&self, customer_id: &str, pagination: &PaginationParams) -> (r: Result<
        (Vec<Order>, u64),
        StorageError,
    >)
        ensures
            ({
                let f = orders_of_customer(self.orders(), customer_id@);
                &&& r matches Ok(page)
                &&& page.0.deep_view() == spec_window(
                    f,
                    spec_offset(*pagination),
                    spec_page_size(*pagination),
                )
                &&& page.1 == f.len()
            }),
    ;
}

/// Vec-backed order store; all row kinds are kept in insertion order. The
/// payment, review and catalogue rows that the read-only joins consume are
/// seeded directly.
pub struct InMemoryOrderRepository {
    pub order_rows: Vec<Order>,
    pub item_rows: Vec<OrderItem>,
    pub product_rows: Vec<Product>,
    pub payment_rows: Vec<Payment>,
    pub review_rows: Vec<Review>,
}

impl InMemoryOrderRepository {
    /// An empty store.
    pub fn new() -> (r: Self)
        ensures
            r.orders() == Seq::<OrderView>::empty(),
            r.items() == Seq::<OrderItemView>::empty(),
            r.products() == Seq::<ProductView>::empty(),
            r.payments() == Seq::<PaymentView>::empty(),
            r.reviews() == Seq::<ReviewView>::empty(),
    {
        let r = InMemoryOrderRepository {
            order_rows: Vec::new(),
            item_rows: Vec::new(),
            product_rows: Vec::new(),
            payment_rows: Vec::new(),
            review_rows: Vec::new(),
        };
        proof {
            assert(r.orders() =~= Seq::<OrderView>::empty());
            assert(r.items() =~= Seq::<OrderItemView>::empty());
            assert(r.products() =~= Seq::<ProductView>::empty());
            assert(r.payments() =~= Seq::<PaymentView>::empty());
            assert(r.reviews() =~= Seq::<ReviewView>::empty());
        }
        r
    }

    /// Seeds one catalogue row for the join.
    pub fn insert_product(&mut self, p: Product)
        ensures
            final(self).products() == old(self).products().push(p@),
            final(self).orders() == old(self).orders(),
            final(self).items() == old(self).items(),
            final(self).payments() == old(self).payments(),
            final(self).reviews() == old(self).reviews(),
    {
        let ghost pv = p@;
        self.product_rows.push(p);
        proof {
            assert(self.products() =~= old(self).products().push(pv));
        }
    }

    /// Seeds one payment row.
    pub fn insert_payment(&mut self, p: Payment)
        ensures
            final(self).payments() == old(self).payments().push(p@),
            final(self).orders() == old(self).orders(),
            final(self).items() == old(self).items(),
            final(self).products() == old(self).products(),
            final(self).reviews() == old(self).reviews(),
    {
        let ghost pv = p@;
        self.payment_rows.push(p);
        proof {
            assert(self.payments() =~= old(self).payments().push(pv));
        }
    }

    /// Seeds one review row.
    pub fn insert_review(&mut self, r: Review)
        ensures
            final(self).reviews() == old(self).reviews().push(r@),
            final(self).orders() == old(self).orders(),
            final(self).items() == old(self).items(),
            final(self).products() == old(self).products(),
            final(self).payments() == old(self).payments(),
    {
        let ghost rv = r@;
        self.review_rows.push(r);
        proof {
            assert(self.reviews() =~= old(self).reviews().push(rv));
        }
    }
}

/// Scans the catalogue for the first product carrying `pid`.
fn lookup_product(products: &Vec<Product>, pid: &String) -> (r: Option<usize>)
    ensures
        match r {
            Some(k) => k < products.len() && product_lookup(products.deep_view(), pid@) == Some(
                products.deep_view()[k as int],
            ),
            None => product_lookup(products.deep_view(), pid@) is None,
        },
{
    let n = products.len();
    for k in 0..n
        invariant
            n == products.len(),
            forall|j: int|
                0 <= j < k ==> (#[trigger] products.deep_view()[j]).product_id != pid@,
    {
        if products[k].product_id == *pid {
            proof {
                assert(products.deep_view()[k as int].product_id == pid@);
                lemma_product_lookup_prefix(products.deep_view(), pid@, k as int);
            }
            return Some(k);
        }
    }
    proof {
        lemma_product_lookup_prefix(products.deep_view(), pid@, n as int);
    }
    None
}

impl OrderRepository for InMemoryOrderRepository {
    open spec fn orders(&self) -> Seq<OrderView> {
        self.order_rows.deep_view()
    }

    open spec fn items(&self) -> Seq<OrderItemView> {
        self.item_rows.deep_view()
    }

    open spec fn products(&self) -> Seq<ProductView> {
        self.product_rows.deep_view()
    }

    open spec fn payments(&self) -> Seq<PaymentView> {
        self.payment_rows.deep_view()
    }

    open spec fn reviews(&self) -> Seq<ReviewView> {
        self.review_rows.deep_view()
    }

    fn create(&mut self, dto: CreateOrderDto) -> (r: Result<Order, StorageError>) {
        let n = self.order_rows.len();
        for i in 0..n
            invariant
                n == self.order_rows.len(),
                forall|j: int|
                    0 <= j < i ==> (#[trigger] self.orders()[j]).order_id != dto@.order_id,
                self == old(self),
        {
            if self.order_rows[i].order_id == dto.order_id {
                proof {
                    assert(self.orders()[i as int].order_id == dto@.order_id);
                    assert(!order_id_fresh(self.orders(), dto@.order_id));
                }
                return Err(StorageError::UniqueViolation);
            }
        }
        let row = Order {
            order_id: dto.order_id,
            customer_id: dto.customer_id,
            order_status: dto.order_status,
            order_purchase_timestamp: dto.order_purchase_timestamp,
            order_approved_at: dto.order_approved_at,
            order_delivered_carrier_date: dto.order_delivered_carrier_date,
            order_delivered_customer_date: dto.order_delivered_customer_date,
            order_estimated_delivery_date: dto.order_estimated_delivery_date,
        };
        let out = row.clone();
        self.order_rows.push(row);
        proof {
            assert(self.orders() =~= old(self).orders().push(out@));
        }
        Ok(out)
    }

    fn add_item(&mut self, order_id: &str, dto: AddItemToOrderDto) -> (r: Result<
        OrderItem,
        StorageError,
    >) {
        let idv = order_id.to_owned();
        let n = self.order_rows.len();
        let mut exists_order = false;
        for i in 0..n
            invariant
                idv@ == order_id@,
                n == self.order_rows.len(),
                !exists_order ==> forall|j: int|
                    0 <= j < i ==> (#[trigger] self.orders()[j]).order_id != order_id@,
                exists_order ==> !order_id_fresh(self.orders(), order_id@),
                self == old(self),
        {
            if self.order_rows[i].order_id == idv {
                proof {
                    assert(self.orders()[i as int].order_id == order_id@);
                }
                exists_order = true;
            }
        }
        if !exists_order {
            proof {
                assert(order_id_fresh(self.orders(), order_id@));
            }
            return Err(StorageError::Other);
        }
        let row = OrderItem {
            order_item_id: dto.order_item_id,
            order_id: idv,
            product_id: dto.product_id,
            seller_id: dto.seller_id,
            shipping_limit_date: dto.shipping_limit_date,
            price: dto.price,
            freight_value: dto.freight_value,
        };
        let out = row.clone();
        self.item_rows.push(row);
        proof {
            assert(out@ == item_of(order_id@, dto@));
            assert(self.items() =~= old(self).items().push(item_of(order_id@, dto@)));
        }
        Ok(out)
    }

    fn find_all(&self, filter: &OrderFilter, pagination: &PaginationParams) -> (r: Result<
        (Vec<Order>, u64),
        StorageError,
    >) {
        let (limit, offset, _, _) = pagination.normalize();
        let n = self.order_rows.len();
        let mut out: Vec<Order> = Vec::new();
        let mut cnt: u64 = 0;
        let ghost fv = filter@;
        let ghost off = offset as int;
        let ghost lim = limit as int;
        for i in 0..n
            invariant
                n == self.order_rows.len(),
                off == spec_offset(*pagination),
                lim == spec_page_size(*pagination),
                off == offset as int,
                lim == limit as int,
                off >= 0,
                1 <= lim,
                fv == filter@,
                cnt <= i,
                cnt == filtered_orders(self.orders().take(i as int), fv).len(),
                out.deep_view() == spec_window(
                    filtered_orders(self.orders().take(i as int), fv),
                    off,
                    lim,
                ),
        {
            let ghost pre = filtered_orders(self.orders().take(i as int), fv);
            let ghost wpre = out.deep_view();
            let row = &self.order_rows[i];
            let is_match = opt_matches(&row.order_status, &filter.status);
            proof {
                assert(self.orders().take(i + 1).drop_last() =~= self.orders().take(i as int));
                assert(self.orders().take(i + 1).last() == self.orders()[i as int]);
                assert(is_match == order_matches(self.orders()[i as int], fv));
                if is_match {
                    assert(filtered_orders(self.orders().take(i + 1), fv) == pre.push(
                        self.orders()[i as int],
                    ));
                } else {
                    assert(filtered_orders(self.orders().take(i + 1), fv) == pre);
                }
            }
            if is_match {
                if cnt >= offset as u64 && (cnt - offset as u64) < (limit as u64) {
                    let c = row.clone();
                    let ghost cv = c@;
                    let ghost opre = out@;
                    proof {
                        assert(cv == self.orders()[i as int]);
                    }
                    out.push(c);
                    proof {
                        lemma_window_push(pre, self.orders()[i as int], off, lim);
                        assert(off <= pre.len() < off + lim);
                        assert forall|j: int| 0 <= j < out@.len() implies out.deep_view()[j]
                            == wpre.push(cv)[j] by {
                            if j < out@.len() - 1 {
                                assert(out@[j] == opre[j]);
                            }
                        }
                        assert(out.deep_view() =~= wpre.push(cv));
                        assert(out.deep_view() == spec_window(
                            filtered_orders(self.orders().take(i + 1), fv),
                            off,
                            lim,
                        ));
                    }
                } else {
                    proof {
                        lemma_window_push(pre, self.orders()[i as int], off, lim);
                        assert(!(off <= pre.len() < off + lim));
                        assert(out.deep_view() == spec_window(
                            filtered_orders(self.orders().take(i + 1), fv),
                            off,
                            lim,
                        ));
                    }
                }
                cnt = cnt + 1;
            }
        }
        proof {
            assert(self.orders().take(n as int) =~= self.orders());
        }
        Ok((out, cnt))
    }

    fn find_by_id(&self, id: &str) -> (r: Result<Option<Order>, StorageError>) {
        let idv = id.to_owned();
        let n = self.order_rows.len();
        for i in 0..n
            invariant
                idv@ == id@,
                n == self.order_rows.len(),
                forall|j: int| 0 <= j < i ==> (#[trigger] self.orders()[j]).order_id != id@,
        {
            if self.order_rows[i].order_id == idv {
                let c = self.order_rows[i].clone();
                proof {
                    assert(self.orders()[i as int].order_id == id@);
                    assert(first_order_idx_is(self.orders(), id@, i as int));
                }
                return Ok(Some(c));
            }
        }
        Ok(None)
    }

    fn find_products_by_order_id(&self, id: &str) -> (r: Result<Vec<OrderProduct>, StorageError>) {
        let idv = id.to_owned();
        let n = self.item_rows.len();
        let mut out: Vec<OrderProduct> = Vec::new();
        for i in 0..n
            invariant
                idv@ == id@,
                n == self.item_rows.len(),
                out.deep_view() == order_products(
                    self.products(),
                    self.items().take(i as int),
                    id@,
                ),
        {
            let ghost pre = order_products(self.products(), self.items().take(i as int), id@);
            let ghost wpre = out.deep_view();
            proof {
                assert(self.items().take(i + 1).drop_last() =~= self.items().take(i as int));
                assert(self.items().take(i + 1).last() == self.items()[i as int]);
            }
            let it = &self.item_rows[i];
            if it.order_id == idv {
                proof {
                    assert(self.items()[i as int].order_id == id@);
                }
                match lookup_product(&self.product_rows, &it.product_id) {
                    Some(k) => {
                        let p = &self.product_rows[k];
                        let op = OrderProduct {
                            product_id: p.product_id.clone(),
                            product_category_name: p.product_category_name.clone(),
                            product_name_lenght: p.product_name_lenght,
                            product_description_lenght: p.product_description_lenght,
                            product_photos_qty: p.product_photos_qty,
                            product_weight_g: p.product_weight_g,
                            product_length_cm: p.product_length_cm,
                            product_height_cm: p.product_height_cm,
                            product_width_cm: p.product_width_cm,
                            shipping_limit_date: it.shipping_limit_date.clone(),
                            price: it.price,
                            freight_value: it.freight_value,
                        };
                        let ghost opv = op@;
                        let ghost opre = out@;
                        proof {
                            assert(opv == joined_row(
                                self.products()[k as int],
                                self.items()[i as int],
                            ));
                        }
                        out.push(op);
                        proof {
                            assert forall|j: int| 0 <= j < out@.len() implies out.deep_view()[j]
                                == wpre.push(opv)[j] by {
                                if j < out@.len() - 1 {
                                    assert(out@[j] == opre[j]);
                                }
                            }
                            assert(out.deep_view() =~= wpre.push(opv));
                            assert(out.deep_view() == order_products(
                                self.products(),
                                self.items().take(i + 1),
                                id@,
                            ));
                        }
                    },
                    None => {
                        proof {
                            assert(out.deep_view() == order_products(
                                self.products(),
                                self.items().take(i + 1),
                                id@,
                            ));
                        }
                    },
                }
            } else {
                proof {
                    assert(self.items()[i as int].order_id != id@);
                    assert(out.deep_view() == order_products(
                        self.products(),
                        self.items().take(i + 1),
                        id@,
                    ));
                }
            }
        }
        proof {
            assert(self.items().take(n as int) =~= self.items());
        }
        Ok(out)
    }

    fn find_payments_by_order_id(&self, id: &str) -> (r: Result<Vec<Payment>, StorageError>) {
        let idv = id.to_owned();
        let n = self.payment_rows.len();
        let mut out: Vec<Payment> = Vec::new();
        for i in 0..n
            invariant
                idv@ == id@,
                n == self.payment_rows.len(),
                out.deep_view() == payments_of_order(self.payments().take(i as int), id@),
        {
            let ghost wpre = out.deep_view();
            proof {
                assert(self.payments().take(i + 1).drop_last() =~= self.payments().take(i as int));
                assert(self.payments().take(i + 1).last() == self.payments()[i as int]);
            }
            let row = &self.payment_rows[i];
            if row.order_id == idv {
                let c = row.clone();
                let ghost cv = c@;
                let ghost opre = out@;
                proof {
                    assert(cv == self.payments()[i as int]);
                }
                out.push(c);
                proof {
                    assert forall|j: int| 0 <= j < out@.len() implies out.deep_view()[j]
                        == wpre.push(cv)[j] by {
                        if j < out@.len() - 1 {
                            assert(out@[j] == opre[j]);
                        }
                    }
                    assert(out.deep_view() =~= wpre.push(cv));
                }
            }
        }
        proof {
            assert(self.payments().take(n as int) =~= self.payments());
        }
        Ok(out)
    }

    fn find_reviews_by_order_id(&self, id: &str) -> (r: Result<Vec<Review>, StorageError>) {
        let idv = id.to_owned();
        let n = self.review_rows.len();
        let mut out: Vec<Review> = Vec::new();
        for i in 0..n
            invariant
                idv@ == id@,
                n == self.review_rows.len(),
                out.deep_view() == reviews_of_order(self.reviews().take(i as int), id@),
        {
            let ghost wpre = out.deep_view();
            proof {
                assert(self.reviews().take(i + 1).drop_last() =~= self.reviews().take(i as int));
                assert(self.reviews().take(i + 1).last() == self.reviews()[i as int]);
            }
            let row = &self.review_rows[i];
            if row.order_id == idv {
                let c = row.clone();
                let ghost cv = c@;
                let ghost opre = out@;
                proof {
                    assert(cv == self.reviews()[i as int]);
                }
                out.push(c);
                proof {
                    assert forall|j: int| 0 <= j < out@.len() implies out.deep_view()[j]
                        == wpre.push(cv)[j] by {
                        if j < out@.len() - 1 {
                            assert(out@[j] == opre[j]);
                        }
                    }
                    assert(out.deep_view() =~= wpre.push(cv));
                }
            }
        }
        proof {
            assert(self.reviews().take(n as int) =~= self.reviews());
        }
        Ok(out)
    }

    fn find_by_customer_id(&self, customer_id: &str, pagination: &PaginationParams) -> (r: Result<
        (Vec<Order>, u64),
        StorageError,
    >) {
        let cidv = customer_id.to_owned();
        let (limit, offset, _, _) = pagination.normalize();
        let n = self.order_rows.len();
        let mut out: Vec<Order> = Vec::new();
        let mut cnt: u64 = 0;
        let ghost off = offset as int;
        let ghost lim = limit as int;
        for i in 0..n
            invariant
                cidv@ == customer_id@,
                n == self.order_rows.len(),
                off == spec_offset(*pagination),
                lim == spec_page_size(*pagination),
                off == offset as int,
                lim == limit as int,
                off >= 0,
                1 <= lim,
                cnt <= i,
                cnt == orders_of_customer(self.orders().take(i as int), customer_id@).len(),
                out.deep_view() == spec_window(
                    orders_of_customer(self.orders().take(i as int), customer_id@),
                    off,
                    lim,
                ),
        {
            let ghost pre = orders_of_customer(self.orders().take(i as int), customer_id@);
            let ghost wpre = out.deep_view();
            let row = &self.order_rows[i];
            let is_match = row.customer_id == cidv;
            proof {
                assert(self.orders().take(i + 1).drop_last() =~= self.orders().take(i as int));
                assert(self.orders().take(i + 1).last() == self.orders()[i as int]);
                assert(is_match == (self.orders()[i as int].customer_id == customer_id@));
                if is_match {
                    assert(orders_of_customer(self.orders().take(i + 1), customer_id@)
                        == pre.push(self.orders()[i as int]));
                } else {
                    assert(orders_of_customer(self.orders().take(i + 1), customer_id@) == pre);
                }
            }
            if is_match {
                if cnt >= offset as u64 && (cnt - offset as u64) < (limit as u64) {
                    let c = row.clone();
                    let ghost cv = c@;
                    let ghost opre = out@;
                    proof {
                        assert(cv == self.orders()[i as int]);
                    }
                    out.push(c);
                    proof {
                        lemma_window_push(pre, self.orders()[i as int], off, lim);
                        assert(off <= pre.len() < off + lim);
                        assert forall|j: int| 0 <= j < out@.len() implies out.deep_view()[j]
                            == wpre.push(cv)[j] by {
                            if j < out@.len() - 1 {
                                assert(out@[j] == opre[j]);
                            }
                        }
                        assert(out.deep_view() =~= wpre.push(cv));
                        assert(out.deep_view() == spec_window(
                            orders_of_customer(self.orders().take(i + 1), customer_id@),
                            off,
                            lim,
                        ));
                    }
                } else {
                    proof {
                        lemma_window_push(pre, self.orders()[i as int], off, lim);
                        assert(!(off <= pre.len() < off + lim));
                        assert(out.deep_view() == spec_window(
                            orders_of_customer(self.orders().take(i + 1), customer_id@),
                            off,
                            lim,
                        ));
                    }
                }
                cnt = cnt + 1;
            }
        }
        proof {
            assert(self.orders().take(n as int) =~= self.orders());
        }
        Ok((out, cnt))
    }
}

} // verus!
