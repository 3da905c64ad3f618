//! Resource services: the only layer that invokes validation and that
//! translates storage outcomes into domain error kinds. Each service is
//! generic over its repository contract, so a storage adapter or a test
//! double can stand behind it.

use vstd::prelude::*;
use crate::error::{map_db_error, AppError, AppResult};
use crate::models::{
    AddItemToOrderDto, CreateCustomerDto, CreateOrderDto, CreateProductDto, CreateSellerDto,
    Customer, LocationFilterView, LocationSearchQuery, Order, OrderFilterView, OrderItem,
    OrderProduct, OrderProductResponse, OrderProductView, OrderSearchQuery, Payment, Product,
    ProductFilterView, ProductSearchQuery, Review, Seller, UpdateCustomerDto, item_of,
};
use crate::pagination::{spec_offset, spec_page, spec_page_size, PaginationParams};
use crate::repository::{
    customer_id_fresh, customers_without_id, filtered_customers, filtered_orders,
    filtered_products, filtered_sellers, first_customer_idx_is, first_order_idx_is,
    first_product_idx_is, first_seller_idx_is, lemma_customers_without_id, lemma_window_len,
    order_id_fresh, order_products, orders_of_customer, payments_of_order, product_id_fresh,
    reviews_of_order, seller_id_fresh, spec_window, CustomerRepository, OrderRepository,
    ProductRepository, SellerRepository,
};
use crate::models::apply_update;
use crate::response::{spec_total_pages, PaginatedResponse};

verus! {

// ---------------------------------------------------------------------------
// Customer service
// ---------------------------------------------------------------------------
pub struct CustomerService<R: CustomerRepository> {
    pub repository: R,
}

impl<R: CustomerRepository> CustomerService<R> {
    pub fn new(repository: R) -> (r: Self)
        ensures
            r.repository == repository,
    {
        CustomerService { repository }
    }

    /// Validates the payload, then inserts it; an identifier collision
    /// surfaces as `AlreadyExists`, naming the resource.
    pub fn create_customer(&mut self, dto: CreateCustomerDto) -> (r: AppResult<Customer>)
        ensures
            !dto.valid() ==> (r matches Err(AppError::ValidationError(f)) && f@
                == dto.first_invalid() && final(self).repository.customers() == old(self).repository.customers()),
            dto.valid() && customer_id_fresh(old(self).repository.customers(), dto@.customer_id)
                ==> (r matches Ok(c) && c@ == dto@ && final(self).repository.customers() == old(self).repository.customers().push(dto@)),
            dto.valid() && !customer_id_fresh(old(self).repository.customers(), dto@.customer_id)
                ==> (r matches Err(AppError::AlreadyExists(m)) && m@ == "Customer"@
                + " already exists"@ && final(self).repository.customers() == old(self).repository.customers()),
    {
        match dto.validate() {
            Err(e) => Err(e),
            Ok(()) => match self.repository.create(dto) {
                Ok(c) => Ok(c),
                Err(e) => Err(map_db_error(e, "Customer")),
            },
        }
    }

    /// An absent row becomes `NotFound`.
    pub fn get_customer_by_id(&self, id: &str) -> (r: AppResult<Customer>)
        ensures
            customer_id_fresh(self.repository.customers(), id@) ==> r matches Err(
                AppError::NotFound,
            ),
            !customer_id_fresh(self.repository.customers(), id@) ==> (r matches Ok(c) && exists|
                i: int,
            |
                #![auto]
                first_customer_idx_is(self.repository.customers(), id@, i) && c@
                    == self.repository.customers()[i]),
    {
        match self.repository.find_by_id(id) {
            Ok(Some(c)) => Ok(c),
            Ok(None) => Err(AppError::NotFound),
            Err(e) => Err(AppError::DatabaseError(e)),
        }
    }

    /// Validates, rejects a no-op request with `NoChangesToUpdate` before
    /// any storage access, and otherwise applies coalesce semantics; an
    /// absent row becomes `NotFound`.
    pub fn update_customer(&mut self, id: &str, dto: UpdateCustomerDto) -> (r: AppResult<Customer>)
        ensures
            !dto.valid() ==> (r matches Err(AppError::ValidationError(f)) && f@
                == dto.first_invalid() && final(self).repository.customers() == old(self).repository.customers()),
            dto.valid() && dto.is_empty_update() ==> (r matches Err(AppError::NoChangesToUpdate)
                && final(self).repository.customers() == old(self).repository.customers()),
            dto.valid() && !dto.is_empty_update() && customer_id_fresh(
                old(self).repository.customers(),
                id@,
            ) ==> (r matches Err(AppError::NotFound) && final(self).repository.customers() == old(self).repository.customers()),
            dto.valid() && !dto.is_empty_update() && !customer_id_fresh(
                old(self).repository.customers(),
                id@,
            ) ==> (r matches Ok(c) && exists|i: int|
                #![auto]
                first_customer_idx_is(old(self).repository.customers(), id@, i) && c@
                    == apply_update(old(self).repository.customers()[i], dto@) && final(self).repository.customers() == old(self).repository.customers().update(
                    i,
                    apply_update(old(self).repository.customers()[i], dto@),
                )),
    {
        match dto.validate() {
            Err(e) => {
                return Err(e);
            },
            Ok(()) => {},
        }
        if dto.has_no_fields() {
            return Err(AppError::NoChangesToUpdate);
        }
        match self.repository.update(id, dto) {
            Ok(Some(c)) => Ok(c),
            Ok(None) => Err(AppError::NotFound),
            Err(e) => Err(AppError::DatabaseError(e)),
        }
    }

    /// Deletes by identifier; zero affected rows becomes `NotFound`.
    pub fn delete_customer(&mut self, id: &str) -> (r: AppResult<()>)
        ensures
            customer_id_fresh(old(self).repository.customers(), id@) ==> (r matches Err(
                AppError::NotFound,
            ) && final(self).repository.customers() == old(self).repository.customers()),
            !customer_id_fresh(old(self).repository.customers(), id@) ==> (r matches Ok(u)
                && final(self).repository.customers() == customers_without_id(
                old(self).repository.customers(),
                id@,
            )),
    {
        proof {
            lemma_customers_without_id(old(self).repository.customers(), id@);
        }
        match self.repository.delete(id) {
            Ok(rows_affected) => {
                if rows_affected == 0 {
                    Err(AppError::NotFound)
                } else {
                    Ok(())
                }
            },
            Err(e) => Err(AppError::DatabaseError(e)),
        }
    }

    /// Lists one page of customers under the query's filter, echoing the
    /// normalized page and page size in the envelope.
    pub fn get_customers(&self, query: LocationSearchQuery) -> (r: AppResult<
        PaginatedResponse<Customer>,
    >)
        ensures
            ({
                let params = PaginationParams { page: query.page, page_size: query.page_size };
                let fv = LocationFilterView {
                    city: query.city.deep_view(),
                    state: query.state.deep_view(),
                };
                let f = filtered_customers(self.repository.customers(), fv);
                &&& r matches Ok(resp)
                &&& resp.items.deep_view() == spec_window(
                    f,
                    spec_offset(params),
                    spec_page_size(params),
                )
                &&& resp.total_records == f.len()
                &&& resp.page == spec_page(params)
                &&& resp.page_size == spec_page_size(params)
                &&& resp.total_pages == spec_total_pages(
                    f.len() as nat,
                    spec_page_size(params) as nat,
                )
                &&& resp.wf()
            }),
    {
        let pagination = query.pagination();
        let filter = query.filter();
        let (_, _, page, page_size) = pagination.normalize();
        match self.repository.find_all(&filter, &pagination) {
            Ok((customers, total_records)) => {
                proof {
                    lemma_window_len(
                        filtered_customers(self.repository.customers(), filter@),
                        spec_offset(pagination),
                        spec_page_size(pagination),
                    );
                }
                Ok(PaginatedResponse::new(customers, total_records, page, page_size))
            },
            Err(e) => Err(AppError::DatabaseError(e)),
        }
    }
}

// ---------------------------------------------------------------------------
// Seller service
// ---------------------------------------------------------------------------
pub struct SellerService<R: SellerRepository> {
    pub repository: R,
}

impl<R: SellerRepository> SellerService<R> {
    pub fn new(repository: R) -> (r: Self)
        ensures
            r.repository == repository,
    {
        SellerService { repository }
    }

    /// Validates the payload, then inserts it; an identifier collision
    /// surfaces as `AlreadyExists`, naming the resource.
    pub fn create_seller(&mut self, dto: CreateSellerDto) -> (r: AppResult<Seller>)
        ensures
            !dto.valid() ==> (r matches Err(AppError::ValidationError(f)) && f@
                == dto.first_invalid() && final(self).repository.sellers() == old(self).repository.sellers()),
            dto.valid() && seller_id_fresh(old(self).repository.sellers(), dto@.seller_id) ==> (
            r matches Ok(c) && c@ == dto@ && final(self).repository.sellers() == old(self).repository.sellers().push(dto@)),
            dto.valid() && !seller_id_fresh(old(self).repository.sellers(), dto@.seller_id) ==> (
            r matches Err(AppError::AlreadyExists(m)) && m@ == "Seller"@ + " already exists"@
                && final(self).repository.sellers() == old(self).repository.sellers()),
    {
        match dto.validate() {
            Err(e) => Err(e),
            Ok(()) => match self.repository.create(dto) {
                Ok(c) => Ok(c),
                Err(e) => Err(map_db_error(e, "Seller")),
            },
        }
    }

    /// An absent row becomes `NotFound`.
    pub fn get_seller_by_id(&self, id: &str) -> (r: AppResult<Seller>)
        ensures
            seller_id_fresh(self.repository.sellers(), id@) ==> r matches Err(AppError::NotFound),
            !seller_id_fresh(self.repository.sellers(), id@) ==> (r matches Ok(c) && exists|i: int|
                #![auto]
                first_seller_idx_is(self.repository.sellers(), id@, i) && c@
                    == self.repository.sellers()[i]),
    {
        match self.repository.find_by_id(id) {
            Ok(Some(c)) => Ok(c),
            Ok(None) => Err(AppError::NotFound),
            Err(e) => Err(AppError::DatabaseError(e)),
        }
    }

    /// Lists one page of sellers under the query's filter, echoing the
    /// normalized page and page size in the envelope.
    pub fn get_sellers(&self, query: LocationSearchQuery) -> (r: AppResult<
        PaginatedResponse<Seller>,
    >)
        ensures
            ({
                let params = PaginationParams { page: query.page, page_size: query.page_size };
                let fv = LocationFilterView {
                    city: query.city.deep_view(),
                    state: query.state.deep_view(),
                };
                let f = filtered_sellers(self.repository.sellers(), fv);
                &&& r matches Ok(resp)
                &&& resp.items.deep_view() == spec_window(
                    f,
                    spec_offset(params),
                    spec_page_size(params),
                )
                &&& resp.total_records == f.len()
                &&& resp.page == spec_page(params)
                &&& resp.page_size == spec_page_size(params)
                &&& resp.total_pages == spec_total_pages(
                    f.len() as nat,
                    spec_page_size(params) as nat,
                )
                &&& resp.wf()
            }),
    {
        let pagination = query.pagination();
        let filter = query.filter();
        let (_, _, page, page_size) = pagination.normalize();
        match self.repository.find_all(&filter, &pagination) {
            Ok((sellers, total_records)) => {
                proof {
                    lemma_window_len(
                        filtered_sellers(self.repository.sellers(), filter@),
                        spec_offset(pagination),
                        spec_page_size(pagination),
                    );
                }
                Ok(PaginatedResponse::new(sellers, total_records, page, page_size))
            },
            Err(e) => Err(AppError::DatabaseError(e)),
        }
    }
}

// ---------------------------------------------------------------------------
// Order service
// ---------------------------------------------------------------------------
/// `price + freight_value` summed across the joined rows, in exact cents.
pub open spec fn total_of(rows: Seq<OrderProductView>) -> int
    decreases rows.len(),
{
    if rows.len() == 0 {
        0
    } else {
        total_of(rows.drop_last()) + rows.last().price + rows.last().freight_value
    }
}

pub struct OrderService<R: OrderRepository> {
    pub repository: R,
}

impl<R: OrderRepository> OrderService<R> {
    pub fn new(repository: R) -> (r: Self)
        ensures
            r.repository == repository,
    {
        OrderService { repository }
    }

    /// Validates the payload, then inserts it; an identifier collision
    /// surfaces as `AlreadyExists`, naming the resource.
    pub fn create_order(&mut self, dto: CreateOrderDto) -> (r: AppResult<Order>)
        ensures
            !dto.valid() ==> (r matches Err(AppError::ValidationError(f)) && f@
                == dto.first_invalid() && final(self).repository.orders() == old(self).repository.orders()),
            dto.valid() && order_id_fresh(old(self).repository.orders(), dto@.order_id) ==> (
            r matches Ok(c) && c@ == dto@ && final(self).repository.orders() == old(self).repository.orders().push(dto@)),
            dto.valid() && !order_id_fresh(old(self).repository.orders(), dto@.order_id) ==> (
            r matches Err(AppError::AlreadyExists(m)) && m@ == "Order"@ + " already exists"@
                && final(self).repository.orders() == old(self).repository.orders()),
            final(self).repository.items() == old(self).repository.items(),
    {
        match dto.validate() {
            Err(e) => Err(e),
            Ok(()) => match self.repository.create(dto) {
                Ok(c) => Ok(c),
                Err(e) => Err(map_db_error(e, "Order")),
            },
        }
    }

    /// Validates, then appends the item to an existing order; a missing
    /// order surfaces as the storage failure it is.
    pub fn add_item_to_order(&mut self, order_id: &str, dto: AddItemToOrderDto) -> (r: AppResult<
        OrderItem,
    >)
        ensures
            !dto.valid() ==> (r matches Err(AppError::ValidationError(f)) && f@
                == dto.first_invalid() && final(self).repository.items() == old(self).repository.items()),
            dto.valid() && !order_id_fresh(old(self).repository.orders(), order_id@) ==> (
            r matches Ok(it) && it@ == item_of(order_id@, dto@) && final(self).repository.items()
                == old(self).repository.items().push(item_of(order_id@, dto@))),
            dto.valid() && order_id_fresh(old(self).repository.orders(), order_id@) ==> (r matches
                Err(AppError::DatabaseError(e)) && final(self).repository.items() == old(self).repository.items()),
            final(self).repository.orders() == old(self).repository.orders(),
    {
        match dto.validate() {
            Err(e) => Err(e),
            Ok(()) => match self.repository.add_item(order_id, dto) {
                Ok(it) => Ok(it),
                Err(e) => Err(AppError::DatabaseError(e)),
            },
        }
    }

    /// An absent row becomes `NotFound`.
    pub fn get_order_by_id(&self, id: &str) -> (r: AppResult<Order>)
        ensures
            order_id_fresh(self.repository.orders(), id@) ==> r matches Err(AppError::NotFound),
            !order_id_fresh(self.repository.orders(), id@) ==> (r matches Ok(c) && exists|i: int|
                #![auto]
                first_order_idx_is(self.repository.orders(), id@, i) && c@
                    == self.repository.orders()[i]),
    {
        match self.repository.find_by_id(id) {
            Ok(Some(c)) => Ok(c),
            Ok(None) => Err(AppError::NotFound),
            Err(e) => Err(AppError::DatabaseError(e)),
        }
    }

    /// The order's joined product rows together with the exact decimal
    /// aggregate of `price + freight_value` over every row, in cents.
    pub fn get_products_by_order_id(&self, id: &str) -> (r: AppResult<OrderProductResponse>)
        ensures
            ({
                let rows = order_products(
                    self.repository.products(),
                    self.repository.items(),
                    id@,
                );
                &&& r matches Ok(resp)
                &&& resp.products.deep_view() == rows
                &&& resp.total_value == total_of(rows)
            }),
    {
        match self.repository.find_products_by_order_id(id) {
            Ok(products) => {
                let n = products.len();
                let mut total_value: u128 = 0;
                for i in 0..n
                    invariant
                        n == products.len(),
                        total_value == total_of(products.deep_view().take(i as int)),
                        total_value <= i * 0x1_FFFF_FFFEu128,
                {
                    proof {
                        assert(products.deep_view().take(i + 1).drop_last()
                            =~= products.deep_view().take(i as int));
                        assert(products.deep_view().take(i + 1).last()
                            == products.deep_view()[i as int]);
                    }
                    let row = &products[i];
                    total_value = total_value + (row.price as u128) + (row.freight_value as u128);
                }
                proof {
                    assert(products.deep_view().take(n as int) =~= products.deep_view());
                }
                Ok(OrderProductResponse { products, total_value })
            },
            Err(e) => Err(AppError::DatabaseError(e)),
        }
    }

    /// The payments recorded against the order, in storage order.
    pub fn get_payments_by_order_id(&self, id: &str) -> (r: AppResult<Vec<Payment>>)
        ensures
            r matches Ok(v) && v.deep_view() == payments_of_order(
                self.repository.payments(),
                id@,
            ),
    {
        match self.repository.find_payments_by_order_id(id) {
            Ok(payments) => Ok(payments),
            Err(e) => Err(AppError::DatabaseError(e)),
        }
    }

    /// The reviews recorded against the order, in storage order.
    pub fn get_reviews_by_order_id(&self, id: &str) -> (r: AppResult<Vec<Review>>)
        ensures
            r matches Ok(v) && v.deep_view() == reviews_of_order(self.repository.reviews(), id@),
    {
        match self.repository.find_reviews_by_order_id(id) {
            Ok(reviews) => Ok(reviews),
            Err(e) => Err(AppError::DatabaseError(e)),
        }
    }

    /// Lists one page of orders under the query's status filter, echoing
    /// the normalized page and page size in the envelope.
    pub fn get_orders(&self, query: OrderSearchQuery) -> (r: AppResult<PaginatedResponse<Order>>)
        ensures
            ({
                let params = PaginationParams { page: query.page, page_size: query.page_size };
                let fv = OrderFilterView { status: query.status.deep_view() };
                let f = filtered_orders(self.repository.orders(), fv);
                &&& r matches Ok(resp)
                &&& resp.items.deep_view() == spec_window(
                    f,
                    spec_offset(params),
                    spec_page_size(params),
                )
                &&& resp.total_records == f.len()
                &&& resp.page == spec_page(params)
                &&& resp.page_size == spec_page_size(params)
                &&& resp.total_pages == spec_total_pages(
                    f.len() as nat,
                    spec_page_size(params) as nat,
                )
                &&& resp.wf()
            }),
    {
        let pagination = query.pagination();
        let filter = query.filter();
        let (_, _, page, page_size) = pagination.normalize();
        match self.repository.find_all(&filter, &pagination) {
            Ok((orders, total_records)) => {
                proof {
                    lemma_window_len(
                        filtered_orders(self.repository.orders(), filter@),
                        spec_offset(pagination),
                        spec_page_size(pagination),
                    );
                }
                Ok(PaginatedResponse::new(orders, total_records, page, page_size))
            },
            Err(e) => Err(AppError::DatabaseError(e)),
        }
    }

    /// Lists one page of a customer's orders, echoing the normalized page
    /// and page size in the envelope.
    pub fn get_orders_by_customer(&self, customer_id: &str, pagination: &PaginationParams) -> (r:
        AppResult<PaginatedResponse<Order>>)
        ensures
            ({
                let f = orders_of_customer(self.repository.orders(), customer_id@);
                &&& r matches Ok(resp)
                &&& resp.items.deep_view() == spec_window(
                    f,
                    spec_offset(*pagination),
                    spec_page_size(*pagination),
                )
                &&& resp.total_records == f.len()
                &&& resp.page == spec_page(*pagination)
                &&& resp.page_size == spec_page_size(*pagination)
                &&& resp.total_pages == spec_total_pages(
                    f.len() as nat,
                    spec_page_size(*pagination) as nat,
                )
                &&& resp.wf()
            }),
    {
        let (_, _, page, page_size) = pagination.normalize();
        match self.repository.find_by_customer_id(customer_id, pagination) {
            Ok((orders, count)) => {
                proof {
                    lemma_window_len(
                        orders_of_customer(self.repository.orders(), customer_id@),
                        spec_offset(*pagination),
                        spec_page_size(*pagination),
                    );
                }
                Ok(PaginatedResponse::new(orders, count, page, page_size))
            },
            Err(e) => Err(AppError::DatabaseError(e)),
        }
    }
}

// ---------------------------------------------------------------------------
// Product service
// ---------------------------------------------------------------------------
pub struct ProductService<R: ProductRepository> {
    pub repository: R,
}

impl<R: ProductRepository> ProductService<R> {
    pub fn new(repository: R) -> (r: Self)
        ensures
            r.repository == repository,
    {
        ProductService { repository }
    }

    /// Validates the payload, then inserts it; an identifier collision
    /// surfaces as `AlreadyExists`, naming the resource.
    pub fn create_product(&mut self, dto: CreateProductDto) -> (r: AppResult<Product>)
        ensures
            !dto.valid() ==> (r matches Err(AppError::ValidationError(f)) && f@
                == dto.first_invalid() && final(self).repository.products() == old(self).repository.products()),
            dto.valid() && product_id_fresh(old(self).repository.products(), dto@.product_id) ==> (
            r matches Ok(c) && c@ == dto@ && final(self).repository.products() == old(self).repository.products().push(dto@)),
            dto.valid() && !product_id_fresh(old(self).repository.products(), dto@.product_id)
                ==> (r matches Err(AppError::AlreadyExists(m)) && m@ == "Product"@
                + " already exists"@ && final(self).repository.products() == old(self).repository.products()),
    {
        match dto.validate() {
            Err(e) => Err(e),
            Ok(()) => match self.repository.create(dto) {
                Ok(c) => Ok(c),
                Err(e) => Err(map_db_error(e, "Product")),
            },
        }
    }

    /// An absent row becomes `NotFound`.
    pub fn get_product_by_id(&self, id: &str) -> (r: AppResult<Product>)
        ensures
            product_id_fresh(self.repository.products(), id@) ==> r matches Err(
                AppError::NotFound,
            ),
            !product_id_fresh(self.repository.products(), id@) ==> (r matches Ok(c) && exists|
                i: int,
            |
                #![auto]
                first_product_idx_is(self.repository.products(), id@, i) && c@
                    == self.repository.products()[i]),
    {
        match self.repository.find_by_id(id) {
            Ok(Some(c)) => Ok(c),
            Ok(None) => Err(AppError::NotFound),
            Err(e) => Err(AppError::DatabaseError(e)),
        }
    }

    /// Lists one page of products under the query's category filter,
    /// echoing the normalized page and page size in the envelope.
    pub fn get_products(&self, query: ProductSearchQuery) -> (r: AppResult<
        PaginatedResponse<Product>,
    >)
        ensures
            ({
                let params = PaginationParams { page: query.page, page_size: query.page_size };
                let fv = ProductFilterView { category_name: query.category_name.deep_view() };
                let f = filtered_products(self.repository.products(), fv);
                &&& r matches Ok(resp)
                &&& resp.items.deep_view() == spec_window(
                    f,
                    spec_offset(params),
                    spec_page_size(params),
                )
                &&& resp.total_records == f.len()
                &&& resp.page == spec_page(params)
                &&& resp.page_size == spec_page_size(params)
                &&& resp.total_pages == spec_total_pages(
                    f.len() as nat,
                    spec_page_size(params) as nat,
                )
                &&& resp.wf()
            }),
    {
        let pagination = query.pagination();
        let filter = query.filter();
        let (_, _, page, page_size) = pagination.normalize();
        match self.repository.find_all(&filter, &pagination) {
            Ok((products, total_records)) => {
                proof {
                    lemma_window_len(
                        filtered_products(self.repository.products(), filter@),
                        spec_offset(pagination),
                        spec_page_size(pagination),
                    );
                }
                Ok(PaginatedResponse::new(products, total_records, page, page_size))
            },
            Err(e) => Err(AppError::DatabaseError(e)),
        }
    }
}

} // verus!
