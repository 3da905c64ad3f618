use store_core::error::{AppError, StorageError};
use store_core::models::{
    AddItemToOrderDto, CreateCustomerDto, CreateOrderDto, CreateProductDto, CreateSellerDto,
    Customer, LocationSearchQuery, OrderSearchQuery, Payment, ProductSearchQuery, Review,
    UpdateCustomerDto,
};
use store_core::pagination::PaginationParams;
use store_core::repository::{
    CustomerRepository, InMemoryCustomerRepository, InMemoryOrderRepository,
    InMemoryProductRepository, InMemorySellerRepository,
};
use store_core::services::{CustomerService, OrderService, ProductService, SellerService};

fn customer_dto(id: &str, city: &str, state: &str) -> CreateCustomerDto {
    CreateCustomerDto {
        customer_id: id.to_string(),
        customer_unique_id: format!("u-{id}"),
        customer_zip_code_prefix: "01310".to_string(),
        customer_city: city.to_string(),
        customer_state: state.to_string(),
    }
}

fn customer_service() -> CustomerService<InMemoryCustomerRepository> {
    CustomerService::new(InMemoryCustomerRepository::new())
}

fn no_filter(page: Option<i32>, page_size: Option<i32>) -> LocationSearchQuery {
    LocationSearchQuery { city: None, state: None, page, page_size }
}

#[test]
fn create_then_get_round_trip() {
    let mut svc = customer_service();
    let created = svc.create_customer(customer_dto("c1", "sao paulo", "SP")).unwrap();
    assert_eq!(created.customer_id, "c1");
    let fetched = svc.get_customer_by_id("c1").unwrap();
    assert_eq!(fetched, created);
}

#[test]
fn get_missing_customer_is_not_found() {
    let svc = customer_service();
    assert_eq!(svc.get_customer_by_id("nope"), Err(AppError::NotFound));
}

#[test]
fn create_duplicate_is_already_exists_not_database_error() {
    let mut svc = customer_service();
    svc.create_customer(customer_dto("c1", "recife", "PE")).unwrap();
    let second = svc.create_customer(customer_dto("c1", "natal", "RN"));
    assert_eq!(
        second,
        Err(AppError::AlreadyExists("Customer already exists".to_string()))
    );
}

#[test]
fn create_empty_id_is_validation_error() {
    let mut svc = customer_service();
    let r = svc.create_customer(customer_dto("", "recife", "PE"));
    assert_eq!(r, Err(AppError::ValidationError("customer_id".to_string())));
}

#[test]
fn update_overwrites_only_present_fields() {
    let mut svc = customer_service();
    svc.create_customer(customer_dto("c1", "recife", "PE")).unwrap();
    let updated = svc
        .update_customer(
            "c1",
            UpdateCustomerDto {
                customer_unique_id: None,
                customer_zip_code_prefix: None,
                customer_city: Some("olinda".to_string()),
                customer_state: None,
            },
        )
        .unwrap();
    assert_eq!(updated.customer_city, "olinda");
    assert_eq!(updated.customer_state, "PE");
    assert_eq!(updated.customer_unique_id, "u-c1");
    assert_eq!(svc.get_customer_by_id("c1").unwrap(), updated);
}

#[test]
fn update_missing_customer_is_not_found() {
    let mut svc = customer_service();
    let r = svc.update_customer(
        "ghost",
        UpdateCustomerDto {
            customer_unique_id: None,
            customer_zip_code_prefix: None,
            customer_city: Some("olinda".to_string()),
            customer_state: None,
        },
    );
    assert_eq!(r, Err(AppError::NotFound));
}

#[test]
fn update_present_but_empty_field_is_validation_error() {
    let mut svc = customer_service();
    svc.create_customer(customer_dto("c1", "recife", "PE")).unwrap();
    let r = svc.update_customer(
        "c1",
        UpdateCustomerDto {
            customer_unique_id: None,
            customer_zip_code_prefix: None,
            customer_city: Some(String::new()),
            customer_state: None,
        },
    );
    assert_eq!(r, Err(AppError::ValidationError("customer_city".to_string())));
}

/// A repository double that counts every storage call, to observe that a
/// no-op update is rejected before storage is touched.
struct CountingCustomerRepository {
    calls: usize,
}

impl CustomerRepository for CountingCustomerRepository {
    fn customers(&self) -> vstd::seq::Seq<store_core::models::CustomerView> {
        panic!("the store model exists only for specifications")
    }

    fn create(&mut self, _dto: CreateCustomerDto) -> Result<Customer, StorageError> {
        self.calls += 1;
        Err(StorageError::Other)
    }

    fn find_all(
        &self,
        _filter: &store_core::models::CustomerFilter,
        _pagination: &PaginationParams,
    ) -> Result<(Vec<Customer>, u64), StorageError> {
        Err(StorageError::Other)
    }

    fn find_by_id(&self, _id: &str) -> Result<Option<Customer>, StorageError> {
        Err(StorageError::Other)
    }

    fn update(
        &mut self,
        _id: &str,
        _dto: UpdateCustomerDto,
    ) -> Result<Option<Customer>, StorageError> {
        self.calls += 1;
        Err(StorageError::Other)
    }

    fn delete(&mut self, _id: &str) -> Result<u64, StorageError> {
        self.calls += 1;
        Err(StorageError::Other)
    }
}

#[test]
fn empty_update_fails_fast_without_touching_storage() {
    let mut svc = CustomerService::new(CountingCustomerRepository { calls: 0 });
    let r = svc.update_customer(
        "c1",
        UpdateCustomerDto {
            customer_unique_id: None,
            customer_zip_code_prefix: None,
            customer_city: None,
            customer_state: None,
        },
    );
    assert_eq!(r, Err(AppError::NoChangesToUpdate));
    assert_eq!(svc.repository.calls, 0);
}

#[test]
fn delete_missing_customer_is_not_found() {
    let mut svc = customer_service();
    assert_eq!(svc.delete_customer("nope"), Err(AppError::NotFound));
}

#[test]
fn delete_twice_is_not_found_on_second_call() {
    let mut svc = customer_service();
    svc.create_customer(customer_dto("c1", "recife", "PE")).unwrap();
    assert_eq!(svc.delete_customer("c1"), Ok(()));
    assert_eq!(svc.delete_customer("c1"), Err(AppError::NotFound));
    assert_eq!(svc.get_customer_by_id("c1"), Err(AppError::NotFound));
}

#[test]
fn list_filters_by_city_and_state() {
    let mut svc = customer_service();
    svc.create_customer(customer_dto("c1", "recife", "PE")).unwrap();
    svc.create_customer(customer_dto("c2", "olinda", "PE")).unwrap();
    svc.create_customer(customer_dto("c3", "recife", "PE")).unwrap();
    svc.create_customer(customer_dto("c4", "macapa", "AP")).unwrap();

    let by_city = svc
        .get_customers(LocationSearchQuery {
            city: Some("recife".to_string()),
            state: None,
            page: None,
            page_size: None,
        })
        .unwrap();
    assert_eq!(by_city.total_records, 2);
    let ids: Vec<&str> = by_city.items.iter().map(|c| c.customer_id.as_str()).collect();
    assert_eq!(ids, ["c1", "c3"]);

    let by_state = svc
        .get_customers(LocationSearchQuery {
            city: None,
            state: Some("PE".to_string()),
            page: None,
            page_size: None,
        })
        .unwrap();
    assert_eq!(by_state.total_records, 3);

    let both = svc
        .get_customers(LocationSearchQuery {
            city: Some("olinda".to_string()),
            state: Some("PE".to_string()),
            page: None,
            page_size: None,
        })
        .unwrap();
    assert_eq!(both.total_records, 1);
    assert_eq!(both.items[0].customer_id, "c2");
}

#[test]
fn filter_absent_means_no_constraint_not_empty_match() {
    let mut svc = customer_service();
    svc.create_customer(customer_dto("c1", "recife", "PE")).unwrap();
    let all = svc.get_customers(no_filter(None, None)).unwrap();
    assert_eq!(all.total_records, 1);
    assert_eq!(all.items.len(), 1);
}

#[test]
fn pages_partition_the_result_set() {
    let mut svc = customer_service();
    for i in 0..7 {
        svc.create_customer(customer_dto(&format!("c{i}"), "recife", "PE")).unwrap();
    }
    let page_size = 3;
    let mut seen: Vec<String> = Vec::new();
    let mut fetched = 0u64;
    let mut page = 1;
    loop {
        let resp = svc.get_customers(no_filter(Some(page), Some(page_size))).unwrap();
        assert_eq!(resp.total_records, 7);
        assert_eq!(resp.page, page);
        assert_eq!(resp.page_size, page_size);
        assert!(resp.items.len() <= page_size as usize);
        fetched += resp.items.len() as u64;
        for c in &resp.items {
            assert!(!seen.contains(&c.customer_id), "page overlap on {}", c.customer_id);
            seen.push(c.customer_id.clone());
        }
        if page as u64 >= resp.total_pages {
            break;
        }
        page += 1;
    }
    assert_eq!(fetched, 7);
    // every returned row belongs to the unfiltered store
    for id in &seen {
        assert!(svc.get_customer_by_id(id).is_ok());
    }
}

#[test]
fn page_past_the_end_is_empty_with_accurate_metadata() {
    let mut svc = customer_service();
    for i in 0..3 {
        svc.create_customer(customer_dto(&format!("c{i}"), "recife", "PE")).unwrap();
    }
    let resp = svc.get_customers(no_filter(Some(5), Some(2))).unwrap();
    assert_eq!(resp.items.len(), 0);
    assert_eq!(resp.total_records, 3);
    assert_eq!(resp.total_pages, 2);
    assert_eq!(resp.page, 5);
}

#[test]
fn list_echoes_normalized_pagination_not_raw_input() {
    let mut svc = customer_service();
    svc.create_customer(customer_dto("c1", "recife", "PE")).unwrap();
    let resp = svc.get_customers(no_filter(Some(-4), Some(0))).unwrap();
    assert_eq!(resp.page, 1);
    assert_eq!(resp.page_size, 10);
}

#[test]
fn seller_round_trip_and_conflict() {
    let mut svc = SellerService::new(InMemorySellerRepository::new());
    let dto = CreateSellerDto {
        seller_id: "s1".to_string(),
        seller_zip_code_prefix: "13023".to_string(),
        seller_city: "campinas".to_string(),
        seller_state: "SP".to_string(),
    };
    let created = svc.create_seller(dto).unwrap();
    assert_eq!(svc.get_seller_by_id("s1").unwrap(), created);
    assert_eq!(svc.get_seller_by_id("s2"), Err(AppError::NotFound));
    let dup = CreateSellerDto {
        seller_id: "s1".to_string(),
        seller_zip_code_prefix: "99999".to_string(),
        seller_city: "itu".to_string(),
        seller_state: "SP".to_string(),
    };
    assert_eq!(
        svc.create_seller(dup),
        Err(AppError::AlreadyExists("Seller already exists".to_string()))
    );
    let listed = svc
        .get_sellers(LocationSearchQuery {
            city: Some("campinas".to_string()),
            state: None,
            page: None,
            page_size: None,
        })
        .unwrap();
    assert_eq!(listed.total_records, 1);
}

#[test]
fn product_round_trip_and_category_filter() {
    let mut svc = ProductService::new(InMemoryProductRepository::new());
    let mk = |id: &str, cat: &str| CreateProductDto {
        product_id: id.to_string(),
        product_category_name: cat.to_string(),
        product_name_lenght: Some(40),
        product_description_lenght: Some(280),
        product_photos_qty: Some(3),
        product_weight_g: Some(500),
        product_length_cm: Some(20),
        product_height_cm: Some(10),
        product_width_cm: Some(15),
    };
    svc.create_product(mk("p1", "perfumaria")).unwrap();
    svc.create_product(mk("p2", "esporte_lazer")).unwrap();
    svc.create_product(mk("p3", "perfumaria")).unwrap();
    assert_eq!(
        svc.create_product(mk("p1", "perfumaria")),
        Err(AppError::AlreadyExists("Product already exists".to_string()))
    );
    assert_eq!(svc.get_product_by_id("p2").unwrap().product_category_name, "esporte_lazer");
    assert_eq!(svc.get_product_by_id("p9"), Err(AppError::NotFound));
    let listed = svc
        .get_products(ProductSearchQuery {
            category_name: Some("perfumaria".to_string()),
            page: None,
            page_size: None,
        })
        .unwrap();
    assert_eq!(listed.total_records, 2);
}

fn order_dto(id: &str, customer: &str, status: &str) -> CreateOrderDto {
    CreateOrderDto {
        order_id: id.to_string(),
        customer_id: customer.to_string(),
        order_status: status.to_string(),
        order_purchase_timestamp: "2017-10-02 10:56:33".to_string(),
        order_approved_at: "2017-10-02 11:07:15".to_string(),
        order_delivered_carrier_date: String::new(),
        order_delivered_customer_date: String::new(),
        order_estimated_delivery_date: "2017-10-18 00:00:00".to_string(),
    }
}

#[test]
fn order_round_trip_status_filter_and_customer_listing() {
    let mut svc = OrderService::new(InMemoryOrderRepository::new());
    svc.create_order(order_dto("o1", "c1", "delivered")).unwrap();
    svc.create_order(order_dto("o2", "c1", "shipped")).unwrap();
    svc.create_order(order_dto("o3", "c2", "delivered")).unwrap();
    assert_eq!(
        svc.create_order(order_dto("o1", "c9", "invoiced")),
        Err(AppError::AlreadyExists("Order already exists".to_string()))
    );
    assert_eq!(svc.get_order_by_id("o2").unwrap().order_status, "shipped");
    assert_eq!(svc.get_order_by_id("o9"), Err(AppError::NotFound));

    let delivered = svc
        .get_orders(OrderSearchQuery {
            status: Some("delivered".to_string()),
            page: None,
            page_size: None,
        })
        .unwrap();
    assert_eq!(delivered.total_records, 2);

    let of_c1 = svc
        .get_orders_by_customer("c1", &PaginationParams { page: None, page_size: None })
        .unwrap();
    assert_eq!(of_c1.total_records, 2);
    let ids: Vec<&str> = of_c1.items.iter().map(|o| o.order_id.as_str()).collect();
    assert_eq!(ids, ["o1", "o2"]);
}

#[test]
fn add_item_requires_an_existing_order() {
    let mut svc = OrderService::new(InMemoryOrderRepository::new());
    let dto = AddItemToOrderDto {
        order_item_id: 1,
        product_id: "p1".to_string(),
        seller_id: "s1".to_string(),
        shipping_limit_date: "2017-10-06 11:07:15".to_string(),
        price: 1050,
        freight_value: 100,
    };
    assert_eq!(
        svc.add_item_to_order("missing", dto),
        Err(AppError::DatabaseError(StorageError::Other))
    );
    svc.create_order(order_dto("o1", "c1", "created")).unwrap();
    let dto = AddItemToOrderDto {
        order_item_id: 1,
        product_id: "p1".to_string(),
        seller_id: "s1".to_string(),
        shipping_limit_date: "2017-10-06 11:07:15".to_string(),
        price: 1050,
        freight_value: 100,
    };
    let item = svc.add_item_to_order("o1", dto).unwrap();
    assert_eq!(item.order_id, "o1");
    assert_eq!(item.price, 1050);
}

#[test]
fn add_item_with_empty_product_is_validation_error() {
    let mut svc = OrderService::new(InMemoryOrderRepository::new());
    svc.create_order(order_dto("o1", "c1", "created")).unwrap();
    let dto = AddItemToOrderDto {
        order_item_id: 1,
        product_id: String::new(),
        seller_id: "s1".to_string(),
        shipping_limit_date: String::new(),
        price: 1,
        freight_value: 0,
    };
    assert_eq!(
        svc.add_item_to_order("o1", dto),
        Err(AppError::ValidationError("product_id".to_string()))
    );
}

fn product_row(id: &str) -> store_core::models::Product {
    store_core::models::Product {
        product_id: id.to_string(),
        product_category_name: "perfumaria".to_string(),
        product_name_lenght: Some(40),
        product_description_lenght: None,
        product_photos_qty: Some(1),
        product_weight_g: Some(200),
        product_length_cm: Some(16),
        product_height_cm: Some(10),
        product_width_cm: Some(14),
    }
}

#[test]
fn order_product_aggregation_is_exact_in_cents() {
    let mut repo = InMemoryOrderRepository::new();
    repo.insert_product(product_row("p1"));
    repo.insert_product(product_row("p2"));
    let mut svc = OrderService::new(repo);
    svc.create_order(order_dto("o1", "c1", "created")).unwrap();
    // price 10.50 / 5.25, freight 1.00 / 0.75 — in cents
    let item = |n: i32, pid: &str, price: u32, freight: u32| AddItemToOrderDto {
        order_item_id: n,
        product_id: pid.to_string(),
        seller_id: "s1".to_string(),
        shipping_limit_date: String::new(),
        price,
        freight_value: freight,
    };
    svc.add_item_to_order("o1", item(1, "p1", 1050, 100)).unwrap();
    svc.add_item_to_order("o1", item(2, "p2", 525, 75)).unwrap();
    let resp = svc.get_products_by_order_id("o1").unwrap();
    assert_eq!(resp.products.len(), 2);
    // 10.50 + 1.00 + 5.25 + 0.75 == 17.50 exactly
    assert_eq!(resp.total_value, 1750);
}

#[test]
fn order_join_drops_items_whose_product_is_missing() {
    let mut repo = InMemoryOrderRepository::new();
    repo.insert_product(product_row("p1"));
    let mut svc = OrderService::new(repo);
    svc.create_order(order_dto("o1", "c1", "created")).unwrap();
    let item = |n: i32, pid: &str| AddItemToOrderDto {
        order_item_id: n,
        product_id: pid.to_string(),
        seller_id: "s1".to_string(),
        shipping_limit_date: String::new(),
        price: 100,
        freight_value: 10,
    };
    svc.add_item_to_order("o1", item(1, "p1")).unwrap();
    svc.add_item_to_order("o1", item(2, "unknown")).unwrap();
    let resp = svc.get_products_by_order_id("o1").unwrap();
    assert_eq!(resp.products.len(), 1);
    assert_eq!(resp.products[0].product_id, "p1");
    assert_eq!(resp.total_value, 110);
}

#[test]
fn payments_and_reviews_are_filtered_by_order() {
    let mut repo = InMemoryOrderRepository::new();
    repo.insert_payment(Payment {
        order_id: "o1".to_string(),
        payment_sequential: 1,
        payment_type: "credit_card".to_string(),
        payment_installments: 3,
        payment_value: 1850,
    });
    repo.insert_payment(Payment {
        order_id: "o2".to_string(),
        payment_sequential: 1,
        payment_type: "boleto".to_string(),
        payment_installments: 1,
        payment_value: 500,
    });
    repo.insert_review(Review {
        review_id: "r1".to_string(),
        order_id: "o1".to_string(),
        review_score: 5,
        review_comment_title: String::new(),
        review_comment_message: "chegou antes do prazo".to_string(),
        review_creation_date: "2018-01-01 00:00:00".to_string(),
        review_answer_timestamp: "2018-01-02 00:00:00".to_string(),
    });
    let svc = OrderService::new(repo);
    let pays = svc.get_payments_by_order_id("o1").unwrap();
    assert_eq!(pays.len(), 1);
    assert_eq!(pays[0].payment_type, "credit_card");
    let reviews = svc.get_reviews_by_order_id("o1").unwrap();
    assert_eq!(reviews.len(), 1);
    assert_eq!(reviews[0].review_score, 5);
    assert_eq!(svc.get_payments_by_order_id("o3").unwrap().len(), 0);
    assert_eq!(svc.get_reviews_by_order_id("o3").unwrap().len(), 0);
}

#[test]
fn error_messages_match_their_kinds() {
    let conflict = store_core::error::map_db_error(StorageError::UniqueViolation, "Customer");
    assert_eq!(conflict, AppError::AlreadyExists("Customer already exists".to_string()));
    let other = store_core::error::map_db_error(StorageError::Other, "Customer");
    assert_eq!(other, AppError::DatabaseError(StorageError::Other));

    assert_eq!(AppError::NotFound.response_parts(), (404, "Resource Not Found".to_string()));
    assert_eq!(
        AppError::ValidationError("customer_id".to_string()).response_parts(),
        (400, "Validation error: customer_id".to_string())
    );
    assert_eq!(
        AppError::NoChangesToUpdate.response_parts(),
        (400, "No valid fields provided for update.".to_string())
    );
    assert_eq!(
        AppError::AlreadyExists("Customer already exists".to_string()).response_parts(),
        (409, "Customer already exists".to_string())
    );
    assert_eq!(
        AppError::DatabaseError(StorageError::Other).response_parts(),
        (500, "Database Operation Failed".to_string())
    );
    assert_eq!(
        AppError::ConfigError("missing file".to_string()).response_parts(),
        (500, "Configuration Error: missing file".to_string())
    );
}
