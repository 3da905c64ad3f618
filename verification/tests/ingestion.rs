use store_core::error::AppError;
use store_core::ingest::{
    ingest_customers, ingest_orders, ingest_sellers, load_data_from_csv, parse_csv,
};
use store_core::repository::{
    InMemoryCustomerRepository, InMemoryOrderRepository, InMemorySellerRepository,
};
use store_core::services::{CustomerService, OrderService, SellerService};

fn customer_service() -> CustomerService<InMemoryCustomerRepository> {
    CustomerService::new(InMemoryCustomerRepository::new())
}

const CUSTOMER_HEADER: &str =
    "customer_id,customer_unique_id,customer_zip_code_prefix,customer_city,customer_state";

#[test]
fn scanner_splits_rows_and_fields() {
    let rows = parse_csv("a,b,c\nd,e,f\n");
    assert_eq!(rows, [["a", "b", "c"], ["d", "e", "f"]]);
}

#[test]
fn scanner_handles_missing_trailing_newline() {
    let rows = parse_csv("a,b\nc,d");
    assert_eq!(rows, [["a", "b"], ["c", "d"]]);
}

#[test]
fn scanner_keeps_commas_inside_quotes() {
    let rows = parse_csv("a,\"x, y\",b\n");
    assert_eq!(rows, [["a", "x, y", "b"]]);
}

#[test]
fn scanner_unescapes_doubled_quotes() {
    let rows = parse_csv("\"he said \"\"hi\"\"\",b\n");
    assert_eq!(rows, [["he said \"hi\"", "b"]]);
}

#[test]
fn scanner_keeps_newlines_inside_quotes() {
    let rows = parse_csv("a,\"two\nlines\"\nb,c\n");
    assert_eq!(rows, [["a", "two\nlines"], ["b", "c"]]);
}

#[test]
fn scanner_ignores_carriage_returns_outside_quotes() {
    let rows = parse_csv("a,b\r\nc,d\r\n");
    assert_eq!(rows, [["a", "b"], ["c", "d"]]);
}

#[test]
fn scanner_skips_fully_empty_lines() {
    let rows = parse_csv("a,b\n\n\nc,d\n");
    assert_eq!(rows, [["a", "b"], ["c", "d"]]);
}

#[test]
fn scanner_keeps_empty_fields() {
    let rows = parse_csv("a,,c\n,,\n");
    assert_eq!(rows, [["a", "", "c"], ["", "", ""]]);
}

#[test]
fn three_valid_and_two_malformed_records_tally_without_aborting() {
    let text = format!(
        "{CUSTOMER_HEADER}\n\
         c1,u1,01310,sao paulo,SP\n\
         c2,u2,20040,rio de janeiro\n\
         c3,u3,30110,belo horizonte,MG\n\
         only,three,fields\n\
         c4,u4,70040,brasilia,DF\n"
    );
    let mut svc = customer_service();
    let (success_count, error_count) = ingest_customers(&mut svc, Some(&text)).unwrap();
    assert_eq!((success_count, error_count), (3, 2));
    assert!(svc.get_customer_by_id("c1").is_ok());
    assert!(svc.get_customer_by_id("c3").is_ok());
    assert!(svc.get_customer_by_id("c4").is_ok());
    assert_eq!(svc.get_customer_by_id("c2"), Err(AppError::NotFound));
}

#[test]
fn unopenable_source_is_a_config_error_and_nothing_is_processed() {
    let mut svc = customer_service();
    let r = ingest_customers(&mut svc, None);
    assert!(matches!(r, Err(AppError::ConfigError(_))));
    let all = svc
        .get_customers(store_core::models::LocationSearchQuery {
            city: None,
            state: None,
            page: None,
            page_size: None,
        })
        .unwrap();
    assert_eq!(all.total_records, 0);
}

#[test]
fn duplicate_identifiers_across_records_count_as_errors() {
    let text = format!(
        "{CUSTOMER_HEADER}\n\
         c1,u1,01310,sao paulo,SP\n\
         c1,u9,99999,curitiba,PR\n"
    );
    let mut svc = customer_service();
    let (s, e) = ingest_customers(&mut svc, Some(&text)).unwrap();
    assert_eq!((s, e), (1, 1));
    // the first record won; no silent dedup or overwrite
    assert_eq!(svc.get_customer_by_id("c1").unwrap().customer_city, "sao paulo");
}

#[test]
fn invalid_fields_count_as_errors_but_run_continues() {
    let text = format!(
        "{CUSTOMER_HEADER}\n\
         ,u1,01310,sao paulo,SP\n\
         c2,u2,20040,rio de janeiro,RJ\n"
    );
    let mut svc = customer_service();
    let (s, e) = ingest_customers(&mut svc, Some(&text)).unwrap();
    assert_eq!((s, e), (1, 1));
}

#[test]
fn header_only_source_yields_zero_counts() {
    let mut svc = customer_service();
    let (s, e) = ingest_customers(&mut svc, Some(&format!("{CUSTOMER_HEADER}\n"))).unwrap();
    assert_eq!((s, e), (0, 0));
}

#[test]
fn empty_source_yields_zero_counts() {
    let mut svc = customer_service();
    let (s, e) = ingest_customers(&mut svc, Some("")).unwrap();
    assert_eq!((s, e), (0, 0));
}

#[test]
fn seller_and_order_sources_ingest_in_order() {
    let sellers = "seller_id,seller_zip_code_prefix,seller_city,seller_state\n\
                   s1,13023,campinas,SP\n\
                   s2,87900,loanda,PR\n";
    let mut ssvc = SellerService::new(InMemorySellerRepository::new());
    assert_eq!(ingest_sellers(&mut ssvc, Some(sellers)).unwrap(), (2, 0));
    assert!(ssvc.get_seller_by_id("s1").is_ok());

    let orders = "order_id,customer_id,order_status,order_purchase_timestamp,order_approved_at,order_delivered_carrier_date,order_delivered_customer_date,order_estimated_delivery_date\n\
                  o1,c1,delivered,2017-10-02 10:56:33,2017-10-02 11:07:15,,,2017-10-18 00:00:00\n\
                  o2,c1,broken,row\n";
    let mut osvc = OrderService::new(InMemoryOrderRepository::new());
    assert_eq!(ingest_orders(&mut osvc, Some(orders)).unwrap(), (1, 1));
    assert_eq!(osvc.get_order_by_id("o1").unwrap().order_status, "delivered");
}

#[test]
fn full_load_sums_tallies_across_sources() {
    let customers = format!(
        "{CUSTOMER_HEADER}\n\
         c1,u1,01310,sao paulo,SP\n\
         bad,row\n"
    );
    let sellers = "seller_id,seller_zip_code_prefix,seller_city,seller_state\n\
                   s1,13023,campinas,SP\n";
    let orders = "order_id,customer_id,order_status,t1,t2,t3,t4,t5\n\
                  o1,c1,delivered,a,b,c,d,e\n\
                  o1,c1,delivered,a,b,c,d,e\n";
    let mut csvc = customer_service();
    let mut ssvc = SellerService::new(InMemorySellerRepository::new());
    let mut osvc = OrderService::new(InMemoryOrderRepository::new());
    let totals = load_data_from_csv(
        &mut csvc,
        &mut ssvc,
        &mut osvc,
        Some(&customers),
        Some(sellers),
        Some(orders),
    )
    .unwrap();
    assert_eq!(totals, (3, 2));
}

#[test]
fn full_load_aborts_at_the_first_unopenable_source_keeping_earlier_inserts() {
    let customers = format!("{CUSTOMER_HEADER}\nc1,u1,01310,sao paulo,SP\n");
    let mut csvc = customer_service();
    let mut ssvc = SellerService::new(InMemorySellerRepository::new());
    let mut osvc = OrderService::new(InMemoryOrderRepository::new());
    let r = load_data_from_csv(&mut csvc, &mut ssvc, &mut osvc, Some(&customers), None, None);
    assert!(matches!(r, Err(AppError::ConfigError(_))));
    // the load is best-effort: what the customer run inserted stays
    assert!(csvc.get_customer_by_id("c1").is_ok());
}
