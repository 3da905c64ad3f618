use store_core::pagination::{PaginationParams, DEFAULT_PAGE_SIZE, MAX_PAGE_SIZE};
use store_core::response::PaginatedResponse;

fn params(page: Option<i32>, page_size: Option<i32>) -> PaginationParams {
    PaginationParams { page, page_size }
}

#[test]
fn negative_page_becomes_one() {
    let (limit, offset, page, page_size) = params(Some(-5), Some(20)).normalize();
    assert_eq!(page, 1);
    assert_eq!(offset, 0);
    assert_eq!(limit, 20);
    assert_eq!(page_size, 20);
}

#[test]
fn zero_page_becomes_one() {
    let (_, offset, page, _) = params(Some(0), Some(10)).normalize();
    assert_eq!(page, 1);
    assert_eq!(offset, 0);
}

#[test]
fn unset_page_becomes_one() {
    let (_, offset, page, _) = params(None, None).normalize();
    assert_eq!(page, 1);
    assert_eq!(offset, 0);
}

#[test]
fn oversized_page_size_clamps_to_max() {
    let (limit, _, _, page_size) = params(Some(1), Some(MAX_PAGE_SIZE + 900)).normalize();
    assert_eq!(page_size, MAX_PAGE_SIZE);
    assert_eq!(limit, MAX_PAGE_SIZE as i64);
}

#[test]
fn zero_page_size_uses_default() {
    let (limit, _, _, page_size) = params(Some(1), Some(0)).normalize();
    assert_eq!(page_size, DEFAULT_PAGE_SIZE);
    assert_eq!(limit, DEFAULT_PAGE_SIZE as i64);
}

#[test]
fn negative_page_size_uses_default() {
    let (_, _, _, page_size) = params(Some(1), Some(-3)).normalize();
    assert_eq!(page_size, DEFAULT_PAGE_SIZE);
}

#[test]
fn unset_page_size_uses_default() {
    let (_, _, _, page_size) = params(Some(2), None).normalize();
    assert_eq!(page_size, DEFAULT_PAGE_SIZE);
}

#[test]
fn offset_is_page_minus_one_times_page_size() {
    let (limit, offset, page, page_size) = params(Some(7), Some(25)).normalize();
    assert_eq!(page, 7);
    assert_eq!(page_size, 25);
    assert_eq!(limit, 25);
    assert_eq!(offset, 6 * 25);
}

#[test]
fn offset_never_negative_for_any_input() {
    for page in [Some(i32::MIN), Some(-1), Some(0), Some(1), None] {
        for size in [Some(i32::MIN), Some(-1), Some(0), Some(1), Some(i32::MAX), None] {
            let (limit, offset, p, ps) = params(page, size).normalize();
            assert!(offset >= 0);
            assert!(limit >= 1);
            assert!(p >= 1);
            assert!((1..=MAX_PAGE_SIZE).contains(&ps));
        }
    }
}

#[test]
fn total_pages_is_ceiling_of_records_over_page_size() {
    let cases: [(u64, i32, u64); 6] =
        [(0, 10, 0), (1, 10, 1), (9, 10, 1), (10, 10, 1), (11, 10, 2), (101, 10, 11)];
    for (total, size, expected) in cases {
        let resp: PaginatedResponse<i32> = PaginatedResponse::new(Vec::new(), total, 1, size);
        assert_eq!(resp.total_pages, expected, "total={total} size={size}");
    }
}

#[test]
fn total_pages_zero_iff_no_records() {
    for total in 0u64..50 {
        for size in [1i32, 3, 10, 100] {
            let resp: PaginatedResponse<i32> = PaginatedResponse::new(Vec::new(), total, 1, size);
            assert_eq!(resp.total_pages == 0, total == 0);
        }
    }
}
