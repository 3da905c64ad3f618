//! Bulk ingestion pipeline: a record source in a comma-separated format
//! is scanned into rows of fields, the first row is taken as a header and
//! skipped, and every following record is dispatched to the resource
//! service one at a time, in source order. Each record is independent: a
//! malformed record or a rejected dispatch adds to the error tally and the
//! run continues. Only failing to open the source aborts a run.
//!
//! The record format: fields are separated by commas and rows by line
//! feeds; a field may be enclosed in double quotes, inside which commas,
//! line feeds and doubled quotes are data; carriage returns outside quotes
//! are ignored; a fully empty line yields no row.

use vstd::prelude::*;
use crate::error::{AppError, AppResult};
use crate::models::{CreateCustomerDto, CreateOrderDto, CreateSellerDto, CustomerView, OrderView, SellerView};
use crate::repository::{
    customer_id_fresh, order_id_fresh, seller_id_fresh, CustomerRepository, OrderRepository,
    SellerRepository,
};
use crate::services::{CustomerService, OrderService, SellerService};

verus! {

// ---------------------------------------------------------------------------
// The scanner's state machine
// ---------------------------------------------------------------------------
/// Scanner mode: inside a quoted field, just past a quote inside a quoted
/// field, or outside quotes.
#[derive(Clone, Copy, Debug)]
pub enum ScanMode {
    Unquoted,
    Quoted,
    Closed,
}

/// Scanner state: finished rows, fields of the unfinished row, the
/// unfinished field, and the mode.
pub struct ScanState {
    pub rows: Seq<Seq<Seq<char>>>,
    pub row: Seq<Seq<char>>,
    pub field: Seq<char>,
    pub mode: ScanMode,
}

/// The scanner's initial state.
pub open spec fn scan_init() -> ScanState {
    ScanState { rows: Seq::empty(), row: Seq::empty(), field: Seq::empty(), mode: ScanMode::Unquoted }
}

/// Appends the unfinished field to the unfinished row and starts a fresh
/// field.
pub open spec fn scan_end_field(st: ScanState) -> ScanState {
    ScanState {
        rows: st.rows,
        row: st.row.push(st.field),
        field: Seq::empty(),
        mode: ScanMode::Unquoted,
    }
}

/// Closes the unfinished row. Outside quotes a fully empty line yields no
/// row; a quoted empty field still counts as a record.
pub open spec fn scan_end_row(st: ScanState, forced: bool) -> ScanState {
    if !forced && st.row.len() == 0 && st.field.len() == 0 {
        ScanState { rows: st.rows, row: Seq::empty(), field: Seq::empty(), mode: ScanMode::Unquoted }
    } else {
        ScanState {
            rows: st.rows.push(st.row.push(st.field)),
            row: Seq::empty(),
            field: Seq::empty(),
            mode: ScanMode::Unquoted,
        }
    }
}

/// One step of the scanner.
pub open spec fn csv_step(st: ScanState, c: char) -> ScanState {
    match st.mode {
        ScanMode::Quoted => if c == '"' {
            ScanState { rows: st.rows, row: st.row, field: st.field, mode: ScanMode::Closed }
        } else {
            ScanState { rows: st.rows, row: st.row, field: st.field.push(c), mode: ScanMode::Quoted }
        },
        ScanMode::Closed => if c == '"' {
            ScanState { rows: st.rows, row: st.row, field: st.field.push(c), mode: ScanMode::Quoted }
        } else if c == ',' {
            scan_end_field(st)
        } else if c == '\n' {
            scan_end_row(st, true)
        } else {
            ScanState {
                rows: st.rows,
                row: st.row,
                field: st.field.push(c),
                mode: ScanMode::Unquoted,
            }
        },
        ScanMode::Unquoted => if c == '"' && st.field.len() == 0 {
            ScanState { rows: st.rows, row: st.row, field: st.field, mode: ScanMode::Quoted }
        } else if c == ',' {
            scan_end_field(st)
        } else if c == '\n' {
            scan_end_row(st, false)
        } else if c == '\r' {
            st
        } else {
            ScanState {
                rows: st.rows,
                row: st.row,
                field: st.field.push(c),
                mode: st.mode,
            }
        },
    }
}

/// The scanner folded over the whole input.
pub open spec fn csv_scan(s: Seq<char>) -> ScanState
    decreases s.len(),
{
    if s.len() == 0 {
        scan_init()
    } else {
        csv_step(csv_scan(s.drop_last()), s.last())
    }
}

/// Flushes whatever trails after the last line feed.
pub open spec fn csv_finalize(st: ScanState) -> Seq<Seq<Seq<char>>> {
    if st.mode matches ScanMode::Unquoted && st.row.len() == 0 && st.field.len() == 0 {
        st.rows
    } else {
        st.rows.push(st.row.push(st.field))
    }
}

/// All rows of the input, header included.
pub open spec fn csv_rows(s: Seq<char>) -> Seq<Seq<Seq<char>>> {
    csv_finalize(csv_scan(s))
}

/// The records of the input: every row after the header row.
pub open spec fn csv_records(s: Seq<char>) -> Seq<Seq<Seq<char>>> {
    let rows = csv_rows(s);
    if rows.len() == 0 {
        Seq::empty()
    } else {
        rows.drop_first()
    }
}

/// Relies on `String::push`: appends the given character to the end of
/// the string.
#[verifier::external_body]
fn push_char(s: &mut String, c: char)
    ensures
        final(s)@ == old(s)@.push(c),
{
    s.push(c);
}

/// The exec mirror of a scanner state.
pub open spec fn scan_abs(
    rows: Vec<Vec<String>>,
    row: Vec<String>,
    field: String,
    mode: ScanMode,
) -> ScanState {
    ScanState { rows: rows.deep_view(), row: row.deep_view(), field: field@, mode: mode }
}

/// Scans the whole input into rows of fields, per the grammar above.
pub fn parse_csv(text: &str) -> (r: Vec<Vec<String>>)
    ensures
        r.deep_view() == csv_rows(text@),
{
    let n = text.unicode_len();
    let mut rows: Vec<Vec<String>> = Vec::new();
    let mut row: Vec<String> = Vec::new();
    let mut field: String = String::new();
    let mut mode: ScanMode = ScanMode::Unquoted;
    proof {
        assert(rows.deep_view() =~= scan_init().rows);
        assert(row.deep_view() =~= scan_init().row);
        assert(field@ =~= scan_init().field);
        assert(text@.take(0) =~= Seq::<char>::empty());
        assert(scan_abs(rows, row, field, mode) == scan_init());
    }
    for i in 0..n
        invariant
            n == text@.len(),
            scan_abs(rows, row, field, mode) == csv_scan(text@.take(i as int)),
    {
        let ghost st_pre = scan_abs(rows, row, field, mode);
        let c = text.get_char(i);
        match mode {
            ScanMode::Quoted => {
                if c == '"' {
                    mode = ScanMode::Closed;
                } else {
                    push_char(&mut field, c);
                }
            },
            ScanMode::Closed => {
                if c == '"' {
                    push_char(&mut field, c);
                    mode = ScanMode::Quoted;
                } else if c == ',' {
                    let ghost fpre = field@;
                    row.push(field);
                    field = String::new();
                    mode = ScanMode::Unquoted;
                    proof {
                        assert(row.deep_view() =~= st_pre.row.push(fpre));
                    }
                } else if c == '\n' {
                    let ghost fpre = field@;
                    row.push(field);
                    field = String::new();
                    proof {
                        assert(row.deep_view() =~= st_pre.row.push(fpre));
                    }
                    let ghost rowspre = rows@;
                    let ghost rowv = row.deep_view();
                    rows.push(row);
                    row = Vec::new();
                    mode = ScanMode::Unquoted;
                    proof {
                        assert forall|j: int| 0 <= j < rows@.len() implies rows.deep_view()[j]
                            == st_pre.rows.push(st_pre.row.push(fpre))[j] by {
                            if j < rows@.len() - 1 {
                                assert(rows@[j] == rowspre[j]);
                            } else {
                                assert(rows@[j].deep_view() == rowv);
                            }
                        }
                        assert(rows.deep_view() =~= st_pre.rows.push(st_pre.row.push(fpre)));
                        assert(row.deep_view() =~= Seq::<Seq<char>>::empty());
                    }
                } else {
                    push_char(&mut field, c);
                    mode = ScanMode::Unquoted;
                }
            },
            ScanMode::Unquoted => {
                if c == '"' {
                    if field.as_str().is_empty() {
                        mode = ScanMode::Quoted;
                    } else {
                        push_char(&mut field, c);
                    }
                } else if c == ',' {
                    let ghost fpre = field@;
                    row.push(field);
                    field = String::new();
                    proof {
                        assert(row.deep_view() =~= st_pre.row.push(fpre));
                    }
                } else if c == '\n' {
                    if row.len() == 0 && field.as_str().is_empty() {
                        proof {
                            assert(row.deep_view() =~= Seq::<Seq<char>>::empty());
                            assert(field@ =~= Seq::<char>::empty());
                        }
                    } else {
                        let ghost fpre = field@;
                        row.push(field);
                        field = String::new();
                        proof {
                            assert(row.deep_view() =~= st_pre.row.push(fpre));
                        }
                        let ghost rowspre = rows@;
                        let ghost rowv = row.deep_view();
                        rows.push(row);
                        row = Vec::new();
                        proof {
                            assert forall|j: int| 0 <= j < rows@.len() implies rows.deep_view()[j]
                                == st_pre.rows.push(st_pre.row.push(fpre))[j] by {
                                if j < rows@.len() - 1 {
                                    assert(rows@[j] == rowspre[j]);
                                } else {
                                    assert(rows@[j].deep_view() == rowv);
                                }
                            }
                            assert(rows.deep_view() =~= st_pre.rows.push(st_pre.row.push(fpre)));
                            assert(row.deep_view() =~= Seq::<Seq<char>>::empty());
                        }
                    }
                } else if c == '\r' {
                } else {
                    push_char(&mut field, c);
                }
            },
        }
        proof {
            assert(text@.take(i + 1).drop_last() =~= text@.take(i as int));
            assert(text@.take(i + 1).last() == text@[i as int]);
            assert(csv_scan(text@.take(i + 1)) == csv_step(
                csv_scan(text@.take(i as int)),
                text@[i as int],
            ));
            assert(scan_abs(rows, row, field, mode) == csv_step(st_pre, text@[i as int]));
        }
    }
    proof {
        assert(text@.take(n as int) =~= text@);
    }
    let ghost st_end = scan_abs(rows, row, field, mode);
    let flush = match mode {
        ScanMode::Unquoted => !(row.len() == 0 && field.as_str().is_empty()),
        ScanMode::Quoted => true,
        ScanMode::Closed => true,
    };
    if flush {
        let ghost fpre = field@;
        row.push(field);
        proof {
            assert(row.deep_view() =~= st_end.row.push(fpre));
        }
        let ghost rowspre = rows@;
        let ghost rowv = row.deep_view();
        rows.push(row);
        proof {
            assert forall|j: int| 0 <= j < rows@.len() implies rows.deep_view()[j]
                == st_end.rows.push(st_end.row.push(fpre))[j] by {
                if j < rows@.len() - 1 {
                    assert(rows@[j] == rowspre[j]);
                } else {
                    assert(rows@[j].deep_view() == rowv);
                }
            }
            assert(rows.deep_view() =~= st_end.rows.push(st_end.row.push(fpre)));
            assert(rows.deep_view() == csv_finalize(st_end));
        }
    } else {
        proof {
            assert(rows.deep_view() == csv_finalize(st_end));
        }
    }
    rows
}

// ---------------------------------------------------------------------------
// Records to DTOs
// ---------------------------------------------------------------------------
/// The customer a record's fields describe, positionally.
pub open spec fn customer_record_view(f: Seq<Seq<char>>) -> CustomerView
    recommends
        f.len() == 5,
{
    CustomerView {
        customer_id: f[0],
        customer_unique_id: f[1],
        customer_zip_code_prefix: f[2],
        customer_city: f[3],
        customer_state: f[4],
    }
}

/// Parses one customer record; a record of the wrong width is malformed.
pub fn parse_customer_record(fields: &Vec<String>) -> (r: Option<CreateCustomerDto>)
    ensures
        fields.deep_view().len() == 5 ==> (r matches Some(d) && d@ == customer_record_view(
            fields.deep_view(),
        )),
        fields.deep_view().len() != 5 ==> r is None,
{
    if fields.len() == 5 {
        Some(
            CreateCustomerDto {
                customer_id: fields[0].clone(),
                customer_unique_id: fields[1].clone(),
                customer_zip_code_prefix: fields[2].clone(),
                customer_city: fields[3].clone(),
                customer_state: fields[4].clone(),
            },
        )
    } else {
        None
    }
}

/// The seller a record's fields describe, positionally.
pub open spec fn seller_record_view(f: Seq<Seq<char>>) -> SellerView
    recommends
        f.len() == 4,
{
    SellerView {
        seller_id: f[0],
        seller_zip_code_prefix: f[1],
        seller_city: f[2],
        seller_state: f[3],
    }
}

/// Parses one seller record; a record of the wrong width is malformed.
pub fn parse_seller_record(fields: &Vec<String>) -> (r: Option<CreateSellerDto>)
    ensures
        fields.deep_view().len() == 4 ==> (r matches Some(d) && d@ == seller_record_view(
            fields.deep_view(),
        )),
        fields.deep_view().len() != 4 ==> r is None,
{
    if fields.len() == 4 {
        Some(
            CreateSellerDto {
                seller_id: fields[0].clone(),
                seller_zip_code_prefix: fields[1].clone(),
                seller_city: fields[2].clone(),
                seller_state: fields[3].clone(),
            },
        )
    } else {
        None
    }
}

/// The order a record's fields describe, positionally.
pub open spec fn order_record_view(f: Seq<Seq<char>>) -> OrderView
    recommends
        f.len() == 8,
{
    OrderView {
        order_id: f[0],
        customer_id: f[1],
        order_status: f[2],
        order_purchase_timestamp: f[3],
        order_approved_at: f[4],
        order_delivered_carrier_date: f[5],
        order_delivered_customer_date: f[6],
        order_estimated_delivery_date: f[7],
    }
}

/// Parses one order record; a record of the wrong width is malformed.
pub fn parse_order_record(fields: &Vec<String>) -> (r: Option<CreateOrderDto>)
    ensures
        fields.deep_view().len() == 8 ==> (r matches Some(d) && d@ == order_record_view(
            fields.deep_view(),
        )),
        fields.deep_view().len() != 8 ==> r is None,
{
    if fields.len() == 8 {
        Some(
            CreateOrderDto {
                order_id: fields[0].clone(),
                customer_id: fields[1].clone(),
                order_status: fields[2].clone(),
                order_purchase_timestamp: fields[3].clone(),
                order_approved_at: fields[4].clone(),
                order_delivered_carrier_date: fields[5].clone(),
                order_delivered_customer_date: fields[6].clone(),
                order_estimated_delivery_date: fields[7].clone(),
            },
        )
    } else {
        None
    }
}

// ---------------------------------------------------------------------------
// One ingestion run, as a fold over the records
// ---------------------------------------------------------------------------
/// Whether dispatching this customer record to a store in state `store`
/// succeeds: right width, valid payload, fresh identifier.
pub open spec fn customer_record_ok(store: Seq<CustomerView>, rec: Seq<Seq<char>>) -> bool {
    &&& rec.len() == 5
    &&& rec[0].len() > 0
    &&& rec[1].len() > 0
    &&& rec[2].len() > 0
    &&& rec[3].len() > 0
    &&& rec[4].len() > 0
    &&& customer_id_fresh(store, rec[0])
}

/// The store, success count and error count after dispatching every
/// record in source order.
pub open spec fn run_customer_ingest(store: Seq<CustomerView>, recs: Seq<Seq<Seq<char>>>) -> (
    Seq<CustomerView>,
    int,
    int,
)
    decreases recs.len(),
{
    if recs.len() == 0 {
        (store, 0, 0)
    } else {
        let prev = run_customer_ingest(store, recs.drop_last());
        let rec = recs.last();
        if customer_record_ok(prev.0, rec) {
            (prev.0.push(customer_record_view(rec)), prev.1 + 1, prev.2)
        } else {
            (prev.0, prev.1, prev.2 + 1)
        }
    }
}

/// Whether dispatching this seller record succeeds.
pub open spec fn seller_record_ok(store: Seq<SellerView>, rec: Seq<Seq<char>>) -> bool {
    &&& rec.len() == 4
    &&& rec[0].len() > 0
    &&& rec[1].len() > 0
    &&& rec[2].len() > 0
    &&& rec[3].len() > 0
    &&& seller_id_fresh(store, rec[0])
}

/// The seller store and tallies after one run.
pub open spec fn run_seller_ingest(store: Seq<SellerView>, recs: Seq<Seq<Seq<char>>>) -> (
    Seq<SellerView>,
    int,
    int,
)
    decreases recs.len(),
{
    if recs.len() == 0 {
        (store, 0, 0)
    } else {
        let prev = run_seller_ingest(store, recs.drop_last());
        let rec = recs.last();
        if seller_record_ok(prev.0, rec) {
            (prev.0.push(seller_record_view(rec)), prev.1 + 1, prev.2)
        } else {
            (prev.0, prev.1, prev.2 + 1)
        }
    }
}

/// Whether dispatching this order record succeeds: right width, the
/// required fields present, fresh identifier. The delivery timeline
/// fields may be empty.
pub open spec fn order_record_ok(store: Seq<OrderView>, rec: Seq<Seq<char>>) -> bool {
    &&& rec.len() == 8
    &&& rec[0].len() > 0
    &&& rec[1].len() > 0
    &&& rec[2].len() > 0
    &&& order_id_fresh(store, rec[0])
}

/// The order store and tallies after one run.
pub open spec fn run_order_ingest(store: Seq<OrderView>, recs: Seq<Seq<Seq<char>>>) -> (
    Seq<OrderView>,
    int,
    int,
)
    decreases recs.len(),
{
    if recs.len() == 0 {
        (store, 0, 0)
    } else {
        let prev = run_order_ingest(store, recs.drop_last());
        let rec = recs.last();
        if order_record_ok(prev.0, rec) {
            (prev.0.push(order_record_view(rec)), prev.1 + 1, prev.2)
        } else {
            (prev.0, prev.1, prev.2 + 1)
        }
    }
}

// ---------------------------------------------------------------------------
// The runs themselves
// ---------------------------------------------------------------------------
/// Ingests customer records from an already-read source. `None` stands
/// for a source that could not be opened: the one fatal condition, which
/// aborts before any record is processed.
pub fn ingest_customers<R: CustomerRepository>(
    service: &mut CustomerService<R>,
    source: Option<&str>,
) -> (r: AppResult<(usize, usize)>)
    ensures
        source is None ==> (r matches Err(e) && e matches AppError::ConfigError(m) && m@
            == "failed to open record source"@ && final(service).repository.customers() == old(
            service,
        ).repository.customers()),
        source matches Some(text) ==> ({
            let outcome = run_customer_ingest(
                old(service).repository.customers(),
                csv_records(text@),
            );
            &&& r matches Ok(counts)
            &&& counts.0 == outcome.1
            &&& counts.1 == outcome.2
            &&& final(service).repository.customers() == outcome.0
        }),
{
    let text = match source {
        Some(t) => t,
        None => {
            return Err(AppError::ConfigError(String::from_str("failed to open record source")));
        },
    };
    let rows = parse_csv(text);
    if rows.len() == 0 {
        return Ok((0, 0));
    }
    let m = rows.len() - 1;
    let ghost recs = csv_records(text@);
    proof {
        assert(recs == rows.deep_view().drop_first());
        assert(recs.len() == m);
    }
    let mut success_count: usize = 0;
    let mut error_count: usize = 0;
    for j in 0..m
        invariant
            m == rows@.len() - 1,
            recs == csv_records(text@),
            recs == rows.deep_view().drop_first(),
            recs.len() == m,
            success_count <= j,
            error_count <= j,
            ({
                let outcome = run_customer_ingest(
                    old(service).repository.customers(),
                    recs.take(j as int),
                );
                &&& service.repository.customers() == outcome.0
                &&& success_count == outcome.1
                &&& error_count == outcome.2
            }),
    {
        proof {
            assert(recs.take(j + 1).drop_last() =~= recs.take(j as int));
            assert(recs.take(j + 1).last() == recs[j as int]);
            assert(recs[j as int] == rows.deep_view()[j + 1]);
        }
        let rec = &rows[j + 1];
        match parse_customer_record(rec) {
            Some(dto) => {
                match service.create_customer(dto) {
                    Ok(_) => {
                        success_count = success_count + 1;
                    },
                    Err(_) => {
                        error_count = error_count + 1;
                    },
                }
            },
            None => {
                error_count = error_count + 1;
            },
        }
    }
    proof {
        assert(recs.take(m as int) =~= recs);
    }
    Ok((success_count, error_count))
}

/// Ingests seller records from an already-read source.
pub fn ingest_sellers<R: SellerRepository>(
    service: &mut SellerService<R>,
    source: Option<&str>,
) -> (r: AppResult<(usize, usize)>)
    ensures
        source is None ==> (r matches Err(e) && e matches AppError::ConfigError(m) && m@
            == "failed to open record source"@ && final(service).repository.sellers() == old(
            service,
        ).repository.sellers()),
        source matches Some(text) ==> ({
            let outcome = run_seller_ingest(old(service).repository.sellers(), csv_records(text@));
            &&& r matches Ok(counts)
            &&& counts.0 == outcome.1
            &&& counts.1 == outcome.2
            &&& final(service).repository.sellers() == outcome.0
        }),
{
    let text = match source {
        Some(t) => t,
        None => {
            return Err(AppError::ConfigError(String::from_str("failed to open record source")));
        },
    };
    let rows = parse_csv(text);
    if rows.len() == 0 {
        return Ok((0, 0));
    }
    let m = rows.len() - 1;
    let ghost recs = csv_records(text@);
    proof {
        assert(recs == rows.deep_view().drop_first());
        assert(recs.len() == m);
    }
    let mut success_count: usize = 0;
    let mut error_count: usize = 0;
    for j in 0..m
        invariant
            m == rows@.len() - 1,
            recs == csv_records(text@),
            recs == rows.deep_view().drop_first(),
            recs.len() == m,
            success_count <= j,
            error_count <= j,
            ({
                let outcome = run_seller_ingest(
                    old(service).repository.sellers(),
                    recs.take(j as int),
                );
                &&& service.repository.sellers() == outcome.0
                &&& success_count == outcome.1
                &&& error_count == outcome.2
            }),
    {
        proof {
            assert(recs.take(j + 1).drop_last() =~= recs.take(j as int));
            assert(recs.take(j + 1).last() == recs[j as int]);
            assert(recs[j as int] == rows.deep_view()[j + 1]);
        }
        let rec = &rows[j + 1];
        match parse_seller_record(rec) {
            Some(dto) => {
                match service.create_seller(dto) {
                    Ok(_) => {
                        success_count = success_count + 1;
                    },
                    Err(_) => {
                        error_count = error_count + 1;
                    },
                }
            },
            None => {
                error_count = error_count + 1;
            },
        }
    }
    proof {
        assert(recs.take(m as int) =~= recs);
    }
    Ok((success_count, error_count))
}

/// Ingests order records from an already-read source.
pub fn ingest_orders<R: OrderRepository>(
    service: &mut OrderService<R>,
    source: Option<&str>,
) -> (r: AppResult<(usize, usize)>)
    ensures
        source is None ==> (r matches Err(e) && e matches AppError::ConfigError(m) && m@
            == "failed to open record source"@ && final(service).repository.orders() == old(
            service,
        ).repository.orders()),
        source matches Some(text) ==> ({
            let outcome = run_order_ingest(old(service).repository.orders(), csv_records(text@));
            &&& r matches Ok(counts)
            &&& counts.0 == outcome.1
            &&& counts.1 == outcome.2
            &&& final(service).repository.orders() == outcome.0
        }),
{
    let text = match source {
        Some(t) => t,
        None => {
            return Err(AppError::ConfigError(String::from_str("failed to open record source")));
        },
    };
    let rows = parse_csv(text);
    if rows.len() == 0 {
        return Ok((0, 0));
    }
    let m = rows.len() - 1;
    let ghost recs = csv_records(text@);
    proof {
        assert(recs == rows.deep_view().drop_first());
        assert(recs.len() == m);
    }
    let mut success_count: usize = 0;
    let mut error_count: usize = 0;
    for j in 0..m
        invariant
            m == rows@.len() - 1,
            recs == csv_records(text@),
            recs == rows.deep_view().drop_first(),
            recs.len() == m,
            success_count <= j,
            error_count <= j,
            ({
                let outcome = run_order_ingest(
                    old(service).repository.orders(),
                    recs.take(j as int),
                );
                &&& service.repository.orders() == outcome.0
                &&& success_count == outcome.1
                &&& error_count == outcome.2
            }),
    {
        proof {
            assert(recs.take(j + 1).drop_last() =~= recs.take(j as int));
            assert(recs.take(j + 1).last() == recs[j as int]);
            assert(recs[j as int] == rows.deep_view()[j + 1]);
        }
        let rec = &rows[j + 1];
        match parse_order_record(rec) {
            Some(dto) => {
                match service.create_order(dto) {
                    Ok(_) => {
                        success_count = success_count + 1;
                    },
                    Err(_) => {
                        error_count = error_count + 1;
                    },
                }
            },
            None => {
                error_count = error_count + 1;
            },
        }
    }
    proof {
        assert(recs.take(m as int) =~= recs);
    }
    Ok((success_count, error_count))
}

/// One full load: customers, then sellers, then orders, each from its own
/// source, summing the tallies. A source that cannot be opened aborts the
/// load at that point; what earlier sources inserted stays (the load is
/// best-effort, not transactional).
pub fn load_data_from_csv<RC: CustomerRepository, RS: SellerRepository, RO: OrderRepository>(
    customer_service: &mut CustomerService<RC>,
    seller_service: &mut SellerService<RS>,
    order_service: &mut OrderService<RO>,
    customers_source: Option<&str>,
    sellers_source: Option<&str>,
    orders_source: Option<&str>,
) -> (r: AppResult<(u128, u128)>)
    ensures
        customers_source is None ==> (r matches Err(e) && e matches AppError::ConfigError(_)
            && final(customer_service).repository.customers() == old(
            customer_service,
        ).repository.customers() && final(seller_service).repository.sellers() == old(
            seller_service,
        ).repository.sellers() && final(order_service).repository.orders() == old(
            order_service,
        ).repository.orders()),
        customers_source is Some && sellers_source is None ==> (r matches Err(e) && e matches
            AppError::ConfigError(_) && final(customer_service).repository.customers()
            == run_customer_ingest(
            old(customer_service).repository.customers(),
            csv_records(customers_source.unwrap()@),
        ).0 && final(seller_service).repository.sellers() == old(
            seller_service,
        ).repository.sellers() && final(order_service).repository.orders() == old(
            order_service,
        ).repository.orders()),
        customers_source is Some && sellers_source is Some && orders_source is None ==> (r matches
            Err(e) && e matches AppError::ConfigError(_)
            && final(customer_service).repository.customers() == run_customer_ingest(
            old(customer_service).repository.customers(),
            csv_records(customers_source.unwrap()@),
        ).0 && final(seller_service).repository.sellers() == run_seller_ingest(
            old(seller_service).repository.sellers(),
            csv_records(sellers_source.unwrap()@),
        ).0 && final(order_service).repository.orders() == old(
            order_service,
        ).repository.orders()),
        customers_source is Some && sellers_source is Some && orders_source is Some ==> ({
            let c = run_customer_ingest(
                old(customer_service).repository.customers(),
                csv_records(customers_source.unwrap()@),
            );
            let s = run_seller_ingest(
                old(seller_service).repository.sellers(),
                csv_records(sellers_source.unwrap()@),
            );
            let o = run_order_ingest(
                old(order_service).repository.orders(),
                csv_records(orders_source.unwrap()@),
            );
            &&& r matches Ok(totals)
            &&& totals.0 == c.1 + s.1 + o.1
            &&& totals.1 == c.2 + s.2 + o.2
            &&& final(customer_service).repository.customers() == c.0
            &&& final(seller_service).repository.sellers() == s.0
            &&& final(order_service).repository.orders() == o.0
        }),
{
    let (cs, ce) = match ingest_customers(customer_service, customers_source) {
        Ok(t) => t,
        Err(e) => {
            return Err(e);
        },
    };
    let (ss, se) = match ingest_sellers(seller_service, sellers_source) {
        Ok(t) => t,
        Err(e) => {
            return Err(e);
        },
    };
    let (os, oe) = match ingest_orders(order_service, orders_source) {
        Ok(t) => t,
        Err(e) => {
            return Err(e);
        },
    };
    Ok(((cs as u128) + (ss as u128) + (os as u128), (ce as u128) + (se as u128) + (oe as u128)))
}

} // verus!
