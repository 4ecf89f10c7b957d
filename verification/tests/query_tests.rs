use inevents::events::ohlc::{
    ohlc_bars, parse_ohlc_request, OhlcBar, OhlcEndpoint, OhlcRequest, OhlcResolution, OhlcRow, RankedPrice,
    MAX_COUNT_BACK,
};
use inevents::events::pagination::{
    block_height_page, get_pagination_params, involved_accounts_condition, split_comma_list, time_page,
    InvolvedAccounts, PageBound, PaginationBy, PaginationParameters, PaginationTimestamp, SortOrder,
};

fn s(x: &str) -> String {
    x.to_string()
}

fn params(limit: usize, by: PaginationBy) -> PaginationParameters {
    PaginationParameters { limit, pagination_by: by }
}

#[test]
fn pagination_by_timestamp() {
    let v = get_pagination_params(&params(50, PaginationBy::BeforeTimestamp { timestamp_nanosec: 1_700_000_000_123_456_789 }));
    assert_eq!(v.limit, 50);
    assert_eq!(v.id, None);
    assert_eq!(v.timestamp, PaginationTimestamp::At { secs: 1_700_000_000, nanos: 123_456_789 });
    let w = get_pagination_params(&params(1, PaginationBy::AfterTimestamp { timestamp_nanosec: 0 }));
    assert_eq!(w.timestamp, PaginationTimestamp::At { secs: 0, nanos: 0 });
}

#[test]
fn pagination_by_block_and_id() {
    let v = get_pagination_params(&params(10, PaginationBy::AfterBlockHeight { block_height: 120_000_000 }));
    assert_eq!(v.timestamp, PaginationTimestamp::AtBlock { block_height: 120_000_000 });
    assert_eq!(v.id, None);
    let w = get_pagination_params(&params(10, PaginationBy::BeforeId { id: 42 }));
    assert_eq!(w.timestamp, PaginationTimestamp::Unbounded);
    assert_eq!(w.id, Some(42));
    let n = get_pagination_params(&params(3, PaginationBy::Newest));
    assert_eq!(n.timestamp, PaginationTimestamp::Unbounded);
    assert_eq!(n.id, None);
    assert_eq!(n.limit, 3);
}

#[test]
fn page_bounds_and_orders() {
    assert_eq!(time_page(PaginationBy::BeforeBlockHeight { block_height: 1 }), (PageBound::TimestampBefore, SortOrder::Descending));
    assert_eq!(time_page(PaginationBy::AfterTimestamp { timestamp_nanosec: 1 }), (PageBound::TimestampAfter, SortOrder::Ascending));
    assert_eq!(time_page(PaginationBy::AfterId { id: 1 }), (PageBound::IdAfter, SortOrder::Ascending));
    assert_eq!(time_page(PaginationBy::Oldest), (PageBound::Unbounded, SortOrder::Ascending));
    assert_eq!(time_page(PaginationBy::Newest), (PageBound::Unbounded, SortOrder::Descending));
    assert_eq!(block_height_page(PaginationBy::BeforeBlockHeight { block_height: 1 }), (PageBound::BlockHeightBefore, SortOrder::Descending));
    assert_eq!(block_height_page(PaginationBy::AfterBlockHeight { block_height: 1 }), (PageBound::BlockHeightAfter, SortOrder::Ascending));
    assert_eq!(block_height_page(PaginationBy::BeforeId { id: 1 }), (PageBound::IdBefore, SortOrder::Descending));
}

#[test]
fn involved_account_lists() {
    assert_eq!(split_comma_list("a.near,b.near,,c"), vec![s("a.near"), s("b.near"), s(""), s("c")]);
    assert_eq!(split_comma_list(""), vec![s("")]);
    assert!(matches!(involved_accounts_condition(&None), InvolvedAccounts::Any));
    match involved_accounts_condition(&Some(s("alice.near"))) {
        InvolvedAccounts::Either(a) => assert_eq!(a, "alice.near"),
        other => panic!("unexpected {other:?}"),
    }
    match involved_accounts_condition(&Some(s("alice.near,bob.near"))) {
        InvolvedAccounts::Between(a, b) => {
            assert_eq!(a, "alice.near");
            assert_eq!(b, "bob.near");
        }
        other => panic!("unexpected {other:?}"),
    }
    assert!(matches!(involved_accounts_condition(&Some(s("a,b,c"))), InvolvedAccounts::Never));
}

fn query(pairs: &[(&str, &str)]) -> Vec<(String, String)> {
    pairs.iter().map(|(k, v)| (s(k), s(v))).collect()
}

fn refused(pairs: &[(&str, &str)]) -> String {
    match parse_ohlc_request(&query(pairs)) {
        Ok(r) => panic!("accepted {r:?}"),
        Err(m) => m,
    }
}

#[test]
fn ohlc_resolution_names() {
    assert_eq!(OhlcResolution::from_str("1"), Ok(OhlcResolution::OneMinute));
    assert_eq!(OhlcResolution::from_str("60"), Ok(OhlcResolution::OneHour));
    assert_eq!(OhlcResolution::from_str("5"), Err(()));
    assert_eq!(OhlcResolution::from_str(""), Err(()));
    assert_eq!(OhlcResolution::from_str("600"), Err(()));
    assert_eq!(OhlcEndpoint.name(), "ohlc");
}

#[test]
fn ohlc_request_accepted() {
    let r: OhlcRequest = parse_ohlc_request(&query(&[
        ("token", "wrap.near"),
        ("resolution", "60"),
        ("count_back", "+300"),
        ("to", "1700000000000"),
    ]))
    .unwrap();
    assert_eq!(r.token, "wrap.near");
    assert_eq!(r.resolution, OhlcResolution::OneHour);
    assert_eq!(r.count_back, 300);
    assert_eq!(r.to_millis, 1_700_000_000_000);
    assert_eq!(r.row_limit(), 301);
    let edge = parse_ohlc_request(&query(&[
        ("to", "-5"),
        ("count_back", "1000"),
        ("resolution", "1"),
        ("token", "a1"),
    ]))
    .unwrap();
    assert_eq!(edge.count_back, MAX_COUNT_BACK);
    assert_eq!(edge.to_millis, -5);
}

#[test]
fn ohlc_request_refusals() {
    assert_eq!(refused(&[]), "token is required");
    assert_eq!(refused(&[("token", "Wrap.near")]), "invalid token");
    assert_eq!(refused(&[("token", "a")]), "invalid token");
    assert_eq!(refused(&[("token", "a..b")]), "invalid token");
    assert_eq!(refused(&[("token", "wrap.near")]), "resolution is required");
    assert_eq!(refused(&[("token", "wrap.near"), ("resolution", "5")]), "invalid resolution");
    assert_eq!(refused(&[("token", "wrap.near"), ("resolution", "1")]), "count_back is required");
    assert_eq!(
        refused(&[("token", "wrap.near"), ("resolution", "1"), ("count_back", "-1")]),
        "invalid count_back"
    );
    assert_eq!(
        refused(&[("token", "wrap.near"), ("resolution", "1"), ("count_back", "1001")]),
        "count_back must be less than or equal to 1000"
    );
    assert_eq!(
        refused(&[("token", "wrap.near"), ("resolution", "1"), ("count_back", "10")]),
        "to is required"
    );
    assert_eq!(
        refused(&[("token", "wrap.near"), ("resolution", "1"), ("count_back", "10"), ("to", "soon")]),
        "invalid to"
    );
    // A number of milliseconds outside the range of dates.
    assert_eq!(
        refused(&[("token", "wrap.near"), ("resolution", "1"), ("count_back", "10"), ("to", "9223372036854775807")]),
        "invalid to"
    );
}

fn price(rank: u64, text: &str) -> Option<RankedPrice> {
    Some(RankedPrice { rank, text: s(text) })
}

fn bar(b: &OhlcBar) -> (i64, &str, &str, &str, &str) {
    (b.time_millis, b.open.as_str(), b.high.as_str(), b.low.as_str(), b.close.as_str())
}

#[test]
fn ohlc_candles() {
    let zero = RankedPrice { rank: 0, text: s("0") };
    assert!(ohlc_bars(&vec![], &zero).is_empty());
    let only = vec![OhlcRow { bucket_millis: Some(300), high: price(11, "11"), low: price(9, "9"), close: price(10, "10") }];
    assert!(ohlc_bars(&only, &zero).is_empty());
    let rows = vec![
        OhlcRow { bucket_millis: Some(300), high: price(11, "11"), low: price(9, "9"), close: price(10, "10") },
        OhlcRow { bucket_millis: Some(200), high: price(12, "12"), low: price(8, "8"), close: price(9, "9") },
        OhlcRow { bucket_millis: None, high: None, low: price(7, "7"), close: None },
    ];
    let bars = ohlc_bars(&rows, &zero);
    assert_eq!(bars.len(), 2);
    // Opened at the close of the newer row; high and low take it into account.
    assert_eq!(bar(&bars[0]), (200, "10", "12", "8", "9"));
    // A missing high counts as zero, a missing bucket as the epoch.
    assert_eq!(bar(&bars[1]), (0, "9", "9", "7", "0"));
    // Each candle opens at the close of the one before it.
    assert_eq!(bars[1].open, bars[0].close);
}

#[test]
fn ohlc_candle_ties() {
    let zero = RankedPrice { rank: 0, text: s("0") };
    let rows = vec![
        OhlcRow { bucket_millis: Some(2), high: None, low: None, close: price(5, "5") },
        OhlcRow { bucket_millis: Some(1), high: price(5, "5.0"), low: price(5, "5.00"), close: price(5, "5") },
    ];
    let bars = ohlc_bars(&rows, &zero);
    // On equal prices the high is the open and the low is the row's low.
    assert_eq!(bar(&bars[0]), (1, "5", "5", "5.00", "5"));
}

fn to_refused(to: &str) -> bool {
    parse_ohlc_request(&query(&[("token", "wrap.near"), ("resolution", "1"), ("count_back", "1"), ("to", to)])).is_err()
}

#[test]
fn ohlc_to_range_edges() {
    assert!(!to_refused("-8334601228800000"));
    assert!(to_refused("-8334601228800001"));
    assert!(!to_refused("8210266876799999"));
    assert!(to_refused("8210266876800000"));
}

#[test]
fn pagination_timestamp_range_edges() {
    let last: u128 = 8_210_266_876_799 * 1_000_000_000 + 999_999_999;
    let v = get_pagination_params(&params(1, PaginationBy::BeforeTimestamp { timestamp_nanosec: last }));
    assert_eq!(v.timestamp, PaginationTimestamp::At { secs: 8_210_266_876_799, nanos: 999_999_999 });
    let w = get_pagination_params(&params(1, PaginationBy::BeforeTimestamp { timestamp_nanosec: last + 1 }));
    assert_eq!(w.timestamp, PaginationTimestamp::OutOfRange);
}
