use inevents::events::ft::DbFtTransferFilter;
use inevents::events::log::DbLogTextFilter;
use inevents::events::pagination::{PageBound, PaginationBy, PaginationParameters, PaginationTimestamp, SortOrder};
use inevents::events::potlock::DbPotlockPotDonationFilter;
use inevents::events::price::DbPricePoolFilter;
use inevents::events::queries::{
    ft_transfer_from_row, pot_donation_from_row, BoundValue, Condition, FtTransferRow, PotDonationRow,
};
use inevents::events::tps::DbBlockInfoFilter;

fn st(x: &str) -> String {
    x.to_string()
}

fn page(limit: usize, by: PaginationBy) -> PaginationParameters {
    PaginationParameters { limit, pagination_by: by }
}

fn text_is(c: &Condition) -> Option<(&str, &str)> {
    match c {
        Condition::TextIs { column, value } => Some((column.as_str(), value.as_str())),
        _ => None,
    }
}

#[test]
fn pot_donation_page() {
    let filter = DbPotlockPotDonationFilter { pot_id: Some(st("pot.near")), donor_id: None, referrer_id: Some(st("ref.near")) };
    let q = filter.page_query(&page(20, PaginationBy::BeforeBlockHeight { block_height: 100 }));
    assert_eq!(q.table, "potlock_pot_donation");
    assert_eq!(q.order_column, "timestamp");
    // A block height bound is the time of that block.
    assert_eq!(q.bound, PageBound::TimestampBefore);
    assert_eq!(q.bound_value, BoundValue::Timestamp(PaginationTimestamp::AtBlock { block_height: 100 }));
    assert_eq!(q.order, SortOrder::Descending);
    assert_eq!(q.limit, 20);
    let conds: Vec<_> = q.conditions.iter().map(text_is).collect();
    assert_eq!(conds, vec![Some(("pot_id", "pot.near")), Some(("referrer_id", "ref.near"))]);
}

#[test]
fn price_pool_page() {
    let filter = DbPricePoolFilter { pool_id: None, involved_token_account_ids: Some(st("wrap.near,usdt.near")) };
    let q = filter.page_query(&page(5, PaginationBy::AfterBlockHeight { block_height: 7 }));
    assert_eq!(q.table, "price_pool");
    assert_eq!(q.order_column, "id");
    assert_eq!(q.bound, PageBound::BlockHeightAfter);
    assert_eq!(q.bound_value, BoundValue::BlockHeight(7));
    assert_eq!(q.order, SortOrder::Ascending);
    assert_eq!(q.conditions.len(), 1);
    match &q.conditions[0] {
        Condition::ColumnsHoldAll { first, second, values } => {
            assert_eq!((first.as_str(), second.as_str()), ("token0", "token1"));
            assert_eq!(values, &vec![st("wrap.near"), st("usdt.near")]);
        }
        other => panic!("unexpected {other:?}"),
    }
}

#[test]
fn log_text_and_block_pages() {
    let q = DbLogTextFilter { account_id: None, predecessor_id: None }.page_query(&page(3, PaginationBy::AfterId { id: 9 }));
    assert_eq!(q.bound, PageBound::IdAfter);
    assert_eq!(q.bound_value, BoundValue::Id(9));
    assert!(q.conditions.is_empty());
    let newest = DbLogTextFilter { account_id: None, predecessor_id: None }.page_query(&page(3, PaginationBy::Newest));
    assert_eq!((newest.bound, newest.bound_value, newest.order), (PageBound::Unbounded, BoundValue::Nothing, SortOrder::Descending));
    let blocks = DbBlockInfoFilter { block_height: Some(12), block_hash: None, block_producer: None };
    assert_eq!(blocks.page_query(&page(1, PaginationBy::Oldest), true).table, "block_info_testnet");
    let q = blocks.page_query(&page(1, PaginationBy::Oldest), false);
    assert_eq!(q.table, "block_info");
    assert!(matches!(&q.conditions[0], Condition::IntIs { column, value: 12 } if column == "block_height"));
}

fn transfer_filter(involved: Option<&str>) -> DbFtTransferFilter {
    DbFtTransferFilter {
        token_id: None,
        old_owner_id: None,
        new_owner_id: None,
        involved_account_ids: involved.map(st),
        amount: Some(5),
        min_amount: Some(2),
    }
}

#[test]
fn ft_transfer_involved_accounts() {
    let by = PaginationBy::AfterTimestamp { timestamp_nanosec: 1_000_000_001 };
    let q = transfer_filter(None).page_query(&page(10, by));
    assert_eq!(q.bound_value, BoundValue::Timestamp(PaginationTimestamp::At { secs: 1, nanos: 1 }));
    assert!(matches!(&q.conditions[..], [Condition::AmountIs { value: 5, .. }, Condition::AmountAtLeast { value: 2, .. }]));
    let one = transfer_filter(Some("alice.near")).page_query(&page(10, by));
    assert!(matches!(&one.conditions[1], Condition::EitherColumnIs { first, second, value }
        if first == "old_owner_id" && second == "new_owner_id" && value == "alice.near"));
    let two = transfer_filter(Some("alice.near,bob.near")).page_query(&page(10, by));
    assert!(matches!(&two.conditions[1], Condition::ColumnsArePair { a, b, .. } if a == "alice.near" && b == "bob.near"));
    let three = transfer_filter(Some("a,b,c")).page_query(&page(10, by));
    assert!(matches!(&three.conditions[1], Condition::Never));
}

#[test]
fn stored_rows() {
    let (id, e) = ft_transfer_from_row(FtTransferRow {
        id: 42,
        timestamp_nanos: 1_700_000_000_000_000_000,
        block_height: 120,
        token_id: st("usdt.near"),
        old_owner_id: st("alice.near"),
        new_owner_id: st("bob.near"),
        amount: None,
        memo: Some(st("hi")),
        transaction_id: st("tx"),
        receipt_id: st("rc"),
    });
    assert_eq!(id, 42);
    // An amount that does not fit in a u128 is zero.
    assert_eq!(e.amount, 0);
    assert_eq!(e.block_timestamp_nanosec, 1_700_000_000_000_000_000);
    assert_eq!(e.token_id, "usdt.near");
    let (_, d) = pot_donation_from_row(PotDonationRow {
        id: 1,
        transaction_id: st("tx"),
        receipt_id: st("rc"),
        block_height: 5,
        timestamp_nanos: 10,
        donation_id: 3,
        pot_id: st("pot.near"),
        donor_id: st("alice.near"),
        total_amount: Some(100),
        net_amount: Some(90),
        message: None,
        donated_at_millis: 7,
        protocol_fee: None,
        referrer_id: None,
        referrer_fee: Some(None),
        chef_id: None,
        chef_fee: None,
    });
    assert_eq!((d.total_amount, d.net_amount, d.protocol_fee), (100, 90, 0));
    assert_eq!(d.referrer_fee, Some(0));
    assert_eq!(d.chef_fee, None);
    assert_eq!(d.donated_at, 7);
}
