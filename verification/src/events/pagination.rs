//! Pagination of event queries: the values that a page request binds, and
//! the conditions and sort orders it selects.
use vstd::prelude::*;
use crate::text::{split_on, split_text};

verus! {

/// Where a page starts.
#[derive(Debug, Clone, Copy, PartialEq, Eq, Structural)]
pub enum PaginationBy {
    BeforeTimestamp { timestamp_nanosec: u128 },
    AfterTimestamp { timestamp_nanosec: u128 },
    BeforeBlockHeight { block_height: u64 },
    AfterBlockHeight { block_height: u64 },
    BeforeId { id: u64 },
    AfterId { id: u64 },
    Oldest,
    Newest,
}

/// A page request: how many events, and where the page starts.
#[derive(Debug, Clone, Copy, PartialEq, Eq, Structural)]
pub struct PaginationParameters {
    pub limit: usize,
    pub pagination_by: PaginationBy,
}

/// The first second that chrono represents: January 1 of the year -262143.
pub open spec fn chrono_first_second() -> int {
    -8_334_601_228_800
}

/// The last second that chrono represents: December 31 of the year 262142,
/// 23:59:59.
pub open spec fn chrono_last_second() -> int {
    8_210_266_876_799
}

/// Whether `chrono::DateTime::from_timestamp` accepts these seconds and
/// nanoseconds: the second is within the range that chrono represents, and
/// the nanoseconds are under a second, or under two seconds in the last
/// second of a minute (a leap second).
pub open spec fn chrono_timestamp_valid(secs: i64, nanos: u32) -> bool {
    &&& chrono_first_second() <= secs <= chrono_last_second()
    &&& (nanos < 1_000_000_000 || (nanos < 2_000_000_000 && secs % 60 == 59))
}

/// `chrono::DateTime::<Utc>::from_timestamp(secs, nanos).is_some()`.
#[verifier::external_body]
fn utc_timestamp_exists(secs: i64, nanos: u32) -> (r: bool)
    ensures
        r == chrono_timestamp_valid(secs, nanos),
{
    chrono::DateTime::from_timestamp(secs, nanos).is_some()
}

/// The time bound of a page.
#[derive(Debug, Clone, Copy, PartialEq, Eq, Structural)]
pub enum PaginationTimestamp {
    /// The page is not bounded by time.
    Unbounded,
    /// The page is bounded by this moment (seconds and nanoseconds since the
    /// Unix epoch).
    At { secs: i64, nanos: u32 },
    /// The requested moment is outside the representable range.
    OutOfRange,
    /// The page is bounded by the time of the block at this height, which
    /// has to be looked up.
    AtBlock { block_height: i64 },
}

/// The values that a page request binds in a query.
#[derive(Debug, Clone, Copy, PartialEq, Eq, Structural)]
pub struct PaginationValues {
    pub timestamp: PaginationTimestamp,
    pub id: Option<i32>,
    pub limit: i64,
}

/// The whole seconds and the remaining nanoseconds of a nanosecond count,
/// converted as `as i64` and `as u32` convert.
pub open spec fn nanos_split(timestamp_nanosec: u128) -> (i64, u32) {
    ((timestamp_nanosec / 1_000_000_000) as i64, (timestamp_nanosec % 1_000_000_000) as u32)
}

/// The values that a page request binds: the time bound for paging by time
/// or by block (a block's time has to be looked up), the id bound for paging
/// by id, and the limit.
pub open spec fn pagination_values_spec(pagination: PaginationParameters) -> PaginationValues {
    PaginationValues {
        timestamp: match pagination.pagination_by {
            PaginationBy::BeforeTimestamp { timestamp_nanosec }
            | PaginationBy::AfterTimestamp { timestamp_nanosec } => {
                let (secs, nanos) = nanos_split(timestamp_nanosec);
                if chrono_timestamp_valid(secs, nanos) {
                    PaginationTimestamp::At { secs, nanos }
                } else {
                    PaginationTimestamp::OutOfRange
                }
            },
            PaginationBy::BeforeBlockHeight { block_height }
            | PaginationBy::AfterBlockHeight { block_height } => PaginationTimestamp::AtBlock {
                block_height: block_height as i64,
            },
            _ => PaginationTimestamp::Unbounded,
        },
        id: match pagination.pagination_by {
            PaginationBy::BeforeId { id } | PaginationBy::AfterId { id } => Some(id as i32),
            _ => None,
        },
        limit: pagination.limit as i64,
    }
}

/// The values that a page request binds.
pub fn get_pagination_params(pagination: &PaginationParameters) -> (r: PaginationValues)
    ensures
        r == pagination_values_spec(*pagination),
{
    let limit = pagination.limit as i64;
    let timestamp = match pagination.pagination_by {
        PaginationBy::BeforeTimestamp { timestamp_nanosec }
        | PaginationBy::AfterTimestamp { timestamp_nanosec } => {
            let secs = (timestamp_nanosec / 1_000_000_000) as i64;
            let nanos = (timestamp_nanosec % 1_000_000_000) as u32;
            if utc_timestamp_exists(secs, nanos) {
                PaginationTimestamp::At { secs, nanos }
            } else {
                PaginationTimestamp::OutOfRange
            }
        },
        PaginationBy::BeforeBlockHeight { block_height }
        | PaginationBy::AfterBlockHeight { block_height } => PaginationTimestamp::AtBlock {
            block_height: block_height as i64,
        },
        _ => PaginationTimestamp::Unbounded,
    };
    let id = match pagination.pagination_by {
        PaginationBy::BeforeId { id } | PaginationBy::AfterId { id } => Some(id as i32),
        _ => None,
    };
    PaginationValues { timestamp, id, limit }
}

/// The condition that bounds a page.
#[derive(Debug, Clone, Copy, PartialEq, Eq, Structural)]
pub enum PageBound {
    TimestampBefore,
    TimestampAfter,
    BlockHeightBefore,
    BlockHeightAfter,
    IdBefore,
    IdAfter,
    Unbounded,
}

/// The order in which a page lists events (by id).
#[derive(Debug, Clone, Copy, PartialEq, Eq, Structural)]
pub enum SortOrder {
    Ascending,
    Descending,
}

/// The bound and order of a page for tables keyed by time: a block height
/// bound is turned into the block's time.
pub open spec fn time_page_spec(by: PaginationBy) -> (PageBound, SortOrder) {
    match by {
        PaginationBy::BeforeTimestamp { .. } | PaginationBy::BeforeBlockHeight { .. } => (
            PageBound::TimestampBefore,
            SortOrder::Descending,
        ),
        PaginationBy::AfterTimestamp { .. } | PaginationBy::AfterBlockHeight { .. } => (
            PageBound::TimestampAfter,
            SortOrder::Ascending,
        ),
        PaginationBy::BeforeId { .. } => (PageBound::IdBefore, SortOrder::Descending),
        PaginationBy::AfterId { .. } => (PageBound::IdAfter, SortOrder::Ascending),
        PaginationBy::Oldest => (PageBound::Unbounded, SortOrder::Ascending),
        PaginationBy::Newest => (PageBound::Unbounded, SortOrder::Descending),
    }
}

/// The bound and order of a page for tables keyed by time.
pub fn time_page(by: PaginationBy) -> (r: (PageBound, SortOrder))
    ensures
        r == time_page_spec(by),
{
    match by {
        PaginationBy::BeforeTimestamp { .. } | PaginationBy::BeforeBlockHeight { .. } => (
            PageBound::TimestampBefore,
            SortOrder::Descending,
        ),
        PaginationBy::AfterTimestamp { .. } | PaginationBy::AfterBlockHeight { .. } => (
            PageBound::TimestampAfter,
            SortOrder::Ascending,
        ),
        PaginationBy::BeforeId { .. } => (PageBound::IdBefore, SortOrder::Descending),
        PaginationBy::AfterId { .. } => (PageBound::IdAfter, SortOrder::Ascending),
        PaginationBy::Oldest => (PageBound::Unbounded, SortOrder::Ascending),
        PaginationBy::Newest => (PageBound::Unbounded, SortOrder::Descending),
    }
}

/// The bound and order of a page for tables that also keep the block
/// height: a block height bound compares heights.
pub open spec fn block_height_page_spec(by: PaginationBy) -> (PageBound, SortOrder) {
    match by {
        PaginationBy::BeforeBlockHeight { .. } => (PageBound::BlockHeightBefore, SortOrder::Descending),
        PaginationBy::AfterBlockHeight { .. } => (PageBound::BlockHeightAfter, SortOrder::Ascending),
        _ => time_page_spec(by),
    }
}

/// The bound and order of a page for tables that also keep the block
/// height.
pub fn block_height_page(by: PaginationBy) -> (r: (PageBound, SortOrder))
    ensures
        r == block_height_page_spec(by),
{
    match by {
        PaginationBy::BeforeBlockHeight { .. } => (
            PageBound::BlockHeightBefore,
            SortOrder::Descending,
        ),
        PaginationBy::AfterBlockHeight { .. } => (PageBound::BlockHeightAfter, SortOrder::Ascending),
        _ => time_page(by),
    }
}

/// The condition that a list of involved accounts puts on a transfer between
/// a sender and a receiver.
#[derive(Debug)]
pub enum InvolvedAccounts {
    /// No list: any transfer.
    Any,
    /// One account: it is the sender or the receiver.
    Either(String),
    /// Two accounts: they are the sender and the receiver, in either order.
    Between(String, String),
    /// More than two accounts: no transfer.
    Never,
}

/// The accounts of a comma-separated list.
pub fn split_comma_list(list: &str) -> (r: Vec<String>)
    ensures
        r.len() == split_on(list@, ',').len(),
        forall|i: int| 0 <= i < r.len() ==> #[trigger] r@[i]@ == split_on(list@, ',')[i],
{
    split_text(list, ',')
}

/// The condition that an optional comma-separated list of involved accounts
/// selects.
pub fn involved_accounts_condition(list: &Option<String>) -> (r: InvolvedAccounts)
    ensures
        match list {
            None => r is Any,
            Some(text) => {
                let ids = split_on(text@, ',');
                match r {
                    InvolvedAccounts::Either(a) => ids.len() == 1 && a@ == ids[0],
                    InvolvedAccounts::Between(a, b) => ids.len() == 2 && a@ == ids[0] && b@
                        == ids[1],
                    InvolvedAccounts::Never => ids.len() > 2,
                    InvolvedAccounts::Any => false,
                }
            },
        },
{
    match list {
        None => InvolvedAccounts::Any,
        Some(text) => {
            let mut ids = split_comma_list(text.as_str());
            proof {
                crate::text::lemma_split_nonempty(text@, ',');
            }
            if ids.len() == 1 {
                let a = ids.pop().unwrap();
                InvolvedAccounts::Either(a)
            } else if ids.len() == 2 {
                let b = ids.pop().unwrap();
                let a = ids.pop().unwrap();
                InvolvedAccounts::Between(a, b)
            } else {
                InvolvedAccounts::Never
            }
        },
    }
}

} // verus!
