//! Block and throughput events.
use vstd::prelude::*;

verus! {

/// Information about blocks.
pub struct BlockInfoEvent;

impl BlockInfoEvent {
    pub const ID: &'static str = "block_info";
}

/// The payload of a block.
#[derive(Debug)]
pub struct BlockInfoEventData {
    pub block_height: u64,
    pub block_timestamp_nanosec: u128,
    pub block_hash: String,
    pub block_producer: String,
    pub transaction_count: u64,
    pub receipt_count: u64,
}

/// The filter of block queries.
#[derive(Debug)]
pub struct DbBlockInfoFilter {
    pub block_height: Option<u64>,
    pub block_hash: Option<String>,
    pub block_producer: Option<String>,
}

/// Stores blocks.
pub struct DbBlockInfoAdapter;

/// The realtime filter of blocks.
#[derive(Debug)]
pub struct RtBlockInfoFilter {
    pub block_height_equal: Option<u64>,
    pub block_height_until: Option<u64>,
}

impl RtBlockInfoFilter {
    /// The block is at the given height, and not above the given limit.
    pub fn matches(&self, event: &BlockInfoEventData) -> (r: bool)
        ensures
            r == ((self.block_height_equal matches Some(h) ==> event.block_height == h) && (
            self.block_height_until matches Some(u) ==> event.block_height <= u)),
    {
        if let Some(h) = self.block_height_equal {
            if event.block_height != h {
                return false;
            }
        }
        if let Some(u) = self.block_height_until {
            if event.block_height > u {
                return false;
            }
        }
        true
    }
}

/// MoreTPS claims.
pub struct MoreTpsClaimEvent;

impl MoreTpsClaimEvent {
    pub const ID: &'static str = "moretps";
}

/// The payload of a MoreTPS claim.
#[derive(Debug)]
pub struct MoreTpsClaimEventData {
    pub block_height: u64,
    pub block_timestamp_nanosec: u128,
    pub receipt_id: String,
    pub transaction_id: String,
    pub claimed_account_id: String,
    pub claimed_parent_account_id: String,
    pub round_account_id: String,
    pub round_parent_account_id: String,
    pub is_success: bool,
}

/// The filter of MoreTPS claim queries.
#[derive(Debug)]
pub struct DbMoreTpsClaimFilter {
    pub claim_account_id: Option<String>,
    pub claim_parent_account_id: Option<String>,
    pub round_account_id: Option<String>,
    pub round_parent_account_id: Option<String>,
}

/// Stores MoreTPS claims.
pub struct DbMoreTpsClaimAdapter;

/// The realtime filter of MoreTPS claims.
#[derive(Debug)]
pub struct RtMoreTpsClaimFilter {
    pub block_height_equal: Option<u64>,
    pub block_height_until: Option<u64>,
}

impl RtMoreTpsClaimFilter {
    /// The claim is at the given height, and not above the given limit.
    pub fn matches(&self, event: &MoreTpsClaimEventData) -> (r: bool)
        ensures
            r == ((self.block_height_equal matches Some(h) ==> event.block_height == h) && (
            self.block_height_until matches Some(u) ==> event.block_height <= u)),
    {
        if let Some(h) = self.block_height_equal {
            if event.block_height != h {
                return false;
            }
        }
        if let Some(u) = self.block_height_until {
            if event.block_height > u {
                return false;
            }
        }
        true
    }
}

} // verus!
