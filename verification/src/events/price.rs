//! Price events: prices of pools and of tokens. Decimal prices are held in
//! their text form.
use vstd::prelude::*;
use super::{text_wanted, text_wanted_ok};

verus! {

/// Fired for every pool change with the prices of its two tokens.
pub struct PricePoolEvent;

impl PricePoolEvent {
    pub const ID: &'static str = "price_pool";
}

/// The payload of a pool price.
#[derive(Debug)]
pub struct PricePoolEventData {
    pub block_height: u64,
    pub pool_id: String,
    pub token0: String,
    pub token1: String,
    pub token0_in_1_token1: String,
    pub token1_in_1_token0: String,
    pub timestamp_nanosec: u128,
}

/// The filter of pool price queries; `involved_token_account_ids` is a
/// comma-separated list.
#[derive(Debug)]
pub struct DbPricePoolFilter {
    pub pool_id: Option<String>,
    pub involved_token_account_ids: Option<String>,
}

/// Stores pool prices.
pub struct DbPricePoolAdapter;

/// The realtime filter of pool prices.
#[derive(Debug)]
pub struct RtPricePoolFilter {
    pub pool_id: Option<String>,
    pub involved_token_account_ids: Option<Vec<String>>,
}

/// Each listed token is one of the pool's two tokens.
pub open spec fn all_in_pair(ids: Seq<String>, token0: Seq<char>, token1: Seq<char>) -> bool {
    forall|i: int| 0 <= i < ids.len() ==> (#[trigger] ids[i])@ == token0 || ids[i]@ == token1
}

impl RtPricePoolFilter {
    /// The pool, when given, is the event's; every listed token is one of
    /// the pool's two tokens.
    #[verifier::loop_isolation(false)]
    pub fn matches(&self, event: &PricePoolEventData) -> (r: bool)
        ensures
            r == (text_wanted(self.pool_id, event.pool_id@) && (
            self.involved_token_account_ids matches Some(ids) ==> all_in_pair(
                ids@,
                event.token0@,
                event.token1@,
            ))),
    {
        if !text_wanted_ok(&self.pool_id, &event.pool_id) {
            return false;
        }
        if let Some(ids) = &self.involved_token_account_ids {
            let mut i: usize = 0;
            while i < ids.len()
                invariant
                    0 <= i <= ids.len(),
                    forall|k: int|
                        0 <= k < i ==> (#[trigger] ids@[k])@ == event.token0@ || ids@[k]@
                            == event.token1@,
                decreases ids.len() - i,
            {
                if ids[i] != event.token0 && ids[i] != event.token1 {
                    return false;
                }
                i = i + 1;
            }
        }
        true
    }
}

/// Fired when the USD price of a token changes.
pub struct PriceTokenEvent;

impl PriceTokenEvent {
    pub const ID: &'static str = "price_token";
}

/// The payload of a token price.
#[derive(Debug)]
pub struct PriceTokenEventData {
    pub block_height: u64,
    pub token: String,
    pub price_usd: String,
    pub timestamp_nanosec: u128,
}

/// The filter of token price queries.
#[derive(Debug)]
pub struct DbPriceTokenFilter {
    pub token: Option<String>,
}

/// Stores token prices.
pub struct DbPriceTokenAdapter;

/// The realtime filter of token prices.
#[derive(Debug)]
pub struct RtPriceTokenFilter {
    pub token: Option<String>,
}

impl RtPriceTokenFilter {
    /// The token, when given, is the event's.
    pub fn matches(&self, event: &PriceTokenEventData) -> (r: bool)
        ensures
            r == text_wanted(self.token, event.token@),
    {
        text_wanted_ok(&self.token, &event.token)
    }
}

} // verus!
