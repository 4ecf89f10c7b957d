//! Trade events: swaps, pool changes, liquidity, MemeCooking deposits and
//! withdrawals. Token balance maps are lists of (token, amount) entries with
//! distinct tokens.
use vstd::prelude::*;
use super::{contains_key, has_key, text_wanted, text_wanted_ok};

verus! {

/// Every listed token is a key of the entries.
pub open spec fn all_keys_present(ids: Seq<String>, entries: Seq<(String, i128)>) -> bool {
    forall|i: int| 0 <= i < ids.len() ==> has_key(entries, (#[trigger] ids[i])@)
}

/// Whether every listed token is a key of the entries.
pub fn keys_all_present(ids: &Vec<String>, entries: &Vec<(String, i128)>) -> (r: bool)
    ensures
        r == all_keys_present(ids@, entries@),
{
    let mut i: usize = 0;
    while i < ids.len()
        invariant
            0 <= i <= ids.len(),
            forall|k: int| 0 <= k < i ==> has_key(entries@, (#[trigger] ids@[k])@),
        decreases ids.len() - i,
    {
        if !contains_key(entries, &ids[i]) {
            return false;
        }
        i = i + 1;
    }
    true
}

/// Fired when someone adds or removes liquidity.
pub struct LiquidityPoolEvent;

impl LiquidityPoolEvent {
    pub const ID: &'static str = "liquidity_pool";
}

/// The payload of a liquidity change: the change of each token.
#[derive(Debug)]
pub struct LiquidityPoolEventData {
    pub pool: String,
    pub tokens: Vec<(String, i128)>,
    pub provider_account_id: String,
    pub transaction_id: String,
    pub receipt_id: String,
    pub block_height: u64,
    pub block_timestamp_nanosec: u128,
}

/// The filter of liquidity queries; `involved_token_account_ids` is a
/// comma-separated list.
#[derive(Debug)]
pub struct DbLiquidityPoolFilter {
    pub provider_account_id: Option<String>,
    pub involved_token_account_ids: Option<String>,
}

/// Stores liquidity changes.
pub struct DbLiquidityPoolAdapter;

/// The realtime filter of liquidity changes.
#[derive(Debug)]
pub struct RtLiquidityPoolilter {
    pub provider_account_id: Option<String>,
    pub involved_token_account_ids: Option<Vec<String>>,
}

impl RtLiquidityPoolilter {
    /// The provider, when given, is the event's; every listed token is
    /// among the changed tokens.
    pub fn matches(&self, event: &LiquidityPoolEventData) -> (r: bool)
        ensures
            r == (text_wanted(self.provider_account_id, event.provider_account_id@) && (
            self.involved_token_account_ids matches Some(ids) ==> all_keys_present(
                ids@,
                event.tokens@,
            ))),
    {
        if !text_wanted_ok(&self.provider_account_id, &event.provider_account_id) {
            return false;
        }
        if let Some(ids) = &self.involved_token_account_ids {
            if !keys_all_present(ids, &event.tokens) {
                return false;
            }
        }
        true
    }
}

/// Fired when a deposit is made in the MemeCooking protocol.
pub struct MemeCookingDepositEvent;

impl MemeCookingDepositEvent {
    pub const ID: &'static str = "memecooking_deposit";
}

/// The payload of a MemeCooking deposit.
#[derive(Debug)]
pub struct MemeCookingDepositEventData {
    pub meme_id: i64,
    pub trader: String,
    pub transaction_id: String,
    pub receipt_id: String,
    pub amount: u128,
    pub protocol_fee: u128,
    pub referrer: Option<String>,
    pub referrer_fee: Option<u128>,
    pub block_height: u64,
    pub block_timestamp_nanosec: u128,
}

/// The filter of MemeCooking deposit queries.
#[derive(Debug)]
pub struct DbMemeCookingDepositFilter {
    pub meme_id: Option<i64>,
    pub trader_account_id: Option<String>,
}

/// Stores MemeCooking deposits.
pub struct DbMemeCookingDepositAdapter;

/// The realtime filter of MemeCooking deposits.
#[derive(Debug)]
pub struct RtMemeCookingDepositFilter {
    pub meme_id: Option<i64>,
    pub trader_account_id: Option<String>,
}

impl RtMemeCookingDepositFilter {
    /// The trader and the meme, when given, are the deposit's.
    pub fn matches(&self, event: &MemeCookingDepositEventData) -> (r: bool)
        ensures
            r == (text_wanted(self.trader_account_id, event.trader@) && (self.meme_id matches Some(
                m,
            ) ==> event.meme_id == m)),
    {
        if !text_wanted_ok(&self.trader_account_id, &event.trader) {
            return false;
        }
        if let Some(m) = self.meme_id {
            if event.meme_id != m {
                return false;
            }
        }
        true
    }
}

/// Fired when a withdraw is made in the MemeCooking protocol.
pub struct MemeCookingWithdrawEvent;

impl MemeCookingWithdrawEvent {
    pub const ID: &'static str = "memecooking_withdraw";
}

/// The payload of a MemeCooking withdrawal.
#[derive(Debug)]
pub struct MemeCookingWithdrawEventData {
    pub meme_id: u64,
    pub trader: String,
    pub transaction_id: String,
    pub receipt_id: String,
    pub amount: u128,
    pub fee: u128,
    pub block_height: u64,
    pub block_timestamp_nanosec: u128,
}

/// The filter of MemeCooking withdrawal queries.
#[derive(Debug)]
pub struct DbMemeCookingWithdrawFilter {
    pub meme_id: Option<u64>,
    pub trader_account_id: Option<String>,
}

/// Stores MemeCooking withdrawals.
pub struct DbMemeCookingWithdrawAdapter;

/// The realtime filter of MemeCooking withdrawals.
#[derive(Debug)]
pub struct RtMemeCookingWithdrawFilter {
    pub meme_id: Option<u64>,
    pub trader_account_id: Option<String>,
}

impl RtMemeCookingWithdrawFilter {
    /// The trader and the meme, when given, are the withdrawal's.
    pub fn matches(&self, event: &MemeCookingWithdrawEventData) -> (r: bool)
        ensures
            r == (text_wanted(self.trader_account_id, event.trader@) && (self.meme_id matches Some(
                m,
            ) ==> event.meme_id == m)),
    {
        if !text_wanted_ok(&self.trader_account_id, &event.trader) {
            return false;
        }
        if let Some(m) = self.meme_id {
            if event.meme_id != m {
                return false;
            }
        }
        true
    }
}

/// Fired for each pool a trade goes through.
pub struct TradePoolEvent;

impl TradePoolEvent {
    pub const ID: &'static str = "trade_pool";
}

/// The payload of a trade through one pool.
#[derive(Debug)]
pub struct TradePoolEventData {
    pub pool: String,
    pub token_in: String,
    pub token_out: String,
    pub amount_in: u128,
    pub amount_out: u128,
    pub trader: String,
    pub transaction_id: String,
    pub receipt_id: String,
    pub block_height: u64,
    pub block_timestamp_nanosec: u128,
}

/// The filter of pool trade queries.
#[derive(Debug)]
pub struct DbTradePoolFilter {
    pub pool_id: Option<String>,
    pub trader_account_id: Option<String>,
}

/// Stores pool trades.
pub struct DbTradePoolAdapter;

/// The realtime filter of pool trades.
#[derive(Debug)]
pub struct RtTradePoolilter {
    pub pool_id: Option<String>,
    pub trader_account_id: Option<String>,
}

impl RtTradePoolilter {
    /// The trader and the pool, when given, are the trade's.
    pub fn matches(&self, event: &TradePoolEventData) -> (r: bool)
        ensures
            r == (text_wanted(self.trader_account_id, event.trader@) && text_wanted(
                self.pool_id,
                event.pool@,
            )),
    {
        if !text_wanted_ok(&self.trader_account_id, &event.trader) {
            return false;
        }
        text_wanted_ok(&self.pool_id, &event.pool)
    }
}

/// Fired when a DEX pool changes.
pub struct TradePoolChangeEvent;

impl TradePoolChangeEvent {
    pub const ID: &'static str = "trade_pool_change";
}

/// The payload of a pool change: the new state of the pool.
#[derive(Debug)]
pub struct TradePoolChangeEventData {
    pub pool_id: String,
    pub receipt_id: String,
    pub block_timestamp_nanosec: u128,
    pub block_height: u64,
    pub pool: PoolType,
}

/// One swap through one pool.
#[derive(Debug)]
pub struct RawPoolSwap {
    pub pool: String,
    pub token_in: String,
    pub token_out: String,
    pub amount_in: u128,
    pub amount_out: u128,
}

/// The filter of pool change queries.
#[derive(Debug)]
pub struct DbTradePoolChangeFilter {
    pub pool_id: Option<String>,
}

/// Stores pool changes.
pub struct DbTradePoolChangeAdapter;

/// The realtime filter of pool changes.
#[derive(Debug)]
pub struct RtTradePoolChangeilter {
    pub pool_id: Option<String>,
}

impl RtTradePoolChangeilter {
    /// The pool, when given, is the changed one.
    pub fn matches(&self, event: &TradePoolChangeEventData) -> (r: bool)
        ensures
            r == text_wanted(self.pool_id, event.pool_id@),
    {
        text_wanted_ok(&self.pool_id, &event.pool_id)
    }
}

/// The kind and state of a pool.
#[derive(Debug)]
pub enum PoolType {
    Ref(RefPool),
}

/// A Ref Finance pool.
#[derive(Debug)]
pub enum RefPool {
    SimplePool(RefSimplePool),
    StableSwapPool(RefStableSwapPool),
    RatedSwapPool(RefRatedSwapPool),
}

/// A constant-product pool.
#[derive(Debug)]
pub struct RefSimplePool {
    pub token_account_ids: Vec<String>,
    pub amounts: Vec<u128>,
    pub volumes: Vec<RefSwapVolume>,
    pub total_fee: u32,
    pub exchange_fee: u32,
    pub referral_fee: u32,
    pub shares_total_supply: u128,
}

/// Volumes accumulated by a pool for one token.
#[derive(Debug)]
pub struct RefSwapVolume {
    pub input: u128,
    pub output: u128,
}

/// A stable-swap pool.
#[derive(Debug)]
pub struct RefStableSwapPool {
    pub token_account_ids: Vec<String>,
    pub token_decimals: Vec<u8>,
    pub c_amounts: Vec<u128>,
    pub volumes: Vec<RefSwapVolume>,
    pub total_fee: u32,
    pub shares_total_supply: u128,
    pub init_amp_factor: u128,
    pub target_amp_factor: u128,
    pub init_amp_time: u64,
    pub stop_amp_time: u64,
}

/// A rated-swap pool.
#[derive(Debug)]
pub struct RefRatedSwapPool {
    pub token_account_ids: Vec<String>,
    pub token_decimals: Vec<u8>,
    pub c_amounts: Vec<u128>,
    pub volumes: Vec<RefSwapVolume>,
    pub total_fee: u32,
    pub shares_total_supply: u128,
    pub init_amp_factor: u128,
    pub target_amp_factor: u128,
    pub init_amp_time: u64,
    pub stop_amp_time: u64,
}

/// Fired when someone exchanges tokens: the net balance change of each token.
pub struct TradeSwapEvent;

impl TradeSwapEvent {
    pub const ID: &'static str = "trade_swap";
}

/// The payload of a swap.
#[derive(Debug)]
pub struct TradeSwapEventData {
    pub balance_changes: Vec<(String, i128)>,
    pub trader: String,
    pub transaction_id: String,
    pub receipt_id: String,
    pub block_height: u64,
    pub block_timestamp_nanosec: u128,
}

/// The filter of swap queries; `involved_token_account_ids` is a
/// comma-separated list.
#[derive(Debug)]
pub struct DbTradeSwapFilter {
    pub trader_account_id: Option<String>,
    pub involved_token_account_ids: Option<String>,
}

/// Stores swaps.
pub struct DbTradeSwapAdapter;

/// The realtime filter of swaps.
#[derive(Debug)]
pub struct RtTradeSwapilter {
    pub trader_account_id: Option<String>,
    pub involved_token_account_ids: Option<Vec<String>>,
}

impl RtTradeSwapilter {
    /// The trader, when given, is the swap's; every listed token has a
    /// balance change in the swap.
    pub fn matches(&self, event: &TradeSwapEventData) -> (r: bool)
        ensures
            r == (text_wanted(self.trader_account_id, event.trader@) && (
            self.involved_token_account_ids matches Some(ids) ==> all_keys_present(
                ids@,
                event.balance_changes@,
            ))),
    {
        if !text_wanted_ok(&self.trader_account_id, &event.trader) {
            return false;
        }
        if let Some(ids) = &self.involved_token_account_ids {
            if !keys_all_present(ids, &event.balance_changes) {
                return false;
            }
        }
        true
    }
}

} // verus!
