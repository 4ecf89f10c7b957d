//! Fungible token events.
use vstd::prelude::*;
use super::{list_contains_text, list_has_text, text_wanted, text_wanted_ok};

verus! {

/// Fired when FTs are burned.
pub struct FtBurnEvent;

impl FtBurnEvent {
    pub const ID: &'static str = "ft_burn";
}

/// The payload of an FT burn.
#[derive(Debug)]
pub struct FtBurnEventData {
    pub owner_id: String,
    pub amount: u128,
    pub memo: Option<String>,
    pub token_id: String,
    pub transaction_id: String,
    pub receipt_id: String,
    pub block_height: u64,
    pub block_timestamp_nanosec: u128,
}

/// The filter of FT burn queries.
#[derive(Debug)]
pub struct DbFtBurnFilter {
    pub token_id: Option<String>,
    pub owner_id: Option<String>,
    pub amount: Option<u128>,
    pub min_amount: Option<u128>,
}

/// Stores FT burns.
pub struct DbFtBurnAdapter;

/// The realtime filter of FT burns.
#[derive(Debug)]
pub struct RtFtBurnFilter {
    pub token_id: Option<String>,
    pub owner_id: Option<String>,
    pub amount: Option<u128>,
    pub min_amount: Option<u128>,
}

impl RtFtBurnFilter {
    /// Every condition that is given holds of the burn: same owner, same
    /// token, exactly the amount, at least the minimum amount.
    pub fn matches(&self, event: &FtBurnEventData) -> (r: bool)
        ensures
            r == (text_wanted(self.owner_id, event.owner_id@) && text_wanted(
                self.token_id,
                event.token_id@,
            ) && (self.amount matches Some(a) ==> event.amount == a) && (
            self.min_amount matches Some(m) ==> event.amount >= m)),
    {
        if !text_wanted_ok(&self.owner_id, &event.owner_id) {
            return false;
        }
        if !text_wanted_ok(&self.token_id, &event.token_id) {
            return false;
        }
        if let Some(amount) = self.amount {
            if event.amount != amount {
                return false;
            }
        }
        if let Some(min_amount) = self.min_amount {
            if event.amount < min_amount {
                return false;
            }
        }
        true
    }
}

/// Fired when FTs are transferred or sold.
pub struct FtTransferEvent;

impl FtTransferEvent {
    pub const ID: &'static str = "ft_transfer";
}

/// The payload of an FT transfer.
#[derive(Debug)]
pub struct FtTransferEventData {
    pub old_owner_id: String,
    pub new_owner_id: String,
    pub amount: u128,
    pub memo: Option<String>,
    pub token_id: String,
    pub transaction_id: String,
    pub receipt_id: String,
    pub block_height: u64,
    pub block_timestamp_nanosec: u128,
}

/// The filter of FT transfer queries; `involved_account_ids` is a
/// comma-separated list.
#[derive(Debug)]
pub struct DbFtTransferFilter {
    pub token_id: Option<String>,
    pub old_owner_id: Option<String>,
    pub new_owner_id: Option<String>,
    pub involved_account_ids: Option<String>,
    pub amount: Option<u128>,
    pub min_amount: Option<u128>,
}

/// Stores FT transfers.
pub struct DbFtTransferAdapter;

/// The realtime filter of FT transfers.
#[derive(Debug)]
pub struct RtFtTransferFilter {
    pub token_id: Option<String>,
    pub old_owner_id: Option<String>,
    pub new_owner_id: Option<String>,
    pub involved_account_ids: Option<Vec<String>>,
    pub amount: Option<u128>,
    pub min_amount: Option<u128>,
}

impl RtFtTransferFilter {
    /// Every condition that is given holds of the transfer; for the involved
    /// accounts, the sender or the receiver is one of them.
    pub fn matches(&self, event: &FtTransferEventData) -> (r: bool)
        ensures
            r == (text_wanted(self.old_owner_id, event.old_owner_id@) && text_wanted(
                self.new_owner_id,
                event.new_owner_id@,
            ) && (self.involved_account_ids matches Some(ids) ==> (list_has_text(
                ids@,
                event.old_owner_id@,
            ) || list_has_text(ids@, event.new_owner_id@))) && text_wanted(
                self.token_id,
                event.token_id@,
            ) && (self.amount matches Some(a) ==> event.amount == a) && (
            self.min_amount matches Some(m) ==> event.amount >= m)),
    {
        if !text_wanted_ok(&self.old_owner_id, &event.old_owner_id) {
            return false;
        }
        if !text_wanted_ok(&self.new_owner_id, &event.new_owner_id) {
            return false;
        }
        if let Some(ids) = &self.involved_account_ids {
            if !list_contains_text(ids, &event.old_owner_id) && !list_contains_text(
                ids,
                &event.new_owner_id,
            ) {
                return false;
            }
        }
        if !text_wanted_ok(&self.token_id, &event.token_id) {
            return false;
        }
        if let Some(amount) = self.amount {
            if event.amount != amount {
                return false;
            }
        }
        if let Some(min_amount) = self.min_amount {
            if event.amount < min_amount {
                return false;
            }
        }
        true
    }
}

} // verus!
