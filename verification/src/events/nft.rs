//! Non-fungible token events.
use vstd::prelude::*;
use super::{list_contains_text, list_has_text, text_wanted, text_wanted_ok};

verus! {

/// Fired when NFTs are burned.
pub struct NftBurnEvent;

impl NftBurnEvent {
    pub const ID: &'static str = "nft_burn";
}

/// The payload of an NFT burn.
#[derive(Debug)]
pub struct NftBurnEventData {
    pub owner_id: String,
    pub token_ids: Vec<String>,
    pub memo: Option<String>,
    pub transaction_id: String,
    pub receipt_id: String,
    pub block_height: u64,
    pub block_timestamp_nanosec: u128,
    pub contract_id: String,
}

/// The filter of NFT burn queries.
#[derive(Debug)]
pub struct DbNftBurnFilter {
    pub contract_id: Option<String>,
    pub owner_id: Option<String>,
}

/// Stores NFT burns.
pub struct DbNftBurnAdapter;

/// The realtime filter of NFT burns.
#[derive(Debug)]
pub struct RtNftBurnFilter {
    pub contract_id: Option<String>,
    pub owner_id: Option<String>,
}

impl RtNftBurnFilter {
    /// The owner and the contract, when given, are those of the burn.
    pub fn matches(&self, event: &NftBurnEventData) -> (r: bool)
        ensures
            r == (text_wanted(self.owner_id, event.owner_id@) && text_wanted(
                self.contract_id,
                event.contract_id@,
            )),
    {
        if !text_wanted_ok(&self.owner_id, &event.owner_id) {
            return false;
        }
        text_wanted_ok(&self.contract_id, &event.contract_id)
    }
}

/// Fired when NFTs are minted.
pub struct NftMintEvent;

impl NftMintEvent {
    pub const ID: &'static str = "nft_mint";
}

/// The payload of an NFT mint.
#[derive(Debug)]
pub struct NftMintEventData {
    pub owner_id: String,
    pub token_ids: Vec<String>,
    pub memo: Option<String>,
    pub transaction_id: String,
    pub receipt_id: String,
    pub block_height: u64,
    pub block_timestamp_nanosec: u128,
    pub contract_id: String,
}

/// The filter of NFT mint queries.
#[derive(Debug)]
pub struct DbNftMintFilter {
    pub contract_id: Option<String>,
    pub owner_id: Option<String>,
}

/// Stores NFT mints.
pub struct DbNftMintAdapter;

/// The realtime filter of NFT mints.
#[derive(Debug)]
pub struct RtNftMintFilter {
    pub contract_id: Option<String>,
    pub owner_id: Option<String>,
}

impl RtNftMintFilter {
    /// The owner and the contract, when given, are those of the mint.
    pub fn matches(&self, event: &NftMintEventData) -> (r: bool)
        ensures
            r == (text_wanted(self.owner_id, event.owner_id@) && text_wanted(
                self.contract_id,
                event.contract_id@,
            )),
    {
        if !text_wanted_ok(&self.owner_id, &event.owner_id) {
            return false;
        }
        text_wanted_ok(&self.contract_id, &event.contract_id)
    }
}

/// Fired when NFTs are transferred or sold.
pub struct NftTransferEvent;

impl NftTransferEvent {
    pub const ID: &'static str = "nft_transfer";
}

/// The payload of an NFT transfer.
#[derive(Debug)]
pub struct NftTransferEventData {
    pub old_owner_id: String,
    pub new_owner_id: String,
    pub token_ids: Vec<String>,
    pub memo: Option<String>,
    pub token_prices_near: Vec<Option<u128>>,
    pub transaction_id: String,
    pub receipt_id: String,
    pub block_height: u64,
    pub block_timestamp_nanosec: u128,
    pub contract_id: String,
}

/// The filter of NFT transfer queries; `involved_account_ids` is a
/// comma-separated list.
#[derive(Debug)]
pub struct DbNftTransferFilter {
    pub contract_id: Option<String>,
    pub old_owner_id: Option<String>,
    pub new_owner_id: Option<String>,
    pub involved_account_ids: Option<String>,
}

/// Stores NFT transfers.
pub struct DbNftTransferAdapter;

/// The realtime filter of NFT transfers.
#[derive(Debug)]
pub struct RtNftTransferFilter {
    pub contract_id: Option<String>,
    pub old_owner_id: Option<String>,
    pub new_owner_id: Option<String>,
    pub involved_account_ids: Option<Vec<String>>,
}

impl RtNftTransferFilter {
    /// Every condition that is given holds of the transfer; for the involved
    /// accounts, the sender or the receiver is one of them.
    pub fn matches(&self, event: &NftTransferEventData) -> (r: bool)
        ensures
            r == (text_wanted(self.old_owner_id, event.old_owner_id@) && text_wanted(
                self.new_owner_id,
                event.new_owner_id@,
            ) && (self.involved_account_ids matches Some(ids) ==> (list_has_text(
                ids@,
                event.old_owner_id@,
            ) || list_has_text(ids@, event.new_owner_id@))) && text_wanted(
                self.contract_id,
                event.contract_id@,
            )),
    {
        if !text_wanted_ok(&self.old_owner_id, &event.old_owner_id) {
            return false;
        }
        if !text_wanted_ok(&self.new_owner_id, &event.new_owner_id) {
            return false;
        }
        if let Some(ids) = &self.involved_account_ids {
            if !list_contains_text(ids, &event.old_owner_id) && !list_contains_text(
                ids,
                &event.new_owner_id,
            ) {
                return false;
            }
        }
        text_wanted_ok(&self.contract_id, &event.contract_id)
    }
}

} // verus!
