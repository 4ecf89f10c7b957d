//! Transaction and receipt events.
use vstd::prelude::*;
use super::{text_wanted, text_wanted_ok};

verus! {

/// High-level receipt information.
pub struct TxReceiptEvent;

impl TxReceiptEvent {
    pub const ID: &'static str = "tx_receipt";
}

/// The payload of a receipt.
#[derive(Debug)]
pub struct TxReceiptEventData {
    pub block_timestamp_nanosec: u128,
    pub block_height: u64,
    pub receipt_id: String,
    pub transaction_id: String,
    pub executor_id: String,
    pub success: Option<bool>,
}

/// The filter of receipt queries.
#[derive(Debug)]
pub struct DbTxReceiptFilter {
    pub receipt_id: Option<String>,
    pub transaction_id: Option<String>,
    pub executor_id: Option<String>,
}

/// Stores receipts.
pub struct DbTxReceiptAdapter;

/// The realtime filter of receipts.
#[derive(Debug)]
pub struct RtTxReceiptFilter {
    pub executor_id: Option<String>,
}

impl RtTxReceiptFilter {
    /// The executor, when given, is the receipt's.
    pub fn matches(&self, event: &TxReceiptEventData) -> (r: bool)
        ensures
            r == text_wanted(self.executor_id, event.executor_id@),
    {
        text_wanted_ok(&self.executor_id, &event.executor_id)
    }
}

/// How a transaction ended.
#[derive(Debug, Clone, Copy, PartialEq, Eq, Structural)]
pub enum TxTransactionStatus {
    SuccessValue,
    SuccessReceiptId,
    Failure,
    Unknown,
}

/// A transaction, as its event carries it.
#[derive(Debug)]
pub struct TxTransactionEvent {
    pub block_timestamp_nanosec: u128,
    pub block_height: u64,
    pub transaction_hash: String,
    pub included_in_block_hash: String,
    pub included_in_chunk_hash: String,
    pub index_in_chunk: u64,
    pub signer_account_id: String,
    pub receiver_account_id: String,
    pub status: TxTransactionStatus,
    pub converted_into_receipt_id: String,
    pub receipt_conversion_gas_burnt: u64,
    pub receipt_conversion_tokens_burnt: u128,
}

impl TxTransactionEvent {
    pub const ID: &'static str = "tx_transaction";
}

} // verus!
