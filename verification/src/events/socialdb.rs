//! SocialDB index events.
use vstd::prelude::*;
use crate::json::{view_eq, JsonValue};
use super::{text_wanted, text_wanted_ok};

verus! {

/// Fired when a SocialDB index entry is written.
pub struct SocialDBIndexEvent;

impl SocialDBIndexEvent {
    pub const ID: &'static str = "socialdb_index";
}

/// The payload of a SocialDB index entry.
#[derive(Debug)]
pub struct SocialDBIndexEventData {
    pub block_height: u64,
    pub block_timestamp_nanosec: u128,
    pub transaction_id: String,
    pub receipt_id: String,
    pub account_id: String,
    pub index_type: String,
    pub index_key: JsonValue,
    pub index_value: JsonValue,
}

/// The filter of SocialDB index queries.
#[derive(Debug)]
pub struct DbPriceTokenFilter {
    pub account_id: Option<String>,
    pub index_type: Option<String>,
    pub index_key: Option<JsonValue>,
}

/// Stores SocialDB index entries.
pub struct DbSocialDBIndexAdapter;

/// The realtime filter of SocialDB index entries. Both `token` and
/// `index_type` are compared with the entry's index type.
#[derive(Debug)]
pub struct RtSocialDBIndexFilter {
    pub account_id: Option<String>,
    pub token: Option<String>,
    pub index_type: Option<String>,
    pub index_key: Option<JsonValue>,
    pub index_value: Option<JsonValue>,
}

impl RtSocialDBIndexFilter {
    /// Every condition that is given holds of the entry; keys and values
    /// compare as JSON values.
    pub fn matches(&self, event: &SocialDBIndexEventData) -> (r: bool)
        ensures
            r == (text_wanted(self.account_id, event.account_id@) && text_wanted(
                self.token,
                event.index_type@,
            ) && text_wanted(self.index_type, event.index_type@) && (self.index_key matches Some(
                k,
            ) ==> view_eq(k@, event.index_key@)) && (self.index_value matches Some(v) ==> view_eq(
                v@,
                event.index_value@,
            ))),
    {
        if !text_wanted_ok(&self.account_id, &event.account_id) {
            return false;
        }
        if !text_wanted_ok(&self.token, &event.index_type) {
            return false;
        }
        if !text_wanted_ok(&self.index_type, &event.index_type) {
            return false;
        }
        if let Some(k) = &self.index_key {
            if !k.equals(&event.index_key) {
                return false;
            }
        }
        if let Some(v) = &self.index_value {
            if !v.equals(&event.index_value) {
                return false;
            }
        }
        true
    }
}

} // verus!
