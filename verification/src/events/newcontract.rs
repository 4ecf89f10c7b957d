//! New token contract events.
use vstd::prelude::*;
use crate::text::{chars_of, has_char, is_suffix};
use super::{text_wanted, text_wanted_ok};

verus! {

/// Fired when a MemeCooking token is created.
pub struct NewMemeCookingTokenEvent;

impl NewMemeCookingTokenEvent {
    pub const ID: &'static str = "newtoken_memecooking_token";
}

/// The payload of a new MemeCooking token.
#[derive(Debug)]
pub struct NewMemeCookingTokenEventData {
    pub transaction_id: String,
    pub receipt_id: String,
    pub block_height: u64,
    pub block_timestamp_nanosec: u128,
    pub meme_id: u64,
    pub token_id: String,
    pub total_supply: u128,
    pub pool_id: u64,
}

/// The filter of new MemeCooking token queries.
#[derive(Debug)]
pub struct NewMemeCookingMemeFilter {
    pub meme_id: Option<u64>,
    pub token_id: Option<String>,
}

/// Stores new MemeCooking tokens.
pub struct DbNewMemeCookingMemeAdapter;

/// The realtime filter of new MemeCooking tokens.
#[derive(Debug)]
pub struct RtNewMemeCookingMemeFilter {
    pub meme_id: Option<u64>,
    pub token_id: Option<String>,
}

impl RtNewMemeCookingMemeFilter {
    /// The meme and the token, when given, are those of the event.
    pub fn matches(&self, event: &NewMemeCookingTokenEventData) -> (r: bool)
        ensures
            r == ((self.meme_id matches Some(m) ==> event.meme_id == m) && text_wanted(
                self.token_id,
                event.token_id@,
            )),
    {
        if let Some(meme_id) = self.meme_id {
            if meme_id != event.meme_id {
                return false;
            }
        }
        text_wanted_ok(&self.token_id, &event.token_id)
    }
}

/// Fired when a NEP-141 token contract is deployed.
pub struct NewContractNep141Event;

impl NewContractNep141Event {
    pub const ID: &'static str = "newtoken_nep141";
}

/// The payload of a new NEP-141 contract.
#[derive(Debug)]
pub struct NewContractNep141EventData {
    pub account_id: String,
    pub transaction_id: String,
    pub receipt_id: String,
    pub block_height: u64,
    pub block_timestamp_nanosec: u128,
}

/// The filter of new NEP-141 contract queries.
#[derive(Debug)]
pub struct NewContractNep141Filter {
    pub account_id: Option<String>,
}

/// Stores new NEP-141 contracts.
pub struct DbNewContractNep141Adapter;

/// The realtime filter of new NEP-141 contracts.
#[derive(Debug)]
pub struct RtNewContractNep141Filter {
    pub account_id: Option<String>,
    pub parent_account_id: Option<String>,
}

/// `account` is a direct subaccount of `parent`: it is `<name>.<parent>`
/// where `<name>` holds no dot.
pub open spec fn is_direct_subaccount(account: Seq<char>, parent: Seq<char>) -> bool {
    is_suffix(parent, account) && {
        let rest = account.subrange(0, account.len() - parent.len());
        rest.len() > 0 && rest.last() == '.' && !has_char(rest.drop_last(), '.')
    }
}

/// Whether `account` is a direct subaccount of `parent`.
pub fn direct_subaccount(account: &str, parent: &str) -> (r: bool)
    ensures
        r == is_direct_subaccount(account@, parent@),
{
    let a = chars_of(account);
    let p = chars_of(parent);
    if !crate::text::text_ends_with(account, parent) {
        return false;
    }
    let n = a.len() - p.len();
    let ghost rest = account@.subrange(0, n as int);
    assert(rest.len() == n);
    assert(n > 0 ==> rest.last() == a@[n - 1]);
    if n == 0 || a[n - 1] != '.' {
        return false;
    }
    let mut i: usize = 0;
    while i < n - 1
        invariant
            a@ == account@,
            rest == account@.subrange(0, n as int),
            n == account@.len() - parent@.len(),
            0 < n <= a.len(),
            0 <= i <= n - 1,
            forall|k: int| 0 <= k < i ==> a@[k] != '.',
        decreases n - 1 - i,
    {
        if a[i] == '.' {
            assert(rest.drop_last()[i as int] == '.');
            return false;
        }
        i = i + 1;
    }
    assert forall|k: int| 0 <= k < rest.drop_last().len() implies rest.drop_last()[k] != '.' by {
        assert(rest.drop_last()[k] == a@[k]);
    }
    true
}

impl RtNewContractNep141Filter {
    /// The account, when given, is the event's; the parent, when given, has
    /// the event's account as a direct subaccount.
    pub fn matches(&self, event: &NewContractNep141EventData) -> (r: bool)
        ensures
            r == (text_wanted(self.account_id, event.account_id@) && (
            self.parent_account_id matches Some(p) ==> is_direct_subaccount(
                event.account_id@,
                p@,
            ))),
    {
        if !text_wanted_ok(&self.account_id, &event.account_id) {
            return false;
        }
        if let Some(parent) = &self.parent_account_id {
            if !direct_subaccount(event.account_id.as_str(), parent.as_str()) {
                return false;
            }
        }
        true
    }
}

} // verus!
