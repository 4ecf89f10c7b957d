//! Potlock donation events.
use vstd::prelude::*;
use super::{keyed_get, keyed_lookup, text_wanted, text_wanted_ok};

verus! {

/// Fired when someone donates to a pot.
pub struct PotlockPotDonationEvent;

impl PotlockPotDonationEvent {
    pub const ID: &'static str = "potlock_pot_donation";
}

/// The payload of a pot donation; `donated_at` is in milliseconds since the
/// Unix epoch.
#[derive(Debug)]
pub struct PotlockPotDonationEventData {
    pub donation_id: u64,
    pub pot_id: String,
    pub donor_id: String,
    pub total_amount: u128,
    pub net_amount: u128,
    pub message: Option<String>,
    pub donated_at: i64,
    pub protocol_fee: u128,
    pub referrer_id: Option<String>,
    pub referrer_fee: Option<u128>,
    pub chef_id: Option<String>,
    pub chef_fee: Option<u128>,
    pub transaction_id: String,
    pub receipt_id: String,
    pub block_height: u64,
    pub block_timestamp_nanosec: u128,
}

/// The filter of pot donation queries.
#[derive(Debug)]
pub struct DbPotlockPotDonationFilter {
    pub pot_id: Option<String>,
    pub donor_id: Option<String>,
    pub referrer_id: Option<String>,
}

/// Stores pot donations.
pub struct DbPotlockPotDonationAdapter;

/// The realtime filter of pot donations.
#[derive(Debug)]
pub struct RtPotlockPotDonationFilter {
    pub pot_id: Option<String>,
    pub donor_id: Option<String>,
    pub referrer_id: Option<String>,
}

/// A wanted referrer, when given, is the donation's referrer (a donation
/// without a referrer does not match a wanted one).
pub open spec fn referrer_wanted(wanted: Option<String>, actual: Option<String>) -> bool {
    match wanted {
        Some(w) => actual matches Some(a) && a@ == w@,
        None => true,
    }
}

fn referrer_wanted_ok(wanted: &Option<String>, actual: &Option<String>) -> (r: bool)
    ensures
        r == referrer_wanted(*wanted, *actual),
{
    match wanted {
        Some(w) => match actual {
            Some(a) => *a == *w,
            None => false,
        },
        None => true,
    }
}

impl RtPotlockPotDonationFilter {
    /// The pot, the donor and the referrer, when given, are the donation's.
    pub fn matches(&self, event: &PotlockPotDonationEventData) -> (r: bool)
        ensures
            r == (text_wanted(self.pot_id, event.pot_id@) && text_wanted(
                self.donor_id,
                event.donor_id@,
            ) && referrer_wanted(self.referrer_id, event.referrer_id)),
    {
        if !text_wanted_ok(&self.pot_id, &event.pot_id) {
            return false;
        }
        if !text_wanted_ok(&self.donor_id, &event.donor_id) {
            return false;
        }
        referrer_wanted_ok(&self.referrer_id, &event.referrer_id)
    }
}

/// Fired when someone donates to a project through a pot.
pub struct PotlockPotProjectDonationEvent;

impl PotlockPotProjectDonationEvent {
    pub const ID: &'static str = "potlock_pot_project_donation";
}

/// The payload of a project donation through a pot.
#[derive(Debug)]
pub struct PotlockPotProjectDonationEventData {
    pub donation_id: u64,
    pub pot_id: String,
    pub donor_id: String,
    pub total_amount: u128,
    pub net_amount: u128,
    pub message: Option<String>,
    pub donated_at: i64,
    pub project_id: String,
    pub protocol_fee: u128,
    pub referrer_id: Option<String>,
    pub referrer_fee: Option<u128>,
    pub chef_id: Option<String>,
    pub chef_fee: Option<u128>,
    pub transaction_id: String,
    pub receipt_id: String,
    pub block_height: u64,
    pub block_timestamp_nanosec: u128,
}

/// The filter of project donation queries.
#[derive(Debug)]
pub struct DbPotlockPotProjectDonationFilter {
    pub pot_id: Option<String>,
    pub project_id: Option<String>,
    pub donor_id: Option<String>,
    pub referrer_id: Option<String>,
}

/// Stores project donations.
pub struct DbPotlockPotProjectDonationAdapter;

/// The realtime filter of project donations. `min_amounts` gives, per donor,
/// the least total amount that passes.
#[derive(Debug)]
pub struct RtPotlockPotProjectDonationFilter {
    pub pot_id: Option<String>,
    pub project_id: Option<String>,
    pub donor_id: Option<String>,
    pub referrer_id: Option<String>,
    pub min_amounts: Option<Vec<(String, u128)>>,
}

impl RtPotlockPotProjectDonationFilter {
    /// Every condition that is given holds of the donation; a minimum listed
    /// for the donor is reached by the total amount.
    pub fn matches(&self, event: &PotlockPotProjectDonationEventData) -> (r: bool)
        ensures
            r == (text_wanted(self.pot_id, event.pot_id@) && text_wanted(
                self.project_id,
                event.project_id@,
            ) && text_wanted(self.donor_id, event.donor_id@) && referrer_wanted(
                self.referrer_id,
                event.referrer_id,
            ) && (self.min_amounts matches Some(m) ==> (keyed_lookup(
                m@,
                event.donor_id@,
            ) matches Some(min) ==> event.total_amount >= min))),
    {
        if !text_wanted_ok(&self.pot_id, &event.pot_id) {
            return false;
        }
        if !text_wanted_ok(&self.project_id, &event.project_id) {
            return false;
        }
        if !text_wanted_ok(&self.donor_id, &event.donor_id) {
            return false;
        }
        if !referrer_wanted_ok(&self.referrer_id, &event.referrer_id) {
            return false;
        }
        if let Some(min_amounts) = &self.min_amounts {
            if let Some(min_amount) = keyed_get(min_amounts, &event.donor_id) {
                if event.total_amount < min_amount {
                    return false;
                }
            }
        }
        true
    }
}

} // verus!
