//! Contract log events: plain log lines and NEP-297 structured events.
use vstd::prelude::*;
use crate::json::JsonValue;
use crate::text::{contains_text, is_prefix, is_suffix, text_contains, text_ends_with, text_starts_with};
use super::{text_wanted, text_wanted_ok};

verus! {

#[verifier::external_type_specification]
#[verifier::external_body]
pub struct ExSemverVersion(semver::Version);

#[verifier::external_type_specification]
#[verifier::external_body]
pub struct ExSemverVersionReq(semver::VersionReq);

#[verifier::external_type_specification]
#[verifier::external_body]
pub struct ExSemverError(semver::Error);

/// What `semver::Version::parse` gives for a text: the version it reads, or
/// why the text is not a SemVer 2.0 version.
pub uninterp spec fn semver_version_parse(text: Seq<char>) -> Result<semver::Version, semver::Error>;

/// What `semver::VersionReq::parse` gives for a text: the requirement it
/// reads, or why the text is not a version requirement.
pub uninterp spec fn semver_requirement_parse(text: Seq<char>) -> Result<semver::VersionReq, semver::Error>;

/// Whether a version meets a requirement, as `semver::VersionReq::matches`
/// answers.
pub uninterp spec fn semver_req_matches(req: semver::VersionReq, version: semver::Version) -> bool;

/// `semver::Version::parse`.
#[verifier::external_body]
fn parse_semver_version(text: &str) -> (r: Result<semver::Version, semver::Error>)
    ensures
        r == semver_version_parse(text@),
{
    semver::Version::parse(text)
}

/// `semver::VersionReq::parse`.
#[verifier::external_body]
fn parse_semver_requirement(text: &str) -> (r: Result<semver::VersionReq, semver::Error>)
    ensures
        r == semver_requirement_parse(text@),
{
    semver::VersionReq::parse(text)
}

/// `semver::VersionReq::matches`: whether the version meets the requirement.
#[verifier::external_body]
fn semver_requirement_matches(req: &semver::VersionReq, version: &semver::Version) -> (r: bool)
    ensures
        r == semver_req_matches(*req, *version),
{
    req.matches(version)
}

/// All NEP-297 events produced by smart contracts.
pub struct LogNep297Event;

impl LogNep297Event {
    pub const ID: &'static str = "log_nep297";
}

/// The payload of a NEP-297 event.
#[derive(Debug)]
pub struct LogNep297EventData {
    pub block_height: u64,
    pub block_timestamp_nanosec: u128,
    pub transaction_id: String,
    pub receipt_id: String,
    pub account_id: String,
    pub predecessor_id: String,
    pub event_standard: String,
    pub event_version: String,
    pub event_event: String,
    pub event_data: Option<JsonValue>,
}

/// The filter of NEP-297 event queries.
#[derive(Debug)]
pub struct DbLogNep297Filter {
    pub account_id: Option<String>,
    pub predecessor_id: Option<String>,
    pub event_standard: Option<String>,
    pub event_version: Option<String>,
    pub event_event: Option<String>,
}

/// Stores NEP-297 events.
pub struct DbLogNep297Adapter;

/// The realtime filter of NEP-297 events. `version_match` is a SemVer
/// requirement (for example `^1.0.0`) that the event's version must meet.
#[derive(Debug)]
pub struct RtLogNep297Filter {
    pub account_id: Option<String>,
    pub predecessor_id: Option<String>,
    pub standard: Option<String>,
    pub version_exact: Option<String>,
    pub version_match: Option<semver::VersionReq>,
    pub event: Option<String>,
}

/// The version requirement of a filter could not be read.
#[derive(Debug)]
pub enum VersionRequirementError {
    Invalid(semver::Error),
}

/// Reads the optional version requirement of a NEP-297 filter: absent stays
/// absent, present must parse.
pub fn deserialize_version_req(text: Option<&str>) -> (r: Result<Option<semver::VersionReq>, VersionRequirementError>)
    ensures
        text is None ==> r matches Ok(None),
        text matches Some(t) ==> match semver_requirement_parse(t@) {
            Ok(req) => r matches Ok(Some(q)) && q == req,
            Err(e) => r matches Err(VersionRequirementError::Invalid(x)) && x == e,
        },
{
    match text {
        None => Ok(None),
        Some(t) => match parse_semver_requirement(t) {
            Ok(req) => Ok(Some(req)),
            Err(e) => Err(VersionRequirementError::Invalid(e)),
        },
    }
}

impl RtLogNep297Filter {
    /// The conditions of the filter on everything but the version requirement.
    pub open spec fn plain_conditions(&self, event: &LogNep297EventData) -> bool {
        &&& text_wanted(self.account_id, event.account_id@)
        &&& text_wanted(self.predecessor_id, event.predecessor_id@)
        &&& text_wanted(self.standard, event.event_standard@)
        &&& text_wanted(self.version_exact, event.event_version@)
        &&& text_wanted(self.event, event.event_event@)
    }

    /// The outcome of the filter given whether the event's version meets the
    /// version requirement (`version_accepted`, read only when a requirement
    /// is given).
    pub fn matches_with_version(&self, event: &LogNep297EventData, version_accepted: bool) -> (r: bool)
        ensures
            r == (self.plain_conditions(event) && (self.version_match is Some ==> version_accepted)),
    {
        if !text_wanted_ok(&self.account_id, &event.account_id) {
            return false;
        }
        if !text_wanted_ok(&self.predecessor_id, &event.predecessor_id) {
            return false;
        }
        if !text_wanted_ok(&self.standard, &event.event_standard) {
            return false;
        }
        if !text_wanted_ok(&self.version_exact, &event.event_version) {
            return false;
        }
        if self.version_match.is_some() && !version_accepted {
            return false;
        }
        if !text_wanted_ok(&self.event, &event.event_event) {
            return false;
        }
        true
    }

    /// Whether the event passes the filter. With a version requirement, the
    /// event's version must parse as a SemVer version and meet it.
    pub fn matches(&self, event: &LogNep297EventData) -> (r: bool)
        ensures
            r == (self.plain_conditions(event) && match self.version_match {
                None => true,
                Some(req) => match semver_version_parse(event.event_version@) {
                    Ok(version) => semver_req_matches(req, version),
                    Err(_) => false,
                },
            }),
    {
        let accepted = match &self.version_match {
            None => true,
            Some(req) => match parse_semver_version(event.event_version.as_str()) {
                Ok(version) => semver_requirement_matches(req, &version),
                Err(_) => false,
            },
        };
        self.matches_with_version(event, accepted)
    }
}

/// All logs produced by smart contracts.
pub struct LogTextEvent;

impl LogTextEvent {
    pub const ID: &'static str = "log_text";
}

/// The payload of a log line.
#[derive(Debug)]
pub struct LogTextEventData {
    pub block_height: u64,
    pub block_timestamp_nanosec: u128,
    pub transaction_id: String,
    pub receipt_id: String,
    pub account_id: String,
    pub predecessor_id: String,
    pub log_text: String,
}

/// The filter of log line queries.
#[derive(Debug)]
pub struct DbLogTextFilter {
    pub account_id: Option<String>,
    pub predecessor_id: Option<String>,
}

/// Stores log lines.
pub struct DbLogTextAdapter;

/// The realtime filter of log lines.
#[derive(Debug)]
pub struct RtLogTextFilter {
    pub account_id: Option<String>,
    pub predecessor_id: Option<String>,
    pub text: Option<String>,
    pub text_starts_with: Option<String>,
    pub text_ends_with: Option<String>,
    pub text_contains: Option<String>,
}

impl RtLogTextFilter {
    /// Every condition that is given holds of the log line: same account and
    /// predecessor, the exact text, a prefix, a suffix, a part of the text.
    pub fn matches(&self, event: &LogTextEventData) -> (r: bool)
        ensures
            r == (text_wanted(self.account_id, event.account_id@) && text_wanted(
                self.predecessor_id,
                event.predecessor_id@,
            ) && text_wanted(self.text, event.log_text@) && (self.text_starts_with matches Some(
                p,
            ) ==> is_prefix(p@, event.log_text@)) && (self.text_ends_with matches Some(s) ==> is_suffix(
                s@,
                event.log_text@,
            )) && (self.text_contains matches Some(c) ==> contains_text(event.log_text@, c@))),
    {
        if !text_wanted_ok(&self.account_id, &event.account_id) {
            return false;
        }
        if !text_wanted_ok(&self.predecessor_id, &event.predecessor_id) {
            return false;
        }
        if !text_wanted_ok(&self.text, &event.log_text) {
            return false;
        }
        if let Some(p) = &self.text_starts_with {
            if !text_starts_with(event.log_text.as_str(), p.as_str()) {
                return false;
            }
        }
        if let Some(s) = &self.text_ends_with {
            if !text_ends_with(event.log_text.as_str(), s.as_str()) {
                return false;
            }
        }
        if let Some(c) = &self.text_contains {
            if !text_contains(event.log_text.as_str(), c.as_str()) {
                return false;
            }
        }
        true
    }
}

} // verus!
