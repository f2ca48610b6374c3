//! The library's error taxonomy.
//!
//! Transport and decoding failures abort the cycle that hit them and are
//! retried by the next scheduled run; a looked-up name or id that does not
//! resolve is a normal negative result; an empty walk refuses to overwrite
//! the catalog; a failed persistence step aborts without a partial write.

use vstd::prelude::*;
use vstd::string::StringExecFns;
use crate::parse::{dec_seq, u64_to_dec};

verus! {

/// Everything a read path or a sync cycle can fail with.
#[derive(Clone, Debug, PartialEq, Eq)]
pub enum APIError {
    /// A response body could not be decoded.
    JSONError(String),
    /// An upstream call failed at the transport level (timeout included).
    ReqwestError(String),
    /// A vanity name did not resolve to an id.
    SteamNameNotResolveable(String),
    /// No user exists under the given id.
    SteamIDNotFound(u64),
    /// The given id lies outside the valid id range.
    InvalidSteamID(u64),
    /// No entity exists under the given name.
    InvalidModName(String),
    /// No entity exists under the given id.
    InvalidModID(u64),
    /// A scraped page could not be parsed.
    ScrapeError(String),
    /// The persistence step failed; nothing was committed.
    DBError(String),
    /// A walk produced zero records, so the catalog was left untouched.
    EmptySnapshot,
}

impl APIError {
    /// A short label naming the kind of error; the id-not-found variant
    /// reports the same label as the name-resolution failure.
    pub fn name(&self) -> (r: &'static str)
        ensures
            r@ == match self {
                APIError::JSONError(_) => "JSONError"@,
                APIError::ReqwestError(_) => "ReqwestError"@,
                APIError::SteamNameNotResolveable(_) => "SteamNameNotResolveable"@,
                APIError::SteamIDNotFound(_) => "SteamNameNotResolveable"@,
                APIError::InvalidSteamID(_) => "InvalidSteamID"@,
                APIError::InvalidModName(_) => "InvalidModName"@,
                APIError::InvalidModID(_) => "InvalidModID"@,
                APIError::ScrapeError(_) => "ScrapeError"@,
                APIError::DBError(_) => "DBError"@,
                APIError::EmptySnapshot => "EmptySnapshot"@,
            },
    {
        match self {
            APIError::JSONError(_) => "JSONError",
            APIError::ReqwestError(_) => "ReqwestError",
            APIError::SteamNameNotResolveable(_) => "SteamNameNotResolveable",
            APIError::SteamIDNotFound(_) => "SteamNameNotResolveable",
            APIError::InvalidSteamID(_) => "InvalidSteamID",
            APIError::InvalidModName(_) => "InvalidModName",
            APIError::InvalidModID(_) => "InvalidModID",
            APIError::ScrapeError(_) => "ScrapeError",
            APIError::DBError(_) => "DBError",
            APIError::EmptySnapshot => "EmptySnapshot",
        }
    }

    /// The status code an HTTP answer carries for this error: server-side
    /// failures for transport, decoding, scraping, persistence and an empty
    /// snapshot; a client-side rejection for everything a caller named
    /// wrongly.
    pub fn status_code(&self) -> (r: u16)
        ensures
            r == match self {
                APIError::JSONError(_) => 500u16,
                APIError::ReqwestError(_) => 500u16,
                APIError::SteamNameNotResolveable(_) => 400u16,
                APIError::SteamIDNotFound(_) => 400u16,
                APIError::InvalidSteamID(_) => 400u16,
                APIError::InvalidModName(_) => 400u16,
                APIError::InvalidModID(_) => 400u16,
                APIError::ScrapeError(_) => 500u16,
                APIError::DBError(_) => 500u16,
                APIError::EmptySnapshot => 500u16,
            },
    {
        match self {
            APIError::JSONError(_) => 500,
            APIError::ReqwestError(_) => 500,
            APIError::SteamNameNotResolveable(_) => 400,
            APIError::SteamIDNotFound(_) => 400,
            APIError::InvalidSteamID(_) => 400,
            APIError::InvalidModName(_) => 400,
            APIError::InvalidModID(_) => 400,
            APIError::ScrapeError(_) => 500,
            APIError::DBError(_) => 500,
            APIError::EmptySnapshot => 500,
        }
    }

    /// The operator-facing description of this error, with the offending
    /// value quoted.
    pub fn message(&self) -> (r: String)
        ensures
            r@ == match self {
                APIError::JSONError(m) => "Could not parse request: '"@ + m@ + "'"@,
                APIError::ReqwestError(m) => "Could not parse json: '"@ + m@ + "'"@,
                APIError::SteamNameNotResolveable(m) =>
                    "No steamid found for the specified steam name of: '"@ + m@ + "'"@,
                APIError::SteamIDNotFound(id) =>
                    "No steam user found for the specified steam id of: '"@ + dec_seq(*id) + "'"@,
                APIError::InvalidSteamID(id) => "The steamid '"@ + dec_seq(*id) + "' is invalid"@,
                APIError::InvalidModName(m) =>
                    "Could not find a mod with the provided name: '"@ + m@ + "'"@,
                APIError::InvalidModID(id) => "Could not find a mod with the id '"@ + dec_seq(*id)
                    + "'"@,
                APIError::ScrapeError(m) => "Could not scrape html: '"@ + m@ + "'"@,
                APIError::DBError(m) => "Could not update the database: '"@ + m@ + "'"@,
                APIError::EmptySnapshot => "The catalog sync produced no records"@,
            },
    {
        match self {
            APIError::JSONError(m) => quoted("Could not parse request: '", m.as_str()),
            APIError::ReqwestError(m) => quoted("Could not parse json: '", m.as_str()),
            APIError::SteamNameNotResolveable(m) => quoted(
                "No steamid found for the specified steam name of: '",
                m.as_str(),
            ),
            APIError::SteamIDNotFound(id) => quoted(
                "No steam user found for the specified steam id of: '",
                u64_to_dec(*id).as_str(),
            ),
            APIError::InvalidSteamID(id) => {
                let mut s = String::from_str("The steamid '");
                let digits = u64_to_dec(*id);
                s.append(digits.as_str());
                s.append("' is invalid");
                s
            },
            APIError::InvalidModName(m) => quoted(
                "Could not find a mod with the provided name: '",
                m.as_str(),
            ),
            APIError::InvalidModID(id) => quoted(
                "Could not find a mod with the id '",
                u64_to_dec(*id).as_str(),
            ),
            APIError::ScrapeError(m) => quoted("Could not scrape html: '", m.as_str()),
            APIError::DBError(m) => quoted("Could not update the database: '", m.as_str()),
            APIError::EmptySnapshot => String::from_str("The catalog sync produced no records"),
        }
    }
}

/// A message built as an opening text, the quoted value, and the closing
/// quote.
fn quoted(lead: &str, value: &str) -> (r: String)
    ensures
        r@ == lead@ + value@ + "'"@,
{
    let mut s = String::from_str(lead);
    s.append(value);
    s.append("'");
    s
}

} // verus!
