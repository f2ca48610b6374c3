//! The shapes the upstream workshop API delivers, modeled as plain data,
//! together with the small decisions made on them: picking the first result
//! out of a response, validating an id range, and building the paginated
//! query URL.
//!
//! The surrounding process performs the HTTP calls and decodes the JSON
//! bodies into these types; everything here is a pure function of the
//! decoded values.

use vstd::prelude::*;
use vstd::string::StringExecFns;
use crate::errors::APIError;
use crate::parse::{parse_u64, parsed_u64};

verus! {

/// The envelope every API answer arrives in.
pub struct Response<T> {
    pub response: T,
}

/// A per-item answer: either the looked-up record, or an opaque error body
/// for that one item.
pub enum SteamResult<T> {
    Found(T),
    Failed(String),
}

/// The answer to a total-count query.
pub struct CountResponse {
    pub total: u32,
}

/// The answer to a vanity-name resolution.
pub struct IDResponse {
    pub steamid: Option<String>,
    pub success: u32,
}

/// The answer to a single-entity lookup.
pub struct ModResponse {
    pub publishedfiledetails: Vec<SteamResult<PublishedFileDetails>>,
}

/// One page of the paginated catalog query.
pub struct ModListResponse {
    pub total: u32,
    pub next_cursor: Option<String>,
    pub publishedfiledetails: Option<Vec<PublishedFileDetails>>,
}

/// The answer to a name-to-id query.
pub struct ModIDListResponse {
    pub publishedfiledetails: Option<Vec<PublishedFileID>>,
}

/// A bare entity id, delivered as a string.
#[derive(Clone, Debug, PartialEq, Eq)]
pub struct PublishedFileID {
    pub publishedfileid: String,
}

/// A child entity reference.
#[derive(Clone, Debug, PartialEq, Eq)]
pub struct Child {
    pub publishedfileid: String,
    pub sortorder: u32,
    pub file_type: u32,
}

/// Community vote counters; the score arrives as a decimal fraction and is
/// carried as its text.
#[derive(Clone, Debug, PartialEq, Eq)]
pub struct VoteData {
    pub score: String,
    pub votes_up: u32,
    pub votes_down: u32,
}

/// One free-form key/value tag attached to a raw record; the vocabulary is
/// externally controlled and open-ended.
#[derive(Clone, Debug, PartialEq, Eq)]
pub struct KVTag {
    pub key: String,
    pub value: String,
}

/// A curated category tag.
#[derive(Clone, Debug, PartialEq, Eq)]
pub struct ModTag {
    pub tag: String,
    pub display_name: String,
}

/// The answer to a player-summary query.
pub struct SteamUserInfoResponse {
    pub players: Vec<SteamUserInfo>,
}

/// One player summary.
#[derive(Clone, Debug, PartialEq, Eq)]
pub struct SteamUserInfo {
    pub steamid: String,
    pub personaname: String,
    pub profileurl: String,
    pub avatar: String,
    pub avatarmedium: String,
    pub avatarfull: String,
}

/// One raw upstream record: the structured payload plus the open-ended tag
/// list.  The upstream may omit any structured field, so each is optional
/// and defaults to its zero value during reconciliation.
pub struct PublishedFileDetails {
    pub result: Option<u32>,
    pub publishedfileid: Option<String>,
    pub title: Option<String>,
    pub creator: Option<u64>,
    pub kvtags: Option<Vec<KVTag>>,
    pub tags: Option<Vec<ModTag>>,
    pub time_created: Option<u64>,
    pub time_updated: Option<u64>,
    pub preview_url: Option<String>,
    pub children: Option<Vec<Child>>,
    pub file_description: Option<String>,
    pub subscriptions: Option<u32>,
    pub favorited: Option<u32>,
    pub views: Option<u64>,
    pub lifetime_playtime: Option<String>,
    pub followers: Option<u32>,
    pub vote_data: Option<VoteData>,
    pub num_comments_public: Option<u32>,
    pub revision_change_number: Option<String>,
}

/// The range of valid 64-bit account ids.
pub open spec fn valid_steamid64(id: u64) -> bool {
    0x0110000100000001 <= id <= 0x01100001FFFFFFFF
}

/// Accepts an id exactly when it lies in the valid account-id range.
pub fn validate_steamid64(steamid: u64) -> (r: Result<u64, APIError>)
    ensures
        valid_steamid64(steamid) ==> r == Ok::<u64, APIError>(steamid),
        !valid_steamid64(steamid) ==> r == Err::<u64, APIError>(APIError::InvalidSteamID(steamid)),
{
    if 0x0110000100000001u64 <= steamid && steamid <= 0x01100001FFFFFFFFu64 {
        Ok(steamid)
    } else {
        Err(APIError::InvalidSteamID(steamid))
    }
}

/// The record of a single-entity lookup: the first per-item answer if the
/// response carries one and it is a record; the id is otherwise reported as
/// unknown.
pub fn first_mod_details(res: ModResponse, modid: u64) -> (r: Result<
    PublishedFileDetails,
    APIError,
>)
    ensures
        res.publishedfiledetails@.len() > 0 ==> match res.publishedfiledetails@[0] {
            SteamResult::Found(d) => r == Ok::<PublishedFileDetails, APIError>(d),
            SteamResult::Failed(_) => r == Err::<PublishedFileDetails, APIError>(
                APIError::InvalidModID(modid),
            ),
        },
        res.publishedfiledetails@.len() == 0 ==> r == Err::<PublishedFileDetails, APIError>(
            APIError::InvalidModID(modid),
        ),
{
    let mut details = res.publishedfiledetails;
    if details.len() == 0 {
        return Err(APIError::InvalidModID(modid));
    }
    match details.remove(0) {
        SteamResult::Found(d) => Ok(d),
        SteamResult::Failed(_) => Err(APIError::InvalidModID(modid)),
    }
}

/// The id a name-to-id query resolved to: the first returned id when the
/// response carries one and it parses as a number; the name is otherwise
/// reported as unknown.
pub fn first_mod_id(res: &ModIDListResponse, modname: &str) -> (r: Result<u64, APIError>)
    ensures
        match r {
            Ok(id) => res.publishedfiledetails matches Some(v) && v@.len() > 0 && parsed_u64(
                v@[0].publishedfileid@,
            ) == Some(id),
            Err(e) => {
                &&& (e matches APIError::InvalidModName(m) && m@ == modname@)
                &&& match res.publishedfiledetails {
                    Some(v) => v@.len() == 0 || parsed_u64(v@[0].publishedfileid@) is None,
                    None => true,
                }
            },
        },
{
    match &res.publishedfiledetails {
        Some(v) => {
            if v.len() == 0 {
                return Err(APIError::InvalidModName(modname.to_owned()));
            }
            match parse_u64(v[0].publishedfileid.as_str()) {
                Some(id) => Ok(id),
                None => Err(APIError::InvalidModName(modname.to_owned())),
            }
        },
        None => Err(APIError::InvalidModName(modname.to_owned())),
    }
}

/// The id a vanity name resolved to: present and numeric, or the name is
/// reported as not resolvable.
pub fn resolve_vanity(res: &IDResponse, steamname: &str) -> (r: Result<u64, APIError>)
    ensures
        match r {
            Ok(id) => res.steamid matches Some(s) && parsed_u64(s@) == Some(id),
            Err(e) => {
                &&& (e matches APIError::SteamNameNotResolveable(m) && m@ == steamname@)
                &&& match res.steamid {
                    Some(s) => parsed_u64(s@) is None,
                    None => true,
                }
            },
        },
{
    match &res.steamid {
        Some(s) => match parse_u64(s.as_str()) {
            Some(id) => Ok(id),
            None => Err(APIError::SteamNameNotResolveable(steamname.to_owned())),
        },
        None => Err(APIError::SteamNameNotResolveable(steamname.to_owned())),
    }
}

/// The first player of a player-summary answer, or the id is reported as
/// unknown when the answer carries none.
pub fn first_player(res: SteamUserInfoResponse, steamid: u64) -> (r: Result<
    SteamUserInfo,
    APIError,
>)
    ensures
        res.players@.len() > 0 ==> r == Ok::<SteamUserInfo, APIError>(res.players@[0]),
        res.players@.len() == 0 ==> r == Err::<SteamUserInfo, APIError>(
            APIError::SteamIDNotFound(steamid),
        ),
{
    let mut players = res.players;
    if players.len() == 0 {
        return Err(APIError::SteamIDNotFound(steamid));
    }
    Ok(players.remove(0))
}

/// The id-to-avatar pairs of a player-summary list, in order.
pub fn avatar_pairs(users: &Vec<SteamUserInfo>) -> (r: Vec<(String, String)>)
    ensures
        r@.len() == users@.len(),
        forall|i: int|
            0 <= i < users@.len() ==> (#[trigger] r@[i]).0 == users@[i].steamid && r@[i].1
                == users@[i].avatarfull,
{
    let n = users.len();
    let mut r: Vec<(String, String)> = Vec::new();
    let mut i: usize = 0;
    while i < n
        invariant
            0 <= i <= n,
            n == users@.len(),
            r@.len() == i,
            forall|k: int|
                0 <= k < i ==> (#[trigger] r@[k]).0 == users@[k].steamid && r@[k].1
                    == users@[k].avatarfull,
        decreases n - i,
    {
        r.push((users[i].steamid.clone(), users[i].avatarfull.clone()));
        i = i + 1;
    }
    r
}

/// What `urlencoding::encode` turns a string into.
pub uninterp spec fn url_encoded(s: Seq<char>) -> Seq<char>;

/// Relies on `urlencoding::encode`: percent-encodes every byte except ASCII
/// alphanumerics and `-`, `_`, `.`, `~`; the result is a function of the
/// input characters alone, and an empty input stays empty.
#[verifier::external_body]
fn encode_component(s: &str) -> (r: String)
    ensures
        r@ == url_encoded(s@),
        s@.len() == 0 ==> r@.len() == 0,
{
    urlencoding::encode(s).into_owned()
}

/// The full paginated catalog query for one cursor position, with the
/// cursor percent-encoded into the query string.
pub fn mod_list_url(cursor: &str, api_key: &str) -> (r: String)
    ensures
        r@ == "https://api.steampowered.com/IPublishedFileService/QueryFiles/v1/?key="@
            + api_key@ + "&appid=1281930&cursor="@ + url_encoded(cursor@)
            + "&numperpage=10000&cache_max_age_seconds=0&return_details=true&return_kv_tags=true&return_children=true&return_tags=true&return_vote_data=true"@,
{
    let mut url = String::from_str(
        "https://api.steampowered.com/IPublishedFileService/QueryFiles/v1/?key=",
    );
    url.append(api_key);
    url.append("&appid=1281930&cursor=");
    let encoded = encode_component(cursor);
    url.append(encoded.as_str());
    url.append(
        "&numperpage=10000&cache_max_age_seconds=0&return_details=true&return_kv_tags=true&return_children=true&return_tags=true&return_vote_data=true",
    );
    url
}

} // verus!
