//! The per-process state of the two API surfaces: the upstream key and the
//! read-path caches, explicitly constructed and owned by the surrounding
//! process, which wraps each state in its own lock and hands it to request
//! handlers by shared reference.

use vstd::prelude::*;
use crate::cache::{CacheItem, CacheMap};
use crate::legacy;
use crate::reconcile::{AuthorInfo, ModInfo};
use crate::steam::PublishedFileDetails;

verus! {

/// State of the current API surface: author summaries and single records
/// are cached per id, the full catalog list as one entry.
pub struct Api14State {
    pub steam_api_key: String,
    pub author_cache: CacheMap<u64, AuthorInfo>,
    pub mod_cache: CacheMap<u64, PublishedFileDetails>,
    pub mod_list_cache: CacheItem<Vec<ModInfo>>,
}

impl Api14State {
    /// A fresh state: every cache empty, and the list cache's clock at the
    /// epoch so that it reads as stale.
    pub fn init(steam_api_key: String) -> (r: Api14State)
        ensures
            r.steam_api_key == steam_api_key,
            r.author_cache.wf(),
            forall|a: u64| r.author_cache.spec_lookup(a) is None,
            r.mod_cache.wf(),
            forall|a: u64| r.mod_cache.spec_lookup(a) is None,
            r.mod_list_cache.item@.len() == 0,
            r.mod_list_cache.time_stamp == 0,
    {
        Api14State {
            steam_api_key,
            author_cache: CacheMap::new(),
            mod_cache: CacheMap::new(),
            mod_list_cache: CacheItem::new(Vec::new()),
        }
    }
}

/// State of the legacy API surface: scraped author summaries are cached per
/// id, scraped entries per name, the scraped list as one entry.
pub struct Api13State {
    pub steam_api_key: String,
    pub author_cache: CacheMap<u64, legacy::AuthorInfo>,
    pub mod_cache: CacheMap<String, legacy::ModInfo>,
    pub mod_list_cache: CacheItem<Vec<legacy::ModListInfo>>,
}

impl Api13State {
    /// A fresh state: every cache empty, and the list cache's clock at the
    /// epoch so that it reads as stale.
    pub fn init(steam_api_key: String) -> (r: Api13State)
        ensures
            r.steam_api_key == steam_api_key,
            r.author_cache.wf(),
            forall|a: u64| r.author_cache.spec_lookup(a) is None,
            r.mod_cache.wf(),
            forall|a: Seq<char>| r.mod_cache.spec_lookup(a) is None,
            r.mod_list_cache.item@.len() == 0,
            r.mod_list_cache.time_stamp == 0,
    {
        Api13State {
            steam_api_key,
            author_cache: CacheMap::new(),
            mod_cache: CacheMap::new(),
            mod_list_cache: CacheItem::new(Vec::new()),
        }
    }
}

} // verus!
