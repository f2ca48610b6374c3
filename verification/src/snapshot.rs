//! The snapshot writer: one sync cycle walks the upstream, reconciles every
//! record, and then atomically replaces the current catalog and appends one
//! history row per entity for the cycle's date.
//!
//! A cycle that fails anywhere leaves the store exactly as it was: no
//! partial commit.  A walk that produces zero records refuses to overwrite
//! the catalog and surfaces an empty-snapshot error instead, so a transient
//! upstream outage cannot silently wipe the data.  History is append-only:
//! rows are never mutated or deleted; one row per entity and date is
//! appended per cycle, and the scheduler guarantees at most one cycle per
//! day.

use vstd::prelude::*;
use crate::errors::APIError;
use crate::parse::{parse_i64, parsed_i64};
use crate::reconcile::{reconciled, ModInfo};
use crate::walker::{get_filtered_mod_list, walk_spec, FetchOutcome};

verus! {

/// A calendar date in the reference timezone.
#[derive(Clone, Copy, Debug, PartialEq, Eq, Structural)]
pub struct Date {
    pub year: i32,
    pub month: u32,
    pub day: u32,
}

impl Date {
    /// The month and day lie in their calendar ranges.
    pub open spec fn wf(&self) -> bool {
        1 <= self.month <= 12 && 1 <= self.day <= 31
    }
}

/// One immutable fact per entity and date: a frozen copy of the counters,
/// the vote data and the latest version string at snapshot time.
pub struct HistoryRow {
    pub mod_id: u64,
    pub author_id: u64,
    pub date: Date,
    pub downloads_total: u32,
    pub views: u64,
    pub followers: u32,
    pub favorited: u32,
    pub votes_up: Option<u32>,
    pub votes_down: Option<u32>,
    pub score: Option<String>,
    pub num_comments: u32,
    pub playtime: i64,
    pub time_updated: u64,
    pub version: Option<String>,
}

/// The playtime counter a textual field denotes, zero when unparsable.
pub open spec fn playtime_of(s: Seq<char>) -> i64 {
    match parsed_i64(s) {
        Some(v) => v,
        None => 0,
    }
}

/// `r` is the frozen history fact of entity `m` for `d`.
pub open spec fn history_row_matches(m: ModInfo, d: Date, r: HistoryRow) -> bool {
    &&& r.mod_id == m.mod_id
    &&& r.author_id == m.author_id
    &&& r.date == d
    &&& r.downloads_total == m.downloads_total
    &&& r.views == m.views
    &&& r.followers == m.followers
    &&& r.favorited == m.favorited
    &&& r.votes_up == (match m.vote_data {
        Some(v) => Some(v.votes_up),
        None => None::<u32>,
    })
    &&& r.votes_down == (match m.vote_data {
        Some(v) => Some(v.votes_down),
        None => None::<u32>,
    })
    &&& r.score == (match m.vote_data {
        Some(v) => Some(v.score),
        None => None::<String>,
    })
    &&& r.num_comments == m.num_comments
    &&& r.playtime == playtime_of(m.playtime@)
    &&& r.time_updated == m.time_updated
    &&& r.version == (if m.versions@.len() > 0 {
        Some(m.versions@.last().mod_version)
    } else {
        None::<String>
    })
}

/// Freezes one entity's counters into its history fact for `today`.
pub fn history_row(m: &ModInfo, today: Date) -> (r: HistoryRow)
    ensures
        history_row_matches(*m, today, r),
{
    let playtime: i64 = match parse_i64(m.playtime.as_str()) {
        Some(v) => v,
        None => 0,
    };
    let version: Option<String> = if m.versions.len() > 0 {
        Some(m.versions[m.versions.len() - 1].mod_version.clone())
    } else {
        None
    };
    let (votes_up, votes_down, score): (Option<u32>, Option<u32>, Option<String>) =
        match &m.vote_data {
        Some(v) => (Some(v.votes_up), Some(v.votes_down), Some(v.score.clone())),
        None => (None, None, None),
    };
    HistoryRow {
        mod_id: m.mod_id,
        author_id: m.author_id,
        date: today,
        downloads_total: m.downloads_total,
        views: m.views,
        followers: m.followers,
        favorited: m.favorited,
        votes_up,
        votes_down,
        score,
        num_comments: m.num_comments,
        playtime,
        time_updated: m.time_updated,
        version,
    }
}

/// Freezes every entity's history fact for `today`, in catalog order.
pub fn history_rows(mods: &Vec<ModInfo>, today: Date) -> (r: Vec<HistoryRow>)
    ensures
        r@.len() == mods@.len(),
        forall|i: int|
            0 <= i < mods@.len() ==> history_row_matches(mods@[i], today, #[trigger] r@[i]),
{
    let n = mods.len();
    let mut r: Vec<HistoryRow> = Vec::new();
    let mut i: usize = 0;
    while i < n
        invariant
            0 <= i <= n,
            n == mods@.len(),
            r@.len() == i,
            forall|k: int| 0 <= k < i ==> history_row_matches(mods@[k], today, #[trigger] r@[k]),
        decreases n - i,
    {
        r.push(history_row(&mods[i], today));
        i = i + 1;
    }
    r
}

/// What one successful cycle reports.
pub struct SyncStats {
    pub records: usize,
    pub date: Date,
}

/// The persistent store the writer maintains: the replaceable current
/// catalog and the append-only history.
pub struct CatalogStore {
    mods: Vec<ModInfo>,
    history: Vec<HistoryRow>,
}

impl CatalogStore {
    /// The current catalog: the output of exactly one sync cycle.
    pub closed spec fn catalog(&self) -> Seq<ModInfo> {
        self.mods@
    }

    /// The accumulated history facts, oldest first.
    pub closed spec fn history(&self) -> Seq<HistoryRow> {
        self.history@
    }

    /// An empty store: no catalog, no history.
    pub fn new() -> (r: CatalogStore)
        ensures
            r.catalog() =~= Seq::<ModInfo>::empty(),
            r.history() =~= Seq::<HistoryRow>::empty(),
    {
        CatalogStore { mods: Vec::new(), history: Vec::new() }
    }

    /// The current catalog, exactly as the last successful cycle left it.
    pub fn get_current_catalog(&self) -> (r: &Vec<ModInfo>)
        ensures
            r@ == self.catalog(),
    {
        &self.mods
    }

    /// The accumulated history rows, oldest first.
    pub fn get_history(&self) -> (r: &Vec<HistoryRow>)
        ensures
            r@ == self.history(),
    {
        &self.history
    }

    /// Runs one sync cycle over the observed fetch outcomes.
    ///
    /// On success the catalog is wholly replaced by the freshly reconciled
    /// set (old rows discarded, not merged) and, when `append_history`
    /// holds, one history row per entity is appended for `today`.  On any
    /// error — a failed walk, or a walk that produced zero records — the
    /// store is left exactly as it was.
    pub fn run_sync_cycle(
        &mut self,
        outcomes: Vec<FetchOutcome>,
        today: Date,
        append_history: bool,
    ) -> (r: Result<SyncStats, APIError>)
        ensures
            match r {
                Ok(stats) => {
                    &&& walk_spec(outcomes@) is Ok
                    &&& walk_spec(outcomes@)->Ok_0.len() > 0
                    &&& final(self).catalog().len() == walk_spec(outcomes@)->Ok_0.len()
                    &&& forall|i: int|
                        0 <= i < walk_spec(outcomes@)->Ok_0.len() ==> reconciled(
                            walk_spec(outcomes@)->Ok_0[i],
                            #[trigger] final(self).catalog()[i],
                        )
                    &&& stats.records == final(self).catalog().len()
                    &&& stats.date == today
                    &&& append_history ==> {
                        &&& final(self).history().len() == old(self).history().len() + final(self).catalog().len()
                        &&& final(self).history().take(old(self).history().len() as int) == old(self).history()
                        &&& forall|i: int|
                            0 <= i < final(self).catalog().len() ==> history_row_matches(
                                final(self).catalog()[i],
                                today,
                                #[trigger] final(self).history()[old(self).history().len() + i],
                            )
                    }
                    &&& !append_history ==> final(self).history() == old(self).history()
                },
                Err(e) => {
                    &&& final(self).catalog() == old(self).catalog()
                    &&& final(self).history() == old(self).history()
                    &&& match walk_spec(outcomes@) {
                        Ok(recs) => recs.len() == 0 && e == APIError::EmptySnapshot,
                        Err(Some(msg)) => e == APIError::ReqwestError(msg),
                        Err(None) => e matches APIError::ReqwestError(m) && m@
                            == "mod list walk ended without an exhausted page"@,
                    }
                },
            },
    {
        let mods = match get_filtered_mod_list(outcomes) {
            Ok(mods) => mods,
            Err(e) => {
                return Err(e);
            },
        };
        if mods.len() == 0 {
            return Err(APIError::EmptySnapshot);
        }
        let count = mods.len();
        if append_history {
            let mut rows = history_rows(&mods, today);
            let ghost history_before = self.history@;
            self.history.append(&mut rows);
            proof {
                assert(self.history@.take(history_before.len() as int) =~= history_before);
            }
        }
        self.mods = mods;
        Ok(SyncStats { records: count, date: today })
    }
}

} // verus!
