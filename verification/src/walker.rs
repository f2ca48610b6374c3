//! The cursor walker: pulls a complete catalog page by page.
//!
//! The walk starts at the sentinel cursor and asks the upstream for one page
//! at a time.  A page with a zero total or without a record list signals
//! exhaustion and ends the walk normally; a missing next cursor after a
//! non-empty page means no more pages going forward; a transport-level
//! failure aborts the whole walk and surfaces the error, so a caller never
//! sees a partial record list.  The two terminal conditions are kept
//! distinct: "upstream said empty" is a normal end, "upstream call failed"
//! is an error.
//!
//! The surrounding process performs the fetches; the walk logic here
//! consumes the sequence of observed outcomes, one per fetch, in order.

use vstd::prelude::*;
use vstd::string::StringExecFns;
use crate::errors::APIError;
use crate::reconcile::{get_filtered_mod_info, reconciled, ModInfo};
use crate::steam::{ModListResponse, PublishedFileDetails};

verus! {

/// The sentinel cursor a walk starts from.
pub fn start_cursor() -> (r: String)
    ensures
        r@ == "*"@,
{
    String::from_str("*")
}

/// One observed outcome of a page fetch: either the upstream answered with
/// a page, or the call failed at the transport or decoding level.
pub enum FetchOutcome {
    Page(ModListResponse),
    Failed(String),
}

/// A page that signals catalog exhaustion.
pub open spec fn page_exhausted(p: ModListResponse) -> bool {
    p.total == 0 || p.publishedfiledetails is None
}

/// The records a page carries.
pub open spec fn page_records(p: ModListResponse) -> Seq<PublishedFileDetails> {
    match p.publishedfiledetails {
        Some(v) => v@,
        None => Seq::<PublishedFileDetails>::empty(),
    }
}

/// What walking a sequence of fetch outcomes yields: the concatenated
/// records of the pages before the first exhausted page (or before a page
/// without a next cursor), the transport error that aborted the walk, or
/// `Err(None)` when the outcomes ran out before the upstream signalled
/// exhaustion.
pub open spec fn walk_spec(outcomes: Seq<FetchOutcome>) -> Result<
    Seq<PublishedFileDetails>,
    Option<String>,
>
    decreases outcomes.len(),
{
    if outcomes.len() == 0 {
        Err(None)
    } else {
        match outcomes.first() {
            FetchOutcome::Failed(msg) => Err(Some(msg)),
            FetchOutcome::Page(p) => {
                if page_exhausted(p) {
                    Ok(Seq::<PublishedFileDetails>::empty())
                } else if p.next_cursor is None {
                    Ok(page_records(p))
                } else {
                    match walk_spec(outcomes.drop_first()) {
                        Ok(rest) => Ok(page_records(p) + rest),
                        Err(e) => Err(e),
                    }
                }
            },
        }
    }
}

/// Walks the given fetch outcomes and reconciles every record of every
/// consumed page, in arrival order.  A transport failure aborts the whole
/// walk with that error and no record list; outcomes that run out before
/// the upstream signals exhaustion are reported as a transport error too.
pub fn get_filtered_mod_list(outcomes: Vec<FetchOutcome>) -> (r: Result<Vec<ModInfo>, APIError>)
    ensures
        match r {
            Ok(mods) => {
                &&& walk_spec(outcomes@) matches Ok(recs) && mods@.len() == recs.len() && (forall|
                    i: int,
                |
                    0 <= i < recs.len() ==> reconciled(recs[i], #[trigger] mods@[i]))
            },
            Err(e) => match walk_spec(outcomes@) {
                Ok(_) => false,
                Err(Some(msg)) => e == APIError::ReqwestError(msg),
                Err(None) => e matches APIError::ReqwestError(m) && m@
                    == "mod list walk ended without an exhausted page"@,
            },
        },
{
    let mut rest = outcomes;
    let mut mods: Vec<ModInfo> = Vec::new();
    let ghost mut seen: Seq<PublishedFileDetails> = Seq::<PublishedFileDetails>::empty();
    proof {
        assert(seen + walk_spec(rest@)->Ok_0 =~= walk_spec(rest@)->Ok_0);
    }
    loop
        invariant
            mods@.len() == seen.len(),
            forall|i: int| 0 <= i < seen.len() ==> reconciled(seen[i], #[trigger] mods@[i]),
            match walk_spec(rest@) {
                Ok(recs) => walk_spec(outcomes@) == Ok::<Seq<PublishedFileDetails>, Option<String>>(
                    seen + recs,
                ),
                Err(e) => walk_spec(outcomes@) == Err::<Seq<PublishedFileDetails>, Option<String>>(
                    e,
                ),
            },
        decreases rest@.len(),
    {
        if rest.len() == 0 {
            return Err(
                APIError::ReqwestError(
                    String::from_str("mod list walk ended without an exhausted page"),
                ),
            );
        }
        let ghost rest_before = rest@;
        let outcome = rest.remove(0);
        proof {
            assert(rest@ =~= rest_before.drop_first());
            assert(outcome == rest_before.first());
        }
        match outcome {
            FetchOutcome::Failed(msg) => {
                return Err(APIError::ReqwestError(msg));
            },
            FetchOutcome::Page(p) => {
                let ghost page = p;
                let ModListResponse { total, next_cursor, publishedfiledetails } = p;
                if total == 0 {
                    proof {
                        assert(page_exhausted(page));
                        assert(seen + Seq::<PublishedFileDetails>::empty() =~= seen);
                    }
                    return Ok(mods);
                }
                match publishedfiledetails {
                    None => {
                        proof {
                            assert(page_exhausted(page));
                            assert(seen + Seq::<PublishedFileDetails>::empty() =~= seen);
                        }
                        return Ok(mods);
                    },
                    Some(recs) => {
                        proof {
                            assert(!page_exhausted(page));
                            assert(page_records(page) == recs@);
                        }
                        let ghost seen_old = seen;
                        let m = recs.len();
                        let mut k: usize = 0;
                        while k < m
                            invariant
                                0 <= k <= m,
                                m == recs@.len(),
                                mods@.len() == seen_old.len() + k,
                                forall|i: int|
                                    0 <= i < seen_old.len() ==> reconciled(
                                        seen_old[i],
                                        #[trigger] mods@[i],
                                    ),
                                forall|i: int|
                                    0 <= i < k ==> reconciled(
                                        recs@[i],
                                        #[trigger] mods@[seen_old.len() + i],
                                    ),
                            decreases m - k,
                        {
                            mods.push(get_filtered_mod_info(&recs[k]));
                            k = k + 1;
                        }
                        proof {
                            seen = seen_old + recs@;
                            assert forall|i: int| 0 <= i < seen.len() implies reconciled(
                                seen[i],
                                #[trigger] mods@[i],
                            ) by {
                                if i < seen_old.len() {
                                    assert(seen[i] == seen_old[i]);
                                } else {
                                    assert(seen[i] == recs@[i - seen_old.len()]);
                                    assert(reconciled(
                                        recs@[i - seen_old.len()],
                                        mods@[seen_old.len() as int + (i - seen_old.len())],
                                    ));
                                }
                            }
                        }
                        match next_cursor {
                            None => {
                                proof {
                                    assert(page.next_cursor is None);
                                    assert(walk_spec(rest_before) == Ok::<
                                        Seq<PublishedFileDetails>,
                                        Option<String>,
                                    >(page_records(page)));
                                    assert(seen_old + page_records(page) =~= seen);
                                }
                                return Ok(mods);
                            },
                            Some(_) => {
                                proof {
                                    assert(page.next_cursor is Some);
                                    match walk_spec(rest@) {
                                        Ok(r2) => {
                                            assert(walk_spec(rest_before) == Ok::<
                                                Seq<PublishedFileDetails>,
                                                Option<String>,
                                            >(page_records(page) + r2));
                                            assert(seen_old + (page_records(page) + r2) =~= seen
                                                + r2);
                                        },
                                        Err(e) => {
                                            assert(walk_spec(rest_before) == Err::<
                                                Seq<PublishedFileDetails>,
                                                Option<String>,
                                            >(e));
                                        },
                                    }
                                }
                            },
                        }
                    },
                }
            },
        }
    }
}

/// What a live walk does after one fetched page: ask for the next cursor's
/// page, or stop.
pub enum WalkStep {
    Continue(String),
    Done,
}

/// Decides the next move of a live walk: stop on an exhausted page and on a
/// missing next cursor, else continue at the page's next cursor.
pub fn walk_step(page: &ModListResponse) -> (r: WalkStep)
    ensures
        (r is Done) == (page_exhausted(*page) || page.next_cursor is None),
        r matches WalkStep::Continue(c) ==> page.next_cursor matches Some(n) && c == n,
{
    if page.total == 0 {
        return WalkStep::Done;
    }
    if page.publishedfiledetails.is_none() {
        return WalkStep::Done;
    }
    match &page.next_cursor {
        Some(c) => WalkStep::Continue(c.clone()),
        None => WalkStep::Done,
    }
}

/// Law: a walk over three pages of which the third signals exhaustion
/// terminates and yields exactly the concatenation of the first two pages'
/// records, in order.
pub proof fn lemma_walk_two_pages_then_exhausted(
    first: ModListResponse,
    second: ModListResponse,
    third: ModListResponse,
)
    requires
        !page_exhausted(first),
        first.next_cursor is Some,
        !page_exhausted(second),
        second.next_cursor is Some,
        page_exhausted(third),
    ensures
        walk_spec(
            seq![FetchOutcome::Page(first), FetchOutcome::Page(second), FetchOutcome::Page(third)],
        ) == Ok::<Seq<PublishedFileDetails>, Option<String>>(
            page_records(first) + page_records(second),
        ),
{
    reveal_with_fuel(walk_spec, 4);
    let tail = seq![FetchOutcome::Page(third)];
    let mid = seq![FetchOutcome::Page(second), FetchOutcome::Page(third)];
    let s = seq![FetchOutcome::Page(first), FetchOutcome::Page(second), FetchOutcome::Page(third)];
    assert(tail.first() == FetchOutcome::Page(third));
    assert(walk_spec(tail) == Ok::<Seq<PublishedFileDetails>, Option<String>>(
        Seq::<PublishedFileDetails>::empty(),
    ));
    assert(mid.first() == FetchOutcome::Page(second));
    assert(mid.drop_first() =~= tail);
    assert(walk_spec(mid) == Ok::<Seq<PublishedFileDetails>, Option<String>>(
        page_records(second) + Seq::<PublishedFileDetails>::empty(),
    ));
    assert(page_records(second) + Seq::<PublishedFileDetails>::empty() =~= page_records(second));
    assert(s.first() == FetchOutcome::Page(first));
    assert(s.drop_first() =~= mid);
}

/// Law: when a later page's fetch fails at the transport level, the walk
/// surfaces that error; no partial record list reaches the caller, because
/// the walk's result is the error alone.
pub proof fn lemma_walk_transport_error_aborts(
    first: ModListResponse,
    msg: String,
    rest: Seq<FetchOutcome>,
)
    requires
        !page_exhausted(first),
        first.next_cursor is Some,
    ensures
        walk_spec(seq![FetchOutcome::Page(first), FetchOutcome::Failed(msg)] + rest) == Err::<
            Seq<PublishedFileDetails>,
            Option<String>,
        >(Some(msg)),
{
    reveal_with_fuel(walk_spec, 3);
    let s = seq![FetchOutcome::Page(first), FetchOutcome::Failed(msg)] + rest;
    assert(s.first() == FetchOutcome::Page(first));
    assert(s.drop_first().first() == FetchOutcome::Failed(msg));
    assert(s.drop_first().len() > 0);
    assert(walk_spec(s.drop_first()) == Err::<Seq<PublishedFileDetails>, Option<String>>(
        Some(msg),
    ));
}

} // verus!
