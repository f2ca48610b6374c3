use tmlapis::errors::APIError;
use tmlapis::steam::{KVTag, ModListResponse, PublishedFileDetails};
use tmlapis::walker::{get_filtered_mod_list, start_cursor, walk_step, FetchOutcome, WalkStep};

fn record(id: &str) -> PublishedFileDetails {
    PublishedFileDetails {
        result: Some(1),
        publishedfileid: Some(String::from(id)),
        title: None,
        creator: None,
        kvtags: Some(vec![KVTag { key: String::from("name"), value: String::from(id) }]),
        tags: None,
        time_created: None,
        time_updated: None,
        preview_url: None,
        children: None,
        file_description: None,
        subscriptions: None,
        favorited: None,
        views: None,
        lifetime_playtime: None,
        followers: None,
        vote_data: None,
        num_comments_public: None,
        revision_change_number: None,
    }
}

fn page(ids: &[&str], total: u32, next: Option<&str>) -> ModListResponse {
    ModListResponse {
        total,
        next_cursor: next.map(String::from),
        publishedfiledetails: Some(ids.iter().map(|id| record(id)).collect()),
    }
}

#[test]
fn start_cursor_is_the_sentinel() {
    assert_eq!(start_cursor(), "*");
}

#[test]
fn two_pages_then_exhausted_page_concatenates_in_order() {
    let outcomes = vec![
        FetchOutcome::Page(page(&["1", "2"], 4, Some("c1"))),
        FetchOutcome::Page(page(&["3", "4"], 4, Some("c2"))),
        FetchOutcome::Page(ModListResponse { total: 0, next_cursor: None, publishedfiledetails: None }),
    ];
    let mods = get_filtered_mod_list(outcomes).expect("walk must complete");
    let ids: Vec<u64> = mods.iter().map(|m| m.mod_id).collect();
    assert_eq!(ids, vec![1, 2, 3, 4]);
}

#[test]
fn zero_total_page_is_a_normal_end_even_with_records() {
    let outcomes = vec![
        FetchOutcome::Page(page(&["1"], 1, Some("c1"))),
        FetchOutcome::Page(page(&["9"], 0, Some("c2"))),
    ];
    let mods = get_filtered_mod_list(outcomes).expect("walk must complete");
    assert_eq!(mods.len(), 1);
    assert_eq!(mods[0].mod_id, 1);
}

#[test]
fn missing_record_list_is_a_normal_end() {
    let outcomes = vec![
        FetchOutcome::Page(page(&["1"], 2, Some("c1"))),
        FetchOutcome::Page(ModListResponse { total: 2, next_cursor: Some(String::from("c2")), publishedfiledetails: None }),
    ];
    let mods = get_filtered_mod_list(outcomes).expect("walk must complete");
    assert_eq!(mods.len(), 1);
}

#[test]
fn missing_next_cursor_ends_the_walk_after_that_page() {
    let outcomes = vec![
        FetchOutcome::Page(page(&["1", "2"], 2, None)),
        FetchOutcome::Failed(String::from("must never be reached")),
    ];
    let mods = get_filtered_mod_list(outcomes).expect("walk must complete");
    assert_eq!(mods.len(), 2);
}

#[test]
fn transport_error_on_second_page_surfaces_and_yields_no_list() {
    let outcomes = vec![
        FetchOutcome::Page(page(&["1"], 3, Some("c1"))),
        FetchOutcome::Failed(String::from("connection reset")),
        FetchOutcome::Page(page(&["2"], 3, Some("c2"))),
    ];
    match get_filtered_mod_list(outcomes) {
        Ok(_) => panic!("a failed fetch must abort the walk"),
        Err(APIError::ReqwestError(msg)) => assert_eq!(msg, "connection reset"),
        Err(_) => panic!("the transport error must surface unchanged"),
    }
}

#[test]
fn outcomes_running_out_is_an_error_not_an_empty_catalog() {
    let outcomes = vec![FetchOutcome::Page(page(&["1"], 9, Some("c1")))];
    assert!(matches!(get_filtered_mod_list(outcomes), Err(APIError::ReqwestError(_))));
    assert!(matches!(get_filtered_mod_list(Vec::new()), Err(APIError::ReqwestError(_))));
}

#[test]
fn live_walk_steps_follow_the_termination_rules() {
    let live = page(&["1"], 3, Some("next-cursor"));
    match walk_step(&live) {
        WalkStep::Continue(c) => assert_eq!(c, "next-cursor"),
        WalkStep::Done => panic!("a live page with a next cursor must continue"),
    }
    assert!(matches!(walk_step(&page(&["1"], 0, Some("c"))), WalkStep::Done));
    assert!(matches!(walk_step(&page(&["1"], 3, None)), WalkStep::Done));
    let no_records = ModListResponse {
        total: 3,
        next_cursor: Some(String::from("c")),
        publishedfiledetails: None,
    };
    assert!(matches!(walk_step(&no_records), WalkStep::Done));
}
