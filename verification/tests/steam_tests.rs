use tmlapis::errors::APIError;
use tmlapis::schedule::{history_due_now, now_seconds, should_fire, should_update_history, today};
use tmlapis::snapshot::Date;
use tmlapis::state::{Api13State, Api14State};
use tmlapis::steam::{
    avatar_pairs, first_mod_details, first_mod_id, first_player, mod_list_url, resolve_vanity,
    validate_steamid64, IDResponse, ModIDListResponse, ModResponse, PublishedFileDetails,
    PublishedFileID, Response, SteamResult, SteamUserInfo, SteamUserInfoResponse,
};

#[test]
fn steamid_range_is_enforced() {
    assert_eq!(validate_steamid64(0x0110000100000001), Ok(0x0110000100000001));
    assert_eq!(validate_steamid64(0x01100001FFFFFFFF), Ok(0x01100001FFFFFFFF));
    assert!(matches!(validate_steamid64(0x0110000100000000), Err(APIError::InvalidSteamID(_))));
    assert!(matches!(validate_steamid64(0), Err(APIError::InvalidSteamID(0))));
    assert!(matches!(validate_steamid64(u64::MAX), Err(APIError::InvalidSteamID(_))));
}

#[test]
fn first_mod_id_picks_and_parses_the_first_entry() {
    let res = ModIDListResponse {
        publishedfiledetails: Some(vec![
            PublishedFileID { publishedfileid: String::from("2824688072") },
            PublishedFileID { publishedfileid: String::from("1") },
        ]),
    };
    assert_eq!(first_mod_id(&res, "CalamityMod").unwrap(), 2824688072);

    let none = ModIDListResponse { publishedfiledetails: None };
    match first_mod_id(&none, "NoSuchMod") {
        Err(APIError::InvalidModName(name)) => assert_eq!(name, "NoSuchMod"),
        _ => panic!("an absent result list must report the name as unknown"),
    }

    let garbage = ModIDListResponse {
        publishedfiledetails: Some(vec![PublishedFileID { publishedfileid: String::from("x") }]),
    };
    assert!(matches!(first_mod_id(&garbage, "Odd"), Err(APIError::InvalidModName(_))));
}

#[test]
fn vanity_names_resolve_only_to_numeric_ids() {
    let ok = IDResponse { steamid: Some(String::from("76561198000000001")), success: 1 };
    assert_eq!(resolve_vanity(&ok, "someone").unwrap(), 76561198000000001);

    let missing = IDResponse { steamid: None, success: 42 };
    match resolve_vanity(&missing, "ghost") {
        Err(APIError::SteamNameNotResolveable(name)) => assert_eq!(name, "ghost"),
        _ => panic!("a missing id must report the name as not resolvable"),
    }
}

#[test]
fn first_player_or_id_not_found() {
    let user = SteamUserInfo {
        steamid: String::from("1"),
        personaname: String::from("someone"),
        profileurl: String::new(),
        avatar: String::new(),
        avatarmedium: String::new(),
        avatarfull: String::new(),
    };
    let res = SteamUserInfoResponse { players: vec![user] };
    assert_eq!(first_player(res, 1).unwrap().personaname, "someone");
    let empty = SteamUserInfoResponse { players: Vec::new() };
    assert!(matches!(first_player(empty, 9), Err(APIError::SteamIDNotFound(9))));
}

#[test]
fn mod_list_url_percent_encodes_the_cursor() {
    let url = mod_list_url("*", "KEY");
    assert_eq!(
        url,
        "https://api.steampowered.com/IPublishedFileService/QueryFiles/v1/?key=KEY\
         &appid=1281930&cursor=%2A&numperpage=10000&cache_max_age_seconds=0&return_details=true\
         &return_kv_tags=true&return_children=true&return_tags=true&return_vote_data=true"
    );
    let paged = mod_list_url("AoJw+6v/LA9=", "K");
    assert!(paged.contains("cursor=AoJw%2B6v%2FLA9%3D"));
}

#[test]
fn error_labels_match_their_variants() {
    assert_eq!(APIError::JSONError(String::new()).name(), "JSONError");
    assert_eq!(APIError::ReqwestError(String::new()).name(), "ReqwestError");
    assert_eq!(APIError::SteamNameNotResolveable(String::new()).name(), "SteamNameNotResolveable");
    assert_eq!(APIError::SteamIDNotFound(0).name(), "SteamNameNotResolveable");
    assert_eq!(APIError::InvalidSteamID(0).name(), "InvalidSteamID");
    assert_eq!(APIError::InvalidModName(String::new()).name(), "InvalidModName");
    assert_eq!(APIError::InvalidModID(0).name(), "InvalidModID");
    assert_eq!(APIError::ScrapeError(String::new()).name(), "ScrapeError");
    assert_eq!(APIError::DBError(String::new()).name(), "DBError");
    assert_eq!(APIError::EmptySnapshot.name(), "EmptySnapshot");
}

#[test]
fn scheduler_fires_once_per_day_and_never_overlaps() {
    let d1 = Date { year: 2024, month: 6, day: 1 };
    let d2 = Date { year: 2024, month: 6, day: 2 };
    assert!(should_fire(d1, None, false));
    assert!(!should_fire(d1, Some(d1), false), "never twice for the same date");
    assert!(should_fire(d2, Some(d1), false));
    assert!(!should_fire(d2, Some(d1), true), "an overlapping trigger is skipped");
}

#[test]
fn history_is_written_only_before_the_cutoff_hour() {
    assert!(should_update_history(0));
    assert!(should_update_history(21));
    assert!(!should_update_history(22));
    assert!(!should_update_history(23));
}

#[test]
fn clock_readings_are_sane() {
    let d = today();
    assert!((1..=12).contains(&d.month));
    assert!((1..=31).contains(&d.day));
    assert!(d.year >= 2024);
    assert!(now_seconds() > 0);
    let _ = history_due_now();
}

#[test]
fn fresh_states_have_empty_caches() {
    let s14 = Api14State::init(String::from("KEY"));
    assert_eq!(s14.steam_api_key, "KEY");
    assert!(s14.author_cache.get(1, 100, 3600).is_none());
    assert!(s14.mod_cache.get(1, 100, 3600).is_none());
    assert!(s14.mod_list_cache.get_fresh(now_seconds(), 3600).is_none());

    let s13 = Api13State::init(String::from("KEY"));
    assert!(s13.mod_cache.get(String::from("Calamity"), 100, 3600).is_none());
    assert!(s13.author_cache.get(1, 100, 3600).is_none());
}

#[test]
fn avatar_pairs_keep_ids_and_avatars_in_order() {
    let user = |id: &str, avatar: &str| SteamUserInfo {
        steamid: String::from(id),
        personaname: String::new(),
        profileurl: String::new(),
        avatar: String::new(),
        avatarmedium: String::new(),
        avatarfull: String::from(avatar),
    };
    let users = vec![user("1", "a.png"), user("2", "b.png")];
    let pairs = avatar_pairs(&users);
    assert_eq!(pairs.len(), 2);
    assert_eq!(pairs[0], (String::from("1"), String::from("a.png")));
    assert_eq!(pairs[1], (String::from("2"), String::from("b.png")));
}

#[test]
fn single_lookup_filters_the_error_sentinel() {
    let details = PublishedFileDetails {
        result: Some(1),
        publishedfileid: Some(String::from("9")),
        title: None,
        creator: None,
        kvtags: None,
        tags: None,
        time_created: None,
        time_updated: None,
        preview_url: None,
        children: None,
        file_description: None,
        subscriptions: None,
        favorited: None,
        views: None,
        lifetime_playtime: None,
        followers: None,
        vote_data: None,
        num_comments_public: None,
        revision_change_number: None,
    };
    let wrapped = Response {
        response: ModResponse { publishedfiledetails: vec![SteamResult::Found(details)] },
    };
    let found = first_mod_details(wrapped.response, 9).unwrap();
    assert_eq!(found.publishedfileid.as_deref(), Some("9"));

    let sentinel = ModResponse {
        publishedfiledetails: vec![SteamResult::Failed(String::from("{\"result\":9}"))],
    };
    assert!(matches!(
        first_mod_details(sentinel, 9),
        Err(APIError::InvalidModID(9))
    ));
    let empty = ModResponse { publishedfiledetails: Vec::new() };
    assert!(matches!(
        first_mod_details(empty, 4),
        Err(APIError::InvalidModID(4))
    ));
}

#[test]
fn error_messages_quote_the_offending_value() {
    assert_eq!(
        APIError::InvalidModName(String::from("Ghost")).message(),
        "Could not find a mod with the provided name: 'Ghost'"
    );
    assert_eq!(
        APIError::InvalidModID(42).message(),
        "Could not find a mod with the id '42'"
    );
    assert_eq!(APIError::InvalidSteamID(7).message(), "The steamid '7' is invalid");
    assert_eq!(
        APIError::SteamIDNotFound(9).message(),
        "No steam user found for the specified steam id of: '9'"
    );
    assert_eq!(
        APIError::ScrapeError(String::from("bad table")).message(),
        "Could not scrape html: 'bad table'"
    );
    assert_eq!(APIError::EmptySnapshot.message(), "The catalog sync produced no records");
}

#[test]
fn status_codes_split_server_and_client_faults() {
    assert_eq!(APIError::ReqwestError(String::new()).status_code(), 500);
    assert_eq!(APIError::JSONError(String::new()).status_code(), 500);
    assert_eq!(APIError::ScrapeError(String::new()).status_code(), 500);
    assert_eq!(APIError::DBError(String::new()).status_code(), 500);
    assert_eq!(APIError::EmptySnapshot.status_code(), 500);
    assert_eq!(APIError::InvalidModID(1).status_code(), 400);
    assert_eq!(APIError::InvalidModName(String::new()).status_code(), 400);
    assert_eq!(APIError::InvalidSteamID(1).status_code(), 400);
    assert_eq!(APIError::SteamIDNotFound(1).status_code(), 400);
    assert_eq!(APIError::SteamNameNotResolveable(String::new()).status_code(), 400);
}
