use tmlapis::reconcile::{build_author_info, find_kvtag_value, get_filtered_mod_info, tag_value};
use tmlapis::steam::{Child, KVTag, ModListResponse, ModTag, PublishedFileDetails, VoteData};

fn empty_details() -> PublishedFileDetails {
    PublishedFileDetails {
        result: None,
        publishedfileid: None,
        title: None,
        creator: None,
        kvtags: None,
        tags: None,
        time_created: None,
        time_updated: None,
        preview_url: None,
        children: None,
        file_description: None,
        subscriptions: None,
        favorited: None,
        views: None,
        lifetime_playtime: None,
        followers: None,
        vote_data: None,
        num_comments_public: None,
        revision_change_number: None,
    }
}

fn kv(key: &str, value: &str) -> KVTag {
    KVTag { key: String::from(key), value: String::from(value) }
}

#[test]
fn version_summary_splits_into_pairs() {
    let mut d = empty_details();
    d.kvtags = Some(vec![kv("versionsummary", "1.4.4:1.0;1.4.3:0.9")]);
    let m = get_filtered_mod_info(&d);
    assert_eq!(m.versions.len(), 2);
    assert_eq!(m.versions[0].mod_version, "1.4.4");
    assert_eq!(m.versions[0].tmodloader_version, "1.0");
    assert_eq!(m.versions[1].mod_version, "1.4.3");
    assert_eq!(m.versions[1].tmodloader_version, "0.9");
}

#[test]
fn no_version_tags_yield_exactly_one_empty_entry() {
    let d = empty_details();
    let m = get_filtered_mod_info(&d);
    assert_eq!(m.versions.len(), 1);
    assert_eq!(m.versions[0].mod_version, "");
    assert_eq!(m.versions[0].tmodloader_version, "");
}

#[test]
fn legacy_version_tags_yield_one_entry() {
    let mut d = empty_details();
    d.kvtags = Some(vec![kv("version", "0.5"), kv("modloaderversion", "tModLoader v0.11")]);
    let m = get_filtered_mod_info(&d);
    assert_eq!(m.versions.len(), 1);
    assert_eq!(m.versions[0].mod_version, "0.5");
    assert_eq!(m.versions[0].tmodloader_version, "tModLoader v0.11");
}

#[test]
fn malformed_summary_segment_is_dropped() {
    let mut d = empty_details();
    d.kvtags = Some(vec![kv("versionsummary", "1.2:1.0;bogus;1.3:1.1")]);
    let m = get_filtered_mod_info(&d);
    assert_eq!(m.versions.len(), 2);
    assert_eq!(m.versions[0].mod_version, "1.2");
    assert_eq!(m.versions[1].mod_version, "1.3");
}

#[test]
fn wholly_malformed_summary_falls_back_to_legacy_tags() {
    let mut d = empty_details();
    d.kvtags = Some(vec![kv("versionsummary", "bogus"), kv("version", "0.7")]);
    let m = get_filtered_mod_info(&d);
    assert_eq!(m.versions.len(), 1);
    assert_eq!(m.versions[0].mod_version, "0.7");
}

#[test]
fn segment_splits_on_first_colon_only() {
    let mut d = empty_details();
    d.kvtags = Some(vec![kv("versionsummary", "a:b:c")]);
    let m = get_filtered_mod_info(&d);
    assert_eq!(m.versions.len(), 1);
    assert_eq!(m.versions[0].mod_version, "a");
    assert_eq!(m.versions[0].tmodloader_version, "b:c");
}

#[test]
fn empty_twitter_and_no_other_socials_is_none() {
    let mut d = empty_details();
    d.kvtags = Some(vec![kv("twitter", "")]);
    let m = get_filtered_mod_info(&d);
    assert!(m.socials.is_none());
}

#[test]
fn one_nonempty_social_makes_the_group_present() {
    let mut d = empty_details();
    d.kvtags = Some(vec![kv("twitter", "x")]);
    let m = get_filtered_mod_info(&d);
    let socials = m.socials.expect("group must be present");
    assert_eq!(socials.twitter.as_deref(), Some("x"));
    assert!(socials.youtube.is_none());
    assert!(socials.reddit.is_none());
    assert!(socials.facebook.is_none());
    assert!(socials.sketchfab.is_none());
}

#[test]
fn recognized_tags_populate_canonical_fields() {
    let mut d = empty_details();
    d.publishedfileid = Some(String::from("2824688072"));
    d.title = Some(String::from("Calamity"));
    d.creator = Some(76561198000000001);
    d.kvtags = Some(vec![
        kv("name", "CalamityMod"),
        kv("Author", "someone"),
        kv("modside", "Both"),
        kv("homepage", "https://example.invalid"),
        kv("modreferences", "MusicMod"),
        kv("unheard-of-key", "tolerated"),
    ]);
    d.subscriptions = Some(10);
    d.favorited = Some(2);
    d.followers = Some(3);
    d.views = Some(4);
    d.num_comments_public = Some(5);
    d.time_created = Some(100);
    d.time_updated = Some(200);
    d.revision_change_number = Some(String::from("17"));
    d.lifetime_playtime = Some(String::from("3600"));
    d.vote_data = Some(VoteData { score: String::from("0.97"), votes_up: 9, votes_down: 1 });
    d.tags = Some(vec![ModTag { tag: String::from("qol"), display_name: String::from("QoL") }]);
    d.children = Some(vec![
        Child { publishedfileid: String::from("123"), sortorder: 0, file_type: 0 },
        Child { publishedfileid: String::from("nope"), sortorder: 1, file_type: 0 },
        Child { publishedfileid: String::from("456"), sortorder: 2, file_type: 0 },
    ]);
    let m = get_filtered_mod_info(&d);
    assert_eq!(m.mod_id, 2824688072);
    assert_eq!(m.display_name, "Calamity");
    assert_eq!(m.internal_name, "CalamityMod");
    assert_eq!(m.author, "someone");
    assert_eq!(m.author_id, 76561198000000001);
    assert_eq!(m.modside, "Both");
    assert_eq!(m.homepage, "https://example.invalid");
    assert_eq!(m.mod_references, "MusicMod");
    assert_eq!(m.num_versions, 17);
    assert_eq!(m.downloads_total, 10);
    assert_eq!(m.favorited, 2);
    assert_eq!(m.followers, 3);
    assert_eq!(m.views, 4);
    assert_eq!(m.num_comments, 5);
    assert_eq!(m.time_created, 100);
    assert_eq!(m.time_updated, 200);
    assert_eq!(m.playtime, "3600");
    assert_eq!(m.children, Some(vec![123, 456]));
    assert_eq!(m.tags.unwrap().len(), 1);
    let vote = m.vote_data.unwrap();
    assert_eq!(vote.votes_up, 9);
    assert_eq!(vote.score, "0.97");
}

#[test]
fn absent_fields_default_to_zero_values() {
    let d = empty_details();
    let m = get_filtered_mod_info(&d);
    assert_eq!(m.mod_id, 0);
    assert_eq!(m.display_name, "");
    assert_eq!(m.internal_name, "");
    assert_eq!(m.author_id, 0);
    assert_eq!(m.num_versions, 0);
    assert!(m.tags.is_none());
    assert!(m.children.is_none());
    assert!(m.vote_data.is_none());
    assert!(m.description.is_none());
    assert_eq!(m.downloads_total, 0);
}

#[test]
fn unparsable_id_defaults_to_zero() {
    let mut d = empty_details();
    d.publishedfileid = Some(String::from("not-a-number"));
    let m = get_filtered_mod_info(&d);
    assert_eq!(m.mod_id, 0);
}

#[test]
fn first_and_last_tag_lookups_differ_on_duplicates() {
    let tags = vec![kv("name", "first"), kv("name", "last")];
    assert_eq!(find_kvtag_value(&tags, "name"), Some(String::from("first")));
    assert_eq!(tag_value(&tags, "name"), Some(String::from("last")));
    assert_eq!(find_kvtag_value(&tags, "missing"), None);
    assert_eq!(tag_value(&tags, "missing"), None);
}

#[test]
fn duplicate_tag_folding_takes_the_last_value() {
    let mut d = empty_details();
    d.kvtags = Some(vec![kv("Author", "old"), kv("Author", "new")]);
    let m = get_filtered_mod_info(&d);
    assert_eq!(m.author, "new");
}

#[test]
fn author_totals_sum_over_all_records() {
    let user = tmlapis::steam::SteamUserInfo {
        steamid: String::from("76561198000000001"),
        personaname: String::from("author"),
        profileurl: String::new(),
        avatar: String::new(),
        avatarmedium: String::new(),
        avatarfull: String::from("avatar.png"),
    };
    let mut d1 = empty_details();
    d1.subscriptions = Some(10);
    d1.favorited = Some(1);
    d1.views = Some(100);
    let mut d2 = empty_details();
    d2.subscriptions = Some(32);
    d2.favorited = Some(2);
    d2.views = Some(200);
    let data = ModListResponse {
        total: 2,
        next_cursor: None,
        publishedfiledetails: Some(vec![d1, d2]),
    };
    let a = build_author_info(76561198000000001, user, &data);
    assert_eq!(a.steam_id, 76561198000000001);
    assert_eq!(a.steam_name, "author");
    assert_eq!(a.steam_avatar, "avatar.png");
    assert_eq!(a.total, 2);
    assert_eq!(a.mods.len(), 2);
    assert_eq!(a.total_downloads, 42);
    assert_eq!(a.total_favorites, 3);
    assert_eq!(a.total_views, 300);
    assert_eq!(a.mods[0].downloads_total, 10);
    assert_eq!(a.mods[1].downloads_total, 32);
}

#[test]
fn author_without_records_has_zero_totals() {
    let user = tmlapis::steam::SteamUserInfo {
        steamid: String::new(),
        personaname: String::from("quiet"),
        profileurl: String::new(),
        avatar: String::new(),
        avatarmedium: String::new(),
        avatarfull: String::new(),
    };
    let data = ModListResponse { total: 0, next_cursor: None, publishedfiledetails: None };
    let a = build_author_info(1, user, &data);
    assert_eq!(a.mods.len(), 0);
    assert_eq!(a.total_downloads, 0);
    assert_eq!(a.total_favorites, 0);
    assert_eq!(a.total_views, 0);
}
