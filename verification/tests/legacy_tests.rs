use tmlapis::legacy::{
    count_mod_rows, parse_author_info, parse_mod_history, parse_mod_list, with_description,
    DescriptionResponse, ModInfo,
};
use tmlapis::reconcile::ModSide;

const ALLTIME_PAGE: &str = "<html><body><table><tbody>\
    <tr><th>Rank</th><th>Name</th><th>Total</th><th>Yesterday</th><th>Version</th><th>tML</th></tr>\
    <tr><td>1</td><td>Calamity</td><td>5000</td><td>40</td><td>1.4</td><td>0.11</td></tr>\
    <tr><td>2</td><td>Thorium</td><td>4000</td><td>30</td><td>1.6</td><td>0.11</td></tr>\
    </tbody></table></body></html>";

const TODAY_PAGE: &str = "<html><body><table><tbody>\
    <tr><th>Name</th><th>Today</th><th>A</th><th>B</th><th>Internal</th></tr>\
    <tr><td>Thorium</td><td>7</td><td>x</td><td>y</td><td>ThoriumMod</td></tr>\
    </tbody></table></body></html>";

#[test]
fn counts_rows_without_the_header() {
    assert_eq!(count_mod_rows(ALLTIME_PAGE), 2);
    assert_eq!(count_mod_rows("<html><body>nothing here</body></html>"), 0);
}

#[test]
fn builds_the_list_and_merges_the_today_table() {
    let mods = parse_mod_list(ALLTIME_PAGE, TODAY_PAGE);
    assert_eq!(mods.len(), 2);
    assert_eq!(mods[0].rank, 1);
    assert_eq!(mods[0].display_name, "Calamity");
    assert_eq!(mods[0].downloads_total, 5000);
    assert_eq!(mods[0].downloads_yesterday, 40);
    assert_eq!(mods[0].mod_version, "1.4");
    assert_eq!(mods[0].tmodloader_version, "0.11");
    assert_eq!(mods[0].internal_name, "<pending>", "an unmatched entry keeps the placeholder");
    assert_eq!(mods[0].downloads_today, 0);
    assert_eq!(mods[1].display_name, "Thorium");
    assert_eq!(mods[1].internal_name, "ThoriumMod");
    assert_eq!(mods[1].downloads_today, 7);
}

#[test]
fn parses_a_version_history_page() {
    let page = "<html><body><table><tbody>\
        <tr><th>Version</th><th>Downloads</th><th>tML</th><th>Published</th></tr>\
        <tr><td>1.2</td><td>300</td><td>0.10</td><td>2019-01-01</td></tr>\
        <tr><td>1.1</td><td>junk</td><td>0.9</td><td>2018-06-01</td></tr>\
        </tbody></table></body></html>";
    let history = parse_mod_history(page);
    assert_eq!(history.len(), 2);
    assert_eq!(history[0].version, "1.2");
    assert_eq!(history[0].downloads_total, 300);
    assert_eq!(history[0].tmodloader_version, "0.10");
    assert_eq!(history[0].publish_date, "2019-01-01");
    assert_eq!(history[1].downloads_total, 0, "a malformed number degrades to zero");
}

#[test]
fn parses_an_author_page_with_two_tables() {
    let page = "<html><body>\
        <table><tbody>\
        <tr><th>Rank</th><th>Name</th><th>Total</th><th>Yesterday</th></tr>\
        <tr><td>3</td><td>Magic Storage</td><td>900</td><td>10</td></tr>\
        <tr><td>8</td><td>Boss Checklist</td><td>600</td><td>5</td></tr>\
        </tbody></table>\
        <table><tbody>\
        <tr><th>Internal</th><th>Total</th><th>Yesterday</th></tr>\
        <tr><td>MagicStorage</td><td>900</td><td>10</td></tr>\
        </tbody></table>\
        </body></html>";
    let author = parse_author_info(76561198000000001, String::from("blushiemagic"), page);
    assert_eq!(author.steam_id, 76561198000000001);
    assert_eq!(author.steam_name, "blushiemagic");
    assert_eq!(author.total, 2);
    assert_eq!(author.mods.len(), 2);
    assert_eq!(author.mods[0].rank, 3);
    assert_eq!(author.mods[0].display_name, "Magic Storage");
    assert_eq!(author.downloads_total, 1500);
    assert_eq!(author.downloads_yesterday, 15);
    assert_eq!(author.maintained_mods.len(), 1);
    assert_eq!(author.maintained_mods[0].internal_name, "MagicStorage");
    assert_eq!(author.maintained_mods[0].downloads_total, 900);
}

#[test]
fn author_page_without_tables_yields_an_empty_summary() {
    let author = parse_author_info(1, String::from("ghost"), "<html><body></body></html>");
    assert_eq!(author.mods.len(), 0);
    assert_eq!(author.maintained_mods.len(), 0);
    assert_eq!(author.total, 0);
    assert_eq!(author.downloads_total, 0);
}

#[test]
fn description_fields_are_filled_and_the_rest_kept() {
    let m = ModInfo {
        displayname: String::from("Calamity"),
        name: String::from("CalamityMod"),
        version: String::from("1.4"),
        author: String::from("someone"),
        download: String::from("http://example.invalid/dl"),
        downloads: 5000,
        hot: 40,
        updateTimeStamp: String::from("2020-01-01"),
        modloaderversion: String::from("0.11"),
        modreferences: String::new(),
        modside: ModSide::Both,
        description: None,
        homepage: None,
        icon: None,
    };
    let desc = DescriptionResponse {
        description: String::from("a large mod"),
        homepage: String::from("https://example.invalid"),
    };
    let filled = with_description(m, desc, Some(String::from("icon.png")));
    assert_eq!(filled.description.as_deref(), Some("a large mod"));
    assert_eq!(filled.homepage.as_deref(), Some("https://example.invalid"));
    assert_eq!(filled.icon.as_deref(), Some("icon.png"));
    assert_eq!(filled.displayname, "Calamity");
    assert_eq!(filled.downloads, 5000);
    assert!(matches!(filled.modside, ModSide::Both));
}
