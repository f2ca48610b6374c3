//! The legacy read paths: catalog data scraped out of HTML status pages
//! rather than fetched from the paginated API.
//!
//! The scraping itself — parsing the document and selecting table cells —
//! is done by an outside HTML parser behind trusted wrappers; everything
//! built from the extracted cells is verified.  A malformed cell degrades
//! to a zero value or is skipped, never a crash: the pages are externally
//! controlled and drift is expected.

use vstd::prelude::*;
use vstd::string::StringExecFns;
use crate::parse::{parse_u32, parsed_u32};
use crate::reconcile::ModSide;

verus! {

/// One legacy catalog entry, as the mod info page reports it.
#[derive(Clone, Debug, PartialEq, Eq)]
#[allow(non_snake_case)]
pub struct ModInfo {
    pub displayname: String,
    pub name: String,
    pub version: String,
    pub author: String,
    pub download: String,
    pub downloads: u32,
    pub hot: u32,
    pub updateTimeStamp: String,
    pub modloaderversion: String,
    pub modreferences: String,
    pub modside: ModSide,
    pub description: Option<String>,
    pub homepage: Option<String>,
    pub icon: Option<String>,
}

/// The description page's answer for one entity.
#[derive(Clone, Debug, PartialEq, Eq)]
pub struct DescriptionResponse {
    pub description: String,
    pub homepage: String,
}

/// One ranked entry of an author's table.
#[derive(Clone, Debug, PartialEq, Eq)]
pub struct AuthorModInfo {
    pub rank: u32,
    pub display_name: String,
    pub downloads_total: u32,
    pub downloads_yesterday: u32,
}

/// One entry of an author's maintained-mods table.
#[derive(Clone, Debug, PartialEq, Eq)]
pub struct MaintainedModInfo {
    pub internal_name: String,
    pub downloads_total: u32,
    pub downloads_yesterday: u32,
}

/// An author's scraped summary.
pub struct AuthorInfo {
    pub steam_id: u64,
    pub steam_name: String,
    pub downloads_total: u32,
    pub downloads_yesterday: u32,
    pub total: u32,
    pub mods: Vec<AuthorModInfo>,
    pub maintained_mods: Vec<MaintainedModInfo>,
}

/// One entry of the scraped full catalog list.
#[derive(Clone, Debug, PartialEq, Eq)]
pub struct ModListInfo {
    pub rank: u32,
    pub internal_name: String,
    pub display_name: String,
    pub downloads_total: u32,
    pub downloads_today: u32,
    pub downloads_yesterday: u32,
    pub mod_version: String,
    pub tmodloader_version: String,
}

/// One entry of an entity's scraped version history.
#[derive(Clone, Debug, PartialEq, Eq)]
pub struct ModHistory {
    pub version: String,
    pub downloads_total: u32,
    pub tmodloader_version: String,
    pub publish_date: String,
}

/// What the HTML parser extracts from `body` for a row selector and a cell
/// selector: for each selected row, the inner markup of each selected cell.
pub uninterp spec fn scraped_rows(
    body: Seq<char>,
    row_selector: Seq<char>,
    cell_selector: Seq<char>,
) -> Seq<Seq<Seq<char>>>;

/// What the HTML parser extracts from `body` for a table selector: for each
/// selected table, its rows, and for each row its cells' inner markup.
pub uninterp spec fn scraped_tables(
    body: Seq<char>,
    table_selector: Seq<char>,
    row_selector: Seq<char>,
    cell_selector: Seq<char>,
) -> Seq<Seq<Seq<Seq<char>>>>;

/// Relies on scraper's `Html::parse_document`, `Selector::parse`, `select`
/// and `inner_html`: parses `body` and extracts each selected row's cells.
/// Parsing depends on the text alone; a selector the parser rejects yields
/// no rows.
#[verifier::external_body]
fn scrape_rows(body: &str, row_selector: &str, cell_selector: &str) -> (r: Vec<Vec<String>>)
    ensures
        r.deep_view() == scraped_rows(body@, row_selector@, cell_selector@),
{
    let (Ok(rows), Ok(cells)) =
        (scraper::Selector::parse(row_selector), scraper::Selector::parse(cell_selector))
    else {
        return Vec::new();
    };
    let html = scraper::Html::parse_document(body);
    html.select(&rows).map(|r| r.select(&cells).map(|c| c.inner_html()).collect()).collect()
}

/// Relies on scraper's `Html::parse_document`, `Selector::parse`, `select`
/// and `inner_html`: parses `body` and extracts, per selected table, each
/// selected row's cells.  Parsing depends on the text alone; a selector the
/// parser rejects yields no tables.
#[verifier::external_body]
fn scrape_tables(body: &str, table_selector: &str, row_selector: &str, cell_selector: &str) -> (r:
    Vec<Vec<Vec<String>>>)
    ensures
        r.deep_view() == scraped_tables(body@, table_selector@, row_selector@, cell_selector@),
{
    let (Ok(tables), Ok(rows), Ok(cells)) = (
        scraper::Selector::parse(table_selector),
        scraper::Selector::parse(row_selector),
        scraper::Selector::parse(cell_selector),
    ) else {
        return Vec::new();
    };
    let html = scraper::Html::parse_document(body);
    html.select(&tables).map(
        |t| t.select(&rows).map(|r| r.select(&cells).map(|c| c.inner_html()).collect()).collect(),
    ).collect()
}

/// The cell at `i` of a scraped row, empty when the row is shorter.
pub open spec fn cell(row: Seq<Seq<char>>, i: int) -> Seq<char> {
    if 0 <= i < row.len() {
        row[i]
    } else {
        Seq::<char>::empty()
    }
}

/// The number a scraped cell denotes, zero when it is not a number.
pub open spec fn num_or_zero(s: Seq<char>) -> u32 {
    match parsed_u32(s) {
        Some(v) => v,
        None => 0,
    }
}

/// The cell at `i` of a row, cloned; an empty string when the row is
/// shorter.
fn row_cell(row: &Vec<String>, i: usize) -> (r: String)
    ensures
        r@ == cell(row.deep_view(), i as int),
{
    if i < row.len() {
        row[i].clone()
    } else {
        String::new()
    }
}

/// The number in the cell at `i` of a row, zero when absent or malformed.
fn row_num(row: &Vec<String>, i: usize) -> (r: u32)
    ensures
        r == num_or_zero(cell(row.deep_view(), i as int)),
{
    let c = row_cell(row, i);
    match parse_u32(c.as_str()) {
        Some(v) => v,
        None => 0,
    }
}

/// How many entities the migration table reports: its row count less the
/// header row.
pub fn count_mod_rows(body: &str) -> (n: usize)
    ensures
        n == (if scraped_rows(body@, "table > tbody > tr"@, "td"@).len() > 0 {
            scraped_rows(body@, "table > tbody > tr"@, "td"@).len() - 1
        } else {
            0
        }),
{
    let rows = scrape_rows(body, "table > tbody > tr", "td");
    if rows.len() > 0 {
        rows.len() - 1
    } else {
        0
    }
}

/// `m` is the list entry built from one all-time table row, before the
/// today table is merged in.
pub open spec fn mod_list_entry_matches(row: Seq<Seq<char>>, m: ModListInfo) -> bool {
    &&& m.rank == num_or_zero(cell(row, 0))
    &&& m.display_name@ == cell(row, 1)
    &&& m.downloads_total == num_or_zero(cell(row, 2))
    &&& m.downloads_yesterday == num_or_zero(cell(row, 3))
    &&& m.mod_version@ == cell(row, 4)
    &&& m.tmodloader_version@ == cell(row, 5)
    &&& m.internal_name@ == "<pending>"@
    &&& m.downloads_today == 0
}

/// Builds the base catalog list out of the all-time table's rows, one entry
/// per row; the fields the today table owns start out as zero and a
/// placeholder name.
pub fn build_mod_list(rows: &Vec<Vec<String>>) -> (r: Vec<ModListInfo>)
    ensures
        r@.len() == rows@.len(),
        forall|i: int|
            0 <= i < rows@.len() ==> mod_list_entry_matches(
                rows@[i].deep_view(),
                #[trigger] r@[i],
            ),
{
    let n = rows.len();
    let mut r: Vec<ModListInfo> = Vec::new();
    let mut i: usize = 0;
    while i < n
        invariant
            0 <= i <= n,
            n == rows@.len(),
            r@.len() == i,
            forall|k: int|
                0 <= k < i ==> mod_list_entry_matches(rows@[k].deep_view(), #[trigger] r@[k]),
        decreases n - i,
    {
        let row = &rows[i];
        r.push(
            ModListInfo {
                rank: row_num(row, 0),
                display_name: row_cell(row, 1),
                downloads_total: row_num(row, 2),
                downloads_yesterday: row_num(row, 3),
                mod_version: row_cell(row, 4),
                tmodloader_version: row_cell(row, 5),
                internal_name: String::from_str("<pending>"),
                downloads_today: 0,
            },
        );
        i = i + 1;
    }
    r
}

/// The first entry whose display name is `name`, or the length when none
/// matches.
pub open spec fn find_by_display(mods: Seq<ModListInfo>, name: Seq<char>, i: int) -> int
    decreases mods.len() - i,
{
    if i < 0 || i >= mods.len() {
        mods.len() as int
    } else if mods[i].display_name@ == name {
        i
    } else {
        find_by_display(mods, name, i + 1)
    }
}

/// A scan that saw no matching display name before `p`, and one at `p`
/// unless `p` is the end, pins down `find_by_display`.
proof fn lemma_find_by_display_value(mods: Seq<ModListInfo>, name: Seq<char>, i: int, p: int)
    requires
        0 <= i <= p <= mods.len(),
        forall|m: int| i <= m < p ==> (#[trigger] mods[m]).display_name@ != name,
        p < mods.len() ==> mods[p].display_name@ == name,
    ensures
        find_by_display(mods, name, i) == if p < mods.len() {
            p
        } else {
            mods.len() as int
        },
    decreases p - i,
{
    if i < p {
        lemma_find_by_display_value(mods, name, i + 1, p);
    }
}

/// The effect of one today-table row: the first entry whose display name
/// matches the row's first cell gets the row's today count and internal
/// name.  A row with fewer than five cells is malformed and ignored.
pub open spec fn apply_one(mods: Seq<ModListInfo>, row: Vec<String>) -> Seq<ModListInfo> {
    let name = cell(row.deep_view(), 0);
    let k = find_by_display(mods, name, 0);
    if 0 <= k < mods.len() && row@.len() >= 5 {
        mods.update(
            k,
            ModListInfo {
                downloads_today: num_or_zero(cell(row.deep_view(), 1)),
                internal_name: row@[4],
                ..mods[k]
            },
        )
    } else {
        mods
    }
}

/// The effect of the whole today table, row by row, in order.
pub open spec fn apply_rows(mods: Seq<ModListInfo>, rows: Seq<Vec<String>>) -> Seq<ModListInfo>
    decreases rows.len(),
{
    if rows.len() == 0 {
        mods
    } else {
        apply_one(apply_rows(mods, rows.drop_last()), rows.last())
    }
}

/// Merges the today table into the base list: each row fills the first
/// matching entry's today count and internal name; unmatched and malformed
/// rows are ignored.
pub fn apply_today_rows(mods: &mut Vec<ModListInfo>, rows: &Vec<Vec<String>>)
    ensures
        final(mods)@ == apply_rows(old(mods)@, rows@),
{
    let nrows = rows.len();
    let mut t: usize = 0;
    proof {
        assert(rows@.take(0) =~= Seq::<Vec<String>>::empty());
    }
    while t < nrows
        invariant
            0 <= t <= nrows,
            nrows == rows@.len(),
            mods@ == apply_rows(old(mods)@, rows@.take(t as int)),
        decreases nrows - t,
    {
        proof {
            assert(rows@.take(t as int + 1).drop_last() =~= rows@.take(t as int));
            assert(rows@.take(t as int + 1).last() == rows@[t as int]);
        }
        let ghost mods_before = mods@;
        let row = &rows[t];
        if row.len() >= 5 {
            let name = row_cell(row, 0);
            let n = mods.len();
            let mut k: usize = 0;
            let mut found = false;
            while k < n && !found
                invariant
                    0 <= k <= n,
                    n == mods@.len(),
                    mods@ == mods_before,
                    name@ == cell(rows@[t as int].deep_view(), 0),
                    !found ==> forall|m: int|
                        0 <= m < k ==> (#[trigger] mods@[m]).display_name@ != name@,
                    found ==> k < n && mods@[k as int].display_name@ == name@ && (forall|m: int|
                        0 <= m < k ==> (#[trigger] mods@[m]).display_name@ != name@),
                decreases n - k + (if found {
                    0int
                } else {
                    1int
                }),
            {
                if mods[k].display_name == name {
                    found = true;
                } else {
                    k = k + 1;
                }
            }
            if found {
                proof {
                    lemma_find_by_display_value(mods@, name@, 0, k as int);
                }
                let today_count = row_num(row, 1);
                let internal = row[4].clone();
                let entry = &mut mods[k];
                entry.downloads_today = today_count;
                entry.internal_name = internal;
                proof {
                    assert(mods@ =~= apply_one(mods_before, rows@[t as int]));
                }
            } else {
                proof {
                    lemma_find_by_display_value(mods@, name@, 0, n as int);
                    assert(mods@ =~= apply_one(mods_before, rows@[t as int]));
                }
            }
        } else {
            proof {
                assert(mods@ =~= apply_one(mods_before, rows@[t as int]));
            }
        }
        t = t + 1;
    }
    proof {
        assert(rows@.take(nrows as int) =~= rows@);
    }
}

/// Builds the legacy catalog list out of the two scraped status pages: the
/// all-time table gives one entry per row, and the today table fills each
/// first matching entry's today count and internal name.
pub fn parse_mod_list(alltime_body: &str, today_body: &str) -> (r: Vec<ModListInfo>)
    ensures
        exists|base: Seq<ModListInfo>, today: Vec<Vec<String>>|
            {
                &&& base.len() == scraped_rows(
                    alltime_body@,
                    "table > tbody > tr:not(:first-child)"@,
                    "td"@,
                ).len()
                &&& (forall|i: int|
                    0 <= i < base.len() ==> mod_list_entry_matches(
                        scraped_rows(
                            alltime_body@,
                            "table > tbody > tr:not(:first-child)"@,
                            "td"@,
                        )[i],
                        #[trigger] base[i],
                    ))
                &&& today.deep_view() == scraped_rows(
                    today_body@,
                    "table > tbody > tr:not(:first-child)"@,
                    "td"@,
                )
                &&& r@ == apply_rows(base, today@)
            },
{
    let alltime_rows = scrape_rows(alltime_body, "table > tbody > tr:not(:first-child)", "td");
    let today_rows = scrape_rows(today_body, "table > tbody > tr:not(:first-child)", "td");
    let mut mods = build_mod_list(&alltime_rows);
    let ghost base = mods@;
    apply_today_rows(&mut mods, &today_rows);
    proof {
        assert forall|i: int| 0 <= i < base.len() implies mod_list_entry_matches(
            scraped_rows(alltime_body@, "table > tbody > tr:not(:first-child)"@, "td"@)[i],
            #[trigger] base[i],
        ) by {
            assert(alltime_rows@[i].deep_view() == alltime_rows.deep_view()[i]);
        }
    }
    mods
}

/// `m` is the history entry built from one version-history table row.
pub open spec fn history_entry_matches(row: Seq<Seq<char>>, m: ModHistory) -> bool {
    &&& m.version@ == cell(row, 0)
    &&& m.downloads_total == num_or_zero(cell(row, 1))
    &&& m.tmodloader_version@ == cell(row, 2)
    &&& m.publish_date@ == cell(row, 3)
}

/// Builds an entity's version history out of its scraped history page, one
/// entry per table row.
pub fn parse_mod_history(body: &str) -> (r: Vec<ModHistory>)
    ensures
        r@.len() == scraped_rows(body@, "table > tbody > tr:not(:first-child)"@, "td"@).len(),
        forall|i: int|
            0 <= i < r@.len() ==> history_entry_matches(
                scraped_rows(body@, "table > tbody > tr:not(:first-child)"@, "td"@)[i],
                #[trigger] r@[i],
            ),
{
    let rows = scrape_rows(body, "table > tbody > tr:not(:first-child)", "td");
    let n = rows.len();
    let mut r: Vec<ModHistory> = Vec::new();
    let mut i: usize = 0;
    while i < n
        invariant
            0 <= i <= n,
            n == rows@.len(),
            r@.len() == i,
            forall|k: int|
                0 <= k < i ==> history_entry_matches(rows@[k].deep_view(), #[trigger] r@[k]),
        decreases n - i,
    {
        let row = &rows[i];
        r.push(
            ModHistory {
                version: row_cell(row, 0),
                downloads_total: row_num(row, 1),
                tmodloader_version: row_cell(row, 2),
                publish_date: row_cell(row, 3),
            },
        );
        i = i + 1;
    }
    proof {
        assert forall|k: int| 0 <= k < n implies history_entry_matches(
            scraped_rows(body@, "table > tbody > tr:not(:first-child)"@, "td"@)[k],
            #[trigger] r@[k],
        ) by {
            assert(rows@[k].deep_view() == rows.deep_view()[k]);
        }
    }
    r
}

/// `m` is the ranked entry built from one row of an author's first table.
pub open spec fn author_mod_matches(row: Seq<Seq<char>>, m: AuthorModInfo) -> bool {
    &&& m.rank == num_or_zero(cell(row, 0))
    &&& m.display_name@ == cell(row, 1)
    &&& m.downloads_total == num_or_zero(cell(row, 2))
    &&& m.downloads_yesterday == num_or_zero(cell(row, 3))
}

/// `m` is the entry built from one row of an author's maintained table.
pub open spec fn maintained_matches(row: Seq<Seq<char>>, m: MaintainedModInfo) -> bool {
    &&& m.internal_name@ == cell(row, 0)
    &&& m.downloads_total == num_or_zero(cell(row, 1))
    &&& m.downloads_yesterday == num_or_zero(cell(row, 2))
}

/// The sum of the numbers in column `col` over a table's rows.
pub open spec fn sum_col(rows: Seq<Seq<Seq<char>>>, col: int) -> int
    decreases rows.len(),
{
    if rows.len() == 0 {
        0
    } else {
        sum_col(rows.drop_last(), col) + num_or_zero(cell(rows.last(), col))
    }
}

/// Column sums are never negative.
proof fn lemma_sum_col_nonneg(rows: Seq<Seq<Seq<char>>>, col: int)
    ensures
        sum_col(rows, col) >= 0,
    decreases rows.len(),
{
    if rows.len() > 0 {
        lemma_sum_col_nonneg(rows.drop_last(), col);
    }
}

/// A non-negative total, clamped to the counter's range.
pub open spec fn clamped_u32(x: int) -> u32 {
    if x <= u32::MAX {
        x as u32
    } else {
        u32::MAX
    }
}

/// Builds the ranked entries of an author's first table, with the two
/// download counters summed over all rows (clamped at the range's top).
fn build_author_mods(rows: &Vec<Vec<String>>) -> (r: (Vec<AuthorModInfo>, u32, u32))
    ensures
        r.0@.len() == rows@.len(),
        forall|i: int|
            0 <= i < rows@.len() ==> author_mod_matches(rows@[i].deep_view(), #[trigger] r.0@[i]),
        r.1 == clamped_u32(sum_col(rows.deep_view(), 2)),
        r.2 == clamped_u32(sum_col(rows.deep_view(), 3)),
{
    let n = rows.len();
    let mut mods: Vec<AuthorModInfo> = Vec::new();
    let mut total: u32 = 0;
    let mut yesterday: u32 = 0;
    let mut i: usize = 0;
    proof {
        assert(rows.deep_view().take(0) =~= Seq::<Seq<Seq<char>>>::empty());
    }
    while i < n
        invariant
            0 <= i <= n,
            n == rows@.len(),
            rows.deep_view().len() == n,
            mods@.len() == i,
            forall|k: int|
                0 <= k < i ==> author_mod_matches(rows@[k].deep_view(), #[trigger] mods@[k]),
            total == clamped_u32(sum_col(rows.deep_view().take(i as int), 2)),
            yesterday == clamped_u32(sum_col(rows.deep_view().take(i as int), 3)),
        decreases n - i,
    {
        proof {
            assert(rows.deep_view().take(i as int + 1).drop_last() =~= rows.deep_view().take(
                i as int,
            ));
            assert(rows.deep_view().take(i as int + 1).last() == rows@[i as int].deep_view());
            lemma_sum_col_nonneg(rows.deep_view().take(i as int), 2);
            lemma_sum_col_nonneg(rows.deep_view().take(i as int), 3);
        }
        let row = &rows[i];
        let dt = row_num(row, 2);
        let dy = row_num(row, 3);
        mods.push(
            AuthorModInfo {
                rank: row_num(row, 0),
                display_name: row_cell(row, 1),
                downloads_total: dt,
                downloads_yesterday: dy,
            },
        );
        total = total.saturating_add(dt);
        yesterday = yesterday.saturating_add(dy);
        i = i + 1;
    }
    proof {
        assert(rows.deep_view().take(n as int) =~= rows.deep_view());
    }
    (mods, total, yesterday)
}

/// Builds the entries of an author's maintained table.
fn build_maintained(rows: &Vec<Vec<String>>) -> (r: Vec<MaintainedModInfo>)
    ensures
        r@.len() == rows@.len(),
        forall|i: int|
            0 <= i < rows@.len() ==> maintained_matches(rows@[i].deep_view(), #[trigger] r@[i]),
{
    let n = rows.len();
    let mut r: Vec<MaintainedModInfo> = Vec::new();
    let mut i: usize = 0;
    while i < n
        invariant
            0 <= i <= n,
            n == rows@.len(),
            r@.len() == i,
            forall|k: int|
                0 <= k < i ==> maintained_matches(rows@[k].deep_view(), #[trigger] r@[k]),
        decreases n - i,
    {
        let row = &rows[i];
        r.push(
            MaintainedModInfo {
                internal_name: row_cell(row, 0),
                downloads_total: row_num(row, 1),
                downloads_yesterday: row_num(row, 2),
            },
        );
        i = i + 1;
    }
    r
}

/// Builds an author's summary from their scraped rank page: the first table
/// gives the ranked entries and the summed counters, the last table the
/// maintained entries.  A page without tables yields an empty summary, and
/// a page with a single table yields no maintained entries.
pub fn parse_author_info(steamid: u64, steam_name: String, body: &str) -> (r: AuthorInfo)
    ensures
        r.steam_id == steamid,
        r.steam_name == steam_name,
        ({
            let tables = scraped_tables(body@, "table > tbody"@, "tr:not(:first-child)"@, "td"@);
            if tables.len() == 0 {
                r.mods@.len() == 0 && r.maintained_mods@.len() == 0 && r.downloads_total == 0
                    && r.downloads_yesterday == 0 && r.total == 0
            } else {
                &&& r.mods@.len() == tables[0].len()
                &&& (forall|i: int|
                    0 <= i < tables[0].len() ==> author_mod_matches(
                        tables[0][i],
                        #[trigger] r.mods@[i],
                    ))
                &&& r.downloads_total == clamped_u32(sum_col(tables[0], 2))
                &&& r.downloads_yesterday == clamped_u32(sum_col(tables[0], 3))
                &&& r.total == clamped_u32(tables[0].len() as int)
                &&& if tables.len() >= 2 {
                    r.maintained_mods@.len() == tables[tables.len() - 1].len() && (forall|i: int|
                        0 <= i < tables[tables.len() - 1].len() ==> maintained_matches(
                            tables[tables.len() - 1][i],
                            #[trigger] r.maintained_mods@[i],
                        ))
                } else {
                    r.maintained_mods@.len() == 0
                }
            }
        }),
{
    let tables = scrape_tables(body, "table > tbody", "tr:not(:first-child)", "td");
    if tables.len() == 0 {
        return AuthorInfo {
            steam_id: steamid,
            steam_name,
            downloads_total: 0,
            downloads_yesterday: 0,
            total: 0,
            mods: Vec::new(),
            maintained_mods: Vec::new(),
        };
    }
    let (mods, downloads_total, downloads_yesterday) = build_author_mods(&tables[0]);
    proof {
        assert(tables@[0].deep_view() == tables.deep_view()[0]);
        assert forall|i: int|
            0 <= i < tables@[0]@.len() implies tables@[0]@[i].deep_view() == tables.deep_view()[0][i]
        by {
            assert(tables@[0].deep_view()[i] == tables@[0]@[i].deep_view());
        }
        assert(tables@[0].deep_view() =~= tables.deep_view()[0]);
    }
    let maintained_mods: Vec<MaintainedModInfo> = if tables.len() >= 2 {
        let last = build_maintained(&tables[tables.len() - 1]);
        proof {
            assert(tables@[tables@.len() - 1].deep_view() == tables.deep_view()[tables@.len()
                - 1]);
        }
        last
    } else {
        Vec::new()
    };
    let total: u32 = if mods.len() <= u32::MAX as usize {
        mods.len() as u32
    } else {
        u32::MAX
    };
    AuthorInfo {
        steam_id: steamid,
        steam_name,
        downloads_total,
        downloads_yesterday,
        total,
        mods,
        maintained_mods,
    }
}

/// Fills the fields of a legacy entry that arrive from the description page
/// and the icon probe, leaving everything else untouched.
pub fn with_description(m: ModInfo, desc: DescriptionResponse, icon: Option<String>) -> (r:
    ModInfo)
    ensures
        r == (ModInfo {
            description: Some(desc.description),
            homepage: Some(desc.homepage),
            icon: icon,
            ..m
        }),
{
    ModInfo { description: Some(desc.description), homepage: Some(desc.homepage), icon, ..m }
}

} // verus!
