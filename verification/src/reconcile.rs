//! The record reconciler: turns one raw upstream record into the canonical
//! entity shape.
//!
//! Reconciliation is a pure function and never fails: missing structured
//! fields default to their zero value, the open-ended tag list is folded
//! into the recognized fields (the last occurrence of a key wins, as in a
//! key-to-value map), version data is taken from the consolidated summary
//! tag when present and from the two legacy tags otherwise, and the social
//! links form an optional group that exists only when at least one link is
//! non-empty.

use vstd::prelude::*;
use vstd::string::StrSliceExecFns;
use vstd::string::StringExecFns;
use crate::steam::{Child, KVTag, ModTag, PublishedFileDetails, SteamUserInfo, VoteData};
use crate::parse::{parse_u32, parse_u64, parsed_u32, parsed_u64};

verus! {

/// Which side of a connection an entity runs on.
#[derive(Clone, Copy, Debug, PartialEq, Eq, Structural)]
pub enum ModSide {
    Both,
    Client,
    Server,
    NoSync,
}

/// One released version: the entity's own version paired with the platform
/// version it was built for.
#[derive(Clone, Debug, PartialEq, Eq)]
pub struct ModVersion {
    pub mod_version: String,
    pub tmodloader_version: String,
}

/// The optional social links of an entity; the group is present only when
/// at least one link is configured non-empty.
#[derive(Clone, Debug, PartialEq, Eq)]
pub struct ModSocials {
    pub youtube: Option<String>,
    pub twitter: Option<String>,
    pub reddit: Option<String>,
    pub facebook: Option<String>,
    pub sketchfab: Option<String>,
}

/// The canonical entity shape produced by reconciliation.
#[derive(Clone, Debug, PartialEq, Eq)]
pub struct ModInfo {
    pub display_name: String,
    pub internal_name: String,
    pub mod_id: u64,
    pub author: String,
    pub author_id: u64,
    pub modside: String,
    pub homepage: String,
    pub versions: Vec<ModVersion>,
    pub mod_references: String,
    pub num_versions: u32,
    pub tags: Option<Vec<ModTag>>,
    pub time_created: u64,
    pub time_updated: u64,
    pub workshop_icon_url: String,
    pub children: Option<Vec<u64>>,
    pub description: Option<String>,
    pub downloads_total: u32,
    pub favorited: u32,
    pub followers: u32,
    pub views: u64,
    pub vote_data: Option<VoteData>,
    pub playtime: String,
    pub num_comments: u32,
    pub socials: Option<ModSocials>,
}

/// An author together with the reconciled entities they own and the summed
/// counters over them.
pub struct AuthorInfo {
    pub steam_id: u64,
    pub steam_name: String,
    pub steam_avatar: String,
    pub mods: Vec<ModInfo>,
    pub total: u32,
    pub total_downloads: u64,
    pub total_favorites: u64,
    pub total_views: u64,
}

/// The value stored under `key`, taking the last occurrence when the key
/// repeats, as folding the list into a map would.
pub open spec fn tag_lookup(tags: Seq<KVTag>, key: Seq<char>) -> Option<String>
    decreases tags.len(),
{
    if tags.len() == 0 {
        None
    } else if tags.last().key@ == key {
        Some(tags.last().value)
    } else {
        tag_lookup(tags.drop_last(), key)
    }
}

/// The value stored under `key`, taking the first occurrence.
pub open spec fn first_tag_lookup(tags: Seq<KVTag>, key: Seq<char>) -> Option<String>
    decreases tags.len(),
{
    if tags.len() == 0 {
        None
    } else if tags.first().key@ == key {
        Some(tags.first().value)
    } else {
        first_tag_lookup(tags.drop_first(), key)
    }
}

/// The folded value of `key` as text, empty when the key is absent.
pub open spec fn tag_str(tags: Seq<KVTag>, key: Seq<char>) -> Seq<char> {
    match tag_lookup(tags, key) {
        Some(v) => v@,
        None => Seq::<char>::empty(),
    }
}

/// A social link's folded value, present only when it is non-empty.
pub open spec fn social_lookup(tags: Seq<KVTag>, key: Seq<char>) -> Option<String> {
    match tag_lookup(tags, key) {
        Some(v) => if v@.len() > 0 {
            Some(v)
        } else {
            None
        },
        None => None,
    }
}

/// The first value stored under `key` in the tag list, if any.
pub fn find_kvtag_value(tags: &Vec<KVTag>, key: &str) -> (r: Option<String>)
    ensures
        r == first_tag_lookup(tags@, key@),
{
    let k: String = key.to_owned();
    let n = tags.len();
    let mut i: usize = 0;
    proof {
        assert(tags@.skip(0) =~= tags@);
    }
    while i < n
        invariant
            0 <= i <= n,
            n == tags@.len(),
            k@ == key@,
            first_tag_lookup(tags@, key@) == first_tag_lookup(tags@.skip(i as int), key@),
        decreases n - i,
    {
        proof {
            assert(tags@.skip(i as int).first() == tags@[i as int]);
            assert(tags@.skip(i as int).drop_first() =~= tags@.skip(i as int + 1));
        }
        if tags[i].key == k {
            return Some(tags[i].value.clone());
        }
        i = i + 1;
    }
    proof {
        assert(tags@.skip(n as int) =~= Seq::<KVTag>::empty());
    }
    None
}

/// The folded value stored under `key`: the last occurrence wins.
pub fn tag_value(tags: &Vec<KVTag>, key: &str) -> (r: Option<String>)
    ensures
        r == tag_lookup(tags@, key@),
{
    let k: String = key.to_owned();
    let n = tags.len();
    let mut i: usize = n;
    proof {
        assert(tags@.take(n as int) =~= tags@);
    }
    while i > 0
        invariant
            0 <= i <= n,
            n == tags@.len(),
            k@ == key@,
            tag_lookup(tags@, key@) == tag_lookup(tags@.take(i as int), key@),
        decreases i,
    {
        i = i - 1;
        proof {
            assert(tags@.take(i as int + 1).last() == tags@[i as int]);
            assert(tags@.take(i as int + 1).drop_last() =~= tags@.take(i as int));
        }
        if tags[i].key == k {
            return Some(tags[i].value.clone());
        }
    }
    proof {
        assert(tags@.take(0) =~= Seq::<KVTag>::empty());
    }
    None
}

/// The index of the first occurrence of `c` in `s` at or after `i`, or the
/// length of `s` when there is none.
pub open spec fn find_from(s: Seq<char>, c: char, i: int) -> int
    decreases s.len() - i,
{
    if i < 0 || i >= s.len() {
        s.len() as int
    } else if s[i] == c {
        i
    } else {
        find_from(s, c, i + 1)
    }
}

/// A scan that saw no occurrence before `p`, and one at `p` unless `p` is
/// the end, pins down `find_from`.
proof fn lemma_find_from_value(s: Seq<char>, c: char, i: int, p: int)
    requires
        0 <= i <= p <= s.len(),
        forall|m: int| i <= m < p ==> s[m] != c,
        p < s.len() ==> s[p] == c,
    ensures
        find_from(s, c, i) == if p < s.len() {
            p
        } else {
            s.len() as int
        },
    decreases p - i,
{
    if i < p {
        lemma_find_from_value(s, c, i + 1, p);
    }
}

/// The version pair a single summary segment denotes: the text before the
/// first `:` paired with the text after it.  A segment without a `:` is a
/// malformed upstream value and denotes nothing: it is dropped rather than
/// guessed at.
pub open spec fn segment_pairs(seg: Seq<char>) -> Seq<(Seq<char>, Seq<char>)> {
    let j = find_from(seg, ':', 0);
    if 0 <= j && j < seg.len() {
        seq![(seg.take(j), seg.skip(j + 1))]
    } else {
        Seq::empty()
    }
}

/// The version pairs a summary denotes: the summary splits on `;` into
/// segments and each segment splits on its first `:`.
pub open spec fn version_pairs(s: Seq<char>) -> Seq<(Seq<char>, Seq<char>)>
    decreases s.len(),
{
    let j = find_from(s, ';', 0);
    if 0 <= j && j < s.len() {
        segment_pairs(s.take(j)) + version_pairs(s.skip(j + 1))
    } else {
        segment_pairs(s)
    }
}

/// The pair of texts a version entry holds.
pub open spec fn mv_view(m: ModVersion) -> (Seq<char>, Seq<char>) {
    (m.mod_version@, m.tmodloader_version@)
}

/// The pairs of texts a version list holds.
pub open spec fn views_of_versions(vs: Seq<ModVersion>) -> Seq<(Seq<char>, Seq<char>)> {
    vs.map_values(|m: ModVersion| mv_view(m))
}

proof fn lemma_views_of_versions_push(vs: Seq<ModVersion>, m: ModVersion)
    ensures
        views_of_versions(vs.push(m)) =~= views_of_versions(vs).push(mv_view(m)),
{
}

/// The version list an entity ends up with: the summary's pairs when the
/// summary is present and yields at least one well-formed pair, else a
/// single entry made of the two legacy single-value tags (possibly empty
/// strings).
pub open spec fn expected_version_pairs(
    summary: Seq<char>,
    legacy_mod: Seq<char>,
    legacy_tml: Seq<char>,
) -> Seq<(Seq<char>, Seq<char>)> {
    if summary.len() == 0 || version_pairs(summary).len() == 0 {
        seq![(legacy_mod, legacy_tml)]
    } else {
        version_pairs(summary)
    }
}

/// Law: an entity's version list is never empty.  When no usable version
/// data exists at all, a single entry of empty strings is synthesized.
pub proof fn lemma_versions_never_empty(
    summary: Seq<char>,
    legacy_mod: Seq<char>,
    legacy_tml: Seq<char>,
)
    ensures
        expected_version_pairs(summary, legacy_mod, legacy_tml).len() >= 1,
{
}

/// Scans `s` for `c` within `[from, to)`, returning the first position
/// found or `to` when there is none.
fn find_char_in(s: &str, c: char, from: usize, to: usize) -> (j: usize)
    requires
        from <= to <= s@.len(),
    ensures
        from <= j <= to,
        j < to ==> s@[j as int] == c,
        forall|m: int| from <= m < j ==> s@[m] != c,
{
    let mut j = from;
    while j < to
        invariant
            from <= j <= to,
            to <= s@.len(),
            forall|m: int| from <= m < j ==> s@[m] != c,
        decreases to - j,
    {
        if s.get_char(j) == c {
            return j;
        }
        j = j + 1;
    }
    j
}

/// Splits a version summary into its well-formed version entries, in
/// order.
pub fn split_version_summary(summary: &str) -> (r: Vec<ModVersion>)
    ensures
        views_of_versions(r@) == version_pairs(summary@),
{
    let n = summary.unicode_len();
    let mut out: Vec<ModVersion> = Vec::new();
    let mut start: usize = 0;
    proof {
        assert(summary@.skip(0) =~= summary@);
        assert(views_of_versions(out@) =~= Seq::<(Seq<char>, Seq<char>)>::empty());
    }
    loop
        invariant_except_break
            n == summary@.len(),
            0 <= start <= n,
            version_pairs(summary@) == views_of_versions(out@) + version_pairs(
                summary@.skip(start as int),
            ),
        ensures
            version_pairs(summary@) == views_of_versions(out@),
        decreases n - start,
    {
        let ghost suffix = summary@.skip(start as int);
        let j = find_char_in(summary, ';', start, n);
        proof {
            assert forall|m: int| 0 <= m < j - start implies suffix[m] != ';' by {
                assert(suffix[m] == summary@[start + m]);
            }
            if j < n {
                assert(suffix[j - start] == summary@[j as int]);
            }
            lemma_find_from_value(suffix, ';', 0, j - start);
        }
        let ghost seg = summary@.subrange(start as int, j as int);
        let k = find_char_in(summary, ':', start, j);
        proof {
            assert forall|m: int| 0 <= m < k - start implies seg[m] != ':' by {
                assert(seg[m] == summary@[start + m]);
            }
            if k < j {
                assert(seg[k - start] == summary@[k as int]);
            }
            lemma_find_from_value(seg, ':', 0, k - start);
        }
        if k < j {
            let mv = summary.substring_char(start, k).to_owned();
            let tv = summary.substring_char(k + 1, j).to_owned();
            proof {
                assert(mv@ =~= seg.take(k - start));
                assert(tv@ =~= seg.skip(k - start + 1));
                assert(segment_pairs(seg) =~= seq![(mv@, tv@)]);
                lemma_views_of_versions_push(
                    out@,
                    ModVersion { mod_version: mv, tmodloader_version: tv },
                );
            }
            out.push(ModVersion { mod_version: mv, tmodloader_version: tv });
        } else {
            proof {
                assert(segment_pairs(seg) =~= Seq::<(Seq<char>, Seq<char>)>::empty());
            }
        }
        if j == n {
            proof {
                assert(seg =~= suffix);
                assert(version_pairs(suffix) == segment_pairs(suffix));
                assert(views_of_versions(out@) =~= version_pairs(summary@));
            }
            break ;
        }
        proof {
            assert(seg =~= suffix.take(j - start));
            assert(version_pairs(suffix) == segment_pairs(suffix.take(j - start))
                + version_pairs(suffix.skip(j - start + 1)));
            assert(summary@.skip(j + 1) =~= suffix.skip(j - start + 1));
        }
        start = j + 1;
    }
    out
}

/// The tag list of a record, empty when the record carries none.
pub open spec fn kvtags_of(d: PublishedFileDetails) -> Seq<KVTag> {
    match d.kvtags {
        Some(v) => v@,
        None => Seq::<KVTag>::empty(),
    }
}

/// `r` is `o`'s value, or empty text when `o` is absent.
pub open spec fn string_or_empty(r: String, o: Option<String>) -> bool {
    match o {
        Some(s) => r == s,
        None => r@ == Seq::<char>::empty(),
    }
}

/// `r` is the folded tag value under `key`, or empty text when the key is
/// absent.
pub open spec fn tag_or_empty(r: String, tags: Seq<KVTag>, key: Seq<char>) -> bool {
    match tag_lookup(tags, key) {
        Some(v) => r == v,
        None => r@ == Seq::<char>::empty(),
    }
}

/// An optional counter, defaulted to zero.
pub open spec fn u32_or_zero(o: Option<u32>) -> u32 {
    match o {
        Some(v) => v,
        None => 0,
    }
}

/// An optional counter, defaulted to zero.
pub open spec fn u64_or_zero(o: Option<u64>) -> u64 {
    match o {
        Some(v) => v,
        None => 0,
    }
}

/// The numeric id a textual id field denotes, zero when absent or
/// unparsable.
pub open spec fn id_of(o: Option<String>) -> u64 {
    match o {
        Some(s) => match parsed_u64(s@) {
            Some(v) => v,
            None => 0,
        },
        None => 0,
    }
}

/// The revision count a textual field denotes, zero when absent or
/// unparsable.
pub open spec fn revision_of(o: Option<String>) -> u32 {
    match o {
        Some(s) => match parsed_u32(s@) {
            Some(v) => v,
            None => 0,
        },
        None => 0,
    }
}

/// The child ids that parse as numbers, in order; unparsable ids are
/// dropped rather than fatal.
pub open spec fn child_ids(cs: Seq<Child>) -> Seq<u64>
    decreases cs.len(),
{
    if cs.len() == 0 {
        Seq::<u64>::empty()
    } else {
        let rest = child_ids(cs.drop_last());
        match parsed_u64(cs.last().publishedfileid@) {
            Some(v) => rest.push(v),
            None => rest,
        }
    }
}

/// The socials group matches the tag list: absent exactly when all five
/// links are absent or empty, else present with each link's folded
/// non-empty value.
pub open spec fn socials_match(s: Option<ModSocials>, tags: Seq<KVTag>) -> bool {
    let yt = social_lookup(tags, "youtube"@);
    let tw = social_lookup(tags, "twitter"@);
    let rd = social_lookup(tags, "reddit"@);
    let fb = social_lookup(tags, "facebook"@);
    let sk = social_lookup(tags, "sketchfab"@);
    if yt is None && tw is None && rd is None && fb is None && sk is None {
        s is None
    } else {
        s matches Some(g) && g.youtube == yt && g.twitter == tw && g.reddit == rd && g.facebook
            == fb && g.sketchfab == sk
    }
}

/// `m` is the canonical entity reconciled from the raw record `d`.
pub open spec fn reconciled(d: PublishedFileDetails, m: ModInfo) -> bool {
    let tags = kvtags_of(d);
    &&& string_or_empty(m.display_name, d.title)
    &&& tag_or_empty(m.internal_name, tags, "name"@)
    &&& m.mod_id == id_of(d.publishedfileid)
    &&& tag_or_empty(m.author, tags, "Author"@)
    &&& m.author_id == u64_or_zero(d.creator)
    &&& tag_or_empty(m.modside, tags, "modside"@)
    &&& tag_or_empty(m.homepage, tags, "homepage"@)
    &&& views_of_versions(m.versions@) == expected_version_pairs(
        tag_str(tags, "versionsummary"@),
        tag_str(tags, "version"@),
        tag_str(tags, "modloaderversion"@),
    )
    &&& tag_or_empty(m.mod_references, tags, "modreferences"@)
    &&& m.num_versions == revision_of(d.revision_change_number)
    &&& (match d.tags {
        Some(ts) => m.tags matches Some(ws) && ws@ == ts@,
        None => m.tags is None,
    })
    &&& m.time_created == u64_or_zero(d.time_created)
    &&& m.time_updated == u64_or_zero(d.time_updated)
    &&& string_or_empty(m.workshop_icon_url, d.preview_url)
    &&& (match d.children {
        Some(cs) => m.children matches Some(ids) && ids@ == child_ids(cs@),
        None => m.children is None,
    })
    &&& m.description == d.file_description
    &&& m.downloads_total == u32_or_zero(d.subscriptions)
    &&& m.favorited == u32_or_zero(d.favorited)
    &&& m.followers == u32_or_zero(d.followers)
    &&& m.views == u64_or_zero(d.views)
    &&& (match d.vote_data {
        Some(v) => m.vote_data matches Some(w) && w == v,
        None => m.vote_data is None,
    })
    &&& string_or_empty(m.playtime, d.lifetime_playtime)
    &&& m.num_comments == u32_or_zero(d.num_comments_public)
    &&& socials_match(m.socials, tags)
}

/// The folded tag value under `key`, or an empty string.
fn tag_value_or_default(tags: &Vec<KVTag>, key: &str) -> (r: String)
    ensures
        tag_or_empty(r, tags@, key@),
{
    match tag_value(tags, key) {
        Some(v) => v,
        None => String::new(),
    }
}

/// A social link's folded value, present only when non-empty.
fn social_value(tags: &Vec<KVTag>, key: &str) -> (r: Option<String>)
    ensures
        r == social_lookup(tags@, key@),
{
    match tag_value(tags, key) {
        Some(v) => {
            if v.as_str().is_empty() {
                None
            } else {
                Some(v)
            }
        },
        None => None,
    }
}

/// `o`'s value, or an empty string when absent.
fn opt_string_or_default(o: &Option<String>) -> (r: String)
    ensures
        string_or_empty(r, *o),
{
    match o {
        Some(s) => s.clone(),
        None => String::new(),
    }
}

/// A copy of an optional string field.
fn clone_opt_string(o: &Option<String>) -> (r: Option<String>)
    ensures
        r == *o,
{
    match o {
        Some(s) => Some(s.clone()),
        None => None,
    }
}

/// A copy of a curated tag list.
fn clone_mod_tags(v: &Vec<ModTag>) -> (r: Vec<ModTag>)
    ensures
        r@ == v@,
{
    let n = v.len();
    let mut r: Vec<ModTag> = Vec::new();
    let mut i: usize = 0;
    while i < n
        invariant
            0 <= i <= n,
            n == v@.len(),
            r@ =~= v@.take(i as int),
        decreases n - i,
    {
        r.push(ModTag { tag: v[i].tag.clone(), display_name: v[i].display_name.clone() });
        proof {
            assert(r@ =~= v@.take(i as int + 1));
        }
        i = i + 1;
    }
    proof {
        assert(v@.take(n as int) =~= v@);
    }
    r
}

/// The numeric child ids of a child list, unparsable ids dropped.
fn parse_children(cs: &Vec<Child>) -> (r: Vec<u64>)
    ensures
        r@ == child_ids(cs@),
{
    let n = cs.len();
    let mut r: Vec<u64> = Vec::new();
    let mut i: usize = 0;
    proof {
        assert(cs@.take(0) =~= Seq::<Child>::empty());
    }
    while i < n
        invariant
            0 <= i <= n,
            n == cs@.len(),
            r@ == child_ids(cs@.take(i as int)),
        decreases n - i,
    {
        proof {
            assert(cs@.take(i as int + 1).drop_last() =~= cs@.take(i as int));
            assert(cs@.take(i as int + 1).last() == cs@[i as int]);
        }
        match parse_u64(cs[i].publishedfileid.as_str()) {
            Some(id) => {
                r.push(id);
            },
            None => {},
        }
        i = i + 1;
    }
    proof {
        assert(cs@.take(n as int) =~= cs@);
    }
    r
}

/// A copy of a vote-data field.
fn clone_vote_data(v: &VoteData) -> (r: VoteData)
    ensures
        r == *v,
{
    VoteData { score: v.score.clone(), votes_up: v.votes_up, votes_down: v.votes_down }
}

/// Reconciles one raw record into the canonical entity shape.  This is a
/// pure function and never fails: absent structured fields become their
/// zero values, and malformed version segments and child ids are dropped.
pub fn get_filtered_mod_info(d: &PublishedFileDetails) -> (m: ModInfo)
    ensures
        reconciled(*d, m),
{
    let empty_tags: Vec<KVTag> = Vec::new();
    let tags: &Vec<KVTag> = match &d.kvtags {
        Some(v) => v,
        None => &empty_tags,
    };
    proof {
        assert(tags@ == kvtags_of(*d));
    }
    let internal_name = tag_value_or_default(tags, "name");
    let author = tag_value_or_default(tags, "Author");
    let modside = tag_value_or_default(tags, "modside");
    let homepage = tag_value_or_default(tags, "homepage");
    let deprecated_version_mod = tag_value_or_default(tags, "version");
    let deprecated_version_tml = tag_value_or_default(tags, "modloaderversion");
    let version_summary = tag_value_or_default(tags, "versionsummary");
    let mod_references = tag_value_or_default(tags, "modreferences");

    let ghost expected = expected_version_pairs(
        tag_str(tags@, "versionsummary"@),
        tag_str(tags@, "version"@),
        tag_str(tags@, "modloaderversion"@),
    );
    let mut versions: Vec<ModVersion>;
    if version_summary.as_str().is_empty() {
        versions = Vec::new();
        versions.push(
            ModVersion {
                mod_version: deprecated_version_mod,
                tmodloader_version: deprecated_version_tml,
            },
        );
        proof {
            assert(views_of_versions(versions@) =~= expected);
        }
    } else {
        let split = split_version_summary(version_summary.as_str());
        if split.len() == 0 {
            versions = Vec::new();
            versions.push(
                ModVersion {
                    mod_version: deprecated_version_mod,
                    tmodloader_version: deprecated_version_tml,
                },
            );
            proof {
                assert(views_of_versions(versions@) =~= expected);
            }
        } else {
            versions = split;
            proof {
                assert(views_of_versions(versions@) == expected);
            }
        }
    }

    let youtube = social_value(tags, "youtube");
    let twitter = social_value(tags, "twitter");
    let reddit = social_value(tags, "reddit");
    let facebook = social_value(tags, "facebook");
    let sketchfab = social_value(tags, "sketchfab");
    let socials: Option<ModSocials> = if youtube.is_none() && twitter.is_none()
        && reddit.is_none() && facebook.is_none() && sketchfab.is_none() {
        None
    } else {
        Some(ModSocials { youtube, twitter, reddit, facebook, sketchfab })
    };

    let mod_id: u64 = match &d.publishedfileid {
        Some(s) => match parse_u64(s.as_str()) {
            Some(v) => v,
            None => 0,
        },
        None => 0,
    };
    let num_versions: u32 = match &d.revision_change_number {
        Some(s) => match parse_u32(s.as_str()) {
            Some(v) => v,
            None => 0,
        },
        None => 0,
    };
    let children: Option<Vec<u64>> = match &d.children {
        Some(cs) => Some(parse_children(cs)),
        None => None,
    };
    let tags_out: Option<Vec<ModTag>> = match &d.tags {
        Some(ts) => Some(clone_mod_tags(ts)),
        None => None,
    };
    let vote_data: Option<VoteData> = match &d.vote_data {
        Some(v) => Some(clone_vote_data(v)),
        None => None,
    };

    ModInfo {
        display_name: opt_string_or_default(&d.title),
        internal_name,
        mod_id,
        author,
        author_id: match d.creator {
            Some(v) => v,
            None => 0,
        },
        modside,
        homepage,
        versions,
        mod_references,
        num_versions,
        tags: tags_out,
        time_created: match d.time_created {
            Some(v) => v,
            None => 0,
        },
        time_updated: match d.time_updated {
            Some(v) => v,
            None => 0,
        },
        workshop_icon_url: opt_string_or_default(&d.preview_url),
        children,
        description: clone_opt_string(&d.file_description),
        downloads_total: match d.subscriptions {
            Some(v) => v,
            None => 0,
        },
        favorited: match d.favorited {
            Some(v) => v,
            None => 0,
        },
        followers: match d.followers {
            Some(v) => v,
            None => 0,
        },
        views: match d.views {
            Some(v) => v,
            None => 0,
        },
        vote_data,
        playtime: opt_string_or_default(&d.lifetime_playtime),
        num_comments: match d.num_comments_public {
            Some(v) => v,
            None => 0,
        },
        socials,
    }
}

/// Law: a reconciled entity's version list is never empty, whatever the raw
/// record held.
pub proof fn lemma_reconciled_versions_nonempty(d: PublishedFileDetails, m: ModInfo)
    requires
        reconciled(d, m),
    ensures
        m.versions@.len() >= 1,
{
    let tags = kvtags_of(d);
    lemma_versions_never_empty(
        tag_str(tags, "versionsummary"@),
        tag_str(tags, "version"@),
        tag_str(tags, "modloaderversion"@),
    );
    assert(views_of_versions(m.versions@).len() == m.versions@.len());
}

/// The summed download counters of a record list.
pub open spec fn sum_downloads(s: Seq<PublishedFileDetails>) -> int
    decreases s.len(),
{
    if s.len() == 0 {
        0
    } else {
        sum_downloads(s.drop_last()) + u32_or_zero(s.last().subscriptions)
    }
}

/// The summed favorite counters of a record list.
pub open spec fn sum_favorites(s: Seq<PublishedFileDetails>) -> int
    decreases s.len(),
{
    if s.len() == 0 {
        0
    } else {
        sum_favorites(s.drop_last()) + u32_or_zero(s.last().favorited)
    }
}

/// The summed view counters of a record list.
pub open spec fn sum_views(s: Seq<PublishedFileDetails>) -> int
    decreases s.len(),
{
    if s.len() == 0 {
        0
    } else {
        sum_views(s.drop_last()) + u64_or_zero(s.last().views)
    }
}

/// A non-negative total, clamped to the counter's range.
pub open spec fn clamped_u64(x: int) -> u64 {
    if x <= u64::MAX {
        x as u64
    } else {
        u64::MAX
    }
}

/// Counter sums are never negative.
proof fn lemma_sums_nonneg(s: Seq<PublishedFileDetails>)
    ensures
        sum_downloads(s) >= 0,
        sum_favorites(s) >= 0,
        sum_views(s) >= 0,
    decreases s.len(),
{
    if s.len() > 0 {
        lemma_sums_nonneg(s.drop_last());
    }
}

/// Builds an author's view: every record reconciled in order, with the
/// three counters summed over all records (clamped at the range's top
/// rather than overflowing).
pub fn build_author_info(
    steamid: u64,
    user: SteamUserInfo,
    author_data: &crate::steam::ModListResponse,
) -> (r: AuthorInfo)
    ensures
        r.steam_id == steamid,
        r.steam_name == user.personaname,
        r.steam_avatar == user.avatarfull,
        r.total == author_data.total,
        match author_data.publishedfiledetails {
            Some(ds) => {
                &&& r.mods@.len() == ds@.len()
                &&& (forall|i: int|
                    0 <= i < ds@.len() ==> reconciled(ds@[i], #[trigger] r.mods@[i]))
                &&& r.total_downloads == clamped_u64(sum_downloads(ds@))
                &&& r.total_favorites == clamped_u64(sum_favorites(ds@))
                &&& r.total_views == clamped_u64(sum_views(ds@))
            },
            None => r.mods@.len() == 0 && r.total_downloads == 0 && r.total_favorites == 0
                && r.total_views == 0,
        },
{
    let empty_details: Vec<PublishedFileDetails> = Vec::new();
    let details: &Vec<PublishedFileDetails> = match &author_data.publishedfiledetails {
        Some(v) => v,
        None => &empty_details,
    };
    let n = details.len();
    let mut mods: Vec<ModInfo> = Vec::new();
    let mut total_downloads: u64 = 0;
    let mut total_favorites: u64 = 0;
    let mut total_views: u64 = 0;
    let mut i: usize = 0;
    proof {
        assert(details@.take(0) =~= Seq::<PublishedFileDetails>::empty());
    }
    while i < n
        invariant
            0 <= i <= n,
            n == details@.len(),
            mods@.len() == i,
            forall|k: int| 0 <= k < i ==> reconciled(details@[k], #[trigger] mods@[k]),
            total_downloads == clamped_u64(sum_downloads(details@.take(i as int))),
            total_favorites == clamped_u64(sum_favorites(details@.take(i as int))),
            total_views == clamped_u64(sum_views(details@.take(i as int))),
        decreases n - i,
    {
        proof {
            assert(details@.take(i as int + 1).drop_last() =~= details@.take(i as int));
            assert(details@.take(i as int + 1).last() == details@[i as int]);
            lemma_sums_nonneg(details@.take(i as int));
        }
        let d = &details[i];
        let add_downloads: u64 = match d.subscriptions {
            Some(v) => v as u64,
            None => 0,
        };
        let add_favorites: u64 = match d.favorited {
            Some(v) => v as u64,
            None => 0,
        };
        let add_views: u64 = match d.views {
            Some(v) => v,
            None => 0,
        };
        proof {
            assert(add_downloads == u32_or_zero(details@[i as int].subscriptions));
            assert(add_favorites == u32_or_zero(details@[i as int].favorited));
        }
        total_downloads = total_downloads.saturating_add(add_downloads);
        total_favorites = total_favorites.saturating_add(add_favorites);
        total_views = total_views.saturating_add(add_views);
        mods.push(get_filtered_mod_info(d));
        i = i + 1;
    }
    proof {
        assert(details@.take(n as int) =~= details@);
    }
    AuthorInfo {
        steam_id: steamid,
        steam_name: user.personaname,
        steam_avatar: user.avatarfull,
        mods,
        total: author_data.total,
        total_downloads,
        total_favorites,
        total_views,
    }
}

} // verus!
