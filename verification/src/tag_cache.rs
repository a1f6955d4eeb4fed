//! The GitHub tag cache: one row per repository with its tag list, how
//! long a row stays fresh, how the version of a package is recomputed from
//! the cached tags, and the incremental check of an expired row against
//! the repository's latest release.

use vstd::prelude::*;
use crate::text::{parse_i64, parse_i64_spec};
use crate::batch::{copy_opt_string, string_views};
use crate::sync::{json_string_array, json_strings};

verus! {

/// How long a cached tag list stays fresh when no setting says otherwise
/// (seconds).
pub const DEFAULT_CACHE_TTL_SECONDS: i64 = 86400;

/// A cached tag snapshot of one repository.
#[derive(Debug)]
pub struct GithubTagCacheRow {
    pub owner: String,
    pub repo: String,
    /// Unix time (seconds) of the last sync.
    pub last_synced_at: i64,
    pub tag_count: i32,
    /// `{"tags":[...],"releases":[...]}`, newest first.
    pub data_json: String,
    /// The version the row was last checked against.
    pub cached_version: Option<String>,
}

/// The outcome of the incremental check of a repository's cache row.
#[derive(Debug)]
pub enum CacheCheckResult {
    /// The row is fresh.
    Hit,
    /// The row had expired, the latest release is still the cached
    /// version, and the row's freshness was extended.
    Extend,
    /// The latest release differs from the cached version; the version
    /// that now applies.
    Recalculate { new_version: String },
    /// The repository could not be asked, or has no release; the row is
    /// dropped (the cache is cleared).
    Deleted,
    /// There is no row for the repository.
    Miss,
}

/// The cache lifetime a `github_cache_ttl` setting gives: its value read
/// as an integer, or the default when the setting is absent or no integer.
pub open spec fn spec_ttl_from_setting(value: Option<Seq<char>>) -> i64 {
    match value {
        Some(v) => match parse_i64_spec(v) {
            Some(n) => n,
            None => DEFAULT_CACHE_TTL_SECONDS,
        },
        None => DEFAULT_CACHE_TTL_SECONDS,
    }
}

/// The cache lifetime (seconds) given by the `github_cache_ttl` setting.
pub fn ttl_from_setting(value: Option<&str>) -> (r: i64)
    ensures
        r == spec_ttl_from_setting(match value { Some(v) => Some(v@), None => None }),
{
    match value {
        Some(v) => match parse_i64(v) {
            Some(n) => n,
            None => DEFAULT_CACHE_TTL_SECONDS,
        },
        None => DEFAULT_CACHE_TTL_SECONDS,
    }
}

/// A row synced at `last_synced_at` is fresh at time `now`.
pub open spec fn spec_is_fresh(last_synced_at: i64, now: i64, ttl: i64) -> bool {
    last_synced_at >= now - ttl
}

/// Whether a row synced at `last_synced_at` is still fresh at `now`.
pub fn is_cache_fresh(last_synced_at: i64, now: i64, ttl: i64) -> (r: bool)
    requires
        i64::MIN <= now - ttl <= i64::MAX,
    ensures
        r == spec_is_fresh(last_synced_at, now, ttl),
{
    last_synced_at >= now - ttl
}

impl GithubTagCacheRow {
    /// A copy of the row.
    pub fn copy(&self) -> (r: GithubTagCacheRow)
        ensures
            r == *self,
    {
        GithubTagCacheRow {
            owner: self.owner.clone(),
            repo: self.repo.clone(),
            last_synced_at: self.last_synced_at,
            tag_count: self.tag_count,
            data_json: self.data_json.clone(),
            cached_version: copy_opt_string(&self.cached_version),
        }
    }
}

/// The fresh rows among those found, in order.
pub fn fresh_cache_rows(rows: &Vec<GithubTagCacheRow>, now: i64, ttl: i64) -> (r: Vec<GithubTagCacheRow>)
    requires
        i64::MIN <= now - ttl <= i64::MAX,
    ensures
        r@ == rows@.filter(|row: GithubTagCacheRow| spec_is_fresh(row.last_synced_at, now, ttl)),
{
    let mut kept: Vec<GithubTagCacheRow> = Vec::new();
    let mut i: usize = 0;
    while i < rows.len()
        invariant
            i <= rows.len(),
            i64::MIN <= now - ttl <= i64::MAX,
            kept@ == rows@.subrange(0, i as int).filter(
                |row: GithubTagCacheRow| spec_is_fresh(row.last_synced_at, now, ttl),
            ),
        decreases rows.len() - i,
    {
        proof {
            assert(rows@.subrange(0, i + 1) =~= rows@.subrange(0, i as int).push(rows@[i as int]));
            rows@.subrange(0, i as int).lemma_filter_push(
                rows@[i as int],
                |row: GithubTagCacheRow| spec_is_fresh(row.last_synced_at, now, ttl),
            );
        }
        if is_cache_fresh(rows[i].last_synced_at, now, ttl) {
            kept.push(rows[i].copy());
        }
        i = i + 1;
    }
    assert(rows@.subrange(0, rows@.len() as int) =~= rows@);
    kept
}

// ---------------------------------------------------------------------------
// Reading the cached document
// ---------------------------------------------------------------------------

/// What `serde_json` reads from a cache document: `None` when the text is
/// no JSON; otherwise the items of its `"tags"` member when that member is
/// an array, and the items of the document itself when it is an array,
/// each item as its string value when it is a JSON string.
pub uninterp spec fn json_tag_parts(data_json: Seq<char>) -> Option<(Option<Seq<Option<Seq<char>>>>, Option<Seq<Option<Seq<char>>>>)>;

/// The views of optional strings.
pub open spec fn opt_string_views(v: Seq<Option<String>>) -> Seq<Option<Seq<char>>> {
    v.map_values(|o: Option<String>| match o { Some(s) => Some(s@), None => None })
}

/// The views of an optional list of optional strings.
pub open spec fn opt_items_view(v: Option<Vec<Option<String>>>) -> Option<Seq<Option<Seq<char>>>> {
    match v {
        Some(items) => Some(opt_string_views(items@)),
        None => None,
    }
}

/// Parses a cache document with `serde_json::from_str` into a
/// `serde_json::Value` and reads its parts: the `"tags"` member as an array
/// (`get` and `as_array`) and the document itself as an array
/// (`as_array`), each item converted with `as_str`. Claimed: the result is
/// `json_tag_parts` of the text.
#[verifier::external_body]
fn json_tag_items(data_json: &str) -> (r: Option<(Option<Vec<Option<String>>>, Option<Vec<Option<String>>>)>)
    ensures
        match r {
            Some((member, whole)) => json_tag_parts(data_json@) == Some((opt_items_view(member), opt_items_view(whole))),
            None => json_tag_parts(data_json@) is None,
        },
{
    let v: serde_json::Value = serde_json::from_str(data_json).ok()?;
    let member = v.get("tags").and_then(|t| t.as_array())
        .map(|a| a.iter().map(|x| x.as_str().map(String::from)).collect());
    let whole = v.as_array().map(|a| a.iter().map(|x| x.as_str().map(String::from)).collect());
    Some((member, whole))
}

/// The tag list of a cache document: the `"tags"` member when it is an
/// array, else the document itself when it is an array.
pub open spec fn json_tag_list(data_json: Seq<char>) -> Option<Seq<Option<Seq<char>>>> {
    match json_tag_parts(data_json) {
        Some((Some(items), _)) => Some(items),
        Some((None, Some(items))) => Some(items),
        _ => None,
    }
}

/// The string items of a list, in order.
pub open spec fn string_items(items: Seq<Option<Seq<char>>>) -> Seq<Seq<char>>
    decreases items.len(),
{
    if items.len() == 0 {
        Seq::empty()
    } else {
        let prev = string_items(items.drop_last());
        match items.last() {
            Some(s) => prev.push(s),
            None => prev,
        }
    }
}

/// The tags of a cache document: the string items of its tag list
/// (`{"tags":[...]}` or a bare array), empty when there is none.
pub open spec fn spec_decode_tags(data_json: Seq<char>) -> Seq<Seq<char>> {
    match json_tag_list(data_json) {
        Some(items) => string_items(items),
        None => Seq::empty(),
    }
}

/// The views of a list of strings.
pub open spec fn views(v: Seq<String>) -> Seq<Seq<char>> {
    v.map_values(|s: String| s@)
}

/// The tags of a cache document, newest first.
pub fn decode_tags(data_json: &str) -> (r: Vec<String>)
    ensures
        views(r@) == spec_decode_tags(data_json@),
{
    let items = match json_tag_items(data_json) {
        Some((Some(member), _)) => member,
        Some((None, Some(whole))) => whole,
        _ => return Vec::new(),
    };
    let ghost iv = opt_string_views(items@);
    let mut r: Vec<String> = Vec::new();
    let mut i: usize = 0;
    while i < items.len()
        invariant
            i <= items.len(),
            iv == opt_string_views(items@),
            views(r@) == string_items(iv.subrange(0, i as int)),
        decreases items.len() - i,
    {
        assert(iv.subrange(0, i + 1).drop_last() =~= iv.subrange(0, i as int));
        let ghost old_r = r@;
        match &items[i] {
            Some(s) => {
                r.push(s.clone());
                assert(views(r@) =~= views(old_r).push(s@));
            },
            None => {},
        }
        i = i + 1;
    }
    assert(iv.subrange(0, iv.len() as int) =~= iv);
    r
}

/// `{"tags":<list>,"releases":[]}`: the cache document of a tag list.
pub open spec fn tag_fill_document(list_text: Seq<char>) -> Seq<char> {
    "{\"tags\":"@ + list_text + ",\"releases\":[]}"@
}

/// A list whose items are all present keeps all of them.
proof fn lemma_string_items_all_present(s: Seq<Seq<char>>)
    ensures
        string_items(s.map_values(|t: Seq<char>| Some(t))) == s,
    decreases s.len(),
{
    if s.len() > 0 {
        let m = s.map_values(|t: Seq<char>| Some(t));
        assert(m.drop_last() =~= s.drop_last().map_values(|t: Seq<char>| Some(t)));
        lemma_string_items_all_present(s.drop_last());
        assert(m.last() == Some(s.last()));
        assert(s.drop_last().push(s.last()) =~= s);
    } else {
        assert(s.map_values(|t: Seq<char>| Some(t)) =~= Seq::<Option<Seq<char>>>::empty());
    }
}

/// The cache row data that filling in a repository's tags writes: the
/// document `{"tags":[...],"releases":[]}` with the fetched tags, newest
/// first, and the tag count. No version is cached with it (a repository's
/// tag list does not say which package version applies). The tags written
/// are the tags a later read of the row finds.
pub fn tag_fill_row(tags: &Vec<String>) -> (r: (String, i32))
    requires
        tags.len() <= i32::MAX,
    ensures
        r.0@ == tag_fill_document(json_string_array(views(tags@))),
        r.1 == tags.len(),
        spec_decode_tags(r.0@) == views(tags@),
{
    let list = json_strings(tags);
    let mut doc = String::from_str("{\"tags\":");
    doc.append(list.as_str());
    doc.append(",\"releases\":[]}");
    proof {
        assert(string_views(tags@) =~= views(tags@));
        lemma_string_items_all_present(views(tags@));
    }
    (doc, tags.len() as i32)
}

// ---------------------------------------------------------------------------
// Version selection by regular expression
// ---------------------------------------------------------------------------

#[verifier::external_type_specification]
#[verifier::external_body]
pub struct ExRegex(regex::Regex);

/// Whether `regex::Regex::new` accepts the pattern.
pub uninterp spec fn regex_compiles(pattern: Seq<char>) -> bool;

/// Whether the compiled pattern matches somewhere in the text
/// (`regex::Regex::is_match`).
pub uninterp spec fn regex_is_match(pattern: Seq<char>, text: Seq<char>) -> bool;

/// A compiled regular expression together with its source.
pub struct Pattern {
    source: String,
    re: regex::Regex,
}

impl Pattern {
    /// The source the pattern was compiled from.
    pub closed spec fn source(&self) -> Seq<char> {
        self.source@
    }
}

/// Compiles `pattern` with `regex::Regex::new`. Claimed: it succeeds
/// exactly when `regex_compiles` holds of the pattern.
#[verifier::external_body]
fn compile_regex(pattern: &str) -> (r: Option<regex::Regex>)
    ensures
        r is Some <==> regex_compiles(pattern@),
{
    regex::Regex::new(pattern).ok()
}

/// Tests the text with `regex::Regex::is_match`. Claimed: the answer is
/// `regex_is_match` of the pattern's source and the text (the pattern was
/// compiled from that source by `compile_pattern`, the only constructor).
#[verifier::external_body]
fn regex_find(p: &Pattern, text: &str) -> (r: bool)
    ensures
        r == regex_is_match(p.source(), text@),
{
    p.re.is_match(text)
}

/// The pattern compiled from `source`, when `regex` accepts it.
pub fn compile_pattern(source: &str) -> (r: Option<Pattern>)
    ensures
        r is Some <==> regex_compiles(source@),
        r matches Some(p) ==> p.source() == source@,
{
    match compile_regex(source) {
        Some(re) => Some(Pattern { source: String::from_str(source), re }),
        None => None,
    }
}

/// The first tag the pattern matches, if any.
pub open spec fn first_matching(tags: Seq<Seq<char>>, pattern: Seq<char>) -> Option<Seq<char>>
    decreases tags.len(),
{
    if tags.len() == 0 {
        None
    } else if regex_is_match(pattern, tags[0]) {
        Some(tags[0])
    } else {
        first_matching(tags.drop_first(), pattern)
    }
}

/// The version a tag list gives (tags newest first): with a pattern that
/// compiles, the first tag it matches; otherwise, or when none matches, the
/// first tag; nothing for an empty list.
pub open spec fn spec_recompute_version(tags: Seq<Seq<char>>, regex: Option<Seq<char>>) -> Option<Seq<char>> {
    if tags.len() == 0 {
        None
    } else {
        match regex {
            Some(p) => if regex_compiles(p) {
                match first_matching(tags, p) {
                    Some(t) => Some(t),
                    None => Some(tags[0]),
                }
            } else {
                Some(tags[0])
            },
            None => Some(tags[0]),
        }
    }
}

/// The version a tag list gives under the package's extraction pattern.
pub fn recompute_version_from_tags(tags: &Vec<String>, regex: Option<&str>) -> (r: Option<String>)
    ensures
        match r {
            Some(v) => spec_recompute_version(views(tags@), match regex { Some(p) => Some(p@), None => None }) == Some(v@),
            None => spec_recompute_version(views(tags@), match regex { Some(p) => Some(p@), None => None }) is None,
        },
{
    if tags.len() == 0 {
        return None;
    }
    let ghost tv = views(tags@);
    assert(tv.subrange(0, tv.len() as int) =~= tv);
    match regex {
        Some(src) => {
            match compile_pattern(src) {
                Some(p) => {
                    let mut i: usize = 0;
                    while i < tags.len()
                        invariant
                            i <= tags.len(),
                            tv == views(tags@),
                            tags.len() > 0,
                            regex matches Some(x) && x@ == src@,
                            regex_compiles(src@),
                            p.source() == src@,
                            first_matching(tv, src@) == first_matching(tv.subrange(i as int, tv.len() as int), src@),
                        decreases tags.len() - i,
                    {
                        assert(tv.subrange(i as int, tv.len() as int).drop_first()
                            =~= tv.subrange(i + 1, tv.len() as int));
                        assert(tv.subrange(i as int, tv.len() as int)[0] == tags@[i as int]@);
                        if regex_find(&p, tags[i].as_str()) {
                            return Some(tags[i].clone());
                        }
                        i = i + 1;
                    }
                    assert(tv.subrange(0, tv.len() as int) =~= tv);
                    Some(tags[0].clone())
                },
                None => Some(tags[0].clone()),
            }
        },
        None => Some(tags[0].clone()),
    }
}

/// The version the cached tags of a document give.
pub fn recompute_version_from_cache(data_json: &str, regex: Option<&str>) -> (r: Option<String>)
    ensures
        match r {
            Some(v) => spec_recompute_version(spec_decode_tags(data_json@), match regex { Some(p) => Some(p@), None => None }) == Some(v@),
            None => spec_recompute_version(spec_decode_tags(data_json@), match regex { Some(p) => Some(p@), None => None }) is None,
        },
{
    let tags = decode_tags(data_json);
    recompute_version_from_tags(&tags, regex)
}

// ---------------------------------------------------------------------------
// Incremental check of an expired row
// ---------------------------------------------------------------------------

/// What `serde_json` reads from a JSON document for member `key`: `None`
/// when the text is no JSON; otherwise the member's string value, `None`
/// inside when the member is absent or no string.
pub uninterp spec fn json_string_member(doc: Seq<char>, key: Seq<char>) -> Option<Option<Seq<char>>>;

/// Parses `doc` with `serde_json::from_str` into a `serde_json::Value` and
/// reads member `key` with `get` and `as_str`. Claimed: the result is
/// `json_string_member` of the document and key.
#[verifier::external_body]
fn json_member_str(doc: &str, key: &str) -> (r: Option<Option<String>>)
    ensures
        match r {
            Some(Some(s)) => json_string_member(doc@, key@) == Some(Some(s@)),
            Some(None) => json_string_member(doc@, key@) == Some(None::<Seq<char>>),
            None => json_string_member(doc@, key@) is None,
        },
{
    let v: serde_json::Value = serde_json::from_str(doc).ok()?;
    Some(v.get(key).and_then(|x| x.as_str()).map(String::from))
}

/// The first step of the incremental check: decided at once, or the
/// repository's latest release must be asked for.
#[derive(Debug)]
pub enum CacheProbe {
    Decided(CacheCheckResult),
    AskLatestRelease,
}

/// What asking for the latest release (`/repos/{owner}/{repo}/releases/latest`)
/// brought.
#[derive(Debug)]
pub enum LatestReleaseReply {
    /// The request could not be made.
    RequestFailed,
    /// The server answered with a status other than success.
    NotSuccess,
    /// A success; the body text, `None` when it could not be read.
    Received { body: Option<String> },
}

/// The change the check makes to the cache table.
#[derive(Debug)]
pub enum CacheWrite {
    Nothing,
    /// Drop the repository's row.
    Delete,
    /// Set the row's sync time (freshness extended).
    ExtendTo { synced_at: i64 },
    /// Set the row's sync time and cached version.
    Refresh { synced_at: i64, cached_version: String },
}

/// The first step: no row is a miss, a fresh row a hit, an expired row
/// needs the latest release.
pub fn begin_cache_check(row: Option<&GithubTagCacheRow>, now: i64, ttl: i64) -> (r: CacheProbe)
    requires
        i64::MIN <= now - ttl <= i64::MAX,
    ensures
        match row {
            None => r == CacheProbe::Decided(CacheCheckResult::Miss),
            Some(row) => if spec_is_fresh(row.last_synced_at, now, ttl) {
                r == CacheProbe::Decided(CacheCheckResult::Hit)
            } else {
                r == CacheProbe::AskLatestRelease
            },
        },
{
    match row {
        None => CacheProbe::Decided(CacheCheckResult::Miss),
        Some(row) => if is_cache_fresh(row.last_synced_at, now, ttl) {
            CacheProbe::Decided(CacheCheckResult::Hit)
        } else {
            CacheProbe::AskLatestRelease
        },
    }
}

/// The result and table change of the check of an expired row, given the
/// reply about the latest release:
/// - request failed, unreadable or non-JSON body, non-success status, or
///   no string `tag_name`: `Deleted`, and the row is dropped (the cache of
///   an unreachable repository or one without a version is cleared);
/// - `tag_name` equal to the cached version (absent reads as empty):
///   `Extend`, freshness set to `now + ttl`;
/// - otherwise, when the row holds a document whose tags give a version:
///   `Recalculate` with it, sync time `now` and that version stored;
/// - otherwise `Recalculate` with `tag_name`, no change.
pub fn finish_cache_check(
    row: &GithubTagCacheRow,
    now: i64,
    ttl: i64,
    regex: Option<&str>,
    reply: LatestReleaseReply,
) -> (r: (CacheCheckResult, CacheWrite))
    requires
        i64::MIN <= now + ttl <= i64::MAX,
    ensures
        (r.0 is Deleted) ==> (r.1 is Delete),
        match reply {
            LatestReleaseReply::RequestFailed => r == (CacheCheckResult::Deleted, CacheWrite::Delete),
            LatestReleaseReply::NotSuccess => r == (CacheCheckResult::Deleted, CacheWrite::Delete),
            LatestReleaseReply::Received { body } => match body {
                None => r == (CacheCheckResult::Deleted, CacheWrite::Delete),
                Some(text) => match json_string_member(text@, "tag_name"@) {
                    None => r == (CacheCheckResult::Deleted, CacheWrite::Delete),
                    Some(None) => r == (CacheCheckResult::Deleted, CacheWrite::Delete),
                    Some(Some(gv)) => {
                        let cached = match row.cached_version { Some(c) => c@, None => Seq::<char>::empty() };
                        let recomputed = if row.data_json@.len() > 0 {
                            spec_recompute_version(
                                spec_decode_tags(row.data_json@),
                                match regex { Some(p) => Some(p@), None => None },
                            )
                        } else {
                            None
                        };
                        if cached == gv {
                            r == (CacheCheckResult::Extend, CacheWrite::ExtendTo { synced_at: (now + ttl) as i64 })
                        } else {
                            match recomputed {
                                Some(nv) => {
                                    &&& (r.0 matches CacheCheckResult::Recalculate { new_version } && new_version@ == nv)
                                    &&& (r.1 matches CacheWrite::Refresh { synced_at, cached_version }
                                        && synced_at == now && cached_version@ == nv)
                                },
                                None => {
                                    &&& (r.0 matches CacheCheckResult::Recalculate { new_version } && new_version@ == gv)
                                    &&& r.1 == CacheWrite::Nothing
                                },
                            }
                        }
                    },
                },
            },
        },
{
    match reply {
        LatestReleaseReply::RequestFailed => (CacheCheckResult::Deleted, CacheWrite::Delete),
        LatestReleaseReply::NotSuccess => (CacheCheckResult::Deleted, CacheWrite::Delete),
        LatestReleaseReply::Received { body } => match body {
            None => (CacheCheckResult::Deleted, CacheWrite::Delete),
            Some(text) => match json_member_str(text.as_str(), "tag_name") {
                None => (CacheCheckResult::Deleted, CacheWrite::Delete),
                Some(None) => (CacheCheckResult::Deleted, CacheWrite::Delete),
                Some(Some(gv)) => {
                    let cached = match &row.cached_version {
                        Some(c) => c.clone(),
                        None => String::new(),
                    };
                    if cached == gv {
                        return (CacheCheckResult::Extend, CacheWrite::ExtendTo { synced_at: now + ttl });
                    }
                    if row.data_json.unicode_len() > 0 {
                        match recompute_version_from_cache(row.data_json.as_str(), regex) {
                            Some(nv) => {
                                let stored = nv.clone();
                                return (
                                    CacheCheckResult::Recalculate { new_version: nv },
                                    CacheWrite::Refresh { synced_at: now, cached_version: stored },
                                );
                            },
                            None => {},
                        }
                    }
                    (CacheCheckResult::Recalculate { new_version: gv }, CacheWrite::Nothing)
                },
            },
        },
    }
}

/// The sync time a cache write gives the row, when it keeps one.
pub open spec fn written_sync_time(w: CacheWrite) -> Option<i64> {
    match w {
        CacheWrite::ExtendTo { synced_at } => Some(synced_at),
        CacheWrite::Refresh { synced_at, .. } => Some(synced_at),
        _ => None,
    }
}

/// The write extends the row to `now + ttl` or refreshes it at `now`.
pub open spec fn renews_row(w: CacheWrite, now: i64, ttl: i64) -> bool {
    match w {
        CacheWrite::ExtendTo { synced_at } => synced_at == now + ttl,
        CacheWrite::Refresh { synced_at, .. } => synced_at == now,
        _ => false,
    }
}

/// A row that an expired-row check at `now` extended (`ExtendTo` with
/// `now + ttl`) or refreshed (`Refresh` with `now`) is fresh again: every
/// check made from `now` up to one lifetime later finds it fresh, so
/// `begin_cache_check` decides `Hit` without asking the network.
pub proof fn lemma_written_row_is_fresh(w: CacheWrite, now: i64, ttl: i64, later: i64)
    requires
        0 <= ttl,
        now <= later <= now + ttl,
        renews_row(w, now, ttl),
    ensures
        written_sync_time(w) is Some,
        spec_is_fresh(written_sync_time(w).unwrap(), later, ttl),
{
}

proof fn lemma_first_matching_is_a_tag(tags: Seq<Seq<char>>, pattern: Seq<char>)
    ensures
        first_matching(tags, pattern) matches Some(t) ==> tags.contains(t),
    decreases tags.len(),
{
    if tags.len() > 0 && !regex_is_match(pattern, tags[0]) {
        lemma_first_matching_is_a_tag(tags.drop_first(), pattern);
        if let Some(t) = first_matching(tags, pattern) {
            let k = choose|k: int| 0 <= k < tags.drop_first().len() && tags.drop_first()[k] == t;
            assert(tags[k + 1] == t);
        }
    } else if tags.len() > 0 {
        assert(tags[0] == tags[0]);
    }
}

/// Scanning the tags in order stops at the first that matches.
proof fn lemma_first_matching_at(tags: Seq<Seq<char>>, pattern: Seq<char>, i: int)
    requires
        0 <= i < tags.len(),
        regex_is_match(pattern, tags[i]),
        forall|j: int| 0 <= j < i ==> !regex_is_match(pattern, #[trigger] tags[j]),
    ensures
        first_matching(tags, pattern) == Some(tags[i]),
    decreases i,
{
    if i > 0 {
        assert(!regex_is_match(pattern, tags[0]));
        let rest = tags.drop_first();
        assert forall|j: int| 0 <= j < i - 1 implies !regex_is_match(pattern, #[trigger] rest[j]) by {
            assert(rest[j] == tags[j + 1]);
        }
        assert(rest[i - 1] == tags[i]);
        lemma_first_matching_at(rest, pattern, i - 1);
    }
}

/// No tag matches, so the scan finds none.
proof fn lemma_first_matching_none(tags: Seq<Seq<char>>, pattern: Seq<char>)
    requires
        forall|j: int| 0 <= j < tags.len() ==> !regex_is_match(pattern, #[trigger] tags[j]),
    ensures
        first_matching(tags, pattern) is None,
    decreases tags.len(),
{
    if tags.len() > 0 {
        let rest = tags.drop_first();
        assert forall|j: int| 0 <= j < rest.len() implies !regex_is_match(pattern, #[trigger] rest[j]) by {
            assert(rest[j] == tags[j + 1]);
        }
        assert(!regex_is_match(pattern, tags[0]));
        lemma_first_matching_none(rest, pattern);
    }
}

/// The version taken from a tag list (newest first) is the newest tag the
/// package's pattern matches: when the pattern compiles and tag `i` is the
/// first that it matches, the version is tag `i` (tag 0 when tag 0
/// matches). When no tag matches, when the pattern does not compile, or
/// when there is no pattern, the version is the newest tag.
pub proof fn lemma_version_is_newest_matching_tag(tags: Seq<Seq<char>>, pattern: Option<Seq<char>>, i: int)
    ensures
        (pattern matches Some(p) && regex_compiles(p) && 0 <= i < tags.len() && regex_is_match(p, tags[i])
            && forall|j: int| 0 <= j < i ==> !regex_is_match(p, #[trigger] tags[j]))
            ==> spec_recompute_version(tags, pattern) == Some(tags[i]),
        (pattern matches Some(p) && tags.len() > 0 && forall|j: int| 0 <= j < tags.len()
            ==> !regex_is_match(p, #[trigger] tags[j]))
            ==> spec_recompute_version(tags, pattern) == Some(tags[0]),
        (tags.len() > 0 && (pattern is None || (pattern matches Some(p) && !regex_compiles(p))))
            ==> spec_recompute_version(tags, pattern) == Some(tags[0]),
{
    if let Some(p) = pattern {
        if regex_compiles(p) && 0 <= i < tags.len() && regex_is_match(p, tags[i])
            && forall|j: int| 0 <= j < i ==> !regex_is_match(p, #[trigger] tags[j]) {
            lemma_first_matching_at(tags, p, i);
        }
        if tags.len() > 0 && forall|j: int| 0 <= j < tags.len() ==> !regex_is_match(p, #[trigger] tags[j]) {
            lemma_first_matching_none(tags, p);
        }
    }
}

/// The version recomputed from cached tags is always one of the tags, and
/// there is one exactly when the tag list is not empty.
pub proof fn lemma_recomputed_version_is_a_tag(tags: Seq<Seq<char>>, regex: Option<Seq<char>>)
    ensures
        spec_recompute_version(tags, regex) is Some <==> tags.len() > 0,
        spec_recompute_version(tags, regex) matches Some(v) ==> tags.contains(v),
{
    if tags.len() > 0 {
        assert(tags.contains(tags[0]));
        if let Some(p) = regex {
            lemma_first_matching_is_a_tag(tags, p);
        }
    }
}

} // verus!
