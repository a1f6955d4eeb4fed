//! What an upstream version check records: whether a package is outdated
//! compared with its AUR version, which writes the results of a check lead
//! to, the answer listed to the user, and the reachability status of an
//! upstream URL.
//!
//! Version strings are compared by the application's version comparison;
//! its answers are handed in as `VersionComparison` values.

use vstd::prelude::*;
use std::collections::HashMap;
use crate::batch::{string_views, PackageTask, UpstreamCheckResult};
use crate::error::{AppError, AppErrorKind};
use crate::models::{UpstreamInfo, UpstreamUrlStatus, VersionComparison};
use crate::text::{chars_of, concat, contains, vec_contains};

verus! {

broadcast use vstd::std_specs::hash::group_hash_axioms;

/// `version` without one leading `v`, as stored.
pub open spec fn spec_strip_v(version: Seq<char>) -> Seq<char> {
    if version.len() > 0 && version[0] == 'v' {
        version.drop_first()
    } else {
        version
    }
}

/// `version` without one leading `v`.
pub fn strip_v_prefix(version: &str) -> (r: String)
    ensures
        r@ == spec_strip_v(version@),
{
    let n = version.unicode_len();
    if n > 0 && version.get_char(0) == 'v' {
        String::from_str(version.substring_char(1, n))
    } else {
        String::from_str(version)
    }
}

/// A package is outdated when it has no AUR version to compare with, or
/// when its AUR version orders before the upstream one.
pub open spec fn spec_is_outdated(aur_vs_upstream: Option<VersionComparison>) -> bool {
    match aur_vs_upstream {
        Some(c) => c == VersionComparison::LessThan,
        None => true,
    }
}

/// Whether a package is outdated, given how its AUR version compares with
/// the upstream one (`None` when there is no AUR version).
pub fn is_outdated(aur_vs_upstream: Option<VersionComparison>) -> (r: bool)
    ensures
        r == spec_is_outdated(aur_vs_upstream),
{
    match aur_vs_upstream {
        Some(VersionComparison::LessThan) => true,
        Some(_) => false,
        None => true,
    }
}

/// A copy of a list of ids.
pub fn copy_ids(v: &Vec<i64>) -> (r: Vec<i64>)
    ensures
        r@ == v@,
{
    let mut r: Vec<i64> = Vec::new();
    let mut i: usize = 0;
    while i < v.len()
        invariant
            i <= v.len(),
            r@ == v@.subrange(0, i as int),
        decreases v.len() - i,
    {
        r.push(v[i]);
        i = i + 1;
    }
    assert(r@ =~= v@);
    r
}

/// The writes that record a successful check of one package.
#[derive(Debug)]
pub struct UpstreamRecord {
    pub software_id: i64,
    pub is_outdated: bool,
    /// The package's languages are set to these when present.
    pub languages: Option<Vec<i64>>,
    /// The upstream row written for the package.
    pub info: UpstreamInfo,
}

/// The record of a successful check: the outdated flag, the detected
/// languages when they are to fill an empty list (and there are some), and
/// an upstream row with the stored version, license, check time `now`, no
/// URL status and no error.
pub open spec fn spec_record_ok(
    r: UpstreamRecord,
    software_id: i64,
    cleaned_version: Seq<char>,
    is_outdated: bool,
    license: Option<Seq<char>>,
    language_ids: Seq<i64>,
    fill_languages: bool,
    now: i64,
) -> bool {
    &&& r.software_id == software_id
    &&& r.is_outdated == is_outdated
    &&& (if fill_languages && language_ids.len() > 0 {
        r.languages matches Some(l) && l@ == language_ids
    } else {
        r.languages is None
    })
    &&& r.info.software_id == software_id
    &&& r.info.upstream_version matches Some(v) && v@ == cleaned_version
    &&& (match r.info.upstream_license_id { Some(l) => license == Some(l@), None => license is None })
    &&& r.info.last_checked == Some(now)
    &&& r.info.upstream_url_status is None
    &&& r.info.last_check_error is None
}

/// The writes recording a successful check of one package.
pub fn upstream_record(
    software_id: i64,
    cleaned_version: String,
    is_outdated: bool,
    license: Option<String>,
    language_ids: Vec<i64>,
    fill_languages: bool,
    now: i64,
) -> (r: UpstreamRecord)
    ensures
        spec_record_ok(
            r,
            software_id,
            cleaned_version@,
            is_outdated,
            match license { Some(l) => Some(l@), None => None },
            language_ids@,
            fill_languages,
            now,
        ),
{
    let languages = if fill_languages && language_ids.len() > 0 {
        Some(language_ids)
    } else {
        None
    };
    UpstreamRecord {
        software_id,
        is_outdated,
        languages,
        info: UpstreamInfo {
            software_id,
            upstream_version: Some(cleaned_version),
            upstream_license_id: license,
            last_checked: Some(now),
            upstream_url_status: None,
            last_check_error: None,
        },
    }
}

/// The writes after a single package's check found `version`: stored
/// without a leading `v`, outdated as `aur_vs_upstream` says (`None` when
/// the package has no AUR row), and the detected languages filling the
/// package's list only when that list (`existing_languages`, `None` when
/// the package is unknown) is empty.
pub fn compare_and_update(
    software_id: i64,
    version: &str,
    aur_vs_upstream: Option<VersionComparison>,
    license_spdx_id: Option<&str>,
    language_ids: Vec<i64>,
    existing_languages: Option<&Vec<i64>>,
    now: i64,
) -> (r: UpstreamRecord)
    ensures
        spec_record_ok(
            r,
            software_id,
            spec_strip_v(version@),
            spec_is_outdated(aur_vs_upstream),
            match license_spdx_id { Some(l) => Some(l@), None => None },
            language_ids@,
            match existing_languages { Some(l) => l@.len() == 0, None => false },
            now,
        ),
{
    let cleaned = strip_v_prefix(version);
    let outdated = is_outdated(aur_vs_upstream);
    let license = match license_spdx_id {
        Some(l) => Some(String::from_str(l)),
        None => None,
    };
    let fill = match existing_languages {
        Some(l) => l.len() == 0,
        None => false,
    };
    upstream_record(software_id, cleaned, outdated, license, language_ids, fill, now)
}

/// The package has a non-empty AUR version in the map.
pub open spec fn has_aur_version(aur_versions: Map<i64, String>, software_id: i64) -> bool {
    aur_versions.contains_key(software_id) && aur_versions[software_id]@.len() > 0
}

/// The tasks of a check of selected packages: those whose package has a
/// non-empty AUR version, in the order given (a package without one has
/// nothing to be compared with and is not checked).
pub fn tasks_with_aur_version(tasks: Vec<PackageTask>, aur_versions: &HashMap<i64, String>) -> (r: Vec<PackageTask>)
    ensures
        r@ == tasks@.filter(|t: PackageTask| has_aur_version(aur_versions@, t.software_id)),
{
    let mut r: Vec<PackageTask> = Vec::new();
    let mut i: usize = 0;
    while i < tasks.len()
        invariant
            i <= tasks.len(),
            r@ == tasks@.subrange(0, i as int).filter(
                |t: PackageTask| has_aur_version(aur_versions@, t.software_id),
            ),
        decreases tasks.len() - i,
    {
        let ghost prev = tasks@.subrange(0, i as int);
        let ghost t = tasks@[i as int];
        assert(tasks@.subrange(0, i + 1) =~= prev.push(t));
        proof {
            prev.lemma_filter_push(t, |t: PackageTask| has_aur_version(aur_versions@, t.software_id));
        }
        let present = match aur_versions.get(&tasks[i].software_id) {
            Some(v) => v.unicode_len() > 0,
            None => false,
        };
        if present {
            r.push(tasks[i].copy());
        }
        i = i + 1;
    }
    assert(tasks@.subrange(0, tasks@.len() as int) =~= tasks@);
    r
}

/// For each checked package, the pair to compare: its AUR version (when
/// the AUR map has a non-empty one) and its upstream version. Packages
/// without an upstream version need no comparison (`None`), nor do those
/// without an AUR version (also `None`; they count as outdated).
pub fn comparison_pairs(checked: &Vec<UpstreamCheckResult>, aur_versions: &HashMap<i64, String>) -> (r: Vec<Option<(String, String)>>)
    ensures
        r.len() == checked.len(),
        forall|k: int| 0 <= k < r.len() ==> {
            let c = #[trigger] checked@[k];
            match r@[k] {
                Some(p) => c.upstream_version@.len() > 0 && aur_versions@.contains_key(c.software_id)
                    && aur_versions@[c.software_id]@.len() > 0
                    && p.0@ == aur_versions@[c.software_id]@ && p.1@ == c.upstream_version@,
                None => c.upstream_version@.len() == 0 || !aur_versions@.contains_key(c.software_id)
                    || aur_versions@[c.software_id]@.len() == 0,
            }
        },
{
    let mut r: Vec<Option<(String, String)>> = Vec::new();
    let mut i: usize = 0;
    while i < checked.len()
        invariant
            i <= checked.len(),
            r.len() == i,
            forall|k: int| 0 <= k < i ==> {
                let c = #[trigger] checked@[k];
                match r@[k] {
                    Some(p) => c.upstream_version@.len() > 0 && aur_versions@.contains_key(c.software_id)
                        && aur_versions@[c.software_id]@.len() > 0
                        && p.0@ == aur_versions@[c.software_id]@ && p.1@ == c.upstream_version@,
                    None => c.upstream_version@.len() == 0 || !aur_versions@.contains_key(c.software_id)
                        || aur_versions@[c.software_id]@.len() == 0,
                }
            },
        decreases checked.len() - i,
    {
        let c = &checked[i];
        let mut pair: Option<(String, String)> = None;
        if c.upstream_version.unicode_len() > 0 {
            match aur_versions.get(&c.software_id) {
                Some(a) => {
                    if a.unicode_len() > 0 {
                        pair = Some((a.clone(), c.upstream_version.clone()));
                    }
                },
                None => {},
            }
        }
        r.push(pair);
        i = i + 1;
    }
    r
}

/// The checked packages with their outdated flag decided: a package with a
/// version is outdated as `spec_is_outdated` of `comparisons[k]` says (the
/// comparison of the pair `comparison_pairs` gave, `None` when it gave
/// none); a package without a version keeps its row as it is.
pub fn assess_outdated(checked: Vec<UpstreamCheckResult>, comparisons: &Vec<Option<VersionComparison>>) -> (r: Vec<UpstreamCheckResult>)
    requires
        comparisons.len() == checked.len(),
    ensures
        r.len() == checked.len(),
        forall|k: int| 0 <= k < r.len() ==> {
            let c = #[trigger] checked@[k];
            let o = r@[k];
            &&& o.pkgname == c.pkgname
            &&& o.software_id == c.software_id
            &&& o.upstream_version == c.upstream_version
            &&& o.license_spdx_id == c.license_spdx_id
            &&& o.language_names == c.language_names
            &&& o.is_outdated == if c.upstream_version@.len() == 0 {
                c.is_outdated
            } else {
                spec_is_outdated(comparisons@[k])
            }
        },
{
    let mut checked = checked;
    let ghost orig = checked@;
    let mut r: Vec<UpstreamCheckResult> = Vec::new();
    // results are taken from the back and put in place at the end
    let mut rev: Vec<UpstreamCheckResult> = Vec::new();
    while checked.len() > 0
        invariant
            comparisons.len() == orig.len(),
            checked.len() + rev.len() == orig.len(),
            checked@ == orig.subrange(0, checked.len() as int),
            forall|j: int| 0 <= j < rev.len() ==> {
                let k = orig.len() - 1 - j;
                let c = orig[k];
                let o = #[trigger] rev@[j];
                &&& o.pkgname == c.pkgname
                &&& o.software_id == c.software_id
                &&& o.upstream_version == c.upstream_version
                &&& o.license_spdx_id == c.license_spdx_id
                &&& o.language_names == c.language_names
                &&& o.is_outdated == if c.upstream_version@.len() == 0 {
                    c.is_outdated
                } else {
                    spec_is_outdated(comparisons@[k])
                }
            },
        decreases checked.len(),
    {
        let k = checked.len() - 1;
        let ghost old_checked = checked@;
        let ghost old_rev = rev@;
        let c = checked.pop().unwrap();
        assert(c == orig[k as int]);
        assert(checked@ =~= orig.subrange(0, checked.len() as int));
        let outdated = if c.upstream_version.unicode_len() == 0 {
            c.is_outdated
        } else {
            is_outdated(comparisons[k])
        };
        rev.push(UpstreamCheckResult {
            pkgname: c.pkgname,
            software_id: c.software_id,
            upstream_version: c.upstream_version,
            is_outdated: outdated,
            license_spdx_id: c.license_spdx_id,
            language_names: c.language_names,
        });
        assert(rev@ =~= old_rev.push(rev@.last()));
    }
    while rev.len() > 0
        invariant
            comparisons.len() == orig.len(),
            r.len() + rev.len() == orig.len(),
            forall|j: int| 0 <= j < rev.len() ==> {
                let k = orig.len() - 1 - j;
                let c = orig[k];
                let o = #[trigger] rev@[j];
                &&& o.pkgname == c.pkgname
                &&& o.software_id == c.software_id
                &&& o.upstream_version == c.upstream_version
                &&& o.license_spdx_id == c.license_spdx_id
                &&& o.language_names == c.language_names
                &&& o.is_outdated == if c.upstream_version@.len() == 0 {
                    c.is_outdated
                } else {
                    spec_is_outdated(comparisons@[k])
                }
            },
            forall|k: int| 0 <= k < r.len() ==> {
                let c = orig[k];
                let o = #[trigger] r@[k];
                &&& o.pkgname == c.pkgname
                &&& o.software_id == c.software_id
                &&& o.upstream_version == c.upstream_version
                &&& o.license_spdx_id == c.license_spdx_id
                &&& o.language_names == c.language_names
                &&& o.is_outdated == if c.upstream_version@.len() == 0 {
                    c.is_outdated
                } else {
                    spec_is_outdated(comparisons@[k])
                }
            },
        decreases rev.len(),
    {
        let ghost old_rev = rev@;
        let ghost old_r = r@;
        let o = rev.pop().unwrap();
        assert(o == old_rev[old_rev.len() - 1]);
        assert(rev@ =~= old_rev.drop_last());
        r.push(o);
        assert(r@ =~= old_r.push(o));
    }
    r
}

/// What the check of one package writes.
#[derive(Debug)]
pub enum UpstreamWriteStep {
    /// A version was found: record it.
    Record(UpstreamRecord),
    /// No version was found: the package is marked current, and the check
    /// error is recorded when one is given.
    NoVersion { software_id: i64, check_error: Option<String> },
}

/// The languages found for a package, as stored under its id (none when
/// there is no entry).
pub open spec fn ids_for(m: Map<i64, Vec<i64>>, id: i64) -> Seq<i64> {
    if m.contains_key(id) { m[id]@ } else { Seq::empty() }
}

/// The write of one result of a check of selected packages.
pub open spec fn spec_selected_step(
    step: UpstreamWriteStep,
    c: UpstreamCheckResult,
    language_ids: Map<i64, Vec<i64>>,
    existing: Map<i64, Vec<i64>>,
    now: i64,
) -> bool {
    if c.upstream_version@.len() > 0 {
        step matches UpstreamWriteStep::Record(rec) && spec_record_ok(
            rec,
            c.software_id,
            spec_strip_v(c.upstream_version@),
            c.is_outdated,
            match c.license_spdx_id { Some(l) => Some(l@), None => None },
            ids_for(language_ids, c.software_id),
            existing.contains_key(c.software_id) && existing[c.software_id]@.len() == 0,
            now,
        )
    } else {
        step matches UpstreamWriteStep::NoVersion { software_id, check_error }
            && software_id == c.software_id && check_error is None
    }
}

/// The languages stored under `id`, or none.
fn ids_or_empty(m: &HashMap<i64, Vec<i64>>, id: i64) -> (r: Vec<i64>)
    ensures
        r@ == ids_for(m@, id),
{
    match m.get(&id) {
        Some(v) => copy_ids(v),
        None => Vec::new(),
    }
}

/// The writes after checking selected packages: a package with a version
/// is recorded (its detected languages, `language_ids`, filling its list
/// only when the list it had, `existing`, is empty); a package without one
/// is marked current.
pub fn plan_selected_writes(
    results: &Vec<UpstreamCheckResult>,
    language_ids: &HashMap<i64, Vec<i64>>,
    existing: &HashMap<i64, Vec<i64>>,
    now: i64,
) -> (r: Vec<UpstreamWriteStep>)
    ensures
        r.len() == results.len(),
        forall|k: int| 0 <= k < r.len() ==> spec_selected_step(
            #[trigger] r@[k], results@[k], language_ids@, existing@, now),
{
    let mut r: Vec<UpstreamWriteStep> = Vec::new();
    let mut i: usize = 0;
    while i < results.len()
        invariant
            i <= results.len(),
            r.len() == i,
            forall|k: int| 0 <= k < i ==> spec_selected_step(
                #[trigger] r@[k], results@[k], language_ids@, existing@, now),
        decreases results.len() - i,
    {
        let c = &results[i];
        let step = if c.upstream_version.unicode_len() > 0 {
            let cleaned = strip_v_prefix(c.upstream_version.as_str());
            let ids = ids_or_empty(language_ids, c.software_id);
            let fill = match existing.get(&c.software_id) {
                Some(l) => l.len() == 0,
                None => false,
            };
            UpstreamWriteStep::Record(upstream_record(
                c.software_id,
                cleaned,
                c.is_outdated,
                crate::batch::copy_opt_string(&c.license_spdx_id),
                ids,
                fill,
                now,
            ))
        } else {
            UpstreamWriteStep::NoVersion { software_id: c.software_id, check_error: None }
        };
        r.push(step);
        i = i + 1;
    }
    r
}

/// The error recorded for a package whose full check found no version.
pub open spec fn no_version_error() -> Seq<char> {
    "检查未返回上游版本"@
}

/// The write of one result of a check of all packages.
pub open spec fn spec_full_step(
    step: UpstreamWriteStep,
    c: UpstreamCheckResult,
    language_ids: Seq<i64>,
    existing: Map<i64, Vec<i64>>,
    now: i64,
) -> bool {
    if c.upstream_version@.len() > 0 {
        step matches UpstreamWriteStep::Record(rec) && spec_record_ok(
            rec,
            c.software_id,
            spec_strip_v(c.upstream_version@),
            c.is_outdated,
            match c.license_spdx_id { Some(l) => Some(l@), None => None },
            language_ids,
            existing.contains_key(c.software_id) && existing[c.software_id]@.len() == 0,
            now,
        )
    } else {
        step matches UpstreamWriteStep::NoVersion { software_id, check_error }
            && software_id == c.software_id && (check_error matches Some(e) && e@ == no_version_error())
    }
}

/// The writes after checking all packages (`language_ids[k]` are the ids of
/// the languages detected for `results[k]`): a package with a version is
/// recorded as in a check of selected packages; a package without one is
/// marked current with the error `检查未返回上游版本`.
pub fn plan_full_writes(
    results: &Vec<UpstreamCheckResult>,
    language_ids: &Vec<Vec<i64>>,
    existing: &HashMap<i64, Vec<i64>>,
    now: i64,
) -> (r: Vec<UpstreamWriteStep>)
    requires
        language_ids.len() == results.len(),
    ensures
        r.len() == results.len(),
        forall|k: int| 0 <= k < r.len() ==> spec_full_step(
            #[trigger] r@[k], results@[k], language_ids@[k]@, existing@, now),
{
    let mut r: Vec<UpstreamWriteStep> = Vec::new();
    let mut i: usize = 0;
    while i < results.len()
        invariant
            i <= results.len(),
            language_ids.len() == results.len(),
            r.len() == i,
            forall|k: int| 0 <= k < i ==> spec_full_step(
                #[trigger] r@[k], results@[k], language_ids@[k]@, existing@, now),
        decreases results.len() - i,
    {
        let c = &results[i];
        let step = if c.upstream_version.unicode_len() > 0 {
            let cleaned = strip_v_prefix(c.upstream_version.as_str());
            let ids = copy_ids(&language_ids[i]);
            let fill = match existing.get(&c.software_id) {
                Some(l) => l.len() == 0,
                None => false,
            };
            UpstreamWriteStep::Record(upstream_record(
                c.software_id,
                cleaned,
                c.is_outdated,
                crate::batch::copy_opt_string(&c.license_spdx_id),
                ids,
                fill,
                now,
            ))
        } else {
            UpstreamWriteStep::NoVersion {
                software_id: c.software_id,
                check_error: Some(String::from_str("检查未返回上游版本")),
            }
        };
        r.push(step);
        i = i + 1;
    }
    r
}

/// The answer of a check as listed to the user: `(name, upstream version)`
/// for each package with a version, in order, then `(name, "manual")` for
/// each manual-checker package.
pub open spec fn spec_reported(
    results: Seq<UpstreamCheckResult>,
    manual: Seq<Seq<char>>,
) -> Seq<(Seq<char>, Seq<char>)> {
    results.filter(|c: UpstreamCheckResult| c.upstream_version@.len() > 0)
        .map_values(|c: UpstreamCheckResult| (c.pkgname@, c.upstream_version@))
        + manual.map_values(|m: Seq<char>| (m, "manual"@))
}

/// The views of a list of string pairs.
pub open spec fn pair_views(v: Seq<(String, String)>) -> Seq<(Seq<char>, Seq<char>)> {
    v.map_values(|p: (String, String)| (p.0@, p.1@))
}

/// The answer of a check as listed to the user.
pub fn reported_versions(results: &Vec<UpstreamCheckResult>, manual: &Vec<String>) -> (r: Vec<(String, String)>)
    ensures
        pair_views(r@) == spec_reported(results@, string_views(manual@)),
{
    let mut r: Vec<(String, String)> = Vec::new();
    let mut i: usize = 0;
    while i < results.len()
        invariant
            i <= results.len(),
            pair_views(r@) == results@.subrange(0, i as int)
                .filter(|c: UpstreamCheckResult| c.upstream_version@.len() > 0)
                .map_values(|c: UpstreamCheckResult| (c.pkgname@, c.upstream_version@)),
        decreases results.len() - i,
    {
        let ghost prev = results@.subrange(0, i as int);
        let ghost old_r = r@;
        proof {
            assert(results@.subrange(0, i + 1) =~= prev.push(results@[i as int]));
            prev.lemma_filter_push(results@[i as int], |c: UpstreamCheckResult| c.upstream_version@.len() > 0);
        }
        if results[i].upstream_version.unicode_len() > 0 {
            r.push((results[i].pkgname.clone(), results[i].upstream_version.clone()));
            assert(pair_views(r@) =~= pair_views(old_r).push((results@[i as int].pkgname@, results@[i as int].upstream_version@)));
        }
        i = i + 1;
    }
    assert(results@.subrange(0, results@.len() as int) =~= results@);
    let ghost head = pair_views(r@);
    let mut j: usize = 0;
    while j < manual.len()
        invariant
            j <= manual.len(),
            pair_views(r@) == head + string_views(manual@).subrange(0, j as int).map_values(|m: Seq<char>| (m, "manual"@)),
        decreases manual.len() - j,
    {
        let ghost old_r = r@;
        r.push((manual[j].clone(), String::from_str("manual")));
        assert(pair_views(r@) =~= pair_views(old_r).push((manual@[j as int]@, "manual"@)));
        assert(string_views(manual@).subrange(0, j + 1) =~= string_views(manual@).subrange(0, j as int).push(manual@[j as int]@));
        assert(head + string_views(manual@).subrange(0, j + 1).map_values(|m: Seq<char>| (m, "manual"@))
            =~= (head + string_views(manual@).subrange(0, j as int).map_values(|m: Seq<char>| (m, "manual"@))).push((manual@[j as int]@, "manual"@)));
        j = j + 1;
    }
    assert(string_views(manual@).subrange(0, manual@.len() as int) =~= string_views(manual@));
    r
}

// ---------------------------------------------------------------------------
// Single-package check
// ---------------------------------------------------------------------------

/// A single package is only checked when it is known: the id of the row
/// looked up by its name, or a `PackageNotFound` error naming it when there
/// is no such row.
pub fn require_known_package(pkgname: &str, software_id: Option<i64>) -> (r: Result<i64, AppError>)
    ensures
        match software_id {
            Some(id) => r == Ok::<i64, AppError>(id),
            None => r matches Err(e) && e@ == (AppErrorKind::PackageNotFound, pkgname@),
        },
{
    match software_id {
        Some(id) => Ok(id),
        None => Err(AppError::PackageNotFound(String::from_str(pkgname))),
    }
}

/// A single package is only checked once its AUR version is known: with
/// no non-empty AUR version the check is refused with a `VersionCheckError`.
pub fn require_aur_version(pkgname: &str, aur_version: Option<&str>) -> (r: Result<(), AppError>)
    ensures
        match aur_version {
            Some(v) if v@.len() > 0 => r is Ok,
            _ => r matches Err(e) && e@ == (AppErrorKind::VersionCheckError, "请先获取 "@ + pkgname@ + " 的 AUR 信息"@),
        },
{
    match aur_version {
        Some(v) => {
            if v.unicode_len() > 0 {
                return Ok(());
            }
        },
        None => {},
    }
    let mut m = concat("请先获取 ", pkgname);
    m.append(" 的 AUR 信息");
    Err(AppError::VersionCheckError(m))
}

/// The version a single check found, or a `VersionCheckError` saying it
/// could not be determined.
pub fn require_upstream_version(pkgname: &str, version: Option<String>) -> (r: Result<String, AppError>)
    ensures
        match version {
            Some(v) => r matches Ok(w) && w@ == v@,
            None => r matches Err(e) && e@ == (AppErrorKind::VersionCheckError, "无法确定 "@ + pkgname@ + " 的上游版本"@),
        },
{
    match version {
        Some(v) => Ok(v),
        None => {
            let mut m = concat("无法确定 ", pkgname);
            m.append(" 的上游版本");
            Err(AppError::VersionCheckError(m))
        },
    }
}

/// The version a single-package check reports from the answer of a check
/// of that package alone: the first answer's version, unless it is empty or
/// `manual`, which is a `VersionCheckError`.
pub fn single_check_version(pkgname: &str, answer: &Vec<(String, String)>) -> (r: Result<String, AppError>)
    ensures
        (answer@.len() > 0 && answer@[0].1@.len() > 0 && answer@[0].1@ != "manual"@)
            ==> (r matches Ok(v) && v@ == answer@[0].1@),
        !(answer@.len() > 0 && answer@[0].1@.len() > 0 && answer@[0].1@ != "manual"@)
            ==> (r matches Err(e) && e@ == (AppErrorKind::VersionCheckError, "无法确定 "@ + pkgname@ + " 的上游版本"@)),
{
    if answer.len() > 0 {
        let v = &answer[0].1;
        if v.unicode_len() > 0 && *v != String::from_str("manual") {
            return Ok(v.clone());
        }
    }
    let mut m = concat("无法确定 ", pkgname);
    m.append(" 的上游版本");
    Err(AppError::VersionCheckError(m))
}

// ---------------------------------------------------------------------------
// URL validation
// ---------------------------------------------------------------------------

/// The status an HTTP answer code gives: 200 reachable, 404 not found,
/// 401 and 403 forbidden, 3xx redirected, 5xx and above server error,
/// anything else another error.
pub open spec fn spec_status_from_code(code: u16) -> UpstreamUrlStatus {
    if code == 200 {
        UpstreamUrlStatus::Reachable
    } else if code == 404 {
        UpstreamUrlStatus::NotFound
    } else if code == 403 || code == 401 {
        UpstreamUrlStatus::Forbidden
    } else if 300 <= code < 400 {
        UpstreamUrlStatus::Redirected
    } else if code >= 500 {
        UpstreamUrlStatus::ServerError
    } else {
        UpstreamUrlStatus::OtherError
    }
}

/// How answer codes are classed: 200 is reachable, 404 not found, 401 and
/// 403 forbidden, every 3xx a redirect, every code of 500 and above a server
/// error, and every other code (1xx, other 2xx, other 4xx) another error.
pub proof fn lemma_status_classes(code: u16)
    ensures
        code == 200 ==> spec_status_from_code(code) == UpstreamUrlStatus::Reachable,
        code == 404 ==> spec_status_from_code(code) == UpstreamUrlStatus::NotFound,
        (code == 401 || code == 403) ==> spec_status_from_code(code) == UpstreamUrlStatus::Forbidden,
        300 <= code < 400 ==> spec_status_from_code(code) == UpstreamUrlStatus::Redirected,
        code >= 500 ==> spec_status_from_code(code) == UpstreamUrlStatus::ServerError,
        (code < 300 && code != 200) || (400 <= code < 500 && code != 401 && code != 403 && code != 404)
            ==> spec_status_from_code(code) == UpstreamUrlStatus::OtherError,
{
}

/// The status of a URL that answered with `code`.
pub fn status_from_code(code: u16) -> (r: UpstreamUrlStatus)
    ensures
        r == spec_status_from_code(code),
        code >= 500 ==> r == UpstreamUrlStatus::ServerError,
        300 <= code < 400 ==> r == UpstreamUrlStatus::Redirected,
{
    if code == 200 {
        UpstreamUrlStatus::Reachable
    } else if code == 404 {
        UpstreamUrlStatus::NotFound
    } else if code == 403 || code == 401 {
        UpstreamUrlStatus::Forbidden
    } else if code >= 300 && code < 400 {
        UpstreamUrlStatus::Redirected
    } else if code >= 500 {
        UpstreamUrlStatus::ServerError
    } else {
        UpstreamUrlStatus::OtherError
    }
}

/// The status a failed request gives, by its error text: `timeout` means a
/// time-out; `connection`, `connect` or `dns` a connection error; anything
/// else another error.
pub open spec fn spec_status_from_error(text: Seq<char>) -> UpstreamUrlStatus {
    if contains(text, "timeout"@) {
        UpstreamUrlStatus::Timeout
    } else if contains(text, "connection"@) || contains(text, "connect"@) || contains(text, "dns"@) {
        UpstreamUrlStatus::ConnectionError
    } else {
        UpstreamUrlStatus::OtherError
    }
}

/// The status of a URL whose request failed with the error text `text`.
pub fn status_from_error_text(text: &str) -> (r: UpstreamUrlStatus)
    ensures
        r == spec_status_from_error(text@),
{
    let v = chars_of(text);
    if vec_contains(&v, &chars_of("timeout")) {
        UpstreamUrlStatus::Timeout
    } else if vec_contains(&v, &chars_of("connection")) || vec_contains(&v, &chars_of("connect"))
        || vec_contains(&v, &chars_of("dns")) {
        UpstreamUrlStatus::ConnectionError
    } else {
        UpstreamUrlStatus::OtherError
    }
}

/// The outcome of validating one package's upstream URL.
#[derive(Debug)]
pub struct ValidateResult {
    pub software_id: i64,
    pub pkgname: String,
    pub upstream_url: Option<String>,
    pub status: UpstreamUrlStatus,
}

/// A package whose upstream URL may be validated.
#[derive(Debug)]
pub struct UrlEntry {
    pub software_id: i64,
    pub pkgname: String,
    pub upstream_url: Option<String>,
}

impl UrlEntry {
    /// A copy of the entry.
    pub fn copy(&self) -> (r: UrlEntry)
        ensures
            r == *self,
    {
        UrlEntry {
            software_id: self.software_id,
            pkgname: self.pkgname.clone(),
            upstream_url: crate::batch::copy_opt_string(&self.upstream_url),
        }
    }
}

/// An entry is validated when it is among the named packages, or, when no
/// names are given (no list, or an empty one), when it has an upstream URL.
pub open spec fn spec_selected_for_validation(e: UrlEntry, names: Option<Seq<Seq<char>>>) -> bool {
    match names {
        Some(ns) => ns.contains(e.pkgname@),
        None => e.upstream_url is Some,
    }
}

/// The views of an optional list of names; an empty list names nothing
/// and counts as no list.
pub open spec fn names_of(list: Option<Vec<String>>) -> Option<Seq<Seq<char>>> {
    match list {
        Some(l) => if l@.len() > 0 { Some(string_views(l@)) } else { None },
        None => None,
    }
}

/// The entries to validate, in order.
pub fn entries_to_validate(entries: &Vec<UrlEntry>, pkgname_list: &Option<Vec<String>>) -> (r: Vec<UrlEntry>)
    ensures
        r@ == entries@.filter(|e: UrlEntry| spec_selected_for_validation(e, names_of(*pkgname_list))),
{
    let ghost names = names_of(*pkgname_list);
    let mut r: Vec<UrlEntry> = Vec::new();
    let mut i: usize = 0;
    while i < entries.len()
        invariant
            i <= entries.len(),
            names == names_of(*pkgname_list),
            r@ == entries@.subrange(0, i as int).filter(|e: UrlEntry| spec_selected_for_validation(e, names)),
        decreases entries.len() - i,
    {
        let ghost prev = entries@.subrange(0, i as int);
        proof {
            assert(entries@.subrange(0, i + 1) =~= prev.push(entries@[i as int]));
            prev.lemma_filter_push(entries@[i as int], |e: UrlEntry| spec_selected_for_validation(e, names));
        }
        let e = &entries[i];
        let keep = match pkgname_list {
            Some(l) if l.len() > 0 => {
                let found = crate::batch::contains_name(l, &e.pkgname);
                proof {
                    if found {
                        let k = choose|k: int| 0 <= k < l@.len() && #[trigger] l@[k]@ == e.pkgname@;
                        assert(string_views(l@)[k] == e.pkgname@);
                    } else {
                        if string_views(l@).contains(e.pkgname@) {
                            let k = choose|k: int| 0 <= k < string_views(l@).len() && string_views(l@)[k] == e.pkgname@;
                            assert(l@[k]@ == e.pkgname@);
                        }
                    }
                }
                found
            },
            _ => e.upstream_url.is_some(),
        };
        if keep {
            r.push(e.copy());
        }
        i = i + 1;
    }
    assert(entries@.subrange(0, entries@.len() as int) =~= entries@);
    r
}

} // verus!
