//! Bringing package records up to date from the user's PKGBUILD files and
//! from the AUR: which settings must be present, how a parsed PKGBUILD is
//! merged with the record already kept, the progress messages, what an AUR
//! import infers from the package name, and which AUR rows a sync writes.

use vstd::prelude::*;
use crate::batch::{copy_opt_string, string_views};
use crate::error::{AppError, AppErrorKind};
use crate::models::{AurInfo, CheckerType, PackageType, SoftwareInfo};
use crate::tag_cache::{json_tag_parts, tag_fill_document};
use crate::text::{chars_of, concat, decimal, decimal_string, ends_with, vec_ends_with};

verus! {

/// A setting that must be configured: its value, or a `ConfigError` with
/// `message` when it is absent or empty.
pub open spec fn spec_required_setting(value: Option<Seq<char>>, message: Seq<char>) -> Result<Seq<char>, (AppErrorKind, Seq<char>)> {
    match value {
        Some(v) => if v.len() > 0 { Ok(v) } else { Err((AppErrorKind::ConfigError, message)) },
        None => Err((AppErrorKind::ConfigError, message)),
    }
}

/// The configured directory of the user's AUR package files; a
/// `ConfigError` when it is not set.
pub fn aur_packages_dir(value: Option<String>) -> (r: Result<String, AppError>)
    ensures
        match r {
            Ok(v) => spec_required_setting(match value { Some(s) => Some(s@), None => None }, "AUR 文件目录未配置"@)
                == Ok::<Seq<char>, (AppErrorKind, Seq<char>)>(v@),
            Err(e) => spec_required_setting(match value { Some(s) => Some(s@), None => None }, "AUR 文件目录未配置"@)
                == Err::<Seq<char>, (AppErrorKind, Seq<char>)>(e@),
        },
{
    match value {
        Some(v) => {
            if v.unicode_len() > 0 {
                return Ok(v);
            }
            Err(AppError::ConfigError(String::from_str("AUR 文件目录未配置")))
        },
        None => Err(AppError::ConfigError(String::from_str("AUR 文件目录未配置"))),
    }
}

/// The number of successful writes among `outcomes`.
pub open spec fn successes(outcomes: Seq<Result<(), AppError>>) -> nat
    decreases outcomes.len(),
{
    if outcomes.len() == 0 {
        0
    } else {
        successes(outcomes.drop_last()) + if outcomes.last() is Ok { 1nat } else { 0nat }
    }
}

/// How many packages a sync wrote: the writes that succeeded (a failed
/// write is skipped, the others still count).
pub fn count_written(outcomes: &Vec<Result<(), AppError>>) -> (r: usize)
    ensures
        r == successes(outcomes@),
{
    let mut n: usize = 0;
    let mut i: usize = 0;
    while i < outcomes.len()
        invariant
            i <= outcomes.len(),
            n == successes(outcomes@.subrange(0, i as int)),
            n <= i,
        decreases outcomes.len() - i,
    {
        assert(outcomes@.subrange(0, i + 1).drop_last() =~= outcomes@.subrange(0, i as int));
        if outcomes[i].is_ok() {
            n = n + 1;
        }
        i = i + 1;
    }
    assert(outcomes@.subrange(0, outcomes@.len() as int) =~= outcomes@);
    n
}

/// The configured AUR maintainer name; a `ConfigError` when it is not set.
pub fn aur_username(value: Option<String>) -> (r: Result<String, AppError>)
    ensures
        match r {
            Ok(v) => spec_required_setting(match value { Some(s) => Some(s@), None => None }, "AUR 用户名未配置"@)
                == Ok::<Seq<char>, (AppErrorKind, Seq<char>)>(v@),
            Err(e) => spec_required_setting(match value { Some(s) => Some(s@), None => None }, "AUR 用户名未配置"@)
                == Err::<Seq<char>, (AppErrorKind, Seq<char>)>(e@),
        },
{
    match value {
        Some(v) => {
            if v.unicode_len() > 0 {
                return Ok(v);
            }
            Err(AppError::ConfigError(String::from_str("AUR 用户名未配置")))
        },
        None => Err(AppError::ConfigError(String::from_str("AUR 用户名未配置")))
    }
}

/// Whether a package directory takes part in a PKGBUILD sync: every one
/// does, or only the one named by the filter.
pub fn pkgbuild_dir_selected(dir_name: &str, filter: Option<&str>) -> (r: bool)
    ensures
        r == match filter { Some(f) => dir_name@ == f@, None => true },
{
    match filter {
        Some(f) => String::from_str(dir_name) == String::from_str(f),
        None => true,
    }
}

/// The record written after parsing a package's PKGBUILD. A new package
/// takes the parsed record. A known one keeps its URL, extraction pattern
/// and languages when the user set them (they are filled from the PKGBUILD
/// only when empty), and takes the package type, checker, test-version,
/// binary-file and auto-check settings from the PKGBUILD, which determines
/// them; everything else stays as it was.
pub open spec fn spec_merged(existing: Option<SoftwareInfo>, parsed: SoftwareInfo) -> SoftwareInfo {
    match existing {
        None => parsed,
        Some(e) => SoftwareInfo {
            software_id: e.software_id,
            pkgname: e.pkgname,
            upstream_url: if e.upstream_url is None { parsed.upstream_url } else { e.upstream_url },
            package_type_id: parsed.package_type_id,
            checker_type_id: parsed.checker_type_id,
            is_outdated: e.is_outdated,
            check_test_versions: parsed.check_test_versions,
            check_binary_files: parsed.check_binary_files,
            auto_check_enabled: parsed.auto_check_enabled,
            skip_check_upstream: e.skip_check_upstream,
            language_ids: if e.language_ids@.len() == 0 { parsed.language_ids } else { e.language_ids },
            version_extract_regex: if e.version_extract_regex is None {
                parsed.version_extract_regex
            } else {
                e.version_extract_regex
            },
        },
    }
}

/// The record written after parsing a package's PKGBUILD (see
/// `spec_merged`).
pub fn merge_parsed_software(existing: Option<SoftwareInfo>, parsed: SoftwareInfo) -> (r: SoftwareInfo)
    ensures
        r == spec_merged(existing, parsed),
        r.package_type_id == parsed.package_type_id,
        r.checker_type_id == parsed.checker_type_id,
        r.check_test_versions == parsed.check_test_versions,
        r.check_binary_files == parsed.check_binary_files,
        r.auto_check_enabled == parsed.auto_check_enabled,
{
    match existing {
        None => parsed,
        Some(e) => {
            let mut e = e;
            if e.upstream_url.is_none() {
                e.upstream_url = parsed.upstream_url;
            }
            if e.version_extract_regex.is_none() {
                e.version_extract_regex = parsed.version_extract_regex;
            }
            if e.language_ids.len() == 0 {
                e.language_ids = parsed.language_ids;
            }
            e.package_type_id = parsed.package_type_id;
            e.checker_type_id = parsed.checker_type_id;
            e.check_test_versions = parsed.check_test_versions;
            e.check_binary_files = parsed.check_binary_files;
            e.auto_check_enabled = parsed.auto_check_enabled;
            e
        },
    }
}

/// Appends `t` to `s`.
fn push_str(s: &mut String, t: &str)
    ensures
        final(s)@ == old(s)@ + t@,
{
    s.append(t);
}

/// `[{i}/{total}] ` as progress messages start.
pub open spec fn step_prefix(i: nat, total: nat) -> Seq<char> {
    "["@ + decimal(i) + "/"@ + decimal(total) + "] "@
}

/// What a PKGBUILD sync reports as it goes.
#[derive(Debug)]
pub enum SyncProgress {
    /// The sync starts over `total` directories.
    Started { total: u64 },
    /// Directory number `index` (from 1) is being processed.
    Processing { index: u64, total: u64, dir_name: String },
    /// Directory number `index` was synced.
    Completed { index: u64, total: u64, dir_name: String },
    /// Directory number `index` holds no PKGBUILD.
    Skipped { index: u64, total: u64, dir_name: String },
    /// Directory number `index` could not be parsed, for the reason given.
    Failed { index: u64, total: u64, dir_name: String, reason: String },
    /// The sync is over with `count` packages written.
    Finished { count: u64 },
}

/// The text of a progress report.
pub open spec fn spec_progress_message(p: SyncProgress) -> Seq<char> {
    match p {
        SyncProgress::Started { total } => "开始同步，共 "@ + decimal(total as nat) + " 个包"@,
        SyncProgress::Processing { index, total, dir_name } =>
            step_prefix(index as nat, total as nat) + "正在处理: "@ + dir_name@,
        SyncProgress::Completed { index, total, dir_name } =>
            step_prefix(index as nat, total as nat) + "已完成: "@ + dir_name@,
        SyncProgress::Skipped { index, total, dir_name } =>
            step_prefix(index as nat, total as nat) + "跳过: "@ + dir_name@ + " (无 PKGBUILD)"@,
        SyncProgress::Failed { index, total, dir_name, reason } =>
            step_prefix(index as nat, total as nat) + "失败: "@ + dir_name@ + " ("@ + reason@ + ")"@,
        SyncProgress::Finished { count } => "同步完成，成功 "@ + decimal(count as nat) + " 个"@,
    }
}

/// `[{i}/{total}] `.
fn step_prefix_exec(i: u64, total: u64) -> (r: String)
    ensures
        r@ == step_prefix(i as nat, total as nat),
{
    let mut r = String::from_str("[");
    push_str(&mut r, decimal_string(i).as_str());
    push_str(&mut r, "/");
    push_str(&mut r, decimal_string(total).as_str());
    push_str(&mut r, "] ");
    r
}

/// The text of a progress report.
pub fn progress_message(p: &SyncProgress) -> (r: String)
    ensures
        r@ == spec_progress_message(*p),
{
    match p {
        SyncProgress::Started { total } => {
            let mut r = String::from_str("开始同步，共 ");
            push_str(&mut r, decimal_string(*total).as_str());
            push_str(&mut r, " 个包");
            r
        },
        SyncProgress::Processing { index, total, dir_name } => {
            let mut r = step_prefix_exec(*index, *total);
            push_str(&mut r, "正在处理: ");
            push_str(&mut r, dir_name.as_str());
            r
        },
        SyncProgress::Completed { index, total, dir_name } => {
            let mut r = step_prefix_exec(*index, *total);
            push_str(&mut r, "已完成: ");
            push_str(&mut r, dir_name.as_str());
            r
        },
        SyncProgress::Skipped { index, total, dir_name } => {
            let mut r = step_prefix_exec(*index, *total);
            push_str(&mut r, "跳过: ");
            push_str(&mut r, dir_name.as_str());
            push_str(&mut r, " (无 PKGBUILD)");
            r
        },
        SyncProgress::Failed { index, total, dir_name, reason } => {
            let mut r = step_prefix_exec(*index, *total);
            push_str(&mut r, "失败: ");
            push_str(&mut r, dir_name.as_str());
            push_str(&mut r, " (");
            push_str(&mut r, reason.as_str());
            push_str(&mut r, ")");
            r
        },
        SyncProgress::Finished { count } => {
            let mut r = String::from_str("同步完成，成功 ");
            push_str(&mut r, decimal_string(*count).as_str());
            push_str(&mut r, " 个");
            r
        },
    }
}

// ---------------------------------------------------------------------------
// AUR records
// ---------------------------------------------------------------------------

/// What the AUR RPC reports of a package, as plain values: the string
/// members `Description`, `URL` and `Version` (each `None` when absent or
/// no string), the first string of `License`, the string items of
/// `Depends`, `MakeDepends` and `OptDepends` (`None` when the member is no
/// array), and the integer members `LastModified` and `OutOfDate`.
#[derive(Debug)]
pub struct AurPackage {
    pub description: Option<String>,
    pub url: Option<String>,
    pub version: Option<String>,
    pub first_license: Option<String>,
    pub depends: Option<Vec<String>>,
    pub makedepends: Option<Vec<String>>,
    pub optdepends: Option<Vec<String>>,
    pub last_modified: Option<i64>,
    pub out_of_date: Option<i64>,
}

/// The JSON text `serde_json` writes for an array of strings.
pub uninterp spec fn json_string_array(items: Seq<Seq<char>>) -> Seq<char>;

/// `serde_json::to_string` of the list of strings (which cannot fail for a
/// list of strings: it holds no map and writes to memory; the empty string
/// stands in for the error case). Claimed: the result is
/// `json_string_array` of the items, and the tag document built around it
/// (`tag_fill_document`) parses back (`json_tag_parts`) to an object, not
/// an array, whose `"tags"` member is an array of exactly those strings:
/// serde_json escapes what it writes and unescapes what it reads.
#[verifier::external_body]
pub(crate) fn json_strings(items: &Vec<String>) -> (r: String)
    ensures
        r@ == json_string_array(string_views(items@)),
        json_tag_parts(tag_fill_document(r@))
            == Some((Some(string_views(items@).map_values(|t: Seq<char>| Some(t))), None::<Seq<Option<Seq<char>>>>)),
{
    serde_json::to_string(items).unwrap_or_default()
}

/// A dependency list as stored: the JSON array text of its items.
pub open spec fn spec_stored_list(list: Option<Vec<String>>) -> Option<Seq<char>> {
    match list {
        Some(l) => Some(json_string_array(string_views(l@))),
        None => None,
    }
}

/// The optional view of an optional string.
pub open spec fn opt_view(o: Option<String>) -> Option<Seq<char>> {
    match o {
        Some(s) => Some(s@),
        None => None,
    }
}

/// A dependency list as stored.
fn stored_list(list: &Option<Vec<String>>) -> (r: Option<String>)
    ensures
        opt_view(r) == spec_stored_list(*list),
{
    match list {
        Some(l) => Some(json_strings(l)),
        None => None,
    }
}

/// The AUR row of package `software_id` from the AUR's report: every field
/// as reported, the dependency lists as JSON array text, the out-of-date
/// flag set when the reported value is non-zero, and no sync error. The
/// description is `description`, as the caller gives it.
pub open spec fn spec_aur_row(r: AurInfo, software_id: i64, description: Option<Seq<char>>, p: AurPackage) -> bool {
    &&& r.software_id == software_id
    &&& opt_view(r.pkgdesc) == description
    &&& opt_view(r.aur_version) == opt_view(p.version)
    &&& opt_view(r.license_id) == opt_view(p.first_license)
    &&& r.last_updated == p.last_modified
    &&& opt_view(r.depends) == spec_stored_list(p.depends)
    &&& opt_view(r.makedepends) == spec_stored_list(p.makedepends)
    &&& opt_view(r.optdepends) == spec_stored_list(p.optdepends)
    &&& r.out_of_date == (match p.out_of_date { Some(v) => Some(v != 0), None => None })
    &&& r.last_sync_error is None
}

/// The AUR row from the AUR's report, with the given description.
fn aur_row(software_id: i64, description: Option<String>, p: &AurPackage) -> (r: AurInfo)
    ensures
        spec_aur_row(r, software_id, opt_view(description), *p),
{
    AurInfo {
        software_id,
        pkgdesc: description,
        aur_version: copy_opt_string(&p.version),
        license_id: copy_opt_string(&p.first_license),
        last_updated: p.last_modified,
        depends: stored_list(&p.depends),
        makedepends: stored_list(&p.makedepends),
        optdepends: stored_list(&p.optdepends),
        out_of_date: match p.out_of_date {
            Some(v) => Some(v != 0),
            None => None,
        },
        last_sync_error: None,
    }
}

/// The AUR row a sync writes for package `software_id`: the description as
/// reported.
pub fn synced_aur_info(software_id: i64, p: &AurPackage) -> (r: AurInfo)
    ensures
        spec_aur_row(r, software_id, opt_view(p.description), *p),
{
    aur_row(software_id, copy_opt_string(&p.description), p)
}

/// The AUR row an import writes for the new package `software_id`: a
/// missing description is stored as empty.
pub fn imported_aur_info(software_id: i64, p: &AurPackage) -> (r: AurInfo)
    ensures
        spec_aur_row(
            r,
            software_id,
            Some(match p.description { Some(d) => d@, None => Seq::<char>::empty() }),
            *p,
        ),
{
    let d = match &p.description {
        Some(d) => d.clone(),
        None => String::new(),
    };
    aur_row(software_id, Some(d), p)
}

/// `s` without every trailing copy of `suffix` (`str::trim_end_matches`).
pub open spec fn trim_end_seq(s: Seq<char>, suffix: Seq<char>) -> Seq<char>
    decreases s.len(),
{
    if suffix.len() > 0 && ends_with(s, suffix) {
        trim_end_seq(s.subrange(0, s.len() - suffix.len()), suffix)
    } else {
        s
    }
}

/// `s` without every trailing copy of `suffix`.
fn trim_end_str(s: &str, suffix: &str) -> (r: String)
    ensures
        r@ == trim_end_seq(s@, suffix@),
{
    let v = chars_of(s);
    let sv = chars_of(suffix);
    let mut n = v.len();
    assert(v@.subrange(0, n as int) =~= v@);
    while sv.len() > 0 && n >= sv.len() && crate::text::occurs_at_exec(&v, &sv, n - sv.len())
        invariant
            n <= v.len(),
            trim_end_seq(v@, sv@) == trim_end_seq(v@.subrange(0, n as int), sv@),
        decreases n,
    {
        proof {
            let t = v@.subrange(0, n as int);
            assert(t.subrange(t.len() - sv@.len(), t.len() as int) =~= v@.subrange(n - sv@.len(), n as int));
            assert(t.subrange(0, t.len() - sv@.len()) =~= v@.subrange(0, n - sv@.len()));
        }
        n = n - sv.len();
    }
    proof {
        let t = v@.subrange(0, n as int);
        if sv@.len() > 0 && ends_with(t, sv@) {
            assert(t.subrange(t.len() - sv@.len(), t.len() as int) =~= v@.subrange(n - sv@.len(), n as int));
        }
        assert(v@.subrange(0, v@.len() as int) =~= v@);
    }
    crate::text::string_of(&v, 0, n)
}

/// The upstream URL an import records: the AUR's, or, when it gives none,
/// Electron's repository for an `electron-bin` package (however many
/// `-bin` it ends with).
pub open spec fn spec_import_url(pkgname: Seq<char>, aur_url: Option<Seq<char>>) -> Option<Seq<char>> {
    match aur_url {
        Some(u) => Some(u),
        None => if ends_with(pkgname, "-bin"@) && trim_end_seq(pkgname, "-bin"@) == "electron"@ {
            Some("https://github.com/electron/electron"@)
        } else {
            None
        },
    }
}

/// The checker number an import records: Git (3) for `-git` packages, 2
/// for `-bin` and `-appimage` packages, the one chosen otherwise.
pub open spec fn spec_import_checker(pkgname: Seq<char>, chosen: i32) -> i32 {
    if ends_with(pkgname, "-git"@) {
        3
    } else if ends_with(pkgname, "-bin"@) || ends_with(pkgname, "-appimage"@) {
        2
    } else {
        chosen
    }
}

/// The record an AUR import creates: the package type chosen, the checker
/// inferred from the name, the URL from the AUR (see `spec_import_url`),
/// binary files checked for `-bin` and `-appimage` packages, automatic
/// checks on, and nothing else set.
pub fn imported_software(pkgname: &str, package_type: i32, checker_type: i32, aur: &AurPackage) -> (r: SoftwareInfo)
    ensures
        r.software_id is None,
        r.pkgname@ == pkgname@,
        opt_view(r.upstream_url) == spec_import_url(pkgname@, opt_view(aur.url)),
        r.package_type_id == PackageType::spec_from_id(package_type),
        r.checker_type_id == CheckerType::spec_from_id(spec_import_checker(pkgname@, checker_type)),
        !r.is_outdated,
        !r.check_test_versions,
        r.check_binary_files == (ends_with(pkgname@, "-bin"@) || ends_with(pkgname@, "-appimage"@)),
        r.auto_check_enabled,
        !r.skip_check_upstream,
        r.language_ids@.len() == 0,
        r.version_extract_regex is None,
{
    let v = chars_of(pkgname);
    let is_git = vec_ends_with(&v, &chars_of("-git"));
    let is_bin = vec_ends_with(&v, &chars_of("-bin"));
    let is_appimage = vec_ends_with(&v, &chars_of("-appimage"));
    let url = match &aur.url {
        Some(u) => Some(u.clone()),
        None => {
            if is_bin && trim_end_str(pkgname, "-bin") == String::from_str("electron") {
                Some(String::from_str("https://github.com/electron/electron"))
            } else {
                None
            }
        },
    };
    let checker = if is_git {
        3
    } else if is_bin || is_appimage {
        2
    } else {
        checker_type
    };
    SoftwareInfo {
        software_id: None,
        pkgname: String::from_str(pkgname),
        upstream_url: url,
        package_type_id: PackageType::from_id(package_type),
        checker_type_id: CheckerType::from_id(checker),
        is_outdated: false,
        check_test_versions: false,
        check_binary_files: is_bin || is_appimage,
        auto_check_enabled: true,
        skip_check_upstream: false,
        language_ids: Vec::new(),
        version_extract_regex: None,
    }
}

/// An import is refused for a package already kept.
pub fn check_not_imported(pkgname: &str, exists: bool) -> (r: Result<(), AppError>)
    ensures
        exists ==> (r matches Err(e) && e@ == (AppErrorKind::ConfigError, "软件包 '"@ + pkgname@ + "' 已存在于本地数据库"@)),
        !exists ==> r is Ok,
{
    if exists {
        let mut m = concat("软件包 '", pkgname);
        push_str(&mut m, "' 已存在于本地数据库");
        Err(AppError::ConfigError(m))
    } else {
        Ok(())
    }
}

/// The error of an import whose package the AUR does not know.
pub fn aur_package_missing(pkgname: &str) -> (e: AppError)
    ensures
        e@ == (AppErrorKind::ConfigError, "AUR 中未找到包 '"@ + pkgname@ + "'，请先在 AUR 提交或等待审核通过"@),
{
    let mut m = concat("AUR 中未找到包 '", pkgname);
    push_str(&mut m, "'，请先在 AUR 提交或等待审核通过");
    AppError::ConfigError(m)
}

/// How many packages an AUR batch query asks for at once: the configured
/// number, at most 100.
pub fn aur_batch_size(configured: u32) -> (r: u32)
    ensures
        r == if configured < 100 { configured } else { 100 },
{
    if configured < 100 { configured } else { 100 }
}

/// The AUR report for `name` among the reports returned (each with the
/// name it carries): the last one with that name.
pub open spec fn report_for(reports: Seq<(String, AurPackage)>, name: Seq<char>) -> Option<AurPackage>
    decreases reports.len(),
{
    if reports.len() == 0 {
        None
    } else if reports.last().0@ == name {
        Some(reports.last().1)
    } else {
        report_for(reports.drop_last(), name)
    }
}

/// The AUR report for `name`, the last one with that name.
fn find_report<'a>(reports: &'a Vec<(String, AurPackage)>, name: &String) -> (r: Option<&'a AurPackage>)
    ensures
        match r {
            Some(p) => report_for(reports@, name@) == Some(*p),
            None => report_for(reports@, name@) is None,
        },
{
    let mut i = reports.len();
    assert(reports@.subrange(0, i as int) =~= reports@);
    while i > 0
        invariant
            i <= reports.len(),
            report_for(reports@, name@) == report_for(reports@.subrange(0, i as int), name@),
        decreases i,
    {
        assert(reports@.subrange(0, i as int).drop_last() =~= reports@.subrange(0, i - 1));
        if reports[i - 1].0 == *name {
            return Some(&reports[i - 1].1);
        }
        i = i - 1;
    }
    None
}

/// The positions of the kept packages whose rows a full sync writes: those
/// with a record id that the AUR reported, in order.
pub open spec fn synced_positions(
    pkgnames: Seq<String>,
    ids: Seq<Option<i64>>,
    reports: Seq<(String, AurPackage)>,
) -> Seq<int>
    decreases pkgnames.len(),
{
    if pkgnames.len() == 0 || ids.len() != pkgnames.len() {
        Seq::empty()
    } else {
        let prev = synced_positions(pkgnames.drop_last(), ids.drop_last(), reports);
        if ids.last() is Some && report_for(reports, pkgnames.last()@) is Some {
            prev.push(pkgnames.len() - 1)
        } else {
            prev
        }
    }
}

/// The AUR rows a full sync writes: for each kept package (`pkgnames[k]`,
/// whose record id is `ids[k]`, `None` when it has none) that the AUR
/// reported, the row of its report (the last one carrying its name), in
/// order. The number of rows is what the sync reports as synced.
pub fn plan_aur_sync(
    pkgnames: &Vec<String>,
    ids: &Vec<Option<i64>>,
    reports: &Vec<(String, AurPackage)>,
) -> (r: Vec<AurInfo>)
    requires
        ids.len() == pkgnames.len(),
    ensures
        r.len() == synced_positions(pkgnames@, ids@, reports@).len(),
        forall|k: int| 0 <= k < r.len() ==> {
            let i = synced_positions(pkgnames@, ids@, reports@)[k];
            let p = report_for(reports@, pkgnames@[i]@).unwrap();
            &&& ids@[i] == Some(r@[k].software_id)
            &&& spec_aur_row(#[trigger] r@[k], r@[k].software_id, opt_view(p.description), p)
        },
{
    let mut r: Vec<AurInfo> = Vec::new();
    let mut i: usize = 0;
    while i < pkgnames.len()
        invariant
            i <= pkgnames.len(),
            ids.len() == pkgnames.len(),
            r.len() == synced_positions(pkgnames@.subrange(0, i as int), ids@.subrange(0, i as int), reports@).len(),
            forall|k: int| 0 <= k < r.len() ==> {
                let j = synced_positions(pkgnames@.subrange(0, i as int), ids@.subrange(0, i as int), reports@)[k];
                let p = report_for(reports@, pkgnames@[j]@).unwrap();
                &&& 0 <= j < i
                &&& report_for(reports@, pkgnames@[j]@) is Some
                &&& ids@[j] == Some(r@[k].software_id)
                &&& spec_aur_row(#[trigger] r@[k], r@[k].software_id, opt_view(p.description), p)
            },
        decreases pkgnames.len() - i,
    {
        let ghost prev = synced_positions(pkgnames@.subrange(0, i as int), ids@.subrange(0, i as int), reports@);
        assert(pkgnames@.subrange(0, i + 1).drop_last() =~= pkgnames@.subrange(0, i as int));
        assert(ids@.subrange(0, i + 1).drop_last() =~= ids@.subrange(0, i as int));
        let ghost next = synced_positions(pkgnames@.subrange(0, i + 1), ids@.subrange(0, i + 1), reports@);
        let ghost old_r = r@;
        match find_report(reports, &pkgnames[i]) {
            Some(p) => match ids[i] {
                Some(id) => {
                    let row = synced_aur_info(id, p);
                    r.push(row);
                    assert(next == prev.push(i as int));
                    assert forall|k: int| 0 <= k < r.len() implies {
                        let j = next[k];
                        let p = report_for(reports@, pkgnames@[j]@).unwrap();
                        &&& 0 <= j < i + 1
                        &&& report_for(reports@, pkgnames@[j]@) is Some
                        &&& ids@[j] == Some(r@[k].software_id)
                        &&& spec_aur_row(#[trigger] r@[k], r@[k].software_id, opt_view(p.description), p)
                    } by {
                        if k < r.len() - 1 {
                            assert(r@[k] == old_r[k]);
                            assert(next[k] == prev[k]);
                        }
                    }
                },
                None => {
                    assert(next == prev);
                },
            },
            None => {
                assert(next == prev);
            },
        }
        i = i + 1;
    }
    assert(pkgnames@.subrange(0, pkgnames@.len() as int) =~= pkgnames@);
    assert(ids@.subrange(0, ids@.len() as int) =~= ids@);
    r
}

/// The positions of the fetched reports whose rows an update writes: those
/// whose package has a record id, in order.
pub open spec fn updated_positions(ids: Seq<Option<i64>>) -> Seq<int>
    decreases ids.len(),
{
    if ids.len() == 0 {
        Seq::empty()
    } else {
        let prev = updated_positions(ids.drop_last());
        if ids.last() is Some { prev.push(ids.len() - 1) } else { prev }
    }
}

/// The AUR rows an update of selected packages writes: for each fetched
/// report `fetched[k]` (package name and report) whose package has a
/// record id (`ids[k]`), the row of the report, in order.
pub fn plan_aur_update(fetched: &Vec<(String, AurPackage)>, ids: &Vec<Option<i64>>) -> (r: Vec<AurInfo>)
    requires
        ids.len() == fetched.len(),
    ensures
        r.len() == updated_positions(ids@).len(),
        forall|k: int| 0 <= k < r.len() ==> {
            let i = updated_positions(ids@)[k];
            &&& ids@[i] == Some(r@[k].software_id)
            &&& spec_aur_row(#[trigger] r@[k], r@[k].software_id, opt_view(fetched@[i].1.description), fetched@[i].1)
        },
{
    let mut r: Vec<AurInfo> = Vec::new();
    let mut i: usize = 0;
    while i < fetched.len()
        invariant
            i <= fetched.len(),
            ids.len() == fetched.len(),
            r.len() == updated_positions(ids@.subrange(0, i as int)).len(),
            forall|k: int| 0 <= k < r.len() ==> {
                let j = updated_positions(ids@.subrange(0, i as int))[k];
                &&& 0 <= j < i
                &&& ids@[j] == Some(r@[k].software_id)
                &&& spec_aur_row(#[trigger] r@[k], r@[k].software_id, opt_view(fetched@[j].1.description), fetched@[j].1)
            },
        decreases fetched.len() - i,
    {
        let ghost prev = updated_positions(ids@.subrange(0, i as int));
        assert(ids@.subrange(0, i + 1).drop_last() =~= ids@.subrange(0, i as int));
        let ghost next = updated_positions(ids@.subrange(0, i + 1));
        let ghost old_r = r@;
        match ids[i] {
            Some(id) => {
                let row = synced_aur_info(id, &fetched[i].1);
                r.push(row);
                assert(next == prev.push(i as int));
                assert forall|k: int| 0 <= k < r.len() implies {
                    let j = next[k];
                    &&& 0 <= j < i + 1
                    &&& ids@[j] == Some(r@[k].software_id)
                    &&& spec_aur_row(#[trigger] r@[k], r@[k].software_id, opt_view(fetched@[j].1.description), fetched@[j].1)
                } by {
                    if k < r.len() - 1 {
                        assert(r@[k] == old_r[k]);
                        assert(next[k] == prev[k]);
                    }
                }
            },
            None => {
                assert(next == prev);
            },
        }
        i = i + 1;
    }
    assert(ids@.subrange(0, ids@.len() as int) =~= ids@);
    r
}

/// Syncing the same PKGBUILD again changes nothing: merging a parse into
/// the record a merge of that parse produced gives that record back.
pub proof fn lemma_merge_idempotent(existing: Option<SoftwareInfo>, parsed: SoftwareInfo)
    ensures
        spec_merged(Some(spec_merged(existing, parsed)), parsed) == spec_merged(existing, parsed),
{
}

/// A merge takes from the PKGBUILD what it determines: the package type,
/// the checker and the test-version, binary-file and auto-check settings of
/// the merged record are the parsed ones, whatever the known record held;
/// empty user fields (no URL, no pattern, no languages) are filled from the
/// parse; and a package not known before is recorded as parsed.
pub proof fn lemma_merge_takes_inferred_fields(e: SoftwareInfo, parsed: SoftwareInfo)
    ensures
        spec_merged(Some(e), parsed).package_type_id == parsed.package_type_id,
        spec_merged(Some(e), parsed).checker_type_id == parsed.checker_type_id,
        spec_merged(Some(e), parsed).check_test_versions == parsed.check_test_versions,
        spec_merged(Some(e), parsed).check_binary_files == parsed.check_binary_files,
        spec_merged(Some(e), parsed).auto_check_enabled == parsed.auto_check_enabled,
        spec_merged(Some(e), parsed).is_outdated == e.is_outdated,
        spec_merged(Some(e), parsed).skip_check_upstream == e.skip_check_upstream,
        e.upstream_url is None ==> spec_merged(Some(e), parsed).upstream_url == parsed.upstream_url,
        e.version_extract_regex is None
            ==> spec_merged(Some(e), parsed).version_extract_regex == parsed.version_extract_regex,
        e.language_ids@.len() == 0 ==> spec_merged(Some(e), parsed).language_ids == parsed.language_ids,
        spec_merged(None, parsed) == parsed,
{
}

/// A merge keeps every field the user set: a URL, an extraction pattern or
/// a language list already present is never replaced by the parse.
pub proof fn lemma_merge_keeps_user_fields(e: SoftwareInfo, parsed: SoftwareInfo)
    ensures
        e.upstream_url is Some ==> spec_merged(Some(e), parsed).upstream_url == e.upstream_url,
        e.version_extract_regex is Some ==> spec_merged(Some(e), parsed).version_extract_regex == e.version_extract_regex,
        e.language_ids@.len() > 0 ==> spec_merged(Some(e), parsed).language_ids == e.language_ids,
        spec_merged(Some(e), parsed).software_id == e.software_id,
        spec_merged(Some(e), parsed).pkgname == e.pkgname,
{
}

} // verus!
