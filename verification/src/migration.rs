//! Schema upgrades of an existing database: from the columns a table has
//! (and a few facts read from it), which upgrade steps apply and the SQL
//! that copies old rows into a rebuilt table.

use vstd::prelude::*;
use crate::batch::{contains_name, name_in, string_views};

verus! {

/// The table has a column of that name.
pub open spec fn has_column(cols: Seq<String>, name: Seq<char>) -> bool {
    name_in(cols, name)
}

/// Whether the table has a column of that name.
pub fn has_column_exec(cols: &Vec<String>, name: &str) -> (r: bool)
    ensures
        r == has_column(cols@, name@),
{
    contains_name(cols, &String::from_str(name))
}

/// The column when the table has it, else the fallback expression.
pub open spec fn col_or(cols: Seq<String>, name: Seq<char>, fallback: Seq<char>) -> Seq<char> {
    if has_column(cols, name) { name } else { fallback }
}

/// The column when the table has it, else the fallback expression.
fn col_or_exec(cols: &Vec<String>, name: &str, fallback: &str) -> (r: String)
    ensures
        r@ == col_or(cols@, name@, fallback@),
{
    if has_column_exec(cols, name) {
        String::from_str(name)
    } else {
        String::from_str(fallback)
    }
}

/// Appends `t` to `s`.
fn push_str(s: &mut String, t: &str)
    ensures
        final(s)@ == old(s)@ + t@,
{
    s.append(t);
}

// ---------------------------------------------------------------------------
// aur_info
// ---------------------------------------------------------------------------

/// Columns of `aur_info` that are no longer kept, in the order dropped.
pub open spec fn deprecated_aur_columns() -> Seq<Seq<char>> {
    seq!["provides"@, "conflicts"@, "replaces"@, "votes"@, "popularity"@, "submitted_by"@, "maintainers"@]
}

/// The upgrade of `aur_info`: the deprecated columns present (to drop, in
/// order), and whether `last_updated` is present (its text dates are then
/// turned into Unix times).
pub fn aur_info_migration(cols: &Vec<String>) -> (r: (Vec<String>, bool))
    ensures
        string_views(r.0@) == deprecated_aur_columns().filter(|c: Seq<char>| has_column(cols@, c)),
        r.1 == has_column(cols@, "last_updated"@),
{
    let mut drops: Vec<String> = Vec::new();
    let names = [
        "provides", "conflicts", "replaces", "votes", "popularity", "submitted_by", "maintainers",
    ];
    let ghost all = deprecated_aur_columns();
    let mut i: usize = 0;
    while i < 7
        invariant
            i <= 7,
            all == deprecated_aur_columns(),
            names@.len() == 7,
            forall|k: int| 0 <= k < 7 ==> #[trigger] names@[k]@ == all[k],
            string_views(drops@) == all.subrange(0, i as int).filter(|c: Seq<char>| has_column(cols@, c)),
        decreases 7 - i,
    {
        let ghost prev = all.subrange(0, i as int);
        proof {
            assert(all.subrange(0, i + 1) =~= prev.push(all[i as int]));
            prev.lemma_filter_push(all[i as int], |c: Seq<char>| has_column(cols@, c));
        }
        let ghost old_drops = drops@;
        if has_column_exec(cols, names[i]) {
            drops.push(String::from_str(names[i]));
            assert(string_views(drops@) =~= string_views(old_drops).push(all[i as int]));
        }
        i = i + 1;
    }
    assert(all.subrange(0, 7) =~= all);
    (drops, has_column_exec(cols, "last_updated"))
}

/// The statement dropping a column of `aur_info`.
pub fn drop_aur_column_sql(col: &str) -> (r: String)
    ensures
        r@ == "ALTER TABLE aur_info DROP COLUMN "@ + col@ + ";"@,
{
    let mut r = String::from_str("ALTER TABLE aur_info DROP COLUMN ");
    push_str(&mut r, col);
    push_str(&mut r, ";");
    r
}

// ---------------------------------------------------------------------------
// software_info
// ---------------------------------------------------------------------------

/// The upgrade steps of `software_info`.
#[derive(Debug, Clone, Copy)]
pub struct SoftwareInfoMigration {
    /// Rename `package_type` to `package_type_id`.
    pub rename_package_type: bool,
    /// Rename `checker_type` to `checker_type_id`.
    pub rename_checker_type: bool,
    /// Drop `created_at`.
    pub drop_created_at: bool,
    /// Add `version_extract_regex`.
    pub add_version_regex: bool,
    /// Remove `license_id` (dropped, or the table rebuilt when a foreign
    /// key uses it).
    pub remove_license_id: bool,
}

/// The upgrade steps of `software_info`: each old column renamed when its
/// new name is absent, `created_at` dropped, the extraction-pattern column
/// added when missing, and `license_id` removed when present.
pub fn software_info_migration(cols: &Vec<String>) -> (r: SoftwareInfoMigration)
    ensures
        r.rename_package_type == (has_column(cols@, "package_type"@) && !has_column(cols@, "package_type_id"@)),
        r.rename_checker_type == (has_column(cols@, "checker_type"@) && !has_column(cols@, "checker_type_id"@)),
        r.drop_created_at == has_column(cols@, "created_at"@),
        r.add_version_regex == !has_column(cols@, "version_extract_regex"@),
        r.remove_license_id == has_column(cols@, "license_id"@),
{
    SoftwareInfoMigration {
        rename_package_type: has_column_exec(cols, "package_type") && !has_column_exec(cols, "package_type_id"),
        rename_checker_type: has_column_exec(cols, "checker_type") && !has_column_exec(cols, "checker_type_id"),
        drop_created_at: has_column_exec(cols, "created_at"),
        add_version_regex: !has_column_exec(cols, "version_extract_regex"),
        remove_license_id: has_column_exec(cols, "license_id"),
    }
}

/// Whether `language_id` must be rebuilt as a JSON text column: it exists
/// (its declared type is known) and is not `TEXT`.
pub fn language_column_needs_rebuild(col_type: Option<&str>) -> (r: bool)
    ensures
        r == (col_type matches Some(t) && t@ != "TEXT"@),
{
    match col_type {
        Some(t) => String::from_str(t) != String::from_str("TEXT"),
        None => false,
    }
}

// ---------------------------------------------------------------------------
// enum tables
// ---------------------------------------------------------------------------

/// The upgrade of `enum_programming_languages`.
#[derive(Debug, Clone, Copy, PartialEq, Eq, Structural)]
pub enum LanguagesMigration {
    /// The table is current.
    Nothing,
    /// Only the `short_name` column is missing.
    AddShortName,
    /// Old columns remain: rebuild, copying `short_name` when there is one
    /// and otherwise taking the first two letters of the name.
    Rebuild { copy_short_name: bool },
}

/// The upgrade of `enum_programming_languages`: a rebuild when any of the
/// old descriptive columns remains, else the `short_name` column added when
/// missing.
pub fn languages_migration(cols: &Vec<String>) -> (r: LanguagesMigration)
    ensures
        ({
            let old = has_column(cols@, "description"@) || has_column(cols@, "file_extensions"@)
                || has_column(cols@, "build_system"@) || has_column(cols@, "build_command"@);
            let short = has_column(cols@, "short_name"@);
            r == if old {
                LanguagesMigration::Rebuild { copy_short_name: short }
            } else if !short {
                LanguagesMigration::AddShortName
            } else {
                LanguagesMigration::Nothing
            }
        }),
{
    let old = has_column_exec(cols, "description") || has_column_exec(cols, "file_extensions")
        || has_column_exec(cols, "build_system") || has_column_exec(cols, "build_command");
    let short = has_column_exec(cols, "short_name");
    if old {
        LanguagesMigration::Rebuild { copy_short_name: short }
    } else if !short {
        LanguagesMigration::AddShortName
    } else {
        LanguagesMigration::Nothing
    }
}

/// Whether `enum_licenses` is rebuilt to its three columns: it has more.
pub fn licenses_need_rebuild(cols: &Vec<String>) -> (r: bool)
    ensures
        r == (cols.len() > 3),
{
    cols.len() > 3
}

// ---------------------------------------------------------------------------
// upstream_info
// ---------------------------------------------------------------------------

/// Whether the license column still holds integer ids (or no value at
/// all), by the type of its first value.
pub fn upstream_license_needs_migration(license_col_type: &str) -> (r: bool)
    ensures
        r == (license_col_type@ == "integer"@ || license_col_type@ == "null"@),
{
    let t = String::from_str(license_col_type);
    t == String::from_str("integer") || t == String::from_str("null")
}

/// Whether `upstream_info` is rebuilt: it still has the URL or old license
/// column, lacks the license id column, or the license column holds
/// integer ids.
pub fn upstream_info_needs_rebuild(cols: &Vec<String>, license_col_type: &str) -> (r: bool)
    ensures
        r == (has_column(cols@, "upstream_url"@) || has_column(cols@, "upstream_license"@)
            || !has_column(cols@, "upstream_license_id"@)
            || license_col_type@ == "integer"@ || license_col_type@ == "null"@),
{
    has_column_exec(cols, "upstream_url") || has_column_exec(cols, "upstream_license")
        || !has_column_exec(cols, "upstream_license_id")
        || upstream_license_needs_migration(license_col_type)
}

/// The license expression of the `upstream_info` copy.
pub open spec fn upstream_license_expr(cols: Seq<String>, license_col_type: Seq<char>) -> Seq<char> {
    if license_col_type == "integer"@ || license_col_type == "null"@ {
        "CASE WHEN upstream_license_id IS NOT NULL THEN \n                (SELECT '[' || json_quote(spdx_id) || ']' FROM enum_licenses WHERE id = upstream_license_id)\n             ELSE NULL END"@
    } else if has_column(cols, "upstream_license"@) || !has_column(cols, "upstream_license_id"@) {
        "CASE WHEN typeof(upstream_license) = 'integer' THEN CAST(upstream_license AS INTEGER) ELSE NULL END"@
    } else {
        "upstream_license_id"@
    }
}

/// The check-time expression of the `upstream_info` copy.
pub open spec fn upstream_time_expr(cols: Seq<String>, last_checked_type: Seq<char>) -> Seq<char> {
    if last_checked_type == "text"@ {
        "CAST(strftime('%s', last_checked) AS INTEGER)"@
    } else if has_column(cols, "last_checked"@) {
        "last_checked"@
    } else {
        "NULL"@
    }
}

/// The statement copying `upstream_info` into its rebuilt table: license
/// ids turned into JSON arrays of SPDX ids (or taken from the old license
/// column), text check times turned into Unix times.
pub open spec fn spec_upstream_copy_sql(cols: Seq<String>, license_col_type: Seq<char>, last_checked_type: Seq<char>) -> Seq<char> {
    "INSERT INTO upstream_info_new (software_id, upstream_version, upstream_license_id, last_checked)\n             SELECT software_id, upstream_version, "@ + upstream_license_expr(cols, license_col_type) + ", "@
        + upstream_time_expr(cols, last_checked_type) + "\n             FROM upstream_info;"@
}

/// The statement copying `upstream_info` into its rebuilt table.
pub fn upstream_info_copy_sql(cols: &Vec<String>, license_col_type: &str, last_checked_type: &str) -> (r: String)
    ensures
        r@ == spec_upstream_copy_sql(cols@, license_col_type@, last_checked_type@),
{
    let lic = if upstream_license_needs_migration(license_col_type) {
        String::from_str("CASE WHEN upstream_license_id IS NOT NULL THEN \n                (SELECT '[' || json_quote(spdx_id) || ']' FROM enum_licenses WHERE id = upstream_license_id)\n             ELSE NULL END")
    } else if has_column_exec(cols, "upstream_license") || !has_column_exec(cols, "upstream_license_id") {
        String::from_str("CASE WHEN typeof(upstream_license) = 'integer' THEN CAST(upstream_license AS INTEGER) ELSE NULL END")
    } else {
        String::from_str("upstream_license_id")
    };
    let time = if String::from_str(last_checked_type) == String::from_str("text") {
        String::from_str("CAST(strftime('%s', last_checked) AS INTEGER)")
    } else if has_column_exec(cols, "last_checked") {
        String::from_str("last_checked")
    } else {
        String::from_str("NULL")
    };
    let mut r = String::from_str("INSERT INTO upstream_info_new (software_id, upstream_version, upstream_license_id, last_checked)\n             SELECT software_id, upstream_version, ");
    push_str(&mut r, lic.as_str());
    push_str(&mut r, ", ");
    push_str(&mut r, time.as_str());
    push_str(&mut r, "\n             FROM upstream_info;");
    r
}

// ---------------------------------------------------------------------------
// backup_software and cache_software
// ---------------------------------------------------------------------------

/// The statement copying `backup_software` into its rebuilt table, or
/// `None` when the table is current (no `software_id`, `created_at` or
/// `updated_at`; `name`, `pkgver` and `full_path` present). Missing columns
/// are filled: empty name and version, and a full path made of the
/// subdirectory and the file name.
pub open spec fn spec_backup_copy_sql(cols: Seq<String>) -> Option<Seq<char>> {
    let current = !has_column(cols, "software_id"@) && has_column(cols, "name"@) && has_column(cols, "pkgver"@)
        && has_column(cols, "full_path"@) && !has_column(cols, "created_at"@) && !has_column(cols, "updated_at"@);
    let subdir = col_or(cols, "subdirectory"@, "''"@);
    let fp = if has_column(cols, "full_path"@) {
        "full_path"@
    } else {
        "CASE WHEN "@ + subdir + " IS NOT NULL AND "@ + subdir + " != '' THEN "@ + subdir
            + " || '/' || filename ELSE filename END"@
    };
    if current {
        None
    } else {
        Some("INSERT INTO backup_software_new (id, name, filename, epoch, pkgver, pkgrel, arch, subdirectory, full_path)\n             SELECT id, "@ + col_or(cols, "name"@, "''"@) + ", filename, epoch, "@ + col_or(cols, "pkgver"@, "''"@)
            + ", pkgrel, arch, "@ + subdir + ", "@ + fp + " FROM backup_software;"@)
    }
}

/// The statement copying `backup_software` into its rebuilt table, when it
/// needs one.
pub fn backup_software_copy_sql(cols: &Vec<String>) -> (r: Option<String>)
    ensures
        match r {
            Some(s) => spec_backup_copy_sql(cols@) == Some(s@),
            None => spec_backup_copy_sql(cols@) is None,
        },
{
    let current = !has_column_exec(cols, "software_id") && has_column_exec(cols, "name")
        && has_column_exec(cols, "pkgver") && has_column_exec(cols, "full_path")
        && !has_column_exec(cols, "created_at") && !has_column_exec(cols, "updated_at");
    if current {
        return None;
    }
    let subdir = col_or_exec(cols, "subdirectory", "''");
    let fp = if has_column_exec(cols, "full_path") {
        String::from_str("full_path")
    } else {
        let mut f = String::from_str("CASE WHEN ");
        push_str(&mut f, subdir.as_str());
        push_str(&mut f, " IS NOT NULL AND ");
        push_str(&mut f, subdir.as_str());
        push_str(&mut f, " != '' THEN ");
        push_str(&mut f, subdir.as_str());
        push_str(&mut f, " || '/' || filename ELSE filename END");
        f
    };
    let mut r = String::from_str("INSERT INTO backup_software_new (id, name, filename, epoch, pkgver, pkgrel, arch, subdirectory, full_path)\n             SELECT id, ");
    push_str(&mut r, col_or_exec(cols, "name", "''").as_str());
    push_str(&mut r, ", filename, epoch, ");
    push_str(&mut r, col_or_exec(cols, "pkgver", "''").as_str());
    push_str(&mut r, ", pkgrel, arch, ");
    push_str(&mut r, subdir.as_str());
    push_str(&mut r, ", ");
    push_str(&mut r, fp.as_str());
    push_str(&mut r, " FROM backup_software;");
    Some(r)
}

/// The statement copying `cache_software` into its rebuilt table, or
/// `None` when the table is current (all kept columns present, none of the
/// dropped ones, and no foreign key). The version comes from `pkgver`, else
/// from the old `version` column; a missing full path is made of the cache
/// directory and the file name.
pub open spec fn spec_cache_copy_sql(cols: Seq<String>, foreign_keys: i64) -> Option<Seq<char>> {
    let current = has_column(cols, "name"@) && has_column(cols, "pkgver"@) && has_column(cols, "full_path"@)
        && !has_column(cols, "software_id"@) && !has_column(cols, "size"@) && !has_column(cols, "source_dir"@)
        && !has_column(cols, "created_at"@) && !has_column(cols, "updated_at"@) && !has_column(cols, "version"@);
    let pkgver = if has_column(cols, "pkgver"@) {
        "pkgver"@
    } else if has_column(cols, "version"@) {
        "version"@
    } else {
        "''"@
    };
    if current && foreign_keys <= 0 {
        None
    } else {
        Some("INSERT INTO cache_software_new (id, name, filename, epoch, pkgver, pkgrel, arch, cache_directory, full_path)\n             SELECT id, "@ + col_or(cols, "name"@, "''"@) + ", filename, epoch, "@ + pkgver
            + ", pkgrel, arch, cache_directory, "@ + col_or(cols, "full_path"@, "CASE WHEN cache_directory != '' THEN cache_directory || '/' || filename ELSE filename END"@)
            + "\n             FROM cache_software;"@)
    }
}

/// The statement copying `cache_software` into its rebuilt table, when it
/// needs one (`foreign_keys` is the number of foreign keys it has).
pub fn cache_software_copy_sql(cols: &Vec<String>, foreign_keys: i64) -> (r: Option<String>)
    ensures
        match r {
            Some(s) => spec_cache_copy_sql(cols@, foreign_keys) == Some(s@),
            None => spec_cache_copy_sql(cols@, foreign_keys) is None,
        },
{
    let current = has_column_exec(cols, "name") && has_column_exec(cols, "pkgver")
        && has_column_exec(cols, "full_path") && !has_column_exec(cols, "software_id")
        && !has_column_exec(cols, "size") && !has_column_exec(cols, "source_dir")
        && !has_column_exec(cols, "created_at") && !has_column_exec(cols, "updated_at")
        && !has_column_exec(cols, "version");
    if current && foreign_keys <= 0 {
        return None;
    }
    let pkgver = if has_column_exec(cols, "pkgver") {
        String::from_str("pkgver")
    } else if has_column_exec(cols, "version") {
        String::from_str("version")
    } else {
        String::from_str("''")
    };
    let mut r = String::from_str("INSERT INTO cache_software_new (id, name, filename, epoch, pkgver, pkgrel, arch, cache_directory, full_path)\n             SELECT id, ");
    push_str(&mut r, col_or_exec(cols, "name", "''").as_str());
    push_str(&mut r, ", filename, epoch, ");
    push_str(&mut r, pkgver.as_str());
    push_str(&mut r, ", pkgrel, arch, cache_directory, ");
    push_str(&mut r, col_or_exec(cols, "full_path", "CASE WHEN cache_directory != '' THEN cache_directory || '/' || filename ELSE filename END").as_str());
    push_str(&mut r, "\n             FROM cache_software;");
    Some(r)
}

// ---------------------------------------------------------------------------
// proxies_info and proxies_test
// ---------------------------------------------------------------------------

/// The statement copying `proxies_info` into its rebuilt table, or `None`
/// when every column is present. Missing columns are filled: empty name
/// and URL, `download` type, active, target protocol kept.
pub open spec fn spec_proxies_info_copy_sql(cols: Seq<String>) -> Option<Seq<char>> {
    let current = has_column(cols, "proxy_name"@) && has_column(cols, "proxy_type"@) && has_column(cols, "url"@)
        && has_column(cols, "is_active"@) && has_column(cols, "strip_target_protocol"@);
    if current {
        None
    } else {
        Some("INSERT INTO proxies_info_new (proxy_id, proxy_name, proxy_type, url, is_active, strip_target_protocol)\n             SELECT proxy_id, "@ + col_or(cols, "proxy_name"@, "''"@) + ", "@ + col_or(cols, "proxy_type"@, "'download'"@)
            + ", "@ + col_or(cols, "url"@, "''"@) + ", "@ + col_or(cols, "is_active"@, "1"@) + ", "@
            + col_or(cols, "strip_target_protocol"@, "0"@) + "\n             FROM proxies_info;"@)
    }
}

/// The statement copying `proxies_info` into its rebuilt table, when it
/// needs one.
pub fn proxies_info_copy_sql(cols: &Vec<String>) -> (r: Option<String>)
    ensures
        match r {
            Some(s) => spec_proxies_info_copy_sql(cols@) == Some(s@),
            None => spec_proxies_info_copy_sql(cols@) is None,
        },
{
    if has_column_exec(cols, "proxy_name") && has_column_exec(cols, "proxy_type") && has_column_exec(cols, "url")
        && has_column_exec(cols, "is_active") && has_column_exec(cols, "strip_target_protocol") {
        return None;
    }
    let mut r = String::from_str("INSERT INTO proxies_info_new (proxy_id, proxy_name, proxy_type, url, is_active, strip_target_protocol)\n             SELECT proxy_id, ");
    push_str(&mut r, col_or_exec(cols, "proxy_name", "''").as_str());
    push_str(&mut r, ", ");
    push_str(&mut r, col_or_exec(cols, "proxy_type", "'download'").as_str());
    push_str(&mut r, ", ");
    push_str(&mut r, col_or_exec(cols, "url", "''").as_str());
    push_str(&mut r, ", ");
    push_str(&mut r, col_or_exec(cols, "is_active", "1").as_str());
    push_str(&mut r, ", ");
    push_str(&mut r, col_or_exec(cols, "strip_target_protocol", "0").as_str());
    push_str(&mut r, "\n             FROM proxies_info;");
    Some(r)
}

/// The statement copying `proxies_test` into its rebuilt table, or `None`
/// when every column is present. Missing columns are filled: proxy 0, the
/// current time, no latency, zero counts, and a status derived from the
/// latency.
pub open spec fn spec_proxies_test_copy_sql(cols: Seq<String>) -> Option<Seq<char>> {
    let current = has_column(cols, "proxy_id"@) && has_column(cols, "test_time"@) && has_column(cols, "avg_latency"@)
        && has_column(cols, "success_count"@) && has_column(cols, "fail_count"@)
        && has_column(cols, "last_test_status"@);
    if current {
        None
    } else {
        Some("INSERT INTO proxies_test_new (id, proxy_id, test_time, avg_latency, success_count, fail_count, last_test_status)\n             SELECT id, "@ + col_or(cols, "proxy_id"@, "0"@) + ", "@ + col_or(cols, "test_time"@, "datetime('now')"@)
            + ", "@ + col_or(cols, "avg_latency"@, "NULL"@) + ", "@ + col_or(cols, "success_count"@, "0"@) + ", "@
            + col_or(cols, "fail_count"@, "0"@) + ", "@ + col_or(cols, "last_test_status"@, "CASE WHEN avg_latency IS NOT NULL THEN 'success' ELSE 'fail' END"@)
            + "\n             FROM proxies_test;"@)
    }
}

/// The statement copying `proxies_test` into its rebuilt table, when it
/// needs one.
pub fn proxies_test_copy_sql(cols: &Vec<String>) -> (r: Option<String>)
    ensures
        match r {
            Some(s) => spec_proxies_test_copy_sql(cols@) == Some(s@),
            None => spec_proxies_test_copy_sql(cols@) is None,
        },
{
    if has_column_exec(cols, "proxy_id") && has_column_exec(cols, "test_time") && has_column_exec(cols, "avg_latency")
        && has_column_exec(cols, "success_count") && has_column_exec(cols, "fail_count")
        && has_column_exec(cols, "last_test_status") {
        return None;
    }
    let mut r = String::from_str("INSERT INTO proxies_test_new (id, proxy_id, test_time, avg_latency, success_count, fail_count, last_test_status)\n             SELECT id, ");
    push_str(&mut r, col_or_exec(cols, "proxy_id", "0").as_str());
    push_str(&mut r, ", ");
    push_str(&mut r, col_or_exec(cols, "test_time", "datetime('now')").as_str());
    push_str(&mut r, ", ");
    push_str(&mut r, col_or_exec(cols, "avg_latency", "NULL").as_str());
    push_str(&mut r, ", ");
    push_str(&mut r, col_or_exec(cols, "success_count", "0").as_str());
    push_str(&mut r, ", ");
    push_str(&mut r, col_or_exec(cols, "fail_count", "0").as_str());
    push_str(&mut r, ", ");
    push_str(&mut r, col_or_exec(cols, "last_test_status", "CASE WHEN avg_latency IS NOT NULL THEN 'success' ELSE 'fail' END").as_str());
    push_str(&mut r, "\n             FROM proxies_test;");
    Some(r)
}

// ---------------------------------------------------------------------------
// cache_dirs
// ---------------------------------------------------------------------------

/// The paru and yay cache directories of the user `USER` names, when it
/// names one (`None` when unset or empty).
pub fn user_cache_dir_paths(user: Option<String>) -> (r: Option<(String, String)>)
    ensures
        match user {
            Some(u) if u@.len() > 0 => r matches Some(p)
                && p.0@ == "/home/"@ + u@ + "/.cache/paru/clone"@
                && p.1@ == "/home/"@ + u@ + "/.config/yay"@,
            _ => r is None,
        },
{
    match user {
        Some(u) => {
            if u.unicode_len() == 0 {
                return None;
            }
            let mut paru = String::from_str("/home/");
            push_str(&mut paru, u.as_str());
            push_str(&mut paru, "/.cache/paru/clone");
            let mut yay = String::from_str("/home/");
            push_str(&mut yay, u.as_str());
            push_str(&mut yay, "/.config/yay");
            Some((paru, yay))
        },
        None => None,
    }
}

} // verus!
