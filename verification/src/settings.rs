//! Settings and reference data: the settings and enumerations a new
//! database starts with, defaults for settings that are absent, the tables
//! whose columns may be listed, and the dashboard counts.

use vstd::prelude::*;
use crate::error::{AppError, AppErrorKind};
use crate::text::concat;

verus! {

/// A setting a new database starts with.
#[derive(Debug)]
pub struct SettingDefault {
    pub key: String,
    pub value: String,
    pub description: String,
    pub category: String,
}

/// The views of a setting default.
pub open spec fn setting_view(s: SettingDefault) -> (Seq<char>, Seq<char>, Seq<char>, Seq<char>) {
    (s.key@, s.value@, s.description@, s.category@)
}

/// The settings a new database starts with (key, value, description,
/// category), in order; existing settings are kept.
pub open spec fn spec_default_settings() -> Seq<(Seq<char>, Seq<char>, Seq<char>, Seq<char>)> {
    seq![        ("aur_username"@, "zxp19821005"@, "AUR 维护者用户名"@, "aur"@),
        ("aur_packages_dir"@, "/run/media/zxp/LocalBak/git/My_AUR_Files"@, "本地 AUR 包文件目录"@, "aur"@),
        ("aur_batch_size"@, "50"@, "AUR 批量查询每批数量上限（最大100）"@, "aur"@),
        ("aur_batch_interval"@, "5"@, "AUR 批量查询间隔时间（秒）"@, "aur"@),
        ("backup_dir"@, "/run/media/zxp/Backup/Linux/ZST"@, "默认备份目录"@, "backup"@),
        ("github_backup_repo"@, "https://github.com/zxp19821005/My_AUR_Files"@, "GitHub 备份仓库地址"@, "backup"@),
        ("show_tray_icon"@, "true"@, "是否显示系统托盘图标"@, "general"@),
        ("close_action"@, "minimize_to_tray"@, "关闭窗口动作 (minimize_to_tray/exit)"@, "general"@),
        ("log_max_size"@, "10485760"@, "单个日志文件大小上限（字节），默认 10MB"@, "log"@),
        ("log_max_files"@, "7"@, "保留的日志文件最大数量，默认 7"@, "log"@),
        ("github_token"@, ""@, "GitHub Personal Access Token（用于提高 API 速率限制）"@, "checker"@),
        ("gitee_token"@, ""@, "Gitee 私人令牌（access_token，用于提高 API 速率限制）"@, "checker"@),
        ("gitlab_token"@, ""@, "GitLab Personal Access Token（用于提高 API 速率限制）"@, "checker"@),
        ("http_timeout"@, "30"@, "HTTP 请求超时时间（秒）"@, "checker"@),
        ("http_retry_count"@, "2"@, "HTTP 请求失败重试次数"@, "checker"@),
        ("list_page_size_software"@, "50"@, "软件管理列表每页显示行数"@, "list"@),
        ("list_page_size_backup"@, "50"@, "备份管理列表每页显示行数"@, "list"@),
        ("list_page_size_cache"@, "50"@, "缓存管理列表每页显示行数"@, "list"@),
        ("list_page_size_proxy"@, "50"@, "代理管理列表每页显示行数"@, "list"@),
        ("list_page_size_license"@, "50"@, "License管理列表每页显示行数"@, "list"@),
        ("list_page_size_language"@, "50"@, "编程语言管理列表每页显示行数"@, "list"@)    ]
}

/// A setting default from its four texts.
fn setting(key: &str, value: &str, description: &str, category: &str) -> (r: SettingDefault)
    ensures
        setting_view(r) == (key@, value@, description@, category@),
{
    SettingDefault {
        key: String::from_str(key),
        value: String::from_str(value),
        description: String::from_str(description),
        category: String::from_str(category),
    }
}

/// The settings a new database starts with.
pub fn default_settings() -> (r: Vec<SettingDefault>)
    ensures
        r@.map_values(|s: SettingDefault| setting_view(s)) == spec_default_settings(),
{
    let mut r: Vec<SettingDefault> = Vec::new();
    r.push(setting("aur_username", "zxp19821005", "AUR 维护者用户名", "aur"));
    r.push(setting("aur_packages_dir", "/run/media/zxp/LocalBak/git/My_AUR_Files", "本地 AUR 包文件目录", "aur"));
    r.push(setting("aur_batch_size", "50", "AUR 批量查询每批数量上限（最大100）", "aur"));
    r.push(setting("aur_batch_interval", "5", "AUR 批量查询间隔时间（秒）", "aur"));
    r.push(setting("backup_dir", "/run/media/zxp/Backup/Linux/ZST", "默认备份目录", "backup"));
    r.push(setting("github_backup_repo", "https://github.com/zxp19821005/My_AUR_Files", "GitHub 备份仓库地址", "backup"));
    r.push(setting("show_tray_icon", "true", "是否显示系统托盘图标", "general"));
    r.push(setting("close_action", "minimize_to_tray", "关闭窗口动作 (minimize_to_tray/exit)", "general"));
    r.push(setting("log_max_size", "10485760", "单个日志文件大小上限（字节），默认 10MB", "log"));
    r.push(setting("log_max_files", "7", "保留的日志文件最大数量，默认 7", "log"));
    r.push(setting("github_token", "", "GitHub Personal Access Token（用于提高 API 速率限制）", "checker"));
    r.push(setting("gitee_token", "", "Gitee 私人令牌（access_token，用于提高 API 速率限制）", "checker"));
    r.push(setting("gitlab_token", "", "GitLab Personal Access Token（用于提高 API 速率限制）", "checker"));
    r.push(setting("http_timeout", "30", "HTTP 请求超时时间（秒）", "checker"));
    r.push(setting("http_retry_count", "2", "HTTP 请求失败重试次数", "checker"));
    r.push(setting("list_page_size_software", "50", "软件管理列表每页显示行数", "list"));
    r.push(setting("list_page_size_backup", "50", "备份管理列表每页显示行数", "list"));
    r.push(setting("list_page_size_cache", "50", "缓存管理列表每页显示行数", "list"));
    r.push(setting("list_page_size_proxy", "50", "代理管理列表每页显示行数", "list"));
    r.push(setting("list_page_size_license", "50", "License管理列表每页显示行数", "list"));
    r.push(setting("list_page_size_language", "50", "编程语言管理列表每页显示行数", "list"));
    assert(r@.map_values(|s: SettingDefault| setting_view(s)) =~= spec_default_settings());
    r
}

/// The programming languages a new database starts with (name, short
/// name), in order.
pub open spec fn spec_default_languages() -> Seq<(Seq<char>, Seq<char>)> {
    seq![("Rust"@, "rs"@), ("TypeScript"@, "ts"@), ("Python"@, "py"@), ("Go"@, "go"@), ("C/C++"@, "c"@), ("Java"@, "java"@), ("Kotlin"@, "kt"@), ("C#"@, "cs"@), ("Ruby"@, "rb"@), ("PHP"@, "php"@)    ]
}

/// The views of a pair of strings.
pub open spec fn pair_view(p: (String, String)) -> (Seq<char>, Seq<char>) {
    (p.0@, p.1@)
}

/// A pair of strings from two texts.
fn pair(a: &str, b: &str) -> (r: (String, String))
    ensures
        pair_view(r) == (a@, b@),
{
    (String::from_str(a), String::from_str(b))
}

/// The programming languages a new database starts with.
pub fn default_languages() -> (r: Vec<(String, String)>)
    ensures
        r@.map_values(|p: (String, String)| pair_view(p)) == spec_default_languages(),
{
    let mut r: Vec<(String, String)> = Vec::new();
    r.push(pair("Rust", "rs"));
    r.push(pair("TypeScript", "ts"));
    r.push(pair("Python", "py"));
    r.push(pair("Go", "go"));
    r.push(pair("C/C++", "c"));
    r.push(pair("Java", "java"));
    r.push(pair("Kotlin", "kt"));
    r.push(pair("C#", "cs"));
    r.push(pair("Ruby", "rb"));
    r.push(pair("PHP", "php"));
    assert(r@.map_values(|p: (String, String)| pair_view(p)) =~= spec_default_languages());
    r
}

/// The licenses a new database starts with (SPDX id, full name), in order.
pub open spec fn spec_default_licenses() -> Seq<(Seq<char>, Seq<char>)> {
    seq![("MIT"@, "MIT License"@), ("Apache-2.0"@, "Apache License 2.0"@), ("BSD-3-Clause"@, "BSD 3-Clause License"@), ("BSD-2-Clause"@, "BSD 2-Clause License"@), ("ISC"@, "ISC License"@), ("Unlicense"@, "The Unlicense"@), ("MPL-2.0"@, "Mozilla Public License 2.0"@), ("LGPL-3.0-only"@, "GNU Lesser General Public License v3.0 only"@), ("GPL-3.0-only"@, "GNU General Public License v3.0 only"@), ("GPL-2.0-only"@, "GNU General Public License v2.0 only"@), ("AGPL-3.0-only"@, "GNU Affero General Public License v3.0 only"@), ("CC0-1.0"@, "Creative Commons Zero v1.0 Universal"@)    ]
}

/// The licenses a new database starts with.
pub fn default_licenses() -> (r: Vec<(String, String)>)
    ensures
        r@.map_values(|p: (String, String)| pair_view(p)) == spec_default_licenses(),
{
    let mut r: Vec<(String, String)> = Vec::new();
    r.push(pair("MIT", "MIT License"));
    r.push(pair("Apache-2.0", "Apache License 2.0"));
    r.push(pair("BSD-3-Clause", "BSD 3-Clause License"));
    r.push(pair("BSD-2-Clause", "BSD 2-Clause License"));
    r.push(pair("ISC", "ISC License"));
    r.push(pair("Unlicense", "The Unlicense"));
    r.push(pair("MPL-2.0", "Mozilla Public License 2.0"));
    r.push(pair("LGPL-3.0-only", "GNU Lesser General Public License v3.0 only"));
    r.push(pair("GPL-3.0-only", "GNU General Public License v3.0 only"));
    r.push(pair("GPL-2.0-only", "GNU General Public License v2.0 only"));
    r.push(pair("AGPL-3.0-only", "GNU Affero General Public License v3.0 only"));
    r.push(pair("CC0-1.0", "Creative Commons Zero v1.0 Universal"));
    assert(r@.map_values(|p: (String, String)| pair_view(p)) =~= spec_default_licenses());
    r
}

/// The backup directory used when the setting is absent or empty.
pub open spec fn default_backup_dir() -> Seq<char> {
    "/run/media/zxp/Backup/Linux/ZST"@
}

/// The backup directory: the setting's value, or the default when it is
/// absent or empty.
pub fn read_backup_dir(value: Option<String>) -> (r: String)
    ensures
        r@ == match value {
            Some(v) => if v@.len() > 0 { v@ } else { default_backup_dir() },
            None => default_backup_dir(),
        },
{
    match value {
        Some(v) => {
            if v.unicode_len() > 0 {
                return v;
            }
            String::from_str("/run/media/zxp/Backup/Linux/ZST")
        },
        None => String::from_str("/run/media/zxp/Backup/Linux/ZST"),
    }
}

/// The tables whose columns may be listed.
pub open spec fn listable_tables() -> Seq<Seq<char>> {
    seq!["software_info"@, "aur_info"@, "upstream_info"@, "proxies_info"@, "backup_software"@, "cache_software"@, "settings"@, "enum_licenses"@, "enum_programming_languages"@, "proxies_test"@    ]
}

/// Listing a table's columns is allowed only for the known tables; any
/// other name is refused with a `DatabaseError`, so that no name reaches
/// the SQL text unchecked.
pub fn check_listable_table(table_name: &str) -> (r: Result<(), AppError>)
    ensures
        listable_tables().contains(table_name@) ==> r is Ok,
        !listable_tables().contains(table_name@) ==> (r matches Err(e)
            && e@ == (AppErrorKind::DatabaseError, "不允许查询表 '"@ + table_name@ + "' 的列信息"@)),
{
    let t = String::from_str(table_name);
    if t == String::from_str("software_info") {
        assert(listable_tables()[0] == table_name@);
        return Ok(());
    }
    if t == String::from_str("aur_info") {
        assert(listable_tables()[1] == table_name@);
        return Ok(());
    }
    if t == String::from_str("upstream_info") {
        assert(listable_tables()[2] == table_name@);
        return Ok(());
    }
    if t == String::from_str("proxies_info") {
        assert(listable_tables()[3] == table_name@);
        return Ok(());
    }
    if t == String::from_str("backup_software") {
        assert(listable_tables()[4] == table_name@);
        return Ok(());
    }
    if t == String::from_str("cache_software") {
        assert(listable_tables()[5] == table_name@);
        return Ok(());
    }
    if t == String::from_str("settings") {
        assert(listable_tables()[6] == table_name@);
        return Ok(());
    }
    if t == String::from_str("enum_licenses") {
        assert(listable_tables()[7] == table_name@);
        return Ok(());
    }
    if t == String::from_str("enum_programming_languages") {
        assert(listable_tables()[8] == table_name@);
        return Ok(());
    }
    if t == String::from_str("proxies_test") {
        assert(listable_tables()[9] == table_name@);
        return Ok(());
    }
    proof {
        if listable_tables().contains(table_name@) {
            let k = choose|k: int| 0 <= k < listable_tables().len() && listable_tables()[k] == table_name@;
            assert(false);
        }
    }
    let mut m = concat("不允许查询表 '", table_name);
    m.append("' 的列信息");
    Err(AppError::DatabaseError(m))
}

/// The counts shown on the dashboard.
#[derive(Debug, Clone, Copy)]
pub struct DashboardStats {
    pub pkg_total: i64,
    pub pkg_updated: i64,
    pub pkg_outdated: i64,
    pub backup_total: i64,
    pub cache_total: i64,
    pub proxy_total: i64,
    pub proxy_active: i64,
    pub license_total: i64,
    pub language_total: i64,
}

/// The dashboard counts from the table counts: packages (all, outdated),
/// backups, cached packages, proxies (all, active), licenses, languages.
/// Up-to-date packages are those not outdated.
pub fn dashboard_stats(
    pkg_total: i64,
    pkg_outdated: i64,
    backup_total: i64,
    cache_total: i64,
    proxy_total: i64,
    proxy_active: i64,
    license_total: i64,
    language_total: i64,
) -> (r: DashboardStats)
    requires
        i64::MIN <= pkg_total - pkg_outdated <= i64::MAX,
    ensures
        r.pkg_total == pkg_total,
        r.pkg_updated == pkg_total - pkg_outdated,
        r.pkg_outdated == pkg_outdated,
        r.backup_total == backup_total,
        r.cache_total == cache_total,
        r.proxy_total == proxy_total,
        r.proxy_active == proxy_active,
        r.license_total == license_total,
        r.language_total == language_total,
{
    DashboardStats {
        pkg_total,
        pkg_updated: pkg_total - pkg_outdated,
        pkg_outdated,
        backup_total,
        cache_total,
        proxy_total,
        proxy_active,
        license_total,
        language_total,
    }
}

} // verus!
