use aur_helper::migration::{
    aur_info_migration, backup_software_copy_sql, cache_software_copy_sql, drop_aur_column_sql,
    language_column_needs_rebuild, languages_migration, licenses_need_rebuild,
    proxies_info_copy_sql, proxies_test_copy_sql, software_info_migration,
    upstream_info_copy_sql, upstream_info_needs_rebuild, upstream_license_needs_migration,
    user_cache_dir_paths, LanguagesMigration,
};

fn cols(v: &[&str]) -> Vec<String> {
    v.iter().map(|s| s.to_string()).collect()
}

#[test]
fn aur_info_upgrade() {
    let (drops, dates) = aur_info_migration(&cols(&["software_id", "votes", "provides", "last_updated", "maintainers"]));
    assert_eq!(drops, cols(&["provides", "votes", "maintainers"]));
    assert!(dates);
    let (drops, dates) = aur_info_migration(&cols(&["software_id"]));
    assert!(drops.is_empty() && !dates);
    assert_eq!(drop_aur_column_sql("votes"), "ALTER TABLE aur_info DROP COLUMN votes;");
}

#[test]
fn software_info_upgrade() {
    let m = software_info_migration(&cols(&["package_type", "checker_type", "checker_type_id", "created_at", "license_id"]));
    assert!(m.rename_package_type && !m.rename_checker_type && m.drop_created_at);
    assert!(m.add_version_regex && m.remove_license_id);
    let m = software_info_migration(&cols(&["package_type_id", "version_extract_regex"]));
    assert!(!m.rename_package_type && !m.drop_created_at && !m.add_version_regex && !m.remove_license_id);
    assert!(language_column_needs_rebuild(Some("INTEGER")));
    assert!(!language_column_needs_rebuild(Some("TEXT")));
    assert!(!language_column_needs_rebuild(None));
}

#[test]
fn enum_table_upgrades() {
    assert_eq!(languages_migration(&cols(&["id", "name", "short_name"])), LanguagesMigration::Nothing);
    assert_eq!(languages_migration(&cols(&["id", "name"])), LanguagesMigration::AddShortName);
    assert_eq!(
        languages_migration(&cols(&["id", "name", "description"])),
        LanguagesMigration::Rebuild { copy_short_name: false }
    );
    assert_eq!(
        languages_migration(&cols(&["id", "name", "short_name", "build_system"])),
        LanguagesMigration::Rebuild { copy_short_name: true }
    );
    assert!(licenses_need_rebuild(&cols(&["id", "spdx_id", "full_name", "url"])));
    assert!(!licenses_need_rebuild(&cols(&["id", "spdx_id", "full_name"])));
}

#[test]
fn upstream_info_upgrade() {
    assert!(upstream_license_needs_migration("integer"));
    assert!(upstream_license_needs_migration("null"));
    assert!(!upstream_license_needs_migration("text"));
    let current = cols(&["software_id", "upstream_version", "upstream_license_id", "last_checked"]);
    assert!(!upstream_info_needs_rebuild(&current, "text"));
    assert!(upstream_info_needs_rebuild(&current, "integer"));
    assert!(upstream_info_needs_rebuild(&cols(&["upstream_url", "upstream_license_id"]), "text"));
    let license_sql = "CASE WHEN upstream_license_id IS NOT NULL THEN \n                (SELECT '[' || json_quote(spdx_id) || ']' FROM enum_licenses WHERE id = upstream_license_id)\n             ELSE NULL END";
    let time_sql = "CAST(strftime('%s', last_checked) AS INTEGER)";
    assert_eq!(
        upstream_info_copy_sql(&current, "integer", "text"),
        format!("INSERT INTO upstream_info_new (software_id, upstream_version, upstream_license_id, last_checked)\n             SELECT software_id, upstream_version, {license_sql}, {time_sql}\n             FROM upstream_info;")
    );
    assert_eq!(
        upstream_info_copy_sql(&cols(&["upstream_license"]), "text", "integer"),
        "INSERT INTO upstream_info_new (software_id, upstream_version, upstream_license_id, last_checked)\n             SELECT software_id, upstream_version, CASE WHEN typeof(upstream_license) = 'integer' THEN CAST(upstream_license AS INTEGER) ELSE NULL END, NULL\n             FROM upstream_info;"
    );
    assert_eq!(
        upstream_info_copy_sql(&current, "text", "integer"),
        "INSERT INTO upstream_info_new (software_id, upstream_version, upstream_license_id, last_checked)\n             SELECT software_id, upstream_version, upstream_license_id, last_checked\n             FROM upstream_info;"
    );
}

#[test]
fn backup_and_cache_copies() {
    assert_eq!(backup_software_copy_sql(&cols(&["id", "name", "filename", "pkgver", "full_path"])), None);
    let sql = backup_software_copy_sql(&cols(&["id", "software_id", "filename", "epoch", "pkgrel", "arch", "subdirectory", "created_at"])).unwrap();
    let subdir = "subdirectory";
    let fp = format!("CASE WHEN {subdir} IS NOT NULL AND {subdir} != '' THEN {subdir} || '/' || filename ELSE filename END");
    assert_eq!(
        sql,
        format!("INSERT INTO backup_software_new (id, name, filename, epoch, pkgver, pkgrel, arch, subdirectory, full_path)\n             SELECT id, '', filename, epoch, '', pkgrel, arch, {subdir}, {fp} FROM backup_software;")
    );
    assert_eq!(cache_software_copy_sql(&cols(&["name", "pkgver", "full_path"]), 0), None);
    let sql = cache_software_copy_sql(&cols(&["name", "pkgver", "full_path"]), 1).unwrap();
    assert_eq!(
        sql,
        "INSERT INTO cache_software_new (id, name, filename, epoch, pkgver, pkgrel, arch, cache_directory, full_path)\n             SELECT id, name, filename, epoch, pkgver, pkgrel, arch, cache_directory, full_path\n             FROM cache_software;"
    );
    let sql = cache_software_copy_sql(&cols(&["version", "size"]), 0).unwrap();
    assert_eq!(
        sql,
        "INSERT INTO cache_software_new (id, name, filename, epoch, pkgver, pkgrel, arch, cache_directory, full_path)\n             SELECT id, '', filename, epoch, version, pkgrel, arch, cache_directory, CASE WHEN cache_directory != '' THEN cache_directory || '/' || filename ELSE filename END\n             FROM cache_software;"
    );
}

#[test]
fn proxy_table_copies() {
    assert_eq!(proxies_info_copy_sql(&cols(&["proxy_name", "proxy_type", "url", "is_active", "strip_target_protocol"])), None);
    assert_eq!(
        proxies_info_copy_sql(&cols(&["proxy_id", "proxy_name", "url"])).unwrap(),
        "INSERT INTO proxies_info_new (proxy_id, proxy_name, proxy_type, url, is_active, strip_target_protocol)\n             SELECT proxy_id, proxy_name, 'download', url, 1, 0\n             FROM proxies_info;"
    );
    assert_eq!(
        proxies_test_copy_sql(&cols(&["id", "proxy_id", "avg_latency"])).unwrap(),
        "INSERT INTO proxies_test_new (id, proxy_id, test_time, avg_latency, success_count, fail_count, last_test_status)\n             SELECT id, proxy_id, datetime('now'), avg_latency, 0, 0, CASE WHEN avg_latency IS NOT NULL THEN 'success' ELSE 'fail' END\n             FROM proxies_test;"
    );
}

#[test]
fn user_cache_paths() {
    assert_eq!(
        user_cache_dir_paths(Some("zxp".into())),
        Some(("/home/zxp/.cache/paru/clone".to_string(), "/home/zxp/.config/yay".to_string()))
    );
    assert_eq!(user_cache_dir_paths(Some(String::new())), None);
    assert_eq!(user_cache_dir_paths(None), None);
}
