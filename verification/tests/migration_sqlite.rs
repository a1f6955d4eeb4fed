use aur_helper::migration::{
    backup_software_copy_sql, cache_software_copy_sql, proxies_info_copy_sql, upstream_info_copy_sql,
    upstream_info_needs_rebuild,
};
use aur_helper::pkgfile::entry_pkgname;
use aur_helper::records::package_file_like_pattern;
use rusqlite::Connection;

const CACHE_NEW_SCHEMA: &str = "CREATE TABLE cache_software_new (
    id              INTEGER PRIMARY KEY AUTOINCREMENT,
    name            TEXT NOT NULL DEFAULT '',
    filename        TEXT NOT NULL,
    epoch           INTEGER NOT NULL DEFAULT 0,
    pkgver          TEXT NOT NULL DEFAULT '',
    pkgrel          TEXT NOT NULL DEFAULT '1',
    arch            TEXT NOT NULL DEFAULT 'x86_64',
    cache_directory TEXT NOT NULL DEFAULT '',
    full_path       TEXT NOT NULL DEFAULT ''
);";

const BACKUP_NEW_SCHEMA: &str = "CREATE TABLE backup_software_new (
    id           INTEGER PRIMARY KEY AUTOINCREMENT,
    name         TEXT NOT NULL DEFAULT '',
    filename     TEXT NOT NULL,
    epoch        INTEGER NOT NULL DEFAULT 0,
    pkgver       TEXT NOT NULL DEFAULT '',
    pkgrel       TEXT NOT NULL DEFAULT '1',
    arch         TEXT NOT NULL DEFAULT 'x86_64',
    subdirectory TEXT,
    full_path    TEXT NOT NULL DEFAULT ''
);";

fn columns(conn: &Connection, table: &str) -> Vec<String> {
    let mut stmt = conn.prepare(&format!("PRAGMA table_info({table})")).unwrap();
    let cols: Vec<String> = stmt
        .query_map([], |row| row.get(1))
        .unwrap()
        .filter_map(|r| r.ok())
        .collect();
    cols
}

fn rebuild(conn: &Connection, table: &str, create_sql: &str, insert_sql: &str) {
    conn.execute_batch("PRAGMA foreign_keys=OFF;").unwrap();
    conn.execute_batch(create_sql).unwrap();
    conn.execute_batch(insert_sql).unwrap();
    conn.execute_batch(&format!("DROP TABLE {table};")).unwrap();
    conn.execute_batch(&format!("ALTER TABLE {table}_new RENAME TO {table};")).unwrap();
    conn.execute_batch("PRAGMA foreign_keys=ON;").unwrap();
}

fn migrate_cache(conn: &Connection) {
    let cols = columns(conn, "cache_software");
    let fk: i64 = conn
        .query_row("SELECT COUNT(*) FROM pragma_foreign_key_list('cache_software')", [], |row| row.get(0))
        .unwrap_or(0);
    if let Some(sql) = cache_software_copy_sql(&cols, fk) {
        rebuild(conn, "cache_software", CACHE_NEW_SCHEMA, &sql);
    }
}

fn migrate_backup(conn: &Connection) {
    let cols = columns(conn, "backup_software");
    if let Some(sql) = backup_software_copy_sql(&cols) {
        rebuild(conn, "backup_software", BACKUP_NEW_SCHEMA, &sql);
    }
}

#[test]
fn test_migrate_cache_software_from_old_schema() {
    let conn = Connection::open_in_memory().expect("创建内存数据库失败");
    conn.execute_batch(
        "CREATE TABLE cache_software (
            id              INTEGER PRIMARY KEY AUTOINCREMENT,
            software_id     INTEGER NOT NULL DEFAULT 0,
            filename        TEXT NOT NULL,
            name            TEXT NOT NULL DEFAULT '',
            epoch           INTEGER NOT NULL DEFAULT 0,
            version         TEXT NOT NULL DEFAULT '',
            pkgrel          TEXT NOT NULL DEFAULT '1',
            arch            TEXT NOT NULL DEFAULT 'x86_64',
            size            INTEGER NOT NULL DEFAULT 0,
            source_dir      TEXT,
            cache_directory TEXT NOT NULL DEFAULT '',
            created_at      TEXT NOT NULL DEFAULT (datetime('now')),
            updated_at      TEXT NOT NULL DEFAULT (datetime('now'))
        );
        INSERT INTO cache_software (software_id, filename, name, epoch, version, pkgrel, arch, size, source_dir, cache_directory)
        VALUES (0, 'foo-bin-1.0.0-1-x86_64.pkg.tar.zst', 'foo-bin', 0, '1.0.0', '1', 'x86_64', 2048, '系统缓存', '/var/cache/pacman/pkg');",
    )
    .unwrap();

    migrate_cache(&conn);

    let cols = columns(&conn, "cache_software");
    for col in ["software_id", "size", "source_dir", "created_at", "updated_at", "version"] {
        assert!(!cols.contains(&col.to_string()), "迁移后仍包含多余字段 {}", col);
    }
    assert!(cols.contains(&"name".to_string()), "迁移后缺少字段 name");
    assert!(cols.contains(&"pkgver".to_string()), "迁移后缺少字段 pkgver");

    let mut stmt = conn.prepare("SELECT name, pkgver, full_path FROM cache_software").unwrap();
    let entries: Vec<(String, String, String)> = stmt
        .query_map([], |row| Ok((row.get(0)?, row.get(1)?, row.get(2)?)))
        .unwrap()
        .map(|r| r.unwrap())
        .collect();
    assert_eq!(entries.len(), 1);
    let e = &entries[0];
    assert_eq!(e.0, "foo-bin");
    assert_eq!(e.1, "1.0.0");
    assert_eq!(e.2, "/var/cache/pacman/pkg/foo-bin-1.0.0-1-x86_64.pkg.tar.zst");

    // A table already in the current layout is left alone.
    assert!(cache_software_copy_sql(&columns(&conn, "cache_software"), 0).is_none());
}

#[test]
fn test_migrate_backup_software_from_old_schema() {
    let conn = Connection::open_in_memory().expect("创建内存数据库失败");
    conn.execute_batch(
        "CREATE TABLE backup_software (
            id           INTEGER PRIMARY KEY AUTOINCREMENT,
            filename     TEXT NOT NULL,
            epoch        INTEGER NOT NULL DEFAULT 0,
            pkgver       TEXT NOT NULL DEFAULT '',
            pkgrel       TEXT NOT NULL DEFAULT '1',
            arch         TEXT NOT NULL DEFAULT 'x86_64',
            subdirectory TEXT,
            full_path    TEXT NOT NULL DEFAULT '',
            created_at   TEXT NOT NULL DEFAULT (datetime('now')),
            updated_at   TEXT NOT NULL DEFAULT (datetime('now'))
        );
        INSERT INTO backup_software (filename, epoch, pkgver, pkgrel, arch, subdirectory, full_path, created_at, updated_at)
        VALUES ('foo-1.0.0-1-x86_64.pkg.tar.zst', 0, '1.0.0', '1', 'x86_64', 'sub', '/backup/sub/foo-1.0.0-1-x86_64.pkg.tar.zst', datetime('now'), datetime('now'));",
    )
    .unwrap();

    migrate_backup(&conn);

    let cols = columns(&conn, "backup_software");
    for col in ["created_at", "updated_at"] {
        assert!(!cols.contains(&col.to_string()), "迁移后仍包含多余字段 {}", col);
    }
    assert!(cols.contains(&"name".to_string()), "迁移后缺少字段 name");

    let mut stmt = conn.prepare("SELECT pkgver, full_path FROM backup_software").unwrap();
    let entries: Vec<(String, String)> = stmt
        .query_map([], |row| Ok((row.get(0)?, row.get(1)?)))
        .unwrap()
        .map(|r| r.unwrap())
        .collect();
    assert_eq!(entries.len(), 1);
    let e = &entries[0];
    assert_eq!(e.0, "1.0.0");
    assert_eq!(e.1, "/backup/sub/foo-1.0.0-1-x86_64.pkg.tar.zst");

    assert!(backup_software_copy_sql(&columns(&conn, "backup_software")).is_none());
}

#[test]
fn backup_paths_are_filled_from_subdirectory_and_filename() {
    let conn = Connection::open_in_memory().unwrap();
    conn.execute_batch(
        "CREATE TABLE backup_software (
            id           INTEGER PRIMARY KEY AUTOINCREMENT,
            software_id  INTEGER NOT NULL,
            filename     TEXT NOT NULL,
            epoch        INTEGER NOT NULL DEFAULT 0,
            pkgrel       TEXT NOT NULL DEFAULT '1',
            arch         TEXT NOT NULL DEFAULT 'x86_64',
            subdirectory TEXT
        );
        INSERT INTO backup_software (software_id, filename, subdirectory) VALUES (1, 'a-1-1-any.pkg.tar.zst', 'dir');
        INSERT INTO backup_software (software_id, filename, subdirectory) VALUES (2, 'b-1-1-any.pkg.tar.zst', NULL);",
    )
    .unwrap();
    migrate_backup(&conn);
    let mut stmt = conn.prepare("SELECT full_path FROM backup_software ORDER BY id").unwrap();
    let paths: Vec<String> = stmt.query_map([], |row| row.get(0)).unwrap().map(|r| r.unwrap()).collect();
    assert_eq!(paths, vec!["dir/a-1-1-any.pkg.tar.zst".to_string(), "b-1-1-any.pkg.tar.zst".to_string()]);
}

#[test]
fn test_cache_entries_page_load_data_source() {
    let conn = Connection::open_in_memory().unwrap();
    conn.execute_batch(&CACHE_NEW_SCHEMA.replace("cache_software_new", "cache_software")).unwrap();
    for (filename, name, pkgver, dir) in [
        ("bar-2.0.0-1-x86_64.pkg.tar.zst", "bar", "2.0.0", "/var/cache/pacman/pkg"),
        ("baz-git-r100.abcdef-1-any.pkg.tar.zst", "", "r100.abcdef", "/var/cache/pacman/pkg"),
    ] {
        conn.execute(
            "INSERT INTO cache_software (name, filename, epoch, pkgver, pkgrel, arch, cache_directory, full_path)
             VALUES (?1, ?2, 0, ?3, '1', 'x86_64', ?4, ?5)",
            &[
                &name as &dyn rusqlite::ToSql,
                &filename,
                &pkgver,
                &dir,
                &format!("{}/{}", dir, filename),
            ][..],
        )
        .unwrap();
    }
    let mut stmt = conn.prepare("SELECT name, filename, pkgver, full_path FROM cache_software").unwrap();
    let entries: Vec<(String, String, String)> = stmt
        .query_map([], |row| {
            let name: String = row.get(0)?;
            let filename: String = row.get(1)?;
            Ok((entry_pkgname(&name, &filename), row.get(2)?, row.get(3)?))
        })
        .unwrap()
        .map(|r| r.unwrap())
        .collect();
    assert_eq!(entries.len(), 2, "页面初始加载应返回全部存量数据");
    let bar = entries.iter().find(|e| e.0 == "bar").expect("缺少 bar 记录");
    assert_eq!(bar.1, "2.0.0");
    assert_eq!(bar.2, "/var/cache/pacman/pkg/bar-2.0.0-1-x86_64.pkg.tar.zst");
    assert!(entries.iter().any(|e| e.0 == "baz-git"), "应从文件名解析出包名 baz-git");
}

fn first_type(conn: &Connection, sql: &str) -> String {
    conn.query_row(sql, [], |row| row.get::<_, String>(0)).unwrap_or_default()
}

#[test]
fn upstream_rows_keep_licenses_as_json_and_times_as_seconds() {
    let conn = Connection::open_in_memory().unwrap();
    conn.execute_batch(
        "CREATE TABLE enum_licenses (id INTEGER PRIMARY KEY, spdx_id TEXT NOT NULL, full_name TEXT NOT NULL);
         INSERT INTO enum_licenses (id, spdx_id, full_name) VALUES (7, 'MIT', 'MIT License');
         CREATE TABLE upstream_info (
             software_id INTEGER PRIMARY KEY,
             upstream_url TEXT,
             upstream_version TEXT,
             upstream_license_id INTEGER,
             last_checked TEXT
         );
         INSERT INTO upstream_info VALUES (1, 'https://x', '1.2', 7, '2024-01-01 00:00:00');",
    )
    .unwrap();
    let cols = columns(&conn, "upstream_info");
    let license_type = first_type(
        &conn,
        "SELECT COALESCE((SELECT typeof(upstream_license_id) FROM upstream_info LIMIT 1), 'null')",
    );
    assert_eq!(license_type, "integer");
    assert!(upstream_info_needs_rebuild(&cols, &license_type));
    let time_type = first_type(
        &conn,
        "SELECT COALESCE((SELECT typeof(\"last_checked\") FROM upstream_info LIMIT 1), 'null')",
    );
    let sql = upstream_info_copy_sql(&cols, &license_type, &time_type);
    rebuild(
        &conn,
        "upstream_info",
        "CREATE TABLE upstream_info_new (
            software_id        INTEGER PRIMARY KEY,
            upstream_version   TEXT,
            upstream_license_id TEXT,
            last_checked       INTEGER
        );",
        &sql,
    );
    let row: (String, String, i64) = conn
        .query_row(
            "SELECT upstream_version, upstream_license_id, last_checked FROM upstream_info WHERE software_id = 1",
            [],
            |r| Ok((r.get(0)?, r.get(1)?, r.get(2)?)),
        )
        .unwrap();
    assert_eq!(row, ("1.2".to_string(), "[\"MIT\"]".to_string(), 1704067200));
    assert!(!columns(&conn, "upstream_info").contains(&"upstream_url".to_string()));
}

#[test]
fn proxies_gain_the_protocol_flag_with_defaults() {
    let conn = Connection::open_in_memory().unwrap();
    conn.execute_batch(
        "CREATE TABLE proxies_info (proxy_id INTEGER PRIMARY KEY, proxy_name TEXT, url TEXT);
         INSERT INTO proxies_info VALUES (3, 'mirror', 'https://mirror.example/');",
    )
    .unwrap();
    let sql = proxies_info_copy_sql(&columns(&conn, "proxies_info")).expect("needs rebuild");
    rebuild(
        &conn,
        "proxies_info",
        "CREATE TABLE proxies_info_new (
            proxy_id    INTEGER PRIMARY KEY AUTOINCREMENT,
            proxy_name  TEXT NOT NULL,
            proxy_type  TEXT NOT NULL DEFAULT 'download',
            url         TEXT NOT NULL UNIQUE,
            is_active   INTEGER NOT NULL DEFAULT 1,
            strip_target_protocol INTEGER NOT NULL DEFAULT 0
        );",
        &sql,
    );
    let row: (i64, String, String, String, i64, i64) = conn
        .query_row(
            "SELECT proxy_id, proxy_name, proxy_type, url, is_active, strip_target_protocol FROM proxies_info",
            [],
            |r| Ok((r.get(0)?, r.get(1)?, r.get(2)?, r.get(3)?, r.get(4)?, r.get(5)?)),
        )
        .unwrap();
    assert_eq!(
        row,
        (3, "mirror".to_string(), "download".to_string(), "https://mirror.example/".to_string(), 1, 0)
    );
    assert!(proxies_info_copy_sql(&columns(&conn, "proxies_info")).is_none());
}

#[test]
fn backup_entries_are_found_by_file_name_prefix() {
    let conn = Connection::open_in_memory().unwrap();
    conn.execute_batch(&BACKUP_NEW_SCHEMA.replace("backup_software_new", "backup_software")).unwrap();
    conn.execute_batch(
        "INSERT INTO backup_software (filename, pkgver, full_path)
         VALUES ('foo-1.0.0-1-x86_64.pkg.tar.zst', '1.0.0', '/b/foo-1.0.0-1-x86_64.pkg.tar.zst');
         INSERT INTO backup_software (filename, pkgver, full_path)
         VALUES ('bar-2-1-any.pkg.tar.zst', '2', '/b/bar-2-1-any.pkg.tar.zst');",
    )
    .unwrap();
    let pattern = package_file_like_pattern("foo");
    let mut stmt = conn
        .prepare("SELECT name, filename FROM backup_software WHERE name = ?1 OR filename LIKE ?2 ORDER BY filename")
        .unwrap();
    let found: Vec<String> = stmt
        .query_map(&[&"foo" as &dyn rusqlite::ToSql, &pattern][..], |row| {
            let name: String = row.get(0)?;
            let filename: String = row.get(1)?;
            Ok(entry_pkgname(&name, &filename))
        })
        .unwrap()
        .map(|r| r.unwrap())
        .collect();
    assert_eq!(found, vec!["foo".to_string()]);
}
