use aur_helper::error::AppError;
use aur_helper::pkgfile::{
    check_package_path_syntax, entry_pkgname, extract_pkgname, finish_package_path_check,
    has_pkg_extension, path_starts_with,
};

fn message(e: &AppError) -> String {
    match e {
        AppError::InvalidInput(m) => m.clone(),
        other => panic!("unexpected error {:?}", other),
    }
}

#[test]
fn validate_rejects_relative_path() {
    let result = check_package_path_syntax("relative/path.pkg.tar.zst");
    assert!(result.is_err(), "应拒绝相对路径");
}

#[test]
fn relative_path_error_names_the_path() {
    let e = check_package_path_syntax("relative/path.pkg.tar.zst").unwrap_err();
    assert_eq!(message(&e), "路径必须是绝对路径: relative/path.pkg.tar.zst");
}

#[test]
fn non_package_extension_is_refused() {
    let e = check_package_path_syntax("/tmp/bk_install_test_ext/evil.sh").unwrap_err();
    assert_eq!(message(&e), "仅允许操作 pacman 包文件: /tmp/bk_install_test_ext/evil.sh");
}

#[test]
fn package_extensions_are_accepted() {
    for p in [
        "/a/x.pkg.tar.zst",
        "/a/x.pkg.tar.xz",
        "/a/x.pkg.tar",
        "/a/x.tar.zst",
        "/a/x.tar.xz",
    ] {
        assert!(has_pkg_extension(p), "{}", p);
        assert!(check_package_path_syntax(p).is_ok(), "{}", p);
    }
    assert!(!has_pkg_extension("/a/x.zip"));
}

#[test]
fn package_inside_root_is_accepted() {
    let roots = vec!["/tmp/bk_install_test_root".to_string()];
    let canon = "/tmp/bk_install_test_root/foo-1.0.0-1-x86_64.pkg.tar.zst".to_string();
    let r = finish_package_path_check(&canon, Ok(canon.clone()), true, &roots);
    assert_eq!(r.unwrap(), canon);
}

#[test]
fn package_outside_root_is_refused() {
    let roots = vec!["/tmp/bk_install_test_root_only".to_string()];
    let p = "/tmp/bk_install_test_outside.pkg.tar.zst";
    let e = finish_package_path_check(p, Ok(p.to_string()), true, &roots).unwrap_err();
    assert_eq!(message(&e), "路径不在允许的备份目录内: /tmp/bk_install_test_outside.pkg.tar.zst");
}

#[test]
fn unreadable_or_irregular_path_is_refused() {
    let roots = vec!["/tmp".to_string()];
    let p = "/tmp/x.pkg.tar.zst";
    let e = finish_package_path_check(p, Err("No such file".to_string()), true, &roots).unwrap_err();
    assert_eq!(message(&e), "无法访问路径 /tmp/x.pkg.tar.zst: No such file");
    let e = finish_package_path_check(p, Ok(p.to_string()), false, &roots).unwrap_err();
    assert_eq!(message(&e), "路径不是普通文件: /tmp/x.pkg.tar.zst");
}

#[test]
fn prefix_is_by_components() {
    assert!(path_starts_with("/var/cache/pacman/pkg/a.pkg.tar.zst", "/var/cache/pacman/pkg"));
    assert!(path_starts_with("/var/cache/pacman/pkg/a.pkg.tar.zst", "/var/cache/pacman/pkg/"));
    assert!(path_starts_with("/var/cache/pacman/pkg/a", "/var//cache/./pacman/pkg"));
    assert!(!path_starts_with("/var/cache/pacman/pkgx/a", "/var/cache/pacman/pkg"));
    assert!(!path_starts_with("/etc/passwd", "/var/cache/pacman/pkg"));
    assert!(!path_starts_with("var/cache", "/var"));
    assert!(path_starts_with("/anything", "/"));
    assert!(path_starts_with("./a/b", "."));
    assert!(!path_starts_with("/a/../b", "/b"));
}

#[test]
fn pkgname_from_file_name() {
    assert_eq!(extract_pkgname("baz-git-r100.abcdef-1-any.pkg.tar.zst"), "baz-git");
    assert_eq!(extract_pkgname("bar-2.0.0-1-x86_64.pkg.tar.zst"), "bar");
    assert_eq!(extract_pkgname("foo-bin-1.0.0-1-x86_64.pkg.tar.zst"), "foo-bin");
    assert_eq!(extract_pkgname("qux"), "qux");
    assert_eq!(extract_pkgname("a-b"), "a-b");
    assert_eq!(extract_pkgname("a-1-x86_64"), "a");
    assert_eq!(extract_pkgname("plain-1.0-1-x86_64.pkg.tar.xz"), "plain");
}

#[test]
fn entry_name_prefers_the_recorded_name() {
    assert_eq!(entry_pkgname("bar", "bar-2.0.0-1-x86_64.pkg.tar.zst"), "bar");
    assert_eq!(entry_pkgname("", "baz-git-r100.abcdef-1-any.pkg.tar.zst"), "baz-git");
}
