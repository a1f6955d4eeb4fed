use aur_helper::sudoers::{
    backup_sudoers_command, build_pacman_install_rules, cache_cleanup_sudoers_command,
    cache_install_dirs, cache_install_sudoers_command, check_cache_cleanup_rule,
    check_cache_install_rules, custom_cache_cleanup_message, custom_cache_dirs_to_clean,
    has_pacman_install_rule, join_install_rules,
};

fn strings(v: &[&str]) -> Vec<String> {
    v.iter().map(|s| s.to_string()).collect()
}

#[test]
fn install_rules_cover_three_levels() {
    assert_eq!(
        build_pacman_install_rules("/backup/zst/"),
        "/usr/bin/pacman -U --noconfirm /backup/zst/*, /usr/bin/pacman -U --noconfirm /backup/zst/*/*, /usr/bin/pacman -U --noconfirm /backup/zst/*/*/*"
    );
    assert_eq!(
        build_pacman_install_rules("/a//"),
        build_pacman_install_rules("/a")
    );
}

#[test]
fn generated_rule_is_recognized() {
    let line = format!("alice ALL=(ALL) NOPASSWD: {}\n", build_pacman_install_rules("/backup/zst"));
    assert!(has_pacman_install_rule(&line, "alice", "/backup/zst"));
    assert!(has_pacman_install_rule(&line, "alice", "/backup/zst/"));
    assert!(!has_pacman_install_rule(&line, "bob", "/backup/zst"));
    assert!(!has_pacman_install_rule(&line, "alice", "/other"));
}

#[test]
fn rule_must_be_on_a_line_of_the_user_and_password_less() {
    let content = "# alice ALL=(ALL) NOPASSWD: /usr/bin/pacman -U --noconfirm /b/*\n\
                   alice ALL=(ALL) /usr/bin/pacman -U --noconfirm /b/*\n";
    assert!(!has_pacman_install_rule(content, "alice", "/b"));
    let content = "bob ALL=(ALL) NOPASSWD: x\n   alice ALL=(ALL) NOPASSWD: /usr/bin/pacman -U --noconfirm /b/*  \r\n";
    assert!(has_pacman_install_rule(content, "alice", "/b"));
    assert!(!has_pacman_install_rule("", "alice", "/b"));
    let no_glob = "alice ALL=(ALL) NOPASSWD: /usr/bin/pacman -U --noconfirm /b\n";
    assert!(!has_pacman_install_rule(no_glob, "alice", "/b"));
}

#[test]
fn backup_command_writes_the_rule() {
    assert_eq!(
        backup_sudoers_command("alice", "/b"),
        "echo \"alice ALL=(ALL) NOPASSWD: /usr/bin/pacman -U --noconfirm /b/*, /usr/bin/pacman -U --noconfirm /b/*/*, /usr/bin/pacman -U --noconfirm /b/*/*/*\" | sudo tee /etc/sudoers.d/aur-helper-backup"
    );
}

#[test]
fn system_cache_is_added_once() {
    assert_eq!(
        cache_install_dirs(strings(&["/home/a/.cache/paru/clone"])),
        strings(&["/home/a/.cache/paru/clone", "/var/cache/pacman/pkg"])
    );
    assert_eq!(
        cache_install_dirs(strings(&["/var/cache/pacman/pkg", "/x"])),
        strings(&["/var/cache/pacman/pkg", "/x"])
    );
    assert_eq!(cache_install_dirs(vec![]), strings(&["/var/cache/pacman/pkg"]));
}

#[test]
fn joined_rules_and_install_commands() {
    let dirs = strings(&["/a", "/b"]);
    let rule = join_install_rules(&dirs);
    assert_eq!(
        rule,
        format!("{}, {}", build_pacman_install_rules("/a"), build_pacman_install_rules("/b"))
    );
    assert_eq!(join_install_rules(&vec![]), "");
    assert_eq!(
        cache_install_sudoers_command("u", &dirs, None),
        format!("echo \"u ALL=(ALL) NOPASSWD: {}\" | sudo tee /etc/sudoers.d/aur-helper-backup", rule)
    );
    assert_eq!(
        cache_install_sudoers_command("u", &dirs, Some("")),
        format!("echo \"u ALL=(ALL) NOPASSWD: {}\" | sudo tee -a /etc/sudoers.d/aur-helper-backup", rule)
    );
    let existing = format!("u ALL=(ALL) NOPASSWD: {}\n", rule);
    assert_eq!(
        cache_install_sudoers_command("u", &dirs, Some(&existing)),
        "sudoers 配置已包含缓存安装规则，无需重复配置"
    );
    assert!(check_cache_install_rules(Some(&existing), "u", &dirs));
    assert!(!check_cache_install_rules(None, "u", &dirs));
    assert!(!check_cache_install_rules(Some(""), "u", &dirs));
    let only_a = format!("u ALL=(ALL) NOPASSWD: {}\n", build_pacman_install_rules("/a"));
    assert!(!check_cache_install_rules(Some(&only_a), "u", &dirs));
}

#[test]
fn a_rule_for_a_longer_directory_name_is_no_rule() {
    let content = "alice ALL=(ALL) NOPASSWD: /usr/bin/pacman -U --noconfirm /data2/*";
    assert!(!has_pacman_install_rule(content, "alice", "/data"));
    assert!(has_pacman_install_rule(content, "alice", "/data2"));
    let generated = format!("alice ALL=(ALL) NOPASSWD: {}", build_pacman_install_rules("/data"));
    assert!(has_pacman_install_rule(&generated, "alice", "/data"));
    assert!(has_pacman_install_rule(&generated, "alice", "/data/"));
    assert!(!has_pacman_install_rule(&generated, "bob", "/data"));
}

#[test]
fn cleanup_rule_check_and_commands() {
    let user_line = "u ALL=(ALL) NOPASSWD: /usr/bin/rm -rf /var/cache/pacman/pkg/*\n";
    assert!(check_cache_cleanup_rule(Some(user_line), "u"));
    assert!(!check_cache_cleanup_rule(Some(user_line), "v"));
    assert!(!check_cache_cleanup_rule(Some("u ALL=(ALL) NOPASSWD: /bin/true\n"), "u"));
    assert!(!check_cache_cleanup_rule(None, "u"));
    assert_eq!(
        cache_cleanup_sudoers_command("u", None),
        "echo \"u ALL=(ALL) NOPASSWD: /usr/bin/pacman -U *, /usr/bin/rm -rf /var/cache/pacman/pkg/*\" | sudo tee /etc/sudoers.d/aur-helper-backup"
    );
    assert_eq!(
        cache_cleanup_sudoers_command("u", Some("other\n")),
        "echo \"u ALL=(ALL) NOPASSWD: /usr/bin/rm -rf /var/cache/pacman/pkg/*\" | sudo tee -a /etc/sudoers.d/aur-helper-backup"
    );
    assert_eq!(
        cache_cleanup_sudoers_command("u", Some(user_line)),
        "sudoers 配置已包含缓存清理规则，无需重复配置"
    );
}

#[test]
fn cleanup_setup_is_recognized_after_writing() {
    // new file
    let cmd = cache_cleanup_sudoers_command("u", None);
    let payload = cmd.split('"').nth(1).unwrap();
    assert!(check_cache_cleanup_rule(Some(&format!("{}\n", payload)), "u"));
    // appended to a file without the rule
    let old = "u ALL=(ALL) NOPASSWD: /usr/bin/pacman -U --noconfirm /b/*\n";
    let cmd = cache_cleanup_sudoers_command("u", Some(old));
    let payload = cmd.split('"').nth(1).unwrap();
    assert!(check_cache_cleanup_rule(Some(&format!("{}{}\n", old, payload)), "u"));
}

#[test]
fn custom_cleanup_skips_the_system_cache() {
    let paths = strings(&["/var/cache/pacman/pkg", "/a", "/b", "/var/cache/pacman/pkg"]);
    assert_eq!(custom_cache_dirs_to_clean(&paths), strings(&["/a", "/b"]));
}

#[test]
fn cleanup_messages() {
    assert_eq!(custom_cache_cleanup_message(12, 0), "自定义缓存目录清理完成，共删除 12 个条目");
    assert_eq!(custom_cache_cleanup_message(3, 2), "自定义缓存目录清理完成，删除 3 个条目，2 个错误");
}
