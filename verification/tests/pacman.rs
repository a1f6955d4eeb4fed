use aur_helper::error::AppError;
use aur_helper::pacman::{
    backup_allowed_roots, install_outcome, package_info_outcome, system_cache_cleanup_outcome,
};
use aur_helper::upstream::single_check_version;

#[test]
fn install_answers() {
    assert_eq!(install_outcome(true, "ok".into(), "".into()).unwrap(), "ok");
    match install_outcome(false, "".into(), "error: conflict".into()) {
        Err(AppError::SystemCommand(m)) => assert_eq!(m, "安装失败:\nerror: conflict"),
        other => panic!("{:?}", other),
    }
    assert_eq!(package_info_outcome(true, "Name : foo".into(), "").unwrap(), "Name : foo");
    match package_info_outcome(false, "".into(), "  not a package \n") {
        Err(AppError::SystemCommand(m)) => assert_eq!(m, "pacman -Qip 失败: not a package"),
        other => panic!("{:?}", other),
    }
}

#[test]
fn cache_cleanup_answers() {
    assert_eq!(system_cache_cleanup_outcome(false, false, "").unwrap(), "系统缓存目录不存在，跳过清理");
    assert_eq!(system_cache_cleanup_outcome(true, true, "").unwrap(), "系统缓存清理完成");
    match system_cache_cleanup_outcome(true, false, "denied\n") {
        Err(AppError::SystemCommand(m)) => assert_eq!(m, "清理系统缓存失败: denied"),
        other => panic!("{:?}", other),
    }
}

#[test]
fn install_roots() {
    assert_eq!(
        backup_allowed_roots("/b".into()),
        vec!["/b".to_string(), "/var/cache/pacman/pkg".to_string()]
    );
}

#[test]
fn single_check_answer() {
    let a = |v: &str| vec![("foo".to_string(), v.to_string())];
    assert_eq!(single_check_version("foo", &a("1.2")).unwrap(), "1.2");
    for bad in [a(""), a("manual"), vec![]] {
        match single_check_version("foo", &bad) {
            Err(AppError::VersionCheckError(m)) => assert_eq!(m, "无法确定 foo 的上游版本"),
            other => panic!("{:?}", other),
        }
    }
}
