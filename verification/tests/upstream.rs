use std::collections::HashMap;

use aur_helper::batch::{PackageTask, UpstreamCheckResult};
use aur_helper::error::AppError;
use aur_helper::models::{CheckerType, PackageType, UpstreamUrlStatus, VersionComparison};
use aur_helper::upstream::{
    assess_outdated, compare_and_update, comparison_pairs, entries_to_validate, is_outdated,
    plan_full_writes, plan_selected_writes, reported_versions, require_aur_version,
    require_upstream_version, status_from_code, tasks_with_aur_version, status_from_error_text, strip_v_prefix,
    upstream_record, UpstreamWriteStep, UrlEntry,
};

fn result(name: &str, id: i64, version: &str) -> UpstreamCheckResult {
    UpstreamCheckResult {
        pkgname: name.to_string(),
        software_id: id,
        upstream_version: version.to_string(),
        is_outdated: false,
        license_spdx_id: Some("MIT".to_string()),
        language_names: vec!["Rust".to_string()],
    }
}

#[test]
fn stored_versions_lose_one_v() {
    assert_eq!(strip_v_prefix("v1.2.3"), "1.2.3");
    assert_eq!(strip_v_prefix("vv1"), "v1");
    assert_eq!(strip_v_prefix("1.0"), "1.0");
    assert_eq!(strip_v_prefix(""), "");
}

#[test]
fn outdated_when_aur_is_older_or_unknown() {
    assert!(is_outdated(Some(VersionComparison::LessThan)));
    assert!(!is_outdated(Some(VersionComparison::Equal)));
    assert!(!is_outdated(Some(VersionComparison::GreaterThan)));
    assert!(is_outdated(None));
}

#[test]
fn single_package_record() {
    let rec = compare_and_update(7, "v2.0", Some(VersionComparison::LessThan), Some("MIT"), vec![1, 2], Some(&vec![]), 1700);
    assert_eq!(rec.software_id, 7);
    assert!(rec.is_outdated);
    assert_eq!(rec.languages, Some(vec![1, 2]));
    assert_eq!(rec.info.upstream_version.as_deref(), Some("2.0"));
    assert_eq!(rec.info.upstream_license_id.as_deref(), Some("MIT"));
    assert_eq!(rec.info.last_checked, Some(1700));
    assert!(rec.info.upstream_url_status.is_none());
    assert!(rec.info.last_check_error.is_none());
    let rec = compare_and_update(7, "2.0", Some(VersionComparison::Equal), None, vec![1], Some(&vec![5]), 1);
    assert!(!rec.is_outdated);
    assert!(rec.languages.is_none());
    let rec = compare_and_update(7, "2.0", None, None, vec![1], None, 1);
    assert!(rec.is_outdated);
    assert!(rec.languages.is_none());
    let rec = upstream_record(1, "x".into(), false, None, vec![], true, 0);
    assert!(rec.languages.is_none());
}

#[test]
fn outdated_flags_of_a_batch() {
    let mut aur = HashMap::new();
    aur.insert(1i64, "1.0".to_string());
    aur.insert(2i64, String::new());
    let checked = vec![result("a", 1, "1.1"), result("b", 2, "3"), result("c", 3, "4"), result("d", 1, "")];
    let pairs = comparison_pairs(&checked, &aur);
    assert_eq!(pairs[0], Some(("1.0".to_string(), "1.1".to_string())));
    assert_eq!(pairs[1], None);
    assert_eq!(pairs[2], None);
    assert_eq!(pairs[3], None);
    let cmps = vec![Some(VersionComparison::LessThan), None, None, None];
    let assessed = assess_outdated(checked, &cmps);
    assert_eq!(assessed.iter().map(|r| r.is_outdated).collect::<Vec<_>>(), vec![true, true, true, false]);
    assert_eq!(assessed[3].pkgname, "d");
}

#[test]
fn writes_of_a_selected_check() {
    let results = vec![result("a", 1, "v1.1"), result("b", 2, "")];
    let mut ids = HashMap::new();
    ids.insert(1i64, vec![3i64]);
    let mut existing = HashMap::new();
    existing.insert(1i64, vec![]);
    let steps = plan_selected_writes(&results, &ids, &existing, 99);
    match &steps[0] {
        UpstreamWriteStep::Record(rec) => {
            assert_eq!(rec.info.upstream_version.as_deref(), Some("1.1"));
            assert_eq!(rec.languages, Some(vec![3]));
            assert_eq!(rec.info.last_checked, Some(99));
        }
        other => panic!("{:?}", other),
    }
    match &steps[1] {
        UpstreamWriteStep::NoVersion { software_id, check_error } => {
            assert_eq!(*software_id, 2);
            assert!(check_error.is_none());
        }
        other => panic!("{:?}", other),
    }
}

#[test]
fn writes_of_a_full_check() {
    let results = vec![result("a", 1, "1.1"), result("b", 2, "")];
    let steps = plan_full_writes(&results, &vec![vec![4], vec![]], &HashMap::new(), 5);
    match &steps[0] {
        UpstreamWriteStep::Record(rec) => assert!(rec.languages.is_none()),
        other => panic!("{:?}", other),
    }
    match &steps[1] {
        UpstreamWriteStep::NoVersion { check_error, .. } => {
            assert_eq!(check_error.as_deref(), Some("检查未返回上游版本"))
        }
        other => panic!("{:?}", other),
    }
}

#[test]
fn reported_answer_lists_versions_then_manual_packages() {
    let results = vec![result("a", 1, "v1.1"), result("b", 2, ""), result("c", 3, "2")];
    let r = reported_versions(&results, &vec!["m".to_string()]);
    assert_eq!(
        r,
        vec![
            ("a".to_string(), "v1.1".to_string()),
            ("c".to_string(), "2".to_string()),
            ("m".to_string(), "manual".to_string())
        ]
    );
}

#[test]
fn single_check_preconditions() {
    assert!(require_aur_version("foo", Some("1.0")).is_ok());
    match require_aur_version("foo", Some("")) {
        Err(AppError::VersionCheckError(m)) => assert_eq!(m, "请先获取 foo 的 AUR 信息"),
        other => panic!("{:?}", other),
    }
    assert!(require_aur_version("foo", None).is_err());
    assert_eq!(require_upstream_version("foo", Some("1.2".into())).unwrap(), "1.2");
    match require_upstream_version("foo", None) {
        Err(AppError::VersionCheckError(m)) => assert_eq!(m, "无法确定 foo 的上游版本"),
        other => panic!("{:?}", other),
    }
}

#[test]
fn url_status_from_answer() {
    assert_eq!(status_from_code(200), UpstreamUrlStatus::Reachable);
    assert_eq!(status_from_code(404), UpstreamUrlStatus::NotFound);
    assert_eq!(status_from_code(401), UpstreamUrlStatus::Forbidden);
    assert_eq!(status_from_code(403), UpstreamUrlStatus::Forbidden);
    assert_eq!(status_from_code(301), UpstreamUrlStatus::Redirected);
    assert_eq!(status_from_code(399), UpstreamUrlStatus::Redirected);
    assert_eq!(status_from_code(500), UpstreamUrlStatus::ServerError);
    assert_eq!(status_from_code(204), UpstreamUrlStatus::OtherError);
    assert_eq!(status_from_code(418), UpstreamUrlStatus::OtherError);
    assert_eq!(status_from_error_text("operation timeout"), UpstreamUrlStatus::Timeout);
    assert_eq!(status_from_error_text("error trying to connect"), UpstreamUrlStatus::ConnectionError);
    assert_eq!(status_from_error_text("dns error"), UpstreamUrlStatus::ConnectionError);
    assert_eq!(status_from_error_text("builder error"), UpstreamUrlStatus::OtherError);
}

#[test]
fn entries_chosen_for_validation() {
    let e = |id: i64, n: &str, u: Option<&str>| UrlEntry {
        software_id: id,
        pkgname: n.to_string(),
        upstream_url: u.map(String::from),
    };
    let entries = vec![e(1, "a", Some("https://a")), e(2, "b", None), e(3, "c", Some("https://c"))];
    let all = entries_to_validate(&entries, &None);
    assert_eq!(all.iter().map(|x| x.software_id).collect::<Vec<_>>(), vec![1, 3]);
    let some = entries_to_validate(&entries, &Some(vec!["b".to_string(), "c".to_string()]));
    assert_eq!(some.iter().map(|x| x.software_id).collect::<Vec<_>>(), vec![2, 3]);
    let empty = entries_to_validate(&entries, &Some(Vec::new()));
    assert_eq!(empty.iter().map(|x| x.software_id).collect::<Vec<_>>(), vec![1, 3]);
}

fn task_for(name: &str, id: i64) -> PackageTask {
    PackageTask {
        pkgname: name.to_string(),
        software_id: id,
        upstream_url: format!("https://github.com/o/{name}"),
        version_extract_regex: None,
        check_test_versions: false,
        check_binary_files: false,
        checker_type: CheckerType::from_id(1),
        package_type: PackageType::from_id(1),
    }
}

#[test]
fn only_packages_with_an_aur_version_are_checked() {
    let mut aur = HashMap::new();
    aur.insert(1i64, "1.0-1".to_string());
    aur.insert(2i64, String::new());
    let tasks = vec![task_for("a", 1), task_for("b", 2), task_for("c", 3), task_for("d", 1)];
    let kept = tasks_with_aur_version(tasks, &aur);
    let names: Vec<&str> = kept.iter().map(|t| t.pkgname.as_str()).collect();
    assert_eq!(names, vec!["a", "d"]);
    assert!(tasks_with_aur_version(vec![task_for("x", 9)], &aur).is_empty());
}

#[test]
fn unknown_package_is_not_checked() {
    assert_eq!(aur_helper::upstream::require_known_package("foo", Some(7)).unwrap(), 7);
    match aur_helper::upstream::require_known_package("foo", None) {
        Err(AppError::PackageNotFound(m)) => assert_eq!(m, "foo"),
        other => panic!("{:?}", other),
    }
}
