use aur_helper::batch::{
    after_attempt, batch_answer_result, classify, result_from_check, retry_delay_secs,
    route_network_tasks, unanswered_batch_tasks, CheckResult, PackageTask, RetryStep,
};
use aur_helper::error::AppError;
use aur_helper::models::{CheckerType, PackageType};

fn task(name: &str, checker: CheckerType, ptype: PackageType) -> PackageTask {
    PackageTask {
        pkgname: name.to_string(),
        software_id: name.len() as i64,
        upstream_url: format!("https://github.com/o/{}", name),
        version_extract_regex: None,
        check_test_versions: false,
        check_binary_files: false,
        checker_type: checker,
        package_type: ptype,
    }
}

fn names(ts: &[PackageTask]) -> Vec<String> {
    ts.iter().map(|t| t.pkgname.clone()).collect()
}

#[test]
fn classify_splits_by_checker_and_keeps_order() {
    let tasks = vec![
        task("a", CheckerType::Manual, PackageType::Source),
        task("b", CheckerType::Browser, PackageType::Source),
        task("c", CheckerType::GitHubTags, PackageType::Binary),
        task("d", CheckerType::Manual, PackageType::Source),
        task("e", CheckerType::Http, PackageType::Source),
        task("f", CheckerType::Browser, PackageType::Git),
    ];
    let (browser, network, manual) = classify(tasks);
    assert_eq!(names(&browser), vec!["b", "f"]);
    assert_eq!(names(&network), vec!["c", "e"]);
    assert_eq!(manual, vec!["a", "d"]);
    assert_eq!(browser.len() + network.len() + manual.len(), 6);
}

#[test]
fn github_tasks_go_to_the_batch_query_only_with_a_token() {
    let tasks = vec![
        task("a", CheckerType::GitHubTags, PackageType::Binary),
        task("b", CheckerType::GitHubAPI, PackageType::Git),
        task("c", CheckerType::GitHubAPI, PackageType::Source),
        task("d", CheckerType::Gitee, PackageType::Source),
    ];
    let repos = vec![
        Some(("o".to_string(), "a".to_string())),
        Some(("o".to_string(), "b".to_string())),
        None,
        Some(("o".to_string(), "d".to_string())),
    ];
    let (batch, rest) = route_network_tasks(tasks, repos.clone(), true);
    assert_eq!(batch.len(), 1);
    assert_eq!(batch[0].task.pkgname, "a");
    assert_eq!((batch[0].owner.as_str(), batch[0].repo.as_str()), ("o", "a"));
    assert_eq!(names(&rest), vec!["b", "c", "d"]);
    let tasks = vec![task("a", CheckerType::GitHubTags, PackageType::Binary)];
    let (batch, rest) = route_network_tasks(tasks, vec![repos[0].clone()], false);
    assert!(batch.is_empty());
    assert_eq!(names(&rest), vec!["a"]);
}

#[test]
fn unanswered_batch_packages_fall_back_to_rest() {
    let tasks = vec![
        task("a", CheckerType::GitHubTags, PackageType::Binary),
        task("b", CheckerType::GitHubTags, PackageType::Binary),
    ];
    let repos = vec![
        Some(("o".to_string(), "a".to_string())),
        Some(("o".to_string(), "b".to_string())),
    ];
    let (batch, _) = route_network_tasks(tasks, repos, true);
    let left = unanswered_batch_tasks(&batch, &vec!["b".to_string()]);
    assert_eq!(names(&left), vec!["a"]);
}

#[test]
fn result_rows() {
    let r = batch_answer_result("a".into(), 1, None, Some("MIT".into()), vec!["Rust".into()]);
    assert_eq!(r.upstream_version, "");
    assert!(!r.is_outdated);
    assert_eq!(r.license_spdx_id.as_deref(), Some("MIT"));
    let ok = CheckResult {
        version: Some("v1.2".into()),
        license: None,
        language_names: vec!["Go".into()],
    };
    let r = result_from_check(task("x", CheckerType::Http, PackageType::Source), Ok(ok));
    assert_eq!(r.upstream_version, "v1.2");
    assert_eq!(r.language_names, vec!["Go"]);
    let r = result_from_check(
        task("x", CheckerType::Http, PackageType::Source),
        Err(AppError::NetworkError("boom".into())),
    );
    assert_eq!(r.upstream_version, "");
    assert!(r.license_spdx_id.is_none());
    assert!(r.language_names.is_empty());
}

#[test]
fn retry_delays_double() {
    assert_eq!(retry_delay_secs(1), 1);
    assert_eq!(retry_delay_secs(2), 2);
    assert_eq!(retry_delay_secs(3), 4);
    assert_eq!(retry_delay_secs(64), 1u64 << 63);
}

#[test]
fn retry_decisions() {
    let ok = CheckResult { version: None, license: None, language_names: vec![] };
    assert!(matches!(after_attempt(0, 2, Ok(ok)), RetryStep::Finished(Ok(_))));
    match after_attempt(0, 2, Err(AppError::NetworkTimeout("t".into()))) {
        RetryStep::Again { next_attempt, delay_secs } => {
            assert_eq!(next_attempt, 1);
            assert_eq!(delay_secs, 1);
        }
        other => panic!("{:?}", other),
    }
    match after_attempt(1, 2, Err(AppError::NetworkConnect("c".into()))) {
        RetryStep::Again { next_attempt, delay_secs } => {
            assert_eq!(next_attempt, 2);
            assert_eq!(delay_secs, 2);
        }
        other => panic!("{:?}", other),
    }
    assert!(matches!(
        after_attempt(2, 2, Err(AppError::NetworkTimeout("t".into()))),
        RetryStep::Finished(Err(AppError::NetworkTimeout(_)))
    ));
    assert!(matches!(
        after_attempt(0, 2, Err(AppError::NetworkError("404".into()))),
        RetryStep::Finished(Err(AppError::NetworkError(_)))
    ));
}
