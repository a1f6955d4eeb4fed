use aur_helper::batch::{PackageTask, UpstreamCheckResult};
use aur_helper::github_cache::{
    cache_hit_results, collect_missing_repos, distinct_github_repos, repo_cache_outcome,
    repo_tasks, skips_network, summarize_github_cache, tasks_after_cache,
};
use aur_helper::models::{CheckerType, PackageType};
use aur_helper::tag_cache::CacheCheckResult;

fn task(name: &str, checker: CheckerType, ptype: PackageType, regex: Option<&str>) -> PackageTask {
    PackageTask {
        pkgname: name.to_string(),
        software_id: name.len() as i64,
        upstream_url: String::new(),
        version_extract_regex: regex.map(String::from),
        check_test_versions: false,
        check_binary_files: false,
        checker_type: checker,
        package_type: ptype,
    }
}

fn repo(o: &str, r: &str) -> Option<(String, String)> {
    Some((o.to_string(), r.to_string()))
}

fn pair(o: &str, r: &str) -> (String, String) {
    (o.to_string(), r.to_string())
}

fn fixture() -> (Vec<PackageTask>, Vec<Option<(String, String)>>) {
    (
        vec![
            task("electron32-bin", CheckerType::GitHubTags, PackageType::Binary, Some(r"^v32\.")),
            task("electron33-bin", CheckerType::GitHubAPI, PackageType::Binary, Some(r"^v33\.")),
            task("foo-git", CheckerType::GitHubTags, PackageType::Git, None),
            task("bar", CheckerType::GitHubTags, PackageType::Source, None),
            task("baz", CheckerType::Http, PackageType::Source, None),
            task("qux", CheckerType::GitHubTags, PackageType::Source, None),
        ],
        vec![
            repo("electron", "electron"),
            repo("electron", "electron"),
            repo("o", "foo"),
            repo("o", "bar"),
            repo("o", "baz"),
            None,
        ],
    )
}

#[test]
fn repositories_are_listed_once() {
    let (tasks, repos) = fixture();
    assert_eq!(
        distinct_github_repos(&tasks, &repos),
        vec![pair("electron", "electron"), pair("o", "bar")]
    );
}

#[test]
fn tasks_of_a_repository() {
    let (tasks, repos) = fixture();
    let mine = repo_tasks(&tasks, &repos, &pair("electron", "electron"));
    assert_eq!(mine.iter().map(|t| t.pkgname.as_str()).collect::<Vec<_>>(), vec!["electron32-bin", "electron33-bin"]);
    assert!(repo_tasks(&tasks, &repos, &pair("o", "foo")).is_empty());
}

#[test]
fn hit_rows_use_each_package_pattern() {
    let (tasks, repos) = fixture();
    let mine = repo_tasks(&tasks, &repos, &pair("electron", "electron"));
    let tags = vec!["v33.1.0".to_string(), "v32.3.1".to_string()];
    let rows = cache_hit_results(&mine, &tags);
    assert_eq!(rows.len(), 2);
    assert_eq!(rows[0].upstream_version, "v32.3.1");
    assert_eq!(rows[1].upstream_version, "v33.1.0");
    assert!(rows.iter().all(|r| !r.is_outdated && r.license_spdx_id.is_none()));
}

#[test]
fn outcome_of_one_repository() {
    let (tasks, repos) = fixture();
    let mine = repo_tasks(&tasks, &repos, &pair("electron", "electron"));
    let doc = Some(r#"{"tags":["v33.1.0","v32.3.1"]}"#.to_string());
    let (skip, rows) = repo_cache_outcome(&Some(CacheCheckResult::Hit), &doc, &mine);
    assert!(skip);
    assert_eq!(rows.len(), 2);
    let (skip, rows) = repo_cache_outcome(&Some(CacheCheckResult::Extend), &Some("[]".into()), &mine);
    assert!(!skip && rows.is_empty());
    let (skip, _) = repo_cache_outcome(&Some(CacheCheckResult::Miss), &doc, &mine);
    assert!(!skip);
    let (skip, _) = repo_cache_outcome(&None, &doc, &mine);
    assert!(!skip);
    let (skip, _) = repo_cache_outcome(&Some(CacheCheckResult::Hit), &None, &mine);
    assert!(!skip);
}

#[test]
fn summary_and_remaining_tasks() {
    let (tasks, repos) = fixture();
    let listed = distinct_github_repos(&tasks, &repos);
    let checks = vec![
        (Some(CacheCheckResult::Hit), Some(r#"["v33.1.0","v32.3.1"]"#.to_string())),
        (Some(CacheCheckResult::Recalculate { new_version: "2".into() }), None),
    ];
    let summary = summarize_github_cache(&tasks, &repos, &listed, &checks);
    assert_eq!(summary.skip_keys, vec![pair("electron", "electron")]);
    assert_eq!(summary.cache_hit_results.len(), 2);
    let left = tasks_after_cache(&tasks, &repos, &summary.skip_keys);
    assert_eq!(
        left.iter().map(|t| t.pkgname.as_str()).collect::<Vec<_>>(),
        vec!["foo-git", "bar", "baz", "qux"]
    );
    assert!(skips_network(&CacheCheckResult::Hit));
    assert!(skips_network(&CacheCheckResult::Extend));
    assert!(!skips_network(&CacheCheckResult::Deleted));
}

#[test]
fn missing_cache_rows() {
    let (tasks, repos) = fixture();
    let result = |n: &str, v: &str| UpstreamCheckResult {
        pkgname: n.to_string(),
        software_id: 0,
        upstream_version: v.to_string(),
        is_outdated: false,
        license_spdx_id: None,
        language_names: vec![],
    };
    let results = vec![result("electron32-bin", "v32"), result("foo-git", "r1"), result("bar", ""), result("baz", "1")];
    let missing = collect_missing_repos(&tasks, &repos, &results, &vec![], &vec![]);
    assert_eq!(missing, vec![pair("electron", "electron"), pair("o", "foo")]);
    let missing = collect_missing_repos(&tasks, &repos, &results, &vec![pair("electron", "electron")], &vec![pair("o", "foo")]);
    assert!(missing.is_empty());
}
