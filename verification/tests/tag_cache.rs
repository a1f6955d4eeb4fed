use aur_helper::tag_cache::{
    begin_cache_check, compile_pattern, decode_tags, finish_cache_check, fresh_cache_rows,
    is_cache_fresh, recompute_version_from_cache, recompute_version_from_tags, tag_fill_row,
    ttl_from_setting,
    CacheCheckResult, CacheProbe, CacheWrite, GithubTagCacheRow, LatestReleaseReply,
    DEFAULT_CACHE_TTL_SECONDS,
};

fn row(synced: i64, cached: Option<&str>, data: &str) -> GithubTagCacheRow {
    GithubTagCacheRow {
        owner: "o".into(),
        repo: "r".into(),
        last_synced_at: synced,
        tag_count: 2,
        data_json: data.into(),
        cached_version: cached.map(String::from),
    }
}

fn tags(v: &[&str]) -> Vec<String> {
    v.iter().map(|s| s.to_string()).collect()
}

#[test]
fn ttl_setting_defaults_to_a_day() {
    assert_eq!(DEFAULT_CACHE_TTL_SECONDS, 86400);
    assert_eq!(ttl_from_setting(None), 86400);
    assert_eq!(ttl_from_setting(Some("3600")), 3600);
    assert_eq!(ttl_from_setting(Some("-5")), -5);
    assert_eq!(ttl_from_setting(Some("soon")), 86400);
    assert_eq!(ttl_from_setting(Some("")), 86400);
}

#[test]
fn freshness() {
    assert!(is_cache_fresh(1000, 1500, 500));
    assert!(!is_cache_fresh(999, 1500, 500));
    let rows = vec![row(1000, None, ""), row(10, None, ""), row(1200, None, "")];
    let fresh = fresh_cache_rows(&rows, 1500, 500);
    assert_eq!(fresh.iter().map(|r| r.last_synced_at).collect::<Vec<_>>(), vec![1000, 1200]);
}

#[test]
fn tags_are_read_from_either_document_shape() {
    assert_eq!(decode_tags(r#"{"tags":["v2","v1"],"releases":[]}"#), tags(&["v2", "v1"]));
    assert_eq!(decode_tags(r#"["b","a"]"#), tags(&["b", "a"]));
    assert_eq!(decode_tags(r#"{"tags":["x",1,null,"y"]}"#), tags(&["x", "y"]));
    assert!(decode_tags("not json").is_empty());
    assert!(decode_tags(r#"{"tags":5}"#).is_empty());
    assert!(decode_tags("").is_empty());
}

#[test]
fn version_from_tags_by_pattern() {
    let t = tags(&["v33.0.1", "v32.1.0", "v31.2.2"]);
    assert_eq!(recompute_version_from_tags(&t, None).as_deref(), Some("v33.0.1"));
    assert_eq!(recompute_version_from_tags(&t, Some(r"^v32\.")).as_deref(), Some("v32.1.0"));
    assert_eq!(recompute_version_from_tags(&t, Some(r"^v9\.")).as_deref(), Some("v33.0.1"));
    assert_eq!(recompute_version_from_tags(&t, Some("(")).as_deref(), Some("v33.0.1"));
    assert_eq!(recompute_version_from_tags(&vec![], Some("v")), None);
    assert!(compile_pattern("(").is_none());
    assert!(compile_pattern("a+").is_some());
    assert_eq!(
        recompute_version_from_cache(r#"{"tags":["2.0","1.0"]}"#, Some("^1")).as_deref(),
        Some("1.0")
    );
    assert_eq!(recompute_version_from_cache("[]", None), None);
}

#[test]
fn first_step_of_the_check() {
    assert!(matches!(begin_cache_check(None, 100, 10), CacheProbe::Decided(CacheCheckResult::Miss)));
    let r = row(95, None, "");
    assert!(matches!(begin_cache_check(Some(&r), 100, 10), CacheProbe::Decided(CacheCheckResult::Hit)));
    let r = row(80, None, "");
    assert!(matches!(begin_cache_check(Some(&r), 100, 10), CacheProbe::AskLatestRelease));
}

#[test]
fn expired_row_against_latest_release() {
    let r = row(0, Some("v2"), r#"{"tags":["v3","v2"]}"#);
    let body = |s: &str| LatestReleaseReply::Received { body: Some(s.to_string()) };
    assert!(matches!(
        finish_cache_check(&r, 100, 10, None, LatestReleaseReply::RequestFailed),
        (CacheCheckResult::Deleted, CacheWrite::Delete)
    ));
    assert!(matches!(
        finish_cache_check(&r, 100, 10, None, LatestReleaseReply::NotSuccess),
        (CacheCheckResult::Deleted, CacheWrite::Delete)
    ));
    assert!(matches!(
        finish_cache_check(&r, 100, 10, None, LatestReleaseReply::Received { body: None }),
        (CacheCheckResult::Deleted, CacheWrite::Delete)
    ));
    assert!(matches!(
        finish_cache_check(&r, 100, 10, None, body("<html>")),
        (CacheCheckResult::Deleted, CacheWrite::Delete)
    ));
    assert!(matches!(
        finish_cache_check(&r, 100, 10, None, body(r#"{"name":"x"}"#)),
        (CacheCheckResult::Deleted, CacheWrite::Delete)
    ));
    assert!(matches!(
        finish_cache_check(&r, 100, 10, None, body(r#"{"tag_name":"v2"}"#)),
        (CacheCheckResult::Extend, CacheWrite::ExtendTo { synced_at: 110 })
    ));
    match finish_cache_check(&r, 100, 10, None, body(r#"{"tag_name":"v3"}"#)) {
        (CacheCheckResult::Recalculate { new_version }, CacheWrite::Refresh { synced_at, cached_version }) => {
            assert_eq!(new_version, "v3");
            assert_eq!(synced_at, 100);
            assert_eq!(cached_version, "v3");
        }
        other => panic!("{:?}", other),
    }
    let bare = row(0, None, "");
    match finish_cache_check(&bare, 100, 10, None, body(r#"{"tag_name":"v9"}"#)) {
        (CacheCheckResult::Recalculate { new_version }, CacheWrite::Nothing) => assert_eq!(new_version, "v9"),
        other => panic!("{:?}", other),
    }
    let empty_tag = row(0, None, "");
    assert!(matches!(
        finish_cache_check(&empty_tag, 100, 10, None, body(r#"{"tag_name":""}"#)),
        (CacheCheckResult::Extend, CacheWrite::ExtendTo { synced_at: 110 })
    ));
}

#[test]
fn extended_row_is_a_hit_until_a_lifetime_later() {
    let r = row(0, Some("v2"), r#"{"tags":["v3","v2"]}"#);
    let reply = LatestReleaseReply::Received { body: Some(r#"{"tag_name":"v2"}"#.to_string()) };
    let synced = match finish_cache_check(&r, 100, 10, None, reply) {
        (CacheCheckResult::Extend, CacheWrite::ExtendTo { synced_at }) => synced_at,
        other => panic!("{:?}", other),
    };
    let extended = row(synced, Some("v2"), r#"{"tags":["v3","v2"]}"#);
    for later in [100, 105, 110] {
        assert!(matches!(
            begin_cache_check(Some(&extended), later, 10),
            CacheProbe::Decided(CacheCheckResult::Hit)
        ));
    }
}

#[test]
fn filled_tags_read_back() {
    let written = tags(&["v2.0", "v1.9", "odd \"quote\" \\ tag"]);
    let (doc, count) = tag_fill_row(&written);
    assert_eq!(doc, r#"{"tags":["v2.0","v1.9","odd \"quote\" \\ tag"],"releases":[]}"#);
    assert_eq!(count, 3);
    assert_eq!(decode_tags(&doc), written);
    let (empty_doc, none) = tag_fill_row(&Vec::new());
    assert_eq!(empty_doc, r#"{"tags":[],"releases":[]}"#);
    assert_eq!(none, 0);
    assert!(decode_tags(&empty_doc).is_empty());
}
