use aur_helper::records::{
    language_ids_json, language_short_name, package_file_like_pattern, parse_language_ids,
    search_like_pattern,
};
use aur_helper::error::{
    io_error, json_error, lock_poisoned, network_error, regex_error, sqlite_error,
    strip_prefix_error, url_error, AppError, IoErrorKind, NetworkErrorFacts, SqliteErrorFacts,
    SQLITE_CANTOPEN, SQLITE_CORRUPT, SQLITE_READONLY,
};
use aur_helper::models::{CheckerType, PackageType};
use aur_helper::text::{decimal_string, parse_i64, parse_u64};

#[test]
fn integer_text() {
    assert_eq!(decimal_string(0), "0");
    assert_eq!(decimal_string(18446744073709551615), "18446744073709551615");
    assert_eq!(parse_u64("42"), Some(42));
    assert_eq!(parse_u64("+7"), Some(7));
    assert_eq!(parse_u64("18446744073709551616"), None);
    assert_eq!(parse_u64(" 1"), None);
    assert_eq!(parse_u64(""), None);
    assert_eq!(parse_i64("-9223372036854775808"), Some(i64::MIN));
    assert_eq!(parse_i64("9223372036854775808"), None);
    assert_eq!(parse_i64("-"), None);
}

#[test]
fn type_numbers() {
    for id in 1..=4 {
        assert_eq!(PackageType::from_id(id).as_id(), id);
    }
    assert_eq!(PackageType::from_id(9), PackageType::Source);
    for id in 1..=8 {
        assert_eq!(CheckerType::from_id(id).as_id(), id);
    }
    assert_eq!(CheckerType::from_id(0), CheckerType::Manual);
    assert!(CheckerType::GitHubTags.is_github() && CheckerType::GitHubAPI.is_github());
    assert!(!CheckerType::Gitee.is_github());
}

#[test]
fn transient_errors_are_retryable() {
    assert!(AppError::NetworkTimeout("t".into()).is_retryable());
    assert!(AppError::NetworkConnect("c".into()).is_retryable());
    assert!(!AppError::NetworkError("404".into()).is_retryable());
    assert!(!AppError::ParseError("x".into()).is_retryable());
}

fn text(e: AppError) -> String {
    format!("{:?}", e)
}

#[test]
fn outside_errors_are_mapped() {
    assert_eq!(text(io_error(IoErrorKind::NotFound, "gone".into())), text(AppError::FileNotFound("gone".into())));
    assert_eq!(text(io_error(IoErrorKind::AlreadyExists, "x".into())), text(AppError::FileOperation("文件已存在: x".into())));
    let f = |code: Option<i32>, param: bool| SqliteErrorFacts {
        failure: code.map(|c| (c, None)),
        is_parameter_error: param,
        text: "boom".into(),
    };
    assert_eq!(text(sqlite_error(f(Some(SQLITE_CANTOPEN), false))), text(AppError::DatabaseNotFound("boom (未知路径)".into())));
    assert_eq!(text(sqlite_error(f(Some(SQLITE_CORRUPT), false))), text(AppError::DatabaseCorrupted("boom".into())));
    assert_eq!(text(sqlite_error(f(Some(SQLITE_READONLY), false))), text(AppError::DatabaseError("数据库只读: boom".into())));
    assert_eq!(text(sqlite_error(f(None, true))), text(AppError::DatabaseError("数据库参数错误: boom".into())));
    let n = |connect: bool, timeout: bool, request: bool, decode: bool| NetworkErrorFacts {
        is_connect: connect,
        is_timeout: timeout,
        is_request: request,
        url: None,
        is_decode: decode,
        text: "e".into(),
    };
    assert_eq!(text(network_error(n(true, true, false, false))), text(AppError::NetworkConnect("连接服务器失败: e".into())));
    assert_eq!(text(network_error(n(false, true, false, false))), text(AppError::NetworkTimeout("请求超时: e".into())));
    assert_eq!(text(network_error(n(false, false, true, false))), text(AppError::NetworkError("请求失败 (未知 URL): e".into())));
    assert_eq!(text(network_error(n(false, false, false, true))), text(AppError::ParseError("响应解析失败: e".into())));
    assert_eq!(text(json_error("j".into())), text(AppError::ParseError("JSON 解析失败: j".into())));
    assert_eq!(text(regex_error("r".into())), text(AppError::ParseError("正则表达式错误: r".into())));
    assert_eq!(text(url_error("u".into())), text(AppError::ParseError("URL 解析失败: u".into())));
    assert_eq!(text(strip_prefix_error("p".into())), text(AppError::FileOperation("路径前缀剥离失败: p".into())));
    assert_eq!(text(lock_poisoned("l".into())), text(AppError::DatabaseLocked("数据库锁中毒: l".into())));
}

#[test]
fn stored_records() {
    assert_eq!(language_ids_json(&vec![]), "[]");
    assert_eq!(language_ids_json(&vec![3, -1, i64::MIN]), "[3,-1,-9223372036854775808]");
    assert_eq!(parse_language_ids("[3, -1]"), vec![3, -1]);
    assert_eq!(parse_language_ids("oops"), Vec::<i64>::new());
    let ids = vec![1, 22, 333];
    assert_eq!(parse_language_ids(&language_ids_json(&ids)), ids);
    assert_eq!(language_short_name("Rust"), "Ru");
    assert_eq!(language_short_name("C"), "C");
    assert_eq!(language_short_name("中文语言"), "中文");
    assert_eq!(search_like_pattern("50%_off"), "%50\\%\\_off%");
    assert_eq!(package_file_like_pattern("foo"), "foo-%");
}
