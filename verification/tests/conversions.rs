use aur_helper::error::{
    from_anyhow, from_http, from_io, from_json, from_regex, from_sqlite, from_url, AppError,
};

#[test]
fn io_errors_keep_their_kind_and_text() {
    let e = std::io::Error::new(std::io::ErrorKind::NotFound, "no such file");
    match from_io(&e) {
        AppError::FileNotFound(m) => assert_eq!(m, "no such file"),
        other => panic!("{:?}", other),
    }
    let e = std::io::Error::new(std::io::ErrorKind::PermissionDenied, "denied");
    assert!(matches!(from_io(&e), AppError::FilePermission(m) if m == "denied"));
    let e = std::io::Error::new(std::io::ErrorKind::AlreadyExists, "there");
    assert!(matches!(from_io(&e), AppError::FileOperation(m) if m == "文件已存在: there"));
    let e = std::io::Error::new(std::io::ErrorKind::Other, "odd");
    assert!(matches!(AppError::from(e), AppError::FileOperation(m) if m == "odd"));
}

#[test]
fn parse_errors_carry_the_outside_text() {
    let e = serde_json::from_str::<serde_json::Value>("{").unwrap_err();
    let text = e.to_string();
    assert!(matches!(from_json(&e), AppError::ParseError(m) if m == format!("JSON 解析失败: {}", text)));
    let e = regex::Regex::new("(").unwrap_err();
    let text = e.to_string();
    assert!(matches!(from_regex(&e), AppError::ParseError(m) if m == format!("正则表达式错误: {}", text)));
    let e = url::Url::parse("no scheme").unwrap_err();
    let text = e.to_string();
    assert!(matches!(from_url(&e), AppError::ParseError(m) if m == format!("URL 解析失败: {}", text)));
    let e = anyhow::Error::msg("plain");
    assert!(matches!(from_anyhow(&e), AppError::Unknown(m) if m == "plain"));
}

#[test]
fn sqlite_errors() {
    let e = rusqlite::Error::QueryReturnedNoRows;
    let text = e.to_string();
    assert!(matches!(from_sqlite(&e), AppError::DatabaseError(m) if m == text));
    let e = rusqlite::Error::InvalidQuery;
    let text = e.to_string();
    assert!(matches!(from_sqlite(&e), AppError::DatabaseError(m) if m == format!("数据库参数错误: {}", text)));
    let conn = rusqlite::Connection::open_in_memory().unwrap();
    let e = conn.execute("SELEC nonsense", []).unwrap_err();
    assert!(matches!(AppError::from(e), AppError::DatabaseError(_)));
}

#[test]
fn http_errors() {
    let e = reqwest::blocking::Client::new().get("not a url").build().unwrap_err();
    let text = e.to_string();
    assert!(matches!(from_http(&e), AppError::NetworkError(m) if m == text));
}

fn parse_number(s: &str) -> Result<i64, AppError> {
    let v: serde_json::Value = serde_json::from_str(s)?;
    Ok(v.as_i64().unwrap_or(0))
}

#[test]
fn question_mark_converts() {
    assert_eq!(parse_number("5").unwrap(), 5);
    assert!(matches!(parse_number("x"), Err(AppError::ParseError(_))));
}
