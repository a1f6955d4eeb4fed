//! The application's error type and how errors of the outside world
//! (SQLite, HTTP, JSON, regular expressions, URLs, file system) map onto it.

use vstd::prelude::*;
use crate::text::concat;

verus! {

/// Every error the application reports, each with a human-readable message.
#[derive(Debug, Clone)]
pub enum AppError {
    DatabaseError(String),
    DatabaseNotFound(String),
    DatabaseCorrupted(String),
    DatabaseLocked(String),
    FileNotFound(String),
    FilePermission(String),
    FileOperation(String),
    NetworkError(String),
    NetworkConnect(String),
    NetworkTimeout(String),
    ParseError(String),
    InvalidInput(String),
    SystemCommand(String),
    PackageNotFound(String),
    VersionCheckError(String),
    ConfigError(String),
    Unknown(String),
}

/// Result type of the application.
pub type AppResult<T> = Result<T, AppError>;

/// The kinds of file-system failure that are reported differently.
#[derive(Debug, Clone, Copy, PartialEq, Eq, Structural)]
pub enum IoErrorKind {
    NotFound,
    PermissionDenied,
    AlreadyExists,
    Other,
}

impl AppError {
    /// Whether a failed upstream check may succeed when tried again:
    /// time-outs and connection-level failures are transient, everything
    /// else (bad URL, 404, parse failures, ...) is permanent.
    pub open spec fn spec_is_retryable(&self) -> bool {
        match self {
            AppError::NetworkTimeout(_) => true,
            AppError::NetworkConnect(_) => true,
            _ => false,
        }
    }

    /// Whether a failed upstream check may succeed when tried again.
    pub fn is_retryable(&self) -> (r: bool)
        ensures
            r == self.spec_is_retryable(),
    {
        match self {
            AppError::NetworkTimeout(_) => true,
            AppError::NetworkConnect(_) => true,
            _ => false,
        }
    }
}

/// The error a file-system failure becomes: missing files and denied
/// permissions keep their own kinds, an existing file is reported as a file
/// operation failure with a prefix, everything else as a plain file
/// operation failure.
pub open spec fn spec_io_error(kind: IoErrorKind, text: Seq<char>) -> (AppErrorKind, Seq<char>) {
    match kind {
        IoErrorKind::NotFound => (AppErrorKind::FileNotFound, text),
        IoErrorKind::PermissionDenied => (AppErrorKind::FilePermission, text),
        IoErrorKind::AlreadyExists => (AppErrorKind::FileOperation, "文件已存在: "@ + text),
        IoErrorKind::Other => (AppErrorKind::FileOperation, text),
    }
}

/// The variant of an error, without its message.
#[derive(Debug, Clone, Copy, PartialEq, Eq, Structural)]
pub enum AppErrorKind {
    DatabaseError,
    DatabaseNotFound,
    DatabaseCorrupted,
    DatabaseLocked,
    FileNotFound,
    FilePermission,
    FileOperation,
    NetworkError,
    NetworkConnect,
    NetworkTimeout,
    ParseError,
    InvalidInput,
    SystemCommand,
    PackageNotFound,
    VersionCheckError,
    ConfigError,
    Unknown,
}

impl View for AppError {
    type V = (AppErrorKind, Seq<char>);

    /// The variant and the message of the error.
    open spec fn view(&self) -> (AppErrorKind, Seq<char>) {
        match self {
            AppError::DatabaseError(m) => (AppErrorKind::DatabaseError, m@),
            AppError::DatabaseNotFound(m) => (AppErrorKind::DatabaseNotFound, m@),
            AppError::DatabaseCorrupted(m) => (AppErrorKind::DatabaseCorrupted, m@),
            AppError::DatabaseLocked(m) => (AppErrorKind::DatabaseLocked, m@),
            AppError::FileNotFound(m) => (AppErrorKind::FileNotFound, m@),
            AppError::FilePermission(m) => (AppErrorKind::FilePermission, m@),
            AppError::FileOperation(m) => (AppErrorKind::FileOperation, m@),
            AppError::NetworkError(m) => (AppErrorKind::NetworkError, m@),
            AppError::NetworkConnect(m) => (AppErrorKind::NetworkConnect, m@),
            AppError::NetworkTimeout(m) => (AppErrorKind::NetworkTimeout, m@),
            AppError::ParseError(m) => (AppErrorKind::ParseError, m@),
            AppError::InvalidInput(m) => (AppErrorKind::InvalidInput, m@),
            AppError::SystemCommand(m) => (AppErrorKind::SystemCommand, m@),
            AppError::PackageNotFound(m) => (AppErrorKind::PackageNotFound, m@),
            AppError::VersionCheckError(m) => (AppErrorKind::VersionCheckError, m@),
            AppError::ConfigError(m) => (AppErrorKind::ConfigError, m@),
            AppError::Unknown(m) => (AppErrorKind::Unknown, m@),
        }
    }
}

/// The error of a file-system failure of the given kind and display text.
pub fn io_error(kind: IoErrorKind, text: String) -> (e: AppError)
    ensures
        e@ == spec_io_error(kind, text@),
{
    match kind {
        IoErrorKind::NotFound => AppError::FileNotFound(text),
        IoErrorKind::PermissionDenied => AppError::FilePermission(text),
        IoErrorKind::AlreadyExists => AppError::FileOperation(concat("文件已存在: ", text.as_str())),
        IoErrorKind::Other => AppError::FileOperation(text),
    }
}

/// What the library reads of a failed SQLite operation.
pub struct SqliteErrorFacts {
    /// For a failure reported by SQLite itself: its extended result code
    /// and the message that came with it.
    pub failure: Option<(i32, Option<String>)>,
    /// The operation named a parameter that does not exist, or the query
    /// was not read-only.
    pub is_parameter_error: bool,
    /// The error's display text.
    pub text: String,
}

/// The SQLite extended result code for a file that cannot be opened.
pub const SQLITE_CANTOPEN: i32 = 14;
/// The SQLite extended result code for a corrupted database file.
pub const SQLITE_CORRUPT: i32 = 11;
/// The SQLite extended result code for a write to a read-only database.
pub const SQLITE_READONLY: i32 = 8;

/// The error a failed SQLite operation becomes.
pub open spec fn spec_sqlite_error(f: SqliteErrorFacts) -> (AppErrorKind, Seq<char>) {
    match f.failure {
        Some((code, msg)) => if code == SQLITE_CANTOPEN {
            let path = match msg { Some(m) => m@, None => "未知路径"@ };
            (AppErrorKind::DatabaseNotFound, f.text@ + " ("@ + path + ")"@)
        } else if code == SQLITE_CORRUPT {
            (AppErrorKind::DatabaseCorrupted, f.text@)
        } else if code == SQLITE_READONLY {
            (AppErrorKind::DatabaseError, "数据库只读: "@ + f.text@)
        } else {
            (AppErrorKind::DatabaseError, f.text@)
        },
        None => if f.is_parameter_error {
            (AppErrorKind::DatabaseError, "数据库参数错误: "@ + f.text@)
        } else {
            (AppErrorKind::DatabaseError, f.text@)
        },
    }
}

/// The error a failed SQLite operation becomes: a file that cannot be
/// opened, a corrupted file, a read-only database and parameter errors are
/// told apart; the rest are plain database errors.
pub fn sqlite_error(f: SqliteErrorFacts) -> (e: AppError)
    ensures
        e@ == spec_sqlite_error(f),
{
    match f.failure {
        Some((code, msg)) => {
            if code == SQLITE_CANTOPEN {
                let path = match msg {
                    Some(m) => m,
                    None => String::from_str("未知路径"),
                };
                let a = concat(f.text.as_str(), " (");
                let b = concat(a.as_str(), path.as_str());
                AppError::DatabaseNotFound(concat(b.as_str(), ")"))
            } else if code == SQLITE_CORRUPT {
                AppError::DatabaseCorrupted(f.text)
            } else if code == SQLITE_READONLY {
                AppError::DatabaseError(concat("数据库只读: ", f.text.as_str()))
            } else {
                AppError::DatabaseError(f.text)
            }
        },
        None => {
            if f.is_parameter_error {
                AppError::DatabaseError(concat("数据库参数错误: ", f.text.as_str()))
            } else {
                AppError::DatabaseError(f.text)
            }
        },
    }
}

/// What the library reads of a failed HTTP request.
pub struct NetworkErrorFacts {
    pub is_connect: bool,
    pub is_timeout: bool,
    pub is_request: bool,
    pub url: Option<String>,
    pub is_decode: bool,
    pub text: String,
}

/// The error a failed HTTP request becomes.
pub open spec fn spec_network_error(f: NetworkErrorFacts) -> (AppErrorKind, Seq<char>) {
    if f.is_connect {
        (AppErrorKind::NetworkConnect, "连接服务器失败: "@ + f.text@)
    } else if f.is_timeout {
        (AppErrorKind::NetworkTimeout, "请求超时: "@ + f.text@)
    } else if f.is_request {
        let url = match f.url { Some(u) => u@, None => "未知 URL"@ };
        (AppErrorKind::NetworkError, "请求失败 ("@ + url + "): "@ + f.text@)
    } else if f.is_decode {
        (AppErrorKind::ParseError, "响应解析失败: "@ + f.text@)
    } else {
        (AppErrorKind::NetworkError, f.text@)
    }
}

/// The error a failed HTTP request becomes: connection failures, time-outs,
/// request failures (with the URL) and undecodable responses are told apart.
pub fn network_error(f: NetworkErrorFacts) -> (e: AppError)
    ensures
        e@ == spec_network_error(f),
{
    if f.is_connect {
        AppError::NetworkConnect(concat("连接服务器失败: ", f.text.as_str()))
    } else if f.is_timeout {
        AppError::NetworkTimeout(concat("请求超时: ", f.text.as_str()))
    } else if f.is_request {
        let url = match f.url {
            Some(u) => u,
            None => String::from_str("未知 URL"),
        };
        let a = concat("请求失败 (", url.as_str());
        let b = concat(a.as_str(), "): ");
        AppError::NetworkError(concat(b.as_str(), f.text.as_str()))
    } else if f.is_decode {
        AppError::ParseError(concat("响应解析失败: ", f.text.as_str()))
    } else {
        AppError::NetworkError(f.text)
    }
}

/// A JSON document that could not be parsed.
pub fn json_error(text: String) -> (e: AppError)
    ensures
        e@ == (AppErrorKind::ParseError, "JSON 解析失败: "@ + text@),
{
    AppError::ParseError(concat("JSON 解析失败: ", text.as_str()))
}

/// A regular expression that could not be compiled.
pub fn regex_error(text: String) -> (e: AppError)
    ensures
        e@ == (AppErrorKind::ParseError, "正则表达式错误: "@ + text@),
{
    AppError::ParseError(concat("正则表达式错误: ", text.as_str()))
}

/// A URL that could not be parsed.
pub fn url_error(text: String) -> (e: AppError)
    ensures
        e@ == (AppErrorKind::ParseError, "URL 解析失败: "@ + text@),
{
    AppError::ParseError(concat("URL 解析失败: ", text.as_str()))
}

/// A path that could not be made relative to its expected prefix.
pub fn strip_prefix_error(text: String) -> (e: AppError)
    ensures
        e@ == (AppErrorKind::FileOperation, "路径前缀剥离失败: "@ + text@),
{
    AppError::FileOperation(concat("路径前缀剥离失败: ", text.as_str()))
}

/// A poisoned database lock.
pub fn lock_poisoned(text: String) -> (e: AppError)
    ensures
        e@ == (AppErrorKind::DatabaseLocked, "数据库锁中毒: "@ + text@),
{
    AppError::DatabaseLocked(concat("数据库锁中毒: ", text.as_str()))
}

// ---------------------------------------------------------------------------
// Errors of the outside world
// ---------------------------------------------------------------------------

#[verifier::external_type_specification]
#[verifier::external_body]
pub struct ExSqliteError(rusqlite::Error);

#[verifier::external_type_specification]
#[verifier::external_body]
pub struct ExReqwestError(reqwest::Error);

#[verifier::external_type_specification]
#[verifier::external_body]
pub struct ExJsonError(serde_json::Error);

#[verifier::external_type_specification]
#[verifier::external_body]
pub struct ExRegexError(regex::Error);

#[verifier::external_type_specification]
#[verifier::external_body]
pub struct ExUrlParseError(url::ParseError);

#[verifier::external_type_specification]
#[verifier::external_body]
pub struct ExAnyhowError(anyhow::Error);

#[verifier::external_type_specification]
#[verifier::external_body]
pub struct ExIoError(std::io::Error);

/// `rusqlite::Error::SqliteFailure`: the extended result code of the
/// failure (`ffi::Error::extended_code`) and the message that came with it;
/// `None` for every other variant. Nothing is claimed of the values.
#[verifier::external_body]
fn sqlite_failure_of(e: &rusqlite::Error) -> Option<(i32, Option<String>)> {
    match e {
        rusqlite::Error::SqliteFailure(err, msg) => Some((err.extended_code, msg.clone())),
        _ => None,
    }
}

/// Whether `e` is `rusqlite::Error::InvalidParameterName` or
/// `rusqlite::Error::InvalidQuery`. Nothing is claimed of the answer.
#[verifier::external_body]
fn sqlite_is_parameter_error(e: &rusqlite::Error) -> bool {
    match e {
        rusqlite::Error::InvalidParameterName(_) => true,
        rusqlite::Error::InvalidQuery => true,
        _ => false,
    }
}

/// `rusqlite::Error`'s display text (`to_string`). Nothing is claimed of it.
#[verifier::external_body]
fn sqlite_error_text(e: &rusqlite::Error) -> String {
    e.to_string()
}

/// The application error for a failed SQLite operation (see `sqlite_error`).
pub fn from_sqlite(e: &rusqlite::Error) -> (r: AppError)
    ensures
        r@.0 == AppErrorKind::DatabaseError || r@.0 == AppErrorKind::DatabaseNotFound
            || r@.0 == AppErrorKind::DatabaseCorrupted,
{
    let facts = SqliteErrorFacts {
        failure: sqlite_failure_of(e),
        is_parameter_error: sqlite_is_parameter_error(e),
        text: sqlite_error_text(e),
    };
    sqlite_error(facts)
}

/// `reqwest::Error::is_connect`. Nothing is claimed of the answer.
#[verifier::external_body]
fn http_is_connect(e: &reqwest::Error) -> bool {
    e.is_connect()
}

/// `reqwest::Error::is_timeout`. Nothing is claimed of the answer.
#[verifier::external_body]
fn http_is_timeout(e: &reqwest::Error) -> bool {
    e.is_timeout()
}

/// `reqwest::Error::is_request`. Nothing is claimed of the answer.
#[verifier::external_body]
fn http_is_request(e: &reqwest::Error) -> bool {
    e.is_request()
}

/// `reqwest::Error::url`, as its string form. Nothing is claimed of it.
#[verifier::external_body]
fn http_error_url(e: &reqwest::Error) -> Option<String> {
    e.url().map(|u| u.as_str().to_string())
}

/// `reqwest::Error::is_decode`. Nothing is claimed of the answer.
#[verifier::external_body]
fn http_is_decode(e: &reqwest::Error) -> bool {
    e.is_decode()
}

/// `reqwest::Error`'s display text (`to_string`). Nothing is claimed of it.
#[verifier::external_body]
fn http_error_text(e: &reqwest::Error) -> String {
    e.to_string()
}

/// The application error for a failed HTTP request (see `network_error`).
pub fn from_http(e: &reqwest::Error) -> (r: AppError)
    ensures
        r@.0 == AppErrorKind::NetworkConnect || r@.0 == AppErrorKind::NetworkTimeout
            || r@.0 == AppErrorKind::NetworkError || r@.0 == AppErrorKind::ParseError,
{
    let facts = NetworkErrorFacts {
        is_connect: http_is_connect(e),
        is_timeout: http_is_timeout(e),
        is_request: http_is_request(e),
        url: http_error_url(e),
        is_decode: http_is_decode(e),
        text: http_error_text(e),
    };
    network_error(facts)
}

/// `serde_json::Error`'s display text. Nothing is claimed of it.
#[verifier::external_body]
fn json_error_text(e: &serde_json::Error) -> String {
    e.to_string()
}

/// The application error for a JSON document that could not be read.
pub fn from_json(e: &serde_json::Error) -> (r: AppError)
    ensures
        r@.0 == AppErrorKind::ParseError,
{
    json_error(json_error_text(e))
}

/// `regex::Error`'s display text. Nothing is claimed of it.
#[verifier::external_body]
fn regex_error_text(e: &regex::Error) -> String {
    e.to_string()
}

/// The application error for a regular expression that does not compile.
pub fn from_regex(e: &regex::Error) -> (r: AppError)
    ensures
        r@.0 == AppErrorKind::ParseError,
{
    regex_error(regex_error_text(e))
}

/// `url::ParseError`'s display text. Nothing is claimed of it.
#[verifier::external_body]
fn url_error_text(e: &url::ParseError) -> String {
    e.to_string()
}

/// The application error for a URL that cannot be parsed.
pub fn from_url(e: &url::ParseError) -> (r: AppError)
    ensures
        r@.0 == AppErrorKind::ParseError,
{
    url_error(url_error_text(e))
}

/// `anyhow::Error`'s display text. Nothing is claimed of it.
#[verifier::external_body]
fn anyhow_error_text(e: &anyhow::Error) -> String {
    e.to_string()
}

/// The application error for an error of unknown origin: its text is kept.
pub fn from_anyhow(e: &anyhow::Error) -> (r: AppError)
    ensures
        r@.0 == AppErrorKind::Unknown,
{
    AppError::Unknown(anyhow_error_text(e))
}

/// `std::io::Error::kind`, reduced to the kinds the application tells
/// apart. Nothing is claimed of the answer.
#[verifier::external_body]
fn io_error_kind(e: &std::io::Error) -> IoErrorKind {
    match e.kind() {
        std::io::ErrorKind::NotFound => IoErrorKind::NotFound,
        std::io::ErrorKind::PermissionDenied => IoErrorKind::PermissionDenied,
        std::io::ErrorKind::AlreadyExists => IoErrorKind::AlreadyExists,
        _ => IoErrorKind::Other,
    }
}

/// `std::io::Error`'s display text. Nothing is claimed of it.
#[verifier::external_body]
fn io_error_text(e: &std::io::Error) -> String {
    e.to_string()
}

/// The application error for a failed file-system operation (see `io_error`).
pub fn from_io(e: &std::io::Error) -> (r: AppError)
    ensures
        r@.0 == AppErrorKind::FileNotFound || r@.0 == AppErrorKind::FilePermission
            || r@.0 == AppErrorKind::FileOperation,
{
    io_error(io_error_kind(e), io_error_text(e))
}

// ---------------------------------------------------------------------------
// Conversions used by `?`
// ---------------------------------------------------------------------------

/// A SQLite error becomes an application error as `from_sqlite` says.
impl From<rusqlite::Error> for AppError {
    fn from(e: rusqlite::Error) -> (r: Self)
        ensures
            r@.0 == AppErrorKind::DatabaseError || r@.0 == AppErrorKind::DatabaseNotFound
                || r@.0 == AppErrorKind::DatabaseCorrupted,
    {
        from_sqlite(&e)
    }
}

impl vstd::std_specs::convert::FromSpecImpl<rusqlite::Error> for AppError {
    /// The conversion is not modelled as a function of its input, whose
    /// contents are opaque here.
    open spec fn obeys_from_spec() -> bool {
        false
    }

    open spec fn from_spec(v: rusqlite::Error) -> AppError {
        arbitrary()
    }
}

/// A HTTP error becomes an application error as `from_http` says.
impl From<reqwest::Error> for AppError {
    fn from(e: reqwest::Error) -> (r: Self)
        ensures
            r@.0 == AppErrorKind::NetworkConnect || r@.0 == AppErrorKind::NetworkTimeout
                || r@.0 == AppErrorKind::NetworkError || r@.0 == AppErrorKind::ParseError,
    {
        from_http(&e)
    }
}

impl vstd::std_specs::convert::FromSpecImpl<reqwest::Error> for AppError {
    /// The conversion is not modelled as a function of its input, whose
    /// contents are opaque here.
    open spec fn obeys_from_spec() -> bool {
        false
    }

    open spec fn from_spec(v: reqwest::Error) -> AppError {
        arbitrary()
    }
}

/// A URL error becomes an application error as `from_url` says.
impl From<url::ParseError> for AppError {
    fn from(e: url::ParseError) -> (r: Self)
        ensures
            r@.0 == AppErrorKind::ParseError,
    {
        from_url(&e)
    }
}

impl vstd::std_specs::convert::FromSpecImpl<url::ParseError> for AppError {
    /// The conversion is not modelled as a function of its input, whose
    /// contents are opaque here.
    open spec fn obeys_from_spec() -> bool {
        false
    }

    open spec fn from_spec(v: url::ParseError) -> AppError {
        arbitrary()
    }
}

/// A file-system error becomes an application error as `from_io` says.
impl From<std::io::Error> for AppError {
    fn from(e: std::io::Error) -> (r: Self)
        ensures
            r@.0 == AppErrorKind::FileNotFound || r@.0 == AppErrorKind::FilePermission
                || r@.0 == AppErrorKind::FileOperation,
    {
        from_io(&e)
    }
}

impl vstd::std_specs::convert::FromSpecImpl<std::io::Error> for AppError {
    /// The conversion is not modelled as a function of its input, whose
    /// contents are opaque here.
    open spec fn obeys_from_spec() -> bool {
        false
    }

    open spec fn from_spec(v: std::io::Error) -> AppError {
        arbitrary()
    }
}

/// A JSON error becomes an application error as `from_json` says.
impl From<serde_json::Error> for AppError {
    fn from(e: serde_json::Error) -> (r: Self)
        ensures
            r@.0 == AppErrorKind::ParseError,
    {
        from_json(&e)
    }
}

impl vstd::std_specs::convert::FromSpecImpl<serde_json::Error> for AppError {
    /// The conversion is not modelled as a function of its input, whose
    /// contents are opaque here.
    open spec fn obeys_from_spec() -> bool {
        false
    }

    open spec fn from_spec(v: serde_json::Error) -> AppError {
        arbitrary()
    }
}

/// A regular-expression error becomes an application error as `from_regex` says.
impl From<regex::Error> for AppError {
    fn from(e: regex::Error) -> (r: Self)
        ensures
            r@.0 == AppErrorKind::ParseError,
    {
        from_regex(&e)
    }
}

impl vstd::std_specs::convert::FromSpecImpl<regex::Error> for AppError {
    /// The conversion is not modelled as a function of its input, whose
    /// contents are opaque here.
    open spec fn obeys_from_spec() -> bool {
        false
    }

    open spec fn from_spec(v: regex::Error) -> AppError {
        arbitrary()
    }
}

/// A untyped error becomes an application error as `from_anyhow` says.
impl From<anyhow::Error> for AppError {
    fn from(e: anyhow::Error) -> (r: Self)
        ensures
            r@.0 == AppErrorKind::Unknown,
    {
        from_anyhow(&e)
    }
}

impl vstd::std_specs::convert::FromSpecImpl<anyhow::Error> for AppError {
    /// The conversion is not modelled as a function of its input, whose
    /// contents are opaque here.
    open spec fn obeys_from_spec() -> bool {
        false
    }

    open spec fn from_spec(v: anyhow::Error) -> AppError {
        arbitrary()
    }
}

} // verus!
