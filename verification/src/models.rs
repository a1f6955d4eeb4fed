//! Data model of the package database: package and checker kinds, the
//! records kept per package, proxies and cache directories.

use vstd::prelude::*;

verus! {

/// How a package is built: compiled from source, repackaged binary, built
/// from a Git checkout, or an AppImage. Stored by number (1 to 4).
#[derive(Debug, Clone, Copy, PartialEq, Eq, Structural)]
pub enum PackageType {
    Source,
    Binary,
    Git,
    AppImage,
}

impl PackageType {
    /// The package type stored under `id`; unknown numbers read as `Source`.
    pub open spec fn spec_from_id(id: i32) -> PackageType {
        if id == 2 {
            PackageType::Binary
        } else if id == 3 {
            PackageType::Git
        } else if id == 4 {
            PackageType::AppImage
        } else {
            PackageType::Source
        }
    }

    /// The number a package type is stored under.
    pub open spec fn spec_as_id(self) -> i32 {
        match self {
            PackageType::Source => 1,
            PackageType::Binary => 2,
            PackageType::Git => 3,
            PackageType::AppImage => 4,
        }
    }

    /// The package type stored under `id`.
    pub fn from_id(id: i32) -> (r: PackageType)
        ensures
            r == PackageType::spec_from_id(id),
    {
        if id == 2 {
            PackageType::Binary
        } else if id == 3 {
            PackageType::Git
        } else if id == 4 {
            PackageType::AppImage
        } else {
            PackageType::Source
        }
    }

    /// The number this package type is stored under.
    pub fn as_id(&self) -> (r: i32)
        ensures
            r == self.spec_as_id(),
    {
        match self {
            PackageType::Source => 1,
            PackageType::Binary => 2,
            PackageType::Git => 3,
            PackageType::AppImage => 4,
        }
    }
}

/// Where the upstream version of a package is looked up. Stored by number:
/// 1 GitHub tags, 2 GitHub releases API, 3 Gitee, 4 GitLab, 5 redirect
/// target, 6 HTML page, 7 manual, 8 JavaScript-rendered page.
#[derive(Debug, Clone, Copy, PartialEq, Eq, Structural)]
pub enum CheckerType {
    GitHubTags,
    GitHubAPI,
    Gitee,
    GitLab,
    Redirect,
    Http,
    Manual,
    Browser,
}

impl CheckerType {
    /// The checker stored under `id`; unknown numbers read as `Manual`,
    /// the column's default.
    pub open spec fn spec_from_id(id: i32) -> CheckerType {
        if id == 1 {
            CheckerType::GitHubTags
        } else if id == 2 {
            CheckerType::GitHubAPI
        } else if id == 3 {
            CheckerType::Gitee
        } else if id == 4 {
            CheckerType::GitLab
        } else if id == 5 {
            CheckerType::Redirect
        } else if id == 6 {
            CheckerType::Http
        } else if id == 8 {
            CheckerType::Browser
        } else {
            CheckerType::Manual
        }
    }

    /// The number a checker is stored under.
    pub open spec fn spec_as_id(self) -> i32 {
        match self {
            CheckerType::GitHubTags => 1,
            CheckerType::GitHubAPI => 2,
            CheckerType::Gitee => 3,
            CheckerType::GitLab => 4,
            CheckerType::Redirect => 5,
            CheckerType::Http => 6,
            CheckerType::Manual => 7,
            CheckerType::Browser => 8,
        }
    }

    /// Whether the checker queries GitHub.
    pub open spec fn spec_is_github(self) -> bool {
        self == CheckerType::GitHubTags || self == CheckerType::GitHubAPI
    }

    /// The checker stored under `id`.
    pub fn from_id(id: i32) -> (r: CheckerType)
        ensures
            r == CheckerType::spec_from_id(id),
    {
        if id == 1 {
            CheckerType::GitHubTags
        } else if id == 2 {
            CheckerType::GitHubAPI
        } else if id == 3 {
            CheckerType::Gitee
        } else if id == 4 {
            CheckerType::GitLab
        } else if id == 5 {
            CheckerType::Redirect
        } else if id == 6 {
            CheckerType::Http
        } else if id == 8 {
            CheckerType::Browser
        } else {
            CheckerType::Manual
        }
    }

    /// The number this checker is stored under.
    pub fn as_id(&self) -> (r: i32)
        ensures
            r == self.spec_as_id(),
    {
        match self {
            CheckerType::GitHubTags => 1,
            CheckerType::GitHubAPI => 2,
            CheckerType::Gitee => 3,
            CheckerType::GitLab => 4,
            CheckerType::Redirect => 5,
            CheckerType::Http => 6,
            CheckerType::Manual => 7,
            CheckerType::Browser => 8,
        }
    }

    /// Whether the checker queries GitHub (tags or releases).
    pub fn is_github(&self) -> (r: bool)
        ensures
            r == self.spec_is_github(),
    {
        match self {
            CheckerType::GitHubTags => true,
            CheckerType::GitHubAPI => true,
            _ => false,
        }
    }
}

/// Reachability of a package's upstream URL, as last validated.
/// `Reachable` is the status of a URL that answered with 200.
#[derive(Debug, Clone, Copy, PartialEq, Eq, Structural)]
pub enum UpstreamUrlStatus {
    Reachable,
    NotFound,
    Forbidden,
    Redirected,
    ServerError,
    Timeout,
    ConnectionError,
    OtherError,
}

/// Result of comparing two version strings.
#[derive(Debug, Clone, Copy, PartialEq, Eq, Structural)]
pub enum VersionComparison {
    LessThan,
    Equal,
    GreaterThan,
}

/// A package the application manages.
#[derive(Debug, Clone)]
pub struct SoftwareInfo {
    pub software_id: Option<i64>,
    pub pkgname: String,
    pub upstream_url: Option<String>,
    pub package_type_id: PackageType,
    pub checker_type_id: CheckerType,
    pub is_outdated: bool,
    pub check_test_versions: bool,
    pub check_binary_files: bool,
    pub auto_check_enabled: bool,
    pub skip_check_upstream: bool,
    pub language_ids: Vec<i64>,
    pub version_extract_regex: Option<String>,
}

/// What the AUR reports of a package.
#[derive(Debug, Clone)]
pub struct AurInfo {
    pub software_id: i64,
    pub pkgdesc: Option<String>,
    pub aur_version: Option<String>,
    pub license_id: Option<String>,
    pub last_updated: Option<i64>,
    pub depends: Option<String>,
    pub makedepends: Option<String>,
    pub optdepends: Option<String>,
    pub out_of_date: Option<bool>,
    pub last_sync_error: Option<String>,
}

/// What the last upstream check found for a package.
#[derive(Debug, Clone)]
pub struct UpstreamInfo {
    pub software_id: i64,
    pub upstream_version: Option<String>,
    pub upstream_license_id: Option<String>,
    pub last_checked: Option<i64>,
    pub upstream_url_status: Option<UpstreamUrlStatus>,
    pub last_check_error: Option<String>,
}

/// A configured proxy (a download mirror that GitHub URLs are rewritten to).
#[derive(Debug, Clone)]
pub struct ProxyInfo {
    pub proxy_id: Option<i64>,
    pub proxy_name: String,
    pub proxy_type: String,
    pub url: String,
    pub is_active: bool,
    pub success_count: i64,
    pub fail_count: i64,
    pub avg_latency: Option<i64>,
    pub last_test_status: Option<String>,
    pub strip_target_protocol: bool,
}

/// A directory that AUR helpers keep built packages in.
#[derive(Debug, Clone)]
pub struct CacheDir {
    pub id: Option<i64>,
    pub name: String,
    pub path: String,
    pub is_enabled: bool,
    pub sort_order: i64,
}

} // verus!
