//! Verified core of an AUR package maintenance helper: package file names,
//! sudoers rules, upstream version checks, GitHub tag caching, proxy
//! selection and database migration planning.

pub mod text;
pub mod pkgfile;
pub mod error;
pub mod models;
pub mod sudoers;
pub mod batch;
pub mod tag_cache;
pub mod github_cache;
pub mod upstream;
pub mod proxy;
pub mod http;
pub mod sync;
pub mod settings;
pub mod migration;
pub mod records;
pub mod pacman;
