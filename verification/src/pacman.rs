//! What the pacman and cache commands the helper runs amount to: the
//! directories packages may be installed from, and the answer made of a
//! command's exit status and output.

use vstd::prelude::*;
use crate::error::{AppError, AppErrorKind};
use crate::text::{concat, trim};

verus! {

/// The directories backed-up packages may be installed from: the backup
/// directory and the pacman cache.
pub fn backup_allowed_roots(backup_dir: String) -> (r: Vec<String>)
    ensures
        r@.len() == 2,
        r@[0]@ == backup_dir@,
        r@[1]@ == "/var/cache/pacman/pkg"@,
{
    let mut r: Vec<String> = Vec::new();
    r.push(backup_dir);
    r.push(String::from_str("/var/cache/pacman/pkg"));
    r
}

/// The trimmed text of `s`.
fn trimmed(s: &str) -> (r: String)
    ensures
        r@ == trim(s@),
{
    let v = crate::text::chars_of(s);
    let (a, b) = crate::text::trim_bounds(&v, 0, v.len());
    assert(v@.subrange(0, v@.len() as int) =~= v@);
    crate::text::string_of(&v, a, b)
}

/// The answer of `sudo pacman -U --noconfirm`: its output when it
/// succeeded, else a `SystemCommand` error with its error output.
pub fn install_outcome(success: bool, stdout: String, stderr: String) -> (r: Result<String, AppError>)
    ensures
        success ==> (r matches Ok(o) && o@ == stdout@),
        !success ==> (r matches Err(e) && e@ == (AppErrorKind::SystemCommand, "安装失败:\n"@ + stderr@)),
{
    if success {
        Ok(stdout)
    } else {
        Err(AppError::SystemCommand(concat("安装失败:\n", stderr.as_str())))
    }
}

/// The answer of `pacman -Qip`: its output when it succeeded, else a
/// `SystemCommand` error with its trimmed error output.
pub fn package_info_outcome(success: bool, stdout: String, stderr: &str) -> (r: Result<String, AppError>)
    ensures
        success ==> (r matches Ok(o) && o@ == stdout@),
        !success ==> (r matches Err(e) && e@ == (AppErrorKind::SystemCommand, "pacman -Qip 失败: "@ + trim(stderr@))),
{
    if success {
        Ok(stdout)
    } else {
        Err(AppError::SystemCommand(concat("pacman -Qip 失败: ", trimmed(stderr).as_str())))
    }
}

/// The answer of clearing the system package cache: skipped when the cache
/// directory does not exist, done when the removal succeeded, else a
/// `SystemCommand` error with the trimmed error output.
pub fn system_cache_cleanup_outcome(exists: bool, success: bool, stderr: &str) -> (r: Result<String, AppError>)
    ensures
        !exists ==> (r matches Ok(m) && m@ == "系统缓存目录不存在，跳过清理"@),
        exists && success ==> (r matches Ok(m) && m@ == "系统缓存清理完成"@),
        exists && !success ==> (r matches Err(e)
            && e@ == (AppErrorKind::SystemCommand, "清理系统缓存失败: "@ + trim(stderr@))),
{
    if !exists {
        Ok(String::from_str("系统缓存目录不存在，跳过清理"))
    } else if success {
        Ok(String::from_str("系统缓存清理完成"))
    } else {
        Err(AppError::SystemCommand(concat("清理系统缓存失败: ", trimmed(stderr).as_str())))
    }
}

} // verus!
