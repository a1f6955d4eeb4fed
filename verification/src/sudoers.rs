//! Password-less `sudo` rules for installing packages from the backup and
//! cache directories, and for clearing the pacman cache: the rule text that
//! is offered to the user, and the test of whether a sudoers file already
//! holds it.

use vstd::prelude::*;
use crate::text::{
    chars_of, contains, first_word, first_word_exec, is_line, is_ws, occurs_at, trim, trim_bounds,
    trim_end, trim_start, lemma_trim_end_char_prefix,
    trim_end_char, trim_end_char_len, string_of, sub_vec, vec_contains, vec_eq, decimal,
    decimal_string,
};

verus! {

/// The command prefix every install rule starts with.
pub open spec fn pacman_install_prefix() -> Seq<char> {
    "/usr/bin/pacman -U --noconfirm "@
}

/// The rule fragment for `dir`: `pacman -U` on `dir/*`, `dir/*/*` and
/// `dir/*/*/*` (a sudoers `*` does not cross `/`), with trailing slashes of
/// `dir` removed first.
pub open spec fn spec_install_rules(dir: Seq<char>) -> Seq<char> {
    let d = trim_end_char(dir, '/');
    pacman_install_prefix() + d + "/*, "@ + pacman_install_prefix() + d + "/*/*, "@
        + pacman_install_prefix() + d + "/*/*/*"@
}

/// A trimmed sudoers line grants `user` password-less `pacman -U` below the
/// directory whose rule prefix (ending in `/`) is `base`.
pub open spec fn grants_install(line: Seq<char>, user: Seq<char>, base: Seq<char>) -> bool {
    &&& first_word(line) == Some(user)
    &&& contains(line, "NOPASSWD:"@)
    &&& contains(line, base)
    &&& contains(line, "/*"@)
}

/// The rule prefix of `dir`: the install command followed by the directory
/// (trailing slashes removed) and one `/`, so that a rule for `/data2/*`
/// is no rule for `/data`.
pub open spec fn install_rule_base(dir: Seq<char>) -> Seq<char> {
    pacman_install_prefix() + trim_end_char(dir, '/') + "/"@
}

/// Some line of `content` grants `user` password-less `pacman -U` in `dir`.
pub open spec fn spec_has_install_rule(content: Seq<char>, user: Seq<char>, dir: Seq<char>) -> bool {
    let base = install_rule_base(dir);
    exists|a: int, b: int|
        is_line(content, a, b) && #[trigger] grants_install(trim(content.subrange(a, b)), user, base)
}

/// The path of the pacman package cache.
pub open spec fn system_cache_dir() -> Seq<char> {
    "/var/cache/pacman/pkg"@
}

/// The command that writes `rule` for `user` into the helper's sudoers file,
/// appending when `append` holds and replacing the file otherwise.
pub open spec fn spec_tee_command(user: Seq<char>, rule: Seq<char>, append: bool) -> Seq<char> {
    "echo \""@ + user + " ALL=(ALL) NOPASSWD: "@ + rule + (if append {
        "\" | sudo tee -a /etc/sudoers.d/aur-helper-backup"@
    } else {
        "\" | sudo tee /etc/sudoers.d/aur-helper-backup"@
    })
}

/// The install rules of every directory of `dirs`, joined by `", "`.
pub open spec fn spec_joined_rules(dirs: Seq<Seq<char>>) -> Seq<char>
    decreases dirs.len(),
{
    if dirs.len() == 0 {
        Seq::empty()
    } else if dirs.len() == 1 {
        spec_install_rules(dirs[0])
    } else {
        spec_joined_rules(dirs.drop_last()) + ", "@ + spec_install_rules(dirs.last())
    }
}

/// The views of a list of strings.
pub open spec fn views(v: Seq<String>) -> Seq<Seq<char>> {
    v.map_values(|s: String| s@)
}

/// The cache directories whose install rules are offered: the configured
/// ones, and the system cache when it is not among them.
pub open spec fn spec_cache_install_dirs(configured: Seq<Seq<char>>) -> Seq<Seq<char>> {
    if configured.contains(system_cache_dir()) {
        configured
    } else {
        configured.push(system_cache_dir())
    }
}

/// Appends `t` to `s`.
fn append_str(s: &mut String, t: &str)
    ensures
        final(s)@ == old(s)@ + t@,
{
    s.append(t);
}

/// The `pacman -U` rule fragment for `dir` and its subdirectories down to
/// three levels.
pub fn build_pacman_install_rules(dir: &str) -> (r: String)
    ensures
        r@ == spec_install_rules(dir@),
{
    let v = chars_of(dir);
    let n = trim_end_char_len(&v, '/');
    let d = string_of(&v, 0, n);
    let mut r = String::from_str("/usr/bin/pacman -U --noconfirm ");
    append_str(&mut r, d.as_str());
    append_str(&mut r, "/*, ");
    append_str(&mut r, "/usr/bin/pacman -U --noconfirm ");
    append_str(&mut r, d.as_str());
    append_str(&mut r, "/*/*, ");
    append_str(&mut r, "/usr/bin/pacman -U --noconfirm ");
    append_str(&mut r, d.as_str());
    append_str(&mut r, "/*/*/*");
    r
}

/// Whether the line `v[lo..hi]`, once trimmed, grants `user` the rule whose
/// prefix is `base`.
fn line_grants(v: &Vec<char>, lo: usize, hi: usize, user: &Vec<char>, base: &Vec<char>) -> (r: bool)
    requires
        lo <= hi <= v.len(),
    ensures
        r == grants_install(trim(v@.subrange(lo as int, hi as int)), user@, base@),
{
    let (a, b) = trim_bounds(v, lo, hi);
    let line = sub_vec(v, a, b);
    let first = first_word_exec(&line);
    let user_ok = match first {
        Some(w) => vec_eq(&w, user),
        None => false,
    };
    if !user_ok {
        return false;
    }
    let nopasswd = chars_of("NOPASSWD:");
    let glob = chars_of("/*");
    vec_contains(&line, &nopasswd) && vec_contains(&line, base) && vec_contains(&line, &glob)
}

/// Whether `content` (a sudoers file) has a line for `username` that grants
/// password-less `pacman -U --noconfirm` in `dir`.
pub fn has_pacman_install_rule(content: &str, username: &str, dir: &str) -> (r: bool)
    ensures
        r == spec_has_install_rule(content@, username@, dir@),
{
    let c = chars_of(content);
    let user = chars_of(username);
    let dv = chars_of(dir);
    let dn = trim_end_char_len(&dv, '/');
    let mut base = chars_of("/usr/bin/pacman -U --noconfirm ");
    let mut k: usize = 0;
    while k < dn
        invariant
            k <= dn <= dv.len(),
            base@ == pacman_install_prefix() + dv@.subrange(0, k as int),
        decreases dn - k,
    {
        base.push(dv[k]);
        assert(dv@.subrange(0, k + 1) =~= dv@.subrange(0, k as int).push(dv@[k as int]));
        k = k + 1;
    }
    assert(base@ == pacman_install_prefix() + trim_end_char(dir@, '/'));
    base.push('/');
    proof {
        reveal_strlit("/");
    }
    let ghost cs = c@;
    let ghost bs = base@;
    assert(bs =~= install_rule_base(dir@));
    let mut start: usize = 0;
    let mut i: usize = 0;
    while i < c.len()
        invariant
            cs == c@,
            cs == content@,
            user@ == username@,
            bs == base@,
            bs == install_rule_base(dir@),
            start <= i <= c.len(),
            start == 0 || c@[start - 1] == '\n',
            forall|k: int| start <= k < i ==> c@[k] != '\n',
            forall|a: int, b: int|
                is_line(cs, a, b) && a < start ==> !#[trigger] grants_install(
                    trim(cs.subrange(a, b)),
                    user@,
                    bs,
                ),
        decreases c.len() - i,
    {
        if c[i] == '\n' {
            if line_grants(&c, start, i, &user, &base) {
                assert(is_line(cs, start as int, i as int));
                return true;
            }
            proof {
                assert forall|a: int, b: int|
                    is_line(cs, a, b) && a < i + 1 implies !#[trigger] grants_install(
                        trim(cs.subrange(a, b)),
                        user@,
                        bs,
                    ) by {
                    if a >= start {
                        if a > start {
                            assert(cs[a - 1] != '\n');
                        }
                        if b > i {
                            assert(cs[i as int] != '\n');
                        }
                        if b < i {
                            assert(cs[b] != '\n');
                        }
                    }
                }
            }
            start = i + 1;
        }
        i = i + 1;
    }
    if line_grants(&c, start, i, &user, &base) {
        assert(is_line(cs, start as int, i as int));
        return true;
    }
    proof {
        assert forall|a: int, b: int|
            is_line(cs, a, b) implies !#[trigger] grants_install(
                trim(cs.subrange(a, b)),
                user@,
                bs,
            ) by {
            if a >= start {
                if a > start {
                    assert(cs[a - 1] != '\n');
                }
                if b < i {
                    assert(cs[b] != '\n');
                }
            }
        }
    }
    false
}

/// The command that installs the backup-directory rule for `username`
/// (replacing the helper's sudoers file).
pub fn backup_sudoers_command(username: &str, backup_dir: &str) -> (r: String)
    ensures
        r@ == spec_tee_command(username@, spec_install_rules(backup_dir@), false),
{
    let rule = build_pacman_install_rules(backup_dir);
    let mut r = String::from_str("echo \"");
    append_str(&mut r, username);
    append_str(&mut r, " ALL=(ALL) NOPASSWD: ");
    append_str(&mut r, rule.as_str());
    append_str(&mut r, "\" | sudo tee /etc/sudoers.d/aur-helper-backup");
    r
}

/// The configured cache directories, with the system cache appended when it
/// is not among them.
pub fn cache_install_dirs(configured: Vec<String>) -> (r: Vec<String>)
    ensures
        views(r@) == spec_cache_install_dirs(views(configured@)),
{
    let mut found = false;
    let mut i: usize = 0;
    let ghost cv = views(configured@);
    while i < configured.len()
        invariant
            i <= configured.len(),
            cv == views(configured@),
            found <==> exists|k: int| 0 <= k < i && cv[k] == system_cache_dir(),
        decreases configured.len() - i,
    {
        let sys = String::from_str("/var/cache/pacman/pkg");
        if configured[i] == sys {
            assert(cv[i as int] == system_cache_dir());
            found = true;
        }
        i = i + 1;
    }
    let mut r = configured;
    if !found {
        assert(!cv.contains(system_cache_dir()));
        r.push(String::from_str("/var/cache/pacman/pkg"));
        assert(views(r@) =~= cv.push(system_cache_dir()));
    } else {
        let ghost k = choose|k: int| 0 <= k < i && cv[k] == system_cache_dir();
        assert(cv.contains(system_cache_dir()));
    }
    r
}

/// Whether any of `dirs` has an install rule for `username` in `content`.
pub fn any_dir_has_install_rule(content: &str, username: &str, dirs: &Vec<String>) -> (r: bool)
    ensures
        r == exists|k: int|
            0 <= k < dirs@.len() && spec_has_install_rule(content@, username@, #[trigger] dirs@[k]@),
{
    let mut i: usize = 0;
    while i < dirs.len()
        invariant
            i <= dirs.len(),
            forall|k: int| 0 <= k < i ==> !spec_has_install_rule(content@, username@, #[trigger] dirs@[k]@),
        decreases dirs.len() - i,
    {
        if has_pacman_install_rule(content, username, dirs[i].as_str()) {
            return true;
        }
        i = i + 1;
    }
    false
}

/// Whether every one of `dirs` has an install rule for `username` in `content`.
pub fn all_dirs_have_install_rule(content: &str, username: &str, dirs: &Vec<String>) -> (r: bool)
    ensures
        r == forall|k: int|
            0 <= k < dirs@.len() ==> spec_has_install_rule(content@, username@, #[trigger] dirs@[k]@),
{
    let mut i: usize = 0;
    while i < dirs.len()
        invariant
            i <= dirs.len(),
            forall|k: int| 0 <= k < i ==> spec_has_install_rule(content@, username@, #[trigger] dirs@[k]@),
        decreases dirs.len() - i,
    {
        if !has_pacman_install_rule(content, username, dirs[i].as_str()) {
            return false;
        }
        i = i + 1;
    }
    true
}

/// Whether the cache-install rule is in place: the sudoers file could be
/// read (`content` is `Some`) and grants `username` the rule for each of
/// `dirs`.
pub fn check_cache_install_rules(content: Option<&str>, username: &str, dirs: &Vec<String>) -> (r: bool)
    ensures
        r == (content matches Some(c) && forall|k: int|
            0 <= k < dirs@.len() ==> spec_has_install_rule(c@, username@, #[trigger] dirs@[k]@)),
{
    match content {
        Some(c) => all_dirs_have_install_rule(c, username, dirs),
        None => false,
    }
}

/// The install rules of every directory of `dirs`, joined by `", "`.
pub fn join_install_rules(dirs: &Vec<String>) -> (r: String)
    ensures
        r@ == spec_joined_rules(views(dirs@)),
{
    let mut r = String::new();
    let mut i: usize = 0;
    while i < dirs.len()
        invariant
            i <= dirs.len(),
            r@ == spec_joined_rules(views(dirs@).subrange(0, i as int)),
        decreases dirs.len() - i,
    {
        let rule = build_pacman_install_rules(dirs[i].as_str());
        let ghost prev = views(dirs@).subrange(0, i as int);
        let ghost next = views(dirs@).subrange(0, i + 1);
        assert(next.drop_last() =~= prev);
        if i > 0 {
            append_str(&mut r, ", ");
        } else {
            assert(prev =~= Seq::<Seq<char>>::empty());
        }
        append_str(&mut r, rule.as_str());
        i = i + 1;
    }
    assert(views(dirs@).subrange(0, dirs@.len() as int) =~= views(dirs@));
    r
}

/// The message given when every cache directory already has its rule.
pub open spec fn cache_install_rules_present_message() -> Seq<char> {
    "sudoers 配置已包含缓存安装规则，无需重复配置"@
}

/// What the cache-install setup offers, given the sudoers file when it could
/// be read: a note when every directory already has its rule, else the
/// command appending the rules (file readable) or creating the file.
pub open spec fn spec_cache_install_command(
    user: Seq<char>,
    dirs: Seq<Seq<char>>,
    existing: Option<Seq<char>>,
) -> Seq<char> {
    let rule = spec_joined_rules(dirs);
    match existing {
        Some(c) => if forall|k: int| 0 <= k < dirs.len() ==> spec_has_install_rule(c, user, #[trigger] dirs[k]) {
            cache_install_rules_present_message()
        } else {
            spec_tee_command(user, rule, true)
        },
        None => spec_tee_command(user, rule, false),
    }
}

/// The command (or note) for setting up password-less cache installs.
pub fn cache_install_sudoers_command(username: &str, dirs: &Vec<String>, existing: Option<&str>) -> (r: String)
    ensures
        r@ == spec_cache_install_command(
            username@,
            views(dirs@),
            match existing { Some(c) => Some(c@), None => None },
        ),
{
    let rule = join_install_rules(dirs);
    let append = match existing {
        Some(c) => {
            let all = all_dirs_have_install_rule(c, username, dirs);
            proof {
                assert(all == forall|k: int| 0 <= k < views(dirs@).len()
                    ==> spec_has_install_rule(c@, username@, #[trigger] views(dirs@)[k])) by {
                    if all {
                        assert forall|k: int| 0 <= k < views(dirs@).len() implies
                            spec_has_install_rule(c@, username@, #[trigger] views(dirs@)[k]) by {
                            assert(views(dirs@)[k] == dirs@[k]@);
                        }
                    } else {
                        let k = choose|k: int| 0 <= k < dirs@.len()
                            && !spec_has_install_rule(c@, username@, #[trigger] dirs@[k]@);
                        assert(views(dirs@)[k] == dirs@[k]@);
                    }
                }
            }
            if all {
                return String::from_str("sudoers 配置已包含缓存安装规则，无需重复配置");
            }
            true
        },
        None => false,
    };
    let mut r = String::from_str("echo \"");
    append_str(&mut r, username);
    append_str(&mut r, " ALL=(ALL) NOPASSWD: ");
    append_str(&mut r, rule.as_str());
    if append {
        append_str(&mut r, "\" | sudo tee -a /etc/sudoers.d/aur-helper-backup");
    } else {
        append_str(&mut r, "\" | sudo tee /etc/sudoers.d/aur-helper-backup");
    }
    r
}

/// The cache-clearing command that a sudoers rule must allow.
pub open spec fn cache_cleanup_rule() -> Seq<char> {
    "/usr/bin/rm -rf /var/cache/pacman/pkg/*"@
}

/// Whether the cache-clearing rule is in place: the sudoers file could be
/// read, holds `"{username} ALL=(ALL) NOPASSWD:"` and the cache-clearing
/// command.
pub fn check_cache_cleanup_rule(content: Option<&str>, username: &str) -> (r: bool)
    ensures
        r == (content matches Some(c)
            && contains(c@, username@ + " ALL=(ALL) NOPASSWD:"@)
            && contains(c@, cache_cleanup_rule())),
{
    match content {
        Some(c) => {
            let cv = chars_of(c);
            let mut pat = String::from_str(username);
            append_str(&mut pat, " ALL=(ALL) NOPASSWD:");
            let pv = chars_of(pat.as_str());
            if !vec_contains(&cv, &pv) {
                return false;
            }
            let rule = chars_of("/usr/bin/rm -rf /var/cache/pacman/pkg/*");
            vec_contains(&cv, &rule)
        },
        None => false,
    }
}

/// What the cache-clearing setup offers, given the sudoers file when it
/// could be read.
pub open spec fn spec_cache_cleanup_command(user: Seq<char>, existing: Option<Seq<char>>) -> Seq<char> {
    match existing {
        Some(c) => if contains(c, cache_cleanup_rule()) {
            "sudoers 配置已包含缓存清理规则，无需重复配置"@
        } else {
            spec_tee_command(user, cache_cleanup_rule(), true)
        },
        None => spec_tee_command(
            user,
            "/usr/bin/pacman -U *, /usr/bin/rm -rf /var/cache/pacman/pkg/*"@,
            false,
        ),
    }
}

/// The command (or note) for setting up password-less cache clearing.
pub fn cache_cleanup_sudoers_command(username: &str, existing: Option<&str>) -> (r: String)
    ensures
        r@ == spec_cache_cleanup_command(username@, match existing { Some(c) => Some(c@), None => None }),
{
    let append = match existing {
        Some(c) => {
            let cv = chars_of(c);
            let rule = chars_of("/usr/bin/rm -rf /var/cache/pacman/pkg/*");
            if vec_contains(&cv, &rule) {
                return String::from_str("sudoers 配置已包含缓存清理规则，无需重复配置");
            }
            true
        },
        None => false,
    };
    let mut r = String::from_str("echo \"");
    append_str(&mut r, username);
    append_str(&mut r, " ALL=(ALL) NOPASSWD: ");
    if append {
        append_str(&mut r, "/usr/bin/rm -rf /var/cache/pacman/pkg/*");
        append_str(&mut r, "\" | sudo tee -a /etc/sudoers.d/aur-helper-backup");
    } else {
        append_str(&mut r, "/usr/bin/pacman -U *, /usr/bin/rm -rf /var/cache/pacman/pkg/*");
        append_str(&mut r, "\" | sudo tee /etc/sudoers.d/aur-helper-backup");
    }
    r
}

/// The cache directories to empty when clearing custom caches: every
/// configured one but the system cache, in order.
pub fn custom_cache_dirs_to_clean(paths: &Vec<String>) -> (r: Vec<String>)
    ensures
        views(r@) == views(paths@).filter(|p: Seq<char>| p != system_cache_dir()),
{
    let mut r: Vec<String> = Vec::new();
    let mut i: usize = 0;
    while i < paths.len()
        invariant
            i <= paths.len(),
            views(r@) == views(paths@).subrange(0, i as int).filter(|p: Seq<char>| p != system_cache_dir()),
        decreases paths.len() - i,
    {
        let ghost prev = views(paths@).subrange(0, i as int);
        let ghost old_r = r@;
        assert(views(paths@).subrange(0, i + 1) =~= prev.push(paths@[i as int]@));
        let sys = String::from_str("/var/cache/pacman/pkg");
        if paths[i] != sys {
            r.push(paths[i].clone());
            assert(views(r@) =~= views(old_r).push(paths@[i as int]@));
        }
        proof {
            prev.lemma_filter_push(paths@[i as int]@, |p: Seq<char>| p != system_cache_dir());
        }
        i = i + 1;
    }
    assert(views(paths@).subrange(0, paths@.len() as int) =~= views(paths@));
    r
}

/// The report of a custom-cache clearing run: how many entries were
/// removed and, when some failed, how many errors there were.
pub open spec fn spec_cleanup_message(cleaned: nat, errors: nat) -> Seq<char> {
    if errors == 0 {
        "自定义缓存目录清理完成，共删除 "@ + decimal(cleaned) + " 个条目"@
    } else {
        "自定义缓存目录清理完成，删除 "@ + decimal(cleaned) + " 个条目，"@ + decimal(errors)
            + " 个错误"@
    }
}

/// The report of a custom-cache clearing run.
pub fn custom_cache_cleanup_message(cleaned: u64, errors: u64) -> (r: String)
    ensures
        r@ == spec_cleanup_message(cleaned as nat, errors as nat),
{
    let n = decimal_string(cleaned);
    if errors == 0 {
        let mut r = String::from_str("自定义缓存目录清理完成，共删除 ");
        append_str(&mut r, n.as_str());
        append_str(&mut r, " 个条目");
        r
    } else {
        let e = decimal_string(errors);
        let mut r = String::from_str("自定义缓存目录清理完成，删除 ");
        append_str(&mut r, n.as_str());
        append_str(&mut r, " 个条目，");
        append_str(&mut r, e.as_str());
        append_str(&mut r, " 个错误");
        r
    }
}

// ---------------------------------------------------------------------------
// Laws
// ---------------------------------------------------------------------------

/// The sudoers line that grants `user` the install rules of `dir`.
pub open spec fn granted_line(user: Seq<char>, dir: Seq<char>) -> Seq<char> {
    user + " ALL=(ALL) NOPASSWD: "@ + spec_install_rules(dir)
}

proof fn lemma_occurs_in_concat(a: Seq<char>, b: Seq<char>, c: Seq<char>)
    ensures
        occurs_at(a + b + c, b, a.len() as int),
        contains(a + b + c, b),
{
    assert((a + b + c).subrange(a.len() as int, (a.len() + b.len()) as int) =~= b);
}

/// The generated line holds no line break, is its own trim, starts with
/// the user's name and grants the install rule of `dir`.
proof fn lemma_granted_line_facts(user: Seq<char>, dir: Seq<char>)
    requires
        user.len() > 0,
        forall|i: int| 0 <= i < user.len() ==> !is_ws(#[trigger] user[i]),
        forall|i: int| 0 <= i < dir.len() ==> #[trigger] dir[i] != '\n',
    ensures
        forall|k: int| 0 <= k < granted_line(user, dir).len() ==> #[trigger] granted_line(user, dir)[k] != '\n',
        trim(granted_line(user, dir)) == granted_line(user, dir),
        first_word(granted_line(user, dir)) == Some(user),
        grants_install(granted_line(user, dir), user, install_rule_base(dir)),
{
    reveal_strlit(" ALL=(ALL) NOPASSWD: ");
    reveal_strlit("NOPASSWD:");
    reveal_strlit("/usr/bin/pacman -U --noconfirm ");
    reveal_strlit("/*, ");
    reveal_strlit("/*/*, ");
    reveal_strlit("/*/*/*");
    reveal_strlit("/*");
    reveal_strlit("*, ");
    reveal_strlit(" ALL=(ALL) ");
    reveal_strlit(" ");
    reveal_strlit(", ");
    let d = trim_end_char(dir, '/');
    lemma_trim_end_char_prefix(dir, '/');
    let p = pacman_install_prefix();
    let mid = " ALL=(ALL) NOPASSWD: "@;
    let line = granted_line(user, dir);
    let base = p + d;
    // the rules, spelled out
    let rules = spec_install_rules(dir);
    assert(rules == p + d + "/*, "@ + p + d + "/*/*, "@ + p + d + "/*/*/*"@);
    // no line break inside the line
    assert forall|k: int| 0 <= k < line.len() implies line[k] != '\n' by {
        if k < user.len() {
            assert(line[k] == user[k]);
            assert(!is_ws(user[k]));
        } else if k < user.len() + mid.len() {
            assert(line[k] == mid[k - user.len()]);
        } else {
            let j = k - user.len() - mid.len();
            assert(line[k] == rules[j]);
            let seg = p + d;
            if j < seg.len() {
                if j >= p.len() {
                    assert(d[j - p.len()] == dir[j - p.len()]);
                }
            }
            assert(rules[j] != '\n') by {
                if j < p.len() {
                } else if j < p.len() + d.len() {
                    assert(rules[j] == d[j - p.len()]);
                } else if j < p.len() + d.len() + 4 {
                } else if j < 2 * p.len() + d.len() + 4 {
                } else if j < 2 * p.len() + 2 * d.len() + 4 {
                    assert(rules[j] == d[j - 2 * p.len() - d.len() - 4]);
                } else if j < 2 * p.len() + 2 * d.len() + 10 {
                } else if j < 3 * p.len() + 2 * d.len() + 10 {
                } else if j < 3 * p.len() + 3 * d.len() + 10 {
                    assert(rules[j] == d[j - 3 * p.len() - 2 * d.len() - 10]);
                } else {
                }
            }
        }
    }
    // the line is its own trim
    assert(!is_ws(line[0])) by {
        assert(line[0] == user[0]);
    }
    assert(line[line.len() - 1] == '*');
    assert(trim_start(line) == line);
    assert(trim_end(line) == line);
    assert(trim(line) == line);
    // its first word is the user
    assert(is_ws(line[user.len() as int])) by {
        assert(line[user.len() as int] == mid[0]);
    }
    crate::text::lemma_word_len_at(line, user.len() as int);
    assert(line.subrange(0, user.len() as int) =~= user);
    assert(first_word(line) == Some(user));
    // it holds the three patterns
    lemma_occurs_in_concat(user + " ALL=(ALL) "@, "NOPASSWD:"@, " "@ + rules);
    assert(" ALL=(ALL) "@ + "NOPASSWD:"@ + " "@ =~= mid);
    assert(user + " ALL=(ALL) "@ + "NOPASSWD:"@ + (" "@ + rules) =~= line);
    reveal_strlit("/");
    assert("/"@ + "*, "@ =~= "/*, "@);
    assert(base + "/"@ =~= install_rule_base(dir));
    lemma_occurs_in_concat(user + mid, base + "/"@, "*, "@ + p + d + "/*/*, "@ + p + d + "/*/*/*"@);
    assert(user + mid + (base + "/"@) + ("*, "@ + p + d + "/*/*, "@ + p + d + "/*/*/*"@) =~= line);
    lemma_occurs_in_concat(user + mid + base, "/*"@, ", "@ + p + d + "/*/*, "@ + p + d + "/*/*/*"@);
    assert("/*"@ + ", "@ =~= "/*, "@);
    assert(user + mid + base + "/*"@ + (", "@ + p + d + "/*/*, "@ + p + d + "/*/*/*"@) =~= line);
    assert(grants_install(line, user, install_rule_base(dir)));
}


/// The lines of `line + "\n"` (or of `line` alone, `nl` false) for a `line`
/// without line breaks: the line itself, and after the break an empty one.
proof fn lemma_lines_of_single_line(line: Seq<char>, nl: bool, a: int, b: int)
    requires
        forall|k: int| 0 <= k < line.len() ==> #[trigger] line[k] != '\n',
        is_line(if nl { line + "\n"@ } else { line }, a, b),
    ensures
        (a == 0 && b == line.len()) || (nl && a == line.len() + 1 && b == a),
{
    reveal_strlit("\n");
    let content = if nl { line + "\n"@ } else { line };
    if a > 0 {
        assert(content[a - 1] == '\n');
        if a - 1 < line.len() {
            assert(content[a - 1] == line[a - 1]);
        }
    }
    if a == 0 {
        if b < content.len() {
            assert(content[b] == '\n');
            if b < line.len() {
                assert(content[b] == line[b]);
            }
        }
        if nl && b == content.len() {
            assert(content[line.len() as int] == '\n');
        }
    }
}

/// What the setup command writes is what the check looks for, and only for
/// that user: the sudoers file holding the line `{user} ALL=(ALL) NOPASSWD:
/// {rules of dir}` (with or without a final line break) grants `user`
/// password-less installs in `dir`, and grants them to no other user; for a
/// user name that is a single word and a directory name without line
/// breaks.
pub proof fn lemma_generated_rule_is_recognized(user: Seq<char>, other: Seq<char>, dir: Seq<char>)
    requires
        user.len() > 0,
        forall|i: int| 0 <= i < user.len() ==> !is_ws(#[trigger] user[i]),
        forall|i: int| 0 <= i < dir.len() ==> #[trigger] dir[i] != '\n',
        other != user,
    ensures
        spec_has_install_rule(granted_line(user, dir) + "\n"@, user, dir),
        spec_has_install_rule(granted_line(user, dir), user, dir),
        !spec_has_install_rule(granted_line(user, dir) + "\n"@, other, dir),
        !spec_has_install_rule(granted_line(user, dir), other, dir),
{
    reveal_strlit("\n");
    lemma_granted_line_facts(user, dir);
    let line = granted_line(user, dir);
    let base = install_rule_base(dir);
    let c1 = line + "\n"@;
    assert(is_line(c1, 0, line.len() as int)) by {
        assert(c1[line.len() as int] == '\n');
        assert forall|k: int| 0 <= k < line.len() implies c1[k] != '\n' by {
            assert(c1[k] == line[k]);
        }
    }
    assert(c1.subrange(0, line.len() as int) =~= line);
    assert(grants_install(trim(c1.subrange(0, line.len() as int)), user, base));
    assert(is_line(line, 0, line.len() as int));
    assert(line.subrange(0, line.len() as int) =~= line);
    assert(grants_install(trim(line.subrange(0, line.len() as int)), user, base));
    assert forall|a: int, b: int| is_line(c1, a, b) implies !#[trigger] grants_install(
        trim(c1.subrange(a, b)), other, base) by {
        lemma_lines_of_single_line(line, true, a, b);
        if a == 0 {
            assert(c1.subrange(a, b) =~= line);
        } else {
            assert(c1.subrange(a, b) =~= Seq::<char>::empty());
            assert(trim_start(Seq::<char>::empty()) =~= Seq::<char>::empty());
            assert(first_word(trim(Seq::<char>::empty())) is None);
        }
    }
    assert forall|a: int, b: int| is_line(line, a, b) implies !#[trigger] grants_install(
        trim(line.subrange(a, b)), other, base) by {
        lemma_lines_of_single_line(line, false, a, b);
        assert(line.subrange(a, b) =~= line);
    }
}

/// A directory and the same directory with a trailing `/` have the same
/// install rule: the check answers alike for both.
pub proof fn lemma_trailing_slash_alike(content: Seq<char>, user: Seq<char>, dir: Seq<char>)
    ensures
        spec_has_install_rule(content, user, dir + "/"@) == spec_has_install_rule(content, user, dir),
{
    reveal_strlit("/");
    let ds = dir + "/"@;
    assert(ds.len() > 0 && ds.last() == '/');
    assert(ds.drop_last() =~= dir);
    assert(trim_end_char(ds, '/') == trim_end_char(dir, '/'));
    assert(install_rule_base(ds) == install_rule_base(dir));
}

/// The cache-install setup says the rules are already in place only when
/// every cache directory has its rule: as soon as one directory of `dirs`
/// lacks an install rule for `user` in the readable sudoers file, the
/// setup offers the command appending the rules of all the directories;
/// when every directory has its rule it offers the note; when the file
/// cannot be read it offers the command creating the file.
pub proof fn lemma_missing_install_rule_is_appended(
    user: Seq<char>,
    dirs: Seq<Seq<char>>,
    existing: Option<Seq<char>>,
    k: int,
)
    ensures
        existing matches Some(c) && 0 <= k < dirs.len() && !spec_has_install_rule(c, user, dirs[k])
            ==> spec_cache_install_command(user, dirs, existing)
                == spec_tee_command(user, spec_joined_rules(dirs), true),
        (existing matches Some(c) && forall|j: int| 0 <= j < dirs.len()
            ==> #[trigger] spec_has_install_rule(c, user, dirs[j]))
            ==> spec_cache_install_command(user, dirs, existing) == "sudoers 配置已包含缓存安装规则，无需重复配置"@,
        existing is None ==> spec_cache_install_command(user, dirs, existing)
            == spec_tee_command(user, spec_joined_rules(dirs), false),
{
}

/// The line the cache-clearing setup writes for `user`: only the clearing
/// rule when it is appended to an existing file, the install and clearing
/// rules when it creates the file.
pub open spec fn cleanup_line(user: Seq<char>, appended: bool) -> Seq<char> {
    user + " ALL=(ALL) NOPASSWD: "@ + (if appended {
        cache_cleanup_rule()
    } else {
        "/usr/bin/pacman -U *, /usr/bin/rm -rf /var/cache/pacman/pkg/*"@
    })
}

/// What the cache-clearing setup writes is what its check looks for: once
/// the offered line is written (appended to a file that lacked the rule, or
/// as a new file), the file names the user's password-less rule and the
/// cache-clearing command.
pub proof fn lemma_cleanup_rule_is_recognized(user: Seq<char>, existing: Option<Seq<char>>)
    requires
        existing matches Some(c) ==> !contains(c, cache_cleanup_rule()),
    ensures
        ({
            let written = match existing {
                Some(c) => c + cleanup_line(user, true) + "\n"@,
                None => cleanup_line(user, false) + "\n"@,
            };
            &&& contains(written, user + " ALL=(ALL) NOPASSWD:"@)
            &&& contains(written, cache_cleanup_rule())
        }),
{
    reveal_strlit(" ALL=(ALL) NOPASSWD: ");
    reveal_strlit(" ALL=(ALL) NOPASSWD:");
    reveal_strlit(" ");
    reveal_strlit("/usr/bin/pacman -U *, /usr/bin/rm -rf /var/cache/pacman/pkg/*");
    reveal_strlit("/usr/bin/pacman -U *, ");
    reveal_strlit("/usr/bin/rm -rf /var/cache/pacman/pkg/*");
    let pre = match existing { Some(c) => c, None => Seq::<char>::empty() };
    let appended = existing is Some;
    let tail = if appended {
        cache_cleanup_rule()
    } else {
        "/usr/bin/pacman -U *, /usr/bin/rm -rf /var/cache/pacman/pkg/*"@
    };
    let written = pre + cleanup_line(user, appended) + "\n"@;
    assert(written =~= match existing {
        Some(c) => c + cleanup_line(user, true) + "\n"@,
        None => cleanup_line(user, false) + "\n"@,
    });
    let head = user + " ALL=(ALL) NOPASSWD:"@;
    assert(" ALL=(ALL) NOPASSWD:"@ + " "@ =~= " ALL=(ALL) NOPASSWD: "@);
    lemma_occurs_in_concat(pre, head, " "@ + tail + "\n"@);
    assert(pre + head + (" "@ + tail + "\n"@) =~= written);
    let lead = if appended { Seq::<char>::empty() } else { "/usr/bin/pacman -U *, "@ };
    assert(lead + cache_cleanup_rule() =~= tail);
    lemma_occurs_in_concat(pre + head + " "@ + lead, cache_cleanup_rule(), "\n"@);
    assert(pre + head + " "@ + lead + cache_cleanup_rule() + "\n"@ =~= written);
}

} // verus!
