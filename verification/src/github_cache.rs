//! How the tag cache is used by a batch check: which GitHub repositories are
//! looked up, which packages get their version straight from a valid cache
//! row, which packages still go to the network, and which repositories
//! still lack a cache row afterwards.
//!
//! The repository a package's URL names is computed by the caller and
//! handed in as `task_repos[i]` for `tasks[i]`.

use vstd::prelude::*;
use crate::batch::{PackageTask, UpstreamCheckResult};
use crate::models::PackageType;
use crate::tag_cache::{
    decode_tags, recompute_version_from_tags, spec_decode_tags, spec_recompute_version,
    views, CacheCheckResult,
};

verus! {

/// A repository as `(owner, repo)` views.
pub open spec fn pair_view(p: (String, String)) -> (Seq<char>, Seq<char>) {
    (p.0@, p.1@)
}

/// The views of a list of repositories.
pub open spec fn pair_views(v: Seq<(String, String)>) -> Seq<(Seq<char>, Seq<char>)> {
    v.map_values(|p: (String, String)| pair_view(p))
}

/// The view of an optional repository.
pub open spec fn opt_pair_view(r: Option<(String, String)>) -> Option<(Seq<char>, Seq<char>)> {
    match r {
        Some(p) => Some(pair_view(p)),
        None => None,
    }
}

/// A package whose version can come from the tag cache: a GitHub checker,
/// no Git package, and a URL that names a repository.
pub open spec fn is_cacheable(t: PackageTask, repo: Option<(Seq<char>, Seq<char>)>) -> bool {
    t.checker_type.spec_is_github() && t.package_type != PackageType::Git && repo is Some
}

/// Whether two repositories are the same.
pub fn same_repo(a: &(String, String), b: &(String, String)) -> (r: bool)
    ensures
        r == (pair_view(*a) == pair_view(*b)),
{
    a.0 == b.0 && a.1 == b.1
}

/// Whether `p` is among `v`.
pub fn repo_listed(v: &Vec<(String, String)>, p: &(String, String)) -> (r: bool)
    ensures
        r == pair_views(v@).contains(pair_view(*p)),
{
    let mut i: usize = 0;
    while i < v.len()
        invariant
            i <= v.len(),
            forall|k: int| 0 <= k < i ==> pair_view(#[trigger] v@[k]) != pair_view(*p),
        decreases v.len() - i,
    {
        if same_repo(&v[i], p) {
            assert(pair_views(v@)[i as int] == pair_view(*p));
            return true;
        }
        i = i + 1;
    }
    proof {
        if pair_views(v@).contains(pair_view(*p)) {
            let k = choose|k: int| 0 <= k < pair_views(v@).len() && pair_views(v@)[k] == pair_view(*p);
            assert(pair_view(v@[k]) == pair_view(*p));
        }
    }
    false
}

/// A copy of a repository pair.
pub fn copy_pair(p: &(String, String)) -> (r: (String, String))
    ensures
        r == *p,
{
    (p.0.clone(), p.1.clone())
}

proof fn lemma_push_contains<A>(s: Seq<A>, a: A, x: A)
    ensures
        s.push(a).contains(x) <==> (s.contains(x) || x == a),
{
    if s.push(a).contains(x) {
        let k = choose|k: int| 0 <= k < s.push(a).len() && s.push(a)[k] == x;
        if k < s.len() {
            assert(s[k] == x);
        }
    }
    if s.contains(x) {
        let k = choose|k: int| 0 <= k < s.len() && s[k] == x;
        assert(s.push(a)[k] == x);
    }
    if x == a {
        assert(s.push(a)[s.len() as int] == x);
    }
}

/// The repositories named by the cacheable packages, in task order (a
/// repository appears once per package).
pub open spec fn candidate_repos(
    tasks: Seq<PackageTask>,
    task_repos: Seq<Option<(String, String)>>,
) -> Seq<(Seq<char>, Seq<char>)>
    decreases tasks.len(),
{
    if tasks.len() == 0 || task_repos.len() != tasks.len() {
        Seq::empty()
    } else {
        let prev = candidate_repos(tasks.drop_last(), task_repos.drop_last());
        if is_cacheable(tasks.last(), opt_pair_view(task_repos.last())) {
            prev.push(opt_pair_view(task_repos.last()).unwrap())
        } else {
            prev
        }
    }
}

/// The repositories to look up in the cache: those of the cacheable
/// packages, each once (the order of the result is not part of the contract).
pub fn distinct_github_repos(tasks: &Vec<PackageTask>, task_repos: &Vec<Option<(String, String)>>) -> (r: Vec<(String, String)>)
    requires
        task_repos.len() == tasks.len(),
    ensures
        forall|j: int, k: int| 0 <= j < k < r.len() ==> pair_view(r@[j]) != pair_view(r@[k]),
        forall|x: (Seq<char>, Seq<char>)|
            pair_views(r@).contains(x) <==> #[trigger] candidate_repos(tasks@, task_repos@).contains(x),
{
    let mut r: Vec<(String, String)> = Vec::new();
    let mut i: usize = 0;
    while i < tasks.len()
        invariant
            i <= tasks.len(),
            task_repos.len() == tasks.len(),
            forall|j: int, k: int| 0 <= j < k < r.len() ==> pair_view(r@[j]) != pair_view(r@[k]),
            forall|x: (Seq<char>, Seq<char>)|
                pair_views(r@).contains(x) <==> #[trigger] candidate_repos(
                    tasks@.subrange(0, i as int),
                    task_repos@.subrange(0, i as int),
                ).contains(x),
        decreases tasks.len() - i,
    {
        let ghost prev = candidate_repos(tasks@.subrange(0, i as int), task_repos@.subrange(0, i as int));
        assert(tasks@.subrange(0, i + 1).drop_last() =~= tasks@.subrange(0, i as int));
        assert(task_repos@.subrange(0, i + 1).drop_last() =~= task_repos@.subrange(0, i as int));
        let ghost next = candidate_repos(tasks@.subrange(0, i + 1), task_repos@.subrange(0, i + 1));
        let ghost old_views = pair_views(r@);
        assert(forall|x: (Seq<char>, Seq<char>)| old_views.contains(x) <==> #[trigger] prev.contains(x));
        let t = &tasks[i];
        let mut added = false;
        if t.checker_type.is_github() && t.package_type != PackageType::Git {
            match &task_repos[i] {
                Some(p) => {
                    assert(next == prev.push(pair_view(*p)));
                    let listed = repo_listed(&r, p);
                    if !listed {
                        let ghost old_r = r@;
                        r.push(copy_pair(p));
                        proof {
                            assert(pair_views(r@) =~= old_views.push(pair_view(*p)));
                            assert forall|j: int, k: int| 0 <= j < k < r.len() implies pair_view(r@[j]) != pair_view(r@[k]) by {
                                if k == r.len() - 1 {
                                    assert(old_views[j] == pair_view(r@[j]));
                                }
                            }
                        }
                    }
                    added = true;
                    proof {
                        assert forall|x: (Seq<char>, Seq<char>)|
                            pair_views(r@).contains(x) <==> #[trigger] next.contains(x) by {
                            lemma_push_contains(prev, pair_view(*p), x);
                            if !listed {
                                lemma_push_contains(old_views, pair_view(*p), x);
                            }
                        }
                    }
                },
                None => {},
            }
        }
        if !added {
            assert(next == prev);
        }
        i = i + 1;
    }
    assert(tasks@.subrange(0, tasks@.len() as int) =~= tasks@);
    assert(task_repos@.subrange(0, task_repos@.len() as int) =~= task_repos@);
    r
}

/// The tasks of the cacheable packages of repository `repo`, in order.
pub open spec fn spec_repo_tasks(
    tasks: Seq<PackageTask>,
    task_repos: Seq<Option<(String, String)>>,
    repo: (Seq<char>, Seq<char>),
) -> Seq<PackageTask>
    decreases tasks.len(),
{
    if tasks.len() == 0 || task_repos.len() != tasks.len() {
        Seq::empty()
    } else {
        let prev = spec_repo_tasks(tasks.drop_last(), task_repos.drop_last(), repo);
        if is_cacheable(tasks.last(), opt_pair_view(task_repos.last()))
            && opt_pair_view(task_repos.last()) == Some(repo) {
            prev.push(tasks.last())
        } else {
            prev
        }
    }
}

/// The tasks of the cacheable packages of repository `repo`, in order.
pub fn repo_tasks(
    tasks: &Vec<PackageTask>,
    task_repos: &Vec<Option<(String, String)>>,
    repo: &(String, String),
) -> (r: Vec<PackageTask>)
    requires
        task_repos.len() == tasks.len(),
    ensures
        r@ == spec_repo_tasks(tasks@, task_repos@, pair_view(*repo)),
{
    let mut r: Vec<PackageTask> = Vec::new();
    let mut i: usize = 0;
    while i < tasks.len()
        invariant
            i <= tasks.len(),
            task_repos.len() == tasks.len(),
            r@ == spec_repo_tasks(tasks@.subrange(0, i as int), task_repos@.subrange(0, i as int), pair_view(*repo)),
        decreases tasks.len() - i,
    {
        assert(tasks@.subrange(0, i + 1).drop_last() =~= tasks@.subrange(0, i as int));
        assert(task_repos@.subrange(0, i + 1).drop_last() =~= task_repos@.subrange(0, i as int));
        let t = &tasks[i];
        if t.checker_type.is_github() && t.package_type != PackageType::Git {
            match &task_repos[i] {
                Some(p) => {
                    if same_repo(p, repo) {
                        r.push(t.copy());
                    }
                },
                None => {},
            }
        }
        i = i + 1;
    }
    assert(tasks@.subrange(0, tasks@.len() as int) =~= tasks@);
    assert(task_repos@.subrange(0, task_repos@.len() as int) =~= task_repos@);
    r
}

/// A result row by its views: package name, package id, upstream version,
/// outdated flag, license, languages.
pub open spec fn result_view(r: UpstreamCheckResult) -> (Seq<char>, i64, Seq<char>, bool, Option<Seq<char>>, Seq<Seq<char>>) {
    (
        r.pkgname@,
        r.software_id,
        r.upstream_version@,
        r.is_outdated,
        match r.license_spdx_id { Some(l) => Some(l@), None => None },
        views(r.language_names@),
    )
}

/// The views of a list of result rows.
pub open spec fn result_views(v: Seq<UpstreamCheckResult>) -> Seq<(Seq<char>, i64, Seq<char>, bool, Option<Seq<char>>, Seq<Seq<char>>)> {
    v.map_values(|r: UpstreamCheckResult| result_view(r))
}

/// The optional view of an optional string.
pub open spec fn opt_view(o: Option<String>) -> Option<Seq<char>> {
    match o {
        Some(s) => Some(s@),
        None => None,
    }
}

/// The rows served from cached tags: for each task whose pattern yields a
/// version from the tags, its name, id and that version (not outdated, no
/// license, no languages), in order.
pub open spec fn spec_cache_hit_results(
    tasks: Seq<PackageTask>,
    tags: Seq<Seq<char>>,
) -> Seq<(Seq<char>, i64, Seq<char>, bool, Option<Seq<char>>, Seq<Seq<char>>)>
    decreases tasks.len(),
{
    if tasks.len() == 0 {
        Seq::empty()
    } else {
        let prev = spec_cache_hit_results(tasks.drop_last(), tags);
        let t = tasks.last();
        match spec_recompute_version(tags, opt_view(t.version_extract_regex)) {
            Some(v) => prev.push((t.pkgname@, t.software_id, v, false, None, Seq::empty())),
            None => prev,
        }
    }
}

/// The rows served from cached tags for the tasks of one repository.
pub fn cache_hit_results(tasks: &Vec<PackageTask>, tags: &Vec<String>) -> (r: Vec<UpstreamCheckResult>)
    ensures
        result_views(r@) == spec_cache_hit_results(tasks@, views(tags@)),
{
    let mut r: Vec<UpstreamCheckResult> = Vec::new();
    let mut i: usize = 0;
    while i < tasks.len()
        invariant
            i <= tasks.len(),
            result_views(r@) == spec_cache_hit_results(tasks@.subrange(0, i as int), views(tags@)),
        decreases tasks.len() - i,
    {
        assert(tasks@.subrange(0, i + 1).drop_last() =~= tasks@.subrange(0, i as int));
        let t = &tasks[i];
        let regex = match &t.version_extract_regex {
            Some(s) => Some(s.as_str()),
            None => None,
        };
        let ghost old_r = r@;
        match recompute_version_from_tags(tags, regex) {
            Some(v) => {
                r.push(UpstreamCheckResult {
                    pkgname: t.pkgname.clone(),
                    software_id: t.software_id,
                    upstream_version: v,
                    is_outdated: false,
                    license_spdx_id: None,
                    language_names: Vec::new(),
                });
                assert(views(r@.last().language_names@) =~= Seq::<Seq<char>>::empty());
                assert(result_views(r@) =~= result_views(old_r).push(result_view(r@.last())));
            },
            None => {},
        }
        i = i + 1;
    }
    assert(tasks@.subrange(0, tasks@.len() as int) =~= tasks@);
    r
}

/// What the cache check of one repository contributes: whether the
/// repository's packages skip the network, and the rows served from cache.
/// Only a hit or extended row whose document holds tags is served; a failed
/// check, a missing row, or a row without tags sends the packages to the
/// network.
pub open spec fn spec_repo_cache_outcome(
    result: Option<CacheCheckResult>,
    data_json: Option<Seq<char>>,
    tasks: Seq<PackageTask>,
) -> (bool, Seq<(Seq<char>, i64, Seq<char>, bool, Option<Seq<char>>, Seq<Seq<char>>)>) {
    let served = match result {
        Some(CacheCheckResult::Hit) => true,
        Some(CacheCheckResult::Extend) => true,
        _ => false,
    };
    if served && data_json is Some && spec_decode_tags(data_json.unwrap()).len() > 0 {
        (true, spec_cache_hit_results(tasks, spec_decode_tags(data_json.unwrap())))
    } else {
        (false, Seq::empty())
    }
}

/// The contribution of one repository's cache check: `result` is the
/// check's outcome (`None` when it failed), `data_json` the row's document
/// read afterwards (`None` when it could not be read).
pub fn repo_cache_outcome(
    result: &Option<CacheCheckResult>,
    data_json: &Option<String>,
    tasks: &Vec<PackageTask>,
) -> (r: (bool, Vec<UpstreamCheckResult>))
    ensures
        (r.0, result_views(r.1@)) == spec_repo_cache_outcome(*result, opt_view(*data_json), tasks@),
{
    let served = match result {
        Some(CacheCheckResult::Hit) => true,
        Some(CacheCheckResult::Extend) => true,
        _ => false,
    };
    if !served {
        return (false, Vec::new());
    }
    match data_json {
        Some(doc) => {
            let tags = decode_tags(doc.as_str());
            if tags.len() == 0 {
                return (false, Vec::new());
            }
            (true, cache_hit_results(tasks, &tags))
        },
        None => (false, Vec::new()),
    }
}

/// Which repositories skip the network and which rows the cache serves.
#[derive(Debug)]
pub struct CacheHitSummary {
    /// Repositories whose packages need no network request, each once.
    pub skip_keys: Vec<(String, String)>,
    /// Rows served from cached tags.
    pub cache_hit_results: Vec<UpstreamCheckResult>,
}

/// The summary over the repositories `repos[0..n]`, whose checks gave
/// `checks[k]` (outcome and document).
pub open spec fn spec_cache_summary(
    tasks: Seq<PackageTask>,
    task_repos: Seq<Option<(String, String)>>,
    repos: Seq<(String, String)>,
    checks: Seq<(Option<CacheCheckResult>, Option<String>)>,
    n: int,
) -> (Seq<(Seq<char>, Seq<char>)>, Seq<(Seq<char>, i64, Seq<char>, bool, Option<Seq<char>>, Seq<Seq<char>>)>)
    decreases n,
{
    if n <= 0 {
        (Seq::empty(), Seq::empty())
    } else {
        let prev = spec_cache_summary(tasks, task_repos, repos, checks, n - 1);
        let k = n - 1;
        let o = spec_repo_cache_outcome(
            checks[k].0,
            opt_view(checks[k].1),
            spec_repo_tasks(tasks, task_repos, pair_view(repos[k])),
        );
        (if o.0 { prev.0.push(pair_view(repos[k])) } else { prev.0 }, prev.1 + o.1)
    }
}

/// Combines the cache checks of the repositories (`checks[k]` for
/// `repos[k]`) into the repositories to skip and the rows served from cache.
pub fn summarize_github_cache(
    tasks: &Vec<PackageTask>,
    task_repos: &Vec<Option<(String, String)>>,
    repos: &Vec<(String, String)>,
    checks: &Vec<(Option<CacheCheckResult>, Option<String>)>,
) -> (r: CacheHitSummary)
    requires
        task_repos.len() == tasks.len(),
        checks.len() == repos.len(),
    ensures
        (pair_views(r.skip_keys@), result_views(r.cache_hit_results@))
            == spec_cache_summary(tasks@, task_repos@, repos@, checks@, repos.len() as int),
{
    let mut skip: Vec<(String, String)> = Vec::new();
    let mut hits: Vec<UpstreamCheckResult> = Vec::new();
    let mut k: usize = 0;
    while k < repos.len()
        invariant
            k <= repos.len(),
            task_repos.len() == tasks.len(),
            checks.len() == repos.len(),
            (pair_views(skip@), result_views(hits@)) == spec_cache_summary(tasks@, task_repos@, repos@, checks@, k as int),
        decreases repos.len() - k,
    {
        let mine = repo_tasks(tasks, task_repos, &repos[k]);
        let (skips, mut rows) = repo_cache_outcome(&checks[k].0, &checks[k].1, &mine);
        let ghost old_skip = skip@;
        let ghost old_hits = hits@;
        let ghost new_rows = rows@;
        if skips {
            skip.push(copy_pair(&repos[k]));
            assert(pair_views(skip@) =~= pair_views(old_skip).push(pair_view(repos@[k as int])));
        }
        hits.append(&mut rows);
        assert(result_views(hits@) =~= result_views(old_hits) + result_views(new_rows));
        k = k + 1;
    }
    CacheHitSummary { skip_keys: skip, cache_hit_results: hits }
}

/// A task still goes to the network after the cache check unless it uses a
/// GitHub checker and names a repository that is skipped.
pub open spec fn spec_still_checked(
    t: PackageTask,
    repo: Option<(Seq<char>, Seq<char>)>,
    skip: Seq<(Seq<char>, Seq<char>)>,
) -> bool {
    !(t.checker_type.spec_is_github() && repo is Some && skip.contains(repo.unwrap()))
}

/// The tasks that still go to the network, in order.
pub open spec fn spec_tasks_after_cache(
    tasks: Seq<PackageTask>,
    task_repos: Seq<Option<(String, String)>>,
    skip: Seq<(Seq<char>, Seq<char>)>,
) -> Seq<PackageTask>
    decreases tasks.len(),
{
    if tasks.len() == 0 || task_repos.len() != tasks.len() {
        Seq::empty()
    } else {
        let prev = spec_tasks_after_cache(tasks.drop_last(), task_repos.drop_last(), skip);
        if spec_still_checked(tasks.last(), opt_pair_view(task_repos.last()), skip) {
            prev.push(tasks.last())
        } else {
            prev
        }
    }
}

/// The tasks that still go to the network once the repositories in
/// `skip` are served from cache.
pub fn tasks_after_cache(
    tasks: &Vec<PackageTask>,
    task_repos: &Vec<Option<(String, String)>>,
    skip: &Vec<(String, String)>,
) -> (r: Vec<PackageTask>)
    requires
        task_repos.len() == tasks.len(),
    ensures
        r@ == spec_tasks_after_cache(tasks@, task_repos@, pair_views(skip@)),
{
    let mut r: Vec<PackageTask> = Vec::new();
    let mut i: usize = 0;
    while i < tasks.len()
        invariant
            i <= tasks.len(),
            task_repos.len() == tasks.len(),
            r@ == spec_tasks_after_cache(tasks@.subrange(0, i as int), task_repos@.subrange(0, i as int), pair_views(skip@)),
        decreases tasks.len() - i,
    {
        assert(tasks@.subrange(0, i + 1).drop_last() =~= tasks@.subrange(0, i as int));
        assert(task_repos@.subrange(0, i + 1).drop_last() =~= task_repos@.subrange(0, i as int));
        let t = &tasks[i];
        let skipped = if t.checker_type.is_github() {
            match &task_repos[i] {
                Some(p) => repo_listed(skip, p),
                None => false,
            }
        } else {
            false
        };
        if !skipped {
            r.push(t.copy());
        }
        i = i + 1;
    }
    assert(tasks@.subrange(0, tasks@.len() as int) =~= tasks@);
    assert(task_repos@.subrange(0, task_repos@.len() as int) =~= task_repos@);
    r
}

/// Whether a cache check outcome lets the repository's packages skip the
/// network in a full check: a fresh or extended row.
pub fn skips_network(result: &CacheCheckResult) -> (r: bool)
    ensures
        r == (*result is Hit || *result is Extend),
{
    match result {
        CacheCheckResult::Hit => true,
        CacheCheckResult::Extend => true,
        _ => false,
    }
}

/// The package has a result row with a version.
pub open spec fn has_version_row(results: Seq<UpstreamCheckResult>, name: Seq<char>) -> bool {
    exists|k: int| 0 <= k < results.len() && #[trigger] results[k].pkgname@ == name
        && results[k].upstream_version@.len() > 0
}

/// A repository still lacks a cache row after a check: its package uses a
/// GitHub checker and got a version, and the repository is neither among
/// those the batch already cached nor among those with a row.
pub open spec fn lacks_cache_row(
    t: PackageTask,
    repo: Option<(Seq<char>, Seq<char>)>,
    results: Seq<UpstreamCheckResult>,
    covered: Seq<(Seq<char>, Seq<char>)>,
    cached: Seq<(Seq<char>, Seq<char>)>,
) -> bool {
    &&& t.checker_type.spec_is_github()
    &&& has_version_row(results, t.pkgname@)
    &&& repo is Some
    &&& !covered.contains(repo.unwrap())
    &&& !cached.contains(repo.unwrap())
}

/// The repositories lacking a cache row, in task order, once per package.
pub open spec fn missing_candidates(
    tasks: Seq<PackageTask>,
    task_repos: Seq<Option<(String, String)>>,
    results: Seq<UpstreamCheckResult>,
    covered: Seq<(Seq<char>, Seq<char>)>,
    cached: Seq<(Seq<char>, Seq<char>)>,
) -> Seq<(Seq<char>, Seq<char>)>
    decreases tasks.len(),
{
    if tasks.len() == 0 || task_repos.len() != tasks.len() {
        Seq::empty()
    } else {
        let prev = missing_candidates(tasks.drop_last(), task_repos.drop_last(), results, covered, cached);
        if lacks_cache_row(tasks.last(), opt_pair_view(task_repos.last()), results, covered, cached) {
            prev.push(opt_pair_view(task_repos.last()).unwrap())
        } else {
            prev
        }
    }
}

/// Whether the package has a result row with a version.
fn has_version(results: &Vec<UpstreamCheckResult>, name: &String) -> (r: bool)
    ensures
        r == has_version_row(results@, name@),
{
    let mut k: usize = 0;
    while k < results.len()
        invariant
            k <= results.len(),
            forall|j: int| 0 <= j < k ==> !(#[trigger] results@[j].pkgname@ == name@
                && results@[j].upstream_version@.len() > 0),
        decreases results.len() - k,
    {
        if results[k].pkgname == *name && results[k].upstream_version.unicode_len() > 0 {
            return true;
        }
        k = k + 1;
    }
    false
}

/// The repositories whose packages were checked successfully over GitHub
/// but that still have no cache row: not cached by the batch (`covered`)
/// and without a row in the table (`cached`), each once (the order of the
/// result is not part of the contract).
pub fn collect_missing_repos(
    tasks: &Vec<PackageTask>,
    task_repos: &Vec<Option<(String, String)>>,
    results: &Vec<UpstreamCheckResult>,
    covered: &Vec<(String, String)>,
    cached: &Vec<(String, String)>,
) -> (r: Vec<(String, String)>)
    requires
        task_repos.len() == tasks.len(),
    ensures
        forall|j: int, k: int| 0 <= j < k < r.len() ==> pair_view(r@[j]) != pair_view(r@[k]),
        forall|x: (Seq<char>, Seq<char>)| pair_views(r@).contains(x) <==> #[trigger] missing_candidates(
            tasks@, task_repos@, results@, pair_views(covered@), pair_views(cached@)).contains(x),
{
    let ghost cv = pair_views(covered@);
    let ghost ch = pair_views(cached@);
    let mut r: Vec<(String, String)> = Vec::new();
    let mut i: usize = 0;
    while i < tasks.len()
        invariant
            i <= tasks.len(),
            task_repos.len() == tasks.len(),
            cv == pair_views(covered@),
            ch == pair_views(cached@),
            forall|j: int, k: int| 0 <= j < k < r.len() ==> pair_view(r@[j]) != pair_view(r@[k]),
            forall|x: (Seq<char>, Seq<char>)|
                pair_views(r@).contains(x) <==> #[trigger] missing_candidates(
                    tasks@.subrange(0, i as int),
                    task_repos@.subrange(0, i as int),
                    results@, cv, ch,
                ).contains(x),
        decreases tasks.len() - i,
    {
        let ghost prev = missing_candidates(tasks@.subrange(0, i as int), task_repos@.subrange(0, i as int), results@, cv, ch);
        assert(tasks@.subrange(0, i + 1).drop_last() =~= tasks@.subrange(0, i as int));
        assert(task_repos@.subrange(0, i + 1).drop_last() =~= task_repos@.subrange(0, i as int));
        let ghost next = missing_candidates(tasks@.subrange(0, i + 1), task_repos@.subrange(0, i + 1), results@, cv, ch);
        let ghost old_views = pair_views(r@);
        assert(forall|x: (Seq<char>, Seq<char>)| old_views.contains(x) <==> #[trigger] prev.contains(x));
        let t = &tasks[i];
        let mut added = false;
        if t.checker_type.is_github() && has_version(results, &t.pkgname) {
            match &task_repos[i] {
                Some(p) => {
                    if !repo_listed(covered, p) && !repo_listed(cached, p) {
                        assert(next == prev.push(pair_view(*p)));
                        let listed = repo_listed(&r, p);
                        if !listed {
                            r.push(copy_pair(p));
                            proof {
                                assert(pair_views(r@) =~= old_views.push(pair_view(*p)));
                                assert forall|j: int, k: int| 0 <= j < k < r.len() implies pair_view(r@[j]) != pair_view(r@[k]) by {
                                    if k == r.len() - 1 {
                                        assert(old_views[j] == pair_view(r@[j]));
                                    }
                                }
                            }
                        }
                        added = true;
                        proof {
                            assert forall|x: (Seq<char>, Seq<char>)|
                                pair_views(r@).contains(x) <==> #[trigger] next.contains(x) by {
                                lemma_push_contains(prev, pair_view(*p), x);
                                if !listed {
                                    lemma_push_contains(old_views, pair_view(*p), x);
                                }
                            }
                        }
                    }
                },
                None => {},
            }
        }
        if !added {
            assert(next == prev);
        }
        i = i + 1;
    }
    assert(tasks@.subrange(0, tasks@.len() as int) =~= tasks@);
    assert(task_repos@.subrange(0, task_repos@.len() as int) =~= task_repos@);
    r
}

} // verus!
