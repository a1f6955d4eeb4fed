//! The decisions of a batch upstream check: which packages go to which
//! pool (no network, browser, network), which GitHub packages are asked in
//! one batched query and which over REST, how a check outcome becomes a
//! result row, and when a failed check is tried again.

use vstd::prelude::*;
use crate::error::{AppError, AppResult};
use crate::models::{CheckerType, PackageType};

verus! {

/// One package to check, as the batch engine needs it.
#[derive(Debug)]
pub struct PackageTask {
    pub pkgname: String,
    pub software_id: i64,
    pub upstream_url: String,
    pub version_extract_regex: Option<String>,
    pub check_test_versions: bool,
    pub check_binary_files: bool,
    pub checker_type: CheckerType,
    pub package_type: PackageType,
}

/// What a version checker found for a package.
#[derive(Debug)]
pub struct CheckResult {
    pub version: Option<String>,
    pub license: Option<String>,
    pub language_names: Vec<String>,
}

/// The result row of one checked package. An empty `upstream_version`
/// marks a failed check or one without a usable version.
#[derive(Debug)]
pub struct UpstreamCheckResult {
    pub pkgname: String,
    pub software_id: i64,
    pub upstream_version: String,
    pub is_outdated: bool,
    pub license_spdx_id: Option<String>,
    pub language_names: Vec<String>,
}

/// What a batch run returns: the checked packages, and the names of those
/// whose checker is manual (they are never sent to the network).
#[derive(Debug)]
pub struct BatchOutcome {
    pub checked: Vec<UpstreamCheckResult>,
    pub manual: Vec<String>,
}

/// Copies an optional string.
pub fn copy_opt_string(s: &Option<String>) -> (r: Option<String>)
    ensures
        r == *s,
{
    match s {
        Some(x) => Some(x.clone()),
        None => None,
    }
}

/// Copies a list of strings.
pub fn copy_strings(v: &Vec<String>) -> (r: Vec<String>)
    ensures
        r@ == v@,
{
    let mut r: Vec<String> = Vec::new();
    let mut i: usize = 0;
    while i < v.len()
        invariant
            i <= v.len(),
            r@ == v@.subrange(0, i as int),
        decreases v.len() - i,
    {
        r.push(v[i].clone());
        assert(r@ =~= v@.subrange(0, i + 1));
        i = i + 1;
    }
    assert(r@ =~= v@);
    r
}

impl PackageTask {
    /// A copy of the task.
    pub fn copy(&self) -> (r: PackageTask)
        ensures
            r == *self,
    {
        PackageTask {
            pkgname: self.pkgname.clone(),
            software_id: self.software_id,
            upstream_url: self.upstream_url.clone(),
            version_extract_regex: copy_opt_string(&self.version_extract_regex),
            check_test_versions: self.check_test_versions,
            check_binary_files: self.check_binary_files,
            checker_type: self.checker_type,
            package_type: self.package_type,
        }
    }
}

/// The task's checker needs no network request.
pub open spec fn is_manual_task(t: PackageTask) -> bool {
    t.checker_type == CheckerType::Manual
}

/// The task's checker drives a headless browser.
pub open spec fn is_browser_task(t: PackageTask) -> bool {
    t.checker_type == CheckerType::Browser
}

/// The task's checker makes plain network requests.
pub open spec fn is_network_task(t: PackageTask) -> bool {
    !is_manual_task(t) && !is_browser_task(t)
}

/// The package names of a list of tasks.
pub open spec fn task_names(ts: Seq<PackageTask>) -> Seq<Seq<char>> {
    ts.map_values(|t: PackageTask| t.pkgname@)
}

/// The views of a list of strings.
pub open spec fn string_views(v: Seq<String>) -> Seq<Seq<char>> {
    v.map_values(|s: String| s@)
}

/// Splits tasks by checker: browser tasks, other network tasks, and the
/// names of manual-checker packages, each in the order given.
pub fn classify(tasks: Vec<PackageTask>) -> (r: (Vec<PackageTask>, Vec<PackageTask>, Vec<String>))
    ensures
        r.0@ == tasks@.filter(|t: PackageTask| is_browser_task(t)),
        r.1@ == tasks@.filter(|t: PackageTask| is_network_task(t)),
        string_views(r.2@) == task_names(tasks@.filter(|t: PackageTask| is_manual_task(t))),
{
    let mut browser: Vec<PackageTask> = Vec::new();
    let mut network: Vec<PackageTask> = Vec::new();
    let mut manual: Vec<String> = Vec::new();
    let mut i: usize = 0;
    while i < tasks.len()
        invariant
            i <= tasks.len(),
            browser@ == tasks@.subrange(0, i as int).filter(|t: PackageTask| is_browser_task(t)),
            network@ == tasks@.subrange(0, i as int).filter(|t: PackageTask| is_network_task(t)),
            string_views(manual@) == task_names(
                tasks@.subrange(0, i as int).filter(|t: PackageTask| is_manual_task(t)),
            ),
        decreases tasks.len() - i,
    {
        let ghost prev = tasks@.subrange(0, i as int);
        let ghost t = tasks@[i as int];
        assert(tasks@.subrange(0, i + 1) =~= prev.push(t));
        proof {
            prev.lemma_filter_push(t, |t: PackageTask| is_browser_task(t));
            prev.lemma_filter_push(t, |t: PackageTask| is_network_task(t));
            prev.lemma_filter_push(t, |t: PackageTask| is_manual_task(t));
        }
        let ghost old_manual = manual@;
        match tasks[i].checker_type {
            CheckerType::Manual => {
                manual.push(tasks[i].pkgname.clone());
                assert(string_views(manual@) =~= string_views(old_manual).push(t.pkgname@));
                assert(task_names(prev.filter(|t: PackageTask| is_manual_task(t)).push(t))
                    =~= task_names(prev.filter(|t: PackageTask| is_manual_task(t))).push(t.pkgname@));
            },
            CheckerType::Browser => {
                browser.push(tasks[i].copy());
            },
            _ => {
                network.push(tasks[i].copy());
            },
        }
        i = i + 1;
    }
    assert(tasks@.subrange(0, tasks@.len() as int) =~= tasks@);
    (browser, network, manual)
}

proof fn lemma_filter_len_three(
    s: Seq<PackageTask>,
)
    ensures
        s.filter(|t: PackageTask| is_browser_task(t)).len() + s.filter(|t: PackageTask| is_network_task(t)).len()
            + s.filter(|t: PackageTask| is_manual_task(t)).len() == s.len(),
    decreases s.len(),
{
    if s.len() > 0 {
        let p = s.drop_last();
        lemma_filter_len_three(p);
        assert(p.push(s.last()) =~= s);
        p.lemma_filter_push(s.last(), |t: PackageTask| is_browser_task(t));
        p.lemma_filter_push(s.last(), |t: PackageTask| is_network_task(t));
        p.lemma_filter_push(s.last(), |t: PackageTask| is_manual_task(t));
    } else {
        reveal(Seq::filter);
    }
}

/// Classification loses no package and counts none twice: the three pools
/// together hold exactly as many packages as were given.
pub proof fn lemma_classify_partition(
    tasks: Seq<PackageTask>,
    browser: Seq<PackageTask>,
    network: Seq<PackageTask>,
    manual: Seq<Seq<char>>,
)
    requires
        browser == tasks.filter(|t: PackageTask| is_browser_task(t)),
        network == tasks.filter(|t: PackageTask| is_network_task(t)),
        manual == task_names(tasks.filter(|t: PackageTask| is_manual_task(t))),
    ensures
        browser.len() + network.len() + manual.len() == tasks.len(),
        forall|t: PackageTask| #[trigger] browser.contains(t) ==> tasks.contains(t) && is_browser_task(t),
        forall|t: PackageTask| #[trigger] network.contains(t) ==> tasks.contains(t) && is_network_task(t),
{
    lemma_filter_len_three(tasks);
    assert forall|t: PackageTask| #[trigger] browser.contains(t) implies tasks.contains(t) && is_browser_task(t) by {
        tasks.lemma_filter_contains_rev(|t: PackageTask| is_browser_task(t), t);
    }
    assert forall|t: PackageTask| #[trigger] network.contains(t) implies tasks.contains(t) && is_network_task(t) by {
        tasks.lemma_filter_contains_rev(|t: PackageTask| is_network_task(t), t);
    }
}

/// A GitHub package is asked in the batched query when it is no Git
/// package (those need commit counts), a token is configured, and its URL
/// names a repository.
pub open spec fn goes_to_batch_query(t: PackageTask, repo: Option<(Seq<char>, Seq<char>)>, has_token: bool) -> bool {
    t.checker_type.spec_is_github() && t.package_type != PackageType::Git && has_token && repo is Some
}

/// The views of an optional repository name.
pub open spec fn repo_view(r: Option<(String, String)>) -> Option<(Seq<char>, Seq<char>)> {
    match r {
        Some(p) => Some((p.0@, p.1@)),
        None => None,
    }
}

/// A network task sent to the batched query, with its repository.
#[derive(Debug)]
pub struct BatchQueryItem {
    pub task: PackageTask,
    pub owner: String,
    pub repo: String,
}

/// Splits network tasks into those asked in the batched GitHub query (with
/// the repository their URL names, `repos[i]` for `tasks[i]`) and those
/// checked over REST, each in the order given.
pub fn route_network_tasks(
    tasks: Vec<PackageTask>,
    repos: Vec<Option<(String, String)>>,
    has_token: bool,
) -> (r: (Vec<BatchQueryItem>, Vec<PackageTask>))
    requires
        repos.len() == tasks.len(),
    ensures
        r.0.len() + r.1.len() == tasks.len(),
        forall|k: int| 0 <= k < r.0.len() ==> exists|i: int| 0 <= i < tasks.len()
            && #[trigger] r.0@[k].task == tasks@[i]
            && goes_to_batch_query(tasks@[i], repo_view(repos@[i]), has_token)
            && repo_view(repos@[i]) == Some((r.0@[k].owner@, r.0@[k].repo@)),
        r.1@ == route_rest(tasks@, repos@, has_token),
        batch_indices(tasks@, repos@, has_token).len() == r.0.len(),
        forall|k: int| 0 <= k < r.0.len() ==> #[trigger] r.0@[k].task == tasks@[batch_indices(tasks@, repos@, has_token)[k]],
        forall|k: int| 0 <= k < r.0.len() ==> repo_view(repos@[batch_indices(tasks@, repos@, has_token)[k]])
            == Some((#[trigger] r.0@[k].owner@, r.0@[k].repo@)),
{
    let mut batch: Vec<BatchQueryItem> = Vec::new();
    let mut rest: Vec<PackageTask> = Vec::new();
    let mut i: usize = 0;
    while i < tasks.len()
        invariant
            i <= tasks.len(),
            repos.len() == tasks.len(),
            batch.len() + rest.len() == i,
            rest@ == route_rest(tasks@.subrange(0, i as int), repos@.subrange(0, i as int), has_token),
            batch_indices(tasks@.subrange(0, i as int), repos@.subrange(0, i as int), has_token).len() == batch.len(),
            forall|k: int| 0 <= k < batch.len() ==> {
                let j = #[trigger] batch_indices(tasks@.subrange(0, i as int), repos@.subrange(0, i as int), has_token)[k];
                &&& 0 <= j < i
                &&& batch@[k].task == tasks@[j]
                &&& goes_to_batch_query(tasks@[j], repo_view(repos@[j]), has_token)
                &&& repo_view(repos@[j]) == Some((batch@[k].owner@, batch@[k].repo@))
            },
        decreases tasks.len() - i,
    {
        let ghost ts = tasks@.subrange(0, i as int);
        let ghost rs = repos@.subrange(0, i as int);
        assert(tasks@.subrange(0, i + 1).drop_last() =~= ts);
        assert(repos@.subrange(0, i + 1).drop_last() =~= rs);
        let t = &tasks[i];
        let mut sent = false;
        if t.checker_type.is_github() && t.package_type != PackageType::Git && has_token {
            match &repos[i] {
                Some(pair) => {
                    let ghost old_batch = batch@;
                    batch.push(BatchQueryItem { task: t.copy(), owner: pair.0.clone(), repo: pair.1.clone() });
                    sent = true;
                    proof {
                        let bi = batch_indices(tasks@.subrange(0, i + 1), repos@.subrange(0, i + 1), has_token);
                        assert(bi == batch_indices(ts, rs, has_token).push(i as int));
                        assert forall|k: int| 0 <= k < batch.len() implies {
                            let j = #[trigger] bi[k];
                            &&& 0 <= j < i + 1
                            &&& batch@[k].task == tasks@[j]
                            &&& goes_to_batch_query(tasks@[j], repo_view(repos@[j]), has_token)
                            &&& repo_view(repos@[j]) == Some((batch@[k].owner@, batch@[k].repo@))
                        } by {
                            if k < batch.len() - 1 {
                                assert(bi[k] == batch_indices(ts, rs, has_token)[k]);
                                assert(batch@[k] == old_batch[k]);
                            }
                        }
                    }
                },
                None => {},
            }
        }
        if !sent {
            rest.push(t.copy());
            proof {
                let bi = batch_indices(tasks@.subrange(0, i + 1), repos@.subrange(0, i + 1), has_token);
                assert(bi == batch_indices(ts, rs, has_token));
                assert forall|k: int| 0 <= k < batch.len() implies {
                    let j = #[trigger] bi[k];
                    &&& 0 <= j < i + 1
                    &&& batch@[k].task == tasks@[j]
                    &&& goes_to_batch_query(tasks@[j], repo_view(repos@[j]), has_token)
                    &&& repo_view(repos@[j]) == Some((batch@[k].owner@, batch@[k].repo@))
                } by {
                    assert(bi[k] == batch_indices(ts, rs, has_token)[k]);
                }
            }
        }
        i = i + 1;
    }
    assert(tasks@.subrange(0, tasks@.len() as int) =~= tasks@);
    assert(repos@.subrange(0, repos@.len() as int) =~= repos@);
    proof {
        let bi = batch_indices(tasks@, repos@, has_token);
        assert forall|k: int| 0 <= k < batch.len() implies exists|i: int| 0 <= i < tasks.len()
            && #[trigger] batch@[k].task == tasks@[i]
            && goes_to_batch_query(tasks@[i], repo_view(repos@[i]), has_token)
            && repo_view(repos@[i]) == Some((batch@[k].owner@, batch@[k].repo@)) by {
            let j = bi[k];
            assert(batch@[k].task == tasks@[j]);
        }
    }
    (batch, rest)
}

/// The tasks checked over REST right away, in order.
pub open spec fn route_rest(
    tasks: Seq<PackageTask>,
    repos: Seq<Option<(String, String)>>,
    has_token: bool,
) -> Seq<PackageTask>
    decreases tasks.len(),
{
    if tasks.len() == 0 || repos.len() != tasks.len() {
        Seq::empty()
    } else {
        let prev = route_rest(tasks.drop_last(), repos.drop_last(), has_token);
        if goes_to_batch_query(tasks.last(), repo_view(repos.last()), has_token) {
            prev
        } else {
            prev.push(tasks.last())
        }
    }
}

/// The positions of the tasks sent to the batched query, in order.
pub open spec fn batch_indices(
    tasks: Seq<PackageTask>,
    repos: Seq<Option<(String, String)>>,
    has_token: bool,
) -> Seq<int>
    decreases tasks.len(),
{
    if tasks.len() == 0 || repos.len() != tasks.len() {
        Seq::empty()
    } else {
        let prev = batch_indices(tasks.drop_last(), repos.drop_last(), has_token);
        if goes_to_batch_query(tasks.last(), repo_view(repos.last()), has_token) {
            prev.push(tasks.len() - 1)
        } else {
            prev
        }
    }
}

/// Routing sends each network task exactly one way: the positions sent to
/// the batched query are increasing (no task twice), they are exactly the
/// positions whose task `goes_to_batch_query`, and together with the tasks
/// checked over REST they account for every task.
pub proof fn lemma_route_each_task_once(
    tasks: Seq<PackageTask>,
    repos: Seq<Option<(String, String)>>,
    has_token: bool,
)
    requires
        repos.len() == tasks.len(),
    ensures
        batch_indices(tasks, repos, has_token).len() + route_rest(tasks, repos, has_token).len() == tasks.len(),
        forall|j: int, k: int| 0 <= j < k < batch_indices(tasks, repos, has_token).len()
            ==> #[trigger] batch_indices(tasks, repos, has_token)[j] < #[trigger] batch_indices(tasks, repos, has_token)[k],
        forall|k: int| 0 <= k < batch_indices(tasks, repos, has_token).len() ==> {
            let i = #[trigger] batch_indices(tasks, repos, has_token)[k];
            &&& 0 <= i < tasks.len()
            &&& goes_to_batch_query(tasks[i], repo_view(repos[i]), has_token)
        },
        forall|i: int| 0 <= i < tasks.len() && #[trigger] goes_to_batch_query(tasks[i], repo_view(repos[i]), has_token)
            ==> batch_indices(tasks, repos, has_token).contains(i),
    decreases tasks.len(),
{
    if tasks.len() > 0 {
        let pt = tasks.drop_last();
        let pr = repos.drop_last();
        lemma_route_each_task_once(pt, pr, has_token);
        let bp = batch_indices(pt, pr, has_token);
        let b = batch_indices(tasks, repos, has_token);
        let n = tasks.len() - 1;
        assert forall|k: int| 0 <= k < bp.len() implies 0 <= #[trigger] bp[k] < n
            && goes_to_batch_query(tasks[bp[k]], repo_view(repos[bp[k]]), has_token) by {
            assert(pt[bp[k]] == tasks[bp[k]]);
            assert(pr[bp[k]] == repos[bp[k]]);
        }
        assert forall|i: int| 0 <= i < tasks.len() && #[trigger] goes_to_batch_query(tasks[i], repo_view(repos[i]), has_token)
            implies b.contains(i) by {
            if i < n {
                assert(pt[i] == tasks[i]);
                assert(pr[i] == repos[i]);
                assert(bp.contains(i));
                let k = choose|k: int| 0 <= k < bp.len() && bp[k] == i;
                assert(b[k] == i);
            } else {
                assert(b[bp.len() as int] == i);
            }
        }
    }
}

/// The name occurs among `names`.
pub open spec fn name_in(names: Seq<String>, n: Seq<char>) -> bool {
    exists|k: int| 0 <= k < names.len() && #[trigger] names[k]@ == n
}

/// Whether `name` occurs among `names`.
pub fn contains_name(names: &Vec<String>, name: &String) -> (r: bool)
    ensures
        r == name_in(names@, name@),
{
    let mut i: usize = 0;
    while i < names.len()
        invariant
            i <= names.len(),
            forall|k: int| 0 <= k < i ==> #[trigger] names@[k]@ != name@,
        decreases names.len() - i,
    {
        if names[i] == *name {
            return true;
        }
        i = i + 1;
    }
    false
}

/// The batched-query packages the query did not answer: those whose name
/// is not among the answered ones, in order. They are checked over REST.
pub fn unanswered_batch_tasks(items: &Vec<BatchQueryItem>, answered: &Vec<String>) -> (r: Vec<PackageTask>)
    ensures
        r@ == items@.map_values(|b: BatchQueryItem| b.task).filter(|t: PackageTask| !name_in(answered@, t.pkgname@)),
{
    let ghost all = items@.map_values(|b: BatchQueryItem| b.task);
    let mut r: Vec<PackageTask> = Vec::new();
    let mut i: usize = 0;
    while i < items.len()
        invariant
            i <= items.len(),
            all == items@.map_values(|b: BatchQueryItem| b.task),
            r@ == all.subrange(0, i as int).filter(|t: PackageTask| !name_in(answered@, t.pkgname@)),
        decreases items.len() - i,
    {
        let ghost prev = all.subrange(0, i as int);
        assert(all.subrange(0, i + 1) =~= prev.push(all[i as int]));
        proof { prev.lemma_filter_push(all[i as int], |t: PackageTask| !name_in(answered@, t.pkgname@)); }
        if !contains_name(answered, &items[i].task.pkgname) {
            r.push(items[i].task.copy());
        }
        i = i + 1;
    }
    assert(all.subrange(0, all.len() as int) =~= all);
    r
}

/// The result row of a package answered by the batched query. A missing
/// version leaves the version empty; whether the package is outdated is
/// decided later.
pub fn batch_answer_result(
    pkgname: String,
    software_id: i64,
    version: Option<String>,
    license_spdx_id: Option<String>,
    language_names: Vec<String>,
) -> (r: UpstreamCheckResult)
    ensures
        r.pkgname == pkgname,
        r.software_id == software_id,
        r.upstream_version@ == (match version { Some(v) => v@, None => Seq::<char>::empty() }),
        !r.is_outdated,
        r.license_spdx_id == license_spdx_id,
        r.language_names == language_names,
{
    UpstreamCheckResult {
        pkgname,
        software_id,
        upstream_version: match version {
            Some(v) => v,
            None => String::new(),
        },
        is_outdated: false,
        license_spdx_id,
        language_names,
    }
}

/// The result row of a package checked by its own checker: the version
/// found (empty when none), its license and languages; a failed check gives
/// an empty row. Whether it is outdated is decided later.
pub fn result_from_check(task: PackageTask, outcome: Result<CheckResult, AppError>) -> (r: UpstreamCheckResult)
    ensures
        r.pkgname == task.pkgname,
        r.software_id == task.software_id,
        !r.is_outdated,
        match outcome {
            Ok(c) => {
                &&& r.upstream_version@ == (match c.version { Some(v) => v@, None => Seq::<char>::empty() })
                &&& r.license_spdx_id == c.license
                &&& r.language_names == c.language_names
            },
            Err(_) => {
                &&& r.upstream_version@ == Seq::<char>::empty()
                &&& r.license_spdx_id is None
                &&& r.language_names@.len() == 0
            },
        },
{
    match outcome {
        Ok(c) => UpstreamCheckResult {
            pkgname: task.pkgname,
            software_id: task.software_id,
            upstream_version: match c.version {
                Some(v) => v,
                None => String::new(),
            },
            is_outdated: false,
            license_spdx_id: c.license,
            language_names: c.language_names,
        },
        Err(_) => UpstreamCheckResult {
            pkgname: task.pkgname,
            software_id: task.software_id,
            upstream_version: String::new(),
            is_outdated: false,
            license_spdx_id: None,
            language_names: Vec::new(),
        },
    }
}

/// Seconds to wait before attempt `attempt` (the first retry waits one
/// second, each further one twice as long).
pub open spec fn spec_retry_delay(attempt: nat) -> nat
    decreases attempt,
{
    if attempt <= 1 {
        1
    } else {
        2 * spec_retry_delay((attempt - 1) as nat)
    }
}

/// Seconds to wait before retry number `attempt` (1, 2, 4, ...).
pub fn retry_delay_secs(attempt: u32) -> (r: u64)
    requires
        1 <= attempt <= 64,
    ensures
        r == spec_retry_delay(attempt as nat),
{
    let mut r: u64 = 1;
    let mut k: u32 = 1;
    assert(1u64 <= 0x8000_0000_0000_0000u64 >> 63u64) by (bit_vector);
    while k < attempt
        invariant
            1 <= k <= attempt <= 64,
            r == spec_retry_delay(k as nat),
            r <= 0x8000_0000_0000_0000u64 >> ((64 - k) as u64),
        decreases attempt - k,
    {
        assert(r * 2 <= 0x8000_0000_0000_0000u64 >> ((64 - (k + 1)) as u64)) by (bit_vector)
            requires r <= 0x8000_0000_0000_0000u64 >> ((64 - k) as u64), 1 <= k < 64;
        r = r * 2;
        k = k + 1;
    }
    r
}

/// The next step after one attempt of a check with retries.
#[derive(Debug)]
pub enum RetryStep {
    /// The check is over, with this outcome.
    Finished(AppResult<CheckResult>),
    /// Wait `delay_secs` seconds, then make attempt `next_attempt`.
    Again { next_attempt: u32, delay_secs: u64 },
}

/// Decides what follows attempt `attempt` (counted from 0) of a check
/// allowed `retry_count` retries: a success ends the check; a failure that
/// retrying cannot mend (see `AppError::is_retryable`) ends it with that
/// error; a transient failure is retried after the back-off delay while
/// retries remain, and otherwise ends the check with that error.
pub fn after_attempt(attempt: u32, retry_count: u32, outcome: AppResult<CheckResult>) -> (r: RetryStep)
    requires
        attempt <= retry_count,
        attempt < retry_count ==> attempt < 64,
    ensures
        match outcome {
            Ok(c) => r == RetryStep::Finished(Ok::<CheckResult, AppError>(c)),
            Err(e) => if e.spec_is_retryable() && attempt < retry_count {
                r == RetryStep::Again {
                    next_attempt: (attempt + 1) as u32,
                    delay_secs: spec_retry_delay((attempt + 1) as nat) as u64,
                }
            } else {
                r == RetryStep::Finished(Err::<CheckResult, AppError>(e))
            },
        },
{
    match outcome {
        Ok(c) => RetryStep::Finished(Ok(c)),
        Err(e) => {
            if e.is_retryable() && attempt < retry_count {
                let d = retry_delay_secs(attempt + 1);
                RetryStep::Again { next_attempt: attempt + 1, delay_secs: d }
            } else {
                RetryStep::Finished(Err(e))
            }
        },
    }
}

/// Every retry waits twice as long as the one before it.
pub proof fn lemma_retry_delay_doubles(attempt: nat)
    requires
        attempt >= 1,
    ensures
        spec_retry_delay(attempt + 1) == 2 * spec_retry_delay(attempt),
        spec_retry_delay(attempt) >= 1,
    decreases attempt,
{
    if attempt > 1 {
        lemma_retry_delay_doubles((attempt - 1) as nat);
    }
}

} // verus!
