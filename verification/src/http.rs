//! HTTP clients: their configuration, how they are built with `reqwest`,
//! and the per-domain client cache.

use vstd::prelude::*;
use crate::error::{from_http, AppError, AppErrorKind};

verus! {

/// Default request time-out (seconds).
pub const DEFAULT_TIMEOUT_SECS: u64 = 30;

/// Default connection time-out (seconds).
pub const DEFAULT_CONNECT_TIMEOUT_SECS: u64 = 10;

/// How an HTTP client is configured.
#[derive(Debug, Clone, Copy)]
pub struct ClientConfig {
    /// Request time-out (seconds).
    pub timeout_secs: u64,
    /// Connection time-out (seconds).
    pub connect_timeout_secs: u64,
    /// Whether requests go through the forward proxy.
    pub use_proxy: bool,
    /// Whether redirects are followed.
    pub follow_redirects: bool,
}

impl Default for ClientConfig {
    /// 30 s request and 10 s connection time-outs, no proxy, redirects
    /// followed.
    fn default() -> (r: Self)
        ensures
            r.timeout_secs == DEFAULT_TIMEOUT_SECS,
            r.connect_timeout_secs == DEFAULT_CONNECT_TIMEOUT_SECS,
            !r.use_proxy,
            r.follow_redirects,
    {
        ClientConfig {
            timeout_secs: DEFAULT_TIMEOUT_SECS,
            connect_timeout_secs: DEFAULT_CONNECT_TIMEOUT_SECS,
            use_proxy: false,
            follow_redirects: true,
        }
    }
}

#[verifier::external_type_specification]
#[verifier::external_body]
pub struct ExClient(reqwest::Client);

#[verifier::external_type_specification]
#[verifier::external_body]
pub struct ExClientBuilder(reqwest::ClientBuilder);

#[verifier::external_type_specification]
#[verifier::external_body]
pub struct ExProxy(reqwest::Proxy);

/// Whether `reqwest::Proxy::all` accepts `url`: it parses the text as a URL
/// (giving SOCKS URLs without a port the port 1080); the answer depends on
/// the text alone.
pub uninterp spec fn reqwest_accepts_proxy(url: Seq<char>) -> bool;

/// What a `reqwest` client builder has been handed so far: the request and
/// connection time-outs (`None`: not set, reqwest's default), whether
/// redirects are followed (reqwest's default policy follows them), and the
/// URL of the proxy all requests go through.
#[derive(Debug, Clone)]
pub struct ClientSettings {
    pub timeout_secs: Option<u64>,
    pub connect_timeout_secs: Option<u64>,
    pub follow_redirects: bool,
    pub proxy: Option<String>,
}

/// The optional view of an optional string.
pub open spec fn opt_str(o: Option<String>) -> Option<Seq<char>> {
    match o {
        Some(s) => Some(s@),
        None => None,
    }
}

/// The settings are these.
pub open spec fn settings_are(
    s: ClientSettings,
    timeout: Option<u64>,
    connect: Option<u64>,
    follow: bool,
    proxy: Option<Seq<char>>,
) -> bool {
    &&& s.timeout_secs == timeout
    &&& s.connect_timeout_secs == connect
    &&& s.follow_redirects == follow
    &&& opt_str(s.proxy) == proxy
}

/// Two settings records agree.
pub open spec fn same_settings(a: ClientSettings, b: ClientSettings) -> bool {
    settings_are(a, b.timeout_secs, b.connect_timeout_secs, b.follow_redirects, opt_str(b.proxy))
}

/// A `reqwest` client builder together with what it has been handed. Only
/// the builder wrappers below make or change one, each recording what it
/// hands to reqwest.
pub struct ClientSetup {
    builder: reqwest::ClientBuilder,
    handed: ClientSettings,
}

impl ClientSetup {
    /// What the builder has been handed.
    pub closed spec fn handed(&self) -> ClientSettings {
        self.handed
    }
}

/// A proxy that reqwest accepted, with the URL it was made from.
pub struct ProxyChoice {
    proxy: reqwest::Proxy,
    url: String,
}

impl ProxyChoice {
    /// The URL the proxy was made from.
    pub closed spec fn url(&self) -> Seq<char> {
        self.url@
    }
}

/// A built `reqwest` client together with what its builder was handed,
/// and the identity of its connection pool (handles on one client share
/// it).
pub struct HttpClient {
    client: reqwest::Client,
    settings: ClientSettings,
    pool: Ghost<int>,
}

impl HttpClient {
    /// What the client's builder was handed.
    pub closed spec fn handed(&self) -> ClientSettings {
        self.settings
    }

    /// The identity of the client's connection pool.
    pub closed spec fn pool(&self) -> int {
        self.pool@
    }

    /// What the client's builder was handed.
    pub fn settings(&self) -> (r: &ClientSettings)
        ensures
            *r == self.handed(),
    {
        &self.settings
    }

    /// The `reqwest` client.
    pub fn client(&self) -> &reqwest::Client {
        &self.client
    }

    /// Another handle on the same client: the same connection pool and the
    /// same settings.
    pub fn share(&self) -> (r: HttpClient)
        ensures
            same_settings(r.handed(), self.handed()),
            r.pool() == self.pool(),
    {
        share_client(self)
    }
}

/// `reqwest::Client::builder`: a builder with reqwest's defaults. Claimed:
/// it has been handed nothing (no time-outs, redirects followed, no proxy).
#[verifier::external_body]
pub(crate) fn new_builder() -> (r: ClientSetup)
    ensures
        settings_are(r.handed(), None, None, true, None),
{
    ClientSetup {
        builder: reqwest::Client::builder(),
        handed: ClientSettings { timeout_secs: None, connect_timeout_secs: None, follow_redirects: true, proxy: None },
    }
}

/// `reqwest::ClientBuilder::timeout` with `secs` seconds. Claimed: the
/// request time-out handed over is `secs`, the rest is unchanged.
#[verifier::external_body]
pub(crate) fn set_timeout(b: ClientSetup, secs: u64) -> (r: ClientSetup)
    ensures
        settings_are(r.handed(), Some(secs), b.handed().connect_timeout_secs, b.handed().follow_redirects,
            opt_str(b.handed().proxy)),
{
    ClientSetup {
        builder: b.builder.timeout(std::time::Duration::from_secs(secs)),
        handed: ClientSettings { timeout_secs: Some(secs), ..b.handed },
    }
}

/// `reqwest::ClientBuilder::connect_timeout` with `secs` seconds. Claimed:
/// the connection time-out handed over is `secs`, the rest is unchanged.
#[verifier::external_body]
pub(crate) fn set_connect_timeout(b: ClientSetup, secs: u64) -> (r: ClientSetup)
    ensures
        settings_are(r.handed(), b.handed().timeout_secs, Some(secs), b.handed().follow_redirects,
            opt_str(b.handed().proxy)),
{
    ClientSetup {
        builder: b.builder.connect_timeout(std::time::Duration::from_secs(secs)),
        handed: ClientSettings { connect_timeout_secs: Some(secs), ..b.handed },
    }
}

/// `reqwest::ClientBuilder::redirect` with `reqwest::redirect::Policy::none()`.
/// Claimed: redirects are no longer followed, the rest is unchanged.
#[verifier::external_body]
pub(crate) fn disable_redirects(b: ClientSetup) -> (r: ClientSetup)
    ensures
        settings_are(r.handed(), b.handed().timeout_secs, b.handed().connect_timeout_secs, false,
            opt_str(b.handed().proxy)),
{
    ClientSetup {
        builder: b.builder.redirect(reqwest::redirect::Policy::none()),
        handed: ClientSettings { follow_redirects: false, ..b.handed },
    }
}

/// `reqwest::Proxy::all` on the URL, `None` when it is refused. Claimed:
/// it is refused exactly when `reqwest_accepts_proxy` does not hold, and an
/// accepted proxy is the one of `url`.
#[verifier::external_body]
pub(crate) fn proxy_for_all(url: &str) -> (r: Option<ProxyChoice>)
    ensures
        r is Some <==> reqwest_accepts_proxy(url@),
        r matches Some(p) ==> p.url() == url@,
{
    reqwest::Proxy::all(url).ok().map(|proxy| ProxyChoice { proxy, url: url.to_string() })
}

/// `reqwest::ClientBuilder::proxy`. Claimed: the proxy handed over is the
/// one of `p`'s URL, the rest is unchanged.
#[verifier::external_body]
pub(crate) fn set_proxy(b: ClientSetup, p: ProxyChoice) -> (r: ClientSetup)
    ensures
        settings_are(r.handed(), b.handed().timeout_secs, b.handed().connect_timeout_secs,
            b.handed().follow_redirects, Some(p.url())),
{
    ClientSetup {
        builder: b.builder.proxy(p.proxy),
        handed: ClientSettings { proxy: Some(p.url), ..b.handed },
    }
}

/// `reqwest::ClientBuilder::build`. It fails when the TLS back end or the
/// system configuration cannot be initialised; nothing is claimed of when.
/// Claimed: a built client keeps what its builder was handed; its pool
/// identity is unspecified.
#[verifier::external_body]
pub(crate) fn finish_builder(b: ClientSetup) -> (r: Result<HttpClient, reqwest::Error>)
    ensures
        r matches Ok(c) ==> same_settings(c.handed(), b.handed()),
{
    let handed = b.handed;
    b.builder.build().map(|client| HttpClient { client, settings: handed, pool: Ghost(0int) })
}

/// `reqwest::Client::clone`: another handle on the same client and
/// connection pool (the client is a shared reference inside). Claimed: the
/// handle has the same settings and the same pool.
#[verifier::external_body]
pub(crate) fn share_client(c: &HttpClient) -> (r: HttpClient)
    ensures
        same_settings(r.handed(), c.handed()),
        r.pool() == c.pool(),
{
    HttpClient { client: c.client.clone(), settings: c.settings.clone(), pool: c.pool }
}

/// What a client is to be built with: its request and connection
/// time-outs, whether it follows redirects, and the proxy every request
/// goes through (if any).
#[derive(Debug)]
pub struct ClientPlan {
    pub timeout_secs: u64,
    pub connect_timeout_secs: u64,
    pub follow_redirects: bool,
    pub proxy: Option<String>,
}

/// The plan has these settings.
pub open spec fn plan_is(p: ClientPlan, timeout: u64, connect: u64, follow: bool, proxy: Option<Seq<char>>) -> bool {
    &&& p.timeout_secs == timeout
    &&& p.connect_timeout_secs == connect
    &&& p.follow_redirects == follow
    &&& opt_str(p.proxy) == proxy
}

/// The proxy a client ends up with: the planned one when reqwest accepts
/// its URL, none otherwise.
pub open spec fn accepted_proxy(proxy: Option<Seq<char>>) -> Option<Seq<char>> {
    match proxy {
        Some(u) => if reqwest_accepts_proxy(u) { Some(u) } else { None },
        None => None,
    }
}

/// The client was handed `plan`: both time-outs, the redirect policy, and
/// the proxy when reqwest accepts its URL.
pub open spec fn handed_plan(c: HttpClient, timeout: u64, connect: u64, follow: bool, proxy: Option<Seq<char>>) -> bool {
    settings_are(c.handed(), Some(timeout), Some(connect), follow, accepted_proxy(proxy))
}

/// The client has reqwest's defaults: no time-outs, redirects followed, no
/// proxy.
pub open spec fn has_defaults(c: HttpClient) -> bool {
    settings_are(c.handed(), None, None, true, None)
}

/// The error kinds a failed client build gives.
pub open spec fn is_build_error(e: (AppErrorKind, Seq<char>)) -> bool {
    e.0 == AppErrorKind::NetworkConnect || e.0 == AppErrorKind::NetworkTimeout
        || e.0 == AppErrorKind::NetworkError || e.0 == AppErrorKind::ParseError
}

/// Builds a client from `plan`: hands reqwest the request time-out, the
/// connection time-out, no redirects unless they are followed, and the
/// proxy when reqwest accepts its URL (a refused proxy URL is left out).
/// Fails, with the network error `from_http` makes, when reqwest cannot
/// build it.
pub fn client_from_plan(plan: &ClientPlan) -> (r: Result<HttpClient, AppError>)
    ensures
        match r {
            Ok(c) => handed_plan(c, plan.timeout_secs, plan.connect_timeout_secs, plan.follow_redirects,
                opt_str(plan.proxy)),
            Err(e) => is_build_error(e@),
        },
{
    let mut b = new_builder();
    b = set_timeout(b, plan.timeout_secs);
    b = set_connect_timeout(b, plan.connect_timeout_secs);
    if !plan.follow_redirects {
        b = disable_redirects(b);
    }
    match &plan.proxy {
        Some(url) => match proxy_for_all(url.as_str()) {
            Some(p) => {
                b = set_proxy(b, p);
            },
            None => {},
        },
        None => {},
    }
    match finish_builder(b) {
        Ok(c) => Ok(c),
        Err(e) => Err(from_http(&e)),
    }
}

/// The plan of a client configured by `config`: its request and connection
/// time-outs and redirect policy, no proxy (proxies are added by the
/// callers that need them).
pub fn config_plan(config: &ClientConfig) -> (r: ClientPlan)
    ensures
        plan_is(r, config.timeout_secs, config.connect_timeout_secs, config.follow_redirects, None),
{
    ClientPlan {
        timeout_secs: config.timeout_secs,
        connect_timeout_secs: config.connect_timeout_secs,
        follow_redirects: config.follow_redirects,
        proxy: None,
    }
}

/// A client built from `config` (see `config_plan`). Fails when `reqwest`
/// cannot build a client, with the network error that `from_http` makes of
/// reqwest's error.
pub fn build_client(config: &ClientConfig) -> (r: Result<HttpClient, AppError>)
    ensures
        match r {
            Ok(c) => handed_plan(c, config.timeout_secs, config.connect_timeout_secs, config.follow_redirects, None),
            Err(e) => is_build_error(e@),
        },
{
    client_from_plan(&config_plan(config))
}

/// The plan of a client for requests that go through the forward proxy
/// (GitHub): `timeout_secs` request time-out, the default connection
/// time-out, redirects followed, and the proxy `forward_proxy`.
pub fn proxy_client_plan(timeout_secs: u64, forward_proxy: Option<&str>) -> (r: ClientPlan)
    ensures
        plan_is(r, timeout_secs, DEFAULT_CONNECT_TIMEOUT_SECS, true,
            match forward_proxy { Some(u) => Some(u@), None => None }),
{
    ClientPlan {
        timeout_secs,
        connect_timeout_secs: DEFAULT_CONNECT_TIMEOUT_SECS,
        follow_redirects: true,
        proxy: match forward_proxy {
            Some(u) => Some(String::from_str(u)),
            None => None,
        },
    }
}

/// A client for requests that go through the forward proxy (see
/// `proxy_client_plan`; the proxy is left out when reqwest refuses its
/// URL). When reqwest cannot build it, a client with reqwest's defaults is
/// built instead; only when that fails too is the result an error.
pub fn build_proxy_client(timeout_secs: u64, forward_proxy: Option<&str>) -> (r: Result<HttpClient, AppError>)
    ensures
        match r {
            Ok(c) => handed_plan(c, timeout_secs, DEFAULT_CONNECT_TIMEOUT_SECS, true,
                match forward_proxy { Some(u) => Some(u@), None => None }) || has_defaults(c),
            Err(e) => is_build_error(e@),
        },
{
    match client_from_plan(&proxy_client_plan(timeout_secs, forward_proxy)) {
        Ok(c) => Ok(c),
        Err(_) => match finish_builder(new_builder()) {
            Ok(c) => Ok(c),
            Err(e) => Err(from_http(&e)),
        },
    }
}

/// Clients cached by domain, so that requests to one domain share a
/// connection pool. Each domain occurs once.
pub struct ClientCache {
    entries: Vec<(String, HttpClient)>,
}

impl ClientCache {
    /// The cached domains, in order of caching.
    pub closed spec fn domains(&self) -> Seq<Seq<char>> {
        self.entries@.map_values(|e: (String, HttpClient)| e.0@)
    }

    /// The client cached for the `k`-th domain.
    pub closed spec fn client_at(&self, k: int) -> HttpClient {
        self.entries@[k].1
    }

    /// No domain is cached twice.
    pub closed spec fn wf(&self) -> bool {
        forall|i: int, j: int| 0 <= i < j < self.entries@.len() ==> self.entries@[i].0@ != self.entries@[j].0@
    }

    /// An empty cache.
    pub fn new() -> (r: ClientCache)
        ensures
            r.wf(),
            r.domains().len() == 0,
    {
        let r = ClientCache { entries: Vec::new() };
        assert(r.domains() =~= Seq::<Seq<char>>::empty());
        r
    }
}

/// The client for `domain`: when the domain is cached, another handle on
/// the cached client (the same connection pool and settings); else a new
/// one built from `config` and cached at the end (the cached entry and the
/// handle returned share their pool). A client that cannot be built is an
/// error and leaves the cache as it was; the clients cached before are
/// kept.
pub fn get_client_for_domain(cache: &mut ClientCache, domain: &str, config: &ClientConfig) -> (r: Result<HttpClient, AppError>)
    requires
        old(cache).wf(),
    ensures
        final(cache).wf(),
        r is Ok ==> final(cache).domains().contains(domain@),
        forall|k: int| 0 <= k < old(cache).domains().len() ==> #[trigger] final(cache).client_at(k) == old(cache).client_at(k),
        forall|k: int| 0 <= k < old(cache).domains().len() && old(cache).domains()[k] == domain@ ==>
            (r matches Ok(c) && same_settings(c.handed(), (#[trigger] old(cache).client_at(k)).handed())
                && c.pool() == old(cache).client_at(k).pool()),
        old(cache).domains().contains(domain@) ==> r is Ok && final(cache).domains() == old(cache).domains(),
        !old(cache).domains().contains(domain@) ==> match r {
            Ok(c) => {
                &&& final(cache).domains() == old(cache).domains().push(domain@)
                &&& handed_plan(c, config.timeout_secs, config.connect_timeout_secs, config.follow_redirects, None)
                &&& same_settings(final(cache).client_at(old(cache).domains().len() as int).handed(), c.handed())
                &&& final(cache).client_at(old(cache).domains().len() as int).pool() == c.pool()
            },
            Err(e) => final(cache).domains() == old(cache).domains() && is_build_error(e@),
        },
{
    let mut i: usize = 0;
    while i < cache.entries.len()
        invariant
            i <= cache.entries.len(),
            cache == old(cache),
            cache.wf(),
            forall|k: int| 0 <= k < i ==> cache.entries@[k].0@ != domain@,
        decreases cache.entries.len() - i,
    {
        if cache.entries[i].0.as_str().unicode_len() == domain.unicode_len() {
            let same = cache.entries[i].0 == String::from_str(domain);
            if same {
                assert(cache.domains()[i as int] == domain@);
                assert(cache.domains().contains(domain@));
                let c = cache.entries[i].1.share();
                proof {
                    assert forall|k: int| 0 <= k < cache.domains().len() && cache.domains()[k] == domain@
                        implies k == i by {
                        if k != i {
                            assert(cache.entries@[k].0@ == cache.entries@[i as int].0@);
                        }
                    }
                }
                return Ok(c);
            }
        } else {
            assert(cache.entries@[i as int].0@ != domain@);
        }
        i = i + 1;
    }
    proof {
        if cache.domains().contains(domain@) {
            let k = choose|k: int| 0 <= k < cache.domains().len() && cache.domains()[k] == domain@;
            assert(cache.entries@[k].0@ == domain@);
        }
    }
    match build_client(config) {
        Ok(c) => {
            let kept = c.share();
            let ghost before = cache.entries@;
            cache.entries.push((String::from_str(domain), kept));
            assert(cache.domains() =~= before.map_values(|e: (String, HttpClient)| e.0@).push(domain@));
            assert(cache.domains()[cache.domains().len() - 1] == domain@);
            Ok(c)
        },
        Err(e) => Err(e),
    }
}

/// Empties the client cache.
pub fn clear_client_cache(cache: &mut ClientCache)
    ensures
        final(cache).wf(),
        final(cache).domains().len() == 0,
{
    cache.entries = Vec::new();
    assert(cache.domains() =~= Seq::<Seq<char>>::empty());
}

} // verus!
