//! Choosing the proxy for GitHub requests.
//!
//! The forward proxy is looked up in order of priority: the proxy
//! environment variables (`http_proxy`, `HTTP_PROXY`, `https_proxy`,
//! `HTTPS_PROXY`, `ALL_PROXY`, `all_proxy`), then a proxy client listening on a well-known
//! local port, then the GNOME (and KDE) desktop proxy settings. The lookup
//! is a small state machine: each step names the next thing to ask
//! (`ProxyAction`), the caller asks it and hands the answer back
//! (`ProxyEvent`), until the lookup is done.

use vstd::prelude::*;
use crate::error::{from_http, AppError};
use crate::models::ProxyInfo;
use crate::http::{
    client_from_plan, finish_builder, handed_plan, has_defaults, is_build_error, new_builder, plan_is,
    ClientPlan, HttpClient, DEFAULT_CONNECT_TIMEOUT_SECS,
};
use crate::text::{
    chars_of, decimal, decimal_string, parse_u64, parse_u64_spec, string_of, trim, trim_bounds,
    trim_char,
};

verus! {

/// The proxy environment variables, in order of priority.
pub open spec fn proxy_env_vars() -> Seq<Seq<char>> {
    seq!["http_proxy"@, "HTTP_PROXY"@, "https_proxy"@, "HTTPS_PROXY"@, "ALL_PROXY"@, "all_proxy"@]
}

/// The local ports proxy clients listen on by default (Mihomo, Clash
/// Verge, Clash, SOCKS, V2Ray, plain HTTP), in order of priority.
pub open spec fn local_proxy_ports() -> Seq<u16> {
    seq![7897u16, 7898, 7890, 7891, 7892, 7893, 1080, 10808, 10809, 1081, 8080]
}

/// The name of proxy environment variable `k`.
fn env_var_name(k: usize) -> (r: String)
    requires
        k < 6,
    ensures
        r@ == proxy_env_vars()[k as int],
{
    if k == 0 {
        String::from_str("http_proxy")
    } else if k == 1 {
        String::from_str("HTTP_PROXY")
    } else if k == 2 {
        String::from_str("https_proxy")
    } else if k == 3 {
        String::from_str("HTTPS_PROXY")
    } else if k == 4 {
        String::from_str("ALL_PROXY")
    } else {
        String::from_str("all_proxy")
    }
}

/// Local proxy port `k`.
fn local_port(k: usize) -> (r: u16)
    requires
        k < 11,
    ensures
        r == local_proxy_ports()[k as int],
{
    if k == 0 { 7897 } else if k == 1 { 7898 } else if k == 2 { 7890 } else if k == 3 { 7891 }
    else if k == 4 { 7892 } else if k == 5 { 7893 } else if k == 6 { 1080 } else if k == 7 { 10808 }
    else if k == 8 { 10809 } else if k == 9 { 1081 } else { 8080 }
}

/// Where the lookup stands.
#[derive(Debug)]
pub enum ProxyStage {
    /// Reading proxy environment variable `k`.
    EnvVar(usize),
    /// Probing local port `k`.
    LocalPort(usize),
    /// Reading the desktop proxy mode.
    DesktopMode,
    /// Reading the desktop HTTP proxy host.
    DesktopHost,
    /// Reading the desktop HTTP proxy port, the host being known.
    DesktopPort(String),
    /// The lookup is over.
    Finished,
}

/// What the caller is to do next.
#[derive(Debug)]
pub enum ProxyAction {
    /// Read this environment variable.
    ReadEnv(String),
    /// Try to connect to `127.0.0.1` on this port (with a short time-out).
    ProbePort(u16),
    /// Run `gsettings get <schema> <key>`.
    ReadSetting { schema: String, key: String },
    /// The lookup is over, with this proxy URL (or none).
    Done(Option<String>),
}

/// The answer to the last action.
#[derive(Debug)]
pub enum ProxyEvent {
    /// The variable's value, `None` when unset or not Unicode.
    EnvValue(Option<String>),
    /// Whether the port accepted the connection.
    PortOpen(bool),
    /// The command's standard output when it succeeded, `None` otherwise.
    Setting(Option<String>),
}

/// The action reads setting `key` of `schema`.
pub open spec fn reads_setting(a: ProxyAction, schema: Seq<char>, key: Seq<char>) -> bool {
    a matches ProxyAction::ReadSetting { schema: s, key: k } && s@ == schema && k@ == key
}

/// The action reads the environment variable `name`.
pub open spec fn reads_env(a: ProxyAction, name: Seq<char>) -> bool {
    a matches ProxyAction::ReadEnv(n) && n@ == name
}

/// The action ends the lookup with the proxy `url`.
pub open spec fn done_with(a: ProxyAction, url: Seq<char>) -> bool {
    a matches ProxyAction::Done(Some(u)) && u@ == url
}

/// `http://127.0.0.1:{port}`.
pub open spec fn local_proxy_url(port: u16) -> Seq<char> {
    "http://127.0.0.1:"@ + decimal(port as nat)
}

/// `http://{host}:{port}`.
pub open spec fn desktop_proxy_url(host: Seq<char>, port: u16) -> Seq<char> {
    "http://"@ + host + ":"@ + decimal(port as nat)
}

/// The host a `gsettings` host answer gives: trimmed, quotes removed.
pub open spec fn setting_host(out: Seq<char>) -> Seq<char> {
    trim_char(trim(out), '\'')
}

/// The port a `gsettings` port answer gives: trimmed and read as a `u16`.
pub open spec fn setting_port(out: Seq<char>) -> Option<u16> {
    match parse_u64_spec(trim(out)) {
        Some(n) => if n <= 0xffff { Some(n as u16) } else { None },
        None => None,
    }
}

/// The action that starts the lookup.
pub fn forward_proxy_start() -> (r: (ProxyStage, ProxyAction))
    ensures
        r.0 == ProxyStage::EnvVar(0),
        reads_env(r.1, proxy_env_vars()[0]),
{
    (ProxyStage::EnvVar(0), ProxyAction::ReadEnv(env_var_name(0)))
}

/// The stage and action after entering stage `LocalPort(k)`, or the
/// desktop mode once every port has been tried.
fn probe_from(k: usize) -> (r: (ProxyStage, ProxyAction))
    requires
        k <= 11,
    ensures
        k < 11 ==> r.0 == ProxyStage::LocalPort(k) && r.1 == ProxyAction::ProbePort(local_proxy_ports()[k as int]),
        k == 11 ==> r.0 == ProxyStage::DesktopMode && reads_setting(r.1, "org.gnome.system.proxy"@, "mode"@),
{
    if k < 11 {
        (ProxyStage::LocalPort(k), ProxyAction::ProbePort(local_port(k)))
    } else {
        (
            ProxyStage::DesktopMode,
            ProxyAction::ReadSetting {
                schema: String::from_str("org.gnome.system.proxy"),
                key: String::from_str("mode"),
            },
        )
    }
}

/// The trimmed text of `s`.
fn trimmed(s: &str) -> (r: String)
    ensures
        r@ == trim(s@),
{
    let v = chars_of(s);
    let (a, b) = trim_bounds(&v, 0, v.len());
    assert(v@.subrange(0, v@.len() as int) =~= v@);
    string_of(&v, a, b)
}

/// One step of the forward proxy lookup: from the stage reached and the
/// answer to the last action, the next stage and action.
///
/// - An environment variable with a non-empty value is the proxy; else the
///   next variable is read, and after the last one the local ports are
///   probed.
/// - An open local port gives `http://127.0.0.1:{port}`; else the next
///   port is probed, and after the last one the desktop mode is read.
/// - A desktop mode other than `'manual'` (once trimmed), or a failed
///   read, ends the lookup without a proxy; so do an empty host (trimmed,
///   quotes removed) and a port that is no `u16`. Otherwise the proxy is
///   `http://{host}:{port}`.
///
/// An answer that does not fit the stage ends the lookup without a proxy.
pub fn get_forward_proxy(stage: ProxyStage, event: ProxyEvent) -> (r: (ProxyStage, ProxyAction))
    requires
        stage matches ProxyStage::EnvVar(k) ==> k < 6,
        stage matches ProxyStage::LocalPort(k) ==> k < 11,
    ensures
        r.0 matches ProxyStage::EnvVar(k) ==> k < 6,
        r.0 matches ProxyStage::LocalPort(k) ==> k < 11,
        r.1 is Done <==> r.0 is Finished,
        match (stage, event) {
            (ProxyStage::EnvVar(k), ProxyEvent::EnvValue(v)) => {
                if (v matches Some(s) && s@.len() > 0) {
                    done_with(r.1, v.unwrap()@)
                } else if k + 1 < 6 {
                    r.0 == ProxyStage::EnvVar((k + 1) as usize) && reads_env(r.1, proxy_env_vars()[k + 1])
                } else {
                    r.0 == ProxyStage::LocalPort(0) && r.1 == ProxyAction::ProbePort(local_proxy_ports()[0])
                }
            },
            (ProxyStage::LocalPort(k), ProxyEvent::PortOpen(open)) => {
                if open {
                    done_with(r.1, local_proxy_url(local_proxy_ports()[k as int]))
                } else if k + 1 < 11 {
                    r.0 == ProxyStage::LocalPort((k + 1) as usize)
                        && r.1 == ProxyAction::ProbePort(local_proxy_ports()[k + 1])
                } else {
                    r.0 == ProxyStage::DesktopMode && reads_setting(r.1, "org.gnome.system.proxy"@, "mode"@)
                }
            },
            (ProxyStage::DesktopMode, ProxyEvent::Setting(out)) => {
                if (out matches Some(o) && trim(o@) == "'manual'"@) {
                    r.0 == ProxyStage::DesktopHost && reads_setting(r.1, "org.gnome.system.proxy.http"@, "host"@)
                } else {
                    r.1 == ProxyAction::Done(None)
                }
            },
            (ProxyStage::DesktopHost, ProxyEvent::Setting(out)) => {
                if (out matches Some(o) && setting_host(o@).len() > 0) {
                    (r.0 matches ProxyStage::DesktopPort(h) && h@ == setting_host(out.unwrap()@))
                        && reads_setting(r.1, "org.gnome.system.proxy.http"@, "port"@)
                } else {
                    r.1 == ProxyAction::Done(None)
                }
            },
            (ProxyStage::DesktopPort(host), ProxyEvent::Setting(out)) => {
                if (out matches Some(o) && setting_port(o@) is Some) {
                    done_with(r.1, desktop_proxy_url(host@, setting_port(out.unwrap()@).unwrap()))
                } else {
                    r.1 == ProxyAction::Done(None)
                }
            },
            _ => r.1 == ProxyAction::Done(None),
        },
{
    match (stage, event) {
        (ProxyStage::EnvVar(k), ProxyEvent::EnvValue(v)) => {
            match v {
                Some(s) => {
                    if s.unicode_len() > 0 {
                        return (ProxyStage::Finished, ProxyAction::Done(Some(s)));
                    }
                },
                None => {},
            }
            if k + 1 < 6 {
                (ProxyStage::EnvVar(k + 1), ProxyAction::ReadEnv(env_var_name(k + 1)))
            } else {
                probe_from(0)
            }
        },
        (ProxyStage::LocalPort(k), ProxyEvent::PortOpen(open)) => {
            if open {
                let mut u = String::from_str("http://127.0.0.1:");
                let p = decimal_string(local_port(k) as u64);
                u.append(p.as_str());
                (ProxyStage::Finished, ProxyAction::Done(Some(u)))
            } else {
                probe_from(k + 1)
            }
        },
        (ProxyStage::DesktopMode, ProxyEvent::Setting(out)) => {
            match out {
                Some(o) => {
                    let mode = trimmed(o.as_str());
                    let manual = String::from_str("'manual'");
                    if mode == manual {
                        return (
                            ProxyStage::DesktopHost,
                            ProxyAction::ReadSetting {
                                schema: String::from_str("org.gnome.system.proxy.http"),
                                key: String::from_str("host"),
                            },
                        );
                    }
                    (ProxyStage::Finished, ProxyAction::Done(None))
                },
                None => (ProxyStage::Finished, ProxyAction::Done(None)),
            }
        },
        (ProxyStage::DesktopHost, ProxyEvent::Setting(out)) => {
            match out {
                Some(o) => {
                    let t = trimmed(o.as_str());
                    let tv = chars_of(t.as_str());
                    let (a, b) = crate::text::trim_char_bounds(&tv, '\'');
                    let host = string_of(&tv, a, b);
                    if host.unicode_len() > 0 {
                        return (
                            ProxyStage::DesktopPort(host),
                            ProxyAction::ReadSetting {
                                schema: String::from_str("org.gnome.system.proxy.http"),
                                key: String::from_str("port"),
                            },
                        );
                    }
                    (ProxyStage::Finished, ProxyAction::Done(None))
                },
                None => (ProxyStage::Finished, ProxyAction::Done(None)),
            }
        },
        (ProxyStage::DesktopPort(host), ProxyEvent::Setting(out)) => {
            match out {
                Some(o) => {
                    let t = trimmed(o.as_str());
                    match parse_u64(t.as_str()) {
                        Some(n) => {
                            if n <= 0xffff {
                                let mut u = String::from_str("http://");
                                u.append(host.as_str());
                                u.append(":");
                                let p = decimal_string(n);
                                u.append(p.as_str());
                                return (ProxyStage::Finished, ProxyAction::Done(Some(u)));
                            }
                            (ProxyStage::Finished, ProxyAction::Done(None))
                        },
                        None => (ProxyStage::Finished, ProxyAction::Done(None)),
                    }
                },
                None => (ProxyStage::Finished, ProxyAction::Done(None)),
            }
        },
        _ => (ProxyStage::Finished, ProxyAction::Done(None)),
    }
}

/// The URL of the first active download proxy (a GitHub download mirror),
/// if any. The list is the active download proxies in the order the
/// database gives them.
pub fn get_active_proxy(active_download_proxies: &Vec<ProxyInfo>) -> (r: Option<String>)
    ensures
        active_download_proxies.len() == 0 ==> r is None,
        active_download_proxies.len() > 0 ==> (r matches Some(u) && u@ == active_download_proxies@[0].url@),
{
    if active_download_proxies.len() == 0 {
        None
    } else {
        Some(active_download_proxies[0].url.clone())
    }
}

/// The answers the machine would get to each question of a lookup: the
/// values of the six proxy variables, whether each well-known local port
/// is open, and the `gsettings` outputs for the mode, host and port
/// (`None` when the command failed).
#[derive(Debug)]
pub struct ProxyAnswers {
    pub env: Vec<Option<String>>,
    pub open_ports: Vec<bool>,
    pub mode: Option<String>,
    pub host: Option<String>,
    pub port: Option<String>,
}

/// The first non-empty proxy variable from position `k` on.
pub open spec fn env_choice(env: Seq<Option<String>>, k: int) -> Option<Seq<char>>
    decreases 6 - k,
{
    if k < 0 || k >= 6 {
        None
    } else if (env[k] matches Some(v) && v@.len() > 0) {
        Some(env[k].unwrap()@)
    } else {
        env_choice(env, k + 1)
    }
}

/// The first open local proxy port from position `k` on, as a URL.
pub open spec fn port_choice(open: Seq<bool>, k: int) -> Option<Seq<char>>
    decreases 11 - k,
{
    if k < 0 || k >= 11 {
        None
    } else if open[k] {
        Some(local_proxy_url(local_proxy_ports()[k]))
    } else {
        port_choice(open, k + 1)
    }
}

/// The desktop proxy: set when the mode is manual, the host non-empty and
/// the port a `u16`.
pub open spec fn desktop_choice(mode: Option<String>, host: Option<String>, port: Option<String>) -> Option<Seq<char>> {
    if (mode matches Some(m) && trim(m@) == "'manual'"@)
        && (host matches Some(h) && setting_host(h@).len() > 0)
        && (port matches Some(p) && setting_port(p@) is Some) {
        Some(desktop_proxy_url(setting_host(host.unwrap()@), setting_port(port.unwrap()@).unwrap()))
    } else {
        None
    }
}

/// The forward proxy, by priority: a proxy variable, else an open local
/// proxy port, else the desktop setting, else none.
pub open spec fn spec_forward_proxy(a: ProxyAnswers) -> Option<Seq<char>> {
    match env_choice(a.env@, 0) {
        Some(u) => Some(u),
        None => match port_choice(a.open_ports@, 0) {
            Some(u) => Some(u),
            None => desktop_choice(a.mode, a.host, a.port),
        },
    }
}

/// How far a lookup is from its end.
pub open spec fn stage_rank(s: ProxyStage) -> int {
    match s {
        ProxyStage::EnvVar(k) => 22 - k,
        ProxyStage::LocalPort(k) => 15 - k,
        ProxyStage::DesktopMode => 3,
        ProxyStage::DesktopHost => 2,
        ProxyStage::DesktopPort(_) => 1,
        ProxyStage::Finished => 0,
    }
}

/// The lookup run to its end against the given answers. Its result is the
/// forward proxy by priority (`spec_forward_proxy`): the machine asks the
/// questions in order of priority and stops at the first that settles the
/// proxy.
pub fn forward_proxy_from_answers(a: &ProxyAnswers) -> (r: Option<String>)
    requires
        a.env.len() == 6,
        a.open_ports.len() == 11,
    ensures
        match r {
            Some(u) => spec_forward_proxy(*a) == Some(u@),
            None => spec_forward_proxy(*a) is None,
        },
{
    let (mut stage, mut action) = forward_proxy_start();
    loop
        invariant
            a.env.len() == 6,
            a.open_ports.len() == 11,
            stage matches ProxyStage::EnvVar(k) ==> k < 6,
            stage matches ProxyStage::LocalPort(k) ==> k < 11,
            action is Done <==> stage is Finished,
            match stage {
                ProxyStage::EnvVar(k) => env_choice(a.env@, 0) == env_choice(a.env@, k as int),
                ProxyStage::LocalPort(k) => env_choice(a.env@, 0) is None
                    && port_choice(a.open_ports@, 0) == port_choice(a.open_ports@, k as int),
                ProxyStage::DesktopMode => env_choice(a.env@, 0) is None
                    && port_choice(a.open_ports@, 0) is None,
                ProxyStage::DesktopHost => env_choice(a.env@, 0) is None
                    && port_choice(a.open_ports@, 0) is None
                    && (a.mode matches Some(m) && trim(m@) == "'manual'"@),
                ProxyStage::DesktopPort(h) => env_choice(a.env@, 0) is None
                    && port_choice(a.open_ports@, 0) is None
                    && (a.mode matches Some(m) && trim(m@) == "'manual'"@)
                    && (a.host matches Some(x) && setting_host(x@) == h@ && h@.len() > 0),
                ProxyStage::Finished => match action {
                    ProxyAction::Done(Some(u)) => spec_forward_proxy(*a) == Some(u@),
                    ProxyAction::Done(None) => spec_forward_proxy(*a) is None,
                    _ => false,
                },
            },
        decreases stage_rank(stage),
    {
        match action {
            ProxyAction::Done(r) => {
                return r;
            },
            _ => {},
        }
        let event = match &stage {
            ProxyStage::EnvVar(k) => ProxyEvent::EnvValue(crate::batch::copy_opt_string(&a.env[*k])),
            ProxyStage::LocalPort(k) => ProxyEvent::PortOpen(a.open_ports[*k]),
            ProxyStage::DesktopMode => ProxyEvent::Setting(crate::batch::copy_opt_string(&a.mode)),
            ProxyStage::DesktopHost => ProxyEvent::Setting(crate::batch::copy_opt_string(&a.host)),
            ProxyStage::DesktopPort(_) => ProxyEvent::Setting(crate::batch::copy_opt_string(&a.port)),
            ProxyStage::Finished => ProxyEvent::PortOpen(false),
        };
        proof {
            reveal_with_fuel(env_choice, 2);
            reveal_with_fuel(port_choice, 2);
        }
        let (s2, a2) = get_forward_proxy(stage, event);
        stage = s2;
        action = a2;
    }
}

/// The proxy an upstream-check client is to use: the forward proxy when
/// `use_proxy` holds and there is one.
pub open spec fn planned_proxy(use_proxy: bool, forward_proxy: Option<&str>) -> Option<Seq<char>> {
    if use_proxy {
        match forward_proxy {
            Some(u) => Some(u@),
            None => None,
        }
    } else {
        None
    }
}

/// The plan of a client for upstream checks: `timeout_secs` request
/// time-out, the default connection time-out, redirects followed when
/// `follow_redirects` holds, and the forward proxy when `use_proxy` holds
/// and there is one.
pub fn upstream_client_plan(
    timeout_secs: u64,
    use_proxy: bool,
    follow_redirects: bool,
    forward_proxy: Option<&str>,
) -> (r: ClientPlan)
    ensures
        plan_is(r, timeout_secs, DEFAULT_CONNECT_TIMEOUT_SECS, follow_redirects,
            planned_proxy(use_proxy, forward_proxy)),
{
    ClientPlan {
        timeout_secs,
        connect_timeout_secs: DEFAULT_CONNECT_TIMEOUT_SECS,
        follow_redirects,
        proxy: if use_proxy {
            match forward_proxy {
                Some(u) => Some(String::from_str(u)),
                None => None,
            }
        } else {
            None
        },
    }
}

/// A client for upstream checks that follows redirects (see
/// `build_client_with_redirect`).
pub fn build_client(timeout_secs: u64, use_proxy: bool, forward_proxy: Option<&str>) -> (r: Result<HttpClient, AppError>)
    ensures
        match r {
            Ok(c) => handed_plan(c, timeout_secs, DEFAULT_CONNECT_TIMEOUT_SECS, true,
                planned_proxy(use_proxy, forward_proxy)) || has_defaults(c),
            Err(e) => is_build_error(e@),
        },
{
    build_client_with_redirect(timeout_secs, use_proxy, true, forward_proxy)
}

/// A client for upstream checks built from `upstream_client_plan` (the
/// proxy is left out when reqwest refuses its URL). When reqwest cannot
/// build it, a client with reqwest's defaults is built instead; only when
/// that fails too is the result an error.
pub fn build_client_with_redirect(
    timeout_secs: u64,
    use_proxy: bool,
    follow_redirects: bool,
    forward_proxy: Option<&str>,
) -> (r: Result<HttpClient, AppError>)
    ensures
        match r {
            Ok(c) => handed_plan(c, timeout_secs, DEFAULT_CONNECT_TIMEOUT_SECS, follow_redirects,
                planned_proxy(use_proxy, forward_proxy)) || has_defaults(c),
            Err(e) => is_build_error(e@),
        },
{
    match client_from_plan(&upstream_client_plan(timeout_secs, use_proxy, follow_redirects, forward_proxy)) {
        Ok(c) => Ok(c),
        Err(_) => match finish_builder(new_builder()) {
            Ok(c) => Ok(c),
            Err(e) => Err(from_http(&e)),
        },
    }
}

} // verus!
