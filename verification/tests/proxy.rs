use aur_helper::models::ProxyInfo;
use aur_helper::proxy::{
    build_client, build_client_with_redirect, forward_proxy_from_answers, forward_proxy_start,
    get_active_proxy, get_forward_proxy, ProxyAction, ProxyAnswers, ProxyEvent, ProxyStage,
};

fn answers(env: [Option<&str>; 6], open: Option<usize>, mode: Option<&str>, host: Option<&str>, port: Option<&str>) -> ProxyAnswers {
    let mut ports = vec![false; 11];
    if let Some(k) = open {
        ports[k] = true;
    }
    ProxyAnswers {
        env: env.iter().map(|v| v.map(String::from)).collect(),
        open_ports: ports,
        mode: mode.map(String::from),
        host: host.map(String::from),
        port: port.map(String::from),
    }
}

#[test]
fn environment_comes_first() {
    let a = answers([None, Some(""), None, None, Some("socks5://h:1"), Some("x")], Some(0), Some("'manual'"), Some("'h'"), Some("8"));
    assert_eq!(forward_proxy_from_answers(&a).as_deref(), Some("socks5://h:1"));
}

#[test]
fn upper_case_variables_are_read() {
    let a = answers([None, Some("http://upper:1"), None, None, None, None], None, None, None, None);
    assert_eq!(forward_proxy_from_answers(&a).as_deref(), Some("http://upper:1"));
    let a = answers([None, None, None, Some("http://secure:2"), None, None], Some(0), None, None, None);
    assert_eq!(forward_proxy_from_answers(&a).as_deref(), Some("http://secure:2"));
}

#[test]
fn local_port_comes_second() {
    let a = answers([None, None, None, None, None, None], Some(2), Some("'manual'"), Some("'h'"), Some("8"));
    assert_eq!(forward_proxy_from_answers(&a).as_deref(), Some("http://127.0.0.1:7890"));
    let a = answers([None, None, None, None, None, None], Some(10), None, None, None);
    assert_eq!(forward_proxy_from_answers(&a).as_deref(), Some("http://127.0.0.1:8080"));
}

#[test]
fn desktop_setting_comes_last() {
    let a = answers([None; 6], None, Some("'manual'\n"), Some("'proxy.lan'\n"), Some("3128\n"));
    assert_eq!(forward_proxy_from_answers(&a).as_deref(), Some("http://proxy.lan:3128"));
    let a = answers([None; 6], None, Some("'none'"), Some("'proxy.lan'"), Some("3128"));
    assert_eq!(forward_proxy_from_answers(&a), None);
    let a = answers([None; 6], None, Some("'manual'"), Some("''"), Some("3128"));
    assert_eq!(forward_proxy_from_answers(&a), None);
    let a = answers([None; 6], None, Some("'manual'"), Some("'h'"), Some("70000"));
    assert_eq!(forward_proxy_from_answers(&a), None);
    let a = answers([None; 6], None, None, None, None);
    assert_eq!(forward_proxy_from_answers(&a), None);
}

#[test]
fn machine_steps() {
    let (stage, action) = forward_proxy_start();
    assert!(matches!(stage, ProxyStage::EnvVar(0)));
    assert!(matches!(action, ProxyAction::ReadEnv(ref n) if n == "http_proxy"));
    let (stage, action) = get_forward_proxy(stage, ProxyEvent::EnvValue(None));
    assert!(matches!(action, ProxyAction::ReadEnv(ref n) if n == "HTTP_PROXY"));
    let (_, action) = get_forward_proxy(stage, ProxyEvent::EnvValue(Some("http://p".into())));
    assert!(matches!(action, ProxyAction::Done(Some(ref u)) if u == "http://p"));
    let (_, action) = get_forward_proxy(ProxyStage::EnvVar(5), ProxyEvent::EnvValue(None));
    assert!(matches!(action, ProxyAction::ProbePort(7897)));
    let (_, action) = get_forward_proxy(ProxyStage::LocalPort(10), ProxyEvent::PortOpen(false));
    assert!(matches!(action, ProxyAction::ReadSetting { ref schema, ref key } if schema == "org.gnome.system.proxy" && key == "mode"));
    let (_, action) = get_forward_proxy(ProxyStage::DesktopMode, ProxyEvent::PortOpen(true));
    assert!(matches!(action, ProxyAction::Done(None)));
}

#[test]
fn active_download_proxy_is_the_first() {
    let p = |url: &str| ProxyInfo {
        proxy_id: Some(1),
        proxy_name: "m".into(),
        proxy_type: "download".into(),
        url: url.into(),
        is_active: true,
        success_count: 0,
        fail_count: 0,
        avg_latency: None,
        last_test_status: None,
        strip_target_protocol: false,
    };
    assert_eq!(get_active_proxy(&vec![]), None);
    assert_eq!(get_active_proxy(&vec![p("https://a"), p("https://b")]).as_deref(), Some("https://a"));
}

#[test]
fn checker_clients_build() {
    let a = build_client(10, false, Some("http://127.0.0.1:7897")).unwrap();
    assert!(a.settings().proxy.is_none());
    assert!(a.settings().follow_redirects);
    let b = build_client(10, true, Some("http://127.0.0.1:7897")).unwrap();
    assert_eq!(b.settings().proxy.as_deref(), Some("http://127.0.0.1:7897"));
    assert_eq!((b.settings().timeout_secs, b.settings().connect_timeout_secs), (Some(10), Some(10)));
    let c = build_client_with_redirect(10, true, false, None).unwrap();
    assert!(!c.settings().follow_redirects);
    assert!(c.settings().proxy.is_none());
}
