use aur_helper::http::{
    build_client, build_proxy_client, clear_client_cache, get_client_for_domain, ClientCache,
    ClientConfig, DEFAULT_CONNECT_TIMEOUT_SECS, DEFAULT_TIMEOUT_SECS,
};

#[test]
fn test_client_config_default() {
    let config = ClientConfig::default();
    assert_eq!(config.timeout_secs, 30);
    assert_eq!(config.connect_timeout_secs, 10);
    assert!(!config.use_proxy);
    assert!(config.follow_redirects);
}

#[test]
fn default_timeouts_are_thirty_and_ten_seconds() {
    assert_eq!(DEFAULT_TIMEOUT_SECS, 30);
    assert_eq!(DEFAULT_CONNECT_TIMEOUT_SECS, 10);
}

#[test]
fn client_builds_with_and_without_redirects() {
    let mut config = ClientConfig::default();
    let c = build_client(&config).unwrap();
    assert_eq!((c.settings().timeout_secs, c.settings().connect_timeout_secs), (Some(30), Some(10)));
    assert!(c.settings().follow_redirects);
    assert!(c.settings().proxy.is_none());
    config.follow_redirects = false;
    config.timeout_secs = 7;
    config.connect_timeout_secs = 3;
    let c = build_client(&config).unwrap();
    assert_eq!((c.settings().timeout_secs, c.settings().connect_timeout_secs), (Some(7), Some(3)));
    assert!(!c.settings().follow_redirects);
}

#[test]
fn proxy_client_builds_with_or_without_a_proxy() {
    let a = build_proxy_client(5, None).unwrap();
    assert_eq!(a.settings().timeout_secs, Some(5));
    assert_eq!(a.settings().connect_timeout_secs, Some(10));
    assert!(a.settings().follow_redirects);
    assert!(a.settings().proxy.is_none());
    let b = build_proxy_client(5, Some("http://127.0.0.1:7897")).unwrap();
    assert_eq!(b.settings().proxy.as_deref(), Some("http://127.0.0.1:7897"));
    let c = build_proxy_client(5, Some("not a url")).unwrap();
    assert!(c.settings().proxy.is_none());
}

#[test]
fn client_cache_reuses_and_clears() {
    let config = ClientConfig::default();
    let mut cache = ClientCache::new();
    assert!(get_client_for_domain(&mut cache, "aur.archlinux.org", &config).is_ok());
    assert!(get_client_for_domain(&mut cache, "aur.archlinux.org", &config).is_ok());
    assert!(get_client_for_domain(&mut cache, "api.github.com", &config).is_ok());
    clear_client_cache(&mut cache);
    assert!(get_client_for_domain(&mut cache, "aur.archlinux.org", &config).is_ok());
}

#[test]
fn a_fetched_domain_stays_cached() {
    let config = ClientConfig::default();
    let mut cache = ClientCache::new();
    assert!(get_client_for_domain(&mut cache, "example.org", &config).is_ok());
    let other = ClientConfig { timeout_secs: 99, ..ClientConfig::default() };
    let again = get_client_for_domain(&mut cache, "example.org", &other).unwrap();
    assert_eq!(again.settings().timeout_secs, Some(30));
}
