use sidafa_cache::config::Config;

fn sample() -> Config {
    Config {
        port: 3000,
        host: "127.0.0.1".to_string(),
        redis_host: "cache.local".to_string(),
        redis_port: 6379,
        redis_password: None,
        youtube_api_key: "k".to_string(),
        channel_id: "c".to_string(),
    }
}

#[test]
fn redis_url_without_password() {
    assert_eq!(sample().redis_url(), "redis://cache.local:6379");
}

#[test]
fn redis_url_with_password() {
    let mut c = sample();
    c.redis_password = Some("s3cret".to_string());
    assert_eq!(c.redis_url(), "redis://:s3cret@cache.local:6379");
}

#[test]
fn server_addr_joins_host_and_port() {
    assert_eq!(sample().server_addr(), "127.0.0.1:3000");
    let mut c = sample();
    c.host = "0.0.0.0".to_string();
    c.port = 80;
    assert_eq!(c.server_addr(), "0.0.0.0:80");
}

#[test]
fn defaults_when_nothing_is_given() {
    let c = Config::from_vars(None, None, None, None, None, None, None).unwrap();
    assert_eq!(c.port, 3000);
    assert_eq!(c.host, "127.0.0.1");
    assert_eq!(c.redis_host, "127.0.0.1");
    assert_eq!(c.redis_port, 6379);
    assert_eq!(c.redis_password, None);
    assert_eq!(c.youtube_api_key, "key");
    assert_eq!(c.channel_id, "channelId");
    assert_eq!(c.redis_url(), "redis://127.0.0.1:6379");
    assert_eq!(c.server_addr(), "127.0.0.1:3000");
}

#[test]
fn given_settings_are_taken() {
    let s = |t: &str| Some(t.to_string());
    let c = Config::from_vars(s("8080"), s("h"), s("r"), s("7000"), s("pw"), s("K"), s("C"))
        .unwrap();
    assert_eq!(c.port, 8080);
    assert_eq!(c.host, "h");
    assert_eq!(c.redis_host, "r");
    assert_eq!(c.redis_port, 7000);
    assert_eq!(c.redis_password, Some("pw".to_string()));
    assert_eq!(c.youtube_api_key, "K");
    assert_eq!(c.channel_id, "C");
}

#[test]
fn empty_password_counts_as_none() {
    let c = Config::from_vars(None, None, None, None, Some(String::new()), None, None).unwrap();
    assert_eq!(c.redis_password, None);
}

#[test]
fn bad_port_gives_no_config() {
    let s = |t: &str| Some(t.to_string());
    assert!(Config::from_vars(s("http"), None, None, None, None, None, None).is_none());
    assert!(Config::from_vars(None, None, None, s("70000"), None, None, None).is_none());
    assert!(Config::from_vars(s(""), None, None, None, None, None, None).is_none());
}
