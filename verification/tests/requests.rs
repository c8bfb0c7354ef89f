use sidafa_cache::config::Config;
use sidafa_cache::error::{error_body, AppError};
use sidafa_cache::gateway::{
    after_fetch, after_read, after_write, decide_after_fetch, decide_after_read, refuse, CacheRead,
    FetchReply, Lookup, Step, StoreAck,
};
use sidafa_cache::limits::{
    BURST_SIZE, CACHE_TTL_SECONDS, REPLENISH_SECONDS, SWEEP_SECONDS, UPSTREAM_TIMEOUT_SECONDS,
};
use sidafa_cache::params::Params;
use sidafa_cache::wordpress::{trimmed_path, WordPressService};
use sidafa_cache::youtube::YouTubeService;

fn service() -> YouTubeService {
    let config = Config::from_vars(
        None,
        None,
        None,
        None,
        None,
        Some("API-KEY".to_string()),
        Some("CHANNEL".to_string()),
    )
    .unwrap();
    YouTubeService::new(config)
}

fn params_of(pairs: &[(&str, &str)]) -> Params {
    let mut p = Params::new();
    for (k, v) in pairs {
        p.insert(k.to_string(), v.to_string());
    }
    p
}

fn any_lookup() -> Lookup {
    WordPressService::new().begin("posts", &Params::new())
}

fn pairs_in(p: &Params) -> Vec<(String, String)> {
    p.entries().iter().map(|e| (e.name.clone(), e.value.clone())).collect()
}

fn pair(k: &str, v: &str) -> (String, String) {
    (k.to_string(), v.to_string())
}

#[test]
fn allow_list_is_the_five_resources() {
    assert_eq!(
        YouTubeService::allowed_resources(),
        vec!["search", "videos", "channels", "playlists", "playlistItems"]
    );
}

#[test]
fn every_listed_resource_is_accepted() {
    for r in YouTubeService::allowed_resources() {
        assert!(YouTubeService::validate_resource(&r).is_ok());
    }
}

#[test]
fn bogus_resource_is_turned_away() {
    let p = params_of(&[("q", "test")]);
    match service().begin("bogus", &p) {
        Err(e) => {
            assert!(matches!(e, AppError::Validation(_)));
            assert_eq!(e.status_code(), 400);
            assert_eq!(
                e.message(),
                "Invalid resource: \"bogus\". Allowed: search, videos, channels, playlists, playlistItems"
            );
            assert_eq!(
                e.response_body(),
                "{\"error\":\"Invalid resource: \\\"bogus\\\". Allowed: search, videos, channels, playlists, playlistItems\",\"status\":400}"
            );
        }
        Ok(_) => panic!("a resource outside the allow-list went through"),
    }
}

#[test]
fn near_misses_are_turned_away() {
    for r in ["", "Search", "search ", "playlistitems", "videos/", "searc"] {
        assert!(YouTubeService::validate_resource(r).is_err());
    }
}

#[test]
fn search_request_end_to_end() {
    let p = params_of(&[("q", "test")]);
    let lookup = service().begin("search", &p).unwrap();
    assert_eq!(lookup.key, "youtube:/search:{\"q\":\"test\"}");
    assert_eq!(lookup.url, "https://www.googleapis.com/youtube/v3/search");
    assert_eq!(
        pairs_in(&lookup.query),
        vec![pair("channelId", "CHANNEL"), pair("key", "API-KEY"), pair("q", "test")]
    );
    let step = after_read(CacheRead::Miss);
    assert!(matches!(step, Step::Fetch));
    let reply = FetchReply::Http {
        status: 200,
        body: "{ \"items\": [1, 2] }".to_string(),
        body_is_utf8: true,
    };
    let doc = match after_fetch(&lookup, reply) {
        Step::Store { key, payload } => {
            assert_eq!(key, "youtube:/search:{\"q\":\"test\"}");
            payload
        }
        other => panic!("expected a store step, got {:?}", other),
    };
    assert_eq!(doc, "{\"items\":[1,2]}");
    match after_write(doc, StoreAck::Stored) {
        Step::Succeed(body) => assert_eq!(body, "{\"items\":[1,2]}"),
        other => panic!("expected the document, got {:?}", other),
    }
}

#[test]
fn second_request_is_answered_from_cache() {
    let first = service().begin("search", &params_of(&[("q", "test"), ("part", "snippet")])).unwrap();
    let reply = FetchReply::Http { status: 200, body: "[true]".to_string(), body_is_utf8: true };
    let stored = match after_fetch(&first, reply) {
        Step::Store { payload, .. } => payload,
        other => panic!("expected a store step, got {:?}", other),
    };
    let second = service().begin("search", &params_of(&[("part", "snippet"), ("q", "test")])).unwrap();
    assert_eq!(first.key, second.key);
    match after_read(CacheRead::Hit(stored.clone())) {
        Step::Succeed(body) => assert_eq!(body, stored),
        other => panic!("expected the stored document, got {:?}", other),
    }
}

#[test]
fn fixed_parameters_win_over_the_callers() {
    let p = params_of(&[("key", "mine"), ("channelId", "other"), ("q", "x")]);
    let lookup = service().begin("videos", &p).unwrap();
    assert_eq!(
        pairs_in(&lookup.query),
        vec![pair("channelId", "CHANNEL"), pair("key", "API-KEY"), pair("q", "x")]
    );
    assert_eq!(
        lookup.key,
        "youtube:/videos:{\"channelId\":\"other\",\"key\":\"mine\",\"q\":\"x\"}"
    );
}

#[test]
fn upstream_refusal_is_reported_and_not_stored() {
    let lookup = service().begin("search", &Params::new()).unwrap();
    let reply = FetchReply::Http {
        status: 403,
        body: "quota exceeded".to_string(),
        body_is_utf8: true,
    };
    match after_fetch(&lookup, reply) {
        Step::Fail(e) => {
            match &e {
                AppError::UpstreamApi { label, status, status_text, body } => {
                    assert_eq!(label, "YouTube");
                    assert_eq!(*status, 403);
                    assert_eq!(status_text, "403 Forbidden");
                    assert_eq!(body, "quota exceeded");
                }
                other => panic!("expected an upstream failure, got {:?}", other),
            }
            assert_eq!(e.status_code(), 502);
            assert_eq!(e.message(), "YouTube API returned status 403 Forbidden: quota exceeded");
            assert_eq!(
                e.response_body(),
                "{\"error\":\"YouTube API returned status 403 Forbidden: quota exceeded\",\"status\":502}"
            );
        }
        other => panic!("expected a failure, got {:?}", other),
    }
}

#[test]
fn content_upstream_refusal_names_its_upstream() {
    let lookup = WordPressService::new().begin("posts", &Params::new());
    let reply = FetchReply::Http { status: 404, body: "not found".to_string(), body_is_utf8: true };
    match after_fetch(&lookup, reply) {
        Step::Fail(e) => {
            assert_eq!(e.status_code(), 502);
            assert_eq!(e.message(), "WordPress API returned status 404 Not Found: not found");
        }
        other => panic!("expected a failure, got {:?}", other),
    }
}

#[test]
fn status_is_written_with_its_phrase_where_it_has_one() {
    let texts = [
        (500u16, "500 Internal Server Error"),
        (301, "301 Moved Permanently"),
        (599, "599 <unknown status code>"),
        (42, "42"),
        (1000, "1000"),
    ];
    for (status, text) in texts {
        let reply = FetchReply::Http { status, body: String::new(), body_is_utf8: true };
        match after_fetch(&any_lookup(), reply) {
            Step::Fail(AppError::UpstreamApi { status_text, .. }) => assert_eq!(status_text, text),
            other => panic!("expected an upstream failure, got {:?}", other),
        }
    }
}

#[test]
fn body_that_is_not_utf8_is_judged_by_its_status() {
    let reply = FetchReply::Http { status: 200, body: "[1]".to_string(), body_is_utf8: false };
    match after_fetch(&any_lookup(), reply) {
        Step::Fail(AppError::RequestFailed(m)) => assert_eq!(m, "error decoding response body"),
        other => panic!("expected a request failure, got {:?}", other),
    }
    let reply =
        FetchReply::Http { status: 500, body: "oops \u{fffd}".to_string(), body_is_utf8: false };
    match after_fetch(&any_lookup(), reply) {
        Step::Fail(e) => assert_eq!(
            e.message(),
            "WordPress API returned status 500 Internal Server Error: oops \u{fffd}"
        ),
        other => panic!("expected a failure, got {:?}", other),
    }
}

#[test]
fn refusal_from_parts() {
    match refuse("Other", 418, Some("418 I'm a teapot".to_string()), "short".to_string()) {
        Step::Fail(e) => {
            assert_eq!(e.message(), "Other API returned status 418 I'm a teapot: short")
        }
        other => panic!("expected a failure, got {:?}", other),
    }
    match refuse("Other", 418, None, "short".to_string()) {
        Step::Fail(e) => assert_eq!(e.message(), "Other API returned status 418: short"),
        other => panic!("expected a failure, got {:?}", other),
    }
}

#[test]
fn status_range_of_success() {
    for status in [200u16, 204, 299] {
        let reply = FetchReply::Http { status, body: "{}".to_string(), body_is_utf8: true };
        assert!(matches!(after_fetch(&any_lookup(), reply), Step::Store { .. }));
    }
    for status in [100u16, 199, 300, 404, 500] {
        let reply = FetchReply::Http { status, body: "{}".to_string(), body_is_utf8: true };
        assert!(matches!(
            after_fetch(&any_lookup(), reply),
            Step::Fail(AppError::UpstreamApi { .. })
        ));
    }
}

#[test]
fn unreadable_body_fails_the_request() {
    let reply = FetchReply::Http { status: 200, body: "<html>".to_string(), body_is_utf8: true };
    match after_fetch(&any_lookup(), reply) {
        Step::Fail(AppError::RequestFailed(m)) => assert_eq!(m, "error decoding response body"),
        other => panic!("expected a request failure, got {:?}", other),
    }
}

#[test]
fn transport_failure_fails_the_request() {
    match after_fetch(&any_lookup(), FetchReply::Failed("timed out".to_string())) {
        Step::Fail(e) => {
            assert!(matches!(e, AppError::RequestFailed(_)));
            assert_eq!(e.status_code(), 502);
            assert_eq!(e.message(), "timed out");
        }
        other => panic!("expected a failure, got {:?}", other),
    }
}

#[test]
fn malformed_payload_is_an_internal_failure() {
    match after_read(CacheRead::Hit("{\"a\":".to_string())) {
        Step::Fail(e) => {
            assert!(matches!(e, AppError::Internal));
            assert_eq!(e.status_code(), 500);
            assert_eq!(e.message(), "Internal server error");
        }
        other => panic!("expected a failure, got {:?}", other),
    }
}

#[test]
fn unreachable_store_fails_the_request() {
    match after_read(CacheRead::Unavailable("connection refused".to_string())) {
        Step::Fail(e) => {
            assert!(matches!(e, AppError::CacheUnavailable(_)));
            assert_eq!(e.status_code(), 500);
            assert_eq!(e.message(), "connection refused");
        }
        other => panic!("expected a failure, got {:?}", other),
    }
    match after_write("{}".to_string(), StoreAck::Unavailable("gone".to_string())) {
        Step::Fail(AppError::CacheUnavailable(m)) => assert_eq!(m, "gone"),
        other => panic!("expected a failure, got {:?}", other),
    }
}

#[test]
fn decisions_on_given_parses() {
    let hit = CacheRead::Hit("raw".to_string());
    assert!(matches!(decide_after_read(hit, None), Step::Fail(AppError::Internal)));
    let hit = CacheRead::Hit("raw".to_string());
    match decide_after_read(hit, Some("cooked".to_string())) {
        Step::Succeed(body) => assert_eq!(body, "raw"),
        other => panic!("expected the payload, got {:?}", other),
    }
    assert!(matches!(decide_after_read(CacheRead::Miss, None), Step::Fetch));
    let reply = FetchReply::Http { status: 200, body: "raw".to_string(), body_is_utf8: true };
    match decide_after_fetch("k", "Up", reply, Some("cooked".to_string()), None) {
        Step::Store { key, payload } => {
            assert_eq!(key, "k");
            assert_eq!(payload, "cooked");
        }
        other => panic!("expected a store step, got {:?}", other),
    }
    let reply = FetchReply::Http { status: 500, body: "raw".to_string(), body_is_utf8: true };
    assert!(matches!(
        decide_after_fetch("k", "Up", reply, Some("cooked".to_string()), None),
        Step::Fail(AppError::UpstreamApi { .. })
    ));
}

#[test]
fn rate_limited_is_a_client_error() {
    let e = AppError::RateLimited;
    assert_eq!(e.status_code(), 429);
    assert_eq!(e.response_body(), "{\"error\":\"Too many requests\",\"status\":429}");
}

#[test]
fn error_body_from_parts() {
    assert_eq!(error_body("\"m\"", 400), "{\"error\":\"m\",\"status\":400}");
}

#[test]
fn wordpress_addresses() {
    assert_eq!(WordPressService::url_for(""), "https://amtsilatipusat.net/wp-json/wp/v2");
    assert_eq!(
        WordPressService::url_for("posts"),
        "https://amtsilatipusat.net/wp-json/wp/v2/posts"
    );
    assert_eq!(
        WordPressService::url_for("//posts/1"),
        "https://amtsilatipusat.net/wp-json/wp/v2/posts/1"
    );
    assert_eq!(WordPressService::url_for("/"), "https://amtsilatipusat.net/wp-json/wp/v2/");
    assert_eq!(trimmed_path("///"), "");
    assert_eq!(trimmed_path("a/b"), "a/b");
}

#[test]
fn wordpress_request() {
    let p = params_of(&[("per_page", "5"), ("page", "2")]);
    let lookup = WordPressService::new().begin("posts", &p);
    assert_eq!(lookup.key, "wp:posts:{\"page\":\"2\",\"per_page\":\"5\"}");
    assert_eq!(lookup.url, "https://amtsilatipusat.net/wp-json/wp/v2/posts");
    assert_eq!(pairs_in(&lookup.query), vec![pair("page", "2"), pair("per_page", "5")]);
}

#[test]
fn fixed_numbers() {
    assert_eq!(CACHE_TTL_SECONDS, 3600);
    assert_eq!(UPSTREAM_TIMEOUT_SECONDS, 30);
    assert_eq!(BURST_SIZE, 100);
    assert_eq!(REPLENISH_SECONDS, 60);
    assert_eq!(SWEEP_SECONDS, 60);
}

#[test]
fn expired_entry_is_fetched_again() {
    let lookup = service().begin("videos", &params_of(&[("id", "v1")])).unwrap();
    assert!(matches!(after_read(CacheRead::Miss), Step::Fetch));
    let reply = FetchReply::Http { status: 200, body: "{\"n\": 2}".to_string(), body_is_utf8: true };
    match after_fetch(&lookup, reply) {
        Step::Store { key, payload } => {
            assert_eq!(key, lookup.key);
            assert_eq!(payload, "{\"n\":2}");
        }
        other => panic!("expected a store step, got {:?}", other),
    }
}

#[test]
fn unread_body_is_judged_by_its_status() {
    let reply = FetchReply::Unreadable { status: 200, reason: "cut short".to_string() };
    match after_fetch(&any_lookup(), reply) {
        Step::Fail(AppError::RequestFailed(m)) => assert_eq!(m, "cut short"),
        other => panic!("expected a request failure, got {:?}", other),
    }
    let reply = FetchReply::Unreadable { status: 503, reason: "cut short".to_string() };
    match after_fetch(&any_lookup(), reply) {
        Step::Fail(AppError::UpstreamApi { label, status, status_text, body }) => {
            assert_eq!(label, "WordPress");
            assert_eq!(status, 503);
            assert_eq!(status_text, "503 Service Unavailable");
            assert_eq!(body, "");
        }
        other => panic!("expected an upstream failure, got {:?}", other),
    }
}
