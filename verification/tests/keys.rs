use sidafa_cache::key::{assemble_key, derive_key, member, CacheKey};
use sidafa_cache::params::Params;

fn params_of(pairs: &[(&str, &str)]) -> Params {
    let mut p = Params::new();
    for (k, v) in pairs {
        p.insert(k.to_string(), v.to_string());
    }
    p
}

#[test]
fn key_of_search_request() {
    let p = params_of(&[("q", "test")]);
    assert_eq!(derive_key("videoSvc", "/search", &p), "videoSvc:/search:{\"q\":\"test\"}");
}

#[test]
fn key_of_empty_params() {
    let p = Params::new();
    assert_eq!(derive_key("wp", "posts", &p), "wp:posts:{}");
}

#[test]
fn key_ignores_insertion_order() {
    let a = params_of(&[("q", "test"), ("part", "snippet"), ("maxResults", "5")]);
    let b = params_of(&[("maxResults", "5"), ("q", "test"), ("part", "snippet")]);
    let ka = derive_key("youtube", "/search", &a);
    let kb = derive_key("youtube", "/search", &b);
    assert_eq!(ka, kb);
    assert_eq!(
        ka,
        "youtube:/search:{\"maxResults\":\"5\",\"part\":\"snippet\",\"q\":\"test\"}"
    );
}

#[test]
fn key_differs_with_value_endpoint_and_upstream() {
    let a = params_of(&[("q", "test")]);
    let b = params_of(&[("q", "other")]);
    assert_ne!(derive_key("youtube", "/search", &a), derive_key("youtube", "/search", &b));
    assert_ne!(derive_key("youtube", "/search", &a), derive_key("youtube", "/videos", &a));
    assert_ne!(derive_key("youtube", "/search", &a), derive_key("wp", "/search", &a));
}

#[test]
fn key_escapes_names_and_values() {
    let p = params_of(&[("q", "say \"hi\"\n"), ("a\\b", "1")]);
    assert_eq!(
        derive_key("youtube", "/search", &p),
        "youtube:/search:{\"a\\\\b\":\"1\",\"q\":\"say \\\"hi\\\"\\n\"}"
    );
}

#[test]
fn later_value_replaces_earlier() {
    let p = params_of(&[("q", "one"), ("q", "two")]);
    assert_eq!(p.len(), 1);
    assert_eq!(derive_key("youtube", "/search", &p), "youtube:/search:{\"q\":\"two\"}");
}

#[test]
fn entries_are_sorted_by_name() {
    let p = params_of(&[("b", "2"), ("a", "1"), ("ab", "3"), ("B", "4"), ("", "5")]);
    let names: Vec<&str> = p.entries().iter().map(|e| e.name.as_str()).collect();
    assert_eq!(names, vec!["", "B", "a", "ab", "b"]);
    let values: Vec<&str> = p.entries().iter().map(|e| e.value.as_str()).collect();
    assert_eq!(values, vec!["5", "4", "1", "3", "2"]);
}

#[test]
fn duplicate_keeps_entries() {
    let p = params_of(&[("b", "2"), ("a", "1")]);
    let d = p.duplicate();
    assert_eq!(d.len(), 2);
    assert_eq!(d.entries()[0].name, "a");
    assert_eq!(d.entries()[1].value, "2");
}

#[test]
fn assemble_key_joins_members() {
    let members = vec![member("\"a\"", "\"1\""), member("\"b\"", "\"2\"")];
    assert_eq!(members[0], "\"a\":\"1\"");
    assert_eq!(assemble_key("up", "/e", &members), "up:/e:{\"a\":\"1\",\"b\":\"2\"}");
    assert_eq!(assemble_key("up", "/e", &Vec::new()), "up:/e:{}");
}

#[test]
fn cache_key_text() {
    let key = CacheKey { endpoint: "/videos".to_string(), params: params_of(&[("id", "x")]) };
    assert_eq!(key.text("youtube"), "youtube:/videos:{\"id\":\"x\"}");
}

#[test]
fn value_of_finds_what_was_set() {
    let p = params_of(&[("b", "2"), ("a", "1"), ("b", "3")]);
    assert_eq!(p.value_of("a"), Some(&"1".to_string()));
    assert_eq!(p.value_of("b"), Some(&"3".to_string()));
    assert_eq!(p.value_of("c"), None);
    assert_eq!(Params::new().value_of("a"), None);
}

#[test]
fn key_escapes_control_characters_only_below_space() {
    let p = params_of(&[("c", "\u{1}\u{8}\t\n\u{b}\u{c}\r\u{1f} /\u{7f}\u{e9}")]);
    assert_eq!(
        derive_key("wp", "", &p),
        "wp::{\"c\":\"\\u0001\\b\\t\\n\\u000b\\f\\r\\u001f /\u{7f}\u{e9}\"}"
    );
}
