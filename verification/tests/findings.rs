use cache_scraper::cache_checker::{has_cache_marker, inspect, HttpResponse};
use cache_scraper::config::CacheInfo;
use cache_scraper::headers::{find_pair, first_value, Headers};
use cache_scraper::json::{is_string_token, string_token};

fn s(text: &str) -> String {
    String::from(text)
}

fn pairs(list: &[(&str, &str)]) -> Vec<(String, String)> {
    list.iter().map(|(n, v)| (s(n), s(v))).collect()
}

fn names(list: &[&str]) -> Vec<String> {
    list.iter().map(|n| s(n)).collect()
}

#[test]
fn first_pair_of_a_name_is_found() {
    let list = pairs(&[("Age", "1"), ("ETag", "x"), ("Age", "2")]);
    assert_eq!(find_pair(&list, &s("Age")), Some(0));
    assert_eq!(find_pair(&list, &s("ETag")), Some(1));
    assert_eq!(find_pair(&list, &s("age")), None);
    assert_eq!(find_pair(&Vec::new(), &s("Age")), None);
    assert_eq!(first_value(&list, &s("Age")), Some(s("1")));
    assert_eq!(first_value(&list, &s("Vary")), None);
}

#[test]
fn headers_keep_one_value_for_each_name() {
    let mut h = Headers::new();
    assert!(h.is_empty());
    assert_eq!(h.len(), 0);
    h.insert(s("Age"), s("1"));
    h.insert(s("ETag"), s("x"));
    h.insert(s("Age"), s("2"));
    assert!(!h.is_empty());
    assert_eq!(h.len(), 2);
    assert_eq!(h.get(&s("Age")), Some(s("2")));
    assert_eq!(h.get(&s("ETag")), Some(s("x")));
    assert_eq!(h.get(&s("Vary")), None);
    assert!(h.contains_key(&s("Age")));
    assert!(!h.contains_key(&s("age")));
    assert_eq!(h.entries(), &pairs(&[("Age", "2"), ("ETag", "x")]));
}

#[test]
fn configured_headers_are_matched_by_exact_name() {
    let response = HttpResponse {
        headers: pairs(&[("Cache-Control", "no-cache"), ("age", "7"), ("X-Other", "1")]),
        body: Some(s("plain")),
    };
    let found = inspect(&names(&["Cache-Control", "Age", "ETag"]), &response);
    assert_eq!(found.entries(), &pairs(&[("Cache-Control", "no-cache")]));
    assert!(!found.contains_key(&s("Age")));
    assert!(!found.contains_key(&s("age")));
    assert!(!found.contains_key(&s("X-Other")));
}

#[test]
fn header_listed_twice_gives_its_first_value() {
    let response = HttpResponse { headers: pairs(&[("Vary", "a"), ("Vary", "b")]), body: None };
    let found = inspect(&names(&["Vary"]), &response);
    assert_eq!(found.get(&s("Vary")), Some(s("a")));
    assert_eq!(found.len(), 1);
}

#[test]
fn name_configured_twice_is_recorded_once() {
    let response = HttpResponse { headers: pairs(&[("Age", "3")]), body: None };
    let found = inspect(&names(&["Age", "Age"]), &response);
    assert_eq!(found.entries(), &pairs(&[("Age", "3")]));
}

#[test]
fn body_markers() {
    assert!(has_cache_marker("page served from cache"));
    assert!(has_cache_marker("<!-- X-Cache: HIT -->"));
    assert!(!has_cache_marker("X-Cache: MISS"));
    assert!(!has_cache_marker("x-cache: hit"));
    assert!(!has_cache_marker(""));
}

#[test]
fn marker_in_body_is_recorded_under_the_indicator() {
    let response = HttpResponse { headers: vec![], body: Some(s("... served from cache ...")) };
    let found = inspect(&names(&["Age"]), &response);
    assert_eq!(found.entries(), &pairs(&[("Body-Cache-Indicator", "Detected")]));
    let response = HttpResponse { headers: pairs(&[("Age", "1")]), body: Some(s("X-Cache: HIT")) };
    let found = inspect(&names(&["Age"]), &response);
    assert_eq!(found.entries(), &pairs(&[("Age", "1"), ("Body-Cache-Indicator", "Detected")]));
}

#[test]
fn marker_overrides_a_header_of_the_indicator_name() {
    let response = HttpResponse {
        headers: pairs(&[("Body-Cache-Indicator", "from-header")]),
        body: Some(s("served from cache")),
    };
    let found = inspect(&names(&["Body-Cache-Indicator"]), &response);
    assert_eq!(found.entries(), &pairs(&[("Body-Cache-Indicator", "Detected")]));
    let response = HttpResponse {
        headers: pairs(&[("Body-Cache-Indicator", "from-header")]),
        body: Some(s("nothing")),
    };
    let found = inspect(&names(&["Body-Cache-Indicator"]), &response);
    assert_eq!(found.entries(), &pairs(&[("Body-Cache-Indicator", "from-header")]));
}

#[test]
fn unread_body_and_no_header_give_no_signal() {
    let response = HttpResponse { headers: pairs(&[("Server", "x")]), body: None };
    assert!(inspect(&names(&["Age"]), &response).is_empty());
    let response = HttpResponse { headers: pairs(&[("Age", "1")]), body: None };
    assert!(inspect(&Vec::new(), &response).is_empty());
}

#[test]
fn string_tokens_are_quoted_and_escaped() {
    assert_eq!(string_token("abc"), Some(s("\"abc\"")));
    assert_eq!(string_token(""), Some(s("\"\"")));
    assert_eq!(string_token("a\"b\\c\nd"), Some(s("\"a\\\"b\\\\c\\nd\"")));
    assert_eq!(string_token("\u{1}"), Some(s("\"\\u0001\"")));
    assert_eq!(string_token("ü"), Some(s("\"ü\"")));
}

#[test]
fn finding_as_json_object() {
    let mut headers = Headers::new();
    headers.insert(s("Cache-Control"), s("no-cache"));
    headers.insert(s("Age"), s("12"));
    let info = CacheInfo { url: s("https://example.com"), headers, method: s("GET") };
    assert_eq!(
        info.to_json(),
        Some(s(
            "{\"url\":\"https://example.com\",\"headers\":{\"Cache-Control\":\"no-cache\",\"Age\":\"12\"},\"method\":\"GET\"}"
        ))
    );
}

#[test]
fn finding_without_headers_as_json_object() {
    let info = CacheInfo { url: s("u"), headers: Headers::new(), method: s("POST") };
    assert_eq!(info.to_json(), Some(s("{\"url\":\"u\",\"headers\":{},\"method\":\"POST\"}")));
}

#[test]
fn json_object_reads_back_with_serde_json() {
    let mut headers = Headers::new();
    headers.insert(s("X-\"Quoted\""), s("back\\slash and\ttab"));
    headers.insert(s("Vary"), s("Accept-Encoding"));
    let info = CacheInfo { url: s("https://example.com/?q=\"a\""), headers, method: s("GET") };
    let text = info.to_json().unwrap();
    let value: serde_json::Value = serde_json::from_str(&text).unwrap();
    let object = value.as_object().unwrap();
    assert_eq!(object.len(), 3);
    assert_eq!(object["url"].as_str(), Some("https://example.com/?q=\"a\""));
    assert_eq!(object["method"].as_str(), Some("GET"));
    let read = object["headers"].as_object().unwrap();
    assert_eq!(read.len(), 2);
    assert_eq!(read["X-\"Quoted\""].as_str(), Some("back\\slash and\ttab"));
    assert_eq!(read["Vary"].as_str(), Some("Accept-Encoding"));
}

#[test]
fn json_strings_are_told_from_other_text() {
    for token in [
        "\"\"",
        "\"abc\"",
        "\"a b\"",
        "\"\\\"\"",
        "\"\\\\\"",
        "\"\\/\\b\\f\\n\\r\\t\"",
        "\"\\u00e9\"",
        "\"\\uABCD\\u0001x\"",
        "\"ü\u{7f}\u{2028}\"",
    ] {
        assert!(is_string_token(token), "{}", token);
    }
    for text in [
        "",
        "\"",
        "abc",
        "\"abc",
        "abc\"",
        "\"a\"b\"",
        "\"\\\"",
        "\"\\x\"",
        "\"\\u12\"",
        "\"\\u12G4\"",
        "\"\\u123\"",
        "\"a\nb\"",
        "\"\u{1f}\"",
        "\"\t\"",
        "'abc'",
        "\"abc\" ",
    ] {
        assert!(!is_string_token(text), "{}", text);
    }
}

#[test]
fn every_token_of_serde_json_is_a_json_string() {
    for code in 0..0x3000u32 {
        if let Some(c) = char::from_u32(code) {
            let text = format!("a{}b", c);
            let token = string_token(&text).unwrap();
            assert!(is_string_token(&token));
            let read: String = serde_json::from_str(&token).unwrap();
            assert_eq!(read, text);
        }
    }
}
