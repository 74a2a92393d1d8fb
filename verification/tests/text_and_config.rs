use cache_scraper::config::{
    default_headers, is_json_list, read_headers, request_method, ArgValues, Config, Method,
};
use cache_scraper::dns_resolver::host;
use cache_scraper::text::{chars_of, contains_chars, ends_with, matches_at, split_on, starts_with, str_contains, str_eq};

fn config(force_http: bool) -> Config {
    Config {
        urls: vec![],
        output: String::from("out.json"),
        method: String::from("GET"),
        timeout: 20,
        retries: 3,
        verbose: false,
        force_http,
        concurrency: 10,
        headers: vec![],
    }
}

#[test]
fn normalize_bare_host_gets_https() {
    assert_eq!(config(false).normalize_url("example.com"), "https://example.com");
}

#[test]
fn normalize_bare_host_forced_gets_http() {
    assert_eq!(config(true).normalize_url("example.com"), "http://example.com");
}

#[test]
fn normalize_https_forced_becomes_http() {
    assert_eq!(config(true).normalize_url("https://example.com"), "http://example.com");
}

#[test]
fn normalize_https_unforced_is_kept() {
    assert_eq!(config(false).normalize_url("https://example.com"), "https://example.com");
}

#[test]
fn normalize_http_is_kept_either_way() {
    assert_eq!(config(false).normalize_url("http://example.com/a"), "http://example.com/a");
    assert_eq!(config(true).normalize_url("http://example.com/a"), "http://example.com/a");
}

#[test]
fn normalize_rewrites_the_prefix_only() {
    assert_eq!(
        config(true).normalize_url("https://a.example/?next=https://b.example"),
        "http://a.example/?next=https://b.example"
    );
    assert_eq!(
        config(true).normalize_url("http://a.example/?next=https://b.example"),
        "http://a.example/?next=https://b.example"
    );
}

#[test]
fn normalize_edge_texts() {
    assert_eq!(config(false).normalize_url(""), "https://");
    assert_eq!(config(true).normalize_url(""), "http://");
    assert_eq!(config(true).normalize_url("https://"), "http://");
    assert_eq!(config(false).normalize_url("https:/example.com"), "https://https:/example.com");
    assert_eq!(config(false).normalize_url("HTTP://example.com"), "https://HTTP://example.com");
    assert_eq!(config(true).normalize_url("https://münchen.example/ä"), "http://münchen.example/ä");
}

#[test]
fn method_names() {
    assert_eq!(request_method("GET"), Method::Get);
    assert_eq!(request_method("POST"), Method::Post);
    assert_eq!(request_method("PUT"), Method::Get);
    assert_eq!(request_method("post"), Method::Get);
    assert_eq!(request_method(""), Method::Get);
    assert_eq!(request_method("POSTS"), Method::Get);
}

#[test]
fn default_header_list() {
    let expected: Vec<String> = [
        "Cache-Control",
        "Expires",
        "ETag",
        "Last-Modified",
        "Age",
        "Pragma",
        "Vary",
        "Server-Timing",
        "CF-Cache-Status",
        "CF-Ray",
        "X-Cache",
        "X-Cache-Lookup",
        "X-Varnish",
        "X-Cache-Remote",
    ]
    .iter()
    .map(|s| s.to_string())
    .collect();
    assert_eq!(default_headers(), expected);
    assert_eq!(read_headers(None, None), expected);
    assert_eq!(read_headers(None, Some(vec![String::from("Age")])), expected);
}

#[test]
fn header_argument_is_split_on_commas() {
    assert_eq!(read_headers(Some("Age,ETag"), None), vec!["Age", "ETag"]);
    assert_eq!(read_headers(Some("Age"), None), vec!["Age"]);
    assert_eq!(read_headers(Some("Age, ETag"), None), vec!["Age", " ETag"]);
    assert_eq!(read_headers(Some("Age,,ETag,"), None), vec!["Age", "", "ETag", ""]);
    assert_eq!(read_headers(Some(""), None), vec![""]);
}

#[test]
fn header_argument_that_names_a_file() {
    let lines = vec![String::from("Via"), String::from("X-Served-By,Age")];
    assert_eq!(read_headers(Some("headers.txt"), Some(lines.clone())), lines);
    assert_eq!(read_headers(Some("headers.txt"), Some(vec![])), Vec::<String>::new());
}

#[test]
fn json_list_by_file_name() {
    assert!(is_json_list("urls.json"));
    assert!(is_json_list(".json"));
    assert!(!is_json_list("urls.txt"));
    assert!(!is_json_list("urls.JSON"));
    assert!(!is_json_list("json"));
    assert!(!is_json_list("urls.json.bak"));
    assert!(!is_json_list(""));
}

#[test]
fn config_from_command_line_values() {
    let given = ArgValues {
        output: String::from("found.json"),
        method: String::from("POST"),
        timeout: Some(5),
        retries: Some(0),
        verbose: true,
        force_http: true,
        concurrency: Some(2),
    };
    let c = Config::from_matches(given, vec![String::from("a.example")], vec![String::from("Age")]);
    assert_eq!(c.urls, vec!["a.example"]);
    assert_eq!(c.headers, vec!["Age"]);
    assert_eq!(c.output, "found.json");
    assert_eq!(c.method, "POST");
    assert_eq!(c.timeout, 5);
    assert_eq!(c.retries, 0);
    assert!(c.verbose);
    assert!(c.force_http);
    assert_eq!(c.concurrency, 2);
}

#[test]
fn config_defaults_for_missing_numbers() {
    let given = ArgValues {
        output: String::from("o"),
        method: String::from("GET"),
        timeout: None,
        retries: None,
        verbose: false,
        force_http: false,
        concurrency: None,
    };
    let c = Config::from_matches(given, vec![], vec![]);
    assert_eq!(c.timeout, 20);
    assert_eq!(c.retries, 3);
    assert_eq!(c.concurrency, 10);
    assert!(!c.verbose);
    assert!(!c.force_http);
}

#[test]
fn split_gives_one_more_field_than_separators() {
    assert_eq!(split_on("", ','), vec![""]);
    assert_eq!(split_on(",", ','), vec!["", ""]);
    assert_eq!(split_on("a", ','), vec!["a"]);
    assert_eq!(split_on("a,", ','), vec!["a", ""]);
    assert_eq!(split_on(",a", ','), vec!["", "a"]);
    assert_eq!(split_on("a,,b", ','), vec!["a", "", "b"]);
    assert_eq!(split_on("ä,ö", ','), vec!["ä", "ö"]);
    assert_eq!(split_on("a/b", ','), vec!["a/b"]);
}

#[test]
fn split_agrees_with_std() {
    for s in ["", "a", "a,b", ",,", "x,,y,", "https://h/p", "é,ü,,"] {
        let expected: Vec<String> = s.split(',').map(String::from).collect();
        assert_eq!(split_on(s, ','), expected);
    }
}

#[test]
fn substring_search() {
    assert!(str_contains("it was served from cache today", "served from cache"));
    assert!(str_contains("served from cache", "served from cache"));
    assert!(!str_contains("served from cach", "served from cache"));
    assert!(!str_contains("Served From Cache", "served from cache"));
    assert!(str_contains("abc", ""));
    assert!(str_contains("", ""));
    assert!(!str_contains("", "a"));
    assert!(str_contains("aab", "ab"));
    assert!(str_contains("ü-X-Cache: HIT-ü", "X-Cache: HIT"));
}

#[test]
fn match_at_a_position() {
    let hay = chars_of("hello");
    assert_eq!(hay, vec!['h', 'e', 'l', 'l', 'o']);
    assert!(matches_at(&hay, 2, &chars_of("llo")));
    assert!(!matches_at(&hay, 3, &chars_of("llo")));
    assert!(matches_at(&hay, 5, &chars_of("")));
    assert!(!matches_at(&hay, 6, &chars_of("")));
    assert!(!matches_at(&hay, usize::MAX, &chars_of("o")));
    assert!(contains_chars(&hay, &chars_of("ell")));
    assert!(!contains_chars(&hay, &chars_of("elo")));
}

#[test]
fn prefixes_suffixes_and_equality() {
    assert!(starts_with("https://x", "https://"));
    assert!(!starts_with("http://x", "https://"));
    assert!(!starts_with("http", "http://"));
    assert!(starts_with("x", ""));
    assert!(ends_with("a.json", ".json"));
    assert!(!ends_with("json", ".json"));
    assert!(ends_with("x", ""));
    assert!(str_eq("POST", "POST"));
    assert!(!str_eq("POST", "POS"));
    assert!(!str_eq("POS", "POST"));
    assert!(str_eq("", ""));
}

#[test]
fn host_is_the_third_field_between_slashes() {
    assert_eq!(host("https://example.com/path"), "example.com");
    assert_eq!(host("http://example.com"), "example.com");
    assert_eq!(host("https://example.com:8443/a/b"), "example.com:8443");
    assert_eq!(host("example.com"), "");
    assert_eq!(host("example.com/a"), "");
    assert_eq!(host("a/b/c/d"), "c");
    assert_eq!(host("https://"), "");
    assert_eq!(host(""), "");
}

#[test]
fn normalizing_twice_changes_nothing() {
    for force in [false, true] {
        let c = config(force);
        for url in ["example.com", "http://a.example", "https://a.example/x", "", "ftp://x", "https://"] {
            let once = c.normalize_url(url);
            assert!(once.starts_with("http://") || once.starts_with("https://"));
            if force {
                assert!(once.starts_with("http://"));
            }
            assert_eq!(c.normalize_url(&once), once);
        }
    }
}
