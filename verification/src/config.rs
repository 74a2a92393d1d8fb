//! The configuration of a run, the record of a finding, and the rules that
//! turn command-line values into both: URL normalization, the request
//! method, and the list of header names to look for.

use vstd::prelude::*;
use vstd::string::*;

use crate::headers::Headers;
use crate::text::{ends_with, has_prefix, has_suffix, split, split_on, starts_with, str_eq, views};

verus! {

/// The HTTP method of a probe.
#[derive(Clone, Copy, Debug, PartialEq, Eq, Structural)]
pub enum Method {
    Get,
    Post,
}

/// The method that a configured method name stands for: `POST` for the name
/// `POST`, and `GET` for every other name.
pub open spec fn method_named(name: Seq<char>) -> Method {
    if name == "POST"@ {
        Method::Post
    } else {
        Method::Get
    }
}

/// The method that a configured method name stands for.
pub fn request_method(name: &str) -> (method: Method)
    ensures
        method == method_named(name@),
{
    if str_eq(name, "POST") {
        Method::Post
    } else {
        Method::Get
    }
}

/// A URL with its scheme settled. A URL that begins with `https://` keeps
/// it, or has it replaced by `http://` where `force_http` is set; one that
/// begins with `http://` is left as it is; any other text is taken for a bare
/// host and gets `http://` or `https://` in front, depending on `force_http`.
pub open spec fn normalized(url: Seq<char>, force_http: bool) -> Seq<char> {
    if has_prefix(url, "https://"@) {
        if force_http {
            "http://"@ + url.skip("https://"@.len() as int)
        } else {
            url
        }
    } else if has_prefix(url, "http://"@) {
        url
    } else if force_http {
        "http://"@ + url
    } else {
        "https://"@ + url
    }
}

/// A normalized URL begins with `http://` or `https://`, and with `http://`
/// where `force_http` is set. Normalizing it again changes nothing.
pub proof fn law_normalized(url: Seq<char>, force_http: bool)
    ensures
        has_prefix(normalized(url, force_http), "http://"@) || has_prefix(
            normalized(url, force_http),
            "https://"@,
        ),
        force_http ==> has_prefix(normalized(url, force_http), "http://"@),
        normalized(normalized(url, force_http), force_http) == normalized(url, force_http),
{
    reveal_strlit("http://");
    reveal_strlit("https://");
    let http = "http://"@;
    let https = "https://"@;
    let out = normalized(url, force_http);
    assert(has_prefix(http + url, http)) by {
        assert((http + url).subrange(0, 7) =~= http);
    }
    assert(has_prefix(https + url, https)) by {
        assert((https + url).subrange(0, 8) =~= https);
    }
    assert(!has_prefix(http + url, https)) by {
        if (http + url).len() >= 8 {
            assert((http + url).subrange(0, 8)[4] == ':');
        }
    }
    if has_prefix(url, https) {
        assert(url.subrange(0, 8)[4] == 's');
        if force_http {
            let rest = url.skip(8);
            assert(has_prefix(http + rest, http)) by {
                assert((http + rest).subrange(0, 7) =~= http);
            }
            assert(!has_prefix(http + rest, https)) by {
                if (http + rest).len() >= 8 {
                    assert((http + rest).subrange(0, 8)[4] == ':');
                }
            }
        }
    }
}

/// The header names that are looked for when none are configured.
pub open spec fn default_header_names() -> Seq<Seq<char>> {
    seq![
        "Cache-Control"@,
        "Expires"@,
        "ETag"@,
        "Last-Modified"@,
        "Age"@,
        "Pragma"@,
        "Vary"@,
        "Server-Timing"@,
        "CF-Cache-Status"@,
        "CF-Ray"@,
        "X-Cache"@,
        "X-Cache-Lookup"@,
        "X-Varnish"@,
        "X-Cache-Remote"@,
    ]
}

/// The header names that are looked for when none are configured.
pub fn default_headers() -> (names: Vec<String>)
    ensures
        views(names@) == default_header_names(),
{
    let mut names: Vec<String> = Vec::new();
    names.push(String::from_str("Cache-Control"));
    names.push(String::from_str("Expires"));
    names.push(String::from_str("ETag"));
    names.push(String::from_str("Last-Modified"));
    names.push(String::from_str("Age"));
    names.push(String::from_str("Pragma"));
    names.push(String::from_str("Vary"));
    names.push(String::from_str("Server-Timing"));
    names.push(String::from_str("CF-Cache-Status"));
    names.push(String::from_str("CF-Ray"));
    names.push(String::from_str("X-Cache"));
    names.push(String::from_str("X-Cache-Lookup"));
    names.push(String::from_str("X-Varnish"));
    names.push(String::from_str("X-Cache-Remote"));
    names
}

/// The header names that a header argument stands for. Without an argument
/// they are the default names. An argument that names a file stands for the
/// lines of that file, which the caller has read; any other argument is a
/// list of names separated by commas.
pub open spec fn header_names(arg: Option<Seq<char>>, file_lines: Option<Seq<Seq<char>>>) -> Seq<
    Seq<char>,
> {
    match arg {
        None => default_header_names(),
        Some(list) => match file_lines {
            Some(lines) => lines,
            None => split(list, ','),
        },
    }
}

/// The header names that a header argument stands for. `file_lines` holds
/// the lines of the file that the argument names, where it names one.
pub fn read_headers(header_arg: Option<&str>, file_lines: Option<Vec<String>>) -> (names: Vec<
    String,
>)
    ensures
        views(names@) == header_names(
            match header_arg {
                Some(arg) => Some(arg@),
                None => None,
            },
            match file_lines {
                Some(lines) => Some(views(lines@)),
                None => None,
            },
        ),
{
    match header_arg {
        None => default_headers(),
        Some(arg) => match file_lines {
            Some(lines) => lines,
            None => split_on(arg, ','),
        },
    }
}

/// Whether a file of URLs is to be read as a JSON document rather than line
/// by line: its name ends in `.json`.
pub fn is_json_list(filename: &str) -> (r: bool)
    ensures
        r == has_suffix(filename@, ".json"@),
{
    ends_with(filename, ".json")
}

/// What the command line gave, option by option. A number that was missing
/// or could not be read is `None`.
pub struct ArgValues {
    pub output: String,
    pub method: String,
    pub timeout: Option<u64>,
    pub retries: Option<usize>,
    pub verbose: bool,
    pub force_http: bool,
    pub concurrency: Option<usize>,
}

/// The settings of a run.
#[derive(Clone, Debug)]
pub struct Config {
    /// The URLs to probe, as they were given.
    pub urls: Vec<String>,
    /// The path of the output document.
    pub output: String,
    /// The configured method name.
    pub method: String,
    /// The timeout of one request, in seconds.
    pub timeout: u64,
    /// How often a failed attempt is tried again.
    pub retries: usize,
    /// Whether the run reports each step as it goes.
    pub verbose: bool,
    /// Whether every URL is probed over `http://`.
    pub force_http: bool,
    /// How many URLs may be under probe at once.
    pub concurrency: usize,
    /// The header names to look for.
    pub headers: Vec<String>,
}

impl Config {
    /// The settings that the command line stands for: a timeout of 20
    /// seconds, 3 retries and a concurrency of 10 where no number was given.
    pub fn from_matches(matches: ArgValues, urls: Vec<String>, headers: Vec<String>) -> (config:
        Config)
        ensures
            config.urls == urls,
            config.headers == headers,
            config.output == matches.output,
            config.method == matches.method,
            config.timeout == (match matches.timeout {
                Some(t) => t,
                None => 20,
            }),
            config.retries == (match matches.retries {
                Some(r) => r,
                None => 3,
            }),
            config.verbose == matches.verbose,
            config.force_http == matches.force_http,
            config.concurrency == (match matches.concurrency {
                Some(c) => c,
                None => 10,
            }),
    {
        Config {
            urls,
            output: matches.output,
            method: matches.method,
            timeout: match matches.timeout {
                Some(t) => t,
                None => 20,
            },
            retries: match matches.retries {
                Some(r) => r,
                None => 3,
            },
            verbose: matches.verbose,
            force_http: matches.force_http,
            concurrency: match matches.concurrency {
                Some(c) => c,
                None => 10,
            },
            headers,
        }
    }

    /// The URL with its scheme settled.
    pub fn normalize_url(&self, url: &str) -> (out: String)
        ensures
            out@ == normalized(url@, self.force_http),
    {
        if starts_with(url, "https://") {
            if self.force_http {
                proof {
                    reveal_strlit("https://");
                }
                let n = url.unicode_len();
                let rest = url.substring_char(8, n);
                String::from_str("http://").concat(rest)
            } else {
                String::from_str(url)
            }
        } else if starts_with(url, "http://") {
            String::from_str(url)
        } else if self.force_http {
            String::from_str("http://").concat(url)
        } else {
            String::from_str("https://").concat(url)
        }
    }
}

/// What was found for one URL.
#[derive(Debug)]
pub struct CacheInfo {
    pub url: String,
    pub headers: Headers,
    pub method: String,
}

/// A finding as plain text and a map.
pub struct CacheInfoView {
    pub url: Seq<char>,
    pub headers: Map<Seq<char>, Seq<char>>,
    pub method: Seq<char>,
}

impl View for CacheInfo {
    type V = CacheInfoView;

    open spec fn view(&self) -> CacheInfoView {
        CacheInfoView { url: self.url@, headers: self.headers@, method: self.method@ }
    }
}

} // verus!
