//! JSON text of a finding.
//!
//! serde_json writes the token of each string. Every token is held against
//! the grammar of a JSON string before it is used, and the object around the
//! tokens is put together here, so that the text of a finding is a JSON
//! object by construction.

use vstd::prelude::*;
use vstd::string::*;

use crate::config::CacheInfo;
use crate::headers::{pair_views, Pair};
use crate::text::chars_of;

verus! {

/// The error of serde_json.
#[verifier::external_type_specification]
#[verifier::external_body]
pub struct ExJsonError(serde_json::Error);

/// The JSON string token that serde_json writes for `text`: the text between
/// double quotes, with the characters escaped that JSON asks to be. `None`
/// where serde_json reports an error.
pub uninterp spec fn json_string(text: Seq<char>) -> Option<Seq<char>>;

/// Calls `serde_json::to_string` on a string slice. The token it returns
/// depends on the characters of `text` alone, and is named `json_string`.
/// Nothing is claimed of what the token looks like.
#[verifier::external_body]
fn encode_string(text: &str) -> (token: Result<String, serde_json::Error>)
    ensures
        match token {
            Ok(t) => json_string(text@) == Some(t@),
            Err(_) => json_string(text@) is None,
        },
{
    serde_json::to_string(text)
}

/// Whether `c` is a hexadecimal digit.
pub open spec fn is_hex_digit(c: char) -> bool {
    ('0' <= c && c <= '9') || ('a' <= c && c <= 'f') || ('A' <= c && c <= 'F')
}

/// Whether `c` may follow a backslash on its own.
pub open spec fn is_escape_letter(c: char) -> bool {
    c == '"' || c == '\\' || c == '/' || c == 'b' || c == 'f' || c == 'n' || c == 'r' || c == 't'
}

/// Whether `c` may stand in a JSON string as it is: it is no double quote,
/// no backslash and no control character.
pub open spec fn is_plain(c: char) -> bool {
    c != '"' && c != '\\' && c >= ' '
}

/// The length of the character or escape sequence that begins at `at` and
/// ends before `end`: 1 for a character that needs no escape, 2 for a
/// backslash and its letter, 6 for `\u` and four hexadecimal digits, and 0
/// where none of these begins there.
pub open spec fn unit_len(s: Seq<char>, at: int, end: int) -> int {
    if s[at] == '\\' {
        if at + 1 < end && is_escape_letter(s[at + 1]) {
            2
        } else if at + 5 < end && s[at + 1] == 'u' && is_hex_digit(s[at + 2]) && is_hex_digit(
            s[at + 3],
        ) && is_hex_digit(s[at + 4]) && is_hex_digit(s[at + 5]) {
            6
        } else {
            0
        }
    } else if is_plain(s[at]) {
        1
    } else {
        0
    }
}

/// Whether the characters from `from` up to `end` are what may stand between
/// the quotes of a JSON string.
pub open spec fn valid_chars(s: Seq<char>, from: int, end: int) -> bool
    decreases end - from,
{
    if from >= end {
        from == end
    } else {
        let n = unit_len(s, from, end);
        if n > 0 {
            valid_chars(s, from + n, end)
        } else {
            false
        }
    }
}

/// Whether `token` is a JSON string: a double quote, characters that are
/// neither a double quote nor a control character, or escape sequences, and
/// a double quote.
pub open spec fn valid_string_token(token: Seq<char>) -> bool {
    &&& token.len() >= 2
    &&& token[0] == '"'
    &&& token[token.len() - 1] == '"'
    &&& valid_chars(token, 1, token.len() - 1)
}

/// The token of `text`: what serde_json writes for it, where that is a JSON
/// string.
pub open spec fn token_of(text: Seq<char>) -> Option<Seq<char>> {
    match json_string(text) {
        Some(token) => if valid_string_token(token) {
            Some(token)
        } else {
            None
        },
        None => None,
    }
}

/// Whether `c` is a hexadecimal digit.
fn hex_digit(c: char) -> (r: bool)
    ensures
        r == is_hex_digit(c),
{
    ('0' <= c && c <= '9') || ('a' <= c && c <= 'f') || ('A' <= c && c <= 'F')
}

/// Whether `c` may follow a backslash on its own.
fn escape_letter(c: char) -> (r: bool)
    ensures
        r == is_escape_letter(c),
{
    c == '"' || c == '\\' || c == '/' || c == 'b' || c == 'f' || c == 'n' || c == 'r' || c == 't'
}

/// Whether `c` may stand in a JSON string as it is.
fn plain(c: char) -> (r: bool)
    ensures
        r == is_plain(c),
{
    c != '"' && c != '\\' && c >= ' '
}

/// The length of the character or escape sequence that begins at `at` and
/// ends before `end`, or 0 where none begins there.
fn unit_length(s: &Vec<char>, at: usize, end: usize) -> (n: usize)
    requires
        at < end <= s.len(),
    ensures
        n == unit_len(s@, at as int, end as int),
        at + n <= end,
{
    if s[at] == '\\' {
        if end - at > 1 && escape_letter(s[at + 1]) {
            2
        } else if end - at > 5 && s[at + 1] == 'u' && hex_digit(s[at + 2]) && hex_digit(s[at + 3])
            && hex_digit(s[at + 4]) && hex_digit(s[at + 5]) {
            6
        } else {
            0
        }
    } else if plain(s[at]) {
        1
    } else {
        0
    }
}

/// Whether `token` is a JSON string.
pub fn is_string_token(token: &str) -> (ok: bool)
    ensures
        ok == valid_string_token(token@),
{
    let s = chars_of(token);
    let n = s.len();
    if n < 2 || s[0] != '"' || s[n - 1] != '"' {
        return false;
    }
    let end = n - 1;
    let mut at: usize = 1;
    while at < end
        invariant
            1 <= at <= end,
            end == s.len() - 1,
            s@ == token@,
            valid_chars(s@, 1, end as int) == valid_chars(s@, at as int, end as int),
        decreases end - at,
    {
        let step = unit_length(&s, at, end);
        if step == 0 {
            return false;
        }
        at += step;
    }
    true
}

/// The token of one string.
pub fn string_token(text: &str) -> (token: Option<String>)
    ensures
        match token {
            Some(t) => token_of(text@) == Some(t@),
            None => token_of(text@) is None,
        },
{
    match encode_string(text) {
        Ok(t) => if is_string_token(t.as_str()) {
            Some(t)
        } else {
            None
        },
        Err(_) => None,
    }
}

/// The parts one after another, with `sep` between each two.
pub open spec fn joined(parts: Seq<Seq<char>>, sep: Seq<char>) -> Seq<char>
    decreases parts.len(),
{
    if parts.len() == 0 {
        Seq::<char>::empty()
    } else if parts.len() == 1 {
        parts[0]
    } else {
        joined(parts.drop_last(), sep) + sep + parts.last()
    }
}

/// Whether `text` is a member of an object of strings: a JSON string, a
/// colon, a JSON string.
pub open spec fn is_member(text: Seq<char>) -> bool {
    exists|name: Seq<char>, value: Seq<char>|
        valid_string_token(name) && valid_string_token(value) && text == #[trigger] (name + ":"@
            + value)
}

/// Whether `text` is a JSON object whose values are strings: members with a
/// comma between each two, in braces.
pub open spec fn is_object_of_strings(text: Seq<char>) -> bool {
    exists|members: Seq<Seq<char>>|
        {
            &&& forall|i: int| 0 <= i < members.len() ==> is_member(#[trigger] members[i])
            &&& text == "{"@ + #[trigger] joined(members, ","@) + "}"@
        }
}

/// The object around a URL, an object of headers and a method name, each
/// given as JSON text.
pub open spec fn finding_object(url: Seq<char>, headers: Seq<char>, method: Seq<char>) -> Seq<
    char,
> {
    "{\"url\":"@ + url + ",\"headers\":"@ + headers + ",\"method\":"@ + method + "}"@
}

/// Whether `text` is the JSON object of a finding: a string under `url`, an
/// object of strings under `headers`, a string under `method`, in that order
/// and without white space.
pub open spec fn is_finding_object(text: Seq<char>) -> bool {
    exists|url: Seq<char>, headers: Seq<char>, method: Seq<char>|
        {
            &&& valid_string_token(url)
            &&& is_object_of_strings(headers)
            &&& valid_string_token(method)
            &&& text == #[trigger] finding_object(url, headers, method)
        }
}

/// One member of an object: the token of the name, a colon, the token of the
/// value. `None` where one of the two has no token.
pub open spec fn member_text(pair: Pair) -> Option<Seq<char>> {
    match (token_of(pair.0), token_of(pair.1)) {
        (Some(name), Some(value)) => Some(name + ":"@ + value),
        _ => None,
    }
}

/// The members of the pairs, in their order.
pub open spec fn member_texts(pairs: Seq<Pair>) -> Seq<Seq<char>> {
    Seq::new(pairs.len(), |i: int| member_text(pairs[i])->0)
}

/// The object that holds one member for each pair, in the order of the
/// pairs. `None` where a string of a pair has no token.
pub open spec fn object_text(pairs: Seq<Pair>) -> Option<Seq<char>> {
    if forall|i: int| 0 <= i < pairs.len() ==> member_text(#[trigger] pairs[i]) is Some {
        Some("{"@ + joined(member_texts(pairs), ","@) + "}"@)
    } else {
        None
    }
}

/// The object of a finding: its URL under `url`, its headers as an object
/// under `headers`, its method under `method`. `None` where one of its
/// strings has no token.
pub open spec fn finding_text(url: Seq<char>, pairs: Seq<Pair>, method: Seq<char>) -> Option<
    Seq<char>,
> {
    match (token_of(url), object_text(pairs), token_of(method)) {
        (Some(u), Some(h), Some(m)) => Some(finding_object(u, h, m)),
        _ => None,
    }
}

/// The three names under which the object of a finding holds its parts are
/// JSON strings.
pub proof fn law_member_names_are_strings()
    ensures
        valid_string_token("\"url\""@),
        valid_string_token("\"headers\""@),
        valid_string_token("\"method\""@),
{
    reveal_strlit("\"url\"");
    reveal_strlit("\"headers\"");
    reveal_strlit("\"method\"");
    reveal_with_fuel(valid_chars, 9);
}

/// The text of a finding is the JSON object of a finding.
pub proof fn lemma_finding_text_is_object(url: Seq<char>, pairs: Seq<Pair>, method: Seq<char>)
    requires
        finding_text(url, pairs, method) is Some,
    ensures
        is_finding_object(finding_text(url, pairs, method)->0),
{
    let members = member_texts(pairs);
    assert forall|i: int| 0 <= i < members.len() implies is_member(#[trigger] members[i]) by {
        assert(member_text(pairs[i]) is Some);
        let name = token_of(pairs[i].0)->0;
        let value = token_of(pairs[i].1)->0;
        assert(members[i] == name + ":"@ + value);
    }
    let headers = object_text(pairs)->0;
    assert(headers == "{"@ + joined(members, ","@) + "}"@);
    assert(is_object_of_strings(headers));
    assert(finding_text(url, pairs, method)->0 == finding_object(
        token_of(url)->0,
        headers,
        token_of(method)->0,
    ));
}

/// The members of the object of `pairs`, with a comma between each two.
fn members_json(pairs: &Vec<(String, String)>) -> (text: Option<String>)
    ensures
        match text {
            Some(t) => object_text(pair_views(pairs@)) == Some("{"@ + t@ + "}"@),
            None => object_text(pair_views(pairs@)) is None,
        },
{
    let ghost all = pair_views(pairs@);
    let mut out = String::new();
    let mut i: usize = 0;
    while i < pairs.len()
        invariant
            i <= pairs.len(),
            all == pair_views(pairs@),
            forall|j: int| 0 <= j < i ==> member_text(#[trigger] all[j]) is Some,
            out@ == joined(member_texts(all.take(i as int)), ","@),
        decreases pairs.len() - i,
    {
        let name = string_token(pairs[i].0.as_str());
        let value = string_token(pairs[i].1.as_str());
        match (name, value) {
            (Some(n), Some(v)) => {
                if i > 0 {
                    out.append(",");
                }
                out.append(n.as_str());
                out.append(":");
                out.append(v.as_str());
                proof {
                    let longer = member_texts(all.take(i + 1));
                    assert(longer.drop_last() =~= member_texts(all.take(i as int)));
                    assert(longer.last() == n@ + ":"@ + v@);
                    assert(out@ =~= joined(longer, ","@));
                }
            },
            _ => {
                assert(member_text(all[i as int]) is None);
                return None;
            },
        }
        i += 1;
    }
    assert(all.take(i as int) =~= all);
    Some(out)
}

impl CacheInfo {
    /// The JSON object of the finding, where each of its strings has a
    /// token.
    pub fn to_json(&self) -> (text: Option<String>)
        ensures
            match text {
                Some(t) => {
                    &&& finding_text(self.url@, self.headers.pairs(), self.method@) == Some(t@)
                    &&& is_finding_object(t@)
                },
                None => finding_text(self.url@, self.headers.pairs(), self.method@) is None,
            },
    {
        let url = string_token(self.url.as_str());
        let members = members_json(self.headers.entries());
        let method = string_token(self.method.as_str());
        match (url, members, method) {
            (Some(u), Some(h), Some(m)) => {
                let mut out = String::from_str("{\"url\":");
                out.append(u.as_str());
                out.append(",\"headers\":");
                out.append("{");
                out.append(h.as_str());
                out.append("}");
                out.append(",\"method\":");
                out.append(m.as_str());
                out.append("}");
                proof {
                    assert(out@ =~= finding_object(u@, "{"@ + h@ + "}"@, m@));
                    lemma_finding_text_is_object(self.url@, self.headers.pairs(), self.method@);
                }
                Some(out)
            },
            _ => None,
        }
    }
}

} // verus!
