//! The health endpoint: which page an HTTP request asks for, and the
//! response sent for it.
use vstd::prelude::*;
use vstd::slice::slice_subrange;
use vstd::utf8::{decode_utf8, encode_utf8, valid_utf8};
use crate::text::{
    chars_eq, chars_of, decimal, push_decimal, push_str, second_word, second_word_of,
    string_from_chars,
};

verus! {

broadcast use vstd::string::group_string_axioms;

/// The page an HTTP request asks for.
#[derive(Debug, Clone, Copy, PartialEq, Eq)]
pub enum Route {
    /// `/health`: the liveness probe.
    Health,
    /// `/metrics`: the counters as JSON.
    Metrics,
    /// Any other path.
    NotFound,
}

/// What `String::from_utf8_lossy` makes of `bytes`.
pub uninterp spec fn utf8_lossy(bytes: Seq<u8>) -> Seq<char>;

/// Calls `String::from_utf8_lossy`. Claimed: the result is the name above
/// applied to the bytes, and for valid UTF-8 it is the decoded text, since
/// only invalid sequences are replaced.
#[verifier::external_body]
fn decode_lossy(bytes: &[u8]) -> (s: String)
    ensures
        s@ == utf8_lossy(bytes@),
        valid_utf8(bytes@) ==> s@ == decode_utf8(bytes@),
{
    String::from_utf8_lossy(bytes).into_owned()
}

/// The first index at or after `i` holding a line feed, or the length.
pub open spec fn find_newline(s: Seq<char>, i: int) -> int
    decreases s.len() - i,
{
    if 0 <= i < s.len() && s[i] != '\n' {
        find_newline(s, i + 1)
    } else {
        i
    }
}

/// The first line of `s` as `str::lines` yields it: text up to the first
/// line feed, without it and without a carriage return just before it;
/// none for empty text.
pub open spec fn first_line(s: Seq<char>) -> Option<Seq<char>> {
    let e = find_newline(s, 0);
    let l = s.take(e);
    if s.len() == 0 {
        None
    } else if e < s.len() && l.len() > 0 && l.last() == '\r' {
        Some(l.drop_last())
    } else {
        Some(l)
    }
}

/// The path of a request: the second word of its first line, `/` when
/// there is none.
pub open spec fn request_path(s: Seq<char>) -> Seq<char> {
    match first_line(s) {
        Some(l) => match second_word(l) {
            Some(w) => w,
            None => "/"@,
        },
        None => "/"@,
    }
}

/// The page served for a path.
pub open spec fn route_of(path: Seq<char>) -> Route {
    if path == "/health"@ {
        Route::Health
    } else if path == "/metrics"@ {
        Route::Metrics
    } else {
        Route::NotFound
    }
}

fn first_line_of(s: &[char]) -> (l: Option<Vec<char>>)
    ensures
        l matches Some(v) ==> first_line(s@) == Some(v@),
        l is None ==> first_line(s@) is None,
{
    if s.len() == 0 {
        return None;
    }
    let mut e: usize = 0;
    while e < s.len() && s[e] != '\n'
        invariant
            e <= s@.len(),
            find_newline(s@, e as int) == find_newline(s@, 0),
        decreases s@.len() - e,
    {
        e = e + 1;
    }
    let mut line = vstd::slice::slice_to_vec(slice_subrange(s, 0, e));
    assert(line@ == s@.take(e as int));
    if e < s.len() && line.len() > 0 && line[line.len() - 1] == '\r' {
        line.pop();
        assert(line@ == s@.take(e as int).drop_last());
    }
    Some(line)
}

/// The path asked for in the request text `s`.
fn request_path_of(s: &[char]) -> (p: Vec<char>)
    ensures
        p@ == request_path(s@),
{
    match first_line_of(s) {
        Some(l) => match second_word_of(l.as_slice()) {
            Some(w) => w,
            None => chars_of("/"),
        },
        None => chars_of("/"),
    }
}

/// The page that the request text `request` asks for.
pub fn route_text(request: &str) -> (r: Route)
    ensures
        r == route_of(request_path(request@)),
{
    let chars = chars_of(request);
    let path = request_path_of(chars.as_slice());
    if chars_eq(path.as_slice(), chars_of("/health").as_slice()) {
        Route::Health
    } else if chars_eq(path.as_slice(), chars_of("/metrics").as_slice()) {
        Route::Metrics
    } else {
        Route::NotFound
    }
}

/// The page that the raw request `request` asks for; invalid UTF-8 in it
/// is read as replacement characters.
pub fn route(request: &[u8]) -> (r: Route)
    ensures
        r == route_of(request_path(utf8_lossy(request@))),
        valid_utf8(request@) ==> r == route_of(request_path(decode_utf8(request@))),
{
    let text = decode_lossy(request);
    route_text(text.as_str())
}

/// The status line of the response to a route.
pub open spec fn status_line(r: Route) -> Seq<char> {
    match r {
        Route::NotFound => "HTTP/1.1 404 Not Found"@,
        _ => "HTTP/1.1 200 OK"@,
    }
}

/// The body of the response to a route; `/metrics` carries the counters.
pub open spec fn body_of(r: Route, metrics_json: Seq<char>) -> Seq<char> {
    match r {
        Route::Health => "{\"status\":\"healthy\"}"@,
        Route::Metrics => metrics_json,
        Route::NotFound => "{\"error\":\"not found\"}"@,
    }
}

/// A JSON response with the given status line and body; the declared
/// length is the body's length in UTF-8 bytes.
pub open spec fn http_text(status: Seq<char>, body: Seq<char>) -> Seq<char> {
    status + "\r\nContent-Type: application/json\r\nContent-Length: "@ + decimal(
        encode_utf8(body).len(),
    ) + "\r\n\r\n"@ + body
}

/// The full response sent for `r`; `metrics_json` is the body used for
/// `/metrics`.
pub fn response(r: Route, metrics_json: &str) -> (s: String)
    ensures
        s@ == http_text(status_line(r), body_of(r, metrics_json@)),
{
    let status = match r {
        Route::NotFound => "HTTP/1.1 404 Not Found",
        _ => "HTTP/1.1 200 OK",
    };
    let body = match r {
        Route::Health => "{\"status\":\"healthy\"}",
        Route::Metrics => metrics_json,
        Route::NotFound => "{\"error\":\"not found\"}",
    };
    let mut out = chars_of(status);
    push_str(&mut out, "\r\nContent-Type: application/json\r\nContent-Length: ");
    push_decimal(&mut out, body.as_bytes().len() as u64);
    push_str(&mut out, "\r\n\r\n");
    push_str(&mut out, body);
    string_from_chars(out.as_slice())
}

/// Scanning for a line feed from `i` stops at the first one, or at the end.
proof fn lemma_find_newline_at(s: Seq<char>, i: int, j: int)
    requires
        0 <= i <= j <= s.len(),
        forall|k: int| i <= k < j ==> s[k] != '\n',
        j == s.len() || s[j] == '\n',
    ensures
        find_newline(s, i) == j,
    decreases j - i,
{
    if i < j {
        lemma_find_newline_at(s, i + 1, j);
    }
}

/// The path a request asks for is the second word of its first line (`/`
/// when that line has fewer than two words), whatever the method, the
/// version, a carriage return before the line feed, or the lines after it;
/// a request of a single line without a line feed is read the same way.
pub proof fn law_path_is_second_word_of_first_line(l: Seq<char>, rest: Seq<char>)
    requires
        forall|k: int| 0 <= k < l.len() ==> l[k] != '\n',
    ensures
        request_path(l + "\n"@ + rest) == (match second_word(l) {
            Some(w) => w,
            None => "/"@,
        }),
        request_path(l) == (match second_word(l) {
            Some(w) => w,
            None => "/"@,
        }),
{
    reveal_strlit("\n");
    let s = l + "\n"@ + rest;
    let n = l.len() as int;
    assert(s[n] == '\n');
    assert forall|k: int| 0 <= k < n implies s[k] != '\n' by {
        assert(s[k] == l[k]);
    }
    lemma_find_newline_at(s, 0, n);
    assert(s.take(n) =~= l);
    if n > 0 && l.last() == '\r' {
        assert(l.drop_last().push('\r') =~= l);
        crate::text::lemma_second_word_push_ws(l.drop_last(), '\r');
    }
    lemma_find_newline_at(l, 0, n);
    assert(l.take(n) =~= l);
    if n == 0 {
        assert(crate::text::skip_ws(l, 0) == 0);
        assert(crate::text::skip_word(l, 0) == 0);
    }
}

/// A request whose first line has `/health` as its second word gets the
/// health page, and one with `/metrics` the counters; any other second
/// word is not found.
pub proof fn law_route_of_first_line(l: Seq<char>, rest: Seq<char>, w: Seq<char>)
    requires
        forall|k: int| 0 <= k < l.len() ==> l[k] != '\n',
        second_word(l) == Some(w),
    ensures
        w == "/health"@ ==> route_of(request_path(l + "\n"@ + rest)) == Route::Health,
        w == "/metrics"@ ==> route_of(request_path(l + "\n"@ + rest)) == Route::Metrics,
        w != "/health"@ && w != "/metrics"@ ==> route_of(request_path(l + "\n"@ + rest)) == Route::NotFound,
{
    law_path_is_second_word_of_first_line(l, rest);
    reveal_strlit("/health");
    reveal_strlit("/metrics");
    assert("/health"@.len() != "/metrics"@.len());
}

/// The full text of each response: the `/metrics` response carries the
/// whole JSON document it is given, and every response declares the
/// UTF-8 byte length of its body.
pub proof fn law_response_texts(j: Seq<char>)
    ensures
        http_text(status_line(Route::Metrics), body_of(Route::Metrics, j)) == "HTTP/1.1 200 OK"@
            + "\r\nContent-Type: application/json\r\nContent-Length: "@ + decimal(
            encode_utf8(j).len(),
        ) + "\r\n\r\n"@ + j,
        http_text(status_line(Route::Health), body_of(Route::Health, j)) == "HTTP/1.1 200 OK"@
            + "\r\nContent-Type: application/json\r\nContent-Length: "@ + decimal(
            encode_utf8("{\"status\":\"healthy\"}"@).len(),
        ) + "\r\n\r\n"@ + "{\"status\":\"healthy\"}"@,
        http_text(status_line(Route::NotFound), body_of(Route::NotFound, j))
            == "HTTP/1.1 404 Not Found"@ + "\r\nContent-Type: application/json\r\nContent-Length: "@
            + decimal(encode_utf8("{\"error\":\"not found\"}"@).len()) + "\r\n\r\n"@
            + "{\"error\":\"not found\"}"@,
{
}

/// A request without any text, or without a second word on its first
/// line, asks for `/` and is not found.
pub proof fn law_empty_request_not_found()
    ensures
        route_of(request_path(Seq::<char>::empty())) == Route::NotFound,
{
    reveal_strlit("/");
    reveal_strlit("/health");
    reveal_strlit("/metrics");
    assert("/"@.len() != "/health"@.len());
    assert("/"@.len() != "/metrics"@.len());
}

} // verus!
