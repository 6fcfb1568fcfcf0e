//! The track store's tiny HTTP face: routing a raw request line to a
//! handler, extracting the record identifier from the path, and assembling
//! the response text.  Reading and writing the socket belongs to the
//! embedding application; everything here is plain text work.

use vstd::prelude::*;
use vstd::string::StrSliceExecFns;
use vstd::string::StringExecFns;

verus! {

/// Which handler a request is routed to, decided by the first matching
/// request-line prefix, in this order.
#[derive(Clone, Copy, Debug, PartialEq, Eq, Structural)]
pub enum RequestRoute {
    /// `POST /tracks`: ingest a new track.
    PostTracks,
    /// `GET /tracks/<id>`: fetch one track.
    GetTrackById,
    /// `GET /tracks`: fetch every track.
    GetAllTracks,
    /// `PUT /tracks/<id>`: update one track.
    PutTrack,
    /// `DELETE /tracks/<id>`: delete one track.
    DeleteTrack,
    /// `OPTIONS /...`: a preflight request, answered empty.
    Preflight,
    /// Anything else: not found.
    Unknown,
}

/// The character classes the request scanner distinguishes.
#[derive(Clone, Copy, Debug, PartialEq, Eq, Structural)]
pub enum CharClass {
    /// The path separator `/`.
    Slash,
    /// ASCII whitespace.
    Space,
    /// Anything but ASCII whitespace.
    NonSpace,
}

/// ASCII whitespace: what delimits the identifier token inside a path
/// segment.
pub open spec fn is_space(c: char) -> bool {
    c == ' ' || c == '\t' || c == '\n' || c == '\r' || c == '\u{000B}' || c == '\u{000C}'
}

/// Whether `c` belongs to the class `k`.
pub open spec fn char_in_class(c: char, k: CharClass) -> bool {
    match k {
        CharClass::Slash => c == '/',
        CharClass::Space => is_space(c),
        CharClass::NonSpace => !is_space(c),
    }
}

/// The first index in `[start, end)` whose character belongs to `k`, or
/// `end` if there is none.
pub open spec fn find_first(s: Seq<char>, start: int, end: int, k: CharClass) -> int
    decreases end - start,
{
    if start >= end {
        end
    } else if char_in_class(s[start], k) {
        start
    } else {
        find_first(s, start + 1, end, k)
    }
}

/// If nothing in `[start, i)` belongs to `k` and either `i` is `end` or the
/// character at `i` belongs to `k`, then `i` is what `find_first` finds.
proof fn lemma_find_first_found(s: Seq<char>, start: int, end: int, k: CharClass, i: int)
    requires
        start <= i <= end,
        forall|j: int| start <= j < i ==> !char_in_class(s[j], k),
        i < end ==> char_in_class(s[i], k),
    ensures
        find_first(s, start, end, k) == i,
    decreases i - start,
{
    if start < i {
        lemma_find_first_found(s, start + 1, end, k, i);
    }
}

/// Whether `c` belongs to the class `k`.
fn matches_class(c: char, k: CharClass) -> (r: bool)
    ensures
        r == char_in_class(c, k),
{
    let space = c == ' ' || c == '\t' || c == '\n' || c == '\r' || c == '\u{000B}' || c
        == '\u{000C}';
    match k {
        CharClass::Slash => c == '/',
        CharClass::Space => space,
        CharClass::NonSpace => !space,
    }
}

/// Scan `[start, end)` of `s` for the first character of class `k`;
/// reports `end` if there is none.
fn find_in_str(s: &str, start: usize, end: usize, k: CharClass) -> (r: usize)
    requires
        start <= end <= s@.len(),
    ensures
        r == find_first(s@, start as int, end as int, k),
        start <= r <= end,
        r < end ==> char_in_class(s@[r as int], k),
{
    let mut i: usize = start;
    while i < end
        invariant
            start <= i <= end <= s@.len(),
            forall|j: int| start <= j < i ==> !char_in_class(s@[j], k),
        decreases end - i,
    {
        if matches_class(s.get_char(i), k) {
            proof {
                lemma_find_first_found(s@, start as int, end as int, k, i as int);
            }
            return i;
        }
        i = i + 1;
    }
    proof {
        lemma_find_first_found(s@, start as int, end as int, k, end as int);
    }
    end
}

/// The identifier in a request path, by the rule the handlers use: the third
/// `/`-separated part of the request text (empty if there is no second
/// slash), narrowed to its first whitespace-delimited token (empty if the
/// part is empty or all whitespace).
pub open spec fn spec_get_id(s: Seq<char>) -> Seq<char> {
    let n = s.len() as int;
    let j1 = find_first(s, 0, n, CharClass::Slash);
    let j2 = find_first(s, j1 + 1, n, CharClass::Slash);
    if j1 >= n || j2 >= n {
        Seq::empty()
    } else {
        let j3 = find_first(s, j2 + 1, n, CharClass::Slash);
        let b = find_first(s, j2 + 1, j3, CharClass::NonSpace);
        if b >= j3 {
            Seq::empty()
        } else {
            s.subrange(b, find_first(s, b, j3, CharClass::Space))
        }
    }
}

/// Extract the record identifier from a raw request: the first token of the
/// path segment after `/tracks/`, e.g. `12` out of `GET /tracks/12 HTTP/1.1`.
/// Yields the empty string when the request has no such segment.
pub fn get_id(request: &str) -> (id: &str)
    ensures
        id@ == spec_get_id(request@),
{
    proof {
        reveal_strlit("");
    }
    let n = request.unicode_len();
    let j1 = find_in_str(request, 0, n, CharClass::Slash);
    if j1 >= n {
        return "";
    }
    let j2 = find_in_str(request, j1 + 1, n, CharClass::Slash);
    if j2 >= n {
        return "";
    }
    let j3 = find_in_str(request, j2 + 1, n, CharClass::Slash);
    let b = find_in_str(request, j2 + 1, j3, CharClass::NonSpace);
    if b >= j3 {
        return "";
    }
    let e = find_in_str(request, b, j3, CharClass::Space);
    request.substring_char(b, e)
}

/// Whether `prefix` is a prefix of `s`.
pub fn str_starts_with(s: &str, prefix: &str) -> (r: bool)
    ensures
        r == prefix@.is_prefix_of(s@),
{
    let n = s.unicode_len();
    let m = prefix.unicode_len();
    if m > n {
        return false;
    }
    let mut i: usize = 0;
    while i < m
        invariant
            m <= n == s@.len(),
            m == prefix@.len(),
            i <= m,
            forall|j: int| 0 <= j < i ==> prefix@[j] == s@[j],
        decreases m - i,
    {
        if s.get_char(i) != prefix.get_char(i) {
            proof {
                assert(s@.subrange(0, m as int)[i as int] == s@[i as int]);
            }
            return false;
        }
        i = i + 1;
    }
    proof {
        assert(prefix@ =~= s@.subrange(0, m as int));
    }
    true
}

/// Which handler answers the request text `s`: the first matching prefix in
/// the handlers' own order.
pub open spec fn spec_route(s: Seq<char>) -> RequestRoute {
    if "POST /tracks"@.is_prefix_of(s) {
        RequestRoute::PostTracks
    } else if "GET /tracks/"@.is_prefix_of(s) {
        RequestRoute::GetTrackById
    } else if "GET /tracks"@.is_prefix_of(s) {
        RequestRoute::GetAllTracks
    } else if "PUT /tracks/"@.is_prefix_of(s) {
        RequestRoute::PutTrack
    } else if "DELETE /tracks/"@.is_prefix_of(s) {
        RequestRoute::DeleteTrack
    } else if "OPTIONS /"@.is_prefix_of(s) {
        RequestRoute::Preflight
    } else {
        RequestRoute::Unknown
    }
}

/// Route a raw request to its handler.
pub fn route_request(request: &str) -> (r: RequestRoute)
    ensures
        r == spec_route(request@),
{
    if str_starts_with(request, "POST /tracks") {
        RequestRoute::PostTracks
    } else if str_starts_with(request, "GET /tracks/") {
        RequestRoute::GetTrackById
    } else if str_starts_with(request, "GET /tracks") {
        RequestRoute::GetAllTracks
    } else if str_starts_with(request, "PUT /tracks/") {
        RequestRoute::PutTrack
    } else if str_starts_with(request, "DELETE /tracks/") {
        RequestRoute::DeleteTrack
    } else if str_starts_with(request, "OPTIONS /") {
        RequestRoute::Preflight
    } else {
        RequestRoute::Unknown
    }
}

/// The status line of a response.
#[derive(Clone, Copy, Debug, PartialEq, Eq, Structural)]
pub enum StatusLine {
    Success,
    NotFound,
    ServerError,
}

/// The exact status-line text, content type included for a success.
pub fn status_line_text(k: StatusLine) -> (s: &'static str)
    ensures
        k is Success ==> s@ == "HTTP/1.1 200 OK\r\nContent-Type: application/json\r\n"@,
        k is NotFound ==> s@ == "HTTP/1.1 404 NOT FOUND\r\n"@,
        k is ServerError ==> s@ == "HTTP/1.1 500 INTERNAL SERVER ERROR\r\n"@,
{
    match k {
        StatusLine::Success => "HTTP/1.1 200 OK\r\nContent-Type: application/json\r\n",
        StatusLine::NotFound => "HTTP/1.1 404 NOT FOUND\r\n",
        StatusLine::ServerError => "HTTP/1.1 500 INTERNAL SERVER ERROR\r\n",
    }
}

/// The cross-origin headers every response carries.
pub open spec fn cors_headers() -> Seq<char> {
    "Access-Control-Allow-Origin: http://localhost:3000\r\n"@
        + "Access-Control-Allow-Methods: GET, POST, PUT, DELETE\r\n"@
        + "Access-Control-Allow-Headers: Content-Type\r\n"@
        + "Access-Control-Allow-Credentials: true\r\n"@
}

/// A whole response: the status line, the cross-origin headers, a blank
/// line, the content.
pub open spec fn spec_response(status_line: Seq<char>, content: Seq<char>) -> Seq<char> {
    status_line + cors_headers() + "\r\n"@ + content
}

/// Assemble the response text sent back on the socket.
pub fn build_response(status_line: &str, content: &str) -> (r: String)
    ensures
        r@ == spec_response(status_line@, content@),
{
    let mut r = String::new();
    r.append(status_line);
    r.append("Access-Control-Allow-Origin: http://localhost:3000\r\n");
    r.append("Access-Control-Allow-Methods: GET, POST, PUT, DELETE\r\n");
    r.append("Access-Control-Allow-Headers: Content-Type\r\n");
    r.append("Access-Control-Allow-Credentials: true\r\n");
    r.append("\r\n");
    r.append(content);
    proof {
        assert(r@ =~= spec_response(status_line@, content@));
    }
    r
}

} // verus!
