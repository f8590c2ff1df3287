//! The connection handler's pure core: request-line routing, content
//! selection, and response formatting.
//!
//! Reading the request line from a connection and writing the response back
//! are I/O and live outside the library. Everything between — which route a
//! request line names, which content answers it, the built-in fallback
//! bodies, and the exact bytes of the textual response, Content-Length
//! included — is computed and verified here.

use vstd::prelude::*;
use vstd::string::StringExecFns;
use vstd::string::StringSliceAdditionalSpecFns;
use vstd::utf8::encode_utf8;

verus! {

broadcast use vstd::slice::group_slice_axioms;

/// How long the sleep route pauses before answering, in seconds. Servicing
/// it occupies one worker for the duration, which demonstrates pool
/// saturation.
pub const SLEEP_ROUTE_SECS: u64 = 5;

/// The three routes the server knows: the root page, the root page after a
/// deliberate pause, and everything else.
#[derive(Clone, Copy, PartialEq, Eq, Structural, Debug)]
pub enum Route {
    Root,
    Sleep,
    NotFound,
}

/// Routing is an exact match on the whole request line: `GET / HTTP/1.1`
/// is the root, `GET /sleep HTTP/1.1` is the pausing route, and any other
/// line — any other method, path or version — is not found.
pub open spec fn route_spec(line: Seq<char>) -> Route {
    if line == "GET / HTTP/1.1"@ {
        Route::Root
    } else if line == "GET /sleep HTTP/1.1"@ {
        Route::Sleep
    } else {
        Route::NotFound
    }
}

/// Decides which route a request line names.
pub fn route(request_line: &String) -> (r: Route)
    ensures
        r == route_spec(request_line@),
{
    let root: String = "GET / HTTP/1.1".to_owned();
    let sleep: String = "GET /sleep HTTP/1.1".to_owned();
    if *request_line == root {
        Route::Root
    } else if *request_line == sleep {
        Route::Sleep
    } else {
        Route::NotFound
    }
}

/// The status line a route answers with: `200 OK` for both known routes,
/// `404 NOT FOUND` otherwise.
pub open spec fn status_line_spec(r: Route) -> Seq<char> {
    match r {
        Route::NotFound => "HTTP/1.1 404 NOT FOUND"@,
        _ => "HTTP/1.1 200 OK"@,
    }
}

/// The status line for a route.
pub fn status_line(r: Route) -> (s: &'static str)
    ensures
        s@ == status_line_spec(r),
{
    match r {
        Route::NotFound => "HTTP/1.1 404 NOT FOUND",
        _ => "HTTP/1.1 200 OK",
    }
}

/// The name of the content a route serves, the key under which the content
/// store looks it up.
pub open spec fn content_name_spec(r: Route) -> Seq<char> {
    match r {
        Route::NotFound => "404.html"@,
        _ => "hello.html"@,
    }
}

/// The content name for a route.
pub fn content_name(r: Route) -> (s: &'static str)
    ensures
        s@ == content_name_spec(r),
{
    match r {
        Route::NotFound => "404.html",
        _ => "hello.html",
    }
}

/// Whether a route pauses for [`SLEEP_ROUTE_SECS`] before answering.
pub fn route_sleeps(r: Route) -> (b: bool)
    ensures
        b == (r == Route::Sleep),
{
    match r {
        Route::Sleep => true,
        _ => false,
    }
}

/// The built-in greeting page, served when the content store has no
/// `hello.html`.
pub open spec fn hello_page_spec() -> Seq<char> {
    "<!DOCTYPE html>\n<html>\n<head>\n    <title>Hello</title>\n</head>\n<body>\n<h1>Hello, world!</h1>\n<p>Welcome to ThreadedHTTP server</p>\n</body>\n</html>"@
}

/// The built-in greeting page.
pub fn hello_page() -> (r: String)
    ensures
        r@ == hello_page_spec(),
{
    "<!DOCTYPE html>\n<html>\n<head>\n    <title>Hello</title>\n</head>\n<body>\n<h1>Hello, world!</h1>\n<p>Welcome to ThreadedHTTP server</p>\n</body>\n</html>".to_owned()
}

/// The built-in not-found page, served when the content store has no
/// `404.html`.
pub open spec fn not_found_page_spec() -> Seq<char> {
    "<!DOCTYPE html>\n<html>\n<head>\n    <title>404</title>\n</head>\n<body>\n<h1>404 Not Found</h1>\n<p>The requested resource was not found.</p>\n</body>\n</html>"@
}

/// The built-in not-found page.
pub fn not_found_page() -> (r: String)
    ensures
        r@ == not_found_page_spec(),
{
    "<!DOCTYPE html>\n<html>\n<head>\n    <title>404</title>\n</head>\n<body>\n<h1>404 Not Found</h1>\n<p>The requested resource was not found.</p>\n</body>\n</html>".to_owned()
}

/// What a request is answered with: the looked-up content when the store
/// has it, else the built-in page keyed by the content's name — the
/// greeting page for `hello.html`, the not-found page for anything else.
pub open spec fn resolve_contents_spec(name: Seq<char>, looked_up: Option<Seq<char>>) -> Seq<
    char,
> {
    match looked_up {
        Some(c) => c,
        None => if name == "hello.html"@ {
            hello_page_spec()
        } else {
            not_found_page_spec()
        },
    }
}

/// Chooses the body to serve: what the content store returned for `name`,
/// or the matching built-in page when the lookup failed.
pub fn resolve_contents(name: &str, looked_up: Option<String>) -> (r: String)
    ensures
        r@ == resolve_contents_spec(name@, looked_up.deep_view()),
{
    match looked_up {
        Some(c) => c,
        None => {
            let hello: String = "hello.html".to_owned();
            let name_owned: String = name.to_owned();
            if name_owned == hello {
                hello_page()
            } else {
                not_found_page()
            }
        },
    }
}

/// The decimal digit characters of `n`, most significant first, with no
/// leading zero (a single `0` for zero itself).
pub open spec fn dec_rep(n: nat) -> Seq<char>
    decreases n,
{
    if n < 10 {
        seq![digit_char(n)]
    } else {
        dec_rep(n / 10) + seq![digit_char(n % 10)]
    }
}

/// The character for one decimal digit.
pub open spec fn digit_char(d: nat) -> char {
    if d == 0 {
        '0'
    } else if d == 1 {
        '1'
    } else if d == 2 {
        '2'
    } else if d == 3 {
        '3'
    } else if d == 4 {
        '4'
    } else if d == 5 {
        '5'
    } else if d == 6 {
        '6'
    } else if d == 7 {
        '7'
    } else if d == 8 {
        '8'
    } else {
        '9'
    }
}

fn digit_str(d: usize) -> (s: &'static str)
    requires
        d < 10,
    ensures
        s@ == seq![digit_char(d as nat)],
{
    proof {
        reveal_strlit("0");
        reveal_strlit("1");
        reveal_strlit("2");
        reveal_strlit("3");
        reveal_strlit("4");
        reveal_strlit("5");
        reveal_strlit("6");
        reveal_strlit("7");
        reveal_strlit("8");
        reveal_strlit("9");
    }
    let s = match d {
        0 => "0",
        1 => "1",
        2 => "2",
        3 => "3",
        4 => "4",
        5 => "5",
        6 => "6",
        7 => "7",
        8 => "8",
        _ => "9",
    };
    proof {
        assert(s@ =~= seq![digit_char(d as nat)]);
    }
    s
}

/// Writes `n` in decimal, the digits [`dec_rep`] lists.
pub fn usize_to_string(n: usize) -> (r: String)
    ensures
        r@ == dec_rep(n as nat),
    decreases n,
{
    if n < 10 {
        digit_str(n).to_owned()
    } else {
        let mut prefix = usize_to_string(n / 10);
        prefix.append(digit_str(n % 10));
        proof {
            assert(prefix@ =~= dec_rep(n as nat));
        }
        prefix
    }
}

/// The full textual response for a status line and a body: the status line,
/// a Content-Length header counting the body's UTF-8 bytes, a blank line,
/// and the body.
pub open spec fn response_view(status: Seq<char>, body: Seq<char>) -> Seq<char> {
    status + "\r\nContent-Length: "@ + dec_rep(encode_utf8(body).len()) + "\r\n\r\n"@ + body
}

/// Formats the response for a status line and a body, Content-Length
/// included.
pub fn build_response(status: &str, contents: &String) -> (r: String)
    ensures
        r@ == response_view(status@, contents@),
{
    let length: usize = contents.as_str().as_bytes().len();
    proof {
        assert(length == encode_utf8(contents@).len());
    }
    let length_digits = usize_to_string(length);
    let mut out: String = status.to_owned();
    out.append("\r\nContent-Length: ");
    out.append(length_digits.as_str());
    out.append("\r\n\r\n");
    out.append(contents.as_str());
    proof {
        assert(out@ =~= response_view(status@, contents@));
    }
    out
}

/// The complete answer to a request line, given what the content store
/// returned for the route's content name: the route's status line, the
/// resolved body, and a Content-Length counting that body's bytes.
pub open spec fn respond_spec(line: Seq<char>, looked_up: Option<Seq<char>>) -> Seq<char> {
    let r = route_spec(line);
    response_view(status_line_spec(r), resolve_contents_spec(content_name_spec(r), looked_up))
}

/// The connection handler's whole computation: routes the request line,
/// falls back to a built-in page if the store came up empty, and formats
/// the response. The caller reads the request line, looks the route's
/// content name up in its store, pauses first if [`route_sleeps`] says so,
/// and writes the returned text back, verbatim.
pub fn respond(request_line: &String, looked_up: Option<String>) -> (r: String)
    ensures
        r@ == respond_spec(request_line@, looked_up.deep_view()),
{
    let r = route(request_line);
    let contents = resolve_contents(content_name(r), looked_up);
    build_response(status_line(r), &contents)
}

} // verus!
