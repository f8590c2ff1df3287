use threaded_http::http::build_response;
use threaded_http::http::content_name;
use threaded_http::http::hello_page;
use threaded_http::http::not_found_page;
use threaded_http::http::respond;
use threaded_http::http::route;
use threaded_http::http::route_sleeps;
use threaded_http::http::status_line;
use threaded_http::http::usize_to_string;
use threaded_http::http::Route;
use threaded_http::http::SLEEP_ROUTE_SECS;

#[test]
fn root_request_routes_to_root() {
    assert_eq!(route(&"GET / HTTP/1.1".to_string()), Route::Root);
}

#[test]
fn sleep_request_routes_to_sleep() {
    assert_eq!(route(&"GET /sleep HTTP/1.1".to_string()), Route::Sleep);
}

#[test]
fn unrecognized_lines_route_to_not_found() {
    for line in [
        "GET /missing HTTP/1.1",
        "POST / HTTP/1.1",
        "GET / HTTP/1.0",
        "get / http/1.1",
        "",
    ] {
        assert_eq!(route(&line.to_string()), Route::NotFound);
    }
}

#[test]
fn root_request_yields_200_with_hello_body() {
    let response = respond(&"GET / HTTP/1.1".to_string(), None);
    let body = hello_page();
    let expected = format!("HTTP/1.1 200 OK\r\nContent-Length: {}\r\n\r\n{}", body.len(), body);
    assert_eq!(response, expected);
}

#[test]
fn unrecognized_request_yields_404_with_not_found_body() {
    let response = respond(&"GET /nothing/here HTTP/1.1".to_string(), None);
    let body = not_found_page();
    let expected = format!(
        "HTTP/1.1 404 NOT FOUND\r\nContent-Length: {}\r\n\r\n{}",
        body.len(),
        body
    );
    assert_eq!(response, expected);
}

#[test]
fn sleep_request_yields_200_and_asks_for_a_pause() {
    let r = route(&"GET /sleep HTTP/1.1".to_string());
    assert!(route_sleeps(r));
    assert!(!route_sleeps(Route::Root));
    assert!(!route_sleeps(Route::NotFound));
    assert_eq!(SLEEP_ROUTE_SECS, 5);
    let response = respond(&"GET /sleep HTTP/1.1".to_string(), None);
    assert!(response.starts_with("HTTP/1.1 200 OK\r\n"));
}

#[test]
fn status_lines_and_content_names_per_route() {
    assert_eq!(status_line(Route::Root), "HTTP/1.1 200 OK");
    assert_eq!(status_line(Route::Sleep), "HTTP/1.1 200 OK");
    assert_eq!(status_line(Route::NotFound), "HTTP/1.1 404 NOT FOUND");
    assert_eq!(content_name(Route::Root), "hello.html");
    assert_eq!(content_name(Route::Sleep), "hello.html");
    assert_eq!(content_name(Route::NotFound), "404.html");
}

#[test]
fn looked_up_contents_replace_the_fallback() {
    let response = respond(
        &"GET / HTTP/1.1".to_string(),
        Some("<p>from the store</p>".to_string()),
    );
    assert_eq!(
        response,
        "HTTP/1.1 200 OK\r\nContent-Length: 21\r\n\r\n<p>from the store</p>"
    );
}

#[test]
fn content_length_counts_bytes_not_characters() {
    let contents = "h\u{e9}llo".to_string();
    assert_eq!(contents.chars().count(), 5);
    assert_eq!(contents.len(), 6);
    let response = build_response("HTTP/1.1 200 OK", &contents);
    assert_eq!(response, format!("HTTP/1.1 200 OK\r\nContent-Length: 6\r\n\r\nh\u{e9}llo"));
}

#[test]
fn fallback_pages_have_the_expected_markers() {
    let hello = hello_page();
    assert!(hello.contains("<h1>Hello, world!</h1>"));
    assert!(hello.contains("Welcome to ThreadedHTTP server"));
    let missing = not_found_page();
    assert!(missing.contains("<h1>404 Not Found</h1>"));
    assert!(missing.contains("The requested resource was not found."));
}

#[test]
fn decimal_rendering_is_exact() {
    assert_eq!(usize_to_string(0), "0");
    assert_eq!(usize_to_string(7), "7");
    assert_eq!(usize_to_string(10), "10");
    assert_eq!(usize_to_string(1234), "1234");
    assert_eq!(usize_to_string(1000000), "1000000");
    assert_eq!(usize_to_string(usize::MAX), format!("{}", usize::MAX));
}
