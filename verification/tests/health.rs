use rustproxy::health::{response, route, route_text, Route};

#[test]
fn routes_by_path() {
    assert_eq!(route(b"GET /health HTTP/1.1\r\nHost: localhost\r\n\r\n"), Route::Health);
    assert_eq!(route(b"GET /metrics HTTP/1.1\r\n\r\n"), Route::Metrics);
    assert_eq!(route(b"GET / HTTP/1.1\r\n\r\n"), Route::NotFound);
    assert_eq!(route(b"GET /healthz HTTP/1.1\r\n"), Route::NotFound);
}

#[test]
fn missing_path_is_not_found() {
    assert_eq!(route(b""), Route::NotFound);
    assert_eq!(route(b"GET"), Route::NotFound);
    assert_eq!(route(b"\n/health"), Route::NotFound);
}

#[test]
fn path_is_the_second_word_of_the_first_line() {
    assert_eq!(route(b"  POST\t/health"), Route::Health);
    assert_eq!(route(b"X /metrics\r"), Route::Metrics);
    assert_eq!(route(b"X\xc2\xa0/health"), Route::Health);
}

#[test]
fn invalid_utf8_is_replaced() {
    // the invalid byte becomes a replacement character inside the path
    assert_eq!(route(b"GET /health\xff HTTP/1.1"), Route::NotFound);
    // it separates nothing: 0xa0 alone is not a space
    assert_eq!(route(b"GET\xa0/health"), Route::NotFound);
}

#[test]
fn health_response() {
    assert_eq!(
        response(Route::Health, "ignored"),
        "HTTP/1.1 200 OK\r\nContent-Type: application/json\r\nContent-Length: 20\r\n\r\n{\"status\":\"healthy\"}"
    );
}

#[test]
fn metrics_response_counts_body_bytes() {
    assert_eq!(
        response(Route::Metrics, "{\"é\":1}"),
        "HTTP/1.1 200 OK\r\nContent-Type: application/json\r\nContent-Length: 8\r\n\r\n{\"é\":1}"
    );
}

#[test]
fn not_found_response() {
    assert_eq!(
        response(Route::NotFound, ""),
        "HTTP/1.1 404 Not Found\r\nContent-Type: application/json\r\nContent-Length: 21\r\n\r\n{\"error\":\"not found\"}"
    );
}

#[test]
fn routes_decoded_text() {
    assert_eq!(route_text("GET /health HTTP/1.1\r\n"), Route::Health);
    assert_eq!(route_text("GET /metrics\nGET /health"), Route::Metrics);
    assert_eq!(route_text("GET\u{2028}/health"), Route::Health);
    assert_eq!(route_text("GET /h\u{e9}alth"), Route::NotFound);
}
