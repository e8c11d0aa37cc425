use network_shim::http::{
    append_decimal, http_get_plan, http_get_request, http_post_plan, http_post_request,
    parse_http_url, response_body,
};
use network_shim::text::{str_chars, str_eq};

fn parts(url: &str) -> Option<(String, String)> {
    parse_http_url(url)
}

#[test]
fn parse_url_with_path() {
    assert_eq!(
        parts("http://127.0.0.1:8080/api/v1/live_values"),
        Some(("127.0.0.1:8080".to_string(), "/api/v1/live_values".to_string()))
    );
}

#[test]
fn parse_url_without_path_gives_root() {
    assert_eq!(parts("http://shim.local:9000"), Some(("shim.local:9000".to_string(), "/".to_string())));
}

#[test]
fn parse_url_with_trailing_slash() {
    assert_eq!(parts("http://h:1/"), Some(("h:1".to_string(), "/".to_string())));
}

#[test]
fn parse_url_scheme_only() {
    assert_eq!(parts("http://"), Some(("".to_string(), "/".to_string())));
}

#[test]
fn parse_url_splits_at_first_slash() {
    assert_eq!(parts("http://a/b/c?d=/e"), Some(("a".to_string(), "/b/c?d=/e".to_string())));
}

#[test]
fn parse_url_non_ascii() {
    assert_eq!(parts("http://münchen:80/größe"), Some(("münchen:80".to_string(), "/größe".to_string())));
}

#[test]
fn parse_url_refuses_other_schemes() {
    assert_eq!(parts("https://example.com/"), None);
    assert_eq!(parts("HTTP://example.com/"), None);
    assert_eq!(parts("http:/x"), None);
    assert_eq!(parts(""), None);
    assert_eq!(parts("ftp://x/y"), None);
}

#[test]
fn get_request_text() {
    assert_eq!(
        http_get_request("10.0.0.2:8000", "/api/v1/live_values"),
        "GET /api/v1/live_values HTTP/1.0\r\nHost: 10.0.0.2:8000\r\nConnection: close\r\n\r\n"
    );
}

#[test]
fn post_request_text() {
    let body = "[{\"SetInverterTargetRpm\":12.5}]";
    assert_eq!(
        http_post_request("10.0.0.2:8000", "/api/v1/mutations", body),
        format!(
            "POST /api/v1/mutations HTTP/1.0\r\nHost: 10.0.0.2:8000\r\nContent-Type: application/json\r\nContent-Length: {}\r\nConnection: close\r\n\r\n{}",
            body.len(),
            body
        )
    );
}

#[test]
fn post_request_counts_bytes_not_characters() {
    let req = http_post_request("h", "/", "\"ä\"");
    assert!(req.contains("Content-Length: 4\r\n"));
    assert!(req.ends_with("\r\n\r\n\"ä\""));
}

#[test]
fn post_request_empty_body() {
    assert_eq!(
        http_post_request("h:1", "/m", ""),
        "POST /m HTTP/1.0\r\nHost: h:1\r\nContent-Type: application/json\r\nContent-Length: 0\r\nConnection: close\r\n\r\n"
    );
}

#[test]
fn decimal_numerals() {
    for n in [0usize, 7, 9, 10, 11, 99, 100, 1234567890, usize::MAX] {
        let mut s = String::from("x");
        append_decimal(&mut s, n);
        assert_eq!(s, format!("x{}", n));
    }
}

#[test]
fn get_plan_for_url() {
    assert_eq!(
        http_get_plan("http://localhost:3000/api/v1/live_values"),
        Some((
            "localhost:3000".to_string(),
            "GET /api/v1/live_values HTTP/1.0\r\nHost: localhost:3000\r\nConnection: close\r\n\r\n".to_string()
        ))
    );
    assert_eq!(http_get_plan("localhost:3000/api"), None);
}

#[test]
fn post_plan_for_url() {
    assert_eq!(
        http_post_plan("http://localhost:3000", "[]"),
        Some((
            "localhost:3000".to_string(),
            "POST / HTTP/1.0\r\nHost: localhost:3000\r\nContent-Type: application/json\r\nContent-Length: 2\r\nConnection: close\r\n\r\n[]".to_string()
        ))
    );
    assert_eq!(http_post_plan("https://localhost:3000/m", "[]"), None);
}

#[test]
fn body_of_response() {
    assert_eq!(
        response_body("HTTP/1.0 200 OK\r\nContent-Type: application/json\r\n\r\n{\"pressure\":42.0}"),
        Some("{\"pressure\":42.0}".to_string())
    );
}

#[test]
fn body_after_first_blank_line_only() {
    assert_eq!(response_body("H\r\n\r\nA\r\n\r\nB"), Some("A\r\n\r\nB".to_string()));
}

#[test]
fn body_empty_and_missing() {
    assert_eq!(response_body("HTTP/1.0 204 No Content\r\n\r\n"), Some(String::new()));
    assert_eq!(response_body("HTTP/1.0 200 OK\r\nX: y\r\n"), None);
    assert_eq!(response_body(""), None);
    assert_eq!(response_body("\r\n\r"), None);
    assert_eq!(response_body("\r\n\r\n"), Some(String::new()));
}

#[test]
fn body_of_framed_request_is_the_document() {
    let body = "{\"SetExtruderMode\":\"Heat\"}";
    let req = http_post_request("h:1", "/api/v1/mutations", body);
    assert_eq!(response_body(&req), Some(body.to_string()));
    let get = http_get_request("h:1", "/api/v1/live_values");
    assert_eq!(response_body(&get), Some(String::new()));
}

#[test]
fn url_parts_rebuild_url() {
    let url = "http://host:1/a/b";
    let (h, p) = parse_http_url(url).unwrap();
    assert_eq!(format!("http://{}{}", h, p), url);
}

#[test]
fn chars_and_equality() {
    assert_eq!(str_chars("aö€"), vec!['a', 'ö', '€']);
    assert!(str_eq("Heat", "Heat"));
    assert!(!str_eq("Heat", "Heat "));
    assert!(!str_eq("Heat", "heat"));
    assert!(str_eq("", ""));
}
