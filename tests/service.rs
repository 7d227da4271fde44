use health_service::health::{health, HealthResponse};
use health_service::http::{respond, route, Header, Method, Outcome, Request, Response};
use health_service::json::quote;
use health_service::listen::{addr_string, listen_addr, startup_line, ListenAddr};

const HEALTH_BODY: &str = "{\"status\":\"ok\",\"message\":\"Rust backend is running\"}";

fn request(method: Method, path: &str, origin: Option<&str>) -> Request {
    Request { method, path: path.to_string(), origin: origin.map(|o| o.to_string()) }
}

fn header_value<'a>(r: &'a Response, name: &str) -> Option<&'a str> {
    r.headers.iter().find(|h| h.name == name).map(|h| h.value.as_str())
}

fn h(name: &str, value: &str) -> Header {
    Header { name: name.to_string(), value: value.to_string() }
}

const VARY: &str = "origin, access-control-request-method, access-control-request-headers";

#[test]
fn get_health_without_headers() {
    let r = respond(&request(Method::Get, "/api/health", None));
    assert_eq!(r.status, 200);
    assert_eq!(r.body, HEALTH_BODY);
    assert_eq!(
        r.headers,
        vec![
            h("content-type", "application/json"),
            h("access-control-allow-origin", "*"),
            h("vary", VARY),
        ]
    );
}

#[test]
fn get_health_ignores_origin() {
    let plain = respond(&request(Method::Get, "/api/health", None));
    for origin in ["https://example.com", "null", "", "http://localhost:3000"] {
        let r = respond(&request(Method::Get, "/api/health", Some(origin)));
        assert_eq!(r, plain);
        assert_eq!(r.status, 200);
        assert_eq!(r.body, HEALTH_BODY);
    }
}

#[test]
fn post_health_is_not_allowed() {
    let r = respond(&request(Method::Post, "/api/health", None));
    assert_ne!(r.status, 200);
    assert_eq!(r.status, 405);
    assert_eq!(header_value(&r, "allow"), Some("GET"));
    assert_eq!(r.body, "");
}

#[test]
fn other_methods_on_health_are_not_allowed() {
    for m in [
        Method::Head,
        Method::Put,
        Method::Delete,
        Method::Patch,
        Method::Options,
        Method::Trace,
        Method::Connect,
        Method::Other,
    ] {
        let r = respond(&request(m, "/api/health", None));
        assert_eq!(r.status, 405);
        assert_eq!(r.body, "");
    }
}

#[test]
fn get_unknown_is_not_found() {
    let r = respond(&request(Method::Get, "/unknown", None));
    assert_eq!(r.status, 404);
    assert_eq!(r.body, "");
    assert_eq!(r.headers, vec![h("access-control-allow-origin", "*"), h("vary", VARY)]);
}

#[test]
fn near_misses_of_the_route_are_not_found() {
    for path in ["/api/health/", "/api/Health", "/api", "/", "", "/api/health?x=1", "api/health"] {
        for m in [Method::Get, Method::Head, Method::Post] {
            let r = respond(&request(m, path, None));
            assert_eq!(r.status, 404, "{path}");
        }
    }
}

#[test]
fn two_health_requests_are_identical() {
    let a = respond(&request(Method::Get, "/api/health", None));
    let b = respond(&request(Method::Get, "/api/health", Some("https://other.example")));
    assert_eq!(a, b);
    assert_eq!(a.status, 200);
}

#[test]
fn every_response_allows_any_origin() {
    let methods = [Method::Get, Method::Head, Method::Post, Method::Options, Method::Delete];
    for path in ["/api/health", "/unknown", "/"] {
        for m in methods {
            for origin in [None, Some("https://a.example"), Some("evil")] {
                let r = respond(&request(m, path, origin));
                assert_eq!(header_value(&r, "access-control-allow-origin"), Some("*"));
                assert_eq!(header_value(&r, "vary"), Some(VARY));
            }
        }
    }
}

#[test]
fn head_health_is_not_allowed() {
    let r = respond(&request(Method::Head, "/api/health", None));
    assert_eq!(r.status, 405);
    assert_eq!(r.body, "");
    assert_eq!(header_value(&r, "content-type"), None);
    assert_eq!(header_value(&r, "allow"), Some("GET"));
}

#[test]
fn options_is_refused_like_any_other_method() {
    let r = respond(&request(Method::Options, "/api/health", Some("https://a.example")));
    assert_eq!(r.status, 405);
    assert_eq!(r.body, "");
    assert_eq!(
        r.headers,
        vec![h("allow", "GET"), h("access-control-allow-origin", "*"), h("vary", VARY)]
    );
    let r = respond(&request(Method::Options, "/unknown", Some("https://a.example")));
    assert_eq!(r.status, 404);
    assert_eq!(r.body, "");
    assert_eq!(r.headers, vec![h("access-control-allow-origin", "*"), h("vary", VARY)]);
}

#[test]
fn route_decisions() {
    let p = |s: &str| s.to_string();
    assert_eq!(route(Method::Get, &p("/api/health")), Outcome::Health);
    assert_eq!(route(Method::Head, &p("/api/health")), Outcome::MethodNotAllowed);
    assert_eq!(route(Method::Post, &p("/api/health")), Outcome::MethodNotAllowed);
    assert_eq!(route(Method::Get, &p("/unknown")), Outcome::NotFound);
    assert_eq!(route(Method::Options, &p("/api/health")), Outcome::MethodNotAllowed);
    assert_eq!(route(Method::Options, &p("/unknown")), Outcome::NotFound);
}

#[test]
fn health_report_fields() {
    let r = health();
    assert_eq!(r.status, "ok");
    assert_eq!(r.message, "Rust backend is running");
    assert_eq!(r.to_json(), HEALTH_BODY);
}

#[test]
fn report_json_escapes_its_fields() {
    let r = HealthResponse {
        status: "a\"b\\c".to_string(),
        message: "line\nnext\ttab\r\u{8}\u{c}\u{1}\u{1f}é/".to_string(),
    };
    assert_eq!(
        r.to_json(),
        "{\"status\":\"a\\\"b\\\\c\",\"message\":\"line\\nnext\\ttab\\r\\b\\f\\u0001\\u001fé/\"}"
    );
}

#[test]
fn report_json_with_empty_fields() {
    let r = HealthResponse { status: String::new(), message: String::new() };
    assert_eq!(r.to_json(), "{\"status\":\"\",\"message\":\"\"}");
}

#[test]
fn quote_wraps_and_escapes() {
    assert_eq!(quote(""), "\"\"");
    assert_eq!(quote("ok"), "\"ok\"");
    assert_eq!(quote("\u{0}\u{7f}"), "\"\\u0000\u{7f}\"");
}

#[test]
fn listens_on_loopback_8000() {
    let a = listen_addr();
    assert_eq!(a.ip, [127, 0, 0, 1]);
    assert_eq!(a.port, 8000);
    assert_eq!(startup_line(&a), "Rust backend listening on http://127.0.0.1:8000");
}

#[test]
fn addr_string_extremes() {
    assert_eq!(addr_string(&ListenAddr { ip: [0, 0, 0, 0], port: 0 }), "0.0.0.0:0");
    assert_eq!(addr_string(&ListenAddr { ip: [255, 255, 255, 255], port: 65535 }), "255.255.255.255:65535");
    assert_eq!(addr_string(&ListenAddr { ip: [10, 9, 100, 99], port: 10 }), "10.9.100.99:10");
}
