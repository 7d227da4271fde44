//! The service's rules: which response each request gets.

use vstd::prelude::*;
use vstd::string::*;

use crate::health::{health, health_body, lemma_health_body_text};

verus! {

/// An HTTP request method.
#[derive(PartialEq, Eq, Structural, Clone, Copy, Debug)]
pub enum Method {
    Get,
    Head,
    Post,
    Put,
    Delete,
    Connect,
    Options,
    Trace,
    Patch,
    Other,
}

/// One response header, name in lower case.
#[derive(Debug, PartialEq, Eq)]
pub struct Header {
    pub name: String,
    pub value: String,
}

impl View for Header {
    type V = (Seq<char>, Seq<char>);

    open spec fn view(&self) -> (Seq<char>, Seq<char>) {
        (self.name@, self.value@)
    }
}

/// What the service reads of a request: its method, its path and the
/// `Origin` header it came with, if any.
#[derive(Debug)]
pub struct Request {
    pub method: Method,
    pub path: String,
    pub origin: Option<String>,
}

/// A response: status code, headers in order, and body.
#[derive(Debug, PartialEq, Eq)]
pub struct Response {
    pub status: u16,
    pub headers: Vec<Header>,
    pub body: String,
}

/// A response as values.
pub struct ResponseModel {
    pub status: u16,
    pub headers: Seq<(Seq<char>, Seq<char>)>,
    pub body: Seq<char>,
}

impl View for Response {
    type V = ResponseModel;

    open spec fn view(&self) -> ResponseModel {
        ResponseModel {
            status: self.status,
            headers: self.headers@.map_values(|h: Header| h@),
            body: self.body@,
        }
    }
}

/// How the service answers a request.
#[derive(PartialEq, Eq, Structural, Clone, Copy, Debug)]
pub enum Outcome {
    /// The health report, with its body.
    Health,
    /// The path is known but not for this method.
    MethodNotAllowed,
    /// No route has this path.
    NotFound,
}

/// The one route of the service.
pub open spec fn health_path() -> Seq<char> {
    "/api/health"@
}

/// How the service answers a request with this method and path: the health
/// route serves `GET` and refuses every other method, and any other path is
/// not found.
pub open spec fn outcome(method: Method, path: Seq<char>) -> Outcome {
    if path == health_path() {
        if method == Method::Get {
            Outcome::Health
        } else {
            Outcome::MethodNotAllowed
        }
    } else {
        Outcome::NotFound
    }
}

/// The headers of the origin policy, on every response: any origin may
/// read it, and caches keep responses apart by the request's origin and
/// its cross-origin request headers.
pub open spec fn cors_headers() -> Seq<(Seq<char>, Seq<char>)> {
    seq![
        ("access-control-allow-origin"@, "*"@),
        ("vary"@, "origin, access-control-request-method, access-control-request-headers"@),
    ]
}

/// The headers of a health response.
pub open spec fn json_headers() -> Seq<(Seq<char>, Seq<char>)> {
    seq![("content-type"@, "application/json"@)] + cors_headers()
}

/// The full response to a request with this method and path.
pub open spec fn response_model(method: Method, path: Seq<char>) -> ResponseModel {
    match outcome(method, path) {
        Outcome::Health => ResponseModel { status: 200, headers: json_headers(), body: health_body() },
        Outcome::MethodNotAllowed => ResponseModel {
            status: 405,
            headers: seq![("allow"@, "GET"@)] + cors_headers(),
            body: Seq::empty(),
        },
        Outcome::NotFound => ResponseModel { status: 404, headers: cors_headers(), body: Seq::empty() },
    }
}

/// The response that the service gives to `req`.
pub open spec fn response_of(req: Request) -> ResponseModel {
    response_model(req.method, req.path@)
}

/// Decides how the service answers a request with this method and path.
pub fn route(method: Method, path: &String) -> (r: Outcome)
    ensures
        r == outcome(method, path@),
{
    if path.eq(&String::from_str("/api/health")) {
        if method == Method::Get {
            Outcome::Health
        } else {
            Outcome::MethodNotAllowed
        }
    } else {
        Outcome::NotFound
    }
}

fn header(name: &str, value: &str) -> (r: Header)
    ensures
        r@ == (name@, value@),
{
    Header { name: String::from_str(name), value: String::from_str(value) }
}

fn push_cors_headers(headers: &mut Vec<Header>)
    ensures
        final(headers)@.map_values(|h: Header| h@) == old(headers)@.map_values(|h: Header| h@)
            + cors_headers(),
{
    headers.push(header("access-control-allow-origin", "*"));
    headers.push(
        header("vary", "origin, access-control-request-method, access-control-request-headers"),
    );
    assert(headers@.map_values(|h: Header| h@) =~= old(headers)@.map_values(|h: Header| h@)
        + cors_headers());
}

/// Answers a request.
pub fn respond(req: &Request) -> (r: Response)
    ensures
        r@ == response_of(*req),
{
    let outcome = route(req.method, &req.path);
    let mut headers: Vec<Header> = Vec::new();
    let status: u16;
    let mut body = String::new();
    match outcome {
        Outcome::Health => {
            headers.push(header("content-type", "application/json"));
            status = 200;
            body = health().to_json();
        },
        Outcome::MethodNotAllowed => {
            headers.push(header("allow", "GET"));
            status = 405;
        },
        Outcome::NotFound => {
            status = 404;
        },
    }
    let ghost own = headers@.map_values(|h: Header| h@);
    push_cors_headers(&mut headers);
    let r = Response { status, headers, body };
    assert(r@.headers == own + cors_headers());
    assert(r@.headers =~= response_of(*req).headers);
    r
}

/// Every `GET /api/health` is answered with status 200, a JSON content type
/// and the body `{"status":"ok","message":"Rust backend is running"}`,
/// whatever origin the request came from.
pub proof fn lemma_health_get_ok(req: Request)
    requires
        req.method == Method::Get,
        req.path@ == health_path(),
    ensures
        response_of(req).status == 200,
        response_of(req).headers.contains(("content-type"@, "application/json"@)),
        response_of(req).body == "{\"status\":\"ok\",\"message\":\"Rust backend is running\"}"@,
{
    lemma_health_body_text();
    assert(response_of(req).headers[0] == ("content-type"@, "application/json"@));
}

/// A request other than `GET /api/health` never gets status 200: it gets
/// 405 on the health route and 404 on any other path.
pub proof fn lemma_other_requests_fail(req: Request)
    requires
        !(req.method == Method::Get && req.path@ == health_path()),
    ensures
        response_of(req).status != 200,
        req.path@ == health_path() ==> response_of(req).status == 405,
        req.path@ != health_path() ==> response_of(req).status == 404,
{
}

/// Every response lets any origin read it, whatever the request and its
/// `Origin` header.
pub proof fn lemma_cors_on_every_response(req: Request)
    ensures
        response_of(req).headers.contains(("access-control-allow-origin"@, "*"@)),
{
    let hs = response_of(req).headers;
    let k = (hs.len() - 2) as int;
    assert(hs[k] == ("access-control-allow-origin"@, "*"@));
}

/// Two `GET /api/health` requests, from any origins, get the same response,
/// and it is a success.
pub proof fn lemma_health_responses_identical(a: Request, b: Request)
    requires
        a.method == Method::Get,
        a.path@ == health_path(),
        b.method == Method::Get,
        b.path@ == health_path(),
    ensures
        response_of(a) == response_of(b),
        response_of(a).status == 200,
{
}

} // verus!
