//! The handlers and the canonical responses.
//!
//! `GET /` answers `200` with body `root`; `POST /collect` decodes its body
//! as one JSON value and answers `200` with body `collect`, remembering the
//! pretty-printed value as the informational record to log. A missing,
//! malformed or oversized body, or a content type other than
//! `application/json`, is rejected with `400`, a timed-out body read with
//! `408`; a served path under another method gets `405`, an unknown path
//! `404`, and an unexpected handler failure is rendered as the canonical
//! `500`.

use crate::json::decode_json_pretty;
use crate::json::json_pretty_of;
use crate::json::parses_as_json;
use crate::router::route;
use crate::router::route_of;
use crate::router::Method;
use crate::router::RouteMatch;
use vstd::prelude::*;
use vstd::string::StrSliceExecFns;
use vstd::string::StringSliceAdditionalSpecFns;

verus! {

/// An HTTP response: status code, content type, and body bytes.
#[derive(Clone, Debug, PartialEq, Eq)]
pub struct Response {
    /// The status code.
    pub status: u16,
    /// The `Content-Type` header value.
    pub content_type: Vec<u8>,
    /// The response body.
    pub body: Vec<u8>,
}

/// The mathematical model of a response.
#[verifier::ext_equal]
pub struct ResponseModel {
    /// The status code.
    pub status: int,
    /// The `Content-Type` header value.
    pub content_type: Seq<u8>,
    /// The response body.
    pub body: Seq<u8>,
}

impl View for Response {
    type V = ResponseModel;

    open spec fn view(&self) -> ResponseModel {
        ResponseModel {
            status: self.status as int,
            content_type: self.content_type@,
            body: self.body@,
        }
    }
}

/// How the runtime hands over the request body.
pub enum RequestBody {
    /// The request carried no body.
    Missing,
    /// The body, read in full, under an acceptable content type.
    Bytes(Vec<u8>),
    /// The request declared a content type that is not `application/json`
    /// (see [`is_json_content_type`]), so the body was not decoded.
    WrongContentType,
    /// The body exceeded the runtime's size ceiling and was not read.
    TooLarge,
    /// The body read timed out.
    TimedOut,
}

/// The classification of a body that decides `/collect`'s answer.
#[derive(Clone, Copy, Debug, PartialEq, Eq, Structural)]
pub enum BodyKind {
    /// No body.
    Missing,
    /// Bytes that are one complete JSON value.
    Json,
    /// Bytes that are not one complete JSON value.
    NotJson,
    /// A content type other than `application/json`.
    WrongContentType,
    /// A body over the size ceiling.
    TooLarge,
    /// A timed-out body read.
    TimedOut,
}

/// Classifies a body: read bytes are JSON or not; the other arrivals keep
/// their kind.
pub open spec fn body_kind(b: RequestBody) -> BodyKind {
    match b {
        RequestBody::Missing => BodyKind::Missing,
        RequestBody::Bytes(v) => if parses_as_json(v@) {
            BodyKind::Json
        } else {
            BodyKind::NotJson
        },
        RequestBody::WrongContentType => BodyKind::WrongContentType,
        RequestBody::TooLarge => BodyKind::TooLarge,
        RequestBody::TimedOut => BodyKind::TimedOut,
    }
}

/// A byte, lower-cased when it is an ASCII capital letter.
pub open spec fn lower_byte(b: u8) -> u8 {
    if 0x41 <= b <= 0x5a {
        (b + 0x20) as u8
    } else {
        b
    }
}

/// The media type that `/collect` accepts.
pub open spec fn json_media_type() -> Seq<u8> {
    "application/json".spec_bytes()
}

/// Whether a `Content-Type` header value names `application/json`:
/// case-insensitively, either exactly or followed by parameters after `;`
/// or a space.
pub open spec fn is_json_content_type(h: Seq<u8>) -> bool {
    let l = h.map_values(|b: u8| lower_byte(b));
    let n = json_media_type().len() as int;
    n <= l.len() && l.subrange(0, n) == json_media_type() && (l.len() == n || l[n] == 0x3b
        || l[n] == 0x20)
}

fn lower_byte_of(b: u8) -> (r: u8)
    ensures
        r == lower_byte(b),
{
    if 0x41 <= b && b <= 0x5a {
        b + 0x20
    } else {
        b
    }
}

/// Whether a `Content-Type` header value names `application/json`: the
/// executable form of [`is_json_content_type`].
pub fn content_type_is_json(h: &Vec<u8>) -> (r: bool)
    ensures
        r == is_json_content_type(h@),
{
    let pat = "application/json".as_bytes_vec();
    let n = pat.len();
    let ghost l = h@.map_values(|b: u8| lower_byte(b));
    if h.len() < n {
        return false;
    }
    let mut i: usize = 0;
    while i < n
        invariant
            0 <= i <= n <= h@.len(),
            n == json_media_type().len(),
            pat@ == json_media_type(),
            l == h@.map_values(|b: u8| lower_byte(b)),
            forall|j: int| 0 <= j < i ==> l[j] == pat@[j],
        decreases n - i,
    {
        if lower_byte_of(h[i]) != pat[i] {
            assert(l[i as int] != pat@[i as int]);
            return false;
        }
        i = i + 1;
    }
    proof {
        assert(l.subrange(0, n as int) =~= pat@);
    }
    if h.len() == n {
        return true;
    }
    let next = lower_byte_of(h[n]);
    next == 0x3b || next == 0x20
}

/// The content type of the two handlers' answers.
pub open spec fn html_content_type() -> Seq<u8> {
    "text/html; charset=utf-8".spec_bytes()
}

/// The content type of the canonical rejections.
pub open spec fn text_content_type() -> Seq<u8> {
    "text/plain; charset=utf-8".spec_bytes()
}

/// The statuses a response of this service can carry.
pub open spec fn valid_status(s: int) -> bool {
    s == 200 || s == 400 || s == 404 || s == 405 || s == 408 || s == 500
}

/// What every request is answered with, as a function of its method, its
/// target, and the classification of its body.
pub open spec fn response_of(m: Method, t: Seq<u8>, k: BodyKind) -> ResponseModel {
    match route_of(m, t) {
        RouteMatch::Root => ResponseModel {
            status: 200,
            content_type: html_content_type(),
            body: "root".spec_bytes(),
        },
        RouteMatch::Collect => match k {
            BodyKind::Json => ResponseModel {
                status: 200,
                content_type: html_content_type(),
                body: "collect".spec_bytes(),
            },
            BodyKind::TimedOut => ResponseModel {
                status: 408,
                content_type: text_content_type(),
                body: "Request Timeout".spec_bytes(),
            },
            _ => ResponseModel {
                status: 400,
                content_type: text_content_type(),
                body: "Bad Request".spec_bytes(),
            },
        },
        RouteMatch::MethodNotAllowed => ResponseModel {
            status: 405,
            content_type: text_content_type(),
            body: "Method Not Allowed".spec_bytes(),
        },
        RouteMatch::NotFound => ResponseModel {
            status: 404,
            content_type: text_content_type(),
            body: "Not Found".spec_bytes(),
        },
    }
}

/// The canonical response for an unexpected handler failure.
pub open spec fn internal_error_model() -> ResponseModel {
    ResponseModel {
        status: 500,
        content_type: text_content_type(),
        body: "Internal Server Error".spec_bytes(),
    }
}

/// The informational record of an accepted `/collect` body: present exactly
/// when the request routes to the collect handler and its body bytes are one
/// JSON value, and then it is that value pretty-printed.
pub open spec fn ingest_line_of(m: Method, t: Seq<u8>, b: RequestBody) -> Option<Seq<u8>> {
    match b {
        RequestBody::Bytes(v) => if route_of(m, t) == RouteMatch::Collect && parses_as_json(v@) {
            Some(json_pretty_of(v@))
        } else {
            None
        },
        _ => None,
    }
}

/// The whole outcome of one request: the response, and the informational
/// log line when the collect handler accepted a body.
pub struct Outcome {
    /// The response to send.
    pub response: Response,
    /// The pretty-printed JSON to log at informational severity, if any.
    pub ingest_line: Option<Vec<u8>>,
}

fn respond(status: u16, html: bool, body: &str) -> (r: Response)
    ensures
        r@ == (ResponseModel {
            status: status as int,
            content_type: if html {
                html_content_type()
            } else {
                text_content_type()
            },
            body: body.spec_bytes(),
        }),
{
    Response {
        status,
        content_type: if html {
            "text/html; charset=utf-8".as_bytes_vec()
        } else {
            "text/plain; charset=utf-8".as_bytes_vec()
        },
        body: body.as_bytes_vec(),
    }
}

/// The root handler: `GET /` is answered `200` with body `root`.
pub fn root() -> (r: Response)
    ensures
        r@ == (ResponseModel {
            status: 200,
            content_type: html_content_type(),
            body: "root".spec_bytes(),
        }),
{
    respond(200, true, "root")
}

/// The collect handler: decodes `body` as one JSON value. On success it
/// answers `200` with body `collect` and hands back the pretty-printed
/// value to log; otherwise it renders the canonical `400`.
pub fn collect(body: &Vec<u8>) -> (r: (Response, Option<Vec<u8>>))
    ensures
        parses_as_json(body@) ==> r.0@ == (ResponseModel {
            status: 200,
            content_type: html_content_type(),
            body: "collect".spec_bytes(),
        }) && (r.1 matches Some(l) && l@ == json_pretty_of(body@)),
        !parses_as_json(body@) ==> r.0@ == (ResponseModel {
            status: 400,
            content_type: text_content_type(),
            body: "Bad Request".spec_bytes(),
        }) && r.1 is None,
{
    match decode_json_pretty(body) {
        Some(line) => (respond(200, true, "collect"), Some(line)),
        None => (respond(400, false, "Bad Request"), None),
    }
}

/// Answers one request: routes it, runs the matched handler, and renders
/// every rejection canonically. Returns exactly the response that
/// [`response_of`] gives, and the informational record exactly when
/// [`ingest_line_of`] has one.
pub fn handle_request(m: Method, target: &Vec<u8>, body: RequestBody) -> (r: Outcome)
    ensures
        r.response@ == response_of(m, target@, body_kind(body)),
        r.ingest_line matches Some(l) ==> ingest_line_of(m, target@, body) == Some(l@),
        (r.ingest_line is Some) == (ingest_line_of(m, target@, body) is Some),
{
    match route(m, target) {
        RouteMatch::Root => Outcome { response: root(), ingest_line: None },
        RouteMatch::Collect => match body {
            RequestBody::Bytes(v) => {
                let (response, ingest_line) = collect(&v);
                Outcome { response, ingest_line }
            },
            RequestBody::TimedOut => Outcome {
                response: respond(408, false, "Request Timeout"),
                ingest_line: None,
            },
            _ => Outcome { response: respond(400, false, "Bad Request"), ingest_line: None },
        },
        RouteMatch::MethodNotAllowed => Outcome {
            response: respond(405, false, "Method Not Allowed"),
            ingest_line: None,
        },
        RouteMatch::NotFound => Outcome {
            response: respond(404, false, "Not Found"),
            ingest_line: None,
        },
    }
}

/// The canonical `500` that the server loop renders when a handler fails
/// unexpectedly.
pub fn internal_error_response() -> (r: Response)
    ensures
        r@ == internal_error_model(),
{
    respond(500, false, "Internal Server Error")
}

/// Every response this service renders carries one of the six canonical
/// statuses: 200, 400, 404, 405, 408 or 500.
pub proof fn lemma_status_space(m: Method, t: Seq<u8>, k: BodyKind)
    ensures
        valid_status(response_of(m, t, k).status),
        valid_status(internal_error_model().status),
{
}

/// `GET /` is pure: any two requests that route to the root handler are
/// answered with identical response bytes, whatever their bodies.
pub proof fn lemma_root_pure(t1: Seq<u8>, k1: BodyKind, t2: Seq<u8>, k2: BodyKind)
    requires
        route_of(Method::Get, t1) == RouteMatch::Root,
        route_of(Method::Get, t2) == RouteMatch::Root,
    ensures
        response_of(Method::Get, t1, k1) == response_of(Method::Get, t2, k2),
{
}

/// `POST /collect` is pure apart from logging: two requests that route to
/// the collect handler with identical body bytes are answered with identical
/// response bytes, and their informational records are identical too.
pub proof fn lemma_collect_pure(t1: Seq<u8>, b1: RequestBody, t2: Seq<u8>, b2: RequestBody)
    requires
        route_of(Method::Post, t1) == RouteMatch::Collect,
        route_of(Method::Post, t2) == RouteMatch::Collect,
        b1 matches RequestBody::Bytes(v1) && b2 matches RequestBody::Bytes(v2) && v1@ == v2@,
    ensures
        response_of(Method::Post, t1, body_kind(b1)) == response_of(Method::Post, t2, body_kind(b2)),
        ingest_line_of(Method::Post, t1, b1) == ingest_line_of(Method::Post, t2, b2),
{
}

} // verus!
