use vstd::prelude::*;

use crate::error::{Error, BAD_REQUEST, METHOD_NOT_ALLOWED, OK};
use crate::headers::{name_key, values_of, Headers};
use crate::request::{forward_method, is_forwarded, Method, RequestContext, RequestView};
use crate::restful::{base_accepted, base_text, opt_view, parse_error_text, parse_url, url_text};

verus! {

/// How the request body is rewritten before it is forwarded.
#[derive(Debug, Clone, Copy, PartialEq, Eq, Structural)]
pub enum RequestBodyProcessor {
    /// The body goes out as it came in.
    Identity,
    /// The body is a new dog; the caller's identity is added as its owner.
    CreateDog,
}

/// How the backend's body is rewritten before it is relayed.
#[derive(Debug, Clone, Copy, PartialEq, Eq, Structural)]
pub enum ResponseProcessor {
    /// The body goes back as the backend sent it.
    Identity,
    /// The body is a walk request whose dog ids are replaced by the dogs.
    FillDogs,
}

/// A configured pass-through handler: where requests go and how their
/// bodies are rewritten on the way.
#[derive(Debug)]
pub struct PassThrough {
    pub host_and_port: String,
    /// The path every request goes to; `None` keeps the inbound path.
    pub path: Option<String>,
    pub request_body_processor: RequestBodyProcessor,
    pub response_processor: ResponseProcessor,
}

/// Builds a pass-through handler for the backend at `host_and_port`.
pub fn pass_through(
    host_and_port: &str,
    path: Option<&str>,
    request_body_processor: RequestBodyProcessor,
    response_processor: ResponseProcessor,
) -> (r: PassThrough)
    ensures
        r.host_and_port@ == host_and_port@,
        opt_string_view(r.path) == opt_view(path),
        r.request_body_processor == request_body_processor,
        r.response_processor == response_processor,
{
    let p = match path {
        Some(p) => Some(p.to_owned()),
        None => None,
    };
    PassThrough {
        host_and_port: host_and_port.to_owned(),
        path: p,
        request_body_processor,
        response_processor,
    }
}

pub open spec fn opt_string_view(o: Option<String>) -> Option<Seq<char>> {
    match o {
        Some(s) => Some(s@),
        None => None,
    }
}

/// The decimal digits of `n`, as ASCII bytes.
pub open spec fn decimal(n: nat) -> Seq<u8>
    decreases n,
{
    if n < 10 {
        seq![(48 + n) as u8]
    } else {
        decimal(n / 10).push((48 + n % 10) as u8)
    }
}

pub fn decimal_bytes(n: usize) -> (r: Vec<u8>)
    ensures
        r@ == decimal(n as nat),
    decreases n,
{
    if n < 10 {
        let mut v: Vec<u8> = Vec::new();
        v.push(48 + n as u8);
        v
    } else {
        let mut v = decimal_bytes(n / 10);
        v.push(48 + (n % 10) as u8);
        v
    }
}

/// The outbound call that forwards one inbound request.
#[derive(Debug)]
pub struct Outbound {
    pub method: Method,
    pub url: String,
    pub headers: Headers,
    pub body: Vec<u8>,
}

pub struct OutboundView {
    pub method: Method,
    pub url: Seq<char>,
    pub headers: Seq<(Seq<u8>, Seq<u8>)>,
    pub body: Seq<u8>,
}

impl Outbound {
    pub open spec fn view(&self) -> OutboundView {
        OutboundView {
            method: self.method,
            url: self.url@,
            headers: self.headers.view(),
            body: self.body@,
        }
    }

    /// Puts a rewritten body in place and sets `Content-Length` to its size.
    pub fn set_body(&mut self, body: Vec<u8>)
        ensures
            final(self).method == old(self).method,
            final(self).url == old(self).url,
            final(self).body@ == body@,
            sized_like(final(self).headers.view(), old(self).headers.view(), body@),
    {
        let len = decimal_bytes(body.len());
        self.headers.insert("content-length", len);
        self.body = body;
    }
}

/// `after` holds the headers of `before`, but for `Content-Length`, which
/// holds exactly the size of `body`.
pub open spec fn sized_like(
    after: Seq<(Seq<u8>, Seq<u8>)>,
    before: Seq<(Seq<u8>, Seq<u8>)>,
    body: Seq<u8>,
) -> bool {
    &&& values_of(after, name_key("content-length"@)) == seq![decimal(body.len())]
    &&& forall|k: Seq<u8>|
        k != name_key("content-length"@) ==> #[trigger] values_of(after, k) == values_of(before, k)
}

/// The path a request goes to: the fixed one, else its own.
pub open spec fn target_path(fixed: Option<Seq<char>>, req: RequestView) -> Seq<char> {
    match fixed {
        Some(p) => p,
        None => req.path,
    }
}

/// The query a request carries on: its own, or none when it is empty.
pub open spec fn target_query(req: RequestView) -> Option<Seq<char>> {
    if req.query.len() == 0 {
        None
    } else {
        Some(req.query)
    }
}

/// What forwarding a request leads to: 405 "unsupported method" for a method
/// that is not forwarded, 400 with the parser's message for a backend
/// address that does not parse; else the call
/// to the backend URL with the same method, every inbound header, and the
/// body, with its size as `Content-Length`.
pub open spec fn forwards(
    host_and_port: Seq<char>,
    fixed: Option<Seq<char>>,
    req: RequestView,
    r: Result<OutboundView, Error>,
) -> bool {
    if !is_forwarded(req.method) {
        r matches Err(e) && e.status_code == METHOD_NOT_ALLOWED && e.cause@ == "unsupported method"@
    } else if !base_accepted(base_text(host_and_port)) {
        r matches Err(e) && e.status_code == BAD_REQUEST && e.cause@ == parse_error_text(
            base_text(host_and_port),
        )
    } else {
        r matches Ok(out) && out.method == req.method && out.url == url_text(
            base_text(host_and_port),
            target_path(fixed, req),
            target_query(req),
        ) && out.body == req.body && sized_like(out.headers, req.headers, req.body)
    }
}

pub open spec fn outbound_result_view(r: Result<Outbound, Error>) -> Result<OutboundView, Error> {
    match r {
        Ok(out) => Ok(out.view()),
        Err(e) => Err(e),
    }
}

impl PassThrough {
    /// The outbound call for an inbound request. The method is checked before
    /// anything else, so that no call is made for a method that is refused.
    pub fn prepare(&self, req: RequestContext) -> (r: Result<Outbound, Error>)
        ensures
            forwards(
                self.host_and_port@,
                opt_string_view(self.path),
                req.view(),
                outbound_result_view(r),
            ),
    {
        let ghost rv = req.view();
        let method = match forward_method(req.method) {
            Ok(m) => m,
            Err(e) => return Err(e),
        };
        let RequestContext { method: _, path: inbound_path, query, headers, body } = req;
        let path = match &self.path {
            Some(p) => p.clone(),
            None => inbound_path,
        };
        let q: Option<&str> = if query.as_str().is_empty() {
            None
        } else {
            Some(query.as_str())
        };
        let url = match parse_url(self.host_and_port.as_str(), path.as_str(), q) {
            Ok(u) => u,
            Err(e) => return Err(Error::new(BAD_REQUEST, e.cause)),
        };
        let mut out = Outbound { method, url, headers, body: Vec::new() };
        out.set_body(body);
        Ok(out)
    }

    /// The response relayed to the client: status 200, a JSON content type,
    /// and the backend body after it has been processed.
    pub fn relay(&self, body: Vec<u8>) -> (r: Response)
        ensures
            r.status == OK,
            r.content_type@ == "application/json"@,
            r.body@ == body@,
    {
        Response { status: OK, content_type: String::from_str("application/json"), body }
    }
}

/// Forwarding depends on the request alone: the same request twice either
/// fails twice with the same status and cause, or makes the same call (the
/// same method, URL and body, and the same values under every header name);
/// and the same backend reply gives the same body or error back.
pub proof fn lemma_forwarding_repeats(
    host_and_port: Seq<char>,
    fixed: Option<Seq<char>>,
    req: RequestView,
    ra: Result<OutboundView, Error>,
    rb: Result<OutboundView, Error>,
    first: crate::restful::Reply,
    second: crate::restful::Reply,
)
    requires
        forwards(host_and_port, fixed, req, ra),
        forwards(host_and_port, fixed, req, rb),
        first == second,
    ensures
        ra is Err <==> rb is Err,
        ra matches Err(ea) ==> (rb matches Err(eb) && ea.status_code == eb.status_code && ea.cause@
            == eb.cause@),
        ra matches Ok(a) ==> (rb matches Ok(b) && a.method == b.method && a.url == b.url && a.body
            == b.body && forall|k: Seq<u8>| #[trigger] values_of(a.headers, k) == values_of(b.headers, k)),
        crate::restful::reply_outcome(first) == crate::restful::reply_outcome(second),
{
    if let Ok(a) = ra {
        let b = rb->Ok_0;
        assert forall|k: Seq<u8>| #[trigger] values_of(a.headers, k) == values_of(b.headers, k) by {
            if k != name_key("content-length"@) {
                assert(values_of(a.headers, k) == values_of(req.headers, k));
            }
        }
    }
}

/// A response to the client.
#[derive(Debug)]
pub struct Response {
    pub status: u16,
    pub content_type: String,
    pub body: Vec<u8>,
}

} // verus!
