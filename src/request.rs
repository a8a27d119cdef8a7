use vstd::prelude::*;

use crate::error::{Error, METHOD_NOT_ALLOWED};
use crate::headers::Headers;

verus! {

/// The method of an inbound request. `Other` stands for any extension method.
#[derive(Debug, Clone, Copy, PartialEq, Eq, Structural)]
pub enum Method {
    Get,
    Post,
    Put,
    Delete,
    Head,
    Patch,
    Options,
    Trace,
    Connect,
    Other,
}

/// The methods the gateway forwards, each to itself.
pub open spec fn is_forwarded(m: Method) -> bool {
    !(m is Connect || m is Other)
}

/// The method of the outbound call, or 405 for a method that is not forwarded.
pub fn forward_method(m: Method) -> (r: Result<Method, Error>)
    ensures
        is_forwarded(m) ==> r == Ok::<Method, Error>(m),
        !is_forwarded(m) ==> (r matches Err(e) && e.status_code == METHOD_NOT_ALLOWED && e.cause@
            == "unsupported method"@),
{
    match m {
        Method::Connect | Method::Other => Err(
            Error::new(METHOD_NOT_ALLOWED, String::from_str("unsupported method")),
        ),
        _ => Ok(m),
    }
}

/// One inbound HTTP request, as the host server hands it over.
#[derive(Debug)]
pub struct RequestContext {
    pub method: Method,
    pub path: String,
    /// The raw query string, without the `?`; empty when there is none.
    pub query: String,
    pub headers: Headers,
    pub body: Vec<u8>,
}

pub struct RequestView {
    pub method: Method,
    pub path: Seq<char>,
    pub query: Seq<char>,
    pub headers: Seq<(Seq<u8>, Seq<u8>)>,
    pub body: Seq<u8>,
}

impl RequestContext {
    pub open spec fn view(&self) -> RequestView {
        RequestView {
            method: self.method,
            path: self.path@,
            query: self.query@,
            headers: self.headers.view(),
            body: self.body@,
        }
    }
}

} // verus!
