use vstd::prelude::*;

use crate::error::{Error, INTERNAL_SERVER_ERROR, UNAUTHORIZED};
use crate::headers::{check_text, first_value, is_text, lemma_text_is_utf8, name_key, Headers};
use vstd::utf8::{encode_utf8, valid_utf8};
use crate::stream::{drained, item_view, items_view, stream_to_bytes};

verus! {

/// Whether `url::Url::parse` accepts the text as an absolute URL.
pub uninterp spec fn base_accepted(text: Seq<char>) -> bool;

/// The message of the error with which `url::Url::parse` refuses the text.
pub uninterp spec fn parse_error_text(text: Seq<char>) -> Seq<char>;

/// The text of the URL that `url` parses from `text`, with the path set and
/// the query set or cleared.
pub uninterp spec fn url_text(text: Seq<char>, path: Seq<char>, query: Option<Seq<char>>) -> Seq<char>;

/// The base URL of a backend: plain HTTP to its address.
pub open spec fn base_text(address: Seq<char>) -> Seq<char> {
    "http://"@ + address
}

pub open spec fn opt_view(o: Option<&str>) -> Option<Seq<char>> {
    match o {
        Some(s) => Some(s@),
        None => None,
    }
}

/// Relies on `url::Url::parse` (is the text an absolute URL, and the
/// message of its error), `Url::set_path`, `Url::set_query` and
/// `From<Url> for String`: each result is a function of the text, the path
/// and the query alone.
#[verifier::external_body]
fn render_url(text: &str, path: &str, query: Option<&str>) -> (r: Result<String, String>)
    ensures
        r is Ok <==> base_accepted(text@),
        r matches Ok(s) ==> s@ == url_text(text@, path@, opt_view(query)),
        r matches Err(m) ==> m@ == parse_error_text(text@),
{
    match url::Url::parse(text) {
        Ok(mut url) => {
            url.set_path(path);
            url.set_query(query);
            Ok(url.into())
        },
        Err(e) => Err(e.to_string()),
    }
}

/// The URL of a backend call: `http://` with the backend's address, a path
/// and a query. An address that does not parse is an internal error (500)
/// whose cause is the parser's message.
pub fn parse_url(host_and_port: &str, path: &str, params: Option<&str>) -> (r: Result<String, Error>)
    ensures
        r is Ok <==> base_accepted(base_text(host_and_port@)),
        r matches Ok(s) ==> s@ == url_text(base_text(host_and_port@), path@, opt_view(params)),
        r matches Err(e) ==> e.status_code == INTERNAL_SERVER_ERROR && e.cause@ == parse_error_text(
            base_text(host_and_port@),
        ),
{
    let text = String::from_str("http://").concat(host_and_port);
    match render_url(text.as_str(), path, params) {
        Ok(s) => Ok(s),
        Err(m) => Err(Error::new(INTERNAL_SERVER_ERROR, m)),
    }
}

pub open spec fn success(status: u16) -> bool {
    200 <= status < 300
}

/// Relies on `String::from_utf8`: it accepts exactly the valid UTF-8 byte
/// sequences, and the string it returns is encoded by those same bytes.
#[verifier::external_body]
fn utf8_string(bytes: Vec<u8>) -> (r: Option<String>)
    ensures
        r is Some <==> valid_utf8(bytes@),
        r matches Some(s) ==> encode_utf8(s@) == bytes@,
{
    String::from_utf8(bytes).ok()
}

/// A header value read as text: `None` when one of its bytes is not
/// visible ASCII, a space or a tab.
pub fn header_text(value: &Vec<u8>) -> (r: Option<String>)
    ensures
        r is Some <==> is_text(value@),
        r matches Some(s) ==> encode_utf8(s@) == value@,
{
    if check_text(value) {
        proof {
            lemma_text_is_utf8(value@);
        }
        utf8_string(value.clone())
    } else {
        None
    }
}

/// The caller's identity as set by the authentication middleware.
/// A missing header, or one that is not text, is 401.
pub fn extract_user_id(headers: &Headers) -> (r: Result<String, Error>)
    ensures
        match first_value(headers.view(), name_key("x-user-id"@)) {
            Some(v) => if is_text(v) {
                r matches Ok(s) && encode_utf8(s@) == v
            } else {
                r matches Err(e) && e.status_code == UNAUTHORIZED
            },
            None => r matches Err(e) && e.status_code == UNAUTHORIZED && e.cause@ == "no user id"@,
        },
{
    match headers.get("x-user-id") {
        None => Err(Error::new(UNAUTHORIZED, String::from_str("no user id"))),
        Some(v) => match header_text(v) {
            Some(s) => Ok(s),
            None => Err(Error::new(UNAUTHORIZED, String::from_str("user id is not text"))),
        },
    }
}

/// Whether a backend status is a success (2xx).
pub fn is_success(status: u16) -> (r: bool)
    ensures
        r == success(status),
{
    200 <= status && status < 300
}

/// How a backend call came back, as the HTTP client saw it.
#[derive(Debug)]
pub enum Reply {
    /// The call could not be made, or it timed out; with the client's message.
    Unreachable(String),
    /// The backend answered with a status that is not a success, with its
    /// body read as text, or the message of the failure to read it.
    Rejected(u16, Result<String, String>),
    /// The backend answered with success; the items of its body stream.
    Accepted(Vec<Result<Vec<u8>, Error>>),
}

/// What a backend call yields: its whole body, or the error it maps to.
pub open spec fn reply_outcome(reply: Reply) -> Result<Seq<u8>, Error> {
    match reply {
        Reply::Unreachable(m) => Err(Error { status_code: INTERNAL_SERVER_ERROR, cause: m }),
        Reply::Rejected(status, Ok(text)) => Err(Error { status_code: status, cause: text }),
        Reply::Rejected(_, Err(m)) => Err(Error { status_code: INTERNAL_SERVER_ERROR, cause: m }),
        Reply::Accepted(items) => drained(items_view(items@)),
    }
}

/// Maps a backend reply to its body or to an error: a network failure is
/// 500, a rejection keeps the backend's status and has its body as cause,
/// and a body stream that fails ends in its first error.
pub fn request(reply: Reply) -> (r: Result<Vec<u8>, Error>)
    ensures
        item_view(r) == reply_outcome(reply),
{
    match reply {
        Reply::Unreachable(m) => Err(Error::new(INTERNAL_SERVER_ERROR, m)),
        Reply::Rejected(status, Ok(text)) => Err(Error::new(status, text)),
        Reply::Rejected(_, Err(m)) => Err(Error::new(INTERNAL_SERVER_ERROR, m)),
        Reply::Accepted(items) => stream_to_bytes(items),
    }
}

} // verus!
