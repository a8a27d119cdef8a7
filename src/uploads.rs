use vstd::prelude::*;

use crate::error::{Error, BAD_REQUEST, FORBIDDEN, INTERNAL_SERVER_ERROR, UNAUTHORIZED};
use crate::headers::{first_value, is_text, name_key, Headers};
use crate::restful::header_text;
use crate::service::Service;
use vstd::utf8::encode_utf8;

verus! {

/// The largest upload the gateway passes on, in bytes.
pub const UPLOAD_SIZE_LIMIT: usize = 1048576;

/// An upload to the upload service: who sends it, of what type, and the
/// largest size it may have.
#[derive(Debug)]
pub struct UploadCall {
    pub user_id: String,
    pub content_type: String,
    pub size_limit: usize,
}

/// The header `name` read as text, or the error for it: `missing` when it
/// is not there, `not_text` when it does not read as text.
pub open spec fn header_outcome(
    headers: Seq<(Seq<u8>, Seq<u8>)>,
    name: Seq<char>,
    r: Result<String, Error>,
    missing: u16,
    not_text: u16,
) -> bool {
    match first_value(headers, name_key(name)) {
        None => r matches Err(e) && e.status_code == missing,
        Some(v) => if is_text(v) {
            r matches Ok(s) && encode_utf8(s@) == v
        } else {
            r matches Err(e) && e.status_code == not_text
        },
    }
}

/// Reads a header as text, failing with `missing` or `not_text_status`.
pub fn require_header(headers: &Headers, name: &str, missing: Error, not_text_status: u16) -> (r:
    Result<String, Error>)
    ensures
        header_outcome(headers.view(), name@, r, missing.status_code, not_text_status),
        first_value(headers.view(), name_key(name@)) is None ==> r == Err::<String, Error>(missing),
{
    match headers.get(name) {
        None => Err(missing),
        Some(v) => match header_text(v) {
            Some(s) => Ok(s),
            None => Err(Error::new(not_text_status, String::from_str("header is not text"))),
        },
    }
}

impl Service {
    /// The owner of a new dog: the caller's identity (401 when missing, 400
    /// when it is not text).
    pub fn add_dog_owner(&self, headers: &Headers) -> (r: Result<String, Error>)
        ensures
            header_outcome(headers.view(), "x-user-id"@, r, UNAUTHORIZED, BAD_REQUEST),
            first_value(headers.view(), name_key("x-user-id"@)) is None ==> (r matches Err(e)
                && e.cause@ == "no X-User-ID"@),
    {
        require_header(
            headers,
            "x-user-id",
            Error::new(UNAUTHORIZED, String::from_str("no X-User-ID")),
            BAD_REQUEST,
        )
    }

    /// The upload call for a portrait: the caller's identity (403 when
    /// missing, 400 when it is not text), the content type (400 when
    /// missing, 500 when it is not text), and the size limit.
    pub fn upload_call(&self, headers: &Headers) -> (r: Result<UploadCall, Error>)
        ensures
            match first_value(headers.view(), name_key("x-user-id"@)) {
                None => (r matches Err(e) && e.status_code == FORBIDDEN && e.cause@
                    == "no X-User-ID"@),
                Some(u) => if !is_text(u) {
                    (r matches Err(e) && e.status_code == BAD_REQUEST)
                } else {
                    match first_value(headers.view(), name_key("content-type"@)) {
                        None => (r matches Err(e) && e.status_code == BAD_REQUEST && e.cause@
                            == "Content-Type header is required"@),
                        Some(c) => if !is_text(c) {
                            (r matches Err(e) && e.status_code == INTERNAL_SERVER_ERROR)
                        } else {
                            (r matches Ok(call) && encode_utf8(call.user_id@) == u
                                && encode_utf8(call.content_type@) == c
                                && call.size_limit == UPLOAD_SIZE_LIMIT)
                        },
                    }
                },
            },
    {
        let user_id = match require_header(
            headers,
            "x-user-id",
            Error::new(FORBIDDEN, String::from_str("no X-User-ID")),
            BAD_REQUEST,
        ) {
            Ok(u) => u,
            Err(e) => return Err(e),
        };
        let content_type = match require_header(
            headers,
            "content-type",
            Error::new(BAD_REQUEST, String::from_str("Content-Type header is required")),
            INTERNAL_SERVER_ERROR,
        ) {
            Ok(c) => c,
            Err(e) => return Err(e),
        };
        Ok(UploadCall { user_id, content_type, size_limit: UPLOAD_SIZE_LIMIT })
    }
}

} // verus!
