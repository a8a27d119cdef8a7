use vstd::prelude::*;

use crate::error::{Error, INTERNAL_SERVER_ERROR, UNAUTHORIZED};
use crate::headers::{check_value, first_value, is_text, is_value, name_key, values_of};
use crate::request::{RequestContext, RequestView};
use crate::restful::{base_accepted, base_text, header_text, parse_url, url_text};
use vstd::utf8::encode_utf8;

verus! {

/// The authentication middleware for a subtree of routes, resolving tokens
/// with the auth service at `url`.
#[derive(Debug)]
pub struct AuthMW {
    url: String,
}

impl AuthMW {
    pub closed spec fn url(&self) -> Seq<char> {
        self.url@
    }

    pub fn new(url: String) -> (r: AuthMW)
        ensures
            r.url() == url@,
    {
        AuthMW { url }
    }

    /// The middleware for one wrapped handler.
    pub fn new_transform(&self) -> (r: AuthMWService)
        ensures
            r.url() == self.url(),
    {
        AuthMWService { url: self.url.clone() }
    }
}

/// The middleware in front of one wrapped handler.
#[derive(Debug)]
pub struct AuthMWService {
    url: String,
}

/// Where a request stands after its token has been looked for.
#[derive(Debug)]
pub enum AuthStep {
    /// The token, to be resolved by the auth service.
    Verify(String),
    /// The request is refused; the wrapped handler is not run.
    Reject(Error),
}

/// The key of the header that carries the caller's token.
pub open spec fn token_key() -> Seq<u8> {
    name_key("x-auth-token"@)
}

/// The key of the header that carries the caller's identity.
pub open spec fn user_key() -> Seq<u8> {
    name_key("x-user-id"@)
}

/// The first step of the middleware on the request headers: a token that
/// reads as text goes on to verification; a missing one, or one that does
/// not read as text, is refused with 401.
pub open spec fn token_step(headers: Seq<(Seq<u8>, Seq<u8>)>, r: AuthStep) -> bool {
    match first_value(headers, token_key()) {
        Some(v) if is_text(v) => r matches AuthStep::Verify(t) && encode_utf8(t@) == v,
        _ => r matches AuthStep::Reject(e) && e.status_code == UNAUTHORIZED && e.cause@
            == "auth token not exists"@,
    }
}

/// The step after the token has been resolved. A failure keeps its status
/// and cause, and the request is left as it was. An identity is set as the
/// only `X-User-ID` value, over any that the client sent, and the rest of the
/// request is left as it was; an identity that cannot be a header value is 500.
pub open spec fn identity_step(
    before: RequestView,
    outcome: Result<String, Error>,
    after: RequestView,
    r: Result<(), Error>,
) -> bool {
    match outcome {
        Err(e) => r == Err::<(), Error>(e) && after == before,
        Ok(id) => if is_value(encode_utf8(id@)) {
            &&& r is Ok
            &&& after.method == before.method
            &&& after.path == before.path
            &&& after.query == before.query
            &&& after.body == before.body
            &&& values_of(after.headers, user_key()) == seq![encode_utf8(id@)]
            &&& forall|k: Seq<u8>|
                k != user_key() ==> #[trigger] values_of(after.headers, k) == values_of(
                    before.headers,
                    k,
                )
        } else {
            (r matches Err(e) && e.status_code == INTERNAL_SERVER_ERROR) && after == before
        },
    }
}

impl AuthMWService {
    pub closed spec fn url(&self) -> Seq<char> {
        self.url@
    }

    /// Looks for the caller's token; no backend is called.
    pub fn call(&self, req: &RequestContext) -> (r: AuthStep)
        ensures
            token_step(req.headers.view(), r),
    {
        match req.headers.get("x-auth-token") {
            Some(v) => match header_text(v) {
                Some(token) => AuthStep::Verify(token),
                None => AuthStep::Reject(
                    Error::new(UNAUTHORIZED, String::from_str("auth token not exists")),
                ),
            },
            None => AuthStep::Reject(
                Error::new(UNAUTHORIZED, String::from_str("auth token not exists")),
            ),
        }
    }

    /// Where the auth service resolves `token`: `/tokens/{token}/verification`.
    pub fn verification_url(&self, token: &str) -> (r: Result<String, Error>)
        ensures
            r is Ok <==> base_accepted(base_text(self.url())),
            r matches Ok(u) ==> u@ == url_text(
                base_text(self.url()),
                "/tokens/"@ + token@ + "/verification"@,
                None,
            ),
    {
        let path = String::from_str("/tokens/").concat(token).concat("/verification");
        parse_url(self.url.as_str(), path.as_str(), None)
    }

    /// Applies what the auth service answered; `Ok` lets the wrapped handler
    /// run with the request as it now is.
    pub fn verified(&self, req: &mut RequestContext, outcome: Result<String, Error>) -> (r: Result<
        (),
        Error,
    >)
        ensures
            identity_step(old(req).view(), outcome, final(req).view(), r),
    {
        match outcome {
            Err(e) => Err(e),
            Ok(id) => {
                let value = id.as_str().as_bytes_vec();
                if check_value(&value) {
                    req.headers.insert("x-user-id", value);
                    Ok(())
                } else {
                    Err(Error::new(INTERNAL_SERVER_ERROR, String::from_str("invalid user id")))
                }
            },
        }
    }
}

/// Whatever `X-User-ID` values a client sent, once a token has been resolved
/// to an identity, the request carries that identity and no other value
/// under `X-User-ID`.
pub proof fn lemma_identity_replaces_client_value(
    before: RequestView,
    id: String,
    after: RequestView,
    r: Result<(), Error>,
    client: Seq<u8>,
)
    requires
        identity_step(before, Ok(id), after, r),
        is_value(encode_utf8(id@)),
        values_of(before.headers, user_key()).contains(client),
        client != encode_utf8(id@),
    ensures
        r is Ok,
        first_value(after.headers, user_key()) == Some(encode_utf8(id@)),
        !values_of(after.headers, user_key()).contains(client),
{
    assert(values_of(after.headers, user_key())[0] == encode_utf8(id@));
}

/// A request without a token, or with one that does not read as text, is
/// refused with 401 before any backend call, and so never reaches the
/// wrapped handler.
pub proof fn lemma_no_token_no_handler(headers: Seq<(Seq<u8>, Seq<u8>)>, r: AuthStep)
    requires
        token_step(headers, r),
        match first_value(headers, token_key()) {
            Some(v) => !is_text(v),
            None => true,
        },
    ensures
        r matches AuthStep::Reject(e) && e.status_code == UNAUTHORIZED,
{
}

} // verus!
