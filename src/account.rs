use vstd::prelude::*;

use crate::error::Error;
use crate::service::Service;

verus! {

/// The body of a login by SMS verification code.
#[derive(Debug)]
pub struct LoginBySMSVerificationCodeParams {
    pub phone: String,
    pub code: String,
}

/// The body of a login by password.
#[derive(Debug)]
pub struct LoginByPasswordParams {
    pub phone: String,
    pub password: String,
}

/// The body of a signup.
#[derive(Debug)]
pub struct SignupParams {
    pub phone: String,
    pub password: String,
    pub verification_code: String,
}

/// A login call to the auth service.
#[derive(Debug)]
pub struct LoginReq {
    pub phone: String,
    pub password: String,
}

/// A signup call to the auth service.
#[derive(Debug)]
pub struct SignupReq {
    pub phone: String,
    pub password: String,
}

/// The auth service's answer to whether a phone belongs to a user.
#[derive(Debug)]
pub struct ExistsUserResp {
    pub exists: bool,
}

/// The auth service's answer to a token: the identity it stands for.
#[derive(Debug)]
pub struct VerifyTokenResp {
    pub id: String,
}

/// The SMS service's answer to a verification code.
#[derive(Debug)]
pub struct VerifyCodeResp {
    pub is_ok: bool,
}

/// The gateway's answer to a token verification.
#[derive(Debug)]
pub struct VerifyAuthTokenResp {
    pub id: String,
}

pub open spec fn exists_outcome(o: Result<ExistsUserResp, Error>) -> Result<bool, Error> {
    match o {
        Ok(resp) => Ok(resp.exists),
        Err(e) => Err(e),
    }
}

pub open spec fn code_outcome(o: Result<VerifyCodeResp, Error>) -> Result<bool, Error> {
    match o {
        Ok(resp) => Ok(resp.is_ok),
        Err(e) => Err(e),
    }
}

impl Service {
    /// The login call for a login by password.
    pub fn login_by_password(&self, params: LoginByPasswordParams) -> (r: LoginReq)
        ensures
            r.phone == params.phone,
            r.password == params.password,
    {
        LoginReq { phone: params.phone, password: params.password }
    }

    /// The check before a login by code: the phone must belong to a user
    /// (else 404 "user not exists").
    pub fn check_user_exists(&self, outcome: Result<ExistsUserResp, Error>) -> (r: Result<(), Error>)
        ensures
            crate::service::refused_with(
                exists_outcome(outcome),
                r,
                crate::error::NOT_FOUND,
                "user not exists"@,
            ),
    {
        let o = match outcome {
            Ok(resp) => Ok(resp.exists),
            Err(e) => Err(e),
        };
        self.guard(o, Error::new(crate::error::NOT_FOUND, String::from_str("user not exists")))
    }

    /// The check of an SMS verification code (else 400 "invalid sms verification code").
    pub fn check_verification_code(&self, outcome: Result<VerifyCodeResp, Error>) -> (r: Result<(), Error>)
        ensures
            crate::service::refused_with(
                code_outcome(outcome),
                r,
                crate::error::BAD_REQUEST,
                "invalid sms verification code"@,
            ),
    {
        let o = match outcome {
            Ok(resp) => Ok(resp.is_ok),
            Err(e) => Err(e),
        };
        self.guard(
            o,
            Error::new(crate::error::BAD_REQUEST, String::from_str("invalid sms verification code")),
        )
    }

    /// The signup call, made only once the verification code has been accepted.
    pub fn signup(&self, params: SignupParams, code: Result<VerifyCodeResp, Error>) -> (r: Result<
        SignupReq,
        Error,
    >)
        ensures
            crate::service::refused_with(
                code_outcome(code),
                crate::service::unit_result(r),
                crate::error::BAD_REQUEST,
                "invalid sms verification code"@,
            ),
            r matches Ok(req) ==> req.phone == params.phone && req.password == params.password,
    {
        match self.check_verification_code(code) {
            Ok(()) => Ok(SignupReq { phone: params.phone, password: params.password }),
            Err(e) => Err(e),
        }
    }

    /// The answer to a token verification: the identity, or the auth
    /// service's error unchanged.
    pub fn verify_auth_token(&self, outcome: Result<VerifyTokenResp, Error>) -> (r: Result<
        VerifyAuthTokenResp,
        Error,
    >)
        ensures
            match outcome {
                Ok(resp) => r matches Ok(a) && a.id == resp.id,
                Err(e) => r == Err::<VerifyAuthTokenResp, Error>(e),
            },
    {
        match outcome {
            Ok(resp) => Ok(VerifyAuthTokenResp { id: resp.id }),
            Err(e) => Err(e),
        }
    }
}

} // verus!
