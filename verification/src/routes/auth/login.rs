use vstd::prelude::*;

use crate::error::{DomainError, ServerError};
use crate::text::owned;

verus! {

/// `POST /auth/login` body.
pub struct LoginRequest {
    pub email: String,
    pub password: String,
}

/// `POST /auth/login` answer: the bearer token.
pub struct LoginResponse {
    pub token: String,
}

/// How an unknown email is answered (after a dummy hash verification, so
/// the timing does not reveal whether the account exists).
pub fn unknown_user() -> (e: ServerError)
    ensures
        e == ServerError::InvalidCredentials,
{
    ServerError::InvalidCredentials
}

/// How the password check of a known user is answered: a match proceeds, a
/// mismatch is refused exactly like an unknown email (so the endpoint does
/// not reveal which emails have accounts), and a hasher failure propagates.
pub fn password_outcome(verdict: Result<bool, DomainError>) -> (r: Result<(), ServerError>)
    ensures
        match verdict {
            Ok(true) => r is Ok,
            Ok(false) => r == Err::<(), ServerError>(ServerError::InvalidCredentials),
            Err(e) => r == Err::<(), ServerError>(ServerError::Domain(e)),
        },
{
    match verdict {
        Ok(valid) => if valid {
            Ok(())
        } else {
            Err(ServerError::InvalidCredentials)
        },
        Err(e) => Err(ServerError::Domain(e)),
    }
}

/// The answer once a token was (or failed to be) issued.
pub fn token_outcome(issued: Result<String, ()>) -> (r: Result<LoginResponse, ServerError>)
    ensures
        match issued {
            Ok(t) => r matches Ok(resp) && resp.token == t,
            Err(_) => r matches Err(ServerError::Internal),
        },
{
    match issued {
        Ok(token) => Ok(LoginResponse { token }),
        Err(_) => Err(ServerError::Internal),
    }
}

/// The session cookie set on a successful login.
pub struct SessionCookie {
    pub name: String,
    pub value: String,
    pub http_only: bool,
    pub secure: bool,
    /// `SameSite=Strict`.
    pub same_site_strict: bool,
    pub max_age_hours: i64,
    pub path: String,
}

/// The cookie carrying `token`: `session`, HTTP-only, secure, same-site
/// strict, valid for 24 hours on every path.
pub fn session_cookie(token: String) -> (c: SessionCookie)
    ensures
        c.name@ == "session"@,
        c.value == token,
        c.http_only,
        c.secure,
        c.same_site_strict,
        c.max_age_hours == 24,
        c.path@ == "/"@,
{
    SessionCookie {
        name: owned("session"),
        value: token,
        http_only: true,
        secure: true,
        same_site_strict: true,
        max_age_hours: 24,
        path: owned("/"),
    }
}

} // verus!
