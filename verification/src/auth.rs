//! Who is calling, and whether they may do what they ask.

use vstd::prelude::*;

use crate::error::{DomainError, ServerError};

verus! {

/// The verified contents of a bearer token.
#[derive(Debug, Clone, Copy, PartialEq, Eq)]
pub struct Claims {
    /// The authenticated user's id.
    pub sub: i64,
}

/// The authenticated caller of a route.
#[derive(Debug, Clone, Copy, PartialEq, Eq)]
pub struct AuthUser(pub Claims);

/// A request without a usable `Authorization: Bearer` header is refused as
/// missing its token.
pub fn bearer_token(token: Option<String>) -> (r: Result<String, ServerError>)
    ensures
        match token {
            Some(t) => r == Ok::<String, ServerError>(t),
            None => r == Err::<String, ServerError>(ServerError::MissingToken),
        },
{
    match token {
        Some(t) => Ok(t),
        None => Err(ServerError::MissingToken),
    }
}

/// A token whose verification failed is refused as invalid; otherwise its
/// claims identify the caller.
pub fn authenticate(verified: Result<Claims, ()>) -> (r: Result<AuthUser, ServerError>)
    ensures
        match verified {
            Ok(c) => r == Ok::<AuthUser, ServerError>(AuthUser(c)),
            Err(_) => r == Err::<AuthUser, ServerError>(ServerError::InvalidToken),
        },
{
    match verified {
        Ok(c) => Ok(AuthUser(c)),
        Err(_) => Err(ServerError::InvalidToken),
    }
}

/// Decides whether `user_id` may perform `action` on `resource` within a team.
pub trait Authorizer {
    /// Whether `answer` is an answer this authorizer may give when asked about
    /// these arguments (an authorizer backed by storage may answer differently
    /// over time, so this is a relation, not a function). An implementation
    /// that does not describe its answers leaves every answer possible.
    open spec fn decides(&self, user_id: i64, team_id: i64, action: Seq<char>, resource: Seq<char>, answer: Result<bool, DomainError>) -> bool {
        true
    }

    fn can(&self, user_id: i64, team_id: i64, action: &str, resource: &str) -> (r: Result<bool, DomainError>)
        ensures
            self.decides(user_id, team_id, action@, resource@, r),
    ;
}

/// What a permission check answers for an authorizer decision.
pub open spec fn permission_result(verdict: Result<bool, DomainError>) -> Result<(), ServerError> {
    match verdict {
        Ok(true) => Ok(()),
        Ok(false) => Err(ServerError::Forbidden),
        Err(e) => Err(ServerError::Domain(e)),
    }
}

/// Turns an authorizer decision into the request's fate: allowed passes,
/// denied is `Forbidden`, and an authorizer failure propagates.
pub fn permission_outcome(verdict: Result<bool, DomainError>) -> (r: Result<(), ServerError>)
    ensures
        r == permission_result(verdict),
{
    match verdict {
        Ok(allowed) => if allowed {
            Ok(())
        } else {
            Err(ServerError::Forbidden)
        },
        Err(e) => Err(ServerError::Domain(e)),
    }
}

/// Asks `authorizer` whether `user_id` may perform `action` on `resource`
/// in team `team_id`, and answers as `permission_outcome` does.
pub fn require_permission<A: Authorizer>(
    authorizer: &A,
    user_id: i64,
    team_id: i64,
    action: &str,
    resource: &str,
) -> (r: Result<(), ServerError>)
    ensures
        exists|v: Result<bool, DomainError>|
            #[trigger] authorizer.decides(user_id, team_id, action@, resource@, v) && r == permission_result(v),
{
    let verdict = authorizer.can(user_id, team_id, action, resource);
    let r = permission_outcome(verdict);
    assert(authorizer.decides(user_id, team_id, action@, resource@, verdict));
    r
}

} // verus!
