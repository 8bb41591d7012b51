use podkit_server::auth::{authenticate, bearer_token, permission_outcome, require_permission, AuthUser, Authorizer, Claims};
use podkit_server::error::{DomainError, ServerError};

struct FakeAuthorizer(Result<bool, ()>);

impl Authorizer for FakeAuthorizer {
    fn can(&self, _: i64, _: i64, _: &str, _: &str) -> Result<bool, DomainError> {
        self.0.map_err(|()| DomainError::Infrastructure("boom".to_string()))
    }
}

#[test]
fn allowed_returns_ok() {
    let authorizer = FakeAuthorizer(Ok(true));
    assert!(require_permission(&authorizer, 1, 1, "read", "team").is_ok());
}

#[test]
fn denied_returns_forbidden() {
    let authorizer = FakeAuthorizer(Ok(false));
    let err = require_permission(&authorizer, 1, 1, "read", "team").unwrap_err();
    assert!(matches!(err, ServerError::Forbidden));
}

#[test]
fn repository_error_propagates() {
    let authorizer = FakeAuthorizer(Err(()));
    let err = require_permission(&authorizer, 1, 1, "read", "team").unwrap_err();
    assert!(matches!(err, ServerError::Domain(_)));
}

#[test]
fn permission_outcome_carries_the_authorizer_failure() {
    let err = permission_outcome(Err(DomainError::Infrastructure("db down".to_string()))).unwrap_err();
    assert_eq!(err, ServerError::Domain(DomainError::Infrastructure("db down".to_string())));
    assert_eq!(err.status_code(), 500);
    assert_eq!(permission_outcome(Ok(false)).unwrap_err().status_code(), 403);
}

#[test]
fn missing_bearer_token_is_a_bad_request() {
    let err = bearer_token(None).unwrap_err();
    assert_eq!(err, ServerError::MissingToken);
    assert_eq!(err.status_code(), 400);
    assert_eq!(bearer_token(Some("abc".to_string())).unwrap(), "abc");
}

#[test]
fn unverifiable_token_is_unauthorized() {
    let err = authenticate(Err(())).unwrap_err();
    assert_eq!(err, ServerError::InvalidToken);
    assert_eq!(err.status_code(), 401);
    assert_eq!(authenticate(Ok(Claims { sub: 7 })).unwrap(), AuthUser(Claims { sub: 7 }));
}
