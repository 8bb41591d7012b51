use vstd::prelude::*;

use crate::error::{DomainError, ServerError};

verus! {

/// `POST /auth/register` body.
pub struct RegisterRequest {
    pub name: String,
    pub email: String,
    pub password: String,
}

/// An email that already has an account cannot register again.
pub fn email_available(lookup: Result<bool, DomainError>) -> (r: Result<(), ServerError>)
    ensures
        match lookup {
            Ok(true) => r == Err::<(), ServerError>(ServerError::EmailTaken),
            Ok(false) => r is Ok,
            Err(e) => r == Err::<(), ServerError>(ServerError::Domain(e)),
        },
{
    match lookup {
        Ok(taken) => if taken {
            Err(ServerError::EmailTaken)
        } else {
            Ok(())
        },
        Err(e) => Err(ServerError::Domain(e)),
    }
}

} // verus!
