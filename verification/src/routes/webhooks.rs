//! Provider-agnostic push-to-deploy webhook, authenticated by the
//! per-application secret handed out once at application creation.

use vstd::prelude::*;
use vstd::string::StringSliceAdditionalSpecFns;

use crate::error::ServerError;

verus! {

/// `POST /webhooks/deploy/{application_id}` query.
pub struct DeployQuery {
    pub secret: Option<String>,
}

/// Compares two secrets in time that depends only on their length, not on
/// where they first differ.
pub fn constant_time_eq(a: &str, b: &str) -> (r: bool)
    ensures
        r == (a@ == b@),
{
    let x = a.as_bytes();
    let y = b.as_bytes();
    proof {
        vstd::utf8::encode_utf8_decode_utf8(a@);
        vstd::utf8::encode_utf8_decode_utf8(b@);
    }
    if x.len() != y.len() {
        return false;
    }
    let mut diff: u8 = 0;
    let mut i: usize = 0;
    while i < x.len()
        invariant
            x@.len() == y@.len(),
            i <= x@.len(),
            diff == 0 <==> forall|j: int| 0 <= j < i ==> x@[j] == y@[j],
        decreases x.len() - i,
    {
        let p = x[i];
        let q = y[i];
        assert((diff | (p ^ q)) == 0u8 <==> (diff == 0u8 && p == q)) by (bit_vector);
        diff = diff | (p ^ q);
        i = i + 1;
    }
    if diff == 0 {
        assert(x@ =~= y@);
        true
    } else {
        false
    }
}

/// The secret the caller provided: the `X-Webhook-Secret` header when
/// present, otherwise the `?secret=` query parameter.
pub open spec fn provided_secret(header: Option<String>, query: Option<String>) -> Option<String> {
    match header {
        Some(h) => Some(h),
        None => query,
    }
}

/// Whether a webhook call may trigger a deploy. Unauthenticated requests
/// never reach the build pipeline: no usable secret on the application (none
/// configured, or it cannot be decrypted), no secret provided, or a wrong one
/// are all answered `Forbidden`.
pub fn authorize_webhook(expected: Option<String>, header: Option<String>, query: Option<String>) -> (r: Result<(), ServerError>)
    ensures
        r is Ok <==> (expected matches Some(e) && provided_secret(header, query) matches Some(p) && p@ == e@),
        r is Err ==> r == Err::<(), ServerError>(ServerError::Forbidden),
{
    let expected = match expected {
        Some(e) => e,
        None => return Err(ServerError::Forbidden),
    };
    let provided = match header {
        Some(h) => h,
        None => match query {
            Some(q) => q,
            None => return Err(ServerError::Forbidden),
        },
    };
    if !constant_time_eq(provided.as_str(), expected.as_str()) {
        return Err(ServerError::Forbidden);
    }
    Ok(())
}

} // verus!
