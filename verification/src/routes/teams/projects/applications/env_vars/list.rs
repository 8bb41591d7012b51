use vstd::prelude::*;

use crate::routes::guard::{is_permission, permission, RouteChecks};
use crate::domain::EnvVar;

verus! {

/// One env var as `GET .../env-vars` lists it: the key only, values are
/// redacted on read.
pub struct EnvVarResponse {
    pub id: i64,
    pub application_id: i64,
    pub key: String,
}

impl EnvVarResponse {
    pub fn from_env_var(e: EnvVar) -> (r: EnvVarResponse)
        ensures
            r.id == e.id,
            r.application_id == e.application_id,
            r.key == e.key,
    {
        EnvVarResponse { id: e.id, application_id: e.application_id, key: e.key }
    }
}

/// What `list_env_vars` checks before it acts, in order: the caller may read
/// env vars in the team.
pub fn checks(team_id: i64) -> (r: RouteChecks)
    ensures
        r.wf(),
        r.passed() == 0,
        r.checks().len() == 1,
        is_permission(r.checks()[0], "read"@, "env_var"@),
{
    let mut v = Vec::new();
    v.push(permission("read", "env_var"));
    RouteChecks::new(v)
}

} // verus!
