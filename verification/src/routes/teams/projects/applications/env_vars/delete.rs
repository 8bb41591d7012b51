use vstd::prelude::*;

use crate::routes::guard::{is_permission, permission, Check, RouteChecks};

verus! {

/// The id of the deleted env var.
pub struct DeleteEnvVarResponse {
    pub id: i64,
}

/// What `delete_env_var` checks before it acts, in order: the caller may delete
/// env vars in the team and the env var is the application's.
pub fn checks(team_id: i64, application_id: i64, env_var_id: i64) -> (r: RouteChecks)
    ensures
        r.wf(),
        r.passed() == 0,
        r.checks().len() == 2,
        is_permission(r.checks()[0], "delete"@, "env_var"@),
        r.checks()[1] == (Check::EnvVar { id: env_var_id, application: application_id }),
{
    let mut v: Vec<Check> = Vec::new();
    v.push(permission("delete", "env_var"));
    v.push(Check::EnvVar { id: env_var_id, application: application_id });
    RouteChecks::new(v)
}

} // verus!
