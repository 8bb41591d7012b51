use vstd::prelude::*;

use crate::routes::guard::{is_permission, permission, Check, RouteChecks};
use crate::domain::EnvVar;

verus! {

/// `POST .../env-vars` body: create or update the variable named `key`.
pub struct UpsertEnvVarRequest {
    pub key: String,
    pub value: String,
}

/// An env var as the API returns it: never its value.
pub struct EnvVarResponse {
    pub id: i64,
    pub application_id: i64,
    pub key: String,
}

impl EnvVarResponse {
    pub fn from_env_var(e: EnvVar) -> (r: EnvVarResponse)
        ensures
            r.id == e.id,
            r.application_id == e.application_id,
            r.key == e.key,
    {
        EnvVarResponse { id: e.id, application_id: e.application_id, key: e.key }
    }
}

/// What `upsert_env_var` checks before it acts, in order: the caller may create
/// env vars in the team, the project is the team's, and the application is the
/// project's.
pub fn checks(team_id: i64, project_id: i64, application_id: i64) -> (r: RouteChecks)
    ensures
        r.wf(),
        r.passed() == 0,
        r.checks().len() == 3,
        is_permission(r.checks()[0], "create"@, "env_var"@),
        r.checks()[1] == (Check::Project { id: project_id, team: team_id }),
        r.checks()[2] == (Check::Application { id: application_id, project: Some(project_id) }),
{
    let mut v: Vec<Check> = Vec::new();
    v.push(permission("create", "env_var"));
    v.push(Check::Project { id: project_id, team: team_id });
    v.push(Check::Application { id: application_id, project: Some(project_id) });
    RouteChecks::new(v)
}

} // verus!
