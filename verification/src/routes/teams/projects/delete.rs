use vstd::prelude::*;

use crate::routes::guard::{is_permission, permission, Check, RouteChecks};

verus! {

/// The id of the deleted project.
pub struct DeleteProjectResponse {
    pub id: i64,
}

/// What `delete_project` checks before it acts, in order: the caller may delete
/// projects in the team and the project is the team's.
pub fn checks(team_id: i64, project_id: i64) -> (r: RouteChecks)
    ensures
        r.wf(),
        r.passed() == 0,
        r.checks().len() == 2,
        is_permission(r.checks()[0], "delete"@, "project"@),
        r.checks()[1] == (Check::Project { id: project_id, team: team_id }),
{
    let mut v: Vec<Check> = Vec::new();
    v.push(permission("delete", "project"));
    v.push(Check::Project { id: project_id, team: team_id });
    RouteChecks::new(v)
}

} // verus!
