use vstd::prelude::*;

use crate::routes::guard::{is_permission, permission, Check, RouteChecks};

verus! {

/// The id of the deleted application.
pub struct DeleteApplicationResponse {
    pub id: i64,
}

/// What `delete_application` checks before it acts, in order: the caller may
/// delete applications in the team and the application is the project's.
pub fn checks(team_id: i64, project_id: i64, application_id: i64) -> (r: RouteChecks)
    ensures
        r.wf(),
        r.passed() == 0,
        r.checks().len() == 2,
        is_permission(r.checks()[0], "delete"@, "application"@),
        r.checks()[1] == (Check::Application { id: application_id, project: Some(project_id) }),
{
    let mut v: Vec<Check> = Vec::new();
    v.push(permission("delete", "application"));
    v.push(Check::Application { id: application_id, project: Some(project_id) });
    RouteChecks::new(v)
}

} // verus!
