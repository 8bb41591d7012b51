use vstd::prelude::*;

use crate::routes::guard::{is_permission, permission, RouteChecks};
use crate::domain::Project;

verus! {

/// `POST /teams/{team_id}/projects` body.
pub struct CreateProjectRequest {
    pub name: String,
    pub slug: String,
}

/// A project as the API returns it.
pub struct ProjectResponse {
    pub id: i64,
    pub team_id: i64,
    pub name: String,
    pub slug: String,
}

impl ProjectResponse {
    pub fn from_project(project: Project) -> (r: ProjectResponse)
        ensures
            r.id == project.id,
            r.team_id == project.team_id,
            r.name == project.name,
            r.slug == project.slug,
    {
        ProjectResponse { id: project.id, team_id: project.team_id, name: project.name, slug: project.slug }
    }
}

/// What `create_project` checks before it acts, in order: the caller may create
/// projects in the team.
pub fn checks(team_id: i64) -> (r: RouteChecks)
    ensures
        r.wf(),
        r.passed() == 0,
        r.checks().len() == 1,
        is_permission(r.checks()[0], "create"@, "project"@),
{
    let mut v = Vec::new();
    v.push(permission("create", "project"));
    RouteChecks::new(v)
}

} // verus!
