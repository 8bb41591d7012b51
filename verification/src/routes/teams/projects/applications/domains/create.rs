use vstd::prelude::*;

use crate::routes::guard::{is_permission, permission, Check, RouteChecks};
use crate::domain::CustomDomain;

verus! {

/// `POST .../domains` body.
pub struct CreateDomainRequest {
    pub hostname: String,
}

/// A custom domain as the API returns it.
pub struct DomainResponse {
    pub id: i64,
    pub application_id: i64,
    pub hostname: String,
}

impl DomainResponse {
    pub fn from_domain(d: CustomDomain) -> (r: DomainResponse)
        ensures
            r.id == d.id,
            r.application_id == d.application_id,
            r.hostname == d.hostname,
    {
        DomainResponse { id: d.id, application_id: d.application_id, hostname: d.hostname }
    }
}

/// What `create_domain` checks before it acts, in order: the caller may create
/// domains in the team, the project is the team's, and the application is the
/// project's.
pub fn checks(team_id: i64, project_id: i64, application_id: i64) -> (r: RouteChecks)
    ensures
        r.wf(),
        r.passed() == 0,
        r.checks().len() == 3,
        is_permission(r.checks()[0], "create"@, "domain"@),
        r.checks()[1] == (Check::Project { id: project_id, team: team_id }),
        r.checks()[2] == (Check::Application { id: application_id, project: Some(project_id) }),
{
    let mut v: Vec<Check> = Vec::new();
    v.push(permission("create", "domain"));
    v.push(Check::Project { id: project_id, team: team_id });
    v.push(Check::Application { id: application_id, project: Some(project_id) });
    RouteChecks::new(v)
}

} // verus!
