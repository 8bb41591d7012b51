use vstd::prelude::*;

use crate::routes::guard::{is_permission, permission, Check, RouteChecks};
use crate::domain::Deployment;
use crate::text::owned;

verus! {

/// A deployment as the API returns it.
pub struct DeploymentResponse {
    pub id: i64,
    pub application_id: i64,
    pub status: String,
    pub commit_sha: Option<String>,
    pub image_tag: Option<String>,
    pub error_message: Option<String>,
}

impl DeploymentResponse {
    pub fn from_deployment(d: Deployment) -> (r: DeploymentResponse)
        ensures
            r.id == d.id,
            r.application_id == d.application_id,
            r.status@ == d.status.name(),
            r.commit_sha == d.commit_sha,
            r.image_tag == d.image_tag,
            r.error_message == d.error_message,
    {
        let status = owned(d.status.as_str());
        DeploymentResponse {
            id: d.id,
            application_id: d.application_id,
            status,
            commit_sha: d.commit_sha,
            image_tag: d.image_tag,
            error_message: d.error_message,
        }
    }
}

/// What `rollback_deployment` checks before it acts, in order: the caller may
/// create deployments in the team, the project is the team's, the application
/// is the project's, and the deployment is the application's.
pub fn checks(team_id: i64, project_id: i64, application_id: i64, deployment_id: i64) -> (r: RouteChecks)
    ensures
        r.wf(),
        r.passed() == 0,
        r.checks().len() == 4,
        is_permission(r.checks()[0], "create"@, "deployment"@),
        r.checks()[1] == (Check::Project { id: project_id, team: team_id }),
        r.checks()[2] == (Check::Application { id: application_id, project: Some(project_id) }),
        r.checks()[3] == (Check::Deployment { id: deployment_id, application: Some(application_id) }),
{
    let mut v: Vec<Check> = Vec::new();
    v.push(permission("create", "deployment"));
    v.push(Check::Project { id: project_id, team: team_id });
    v.push(Check::Application { id: application_id, project: Some(project_id) });
    v.push(Check::Deployment { id: deployment_id, application: Some(application_id) });
    RouteChecks::new(v)
}

} // verus!
