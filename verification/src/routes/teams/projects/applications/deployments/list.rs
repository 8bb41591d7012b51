use vstd::prelude::*;

use crate::routes::guard::{is_permission, permission, RouteChecks};
use crate::domain::Deployment;
use crate::text::owned;

verus! {

/// A deployment as the API returns it.
pub struct DeploymentResponse {
    pub id: i64,
    pub application_id: i64,
    pub status: String,
    pub commit_sha: Option<String>,
    pub image_tag: Option<String>,
    pub error_message: Option<String>,
}

impl DeploymentResponse {
    pub fn from_deployment(d: Deployment) -> (r: DeploymentResponse)
        ensures
            r.id == d.id,
            r.application_id == d.application_id,
            r.status@ == d.status.name(),
            r.commit_sha == d.commit_sha,
            r.image_tag == d.image_tag,
            r.error_message == d.error_message,
    {
        let status = owned(d.status.as_str());
        DeploymentResponse {
            id: d.id,
            application_id: d.application_id,
            status,
            commit_sha: d.commit_sha,
            image_tag: d.image_tag,
            error_message: d.error_message,
        }
    }
}

/// What `list_deployments` checks before it acts, in order: the caller may read
/// deployments in the team.
pub fn checks(team_id: i64) -> (r: RouteChecks)
    ensures
        r.wf(),
        r.passed() == 0,
        r.checks().len() == 1,
        is_permission(r.checks()[0], "read"@, "deployment"@),
{
    let mut v = Vec::new();
    v.push(permission("read", "deployment"));
    RouteChecks::new(v)
}

} // verus!
