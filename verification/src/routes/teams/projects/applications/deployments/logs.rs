use vstd::prelude::*;

use crate::routes::guard::{is_permission, permission, Check, RouteChecks};
use crate::domain::{clone_opt, Deployment};
use crate::error::ServerError;
use crate::text::{owned, push_str};

verus! {

/// `GET .../deployments/{id}/logs` query: `None` returns every buffered
/// line, `Some(n)` the last `n`.
pub struct LogsParams {
    pub tail: Option<u32>,
}

/// The container whose logs to fetch; a deployment that has no container
/// yet (still queued or building) has no logs, answered as an empty list
/// rather than an error.
pub fn logs_container(deployment: &Deployment) -> (r: Option<String>)
    ensures
        r == deployment.container_id,
{
    clone_opt(&deployment.container_id)
}

/// How a failure to reach the deployment's server is answered.
pub fn connect_failure(e: &String) -> (r: ServerError)
    ensures
        r matches ServerError::Validation(m) && m@ == "failed to connect to server: "@ + e@,
{
    let mut m = owned("failed to connect to server: ");
    push_str(&mut m, e.as_str());
    ServerError::Validation(m)
}

/// What `get_deployment_logs` checks first, in order: the caller may read
/// deployments in the team, and the deployment is the application's. A
/// deployment without a container is then answered with no lines (see
/// `logs_container`) and nothing more is checked.
pub fn checks(team_id: i64, application_id: i64, deployment_id: i64) -> (r: RouteChecks)
    ensures
        r.wf(),
        r.passed() == 0,
        r.checks().len() == 2,
        is_permission(r.checks()[0], "read"@, "deployment"@),
        r.checks()[1] == (Check::Deployment { id: deployment_id, application: Some(application_id) }),
{
    let mut v: Vec<Check> = Vec::new();
    v.push(permission("read", "deployment"));
    v.push(Check::Deployment { id: deployment_id, application: Some(application_id) });
    RouteChecks::new(v)
}

/// What `get_deployment_logs` checks next, for a deployment with a
/// container, to find where its logs are: the application exists, and so
/// does the server it targets.
pub fn source_checks(application_id: i64) -> (r: RouteChecks)
    ensures
        r.wf(),
        r.passed() == 0,
        r.checks().len() == 2,
        r.checks()[0] == (Check::Application { id: application_id, project: None }),
        r.checks()[1] == Check::ApplicationServer,
{
    let mut v: Vec<Check> = Vec::new();
    v.push(Check::Application { id: application_id, project: None });
    v.push(Check::ApplicationServer);
    RouteChecks::new(v)
}

} // verus!
