use vstd::prelude::*;

use crate::routes::guard::{is_permission, permission, Check, RouteChecks};
use crate::domain::Deployment;
use crate::error::ServerError;
use crate::text::owned;

verus! {

/// A deployment as the API returns it.
pub struct DeploymentResponse {
    pub id: i64,
    pub application_id: i64,
    pub status: String,
    pub commit_sha: Option<String>,
    pub image_tag: Option<String>,
    pub error_message: Option<String>,
}

impl DeploymentResponse {
    pub fn from_deployment(d: Deployment) -> (r: DeploymentResponse)
        ensures
            r.id == d.id,
            r.application_id == d.application_id,
            r.status@ == d.status.name(),
            r.commit_sha == d.commit_sha,
            r.image_tag == d.image_tag,
            r.error_message == d.error_message,
    {
        let status = owned(d.status.as_str());
        DeploymentResponse {
            id: d.id,
            application_id: d.application_id,
            status,
            commit_sha: d.commit_sha,
            image_tag: d.image_tag,
            error_message: d.error_message,
        }
    }
}

/// Index of the first deployment of `history` with a built image.
pub open spec fn first_with_image(history: Seq<Deployment>, i: nat) -> Option<nat>
    decreases history.len() - i,
{
    if i >= history.len() {
        None
    } else if history[i as int].image_tag is Some {
        Some(i)
    } else {
        first_with_image(history, i + 1)
    }
}

/// A restart redeploys the newest deployment that produced an image,
/// whatever its status (a stopped application is brought back up from its
/// last build); only a history without any built image has nothing to
/// restart.
pub proof fn lemma_restart_target_is_newest_built(history: Seq<Deployment>)
    ensures
        first_with_image(history, 0) matches Some(i) ==> {
            &&& i < history.len()
            &&& history[i as int].image_tag is Some
            &&& forall|j: int| 0 <= j < i ==> history[j].image_tag is None
        },
        first_with_image(history, 0) is None <==> forall|j: int| 0 <= j < history.len() ==> history[j].image_tag is None,
{
    lemma_first_with_image_from(history, 0);
}

proof fn lemma_first_with_image_from(history: Seq<Deployment>, i: nat)
    ensures
        first_with_image(history, i) matches Some(k) ==> {
            &&& i <= k < history.len()
            &&& history[k as int].image_tag is Some
            &&& forall|j: int| i <= j < k ==> history[j].image_tag is None
        },
        first_with_image(history, i) is None <==> forall|j: int| i <= j < history.len() ==> history[j].image_tag is None,
    decreases history.len() - i,
{
    if i < history.len() {
        lemma_first_with_image_from(history, i + 1);
    }
}

/// The deployment a restart redeploys: the most recent one (history is
/// newest first) that produced an image, whatever its status. Without one
/// there is nothing to restart and a full deploy is needed instead.
pub fn restart_target(history: &Vec<Deployment>) -> (r: Result<usize, ServerError>)
    ensures
        match first_with_image(history@, 0) {
            Some(i) => r == Ok::<usize, ServerError>(i as usize) && i < history.len(),
            None => r matches Err(ServerError::Validation(m))
                && m@ == "no previous successful build to restart from, trigger a deploy instead"@,
        },
        r matches Ok(i) ==> {
            &&& i < history.len()
            &&& history@[i as int].image_tag is Some
            &&& forall|j: int| 0 <= j < i ==> history@[j].image_tag is None
        },
        r is Err <==> forall|j: int| 0 <= j < history.len() ==> history@[j].image_tag is None,
{
    proof {
        lemma_restart_target_is_newest_built(history@);
    }
    let mut i: usize = 0;
    while i < history.len()
        invariant
            i <= history.len(),
            first_with_image(history@, 0) == first_with_image(history@, i as nat),
        decreases history.len() - i,
    {
        if history[i].image_tag.is_some() {
            assert(first_with_image(history@, i as nat) == Some(i as nat));
            proof {
                lemma_restart_target_is_newest_built(history@);
            }
            return Ok(i);
        }
        i = i + 1;
    }
    Err(ServerError::Validation(owned("no previous successful build to restart from, trigger a deploy instead")))
}

/// What `restart_application` checks before it acts, in order: the caller may
/// create deployments in the team, the project is the team's, and the
/// application is the project's.
pub fn checks(team_id: i64, project_id: i64, application_id: i64) -> (r: RouteChecks)
    ensures
        r.wf(),
        r.passed() == 0,
        r.checks().len() == 3,
        is_permission(r.checks()[0], "create"@, "deployment"@),
        r.checks()[1] == (Check::Project { id: project_id, team: team_id }),
        r.checks()[2] == (Check::Application { id: application_id, project: Some(project_id) }),
{
    let mut v: Vec<Check> = Vec::new();
    v.push(permission("create", "deployment"));
    v.push(Check::Project { id: project_id, team: team_id });
    v.push(Check::Application { id: application_id, project: Some(project_id) });
    RouteChecks::new(v)
}

} // verus!
