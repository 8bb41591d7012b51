use vstd::prelude::*;

use crate::routes::guard::{is_permission, permission, Check, RouteChecks};
use crate::domain::{clone_opt, Deployment, DeploymentStatus};
use crate::error::{DomainError, ServerError};
use crate::text::owned;

verus! {

/// A deployment as the API returns it.
pub struct DeploymentResponse {
    pub id: i64,
    pub application_id: i64,
    pub status: String,
    pub commit_sha: Option<String>,
    pub image_tag: Option<String>,
    pub error_message: Option<String>,
}

impl DeploymentResponse {
    pub fn from_deployment(d: Deployment) -> (r: DeploymentResponse)
        ensures
            r.id == d.id,
            r.application_id == d.application_id,
            r.status@ == d.status.name(),
            r.commit_sha == d.commit_sha,
            r.image_tag == d.image_tag,
            r.error_message == d.error_message,
    {
        let status = owned(d.status.as_str());
        DeploymentResponse {
            id: d.id,
            application_id: d.application_id,
            status,
            commit_sha: d.commit_sha,
            image_tag: d.image_tag,
            error_message: d.error_message,
        }
    }
}

/// Index of the first `Running` deployment of `history`.
pub open spec fn first_running(history: Seq<Deployment>, i: nat) -> Option<nat>
    decreases history.len() - i,
{
    if i >= history.len() {
        None
    } else if history[i as int].status == DeploymentStatus::Running {
        Some(i)
    } else {
        first_running(history, i + 1)
    }
}

/// Stopping takes the newest deployment that is `Running`; a history with
/// no running deployment has nothing to stop.
pub proof fn lemma_stop_targets_newest_running(history: Seq<Deployment>)
    ensures
        first_running(history, 0) matches Some(i) ==> {
            &&& i < history.len()
            &&& history[i as int].status == DeploymentStatus::Running
            &&& forall|j: int| 0 <= j < i ==> history[j].status != DeploymentStatus::Running
        },
        first_running(history, 0) is None <==> forall|j: int|
            0 <= j < history.len() ==> history[j].status != DeploymentStatus::Running,
{
    lemma_first_running_from(history, 0);
}

proof fn lemma_first_running_from(history: Seq<Deployment>, i: nat)
    ensures
        first_running(history, i) matches Some(k) ==> {
            &&& i <= k < history.len()
            &&& history[k as int].status == DeploymentStatus::Running
            &&& forall|j: int| i <= j < k ==> history[j].status != DeploymentStatus::Running
        },
        first_running(history, i) is None <==> forall|j: int|
            i <= j < history.len() ==> history[j].status != DeploymentStatus::Running,
    decreases history.len() - i,
{
    if i < history.len() {
        lemma_first_running_from(history, i + 1);
    }
}

/// What stopping an application does first: the application's running
/// deployment (newest first), marked `Stopped`, to persist before its
/// container is touched (the restart monitor only heals deployments still
/// marked `Running`, so flipping the status first keeps it from undoing the
/// stop), and the container to stop and remove afterwards.
pub fn stop_plan(history: &Vec<Deployment>) -> (r: Result<(Deployment, String), ServerError>)
    ensures
        match first_running(history@, 0) {
            None => r matches Err(ServerError::Validation(m)) && m@ == "application is not currently running"@,
            Some(i) => match history@[i as int].container_id {
                None => r matches Err(ServerError::Validation(m))
                    && m@ == "running deployment has no container recorded"@,
                Some(c) => r matches Ok((d, container)) && {
                    &&& container == c
                    &&& d.status == DeploymentStatus::Stopped
                    &&& d.same_but_status(history@[i as int])
                },
            },
        },
        r matches Ok((d, c)) ==> exists|i: int| {
            &&& 0 <= i < history.len()
            &&& #[trigger] history@[i].status == DeploymentStatus::Running
            &&& d.same_but_status(history@[i])
            &&& history@[i].container_id == Some(c)
        },
        (forall|j: int| 0 <= j < history.len() ==> history@[j].status != DeploymentStatus::Running) ==> (
        r matches Err(ServerError::Validation(m)) && m@ == "application is not currently running"@),
{
    proof {
        lemma_stop_targets_newest_running(history@);
    }
    let mut i: usize = 0;
    while i < history.len()
        invariant
            i <= history.len(),
            first_running(history@, 0) == first_running(history@, i as nat),
        decreases history.len() - i,
    {
        if history[i].status == DeploymentStatus::Running {
            let mut current = history[i].duplicate();
            let container = match clone_opt(&current.container_id) {
                Some(c) => c,
                None => {
                    return Err(ServerError::Validation(owned("running deployment has no container recorded")));
                },
            };
            let _ = current.transition(DeploymentStatus::Stopped);
            return Ok((current, container));
        }
        i = i + 1;
    }
    Err(ServerError::Validation(owned("application is not currently running")))
}

/// The next step of stopping an application.
pub enum StopAction {
    /// Persist the row, now marked `Stopped`.
    Persist(Deployment),
    /// Look up the application's server.
    LookupServer,
    /// Connect to the server's container runtime.
    Connect,
    /// Gracefully stop this container.
    StopContainer(String),
    /// Force-remove this container.
    RemoveContainer(String),
    /// Answer the request.
    Respond(Result<Deployment, ServerError>),
}

/// The outcome of the last step.
pub enum StopEvent {
    /// The step succeeded.
    Done,
    /// The server no longer exists.
    ServerMissing,
    /// Storage failed; the request fails with this error.
    StoreFailed(DomainError),
    /// A container-side step failed (logged; the stop still counts).
    Failed,
}

pub enum StopStage {
    Persisting,
    LookingUpServer,
    Connecting,
    Stopping,
    Removing,
    Answered,
}

/// Stopping one application: the row is persisted `Stopped` first, and only
/// then is the container stopped and removed, best-effort. The restart
/// monitor only heals rows still marked `Running`, so this order keeps it
/// from undoing the stop.
pub struct StopSequence {
    pub row: Deployment,
    pub container: String,
    pub stage: StopStage,
}

impl StopSequence {
    /// Starts from a planned stop (see `stop_plan`): persist the row first.
    pub fn start(row: Deployment, container: String) -> (r: (StopSequence, StopAction))
        ensures
            r.0.row == row,
            r.0.container == container,
            r.0.stage is Persisting,
            r.1 matches StopAction::Persist(d) && d == row,
    {
        let d = row.duplicate();
        (StopSequence { row, container, stage: StopStage::Persisting }, StopAction::Persist(d))
    }

    /// Feeds back the outcome of the last step and returns the next one.
    pub fn step(&mut self, event: StopEvent) -> (a: StopAction)
        requires
            old(self).stage is Persisting || old(self).stage is LookingUpServer ==> (event is Done
                || event is StoreFailed || (old(self).stage is LookingUpServer && event is ServerMissing)),
        ensures
            final(self).row == old(self).row,
            final(self).container == old(self).container,
            // The container is only touched once the stopped row is stored.
            (a is StopContainer || a is RemoveContainer) ==> !(old(self).stage is Persisting),
            a matches StopAction::StopContainer(c) ==> c == old(self).container && old(self).stage is Connecting,
            a matches StopAction::RemoveContainer(c) ==> c == old(self).container && old(self).stage is Stopping,
            match old(self).stage {
                StopStage::Persisting => match event {
                    StopEvent::StoreFailed(e) => a matches StopAction::Respond(Err(ServerError::Domain(x)))
                        && x == e,
                    _ => a is LookupServer && final(self).stage is LookingUpServer,
                },
                StopStage::LookingUpServer => match event {
                    StopEvent::Done => a is Connect && final(self).stage is Connecting,
                    StopEvent::StoreFailed(e) => a matches StopAction::Respond(Err(ServerError::Domain(x)))
                        && x == e,
                    _ => a matches StopAction::Respond(Ok(d)) && d == old(self).row,
                },
                StopStage::Connecting => match event {
                    StopEvent::Done => a is StopContainer && final(self).stage is Stopping,
                    _ => a matches StopAction::Respond(Ok(d)) && d == old(self).row,
                },
                StopStage::Stopping => match event {
                    StopEvent::Done => a is RemoveContainer && final(self).stage is Removing,
                    _ => a matches StopAction::Respond(Ok(d)) && d == old(self).row,
                },
                _ => a matches StopAction::Respond(Ok(d)) && d == old(self).row,
            },
    {
        match self.stage {
            StopStage::Persisting => match event {
                StopEvent::StoreFailed(e) => {
                    self.stage = StopStage::Answered;
                    StopAction::Respond(Err(ServerError::Domain(e)))
                },
                _ => {
                    self.stage = StopStage::LookingUpServer;
                    StopAction::LookupServer
                },
            },
            StopStage::LookingUpServer => match event {
                StopEvent::Done => {
                    self.stage = StopStage::Connecting;
                    StopAction::Connect
                },
                StopEvent::StoreFailed(e) => {
                    self.stage = StopStage::Answered;
                    StopAction::Respond(Err(ServerError::Domain(e)))
                },
                _ => {
                    self.stage = StopStage::Answered;
                    StopAction::Respond(Ok(self.row.duplicate()))
                },
            },
            StopStage::Connecting => match event {
                StopEvent::Done => {
                    self.stage = StopStage::Stopping;
                    StopAction::StopContainer(self.container.clone())
                },
                _ => {
                    self.stage = StopStage::Answered;
                    StopAction::Respond(Ok(self.row.duplicate()))
                },
            },
            StopStage::Stopping => match event {
                StopEvent::Done => {
                    self.stage = StopStage::Removing;
                    StopAction::RemoveContainer(self.container.clone())
                },
                _ => {
                    self.stage = StopStage::Answered;
                    StopAction::Respond(Ok(self.row.duplicate()))
                },
            },
            _ => {
                self.stage = StopStage::Answered;
                StopAction::Respond(Ok(self.row.duplicate()))
            },
        }
    }
}

/// What `stop_application` checks before it acts, in order: the caller may
/// update deployments in the team, the project is the team's, and the
/// application is the project's.
pub fn checks(team_id: i64, project_id: i64, application_id: i64) -> (r: RouteChecks)
    ensures
        r.wf(),
        r.passed() == 0,
        r.checks().len() == 3,
        is_permission(r.checks()[0], "update"@, "deployment"@),
        r.checks()[1] == (Check::Project { id: project_id, team: team_id }),
        r.checks()[2] == (Check::Application { id: application_id, project: Some(project_id) }),
{
    let mut v: Vec<Check> = Vec::new();
    v.push(permission("update", "deployment"));
    v.push(Check::Project { id: project_id, team: team_id });
    v.push(Check::Application { id: application_id, project: Some(project_id) });
    RouteChecks::new(v)
}

} // verus!
