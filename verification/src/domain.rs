use vstd::prelude::*;

use crate::error::DomainError;

verus! {

/// Lifecycle of one deployment attempt.
///
/// The forward path is `Queued -> Building -> Deploying -> Running`; any
/// step before `Running` may end in `Failed`, and `Running -> Stopped` is
/// the one non-linear transition (a redeploy swapping it out, a manual
/// stop, or the restart monitor giving up).
#[derive(Debug, Clone, Copy, PartialEq, Eq, Structural)]
pub enum DeploymentStatus {
    Queued,
    Building,
    Deploying,
    Running,
    Failed,
    Stopped,
}

impl DeploymentStatus {
    /// Whether a deployment may move from `self` to `next`.
    pub open spec fn allows(self, next: DeploymentStatus) -> bool {
        match (self, next) {
            (DeploymentStatus::Queued, DeploymentStatus::Building) => true,
            (DeploymentStatus::Building, DeploymentStatus::Deploying) => true,
            (DeploymentStatus::Deploying, DeploymentStatus::Running) => true,
            (DeploymentStatus::Running, DeploymentStatus::Stopped) => true,
            (DeploymentStatus::Queued, DeploymentStatus::Failed) => true,
            (DeploymentStatus::Building, DeploymentStatus::Failed) => true,
            (DeploymentStatus::Deploying, DeploymentStatus::Failed) => true,
            _ => false,
        }
    }

    /// Statuses from which no transition leads anywhere.
    pub open spec fn is_terminal(self) -> bool {
        self == DeploymentStatus::Failed || self == DeploymentStatus::Stopped
    }

    /// Position along the lifecycle; every allowed transition increases it.
    pub open spec fn rank(self) -> int {
        match self {
            DeploymentStatus::Queued => 0,
            DeploymentStatus::Building => 1,
            DeploymentStatus::Deploying => 2,
            DeploymentStatus::Running => 3,
            DeploymentStatus::Failed => 4,
            DeploymentStatus::Stopped => 4,
        }
    }

    /// The wire name of the status.
    pub open spec fn name(self) -> Seq<char> {
        match self {
            DeploymentStatus::Queued => "queued"@,
            DeploymentStatus::Building => "building"@,
            DeploymentStatus::Deploying => "deploying"@,
            DeploymentStatus::Running => "running"@,
            DeploymentStatus::Failed => "failed"@,
            DeploymentStatus::Stopped => "stopped"@,
        }
    }

    pub fn can_transition_to(&self, next: DeploymentStatus) -> (r: bool)
        ensures
            r == self.allows(next),
    {
        match (*self, next) {
            (DeploymentStatus::Queued, DeploymentStatus::Building) => true,
            (DeploymentStatus::Building, DeploymentStatus::Deploying) => true,
            (DeploymentStatus::Deploying, DeploymentStatus::Running) => true,
            (DeploymentStatus::Running, DeploymentStatus::Stopped) => true,
            (DeploymentStatus::Queued, DeploymentStatus::Failed) => true,
            (DeploymentStatus::Building, DeploymentStatus::Failed) => true,
            (DeploymentStatus::Deploying, DeploymentStatus::Failed) => true,
            _ => false,
        }
    }

    pub fn as_str(&self) -> (s: &'static str)
        ensures
            s@ == self.name(),
    {
        match self {
            DeploymentStatus::Queued => "queued",
            DeploymentStatus::Building => "building",
            DeploymentStatus::Deploying => "deploying",
            DeploymentStatus::Running => "running",
            DeploymentStatus::Failed => "failed",
            DeploymentStatus::Stopped => "stopped",
        }
    }
}

/// Every allowed transition moves strictly forward along the lifecycle, so
/// no sequence of transitions ever revisits a status.
pub proof fn lemma_transitions_move_forward(from: DeploymentStatus, to: DeploymentStatus)
    requires
        from.allows(to),
    ensures
        from.rank() < to.rank(),
        !from.is_terminal(),
{
}

/// One deployment attempt of an application. Deployment history is never
/// rewritten: a redeploy or rollback is always a new row.
#[derive(Debug, Clone)]
pub struct Deployment {
    pub id: i64,
    pub application_id: i64,
    pub status: DeploymentStatus,
    pub commit_sha: Option<String>,
    pub image_tag: Option<String>,
    pub container_id: Option<String>,
    pub error_message: Option<String>,
    pub triggered_by: Option<i64>,
}

/// A string option by its contents.
pub open spec fn opt_view(o: Option<String>) -> Option<Seq<char>> {
    match o {
        Some(s) => Some(s@),
        None => None,
    }
}

pub(crate) fn clone_opt(o: &Option<String>) -> (r: Option<String>)
    ensures
        r == *o,
{
    match o {
        Some(s) => Some(s.clone()),
        None => None,
    }
}

/// A deployment as plain values.
pub struct DeploymentView {
    pub id: i64,
    pub application_id: i64,
    pub status: DeploymentStatus,
    pub commit_sha: Option<Seq<char>>,
    pub image_tag: Option<Seq<char>>,
    pub container_id: Option<Seq<char>>,
    pub error_message: Option<Seq<char>>,
    pub triggered_by: Option<i64>,
}

impl View for Deployment {
    type V = DeploymentView;

    open spec fn view(&self) -> DeploymentView {
        DeploymentView {
            id: self.id,
            application_id: self.application_id,
            status: self.status,
            commit_sha: opt_view(self.commit_sha),
            image_tag: opt_view(self.image_tag),
            container_id: opt_view(self.container_id),
            error_message: opt_view(self.error_message),
            triggered_by: self.triggered_by,
        }
    }
}

impl Deployment {
    /// An identical copy of the deployment.
    pub fn duplicate(&self) -> (d: Deployment)
        ensures
            d == *self,
            d@ == self@,
    {
        Deployment {
            id: self.id,
            application_id: self.application_id,
            status: self.status,
            commit_sha: clone_opt(&self.commit_sha),
            image_tag: clone_opt(&self.image_tag),
            container_id: clone_opt(&self.container_id),
            error_message: clone_opt(&self.error_message),
            triggered_by: self.triggered_by,
        }
    }

    /// A freshly queued deployment: nothing built, nothing running yet.
    pub fn queued(id: i64, application_id: i64, triggered_by: Option<i64>) -> (d: Deployment)
        ensures
            d.id == id,
            d.application_id == application_id,
            d.status == DeploymentStatus::Queued,
            d.commit_sha is None,
            d.image_tag is None,
            d.container_id is None,
            d.error_message is None,
            d.triggered_by == triggered_by,
    {
        Deployment {
            id,
            application_id,
            status: DeploymentStatus::Queued,
            commit_sha: None,
            image_tag: None,
            container_id: None,
            error_message: None,
            triggered_by,
        }
    }

    /// `self` and `other` differ at most in their status.
    pub open spec fn same_but_status(self, other: Deployment) -> bool {
        &&& self.id == other.id
        &&& self.application_id == other.application_id
        &&& self.commit_sha == other.commit_sha
        &&& self.image_tag == other.image_tag
        &&& self.container_id == other.container_id
        &&& self.error_message == other.error_message
        &&& self.triggered_by == other.triggered_by
    }

    /// Moves the deployment to `next` when the lifecycle allows it; leaves it
    /// untouched and reports the refused pair otherwise.
    pub fn transition(&mut self, next: DeploymentStatus) -> (r: Result<(), DomainError>)
        ensures
            old(self).status.allows(next) ==> r is Ok && final(self).status == next,
            !old(self).status.allows(next) ==> r == Err::<(), DomainError>(
                DomainError::InvalidTransition(old(self).status, next),
            ) && final(self).status == old(self).status,
            final(self).same_but_status(*old(self)),
    {
        if self.status.can_transition_to(next) {
            self.status = next;
            Ok(())
        } else {
            Err(DomainError::InvalidTransition(self.status, next))
        }
    }
}

} // verus!

verus! {

/// A team: the unit that owns projects, servers and memberships.
#[derive(Debug, Clone)]
pub struct Team {
    pub id: i64,
    pub name: String,
    pub slug: String,
    pub logo: String,
}

/// A role: either built in (shared by every team) or defined by one team.
#[derive(Debug, Clone)]
pub struct Role {
    pub id: i64,
    /// The owning team; `None` for the built-in roles.
    pub team_id: Option<i64>,
    pub name: String,
}

impl Role {
    /// Built-in roles are the ones no team owns.
    pub fn is_builtin(&self) -> (r: bool)
        ensures
            r == (self.team_id is None),
    {
        self.team_id.is_none()
    }
}

/// A user's membership of a team, with the role it holds there.
#[derive(Debug, Clone, Copy, PartialEq, Eq)]
pub struct TeamMember {
    pub id: i64,
    pub team_id: i64,
    pub user_id: i64,
    pub role_id: i64,
}

impl TeamMember {
    pub fn new(id: i64, team_id: i64, user_id: i64, role_id: i64) -> (m: TeamMember)
        ensures
            m == (TeamMember { id, team_id, user_id, role_id }),
    {
        TeamMember { id, team_id, user_id, role_id }
    }

    /// Gives the member another role; nothing else changes.
    pub fn change_role(&mut self, role_id: i64)
        ensures
            *final(self) == (TeamMember { role_id, ..*old(self) }),
    {
        self.role_id = role_id;
    }
}

/// A project: a group of applications within a team.
#[derive(Debug, Clone)]
pub struct Project {
    pub id: i64,
    pub team_id: i64,
    pub name: String,
    pub slug: String,
}

impl Project {
    pub fn new(id: i64, team_id: i64, name: String, slug: String) -> (p: Project)
        ensures
            p.id == id,
            p.team_id == team_id,
            p.name == name,
            p.slug == slug,
    {
        Project { id, team_id, name, slug }
    }
}

/// Whether a server has answered a connectivity probe.
#[derive(Debug, Clone, Copy, PartialEq, Eq, Structural)]
pub enum ServerStatus {
    /// Registered, but not (yet) reachable.
    Pending,
    /// Reachable over ssh with a working container runtime.
    Active,
}

impl ServerStatus {
    pub open spec fn name(self) -> Seq<char> {
        match self {
            ServerStatus::Pending => "pending"@,
            ServerStatus::Active => "active"@,
        }
    }

    pub fn as_str(&self) -> (s: &'static str)
        ensures
            s@ == self.name(),
    {
        match self {
            ServerStatus::Pending => "pending",
            ServerStatus::Active => "active",
        }
    }
}

/// A deployment target: the podkit host itself, or a remote host reached
/// over ssh.
#[derive(Debug, Clone)]
pub struct Server {
    pub id: i64,
    pub team_id: i64,
    pub name: String,
    pub hostname: String,
    pub ssh_port: i32,
    pub ssh_user: Option<String>,
    pub podman_socket_path: String,
    pub is_local: bool,
    pub status: ServerStatus,
}

impl Server {
    /// A newly registered remote server, `Pending` until a probe succeeds.
    pub fn new_remote(
        id: i64,
        team_id: i64,
        name: String,
        hostname: String,
        ssh_port: i32,
        ssh_user: String,
        podman_socket_path: String,
    ) -> (s: Server)
        ensures
            s.id == id,
            s.team_id == team_id,
            s.name == name,
            s.hostname == hostname,
            s.ssh_port == ssh_port,
            s.ssh_user == Some(ssh_user),
            s.podman_socket_path == podman_socket_path,
            !s.is_local,
            s.status == ServerStatus::Pending,
    {
        Server {
            id,
            team_id,
            name,
            hostname,
            ssh_port,
            ssh_user: Some(ssh_user),
            podman_socket_path,
            is_local: false,
            status: ServerStatus::Pending,
        }
    }
}

/// A custom hostname routed to an application.
#[derive(Debug, Clone)]
pub struct CustomDomain {
    pub id: i64,
    pub application_id: i64,
    pub hostname: String,
}

/// An application env var; the value is stored encrypted.
#[derive(Debug, Clone)]
pub struct EnvVar {
    pub id: i64,
    pub application_id: i64,
    pub key: String,
    pub value: String,
}

} // verus!

verus! {

/// An application's record, as far as the server's rules read it (its
/// build strategy and CPU limit are carried alongside by the caller).
#[derive(Debug, Clone)]
pub struct Application {
    pub id: i64,
    pub project_id: i64,
    pub server_id: i64,
    pub name: String,
    pub slug: String,
    pub repo_url: String,
    pub git_ref: String,
    /// Encrypted; `None` for a public repository.
    pub deploy_key: Option<String>,
    pub dockerfile_path: String,
    pub container_port: i32,
    /// Encrypted secret authenticating the deploy webhook.
    pub webhook_secret: Option<String>,
    pub memory_limit_mb: Option<i32>,
}

} // verus!
