//! The deploy pipeline's decisions. One deployment attempt is a sequence of
//! outside steps (server lookup, git clone, image build, container start,
//! ...); this module decides, from the outcome of each step, which step
//! comes next and what the deployment row records. The caller performs the
//! actions and feeds their outcomes back.

use vstd::prelude::*;

use crate::domain::{clone_opt, opt_view, Deployment, DeploymentStatus, DeploymentView};
use crate::naming::{
    container_name, container_name_of, image_tag, image_tag_of, memory_bytes_of, memory_limit_bytes,
    short_sha_on_boundary,
};
use crate::error::{DomainError, ServerError};
use crate::text::{decimal, owned, push_str, push_u32};

verus! {

/// What one pipeline run deploys.
pub enum DeployMode {
    /// Clone and build from source; whether the application has a deploy key.
    Build { has_deploy_key: bool },
    /// Redeploy an image that an earlier deployment already built.
    Rollback { image_tag: String },
}

/// The step whose outcome the pipeline is waiting for.
pub enum Stage {
    LookupServer,
    PersistBuilding,
    DecryptKey,
    CloneRepo,
    Connect,
    BuildImage { tag: String },
    PersistDeploying,
    ProvisionIngress,
    LoadEnv,
    LoadDomains { env: Vec<(String, String)> },
    CreateContainer,
    StartContainer { container: String },
    HealthCheck { container: String },
    RemoveFailed { message: String },
    PersistRunning,
    Settle,
    LoadHistory,
    StopPrevious { previous: Deployment },
    RemovePrevious { previous: Deployment },
    PersistPrevious,
    PersistFailure,
    Done,
}

/// The next outside step to perform.
pub enum Action {
    /// Look up the application's target server.
    LookupServer,
    /// Persist this deployment row.
    Persist(Deployment),
    /// Decrypt the application's deploy key.
    DecryptDeployKey,
    /// Clone the repository into a build context.
    CloneRepository,
    /// Connect to the target server's container runtime.
    Connect,
    /// Build the image under this tag.
    BuildImage(String),
    /// Make sure the ingress proxy runs on the server.
    ProvisionIngress,
    /// Load and decrypt the application's env vars.
    LoadEnv,
    /// Load the application's custom domains.
    LoadDomains,
    /// Create the new container under `name` from `image`, running the
    /// image's own command (`command` is `None`) with the application's
    /// decrypted `env` (key, value pairs), publishing the host `ports` and
    /// mounting the `binds` listed (none: the ingress proxy reaches it over
    /// `networks`), capped at `memory_bytes` of memory where a limit is set,
    /// and restarted by the runtime on failure at most `max_retries` times.
    CreateContainer {
        name: String,
        image: String,
        command: Option<String>,
        env: Vec<(String, String)>,
        ports: Vec<String>,
        networks: Vec<String>,
        binds: Vec<String>,
        memory_bytes: Option<i64>,
        max_retries: u32,
    },
    /// Start this container.
    StartContainer(String),
    /// Watch this freshly started container over the health-check window.
    CheckHealth(String),
    /// Force-remove this container.
    RemoveContainer(String),
    /// Give the ingress proxy time to pick up the new container.
    Settle,
    /// Load the application's deployment history, newest first.
    LoadHistory,
    /// Gracefully stop this container.
    StopContainer(String),
    /// The run is over.
    Finish,
}

/// The outcome of the last action.
pub enum Event {
    /// The step succeeded.
    Done,
    /// The server lookup found no server.
    ServerMissing,
    /// The repository was cloned at this commit.
    Cloned(String),
    /// The container was created under this id.
    Created(String),
    /// The deployment history, newest first.
    History(Vec<Deployment>),
    /// The application's env vars were listed and decrypted: key, value pairs.
    EnvLoaded(Vec<(String, String)>),
    /// Listing the application's env vars failed with this description.
    EnvListFailed(String),
    /// Decrypting env var `key` failed with this description.
    EnvDecryptFailed { key: String, error: String },
    /// The step failed with this description.
    Failed(String),
}

pub enum ModeView {
    Build { has_deploy_key: bool },
    Rollback { image_tag: Seq<char> },
}

pub enum StageView {
    LookupServer,
    PersistBuilding,
    DecryptKey,
    CloneRepo,
    Connect,
    BuildImage { tag: Seq<char> },
    PersistDeploying,
    ProvisionIngress,
    LoadEnv,
    LoadDomains { env: Seq<(Seq<char>, Seq<char>)> },
    CreateContainer,
    StartContainer { container: Seq<char> },
    HealthCheck { container: Seq<char> },
    RemoveFailed { message: Seq<char> },
    PersistRunning,
    Settle,
    LoadHistory,
    StopPrevious { previous: DeploymentView },
    RemovePrevious { previous: DeploymentView },
    PersistPrevious,
    PersistFailure,
    Done,
}

pub enum ActionView {
    LookupServer,
    Persist(DeploymentView),
    DecryptDeployKey,
    CloneRepository,
    Connect,
    BuildImage(Seq<char>),
    ProvisionIngress,
    LoadEnv,
    LoadDomains,
    CreateContainer {
        name: Seq<char>,
        image: Seq<char>,
        command: Option<Seq<char>>,
        env: Seq<(Seq<char>, Seq<char>)>,
        ports: Seq<Seq<char>>,
        networks: Seq<Seq<char>>,
        binds: Seq<Seq<char>>,
        memory_bytes: Option<i64>,
        max_retries: u32,
    },
    StartContainer(Seq<char>),
    CheckHealth(Seq<char>),
    RemoveContainer(Seq<char>),
    Settle,
    LoadHistory,
    StopContainer(Seq<char>),
    Finish,
}

pub enum EventView {
    Done,
    ServerMissing,
    Cloned(Seq<char>),
    Created(Seq<char>),
    History(Seq<DeploymentView>),
    EnvLoaded(Seq<(Seq<char>, Seq<char>)>),
    EnvListFailed(Seq<char>),
    EnvDecryptFailed { key: Seq<char>, error: Seq<char> },
    Failed(Seq<char>),
}

impl View for DeployMode {
    type V = ModeView;

    open spec fn view(&self) -> ModeView {
        match self {
            DeployMode::Build { has_deploy_key } => ModeView::Build { has_deploy_key: *has_deploy_key },
            DeployMode::Rollback { image_tag } => ModeView::Rollback { image_tag: image_tag@ },
        }
    }
}

impl View for Stage {
    type V = StageView;

    open spec fn view(&self) -> StageView {
        match self {
            Stage::LookupServer => StageView::LookupServer,
            Stage::PersistBuilding => StageView::PersistBuilding,
            Stage::DecryptKey => StageView::DecryptKey,
            Stage::CloneRepo => StageView::CloneRepo,
            Stage::Connect => StageView::Connect,
            Stage::BuildImage { tag } => StageView::BuildImage { tag: tag@ },
            Stage::PersistDeploying => StageView::PersistDeploying,
            Stage::ProvisionIngress => StageView::ProvisionIngress,
            Stage::LoadEnv => StageView::LoadEnv,
            Stage::LoadDomains { env } => StageView::LoadDomains { env: env_view(env@) },
            Stage::CreateContainer => StageView::CreateContainer,
            Stage::StartContainer { container } => StageView::StartContainer { container: container@ },
            Stage::HealthCheck { container } => StageView::HealthCheck { container: container@ },
            Stage::RemoveFailed { message } => StageView::RemoveFailed { message: message@ },
            Stage::PersistRunning => StageView::PersistRunning,
            Stage::Settle => StageView::Settle,
            Stage::LoadHistory => StageView::LoadHistory,
            Stage::StopPrevious { previous } => StageView::StopPrevious { previous: previous@ },
            Stage::RemovePrevious { previous } => StageView::RemovePrevious { previous: previous@ },
            Stage::PersistPrevious => StageView::PersistPrevious,
            Stage::PersistFailure => StageView::PersistFailure,
            Stage::Done => StageView::Done,
        }
    }
}

impl View for Action {
    type V = ActionView;

    open spec fn view(&self) -> ActionView {
        match self {
            Action::LookupServer => ActionView::LookupServer,
            Action::Persist(d) => ActionView::Persist(d@),
            Action::DecryptDeployKey => ActionView::DecryptDeployKey,
            Action::CloneRepository => ActionView::CloneRepository,
            Action::Connect => ActionView::Connect,
            Action::BuildImage(t) => ActionView::BuildImage(t@),
            Action::ProvisionIngress => ActionView::ProvisionIngress,
            Action::LoadEnv => ActionView::LoadEnv,
            Action::LoadDomains => ActionView::LoadDomains,
            Action::CreateContainer {
                name,
                image,
                command,
                env,
                ports,
                networks,
                binds,
                memory_bytes,
                max_retries,
            } => ActionView::CreateContainer {
                name: name@,
                image: image@,
                command: opt_view(*command),
                env: env_view(env@),
                ports: strings_view(ports@),
                networks: strings_view(networks@),
                binds: strings_view(binds@),
                memory_bytes: *memory_bytes,
                max_retries: *max_retries,
            },
            Action::StartContainer(c) => ActionView::StartContainer(c@),
            Action::CheckHealth(c) => ActionView::CheckHealth(c@),
            Action::RemoveContainer(c) => ActionView::RemoveContainer(c@),
            Action::Settle => ActionView::Settle,
            Action::LoadHistory => ActionView::LoadHistory,
            Action::StopContainer(c) => ActionView::StopContainer(c@),
            Action::Finish => ActionView::Finish,
        }
    }
}

pub open spec fn history_view(h: Seq<Deployment>) -> Seq<DeploymentView> {
    h.map_values(|d: Deployment| d@)
}

/// Env vars by their contents.
pub open spec fn env_view(env: Seq<(String, String)>) -> Seq<(Seq<char>, Seq<char>)> {
    env.map_values(|kv: (String, String)| (kv.0@, kv.1@))
}

/// Strings by their contents.
pub open spec fn strings_view(v: Seq<String>) -> Seq<Seq<char>> {
    v.map_values(|x: String| x@)
}

impl View for Event {
    type V = EventView;

    open spec fn view(&self) -> EventView {
        match self {
            Event::Done => EventView::Done,
            Event::ServerMissing => EventView::ServerMissing,
            Event::Cloned(s) => EventView::Cloned(s@),
            Event::Created(c) => EventView::Created(c@),
            Event::History(h) => EventView::History(history_view(h@)),
            Event::EnvLoaded(env) => EventView::EnvLoaded(env_view(env@)),
            Event::EnvListFailed(e) => EventView::EnvListFailed(e@),
            Event::EnvDecryptFailed { key, error } => EventView::EnvDecryptFailed { key: key@, error: error@ },
            Event::Failed(m) => EventView::Failed(m@),
        }
    }
}

/// How many times the container runtime restarts a crashed application
/// container on its own; a genuinely broken image does not loop forever.
pub const CONTAINER_MAX_RETRIES: u32 = 5;

/// One run of the deploy pipeline for one deployment row.
pub struct DeployPipeline {
    pub deployment: Deployment,
    pub mode: DeployMode,
    /// The application's memory limit in MiB, if it has one.
    pub memory_limit_mb: Option<i32>,
    /// The network the ingress proxy reaches application containers on.
    pub network: String,
    pub stage: Stage,
}

pub struct PipelineView {
    pub deployment: DeploymentView,
    pub mode: ModeView,
    pub memory_limit_mb: Option<i32>,
    pub network: Seq<char>,
    pub stage: StageView,
}

impl View for DeployPipeline {
    type V = PipelineView;

    open spec fn view(&self) -> PipelineView {
        PipelineView {
            deployment: self.deployment@,
            mode: self.mode@,
            memory_limit_mb: self.memory_limit_mb,
            network: self.network@,
            stage: self.stage@,
        }
    }
}

/// Records `message` on the deployment, marks it `Failed` and persists it;
/// the run then ends. The container currently serving is left untouched.
pub open spec fn fail_spec(p: PipelineView, message: Seq<char>) -> (PipelineView, ActionView) {
    let d1 = DeploymentView { error_message: Some(message), ..p.deployment };
    let d2 = if d1.status.allows(DeploymentStatus::Failed) {
        DeploymentView { status: DeploymentStatus::Failed, ..d1 }
    } else {
        d1
    };
    (PipelineView { deployment: d2, stage: StageView::PersistFailure, ..p }, ActionView::Persist(d2))
}

/// Moves the deployment to `next` and persists it, waiting in `persisting`;
/// a refused transition ends the run.
pub open spec fn advance_spec(p: PipelineView, next: DeploymentStatus, persisting: StageView) -> (PipelineView, ActionView) {
    if p.deployment.status.allows(next) {
        let d = DeploymentView { status: next, ..p.deployment };
        (PipelineView { deployment: d, stage: persisting, ..p }, ActionView::Persist(d))
    } else {
        (PipelineView { stage: StageView::Done, ..p }, ActionView::Finish)
    }
}

/// Records the image to run and enters the deploy phase.
pub open spec fn deploy_phase_spec(p: PipelineView, tag: Seq<char>) -> (PipelineView, ActionView) {
    let d = DeploymentView { image_tag: Some(tag), ..p.deployment };
    advance_spec(PipelineView { deployment: d, ..p }, DeploymentStatus::Deploying, StageView::PersistDeploying)
}

pub open spec fn finish_spec(p: PipelineView) -> (PipelineView, ActionView) {
    (PipelineView { stage: StageView::Done, ..p }, ActionView::Finish)
}

pub open spec fn goto(p: PipelineView, stage: StageView, action: ActionView) -> (PipelineView, ActionView) {
    (PipelineView { stage, ..p }, action)
}

/// The first deployment of `h`, from index `i` on, that is `Running` and is
/// not deployment `current`.
pub open spec fn first_running_other(h: Seq<DeploymentView>, current: i64, i: nat) -> Option<nat>
    decreases h.len() - i,
{
    if i >= h.len() {
        None
    } else if h[i as int].id != current && h[i as int].status == DeploymentStatus::Running {
        Some(i)
    } else {
        first_running_other(h, current, i + 1)
    }
}

/// Retires the deployment that served before this one: stop its container,
/// then remove it, then mark it `Stopped`. Nothing to do on a first deploy.
pub open spec fn retire_spec(p: PipelineView, h: Seq<DeploymentView>) -> (PipelineView, ActionView) {
    match first_running_other(h, p.deployment.id, 0) {
        None => finish_spec(p),
        Some(i) => match h[i as int].container_id {
            None => finish_spec(p),
            Some(c) => goto(p, StageView::StopPrevious { previous: h[i as int] }, ActionView::StopContainer(c)),
        },
    }
}

/// The pipeline's transition table: from a state and the outcome of the last
/// step, the next state and the next step.
pub open spec fn step_spec(p: PipelineView, e: EventView) -> (PipelineView, ActionView) {
    let d = p.deployment;
    match p.stage {
        StageView::LookupServer => match e {
            EventView::Done => advance_spec(p, DeploymentStatus::Building, StageView::PersistBuilding),
            EventView::ServerMissing => fail_spec(p, "target server not found"@),
            EventView::Failed(m) => fail_spec(p, "failed to look up target server: "@ + m),
            _ => finish_spec(p),
        },
        StageView::PersistBuilding => match e {
            EventView::Done => match p.mode {
                ModeView::Build { has_deploy_key } => if has_deploy_key {
                    goto(p, StageView::DecryptKey, ActionView::DecryptDeployKey)
                } else {
                    goto(p, StageView::CloneRepo, ActionView::CloneRepository)
                },
                ModeView::Rollback { .. } => goto(p, StageView::Connect, ActionView::Connect),
            },
            _ => finish_spec(p),
        },
        StageView::DecryptKey => match e {
            EventView::Done => goto(p, StageView::CloneRepo, ActionView::CloneRepository),
            EventView::Failed(m) => fail_spec(p, "failed to decrypt deploy key: "@ + m),
            _ => finish_spec(p),
        },
        StageView::CloneRepo => match e {
            EventView::Cloned(sha) => (
                PipelineView {
                    deployment: DeploymentView { commit_sha: Some(sha), ..d },
                    stage: StageView::Connect,
                    ..p
                },
                ActionView::Connect,
            ),
            EventView::Failed(m) => fail_spec(p, "git clone failed: "@ + m),
            _ => finish_spec(p),
        },
        StageView::Connect => match e {
            EventView::Done => match p.mode {
                ModeView::Build { .. } => {
                    let tag = image_tag_of(d.application_id, d.commit_sha->0);
                    goto(p, StageView::BuildImage { tag }, ActionView::BuildImage(tag))
                },
                ModeView::Rollback { image_tag } => deploy_phase_spec(p, image_tag),
            },
            EventView::Failed(m) => fail_spec(p, "failed to connect to server: "@ + m),
            _ => finish_spec(p),
        },
        StageView::BuildImage { tag } => match e {
            EventView::Done => deploy_phase_spec(p, tag),
            EventView::Failed(m) => fail_spec(p, "image build failed: "@ + m),
            _ => finish_spec(p),
        },
        StageView::PersistDeploying => match e {
            EventView::Done => goto(p, StageView::ProvisionIngress, ActionView::ProvisionIngress),
            _ => finish_spec(p),
        },
        StageView::ProvisionIngress => match e {
            EventView::Done => goto(p, StageView::LoadEnv, ActionView::LoadEnv),
            EventView::Failed(m) => fail_spec(p, "failed to provision ingress: "@ + m),
            _ => finish_spec(p),
        },
        StageView::LoadEnv => match e {
            EventView::EnvLoaded(env) => goto(p, StageView::LoadDomains { env }, ActionView::LoadDomains),
            EventView::EnvListFailed(m) => fail_spec(p, "failed to load env vars: "@ + m),
            EventView::EnvDecryptFailed { key, error } => fail_spec(
                p,
                "failed to decrypt env var "@ + key + ": "@ + error,
            ),
            _ => finish_spec(p),
        },
        StageView::LoadDomains { env } => match e {
            EventView::Done => goto(
                p,
                StageView::CreateContainer,
                ActionView::CreateContainer {
                    name: container_name_of(d.application_id, d.id),
                    image: d.image_tag->0,
                    command: None,
                    env,
                    ports: Seq::empty(),
                    networks: seq![p.network],
                    binds: Seq::empty(),
                    memory_bytes: memory_bytes_of(p.memory_limit_mb),
                    max_retries: CONTAINER_MAX_RETRIES,
                },
            ),
            EventView::Failed(m) => fail_spec(p, "failed to load custom domains: "@ + m),
            _ => finish_spec(p),
        },
        StageView::CreateContainer => match e {
            EventView::Created(c) => goto(p, StageView::StartContainer { container: c }, ActionView::StartContainer(c)),
            EventView::Failed(m) => fail_spec(p, "container create failed: "@ + m),
            _ => finish_spec(p),
        },
        StageView::StartContainer { container } => match e {
            EventView::Done => goto(p, StageView::HealthCheck { container }, ActionView::CheckHealth(container)),
            EventView::Failed(m) => fail_spec(p, "container start failed: "@ + m),
            _ => finish_spec(p),
        },
        StageView::HealthCheck { container } => match e {
            EventView::Done => advance_spec(
                PipelineView { deployment: DeploymentView { container_id: Some(container), ..d }, ..p },
                DeploymentStatus::Running,
                StageView::PersistRunning,
            ),
            EventView::Failed(m) => goto(
                p,
                StageView::RemoveFailed { message: "new container failed health check: "@ + m },
                ActionView::RemoveContainer(container),
            ),
            _ => finish_spec(p),
        },
        StageView::RemoveFailed { message } => fail_spec(p, message),
        StageView::PersistRunning => match e {
            EventView::Done => goto(p, StageView::Settle, ActionView::Settle),
            _ => finish_spec(p),
        },
        StageView::Settle => goto(p, StageView::LoadHistory, ActionView::LoadHistory),
        StageView::LoadHistory => match e {
            EventView::History(h) => retire_spec(p, h),
            _ => finish_spec(p),
        },
        StageView::StopPrevious { previous } => goto(
            p,
            StageView::RemovePrevious { previous },
            ActionView::RemoveContainer(previous.container_id->0),
        ),
        StageView::RemovePrevious { previous } => if previous.status.allows(DeploymentStatus::Stopped) {
            let stopped = DeploymentView { status: DeploymentStatus::Stopped, ..previous };
            goto(p, StageView::PersistPrevious, ActionView::Persist(stopped))
        } else {
            finish_spec(p)
        },
        StageView::PersistPrevious => finish_spec(p),
        StageView::PersistFailure => finish_spec(p),
        StageView::Done => finish_spec(p),
    }
}

/// Which outcomes the step the pipeline waits on can have.
pub open spec fn expects(p: PipelineView, e: EventView) -> bool {
    match p.stage {
        StageView::LookupServer => e is Done || e is ServerMissing || e is Failed,
        StageView::CloneRepo => (e matches EventView::Cloned(sha) && short_sha_on_boundary(sha)) || e is Failed,
        StageView::LoadEnv => e is EnvLoaded || e is EnvListFailed || e is EnvDecryptFailed,
        StageView::CreateContainer => e is Created || e is Failed,
        StageView::LoadHistory => e is History || e is Failed,
        StageView::RemoveFailed { .. } | StageView::Settle | StageView::StopPrevious { .. }
        | StageView::RemovePrevious { .. } | StageView::PersistPrevious | StageView::PersistFailure
        | StageView::Done => true,
        _ => e is Done || e is Failed,
    }
}

/// The status the deployment holds while the pipeline waits in a stage.
pub open spec fn stage_status(stage: StageView) -> Option<DeploymentStatus> {
    match stage {
        StageView::LookupServer => Some(DeploymentStatus::Queued),
        StageView::PersistBuilding | StageView::DecryptKey | StageView::CloneRepo | StageView::Connect
        | StageView::BuildImage { .. } => Some(DeploymentStatus::Building),
        StageView::PersistDeploying | StageView::ProvisionIngress | StageView::LoadEnv
        | StageView::LoadDomains { .. } | StageView::CreateContainer | StageView::StartContainer { .. }
        | StageView::HealthCheck { .. } | StageView::RemoveFailed { .. } => Some(DeploymentStatus::Deploying),
        StageView::PersistRunning | StageView::Settle | StageView::LoadHistory
        | StageView::StopPrevious { .. } | StageView::RemovePrevious { .. }
        | StageView::PersistPrevious => Some(DeploymentStatus::Running),
        StageView::PersistFailure => Some(DeploymentStatus::Failed),
        StageView::Done => None,
    }
}

pub open spec fn early_stage(stage: StageView) -> bool {
    stage is LookupServer || stage is PersistBuilding || stage is DecryptKey || stage is CloneRepo
        || stage is Connect || stage is BuildImage
}

pub open spec fn deploy_stage(stage: StageView) -> bool {
    stage is PersistDeploying || stage is ProvisionIngress || stage is LoadEnv || stage is LoadDomains
        || stage is CreateContainer || stage is StartContainer || stage is HealthCheck
        || stage is RemoveFailed
}

/// The stages of the deploy phase, where the image to run is known.
pub open spec fn in_deploy_phase(stage: StageView) -> bool {
    match stage_status(stage) {
        Some(s) => s == DeploymentStatus::Deploying || s == DeploymentStatus::Running,
        None => false,
    }
}

/// The pipeline's invariant.
pub open spec fn wf(p: PipelineView) -> bool {
    let d = p.deployment;
    &&& (stage_status(p.stage) matches Some(s) ==> d.status == s)
    &&& (p.stage is DecryptKey ==> p.mode == ModeView::Build { has_deploy_key: true })
    &&& (p.mode is Rollback ==> !(p.stage is DecryptKey || p.stage is CloneRepo || p.stage is BuildImage))
    &&& (p.mode is Build && (p.stage is Connect || p.stage is BuildImage) ==> {
        &&& d.commit_sha is Some
        &&& short_sha_on_boundary(d.commit_sha->0)
    })
    &&& (p.stage matches StageView::BuildImage { tag } ==> tag == image_tag_of(d.application_id, d.commit_sha->0))
    &&& (in_deploy_phase(p.stage) ==> d.image_tag is Some)
    &&& (p.mode matches ModeView::Rollback { image_tag: t } ==> (in_deploy_phase(p.stage)
        ==> d.image_tag == Some(t)))
    &&& (stage_status(p.stage) == Some(DeploymentStatus::Running) ==> d.container_id is Some)
    &&& (p.stage matches StageView::StopPrevious { previous } ==> {
        &&& previous.id != d.id
        &&& previous.status == DeploymentStatus::Running
        &&& previous.container_id is Some
    })
    &&& (p.stage matches StageView::RemovePrevious { previous } ==> {
        &&& previous.id != d.id
        &&& previous.status == DeploymentStatus::Running
        &&& previous.container_id is Some
    })
    &&& (p.stage is PersistFailure ==> d.error_message is Some)
}

fn prefixed(prefix: &str, message: &String) -> (r: String)
    ensures
        r@ == prefix@ + message@,
{
    let mut r = owned(prefix);
    push_str(&mut r, message.as_str());
    r
}

fn find_previous_running(h: &Vec<Deployment>, current: i64) -> (r: Option<usize>)
    ensures
        r matches Some(i) ==> i < h.len() && first_running_other(history_view(h@), current, 0) == Some(i as nat),
        r is None ==> first_running_other(history_view(h@), current, 0) is None,
{
    let ghost hv = history_view(h@);
    proof {
        lemma_first_running_other(hv, current, 0);
    }
    let mut i: usize = 0;
    while i < h.len()
        invariant
            i <= h.len(),
            hv == history_view(h@),
            first_running_other(hv, current, 0) == first_running_other(hv, current, i as nat),
        decreases h.len() - i,
    {
        assert(hv[i as int] == h@[i as int]@);
        if h[i].id != current && h[i].status == DeploymentStatus::Running {
            return Some(i);
        }
        i = i + 1;
    }
    None
}

impl DeployPipeline {
    pub open spec fn wf(&self) -> bool {
        wf(self@)
    }

    /// Whether `event` is an outcome the awaited step can have.
    pub open spec fn expects(&self, event: &Event) -> bool {
        expects(self@, event@)
    }

    /// Starts a run for a freshly queued deployment: the first step is to
    /// look up the target server.
    pub fn start(
        deployment: Deployment,
        mode: DeployMode,
        memory_limit_mb: Option<i32>,
        network: String,
    ) -> (r: (DeployPipeline, Action))
        requires
            deployment.status == DeploymentStatus::Queued,
        ensures
            r.0.wf(),
            r.0@.deployment == deployment@,
            r.0@.mode == mode@,
            r.0@.memory_limit_mb == memory_limit_mb,
            r.0@.network == network@,
            r.0@.stage == StageView::LookupServer,
            r.1@ == ActionView::LookupServer,
    {
        (DeployPipeline { deployment, mode, memory_limit_mb, network, stage: Stage::LookupServer }, Action::LookupServer)
    }

    /// Whether the run is over.
    pub fn is_done(&self) -> (r: bool)
        ensures
            r == (self@.stage is Done),
    {
        match self.stage {
            Stage::Done => true,
            _ => false,
        }
    }

    fn fail(&mut self, message: String) -> (a: Action)
        ensures
            (final(self)@, a@) == fail_spec(old(self)@, message@),
            final(self).mode == old(self).mode,
    {
        self.deployment.error_message = Some(message);
        let _ = self.deployment.transition(DeploymentStatus::Failed);
        self.stage = Stage::PersistFailure;
        Action::Persist(self.deployment.duplicate())
    }

    fn advance(&mut self, next: DeploymentStatus, persisting: Stage) -> (a: Action)
        ensures
            (final(self)@, a@) == advance_spec(old(self)@, next, persisting@),
            final(self).mode == old(self).mode,
    {
        if self.deployment.status.can_transition_to(next) {
            let _ = self.deployment.transition(next);
            self.stage = persisting;
            Action::Persist(self.deployment.duplicate())
        } else {
            self.stage = Stage::Done;
            Action::Finish
        }
    }

    fn finish(&mut self) -> (a: Action)
        ensures
            (final(self)@, a@) == finish_spec(old(self)@),
            final(self).mode == old(self).mode,
    {
        self.stage = Stage::Done;
        Action::Finish
    }

    fn deploy_phase(&mut self, tag: String) -> (a: Action)
        ensures
            (final(self)@, a@) == deploy_phase_spec(old(self)@, tag@),
            final(self).mode == old(self).mode,
    {
        self.deployment.image_tag = Some(tag);
        self.advance(DeploymentStatus::Deploying, Stage::PersistDeploying)
    }

    /// Feeds back the outcome of the last action and returns the next one.
    pub fn step(&mut self, event: Event) -> (a: Action)
        requires
            old(self).wf(),
            old(self).expects(&event),
        ensures
            final(self).wf(),
            (final(self)@, a@) == step_spec(old(self)@, event@),
    {
        let r = self.step_inner(event);
        proof {
            lemma_step_keeps_wf(old(self)@, event@);
        }
        r
    }

    fn step_inner(&mut self, event: Event) -> (a: Action)
        requires
            wf(old(self)@),
            expects(old(self)@, event@),
        ensures
            (final(self)@, a@) == step_spec(old(self)@, event@),
    {
        match &self.stage {
            Stage::LookupServer | Stage::PersistBuilding | Stage::DecryptKey | Stage::CloneRepo
            | Stage::Connect | Stage::BuildImage { .. } => self.step_build(event),
            Stage::PersistDeploying | Stage::ProvisionIngress | Stage::LoadEnv | Stage::LoadDomains { .. }
            | Stage::CreateContainer | Stage::StartContainer { .. } | Stage::HealthCheck { .. }
            | Stage::RemoveFailed { .. } => self.step_deploy(event),
            _ => self.step_retire(event),
        }
    }

    #[verifier::rlimit(60)]
    fn step_build(&mut self, event: Event) -> (a: Action)
        requires
            early_stage(old(self)@.stage),
            wf(old(self)@),
            expects(old(self)@, event@),
        ensures
            (final(self)@, a@) == step_spec(old(self)@, event@),
    {
        match &self.stage {
            Stage::LookupServer => match event {
                Event::Done => self.advance(DeploymentStatus::Building, Stage::PersistBuilding),
                Event::ServerMissing => self.fail(owned("target server not found")),
                Event::Failed(m) => self.fail(prefixed("failed to look up target server: ", &m)),
                _ => self.finish(),
            },
            Stage::PersistBuilding => match event {
                Event::Done => match &self.mode {
                    DeployMode::Build { has_deploy_key } => if *has_deploy_key {
                        self.stage = Stage::DecryptKey;
                        Action::DecryptDeployKey
                    } else {
                        self.stage = Stage::CloneRepo;
                        Action::CloneRepository
                    },
                    DeployMode::Rollback { .. } => {
                        self.stage = Stage::Connect;
                        Action::Connect
                    },
                },
                _ => self.finish(),
            },
            Stage::DecryptKey => match event {
                Event::Done => {
                    self.stage = Stage::CloneRepo;
                    Action::CloneRepository
                },
                Event::Failed(m) => self.fail(prefixed("failed to decrypt deploy key: ", &m)),
                _ => self.finish(),
            },
            Stage::CloneRepo => match event {
                Event::Cloned(sha) => {
                    self.deployment.commit_sha = Some(sha);
                    self.stage = Stage::Connect;
                    Action::Connect
                },
                Event::Failed(m) => self.fail(prefixed("git clone failed: ", &m)),
                _ => self.finish(),
            },
            Stage::Connect => match event {
                Event::Done => {
                    let rollback_tag = match &self.mode {
                        DeployMode::Build { .. } => None,
                        DeployMode::Rollback { image_tag } => Some(image_tag.clone()),
                    };
                    match rollback_tag {
                        None => {
                            let sha = clone_opt(&self.deployment.commit_sha);
                            let sha = sha.unwrap();
                            let tag = image_tag(self.deployment.application_id, sha.as_str());
                            self.stage = Stage::BuildImage { tag: tag.clone() };
                            Action::BuildImage(tag)
                        },
                        Some(tag) => self.deploy_phase(tag),
                    }
                },
                Event::Failed(m) => self.fail(prefixed("failed to connect to server: ", &m)),
                _ => self.finish(),
            },
            Stage::BuildImage { tag } => match event {
                Event::Done => {
                    let tag = tag.clone();
                    self.deploy_phase(tag)
                },
                Event::Failed(m) => self.fail(prefixed("image build failed: ", &m)),
                _ => self.finish(),
            },
            _ => self.finish(),
        }
    }

    #[verifier::rlimit(60)]
    fn step_deploy(&mut self, event: Event) -> (a: Action)
        requires
            deploy_stage(old(self)@.stage),
            wf(old(self)@),
            expects(old(self)@, event@),
        ensures
            (final(self)@, a@) == step_spec(old(self)@, event@),
    {
        match &self.stage {
            Stage::PersistDeploying => match event {
                Event::Done => {
                    self.stage = Stage::ProvisionIngress;
                    Action::ProvisionIngress
                },
                _ => self.finish(),
            },
            Stage::ProvisionIngress => match event {
                Event::Done => {
                    self.stage = Stage::LoadEnv;
                    Action::LoadEnv
                },
                Event::Failed(m) => self.fail(prefixed("failed to provision ingress: ", &m)),
                _ => self.finish(),
            },
            Stage::LoadEnv => match event {
                Event::EnvLoaded(env) => {
                    self.stage = Stage::LoadDomains { env };
                    Action::LoadDomains
                },
                Event::EnvListFailed(e) => self.fail(env_list_failure(&e)),
                Event::EnvDecryptFailed { key, error } => self.fail(env_decrypt_failure(&key, &error)),
                _ => self.finish(),
            },
            Stage::LoadDomains { .. } => match event {
                Event::Done => {
                    let name = container_name(self.deployment.application_id, self.deployment.id);
                    let image = clone_opt(&self.deployment.image_tag).unwrap();
                    let memory_bytes = memory_limit_bytes(self.memory_limit_mb);
                    let mut networks: Vec<String> = Vec::new();
                    networks.push(self.network.clone());
                    let mut stage = Stage::CreateContainer;
                    std::mem::swap(&mut stage, &mut self.stage);
                    let env = match stage {
                        Stage::LoadDomains { env } => env,
                        _ => Vec::new(),
                    };
                    let ports: Vec<String> = Vec::new();
                    let binds: Vec<String> = Vec::new();
                    proof {
                        assert(strings_view(networks@) =~= seq![self.network@]);
                        assert(strings_view(ports@) =~= Seq::<Seq<char>>::empty());
                        assert(strings_view(binds@) =~= Seq::<Seq<char>>::empty());
                    }
                    Action::CreateContainer {
                        name,
                        image,
                        command: None,
                        env,
                        ports,
                        networks,
                        binds,
                        memory_bytes,
                        max_retries: CONTAINER_MAX_RETRIES,
                    }
                },
                Event::Failed(m) => self.fail(prefixed("failed to load custom domains: ", &m)),
                _ => self.finish(),
            },
            Stage::CreateContainer => match event {
                Event::Created(c) => {
                    self.stage = Stage::StartContainer { container: c.clone() };
                    Action::StartContainer(c)
                },
                Event::Failed(m) => self.fail(prefixed("container create failed: ", &m)),
                _ => self.finish(),
            },
            Stage::StartContainer { container } => match event {
                Event::Done => {
                    let c = container.clone();
                    self.stage = Stage::HealthCheck { container: c.clone() };
                    Action::CheckHealth(c)
                },
                Event::Failed(m) => self.fail(prefixed("container start failed: ", &m)),
                _ => self.finish(),
            },
            Stage::HealthCheck { container } => match event {
                Event::Done => {
                    let c = container.clone();
                    self.deployment.container_id = Some(c);
                    self.advance(DeploymentStatus::Running, Stage::PersistRunning)
                },
                Event::Failed(m) => {
                    let c = container.clone();
                    let message = prefixed("new container failed health check: ", &m);
                    self.stage = Stage::RemoveFailed { message };
                    Action::RemoveContainer(c)
                },
                _ => self.finish(),
            },
            Stage::RemoveFailed { message } => {
                let message = message.clone();
                self.fail(message)
            },
            _ => self.finish(),
        }
    }

    fn step_history(&mut self, event: Event) -> (a: Action)
        requires
            old(self)@.stage is LoadHistory,
            wf(old(self)@),
            expects(old(self)@, event@),
        ensures
            (final(self)@, a@) == step_spec(old(self)@, event@),
    {
        match event {
            Event::History(h) => {
                proof {
                    assert(history_view(h@).len() == h@.len());
                }
                match find_previous_running(&h, self.deployment.id) {
                    None => self.finish(),
                    Some(i) => {
                        proof {
                            assert(history_view(h@)[i as int] == h@[i as int]@);
                        }
                        let previous = h[i].duplicate();
                        match clone_opt(&previous.container_id) {
                            None => self.finish(),
                            Some(c) => {
                                self.stage = Stage::StopPrevious { previous };
                                Action::StopContainer(c)
                            },
                        }
                    },
                }
            },
            _ => self.finish(),
        }
    }

    #[verifier::rlimit(60)]
    fn step_retire(&mut self, event: Event) -> (a: Action)
        requires
            !early_stage(old(self)@.stage) && !deploy_stage(old(self)@.stage),
            wf(old(self)@),
            expects(old(self)@, event@),
        ensures
            (final(self)@, a@) == step_spec(old(self)@, event@),
    {
        match &self.stage {
            Stage::PersistRunning => match event {
                Event::Done => {
                    self.stage = Stage::Settle;
                    Action::Settle
                },
                _ => self.finish(),
            },
            Stage::Settle => {
                self.stage = Stage::LoadHistory;
                Action::LoadHistory
            },
            Stage::LoadHistory => self.step_history(event),
            Stage::StopPrevious { previous } => {
                let previous = previous.duplicate();
                let c = clone_opt(&previous.container_id).unwrap();
                self.stage = Stage::RemovePrevious { previous };
                Action::RemoveContainer(c)
            },
            Stage::RemovePrevious { previous } => {
                let mut previous = previous.duplicate();
                if previous.status.can_transition_to(DeploymentStatus::Stopped) {
                    let _ = previous.transition(DeploymentStatus::Stopped);
                    self.stage = Stage::PersistPrevious;
                    Action::Persist(previous)
                } else {
                    self.finish()
                }
            },
            Stage::PersistPrevious => self.finish(),
            Stage::PersistFailure => self.finish(),
            Stage::Done => self.finish(),
            _ => self.finish(),
        }
    }

}

/// Every step keeps the pipeline's invariant.
pub proof fn lemma_step_keeps_wf(p: PipelineView, e: EventView)
    requires
        wf(p),
        expects(p, e),
    ensures
        wf(step_spec(p, e).0),
{
    let q = step_spec(p, e).0;
    if let StageView::LoadHistory = p.stage {
        if let EventView::History(h) = e {
            lemma_first_running_other(h, p.deployment.id, 0);
        }
    }
}

/// What `first_running_other` finds is a running deployment other than `current`.
pub proof fn lemma_first_running_other(h: Seq<DeploymentView>, current: i64, i: nat)
    ensures
        first_running_other(h, current, i) matches Some(k) ==> {
            &&& i <= k < h.len()
            &&& h[k as int].id != current
            &&& h[k as int].status == DeploymentStatus::Running
            &&& forall|j: int| i <= j < k ==> !(h[j].id != current && h[j].status == DeploymentStatus::Running)
        },
        first_running_other(h, current, i) is None ==> forall|j: int|
            i <= j < h.len() ==> !(h[j].id != current && h[j].status == DeploymentStatus::Running),
    decreases h.len() - i,
{
    if i < h.len() {
        lemma_first_running_other(h, current, i + 1);
    }
}

} // verus!

verus! {

/// Position of each stage along a run.
pub open spec fn stage_rank(stage: StageView) -> int {
    match stage {
        StageView::LookupServer => 0,
        StageView::PersistBuilding => 1,
        StageView::DecryptKey => 2,
        StageView::CloneRepo => 3,
        StageView::Connect => 4,
        StageView::BuildImage { .. } => 5,
        StageView::PersistDeploying => 6,
        StageView::ProvisionIngress => 7,
        StageView::LoadEnv => 8,
        StageView::LoadDomains { .. } => 9,
        StageView::CreateContainer => 10,
        StageView::StartContainer { .. } => 11,
        StageView::HealthCheck { .. } => 12,
        StageView::RemoveFailed { .. } => 13,
        StageView::PersistRunning => 14,
        StageView::Settle => 15,
        StageView::LoadHistory => 16,
        StageView::StopPrevious { .. } => 17,
        StageView::RemovePrevious { .. } => 18,
        StageView::PersistPrevious => 19,
        StageView::PersistFailure => 20,
        StageView::Done => 21,
    }
}

/// A run always moves forward and so ends after a bounded number of steps:
/// every step from an unfinished state lands in a later stage.
pub proof fn lemma_run_moves_forward(p: PipelineView, e: EventView)
    requires
        wf(p),
        expects(p, e),
        !(p.stage is Done),
    ensures
        stage_rank(step_spec(p, e).0.stage) > stage_rank(p.stage),
{
}

/// The container that served before this deployment is only stopped or
/// removed once the new container has passed its health check and the new
/// deployment is recorded `Running`; the only other container the pipeline
/// ever removes is the new one, when it failed its health check.
pub proof fn lemma_old_container_untouched_until_new_one_runs(p: PipelineView, e: EventView)
    requires
        wf(p),
        expects(p, e),
    ensures
        ({
            let (q, a) = step_spec(p, e);
            &&& (a matches ActionView::StopContainer(c) ==> {
                &&& q.deployment.status == DeploymentStatus::Running
                &&& q.deployment.container_id is Some
                &&& q.stage matches StageView::StopPrevious { previous } && {
                    &&& previous.container_id == Some(c)
                    &&& previous.id != q.deployment.id
                    &&& previous.status == DeploymentStatus::Running
                }
            })
            &&& (a matches ActionView::RemoveContainer(c) ==> {
                ||| {
                    &&& p.stage == StageView::HealthCheck { container: c }
                    &&& q.deployment.status == DeploymentStatus::Deploying
                    &&& q.stage is RemoveFailed
                }
                ||| {
                    &&& q.deployment.status == DeploymentStatus::Running
                    &&& q.deployment.container_id is Some
                    &&& q.stage matches StageView::RemovePrevious { previous } && {
                        &&& previous.container_id == Some(c)
                        &&& previous.id != q.deployment.id
                    }
                }
            })
        }),
{
    lemma_step_keeps_wf(p, e);
}

/// The stages that perform outside work before the new container is live.
pub open spec fn working_stage(stage: StageView) -> bool {
    stage is LookupServer || stage is DecryptKey || stage is CloneRepo || stage is Connect
        || stage is BuildImage || stage is ProvisionIngress || stage is LoadEnv || stage is LoadDomains
        || stage is CreateContainer || stage is StartContainer
}

/// Any failure before the new container is live short-circuits the run: the
/// message is recorded on the deployment, which is persisted `Failed`, and
/// the run ends with nothing else touched.
pub proof fn lemma_failure_short_circuits(p: PipelineView, e: EventView, next: EventView)
    requires
        wf(p),
        expects(p, e),
        working_stage(p.stage),
        e is Failed || e is ServerMissing || e is EnvListFailed || e is EnvDecryptFailed,
    ensures
        ({
            let (q, a) = step_spec(p, e);
            &&& q.stage is PersistFailure
            &&& a == ActionView::Persist(q.deployment)
            &&& q.deployment.status == DeploymentStatus::Failed
            &&& q.deployment.error_message is Some
            &&& q.deployment.id == p.deployment.id
            &&& step_spec(q, next).1 == ActionView::Finish
        }),
{
}

/// A container that fails its health check is removed, then the failure is
/// recorded on the deployment exactly as for any other failed step.
pub proof fn lemma_unhealthy_container_is_removed_then_recorded(
    p: PipelineView,
    m: Seq<char>,
    next: EventView,
)
    requires
        wf(p),
        p.stage is HealthCheck,
    ensures
        ({
            let (q, a) = step_spec(p, EventView::Failed(m));
            let (r, b) = step_spec(q, next);
            &&& a == ActionView::RemoveContainer(p.stage->HealthCheck_container)
            &&& r.deployment.status == DeploymentStatus::Failed
            &&& r.deployment.error_message == Some("new container failed health check: "@ + m)
            &&& b == ActionView::Persist(r.deployment)
        }),
{
}

/// Every row the pipeline persists follows the deployment lifecycle: its own
/// deployment only ever moves along an allowed transition, and the only
/// other row it writes is the previous deployment moving `Running -> Stopped`.
pub proof fn lemma_persisted_statuses_follow_lifecycle(p: PipelineView, e: EventView)
    requires
        wf(p),
        expects(p, e),
    ensures
        step_spec(p, e).1 matches ActionView::Persist(x) ==> {
            ||| (x.id == p.deployment.id && p.deployment.status.allows(x.status))
            ||| (x.id != p.deployment.id && x.status == DeploymentStatus::Stopped
                && p.deployment.status == DeploymentStatus::Running)
        },
{
}

/// Once the new deployment runs, the history it loads decides what is
/// retired: the first deployment of the history (newest first) that is
/// `Running` and is not the new one has its container stopped, then
/// removed, and is then persisted `Stopped`, whatever image it runs
/// (a redeploy of the same commit retires the previous deployment too).
pub proof fn lemma_retires_first_other_running(
    p: PipelineView,
    h: Seq<DeploymentView>,
    i: int,
    next: EventView,
    after: EventView,
)
    requires
        wf(p),
        p.stage is LoadHistory,
        0 <= i < h.len(),
        h[i].id != p.deployment.id,
        h[i].status == DeploymentStatus::Running,
        h[i].container_id is Some,
        forall|j: int| 0 <= j < i ==> !(h[j].id != p.deployment.id && h[j].status == DeploymentStatus::Running),
    ensures
        ({
            let c = h[i].container_id->0;
            let (q, a) = step_spec(p, EventView::History(h));
            let (r, b) = step_spec(q, next);
            let (t, x) = step_spec(r, after);
            &&& a == ActionView::StopContainer(c)
            &&& b == ActionView::RemoveContainer(c)
            &&& x == ActionView::Persist(DeploymentView { status: DeploymentStatus::Stopped, ..h[i] })
            &&& t.deployment == p.deployment
        }),
{
    lemma_first_running_other(h, p.deployment.id, 0);
    let k = first_running_other(h, p.deployment.id, 0);
    if let Some(k) = k {
        assert(k as int == i) by {
            if (k as int) < i {
                assert(!(h[k as int].id != p.deployment.id && h[k as int].status == DeploymentStatus::Running));
            }
        }
    } else {
        assert(!(h[i].id != p.deployment.id && h[i].status == DeploymentStatus::Running));
    }
}

/// When the history holds no running deployment other than the new one
/// (a first deploy), nothing is retired and the run ends.
pub proof fn lemma_nothing_to_retire(p: PipelineView, h: Seq<DeploymentView>)
    requires
        wf(p),
        p.stage is LoadHistory,
        forall|j: int| 0 <= j < h.len() ==> !(h[j].id != p.deployment.id && h[j].status == DeploymentStatus::Running),
    ensures
        step_spec(p, EventView::History(h)).1 == ActionView::Finish,
{
    lemma_first_running_other(h, p.deployment.id, 0);
    if let Some(k) = first_running_other(h, p.deployment.id, 0) {
        assert(!(h[k as int].id != p.deployment.id && h[k as int].status == DeploymentStatus::Running));
    }
}

/// Whatever the mode (build or rollback), the new container is created with
/// exactly the env vars that were loaded for it.
pub proof fn lemma_container_gets_loaded_env(p: PipelineView, env: Seq<(Seq<char>, Seq<char>)>)
    requires
        wf(p),
        p.stage is LoadEnv,
    ensures
        ({
            let q = step_spec(p, EventView::EnvLoaded(env)).0;
            step_spec(q, EventView::Done).1 matches ActionView::CreateContainer { env: given, .. } && given == env
        }),
{
}

/// The status this action persists for deployment `id`, if it persists that
/// deployment's row.
pub open spec fn own_persist(a: ActionView, id: i64) -> Option<DeploymentStatus> {
    match a {
        ActionView::Persist(x) => if x.id == id {
            Some(x.status)
        } else {
            None
        },
        _ => None,
    }
}

/// Whether `events`, fed one by one from `p`, are each an outcome the
/// awaited step can have.
pub open spec fn valid_run(p: PipelineView, events: Seq<EventView>) -> bool
    decreases events.len(),
{
    events.len() == 0 || (expects(p, events[0]) && valid_run(step_spec(p, events[0]).0, events.drop_first()))
}

/// The statuses persisted for the pipeline's own deployment, in order, while
/// `events` are fed one by one from `p`.
pub open spec fn own_persisted(p: PipelineView, events: Seq<EventView>) -> Seq<DeploymentStatus>
    decreases events.len(),
{
    if events.len() == 0 {
        Seq::empty()
    } else {
        let (q, a) = step_spec(p, events[0]);
        let rest = own_persisted(q, events.drop_first());
        match own_persist(a, p.deployment.id) {
            Some(s) => seq![s] + rest,
            None => rest,
        }
    }
}

/// Whether `statuses`, taken in order from `from`, is a chain of allowed
/// transitions.
pub open spec fn follows_lifecycle(from: DeploymentStatus, statuses: Seq<DeploymentStatus>) -> bool
    decreases statuses.len(),
{
    statuses.len() == 0 || (from.allows(statuses[0]) && follows_lifecycle(statuses[0], statuses.drop_first()))
}

/// The sequences of statuses a run may persist for a queued deployment:
/// `Building, Deploying, Running` cut short anywhere, possibly ended by one
/// `Failed` that never follows `Running`.
pub open spec fn queued_run_statuses(s: Seq<DeploymentStatus>) -> bool {
    ||| s == Seq::<DeploymentStatus>::empty()
    ||| s == seq![DeploymentStatus::Building]
    ||| s == seq![DeploymentStatus::Building, DeploymentStatus::Deploying]
    ||| s == seq![DeploymentStatus::Building, DeploymentStatus::Deploying, DeploymentStatus::Running]
    ||| s == seq![DeploymentStatus::Failed]
    ||| s == seq![DeploymentStatus::Building, DeploymentStatus::Failed]
    ||| s == seq![DeploymentStatus::Building, DeploymentStatus::Deploying, DeploymentStatus::Failed]
}

/// One step changes its own deployment's status only by persisting it, and
/// only along an allowed transition other than `Running -> Stopped`.
pub proof fn lemma_step_status(p: PipelineView, e: EventView)
    requires
        wf(p),
        expects(p, e),
    ensures
        ({
            let (q, a) = step_spec(p, e);
            &&& q.deployment.id == p.deployment.id
            &&& match own_persist(a, p.deployment.id) {
                Some(s) => {
                    &&& p.deployment.status.allows(s)
                    &&& s != DeploymentStatus::Stopped
                    &&& q.deployment.status == s
                },
                None => q.deployment.status == p.deployment.status,
            }
        }),
{
}

/// Over any run, the statuses persisted for the pipeline's own deployment
/// form a chain of allowed transitions from the status it started in, and
/// never include `Stopped`.
pub proof fn lemma_run_follows_lifecycle(p: PipelineView, events: Seq<EventView>)
    requires
        wf(p),
        valid_run(p, events),
    ensures
        follows_lifecycle(p.deployment.status, own_persisted(p, events)),
        forall|i: int| 0 <= i < own_persisted(p, events).len() ==> own_persisted(p, events)[i] != DeploymentStatus::Stopped,
    decreases events.len(),
{
    if events.len() > 0 {
        let e = events[0];
        let (q, a) = step_spec(p, e);
        lemma_step_keeps_wf(p, e);
        lemma_step_status(p, e);
        lemma_run_follows_lifecycle(q, events.drop_first());
        let rest = own_persisted(q, events.drop_first());
        match own_persist(a, p.deployment.id) {
            Some(s) => {
                let all = seq![s] + rest;
                assert(all[0] == s);
                assert(all.drop_first() =~= rest);
                assert(forall|i: int| 0 < i < all.len() ==> all[i] == rest[i - 1]);
            },
            None => {},
        }
    }
}

proof fn lemma_queued_statuses(s: Seq<DeploymentStatus>)
    requires
        follows_lifecycle(DeploymentStatus::Queued, s),
        forall|i: int| 0 <= i < s.len() ==> s[i] != DeploymentStatus::Stopped,
    ensures
        queued_run_statuses(s),
{
    if s.len() == 0 {
        assert(s =~= Seq::<DeploymentStatus>::empty());
    } else {
        let t1 = s.drop_first();
        assert(follows_lifecycle(s[0], t1));
        if s[0] == DeploymentStatus::Failed {
            assert(s =~= seq![DeploymentStatus::Failed]);
        } else if t1.len() > 0 {
            let t2 = t1.drop_first();
            assert(follows_lifecycle(t1[0], t2));
            assert(t1[0] == s[1]);
            if t1[0] == DeploymentStatus::Failed {
                assert(s =~= seq![DeploymentStatus::Building, DeploymentStatus::Failed]);
            } else if t2.len() > 0 {
                let t3 = t2.drop_first();
                assert(follows_lifecycle(t2[0], t3));
                assert(t2[0] == s[2]);
                if t2[0] == DeploymentStatus::Failed {
                    assert(s =~= seq![DeploymentStatus::Building, DeploymentStatus::Deploying, DeploymentStatus::Failed]);
                } else if t3.len() > 0 {
                    assert(t3[0] == s[3]);
                    assert(s[3] != DeploymentStatus::Stopped);
                    assert(false);
                } else {
                    assert(s =~= seq![DeploymentStatus::Building, DeploymentStatus::Deploying, DeploymentStatus::Running]);
                }
            } else {
                assert(s =~= seq![DeploymentStatus::Building, DeploymentStatus::Deploying]);
            }
        } else {
            assert(s =~= seq![DeploymentStatus::Building]);
        }
    }
}

/// Over a whole run of a queued deployment, whatever the outcomes of its
/// steps, the statuses persisted for that deployment, in order, are
/// `Building, Deploying, Running` cut short anywhere, possibly ended by one
/// `Failed`: no status is skipped or repeated, `Failed` never follows
/// `Running`, and the deployment is never persisted `Stopped`.
pub proof fn lemma_queued_run_persists_lifecycle(p: PipelineView, events: Seq<EventView>)
    requires
        wf(p),
        p.deployment.status == DeploymentStatus::Queued,
        valid_run(p, events),
    ensures
        queued_run_statuses(own_persisted(p, events)),
{
    lemma_run_follows_lifecycle(p, events);
    lemma_queued_statuses(own_persisted(p, events));
}

/// A rollback never clones, decrypts a deploy key or builds: it redeploys
/// the image it was given.
pub proof fn lemma_rollback_never_builds(p: PipelineView, e: EventView)
    requires
        wf(p),
        expects(p, e),
        p.mode is Rollback,
    ensures
        ({
            let a = step_spec(p, e).1;
            &&& !(a is CloneRepository)
            &&& !(a is DecryptDeployKey)
            &&& !(a is BuildImage)
        }),
        step_spec(p, e).1 matches ActionView::CreateContainer { image, .. } ==> image == p.mode->image_tag,
{
}

} // verus!

verus! {

/// Why a rollback could not be queued.
#[derive(Debug)]
pub enum RollbackError {
    /// The target deployment never produced an image to roll back to.
    NoImage,
    /// Persisting the new row failed.
    Domain(DomainError),
}

impl RollbackError {
    /// How a failed rollback is answered: a target without an image is a
    /// validation error carrying the description, a storage failure stays one.
    pub fn into_server_error(self) -> (e: ServerError)
        ensures
            match self {
                RollbackError::NoImage => e matches ServerError::Validation(m)
                    && m@ == "target deployment never produced an image to roll back to"@,
                RollbackError::Domain(d) => e == ServerError::Domain(d),
            },
    {
        match self {
            RollbackError::NoImage => ServerError::Validation(
                owned("target deployment never produced an image to roll back to"),
            ),
            RollbackError::Domain(d) => ServerError::Domain(d),
        }
    }
}

/// A new deployment row that redeploys `target`'s image: a fresh queued row
/// (history is never rewritten) carrying the target's commit, plus the image
/// tag to run. Fails when the target never reached a build.
pub fn plan_rollback(id: i64, application_id: i64, target: &Deployment, triggered_by: Option<i64>) -> (r: Result<(Deployment, String), RollbackError>)
    ensures
        target.image_tag is None <==> r is Err,
        r is Err ==> r matches Err(RollbackError::NoImage),
        r matches Ok((d, tag)) ==> {
            &&& Some(tag) == target.image_tag
            &&& d.id == id
            &&& d.application_id == application_id
            &&& d.status == DeploymentStatus::Queued
            &&& d.commit_sha == target.commit_sha
            &&& d.image_tag is None
            &&& d.container_id is None
            &&& d.error_message is None
            &&& d.triggered_by == triggered_by
        },
{
    match clone_opt(&target.image_tag) {
        None => Err(RollbackError::NoImage),
        Some(tag) => {
            let mut d = Deployment::queued(id, application_id, triggered_by);
            d.commit_sha = clone_opt(&target.commit_sha);
            Ok((d, tag))
        },
    }
}

/// How many `inspect` polls, one second apart, a freshly started container
/// must survive before it counts as healthy.
pub const HEALTH_CHECK_ATTEMPTS: u32 = 3;

/// What one poll of the new container showed.
pub enum Inspection {
    /// The container is running.
    Running,
    /// The container is in another state, given by its name.
    NotRunning(String),
    /// Inspecting the container failed with this description.
    Failed(String),
}

/// The verdict after one poll.
pub enum HealthVerdict {
    /// Still running; poll again after the next pause.
    Continue,
    /// Running on every poll of the window: the container is healthy.
    Healthy,
    /// The container is not healthy, for this reason.
    Unhealthy(String),
}

/// The health-check window over a freshly started container: healthy means
/// still `Running` at every poll, not just right after start, which catches
/// fast crash-loops a single check would miss.
pub struct HealthWindow {
    attempt: u32,
    finished: bool,
}

impl HealthWindow {
    /// The number of the next poll (1-based).
    pub closed spec fn attempt(self) -> nat {
        self.attempt as nat
    }

    /// Whether a verdict other than `Continue` was given.
    pub closed spec fn finished(self) -> bool {
        self.finished
    }

    pub closed spec fn wf(self) -> bool {
        1 <= self.attempt <= HEALTH_CHECK_ATTEMPTS
    }

    pub fn new() -> (w: HealthWindow)
        ensures
            w.wf(),
            w.attempt() == 1,
            !w.finished(),
    {
        HealthWindow { attempt: 1, finished: false }
    }

    /// Takes the result of the next poll. Every poll before the last that
    /// shows the container running continues the window; the last one makes
    /// it healthy; any other observation ends it as unhealthy.
    pub fn observe(&mut self, inspection: Inspection) -> (v: HealthVerdict)
        requires
            old(self).wf(),
            !old(self).finished(),
        ensures
            final(self).wf(),
            match inspection {
                Inspection::Running => if old(self).attempt() < HEALTH_CHECK_ATTEMPTS {
                    &&& v is Continue
                    &&& final(self).attempt() == old(self).attempt() + 1
                    &&& !final(self).finished()
                } else {
                    v is Healthy && final(self).finished()
                },
                Inspection::NotRunning(state) => final(self).finished() && (v matches HealthVerdict::Unhealthy(m)
                    && m@ == "container state is "@ + state@ + " on health check "@ + decimal(
                    old(self).attempt() as int,
                )),
                Inspection::Failed(e) => final(self).finished() && (v matches HealthVerdict::Unhealthy(m)
                    && m@ == "inspect failed on health check "@ + decimal(old(self).attempt() as int) + ": "@
                    + e@),
            },
    {
        match inspection {
            Inspection::Running => {
                if self.attempt < HEALTH_CHECK_ATTEMPTS {
                    self.attempt = self.attempt + 1;
                    HealthVerdict::Continue
                } else {
                    self.finished = true;
                    HealthVerdict::Healthy
                }
            },
            Inspection::NotRunning(state) => {
                self.finished = true;
                let mut m = owned("container state is ");
                push_str(&mut m, state.as_str());
                push_str(&mut m, " on health check ");
                push_u32(&mut m, self.attempt);
                HealthVerdict::Unhealthy(m)
            },
            Inspection::Failed(e) => {
                self.finished = true;
                let mut m = owned("inspect failed on health check ");
                push_u32(&mut m, self.attempt);
                push_str(&mut m, ": ");
                push_str(&mut m, e.as_str());
                HealthVerdict::Unhealthy(m)
            },
        }
    }
}

/// Describes a failure to list the application's env vars.
pub fn env_list_failure(e: &String) -> (m: String)
    ensures
        m@ == "failed to load env vars: "@ + e@,
{
    prefixed("failed to load env vars: ", e)
}

/// Describes a failure to decrypt one env var.
pub fn env_decrypt_failure(key: &String, e: &String) -> (m: String)
    ensures
        m@ == "failed to decrypt env var "@ + key@ + ": "@ + e@,
{
    let mut m = owned("failed to decrypt env var ");
    push_str(&mut m, key.as_str());
    push_str(&mut m, ": ");
    push_str(&mut m, e.as_str());
    m
}

} // verus!
