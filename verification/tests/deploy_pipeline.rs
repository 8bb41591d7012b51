use podkit_server::deploy_pipeline::{
    env_decrypt_failure, env_list_failure, plan_rollback, Action, DeployMode, DeployPipeline, Event, HealthVerdict,
    HealthWindow, Inspection, RollbackError, HEALTH_CHECK_ATTEMPTS,
};
use podkit_server::domain::{Deployment, DeploymentStatus};
use podkit_server::error::ServerError;

fn persisted_status(a: &Action) -> DeploymentStatus {
    match a {
        Action::Persist(d) => d.status,
        _ => panic!("expected a persist action"),
    }
}

fn queued() -> Deployment {
    Deployment::queued(77, 12, Some(3))
}

fn running_previous(id: i64, container: &str) -> Deployment {
    let mut d = Deployment::queued(id, 12, None);
    d.status = DeploymentStatus::Running;
    d.container_id = Some(container.to_string());
    d.image_tag = Some("podkit-app-12:old".to_string());
    d
}

#[test]
fn build_run_goes_through_every_step_and_retires_the_previous_container() {
    let (mut p, a) = DeployPipeline::start(queued(), DeployMode::Build { has_deploy_key: true }, Some(256), "podkit".to_string());
    assert!(matches!(a, Action::LookupServer));
    let a = p.step(Event::Done);
    assert_eq!(persisted_status(&a), DeploymentStatus::Building);
    assert!(matches!(p.step(Event::Done), Action::DecryptDeployKey));
    assert!(matches!(p.step(Event::Done), Action::CloneRepository));
    assert!(matches!(p.step(Event::Cloned("0123456789abcdef0123".to_string())), Action::Connect));
    match p.step(Event::Done) {
        Action::BuildImage(tag) => assert_eq!(tag, "podkit-app-12:0123456789ab"),
        _ => panic!("expected an image build"),
    }
    let a = p.step(Event::Done);
    assert_eq!(persisted_status(&a), DeploymentStatus::Deploying);
    assert!(matches!(p.step(Event::Done), Action::ProvisionIngress));
    assert!(matches!(p.step(Event::Done), Action::LoadEnv));
    let env = vec![("PORT".to_string(), "8080".to_string())];
    assert!(matches!(p.step(Event::EnvLoaded(env.clone())), Action::LoadDomains));
    match p.step(Event::Done) {
        Action::CreateContainer { name, image, command, env: given, ports, networks, binds, memory_bytes, max_retries } => {
            assert_eq!(name, "podkit-app-12-77");
            assert_eq!(image, "podkit-app-12:0123456789ab");
            assert_eq!(command, None);
            assert_eq!(given, env);
            assert!(ports.is_empty());
            assert_eq!(networks, vec!["podkit".to_string()]);
            assert!(binds.is_empty());
            assert_eq!(memory_bytes, Some(268_435_456));
            assert_eq!(max_retries, 5);
        }
        _ => panic!("expected container creation"),
    }
    match p.step(Event::Created("c-new".to_string())) {
        Action::StartContainer(c) => assert_eq!(c, "c-new"),
        _ => panic!("expected a start"),
    }
    match p.step(Event::Done) {
        Action::CheckHealth(c) => assert_eq!(c, "c-new"),
        _ => panic!("expected a health check"),
    }
    match p.step(Event::Done) {
        Action::Persist(d) => {
            assert_eq!(d.status, DeploymentStatus::Running);
            assert_eq!(d.container_id.as_deref(), Some("c-new"));
            assert_eq!(d.commit_sha.as_deref(), Some("0123456789abcdef0123"));
            assert_eq!(d.image_tag.as_deref(), Some("podkit-app-12:0123456789ab"));
        }
        _ => panic!("expected the running row"),
    }
    assert!(matches!(p.step(Event::Done), Action::Settle));
    assert!(matches!(p.step(Event::Done), Action::LoadHistory));
    let mut current = queued();
    current.status = DeploymentStatus::Running;
    let history = vec![current, running_previous(50, "c-old"), running_previous(40, "c-older")];
    match p.step(Event::History(history)) {
        Action::StopContainer(c) => assert_eq!(c, "c-old"),
        _ => panic!("expected the previous container to be stopped"),
    }
    match p.step(Event::Failed("already gone".to_string())) {
        Action::RemoveContainer(c) => assert_eq!(c, "c-old"),
        _ => panic!("expected the previous container to be removed"),
    }
    match p.step(Event::Done) {
        Action::Persist(d) => {
            assert_eq!(d.id, 50);
            assert_eq!(d.status, DeploymentStatus::Stopped);
        }
        _ => panic!("expected the previous row to be stopped"),
    }
    assert!(matches!(p.step(Event::Done), Action::Finish));
    assert!(p.is_done());
}

#[test]
fn public_repository_skips_the_deploy_key() {
    let (mut p, _) = DeployPipeline::start(queued(), DeployMode::Build { has_deploy_key: false }, None, "podkit".to_string());
    p.step(Event::Done);
    assert!(matches!(p.step(Event::Done), Action::CloneRepository));
}

#[test]
fn missing_server_fails_the_deployment() {
    let (mut p, _) = DeployPipeline::start(queued(), DeployMode::Build { has_deploy_key: false }, None, "podkit".to_string());
    match p.step(Event::ServerMissing) {
        Action::Persist(d) => {
            assert_eq!(d.status, DeploymentStatus::Failed);
            assert_eq!(d.error_message.as_deref(), Some("target server not found"));
        }
        _ => panic!("expected the failed row"),
    }
    assert!(matches!(p.step(Event::Done), Action::Finish));
}

#[test]
fn clone_failure_is_recorded_with_its_cause() {
    let (mut p, _) = DeployPipeline::start(queued(), DeployMode::Build { has_deploy_key: false }, None, "podkit".to_string());
    p.step(Event::Done);
    p.step(Event::Done);
    match p.step(Event::Failed("repository not found".to_string())) {
        Action::Persist(d) => {
            assert_eq!(d.status, DeploymentStatus::Failed);
            assert_eq!(d.error_message.as_deref(), Some("git clone failed: repository not found"));
        }
        _ => panic!("expected the failed row"),
    }
}

#[test]
fn unhealthy_container_is_removed_and_the_old_one_keeps_serving() {
    let (mut p, _) = DeployPipeline::start(queued(), DeployMode::Rollback { image_tag: "podkit-app-12:abc".to_string() }, None, "podkit".to_string());
    p.step(Event::Done);
    assert!(matches!(p.step(Event::Done), Action::Connect));
    let a = p.step(Event::Done);
    assert_eq!(persisted_status(&a), DeploymentStatus::Deploying);
    p.step(Event::Done);
    p.step(Event::Done);
    p.step(Event::EnvLoaded(Vec::new()));
    match p.step(Event::Done) {
        Action::CreateContainer { image, .. } => assert_eq!(image, "podkit-app-12:abc"),
        _ => panic!("expected container creation"),
    }
    p.step(Event::Created("c-new".to_string()));
    p.step(Event::Done);
    match p.step(Event::Failed("container state is Exited on health check 2".to_string())) {
        Action::RemoveContainer(c) => assert_eq!(c, "c-new"),
        _ => panic!("expected the new container to be removed"),
    }
    match p.step(Event::Done) {
        Action::Persist(d) => {
            assert_eq!(d.status, DeploymentStatus::Failed);
            assert_eq!(
                d.error_message.as_deref(),
                Some("new container failed health check: container state is Exited on health check 2")
            );
            assert_eq!(d.container_id, None);
        }
        _ => panic!("expected the failed row"),
    }
    assert!(matches!(p.step(Event::Done), Action::Finish));
}

#[test]
fn first_deploy_has_nothing_to_retire() {
    let (mut p, _) = DeployPipeline::start(queued(), DeployMode::Rollback { image_tag: "img".to_string() }, None, "podkit".to_string());
    for e in [Event::Done, Event::Done, Event::Done, Event::Done, Event::Done, Event::EnvLoaded(Vec::new()), Event::Done] {
        p.step(e);
    }
    p.step(Event::Created("c1".to_string()));
    p.step(Event::Done);
    p.step(Event::Done);
    p.step(Event::Done);
    assert!(matches!(p.step(Event::Done), Action::LoadHistory));
    let mut current = queued();
    current.status = DeploymentStatus::Running;
    assert!(matches!(p.step(Event::History(vec![current])), Action::Finish));
}

#[test]
fn failed_status_persist_ends_the_run_silently() {
    let (mut p, _) = DeployPipeline::start(queued(), DeployMode::Build { has_deploy_key: false }, None, "podkit".to_string());
    p.step(Event::Done);
    assert!(matches!(p.step(Event::Failed("db down".to_string())), Action::Finish));
}

#[test]
fn rollback_plan_reuses_the_image_and_commit() {
    let mut target = running_previous(50, "c-old");
    target.commit_sha = Some("deadbeef".to_string());
    let (d, tag) = plan_rollback(90, 12, &target, Some(4)).ok().unwrap();
    assert_eq!(tag, "podkit-app-12:old");
    assert_eq!(d.id, 90);
    assert_eq!(d.status, DeploymentStatus::Queued);
    assert_eq!(d.commit_sha.as_deref(), Some("deadbeef"));
    assert_eq!(d.image_tag, None);
    assert_eq!(d.triggered_by, Some(4));
}

#[test]
fn rollback_without_image_is_a_validation_error() {
    let target = Deployment::queued(5, 12, None);
    let err = plan_rollback(90, 12, &target, None).err().unwrap();
    assert!(matches!(err, RollbackError::NoImage));
    assert_eq!(
        err.into_server_error(),
        ServerError::Validation("target deployment never produced an image to roll back to".to_string())
    );
}

#[test]
fn health_window_needs_every_poll_running() {
    let mut w = HealthWindow::new();
    assert_eq!(HEALTH_CHECK_ATTEMPTS, 3);
    assert!(matches!(w.observe(Inspection::Running), HealthVerdict::Continue));
    assert!(matches!(w.observe(Inspection::Running), HealthVerdict::Continue));
    assert!(matches!(w.observe(Inspection::Running), HealthVerdict::Healthy));
}

#[test]
fn health_window_reports_the_failing_poll() {
    let mut w = HealthWindow::new();
    w.observe(Inspection::Running);
    match w.observe(Inspection::NotRunning("Exited".to_string())) {
        HealthVerdict::Unhealthy(m) => assert_eq!(m, "container state is Exited on health check 2"),
        _ => panic!("expected unhealthy"),
    }
    let mut w = HealthWindow::new();
    match w.observe(Inspection::Failed("socket closed".to_string())) {
        HealthVerdict::Unhealthy(m) => assert_eq!(m, "inspect failed on health check 1: socket closed"),
        _ => panic!("expected unhealthy"),
    }
}

#[test]
fn env_failure_messages() {
    assert_eq!(env_list_failure(&"timeout".to_string()), "failed to load env vars: timeout");
    assert_eq!(
        env_decrypt_failure(&"API_KEY".to_string(), &"bad key".to_string()),
        "failed to decrypt env var API_KEY: bad key"
    );
}

#[test]
fn failed_deploy_persists_building_deploying_then_failed() {
    let (mut p, _) = DeployPipeline::start(queued(), DeployMode::Build { has_deploy_key: false }, None, "podkit".to_string());
    let mut persisted = Vec::new();
    let events = vec![
        Event::Done,
        Event::Done,
        Event::Cloned("0123456789abcdef0123".to_string()),
        Event::Done,
        Event::Done,
        Event::Done,
        Event::Done,
        Event::EnvLoaded(Vec::new()),
        Event::Done,
        Event::Failed("no space left".to_string()),
        Event::Done,
    ];
    for e in events {
        if let Action::Persist(d) = p.step(e) {
            if d.id == 77 {
                persisted.push(d.status);
            }
        }
    }
    assert_eq!(
        persisted,
        vec![DeploymentStatus::Building, DeploymentStatus::Deploying, DeploymentStatus::Failed]
    );
    assert!(p.is_done());
}

#[test]
fn env_failures_are_recorded_with_their_cause() {
    let to_load_env = |p: &mut DeployPipeline| {
        for e in [Event::Done, Event::Done, Event::Done, Event::Done, Event::Done] {
            p.step(e);
        }
    };
    let (mut p, _) =
        DeployPipeline::start(queued(), DeployMode::Rollback { image_tag: "img".to_string() }, None, "podkit".to_string());
    to_load_env(&mut p);
    match p.step(Event::EnvListFailed("db down".to_string())) {
        Action::Persist(d) => {
            assert_eq!(d.status, DeploymentStatus::Failed);
            assert_eq!(d.error_message.as_deref(), Some("failed to load env vars: db down"));
        }
        _ => panic!("expected the failed row"),
    }
    let (mut p, _) =
        DeployPipeline::start(queued(), DeployMode::Rollback { image_tag: "img".to_string() }, None, "podkit".to_string());
    to_load_env(&mut p);
    match p.step(Event::EnvDecryptFailed { key: "API_KEY".to_string(), error: "bad tag".to_string() }) {
        Action::Persist(d) => {
            assert_eq!(d.status, DeploymentStatus::Failed);
            assert_eq!(d.error_message.as_deref(), Some("failed to decrypt env var API_KEY: bad tag"));
        }
        _ => panic!("expected the failed row"),
    }
}
