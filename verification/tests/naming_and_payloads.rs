use podkit_server::domain::{
    CustomDomain, Deployment, DeploymentStatus, EnvVar, Project, Role, Server, ServerStatus, Team, TeamMember,
};
use podkit_server::error::{DomainError, ServerError};
use podkit_server::naming::{container_name, image_tag, memory_limit_bytes, short_sha_fits};
use podkit_server::routes::auth::login::{password_outcome, session_cookie, token_outcome, unknown_user};
use podkit_server::routes::auth::register::email_available;
use podkit_server::routes::teams::create::TeamResponse;
use podkit_server::routes::teams::list::TeamsResponse;
use podkit_server::routes::teams::members::add::{not_already_member, role_assignable, user_by_email, TeamMemberResponse};
use podkit_server::routes::teams::members::list::TeamMemberResponse as ListedMember;
use podkit_server::routes::teams::members::update_role::member_found;
use podkit_server::routes::teams::projects::applications::create::{
    default_build_strategy, default_dockerfile_path, default_git_ref, deploy_key_to_store,
};
use podkit_server::routes::teams::projects::applications::deployments::get::DeploymentResponse as FullDeployment;
use podkit_server::routes::teams::projects::applications::deployments::list::DeploymentResponse;
use podkit_server::routes::teams::projects::applications::deployments::logs::logs_container;
use podkit_server::routes::teams::projects::applications::domains::create::DomainResponse;
use podkit_server::routes::teams::projects::applications::env_vars::list::EnvVarResponse;
use podkit_server::routes::teams::projects::applications::restart::restart_target;
use podkit_server::routes::teams::projects::applications::stop::stop_plan;
use podkit_server::routes::teams::projects::applications::update::{replaces_deploy_key, updated_deploy_key};
use podkit_server::routes::teams::projects::create::ProjectResponse;
use podkit_server::routes::teams::roles::RoleResponse;
use podkit_server::routes::teams::servers::create::{default_podman_socket_path, default_ssh_port, record_probe, ServerResponse};
use podkit_server::routes::teams::servers::delete::deletable;
use podkit_server::text::i64_to_string;

fn deployment(id: i64, status: DeploymentStatus, image: Option<&str>, container: Option<&str>) -> Deployment {
    let mut d = Deployment::queued(id, 1, None);
    d.status = status;
    d.image_tag = image.map(str::to_string);
    d.container_id = container.map(str::to_string);
    d
}

#[test]
fn names_follow_the_documented_formats() {
    assert_eq!(image_tag(42, "abcdef1234567890"), "podkit-app-42:abcdef123456");
    assert_eq!(image_tag(42, "abc"), "podkit-app-42:abc");
    assert_eq!(container_name(42, -7), "podkit-app-42--7");
    assert_eq!(i64_to_string(i64::MIN), i64::MIN.to_string());
    assert_eq!(i64_to_string(0), "0");
    assert_eq!(i64_to_string(1234567890123), "1234567890123");
}

#[test]
fn short_hash_is_cut_at_twelve_bytes() {
    assert!(short_sha_fits("abcdef1234567890"));
    assert!(short_sha_fits("ééééééxyz"));
    assert!(!short_sha_fits("abcdefghijkéxyz"));
    assert_eq!(image_tag(1, "ééééééxyz"), "podkit-app-1:éééééé");
}

#[test]
fn memory_limit_is_converted_to_bytes() {
    assert_eq!(memory_limit_bytes(Some(512)), Some(536_870_912));
    assert_eq!(memory_limit_bytes(Some(i32::MAX)), Some(i64::from(i32::MAX) * 1024 * 1024));
    assert_eq!(memory_limit_bytes(None), None);
}

#[test]
fn login_answers() {
    assert_eq!(unknown_user(), ServerError::InvalidCredentials);
    assert_eq!(password_outcome(Ok(false)), Err(ServerError::InvalidCredentials));
    assert_eq!(password_outcome(Ok(true)), Ok(()));
    assert_eq!(token_outcome(Ok("tok".to_string())).ok().unwrap().token, "tok");
    assert!(matches!(token_outcome(Err(())), Err(ServerError::Internal)));
    let c = session_cookie("tok".to_string());
    assert_eq!((c.name.as_str(), c.value.as_str(), c.path.as_str()), ("session", "tok", "/"));
    assert!(c.http_only && c.secure && c.same_site_strict);
    assert_eq!(c.max_age_hours, 24);
    assert_eq!(email_available(Ok(true)), Err(ServerError::EmailTaken));
    assert_eq!(email_available(Ok(false)), Ok(()));
}

#[test]
fn membership_rules() {
    let builtin = Role { id: 1, team_id: None, name: "Owner".to_string() };
    let own = Role { id: 2, team_id: Some(10), name: "Ops".to_string() };
    let foreign = Role { id: 3, team_id: Some(11), name: "Ops".to_string() };
    assert_eq!(role_assignable(Some(builtin.clone()), 10), Ok(()));
    assert_eq!(role_assignable(Some(own), 10), Ok(()));
    assert_eq!(role_assignable(Some(foreign), 10), Err(ServerError::RoleNotAllowed));
    assert_eq!(role_assignable(None, 10), Err(ServerError::RoleNotAllowed));
    assert_eq!(user_by_email(None), Err(ServerError::Validation("no user with that email".to_string())));
    assert_eq!(user_by_email(Some(5)), Ok(5));
    let m = TeamMember::new(1, 10, 5, 2);
    assert_eq!(not_already_member(Some(m)), Err(ServerError::AlreadyMember));
    assert_eq!(not_already_member(None), Ok(()));
    assert_eq!(member_found(None), Err(ServerError::Validation("member not found".to_string())));
    let mut m2 = member_found(Some(m)).unwrap();
    m2.change_role(9);
    assert_eq!(m2, TeamMember::new(1, 10, 5, 9));
    let r = TeamMemberResponse::from_member(&m2);
    assert_eq!((r.user_id, r.role_id), (5, 9));
    let listed = ListedMember::assemble(&m2, None, Some("Ops".to_string()), "2024-01-01".to_string());
    assert_eq!((listed.email.as_str(), listed.display_name.as_str(), listed.role_name.as_str()), ("", "", "Ops"));
    let rr = RoleResponse::from_role(builtin);
    assert!(rr.is_builtin);
}

#[test]
fn application_defaults_and_deploy_keys() {
    assert_eq!(default_git_ref(), "main");
    assert_eq!(default_dockerfile_path(), "Dockerfile");
    assert_eq!(default_build_strategy(), "dockerfile");
    assert_eq!(deploy_key_to_store(Some(String::new())), None);
    assert_eq!(deploy_key_to_store(Some("key".to_string())), Some("key".to_string()));
    let stored = Some("enc-old".to_string());
    assert_eq!(updated_deploy_key(stored.clone(), &Some(String::new()), None), stored);
    assert_eq!(updated_deploy_key(stored.clone(), &None, None), stored);
    assert_eq!(
        updated_deploy_key(stored, &Some("k".to_string()), Some("enc-new".to_string())),
        Some("enc-new".to_string())
    );
    assert!(replaces_deploy_key(&Some("k".to_string())));
    assert!(!replaces_deploy_key(&Some(String::new())));
}

#[test]
fn restart_and_stop_pick_from_history() {
    let history = vec![
        deployment(3, DeploymentStatus::Failed, None, None),
        deployment(2, DeploymentStatus::Running, Some("img-2"), Some("c-2")),
        deployment(1, DeploymentStatus::Stopped, Some("img-1"), None),
    ];
    assert_eq!(restart_target(&history), Ok(1));
    let (row, container) = stop_plan(&history).unwrap();
    assert_eq!(row.id, 2);
    assert_eq!(row.status, DeploymentStatus::Stopped);
    assert_eq!(container, "c-2");
    let none = vec![deployment(3, DeploymentStatus::Failed, None, None)];
    assert_eq!(
        restart_target(&none),
        Err(ServerError::Validation("no previous successful build to restart from, trigger a deploy instead".to_string()))
    );
    assert_eq!(stop_plan(&none).unwrap_err(), ServerError::Validation("application is not currently running".to_string()));
    let no_container = vec![deployment(4, DeploymentStatus::Running, Some("img"), None)];
    assert_eq!(
        stop_plan(&no_container).unwrap_err(),
        ServerError::Validation("running deployment has no container recorded".to_string())
    );
}

#[test]
fn lifecycle_transitions() {
    let mut d = Deployment::queued(1, 1, None);
    assert!(d.transition(DeploymentStatus::Running).is_err());
    assert_eq!(d.status, DeploymentStatus::Queued);
    assert_eq!(
        d.transition(DeploymentStatus::Stopped),
        Err(DomainError::InvalidTransition(DeploymentStatus::Queued, DeploymentStatus::Stopped))
    );
    for next in [DeploymentStatus::Building, DeploymentStatus::Deploying, DeploymentStatus::Running, DeploymentStatus::Stopped] {
        assert!(d.transition(next).is_ok());
    }
    assert!(d.transition(DeploymentStatus::Failed).is_err());
    assert_eq!(DeploymentStatus::Deploying.as_str(), "deploying");
}

#[test]
fn payloads_carry_their_models() {
    let mut d = deployment(8, DeploymentStatus::Running, Some("img"), Some("c"));
    d.commit_sha = Some("sha".to_string());
    let full = FullDeployment::from_deployment(d.duplicate());
    assert_eq!((full.status.as_str(), full.container_id.as_deref()), ("running", Some("c")));
    let listed = DeploymentResponse::from_deployment(d);
    assert_eq!((listed.id, listed.status.as_str(), listed.commit_sha.as_deref()), (8, "running", Some("sha")));
    let team = Team { id: 1, name: "n".to_string(), slug: "s".to_string(), logo: String::new() };
    assert_eq!(TeamsResponse::from_team(&team).slug, "s");
    assert_eq!(TeamResponse::from_team(team).name, "n");
    let p = ProjectResponse::from_project(Project::new(4, 1, "web".to_string(), "web".to_string()));
    assert_eq!((p.id, p.team_id), (4, 1));
    let dom = DomainResponse::from_domain(CustomDomain { id: 2, application_id: 3, hostname: "a.example".to_string() });
    assert_eq!(dom.hostname, "a.example");
    let ev = EnvVarResponse::from_env_var(EnvVar { id: 5, application_id: 3, key: "K".to_string(), value: "enc".to_string() });
    assert_eq!((ev.id, ev.key.as_str()), (5, "K"));
}

#[test]
fn servers_probe_and_deletion() {
    assert_eq!(default_ssh_port(), 22);
    assert_eq!(default_podman_socket_path(), "/run/podman/podman.sock");
    let mut s = Server::new_remote(1, 2, "box".to_string(), "box.example".to_string(), 22, "root".to_string(), "/run/podman/podman.sock".to_string());
    assert_eq!(s.status, ServerStatus::Pending);
    record_probe(&mut s, false);
    assert_eq!(s.status, ServerStatus::Pending);
    record_probe(&mut s, true);
    assert_eq!(ServerResponse::from_server(s.clone()).status, "active");
    assert_eq!(deletable(&s), Ok(()));
    s.is_local = true;
    assert_eq!(deletable(&s), Err(ServerError::CannotDeleteLocalServer));
}

#[test]
fn logs_wait_for_a_container() {
    assert_eq!(logs_container(&deployment(1, DeploymentStatus::Queued, None, None)), None);
    assert_eq!(logs_container(&deployment(1, DeploymentStatus::Running, None, Some("c"))), Some("c".to_string()));
}
