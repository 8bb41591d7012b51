use podkit_server::error::{DomainError, ServerError};
use podkit_server::routes::guard::{judge, Answer, Check, RouteChecks};
use podkit_server::routes::teams::members::{add, update_role};
use podkit_server::routes::teams::projects::applications::deployments::{get as get_deployment, logs, rollback};
use podkit_server::routes::teams::projects::applications::domains::delete as delete_domain;
use podkit_server::routes::teams::projects::applications::env_vars::delete as delete_env_var;
use podkit_server::routes::teams::projects::applications::{create, delete as delete_application, list, update};
use podkit_server::routes::teams::projects::delete as delete_project;
use podkit_server::routes::teams::roles;
use podkit_server::routes::teams::servers::delete;

fn allow(checks: &mut RouteChecks) {
    assert!(matches!(checks.next(), Some(Check::Permission { .. })));
    assert_eq!(checks.answer(Answer::Verdict(Ok(true))), Ok(()));
}

#[test]
fn delete_server_checks_permission_then_server_then_locality() {
    let mut checks = delete::checks(1, 9);
    match checks.next() {
        Some(Check::Permission { action, resource }) => {
            assert_eq!(action, "delete");
            assert_eq!(resource, "server");
        }
        _ => panic!("permission comes first"),
    }
    assert_eq!(checks.answer(Answer::Verdict(Ok(true))), Ok(()));
    assert!(matches!(checks.next(), Some(Check::Server { id: 9, team: 1 })));
    assert_eq!(checks.answer(Answer::Row(Ok(Some(Some(1))))), Ok(()));
    assert!(matches!(checks.next(), Some(Check::ServerNotLocal)));
    assert_eq!(checks.answer(Answer::Flag(true)), Err(ServerError::CannotDeleteLocalServer));
}

#[test]
fn another_teams_server_is_not_found() {
    let mut checks = delete::checks(1, 9);
    allow(&mut checks);
    assert_eq!(checks.answer(Answer::Row(Ok(Some(Some(2))))), Err(ServerError::ServerNotFound));
    let mut checks = delete::checks(1, 9);
    allow(&mut checks);
    assert_eq!(checks.answer(Answer::Row(Ok(None))), Err(ServerError::ServerNotFound));
}

#[test]
fn remote_server_may_be_deleted_once_every_check_passed() {
    let mut checks = delete::checks(1, 9);
    allow(&mut checks);
    assert_eq!(checks.answer(Answer::Row(Ok(Some(Some(1))))), Ok(()));
    assert_eq!(checks.answer(Answer::Flag(false)), Ok(()));
    assert!(checks.next().is_none());
}

#[test]
fn denied_caller_is_forbidden_before_any_lookup() {
    let mut checks = update::checks(1, 2, 3);
    assert!(matches!(checks.next(), Some(Check::Permission { .. })));
    assert_eq!(checks.answer(Answer::Verdict(Ok(false))), Err(ServerError::Forbidden));
    assert!(matches!(checks.next(), Some(Check::Permission { .. })));
}

#[test]
fn update_application_scopes_project_application_and_server() {
    let mut checks = update::checks(1, 2, 3);
    allow(&mut checks);
    assert!(matches!(checks.next(), Some(Check::Project { id: 2, team: 1 })));
    assert_eq!(checks.answer(Answer::Row(Ok(Some(Some(1))))), Ok(()));
    assert!(matches!(checks.next(), Some(Check::Application { id: 3, project: Some(2) })));
    assert_eq!(checks.answer(Answer::Row(Ok(Some(Some(5))))), Err(ServerError::ApplicationNotFound));
    assert_eq!(checks.answer(Answer::Row(Ok(Some(Some(2))))), Ok(()));
    assert!(matches!(checks.next(), Some(Check::ApplicationServer)));
    assert_eq!(checks.answer(Answer::Row(Ok(None))), Err(ServerError::ServerNotFound));
    assert_eq!(checks.answer(Answer::Row(Ok(Some(Some(77))))), Ok(()));
    assert!(checks.next().is_none());
}

#[test]
fn create_and_list_application_checks() {
    let mut checks = create::checks(1, 2, 4);
    allow(&mut checks);
    assert!(matches!(checks.next(), Some(Check::Project { id: 2, team: 1 })));
    assert_eq!(checks.answer(Answer::Row(Ok(Some(Some(8))))), Err(ServerError::ProjectNotFound));
    assert_eq!(checks.answer(Answer::Row(Ok(Some(Some(1))))), Ok(()));
    assert!(matches!(checks.next(), Some(Check::Server { id: 4, team: 1 })));
    let mut checks = list::checks(1, 2);
    match checks.next() {
        Some(Check::Permission { action, resource }) => {
            assert_eq!(action, "read");
            assert_eq!(resource, "application");
        }
        _ => panic!("permission comes first"),
    }
    assert_eq!(checks.answer(Answer::Verdict(Ok(true))), Ok(()));
    assert_eq!(checks.answer(Answer::Row(Ok(Some(Some(1))))), Ok(()));
    assert!(checks.next().is_none());
}

#[test]
fn add_member_checks_user_role_then_membership() {
    let mut checks = add::checks(1, "a@b.c".to_string(), 6);
    allow(&mut checks);
    match checks.next() {
        Some(Check::UserByEmail { email }) => assert_eq!(email, "a@b.c"),
        _ => panic!("the user comes second"),
    }
    assert_eq!(
        checks.answer(Answer::Row(Ok(None))),
        Err(ServerError::Validation("no user with that email".to_string()))
    );
    assert_eq!(checks.answer(Answer::Row(Ok(Some(None)))), Ok(()));
    assert!(matches!(checks.next(), Some(Check::Role { id: 6, team: 1 })));
    assert_eq!(checks.answer(Answer::Row(Ok(Some(Some(2))))), Err(ServerError::RoleNotAllowed));
    assert_eq!(checks.answer(Answer::Row(Ok(None))), Err(ServerError::RoleNotAllowed));
    assert_eq!(checks.answer(Answer::Row(Ok(Some(None)))), Ok(()));
    assert!(matches!(checks.next(), Some(Check::NoMembership { team: 1 })));
    assert_eq!(checks.answer(Answer::Row(Ok(Some(None)))), Err(ServerError::AlreadyMember));
    assert_eq!(checks.answer(Answer::Row(Ok(None))), Ok(()));
    assert!(checks.next().is_none());
}

#[test]
fn update_role_needs_an_existing_member() {
    let mut checks = update_role::checks(1, 5, 6);
    allow(&mut checks);
    assert!(matches!(checks.next(), Some(Check::Membership { team: 1, user: 5 })));
    assert_eq!(
        checks.answer(Answer::Row(Ok(None))),
        Err(ServerError::Validation("member not found".to_string()))
    );
    assert_eq!(checks.answer(Answer::Row(Ok(Some(Some(1))))), Ok(()));
    assert!(matches!(checks.next(), Some(Check::Role { id: 6, team: 1 })));
    assert_eq!(checks.answer(Answer::Row(Ok(Some(Some(1))))), Ok(()));
    assert!(checks.next().is_none());
}

#[test]
fn logs_checks_deployment_then_where_its_logs_are() {
    let mut checks = logs::checks(1, 3, 40);
    allow(&mut checks);
    assert!(matches!(checks.next(), Some(Check::Deployment { id: 40, application: Some(3) })));
    assert_eq!(checks.answer(Answer::Row(Ok(Some(Some(4))))), Err(ServerError::DeploymentNotFound));
    let mut source = logs::source_checks(3);
    assert!(matches!(source.next(), Some(Check::Application { id: 3, project: None })));
    assert_eq!(source.answer(Answer::Row(Ok(Some(Some(99))))), Ok(()));
    assert!(matches!(source.next(), Some(Check::ApplicationServer)));
}

#[test]
fn lookup_failures_propagate_as_domain_errors() {
    let failure = DomainError::Infrastructure("db down".to_string());
    let check = Check::Project { id: 2, team: 1 };
    assert_eq!(judge(&check, Answer::Row(Err(failure.clone()))), Err(ServerError::Domain(failure.clone())));
    let check = Check::Permission { action: "read".to_string(), resource: "team".to_string() };
    assert_eq!(judge(&check, Answer::Verdict(Err(failure.clone()))), Err(ServerError::Domain(failure)));
}

#[test]
fn rollback_scopes_project_application_then_deployment() {
    let mut checks = rollback::checks(1, 2, 3, 40);
    allow(&mut checks);
    assert_eq!(checks.answer(Answer::Row(Ok(Some(Some(1))))), Ok(()));
    assert_eq!(checks.answer(Answer::Row(Ok(Some(Some(2))))), Ok(()));
    assert!(matches!(checks.next(), Some(Check::Deployment { id: 40, application: Some(3) })));
    assert_eq!(checks.answer(Answer::Row(Ok(Some(Some(9))))), Err(ServerError::DeploymentNotFound));
}

#[test]
fn deleting_rows_scopes_them_to_their_owner() {
    let mut checks = delete_application::checks(1, 2, 3);
    allow(&mut checks);
    assert!(matches!(checks.next(), Some(Check::Application { id: 3, project: Some(2) })));
    let mut checks = delete_project::checks(1, 2);
    allow(&mut checks);
    assert_eq!(checks.answer(Answer::Row(Ok(Some(Some(5))))), Err(ServerError::ProjectNotFound));
    let mut checks = delete_domain::checks(1, 3, 8);
    allow(&mut checks);
    assert_eq!(checks.answer(Answer::Row(Ok(Some(Some(4))))), Err(ServerError::DomainNotFound));
    let mut checks = delete_env_var::checks(1, 3, 8);
    allow(&mut checks);
    assert_eq!(checks.answer(Answer::Row(Ok(None))), Err(ServerError::EnvVarNotFound));
}

#[test]
fn any_deployment_may_be_read_by_id() {
    let mut checks = get_deployment::checks(1, 40);
    allow(&mut checks);
    assert!(matches!(checks.next(), Some(Check::Deployment { id: 40, application: None })));
    assert_eq!(checks.answer(Answer::Row(Ok(Some(Some(123))))), Ok(()));
    assert!(checks.next().is_none());
}

#[test]
fn listing_roles_only_asks_permission() {
    let mut checks = roles::checks(1);
    match checks.next() {
        Some(Check::Permission { action, resource }) => {
            assert_eq!(action, "read");
            assert_eq!(resource, "role");
        }
        _ => panic!("permission is the only check"),
    }
    assert_eq!(checks.answer(Answer::Verdict(Ok(true))), Ok(()));
    assert!(checks.next().is_none());
}
