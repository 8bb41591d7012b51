use vstd::prelude::*;

use crate::routes::guard::{is_permission, permission, Check, RouteChecks};
use crate::domain::Application;
use crate::text::owned;

verus! {

/// The git ref deployed when none is given.
pub fn default_git_ref() -> (s: String)
    ensures
        s@ == "main"@,
{
    owned("main")
}

/// The Dockerfile path used when none is given.
pub fn default_dockerfile_path() -> (s: String)
    ensures
        s@ == "Dockerfile"@,
{
    owned("Dockerfile")
}

/// The build strategy used when none is given.
pub fn default_build_strategy() -> (s: String)
    ensures
        s@ == "dockerfile"@,
{
    owned("dockerfile")
}

/// The stored (encrypted) deploy key after an update, given the key the
/// request carries once encrypted: an omitted or empty key leaves the
/// stored one untouched (it is write-only, so a settings form cannot
/// prefill it), a non-empty one replaces it.
pub fn updated_deploy_key(stored: Option<String>, provided: &Option<String>, encrypted: Option<String>) -> (r: Option<String>)
    requires
        (provided matches Some(k) && k@.len() > 0) ==> encrypted is Some,
    ensures
        match provided {
            Some(k) => if k@.len() > 0 {
                r == encrypted
            } else {
                r == stored
            },
            None => r == stored,
        },
{
    match provided {
        Some(k) => if k.as_str().is_empty() {
            stored
        } else {
            encrypted
        },
        None => stored,
    }
}

/// The settings an update may change: everything set at creation except
/// the target server (moving an application is a re-provisioning, not a
/// configuration edit), the build strategy and CPU limit (carried beside),
/// and the deploy key (see `updated_deploy_key`).
pub struct ApplicationUpdate {
    pub name: String,
    pub slug: String,
    pub repo_url: String,
    pub git_ref: String,
    pub dockerfile_path: String,
    pub container_port: i32,
    pub memory_limit_mb: Option<i32>,
}

/// Applies an update: the given settings replace the stored ones, the
/// deploy key follows `updated_deploy_key`, and the identity, project,
/// target server and webhook secret never change.
pub fn apply_update(
    application: Application,
    update: ApplicationUpdate,
    provided_key: &Option<String>,
    encrypted_key: Option<String>,
) -> (r: Application)
    requires
        (provided_key matches Some(k) && k@.len() > 0) ==> encrypted_key is Some,
    ensures
        r.id == application.id,
        r.project_id == application.project_id,
        r.server_id == application.server_id,
        r.webhook_secret == application.webhook_secret,
        r.name == update.name,
        r.slug == update.slug,
        r.repo_url == update.repo_url,
        r.git_ref == update.git_ref,
        r.dockerfile_path == update.dockerfile_path,
        r.container_port == update.container_port,
        r.memory_limit_mb == update.memory_limit_mb,
        r.deploy_key == match provided_key {
            Some(k) => if k@.len() > 0 {
                encrypted_key
            } else {
                application.deploy_key
            },
            None => application.deploy_key,
        },
{
    let deploy_key = updated_deploy_key(application.deploy_key, provided_key, encrypted_key);
    Application {
        id: application.id,
        project_id: application.project_id,
        server_id: application.server_id,
        name: update.name,
        slug: update.slug,
        repo_url: update.repo_url,
        git_ref: update.git_ref,
        deploy_key,
        dockerfile_path: update.dockerfile_path,
        container_port: update.container_port,
        webhook_secret: application.webhook_secret,
        memory_limit_mb: update.memory_limit_mb,
    }
}

/// Whether the request carries a deploy key to encrypt.
pub fn replaces_deploy_key(provided: &Option<String>) -> (r: bool)
    ensures
        r == (provided matches Some(k) && k@.len() > 0),
{
    match provided {
        Some(k) => !k.as_str().is_empty(),
        None => false,
    }
}

/// What `update_application` checks before it acts, in order: the caller
/// may update applications in the team, the project is the team's, the
/// application is the project's, and the server it targets exists.
pub fn checks(team_id: i64, project_id: i64, application_id: i64) -> (r: RouteChecks)
    ensures
        r.wf(),
        r.passed() == 0,
        r.checks().len() == 4,
        is_permission(r.checks()[0], "update"@, "application"@),
        r.checks()[1] == (Check::Project { id: project_id, team: team_id }),
        r.checks()[2] == (Check::Application { id: application_id, project: Some(project_id) }),
        r.checks()[3] == Check::ApplicationServer,
{
    let mut v: Vec<Check> = Vec::new();
    v.push(permission("update", "application"));
    v.push(Check::Project { id: project_id, team: team_id });
    v.push(Check::Application { id: application_id, project: Some(project_id) });
    v.push(Check::ApplicationServer);
    RouteChecks::new(v)
}

} // verus!
