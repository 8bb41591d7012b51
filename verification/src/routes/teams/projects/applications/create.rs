use vstd::prelude::*;

use crate::routes::guard::{is_permission, permission, Check, RouteChecks};
use crate::text::owned;

verus! {

/// The git ref deployed when none is given.
pub fn default_git_ref() -> (s: String)
    ensures
        s@ == "main"@,
{
    owned("main")
}

/// The Dockerfile path used when none is given.
pub fn default_dockerfile_path() -> (s: String)
    ensures
        s@ == "Dockerfile"@,
{
    owned("Dockerfile")
}

/// The build strategy used when none is given.
pub fn default_build_strategy() -> (s: String)
    ensures
        s@ == "dockerfile"@,
{
    owned("dockerfile")
}

/// The deploy key to encrypt and store: a missing or empty key means a
/// public repository, stored as no key.
pub fn deploy_key_to_store(deploy_key: Option<String>) -> (r: Option<String>)
    ensures
        match deploy_key {
            Some(k) => if k@.len() > 0 {
                r == Some(k)
            } else {
                r is None
            },
            None => r is None,
        },
{
    match deploy_key {
        Some(k) => if k.as_str().is_empty() {
            None
        } else {
            Some(k)
        },
        None => None,
    }
}

/// What `create_application` checks before it acts, in order: the caller
/// may create applications in the team, the project is the team's, and the
/// target server is the team's.
pub fn checks(team_id: i64, project_id: i64, server_id: i64) -> (r: RouteChecks)
    ensures
        r.wf(),
        r.passed() == 0,
        r.checks().len() == 3,
        is_permission(r.checks()[0], "create"@, "application"@),
        r.checks()[1] == (Check::Project { id: project_id, team: team_id }),
        r.checks()[2] == (Check::Server { id: server_id, team: team_id }),
{
    let mut v: Vec<Check> = Vec::new();
    v.push(permission("create", "application"));
    v.push(Check::Project { id: project_id, team: team_id });
    v.push(Check::Server { id: server_id, team: team_id });
    RouteChecks::new(v)
}

} // verus!
