//! Listing a project's applications together with the servers they target.

use vstd::prelude::*;

use crate::routes::guard::{is_permission, permission, Check, RouteChecks};

verus! {

/// Whether `position` is where an application targeting `server_id` finds
/// its server among `server_ids`: the last entry with that id, as a map
/// keyed by server id keeps the last one inserted; `None` when the id is
/// not among them.
pub open spec fn is_server_position(server_ids: Seq<i64>, server_id: i64, position: Option<usize>) -> bool {
    match position {
        Some(j) => {
            &&& j < server_ids.len()
            &&& server_ids[j as int] == server_id
            &&& forall|k: int| j < k < server_ids.len() ==> server_ids[k] != server_id
        },
        None => forall|k: int| 0 <= k < server_ids.len() ==> server_ids[k] != server_id,
    }
}

/// Where the server with id `server_id` stands among `server_ids`.
pub fn server_position(server_ids: &Vec<i64>, server_id: i64) -> (r: Option<usize>)
    ensures
        is_server_position(server_ids@, server_id, r),
{
    let mut i: usize = server_ids.len();
    while i > 0
        invariant
            i <= server_ids.len(),
            forall|k: int| i <= k < server_ids.len() ==> server_ids@[k] != server_id,
        decreases i,
    {
        i = i - 1;
        if server_ids[i] == server_id {
            return Some(i);
        }
    }
    None
}

/// For each application, given by the id of the server it targets, where
/// that server stands among the team's servers. An application whose server
/// is not among them is listed without a public URL.
pub fn match_servers(application_server_ids: &Vec<i64>, team_server_ids: &Vec<i64>) -> (r: Vec<Option<usize>>)
    ensures
        r.len() == application_server_ids.len(),
        forall|i: int|
            0 <= i < r.len() ==> is_server_position(team_server_ids@, application_server_ids@[i], #[trigger] r@[i]),
{
    let mut r: Vec<Option<usize>> = Vec::new();
    let mut i: usize = 0;
    while i < application_server_ids.len()
        invariant
            i <= application_server_ids.len(),
            r.len() == i,
            forall|k: int| 0 <= k < i ==> is_server_position(team_server_ids@, application_server_ids@[k], #[trigger] r@[k]),
        decreases application_server_ids.len() - i,
    {
        let position = server_position(team_server_ids, application_server_ids[i]);
        r.push(position);
        i = i + 1;
    }
    r
}

/// What `list_applications` checks before it acts, in order: the caller may
/// read applications in the team, and the project is the team's.
pub fn checks(team_id: i64, project_id: i64) -> (r: RouteChecks)
    ensures
        r.wf(),
        r.passed() == 0,
        r.checks().len() == 2,
        is_permission(r.checks()[0], "read"@, "application"@),
        r.checks()[1] == (Check::Project { id: project_id, team: team_id }),
{
    let mut v: Vec<Check> = Vec::new();
    v.push(permission("read", "application"));
    v.push(Check::Project { id: project_id, team: team_id });
    RouteChecks::new(v)
}

} // verus!
