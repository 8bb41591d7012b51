use vstd::prelude::*;

use crate::routes::guard::{is_permission, permission, Check, RouteChecks};
use crate::domain::Server;
use crate::error::ServerError;

verus! {

/// The id of the deleted server.
pub struct DeleteServerResponse {
    pub id: i64,
}

/// The team's local server is the podkit host itself and cannot be deleted;
/// remote servers can.
pub fn deletable(server: &Server) -> (r: Result<(), ServerError>)
    ensures
        server.is_local <==> r == Err::<(), ServerError>(ServerError::CannotDeleteLocalServer),
        !server.is_local <==> r is Ok,
{
    if server.is_local {
        Err(ServerError::CannotDeleteLocalServer)
    } else {
        Ok(())
    }
}

/// What `delete_server` checks before it acts, in order: the caller may
/// delete servers in the team, the server is the team's, and it is not the
/// podkit host itself.
pub fn checks(team_id: i64, server_id: i64) -> (r: RouteChecks)
    ensures
        r.wf(),
        r.passed() == 0,
        r.checks().len() == 3,
        is_permission(r.checks()[0], "delete"@, "server"@),
        r.checks()[1] == (Check::Server { id: server_id, team: team_id }),
        r.checks()[2] == Check::ServerNotLocal,
{
    let mut v: Vec<Check> = Vec::new();
    v.push(permission("delete", "server"));
    v.push(Check::Server { id: server_id, team: team_id });
    v.push(Check::ServerNotLocal);
    RouteChecks::new(v)
}

} // verus!
