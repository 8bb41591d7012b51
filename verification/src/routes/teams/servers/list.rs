use vstd::prelude::*;

use crate::routes::guard::{is_permission, permission, RouteChecks};
use crate::domain::Server;
use crate::text::owned;

verus! {

/// One server as `GET /teams/{team_id}/servers` lists it.
pub struct ServerResponse {
    pub id: i64,
    pub team_id: i64,
    pub name: String,
    pub hostname: String,
    pub ssh_port: i32,
    pub ssh_user: Option<String>,
    pub podman_socket_path: String,
    pub is_local: bool,
    pub status: String,
}

impl ServerResponse {
    pub fn from_server(s: Server) -> (r: ServerResponse)
        ensures
            r.id == s.id,
            r.team_id == s.team_id,
            r.name == s.name,
            r.hostname == s.hostname,
            r.ssh_port == s.ssh_port,
            r.ssh_user == s.ssh_user,
            r.podman_socket_path == s.podman_socket_path,
            r.is_local == s.is_local,
            r.status@ == s.status.name(),
    {
        let status = owned(s.status.as_str());
        ServerResponse {
            id: s.id,
            team_id: s.team_id,
            name: s.name,
            hostname: s.hostname,
            ssh_port: s.ssh_port,
            ssh_user: s.ssh_user,
            podman_socket_path: s.podman_socket_path,
            is_local: s.is_local,
            status,
        }
    }
}

/// What `list_servers` checks before it acts, in order: the caller may read
/// servers in the team.
pub fn checks(team_id: i64) -> (r: RouteChecks)
    ensures
        r.wf(),
        r.passed() == 0,
        r.checks().len() == 1,
        is_permission(r.checks()[0], "read"@, "server"@),
{
    let mut v = Vec::new();
    v.push(permission("read", "server"));
    RouteChecks::new(v)
}

} // verus!
