use vstd::prelude::*;

use crate::routes::guard::{is_permission, permission, RouteChecks};
use crate::domain::{Server, ServerStatus};
use crate::text::owned;

verus! {

/// The ssh port used when none is given.
pub fn default_ssh_port() -> (p: i32)
    ensures
        p == 22,
{
    22
}

/// The podman socket path used when none is given.
pub fn default_podman_socket_path() -> (s: String)
    ensures
        s@ == "/run/podman/podman.sock"@,
{
    owned("/run/podman/podman.sock")
}

/// `POST /teams/{team_id}/servers` body.
pub struct CreateServerRequest {
    pub name: String,
    pub hostname: String,
    pub ssh_port: i32,
    pub ssh_user: String,
    /// Plaintext on the wire; encrypted before storage.
    pub ssh_private_key: String,
    pub podman_socket_path: String,
}

/// A server as the API returns it.
pub struct ServerResponse {
    pub id: i64,
    pub team_id: i64,
    pub name: String,
    pub hostname: String,
    pub ssh_port: i32,
    pub ssh_user: Option<String>,
    pub podman_socket_path: String,
    pub is_local: bool,
    pub status: String,
}

impl ServerResponse {
    pub fn from_server(s: Server) -> (r: ServerResponse)
        ensures
            r.id == s.id,
            r.team_id == s.team_id,
            r.name == s.name,
            r.hostname == s.hostname,
            r.ssh_port == s.ssh_port,
            r.ssh_user == s.ssh_user,
            r.podman_socket_path == s.podman_socket_path,
            r.is_local == s.is_local,
            r.status@ == s.status.name(),
    {
        let status = owned(s.status.as_str());
        ServerResponse {
            id: s.id,
            team_id: s.team_id,
            name: s.name,
            hostname: s.hostname,
            ssh_port: s.ssh_port,
            ssh_user: s.ssh_user,
            podman_socket_path: s.podman_socket_path,
            is_local: s.is_local,
            status,
        }
    }
}

/// Records the connectivity probe on a freshly registered server: it
/// becomes `Active` when ssh and the container runtime answered, and stays
/// `Pending` otherwise (kept, so access can be fixed and retried).
pub fn record_probe(server: &mut Server, reachable: bool)
    requires
        old(server).status == ServerStatus::Pending,
    ensures
        final(server).status == if reachable { ServerStatus::Active } else { ServerStatus::Pending },
        final(server).id == old(server).id,
        final(server).team_id == old(server).team_id,
        final(server).name == old(server).name,
        final(server).hostname == old(server).hostname,
        final(server).ssh_port == old(server).ssh_port,
        final(server).ssh_user == old(server).ssh_user,
        final(server).podman_socket_path == old(server).podman_socket_path,
        final(server).is_local == old(server).is_local,
{
    if reachable {
        server.status = ServerStatus::Active;
    }
}

/// What `create_server` checks before it acts, in order: the caller may create
/// servers in the team.
pub fn checks(team_id: i64) -> (r: RouteChecks)
    ensures
        r.wf(),
        r.passed() == 0,
        r.checks().len() == 1,
        is_permission(r.checks()[0], "create"@, "server"@),
{
    let mut v = Vec::new();
    v.push(permission("create", "server"));
    RouteChecks::new(v)
}

} // verus!
