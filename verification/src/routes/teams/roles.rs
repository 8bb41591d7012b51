use vstd::prelude::*;

use crate::routes::guard::{is_permission, permission, RouteChecks};
use crate::domain::Role;

verus! {

/// A role assignable within a team.
pub struct RoleResponse {
    pub id: i64,
    pub name: String,
    /// `true` for the built-in roles every team gets, shared across all
    /// teams rather than owned by this one.
    pub is_builtin: bool,
}

impl RoleResponse {
    pub fn from_role(role: Role) -> (r: RoleResponse)
        ensures
            r.id == role.id,
            r.name == role.name,
            r.is_builtin == (role.team_id is None),
    {
        let is_builtin = role.is_builtin();
        RoleResponse { id: role.id, name: role.name, is_builtin }
    }
}

/// What `list_roles` checks before it acts, in order: the caller may read roles
/// in the team.
pub fn checks(team_id: i64) -> (r: RouteChecks)
    ensures
        r.wf(),
        r.passed() == 0,
        r.checks().len() == 1,
        is_permission(r.checks()[0], "read"@, "role"@),
{
    let mut v = Vec::new();
    v.push(permission("read", "role"));
    RouteChecks::new(v)
}

} // verus!
