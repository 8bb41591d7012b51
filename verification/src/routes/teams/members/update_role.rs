use vstd::prelude::*;

use crate::routes::guard::{is_permission, permission, Check, RouteChecks};
use crate::domain::TeamMember;
use crate::error::ServerError;
use crate::text::owned;

verus! {

/// `PATCH /teams/{team_id}/members/{user_id}` body.
pub struct UpdateRoleRequest {
    pub role_id: i64,
}

/// The membership to change; none is a validation error.
pub fn member_found(member: Option<TeamMember>) -> (r: Result<TeamMember, ServerError>)
    ensures
        match member {
            Some(m) => r == Ok::<TeamMember, ServerError>(m),
            None => r matches Err(ServerError::Validation(msg)) && msg@ == "member not found"@,
        },
{
    match member {
        Some(m) => Ok(m),
        None => Err(ServerError::Validation(owned("member not found"))),
    }
}

/// What `update_member_role` checks before it acts, in order: the caller
/// may update memberships in the team, the user is a member, and the new
/// role is built in or the team's own.
pub fn checks(team_id: i64, user_id: i64, role_id: i64) -> (r: RouteChecks)
    ensures
        r.wf(),
        r.passed() == 0,
        r.checks().len() == 3,
        is_permission(r.checks()[0], "update"@, "membership"@),
        r.checks()[1] == (Check::Membership { team: team_id, user: user_id }),
        r.checks()[2] == (Check::Role { id: role_id, team: team_id }),
{
    let mut v: Vec<Check> = Vec::new();
    v.push(permission("update", "membership"));
    v.push(Check::Membership { team: team_id, user: user_id });
    v.push(Check::Role { id: role_id, team: team_id });
    RouteChecks::new(v)
}

} // verus!
