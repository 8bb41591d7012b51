use vstd::prelude::*;

use crate::routes::guard::{is_permission, permission, Check, RouteChecks};
use crate::domain::{Role, TeamMember};
use crate::error::ServerError;
use crate::text::owned;

verus! {

/// `POST /teams/{team_id}/members` body.
pub struct AddMemberRequest {
    pub email: String,
    pub role_id: i64,
}

/// A membership as `POST /teams/{team_id}/members` returns it.
pub struct TeamMemberResponse {
    pub user_id: i64,
    pub role_id: i64,
}

impl TeamMemberResponse {
    pub fn from_member(member: &TeamMember) -> (r: TeamMemberResponse)
        ensures
            r.user_id == member.user_id,
            r.role_id == member.role_id,
    {
        TeamMemberResponse { user_id: member.user_id, role_id: member.role_id }
    }
}

/// Whether a role may be given to a member of team `team_id`: built-in
/// roles everywhere, team roles only in their own team.
pub open spec fn assignable_in(role: Role, team_id: i64) -> bool {
    match role.team_id {
        Some(t) => t == team_id,
        None => true,
    }
}

/// A role can be assigned when it exists and is assignable in the team;
/// otherwise the request is refused with `RoleNotAllowed`.
pub fn role_assignable(role: Option<Role>, team_id: i64) -> (r: Result<(), ServerError>)
    ensures
        match role {
            Some(role) => if assignable_in(role, team_id) {
                r is Ok
            } else {
                r == Err::<(), ServerError>(ServerError::RoleNotAllowed)
            },
            None => r == Err::<(), ServerError>(ServerError::RoleNotAllowed),
        },
{
    match role {
        None => Err(ServerError::RoleNotAllowed),
        Some(role) => match role.team_id {
            Some(t) => if t != team_id {
                Err(ServerError::RoleNotAllowed)
            } else {
                Ok(())
            },
            None => Ok(()),
        },
    }
}

/// Built-in roles are assignable in every team.
pub proof fn lemma_builtin_roles_assignable_everywhere(role: Role, team_id: i64)
    requires
        role.team_id is None,
    ensures
        assignable_in(role, team_id),
{
}

/// The user to add, found by email; none is a validation error.
pub fn user_by_email(user_id: Option<i64>) -> (r: Result<i64, ServerError>)
    ensures
        match user_id {
            Some(id) => r == Ok::<i64, ServerError>(id),
            None => r matches Err(ServerError::Validation(m)) && m@ == "no user with that email"@,
        },
{
    match user_id {
        Some(id) => Ok(id),
        None => Err(ServerError::Validation(owned("no user with that email"))),
    }
}

/// A user who is already a member cannot be added again.
pub fn not_already_member(existing: Option<TeamMember>) -> (r: Result<(), ServerError>)
    ensures
        existing is Some <==> r == Err::<(), ServerError>(ServerError::AlreadyMember),
        existing is None <==> r is Ok,
{
    match existing {
        Some(_) => Err(ServerError::AlreadyMember),
        None => Ok(()),
    }
}

/// What `add_member` checks before it acts, in order: the caller may
/// create memberships in the team, a user is registered under `email`, the
/// role is built in or the team's own, and that user is not yet a member.
pub fn checks(team_id: i64, email: String, role_id: i64) -> (r: RouteChecks)
    ensures
        r.wf(),
        r.passed() == 0,
        r.checks().len() == 4,
        is_permission(r.checks()[0], "create"@, "membership"@),
        r.checks()[1] matches Check::UserByEmail { email: e } && e@ == email@,
        r.checks()[2] == (Check::Role { id: role_id, team: team_id }),
        r.checks()[3] == (Check::NoMembership { team: team_id }),
{
    let mut v: Vec<Check> = Vec::new();
    v.push(permission("create", "membership"));
    v.push(Check::UserByEmail { email });
    v.push(Check::Role { id: role_id, team: team_id });
    v.push(Check::NoMembership { team: team_id });
    RouteChecks::new(v)
}

} // verus!
