use vstd::prelude::*;

use crate::routes::guard::{is_permission, permission, RouteChecks};
use crate::domain::TeamMember;
use crate::text::owned;

verus! {

/// One member as `GET /teams/{team_id}/members` lists it.
pub struct TeamMemberResponse {
    pub user_id: i64,
    pub email: String,
    pub display_name: String,
    pub role_id: i64,
    pub role_name: String,
    pub joined_at: String,
}

impl TeamMemberResponse {
    /// Assembles a member's entry from the looked-up user (email, display
    /// name) and role name; what was not found is shown as empty.
    pub fn assemble(
        member: &TeamMember,
        user: Option<(String, String)>,
        role_name: Option<String>,
        joined_at: String,
    ) -> (r: TeamMemberResponse)
        ensures
            r.user_id == member.user_id,
            r.role_id == member.role_id,
            r.email@ == match user {
                Some(u) => u.0@,
                None => Seq::<char>::empty(),
            },
            r.display_name@ == match user {
                Some(u) => u.1@,
                None => Seq::<char>::empty(),
            },
            r.role_name@ == match role_name {
                Some(n) => n@,
                None => Seq::<char>::empty(),
            },
            r.joined_at == joined_at,
    {
        let (email, display_name) = match user {
            Some(u) => u,
            None => (String::new(), String::new()),
        };
        let role_name = match role_name {
            Some(n) => n,
            None => String::new(),
        };
        TeamMemberResponse {
            user_id: member.user_id,
            email,
            display_name,
            role_id: member.role_id,
            role_name,
            joined_at,
        }
    }
}

/// What `list_members` checks before it acts, in order: the caller may read
/// memberships in the team.
pub fn checks(team_id: i64) -> (r: RouteChecks)
    ensures
        r.wf(),
        r.passed() == 0,
        r.checks().len() == 1,
        is_permission(r.checks()[0], "read"@, "membership"@),
{
    let mut v = Vec::new();
    v.push(permission("read", "membership"));
    RouteChecks::new(v)
}

} // verus!
