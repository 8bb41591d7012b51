use vstd::prelude::*;

use crate::routes::guard::{is_permission, permission, RouteChecks};
use crate::domain::CustomDomain;

verus! {

/// One custom domain as `GET .../domains` lists it.
pub struct DomainResponse {
    pub id: i64,
    pub application_id: i64,
    pub hostname: String,
}

impl DomainResponse {
    pub fn from_domain(d: CustomDomain) -> (r: DomainResponse)
        ensures
            r.id == d.id,
            r.application_id == d.application_id,
            r.hostname == d.hostname,
    {
        DomainResponse { id: d.id, application_id: d.application_id, hostname: d.hostname }
    }
}

/// What `list_domains` checks before it acts, in order: the caller may read
/// domains in the team.
pub fn checks(team_id: i64) -> (r: RouteChecks)
    ensures
        r.wf(),
        r.passed() == 0,
        r.checks().len() == 1,
        is_permission(r.checks()[0], "read"@, "domain"@),
{
    let mut v = Vec::new();
    v.push(permission("read", "domain"));
    RouteChecks::new(v)
}

} // verus!
