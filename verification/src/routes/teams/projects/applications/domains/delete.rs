use vstd::prelude::*;

use crate::routes::guard::{is_permission, permission, Check, RouteChecks};

verus! {

/// The id of the removed custom domain.
pub struct DeleteDomainResponse {
    pub id: i64,
}

/// What `delete_domain` checks before it acts, in order: the caller may delete
/// domains in the team and the domain is the application's.
pub fn checks(team_id: i64, application_id: i64, domain_id: i64) -> (r: RouteChecks)
    ensures
        r.wf(),
        r.passed() == 0,
        r.checks().len() == 2,
        is_permission(r.checks()[0], "delete"@, "domain"@),
        r.checks()[1] == (Check::CustomDomain { id: domain_id, application: application_id }),
{
    let mut v: Vec<Check> = Vec::new();
    v.push(permission("delete", "domain"));
    v.push(Check::CustomDomain { id: domain_id, application: application_id });
    RouteChecks::new(v)
}

} // verus!
