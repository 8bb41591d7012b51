//! The checks a route makes before it acts, in the order it makes them.
//! Each route lists its checks (see the `checks` function of the route's
//! module); the handler answers them one at a time, and a request goes
//! ahead only once every check has passed. The first check that fails
//! refuses the request, and nothing after it is asked.

use vstd::prelude::*;

use crate::auth::permission_outcome;
use crate::error::{DomainError, ServerError};
use crate::text::owned;

verus! {

/// One question a route puts to the authorizer or to storage.
pub enum Check {
    /// May the caller perform `action` on `resource` in the team?
    Permission { action: String, resource: String },
    /// Project `id`, which must belong to team `team`.
    Project { id: i64, team: i64 },
    /// Application `id`, which must belong to project `project` where one
    /// is given.
    Application { id: i64, project: Option<i64> },
    /// Server `id`, which must belong to team `team`.
    Server { id: i64, team: i64 },
    /// The server targeted by the application an earlier check found.
    ApplicationServer,
    /// Deployment `id`, which must belong to application `application`
    /// where one is given.
    Deployment { id: i64, application: Option<i64> },
    /// Custom domain `id`, which must belong to application `application`.
    CustomDomain { id: i64, application: i64 },
    /// Env var `id`, which must belong to application `application`.
    EnvVar { id: i64, application: i64 },
    /// The user registered under `email`.
    UserByEmail { email: String },
    /// Role `id`, which must be built in or team `team`'s own.
    Role { id: i64, team: i64 },
    /// The membership in team `team` of the user an earlier check found;
    /// there must be none.
    NoMembership { team: i64 },
    /// The membership of user `user` in team `team`.
    Membership { team: i64, user: i64 },
    /// Whether the server an earlier check found is the podkit host itself;
    /// it must not be.
    ServerNotLocal,
}

/// What the handler found out for one check.
pub enum Answer {
    /// The authorizer's verdict.
    Verdict(Result<bool, DomainError>),
    /// A lookup: `None` when no row was found, otherwise the owner of the
    /// row found (its team, project or application; `None` for a row
    /// without one, such as a built-in role).
    Row(Result<Option<Option<i64>>, DomainError>),
    /// A yes-or-no property of a row an earlier check found.
    Flag(bool),
}

/// Whether `c` asks the authorizer about `action` on `resource`.
pub open spec fn is_permission(c: Check, action: Seq<char>, resource: Seq<char>) -> bool {
    c matches Check::Permission { action: a, resource: r } && a@ == action && r@ == resource
}

/// Whether `a` is the kind of answer check `c` takes.
pub open spec fn answers(c: Check, a: Answer) -> bool {
    match c {
        Check::Permission { .. } => a is Verdict,
        Check::ServerNotLocal => a is Flag,
        _ => a is Row,
    }
}

/// Whether a row with owner `owner` satisfies check `c`.
pub open spec fn row_fits(c: Check, owner: Option<i64>) -> bool {
    match c {
        Check::Project { team, .. } => owner == Some(team),
        Check::Application { project, .. } => match project {
            Some(p) => owner == Some(p),
            None => true,
        },
        Check::Server { team, .. } => owner == Some(team),
        Check::Deployment { application, .. } => match application {
            Some(a) => owner == Some(a),
            None => true,
        },
        Check::CustomDomain { application, .. } => owner == Some(application),
        Check::EnvVar { application, .. } => owner == Some(application),
        Check::Role { team, .. } => owner is None || owner == Some(team),
        Check::NoMembership { .. } => false,
        _ => true,
    }
}

/// Whether answer `a` lets check `c` pass.
pub open spec fn passes(c: Check, a: Answer) -> bool {
    match a {
        Answer::Verdict(v) => c is Permission && v == Ok::<bool, DomainError>(true),
        Answer::Row(Ok(Some(owner))) => !(c is Permission) && !(c is ServerNotLocal) && row_fits(c, owner),
        Answer::Row(Ok(None)) => c is NoMembership,
        Answer::Row(Err(_)) => false,
        Answer::Flag(local) => c is ServerNotLocal && !local,
    }
}

/// Whether `e` is how the route answers when check `c` fails on `a`: a
/// failure to ask is a domain error; otherwise each check has its own
/// refusal, and a resource that belongs elsewhere is refused exactly like
/// one that does not exist.
pub open spec fn refusal(c: Check, a: Answer, e: ServerError) -> bool {
    match a {
        Answer::Verdict(Err(d)) => e == ServerError::Domain(d),
        Answer::Row(Err(d)) => e == ServerError::Domain(d),
        _ => match c {
            Check::Permission { .. } => e == ServerError::Forbidden,
            Check::Project { .. } => e == ServerError::ProjectNotFound,
            Check::Application { .. } => e == ServerError::ApplicationNotFound,
            Check::Server { .. } => e == ServerError::ServerNotFound,
            Check::ApplicationServer => e == ServerError::ServerNotFound,
            Check::Deployment { .. } => e == ServerError::DeploymentNotFound,
            Check::CustomDomain { .. } => e == ServerError::DomainNotFound,
            Check::EnvVar { .. } => e == ServerError::EnvVarNotFound,
            Check::UserByEmail { .. } => e matches ServerError::Validation(m) && m@ == "no user with that email"@,
            Check::Role { .. } => e == ServerError::RoleNotAllowed,
            Check::NoMembership { .. } => e == ServerError::AlreadyMember,
            Check::Membership { .. } => e matches ServerError::Validation(m) && m@ == "member not found"@,
            Check::ServerNotLocal => e == ServerError::CannotDeleteLocalServer,
        },
    }
}

/// The check that asks the authorizer about `action` on `resource`.
pub(crate) fn permission(action: &str, resource: &str) -> (c: Check)
    ensures
        is_permission(c, action@, resource@),
{
    Check::Permission { action: owned(action), resource: owned(resource) }
}

/// The error a failed check refuses the request with, when no failure to
/// ask is involved.
fn refusal_of(c: &Check) -> (e: ServerError)
    ensures
        match c {
            Check::Permission { .. } => e == ServerError::Forbidden,
            Check::Project { .. } => e == ServerError::ProjectNotFound,
            Check::Application { .. } => e == ServerError::ApplicationNotFound,
            Check::Server { .. } => e == ServerError::ServerNotFound,
            Check::ApplicationServer => e == ServerError::ServerNotFound,
            Check::Deployment { .. } => e == ServerError::DeploymentNotFound,
            Check::CustomDomain { .. } => e == ServerError::DomainNotFound,
            Check::EnvVar { .. } => e == ServerError::EnvVarNotFound,
            Check::UserByEmail { .. } => e matches ServerError::Validation(m) && m@ == "no user with that email"@,
            Check::Role { .. } => e == ServerError::RoleNotAllowed,
            Check::NoMembership { .. } => e == ServerError::AlreadyMember,
            Check::Membership { .. } => e matches ServerError::Validation(m) && m@ == "member not found"@,
            Check::ServerNotLocal => e == ServerError::CannotDeleteLocalServer,
        },
{
    match c {
        Check::Permission { .. } => ServerError::Forbidden,
        Check::Project { .. } => ServerError::ProjectNotFound,
        Check::Application { .. } => ServerError::ApplicationNotFound,
        Check::Server { .. } => ServerError::ServerNotFound,
        Check::ApplicationServer => ServerError::ServerNotFound,
        Check::Deployment { .. } => ServerError::DeploymentNotFound,
        Check::CustomDomain { .. } => ServerError::DomainNotFound,
        Check::EnvVar { .. } => ServerError::EnvVarNotFound,
        Check::UserByEmail { .. } => ServerError::Validation(owned("no user with that email")),
        Check::Role { .. } => ServerError::RoleNotAllowed,
        Check::NoMembership { .. } => ServerError::AlreadyMember,
        Check::Membership { .. } => ServerError::Validation(owned("member not found")),
        Check::ServerNotLocal => ServerError::CannotDeleteLocalServer,
    }
}

fn fits(c: &Check, owner: Option<i64>) -> (r: bool)
    ensures
        r == row_fits(*c, owner),
{
    match c {
        Check::Project { team, .. } => owner == Some(*team),
        Check::Application { project, .. } => match project {
            Some(p) => owner == Some(*p),
            None => true,
        },
        Check::Server { team, .. } => owner == Some(*team),
        Check::Deployment { application, .. } => match application {
            Some(a) => owner == Some(*a),
            None => true,
        },
        Check::CustomDomain { application, .. } => owner == Some(*application),
        Check::EnvVar { application, .. } => owner == Some(*application),
        Check::Role { team, .. } => match owner {
            None => true,
            Some(o) => o == *team,
        },
        Check::NoMembership { .. } => false,
        _ => true,
    }
}

/// Judges answer `a` to check `c`: `Ok` when the check passes, otherwise
/// the error the route answers with.
pub fn judge(c: &Check, a: Answer) -> (r: Result<(), ServerError>)
    requires
        answers(*c, a),
    ensures
        passes(*c, a) <==> r is Ok,
        r matches Err(e) ==> refusal(*c, a, e),
{
    match a {
        Answer::Verdict(v) => permission_outcome(v),
        Answer::Row(Err(d)) => Err(ServerError::Domain(d)),
        Answer::Row(Ok(None)) => match c {
            Check::NoMembership { .. } => Ok(()),
            _ => Err(refusal_of(c)),
        },
        Answer::Row(Ok(Some(owner))) => if fits(c, owner) {
            Ok(())
        } else {
            Err(refusal_of(c))
        },
        Answer::Flag(local) => if local {
            Err(ServerError::CannotDeleteLocalServer)
        } else {
            Ok(())
        },
    }
}

/// A route's checks and how many of them have passed so far.
pub struct RouteChecks {
    checks: Vec<Check>,
    passed: usize,
}

impl RouteChecks {
    /// The route's checks, in the order it makes them.
    pub closed spec fn checks(&self) -> Seq<Check> {
        self.checks@
    }

    /// How many checks have passed.
    pub closed spec fn passed(&self) -> nat {
        self.passed as nat
    }

    pub closed spec fn wf(&self) -> bool {
        self.passed <= self.checks.len()
    }

    /// Nothing asked yet.
    pub fn new(checks: Vec<Check>) -> (r: RouteChecks)
        ensures
            r.wf(),
            r.checks() == checks@,
            r.passed() == 0,
    {
        RouteChecks { checks, passed: 0 }
    }

    /// The next check to make; `None` once every check has passed and the
    /// route may act.
    pub fn next(&self) -> (r: Option<&Check>)
        requires
            self.wf(),
        ensures
            match r {
                Some(c) => self.passed() < self.checks().len() && *c == self.checks()[self.passed() as int],
                None => self.passed() == self.checks().len(),
            },
    {
        if self.passed < self.checks.len() {
            Some(&self.checks[self.passed])
        } else {
            None
        }
    }

    /// Takes the answer to the next check. A passing answer moves on to the
    /// check after it; a failing one refuses the request with the route's
    /// error, and the request goes no further.
    pub fn answer(&mut self, a: Answer) -> (r: Result<(), ServerError>)
        requires
            old(self).wf(),
            old(self).passed() < old(self).checks().len(),
            answers(old(self).checks()[old(self).passed() as int], a),
        ensures
            final(self).wf(),
            final(self).checks() == old(self).checks(),
            passes(old(self).checks()[old(self).passed() as int], a) <==> r is Ok,
            r is Ok ==> final(self).passed() == old(self).passed() + 1,
            r is Err ==> final(self).passed() == old(self).passed(),
            r matches Err(e) ==> refusal(old(self).checks()[old(self).passed() as int], a, e),
    {
        let r = judge(&self.checks[self.passed], a);
        if r.is_ok() {
            self.passed = self.passed + 1;
        }
        r
    }
}

} // verus!
