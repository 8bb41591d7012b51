//! podkit's own restart-policy enforcement. Podman is daemonless and does
//! not restart crashed containers on its own, so a periodic sweep looks at
//! every deployment marked `Running`, restarts containers that exited, and
//! gives up on ones that keep crashing.

use std::collections::HashMap;

use vstd::prelude::*;

use crate::domain::{Deployment, DeploymentStatus};
use crate::text::{owned, push_u32};

verus! {

broadcast use vstd::std_specs::hash::group_hash_axioms;

/// Seconds between two sweeps.
pub const SWEEP_INTERVAL_SECS: u64 = 15;

/// Restart attempts allowed per deployment before giving up and marking it
/// `Stopped` rather than restarting it forever.
pub const MAX_RESTART_ATTEMPTS: u32 = 5;

/// What to do about one running deployment after inspecting its container.
#[derive(Debug, PartialEq, Eq)]
pub enum Heal {
    /// The container runs; past attempts are forgiven.
    Healthy,
    /// The container exited: start it again; this is restart attempt `attempt`.
    Restart { attempt: u32 },
    /// The container kept crashing: mark the deployment `Stopped`.
    GiveUp,
}

/// Consecutive failed checks per deployment id.
pub struct RestartTracker {
    attempts: HashMap<i64, u32>,
}

impl View for RestartTracker {
    type V = Map<i64, u32>;

    closed spec fn view(&self) -> Map<i64, u32> {
        self.attempts@
    }
}

impl RestartTracker {
    /// The tracker's invariant.
    pub closed spec fn wf(&self) -> bool {
        forall|id: i64| #[trigger] self.attempts@.contains_key(id) ==> 1 <= self.attempts@[id] <= MAX_RESTART_ATTEMPTS
    }

    /// Every tracked count lies in `1..=MAX_RESTART_ATTEMPTS`.
    pub proof fn lemma_counts_bounded(&self, id: i64)
        requires
            self.wf(),
        ensures
            self@.contains_key(id) ==> 1 <= self@[id] <= MAX_RESTART_ATTEMPTS,
    {
    }

    pub fn new() -> (t: RestartTracker)
        ensures
            t.wf(),
            t@ == Map::<i64, u32>::empty(),
    {
        RestartTracker { attempts: HashMap::new() }
    }

    /// Drops the counters of deployments no longer `Running` (redeployed
    /// over, rolled back or given up on), so a stale count never lingers.
    pub fn retain_running(&mut self, running: &Vec<i64>)
        requires
            old(self).wf(),
        ensures
            final(self).wf(),
            final(self)@ == old(self)@.restrict(running@.to_set()),
    {
        let mut kept: HashMap<i64, u32> = HashMap::new();
        let mut i: usize = 0;
        while i < running.len()
            invariant
                i <= running.len(),
                kept@ == self.attempts@.restrict(running@.take(i as int).to_set()),
            decreases running.len() - i,
        {
            let id = running[i];
            proof {
                assert(vstd::std_specs::hash::obeys_key_model::<i64>());
                assert(vstd::std_specs::hash::builds_valid_hashers::<std::collections::hash_map::RandomState>());
            }
            assert(running@.take(i + 1) =~= running@.take(i as int).push(id));
            assert(running@.take(i + 1).to_set() =~= running@.take(i as int).to_set().insert(id)) by {
                broadcast use vstd::seq_lib::lemma_seq_contains_after_push;
            }
            match self.attempts.get(&id) {
                Some(count) => {
                    kept.insert(id, *count);
                    assert(kept@ =~= self.attempts@.restrict(running@.take(i + 1).to_set()));
                },
                None => {
                    assert(kept@ =~= self.attempts@.restrict(running@.take(i + 1).to_set()));
                },
            }
            i = i + 1;
        }
        assert(running@.take(running.len() as int) =~= running@);
        self.attempts = kept;
    }

    /// Records one check of deployment `id`'s container. A running container
    /// clears its counter; an exited one counts one more failure and is
    /// restarted, until the count would exceed `MAX_RESTART_ATTEMPTS`, at
    /// which point the monitor gives up and forgets the counter.
    pub fn record_check(&mut self, id: i64, container_running: bool) -> (h: Heal)
        requires
            old(self).wf(),
        ensures
            final(self).wf(),
            (final(self)@, h) == check_spec(old(self)@, id, container_running),
            final(self)@.remove(id) == old(self)@.remove(id),
    {
        proof {
            assert(vstd::std_specs::hash::obeys_key_model::<i64>());
            assert(vstd::std_specs::hash::builds_valid_hashers::<std::collections::hash_map::RandomState>());
        }
        proof {
            lemma_check_touches_only_its_deployment(self.attempts@, id, container_running);
        }
        if container_running {
            self.attempts.remove(&id);
            return Heal::Healthy;
        }
        let previous: u32 = match self.attempts.get(&id) {
            Some(count) => *count,
            None => 0,
        };
        let count = previous + 1;
        if count > MAX_RESTART_ATTEMPTS {
            self.attempts.remove(&id);
            Heal::GiveUp
        } else {
            self.attempts.insert(id, count);
            Heal::Restart { attempt: count }
        }
    }
}

/// The consecutive failed checks counted so far for deployment `id`.
pub open spec fn failure_count(m: Map<i64, u32>, id: i64) -> nat {
    if m.contains_key(id) {
        m[id] as nat
    } else {
        0
    }
}

/// One check of deployment `id` against the counters `m`: the new
/// counters and what to do.
pub open spec fn check_spec(m: Map<i64, u32>, id: i64, container_running: bool) -> (Map<i64, u32>, Heal) {
    let count = failure_count(m, id);
    if container_running {
        (m.remove(id), Heal::Healthy)
    } else if count + 1 > MAX_RESTART_ATTEMPTS {
        (m.remove(id), Heal::GiveUp)
    } else {
        (m.insert(id, (count + 1) as u32), Heal::Restart { attempt: (count + 1) as u32 })
    }
}

/// `k` consecutive failed checks of deployment `id`: the counters after
/// them and the decision taken at each.
pub open spec fn failed_checks(m: Map<i64, u32>, id: i64, k: nat) -> (Map<i64, u32>, Seq<Heal>)
    decreases k,
{
    if k == 0 {
        (m, Seq::empty())
    } else {
        let (m1, hs) = failed_checks(m, id, (k - 1) as nat);
        let (m2, h) = check_spec(m1, id, false);
        (m2, hs.push(h))
    }
}

/// A container that keeps exiting is restarted exactly
/// `MAX_RESTART_ATTEMPTS` times, with attempts numbered from 1, and given up
/// on at the next failed check, which also forgets its counter.
pub proof fn lemma_gives_up_after_max_restarts(m: Map<i64, u32>, id: i64)
    requires
        !m.contains_key(id),
    ensures
        failed_checks(m, id, 6).1 == seq![
            Heal::Restart { attempt: 1 },
            Heal::Restart { attempt: 2 },
            Heal::Restart { attempt: 3 },
            Heal::Restart { attempt: 4 },
            Heal::Restart { attempt: 5 },
            Heal::GiveUp,
        ],
        !failed_checks(m, id, 6).0.contains_key(id),
{
    reveal_with_fuel(failed_checks, 7);
    assert(failed_checks(m, id, 6).1 =~= seq![
        Heal::Restart { attempt: 1 },
        Heal::Restart { attempt: 2 },
        Heal::Restart { attempt: 3 },
        Heal::Restart { attempt: 4 },
        Heal::Restart { attempt: 5 },
        Heal::GiveUp,
    ]);
}

/// The restarts that `j` failed checks give after `k` earlier ones.
pub open spec fn restarts_after(k: nat, j: nat) -> Seq<Heal> {
    Seq::new(j, |i: int| Heal::Restart { attempt: (k + i + 1) as u32 })
}

proof fn lemma_failed_checks_restart(m: Map<i64, u32>, id: i64, j: nat)
    requires
        failure_count(m, id) + j <= MAX_RESTART_ATTEMPTS,
    ensures
        failed_checks(m, id, j).1 == restarts_after(failure_count(m, id), j),
        failure_count(failed_checks(m, id, j).0, id) == failure_count(m, id) + j,
    decreases j,
{
    if j > 0 {
        lemma_failed_checks_restart(m, id, (j - 1) as nat);
        assert(failed_checks(m, id, j).1 =~= restarts_after(failure_count(m, id), j));
    }
}

/// Whatever count of failed checks a deployment has already reached, a
/// container that keeps exiting is restarted exactly as many more times as
/// `MAX_RESTART_ATTEMPTS` leaves, with attempts numbered on from that count,
/// and given up on at the next failed check, which forgets its counter. So
/// across any number of sweeps a crashing container is restarted at most
/// `MAX_RESTART_ATTEMPTS` times before the monitor gives up on it.
pub proof fn lemma_gives_up_from_any_count(m: Map<i64, u32>, id: i64)
    requires
        m.contains_key(id) ==> m[id] <= MAX_RESTART_ATTEMPTS,
    ensures
        ({
            let k = failure_count(m, id);
            let (after, heals) = failed_checks(m, id, (MAX_RESTART_ATTEMPTS - k + 1) as nat);
            &&& heals == restarts_after(k, (MAX_RESTART_ATTEMPTS - k) as nat).push(Heal::GiveUp)
            &&& !after.contains_key(id)
        }),
{
    let k = failure_count(m, id);
    let j = (MAX_RESTART_ATTEMPTS - k) as nat;
    lemma_failed_checks_restart(m, id, j);
    assert(failed_checks(m, id, j + 1).1 =~= restarts_after(k, j).push(Heal::GiveUp));
}

/// A check concerns one deployment only: the counters of every other
/// deployment are left exactly as they were, whatever the check found, so a
/// crash-looping container keeps counting towards giving up while others
/// are checked.
pub proof fn lemma_check_touches_only_its_deployment(m: Map<i64, u32>, id: i64, container_running: bool)
    ensures
        check_spec(m, id, container_running).0.remove(id) == m.remove(id),
        forall|k: i64|
            k != id ==> (#[trigger] check_spec(m, id, container_running).0.contains_key(k) == m.contains_key(k)
                && (m.contains_key(k) ==> check_spec(m, id, container_running).0[k] == m[k])),
{
    assert(check_spec(m, id, container_running).0.remove(id) =~= m.remove(id));
}

/// A healthy check always forgives past failures.
pub proof fn lemma_healthy_check_clears_counter(m: Map<i64, u32>, id: i64)
    ensures
        !check_spec(m, id, true).0.contains_key(id),
        check_spec(m, id, true).1 == Heal::Healthy,
{
}

/// The message recorded on a deployment the monitor gave up on.
pub fn give_up_message() -> (m: String)
    ensures
        m@ == "container crashed and exceeded "@ + crate::text::decimal(MAX_RESTART_ATTEMPTS as int)
            + " restart attempts"@,
{
    let mut m = owned("container crashed and exceeded ");
    push_u32(&mut m, MAX_RESTART_ATTEMPTS);
    crate::text::push_str(&mut m, " restart attempts");
    m
}

/// The row to persist for a deployment the monitor gives up on: marked
/// `Stopped` with the reason recorded. `None` when the deployment cannot
/// move to `Stopped` (it is no longer `Running`), in which case nothing is
/// written.
pub fn give_up(deployment: &Deployment) -> (r: Option<Deployment>)
    ensures
        deployment.status == DeploymentStatus::Running <==> r is Some,
        r matches Some(d) ==> {
            &&& d.status == DeploymentStatus::Stopped
            &&& d.error_message matches Some(m) && m@ == "container crashed and exceeded "@
                + crate::text::decimal(MAX_RESTART_ATTEMPTS as int) + " restart attempts"@
            &&& d.id == deployment.id
            &&& d.application_id == deployment.application_id
            &&& d.commit_sha == deployment.commit_sha
            &&& d.image_tag == deployment.image_tag
            &&& d.container_id == deployment.container_id
            &&& d.triggered_by == deployment.triggered_by
        },
{
    let mut dying = deployment.duplicate();
    dying.error_message = Some(give_up_message());
    match dying.transition(DeploymentStatus::Stopped) {
        Ok(()) => Some(dying),
        Err(_) => None,
    }
}

} // verus!
