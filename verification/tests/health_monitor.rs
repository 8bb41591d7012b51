use podkit_server::domain::{Deployment, DeploymentStatus};
use podkit_server::health_monitor::{give_up, give_up_message, Heal, RestartTracker, MAX_RESTART_ATTEMPTS};

#[test]
fn crash_looping_container_is_restarted_five_times_then_given_up() {
    let mut t = RestartTracker::new();
    for attempt in 1..=MAX_RESTART_ATTEMPTS {
        assert_eq!(t.record_check(9, false), Heal::Restart { attempt });
    }
    assert_eq!(t.record_check(9, false), Heal::GiveUp);
    // The counter was forgotten: a later crash starts counting afresh.
    assert_eq!(t.record_check(9, false), Heal::Restart { attempt: 1 });
}

#[test]
fn healthy_check_forgives_past_crashes() {
    let mut t = RestartTracker::new();
    assert_eq!(t.record_check(3, false), Heal::Restart { attempt: 1 });
    assert_eq!(t.record_check(3, false), Heal::Restart { attempt: 2 });
    assert_eq!(t.record_check(3, true), Heal::Healthy);
    assert_eq!(t.record_check(3, false), Heal::Restart { attempt: 1 });
}

#[test]
fn sweep_drops_counters_of_deployments_no_longer_running() {
    let mut t = RestartTracker::new();
    t.record_check(1, false);
    t.record_check(2, false);
    t.record_check(2, false);
    t.retain_running(&vec![2, 5]);
    assert_eq!(t.record_check(1, false), Heal::Restart { attempt: 1 });
    assert_eq!(t.record_check(2, false), Heal::Restart { attempt: 3 });
}

#[test]
fn given_up_deployment_is_stopped_with_a_reason() {
    let mut d = Deployment::queued(4, 8, None);
    d.status = DeploymentStatus::Running;
    d.container_id = Some("c".to_string());
    let dying = give_up(&d).unwrap();
    assert_eq!(dying.status, DeploymentStatus::Stopped);
    assert_eq!(dying.error_message.as_deref(), Some("container crashed and exceeded 5 restart attempts"));
    assert_eq!(dying.container_id.as_deref(), Some("c"));
    assert_eq!(give_up_message(), "container crashed and exceeded 5 restart attempts");
}

#[test]
fn no_longer_running_deployment_is_not_rewritten() {
    let mut d = Deployment::queued(4, 8, None);
    d.status = DeploymentStatus::Stopped;
    assert!(give_up(&d).is_none());
}

#[test]
fn restarts_resume_from_an_earlier_count_then_give_up() {
    let mut t = RestartTracker::new();
    for attempt in 1..=3 {
        assert_eq!(t.record_check(4, false), Heal::Restart { attempt });
    }
    assert_eq!(t.record_check(4, false), Heal::Restart { attempt: 4 });
    assert_eq!(t.record_check(4, false), Heal::Restart { attempt: 5 });
    assert_eq!(t.record_check(4, false), Heal::GiveUp);
}
