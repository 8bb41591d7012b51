use podkit_server::domain::{Deployment, DeploymentStatus};
use podkit_server::error::{DomainError, ServerError};
use podkit_server::routes::teams::projects::applications::stop::{StopAction, StopEvent, StopSequence};

fn stopped_row() -> Deployment {
    let mut d = Deployment::queued(2, 1, None);
    d.status = DeploymentStatus::Stopped;
    d.container_id = Some("c-2".to_string());
    d
}

#[test]
fn row_is_stored_before_the_container_is_touched() {
    let (mut s, a) = StopSequence::start(stopped_row(), "c-2".to_string());
    assert!(matches!(a, StopAction::Persist(d) if d.status == DeploymentStatus::Stopped));
    assert!(matches!(s.step(StopEvent::Done), StopAction::LookupServer));
    assert!(matches!(s.step(StopEvent::Done), StopAction::Connect));
    assert!(matches!(s.step(StopEvent::Done), StopAction::StopContainer(c) if c == "c-2"));
    assert!(matches!(s.step(StopEvent::Done), StopAction::RemoveContainer(c) if c == "c-2"));
    assert!(matches!(s.step(StopEvent::Failed), StopAction::Respond(Ok(d)) if d.id == 2));
}

#[test]
fn failed_store_never_touches_the_container() {
    let (mut s, _) = StopSequence::start(stopped_row(), "c-2".to_string());
    match s.step(StopEvent::StoreFailed(DomainError::Infrastructure("db".to_string()))) {
        StopAction::Respond(Err(e)) => assert_eq!(e, ServerError::Domain(DomainError::Infrastructure("db".to_string()))),
        _ => panic!("expected the storage error"),
    }
}

#[test]
fn container_side_failures_still_answer_stopped() {
    let (mut s, _) = StopSequence::start(stopped_row(), "c-2".to_string());
    s.step(StopEvent::Done);
    assert!(matches!(s.step(StopEvent::ServerMissing), StopAction::Respond(Ok(_))));

    let (mut s, _) = StopSequence::start(stopped_row(), "c-2".to_string());
    s.step(StopEvent::Done);
    s.step(StopEvent::Done);
    assert!(matches!(s.step(StopEvent::Failed), StopAction::Respond(Ok(_))));

    let (mut s, _) = StopSequence::start(stopped_row(), "c-2".to_string());
    s.step(StopEvent::Done);
    s.step(StopEvent::Done);
    s.step(StopEvent::Done);
    // A failed graceful stop skips the removal.
    assert!(matches!(s.step(StopEvent::Failed), StopAction::Respond(Ok(_))));
}
