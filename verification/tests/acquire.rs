use lease_lock::acquire::{AcquireLoop, AcquirePhase, Progress};
use lease_lock::client::{LeaseLockClient, Wait};
use lease_lock::error::{ApiFailure, Error};
use lease_lock::gateway::ApplyOutcome;
use lease_lock::protocol::{Reply, Request};
use lease_lock::state::LeaseState;
use lease_lock::time::Timestamp;

fn snapshot(holder: Option<&str>, renewed: i64, version: &str) -> LeaseState {
    LeaseState {
        lease_name: String::from("L"),
        holder: holder.map(String::from),
        renew_time: Timestamp { secs: renewed, nanos: 0 },
        lease_duration: 10,
        resource_version: String::from(version),
    }
}

fn at(secs: i64) -> Timestamp {
    Timestamp { secs, nanos: 0 }
}

fn run(timeout: Option<u128>) -> AcquireLoop {
    let (run, first) = AcquireLoop::begin(LeaseLockClient::new(String::from("L")), "B", timeout);
    assert!(matches!(first, Request::Get { ref name } if name == "L"));
    assert_eq!(run.phase, AcquirePhase::Reading);
    assert_eq!(run.holder_id, "B");
    assert_eq!(run.timeout, timeout);
    run
}

fn conflict() -> ApplyOutcome {
    ApplyOutcome::Conflict(ApiFailure { status: Some(409), detail: String::new() })
}

#[test]
fn wait_free_goes_on_when_nobody_owns_the_lease() {
    let free = snapshot(None, 100, "1");
    assert!(matches!(LeaseLockClient::wait_free(free, &at(100), Some(0), 0, 0), Wait::Free(_)));
    let expired = snapshot(Some("A"), 100, "1");
    match LeaseLockClient::wait_free(expired, &at(110), Some(0), 5, 7) {
        Wait::Free(state) => assert_eq!(state.resource_version, "1"),
        other => panic!("unexpected: {:?}", other),
    }
}

#[test]
fn wait_free_sleeps_while_the_deadline_is_not_crossed() {
    let held = || snapshot(Some("A"), 100, "1");
    assert!(matches!(LeaseLockClient::wait_free(held(), &at(105), None, 0, 10), Wait::Sleep(10)));
    assert!(matches!(
        LeaseLockClient::wait_free(held(), &at(105), None, u128::MAX, u128::MAX),
        Wait::Sleep(u128::MAX)
    ));
    assert!(matches!(
        LeaseLockClient::wait_free(held(), &at(105), Some(500), 100, 399),
        Wait::Sleep(399)
    ));
    assert!(matches!(
        LeaseLockClient::wait_free(held(), &at(105), Some(500), 100, 400),
        Wait::TimedOut
    ));
    assert!(matches!(
        LeaseLockClient::wait_free(held(), &at(105), Some(500), 500, 0),
        Wait::TimedOut
    ));
    assert!(matches!(
        LeaseLockClient::wait_free(held(), &at(105), Some(500), 501, 0),
        Wait::TimedOut
    ));
    assert!(matches!(
        LeaseLockClient::wait_free(held(), &at(105), Some(0), 0, 0),
        Wait::TimedOut
    ));
    assert!(matches!(
        LeaseLockClient::wait_free(held(), &at(105), Some(u128::MAX), 1, u128::MAX),
        Wait::TimedOut
    ));
    assert!(matches!(
        LeaseLockClient::wait_free(held(), &at(105), Some(u128::MAX), 1, u128::MAX - 2),
        Wait::Sleep(_)
    ));
}

#[test]
fn a_free_lease_is_claimed_under_the_version_read() {
    let mut run = run(None);
    assert!(run.expects(&Reply::Got(Err(Error::AcquireTimeout))));
    assert!(!run.expects(&Reply::Slept));
    let now = Timestamp { secs: 1_516_991_409, nanos: 453_829_000 };
    match run.advance_at(Reply::Got(Ok(snapshot(None, 0, "33"))), &now, 0, 0) {
        Progress::Do(Request::Apply { name, patch }) => {
            assert_eq!(name, "L");
            assert_eq!(patch.name, "L");
            assert_eq!(patch.resource_version, "33");
            assert_eq!(patch.holder_identity.as_deref(), Some("B"));
            assert_eq!(patch.acquire_time.as_deref(), Some("2018-01-26T18:30:09.453829+00:00"));
            assert_eq!(patch.renew_time.as_deref(), Some("2018-01-26T18:30:09.453829+00:00"));
            assert_eq!(patch.lease_duration_seconds, Some(10));
        }
        other => panic!("unexpected: {:?}", other),
    }
    assert_eq!(run.phase, AcquirePhase::Writing);
    assert_eq!(run.base.as_ref().unwrap().resource_version, "33");
    assert!(run.expects(&Reply::Applied(conflict())));
}

#[test]
fn a_won_claim_ends_the_run_with_the_new_record() {
    let mut run = run(None);
    run.advance_at(Reply::Got(Ok(snapshot(None, 0, "33"))), &at(1000), 0, 0);
    let after = snapshot(Some("B"), 1000, "34");
    match run.advance_at(Reply::Applied(ApplyOutcome::Applied(after)), &at(1000), 1, 0) {
        Progress::Acquired(state) => {
            assert_eq!(state.resource_version, "34");
            assert_eq!(state.holder.as_deref(), Some("B"));
        }
        other => panic!("unexpected: {:?}", other),
    }
    assert_eq!(run.phase, AcquirePhase::Finished);
    assert!(run.base.is_none());
    assert!(!run.expects(&Reply::Slept));
    assert!(!run.expects(&Reply::Got(Err(Error::AcquireTimeout))));
}

#[test]
fn a_conflict_starts_the_loop_over() {
    let mut run = run(None);
    run.advance_at(Reply::Got(Ok(snapshot(None, 0, "33"))), &at(1000), 0, 0);
    match run.advance_at(Reply::Applied(conflict()), &at(1000), 1, 0) {
        Progress::Do(Request::Get { name }) => assert_eq!(name, "L"),
        other => panic!("unexpected: {:?}", other),
    }
    assert_eq!(run.phase, AcquirePhase::Reading);
}

#[test]
fn a_record_that_shows_another_owner_starts_the_loop_over() {
    let mut run = run(None);
    run.advance_at(Reply::Got(Ok(snapshot(None, 0, "33"))), &at(1000), 0, 0);
    let after = snapshot(Some("C"), 1000, "34");
    assert!(matches!(
        run.advance_at(Reply::Applied(ApplyOutcome::Applied(after)), &at(1000), 1, 0),
        Progress::Do(Request::Get { .. })
    ));
    assert_eq!(run.phase, AcquirePhase::Reading);
}

#[test]
fn a_record_that_has_run_out_again_starts_the_loop_over() {
    let mut run = run(None);
    run.advance_at(Reply::Got(Ok(snapshot(None, 0, "33"))), &at(1000), 0, 0);
    let after = snapshot(Some("B"), 1000, "34");
    assert!(matches!(
        run.advance_at(Reply::Applied(ApplyOutcome::Applied(after)), &at(1010), 1, 0),
        Progress::Do(Request::Get { .. })
    ));
}

#[test]
fn other_failures_of_the_claim_end_the_run() {
    let mut run = run(None);
    run.advance_at(Reply::Got(Ok(snapshot(None, 0, "33"))), &at(1000), 0, 0);
    let failed =
        ApplyOutcome::Failed(Error::Kube(ApiFailure { status: Some(403), detail: String::new() }));
    match run.advance_at(Reply::Applied(failed), &at(1000), 1, 0) {
        Progress::Failed(Error::Kube(f)) => assert_eq!(f.status, Some(403)),
        other => panic!("unexpected: {:?}", other),
    }
    assert_eq!(run.phase, AcquirePhase::Finished);
}

#[test]
fn a_failed_read_ends_the_run() {
    let mut run = run(Some(1_000));
    let failure = Error::Kube(ApiFailure { status: None, detail: String::from("unreachable") });
    match run.advance_at(Reply::Got(Err(failure)), &at(1000), 0, 0) {
        Progress::Failed(Error::Kube(f)) => assert_eq!(f.detail, "unreachable"),
        other => panic!("unexpected: {:?}", other),
    }
    assert_eq!(run.phase, AcquirePhase::Finished);
    let mut run = self::run(None);
    assert!(matches!(
        run.advance_at(Reply::Got(Err(Error::Format(String::from("lease name")))), &at(0), 0, 0),
        Progress::Failed(Error::Format(_))
    ));
}

#[test]
fn a_held_lease_makes_the_loop_wait_and_read_again() {
    let mut run = run(Some(500_000_000));
    let held = snapshot(Some("A"), 1000, "33");
    match run.advance_at(Reply::Got(Ok(held)), &at(1001), 0, 10_000_000) {
        Progress::Do(Request::Sleep { nanos }) => assert_eq!(nanos, 10_000_000),
        other => panic!("unexpected: {:?}", other),
    }
    assert_eq!(run.phase, AcquirePhase::Sleeping);
    assert!(run.expects(&Reply::Slept));
    assert!(matches!(
        run.advance_at(Reply::Slept, &at(1001), 10_000_000, 0),
        Progress::Do(Request::Get { .. })
    ));
    assert_eq!(run.phase, AcquirePhase::Reading);
}

#[test]
fn the_run_times_out_without_sleeping_when_the_wait_would_cross_the_deadline() {
    let mut run = run(Some(500_000_000));
    let held = snapshot(Some("A"), 1000, "33");
    assert!(matches!(
        run.advance_at(Reply::Got(Ok(held)), &at(1001), 110_000_000, 1_000_000_000),
        Progress::Failed(Error::AcquireTimeout)
    ));
    assert_eq!(run.phase, AcquirePhase::Finished);
}

#[test]
fn the_deadline_is_crossed_when_the_wait_ends_exactly_on_it() {
    let held = || Reply::Got(Ok(snapshot(Some("A"), 1000, "33")));
    let mut exact = run(Some(500));
    assert!(matches!(
        exact.advance_at(held(), &at(1001), 400, 100),
        Progress::Failed(Error::AcquireTimeout)
    ));
    let mut short = run(Some(500));
    assert!(matches!(
        short.advance_at(held(), &at(1001), 400, 99),
        Progress::Do(Request::Sleep { nanos: 99 })
    ));
}

#[test]
fn a_zero_timeout_gives_up_at_the_first_look_at_a_held_lease() {
    let mut run = run(Some(0));
    assert!(matches!(
        run.advance_at(Reply::Got(Ok(snapshot(Some("A"), 1000, "33"))), &at(1001), 0, 0),
        Progress::Failed(Error::AcquireTimeout)
    ));
}

#[test]
fn a_zero_timeout_still_takes_a_free_lease() {
    let mut run = run(Some(0));
    assert!(matches!(
        run.advance_at(Reply::Got(Ok(snapshot(Some("A"), 1000, "33"))), &at(1010), 77, 0),
        Progress::Do(Request::Apply { .. })
    ));
    let after = snapshot(Some("B"), 1010, "34");
    assert!(matches!(
        run.advance_at(Reply::Applied(ApplyOutcome::Applied(after)), &at(1010), 99, 0),
        Progress::Acquired(_)
    ));
}

#[test]
fn held_is_about_the_owner_at_the_instant_given() {
    let reply = Reply::Got(Ok(snapshot(Some("A"), 1000, "33")));
    assert!(AcquireLoop::is_held(&reply, &at(1009)));
    assert!(!AcquireLoop::is_held(&reply, &at(1010)));
    assert!(!AcquireLoop::is_held(&Reply::Got(Ok(snapshot(None, 1000, "1"))), &at(1001)));
    assert!(!AcquireLoop::is_held(&Reply::Slept, &at(1001)));
    assert!(!AcquireLoop::is_held(&Reply::Got(Err(Error::AcquireTimeout)), &at(1001)));
    assert!(!AcquireLoop::is_held(&Reply::Applied(conflict()), &at(1001)));
}
