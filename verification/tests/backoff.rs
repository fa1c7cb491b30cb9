use lease_lock::backoff::{default_backoff, next_delay, restart};
use std::time::Duration;
use tokio_retry::strategy::ExponentialBackoff;

#[test]
fn default_schedule_starts_at_ten_millis_and_caps_at_a_second() {
    let mut schedule = default_backoff();
    assert_eq!(next_delay(&mut schedule), 10_000_000);
    assert_eq!(next_delay(&mut schedule), 100_000_000);
    assert_eq!(next_delay(&mut schedule), 1_000_000_000);
    assert_eq!(next_delay(&mut schedule), 1_000_000_000);
    for _ in 0..40 {
        assert_eq!(next_delay(&mut schedule), 1_000_000_000);
    }
}

#[test]
fn default_schedule_is_the_one_of_tokio_retry() {
    let mut ours = default_backoff();
    let mut theirs = ExponentialBackoff::from_millis(10).max_delay(Duration::from_secs(1));
    for _ in 0..10 {
        assert_eq!(next_delay(&mut ours), theirs.next().unwrap().as_nanos());
    }
}

#[test]
fn restart_yields_the_same_waits_and_leaves_its_source_alone() {
    let mut source = ExponentialBackoff::from_millis(3);
    assert_eq!(next_delay(&mut source), 3_000_000);
    let mut copy = restart(&source);
    assert_eq!(next_delay(&mut copy), 9_000_000);
    assert_eq!(next_delay(&mut copy), 27_000_000);
    assert_eq!(next_delay(&mut source), 9_000_000);
}

#[test]
fn next_delay_turns_waits_into_nanoseconds() {
    let mut schedule = ExponentialBackoff::from_millis(2).factor(1000);
    assert_eq!(next_delay(&mut schedule), 2_000_000_000);
    assert_eq!(next_delay(&mut schedule), 4_000_000_000);
    let mut capped = ExponentialBackoff::from_millis(7).max_delay(Duration::new(0, 1_500));
    assert_eq!(next_delay(&mut capped), 1_500);
    assert_eq!(next_delay(&mut capped), 1_500);
}

#[test]
fn a_saturated_schedule_still_yields() {
    let mut schedule = ExponentialBackoff::from_millis(u64::MAX);
    let top: u128 = u64::MAX as u128 * 1_000_000;
    assert_eq!(next_delay(&mut schedule), top);
    assert_eq!(next_delay(&mut schedule), top);
}
