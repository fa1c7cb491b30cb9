//! The schedule of waits between two looks at a held lease.
//!
//! The schedule is `tokio_retry`'s exponential back-off. It never ends: each
//! draw yields the next wait.

use tokio_retry::strategy::ExponentialBackoff;
use vstd::prelude::*;

verus! {

/// `tokio_retry::strategy::ExponentialBackoff`: an endless iterator of waits.
#[verifier::external_type_specification]
#[verifier::external_body]
pub struct ExExponentialBackoff(ExponentialBackoff);

/// The waits that a schedule has yet to yield, in nanoseconds, by position:
/// position 0 is the wait that the next draw returns.
pub uninterp spec fn upcoming(schedule: ExponentialBackoff) -> Map<nat, nat>;

/// Number of nanoseconds in one millisecond.
pub const NANOS_PER_MILLI: u64 = 1_000_000;

/// First wait of the default schedule, in milliseconds, and its growth
/// factor from one wait to the next.
pub const DEFAULT_BASE_MILLIS: u64 = 10;

/// Longest wait of the default schedule, in milliseconds.
pub const DEFAULT_MAX_DELAY_MILLIS: u64 = 1_000;

/// The `n`-th wait, in milliseconds, of an uncapped schedule that starts at
/// `base`: `base` to the power `n + 1`, held at `u64::MAX` once it would pass
/// it.
pub open spec fn uncapped_millis(base: u64, n: nat) -> nat
    decreases n,
{
    if n == 0 {
        base as nat
    } else {
        let grown = uncapped_millis(base, (n - 1) as nat) * base;
        if grown <= u64::MAX {
            grown as nat
        } else {
            u64::MAX as nat
        }
    }
}

/// The smaller of two numbers.
pub open spec fn at_most(a: int, cap: int) -> int {
    if a <= cap {
        a
    } else {
        cap
    }
}

/// Calls `ExponentialBackoff::from_millis` and, on its result,
/// `ExponentialBackoff::max_delay` with a cap of `max_delay_millis`
/// milliseconds. The new schedule has factor 1: uncapped, it would yield
/// `base_millis` milliseconds first and multiply the wait by `base_millis`
/// after each draw, saturating at `u64::MAX` milliseconds. The cap takes the
/// place of every wait that is longer; since the uncapped waits never shrink,
/// each position holds the smaller of the uncapped wait and the cap.
#[verifier::external_body]
fn schedule_capped(base_millis: u64, max_delay_millis: u64) -> (schedule: ExponentialBackoff)
    ensures
        forall|n: nat| #[trigger]
            upcoming(schedule)[n] == at_most(
                uncapped_millis(base_millis, n) * NANOS_PER_MILLI,
                max_delay_millis * NANOS_PER_MILLI,
            ),
{
    ExponentialBackoff::from_millis(base_millis).max_delay(
        std::time::Duration::from_millis(max_delay_millis),
    )
}

/// Calls `ExponentialBackoff::clone`: the copy yields the same waits.
#[verifier::external_body]
fn schedule_clone(schedule: &ExponentialBackoff) -> (copy: ExponentialBackoff)
    ensures
        upcoming(copy) == upcoming(*schedule),
{
    schedule.clone()
}

/// Calls `ExponentialBackoff::next`, which always yields a wait, and turns
/// the wait into nanoseconds: the wait at position 0, after which every
/// later wait stands one position earlier.
#[verifier::external_body]
fn schedule_next(schedule: &mut ExponentialBackoff) -> (delay: Option<u128>)
    ensures
        delay matches Some(nanos) && nanos == upcoming(*old(schedule))[0],
        forall|n: nat| #[trigger] upcoming(*final(schedule))[n] == upcoming(*old(schedule))[(n + 1) as nat],
{
    schedule.next().map(|wait| wait.as_nanos())
}

/// The waits of an uncapped schedule never shrink.
pub proof fn lemma_uncapped_grows(base: u64, n: nat)
    ensures
        uncapped_millis(base, n) <= uncapped_millis(base, (n + 1) as nat),
        uncapped_millis(base, n) <= u64::MAX,
    decreases n,
{
    if n > 0 {
        lemma_uncapped_grows(base, (n - 1) as nat);
    }
    let here = uncapped_millis(base, n);
    assert(uncapped_millis(base, (n + 1) as nat) == if here * base <= u64::MAX {
        here * base
    } else {
        u64::MAX as int
    });
    if base == 0 {
        assert(here == 0) by {
            if n > 0 {
                assert(uncapped_millis(base, (n - 1) as nat) * 0 == 0);
            }
        }
    } else {
        assert(here <= here * base) by (nonlinear_arith)
            requires
                base >= 1,
        ;
    }
}

/// A wait of the default schedule, in milliseconds: 10, 100, and 1000 from
/// then on.
pub open spec fn default_millis(n: nat) -> nat {
    if n == 0 {
        10
    } else if n == 1 {
        100
    } else {
        1000
    }
}

/// The default schedule's uncapped waits are 10 and 100 milliseconds, and at
/// least a second from the third on.
pub proof fn lemma_default_uncapped(n: nat)
    ensures
        uncapped_millis(DEFAULT_BASE_MILLIS, 0) == 10,
        uncapped_millis(DEFAULT_BASE_MILLIS, 1) == 100,
        n >= 2 ==> uncapped_millis(DEFAULT_BASE_MILLIS, n) >= 1000,
    decreases n,
{
    reveal_with_fuel(uncapped_millis, 3);
    assert(uncapped_millis(DEFAULT_BASE_MILLIS, 2) == 1000);
    if n > 2 {
        lemma_default_uncapped((n - 1) as nat);
        lemma_uncapped_grows(DEFAULT_BASE_MILLIS, (n - 1) as nat);
    }
}

/// A fresh copy of a schedule: draws from the copy leave `schedule` as it
/// is.
pub fn restart(schedule: &ExponentialBackoff) -> (copy: ExponentialBackoff)
    ensures
        upcoming(copy) == upcoming(*schedule),
{
    schedule_clone(schedule)
}

/// Draws the next wait of a schedule, in nanoseconds.
pub fn next_delay(schedule: &mut ExponentialBackoff) -> (delay: u128)
    ensures
        delay == upcoming(*old(schedule))[0],
        forall|n: nat| #[trigger] upcoming(*final(schedule))[n] == upcoming(*old(schedule))[(n + 1) as nat],
{
    match schedule_next(schedule) {
        Some(delay) => delay,
        None => vstd::pervasive::unreached(),
    }
}

/// The default schedule: it starts at 10 ms, grows tenfold with each draw
/// and never waits longer than 1 s.
pub fn default_backoff() -> (schedule: ExponentialBackoff)
    ensures
        forall|n: nat| #[trigger] upcoming(schedule)[n] == default_millis(n) * NANOS_PER_MILLI,
{
    let schedule = schedule_capped(DEFAULT_BASE_MILLIS, DEFAULT_MAX_DELAY_MILLIS);
    assert forall|n: nat| #[trigger] upcoming(schedule)[n] == default_millis(n)
        * NANOS_PER_MILLI by {
        lemma_default_uncapped(n);
        lemma_uncapped_grows(DEFAULT_BASE_MILLIS, n);
    }
    schedule
}

} // verus!
