//! The monotonic clock by which elapsed time is measured.

use std::time::{Duration, Instant};
use vstd::prelude::*;

verus! {

/// `Instant` of std: a point on the monotonic clock, held without looking
/// inside it.
#[verifier::external_type_specification]
#[verifier::external_body]
pub struct ExInstant(Instant);

/// `Instant::now` of std: the present instant. Nothing is claimed of it.
pub assume_specification[ Instant::now ]() -> (now: Instant);

/// `Instant::elapsed` of std: the time since `start`. Nothing is claimed of
/// it.
pub assume_specification[ Instant::elapsed ](start: &Instant) -> (elapsed: Duration);

/// `Duration::as_millis` of std: the whole milliseconds in `span`. Nothing is
/// claimed of the number.
pub assume_specification[ Duration::as_millis ](span: &Duration) -> (millis: u128);

/// `millis` as a `u64`, or the largest `u64` where `millis` is larger.
pub open spec fn capped_millis(millis: u128) -> u64 {
    if millis > u64::MAX {
        u64::MAX
    } else {
        millis as u64
    }
}

/// Computes `capped_millis`.
pub fn cap_millis(millis: u128) -> (capped: u64)
    ensures
        capped == capped_millis(millis),
{
    if millis > 0xffff_ffff_ffff_ffff {
        0xffff_ffff_ffff_ffff
    } else {
        millis as u64
    }
}

/// Counts milliseconds from the instant at which it was started, and never
/// reads lower than it has read before.
#[derive(Debug, Clone, Copy)]
pub struct MonotonicClock {
    origin: Instant,
    last_ms: u64,
}

impl MonotonicClock {
    /// The latest reading that the clock has given, 0 before its first.
    pub closed spec fn last_reading(&self) -> u64 {
        self.last_ms
    }

    /// This clock after it has given the reading `now`.
    pub closed spec fn having_read(self, now: u64) -> MonotonicClock {
        MonotonicClock { origin: self.origin, last_ms: now }
    }

    /// A clock that counts from now and has given no reading yet.
    pub fn start() -> (clock: Self)
        ensures
            clock.last_reading() == 0,
    {
        MonotonicClock { origin: Instant::now(), last_ms: 0 }
    }

    /// The milliseconds since the clock was started, which the clock then
    /// holds as its latest reading. The count stops at `u64::MAX`. A reading
    /// is never lower than the one before it: where the machine's clock
    /// shows less, the clock repeats its latest reading.
    pub fn now_ms(&mut self) -> (now: u64)
        ensures
            now >= old(self).last_reading(),
            *final(self) == old(self).having_read(now),
            final(self).last_reading() == now,
    {
        let shown = cap_millis(self.origin.elapsed().as_millis());
        let now = if shown < self.last_ms {
            self.last_ms
        } else {
            shown
        };
        self.last_ms = now;
        now
    }
}

/// A clock holds the reading that it gave last, and of the readings before
/// that one it holds nothing.
pub proof fn lemma_having_read(clock: MonotonicClock, earlier: u64, now: u64)
    ensures
        clock.having_read(now).last_reading() == now,
        clock.having_read(earlier).having_read(now) == clock.having_read(now),
        clock.having_read(clock.last_reading()) == clock,
{
}

} // verus!
