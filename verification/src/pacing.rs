//! The cadence of ticks: how long the event source may wait for a key
//! before the next tick is due, and when a tick is due.
//!
//! Times are readings of one monotonic clock, in milliseconds. A tick is due
//! once a full tick interval has passed since the last one was emitted; the
//! time already spent waiting is taken off the next wait, so that the
//! cadence does not drift.

use crate::scheduler::TICK_MILLIS;
use vstd::prelude::*;

verus! {

/// The milliseconds from `last` to `now`; zero where the clock reading is
/// older than `last`.
pub open spec fn since(last: u64, now: u64) -> int {
    if now >= last {
        now - last
    } else {
        0
    }
}

/// How long to wait for a key before the next tick is due: what is left of
/// the tick interval, zero once it has passed.
pub open spec fn wait_for(last: u64, now: u64) -> int {
    if since(last, now) < TICK_MILLIS {
        TICK_MILLIS - since(last, now)
    } else {
        0
    }
}

/// Whether a tick is due: a full tick interval has passed.
pub open spec fn due(last: u64, now: u64) -> bool {
    since(last, now) >= TICK_MILLIS
}

/// Remembers when the last tick was emitted.
#[derive(Debug, Clone, Copy, PartialEq, Eq, Structural)]
pub struct Pacer {
    /// The clock reading at the last tick.
    pub last_tick: u64,
}

impl Pacer {
    /// A pacer that counts from `now`.
    pub fn new(now: u64) -> (pacer: Pacer)
        ensures
            pacer.last_tick == now,
    {
        Pacer { last_tick: now }
    }

    /// The longest wait for a key, in milliseconds, that does not delay the
    /// next tick.
    pub fn poll_timeout(&self, now: u64) -> (timeout: u64)
        ensures
            timeout == wait_for(self.last_tick, now),
            timeout <= TICK_MILLIS,
    {
        let elapsed = if now >= self.last_tick {
            now - self.last_tick
        } else {
            0
        };
        let interval: u64 = TICK_MILLIS as u64;
        if elapsed < interval {
            interval - elapsed
        } else {
            0
        }
    }

    /// Whether a tick is due at `now`.
    pub fn tick_due(&self, now: u64) -> (is_due: bool)
        ensures
            is_due == due(self.last_tick, now),
    {
        now >= self.last_tick && now - self.last_tick >= TICK_MILLIS as u64
    }

    /// Records that a tick was emitted at `now`.
    pub fn mark_tick(&mut self, now: u64)
        ensures
            final(self).last_tick == now,
    {
        self.last_tick = now;
    }
}

/// Waiting as long as `wait_for` says reaches the moment at which the tick
/// is due, and no tick is due before it.
pub proof fn wait_ends_when_tick_is_due(last: u64, now: u64, later: u64)
    requires
        last <= now <= later,
    ensures
        later - now >= wait_for(last, now) ==> due(last, later),
        later - now < wait_for(last, now) ==> !due(last, later),
        due(last, now) <==> wait_for(last, now) == 0,
{
}

} // verus!
