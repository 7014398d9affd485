//! Time units, the frequency to period conversion, and the millisecond
//! uptime counter advanced by a 1 kHz timer interrupt.
use vstd::prelude::*;

verus! {

/// Nanoseconds in one second.
pub const NANOS_PER_SECOND: u32 = 1_000_000_000;

/// Rate, in Hz, of the timer interrupt that advances the uptime counter.
pub const UPTIME_TICK_HZ: u32 = 1000;

/// A frequency in hertz.
#[derive(Clone, Copy, Debug, PartialEq, Eq, Structural)]
pub struct Hertz(pub u32);

/// A duration in nanoseconds.
#[derive(Clone, Copy, Debug, PartialEq, Eq, Structural)]
pub struct Nanoseconds(pub u32);

/// A duration in milliseconds.
#[derive(Clone, Copy, Debug, PartialEq, Eq, Structural)]
pub struct Milliseconds(pub u32);

/// Length of one cycle at `hz`, rounded down to whole nanoseconds.
pub open spec fn period_ns(hz: u32) -> int
    recommends
        hz > 0,
{
    NANOS_PER_SECOND as int / hz as int
}

/// Cycles per second of a period of `ns` nanoseconds, rounded down.
pub open spec fn frequency_hz(ns: u32) -> int
    recommends
        ns > 0,
{
    NANOS_PER_SECOND as int / ns as int
}

impl Nanoseconds {
    /// The number of periods of this length in one second, rounded down.
    pub fn frequency(self) -> (r: Hertz)
        requires
            self.0 > 0,
        ensures
            r.0 == frequency_hz(self.0),
    {
        Hertz(NANOS_PER_SECOND / self.0)
    }
}

impl Hertz {
    /// The period of one full cycle at this frequency, rounded down.
    pub fn period(self) -> (r: Nanoseconds)
        requires
            self.0 > 0,
        ensures
            r.0 == period_ns(self.0),
    {
        Nanoseconds(NANOS_PER_SECOND / self.0)
    }
}

/// The counter value after one more tick: it counts up by one and wraps to
/// zero past `u32::MAX`.
pub open spec fn next_count(c: u32) -> u32 {
    if c == u32::MAX {
        0
    } else {
        (c + 1) as u32
    }
}

/// The counter value after `n` ticks from a fresh counter.
pub open spec fn count_after(n: nat) -> u32
    decreases n,
{
    if n == 0 {
        0
    } else {
        next_count(count_after((n - 1) as nat))
    }
}

/// Milliseconds elapsed since the counter was created, one per timer
/// interrupt.
///
/// Only the interrupt handler writes it (through `tick`); foreground code
/// only reads it.
pub struct UptimeCounter {
    ms: u32,
}

impl UptimeCounter {
    /// The number of ticks counted so far, modulo 2^32.
    pub closed spec fn count(&self) -> u32 {
        self.ms
    }

    /// A counter that starts at zero.
    pub fn new() -> (r: UptimeCounter)
        ensures
            r.count() == 0,
    {
        UptimeCounter { ms: 0 }
    }

    /// Records one timer interrupt.
    pub fn tick(&mut self)
        ensures
            final(self).count() == next_count(old(self).count()),
    {
        self.ms = self.ms.wrapping_add(1);
    }

    /// The current count, without side effects.
    pub fn millis(&self) -> (r: u32)
        ensures
            r == self.count(),
    {
        self.ms
    }
}

/// Time elapsed since `counter` was started.
pub fn uptime(counter: &UptimeCounter) -> (r: Milliseconds)
    ensures
        r.0 == counter.count(),
{
    Milliseconds(counter.millis())
}

/// After exactly `n` ticks from a fresh counter the uptime is `n`
/// milliseconds, modulo the 2^32 wrap of the counter.
pub proof fn lemma_uptime_counts_ticks(n: nat)
    ensures
        count_after(n) == n % 0x1_0000_0000,
    decreases n,
{
    if n > 0 {
        lemma_uptime_counts_ticks((n - 1) as nat);
    }
}

} // verus!
