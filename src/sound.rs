//! The piezo speaker: a timer interrupts every half period of the tone and
//! its handler flips the speaker pin, which makes a square wave.
//!
//! `PwmSound` holds the foreground side: whether the amplifier is enabled
//! and the half period the timer is set to. The pin itself belongs to the
//! interrupt handler once the driver is built.
use vstd::prelude::*;
use crate::time::{Hertz, Nanoseconds, period_ns, frequency_hz};

verus! {

/// The half period, in nanoseconds, of a tone of `hz` hertz: the time
/// between two flips of the speaker pin.
pub open spec fn half_period_ns(hz: u32) -> int {
    period_ns(hz) / 2
}

/// Foreground state of the speaker: disabled or enabled, and the configured
/// half period, if any.
pub struct PwmSound {
    enabled: bool,
    half_period: Option<Nanoseconds>,
}

impl PwmSound {
    /// Whether the amplifier is on and the timer interrupt unmasked.
    pub closed spec fn enabled(&self) -> bool {
        self.enabled
    }

    /// The half period the timer is set to, if `set_freq` was called.
    pub closed spec fn half_period(&self) -> Option<Nanoseconds> {
        self.half_period
    }

    /// The same state with the amplifier switched on or off.
    pub closed spec fn with_enabled(self, on: bool) -> PwmSound {
        PwmSound { enabled: on, half_period: self.half_period }
    }

    /// A silent speaker with no frequency set.
    pub fn new() -> (r: PwmSound)
        ensures
            !r.enabled(),
            r.half_period() is None,
    {
        PwmSound { enabled: false, half_period: None }
    }

    /// Sets the tone to `freq`. Returns the half period to load into the
    /// timer. Does not itself switch the sound on.
    pub fn set_freq(&mut self, freq: Hertz) -> (r: Nanoseconds)
        requires
            freq.0 > 0,
        ensures
            r.0 == half_period_ns(freq.0),
            final(self).half_period() == Some(r),
            final(self).enabled() == old(self).enabled(),
    {
        let period = freq.period();
        let half = Nanoseconds(period.0 / 2);
        self.half_period = Some(half);
        half
    }

    /// Switches the sound on; the configured frequency is kept.
    pub fn enable(&mut self)
        ensures
            *final(self) == old(self).with_enabled(true),
            final(self).enabled(),
            final(self).half_period() == old(self).half_period(),
    {
        self.enabled = true;
    }

    /// Switches the sound off; the configured frequency is kept and the
    /// speaker pin stays at its last level.
    pub fn disable(&mut self)
        ensures
            *final(self) == old(self).with_enabled(false),
            !final(self).enabled(),
            final(self).half_period() == old(self).half_period(),
    {
        self.enabled = false;
    }

    /// Whether the sound is on.
    pub fn is_enabled(&self) -> (r: bool)
        ensures
            r == self.enabled(),
    {
        self.enabled
    }

    /// The configured half period, if any.
    pub fn configured_half_period(&self) -> (r: Option<Nanoseconds>)
        ensures
            r == self.half_period(),
    {
        self.half_period
    }
}

/// Switching the sound off and on again resumes it with the frequency that
/// was configured before.
pub proof fn lemma_resume_keeps_frequency(s: PwmSound)
    ensures
        s.with_enabled(false).with_enabled(true).half_period() == s.half_period(),
        s.with_enabled(false).with_enabled(true).enabled(),
{
}

/// For a tone of `hz` up to 15 kHz, the half period that `set_freq`
/// configures flips the pin exactly `2 * hz` times per second.
pub proof fn lemma_half_period_toggle_rate(hz: u32)
    requires
        0 < hz <= 15_000,
    ensures
        half_period_ns(hz) > 0,
        frequency_hz(half_period_ns(hz) as u32) == 2 * hz,
{
    let n: int = 1_000_000_000;
    let f = hz as int;
    let d = 2 * f;
    let p = n / f;
    let h = p / 2;
    assert(h == n / d) by (nonlinear_arith)
        requires
            f > 0,
            d == 2 * f,
            p == n / f,
            h == p / 2,
    ;
    let r = n % d;
    assert(n == d * h + r && 0 <= r < d) by (nonlinear_arith)
        requires
            d > 0,
            h == n / d,
            r == n % d,
    ;
    assert(d * d <= 900_000_000) by (nonlinear_arith)
        requires
            0 < d <= 30_000,
    ;
    assert(h > r) by (nonlinear_arith)
        requires
            n == d * h + r,
            0 <= r < d,
            d * d <= 900_000_000,
            n == 1_000_000_000,
            d > 0,
    ;
    assert(n / h == d) by (nonlinear_arith)
        requires
            n == d * h + r,
            0 <= r < h,
            h > 0,
    ;
}

} // verus!
