//! The bit-bang protocol that samples the button shift register.
//!
//! The scan is a fixed script of pin actions and busy-wait delays. The caller
//! asks `ShiftScan::action` what to do, does it on the pins, and reports with
//! `ShiftScan::advance` (passing the level of the data line after a
//! `ReadData`). After the last step the action is `Finished` with the sampled
//! byte, first sampled bit most significant.
use vstd::prelude::*;
use vstd::arithmetic::power2::{pow2, lemma2_to64, lemma_pow2_unfold};

verus! {

/// CPU clock the cycle counts below are computed for. On a board with a
/// different clock the counts must be computed again, not reused.
pub const CPU_CLOCK_HZ: u32 = 120_000_000;

/// Minimum latch setup time of the shift register, in nanoseconds.
pub const LATCH_SETUP_NS: u32 = 55;

/// Minimum latch hold time of the shift register, in nanoseconds.
pub const LATCH_HOLD_NS: u32 = 5;

/// Minimum clock pulse width of the shift register, in nanoseconds.
pub const CLOCK_PULSE_NS: u32 = 36;

/// CPU cycles the latch is held low (58.3 ns at 120 MHz).
pub const LATCH_SETUP_CYCLES: u32 = 7;

/// CPU cycles the latch is held high before the first clock (8.3 ns).
pub const LATCH_HOLD_CYCLES: u32 = 1;

/// CPU cycles the clock is held low before the data line is read (41.7 ns).
pub const CLOCK_PULSE_CYCLES: u32 = 5;

/// Number of steps of one scan: four for the latch pulse, four per bit.
pub const SCAN_STEPS: u8 = 36;

/// Whether `cycles` CPU cycles at `CPU_CLOCK_HZ` last at least `ns`
/// nanoseconds.
pub open spec fn cycles_cover(cycles: u32, ns: u32) -> bool {
    cycles as int * 1_000_000_000 >= ns as int * CPU_CLOCK_HZ as int
}

/// The delays of the scan meet the shift register's minimum timings at the
/// CPU clock they were computed for.
pub proof fn lemma_scan_timing_meets_minimums()
    ensures
        cycles_cover(LATCH_SETUP_CYCLES, LATCH_SETUP_NS),
        cycles_cover(LATCH_HOLD_CYCLES, LATCH_HOLD_NS),
        cycles_cover(CLOCK_PULSE_CYCLES, CLOCK_PULSE_NS),
{
}

/// What the caller does at one step of a scan.
#[derive(Clone, Copy, Debug, PartialEq, Eq, Structural)]
pub enum ScanAction {
    /// Drive the latch line low (freezes the parallel inputs).
    LatchLow,
    /// Drive the latch line high.
    LatchHigh,
    /// Drive the clock line low.
    ClockLow,
    /// Drive the clock line high (shifts the next bit out).
    ClockHigh,
    /// Busy-wait this many CPU cycles.
    Wait(u32),
    /// Read the serial data line and pass its level to `advance`.
    ReadData,
    /// The scan is complete; this is the sampled byte.
    Finished(u8),
}

/// The action at step `step` (`step < SCAN_STEPS`) of a scan.
pub open spec fn step_action(step: nat) -> ScanAction {
    if step == 0 {
        ScanAction::LatchLow
    } else if step == 1 {
        ScanAction::Wait(LATCH_SETUP_CYCLES)
    } else if step == 2 {
        ScanAction::LatchHigh
    } else if step == 3 {
        ScanAction::Wait(LATCH_HOLD_CYCLES)
    } else if (step - 4) % 4 == 0 {
        ScanAction::ClockLow
    } else if (step - 4) % 4 == 1 {
        ScanAction::Wait(CLOCK_PULSE_CYCLES)
    } else if (step - 4) % 4 == 2 {
        ScanAction::ReadData
    } else {
        ScanAction::ClockHigh
    }
}

/// Number of `ReadData` steps before step `step`.
pub open spec fn reads_before(step: nat) -> nat {
    if step < 6 {
        0
    } else {
        ((step - 3) / 4) as nat
    }
}

/// The number whose binary digits are `bits`, first one most significant.
pub open spec fn bits_value(bits: Seq<bool>) -> nat
    decreases bits.len(),
{
    if bits.len() == 0 {
        0
    } else {
        2 * bits_value(bits.drop_last()) + (if bits.last() {
            1nat
        } else {
            0nat
        })
    }
}

/// The action of a scan at step `step` that has read `samples` so far.
pub open spec fn scan_action(step: nat, samples: Seq<bool>) -> ScanAction {
    if step < SCAN_STEPS {
        step_action(step)
    } else {
        ScanAction::Finished(bits_value(samples) as u8)
    }
}

proof fn lemma_bits_value_bound(bits: Seq<bool>)
    ensures
        bits_value(bits) < pow2(bits.len()),
    decreases bits.len(),
{
    if bits.len() == 0 {
        lemma2_to64();
    } else {
        lemma_bits_value_bound(bits.drop_last());
        lemma_pow2_unfold(bits.len());
    }
}

/// One scan of the shift register in progress.
pub struct ShiftScan {
    step: u8,
    value: u8,
    samples: Ghost<Seq<bool>>,
}

impl ShiftScan {
    #[verifier::type_invariant]
    spec fn inv(self) -> bool {
        &&& self.step <= SCAN_STEPS
        &&& self.samples@.len() == reads_before(self.step as nat)
        &&& self.value as nat == bits_value(self.samples@)
    }

    /// Steps done so far.
    pub closed spec fn step(&self) -> nat {
        self.step as nat
    }

    /// Levels read from the data line so far, in order.
    pub closed spec fn samples(&self) -> Seq<bool> {
        self.samples@
    }

    /// A scan at its first step.
    pub fn new() -> (r: ShiftScan)
        ensures
            r.step() == 0,
            r.samples() == Seq::<bool>::empty(),
    {
        ShiftScan { step: 0, value: 0, samples: Ghost(Seq::empty()) }
    }

    /// What to do now.
    pub fn action(&self) -> (r: ScanAction)
        ensures
            r == scan_action(self.step(), self.samples()),
    {
        proof {
            use_type_invariant(self);
        }
        let step = self.step;
        if step >= SCAN_STEPS {
            ScanAction::Finished(self.value)
        } else if step == 0 {
            ScanAction::LatchLow
        } else if step == 1 {
            ScanAction::Wait(LATCH_SETUP_CYCLES)
        } else if step == 2 {
            ScanAction::LatchHigh
        } else if step == 3 {
            ScanAction::Wait(LATCH_HOLD_CYCLES)
        } else {
            let phase = (step - 4) % 4;
            if phase == 0 {
                ScanAction::ClockLow
            } else if phase == 1 {
                ScanAction::Wait(CLOCK_PULSE_CYCLES)
            } else if phase == 2 {
                ScanAction::ReadData
            } else {
                ScanAction::ClockHigh
            }
        }
    }

    /// Reports that the current action was carried out. `data_high` is the
    /// level read from the data line when the action was `ReadData`, and is
    /// ignored otherwise.
    pub fn advance(&mut self, data_high: bool)
        requires
            old(self).step() < SCAN_STEPS,
        ensures
            final(self).step() == old(self).step() + 1,
            final(self).samples() == if step_action(old(self).step()) is ReadData {
                old(self).samples().push(data_high)
            } else {
                old(self).samples()
            },
    {
        proof {
            use_type_invariant(&*self);
        }
        let step = self.step;
        if step >= 4 && (step - 4) % 4 == 2 {
            let ghost bits = self.samples@;
            let ghost next = bits.push(data_high);
            proof {
                lemma_bits_value_bound(bits);
                lemma2_to64();
                assert(next.drop_last() == bits);
            }
            let bit: u8 = if data_high {
                1
            } else {
                0
            };
            *self = ShiftScan { step: step + 1, value: self.value * 2 + bit, samples: Ghost(next) };
        } else {
            *self = ShiftScan { step: step + 1, value: self.value, samples: self.samples };
        }
    }
}

} // verus!
