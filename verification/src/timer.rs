//! The timer peripheral's register file and its programming order.
//!
//! The hardware exposes four independently writable registers: the wave
//! generation mode, the prescaler select (whose tap also starts the
//! counter), the 8-bit compare register, and the compare-match interrupt
//! mask.  The model keeps one field per register and enforces the
//! programming order through preconditions: `configure` before `arm`, and
//! `arm` before `enable_interrupt`, so the first interrupt always observes
//! a fully programmed timer.

use vstd::prelude::*;

verus! {

use crate::encoder::{TimerProgram, PRESCALER_STEP_COUNT};

/// The timer's register file.  A prescaler tap of zero means the clock is
/// disconnected and the counter stopped; taps `1 ..= PRESCALER_STEP_COUNT`
/// select the ordered prescaler steps.
#[derive(Clone, Copy, PartialEq, Eq, Structural, Debug)]
pub struct TimerRegisters {
    /// Wave generation mode: true once clear-on-compare-match is selected.
    pub wave_ctc: bool,
    /// Prescaler select register; non-zero taps start the counter.
    pub prescaler_tap: u8,
    /// The 8-bit compare register.
    pub compare: u8,
    /// Whether the compare-match interrupt is unmasked.
    pub compare_interrupt_enabled: bool,
}

impl TimerRegisters {
    /// A fully programmed timer: counting in clear-on-compare-match mode
    /// from a real prescaler tap, so a compare match can fire at all.
    pub open spec fn programmed(self) -> bool {
        &&& self.wave_ctc
        &&& 1 <= self.prescaler_tap <= PRESCALER_STEP_COUNT
    }

    /// The register file at reset: mode unset, counter stopped, compare
    /// zero, interrupt masked.
    pub fn reset() -> (r: Self)
        ensures
            r == (TimerRegisters {
                wave_ctc: false,
                prescaler_tap: 0,
                compare: 0,
                compare_interrupt_enabled: false,
            }),
    {
        TimerRegisters { wave_ctc: false, prescaler_tap: 0, compare: 0, compare_interrupt_enabled: false }
    }

    /// Selects clear-on-compare-match mode and loads the compare register.
    /// Does not yet select a prescaler or touch the interrupt mask.
    pub fn configure(&mut self, program: &TimerProgram)
        ensures
            *final(self) == (TimerRegisters {
                wave_ctc: true,
                compare: program.compare_value,
                ..*old(self)
            }),
    {
        self.wave_ctc = true;
        self.compare = program.compare_value;
    }

    /// Writes the prescaler tap for the program's selected step, starting
    /// the counter.  May only run on a timer already configured with this
    /// program's compare value.
    pub fn arm(&mut self, program: &TimerProgram)
        requires
            old(self).wave_ctc,
            old(self).compare == program.compare_value,
            program.prescaler_index < PRESCALER_STEP_COUNT,
        ensures
            *final(self) == (TimerRegisters {
                prescaler_tap: (program.prescaler_index + 1) as u8,
                ..*old(self)
            }),
            final(self).programmed(),
    {
        self.prescaler_tap = program.prescaler_index + 1;
    }

    /// Unmasks the compare-match interrupt.  May only run on a fully
    /// programmed timer, so the first interrupt never observes a partial
    /// program.  Idempotent.
    pub fn enable_interrupt(&mut self)
        requires
            old(self).programmed(),
        ensures
            *final(self) == (TimerRegisters { compare_interrupt_enabled: true, ..*old(self) }),
    {
        self.compare_interrupt_enabled = true;
    }

    /// Masks the compare-match interrupt by clearing exactly its enable
    /// bit, leaving every other register untouched.  Idempotent, and safe
    /// in any state.
    pub fn disable_interrupt(&mut self)
        ensures
            *final(self) == (TimerRegisters { compare_interrupt_enabled: false, ..*old(self) }),
    {
        self.compare_interrupt_enabled = false;
    }
}

} // verus!
