//! The tone subsystem: shared state, the mainline API and the
//! compare-match handler.
//!
//! One `ToneSystem` value owns everything the tone needs: the timer's
//! register file, the output pin, and the toggle budget that mainline code
//! and the interrupt handler share.  On the single-core target the only
//! synchronization is masking the compare-match interrupt around mainline
//! mutation, which is exactly how the model's transitions are ordered:
//! `start_tone` masks the interrupt before it reprograms the timer and only
//! unmasks it once the program and the budget are fully written, so no
//! firing ever observes a stale or partial program.

use vstd::prelude::*;

verus! {

use crate::encoder::{
    budget_spec, compute_timer_program, compute_toggle_budget, timer_program_spec, program_for,
    TimerProgram, ToggleBudget, ToneDuration, ToneError,
};
use crate::pin::PinCapability;
use crate::timer::TimerRegisters;

/// The whole tone subsystem: clock rate, timer registers, the owned
/// output pin, and the shared toggle budget.
#[derive(Clone, Copy, PartialEq, Eq, Structural, Debug)]
pub struct ToneSystem {
    /// The system clock rate the timer counts at, in Hertz.
    pub clock_hz: u32,
    /// The timer's register file.
    pub regs: TimerRegisters,
    /// The buzzer pin, owned exclusively by the subsystem.
    pub pin: PinCapability,
    /// Toggles the current tone may still perform.
    pub budget: ToggleBudget,
}

impl ToneSystem {
    /// What every reachable state satisfies: with the interrupt masked the
    /// pin rests low (a disabled tone never leaves the buzzer stuck high),
    /// and the interrupt is only ever unmasked over a fully programmed
    /// timer.
    pub open spec fn wf(self) -> bool {
        &&& !self.regs.compare_interrupt_enabled ==> !self.pin.high
        &&& self.regs.compare_interrupt_enabled ==> self.regs.programmed()
    }

    /// Whether a tone is still sounding: the interrupt is unmasked and the
    /// budget is not yet exhausted.
    pub open spec fn active_spec(self) -> bool {
        &&& self.regs.compare_interrupt_enabled
        &&& match self.budget {
            ToggleBudget::Finite(n) => n > 0,
            ToggleBudget::Indefinite => true,
        }
    }

    /// The state after `start_tone`: unchanged when the request is
    /// rejected; otherwise the timer carries the derived program, the
    /// budget is rewritten for the new request, the interrupt is unmasked
    /// and the pin is left as it was.
    pub open spec fn start_tone_spec(
        self,
        frequency_hz: u16,
        duration: ToneDuration,
    ) -> ToneSystem {
        match timer_program_spec(self.clock_hz as int, frequency_hz as int) {
            Result::Err(_) => self,
            Result::Ok(p) => ToneSystem {
                regs: TimerRegisters {
                    wave_ctc: true,
                    prescaler_tap: (p.prescaler_index + 1) as u8,
                    compare: p.compare_value,
                    compare_interrupt_enabled: true,
                },
                budget: budget_spec(frequency_hz, duration),
                ..self
            },
        }
    }

    /// The state after `stop_tone`: the interrupt masked and the pin
    /// forced low, everything else untouched.
    pub open spec fn stop_tone_spec(self) -> ToneSystem {
        ToneSystem {
            regs: TimerRegisters { compare_interrupt_enabled: false, ..self.regs },
            pin: PinCapability { high: false },
            ..self
        }
    }

    /// The state after one compare-match firing.  An indefinite tone
    /// toggles and carries on; a finite budget toggles and is decremented,
    /// the firing that reaches zero still performing its toggle; a firing
    /// that arrives with the budget already exhausted disables the
    /// interrupt and forces the pin low.
    pub open spec fn compare_match_spec(self) -> ToneSystem {
        match self.budget {
            ToggleBudget::Indefinite => ToneSystem {
                pin: PinCapability { high: !self.pin.high },
                ..self
            },
            ToggleBudget::Finite(n) => if n > 0 {
                ToneSystem {
                    pin: PinCapability { high: !self.pin.high },
                    budget: ToggleBudget::Finite((n - 1) as u64),
                    ..self
                }
            } else {
                ToneSystem {
                    regs: TimerRegisters { compare_interrupt_enabled: false, ..self.regs },
                    pin: PinCapability { high: false },
                    ..self
                }
            },
        }
    }

    /// Brings the subsystem up: timer at reset, pin claimed and low, no
    /// budget.  No tone is active until `start_tone` succeeds.
    pub fn bring_up(clock_hz: u32) -> (s: ToneSystem)
        ensures
            s == (ToneSystem {
                clock_hz,
                regs: TimerRegisters {
                    wave_ctc: false,
                    prescaler_tap: 0,
                    compare: 0,
                    compare_interrupt_enabled: false,
                },
                pin: PinCapability { high: false },
                budget: ToggleBudget::Finite(0),
            }),
            s.wf(),
            !s.active_spec(),
    {
        ToneSystem {
            clock_hz,
            regs: TimerRegisters::reset(),
            pin: PinCapability::acquire(),
            budget: ToggleBudget::Finite(0),
        }
    }

    /// Starts a tone.  Rejects a zero frequency, and a frequency too low
    /// for the clock, before any register is written.  On success the
    /// previous tone — if any — is stopped deterministically by masking
    /// the interrupt first; the timer is then configured, armed and only
    /// afterwards unmasked, with the new request's budget in place.
    pub fn start_tone(&mut self, frequency_hz: u16, duration: ToneDuration) -> (r: Result<
        (),
        ToneError,
    >)
        requires
            old(self).wf(),
            frequency_hz != 0 ==> 2 * frequency_hz <= old(self).clock_hz,
        ensures
            *final(self) == old(self).start_tone_spec(frequency_hz, duration),
            final(self).wf(),
            r is Ok <==> timer_program_spec(old(self).clock_hz as int, frequency_hz as int) is Ok,
            r is Err ==> *final(self) == *old(self) && r->Err_0 == timer_program_spec(
                old(self).clock_hz as int,
                frequency_hz as int,
            )->Err_0,
            r == Result::<(), ToneError>::Err(ToneError::ZeroFrequency) <==> frequency_hz == 0,
            r is Ok ==> final(self).regs.compare_interrupt_enabled && program_for(
                old(self).clock_hz as int,
                frequency_hz as int,
                TimerProgram {
                    prescaler_index: (final(self).regs.prescaler_tap - 1) as u8,
                    compare_value: final(self).regs.compare,
                },
            ),
    {
        let program: TimerProgram = match compute_timer_program(frequency_hz, self.clock_hz) {
            Result::Err(e) => {
                return Result::Err(e);
            },
            Result::Ok(p) => p,
        };
        // Critical section: mask the interrupt before touching any state
        // the handler reads, so a firing of the old program never sees a
        // partially written compare value or budget.
        self.regs.disable_interrupt();
        self.regs.configure(&program);
        self.regs.arm(&program);
        self.budget = compute_toggle_budget(frequency_hz, duration);
        self.regs.enable_interrupt();
        Result::Ok(())
    }

    /// Stops the current tone: masks the compare-match interrupt and at
    /// once forces the pin low.  Always succeeds, and is safe to call when
    /// no tone is active.
    pub fn stop_tone(&mut self)
        ensures
            *final(self) == old(self).stop_tone_spec(),
            final(self).wf(),
            !final(self).pin.high,
            !final(self).active_spec(),
    {
        self.regs.disable_interrupt();
        self.pin.drive_low();
    }

    /// Whether a tone is currently sounding.
    pub fn is_active(&self) -> (r: bool)
        ensures
            r == self.active_spec(),
    {
        if !self.regs.compare_interrupt_enabled {
            return false;
        }
        match self.budget {
            ToggleBudget::Finite(n) => n > 0,
            ToggleBudget::Indefinite => true,
        }
    }

    /// Whether the compare-match interrupt is unmasked, i.e. whether the
    /// hardware may deliver `on_compare_match` at all.
    pub fn interrupt_unmasked(&self) -> (r: bool)
        ensures
            r == self.regs.compare_interrupt_enabled,
    {
        self.regs.compare_interrupt_enabled
    }

    /// The compare-match service routine.  Runs only while the interrupt
    /// is unmasked, with the interrupt masked against itself; it never
    /// blocks, loops or allocates.  Toggles the pin while budget remains,
    /// and on a firing after exhaustion disables itself and forces the pin
    /// low.
    pub fn on_compare_match(&mut self)
        requires
            old(self).wf(),
            old(self).regs.compare_interrupt_enabled,
        ensures
            *final(self) == old(self).compare_match_spec(),
            final(self).wf(),
    {
        match self.budget {
            ToggleBudget::Indefinite => {
                self.pin.toggle();
            },
            ToggleBudget::Finite(n) => {
                if n > 0 {
                    self.pin.toggle();
                    self.budget = ToggleBudget::Finite(n - 1);
                } else {
                    self.regs.disable_interrupt();
                    self.pin.drive_low();
                }
            },
        }
    }
}

/// Stopping when no tone can fire is a no-op: with the compare-match
/// interrupt already masked, a well-formed system already rests with its
/// pin low, and `stop_tone` changes nothing.
pub proof fn lemma_stop_tone_idle_noop(s: ToneSystem)
    requires
        s.wf(),
        !s.regs.compare_interrupt_enabled,
    ensures
        s.stop_tone_spec() == s,
        !s.stop_tone_spec().pin.high,
{
}

/// Back-to-back starts: when a second request B arrives before the first
/// request A's budget is exhausted — indeed whatever A did — and B is
/// accepted, the state is exactly what starting B alone would have
/// produced.  Nothing of A's program or budget survives.
pub proof fn lemma_restart_supersedes(
    s: ToneSystem,
    freq_a: u16,
    dur_a: ToneDuration,
    freq_b: u16,
    dur_b: ToneDuration,
)
    requires
        timer_program_spec(s.clock_hz as int, freq_b as int) is Ok,
    ensures
        s.start_tone_spec(freq_a, dur_a).start_tone_spec(freq_b, dur_b) == s.start_tone_spec(
            freq_b,
            dur_b,
        ),
{
}

} // verus!
