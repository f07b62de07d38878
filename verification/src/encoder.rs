//! Frequency encoding: turning a requested tone frequency into a timer
//! program and a toggle budget.
//!
//! The timer counts at the system clock divided by a selectable prescaler
//! and fires once per half period of the output square wave.  Starting from
//! the half period measured in undivided clock ticks, the encoder repeatedly
//! halves the count (rounding up before each halving so accuracy is kept)
//! until it fits the 8-bit compare register, advancing the prescaler
//! selection by one step per halving.

use vstd::prelude::*;

verus! {

use vstd::arithmetic::div_mod::{
    lemma_div_denominator, lemma_div_is_ordered_by_denominator, lemma_div_non_zero,
    lemma_div_pos_is_pos, lemma_fundamental_div_mod, lemma_mod_bound,
};
use vstd::arithmetic::power2::{
    lemma2_to64, lemma_pow2_pos, lemma_pow2_strictly_increases, lemma_pow2_unfold, pow2,
};

/// Why a tone request was rejected.  Both errors are detected before any
/// register of the model is written.
#[derive(Clone, Copy, PartialEq, Eq, Structural, Debug)]
pub enum ToneError {
    /// The requested frequency was zero; the half period would be infinite.
    ZeroFrequency,
    /// Even the coarsest prescaler step cannot bring the compare value
    /// into the 8-bit range; the frequency is too low for this clock.
    FrequencyTooLow,
}

/// How long a tone should sound: a finite number of milliseconds, or
/// until it is explicitly stopped.
#[derive(Clone, Copy, PartialEq, Eq, Structural, Debug)]
pub enum ToneDuration {
    Millis(u32),
    Indefinite,
}

/// The number of pin toggles a tone may still perform.  Only the interrupt
/// context decrements a finite budget; an indefinite budget is never
/// decremented.
#[derive(Clone, Copy, PartialEq, Eq, Structural, Debug)]
pub enum ToggleBudget {
    Finite(u64),
    Indefinite,
}

/// A fully derived timer program: which prescaler step to select and what
/// to load into the 8-bit compare register.
#[derive(Clone, Copy, PartialEq, Eq, Structural, Debug)]
pub struct TimerProgram {
    /// Index into the ordered set of supported prescaler steps.
    pub prescaler_index: u8,
    /// Value for the 8-bit compare register.
    pub compare_value: u8,
}

/// Number of supported prescaler steps; valid indices are
/// `0 .. PRESCALER_STEP_COUNT`.
pub const PRESCALER_STEP_COUNT: u8 = 7;

/// Index of the coarsest supported prescaler step.
pub const LAST_PRESCALER_INDEX: u8 = 6;

/// The half period of the requested square wave, in undivided clock ticks:
/// how many clock ticks pass between two pin toggles.
pub open spec fn half_period_units(clock_hz: int, frequency_hz: int) -> int {
    clock_hz / (2 * frequency_hz)
}

/// The toggle budget called for by a request: two toggles per waveform
/// cycle over the whole duration, truncated to whole toggles; an
/// indefinite request keeps the indefinite marker.
pub open spec fn budget_spec(frequency_hz: u16, duration: ToneDuration) -> ToggleBudget {
    match duration {
        ToneDuration::Millis(ms) => ToggleBudget::Finite(
            ((2 * frequency_hz * ms) / 1000) as u64,
        ),
        ToneDuration::Indefinite => ToggleBudget::Indefinite,
    }
}

/// Derives the toggle budget for a request: `2 * frequency * duration /
/// 1000` (integer truncation) for a finite duration, the indefinite marker
/// otherwise.
pub fn compute_toggle_budget(frequency_hz: u16, duration: ToneDuration) -> (b: ToggleBudget)
    ensures
        b == budget_spec(frequency_hz, duration),
{
    match duration {
        ToneDuration::Millis(ms) => {
            assert(2 * (frequency_hz as int) * (ms as int) <= 2 * 0xffff * 0xffff_ffff)
                by (nonlinear_arith)
                requires
                    frequency_hz <= 0xffff,
                    ms <= 0xffff_ffff,
            ;
            let toggles: u64 = 2 * (frequency_hz as u64) * (ms as u64) / 1000;
            ToggleBudget::Finite(toggles)
        },
        ToneDuration::Indefinite => ToggleBudget::Indefinite,
    }
}

/// The smallest prescaler step at which the halved half period fits the
/// 8-bit compare register, searching upward from step `i`; the coarsest
/// step is answered when no finer one fits.
pub open spec fn fitting_index(u: int, i: nat) -> nat
    decreases 7 - i,
{
    if i >= 6 {
        6
    } else if u / pow2(i) as int <= 256 {
        i
    } else {
        fitting_index(u, i + 1)
    }
}

/// The timer program a request calls for, or the error that rejects it.
/// One halving of the tick count corresponds to one prescaler step, so at
/// step `k` the compare value plus one is the half period divided by
/// `pow2(k)`.
pub open spec fn timer_program_spec(clock_hz: int, frequency_hz: int) -> Result<
    TimerProgram,
    ToneError,
> {
    if frequency_hz == 0 {
        Result::Err(ToneError::ZeroFrequency)
    } else {
        let u = half_period_units(clock_hz, frequency_hz);
        if u / pow2(LAST_PRESCALER_INDEX as nat) as int > 256 {
            Result::Err(ToneError::FrequencyTooLow)
        } else {
            let k = fitting_index(u, 0);
            Result::Ok(
                TimerProgram {
                    prescaler_index: k as u8,
                    compare_value: (u / pow2(k) as int - 1) as u8,
                },
            )
        }
    }
}

/// What makes a timer program right for a request: the compare value plus
/// one is the half period after one halving per selected prescaler step,
/// it fits the 8-bit compare register, and the selection is minimal — no
/// earlier step in the ordered set would also fit.
pub open spec fn program_for(clock_hz: int, frequency_hz: int, p: TimerProgram) -> bool {
    let u = half_period_units(clock_hz, frequency_hz);
    &&& p.prescaler_index < PRESCALER_STEP_COUNT
    &&& p.compare_value + 1 == u / pow2(p.prescaler_index as nat) as int
    &&& u / pow2(p.prescaler_index as nat) as int <= 256
    &&& forall|j: nat| j < p.prescaler_index ==> u / (#[trigger] pow2(j)) as int > 256
}

proof fn lemma_fitting_index_pins(u: int, i: nat, k: nat)
    requires
        i <= k <= 6,
        forall|j: nat| i <= j < k ==> u / (#[trigger] pow2(j)) as int > 256,
        k == 6 || u / pow2(k) as int <= 256,
    ensures
        fitting_index(u, i) == k,
    decreases k - i,
{
    if i < k {
        assert(u / pow2(i) as int > 256);
        lemma_fitting_index_pins(u, i + 1, k);
    }
}

/// Derives the timer program for a frequency on a given clock: starts from
/// the half period in clock ticks minus one, and while that exceeds the
/// 8-bit range and a coarser prescaler step remains, rounds up, halves and
/// advances one step.  Fails on a zero frequency, and when even the
/// coarsest step leaves the value out of range.
pub fn compute_timer_program(frequency_hz: u16, clock_hz: u32) -> (r: Result<
    TimerProgram,
    ToneError,
>)
    requires
        frequency_hz != 0 ==> 2 * frequency_hz <= clock_hz,
    ensures
        r == timer_program_spec(clock_hz as int, frequency_hz as int),
        r matches Ok(p) ==> program_for(clock_hz as int, frequency_hz as int, p),
{
    if frequency_hz == 0 {
        return Result::Err(ToneError::ZeroFrequency);
    }
    let units: u32 = clock_hz / (2 * (frequency_hz as u32));
    proof {
        lemma_div_non_zero(clock_hz as int, 2 * frequency_hz as int);
        lemma2_to64();
    }
    let mut ticks: u32 = units - 1;
    let mut index: u8 = 0;
    while ticks > 255 && index < LAST_PRESCALER_INDEX
        invariant
            0 < frequency_hz,
            index <= LAST_PRESCALER_INDEX,
            units == half_period_units(clock_hz as int, frequency_hz as int),
            ticks + 1 == units as int / pow2(index as nat) as int,
            forall|j: nat| j < index ==> units as int / (#[trigger] pow2(j)) as int > 256,
        decreases LAST_PRESCALER_INDEX - index,
    {
        proof {
            lemma_pow2_pos(index as nat);
            lemma_pow2_unfold((index + 1) as nat);
            lemma_div_denominator(units as int, pow2(index as nat) as int, 2);
        }
        ticks = (ticks + 1) / 2 - 1;
        index = index + 1;
    }
    proof {
        lemma_pow2_pos(index as nat);
        lemma_pow2_pos(LAST_PRESCALER_INDEX as nat);
        lemma_div_pos_is_pos(units as int, pow2(index as nat) as int);
    }
    if ticks > 255 {
        assert(index == LAST_PRESCALER_INDEX);
        Result::Err(ToneError::FrequencyTooLow)
    } else {
        proof {
            if (index as nat) < 6 {
                lemma_pow2_strictly_increases(index as nat, LAST_PRESCALER_INDEX as nat);
                lemma_div_is_ordered_by_denominator(
                    units as int,
                    pow2(index as nat) as int,
                    pow2(LAST_PRESCALER_INDEX as nat) as int,
                );
            }
            lemma_fitting_index_pins(units as int, 0, index as nat);
        }
        Result::Ok(TimerProgram { prescaler_index: index, compare_value: ticks as u8 })
    }
}

/// Reconstructing the half period from a derived program — the compare
/// value plus one, scaled back up by one doubling per prescaler step —
/// lands on the true half period to within the rounding error of the
/// halvings: it never overshoots, and falls short by less than one
/// prescaler step's scale.
pub proof fn lemma_half_period_reconstruction(clock_hz: int, frequency_hz: int, p: TimerProgram)
    requires
        0 <= clock_hz,
        0 < frequency_hz,
        program_for(clock_hz, frequency_hz, p),
    ensures
        (p.compare_value + 1) * pow2(p.prescaler_index as nat) <= half_period_units(
            clock_hz,
            frequency_hz,
        ),
        half_period_units(clock_hz, frequency_hz) - (p.compare_value + 1) * pow2(
            p.prescaler_index as nat,
        ) < pow2(p.prescaler_index as nat),
{
    let u = half_period_units(clock_hz, frequency_hz);
    let d = pow2(p.prescaler_index as nat) as int;
    lemma_pow2_pos(p.prescaler_index as nat);
    lemma_div_pos_is_pos(clock_hz, 2 * frequency_hz);
    lemma_fundamental_div_mod(u, d);
    lemma_mod_bound(u, d);
    assert((p.compare_value + 1) * d == d * (u / d));
}

} // verus!
