use tonegen::encoder::{
    compute_timer_program, compute_toggle_budget, TimerProgram, ToggleBudget, ToneDuration,
    ToneError, LAST_PRESCALER_INDEX,
};

const CLOCK_HZ: u32 = 1_000_000;

/// The reference halving sequence: the half period in clock ticks, then
/// one round-up halving per prescaler step.
fn halvings(frequency_hz: u32, steps: u32) -> u32 {
    let mut u = CLOCK_HZ / (2 * frequency_hz);
    for _ in 0..steps {
        u /= 2;
    }
    u
}

#[test]
fn timer_program_concrete_scenario() {
    // 1 MHz clock, 440 Hz: initial ticks 1136 - 1 = 1135 > 255, three
    // halving steps land on compare value 141 at prescaler step 3.
    let r = compute_timer_program(440, CLOCK_HZ);
    assert_eq!(r, Ok(TimerProgram { prescaler_index: 3, compare_value: 141 }));
}

#[test]
fn toggle_budget_concrete_scenario() {
    let b = compute_toggle_budget(440, ToneDuration::Millis(2000));
    assert_eq!(b, ToggleBudget::Finite(1760));
}

#[test]
fn zero_frequency_rejected() {
    assert_eq!(compute_timer_program(0, CLOCK_HZ), Err(ToneError::ZeroFrequency));
}

#[test]
fn frequency_too_low_rejected() {
    // At 30 Hz even the coarsest step leaves 260 > 256.
    assert_eq!(compute_timer_program(30, CLOCK_HZ), Err(ToneError::FrequencyTooLow));
    // 31 Hz just fits at the coarsest step.
    assert_eq!(
        compute_timer_program(31, CLOCK_HZ),
        Ok(TimerProgram { prescaler_index: 6, compare_value: 251 })
    );
}

#[test]
fn compare_value_in_range_and_prescaler_minimal() {
    for f in 1..=5000u16 {
        match compute_timer_program(f, CLOCK_HZ) {
            Ok(p) => {
                assert!(p.prescaler_index <= LAST_PRESCALER_INDEX);
                // The selected step fits the 8-bit register.
                assert!(halvings(f as u32, p.prescaler_index as u32) <= 256);
                // No earlier step in the ordered set also fits.
                for j in 0..p.prescaler_index {
                    assert!(halvings(f as u32, j as u32) > 256, "f={f} j={j}");
                }
            }
            Err(e) => {
                assert_eq!(e, ToneError::FrequencyTooLow);
                assert!(halvings(f as u32, LAST_PRESCALER_INDEX as u32) > 256);
            }
        }
    }
}

#[test]
fn half_period_reconstruction_error_bound() {
    for f in 1..=5000u16 {
        if let Ok(p) = compute_timer_program(f, CLOCK_HZ) {
            let scale = 1u32 << p.prescaler_index;
            let reconstructed = (p.compare_value as u32 + 1) * scale;
            let half_period = CLOCK_HZ / (2 * f as u32);
            assert!(reconstructed <= half_period, "f={f}");
            assert!(half_period - reconstructed < scale, "f={f}");
        }
    }
}

#[test]
fn toggle_budget_formula_exact() {
    // Truncating integer division, two toggles per cycle.
    assert_eq!(compute_toggle_budget(1, ToneDuration::Millis(1)), ToggleBudget::Finite(0));
    assert_eq!(compute_toggle_budget(1, ToneDuration::Millis(1500)), ToggleBudget::Finite(3));
    assert_eq!(compute_toggle_budget(0, ToneDuration::Millis(9999)), ToggleBudget::Finite(0));
    assert_eq!(compute_toggle_budget(1000, ToneDuration::Millis(0)), ToggleBudget::Finite(0));
    let expected = (2u128 * 65535 * 4_294_967_295 / 1000) as u64;
    assert_eq!(
        compute_toggle_budget(65535, ToneDuration::Millis(4_294_967_295)),
        ToggleBudget::Finite(expected)
    );
}

#[test]
fn toggle_budget_indefinite_keeps_marker() {
    assert_eq!(compute_toggle_budget(440, ToneDuration::Indefinite), ToggleBudget::Indefinite);
    assert_eq!(compute_toggle_budget(0, ToneDuration::Indefinite), ToggleBudget::Indefinite);
}
