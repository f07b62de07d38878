use tonegen::encoder::{ToggleBudget, ToneDuration, ToneError};
use tonegen::tone::ToneSystem;

const CLOCK_HZ: u32 = 1_000_000;

#[test]
fn bring_up_is_idle() {
    let s = ToneSystem::bring_up(CLOCK_HZ);
    assert!(!s.is_active());
    assert!(!s.interrupt_unmasked());
    assert!(!s.pin.high);
    assert_eq!(s.budget, ToggleBudget::Finite(0));
    assert!(!s.regs.wave_ctc);
    assert_eq!(s.regs.prescaler_tap, 0);
    assert_eq!(s.regs.compare, 0);
}

#[test]
fn start_tone_programs_timer_and_unmasks() {
    let mut s = ToneSystem::bring_up(CLOCK_HZ);
    assert_eq!(s.start_tone(440, ToneDuration::Millis(2000)), Ok(()));
    assert!(s.regs.wave_ctc);
    assert_eq!(s.regs.prescaler_tap, 4); // prescaler step 3
    assert_eq!(s.regs.compare, 141);
    assert!(s.regs.compare_interrupt_enabled);
    assert_eq!(s.budget, ToggleBudget::Finite(1760));
    assert!(s.is_active());
}

#[test]
fn zero_frequency_leaves_registers_untouched() {
    let mut s = ToneSystem::bring_up(CLOCK_HZ);
    let before = s;
    assert_eq!(s.start_tone(0, ToneDuration::Millis(100)), Err(ToneError::ZeroFrequency));
    assert_eq!(s, before);
    assert!(!s.is_active());
}

#[test]
fn too_low_frequency_leaves_registers_untouched() {
    let mut s = ToneSystem::bring_up(CLOCK_HZ);
    let before = s;
    assert_eq!(s.start_tone(30, ToneDuration::Millis(100)), Err(ToneError::FrequencyTooLow));
    assert_eq!(s, before);
}

#[test]
fn stop_tone_with_no_active_tone_is_noop() {
    let mut s = ToneSystem::bring_up(CLOCK_HZ);
    let before = s;
    s.stop_tone();
    assert_eq!(s, before);
    assert!(!s.pin.high);
}

#[test]
fn stop_tone_ends_a_running_tone() {
    let mut s = ToneSystem::bring_up(CLOCK_HZ);
    s.start_tone(440, ToneDuration::Millis(2000)).unwrap();
    s.on_compare_match();
    assert!(s.pin.high);
    s.stop_tone();
    assert!(!s.is_active());
    assert!(!s.interrupt_unmasked());
    assert!(!s.pin.high);
}

#[test]
fn restart_supersedes_previous_tone() {
    // Starting B while A still has budget leaves exactly the state that
    // starting B alone would have left.
    let mut with_a = ToneSystem::bring_up(CLOCK_HZ);
    with_a.start_tone(523, ToneDuration::Millis(100)).unwrap();
    with_a.start_tone(440, ToneDuration::Millis(2000)).unwrap();
    let mut b_alone = ToneSystem::bring_up(CLOCK_HZ);
    b_alone.start_tone(440, ToneDuration::Millis(2000)).unwrap();
    assert_eq!(with_a, b_alone);
}

#[test]
fn finite_tone_runs_to_exhaustion() {
    let mut s = ToneSystem::bring_up(CLOCK_HZ);
    s.start_tone(440, ToneDuration::Millis(2000)).unwrap();
    for i in 0..1760u32 {
        assert!(s.is_active(), "budget gone early at {i}");
        assert!(s.interrupt_unmasked());
        let level = s.pin.high;
        s.on_compare_match();
        assert_eq!(s.pin.high, !level);
    }
    // Budget exhausted: no longer active, but the final self-disabling
    // firing has not happened yet.
    assert!(!s.is_active());
    assert!(s.interrupt_unmasked());
    assert_eq!(s.budget, ToggleBudget::Finite(0));
    // An even toggle count leaves the pin back at its low rest level.
    assert!(!s.pin.high);
    // The next firing disables the interrupt and forces the pin low.
    s.on_compare_match();
    assert!(!s.interrupt_unmasked());
    assert!(!s.pin.high);
}

#[test]
fn odd_budget_still_ends_low() {
    let mut s = ToneSystem::bring_up(CLOCK_HZ);
    // 2 * 500 * 1 / 1000 = 1: a single toggle leaves the pin high.
    s.start_tone(500, ToneDuration::Millis(1)).unwrap();
    assert_eq!(s.budget, ToggleBudget::Finite(1));
    s.on_compare_match();
    assert!(s.pin.high);
    assert!(!s.is_active());
    assert!(s.interrupt_unmasked());
    // The firing after exhaustion forces the pin low and self-disables.
    s.on_compare_match();
    assert!(!s.pin.high);
    assert!(!s.interrupt_unmasked());
    assert!(!s.is_active());
}

#[test]
fn indefinite_tone_runs_until_stopped() {
    let mut s = ToneSystem::bring_up(CLOCK_HZ);
    s.start_tone(880, ToneDuration::Indefinite).unwrap();
    assert_eq!(s.budget, ToggleBudget::Indefinite);
    for _ in 0..1001u32 {
        assert!(s.is_active());
        s.on_compare_match();
    }
    assert!(s.is_active());
    assert!(s.pin.high); // an odd number of toggles
    s.stop_tone();
    assert!(!s.is_active());
    assert!(!s.pin.high);
    assert_eq!(s.budget, ToggleBudget::Indefinite);
}
