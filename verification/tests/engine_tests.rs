use phase_pwm::engine::EXTENDED_CHANNEL;
use phase_pwm::engine::PhaseShifted90Pwm;
use phase_pwm::engine::REFERENCE_CHANNEL;
use phase_pwm::engine::STANDARD_CHANNEL;

const GROUP_BIT: u32 = 1 << 29;

#[test]
fn activation_end_to_end() {
    // 1000 Hz clock, 10 Hz target: divider 100, period 99, 100 duty steps.
    let e = PhaseShifted90Pwm::new(0, 1000, 10).unwrap();
    assert_eq!(e.get_max_duty(), 100);
    assert_eq!(e.period, 99);
    // reference at half, standard at three quarters, extended at one quarter
    assert_eq!(e.read_compare(REFERENCE_CHANNEL), 50);
    assert_eq!(e.read_compare(STANDARD_CHANNEL), 75);
    assert_eq!(e.read_compare(EXTENDED_CHANNEL), 25 | GROUP_BIT);
    assert_eq!(e.read_compare(EXTENDED_CHANNEL) & GROUP_BIT, GROUP_BIT);
    // exactly the three participating channels are enabled
    assert!(e.read_enable(STANDARD_CHANNEL));
    assert!(e.read_enable(REFERENCE_CHANNEL));
    assert!(e.read_enable(EXTENDED_CHANNEL));
    assert!(!e.read_enable(2));
    assert!(!e.read_enable(3));
    assert!(!e.read_enable(5));
}

#[test]
fn activation_thresholds_round_to_nearest() {
    // 10 duty steps: 50%, 75% and 25% round (ties up) to 5, 8 and 3
    let e = PhaseShifted90Pwm::new(0, 1000, 100).unwrap();
    assert_eq!(e.get_max_duty(), 10);
    assert_eq!(e.read_compare(REFERENCE_CHANNEL), 5);
    assert_eq!(e.read_compare(STANDARD_CHANNEL), 8);
    assert_eq!(e.read_compare(EXTENDED_CHANNEL), 3 | GROUP_BIT);
    // 5 duty steps: 2.5, 3.75 and 1.25 round to 3, 4 and 1
    let e2 = PhaseShifted90Pwm::new(0, 1000, 200).unwrap();
    assert_eq!(e2.get_max_duty(), 5);
    assert_eq!(e2.read_compare(REFERENCE_CHANNEL), 3);
    assert_eq!(e2.read_compare(STANDARD_CHANNEL), 4);
    assert_eq!(e2.read_compare(EXTENDED_CHANNEL), 1 | GROUP_BIT);
}

#[test]
fn max_duty_is_period_plus_one() {
    let mut e = PhaseShifted90Pwm::new(0, 1_000_000, 250).unwrap();
    assert_eq!(e.period, 3999);
    assert_eq!(e.get_max_duty(), 4000);
    e.set_frequency(125).unwrap();
    assert_eq!(e.period, 7999);
    assert_eq!(e.get_max_duty(), 8000);
}

#[test]
fn set_duty_accepts_the_maximum() {
    let mut e = PhaseShifted90Pwm::new(0, 1000, 10).unwrap();
    let max = e.get_max_duty();
    e.set_duty(STANDARD_CHANNEL, max as u16);
    assert_eq!(e.read_compare(STANDARD_CHANNEL), max);
}

#[test]
fn set_duty_touches_only_its_channel() {
    let mut e = PhaseShifted90Pwm::new(0, 1000, 10).unwrap();
    e.set_duty(REFERENCE_CHANNEL, 33);
    assert_eq!(e.read_compare(REFERENCE_CHANNEL), 33);
    assert_eq!(e.read_compare(STANDARD_CHANNEL), 75);
    assert_eq!(e.read_compare(EXTENDED_CHANNEL), 25 | (1 << 29));
}

#[test]
fn unachievable_frequency_reports_alternative() {
    // 1000 / 400 leaves a remainder: the rounded-down divider 2 gives the
    // achievable 500 Hz.
    let mut e = PhaseShifted90Pwm::new(0, 1000, 10).unwrap();
    let err = e.set_frequency(400).unwrap_err();
    assert_eq!(err.requested, 400);
    assert_eq!(err.achievable, 500);
    // the failed request changed nothing
    assert_eq!(e.get_max_duty(), 100);
    assert_eq!(e.read_compare(REFERENCE_CHANNEL), 50);
}

#[test]
fn frequency_above_clock_reports_clock() {
    let err = PhaseShifted90Pwm::new(0, 1000, 2000).unwrap_err();
    assert_eq!(err.requested, 2000);
    assert_eq!(err.achievable, 1000);
}

#[test]
fn divider_overflow_reports_slowest_frequency() {
    // 10 MHz / 1 Hz needs a divider beyond the 16-bit period register:
    // clamped to 65536, the achievable alternative is 152 Hz.
    let err = PhaseShifted90Pwm::new(0, 10_000_000, 1).unwrap_err();
    assert_eq!(err.requested, 1);
    assert_eq!(err.achievable, 10_000_000 / 65536);
}

#[test]
fn construction_at_exact_divider_bounds() {
    // divider exactly 1: period 0, a single duty step
    let e = PhaseShifted90Pwm::new(0, 1000, 1000).unwrap();
    assert_eq!(e.get_max_duty(), 1);
    // divider exactly 65536: the largest representable period
    let e2 = PhaseShifted90Pwm::new(0, 65536, 1).unwrap();
    assert_eq!(e2.period, 65535);
    assert_eq!(e2.get_max_duty(), 65536);
}

#[test]
fn enable_is_additive_per_channel() {
    let mut e = PhaseShifted90Pwm::new(0, 1000, 10).unwrap();
    assert!(!e.read_enable(3));
    e.enable(3);
    assert!(e.read_enable(3));
    // the channels enabled by activation are still enabled
    assert!(e.read_enable(STANDARD_CHANNEL));
    assert!(e.read_enable(REFERENCE_CHANNEL));
    assert!(e.read_enable(EXTENDED_CHANNEL));
}
