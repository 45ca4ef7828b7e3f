//! Tests of the frequency/duty planner on concrete values, with a 125 MHz
//! system clock: the threshold frequency is 125_000_000 / 65536 = 1907 Hz.

use rp2040_pwm::planner::{solve_compare, solve_top_divider, PwmError, MAX_DUTY_CYCLE};

const SYSTEM_CLOCK_HZ: usize = 125_000_000;

#[test]
fn solve_at_clock_frequency() {
    // Requesting the clock frequency itself: one count per period.
    assert_eq!(solve_top_divider(SYSTEM_CLOCK_HZ, SYSTEM_CLOCK_HZ), Ok((0, 1, 0)));
}

#[test]
fn solve_above_threshold_needs_no_divider() {
    // A quarter of the clock: top = 4 - 1, divider stays 1 + 0/16.
    assert_eq!(solve_top_divider(SYSTEM_CLOCK_HZ / 4, SYSTEM_CLOCK_HZ), Ok((3, 1, 0)));
}

#[test]
fn solve_at_threshold_pins_top() {
    // Exactly the threshold frequency: maximal top, divider 1 + 0/16.
    let threshold = SYSTEM_CLOCK_HZ / MAX_DUTY_CYCLE;
    assert_eq!(threshold, 1907);
    assert_eq!(solve_top_divider(threshold, SYSTEM_CLOCK_HZ), Ok((u16::MAX, 1, 0)));
}

#[test]
fn solve_below_threshold_divides() {
    let threshold = SYSTEM_CLOCK_HZ / MAX_DUTY_CYCLE;
    // Half the threshold: divider 2 + 0/16.
    assert_eq!(solve_top_divider(threshold / 2, SYSTEM_CLOCK_HZ), Ok((u16::MAX, 2, 0)));
}

#[test]
fn solve_fractional_divider() {
    // threshold / 2.5 = 762.8 -> 762 Hz: divider 1907/762 = 2 + 8/16.
    assert_eq!(solve_top_divider(762, SYSTEM_CLOCK_HZ), Ok((u16::MAX, 2, 8)));
    // threshold / 3.14 = 607.3 -> 607 Hz: divider 1907/607 = 3 + 2/16.
    assert_eq!(solve_top_divider(607, SYSTEM_CLOCK_HZ), Ok((u16::MAX, 3, 2)));
}

#[test]
fn solve_too_low_frequency_fails() {
    // threshold / 256 = 7 Hz: the divider would need to be 272, beyond the
    // 8-bit integer part.
    let too_low = SYSTEM_CLOCK_HZ / MAX_DUTY_CYCLE / 256;
    assert_eq!(too_low, 7);
    assert_eq!(
        solve_top_divider(too_low, SYSTEM_CLOCK_HZ),
        Err(PwmError::UnsupportedDivider)
    );
    assert_eq!(solve_top_divider(1, SYSTEM_CLOCK_HZ), Err(PwmError::UnsupportedDivider));
}

#[test]
fn compare_three_quarters_duty() {
    // (3 + 1) * 49152 / 65536 = 3.
    assert_eq!(solve_compare(3, MAX_DUTY_CYCLE / 4 * 3, MAX_DUTY_CYCLE), Ok(3));
}

#[test]
fn compare_zero_duty() {
    assert_eq!(solve_compare(u16::MAX, 0, MAX_DUTY_CYCLE), Ok(0));
}

#[test]
fn compare_half_duty() {
    // (65535 + 1) * 32768 / 65536 = 32768.
    assert_eq!(solve_compare(u16::MAX, MAX_DUTY_CYCLE / 2, MAX_DUTY_CYCLE), Ok(32768));
}

#[test]
fn compare_full_duty_below_max_top() {
    // Exact full scale at top < 0xffff: compare = top + 1.
    assert_eq!(solve_compare(3, MAX_DUTY_CYCLE, MAX_DUTY_CYCLE), Ok(4));
    assert_eq!(solve_compare(1000, MAX_DUTY_CYCLE, MAX_DUTY_CYCLE), Ok(1001));
}

#[test]
fn compare_full_duty_at_max_top_fails() {
    assert_eq!(
        solve_compare(u16::MAX, MAX_DUTY_CYCLE, MAX_DUTY_CYCLE),
        Err(PwmError::UnrepresentableFullDuty)
    );
}
