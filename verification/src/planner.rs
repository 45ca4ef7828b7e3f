//! Frequency/duty planner: solves a requested output frequency for the
//! (top, divider-integer, divider-fraction) triple that programs a channel,
//! and a requested duty cycle for the compare value, with the two documented
//! failure cases. All arithmetic is exact integer arithmetic: the 8.4
//! fixed-point divider is the floor of the real ratio, sixteenths included.

use vstd::prelude::*;
use vstd::arithmetic::div_mod::{
    lemma_div_non_zero, lemma_fundamental_div_mod, lemma_mod_division_less_than_divisor,
    lemma_multiply_divide_lt, lemma_div_is_ordered, lemma_div_multiples_vanish,
};

verus! {

/// Full-scale duty-cycle unit: the opaque value that stands for 100% duty.
pub const MAX_DUTY_CYCLE: usize = 65536;

/// Why a frequency/duty request cannot be realized.
#[derive(Clone, Copy, PartialEq, Eq, Structural, Debug)]
pub enum PwmError {
    /// The requested frequency is too low for the system clock: realizing it
    /// would need a clock divider of 256 or more, which the divider's 8-bit
    /// integer part cannot hold.
    UnsupportedDivider,
    /// Exact full-scale duty was requested while top sits at its maximum:
    /// the compare value would need to be top + 1 == 0x10000, which does not
    /// fit the 16-bit compare register.
    UnrepresentableFullDuty,
}

/// Highest frequency at which the full 16-bit duty resolution is reachable
/// without dividing the system clock.
pub open spec fn spec_threshold_hz(system_clock_hz: int) -> int {
    system_clock_hz / (MAX_DUTY_CYCLE as int)
}

/// The (top, divider-integer, divider-fraction) triple solved for a
/// requested frequency:
/// + above the threshold frequency no divider is needed — top is the period
///   in undivided clock cycles minus one, and the divider is 1 + 0/16;
/// + at or below it, top is maximal and the divider is the real ratio
///   threshold/frequency rounded down to sixteenths — unless even the
///   maximal divider is too small, which is the unsupported-divider error.
pub open spec fn spec_solve_top_divider(frequency_hz: int, system_clock_hz: int) -> Result<
    (u16, u8, u8),
    PwmError,
>
    recommends
        1 <= frequency_hz <= system_clock_hz,
{
    let threshold_hz = spec_threshold_hz(system_clock_hz);
    if frequency_hz > threshold_hz {
        Ok(((system_clock_hz / frequency_hz - 1) as u16, 1u8, 0u8))
    } else if threshold_hz / frequency_hz >= 256 {
        Err(PwmError::UnsupportedDivider)
    } else {
        Ok(
            (
                0xffffu16,
                (threshold_hz / frequency_hz) as u8,
                ((threshold_hz % frequency_hz) * 16 / frequency_hz) as u8,
            ),
        )
    }
}

/// The compare value solved for a requested duty cycle at a given top:
/// + exact full scale is top + 1 (the counter never reaches it), except at
///   maximal top, where that value does not fit the compare register;
/// + anything below full scale is the duty fraction of the top + 1 counts
///   of a period, rounded down.
pub open spec fn spec_solve_compare(top: u16, duty_cycle: int, max_duty_cycle: int) -> Result<
    u16,
    PwmError,
>
    recommends
        0 <= duty_cycle <= max_duty_cycle,
        1 <= max_duty_cycle,
{
    if duty_cycle == max_duty_cycle {
        if top == 0xffff {
            Err(PwmError::UnrepresentableFullDuty)
        } else {
            Ok((top + 1) as u16)
        }
    } else {
        Ok(((top as int + 1) * duty_cycle / max_duty_cycle) as u16)
    }
}

/// Solve a requested frequency for the (top, divider-integer,
/// divider-fraction) triple that programs a channel, against the live
/// system clock frequency.
///
/// Fails with [`PwmError::UnsupportedDivider`] exactly when the frequency
/// is at or below the threshold and the real ratio threshold/frequency is
/// 256 or more.
pub fn solve_top_divider(frequency_hz: usize, system_clock_hz: usize) -> (r: Result<
    (u16, u8, u8),
    PwmError,
>)
    requires
        1 <= frequency_hz <= system_clock_hz,
    ensures
        r == spec_solve_top_divider(frequency_hz as int, system_clock_hz as int),
        r matches Ok((top, int_part, frac_part)) ==> 1 <= int_part && frac_part <= 15,
{
    let threshold_hz = system_clock_hz / MAX_DUTY_CYCLE;
    if frequency_hz > threshold_hz {
        let periods = system_clock_hz / frequency_hz;
        proof {
            lemma_div_non_zero(system_clock_hz as int, frequency_hz as int);
        }
        Ok(((periods - 1) as u16, 1, 0))
    } else {
        let divider_int = threshold_hz / frequency_hz;
        if divider_int >= 256 {
            Err(PwmError::UnsupportedDivider)
        } else {
            let remainder = threshold_hz % frequency_hz;
            proof {
                lemma_div_non_zero(threshold_hz as int, frequency_hz as int);
                lemma_mod_division_less_than_divisor(
                    threshold_hz as int,
                    frequency_hz as int,
                );
                lemma_fundamental_div_mod(system_clock_hz as int, 65536);
                assert(remainder * 16 <= system_clock_hz) by (nonlinear_arith)
                    requires
                        remainder < frequency_hz,
                        frequency_hz <= threshold_hz,
                        0 <= threshold_hz,
                        threshold_hz * 65536 <= system_clock_hz,
                ;
            }
            let divider_frac = remainder * 16 / frequency_hz;
            proof {
                assert(divider_frac < 16) by (nonlinear_arith)
                    requires
                        divider_frac == remainder * 16 / (frequency_hz as int),
                        remainder < frequency_hz,
                        0 <= remainder,
                        1 <= frequency_hz,
                ;
            }
            Ok((u16::MAX, divider_int as u8, divider_frac as u8))
        }
    }
}

/// Solve a requested duty cycle for the compare value at a given top.
///
/// Fails with [`PwmError::UnrepresentableFullDuty`] exactly when exact
/// full-scale duty meets the maximal top value.
pub fn solve_compare(top: u16, duty_cycle: usize, max_duty_cycle: usize) -> (r: Result<
    u16,
    PwmError,
>)
    requires
        1 <= max_duty_cycle,
        duty_cycle <= max_duty_cycle,
        duty_cycle < max_duty_cycle ==> (top as int + 1) * duty_cycle <= usize::MAX,
    ensures
        r == spec_solve_compare(top, duty_cycle as int, max_duty_cycle as int),
{
    if duty_cycle == max_duty_cycle {
        if top == u16::MAX {
            Err(PwmError::UnrepresentableFullDuty)
        } else {
            Ok(top + 1)
        }
    } else {
        let scaled = (top as usize + 1) * duty_cycle;
        let value = scaled / max_duty_cycle;
        proof {
            assert(scaled < max_duty_cycle * (top as int + 1)) by (nonlinear_arith)
                requires
                    scaled == (top as int + 1) * duty_cycle,
                    0 <= duty_cycle < max_duty_cycle,
                    0 < top as int + 1,
            ;
            lemma_multiply_divide_lt(scaled as int, max_duty_cycle as int, top as int + 1);
        }
        Ok(value as u16)
    }
}

// Laws of the planner.

/// Above the threshold frequency the solver needs no divider: for every
/// frequency in (threshold, system clock], it returns divider 1 + 0/16 and
/// top equal to the period in undivided clock cycles minus one, which fits
/// the 16-bit top register without truncation.
pub proof fn lemma_solve_no_divider(frequency_hz: int, system_clock_hz: int)
    requires
        1 <= frequency_hz <= system_clock_hz,
        frequency_hz > spec_threshold_hz(system_clock_hz),
    ensures
        spec_solve_top_divider(frequency_hz, system_clock_hz) == Ok::<_, PwmError>(
            ((system_clock_hz / frequency_hz - 1) as u16, 1u8, 0u8),
        ),
        1 <= system_clock_hz / frequency_hz <= 65535,
        (system_clock_hz / frequency_hz - 1) as u16 == system_clock_hz / frequency_hz - 1,
{
    lemma_div_non_zero(system_clock_hz, frequency_hz);
    lemma_fundamental_div_mod(system_clock_hz, 65536);
    lemma_mod_division_less_than_divisor(system_clock_hz, 65536);
    assert(system_clock_hz < 65536 * frequency_hz) by (nonlinear_arith)
        requires
            system_clock_hz == 65536 * spec_threshold_hz(system_clock_hz) + system_clock_hz
                % 65536,
            system_clock_hz % 65536 < 65536,
            spec_threshold_hz(system_clock_hz) < frequency_hz,
    ;
    lemma_multiply_divide_lt(system_clock_hz, frequency_hz, 65536);
    assert(system_clock_hz / frequency_hz < 65536);
}

/// At or below the threshold frequency, while the divider stays below 256,
/// the solver pins top at its maximum and picks the divider as the real
/// ratio threshold/frequency rounded down to a whole number of sixteenths:
/// sixteen times the real ratio lies within one of the 8.4 fixed-point
/// value counted in sixteenths — so the divider is within 1/16 of the
/// ratio. The divider is at least 1, and strictly above 1 whenever the
/// ratio is at least 17/16; at the threshold frequency itself the ratio,
/// and so the divider, are exactly 1.
pub proof fn lemma_solve_divider_approximates(frequency_hz: int, system_clock_hz: int)
    requires
        1 <= frequency_hz,
        frequency_hz <= spec_threshold_hz(system_clock_hz),
        spec_threshold_hz(system_clock_hz) / frequency_hz < 256,
    ensures
        ({
            let threshold_hz = spec_threshold_hz(system_clock_hz);
            let divider_int = threshold_hz / frequency_hz;
            let divider_frac = (threshold_hz % frequency_hz) * 16 / frequency_hz;
            let sixteenths = 16 * divider_int + divider_frac;
            &&& spec_solve_top_divider(frequency_hz, system_clock_hz) == Ok::<_, PwmError>(
                (0xffffu16, divider_int as u8, divider_frac as u8),
            )
            &&& 1 <= divider_int < 256
            &&& 0 <= divider_frac < 16
            &&& 16 <= sixteenths
            &&& sixteenths * frequency_hz <= 16 * threshold_hz
            &&& 16 * threshold_hz < (sixteenths + 1) * frequency_hz
            &&& 17 * frequency_hz <= 16 * threshold_hz ==> 16 < sixteenths
        }),
{
    let threshold_hz = spec_threshold_hz(system_clock_hz);
    let divider_int = threshold_hz / frequency_hz;
    let divider_frac = (threshold_hz % frequency_hz) * 16 / frequency_hz;
    let remainder = threshold_hz % frequency_hz;
    lemma_div_non_zero(threshold_hz, frequency_hz);
    lemma_mod_division_less_than_divisor(threshold_hz, frequency_hz);
    assert(divider_frac < 16) by (nonlinear_arith)
        requires
            divider_frac == remainder * 16 / frequency_hz,
            0 <= remainder < frequency_hz,
            1 <= frequency_hz,
    ;
    lemma_fundamental_div_mod(remainder * 16, frequency_hz);
    lemma_mod_division_less_than_divisor(remainder * 16, frequency_hz);
    lemma_fundamental_div_mod(threshold_hz, frequency_hz);
    let sixteenths = 16 * divider_int + divider_frac;
    assert(sixteenths * frequency_hz <= 16 * threshold_hz && 16 * threshold_hz < (sixteenths
        + 1) * frequency_hz) by (nonlinear_arith)
        requires
            sixteenths == 16 * divider_int + divider_frac,
            threshold_hz == frequency_hz * divider_int + remainder,
            remainder * 16 == frequency_hz * divider_frac + (remainder * 16) % frequency_hz,
            0 <= (remainder * 16) % frequency_hz < frequency_hz,
            1 <= frequency_hz,
    ;
    if 17 * frequency_hz <= 16 * threshold_hz {
        assert(16 < sixteenths) by (nonlinear_arith)
            requires
                16 * threshold_hz < (sixteenths + 1) * frequency_hz,
                17 * frequency_hz <= 16 * threshold_hz,
                1 <= frequency_hz,
                16 <= sixteenths,
        ;
    }
}

/// Every frequency that would need a divider of 256 or more — that is,
/// every frequency at or below a 256th of the threshold frequency — is
/// refused with the unsupported-divider error.
pub proof fn lemma_solve_unsupported_divider(frequency_hz: int, system_clock_hz: int)
    requires
        1 <= frequency_hz,
        256 * frequency_hz <= spec_threshold_hz(system_clock_hz),
    ensures
        spec_solve_top_divider(frequency_hz, system_clock_hz) == Err::<(u16, u8, u8), _>(
            PwmError::UnsupportedDivider,
        ),
{
    let threshold_hz = spec_threshold_hz(system_clock_hz);
    lemma_div_is_ordered(256 * frequency_hz, threshold_hz, frequency_hz);
    assert((256 * frequency_hz) / frequency_hz == 256) by {
        lemma_div_multiples_vanish(256, frequency_hz);
    };
    assert(frequency_hz <= threshold_hz) by (nonlinear_arith)
        requires
            256 * frequency_hz <= threshold_hz,
            1 <= frequency_hz,
    ;
}

/// Exact full-scale duty at the maximal top value is refused with the
/// unrepresentable-full-duty error; at any smaller top it succeeds with
/// compare value top + 1.
pub proof fn lemma_solve_compare_full_duty(top: u16, max_duty_cycle: int)
    requires
        1 <= max_duty_cycle,
    ensures
        spec_solve_compare(0xffffu16, max_duty_cycle, max_duty_cycle) == Err::<u16, _>(
            PwmError::UnrepresentableFullDuty,
        ),
        top < 0xffff ==> spec_solve_compare(top, max_duty_cycle, max_duty_cycle) == Ok::<
            _,
            PwmError,
        >((top + 1) as u16) && (top + 1) as u16 == top as int + 1,
{
}

} // verus!
