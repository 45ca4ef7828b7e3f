//! The peripheral itself: the register bank of eight channels with the
//! peripheral-wide interrupt registers, the channel controller that programs
//! it, and the interrupt dispatcher. Every mutation is specified as a pure
//! transition on the peripheral's abstract state, [`PwmState`].

use vstd::prelude::*;
use crate::channel::{ChannelNumber, ChannelPin, DivMode, NUM_CHANNELS};
use crate::channel::{channel_index_of_pin, sub_pin_index_of_pin};
use crate::config::PwmChannelConfiguration;
use crate::planner::{
    solve_compare, solve_top_divider, spec_solve_compare, spec_solve_top_divider, PwmError,
    MAX_DUTY_CYCLE,
};
use crate::registers::{
    cc_a, cc_b, csr_a_inv, csr_b_inv, csr_divmode, csr_en, csr_ph_correct, div_frac, div_int,
    lemma_with_cc_a, lemma_with_cc_b, lemma_with_csr_a_inv, lemma_with_csr_b_inv,
    lemma_with_csr_divmode, lemma_with_csr_en, lemma_with_csr_ph_correct, lemma_with_div,
    lemma_with_low16, low16, with_cc_a, with_cc_b, with_csr_a_inv, with_csr_b_inv,
    with_csr_divmode, with_csr_en, with_csr_ph_correct, with_div, with_low16, ChannelRegisters,
};

verus! {

/// Abstract state of the peripheral: the eight channels' registers, the
/// peripheral-wide interrupt registers (one bit per channel each), and the
/// system clock frequency the clock tree has supplied, if any.
#[verifier::ext_equal]
pub struct PwmState {
    /// Per-channel registers, indexed by channel number.
    pub channels: Seq<ChannelRegisters>,
    /// Latched raw interrupt bits: bit i is set when channel i's counter
    /// wrapped and the event has not been cleared yet.
    pub intr_raw: u32,
    /// Interrupt enable mask.
    pub inte: u32,
    /// Software-forced interrupt bits.
    pub intf: u32,
    /// System clock frequency in Hz, once the clock tree supplied it.
    pub system_clock_hz: Option<usize>,
}

impl PwmState {
    /// Well-formedness: one register slice per channel, every channel's
    /// divider integer part at least 1 (0 is illegal and rejected by all
    /// setters), and only the eight per-channel bits of the interrupt
    /// registers in use.
    pub open spec fn wf(self) -> bool {
        &&& self.channels.len() == NUM_CHANNELS
        &&& forall|i: int|
            0 <= i < self.channels.len() ==> 1 <= div_int(#[trigger] self.channels[i].div)
        &&& self.intr_raw < 256
        &&& self.inte < 256
        &&& self.intf < 256
    }

    /// Interrupt status after masking and forcing: a raw latched event
    /// passes when enabled, and a forced bit always shows.
    pub open spec fn status_mask(self) -> u32 {
        (self.intr_raw & self.inte) | self.intf
    }

    /// Whether channel `c`'s interrupt status bit is showing.
    pub open spec fn status_bit(self, c: int) -> bool {
        (self.status_mask() >> (c as u32)) & 1 == 1
    }
}

/// Power-on reset values of one channel's registers: everything clear
/// except the divider, which resets to 1 + 0/16, and top, which resets to
/// its maximum.
pub open spec fn spec_reset_channel() -> ChannelRegisters {
    ChannelRegisters { csr: 0, div: 0x10, ctr: 0, cc: 0, top: 0xffff }
}

/// The state with channel `c`'s registers replaced.
pub open spec fn spec_with_channel(v: PwmState, c: int, regs: ChannelRegisters) -> PwmState {
    PwmState { channels: v.channels.update(c, regs), ..v }
}

/// Effect of enabling or disabling channel `c`.
pub open spec fn spec_set_enabled(v: PwmState, c: int, enable: bool) -> PwmState {
    spec_with_channel(
        v,
        c,
        ChannelRegisters { csr: with_csr_en(v.channels[c].csr, enable), ..v.channels[c] },
    )
}

/// Effect of selecting channel `c`'s modulation mode.
pub open spec fn spec_set_ph_correct(v: PwmState, c: int, ph_correct: bool) -> PwmState {
    spec_with_channel(
        v,
        c,
        ChannelRegisters {
            csr: with_csr_ph_correct(v.channels[c].csr, ph_correct),
            ..v.channels[c]
        },
    )
}

/// Effect of setting channel `c`'s output polarity inversions.
pub open spec fn spec_set_invert_polarity(v: PwmState, c: int, a_inv: bool, b_inv: bool) -> PwmState {
    spec_with_channel(
        v,
        c,
        ChannelRegisters {
            csr: with_csr_b_inv(with_csr_a_inv(v.channels[c].csr, a_inv), b_inv),
            ..v.channels[c]
        },
    )
}

/// Effect of selecting channel `c`'s divider-event source.
pub open spec fn spec_set_div_mode(v: PwmState, c: int, divmode: DivMode) -> PwmState {
    spec_with_channel(
        v,
        c,
        ChannelRegisters {
            csr: with_csr_divmode(v.channels[c].csr, divmode.ordinal()),
            ..v.channels[c]
        },
    )
}

/// Effect of programming channel `c`'s 8.4 clock divider: an integer part
/// of 0 or a fractional part above 15 is ignored and the state is left as
/// it was.
pub open spec fn spec_set_divider_int_frac(v: PwmState, c: int, int_part: u8, frac_part: u8) -> PwmState {
    if int_part == 0 || frac_part > 15 {
        v
    } else {
        spec_with_channel(
            v,
            c,
            ChannelRegisters {
                div: with_div(v.channels[c].div, int_part as u32, frac_part as u32),
                ..v.channels[c]
            },
        )
    }
}

/// Effect of programming channel `c`'s compare value for output A.
pub open spec fn spec_set_compare_value_a(v: PwmState, c: int, value: u16) -> PwmState {
    spec_with_channel(
        v,
        c,
        ChannelRegisters { cc: with_cc_a(v.channels[c].cc, value as u32), ..v.channels[c] },
    )
}

/// Effect of programming channel `c`'s compare value for output B.
pub open spec fn spec_set_compare_value_b(v: PwmState, c: int, value: u16) -> PwmState {
    spec_with_channel(
        v,
        c,
        ChannelRegisters { cc: with_cc_b(v.channels[c].cc, value as u32), ..v.channels[c] },
    )
}

/// Effect of programming channel `c`'s counter wrap value.
pub open spec fn spec_set_top(v: PwmState, c: int, top: u16) -> PwmState {
    spec_with_channel(
        v,
        c,
        ChannelRegisters { top: with_low16(v.channels[c].top, top as u32), ..v.channels[c] },
    )
}

/// Effect of writing channel `c`'s counter.
pub open spec fn spec_set_counter(v: PwmState, c: int, value: u16) -> PwmState {
    spec_with_channel(
        v,
        c,
        ChannelRegisters { ctr: with_low16(v.channels[c].ctr, value as u32), ..v.channels[c] },
    )
}

/// The peripheral: eight channels' registers plus the peripheral-wide
/// enable/interrupt registers, and the system clock frequency supplied by
/// the clock tree.
pub struct Pwm {
    channels: [ChannelRegisters; NUM_CHANNELS],
    intr_raw: u32,
    inte: u32,
    intf: u32,
    system_clock_hz: Option<usize>,
}

impl View for Pwm {
    type V = PwmState;

    closed spec fn view(&self) -> PwmState {
        PwmState {
            channels: self.channels@,
            intr_raw: self.intr_raw,
            inte: self.inte,
            intf: self.intf,
            system_clock_hz: self.system_clock_hz,
        }
    }
}

impl Pwm {
    /// Well-formedness of the peripheral's state.
    pub open spec fn wf(self) -> bool {
        self@.wf()
    }

    /// A peripheral in its power-on reset state: every channel disabled
    /// with divider 1 + 0/16 and maximal top, no interrupt latched, enabled
    /// or forced, and no system clock supplied yet.
    pub fn new() -> (pwm: Pwm)
        ensures
            pwm.wf(),
            pwm@.channels.len() == NUM_CHANNELS,
            forall|i: int|
                0 <= i < NUM_CHANNELS ==> pwm@.channels[i] == spec_reset_channel(),
            pwm@.intr_raw == 0,
            pwm@.inte == 0,
            pwm@.intf == 0,
            pwm@.system_clock_hz is None,
    {
        let reset = ChannelRegisters { csr: 0, div: 0x10, ctr: 0, cc: 0, top: 0xffff };
        proof {
            assert(div_int(0x10u32) == 1) by (bit_vector);
        }
        Pwm {
            channels: [reset, reset, reset, reset, reset, reset, reset, reset],
            intr_raw: 0,
            inte: 0,
            intf: 0,
            system_clock_hz: None,
        }
    }

    /// Resolve the clock-tree dependency: supply the live system clock
    /// frequency in Hz. Starting a pin is only allowed afterwards.
    pub fn set_clocks(&mut self, system_clock_hz: usize)
        requires
            old(self).wf(),
            1 <= system_clock_hz,
        ensures
            final(self).wf(),
            final(self)@ == (PwmState {
                system_clock_hz: Some(system_clock_hz),
                ..old(self)@
            }),
    {
        self.system_clock_hz = Some(system_clock_hz);
    }

    /// The maximum realizable output frequency: the system clock frequency.
    ///
    /// The clock-tree dependency must have been resolved.
    pub fn get_maximum_frequency_hz(&self) -> (hz: usize)
        requires
            self@.system_clock_hz is Some,
        ensures
            Some(hz) == self@.system_clock_hz,
    {
        self.system_clock_hz.unwrap()
    }

    /// The opaque value that stands for 100% duty cycle.
    pub fn get_maximum_duty_cycle(&self) -> (max: usize)
        ensures
            max == MAX_DUTY_CYCLE,
    {
        MAX_DUTY_CYCLE
    }

    /// A copy of one channel's registers, for observation.
    pub fn channel_registers(&self, channel_number: ChannelNumber) -> (regs: ChannelRegisters)
        requires
            self.wf(),
        ensures
            regs == self@.channels[channel_number.ordinal()],
    {
        self.channels[channel_number.index()]
    }

    /// Enable (true) or disable (false) one channel. Disabling stops both
    /// of the channel's sub-pins: enable is channel-wide.
    pub fn set_enabled(&mut self, channel_number: ChannelNumber, enable: bool)
        requires
            old(self).wf(),
        ensures
            final(self).wf(),
            final(self)@ == spec_set_enabled(old(self)@, channel_number.ordinal(), enable),
            csr_en(final(self)@.channels[channel_number.ordinal()].csr) == enable,
    {
        let i = channel_number.index();
        let regs = self.channels[i];
        let csr = if enable {
            regs.csr | 0x1
        } else {
            regs.csr & 0xffff_fffe
        };
        self.channels[i] = ChannelRegisters { csr, ..regs };
        proof {
            lemma_with_csr_en(regs.csr);
        }
    }

    /// Select trailing-edge (false) or phase-correct dual-slope (true)
    /// modulation for one channel.
    pub fn set_ph_correct(&mut self, channel_number: ChannelNumber, ph_correct: bool)
        requires
            old(self).wf(),
        ensures
            final(self).wf(),
            final(self)@ == spec_set_ph_correct(old(self)@, channel_number.ordinal(), ph_correct),
            csr_ph_correct(final(self)@.channels[channel_number.ordinal()].csr) == ph_correct,
    {
        let i = channel_number.index();
        let regs = self.channels[i];
        let csr = if ph_correct {
            regs.csr | 0x2
        } else {
            regs.csr & 0xffff_fffd
        };
        self.channels[i] = ChannelRegisters { csr, ..regs };
        proof {
            lemma_with_csr_ph_correct(regs.csr);
        }
    }

    /// Set the polarity inversion of one channel's two outputs.
    pub fn set_invert_polarity(&mut self, channel_number: ChannelNumber, a_inv: bool, b_inv: bool)
        requires
            old(self).wf(),
        ensures
            final(self).wf(),
            final(self)@ == spec_set_invert_polarity(
                old(self)@,
                channel_number.ordinal(),
                a_inv,
                b_inv,
            ),
            csr_a_inv(final(self)@.channels[channel_number.ordinal()].csr) == a_inv,
            csr_b_inv(final(self)@.channels[channel_number.ordinal()].csr) == b_inv,
    {
        let i = channel_number.index();
        let regs = self.channels[i];
        let with_a = if a_inv {
            regs.csr | 0x4
        } else {
            regs.csr & 0xffff_fffb
        };
        let csr = if b_inv {
            with_a | 0x8
        } else {
            with_a & 0xffff_fff7
        };
        self.channels[i] = ChannelRegisters { csr, ..regs };
        proof {
            lemma_with_csr_a_inv(regs.csr);
            lemma_with_csr_b_inv(with_a);
        }
    }

    /// Select one channel's divider-event source.
    pub fn set_div_mode(&mut self, channel_number: ChannelNumber, divmode: DivMode)
        requires
            old(self).wf(),
        ensures
            final(self).wf(),
            final(self)@ == spec_set_div_mode(old(self)@, channel_number.ordinal(), divmode),
            csr_divmode(final(self)@.channels[channel_number.ordinal()].csr) == divmode.ordinal(),
    {
        let i = channel_number.index();
        let regs = self.channels[i];
        let sel = divmode.value();
        let csr = (regs.csr & 0xffff_ffcf) | (sel << 4u32);
        self.channels[i] = ChannelRegisters { csr, ..regs };
        proof {
            lemma_with_csr_divmode(regs.csr, sel);
        }
    }

    /// Program one channel's 8.4 fixed-point clock divider.
    ///
    /// The minimum representable divider is 1 + 0/16 and the maximum is
    /// 255 + 15/16: a call with an integer part of 0 or a fractional part
    /// above 15 does nothing and the channel keeps its prior divider.
    pub fn set_divider_int_frac(&mut self, channel_number: ChannelNumber, int_part: u8, frac_part: u8)
        requires
            old(self).wf(),
        ensures
            final(self).wf(),
            final(self)@ == spec_set_divider_int_frac(
                old(self)@,
                channel_number.ordinal(),
                int_part,
                frac_part,
            ),
            int_part != 0 && frac_part <= 15 ==> div_int(
                final(self)@.channels[channel_number.ordinal()].div,
            ) == int_part && div_frac(final(self)@.channels[channel_number.ordinal()].div)
                == frac_part,
    {
        if int_part == 0 || frac_part > 15 {
            return ;
        }
        let i = channel_number.index();
        let regs = self.channels[i];
        let div = (regs.div & 0xffff_f000) | ((int_part as u32) << 4u32) | (frac_part as u32);
        self.channels[i] = ChannelRegisters { div, ..regs };
        proof {
            lemma_with_div(regs.div, int_part as u32, frac_part as u32);
        }
    }

    /// Program one channel's compare value for output A: while the counter
    /// is below it, output A is high.
    pub fn set_compare_value_a(&mut self, channel_number: ChannelNumber, cc_a_value: u16)
        requires
            old(self).wf(),
        ensures
            final(self).wf(),
            final(self)@ == spec_set_compare_value_a(
                old(self)@,
                channel_number.ordinal(),
                cc_a_value,
            ),
            cc_a(final(self)@.channels[channel_number.ordinal()].cc) == cc_a_value,
            cc_b(final(self)@.channels[channel_number.ordinal()].cc) == cc_b(
                old(self)@.channels[channel_number.ordinal()].cc,
            ),
    {
        let i = channel_number.index();
        let regs = self.channels[i];
        let cc = (regs.cc & 0xffff_0000) | (cc_a_value as u32);
        self.channels[i] = ChannelRegisters { cc, ..regs };
        proof {
            lemma_with_cc_a(regs.cc, cc_a_value as u32);
        }
    }

    /// Program one channel's compare value for output B: while the counter
    /// is below it, output B is high (in free-running mode).
    pub fn set_compare_value_b(&mut self, channel_number: ChannelNumber, cc_b_value: u16)
        requires
            old(self).wf(),
        ensures
            final(self).wf(),
            final(self)@ == spec_set_compare_value_b(
                old(self)@,
                channel_number.ordinal(),
                cc_b_value,
            ),
            cc_b(final(self)@.channels[channel_number.ordinal()].cc) == cc_b_value,
            cc_a(final(self)@.channels[channel_number.ordinal()].cc) == cc_a(
                old(self)@.channels[channel_number.ordinal()].cc,
            ),
    {
        let i = channel_number.index();
        let regs = self.channels[i];
        let cc = (regs.cc & 0x0000_ffff) | ((cc_b_value as u32) << 16u32);
        self.channels[i] = ChannelRegisters { cc, ..regs };
        proof {
            lemma_with_cc_b(regs.cc, cc_b_value as u32);
        }
    }

    /// Program one channel's compare values for both outputs.
    pub fn set_compare_values_a_and_b(
        &mut self,
        channel_number: ChannelNumber,
        cc_a_value: u16,
        cc_b_value: u16,
    )
        requires
            old(self).wf(),
        ensures
            final(self).wf(),
            final(self)@ == spec_set_compare_value_b(
                spec_set_compare_value_a(old(self)@, channel_number.ordinal(), cc_a_value),
                channel_number.ordinal(),
                cc_b_value,
            ),
            cc_a(final(self)@.channels[channel_number.ordinal()].cc) == cc_a_value,
            cc_b(final(self)@.channels[channel_number.ordinal()].cc) == cc_b_value,
    {
        self.set_compare_value_a(channel_number, cc_a_value);
        self.set_compare_value_b(channel_number, cc_b_value);
    }

    /// Program one channel's counter wrap value, which defines the period.
    pub fn set_top(&mut self, channel_number: ChannelNumber, top: u16)
        requires
            old(self).wf(),
        ensures
            final(self).wf(),
            final(self)@ == spec_set_top(old(self)@, channel_number.ordinal(), top),
            low16(final(self)@.channels[channel_number.ordinal()].top) == top,
    {
        let i = channel_number.index();
        let regs = self.channels[i];
        let new_top = (regs.top & 0xffff_0000) | (top as u32);
        self.channels[i] = ChannelRegisters { top: new_top, ..regs };
        proof {
            lemma_with_low16(regs.top, top as u32);
        }
    }

    /// Read one channel's free-running counter.
    pub fn get_counter(&self, channel_number: ChannelNumber) -> (value: u16)
        requires
            self.wf(),
        ensures
            value == low16(self@.channels[channel_number.ordinal()].ctr),
    {
        let i = channel_number.index();
        let regs = self.channels[i];
        regs.counter()
    }

    /// Write one channel's free-running counter.
    pub fn set_counter(&mut self, channel_number: ChannelNumber, value: u16)
        requires
            old(self).wf(),
        ensures
            final(self).wf(),
            final(self)@ == spec_set_counter(old(self)@, channel_number.ordinal(), value),
            low16(final(self)@.channels[channel_number.ordinal()].ctr) == value,
    {
        let i = channel_number.index();
        let regs = self.channels[i];
        let ctr = (regs.ctr & 0xffff_0000) | (value as u32);
        self.channels[i] = ChannelRegisters { ctr, ..regs };
        proof {
            lemma_with_low16(regs.ctr, value as u32);
        }
    }
}

/// Effect of enabling several channels in one write: every channel whose
/// bit is set in the mask becomes enabled in the same instant, so they run
/// in lock-step; the others keep their enable state.
pub open spec fn spec_set_mask_enabled(v: PwmState, mask: u8) -> PwmState {
    PwmState {
        channels: Seq::new(
            v.channels.len(),
            |i: int|
                ChannelRegisters {
                    csr: if (mask >> (i as u32)) & 1 == 1 {
                        with_csr_en(v.channels[i].csr, true)
                    } else {
                        v.channels[i].csr
                    },
                    ..v.channels[i]
                },
        ),
        ..v
    }
}

/// Effect of the phase-advance handshake on channel `c`: the counter gains
/// one count. At or above top it wraps to zero and the channel's raw
/// interrupt bit latches; below top it increments.
pub open spec fn spec_advance_count(v: PwmState, c: int) -> PwmState {
    let regs = v.channels[c];
    if low16(regs.ctr) >= low16(regs.top) {
        PwmState {
            channels: v.channels.update(
                c,
                ChannelRegisters { ctr: with_low16(regs.ctr, 0), ..regs },
            ),
            intr_raw: v.intr_raw | (1u32 << (c as u32)),
            ..v
        }
    } else {
        spec_with_channel(
            v,
            c,
            ChannelRegisters { ctr: with_low16(regs.ctr, (low16(regs.ctr) + 1) as u32), ..regs },
        )
    }
}

/// Effect of the phase-retard handshake on channel `c`: the counter loses
/// one count, going back to top when it sits at zero.
pub open spec fn spec_retard_count(v: PwmState, c: int) -> PwmState {
    let regs = v.channels[c];
    if low16(regs.ctr) == 0 {
        spec_with_channel(
            v,
            c,
            ChannelRegisters { ctr: with_low16(regs.ctr, low16(regs.top)), ..regs },
        )
    } else {
        spec_with_channel(
            v,
            c,
            ChannelRegisters { ctr: with_low16(regs.ctr, (low16(regs.ctr) - 1) as u32), ..regs },
        )
    }
}

/// Effect of enabling channel `c`'s interrupt; the other channels keep
/// their enable state.
pub open spec fn spec_enable_interrupt(v: PwmState, c: int) -> PwmState {
    PwmState { inte: v.inte | (1u32 << (c as u32)), ..v }
}

/// Effect of disabling channel `c`'s interrupt; the other channels keep
/// their enable state.
pub open spec fn spec_disable_interrupt(v: PwmState, c: int) -> PwmState {
    PwmState { inte: v.inte & !(1u32 << (c as u32)), ..v }
}

/// Effect of replacing the whole interrupt enable mask in one write.
pub open spec fn spec_enable_mask_interrupt(v: PwmState, mask: u8) -> PwmState {
    PwmState { inte: mask as u32, ..v }
}

/// Effect of forcing channel `c`'s interrupt: its status bit shows until
/// the force bit is explicitly taken back (the dispatcher does so after
/// notifying).
pub open spec fn spec_force_interrupt(v: PwmState, c: int) -> PwmState {
    PwmState { intf: v.intf | (1u32 << (c as u32)), ..v }
}

/// Effect of clearing channel `c`'s latched raw interrupt bit.
pub open spec fn spec_clear_interrupt(v: PwmState, c: int) -> PwmState {
    PwmState { intr_raw: v.intr_raw & !(1u32 << (c as u32)), ..v }
}

/// Effect of taking back channel `c`'s forced interrupt bit.
pub open spec fn spec_unforce_interrupt(v: PwmState, c: int) -> PwmState {
    PwmState { intf: v.intf & !(1u32 << (c as u32)), ..v }
}

/// The word whose `n` lowest bits are set.
pub open spec fn low_mask(n: u32) -> u32 {
    ((1u32 << n) - 1) as u32
}

/// Effect of one dispatcher pass: every channel whose status bit shows has
/// its latched raw bit cleared and its forced bit taken back, so that no
/// status bit shows afterwards; the other channels' bits are untouched.
pub open spec fn spec_handle_interrupt(v: PwmState) -> PwmState {
    PwmState {
        intr_raw: v.intr_raw & !v.status_mask(),
        intf: v.intf & !v.status_mask(),
        ..v
    }
}

/// The channels among 0..n whose bit is set in the mask, in ascending
/// order.
pub open spec fn spec_pending_prefix(mask: u32, n: int) -> Seq<ChannelNumber>
    decreases n,
{
    if n <= 0 {
        Seq::empty()
    } else if (mask >> ((n - 1) as u32)) & 1 == 1 {
        spec_pending_prefix(mask, n - 1).push(ChannelNumber::spec_from_index(n - 1))
    } else {
        spec_pending_prefix(mask, n - 1)
    }
}

/// The channels whose interrupt status bit shows, in ascending order: the
/// channels one dispatcher pass notifies.
pub open spec fn spec_pending_channels(v: PwmState) -> Seq<ChannelNumber> {
    spec_pending_prefix(v.status_mask(), NUM_CHANNELS as int)
}

/// An event handler for PWM interrupts: the board registers one such
/// object and the dispatcher invokes it, from interrupt context, once per
/// channel whose interrupt fired (a counter wrap in trailing-edge mode,
/// reaching zero again in dual-slope mode, or a forced interrupt).
pub trait Interrupt {
    /// Called with the channel that raised the interrupt.
    fn fired(&self, channel_number: ChannelNumber);
}

/// A channel's registers after batch-applying a configuration snapshot:
/// every parameter is written, except that an unrepresentable divider
/// (integer part 0 or fractional part above 15) is ignored and the
/// channel keeps its prior divider; the counter is untouched.
pub open spec fn spec_apply_config(regs: ChannelRegisters, config: PwmChannelConfiguration) -> ChannelRegisters {
    ChannelRegisters {
        csr: with_csr_en(
            with_csr_divmode(
                with_csr_b_inv(
                    with_csr_a_inv(
                        with_csr_ph_correct(regs.csr, config.ph_correct),
                        config.a_inv,
                    ),
                    config.b_inv,
                ),
                config.divmode.ordinal(),
            ),
            config.en,
        ),
        div: if config.div_int == 0 || config.div_frac > 15 {
            regs.div
        } else {
            with_div(regs.div, config.div_int as u32, config.div_frac as u32)
        },
        ctr: regs.ctr,
        cc: with_cc_b(with_cc_a(regs.cc, config.cc_a as u32), config.cc_b as u32),
        top: with_low16(regs.top, config.top as u32),
    }
}

/// Effect of batch-applying a configuration snapshot to channel `c`.
pub open spec fn spec_configure_channel(v: PwmState, c: int, config: PwmChannelConfiguration) -> PwmState {
    spec_with_channel(v, c, spec_apply_config(v.channels[c], config))
}

/// One channel's registers after initialization: the default
/// configuration applied and the counter cleared.
pub open spec fn spec_init_channel(regs: ChannelRegisters) -> ChannelRegisters {
    let programmed = spec_apply_config(regs, PwmChannelConfiguration::spec_default());
    ChannelRegisters { ctr: with_low16(programmed.ctr, 0), ..programmed }
}

/// Effect of initialization: every channel gets the default configuration
/// and a cleared counter; the interrupt registers are untouched.
pub open spec fn spec_init(v: PwmState) -> PwmState {
    PwmState {
        channels: Seq::new(v.channels.len(), |i: int| spec_init_channel(v.channels[i])),
        ..v
    }
}

/// Everything a start request must program, solved before any register is
/// written: top, divider integer and fractional parts, and the sub-pin's
/// compare value — or the planner error that refuses the request.
pub open spec fn spec_plan(frequency_hz: int, system_clock_hz: int, duty_cycle: int) -> Result<
    (u16, u8, u8, u16),
    PwmError,
> {
    match spec_solve_top_divider(frequency_hz, system_clock_hz) {
        Err(e) => Err(e),
        Ok((top, int_part, frac_part)) => match spec_solve_compare(
            top,
            duty_cycle,
            MAX_DUTY_CYCLE as int,
        ) {
            Err(e) => Err(e),
            Ok(compare) => Ok((top, int_part, frac_part, compare)),
        },
    }
}

/// Effect of a successful start on the pin's channel: top, divider and
/// the sub-pin's compare value are programmed — in that order, with
/// enable written last — and the channel is enabled. The counter and the
/// other sub-pin's compare value are untouched.
pub open spec fn spec_start_channel(v: PwmState, c: int, pin_is_b: bool, plan: (u16, u8, u8, u16)) -> PwmState {
    let regs = v.channels[c];
    spec_with_channel(
        v,
        c,
        ChannelRegisters {
            csr: with_csr_en(regs.csr, true),
            div: with_div(regs.div, plan.1 as u32, plan.2 as u32),
            ctr: regs.ctr,
            cc: if pin_is_b {
                with_cc_b(regs.cc, plan.3 as u32)
            } else {
                with_cc_a(regs.cc, plan.3 as u32)
            },
            top: with_low16(regs.top, plan.0 as u32),
        },
    )
}

/// Effect of stopping a channel: its enable bit is cleared — stopping
/// both of its sub-pins — and every other register keeps its value, so a
/// later start finds the last-programmed configuration.
pub open spec fn spec_stop_channel(v: PwmState, c: int) -> PwmState {
    spec_set_enabled(v, c, false)
}

impl Pwm {
    /// Enable several channels in one register write, so that they start
    /// in perfect lock-step: bits 0 to 7 of the mask enable channels 0 to
    /// 7. Channels whose bit is clear keep their enable state.
    pub fn set_mask_enabled(&mut self, mask: u8)
        requires
            old(self).wf(),
        ensures
            final(self).wf(),
            final(self)@ == spec_set_mask_enabled(old(self)@, mask),
    {
        let mut i: usize = 0;
        while i < NUM_CHANNELS
            invariant
                self.wf(),
                i <= NUM_CHANNELS,
                self@.channels.len() == NUM_CHANNELS,
                old(self).wf(),
                self@.intr_raw == old(self)@.intr_raw,
                self@.inte == old(self)@.inte,
                self@.intf == old(self)@.intf,
                self@.system_clock_hz == old(self)@.system_clock_hz,
                forall|j: int|
                    0 <= j < i ==> self@.channels[j] == spec_set_mask_enabled(
                        old(self)@,
                        mask,
                    ).channels[j],
                forall|j: int| i <= j < NUM_CHANNELS ==> self@.channels[j] == old(self)@.channels[j],
            decreases NUM_CHANNELS - i,
        {
            let channel_number = ChannelNumber::from_index(i);
            if (mask >> (i as u32)) & 1 == 1 {
                self.set_enabled(channel_number, true);
            }
            i += 1;
        }
        proof {
            assert(self@.channels =~= spec_set_mask_enabled(old(self)@, mask).channels);
        }
    }

    /// Perform the phase-advance handshake on one channel: write the
    /// self-clearing advance bit and wait for the hardware to clear it,
    /// which it does once the counter has gained one count. In this model
    /// the hardware answers synchronously: the call returns with the
    /// counter advanced, wrapped to zero — latching the channel's raw
    /// interrupt bit — if it sat at or above top.
    ///
    /// The counter must be running, at less than full speed (divider
    /// strictly above 1): otherwise the hardware never clears the bit and
    /// the busy-wait on real hardware would never return.
    pub fn advance_count(&mut self, channel_number: ChannelNumber)
        requires
            old(self).wf(),
            csr_en(old(self)@.channels[channel_number.ordinal()].csr),
            16 * div_int(old(self)@.channels[channel_number.ordinal()].div) + div_frac(
                old(self)@.channels[channel_number.ordinal()].div,
            ) > 16,
        ensures
            final(self).wf(),
            final(self)@ == spec_advance_count(old(self)@, channel_number.ordinal()),
    {
        let i = channel_number.index();
        let regs = self.channels[i];
        let counter = regs.counter();
        let top = regs.top_value();
        if counter >= top {
            self.channels[i] = ChannelRegisters { ctr: (regs.ctr & 0xffff_0000) | 0, ..regs };
            self.intr_raw = self.intr_raw | (1u32 << (i as u32));
            proof {
                let r0 = old(self)@.intr_raw;
                let iu = i as u32;
                assert(r0 < 256 && iu < 8 ==> (r0 | (1u32 << iu)) < 256) by (bit_vector);
            }
        } else {
            self.channels[i] = ChannelRegisters {
                ctr: (regs.ctr & 0xffff_0000) | (counter as u32 + 1),
                ..regs
            };
        }
    }

    /// Perform the phase-retard handshake on one channel: write the
    /// self-clearing retard bit and wait for the hardware to clear it,
    /// which it does once the counter has lost one count. In this model
    /// the hardware answers synchronously: the call returns with the
    /// counter one lower, back at top if it sat at zero.
    ///
    /// The counter must be running: otherwise the hardware never clears
    /// the bit and the busy-wait on real hardware would never return.
    pub fn retard_count(&mut self, channel_number: ChannelNumber)
        requires
            old(self).wf(),
            csr_en(old(self)@.channels[channel_number.ordinal()].csr),
        ensures
            final(self).wf(),
            final(self)@ == spec_retard_count(old(self)@, channel_number.ordinal()),
    {
        let i = channel_number.index();
        let regs = self.channels[i];
        let counter = regs.counter();
        let top = regs.top_value();
        if counter == 0 {
            self.channels[i] = ChannelRegisters {
                ctr: (regs.ctr & 0xffff_0000) | (top as u32),
                ..regs
            };
        } else {
            self.channels[i] = ChannelRegisters {
                ctr: (regs.ctr & 0xffff_0000) | (counter as u32 - 1),
                ..regs
            };
        }
    }

    /// Enable interrupt generation for one channel; the other channels'
    /// interrupt enables are untouched (read-modify-write).
    pub fn enable_interrupt(&mut self, channel_number: ChannelNumber)
        requires
            old(self).wf(),
        ensures
            final(self).wf(),
            final(self)@ == spec_enable_interrupt(old(self)@, channel_number.ordinal()),
    {
        let i = channel_number.index();
        self.inte = self.inte | (1u32 << (i as u32));
        proof {
            let e0 = old(self)@.inte;
            let iu = i as u32;
            assert(e0 < 256 && iu < 8 ==> (e0 | (1u32 << iu)) < 256) by (bit_vector);
        }
    }

    /// Disable interrupt generation for one channel; the other channels'
    /// interrupt enables are untouched (read-modify-write).
    pub fn disable_interrupt(&mut self, channel_number: ChannelNumber)
        requires
            old(self).wf(),
        ensures
            final(self).wf(),
            final(self)@ == spec_disable_interrupt(old(self)@, channel_number.ordinal()),
    {
        let i = channel_number.index();
        self.inte = self.inte & !(1u32 << (i as u32));
        proof {
            let e0 = old(self)@.inte;
            let iu = i as u32;
            assert(e0 < 256 ==> (e0 & !(1u32 << iu)) < 256) by (bit_vector);
        }
    }

    /// Replace the whole interrupt enable mask in one write: bits 0 to 7
    /// enable channels 0 to 7.
    pub fn enable_mask_interrupt(&mut self, mask: u8)
        requires
            old(self).wf(),
        ensures
            final(self).wf(),
            final(self)@ == spec_enable_mask_interrupt(old(self)@, mask),
    {
        self.inte = mask as u32;
    }

    /// Force an interrupt on one channel: its status bit shows without a
    /// real wrap event, until explicitly unforced — the dispatcher
    /// unforces it after notifying the handler.
    pub fn force_interrupt(&mut self, channel_number: ChannelNumber)
        requires
            old(self).wf(),
        ensures
            final(self).wf(),
            final(self)@ == spec_force_interrupt(old(self)@, channel_number.ordinal()),
    {
        let i = channel_number.index();
        self.intf = self.intf | (1u32 << (i as u32));
        proof {
            let f0 = old(self)@.intf;
            let iu = i as u32;
            assert(f0 < 256 && iu < 8 ==> (f0 | (1u32 << iu)) < 256) by (bit_vector);
        }
    }

    /// Clear one channel's latched raw interrupt bit.
    fn clear_interrupt(&mut self, channel_number: ChannelNumber)
        requires
            old(self).wf(),
        ensures
            final(self).wf(),
            final(self)@ == spec_clear_interrupt(old(self)@, channel_number.ordinal()),
    {
        let i = channel_number.index();
        self.intr_raw = self.intr_raw & !(1u32 << (i as u32));
        proof {
            let r0 = old(self)@.intr_raw;
            let iu = i as u32;
            assert(r0 < 256 ==> (r0 & !(1u32 << iu)) < 256) by (bit_vector);
        }
    }

    /// Take back one channel's forced interrupt bit.
    fn unforce_interrupt(&mut self, channel_number: ChannelNumber)
        requires
            old(self).wf(),
        ensures
            final(self).wf(),
            final(self)@ == spec_unforce_interrupt(old(self)@, channel_number.ordinal()),
    {
        let i = channel_number.index();
        self.intf = self.intf & !(1u32 << (i as u32));
        proof {
            let f0 = old(self)@.intf;
            let iu = i as u32;
            assert(f0 < 256 ==> (f0 & !(1u32 << iu)) < 256) by (bit_vector);
        }
    }

    /// Handle all pending interrupts in one pass: walk the channels in
    /// ascending index order and, for each whose status bit shows, clear
    /// its latched bit and take back its forced bit. The channels that
    /// were pending are returned in that same ascending order; afterwards
    /// no status bit shows.
    ///
    /// This is the dispatch path when no event handler is registered:
    /// interrupt state is still cleared — preventing an interrupt storm —
    /// but nobody is notified. With a handler, use
    /// [`Pwm::service_interrupt`].
    pub fn handle_interrupt(&mut self) -> (fired: Vec<ChannelNumber>)
        requires
            old(self).wf(),
        ensures
            final(self).wf(),
            final(self)@ == spec_handle_interrupt(old(self)@),
            fired@ == spec_pending_channels(old(self)@),
    {
        let ghost r0 = old(self)@.intr_raw;
        let ghost e0 = old(self)@.inte;
        let ghost f0 = old(self)@.intf;
        let ghost m = old(self)@.status_mask();
        let mut fired: Vec<ChannelNumber> = Vec::new();
        let mut i: usize = 0;
        proof {
            assert(r0 & !(m & low_mask(0u32)) == r0 && f0 & !(m & low_mask(0u32)) == f0)
                by (bit_vector);
        }
        while i < NUM_CHANNELS
            invariant
                old(self).wf(),
                self.wf(),
                i <= NUM_CHANNELS,
                r0 == old(self)@.intr_raw,
                e0 == old(self)@.inte,
                f0 == old(self)@.intf,
                m == old(self)@.status_mask(),
                self@.channels == old(self)@.channels,
                self@.system_clock_hz == old(self)@.system_clock_hz,
                self@.inte == e0,
                self@.intr_raw == r0 & !(m & low_mask(i as u32)),
                self@.intf == f0 & !(m & low_mask(i as u32)),
                fired@ == spec_pending_prefix(m, i as int),
            decreases NUM_CHANNELS - i,
        {
            let ghost iu = i as u32;
            let ghost ju = (i + 1) as u32;
            let channel_number = ChannelNumber::from_index(i);
            let pending = self.get_interrupt_status(channel_number);
            proof {
                assert(((((r0 & !(m & low_mask(iu))) & e0) | (f0 & !(m & low_mask(iu)))) >> iu)
                    & 1 == ((m >> iu) & 1)) by (bit_vector)
                    requires
                        iu < 8,
                        m == (r0 & e0) | f0,
                ;
            }
            if pending {
                fired.push(channel_number);
                self.clear_interrupt(channel_number);
                self.unforce_interrupt(channel_number);
                proof {
                    assert((r0 & !(m & low_mask(iu))) & !(1u32 << iu) == r0 & !(m & low_mask(ju))
                        && (f0 & !(m & low_mask(iu))) & !(1u32 << iu) == f0 & !(m & low_mask(
                        ju,
                    ))) by (bit_vector)
                        requires
                            iu < 8,
                            ju == iu + 1,
                            (m >> iu) & 1 == 1,
                    ;
                }
            } else {
                proof {
                    assert(r0 & !(m & low_mask(iu)) == r0 & !(m & low_mask(ju)) && f0 & !(m
                        & low_mask(iu)) == f0 & !(m & low_mask(ju))) by (bit_vector)
                        requires
                            iu < 8,
                            ju == iu + 1,
                            (m >> iu) & 1 != 1,
                    ;
                }
            }
            i += 1;
        }
        proof {
            assert(m & low_mask(8u32) == m && r0 & !m < 256 && f0 & !m < 256) by (bit_vector)
                requires
                    r0 < 256,
                    e0 < 256,
                    f0 < 256,
                    m == (r0 & e0) | f0,
            ;
        }
        fired
    }

    /// Dispatch all pending interrupts to the registered event handler:
    /// for each channel whose status bit shows, in ascending index order,
    /// the handler's `fired` is invoked once with that channel, and the
    /// channel's latched and forced bits are cleared. Notifications for
    /// several simultaneously pending channels are thus delivered in one
    /// synchronous batch, in channel-index order. Afterwards no status bit
    /// shows.
    pub fn service_interrupt<H: Interrupt>(&mut self, handler: &H) -> (fired: Vec<ChannelNumber>)
        requires
            old(self).wf(),
        ensures
            final(self).wf(),
            final(self)@ == spec_handle_interrupt(old(self)@),
            fired@ == spec_pending_channels(old(self)@),
    {
        let fired = self.handle_interrupt();
        let mut i: usize = 0;
        while i < fired.len()
            invariant
                i <= fired.len(),
            decreases fired.len() - i,
        {
            handler.fired(fired[i]);
            i += 1;
        }
        fired
    }

    /// Whether one channel's interrupt status bit — latched-and-enabled,
    /// or forced — is showing.
    pub fn get_interrupt_status(&self, channel_number: ChannelNumber) -> (pending: bool)
        requires
            self.wf(),
        ensures
            pending == self@.status_bit(channel_number.ordinal()),
    {
        let i = channel_number.index();
        let status = (self.intr_raw & self.inte) | self.intf;
        ((status >> (i as u32)) & 1) == 1
    }
}

impl Pwm {
    /// Batch-apply a configuration snapshot to one channel: all eight
    /// parameters in one call, enable written last. There is no partial
    /// failure: an unrepresentable divider in the snapshot is ignored by
    /// the divider setter and the channel keeps its prior divider.
    pub fn configure_channel(&mut self, channel_number: ChannelNumber, config: &PwmChannelConfiguration)
        requires
            old(self).wf(),
        ensures
            final(self).wf(),
            final(self)@ == spec_configure_channel(old(self)@, channel_number.ordinal(), *config),
    {
        self.set_ph_correct(channel_number, config.ph_correct);
        self.set_invert_polarity(channel_number, config.a_inv, config.b_inv);
        self.set_div_mode(channel_number, config.divmode);
        self.set_divider_int_frac(channel_number, config.div_int, config.div_frac);
        self.set_compare_value_a(channel_number, config.cc_a);
        self.set_compare_value_b(channel_number, config.cc_b);
        self.set_top(channel_number, config.top);
        self.set_enabled(channel_number, config.en);
        proof {
            assert(self@.channels =~= spec_configure_channel(
                old(self)@,
                channel_number.ordinal(),
                *config,
            ).channels);
        }
    }

    /// Bring every channel to its default configuration with a cleared
    /// counter. To be called once when the board is set up.
    pub fn init(&mut self)
        requires
            old(self).wf(),
        ensures
            final(self).wf(),
            final(self)@ == spec_init(old(self)@),
    {
        let default_config = PwmChannelConfiguration::default_config();
        let mut i: usize = 0;
        while i < NUM_CHANNELS
            invariant
                old(self).wf(),
                self.wf(),
                i <= NUM_CHANNELS,
                default_config == PwmChannelConfiguration::spec_default(),
                self@.channels.len() == NUM_CHANNELS,
                self@.intr_raw == old(self)@.intr_raw,
                self@.inte == old(self)@.inte,
                self@.intf == old(self)@.intf,
                self@.system_clock_hz == old(self)@.system_clock_hz,
                forall|j: int|
                    0 <= j < i ==> self@.channels[j] == spec_init_channel(
                        #[trigger] old(self)@.channels[j],
                    ),
                forall|j: int| i <= j < NUM_CHANNELS ==> self@.channels[j] == old(self)@.channels[j],
            decreases NUM_CHANNELS - i,
        {
            let channel_number = ChannelNumber::from_index(i);
            self.configure_channel(channel_number, &default_config);
            self.set_counter(channel_number, 0);
            i += 1;
        }
        proof {
            assert(self@.channels =~= spec_init(old(self)@).channels);
        }
    }

    /// Start one sub-pin: solve the requested frequency and duty cycle,
    /// and on success program top, divider and the sub-pin's compare
    /// value — in that order — then enable the channel. The request is
    /// refused, with no register touched and the enable state unchanged,
    /// when the frequency needs a divider of 256 or more
    /// ([`PwmError::UnsupportedDivider`]) or when exact full-scale duty
    /// meets the maximal top ([`PwmError::UnrepresentableFullDuty`]).
    ///
    /// The clock-tree dependency must have been resolved, and the request
    /// must be within range: a positive frequency no higher than the
    /// system clock, and a duty cycle no higher than full scale.
    pub fn start_pwm_pin(
        &mut self,
        channel_number: ChannelNumber,
        channel_pin: ChannelPin,
        frequency_hz: usize,
        duty_cycle: usize,
    ) -> (r: Result<(), PwmError>)
        requires
            old(self).wf(),
            old(self)@.system_clock_hz matches Some(clock) && 1 <= frequency_hz <= clock,
            duty_cycle <= MAX_DUTY_CYCLE,
        ensures
            final(self).wf(),
            final(self)@.system_clock_hz == old(self)@.system_clock_hz,
            match spec_plan(
                frequency_hz as int,
                old(self)@.system_clock_hz->0 as int,
                duty_cycle as int,
            ) {
                Ok(plan) => r == Ok::<(), PwmError>(()) && final(self)@ == spec_start_channel(
                    old(self)@,
                    channel_number.ordinal(),
                    channel_pin == ChannelPin::B,
                    plan,
                ),
                Err(e) => r == Err::<(), PwmError>(e) && final(self)@ == old(self)@,
            },
    {
        let system_clock_hz = self.get_maximum_frequency_hz();
        let (top, int_part, frac_part) = match solve_top_divider(frequency_hz, system_clock_hz) {
            Ok(solved) => solved,
            Err(e) => {
                return Err(e);
            },
        };
        proof {
            if duty_cycle < MAX_DUTY_CYCLE {
                assert((top as int + 1) * duty_cycle <= 0x10000 * 0xffff) by (nonlinear_arith)
                    requires
                        top as int + 1 <= 0x10000,
                        0 <= duty_cycle <= 0xffff,
                ;
            }
        }
        let compare = match solve_compare(top, duty_cycle, self.get_maximum_duty_cycle()) {
            Ok(compare) => compare,
            Err(e) => {
                return Err(e);
            },
        };
        self.set_top(channel_number, top);
        self.set_divider_int_frac(channel_number, int_part, frac_part);
        match channel_pin {
            ChannelPin::A => self.set_compare_value_a(channel_number, compare),
            ChannelPin::B => self.set_compare_value_b(channel_number, compare),
        }
        self.set_enabled(channel_number, true);
        proof {
            assert(self@.channels =~= spec_start_channel(
                old(self)@,
                channel_number.ordinal(),
                channel_pin == ChannelPin::B,
                (top, int_part, frac_part, compare),
            ).channels);
        }
        Ok(())
    }

    /// Stop one channel: clear its enable bit, stopping both of its
    /// sub-pins. Stopping an already-stopped channel does nothing, and
    /// the call never fails; every other register keeps its value.
    pub fn stop_pwm_channel(&mut self, channel_number: ChannelNumber) -> (r: Result<(), PwmError>)
        requires
            old(self).wf(),
        ensures
            final(self).wf(),
            final(self)@ == spec_stop_channel(old(self)@, channel_number.ordinal()),
            r == Ok::<(), PwmError>(()),
    {
        self.set_enabled(channel_number, false);
        Ok(())
    }

    /// Start the channel sub-pin a physical pin drives, with the given
    /// frequency and duty cycle. See [`Pwm::start_pwm_pin`] for the
    /// contract, with the channel and sub-pin taken from the pin ordinal.
    pub fn start(&mut self, pin: usize, frequency_hz: usize, duty_cycle: usize) -> (r: Result<
        (),
        PwmError,
    >)
        requires
            old(self).wf(),
            old(self)@.system_clock_hz matches Some(clock) && 1 <= frequency_hz <= clock,
            duty_cycle <= MAX_DUTY_CYCLE,
        ensures
            final(self).wf(),
            final(self)@.system_clock_hz == old(self)@.system_clock_hz,
            match spec_plan(
                frequency_hz as int,
                old(self)@.system_clock_hz->0 as int,
                duty_cycle as int,
            ) {
                Ok(plan) => r == Ok::<(), PwmError>(()) && final(self)@ == spec_start_channel(
                    old(self)@,
                    channel_index_of_pin(pin as int),
                    sub_pin_index_of_pin(pin as int) == 1,
                    plan,
                ),
                Err(e) => r == Err::<(), PwmError>(e) && final(self)@ == old(self)@,
            },
    {
        let channel_number = ChannelNumber::from_pin(pin);
        let channel_pin = ChannelPin::from_pin(pin);
        self.start_pwm_pin(channel_number, channel_pin, frequency_hz, duty_cycle)
    }

    /// Stop the channel a physical pin drives: both of the channel's
    /// sub-pins stop, the call is idempotent and never fails.
    pub fn stop(&mut self, pin: usize) -> (r: Result<(), PwmError>)
        requires
            old(self).wf(),
        ensures
            final(self).wf(),
            final(self)@ == spec_stop_channel(old(self)@, channel_index_of_pin(pin as int)),
            r == Ok::<(), PwmError>(()),
    {
        let channel_number = ChannelNumber::from_pin(pin);
        self.stop_pwm_channel(channel_number)
    }

    /// The handle for the (channel, sub-pin) pair a physical pin drives.
    pub fn gpio_to_pwm_pin(&self, pin: usize) -> (pwm_pin: PwmPin)
        ensures
            pwm_pin.channel_number.ordinal() == channel_index_of_pin(pin as int),
            pwm_pin.channel_pin.ordinal() == sub_pin_index_of_pin(pin as int),
    {
        PwmPin {
            channel_number: ChannelNumber::from_pin(pin),
            channel_pin: ChannelPin::from_pin(pin),
        }
    }
}

/// Handle for one sub-pin: the (channel, sub-pin) pair a physical pin
/// drives, with the pin-level start/stop operations.
pub struct PwmPin {
    /// The channel the pin belongs to.
    pub channel_number: ChannelNumber,
    /// The sub-pin within the channel.
    pub channel_pin: ChannelPin,
}

impl PwmPin {
    /// The channel the pin belongs to.
    pub fn get_channel_number(&self) -> (channel_number: ChannelNumber)
        ensures
            channel_number == self.channel_number,
    {
        self.channel_number
    }

    /// The sub-pin within the channel.
    pub fn get_channel_pin(&self) -> (channel_pin: ChannelPin)
        ensures
            channel_pin == self.channel_pin,
    {
        self.channel_pin
    }

    /// Start this pin. See [`Pwm::start_pwm_pin`].
    pub fn start(&self, pwm: &mut Pwm, frequency_hz: usize, duty_cycle: usize) -> (r: Result<
        (),
        PwmError,
    >)
        requires
            old(pwm).wf(),
            old(pwm)@.system_clock_hz matches Some(clock) && 1 <= frequency_hz <= clock,
            duty_cycle <= MAX_DUTY_CYCLE,
        ensures
            final(pwm).wf(),
            final(pwm)@.system_clock_hz == old(pwm)@.system_clock_hz,
            match spec_plan(
                frequency_hz as int,
                old(pwm)@.system_clock_hz->0 as int,
                duty_cycle as int,
            ) {
                Ok(plan) => r == Ok::<(), PwmError>(()) && final(pwm)@ == spec_start_channel(
                    old(pwm)@,
                    self.channel_number.ordinal(),
                    self.channel_pin == ChannelPin::B,
                    plan,
                ),
                Err(e) => r == Err::<(), PwmError>(e) && final(pwm)@ == old(pwm)@,
            },
    {
        pwm.start_pwm_pin(self.channel_number, self.channel_pin, frequency_hz, duty_cycle)
    }

    /// Stop this pin's channel — both of its sub-pins. See
    /// [`Pwm::stop_pwm_channel`].
    pub fn stop(&self, pwm: &mut Pwm) -> (r: Result<(), PwmError>)
        requires
            old(pwm).wf(),
        ensures
            final(pwm).wf(),
            final(pwm)@ == spec_stop_channel(old(pwm)@, self.channel_number.ordinal()),
            r == Ok::<(), PwmError>(()),
    {
        pwm.stop_pwm_channel(self.channel_number)
    }
}

// Laws of the controller and the dispatcher.

/// Number of times a channel occurs in a dispatch list.
pub open spec fn count_channel(s: Seq<ChannelNumber>, channel: ChannelNumber) -> int
    decreases s.len(),
{
    if s.len() == 0 {
        0
    } else {
        count_channel(s.drop_last(), channel) + if s.last() == channel {
            1int
        } else {
            0int
        }
    }
}

/// A channel occurs in the pending list exactly once when its bit is set
/// in the mask and is within the first `n` channels, and not at all
/// otherwise.
proof fn lemma_pending_prefix_count(mask: u32, c: int, n: int)
    requires
        0 <= c < 8,
        0 <= n <= 8,
    ensures
        count_channel(spec_pending_prefix(mask, n), ChannelNumber::spec_from_index(c)) == if c < n
            && ((mask >> (c as u32)) & 1 == 1) {
            1int
        } else {
            0int
        },
    decreases n,
{
    if n > 0 {
        lemma_pending_prefix_count(mask, c, n - 1);
        let prefix = spec_pending_prefix(mask, n - 1);
        if (mask >> ((n - 1) as u32)) & 1 == 1 {
            let pushed = prefix.push(ChannelNumber::spec_from_index(n - 1));
            assert(pushed.drop_last() =~= prefix);
        }
        if c != n - 1 {
            assert(ChannelNumber::spec_from_index(c) != ChannelNumber::spec_from_index(n - 1));
        }
    }
}

/// Stopping a channel twice in a row produces the same peripheral state
/// as stopping it once: stop is idempotent.
pub proof fn lemma_stop_idempotent(v: PwmState, c: int)
    requires
        v.wf(),
        0 <= c < NUM_CHANNELS,
    ensures
        spec_stop_channel(spec_stop_channel(v, c), c) == spec_stop_channel(v, c),
{
    let once = spec_stop_channel(v, c);
    let twice = spec_stop_channel(once, c);
    let csr = v.channels[c].csr;
    assert((csr & 0xffff_fffe) & 0xffff_fffe == csr & 0xffff_fffe) by (bit_vector);
    assert(twice.channels =~= once.channels);
}

/// One dispatcher pass processes every set status bit: whatever the state
/// it starts from, afterwards no channel's status bit shows.
pub proof fn lemma_handle_clears_all_status(v: PwmState)
    ensures
        spec_handle_interrupt(v).status_mask() == 0,
{
    let r = v.intr_raw;
    let e = v.inte;
    let f = v.intf;
    assert((((r & !((r & e) | f)) & e) | (f & !((r & e) | f))) == 0) by (bit_vector);
}

/// Interrupt round-trip: forcing a channel's interrupt and then handling
/// interrupts notifies that channel exactly once — it occurs exactly once
/// in the dispatch list — and leaves its status bit (indeed every status
/// bit) clear.
pub proof fn lemma_force_then_handle(v: PwmState, c: int)
    requires
        v.wf(),
        0 <= c < NUM_CHANNELS,
    ensures
        ({
            let forced = spec_force_interrupt(v, c);
            let handled = spec_handle_interrupt(forced);
            &&& count_channel(spec_pending_channels(forced), ChannelNumber::spec_from_index(c))
                == 1
            &&& !handled.status_bit(c)
            &&& handled.status_mask() == 0
        }),
{
    let forced = spec_force_interrupt(v, c);
    let m = forced.status_mask();
    let cu = c as u32;
    let r = v.intr_raw;
    let e = v.inte;
    let f = v.intf;
    assert((((r & e) | (f | (1u32 << cu))) >> cu) & 1 == 1) by (bit_vector)
        requires
            cu < 8,
    ;
    lemma_pending_prefix_count(m, c, 8);
    lemma_handle_clears_all_status(forced);
    assert((0u32 >> cu) & 1 != 1) by (bit_vector);
}

} // verus!
