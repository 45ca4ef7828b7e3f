//! Bit-exact model of one channel's slice of the register bank, as plain
//! 32-bit words, together with the field layout of each word: spec functions
//! that read a field out of a word, spec functions that write a field into a
//! word the way the hardware's read-modify-write accesses do, and proofs
//! that writing one field leaves the others untouched.

use vstd::prelude::*;
use crate::channel::DivMode;

verus! {

/// One channel's registers.
///
/// Field layout:
/// + `csr` (control/status): enable(0), phase-correct(1), invert-A(2),
///   invert-B(3), divider-event source(4-5), phase-retard(6, self-clearing),
///   phase-advance(7, self-clearing);
/// + `div` (8.4 fixed-point clock divider): fraction(0-3), integer(4-11);
/// + `ctr` (free-running counter): bits 0-15;
/// + `cc` (compare values): A(0-15), B(16-31);
/// + `top` (counter wrap value): bits 0-15.
#[derive(Clone, Copy, PartialEq, Eq, Structural, Debug)]
pub struct ChannelRegisters {
    pub csr: u32,
    pub div: u32,
    pub ctr: u32,
    pub cc: u32,
    pub top: u32,
}

// Field reads.

/// Enable bit of a control/status word.
pub open spec fn csr_en(csr: u32) -> bool {
    csr & 0x1 != 0
}

/// Phase-correct (dual-slope modulation) bit of a control/status word.
pub open spec fn csr_ph_correct(csr: u32) -> bool {
    csr & 0x2 != 0
}

/// Invert-output-A bit of a control/status word.
pub open spec fn csr_a_inv(csr: u32) -> bool {
    csr & 0x4 != 0
}

/// Invert-output-B bit of a control/status word.
pub open spec fn csr_b_inv(csr: u32) -> bool {
    csr & 0x8 != 0
}

/// Two-bit divider-event-source selector of a control/status word.
pub open spec fn csr_divmode(csr: u32) -> u32 {
    (csr >> 4) & 0x3
}

/// Fractional part (four bits) of a divider word.
pub open spec fn div_frac(div: u32) -> u32 {
    div & 0xf
}

/// Integer part (eight bits) of a divider word.
pub open spec fn div_int(div: u32) -> u32 {
    (div >> 4) & 0xff
}

/// Compare value A: the low half of a compare word.
pub open spec fn cc_a(cc: u32) -> u32 {
    cc & 0xffff
}

/// Compare value B: the high half of a compare word.
pub open spec fn cc_b(cc: u32) -> u32 {
    (cc >> 16) & 0xffff
}

/// The 16-bit value of a counter or top word.
pub open spec fn low16(word: u32) -> u32 {
    word & 0xffff
}

// Field writes, each preserving the rest of the word.

/// A control/status word with the enable bit set or cleared.
pub open spec fn with_csr_en(csr: u32, enable: bool) -> u32 {
    if enable {
        csr | 0x1
    } else {
        csr & 0xffff_fffe
    }
}

/// A control/status word with the phase-correct bit set or cleared.
pub open spec fn with_csr_ph_correct(csr: u32, on: bool) -> u32 {
    if on {
        csr | 0x2
    } else {
        csr & 0xffff_fffd
    }
}

/// A control/status word with the invert-A bit set or cleared.
pub open spec fn with_csr_a_inv(csr: u32, on: bool) -> u32 {
    if on {
        csr | 0x4
    } else {
        csr & 0xffff_fffb
    }
}

/// A control/status word with the invert-B bit set or cleared.
pub open spec fn with_csr_b_inv(csr: u32, on: bool) -> u32 {
    if on {
        csr | 0x8
    } else {
        csr & 0xffff_fff7
    }
}

/// A control/status word with the divider-event-source selector replaced.
pub open spec fn with_csr_divmode(csr: u32, sel: u32) -> u32
    recommends
        sel < 4,
{
    (csr & 0xffff_ffcf) | (sel << 4)
}

/// A divider word with both parts of the 8.4 divider replaced.
pub open spec fn with_div(div: u32, integer: u32, frac: u32) -> u32
    recommends
        1 <= integer < 256,
        frac < 16,
{
    (div & 0xffff_f000) | (integer << 4) | frac
}

/// A compare word with compare value A replaced.
pub open spec fn with_cc_a(cc: u32, value: u32) -> u32
    recommends
        value < 0x10000,
{
    (cc & 0xffff_0000) | value
}

/// A compare word with compare value B replaced.
pub open spec fn with_cc_b(cc: u32, value: u32) -> u32
    recommends
        value < 0x10000,
{
    (cc & 0x0000_ffff) | (value << 16)
}

/// A counter or top word with its 16-bit value replaced.
pub open spec fn with_low16(word: u32, value: u32) -> u32
    recommends
        value < 0x10000,
{
    (word & 0xffff_0000) | value
}

// Writing one field of the control/status word leaves the other fields as
// they were.

/// Effect of writing the enable bit.
pub proof fn lemma_with_csr_en(csr: u32)
    by (bit_vector)
    ensures
        csr_en(csr | 0x1),
        !csr_en(csr & 0xffff_fffe),
        csr_ph_correct(csr | 0x1) == csr_ph_correct(csr),
        csr_ph_correct(csr & 0xffff_fffe) == csr_ph_correct(csr),
        csr_a_inv(csr | 0x1) == csr_a_inv(csr),
        csr_a_inv(csr & 0xffff_fffe) == csr_a_inv(csr),
        csr_b_inv(csr | 0x1) == csr_b_inv(csr),
        csr_b_inv(csr & 0xffff_fffe) == csr_b_inv(csr),
        csr_divmode(csr | 0x1) == csr_divmode(csr),
        csr_divmode(csr & 0xffff_fffe) == csr_divmode(csr),
{
}

/// Effect of writing the phase-correct bit.
pub proof fn lemma_with_csr_ph_correct(csr: u32)
    by (bit_vector)
    ensures
        csr_ph_correct(csr | 0x2),
        !csr_ph_correct(csr & 0xffff_fffd),
        csr_en(csr | 0x2) == csr_en(csr),
        csr_en(csr & 0xffff_fffd) == csr_en(csr),
        csr_a_inv(csr | 0x2) == csr_a_inv(csr),
        csr_a_inv(csr & 0xffff_fffd) == csr_a_inv(csr),
        csr_b_inv(csr | 0x2) == csr_b_inv(csr),
        csr_b_inv(csr & 0xffff_fffd) == csr_b_inv(csr),
        csr_divmode(csr | 0x2) == csr_divmode(csr),
        csr_divmode(csr & 0xffff_fffd) == csr_divmode(csr),
{
}

/// Effect of writing the invert-A bit.
pub proof fn lemma_with_csr_a_inv(csr: u32)
    by (bit_vector)
    ensures
        csr_a_inv(csr | 0x4),
        !csr_a_inv(csr & 0xffff_fffb),
        csr_en(csr | 0x4) == csr_en(csr),
        csr_en(csr & 0xffff_fffb) == csr_en(csr),
        csr_ph_correct(csr | 0x4) == csr_ph_correct(csr),
        csr_ph_correct(csr & 0xffff_fffb) == csr_ph_correct(csr),
        csr_b_inv(csr | 0x4) == csr_b_inv(csr),
        csr_b_inv(csr & 0xffff_fffb) == csr_b_inv(csr),
        csr_divmode(csr | 0x4) == csr_divmode(csr),
        csr_divmode(csr & 0xffff_fffb) == csr_divmode(csr),
{
}

/// Effect of writing the invert-B bit.
pub proof fn lemma_with_csr_b_inv(csr: u32)
    by (bit_vector)
    ensures
        csr_b_inv(csr | 0x8),
        !csr_b_inv(csr & 0xffff_fff7),
        csr_en(csr | 0x8) == csr_en(csr),
        csr_en(csr & 0xffff_fff7) == csr_en(csr),
        csr_ph_correct(csr | 0x8) == csr_ph_correct(csr),
        csr_ph_correct(csr & 0xffff_fff7) == csr_ph_correct(csr),
        csr_a_inv(csr | 0x8) == csr_a_inv(csr),
        csr_a_inv(csr & 0xffff_fff7) == csr_a_inv(csr),
        csr_divmode(csr | 0x8) == csr_divmode(csr),
        csr_divmode(csr & 0xffff_fff7) == csr_divmode(csr),
{
}

/// Effect of writing the divider-event-source selector.
pub proof fn lemma_with_csr_divmode(csr: u32, sel: u32)
    by (bit_vector)
    requires
        sel < 4,
    ensures
        csr_divmode(with_csr_divmode(csr, sel)) == sel,
        csr_en(with_csr_divmode(csr, sel)) == csr_en(csr),
        csr_ph_correct(with_csr_divmode(csr, sel)) == csr_ph_correct(csr),
        csr_a_inv(with_csr_divmode(csr, sel)) == csr_a_inv(csr),
        csr_b_inv(with_csr_divmode(csr, sel)) == csr_b_inv(csr),
{
}

/// Effect of writing both parts of the divider.
pub proof fn lemma_with_div(div: u32, integer: u32, frac: u32)
    by (bit_vector)
    requires
        integer < 256,
        frac < 16,
    ensures
        div_int(with_div(div, integer, frac)) == integer,
        div_frac(with_div(div, integer, frac)) == frac,
{
}

/// Effect of writing compare value A.
pub proof fn lemma_with_cc_a(cc: u32, value: u32)
    by (bit_vector)
    requires
        value < 0x10000,
    ensures
        cc_a(with_cc_a(cc, value)) == value,
        cc_b(with_cc_a(cc, value)) == cc_b(cc),
{
}

/// Effect of writing compare value B.
pub proof fn lemma_with_cc_b(cc: u32, value: u32)
    by (bit_vector)
    requires
        value < 0x10000,
    ensures
        cc_b(with_cc_b(cc, value)) == value,
        cc_a(with_cc_b(cc, value)) == cc_a(cc),
{
}

/// Effect of writing the 16-bit value of a counter or top word.
pub proof fn lemma_with_low16(word: u32, value: u32)
    by (bit_vector)
    requires
        value < 0x10000,
    ensures
        low16(with_low16(word, value)) == value,
{
}

// Field values are in range.

/// Every field read out of a word fits its width.
pub proof fn lemma_field_ranges(word: u32)
    by (bit_vector)
    ensures
        csr_divmode(word) < 4,
        div_frac(word) < 16,
        div_int(word) < 256,
        cc_a(word) < 0x10000,
        cc_b(word) < 0x10000,
        low16(word) < 0x10000,
{
}

impl ChannelRegisters {
    /// Whether the channel is enabled.
    pub fn enabled(&self) -> (b: bool)
        ensures
            b == csr_en(self.csr),
    {
        self.csr & 0x1 != 0
    }

    /// Whether phase-correct (dual-slope) modulation is selected.
    pub fn ph_correct(&self) -> (b: bool)
        ensures
            b == csr_ph_correct(self.csr),
    {
        self.csr & 0x2 != 0
    }

    /// Whether output A's polarity is inverted.
    pub fn invert_a(&self) -> (b: bool)
        ensures
            b == csr_a_inv(self.csr),
    {
        self.csr & 0x4 != 0
    }

    /// Whether output B's polarity is inverted.
    pub fn invert_b(&self) -> (b: bool)
        ensures
            b == csr_b_inv(self.csr),
    {
        self.csr & 0x8 != 0
    }

    /// The divider-event source selected for the channel.
    pub fn div_mode(&self) -> (m: DivMode)
        ensures
            m.ordinal() == csr_divmode(self.csr),
    {
        let sel = (self.csr >> 4) & 0x3;
        proof {
            lemma_field_ranges(self.csr);
        }
        DivMode::from_value(sel)
    }

    /// The integer part of the channel's 8.4 clock divider.
    pub fn divider_int(&self) -> (integer: u8)
        ensures
            integer == div_int(self.div),
    {
        proof {
            lemma_field_ranges(self.div);
        }
        ((self.div >> 4) & 0xff) as u8
    }

    /// The fractional part of the channel's 8.4 clock divider.
    pub fn divider_frac(&self) -> (frac: u8)
        ensures
            frac == div_frac(self.div),
    {
        proof {
            lemma_field_ranges(self.div);
        }
        (self.div & 0xf) as u8
    }

    /// The channel's compare value for output A.
    pub fn compare_a(&self) -> (value: u16)
        ensures
            value == cc_a(self.cc),
    {
        proof {
            lemma_field_ranges(self.cc);
        }
        (self.cc & 0xffff) as u16
    }

    /// The channel's compare value for output B.
    pub fn compare_b(&self) -> (value: u16)
        ensures
            value == cc_b(self.cc),
    {
        proof {
            lemma_field_ranges(self.cc);
        }
        ((self.cc >> 16) & 0xffff) as u16
    }

    /// The channel's counter value.
    pub fn counter(&self) -> (value: u16)
        ensures
            value == low16(self.ctr),
    {
        proof {
            lemma_field_ranges(self.ctr);
        }
        (self.ctr & 0xffff) as u16
    }

    /// The channel's counter wrap value.
    pub fn top_value(&self) -> (value: u16)
        ensures
            value == low16(self.top),
    {
        proof {
            lemma_field_ranges(self.top);
        }
        (self.top & 0xffff) as u16
    }
}

} // verus!
