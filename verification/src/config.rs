//! Channel configuration snapshot: a staging value object holding the eight
//! independently controllable channel parameters, batch-applied to a channel
//! in one call. It is not itself hardware state.

use vstd::prelude::*;
use crate::channel::DivMode;

verus! {

/// A channel's eight independently controllable parameters.
#[derive(Clone, Copy, PartialEq, Eq, Structural, Debug)]
pub struct PwmChannelConfiguration {
    /// Whether the channel is enabled.
    pub en: bool,
    /// Phase-correct (dual-slope) modulation instead of trailing-edge.
    pub ph_correct: bool,
    /// Invert output A's polarity.
    pub a_inv: bool,
    /// Invert output B's polarity.
    pub b_inv: bool,
    /// Divider-event source for the fractional clock divider.
    pub divmode: DivMode,
    /// Integer part of the 8.4 clock divider; never 0.
    pub div_int: u8,
    /// Fractional part of the 8.4 clock divider, in sixteenths; at most 15.
    pub div_frac: u8,
    /// Compare value for output A.
    pub cc_a: u16,
    /// Compare value for output B.
    pub cc_b: u16,
    /// Counter wrap value.
    pub top: u16,
}

impl PwmChannelConfiguration {
    /// The divider a snapshot holds is a representable 8.4 value: integer
    /// part at least 1, fractional part at most 15 sixteenths.
    pub open spec fn wf(self) -> bool {
        &&& 1 <= self.div_int
        &&& self.div_frac <= 15
    }

    /// The default parameter values: channel disabled, trailing-edge
    /// modulation, no polarity inversion, free-running divider of exactly
    /// 1 + 0/16, both compare values 0 (0% duty), top at its maximum.
    pub open spec fn spec_default() -> PwmChannelConfiguration {
        PwmChannelConfiguration {
            en: false,
            ph_correct: false,
            a_inv: false,
            b_inv: false,
            divmode: DivMode::FreeRunning,
            div_int: 1,
            div_frac: 0,
            cc_a: 0,
            cc_b: 0,
            top: 0xffff,
        }
    }

    /// The default configuration: channel disabled, trailing-edge
    /// modulation, no polarity inversion, free-running divider of exactly
    /// 1 + 0/16, both compare values 0 (0% duty), top at its maximum.
    pub fn default_config() -> (c: PwmChannelConfiguration)
        ensures
            c == PwmChannelConfiguration::spec_default(),
            c == (PwmChannelConfiguration {
                en: false,
                ph_correct: false,
                a_inv: false,
                b_inv: false,
                divmode: DivMode::FreeRunning,
                div_int: 1,
                div_frac: 0,
                cc_a: 0,
                cc_b: 0,
                top: 0xffff,
            }),
            c.wf(),
    {
        PwmChannelConfiguration {
            en: false,
            ph_correct: false,
            a_inv: false,
            b_inv: false,
            divmode: DivMode::FreeRunning,
            div_int: 1,
            div_frac: 0,
            cc_a: 0,
            cc_b: 0,
            top: u16::MAX,
        }
    }

    /// Stage enabling (true) or disabling (false) the channel.
    pub fn set_enabled(&mut self, enable: bool)
        ensures
            *final(self) == (PwmChannelConfiguration { en: enable, ..*old(self) }),
    {
        self.en = enable;
    }

    /// Stage phase-correct (true) or trailing-edge (false) modulation.
    pub fn set_ph_correct(&mut self, ph_correct: bool)
        ensures
            *final(self) == (PwmChannelConfiguration { ph_correct, ..*old(self) }),
    {
        self.ph_correct = ph_correct;
    }

    /// Stage the polarity inversion of both outputs.
    pub fn set_invert_polarity(&mut self, a_inv: bool, b_inv: bool)
        ensures
            *final(self) == (PwmChannelConfiguration { a_inv, b_inv, ..*old(self) }),
    {
        self.a_inv = a_inv;
        self.b_inv = b_inv;
    }

    /// Stage the divider-event source.
    pub fn set_div_mode(&mut self, divmode: DivMode)
        ensures
            *final(self) == (PwmChannelConfiguration { divmode, ..*old(self) }),
    {
        self.divmode = divmode;
    }

    /// Stage both parts of the 8.4 clock divider.
    ///
    /// An integer part of 0 or a fractional part above 15 is not
    /// representable; such a call is ignored and the staged divider keeps
    /// its prior value.
    pub fn set_divider_int_frac(&mut self, div_int: u8, div_frac: u8)
        ensures
            div_int == 0 || div_frac > 15 ==> *final(self) == *old(self),
            div_int != 0 && div_frac <= 15 ==> *final(self) == (PwmChannelConfiguration {
                div_int,
                div_frac,
                ..*old(self)
            }),
            old(self).wf() ==> final(self).wf(),
    {
        if div_int == 0 || div_frac > 15 {
            return ;
        }
        self.div_int = div_int;
        self.div_frac = div_frac;
    }

    /// Stage the compare value for output A.
    pub fn set_compare_value_a(&mut self, cc_a: u16)
        ensures
            *final(self) == (PwmChannelConfiguration { cc_a, ..*old(self) }),
    {
        self.cc_a = cc_a;
    }

    /// Stage the compare value for output B.
    pub fn set_compare_value_b(&mut self, cc_b: u16)
        ensures
            *final(self) == (PwmChannelConfiguration { cc_b, ..*old(self) }),
    {
        self.cc_b = cc_b;
    }

    /// Stage the compare values for both outputs.
    pub fn set_compare_values_a_and_b(&mut self, cc_a: u16, cc_b: u16)
        ensures
            *final(self) == (PwmChannelConfiguration { cc_a, cc_b, ..*old(self) }),
    {
        self.set_compare_value_a(cc_a);
        self.set_compare_value_b(cc_b);
    }

    /// Stage the counter wrap value.
    pub fn set_top(&mut self, top: u16)
        ensures
            *final(self) == (PwmChannelConfiguration { top, ..*old(self) }),
    {
        self.top = top;
    }
}

} // verus!
