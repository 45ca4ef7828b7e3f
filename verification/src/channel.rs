//! Channel and pin identity: the eight hardware channels, the two sub-pins
//! each channel drives, the divider-event source selector, and the pure
//! mapping from a physical pin ordinal to a (channel, sub-pin) pair.

use vstd::prelude::*;

verus! {

/// Number of independent hardware channels in the peripheral.
pub const NUM_CHANNELS: usize = 8;

/// Divider-event source: selects whether a channel's fractional clock
/// divider free-runs or is gated/clocked by the level or edges of the
/// channel's B sub-pin (which then becomes an input).
#[derive(Clone, Copy, PartialEq, Eq, Structural, Debug)]
pub enum DivMode {
    FreeRunning,
    High,
    Rising,
    Falling,
}

/// Identifier for one of the eight hardware channels.
#[derive(Clone, Copy, PartialEq, Eq, Structural, Debug)]
pub enum ChannelNumber {
    Ch0,
    Ch1,
    Ch2,
    Ch3,
    Ch4,
    Ch5,
    Ch6,
    Ch7,
}

/// One of the two outputs of a channel. Pin A is always an output; pin B
/// becomes an input when the divider-event source is not free-running.
#[derive(Clone, Copy, PartialEq, Eq, Structural, Debug)]
pub enum ChannelPin {
    A,
    B,
}

impl DivMode {
    /// The two-bit selector value the control register holds for this mode.
    pub open spec fn ordinal(self) -> u32 {
        match self {
            DivMode::FreeRunning => 0,
            DivMode::High => 1,
            DivMode::Rising => 2,
            DivMode::Falling => 3,
        }
    }

    /// Encode the mode as its two-bit register selector value.
    pub fn value(&self) -> (v: u32)
        ensures
            v == self.ordinal(),
    {
        match self {
            DivMode::FreeRunning => 0,
            DivMode::High => 1,
            DivMode::Rising => 2,
            DivMode::Falling => 3,
        }
    }

    /// The mode a two-bit register selector value denotes.
    pub open spec fn spec_from_value(v: u32) -> DivMode {
        if v == 0 {
            DivMode::FreeRunning
        } else if v == 1 {
            DivMode::High
        } else if v == 2 {
            DivMode::Rising
        } else {
            DivMode::Falling
        }
    }

    /// Decode a two-bit register selector value.
    pub fn from_value(v: u32) -> (m: DivMode)
        requires
            v < 4,
        ensures
            m == DivMode::spec_from_value(v),
            m.ordinal() == v,
    {
        if v == 0 {
            DivMode::FreeRunning
        } else if v == 1 {
            DivMode::High
        } else if v == 2 {
            DivMode::Rising
        } else {
            DivMode::Falling
        }
    }
}

impl ChannelNumber {
    /// The channel's index in 0..NUM_CHANNELS.
    pub open spec fn ordinal(self) -> int {
        match self {
            ChannelNumber::Ch0 => 0,
            ChannelNumber::Ch1 => 1,
            ChannelNumber::Ch2 => 2,
            ChannelNumber::Ch3 => 3,
            ChannelNumber::Ch4 => 4,
            ChannelNumber::Ch5 => 5,
            ChannelNumber::Ch6 => 6,
            ChannelNumber::Ch7 => 7,
        }
    }

    /// The channel with the given index.
    pub open spec fn spec_from_index(index: int) -> ChannelNumber {
        if index == 0 {
            ChannelNumber::Ch0
        } else if index == 1 {
            ChannelNumber::Ch1
        } else if index == 2 {
            ChannelNumber::Ch2
        } else if index == 3 {
            ChannelNumber::Ch3
        } else if index == 4 {
            ChannelNumber::Ch4
        } else if index == 5 {
            ChannelNumber::Ch5
        } else if index == 6 {
            ChannelNumber::Ch6
        } else {
            ChannelNumber::Ch7
        }
    }

    /// The channel's index as a value usable to address register arrays.
    pub fn index(&self) -> (i: usize)
        ensures
            i == self.ordinal(),
    {
        match self {
            ChannelNumber::Ch0 => 0,
            ChannelNumber::Ch1 => 1,
            ChannelNumber::Ch2 => 2,
            ChannelNumber::Ch3 => 3,
            ChannelNumber::Ch4 => 4,
            ChannelNumber::Ch5 => 5,
            ChannelNumber::Ch6 => 6,
            ChannelNumber::Ch7 => 7,
        }
    }

    /// The channel with the given index.
    pub fn from_index(index: usize) -> (c: ChannelNumber)
        requires
            index < NUM_CHANNELS,
        ensures
            c == ChannelNumber::spec_from_index(index as int),
            c.ordinal() == index,
    {
        if index == 0 {
            ChannelNumber::Ch0
        } else if index == 1 {
            ChannelNumber::Ch1
        } else if index == 2 {
            ChannelNumber::Ch2
        } else if index == 3 {
            ChannelNumber::Ch3
        } else if index == 4 {
            ChannelNumber::Ch4
        } else if index == 5 {
            ChannelNumber::Ch5
        } else if index == 6 {
            ChannelNumber::Ch6
        } else {
            ChannelNumber::Ch7
        }
    }

    /// The channel driven by the given physical pin ordinal.
    pub fn from_pin(pin: usize) -> (c: ChannelNumber)
        ensures
            c.ordinal() == channel_index_of_pin(pin as int),
    {
        ChannelNumber::from_index((pin / 2) % NUM_CHANNELS)
    }
}

impl ChannelPin {
    /// The sub-pin's index within its channel: A is 0, B is 1.
    pub open spec fn ordinal(self) -> int {
        match self {
            ChannelPin::A => 0,
            ChannelPin::B => 1,
        }
    }

    /// The sub-pin the given physical pin ordinal drives: even pins drive
    /// sub-pin A, odd pins drive sub-pin B.
    pub fn from_pin(pin: usize) -> (p: ChannelPin)
        ensures
            p.ordinal() == sub_pin_index_of_pin(pin as int),
    {
        if pin % 2 == 0 {
            ChannelPin::A
        } else {
            ChannelPin::B
        }
    }
}

/// Channel index driven by a physical pin ordinal: pins pair up two per
/// channel, and the pairing wraps around after 2 * NUM_CHANNELS pins.
pub open spec fn channel_index_of_pin(pin: int) -> int {
    (pin / 2) % 8
}

/// Sub-pin index driven by a physical pin ordinal: 0 for A, 1 for B.
pub open spec fn sub_pin_index_of_pin(pin: int) -> int {
    pin % 2
}

/// Pin aliasing law: two pin ordinals that differ by twice the channel
/// count map to the identical (channel, sub-pin) pair, and therefore drive
/// the identical electrical signal.
pub proof fn lemma_pin_aliasing(pin: int)
    requires
        pin >= 0,
    ensures
        channel_index_of_pin(pin + 2 * NUM_CHANNELS) == channel_index_of_pin(pin),
        sub_pin_index_of_pin(pin + 2 * NUM_CHANNELS) == sub_pin_index_of_pin(pin),
{
    assert((pin + 16) / 2 == pin / 2 + 8);
    assert((pin / 2 + 8) % 8 == (pin / 2) % 8) by {
        vstd::arithmetic::div_mod::lemma_mod_add_multiples_vanish(pin / 2, 8);
    };
    assert((pin + 16) % 2 == pin % 2) by {
        vstd::arithmetic::div_mod::lemma_mod_multiples_vanish(8, pin, 2);
    };
}

} // verus!
