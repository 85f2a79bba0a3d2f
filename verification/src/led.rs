//! The three LED channels and the drive-current limits of the chip.

use vstd::prelude::*;

verus! {

/// One of the three independently controllable LED outputs.
#[derive(Copy, Clone, Debug, PartialEq, Eq, Structural)]
pub enum Led {
    Led0,
    Led1,
    Led2,
}

/// Maximum current that drives an LED, in milliamps.
#[derive(Copy, Clone, Debug, PartialEq, Eq, Structural)]
pub enum Current {
    Zero,
    Five,
    Ten,
    Fifteen,
}

impl Led {
    /// Ordinal of the channel: the offset of its registers from their base.
    pub open spec fn ordinal(self) -> u8 {
        match self {
            Led::Led0 => 0,
            Led::Led1 => 1,
            Led::Led2 => 2,
        }
    }

    /// The channel's bit in the shared enable register: two to the power of
    /// its ordinal.
    pub open spec fn mask(self) -> u8 {
        match self {
            Led::Led0 => 1,
            Led::Led1 => 2,
            Led::Led2 => 4,
        }
    }

    /// Ordinal of the channel.
    pub fn index(self) -> (i: u8)
        ensures
            i == self.ordinal(),
            i < 3,
    {
        match self {
            Led::Led0 => 0,
            Led::Led1 => 1,
            Led::Led2 => 2,
        }
    }

    /// The channel's bit in the shared enable register.
    pub fn bit(self) -> (b: u8)
        ensures
            b == self.mask(),
            b == 1u8 << self.ordinal(),
    {
        let i: u8 = self.index();
        assert(1u8 << 0u8 == 1u8) by (bit_vector);
        assert(1u8 << 1u8 == 2u8) by (bit_vector);
        assert(1u8 << 2u8 == 4u8) by (bit_vector);
        1u8 << i
    }
}

impl Current {
    /// The two-bit field that selects this limit in a channel's mode
    /// register.
    pub open spec fn field(self) -> u8 {
        match self {
            Current::Zero => 0,
            Current::Five => 1,
            Current::Ten => 2,
            Current::Fifteen => 3,
        }
    }

    /// The two-bit field that selects this limit in a channel's mode
    /// register.
    pub fn bits(self) -> (b: u8)
        ensures
            b == self.field(),
            b <= 3,
    {
        match self {
            Current::Zero => 0,
            Current::Five => 1,
            Current::Ten => 2,
            Current::Fifteen => 3,
        }
    }
}

} // verus!
