//! Breathing timings and their packing into the chip's timing registers.
//!
//! Every phase of a breathing cycle is a small step count. The chip has room
//! for three or four bits per phase, so a value above the field's maximum is
//! clamped to that maximum; it is never rejected.

use vstd::prelude::*;

verus! {

/// Largest rise period the chip accepts.
pub const MAX_RISE: u8 = 7;

/// Largest hold period the chip accepts.
pub const MAX_HOLD: u8 = 5;

/// Largest fall period the chip accepts.
pub const MAX_FALL: u8 = 7;

/// Largest off period the chip accepts.
pub const MAX_OFF: u8 = 7;

/// Largest start delay the chip accepts.
pub const MAX_DELAY: u8 = 7;

/// Largest cycle count the chip accepts.
pub const MAX_CYCLES: u8 = 15;

/// Largest fade period of a static channel.
pub const MAX_FADE: u8 = 7;

/// The smaller of `value` and `max`.
pub open spec fn clamped(value: u8, max: u8) -> u8 {
    if value <= max {
        value
    } else {
        max
    }
}

/// The byte whose high nibble is `high` and whose low nibble is `low`.
pub open spec fn packed(high: u8, low: u8) -> int
    recommends
        high <= 15,
        low <= 15,
{
    16 * high + low
}

/// Limits `value` to `max`.
pub fn clamp(value: u8, max: u8) -> (r: u8)
    ensures
        r == clamped(value, max),
{
    if value <= max {
        value
    } else {
        max
    }
}

/// Packs two nibbles into one register byte.
pub fn pack(high: u8, low: u8) -> (byte: u8)
    requires
        high <= 15,
        low <= 15,
    ensures
        byte == packed(high, low),
        byte == (high << 4) | low,
{
    assert((high << 4) | low == 16 * high + low) by (bit_vector)
        requires
            high <= 15,
            low <= 15,
    ;
    (high << 4) | low
}

/// Timing configuration for breathing effects.
///
/// A value that is set too high is clamped to the allowed range when it is
/// encoded. Each step of a period doubles its duration, starting from 0.13 s
/// (from 0 s for the delay, whose first step is no delay at all).
#[derive(Copy, Clone, Debug, PartialEq, Eq, Structural)]
pub struct Timing {
    /// Delay before the breathing cycle starts, 0 to 7.
    pub delay: u8,
    /// Rise period of the breathing cycle, 0 to 7.
    pub rise: u8,
    /// Hold period of the breathing cycle, 0 to 5.
    pub hold: u8,
    /// Fall period of the breathing cycle, 0 to 7.
    pub fall: u8,
    /// Off period of the breathing cycle, 0 to 7.
    pub off: u8,
    /// Number of breathing cycles, 0 to 15. Zero cycles means to repeat
    /// without end.
    pub cycles: u8,
}

impl Timing {
    /// Every field is within the range that the chip accepts.
    pub open spec fn in_range(self) -> bool {
        &&& self.delay <= MAX_DELAY
        &&& self.rise <= MAX_RISE
        &&& self.hold <= MAX_HOLD
        &&& self.fall <= MAX_FALL
        &&& self.off <= MAX_OFF
        &&& self.cycles <= MAX_CYCLES
    }

    /// The timing with every field clamped to its maximum.
    pub open spec fn clamped(self) -> Timing {
        Timing {
            delay: clamped(self.delay, MAX_DELAY),
            rise: clamped(self.rise, MAX_RISE),
            hold: clamped(self.hold, MAX_HOLD),
            fall: clamped(self.fall, MAX_FALL),
            off: clamped(self.off, MAX_OFF),
            cycles: clamped(self.cycles, MAX_CYCLES),
        }
    }

    /// The contents of a channel's three timing registers, in the order of
    /// their addresses: rise over hold, fall over off, delay over cycles,
    /// each field clamped.
    pub open spec fn encoding(self) -> Seq<u8> {
        let t = self.clamped();
        seq![
            packed(t.rise, t.hold) as u8,
            packed(t.fall, t.off) as u8,
            packed(t.delay, t.cycles) as u8,
        ]
    }

    /// Clamps every field to the range that the chip accepts.
    pub fn clamp(&self) -> (t: Timing)
        ensures
            t == self.clamped(),
            t.in_range(),
    {
        Timing {
            delay: clamp(self.delay, MAX_DELAY),
            rise: clamp(self.rise, MAX_RISE),
            hold: clamp(self.hold, MAX_HOLD),
            fall: clamp(self.fall, MAX_FALL),
            off: clamp(self.off, MAX_OFF),
            cycles: clamp(self.cycles, MAX_CYCLES),
        }
    }

    /// Encodes the timing into the three register bytes of a channel.
    pub fn registers(&self) -> (bytes: [u8; 3])
        ensures
            bytes@ == self.encoding(),
    {
        let t: Timing = self.clamp();
        [pack(t.rise, t.hold), pack(t.fall, t.off), pack(t.delay, t.cycles)]
    }
}

/// Clamping never exceeds the maximum, leaves a value within range as it
/// is, and is idempotent.
pub proof fn lemma_clamped_idempotent(value: u8, max: u8)
    ensures
        clamped(value, max) <= max,
        value <= max ==> clamped(value, max) == value,
        clamped(clamped(value, max), max) == clamped(value, max),
{
}

/// Clamping is monotonic: a larger value never clamps to a smaller one.
pub proof fn lemma_clamped_monotonic(a: u8, b: u8, max: u8)
    requires
        a <= b,
    ensures
        clamped(a, max) <= clamped(b, max),
{
}

/// Clamping a timing is idempotent, and a timing encodes to the same bytes
/// whether or not it was clamped beforehand.
pub proof fn lemma_encoding_of_clamped(timing: Timing)
    ensures
        timing.clamped().in_range(),
        timing.in_range() ==> timing.clamped() == timing,
        timing.clamped().clamped() == timing.clamped(),
        timing.clamped().encoding() == timing.encoding(),
{
}

/// Both nibbles of each timing byte can be read back: the encoding loses
/// nothing of the clamped timing.
pub proof fn lemma_encoding_nibbles(timing: Timing)
    ensures
        timing.encoding().len() == 3,
        timing.encoding()[0] / 16 == timing.clamped().rise,
        timing.encoding()[0] % 16 == timing.clamped().hold,
        timing.encoding()[1] / 16 == timing.clamped().fall,
        timing.encoding()[1] % 16 == timing.clamped().off,
        timing.encoding()[2] / 16 == timing.clamped().delay,
        timing.encoding()[2] % 16 == timing.clamped().cycles,
{
}

} // verus!
