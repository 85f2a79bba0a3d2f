//! The register map of the chip.
//!
//! | Register       | Address            | Purpose                              |
//! |----------------|--------------------|--------------------------------------|
//! | Reset          | 0x00               | writing 0x55 resets the chip         |
//! | Global control | 0x01               | bit 0 enables the LED module         |
//! | LED enable     | 0x30               | bit *i* switches channel *i* on      |
//! | LED mode       | 0x31 + channel     | current limit and mode bits          |
//! | LED PWM        | 0x34 + channel     | brightness, 0 to 255                 |
//! | Timing 0, 1, 2 | 0x37 + 3 * channel | rise/hold, fall/off, delay/cycles    |
//!
//! A mode register holds the current limit in bits 0 and 1, the breathing
//! bit in bit 4, the fade-in bit in bit 5 and the fade-out bit in bit 6.

use vstd::prelude::*;
use crate::led::Led;

verus! {

/// Bus address of the chip unless it is configured otherwise.
pub const DEFAULT_ADDRESS: u8 = 0x45;

/// Reset register.
pub const REG_RESET: u8 = 0x00;

/// Global control register.
pub const REG_GLOBAL_CONTROL: u8 = 0x01;

/// Enable register shared by the three channels.
pub const REG_LED_ENABLE: u8 = 0x30;

/// Mode register of channel 0.
pub const REG_LED_MODE_BASE: u8 = 0x31;

/// PWM register of channel 0.
pub const REG_LED_PWM_BASE: u8 = 0x34;

/// First timing register of channel 0.
pub const REG_TIMING_BASE: u8 = 0x37;

/// Number of timing registers per channel.
pub const TIMING_REGISTERS: u8 = 3;

/// Module-enable bit of the global control register.
pub const LED_MODULE_ENABLE_MASK: u8 = 0x01;

/// Breathing-mode bit of a mode register.
pub const LED_BREATHE_MODE_MASK: u8 = 0x10;

/// Fade-in bit of a mode register.
pub const LED_FADE_IN_MASK: u8 = 0x20;

/// Fade-out bit of a mode register.
pub const LED_FADE_OUT_MASK: u8 = 0x40;

/// The pattern that, written to the reset register, resets the chip.
pub const LED_RESET_MASK: u8 = 0x55;

/// Address of the mode register of `led`.
pub open spec fn spec_mode_register(led: Led) -> u8 {
    (REG_LED_MODE_BASE + led.ordinal()) as u8
}

/// Address of the PWM register of `led`.
pub open spec fn spec_pwm_register(led: Led) -> u8 {
    (REG_LED_PWM_BASE + led.ordinal()) as u8
}

/// Address of timing register `slot` (0, 1 or 2) of `led`.
pub open spec fn spec_timing_register(led: Led, slot: u8) -> u8
    recommends
        slot < TIMING_REGISTERS,
{
    (REG_TIMING_BASE + TIMING_REGISTERS * led.ordinal() + slot) as u8
}

/// Address of the mode register of `led`.
#[verifier::when_used_as_spec(spec_mode_register)]
pub fn mode_register(led: Led) -> (register: u8)
    ensures
        register == spec_mode_register(led),
{
    REG_LED_MODE_BASE + led.index()
}

/// Address of the PWM register of `led`.
#[verifier::when_used_as_spec(spec_pwm_register)]
pub fn pwm_register(led: Led) -> (register: u8)
    ensures
        register == spec_pwm_register(led),
{
    REG_LED_PWM_BASE + led.index()
}

/// Address of timing register `slot` of `led`: slot 0 holds rise and hold,
/// slot 1 fall and off, slot 2 delay and cycle count.
#[verifier::when_used_as_spec(spec_timing_register)]
pub fn timing_register(led: Led, slot: u8) -> (register: u8)
    requires
        slot < TIMING_REGISTERS,
    ensures
        register == spec_timing_register(led, slot),
{
    REG_TIMING_BASE + TIMING_REGISTERS * led.index() + slot
}

/// The registers of one channel.
pub open spec fn belongs_to(register: u8, led: Led) -> bool {
    ||| register == mode_register(led)
    ||| register == pwm_register(led)
    ||| register == timing_register(led, 0)
    ||| register == timing_register(led, 1)
    ||| register == timing_register(led, 2)
}

/// No register serves two purposes: the per-channel registers of different
/// channels are distinct, and none of them is the reset, global control or
/// enable register.
pub proof fn lemma_register_map_disjoint(a: Led, b: Led, register: u8)
    requires
        belongs_to(register, a),
    ensures
        register != REG_RESET,
        register != REG_GLOBAL_CONTROL,
        register != REG_LED_ENABLE,
        belongs_to(register, b) ==> a == b,
        mode_register(a) != pwm_register(b),
        forall|slot: u8|
            slot < TIMING_REGISTERS ==> #[trigger] timing_register(a, slot) != mode_register(b)
                && timing_register(a, slot) != pwm_register(b),
{
}

} // verus!
