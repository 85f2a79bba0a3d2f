//! What the driver's operations leave in the chip's registers.
//!
//! The statements here are made over the chip model of [`crate::chip`].
//! They hold of every content that the registers may have before the
//! operation, and they speak of an operation that was carried out in full.
//! What holds when a transfer fails on the way is stated in
//! [`crate::ordering`].

use vstd::prelude::*;
use crate::chip::{
    bit_is_set, execute, execute_all, lemma_clear_bit, lemma_execute_all_concat,
    lemma_execute_all_pair, lemma_execute_all_quad, lemma_execute_all_single,
    lemma_execute_all_triple, lemma_set_bit, module_enabled, Chip,
};
use crate::command::Command;
use crate::driver::{
    active_mask, disable_command, enable_command, fade_commands, load_commands, mode_value,
    timing_commands, Aw2013,
};
use crate::led::{Current, Led};
use crate::operation::{Progress, Reply, Transfer};
use crate::ordering::{lemma_one_channel_effect, lemma_static_sets_one_channel};
use crate::registers::{
    belongs_to, spec_mode_register, spec_pwm_register, spec_timing_register,
    LED_MODULE_ENABLE_MASK, LED_RESET_MASK, REG_GLOBAL_CONTROL, REG_LED_ENABLE, REG_RESET,
};
use crate::timing::{clamped, packed, Timing, MAX_FADE};

verus! {

/// The layout of a mode register: the current limit can be read back from
/// bits 0 and 1, bit 4 tells breathing mode, bit 5 fade-in and bit 6
/// fade-out; bits 2, 3 and 7 are clear.
pub proof fn lemma_mode_bits(current: Current, breathe: bool, fade_in: bool, fade_out: bool)
    ensures
        0 <= mode_value(current, breathe, fade_in, fade_out) <= 0x73,
        (mode_value(current, breathe, fade_in, fade_out) as u8) & 0x03 == current.field(),
        bit_is_set(mode_value(current, breathe, fade_in, fade_out) as u8, 4) == breathe,
        bit_is_set(mode_value(current, breathe, fade_in, fade_out) as u8, 5) == fade_in,
        bit_is_set(mode_value(current, breathe, fade_in, fade_out) as u8, 6) == fade_out,
        !bit_is_set(mode_value(current, breathe, fade_in, fade_out) as u8, 2),
        !bit_is_set(mode_value(current, breathe, fade_in, fade_out) as u8, 3),
        !bit_is_set(mode_value(current, breathe, fade_in, fade_out) as u8, 7),
{
    let limit: u8 = current.field();
    let b: u8 = if breathe { 0x10 } else { 0 };
    let i: u8 = if fade_in { 0x20 } else { 0 };
    let o: u8 = if fade_out { 0x40 } else { 0 };
    let mode: u8 = mode_value(current, breathe, fade_in, fade_out) as u8;
    assert(mode == limit + b + i + o);
    assert(mode & 0x03 == limit && (mode & (1u8 << 4u8) != 0) == (b != 0) && (mode & (1u8 << 5u8)
        != 0) == (i != 0) && (mode & (1u8 << 6u8) != 0) == (o != 0) && mode & (1u8 << 2u8) == 0
        && mode & (1u8 << 3u8) == 0 && mode & (1u8 << 7u8) == 0) by (bit_vector)
        requires
            limit <= 3,
            b == 0 || b == 0x10,
            i == 0 || i == 0x20,
            o == 0 || o == 0x40,
            mode == limit + b + i + o,
    ;
}

/// Switching a channel off takes a read of the enable register and a write
/// of what was read, less the channel's bit. No other register is touched,
/// and no other bit of the enable register changes.
pub proof fn lemma_switch_off(device: u8, led: Led, chip: Chip, enabled: u8)
    ensures
        ({
            let start = Progress::start(device, seq![disable_command(led)]);
            let read = start.advance(Reply::Read(enabled));
            &&& start.pending() == Transfer::Read { device, register: REG_LED_ENABLE }
            &&& read.pending() == Transfer::Write {
                device,
                register: REG_LED_ENABLE,
                value: enabled & !led.mask(),
            }
            &&& read.advance(Reply::Written).succeeded()
        }),
        ({
            let after = execute_all(chip, seq![disable_command(led)]);
            &&& after == chip.set(REG_LED_ENABLE, chip.get(REG_LED_ENABLE) & !led.mask())
            &&& forall|register: u8|
                register != REG_LED_ENABLE ==> after.get(register) == chip.get(register)
            &&& forall|position: u8|
                position < 8 ==> #[trigger] bit_is_set(after.get(REG_LED_ENABLE), position) == (
                position != led.ordinal() && bit_is_set(chip.get(REG_LED_ENABLE), position))
        }),
{
    lemma_execute_all_single(chip, disable_command(led));
    let after = execute_all(chip, seq![disable_command(led)]);
    assert forall|register: u8| register != REG_LED_ENABLE implies after.get(register)
        == chip.get(register) by {}
    assert forall|position: u8| position < 8 implies #[trigger] bit_is_set(
        after.get(REG_LED_ENABLE),
        position,
    ) == (position != led.ordinal() && bit_is_set(chip.get(REG_LED_ENABLE), position)) by {
        lemma_clear_bit(chip.get(REG_LED_ENABLE), led, position);
    }
}

/// Switching a channel on takes a read of the enable register and a write
/// of what was read, with the channel's bit added. No other register is
/// touched, and no other bit of the enable register changes.
pub proof fn lemma_switch_on(device: u8, led: Led, chip: Chip, enabled: u8)
    ensures
        ({
            let start = Progress::start(device, seq![enable_command(led)]);
            let read = start.advance(Reply::Read(enabled));
            &&& start.pending() == Transfer::Read { device, register: REG_LED_ENABLE }
            &&& read.pending() == Transfer::Write {
                device,
                register: REG_LED_ENABLE,
                value: enabled | led.mask(),
            }
            &&& read.advance(Reply::Written).succeeded()
        }),
        ({
            let after = execute_all(chip, seq![enable_command(led)]);
            &&& after == chip.set(REG_LED_ENABLE, chip.get(REG_LED_ENABLE) | led.mask())
            &&& forall|register: u8|
                register != REG_LED_ENABLE ==> after.get(register) == chip.get(register)
            &&& forall|position: u8|
                position < 8 ==> #[trigger] bit_is_set(after.get(REG_LED_ENABLE), position) == (
                position == led.ordinal() || bit_is_set(chip.get(REG_LED_ENABLE), position))
        }),
{
    lemma_execute_all_single(chip, enable_command(led));
    let after = execute_all(chip, seq![enable_command(led)]);
    assert forall|register: u8| register != REG_LED_ENABLE implies after.get(register)
        == chip.get(register) by {}
    assert forall|position: u8| position < 8 implies #[trigger] bit_is_set(
        after.get(REG_LED_ENABLE),
        position,
    ) == (position == led.ordinal() || bit_is_set(chip.get(REG_LED_ENABLE), position)) by {
        lemma_set_bit(chip.get(REG_LED_ENABLE), led, position);
    }
}

/// A static brightness of zero switches the channel off and does nothing
/// else, whatever fades are given: [`lemma_switch_off`] tells the transfers
/// and their effect.
pub proof fn lemma_static_zero(driver: Aw2013, led: Led, fade_in: Option<u8>, fade_out: Option<u8>)
    ensures
        driver.static_commands(led, 0, fade_in, fade_out) == seq![disable_command(led)],
{
}

/// A breathing brightness of zero switches the channel off and does nothing
/// else: [`lemma_switch_off`] tells the transfers and their effect.
pub proof fn lemma_breathing_zero(driver: Aw2013, led: Led, timing: Timing)
    ensures
        driver.breathing_commands(led, 0, timing) == seq![disable_command(led)],
{
}

/// A reset puts every register back to its power-on content, whatever the
/// registers held, and so leaves the LED module disabled.
pub proof fn lemma_reset_effect(chip: Chip)
    requires
        chip.wf(),
    ensures
        ({
            let after = execute_all(
                chip,
                seq![Command::Write { register: REG_RESET, value: LED_RESET_MASK }],
            );
            &&& after == chip.reset()
            &&& after.wf()
            &&& !module_enabled(after)
            &&& forall|register: u8| #[trigger] after.get(register) == (chip.power_on)(register)
        }),
{
    lemma_execute_all_single(chip, Command::Write { register: REG_RESET, value: LED_RESET_MASK });
}

/// Enabling the LED module sets the module-enable bit and disabling clears
/// it, whatever the register held; doing either twice is doing it once.
pub proof fn lemma_module_switch(chip: Chip)
    ensures
        ({
            let enable = Command::Write {
                register: REG_GLOBAL_CONTROL,
                value: LED_MODULE_ENABLE_MASK,
            };
            &&& module_enabled(execute_all(chip, seq![enable]))
            &&& execute_all(chip, seq![enable, enable]) == execute_all(
                chip,
                seq![enable],
            )
        }),
        ({
            let disable = Command::Write { register: REG_GLOBAL_CONTROL, value: 0 };
            &&& !module_enabled(execute_all(chip, seq![disable]))
            &&& execute_all(chip, seq![disable, disable]) == execute_all(
                chip,
                seq![disable],
            )
        }),
{
    let enable = Command::Write { register: REG_GLOBAL_CONTROL, value: LED_MODULE_ENABLE_MASK };
    let disable = Command::Write { register: REG_GLOBAL_CONTROL, value: 0 };
    lemma_execute_all_single(chip, enable);
    lemma_execute_all_single(chip, disable);
    lemma_execute_all_pair(chip, enable, enable);
    lemma_execute_all_pair(chip, disable, disable);
    assert(1u8 & 1u8 != 0u8) by (bit_vector);
    assert(0u8 & 1u8 == 0u8) by (bit_vector);
    assert(execute(execute(chip, enable), enable) =~= execute(chip, enable));
    assert(execute(execute(chip, disable), disable) =~= execute(chip, disable));
}

/// Writing a fade period stores it, clamped and in the high nibble, in the
/// channel's first timing register; without a period nothing is written.
pub proof fn lemma_fade_effect(led: Led, fade: Option<u8>, chip: Chip)
    ensures
        execute_all(chip, fade_commands(led, fade)) == (match fade {
            Some(period) => chip.set(
                spec_timing_register(led, 0),
                packed(clamped(period, MAX_FADE), 0) as u8,
            ),
            None => chip,
        }),
{
    if let Some(period) = fade {
        lemma_execute_all_single(
            chip,
            Command::Write {
                register: spec_timing_register(led, 0),
                value: packed(clamped(period, MAX_FADE), 0) as u8,
            },
        );
    }
}

/// Loading a timing stores its three encoded bytes in the channel's three
/// timing registers.
pub proof fn lemma_timing_effect(led: Led, timing: Timing, chip: Chip)
    ensures
        execute_all(chip, timing_commands(led, timing)) == chip.set(
            spec_timing_register(led, 0),
            timing.encoding()[0],
        ).set(spec_timing_register(led, 1), timing.encoding()[1]).set(
            spec_timing_register(led, 2),
            timing.encoding()[2],
        ),
{
    lemma_execute_all_triple(
        chip,
        Command::Write { register: spec_timing_register(led, 0), value: timing.encoding()[0] },
        Command::Write { register: spec_timing_register(led, 1), value: timing.encoding()[1] },
        Command::Write { register: spec_timing_register(led, 2), value: timing.encoding()[2] },
    );
}

/// Loading a breathing channel stores the brightness and the three encoded
/// timing bytes.
pub proof fn lemma_load_effect(led: Led, brightness: u8, timing: Timing, chip: Chip)
    ensures
        execute_all(chip, load_commands(led, brightness, timing)) == chip.set(
            spec_pwm_register(led),
            brightness,
        ).set(spec_timing_register(led, 0), timing.encoding()[0]).set(
            spec_timing_register(led, 1),
            timing.encoding()[1],
        ).set(spec_timing_register(led, 2), timing.encoding()[2]),
{
    let pwm = Command::Write { register: spec_pwm_register(led), value: brightness };
    lemma_execute_all_single(chip, pwm);
    lemma_execute_all_concat(chip, seq![pwm], timing_commands(led, timing));
    lemma_timing_effect(led, timing, execute(chip, pwm));
}

/// The content of a channel's first timing register after a static
/// brightness was set: the fade-out period if there is one, else the
/// fade-in period if there is one, each clamped and in the high nibble;
/// else what the register held before.
pub open spec fn fade_register(before: u8, fade_in: Option<u8>, fade_out: Option<u8>) -> int {
    match (fade_in, fade_out) {
        (_, Some(period)) => packed(clamped(period, MAX_FADE), 0),
        (Some(period), None) => packed(clamped(period, MAX_FADE), 0),
        (None, None) => before as int,
    }
}

/// What a static brightness above zero leaves in the registers: the mode
/// with the current limit and the fade bits, the brightness, the fade
/// period, and the channel's enable bit set. Every other register keeps its
/// content, and every other bit of the enable register its value.
pub proof fn lemma_static_effect(
    driver: Aw2013,
    led: Led,
    brightness: u8,
    fade_in: Option<u8>,
    fade_out: Option<u8>,
    chip: Chip,
)
    requires
        brightness > 0,
    ensures
        ({
            let after = execute_all(
                chip,
                driver.static_commands(led, brightness, fade_in, fade_out),
            );
            &&& after.get(spec_mode_register(led)) == mode_value(
                driver.max_current(led),
                false,
                fade_in is Some,
                fade_out is Some,
            )
            &&& after.get(spec_pwm_register(led)) == brightness
            &&& after.get(spec_timing_register(led, 0)) == fade_register(
                chip.get(spec_timing_register(led, 0)),
                fade_in,
                fade_out,
            )
            &&& after.get(REG_LED_ENABLE) == chip.get(REG_LED_ENABLE) | led.mask()
            &&& forall|position: u8|
                position < 8 ==> #[trigger] bit_is_set(after.get(REG_LED_ENABLE), position) == (
                position == led.ordinal() || bit_is_set(chip.get(REG_LED_ENABLE), position))
            &&& forall|register: u8|
                register != spec_mode_register(led) && register != spec_pwm_register(led)
                    && register != spec_timing_register(led, 0) && register != REG_LED_ENABLE
                    ==> after.get(register) == chip.get(register)
        }),
{
    let fades = fade_commands(led, fade_in) + fade_commands(led, fade_out);
    let mode = driver.mode_command(led, false, fade_in is Some, fade_out is Some);
    let pwm = Command::Write { register: spec_pwm_register(led), value: brightness };
    let faded_in = execute_all(chip, fade_commands(led, fade_in));
    let faded = execute_all(chip, fades);
    let after = execute_all(chip, driver.static_commands(led, brightness, fade_in, fade_out));
    lemma_fade_effect(led, fade_in, chip);
    lemma_fade_effect(led, fade_out, faded_in);
    lemma_execute_all_concat(chip, fade_commands(led, fade_in), fade_commands(led, fade_out));
    lemma_execute_all_concat(chip, fades, seq![mode, pwm, enable_command(led)]);
    lemma_execute_all_triple(faded, mode, pwm, enable_command(led));
    assert forall|register: u8|
        register != spec_mode_register(led) && register != spec_pwm_register(led) && register
            != spec_timing_register(led, 0) && register != REG_LED_ENABLE implies after.get(
        register,
    ) == chip.get(register) by {}
    assert forall|position: u8| position < 8 implies #[trigger] bit_is_set(
        after.get(REG_LED_ENABLE),
        position,
    ) == (position == led.ordinal() || bit_is_set(chip.get(REG_LED_ENABLE), position)) by {
        lemma_set_bit(chip.get(REG_LED_ENABLE), led, position);
    }
}

/// A static channel ends with its enable bit telling whether its brightness
/// is above zero. Every other bit of the enable register keeps its value,
/// and so does every register that is not the channel's own.
pub proof fn lemma_static_enable_bit(
    driver: Aw2013,
    led: Led,
    brightness: u8,
    fade_in: Option<u8>,
    fade_out: Option<u8>,
    chip: Chip,
)
    ensures
        ({
            let after = execute_all(
                chip,
                driver.static_commands(led, brightness, fade_in, fade_out),
            );
            &&& bit_is_set(after.get(REG_LED_ENABLE), led.ordinal()) == (brightness > 0)
            &&& forall|position: u8|
                position < 8 && position != led.ordinal() ==> #[trigger] bit_is_set(
                    after.get(REG_LED_ENABLE),
                    position,
                ) == bit_is_set(chip.get(REG_LED_ENABLE), position)
            &&& forall|register: u8|
                !belongs_to(register, led) && register != REG_LED_ENABLE ==> after.get(register)
                    == chip.get(register)
        }),
{
    lemma_static_sets_one_channel(driver, led, brightness, fade_in, fade_out);
    lemma_one_channel_effect(
        chip,
        driver.static_commands(led, brightness, fade_in, fade_out),
        led,
    );
    lemma_set_bit(chip.get(REG_LED_ENABLE), led, led.ordinal());
    lemma_clear_bit(chip.get(REG_LED_ENABLE), led, led.ordinal());
}

/// A static colour carried out in full is its three channels set one after
/// another, and it ends with the enable bit of each channel telling whether
/// the channel's component is above zero. The other bits of the enable
/// register keep their value, and so does every register that belongs to no
/// channel.
pub proof fn lemma_static_rgb_enable_bits(
    driver: Aw2013,
    rgb: Seq<u8>,
    fade_in: Option<u8>,
    fade_out: Option<u8>,
    chip: Chip,
)
    requires
        rgb.len() == 3,
    ensures
        ({
            let red = driver.static_commands(Led::Led0, rgb[0], fade_in, fade_out);
            let green = driver.static_commands(Led::Led1, rgb[1], fade_in, fade_out);
            let blue = driver.static_commands(Led::Led2, rgb[2], fade_in, fade_out);
            let after = execute_all(chip, driver.static_rgb_commands(rgb, fade_in, fade_out));
            &&& after == execute_all(execute_all(execute_all(chip, red), green), blue)
            &&& forall|led: Led|
                bit_is_set(after.get(REG_LED_ENABLE), #[trigger] led.ordinal()) == (
                rgb[led.ordinal() as int] > 0)
            &&& forall|position: u8|
                3 <= position < 8 ==> #[trigger] bit_is_set(after.get(REG_LED_ENABLE), position)
                    == bit_is_set(chip.get(REG_LED_ENABLE), position)
            &&& forall|register: u8|
                register != REG_LED_ENABLE && !belongs_to(register, Led::Led0) && !belongs_to(
                    register,
                    Led::Led1,
                ) && !belongs_to(register, Led::Led2) ==> after.get(register) == chip.get(
                    register,
                )
        }),
{
    let red = driver.static_commands(Led::Led0, rgb[0], fade_in, fade_out);
    let green = driver.static_commands(Led::Led1, rgb[1], fade_in, fade_out);
    let blue = driver.static_commands(Led::Led2, rgb[2], fade_in, fade_out);
    let one = execute_all(chip, red);
    let two = execute_all(one, green);
    let after = execute_all(two, blue);
    lemma_execute_all_concat(chip, red, green);
    lemma_execute_all_concat(chip, red + green, blue);
    lemma_static_enable_bit(driver, Led::Led0, rgb[0], fade_in, fade_out, chip);
    lemma_static_enable_bit(driver, Led::Led1, rgb[1], fade_in, fade_out, one);
    lemma_static_enable_bit(driver, Led::Led2, rgb[2], fade_in, fade_out, two);
    assert forall|led: Led|
        bit_is_set(after.get(REG_LED_ENABLE), #[trigger] led.ordinal()) == (
        rgb[led.ordinal() as int] > 0) by {
        assert(bit_is_set(two.get(REG_LED_ENABLE), 0) == bit_is_set(one.get(REG_LED_ENABLE), 0));
        assert(bit_is_set(after.get(REG_LED_ENABLE), 0) == bit_is_set(two.get(REG_LED_ENABLE), 0));
        assert(bit_is_set(after.get(REG_LED_ENABLE), 1) == bit_is_set(two.get(REG_LED_ENABLE), 1));
    }
    assert forall|position: u8| 3 <= position < 8 implies #[trigger] bit_is_set(
        after.get(REG_LED_ENABLE),
        position,
    ) == bit_is_set(chip.get(REG_LED_ENABLE), position) by {
        assert(bit_is_set(one.get(REG_LED_ENABLE), position) == bit_is_set(
            chip.get(REG_LED_ENABLE),
            position,
        ));
        assert(bit_is_set(two.get(REG_LED_ENABLE), position) == bit_is_set(
            one.get(REG_LED_ENABLE),
            position,
        ));
    }
}

/// What a breathing brightness above zero leaves in the registers: the
/// brightness, the encoded timing, the mode with the current limit and the
/// breathing bit, and the channel's enable bit set. Every other register
/// keeps its content, and every other bit of the enable register its value.
pub proof fn lemma_breathing_effect(
    driver: Aw2013,
    led: Led,
    brightness: u8,
    timing: Timing,
    chip: Chip,
)
    requires
        brightness > 0,
    ensures
        ({
            let after = execute_all(chip, driver.breathing_commands(led, brightness, timing));
            &&& after.get(spec_pwm_register(led)) == brightness
            &&& after.get(spec_timing_register(led, 0)) == timing.encoding()[0]
            &&& after.get(spec_timing_register(led, 1)) == timing.encoding()[1]
            &&& after.get(spec_timing_register(led, 2)) == timing.encoding()[2]
            &&& after.get(spec_mode_register(led)) == mode_value(
                driver.max_current(led),
                true,
                false,
                false,
            )
            &&& after.get(REG_LED_ENABLE) == chip.get(REG_LED_ENABLE) | led.mask()
            &&& forall|position: u8|
                position < 8 ==> #[trigger] bit_is_set(after.get(REG_LED_ENABLE), position) == (
                position == led.ordinal() || bit_is_set(chip.get(REG_LED_ENABLE), position))
            &&& forall|register: u8|
                !belongs_to(register, led) && register != REG_LED_ENABLE ==> after.get(register)
                    == chip.get(register)
        }),
{
    let mode = driver.mode_command(led, true, false, false);
    let head = seq![disable_command(led)];
    let loaded = head + load_commands(led, brightness, timing);
    let off = execute_all(chip, head);
    let after = execute_all(chip, driver.breathing_commands(led, brightness, timing));
    lemma_execute_all_single(chip, disable_command(led));
    lemma_load_effect(led, brightness, timing, off);
    lemma_execute_all_concat(chip, head, load_commands(led, brightness, timing));
    lemma_execute_all_concat(chip, loaded, seq![mode, enable_command(led)]);
    lemma_execute_all_pair(execute_all(chip, loaded), mode, enable_command(led));
    let enabled = chip.get(REG_LED_ENABLE);
    let mask = led.mask();
    assert((enabled & !mask) | mask == enabled | mask) by (bit_vector);
    assert(after.get(REG_LED_ENABLE) == enabled | mask);
    assert forall|register: u8|
        !belongs_to(register, led) && register != REG_LED_ENABLE implies after.get(register)
        == chip.get(register) by {}
    assert forall|position: u8| position < 8 implies #[trigger] bit_is_set(
        after.get(REG_LED_ENABLE),
        position,
    ) == (position == led.ordinal() || bit_is_set(enabled, position)) by {
        lemma_set_bit(enabled, led, position);
    }
}

/// What a breathing colour leaves in the registers: in the enable register
/// the bitmask of the colour; for each channel its component as brightness,
/// the encoded timing, and the mode with the channel's current limit and
/// the breathing bit. Every other register keeps its content.
pub proof fn lemma_breathing_rgb_effect(
    driver: Aw2013,
    rgb: Seq<u8>,
    timing: Timing,
    chip: Chip,
)
    requires
        rgb.len() == 3,
    ensures
        ({
            let after = execute_all(chip, driver.breathing_rgb_commands(rgb, timing));
            &&& after.get(REG_LED_ENABLE) == active_mask(rgb)
            &&& forall|led: Led|
                after.get(#[trigger] spec_mode_register(led)) == mode_value(
                    driver.max_current(led),
                    true,
                    false,
                    false,
                )
            &&& forall|led: Led|
                after.get(#[trigger] spec_pwm_register(led)) == rgb[led.ordinal() as int]
            &&& forall|led: Led, slot: u8|
                slot < 3 ==> after.get(#[trigger] spec_timing_register(led, slot))
                    == timing.encoding()[slot as int]
            &&& forall|register: u8|
                register != REG_LED_ENABLE && !belongs_to(register, Led::Led0) && !belongs_to(
                    register,
                    Led::Led1,
                ) && !belongs_to(register, Led::Led2) ==> after.get(register) == chip.get(
                    register,
                )
        }),
{
    let clear = Command::Write { register: REG_LED_ENABLE, value: 0 };
    let start = Command::Write { register: REG_LED_ENABLE, value: active_mask(rgb) as u8 };
    let head = seq![
        clear,
        driver.mode_command(Led::Led0, false, false, false),
        driver.mode_command(Led::Led1, false, false, false),
        driver.mode_command(Led::Led2, false, false, false),
    ];
    let tail = seq![
        driver.mode_command(Led::Led0, true, false, false),
        driver.mode_command(Led::Led1, true, false, false),
        driver.mode_command(Led::Led2, true, false, false),
        start,
    ];
    let red = load_commands(Led::Led0, rgb[0], timing);
    let green = load_commands(Led::Led1, rgb[1], timing);
    let blue = load_commands(Led::Led2, rgb[2], timing);
    let cleared = execute_all(chip, head);
    let one = execute_all(chip, head + red);
    let two = execute_all(chip, head + red + green);
    let three = execute_all(chip, head + red + green + blue);
    let after = execute_all(chip, head + red + green + blue + tail);
    lemma_execute_all_quad(
        chip,
        clear,
        driver.mode_command(Led::Led0, false, false, false),
        driver.mode_command(Led::Led1, false, false, false),
        driver.mode_command(Led::Led2, false, false, false),
    );
    lemma_execute_all_concat(chip, head, red);
    lemma_load_effect(Led::Led0, rgb[0], timing, cleared);
    lemma_execute_all_concat(chip, head + red, green);
    lemma_load_effect(Led::Led1, rgb[1], timing, one);
    lemma_execute_all_concat(chip, head + red + green, blue);
    lemma_load_effect(Led::Led2, rgb[2], timing, two);
    lemma_execute_all_concat(chip, head + red + green + blue, tail);
    lemma_execute_all_quad(
        three,
        driver.mode_command(Led::Led0, true, false, false),
        driver.mode_command(Led::Led1, true, false, false),
        driver.mode_command(Led::Led2, true, false, false),
        start,
    );
    assert forall|led: Led|
        after.get(#[trigger] spec_mode_register(led)) == mode_value(
            driver.max_current(led),
            true,
            false,
            false,
        ) by {}
    assert forall|led: Led|
        after.get(#[trigger] spec_pwm_register(led)) == rgb[led.ordinal() as int] by {}
    assert forall|led: Led, slot: u8| slot < 3 implies after.get(
        #[trigger] spec_timing_register(led, slot),
    ) == timing.encoding()[slot as int] by {}
    assert forall|register: u8|
        register != REG_LED_ENABLE && !belongs_to(register, Led::Led0) && !belongs_to(
            register,
            Led::Led1,
        ) && !belongs_to(register, Led::Led2) implies after.get(register) == chip.get(
        register,
    ) by {}
}

} // verus!
