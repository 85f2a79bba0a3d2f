//! Why the commands of an operation come in the order they do, and what a
//! failure on the way leaves behind.
//!
//! No operation is atomic: the first transfer that fails ends it, and the
//! commands carried out before stay in effect. The statements here speak of
//! `completed`, the number of commands carried out when the operation
//! ended, and hold wherever the failure struck.

use vstd::prelude::*;
use crate::chip::{
    bit_is_set, execute_all, lemma_clear_bit, lemma_execute_all_concat, lemma_execute_all_frame,
    lemma_execute_all_single, lemma_set_bit, module_enabled, Chip,
};
use crate::command::Command;
use crate::driver::{active_mask, disable_command, enable_command, load_commands, Aw2013};
use crate::led::Led;
use crate::registers::{
    belongs_to, lemma_register_map_disjoint, spec_mode_register, LED_RESET_MASK,
    REG_GLOBAL_CONTROL, REG_LED_ENABLE, REG_RESET,
};
use crate::timing::Timing;

verus! {

/// No command writes the reset register or the global control register.
pub open spec fn spares_global_registers(commands: Seq<Command>) -> bool {
    forall|i: int|
        0 <= i < commands.len() ==> (#[trigger] commands[i]).register() != REG_RESET
            && commands[i].register() != REG_GLOBAL_CONTROL
}

/// Every command but the last is a plain write to a register of `led`, and
/// the last command switches `led` on or off.
pub open spec fn sets_one_channel(commands: Seq<Command>, led: Led) -> bool {
    &&& commands.len() >= 1
    &&& forall|i: int|
        0 <= i < commands.len() - 1 ==> (#[trigger] commands[i]) is Write && belongs_to(
            commands[i].register(),
            led,
        )
    &&& commands.last() == enable_command(led) || commands.last() == disable_command(led)
}

/// A static brightness writes the channel's own registers first and changes
/// the channel's bit in the enable register last: the channel is switched
/// on only when its mode and brightness are in place.
pub proof fn lemma_static_sets_one_channel(
    driver: Aw2013,
    led: Led,
    brightness: u8,
    fade_in: Option<u8>,
    fade_out: Option<u8>,
)
    ensures
        sets_one_channel(driver.static_commands(led, brightness, fade_in, fade_out), led),
        driver.static_commands(led, brightness, fade_in, fade_out).last() == (if brightness == 0 {
            disable_command(led)
        } else {
            enable_command(led)
        }),
{
}

/// A breathing brightness switches the channel off first. Above zero it
/// then writes the channel's own registers and switches the channel on
/// last.
pub proof fn lemma_breathing_sets_one_channel(
    driver: Aw2013,
    led: Led,
    brightness: u8,
    timing: Timing,
)
    ensures
        driver.breathing_commands(led, brightness, timing).first() == disable_command(led),
        brightness > 0 ==> sets_one_channel(
            driver.breathing_commands(led, brightness, timing).drop_first(),
            led,
        ) && driver.breathing_commands(led, brightness, timing).last() == enable_command(led),
{
}

/// Commands that set one channel change nothing but that channel's own
/// registers and its bit in the enable register.
pub proof fn lemma_one_channel_effect(chip: Chip, commands: Seq<Command>, led: Led)
    requires
        sets_one_channel(commands, led),
    ensures
        ({
            let after = execute_all(chip, commands);
            &&& after.get(REG_LED_ENABLE) == commands.last().value_after(
                chip.get(REG_LED_ENABLE),
            )
            &&& forall|register: u8|
                !belongs_to(register, led) && register != REG_LED_ENABLE ==> after.get(register)
                    == chip.get(register)
            &&& forall|position: u8|
                position < 8 && position != led.ordinal() ==> #[trigger] bit_is_set(
                    after.get(REG_LED_ENABLE),
                    position,
                ) == bit_is_set(chip.get(REG_LED_ENABLE), position)
        }),
{
    let writes = commands.drop_last();
    let after = execute_all(chip, commands);
    assert forall|register: u8| !belongs_to(register, led) implies execute_all(
        chip,
        writes,
    ).get(register) == chip.get(register) by {
        assert forall|i: int| 0 <= i < writes.len() implies (#[trigger] writes[i]).register()
            != register by {
            assert(writes[i] == commands[i]);
        }
        lemma_execute_all_frame(chip, writes, register);
    }
    lemma_register_map_disjoint(led, led, spec_mode_register(led));
    assert(!belongs_to(REG_LED_ENABLE, led));
    assert forall|position: u8|
        position < 8 && position != led.ordinal() implies #[trigger] bit_is_set(
        after.get(REG_LED_ENABLE),
        position,
    ) == bit_is_set(chip.get(REG_LED_ENABLE), position) by {
        lemma_set_bit(chip.get(REG_LED_ENABLE), led, position);
        lemma_clear_bit(chip.get(REG_LED_ENABLE), led, position);
    }
}

/// A breathing colour writes the enable register twice: the first command
/// clears it, and the last command sets it to the bitmask of the colour. In
/// that bitmask the bit of a channel is set if and only if the channel's
/// component is above zero. No command in between touches the register, so
/// all channels start on that one last write.
pub proof fn lemma_breathing_rgb_enable(driver: Aw2013, rgb: Seq<u8>, timing: Timing)
    requires
        rgb.len() == 3,
    ensures
        ({
            let commands = driver.breathing_rgb_commands(rgb, timing);
            &&& commands.len() == 20
            &&& commands.first() == Command::Write { register: REG_LED_ENABLE, value: 0 }
            &&& commands.last() == Command::Write {
                register: REG_LED_ENABLE,
                value: active_mask(rgb) as u8,
            }
            &&& forall|i: int|
                0 < i < commands.len() - 1 ==> (#[trigger] commands[i]).register()
                    != REG_LED_ENABLE
        }),
        0 <= active_mask(rgb) <= 7,
        forall|led: Led|
            bit_is_set(active_mask(rgb) as u8, #[trigger] led.ordinal()) == (
            rgb[led.ordinal() as int] > 0),
        forall|position: u8|
            3 <= position < 8 ==> !#[trigger] bit_is_set(active_mask(rgb) as u8, position),
{
    let mask = active_mask(rgb) as u8;
    assert forall|position: u8| position < 8 implies bit_is_set(mask, position) == (position < 3
        && match position {
        0 => mask % 2 == 1,
        1 => (mask / 2) % 2 == 1,
        _ => mask / 4 == 1,
    }) by {
        assert(mask <= 7 && position < 8 ==> ((mask & (1u8 << position) != 0) == (position < 3
            && match position {
            0u8 => mask % 2 == 1,
            1u8 => (mask / 2) % 2 == 1,
            _ => mask / 4 == 1,
        }))) by (bit_vector);
    }
    assert forall|led: Led|
        bit_is_set(mask, #[trigger] led.ordinal()) == (rgb[led.ordinal() as int] > 0) by {
        assert(led.ordinal() < 8);
    }
}

/// Two lists that spare the global registers still spare them when joined.
pub proof fn lemma_spares_concat(first: Seq<Command>, second: Seq<Command>)
    requires
        spares_global_registers(first),
        spares_global_registers(second),
    ensures
        spares_global_registers(first + second),
{
    let joined = first + second;
    assert forall|i: int| 0 <= i < joined.len() implies (#[trigger] joined[i]).register()
        != REG_RESET && joined[i].register() != REG_GLOBAL_CONTROL by {
        if i < first.len() {
            assert(joined[i] == first[i]);
        } else {
            assert(joined[i] == second[i - first.len()]);
        }
    }
}

/// Setting the brightness of one channel, static or breathing, never writes
/// the reset register or the global control register.
pub proof fn lemma_channel_spares_global_registers(
    driver: Aw2013,
    led: Led,
    brightness: u8,
    fade_in: Option<u8>,
    fade_out: Option<u8>,
    timing: Timing,
)
    ensures
        spares_global_registers(driver.static_commands(led, brightness, fade_in, fade_out)),
        spares_global_registers(driver.breathing_commands(led, brightness, timing)),
        spares_global_registers(load_commands(led, brightness, timing)),
{
}

/// Setting a colour, static or breathing, never writes the reset register
/// or the global control register.
pub proof fn lemma_colour_spares_global_registers(
    driver: Aw2013,
    rgb: Seq<u8>,
    fade_in: Option<u8>,
    fade_out: Option<u8>,
    timing: Timing,
)
    ensures
        spares_global_registers(driver.static_rgb_commands(rgb, fade_in, fade_out)),
        spares_global_registers(driver.breathing_rgb_commands(rgb, timing)),
{
    let red = driver.static_commands(Led::Led0, rgb[0], fade_in, fade_out);
    let green = driver.static_commands(Led::Led1, rgb[1], fade_in, fade_out);
    let blue = driver.static_commands(Led::Led2, rgb[2], fade_in, fade_out);
    lemma_channel_spares_global_registers(driver, Led::Led0, rgb[0], fade_in, fade_out, timing);
    lemma_channel_spares_global_registers(driver, Led::Led1, rgb[1], fade_in, fade_out, timing);
    lemma_channel_spares_global_registers(driver, Led::Led2, rgb[2], fade_in, fade_out, timing);
    lemma_spares_concat(red, green);
    lemma_spares_concat(red + green, blue);

    let head = seq![
        Command::Write { register: REG_LED_ENABLE, value: 0 },
        driver.mode_command(Led::Led0, false, false, false),
        driver.mode_command(Led::Led1, false, false, false),
        driver.mode_command(Led::Led2, false, false, false),
    ];
    let tail = seq![
        driver.mode_command(Led::Led0, true, false, false),
        driver.mode_command(Led::Led1, true, false, false),
        driver.mode_command(Led::Led2, true, false, false),
        Command::Write { register: REG_LED_ENABLE, value: active_mask(rgb) as u8 },
    ];
    let first = load_commands(Led::Led0, rgb[0], timing);
    let second = load_commands(Led::Led1, rgb[1], timing);
    let third = load_commands(Led::Led2, rgb[2], timing);
    lemma_spares_concat(head, first);
    lemma_spares_concat(head + first, second);
    lemma_spares_concat(head + first + second, third);
    lemma_spares_concat(head + first + second + third, tail);
}

/// Commands that spare the reset and global control registers leave both as
/// they are, wherever a failure may stop the operation.
pub proof fn lemma_global_registers_kept(
    chip: Chip,
    commands: Seq<Command>,
    completed: int,
)
    requires
        spares_global_registers(commands),
        0 <= completed <= commands.len(),
    ensures
        execute_all(chip, commands.take(completed)).get(REG_GLOBAL_CONTROL) == chip.get(
            REG_GLOBAL_CONTROL,
        ),
        execute_all(chip, commands.take(completed)).get(REG_RESET) == chip.get(
            REG_RESET,
        ),
        module_enabled(execute_all(chip, commands.take(completed))) == module_enabled(
            chip,
        ),
{
    lemma_execute_all_frame(chip, commands.take(completed), REG_GLOBAL_CONTROL);
    lemma_execute_all_frame(chip, commands.take(completed), REG_RESET);
}

/// A chip whose LED module is disabled stays so through every operation
/// that sets brightness, wherever a failure may stop the operation.
pub proof fn lemma_module_stays_disabled(
    driver: Aw2013,
    led: Led,
    brightness: u8,
    rgb: Seq<u8>,
    fade_in: Option<u8>,
    fade_out: Option<u8>,
    timing: Timing,
    commands: Seq<Command>,
    chip: Chip,
    completed: int,
)
    requires
        !module_enabled(chip),
        commands == driver.static_commands(led, brightness, fade_in, fade_out) || commands
            == driver.static_rgb_commands(rgb, fade_in, fade_out) || commands
            == driver.breathing_commands(led, brightness, timing) || commands
            == driver.breathing_rgb_commands(rgb, timing),
        0 <= completed <= commands.len(),
    ensures
        !module_enabled(execute_all(chip, commands.take(completed))),
{
    lemma_channel_spares_global_registers(driver, led, brightness, fade_in, fade_out, timing);
    lemma_colour_spares_global_registers(driver, rgb, fade_in, fade_out, timing);
    lemma_global_registers_kept(chip, commands, completed);
}

/// A reset followed by an operation that sets brightness, with no enabling
/// of the LED module in between, leaves the module disabled: the channels
/// are set, yet emit nothing. This holds wherever a failure may stop the
/// second operation.
pub proof fn lemma_reset_then_brightness(
    driver: Aw2013,
    led: Led,
    brightness: u8,
    rgb: Seq<u8>,
    fade_in: Option<u8>,
    fade_out: Option<u8>,
    timing: Timing,
    commands: Seq<Command>,
    chip: Chip,
    completed: int,
)
    requires
        chip.wf(),
        commands == driver.static_commands(led, brightness, fade_in, fade_out) || commands
            == driver.static_rgb_commands(rgb, fade_in, fade_out) || commands
            == driver.breathing_commands(led, brightness, timing) || commands
            == driver.breathing_rgb_commands(rgb, timing),
        0 <= completed <= commands.len(),
    ensures
        !module_enabled(
            execute_all(
                execute_all(
                    chip,
                    seq![Command::Write { register: REG_RESET, value: LED_RESET_MASK }],
                ),
                commands.take(completed),
            ),
        ),
{
    let reset = Command::Write { register: REG_RESET, value: LED_RESET_MASK };
    lemma_execute_all_single(chip, reset);
    lemma_module_stays_disabled(
        driver,
        led,
        brightness,
        rgb,
        fade_in,
        fade_out,
        timing,
        commands,
        execute_all(chip, seq![reset]),
        completed,
    );
}

/// A static colour that fails while the second channel is being set leaves
/// the first channel set and the third untouched.
///
/// `completed` counts the commands carried out before the failure; it lies
/// among the commands of the second channel. Outside the second channel's
/// own registers the chip is then as setting the first channel alone would
/// leave it: the registers of the third channel hold what they held, and in
/// the enable register only the bit of the first channel may have changed.
/// If the failure struck the very first command of the second channel, the
/// second channel's registers are untouched as well.
pub proof fn lemma_static_rgb_partial(
    driver: Aw2013,
    rgb: Seq<u8>,
    fade_in: Option<u8>,
    fade_out: Option<u8>,
    chip: Chip,
    completed: int,
)
    requires
        driver.static_commands(Led::Led0, rgb[0], fade_in, fade_out).len() <= completed,
        completed < driver.static_commands(Led::Led0, rgb[0], fade_in, fade_out).len()
            + driver.static_commands(Led::Led1, rgb[1], fade_in, fade_out).len(),
    ensures
        ({
            let red = driver.static_commands(Led::Led0, rgb[0], fade_in, fade_out);
            let green = driver.static_commands(Led::Led1, rgb[1], fade_in, fade_out);
            let all = driver.static_rgb_commands(rgb, fade_in, fade_out);
            let after = execute_all(chip, all.take(completed));
            let alone = execute_all(chip, red);
            &&& all.take(completed) == red + green.take(completed - red.len())
            &&& forall|register: u8|
                !belongs_to(register, Led::Led1) ==> after.get(register) == alone.get(register)
            &&& forall|register: u8|
                belongs_to(register, Led::Led2) ==> after.get(register) == chip.get(register)
            &&& forall|position: u8|
                1 <= position < 8 ==> #[trigger] bit_is_set(after.get(REG_LED_ENABLE), position)
                    == bit_is_set(chip.get(REG_LED_ENABLE), position)
            &&& completed == red.len() ==> after == alone && forall|register: u8|
                belongs_to(register, Led::Led1) ==> after.get(register) == chip.get(register)
        }),
{
    let red = driver.static_commands(Led::Led0, rgb[0], fade_in, fade_out);
    let green = driver.static_commands(Led::Led1, rgb[1], fade_in, fade_out);
    let all = driver.static_rgb_commands(rgb, fade_in, fade_out);
    let begun = green.take(completed - red.len());
    let alone = execute_all(chip, red);
    let after = execute_all(chip, all.take(completed));
    assert(all.take(completed) =~= red + begun);
    lemma_execute_all_concat(chip, red, begun);
    lemma_static_sets_one_channel(driver, Led::Led0, rgb[0], fade_in, fade_out);
    lemma_static_sets_one_channel(driver, Led::Led1, rgb[1], fade_in, fade_out);
    lemma_one_channel_effect(chip, red, Led::Led0);
    assert forall|register: u8| !belongs_to(register, Led::Led1) implies after.get(register)
        == alone.get(register) by {
        assert forall|i: int| 0 <= i < begun.len() implies (#[trigger] begun[i]).register()
            != register by {
            assert(begun[i] == green[i]);
        }
        lemma_execute_all_frame(alone, begun, register);
    }
    assert forall|register: u8| belongs_to(register, Led::Led2) implies after.get(register)
        == chip.get(register) by {
        lemma_register_map_disjoint(Led::Led2, Led::Led1, register);
        lemma_register_map_disjoint(Led::Led2, Led::Led0, register);
    }
    lemma_register_map_disjoint(Led::Led1, Led::Led1, spec_mode_register(Led::Led1));
    assert(!belongs_to(REG_LED_ENABLE, Led::Led1));
    if completed == red.len() {
        assert(begun =~= Seq::<Command>::empty());
        assert forall|register: u8| belongs_to(register, Led::Led1) implies after.get(register)
            == chip.get(register) by {
            lemma_register_map_disjoint(Led::Led1, Led::Led0, register);
        }
    }
}

/// While a breathing channel is being set it stays switched off: from the
/// first command carried out until the last one, the channel's bit in the
/// enable register is clear, whatever it was before.
pub proof fn lemma_breathing_off_while_set(
    driver: Aw2013,
    led: Led,
    brightness: u8,
    timing: Timing,
    chip: Chip,
    completed: int,
)
    requires
        brightness > 0,
        1 <= completed < driver.breathing_commands(led, brightness, timing).len(),
    ensures
        !bit_is_set(
            execute_all(
                chip,
                driver.breathing_commands(led, brightness, timing).take(completed),
            ).get(REG_LED_ENABLE),
            led.ordinal(),
        ),
{
    let commands = driver.breathing_commands(led, brightness, timing);
    let rest = commands.drop_first().take(completed - 1);
    lemma_breathing_sets_one_channel(driver, led, brightness, timing);
    assert(commands.take(completed) =~= seq![disable_command(led)] + rest);
    lemma_execute_all_concat(chip, seq![disable_command(led)], rest);
    lemma_execute_all_single(chip, disable_command(led));
    let off = execute_all(chip, seq![disable_command(led)]);
    lemma_register_map_disjoint(led, led, spec_mode_register(led));
    assert forall|i: int| 0 <= i < rest.len() implies (#[trigger] rest[i]).register()
        != REG_LED_ENABLE by {
        assert(rest[i] == commands.drop_first()[i]);
    }
    lemma_execute_all_frame(off, rest, REG_LED_ENABLE);
    lemma_clear_bit(chip.get(REG_LED_ENABLE), led, led.ordinal());
}

/// While a breathing colour is being set all channels stay switched off:
/// from the first command carried out until the last one, the enable
/// register holds zero.
pub proof fn lemma_breathing_rgb_off_while_set(
    driver: Aw2013,
    rgb: Seq<u8>,
    timing: Timing,
    chip: Chip,
    completed: int,
)
    requires
        rgb.len() == 3,
        1 <= completed < driver.breathing_rgb_commands(rgb, timing).len(),
    ensures
        execute_all(chip, driver.breathing_rgb_commands(rgb, timing).take(completed)).get(
            REG_LED_ENABLE,
        ) == 0,
{
    let commands = driver.breathing_rgb_commands(rgb, timing);
    let clear = Command::Write { register: REG_LED_ENABLE, value: 0 };
    let rest = commands.drop_first().take(completed - 1);
    lemma_breathing_rgb_enable(driver, rgb, timing);
    assert(commands.take(completed) =~= seq![clear] + rest);
    lemma_execute_all_concat(chip, seq![clear], rest);
    lemma_execute_all_single(chip, clear);
    assert forall|i: int| 0 <= i < rest.len() implies (#[trigger] rest[i]).register()
        != REG_LED_ENABLE by {
        assert(rest[i] == commands[i + 1]);
    }
    lemma_execute_all_frame(execute_all(chip, seq![clear]), rest, REG_LED_ENABLE);
}

} // verus!
