//! The driver: lighting intents turned into ordered register commands.
//!
//! Every method of [`Aw2013`] returns the [`Operation`] that carries the
//! intent out; none of them touches the bus. The order of the commands
//! matters: a channel's mode and brightness are written before the channel
//! is switched on, so that no stale value is shown, and a breathing channel
//! is switched off before its timing is changed.
//!
//! The driver keeps no copy of the chip's state. To switch one channel on or
//! off it has the shared enable register read and written back, so that the
//! other channels stay as they are. The caller must therefore serialise all
//! access to one chip: two operations that run interleaved can lose an
//! update of that register.

use vstd::prelude::*;
use crate::command::Command;
use crate::led::{Current, Led};
use crate::operation::{Operation, Progress};
use crate::registers::{
    mode_register, pwm_register, timing_register, DEFAULT_ADDRESS, LED_BREATHE_MODE_MASK,
    LED_FADE_IN_MASK, LED_FADE_OUT_MASK, LED_MODULE_ENABLE_MASK, LED_RESET_MASK,
    REG_GLOBAL_CONTROL, REG_LED_ENABLE, REG_RESET,
};
use crate::timing::{clamp, clamped, pack, packed, Timing, MAX_FADE};

verus! {

/// The command that switches `led` on and leaves the other channels alone.
pub open spec fn enable_command(led: Led) -> Command {
    Command::SetBits { register: REG_LED_ENABLE, mask: led.mask() }
}

/// The command that switches `led` off and leaves the other channels alone.
pub open spec fn disable_command(led: Led) -> Command {
    Command::ClearBits { register: REG_LED_ENABLE, mask: led.mask() }
}

/// The value of a flag bit: `mask` if the flag is set, else zero.
pub open spec fn flag(set: bool, mask: u8) -> int {
    if set {
        mask as int
    } else {
        0
    }
}

/// The contents of a mode register: the current limit in bits 0 and 1,
/// breathing mode in bit 4, fade-in in bit 5, fade-out in bit 6.
pub open spec fn mode_value(current: Current, breathe: bool, fade_in: bool, fade_out: bool) -> int {
    current.field() + flag(breathe, LED_BREATHE_MODE_MASK) + flag(fade_in, LED_FADE_IN_MASK)
        + flag(fade_out, LED_FADE_OUT_MASK)
}

/// The write that sets the fade period of a static channel, if one is
/// given: the period, clamped, goes to the high nibble of the channel's
/// first timing register, and the low nibble is cleared.
pub open spec fn fade_commands(led: Led, fade: Option<u8>) -> Seq<Command> {
    match fade {
        Some(period) => seq![
            Command::Write {
                register: timing_register(led, 0),
                value: packed(clamped(period, MAX_FADE), 0) as u8,
            },
        ],
        None => seq![],
    }
}

/// The writes that load a channel's three timing registers.
pub open spec fn timing_commands(led: Led, timing: Timing) -> Seq<Command> {
    seq![
        Command::Write { register: timing_register(led, 0), value: timing.encoding()[0] },
        Command::Write { register: timing_register(led, 1), value: timing.encoding()[1] },
        Command::Write { register: timing_register(led, 2), value: timing.encoding()[2] },
    ]
}

/// The writes that load brightness and timing of one channel of a breathing
/// colour.
pub open spec fn load_commands(led: Led, brightness: u8, timing: Timing) -> Seq<Command> {
    seq![Command::Write { register: pwm_register(led), value: brightness }]
        + timing_commands(led, timing)
}

/// The enable bit of `led` if its brightness is above zero, else no bit.
pub open spec fn lit(led: Led, brightness: u8) -> int {
    flag(brightness > 0, led.mask())
}

/// The enable bitmask of a colour: the sum of the enable bits of the
/// channels whose component is above zero.
pub open spec fn active_mask(rgb: Seq<u8>) -> int
    recommends
        rgb.len() == 3,
{
    lit(Led::Led0, rgb[0]) + lit(Led::Led1, rgb[1]) + lit(Led::Led2, rgb[2])
}

/// A driver for one AW2013 chip: its bus address and the current limit of
/// each channel, both fixed when the driver is made.
pub struct Aw2013 {
    address: u8,
    max_currents: [Current; 3],
}

impl Aw2013 {
    /// Bus address of the chip.
    pub closed spec fn address(&self) -> u8 {
        self.address
    }

    /// The current limit of each channel, by the channel's ordinal.
    pub closed spec fn max_currents(&self) -> Seq<Current> {
        self.max_currents@
    }

    /// The current limit of `led`.
    pub open spec fn max_current(&self, led: Led) -> Current {
        self.max_currents()[led.ordinal() as int]
    }

    /// The write that sets the mode register of `led`: the channel's
    /// current limit and the given mode bits.
    pub open spec fn mode_command(
        &self,
        led: Led,
        breathe: bool,
        fade_in: bool,
        fade_out: bool,
    ) -> Command {
        Command::Write {
            register: mode_register(led),
            value: mode_value(self.max_current(led), breathe, fade_in, fade_out) as u8,
        }
    }

    /// The commands of [`Aw2013::set_static`].
    ///
    /// Brightness zero switches the channel off and touches nothing else.
    /// Otherwise the fade periods are written first (both to the same
    /// register, so that of two periods the fade-out period stays), then the
    /// mode, then the brightness, and only then is the channel switched on.
    pub open spec fn static_commands(
        &self,
        led: Led,
        brightness: u8,
        fade_in: Option<u8>,
        fade_out: Option<u8>,
    ) -> Seq<Command> {
        if brightness == 0 {
            seq![disable_command(led)]
        } else {
            fade_commands(led, fade_in) + fade_commands(led, fade_out) + seq![
                self.mode_command(led, false, fade_in is Some, fade_out is Some),
                Command::Write { register: pwm_register(led), value: brightness },
                enable_command(led),
            ]
        }
    }

    /// The commands of [`Aw2013::set_static_rgb`]: the three channels in
    /// order, each as [`Aw2013::set_static`] sets it.
    pub open spec fn static_rgb_commands(
        &self,
        rgb: Seq<u8>,
        fade_in: Option<u8>,
        fade_out: Option<u8>,
    ) -> Seq<Command>
        recommends
            rgb.len() == 3,
    {
        self.static_commands(Led::Led0, rgb[0], fade_in, fade_out)
            + self.static_commands(Led::Led1, rgb[1], fade_in, fade_out)
            + self.static_commands(Led::Led2, rgb[2], fade_in, fade_out)
    }

    /// The commands of [`Aw2013::set_breathing`].
    ///
    /// The channel is switched off first, whatever the brightness. With
    /// brightness zero that is all. Otherwise brightness, timing and mode
    /// are written, and the channel is switched on again.
    pub open spec fn breathing_commands(
        &self,
        led: Led,
        brightness: u8,
        timing: Timing,
    ) -> Seq<Command> {
        if brightness == 0 {
            seq![disable_command(led)]
        } else {
            seq![disable_command(led)] + load_commands(led, brightness, timing) + seq![
                self.mode_command(led, true, false, false),
                enable_command(led),
            ]
        }
    }

    /// The commands of [`Aw2013::set_breathing_rgb`].
    ///
    /// All channels are switched off with one write. Every mode register is
    /// set to its current limit alone. Brightness and timing are loaded
    /// channel by channel. Every mode register is written again, now with
    /// the breathing bit. One last write switches on the channels whose
    /// component is above zero, so that they start their cycles together.
    pub open spec fn breathing_rgb_commands(&self, rgb: Seq<u8>, timing: Timing) -> Seq<Command>
        recommends
            rgb.len() == 3,
    {
        seq![
            Command::Write { register: REG_LED_ENABLE, value: 0 },
            self.mode_command(Led::Led0, false, false, false),
            self.mode_command(Led::Led1, false, false, false),
            self.mode_command(Led::Led2, false, false, false),
        ] + load_commands(Led::Led0, rgb[0], timing) + load_commands(Led::Led1, rgb[1], timing)
            + load_commands(Led::Led2, rgb[2], timing) + seq![
            self.mode_command(Led::Led0, true, false, false),
            self.mode_command(Led::Led1, true, false, false),
            self.mode_command(Led::Led2, true, false, false),
            Command::Write { register: REG_LED_ENABLE, value: active_mask(rgb) as u8 },
        ]
    }

    /// A driver for the chip at bus address `address`.
    pub fn new(address: u8, max_currents: [Current; 3]) -> (driver: Self)
        ensures
            driver.address() == address,
            driver.max_currents() == max_currents@,
    {
        Self { address, max_currents }
    }

    /// A driver for the chip at the default bus address.
    pub fn from_default_address(max_currents: [Current; 3]) -> (driver: Self)
        ensures
            driver.address() == DEFAULT_ADDRESS,
            driver.max_currents() == max_currents@,
    {
        Aw2013::new(DEFAULT_ADDRESS, max_currents)
    }

    /// Resets the chip to its power-on state, in which the LED module is
    /// disabled: [`Aw2013::enable`] it again before further use.
    pub fn reset(&self) -> (operation: Operation)
        ensures
            operation@ == Progress::start(
                self.address(),
                seq![Command::Write { register: REG_RESET, value: LED_RESET_MASK }],
            ),
    {
        self.write_register(REG_RESET, LED_RESET_MASK)
    }

    /// Enables the LED module.
    pub fn enable(&self) -> (operation: Operation)
        ensures
            operation@ == Progress::start(
                self.address(),
                seq![
                    Command::Write { register: REG_GLOBAL_CONTROL, value: LED_MODULE_ENABLE_MASK },
                ],
            ),
    {
        self.write_register(REG_GLOBAL_CONTROL, LED_MODULE_ENABLE_MASK)
    }

    /// Disables the LED module.
    pub fn disable(&self) -> (operation: Operation)
        ensures
            operation@ == Progress::start(
                self.address(),
                seq![Command::Write { register: REG_GLOBAL_CONTROL, value: 0 }],
            ),
    {
        self.write_register(REG_GLOBAL_CONTROL, 0)
    }

    /// Sets a static colour: [`Aw2013::set_static`] for channels 0, 1 and 2
    /// in this order, with the same fades. If a transfer fails, the channels
    /// set before it keep their new value and the others their old one.
    pub fn set_static_rgb(
        &self,
        rgb: [u8; 3],
        fade_in: Option<u8>,
        fade_out: Option<u8>,
    ) -> (operation: Operation)
        ensures
            operation@ == Progress::start(
                self.address(),
                self.static_rgb_commands(rgb@, fade_in, fade_out),
            ),
    {
        let mut commands: Vec<Command> = Vec::new();
        self.push_static(&mut commands, Led::Led0, rgb[0], fade_in, fade_out);
        self.push_static(&mut commands, Led::Led1, rgb[1], fade_in, fade_out);
        self.push_static(&mut commands, Led::Led2, rgb[2], fade_in, fade_out);
        Operation::new(self.address, commands)
    }

    /// Sets a static brightness for one channel, with optional fade-in and
    /// fade-out periods. Brightness zero switches the channel off.
    pub fn set_static(
        &self,
        led: Led,
        brightness: u8,
        fade_in: Option<u8>,
        fade_out: Option<u8>,
    ) -> (operation: Operation)
        ensures
            operation@ == Progress::start(
                self.address(),
                self.static_commands(led, brightness, fade_in, fade_out),
            ),
    {
        let mut commands: Vec<Command> = Vec::new();
        self.push_static(&mut commands, led, brightness, fade_in, fade_out);
        Operation::new(self.address, commands)
    }

    /// Sets a breathing colour: one timing for all three channels, which
    /// start their cycles on the same write to the enable register.
    pub fn set_breathing_rgb(&self, rgb: [u8; 3], timing: &Timing) -> (operation: Operation)
        ensures
            operation@ == Progress::start(
                self.address(),
                self.breathing_rgb_commands(rgb@, *timing),
            ),
    {
        let mut commands: Vec<Command> = Vec::new();
        commands.push(Command::Write { register: REG_LED_ENABLE, value: 0 });

        commands.push(self.mode(Led::Led0, false, false, false));
        commands.push(self.mode(Led::Led1, false, false, false));
        commands.push(self.mode(Led::Led2, false, false, false));

        push_load(&mut commands, Led::Led0, rgb[0], timing);
        push_load(&mut commands, Led::Led1, rgb[1], timing);
        push_load(&mut commands, Led::Led2, rgb[2], timing);

        commands.push(self.mode(Led::Led0, true, false, false));
        commands.push(self.mode(Led::Led1, true, false, false));
        commands.push(self.mode(Led::Led2, true, false, false));

        let active_leds: u8 = enable_mask(rgb);
        commands.push(Command::Write { register: REG_LED_ENABLE, value: active_leds });
        assert(commands@ =~= self.breathing_rgb_commands(rgb@, *timing));
        Operation::new(self.address, commands)
    }

    /// Starts a breathing cycle on one channel. Brightness zero leaves the
    /// channel switched off.
    pub fn set_breathing(&self, led: Led, brightness: u8, timing: &Timing) -> (operation: Operation)
        ensures
            operation@ == Progress::start(
                self.address(),
                self.breathing_commands(led, brightness, *timing),
            ),
    {
        let mut commands: Vec<Command> = Vec::new();
        commands.push(disable_led(led));
        if brightness == 0 {
            return Operation::new(self.address, commands);
        }
        push_load(&mut commands, led, brightness, timing);
        commands.push(self.mode(led, true, false, false));
        commands.push(enable_led(led));
        assert(commands@ =~= self.breathing_commands(led, brightness, *timing));
        Operation::new(self.address, commands)
    }

    /// Loads the three timing registers of one channel.
    pub fn configure_timing(&self, led: Led, timing: &Timing) -> (operation: Operation)
        ensures
            operation@ == Progress::start(self.address(), timing_commands(led, *timing)),
    {
        let mut commands: Vec<Command> = Vec::new();
        push_timing(&mut commands, led, timing);
        Operation::new(self.address, commands)
    }

    /// Switches one channel off and leaves the other channels alone.
    pub fn disable_led(&self, led: Led) -> (operation: Operation)
        ensures
            operation@ == Progress::start(self.address(), seq![disable_command(led)]),
    {
        let mut commands: Vec<Command> = Vec::new();
        commands.push(disable_led(led));
        Operation::new(self.address, commands)
    }

    /// Switches one channel on and leaves the other channels alone.
    pub fn enable_led(&self, led: Led) -> (operation: Operation)
        ensures
            operation@ == Progress::start(self.address(), seq![enable_command(led)]),
    {
        let mut commands: Vec<Command> = Vec::new();
        commands.push(enable_led(led));
        Operation::new(self.address, commands)
    }

    /// Stores `data` in the register at `address`.
    pub fn write_register(&self, address: u8, data: u8) -> (operation: Operation)
        ensures
            operation@ == Progress::start(
                self.address(),
                seq![Command::Write { register: address, value: data }],
            ),
    {
        let mut commands: Vec<Command> = Vec::new();
        commands.push(Command::Write { register: address, value: data });
        Operation::new(self.address, commands)
    }

    /// The write of the mode register of `led`.
    fn mode(&self, led: Led, breathe: bool, fade_in: bool, fade_out: bool) -> (command: Command)
        ensures
            command == self.mode_command(led, breathe, fade_in, fade_out),
    {
        let current: Current = self.max_currents[led.index() as usize];
        Command::Write {
            register: mode_register(led),
            value: mode_byte(current, breathe, fade_in, fade_out),
        }
    }

    /// Appends the commands of a static channel.
    fn push_static(
        &self,
        commands: &mut Vec<Command>,
        led: Led,
        brightness: u8,
        fade_in: Option<u8>,
        fade_out: Option<u8>,
    )
        ensures
            final(commands)@ == old(commands)@ + self.static_commands(
                led,
                brightness,
                fade_in,
                fade_out,
            ),
    {
        if brightness == 0 {
            commands.push(disable_led(led));
            return;
        }
        push_fade(commands, led, fade_in);
        push_fade(commands, led, fade_out);
        commands.push(self.mode(led, false, fade_in.is_some(), fade_out.is_some()));
        commands.push(Command::Write { register: pwm_register(led), value: brightness });
        commands.push(enable_led(led));
    }
}

/// The command that switches `led` off.
fn disable_led(led: Led) -> (command: Command)
    ensures
        command == disable_command(led),
{
    Command::ClearBits { register: REG_LED_ENABLE, mask: led.bit() }
}

/// The command that switches `led` on.
fn enable_led(led: Led) -> (command: Command)
    ensures
        command == enable_command(led),
{
    Command::SetBits { register: REG_LED_ENABLE, mask: led.bit() }
}

/// The enable bit of `led` if `brightness` is above zero.
fn lit_bit(led: Led, brightness: u8) -> (bit: u8)
    ensures
        bit == lit(led, brightness),
{
    if brightness > 0 {
        led.bit()
    } else {
        0
    }
}

/// The enable bitmask of a colour.
fn enable_mask(rgb: [u8; 3]) -> (mask: u8)
    ensures
        mask == active_mask(rgb@),
{
    let red: u8 = lit_bit(Led::Led0, rgb[0]);
    let green: u8 = lit_bit(Led::Led1, rgb[1]);
    let blue: u8 = lit_bit(Led::Led2, rgb[2]);
    assert(red | green | blue == red + green + blue) by (bit_vector)
        requires
            red == 0 || red == 1,
            green == 0 || green == 2,
            blue == 0 || blue == 4,
    ;
    red | green | blue
}

/// Builds the contents of a mode register.
fn mode_byte(current: Current, breathe: bool, fade_in: bool, fade_out: bool) -> (byte: u8)
    ensures
        byte == mode_value(current, breathe, fade_in, fade_out),
{
    let mut config: u8 = current.bits();
    if breathe {
        assert(config | 0x10 == config + 0x10) by (bit_vector)
            requires
                config <= 3,
        ;
        config = config | LED_BREATHE_MODE_MASK;
    }
    if fade_in {
        assert(config | 0x20 == config + 0x20) by (bit_vector)
            requires
                config <= 0x13,
        ;
        config = config | LED_FADE_IN_MASK;
    }
    if fade_out {
        assert(config | 0x40 == config + 0x40) by (bit_vector)
            requires
                config <= 0x33,
        ;
        config = config | LED_FADE_OUT_MASK;
    }
    config
}

/// Appends the write of a fade period, if there is one.
fn push_fade(commands: &mut Vec<Command>, led: Led, fade: Option<u8>)
    ensures
        final(commands)@ == old(commands)@ + fade_commands(led, fade),
{
    if let Some(period) = fade {
        commands.push(
            Command::Write {
                register: timing_register(led, 0),
                value: pack(clamp(period, MAX_FADE), 0),
            },
        );
    }
}

/// Appends the writes of a channel's three timing registers.
fn push_timing(commands: &mut Vec<Command>, led: Led, timing: &Timing)
    ensures
        final(commands)@ == old(commands)@ + timing_commands(led, *timing),
{
    let bytes: [u8; 3] = timing.registers();
    commands.push(Command::Write { register: timing_register(led, 0), value: bytes[0] });
    commands.push(Command::Write { register: timing_register(led, 1), value: bytes[1] });
    commands.push(Command::Write { register: timing_register(led, 2), value: bytes[2] });
}

/// Appends the writes of a channel's brightness and timing.
fn push_load(commands: &mut Vec<Command>, led: Led, brightness: u8, timing: &Timing)
    ensures
        final(commands)@ == old(commands)@ + load_commands(led, brightness, *timing),
{
    commands.push(Command::Write { register: pwm_register(led), value: brightness });
    push_timing(commands, led, timing);
}

} // verus!
