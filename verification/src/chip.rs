//! A model of the chip's registers, and what commands and operations do to
//! them.
//!
//! The registers are a total function from register address to content. A
//! write stores its byte, a read returns what is stored, and a transfer
//! that fails changes nothing. Of what the chip makes of a content the
//! model knows one thing: the reset pattern written to the reset register
//! puts every register back to its power-on content, in which the LED
//! module is disabled.

use vstd::prelude::*;
use crate::command::Command;
use crate::led::Led;
use crate::operation::{Progress, Reply, Transfer};
use crate::registers::{LED_MODULE_ENABLE_MASK, LED_RESET_MASK, REG_GLOBAL_CONTROL, REG_RESET};

verus! {

/// Whether bit `position` of `byte` is set.
pub open spec fn bit_is_set(byte: u8, position: u8) -> bool {
    byte & (1u8 << position) != 0
}

/// The chip as the driver sees it: what its registers hold now, and what
/// they hold after a reset.
#[verifier::ext_equal]
pub struct Chip {
    /// The byte that each register holds.
    pub contents: spec_fn(u8) -> u8,
    /// The byte that each register holds after power-on and after a reset.
    pub power_on: spec_fn(u8) -> u8,
}

impl Chip {
    /// The byte that `register` holds.
    pub open spec fn get(self, register: u8) -> u8 {
        (self.contents)(register)
    }

    /// The chip with `value` stored in `register`.
    pub open spec fn set(self, register: u8, value: u8) -> Chip {
        Chip {
            contents: |r: u8|
                if r == register {
                    value
                } else {
                    (self.contents)(r)
                },
            ..self
        }
    }

    /// The chip after a reset: every register holds its power-on content.
    pub open spec fn reset(self) -> Chip {
        Chip { contents: self.power_on, ..self }
    }

    /// The chip after `value` was written to `register` over the bus. The
    /// reset pattern written to the reset register resets the chip; every
    /// other write stores its byte.
    pub open spec fn written(self, register: u8, value: u8) -> Chip {
        if register == REG_RESET && value == LED_RESET_MASK {
            self.reset()
        } else {
            self.set(register, value)
        }
    }

    /// The chip comes out of a reset with its LED module disabled.
    pub open spec fn wf(self) -> bool {
        (self.power_on)(REG_GLOBAL_CONTROL) & LED_MODULE_ENABLE_MASK == 0
    }
}

/// Whether the LED module is enabled: bit 0 of the global control register.
pub open spec fn module_enabled(chip: Chip) -> bool {
    chip.get(REG_GLOBAL_CONTROL) & LED_MODULE_ENABLE_MASK != 0
}

/// The registers after `command` was carried out.
pub open spec fn execute(chip: Chip, command: Command) -> Chip {
    chip.written(command.register(), command.value_after(chip.get(command.register())))
}

/// The registers after `commands` were carried out, in order.
pub open spec fn execute_all(chip: Chip, commands: Seq<Command>) -> Chip
    decreases commands.len(),
{
    if commands.len() == 0 {
        chip
    } else {
        execute(execute_all(chip, commands.drop_last()), commands.last())
    }
}

/// What the chip answers to `transfer` when the bus works.
pub open spec fn answer(chip: Chip, transfer: Transfer) -> Reply {
    match transfer {
        Transfer::Read { register, .. } => Reply::Read(chip.get(register)),
        _ => Reply::Written,
    }
}

/// The registers after `transfer` when the bus works.
pub open spec fn store(chip: Chip, transfer: Transfer) -> Chip {
    match transfer {
        Transfer::Write { register, value, .. } => chip.written(register, value),
        _ => chip,
    }
}

/// One turn of the bus owner: the pending transfer is performed and its
/// outcome reported. If the bus does not work in this turn, the transfer
/// fails and leaves the registers as they are.
pub open spec fn turn(
    progress: Progress,
    chip: Chip,
    works: bool,
) -> (Progress, Chip) {
    let transfer = progress.pending();
    if transfer is Finished {
        (progress, chip)
    } else if works {
        (progress.advance(answer(chip, transfer)), store(chip, transfer))
    } else {
        (progress.advance(Reply::Failed), chip)
    }
}

/// The state after `turns` turns in which the bus works, except in the turn
/// numbered `fault`, if there is one.
pub open spec fn run(
    progress: Progress,
    chip: Chip,
    turns: nat,
    fault: Option<nat>,
) -> (Progress, Chip)
    decreases turns,
{
    if turns == 0 {
        (progress, chip)
    } else {
        let before = run(progress, chip, (turns - 1) as nat, fault);
        turn(before.0, before.1, fault != Some((turns - 1) as nat))
    }
}

/// Switching a channel on sets its bit in the enable register and leaves
/// every other bit as it was.
pub proof fn lemma_set_bit(before: u8, led: Led, position: u8)
    requires
        position < 8,
    ensures
        bit_is_set(before | led.mask(), position) == (position == led.ordinal() || bit_is_set(
            before,
            position,
        )),
{
    assert(bit_is_set(before | 1u8, position) == (position == 0 || bit_is_set(before, position)))
        by (bit_vector)
        requires
            position < 8,
    ;
    assert(bit_is_set(before | 2u8, position) == (position == 1 || bit_is_set(before, position)))
        by (bit_vector)
        requires
            position < 8,
    ;
    assert(bit_is_set(before | 4u8, position) == (position == 2 || bit_is_set(before, position)))
        by (bit_vector)
        requires
            position < 8,
    ;
}

/// Switching a channel off clears its bit in the enable register and leaves
/// every other bit as it was.
pub proof fn lemma_clear_bit(before: u8, led: Led, position: u8)
    requires
        position < 8,
    ensures
        bit_is_set(before & !led.mask(), position) == (position != led.ordinal() && bit_is_set(
            before,
            position,
        )),
{
    assert(bit_is_set(before & !1u8, position) == (position != 0 && bit_is_set(before, position)))
        by (bit_vector)
        requires
            position < 8,
    ;
    assert(bit_is_set(before & !2u8, position) == (position != 1 && bit_is_set(before, position)))
        by (bit_vector)
        requires
            position < 8,
    ;
    assert(bit_is_set(before & !4u8, position) == (position != 2 && bit_is_set(before, position)))
        by (bit_vector)
        requires
            position < 8,
    ;
}

/// Carrying out one list of commands after another is carrying out the two
/// joined.
pub proof fn lemma_execute_all_concat(
    chip: Chip,
    first: Seq<Command>,
    second: Seq<Command>,
)
    ensures
        execute_all(chip, first + second) == execute_all(
            execute_all(chip, first),
            second,
        ),
    decreases second.len(),
{
    if second.len() == 0 {
        assert(first + second =~= first);
    } else {
        assert((first + second).drop_last() =~= first + second.drop_last());
        lemma_execute_all_concat(chip, first, second.drop_last());
    }
}

/// A register that no command writes keeps its content, unless a command
/// writes the reset register.
pub proof fn lemma_execute_all_frame(chip: Chip, commands: Seq<Command>, register: u8)
    requires
        forall|i: int|
            0 <= i < commands.len() ==> (#[trigger] commands[i]).register() != register
                && commands[i].register() != REG_RESET,
    ensures
        execute_all(chip, commands).get(register) == chip.get(register),
    decreases commands.len(),
{
    if commands.len() > 0 {
        lemma_execute_all_frame(chip, commands.drop_last(), register);
    }
}

/// Carrying out a list of one command is carrying out that command.
pub proof fn lemma_execute_all_single(chip: Chip, command: Command)
    ensures
        execute_all(chip, seq![command]) == execute(chip, command),
{
    assert(seq![command].drop_last() =~= Seq::<Command>::empty());
    reveal_with_fuel(execute_all, 2);
}

/// Carrying out a list with one more command at its end is carrying out the
/// list and then that command.
pub proof fn lemma_execute_all_push(chip: Chip, commands: Seq<Command>, command: Command)
    ensures
        execute_all(chip, commands.push(command)) == execute(
            execute_all(chip, commands),
            command,
        ),
{
    assert(commands.push(command).drop_last() =~= commands);
}

/// Carrying out a list of two commands is carrying out the one and then the
/// other.
pub proof fn lemma_execute_all_pair(chip: Chip, first: Command, second: Command)
    ensures
        execute_all(chip, seq![first, second]) == execute(
            execute(chip, first),
            second,
        ),
{
    assert(seq![first, second] =~= seq![first].push(second));
    lemma_execute_all_single(chip, first);
    lemma_execute_all_push(chip, seq![first], second);
}

/// Carrying out a list of three commands is carrying them out one after
/// another.
pub proof fn lemma_execute_all_triple(
    chip: Chip,
    first: Command,
    second: Command,
    third: Command,
)
    ensures
        execute_all(chip, seq![first, second, third]) == execute(
            execute(execute(chip, first), second),
            third,
        ),
{
    assert(seq![first, second, third] =~= seq![first, second].push(third));
    lemma_execute_all_pair(chip, first, second);
    lemma_execute_all_push(chip, seq![first, second], third);
}

/// Carrying out a list of four commands is carrying them out one after
/// another.
pub proof fn lemma_execute_all_quad(
    chip: Chip,
    first: Command,
    second: Command,
    third: Command,
    fourth: Command,
)
    ensures
        execute_all(chip, seq![first, second, third, fourth]) == execute(
            execute(execute(execute(chip, first), second), third),
            fourth,
        ),
{
    assert(seq![first, second, third, fourth] =~= seq![first, second, third].push(fourth));
    lemma_execute_all_triple(chip, first, second, third);
    lemma_execute_all_push(chip, seq![first, second, third], fourth);
}

/// One more command carried out extends the effect of those before it.
pub proof fn lemma_execute_all_step(chip: Chip, commands: Seq<Command>, completed: int)
    requires
        0 <= completed < commands.len(),
    ensures
        execute_all(chip, commands.take(completed + 1)) == execute(
            execute_all(chip, commands.take(completed)),
            commands[completed],
        ),
{
    assert(commands.take(completed + 1).drop_last() =~= commands.take(completed));
}

/// The turns that `progress` may still take: two for each command that is
/// left, less one if the byte of the current command was read already.
pub open spec fn turns_left(progress: Progress) -> int {
    2 * (progress.commands.len() - progress.completed) - (if progress.latched is Some {
        1int
    } else {
        0
    })
}

/// What holds between an operation and the registers while the bus owner
/// takes its turns: the registers show the commands carried out so far and
/// nothing else, and a latched byte is what its register holds.
pub open spec fn in_step(
    progress: Progress,
    chip: Chip,
    device: u8,
    commands: Seq<Command>,
    initial: Chip,
) -> bool {
    &&& progress.wf()
    &&& progress.device == device
    &&& progress.commands == commands
    &&& chip == execute_all(initial, progress.done())
    &&& progress.latched matches Some(byte) ==> byte == chip.get(
        commands[progress.completed as int].register(),
    )
}

/// A turn keeps operation and registers in step, and brings the operation
/// nearer to its end.
pub proof fn lemma_turn(
    progress: Progress,
    chip: Chip,
    works: bool,
    initial: Chip,
)
    requires
        in_step(progress, chip, progress.device, progress.commands, initial),
    ensures
        ({
            let (next, after) = turn(progress, chip, works);
            &&& in_step(next, after, progress.device, progress.commands, initial)
            &&& next.failed == (progress.failed || (!works && !progress.finished()))
            &&& !progress.finished() ==> next.failed || turns_left(next) < turns_left(progress)
            &&& progress.finished() ==> next == progress
        }),
{
    if works && progress.pending() is Write {
        lemma_execute_all_step(initial, progress.commands, progress.completed as int);
    }
}

/// However many turns are taken, and whichever of them fails, the registers
/// show exactly the commands that the operation counts as carried out. The
/// operation has failed if and only if the fault struck before it had
/// ended. After two turns for each command the operation has ended; without
/// a fault every command was then carried out.
pub proof fn lemma_run(
    device: u8,
    commands: Seq<Command>,
    initial: Chip,
    turns: nat,
    fault: Option<nat>,
)
    ensures
        ({
            let (progress, chip) = run(
                Progress::start(device, commands),
                initial,
                turns,
                fault,
            );
            &&& in_step(progress, chip, device, commands, initial)
            &&& chip == execute_all(initial, commands.take(progress.completed as int))
            &&& progress.failed <==> (fault matches Some(k) && k < turns && !run(
                Progress::start(device, commands),
                initial,
                k,
                fault,
            ).0.finished())
            &&& progress.finished() || turns_left(progress) + turns <= 2 * commands.len()
            &&& turns >= 2 * commands.len() ==> progress.finished()
            &&& turns >= 2 * commands.len() && fault is None ==> progress.succeeded() && chip
                == execute_all(initial, commands)
        }),
    decreases turns,
{
    let start = Progress::start(device, commands);
    if turns == 0 {
        assert(start.done() =~= Seq::<Command>::empty());
    } else {
        lemma_run(device, commands, initial, (turns - 1) as nat, fault);
        let before = run(start, initial, (turns - 1) as nat, fault);
        lemma_turn(before.0, before.1, fault != Some((turns - 1) as nat), initial);
    }
    let (progress, chip) = run(start, initial, turns, fault);
    if progress.succeeded() {
        assert(commands.take(progress.completed as int) =~= commands);
    }
}

} // verus!
