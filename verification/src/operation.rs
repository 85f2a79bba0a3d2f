//! Carrying out a list of commands over the bus, one transfer at a time.
//!
//! An [`Operation`] does not touch the bus. It tells its owner which
//! transfer is due next, and moves on when it is told how that transfer
//! went. A plain write takes one transfer. A command that changes single
//! bits takes two: the register is read, and the byte that came back is
//! written again with the bits changed. The first transfer that fails ends
//! the operation: nothing is retried, and the commands that were carried out
//! before stay in effect.

use vstd::prelude::*;
use crate::command::Command;

verus! {

/// A bus transaction that is due, or the end of the operation.
#[derive(Copy, Clone, Debug, PartialEq, Eq, Structural)]
pub enum Transfer {
    /// Write `value` to `register` of the chip at bus address `device`.
    Write { device: u8, register: u8, value: u8 },
    /// Read one byte from `register` of the chip at bus address `device`.
    Read { device: u8, register: u8 },
    /// Nothing is left to do: every command was carried out, or a transfer
    /// has failed.
    Finished,
}

/// What became of the transfer that was due.
#[derive(Copy, Clone, Debug, PartialEq, Eq, Structural)]
pub enum Reply {
    /// The write was acknowledged.
    Written,
    /// The read returned this byte.
    Read(u8),
    /// The bus reported an error.
    Failed,
}

impl Transfer {
    /// The bytes that the transaction sends to the chip: the register
    /// address, followed for a write by the byte to store.
    pub open spec fn frame(self) -> Seq<u8> {
        match self {
            Transfer::Write { register, value, .. } => seq![register, value],
            Transfer::Read { register, .. } => seq![register],
            Transfer::Finished => seq![],
        }
    }

    /// The bytes to send to the chip in this transaction.
    pub fn outgoing(&self) -> (bytes: Vec<u8>)
        ensures
            bytes@ == self.frame(),
    {
        let mut bytes: Vec<u8> = Vec::new();
        match self {
            Transfer::Write { register, value, .. } => {
                bytes.push(*register);
                bytes.push(*value);
            },
            Transfer::Read { register, .. } => {
                bytes.push(*register);
            },
            Transfer::Finished => {},
        }
        bytes
    }
}

/// How far an operation has come: the mathematical state of an
/// [`Operation`].
pub struct Progress {
    /// Bus address of the chip.
    pub device: u8,
    /// The commands of the operation, in the order in which they are
    /// carried out.
    pub commands: Seq<Command>,
    /// The number of commands that were carried out in full.
    pub completed: nat,
    /// The byte that was read for the current command, once it was read.
    pub latched: Option<u8>,
    /// Whether a transfer has failed.
    pub failed: bool,
}

impl Progress {
    /// The state before the first transfer.
    pub open spec fn start(device: u8, commands: Seq<Command>) -> Progress {
        Progress { device, commands, completed: 0, latched: None, failed: false }
    }

    /// The cursor lies within the commands, and a byte is latched only for a
    /// command that asked for it.
    pub open spec fn wf(self) -> bool {
        &&& self.completed <= self.commands.len()
        &&& self.latched is Some ==> self.completed < self.commands.len()
            && self.commands[self.completed as int].reads_first()
    }

    /// The operation has ended, with or without a failure.
    pub open spec fn finished(self) -> bool {
        self.failed || self.completed >= self.commands.len()
    }

    /// Every command was carried out.
    pub open spec fn succeeded(self) -> bool {
        !self.failed && self.completed >= self.commands.len()
    }

    /// The commands that were carried out in full.
    pub open spec fn done(self) -> Seq<Command> {
        self.commands.take(self.completed as int)
    }

    /// The transfer that is due.
    pub open spec fn pending(self) -> Transfer {
        if self.finished() {
            Transfer::Finished
        } else {
            let command = self.commands[self.completed as int];
            match self.latched {
                None if command.reads_first() => Transfer::Read {
                    device: self.device,
                    register: command.register(),
                },
                None => Transfer::Write {
                    device: self.device,
                    register: command.register(),
                    value: command.value_after(0),
                },
                Some(before) => Transfer::Write {
                    device: self.device,
                    register: command.register(),
                    value: command.value_after(before),
                },
            }
        }
    }

    /// The state after `reply` has come in for the pending transfer.
    ///
    /// A failure ends the operation where it stands. A byte that was read is
    /// latched for the write that follows. An acknowledged write completes
    /// the current command. A reply that does not answer the pending
    /// transfer changes nothing.
    pub open spec fn advance(self, reply: Reply) -> Progress {
        match (self.pending(), reply) {
            (Transfer::Finished, _) => self,
            (_, Reply::Failed) => Progress { failed: true, ..self },
            (Transfer::Read { .. }, Reply::Read(byte)) => Progress { latched: Some(byte), ..self },
            (Transfer::Write { .. }, Reply::Written) => Progress {
                completed: self.completed + 1,
                latched: None,
                ..self
            },
            _ => self,
        }
    }
}

/// A driver operation in progress: its commands and a cursor into them.
pub struct Operation {
    device: u8,
    commands: Vec<Command>,
    position: usize,
    latched: Option<u8>,
    failed: bool,
}

impl View for Operation {
    type V = Progress;

    closed spec fn view(&self) -> Progress {
        Progress {
            device: self.device,
            commands: self.commands@,
            completed: self.position as nat,
            latched: self.latched,
            failed: self.failed,
        }
    }
}

impl Operation {
    #[verifier::type_invariant]
    spec fn well_formed(self) -> bool {
        self@.wf()
    }

    /// An operation that will carry out `commands`, in order, on the chip at
    /// bus address `device`.
    pub fn new(device: u8, commands: Vec<Command>) -> (operation: Operation)
        ensures
            operation@ == Progress::start(device, commands@),
    {
        Operation { device, commands, position: 0, latched: None, failed: false }
    }

    /// The transfer that is due.
    pub fn pending(&self) -> (transfer: Transfer)
        ensures
            self@.wf(),
            transfer == self@.pending(),
    {
        proof {
            use_type_invariant(self);
        }
        if self.failed || self.position >= self.commands.len() {
            Transfer::Finished
        } else {
            let command: Command = self.commands[self.position];
            match self.latched {
                None => {
                    if command.reads_first() {
                        Transfer::Read { device: self.device, register: command.register() }
                    } else {
                        Transfer::Write {
                            device: self.device,
                            register: command.register(),
                            value: command.value_after(0),
                        }
                    }
                },
                Some(before) => Transfer::Write {
                    device: self.device,
                    register: command.register(),
                    value: command.value_after(before),
                },
            }
        }
    }

    /// Takes in what became of the pending transfer.
    pub fn advance(&mut self, reply: Reply)
        ensures
            old(self)@.wf(),
            final(self)@.wf(),
            final(self)@ == old(self)@.advance(reply),
    {
        proof {
            use_type_invariant(&*self);
        }
        let pending: Transfer = self.pending();
        match (pending, reply) {
            (Transfer::Finished, _) => {},
            (_, Reply::Failed) => {
                self.failed = true;
            },
            (Transfer::Read { .. }, Reply::Read(byte)) => {
                self.latched = Some(byte);
            },
            (Transfer::Write { .. }, Reply::Written) => {
                assert(self.position < self.commands.len());
                self.latched = None;
                self.position = self.position + 1;
            },
            _ => {},
        }
    }

    /// Whether nothing is left to do.
    pub fn is_finished(&self) -> (finished: bool)
        ensures
            finished == self@.finished(),
            finished == (self@.pending() is Finished),
    {
        self.failed || self.position >= self.commands.len()
    }

    /// Whether a transfer has failed.
    pub fn has_failed(&self) -> (failed: bool)
        ensures
            failed == self@.failed,
    {
        self.failed
    }

    /// Bus address of the chip that the operation is meant for.
    pub fn device(&self) -> (device: u8)
        ensures
            device == self@.device,
    {
        self.device
    }

    /// The commands of the operation.
    pub fn commands(&self) -> (commands: &Vec<Command>)
        ensures
            commands@ == self@.commands,
    {
        &self.commands
    }

    /// The number of commands that were carried out in full.
    pub fn completed(&self) -> (completed: usize)
        ensures
            completed == self@.completed,
            completed <= self@.commands.len(),
    {
        proof {
            use_type_invariant(self);
        }
        self.position
    }
}

} // verus!
