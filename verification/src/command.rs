//! Register commands: the units in which the driver talks to the chip.

use vstd::prelude::*;

verus! {

/// One step of a driver operation on one register of the chip.
#[derive(Copy, Clone, Debug, PartialEq, Eq, Structural)]
pub enum Command {
    /// Store `value` in `register`.
    Write { register: u8, value: u8 },
    /// Read `register` and write it back with the bits of `mask` set.
    SetBits { register: u8, mask: u8 },
    /// Read `register` and write it back with the bits of `mask` cleared.
    ClearBits { register: u8, mask: u8 },
}

impl Command {
    /// The register that the command writes.
    pub open spec fn spec_register(self) -> u8 {
        match self {
            Command::Write { register, .. } => register,
            Command::SetBits { register, .. } => register,
            Command::ClearBits { register, .. } => register,
        }
    }

    /// Whether the command has to read the register before it writes it.
    pub open spec fn spec_reads_first(self) -> bool {
        !(self is Write)
    }

    /// The byte that the command leaves in its register when the register
    /// held `before`.
    pub open spec fn spec_value_after(self, before: u8) -> u8 {
        match self {
            Command::Write { value, .. } => value,
            Command::SetBits { mask, .. } => before | mask,
            Command::ClearBits { mask, .. } => before & !mask,
        }
    }

    /// The register that the command writes.
    #[verifier::when_used_as_spec(spec_register)]
    pub fn register(self) -> (register: u8)
        ensures
            register == self.spec_register(),
    {
        match self {
            Command::Write { register, .. } => register,
            Command::SetBits { register, .. } => register,
            Command::ClearBits { register, .. } => register,
        }
    }

    /// Whether the command has to read the register before it writes it.
    #[verifier::when_used_as_spec(spec_reads_first)]
    pub fn reads_first(self) -> (reads: bool)
        ensures
            reads == self.spec_reads_first(),
    {
        match self {
            Command::Write { .. } => false,
            _ => true,
        }
    }

    /// The byte to write to the register, given the byte that it held
    /// before. A plain write ignores `before`.
    #[verifier::when_used_as_spec(spec_value_after)]
    pub fn value_after(self, before: u8) -> (value: u8)
        ensures
            value == self.spec_value_after(before),
    {
        match self {
            Command::Write { value, .. } => value,
            Command::SetBits { mask, .. } => before | mask,
            Command::ClearBits { mask, .. } => before & !mask,
        }
    }
}

} // verus!
