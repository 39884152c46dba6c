use vstd::prelude::*;
use crate::layout::Reg;
use crate::machine::Machine;

verus! {

/// An immediate operand value. It carries up to 64 bits of two's-complement
/// payload; the machine takes its low 64 bits.
pub type Immediate = i128;

/// A 16-bit signed offset for register-relative addressing.
pub type Offset = i16;

/// The low 64 bits of an immediate, two's complement.
pub open spec fn imm_bits64(imm: Immediate) -> u64 {
    imm as u64
}

/// An argument used as a source operand.
#[derive(Debug, Clone, Copy, PartialEq, Eq, Structural)]
pub enum Source {
    Register(Reg),
    Immediate(Immediate),
}

impl Source {
    pub open spec fn wf(self) -> bool {
        match self {
            Source::Register(reg) => reg.wf(),
            Source::Immediate(_) => true,
        }
    }

    /// The operand's value under the given register file: the register's
    /// word, or the immediate's low 64 bits.
    pub open spec fn value_spec(self, regs: Seq<u64>) -> u64 {
        match self {
            Source::Register(reg) => regs[reg.value as int],
            Source::Immediate(imm) => imm_bits64(imm),
        }
    }

    /// Reads the operand's value from the machine.
    pub fn into_value(self, vm: &Machine) -> (r: u64)
        requires
            self.wf(),
            vm.registers.wf(),
        ensures
            r == self.value_spec(vm.registers@),
    {
        match self {
            Source::Register(reg) => vm.registers.load(reg),
            Source::Immediate(imm) => #[verifier::truncate] (imm as u64),
        }
    }
}

/// An argument used as a destination operand: always a register.
#[derive(Debug, Clone, Copy, PartialEq, Eq, Structural)]
pub enum Destination {
    Register(Reg),
}

impl Destination {
    pub open spec fn wf(self) -> bool {
        match self {
            Destination::Register(reg) => reg.wf(),
        }
    }

    /// The register file index this destination names.
    pub open spec fn index_spec(self) -> int {
        match self {
            Destination::Register(reg) => reg.value as int,
        }
    }

    /// The destination register's current value.
    pub open spec fn value_spec(self, regs: Seq<u64>) -> u64 {
        regs[self.index_spec()]
    }

    /// Reads the destination register's current value from the machine.
    pub fn into_value(self, vm: &Machine) -> (r: u64)
        requires
            self.wf(),
            vm.registers.wf(),
        ensures
            r == self.value_spec(vm.registers@),
    {
        match self {
            Destination::Register(reg) => vm.registers.load(reg),
        }
    }
}

/// The given base address moved by a 16-bit signed offset, wrapping at the
/// 64-bit boundary.
pub open spec fn offset_addr(base: u64, off: Offset) -> u64 {
    (((base + off) % 0x10000000000000000) as u64)
}

/// Moves an address by a signed offset, wrapping at the 64-bit boundary.
pub fn wrapping_offset(base: u64, off: Offset) -> (r: u64)
    ensures
        r == offset_addr(base, off),
{
    if off >= 0 {
        let d = off as u64;
        if base <= u64::MAX - d {
            base + d
        } else {
            base - (u64::MAX - d) - 1
        }
    } else {
        let d = (-(off as i32)) as u64;
        if base >= d {
            base - d
        } else {
            base + (u64::MAX - d) + 1
        }
    }
}

/// An argument used as a location (address) operand.
#[derive(Debug, Clone, Copy, PartialEq, Eq, Structural)]
pub enum Location {
    Register(Reg, Option<Offset>),
    Immediate(Immediate),
}

impl Location {
    pub open spec fn wf(self) -> bool {
        match self {
            Location::Register(reg, _) => reg.wf(),
            Location::Immediate(_) => true,
        }
    }

    /// The address the operand denotes under the given register file: the
    /// register's word moved by the offset, or the immediate's low 64 bits.
    pub open spec fn value_spec(self, regs: Seq<u64>) -> u64 {
        match self {
            Location::Register(reg, Some(off)) => offset_addr(regs[reg.value as int], off),
            Location::Register(reg, None) => regs[reg.value as int],
            Location::Immediate(imm) => imm_bits64(imm),
        }
    }

    /// Computes the operand's address from the machine.
    pub fn into_value(self, vm: &Machine) -> (r: u64)
        requires
            self.wf(),
            vm.registers.wf(),
        ensures
            r == self.value_spec(vm.registers@),
    {
        match self {
            Location::Register(reg, Some(off)) => wrapping_offset(vm.registers.load(reg), off),
            Location::Register(reg, None) => vm.registers.load(reg),
            Location::Immediate(imm) => #[verifier::truncate] (imm as u64),
        }
    }
}

} // verus!
