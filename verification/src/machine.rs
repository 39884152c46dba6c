use vstd::prelude::*;
use crate::decode::{DecodeError, Instr, Push, decode_spec};
use crate::execute::{ExecuteError, QUIT_ADDR, instr_post, wrap64};
use crate::flags::Flags;
use crate::memory::{Memory, OutOfBounds, le_at};
use crate::operands::{Destination, Source};
use crate::registers::Registers;
use crate::stdio::Stdio;

verus! {

/// Whether the program should continue running.
#[derive(Debug, Clone, Copy, PartialEq, Eq, Hash, Structural)]
pub enum ProgramStatus {
    Continue,
    Quit,
    /// The program read from the input address with the buffer empty and the
    /// input still open: the driver must supply input and step again. The
    /// machine state is unchanged.
    AwaitingInput,
}

/// The faults that stop a run.
#[derive(Debug, Clone, Copy, PartialEq, Eq, Structural)]
pub enum ExecutionError {
    OutOfBounds(OutOfBounds),
    DecodeError(DecodeError),
    ExecuteError(ExecuteError),
}

/// The whole machine: program counter, memory, register file, flags, and
/// memory-mapped input/output.
#[derive(Debug, Clone, PartialEq)]
pub struct Machine {
    /// Holds the address of the next instruction to execute.
    pub program_counter: u64,
    /// The machine memory unit.
    pub memory: Memory,
    /// The machine registers.
    pub registers: Registers,
    /// The machine flags/status register.
    pub flags: Flags,
    /// Access to input and output.
    pub io: Stdio,
}

impl Machine {
    pub open spec fn wf(self) -> bool {
        self.registers.wf() && self.io.wf()
    }

    /// Writes a value to the destination register; nothing else changes.
    pub fn store_dest(&mut self, dest: Destination, value: u64)
        requires
            old(self).wf(),
            dest.wf(),
        ensures
            final(self).wf(),
            final(self).registers@ == old(self).registers@.update(dest.index_spec(), value),
            final(self).program_counter == old(self).program_counter,
            final(self).memory == old(self).memory,
            final(self).flags == old(self).flags,
            final(self).io == old(self).io,
    {
        match dest {
            Destination::Register(reg) => self.registers.store(reg, value),
        }
    }

    /// Decode and run the instruction at the program counter: fetch eight
    /// bytes, decode them, advance the program counter by eight, then
    /// execute. The program quits when the program counter equals the
    /// sentinel address afterwards. A blocked input read leaves the machine
    /// unchanged so the step can be retried.
    pub fn step(&mut self) -> (r: Result<ProgramStatus, ExecutionError>)
        requires
            old(self).wf(),
        ensures
            final(self).wf(),
            old(self).program_counter + 8 > old(self).memory@.len() ==> r == Err::<
                ProgramStatus,
                _,
            >(
                ExecutionError::OutOfBounds(
                    OutOfBounds {
                        addr: old(self).program_counter,
                        capacity: old(self).memory@.len() as u64,
                    },
                ),
            ) && *final(self) == *old(self),
            old(self).program_counter + 8 <= old(self).memory@.len() ==> ({
                let word = le_at(old(self).memory@, old(self).program_counter as int, 8) as u64;
                match decode_spec(word) {
                    Err(de) => r == Err::<ProgramStatus, _>(ExecutionError::DecodeError(de))
                        && *final(self) == *old(self),
                    Ok(i) => ({
                        let pre2 = Machine {
                            program_counter: wrap64(old(self).program_counter + 8),
                            ..*old(self)
                        };
                        match r {
                            Ok(ProgramStatus::Continue) => instr_post(
                                i,
                                pre2,
                                *final(self),
                                Ok(()),
                            ) && final(self).program_counter != QUIT_ADDR,
                            Ok(ProgramStatus::Quit) => instr_post(i, pre2, *final(self), Ok(()))
                                && final(self).program_counter == QUIT_ADDR,
                            Ok(ProgramStatus::AwaitingInput) => *final(self) == *old(self)
                                && instr_post(i, pre2, pre2, Err(ExecuteError::AwaitingInput)),
                            Err(ExecutionError::ExecuteError(e)) => !(e is AwaitingInput)
                                && instr_post(i, pre2, *final(self), Err(e)),
                            _ => false,
                        }
                    }),
                }
            }),
    {
        let word = match self.memory.read_u64(self.program_counter) {
            Ok(w) => w,
            Err(e) => {
                return Err(ExecutionError::OutOfBounds(e));
            },
        };
        let instr = match Instr::decode(word) {
            Ok(i) => i,
            Err(e) => {
                return Err(ExecutionError::DecodeError(e));
            },
        };
        let saved_pc = self.program_counter;
        self.program_counter = crate::execute::wrapping_add64(self.program_counter, 8);
        match instr.execute(self) {
            Ok(()) => {
                if self.program_counter == QUIT_ADDR {
                    Ok(ProgramStatus::Quit)
                } else {
                    Ok(ProgramStatus::Continue)
                }
            },
            Err(ExecuteError::AwaitingInput) => {
                // Nothing was changed; restore the program counter so the
                // driver can retry the same instruction with more input.
                self.program_counter = saved_pc;
                Ok(ProgramStatus::AwaitingInput)
            },
            Err(e) => Err(ExecutionError::ExecuteError(e)),
        }
    }

    /// Pushes the quit sentinel onto the stack, so that the entry point's
    /// final `ret` terminates the run cleanly.
    pub fn push_quit_addr(&mut self) -> (r: Result<(), ExecutionError>)
        requires
            old(self).wf(),
        ensures
            final(self).wf(),
            ({
                let push = Instr::Push(Push { source: Source::Immediate(QUIT_ADDR as i128) });
                match r {
                    Ok(()) => instr_post(push, *old(self), *final(self), Ok(())),
                    Err(ExecutionError::ExecuteError(e)) => instr_post(
                        push,
                        *old(self),
                        *final(self),
                        Err(e),
                    ),
                    _ => false,
                }
            }),
    {
        self.push_immediate(0xffffffffffffffff as i128)
    }

    /// Pushes an immediate value onto the stack.
    pub fn push_immediate(&mut self, imm: i128) -> (r: Result<(), ExecutionError>)
        requires
            old(self).wf(),
        ensures
            final(self).wf(),
            ({
                let push = Instr::Push(Push { source: Source::Immediate(imm) });
                match r {
                    Ok(()) => instr_post(push, *old(self), *final(self), Ok(())),
                    Err(ExecutionError::ExecuteError(e)) => instr_post(
                        push,
                        *old(self),
                        *final(self),
                        Err(e),
                    ),
                    _ => false,
                }
            }),
    {
        let push = Push { source: Source::Immediate(imm) };
        match push.execute(self) {
            Ok(()) => Ok(()),
            Err(e) => Err(ExecutionError::ExecuteError(e)),
        }
    }
}

} // verus!
