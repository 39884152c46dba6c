use vstd::prelude::*;
use vstd::pervasive::VecAdditionalExecFns;
use crate::layout::Reg;

verus! {

/// The index of the stack pointer alias `$sp`.
pub const SP_INDEX: u8 = 63;

/// The index of the frame pointer alias `$fp`.
pub const FP_INDEX: u8 = 62;

/// The register file: 64 words of 64 bits each, viewed as a sequence.
#[derive(Debug, Clone, PartialEq)]
pub struct Registers {
    registers: Vec<u64>,
}

impl View for Registers {
    type V = Seq<u64>;

    closed spec fn view(&self) -> Seq<u64> {
        self.registers@
    }
}

impl Registers {
    pub open spec fn wf(self) -> bool {
        self@.len() == 64
    }

    /// A new register file with every register zero except the stack and
    /// frame pointers, which are initialized to the given address, one past
    /// the end of memory.
    pub fn new(stack_end_addr: u64) -> (r: Registers)
        ensures
            r.wf(),
            forall|i: int| 0 <= i < 62 ==> r@[i] == 0u64,
            r@[62] == stack_end_addr,
            r@[63] == stack_end_addr,
    {
        let mut registers: Vec<u64> = Vec::new();
        let mut i: usize = 0;
        while i < 64
            invariant
                i <= 64,
                registers@.len() == i,
                forall|j: int| 0 <= j < i ==> registers@[j] == 0u64,
            decreases 64 - i,
        {
            registers.push(0);
            i = i + 1;
        }
        registers.set(62, stack_end_addr);
        registers.set(63, stack_end_addr);
        Registers { registers }
    }

    /// Loads the given register's value.
    pub fn load(&self, reg: Reg) -> (r: u64)
        requires
            self.wf(),
            reg.wf(),
        ensures
            r == self@[reg.value as int],
    {
        self.registers[reg.value as usize]
    }

    /// Stores the given value into the given register.
    pub fn store(&mut self, reg: Reg, new_value: u64)
        requires
            old(self).wf(),
            reg.wf(),
        ensures
            final(self).wf(),
            final(self)@ == old(self)@.update(reg.value as int, new_value),
    {
        self.registers.set(reg.value as usize, new_value);
    }

    /// Loads the value of the stack pointer.
    pub fn load_sp(&self) -> (r: u64)
        requires
            self.wf(),
        ensures
            r == self@[63],
    {
        self.load(Reg { value: SP_INDEX })
    }

    /// Stores the given value into the stack pointer.
    pub fn store_sp(&mut self, new_value: u64)
        requires
            old(self).wf(),
        ensures
            final(self).wf(),
            final(self)@ == old(self)@.update(63, new_value),
    {
        self.store(Reg { value: SP_INDEX }, new_value)
    }

    /// Loads the value of the frame pointer.
    pub fn load_fp(&self) -> (r: u64)
        requires
            self.wf(),
        ensures
            r == self@[62],
    {
        self.load(Reg { value: FP_INDEX })
    }

    /// Stores the given value into the frame pointer.
    pub fn store_fp(&mut self, new_value: u64)
        requires
            old(self).wf(),
        ensures
            final(self).wf(),
            final(self)@ == old(self)@.update(62, new_value),
    {
        self.store(Reg { value: FP_INDEX }, new_value)
    }
}

} // verus!
