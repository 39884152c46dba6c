use vstd::prelude::*;
use crate::ir::{
    self, Destination, Location, Source, dest_all_ok, dest_of, loc_all_ok, loc_of, source_all_ok,
    source_of,
};
use crate::ast;
use crate::bytestr::bytes_eq;
use crate::diag::{DiagKind, Diagnostics};
use crate::label_offsets::LabelOffsets;
use crate::layout::{Imm, InstrLayout, Layout, L1, L10, L11, L2, L3, L4, L5, L6, L7, L8, L9, Reg};
use crate::span::Span;

verus! {

/// Every instruction kind the machine understands. Each kind owns the eleven
/// consecutive opcodes starting at its base opcode.
#[derive(Debug, Clone, Copy, PartialEq, Eq, Hash, Structural)]
pub enum InstrKind {
    Nop,
    Add,
    Sub,
    Mul,
    Mull,
    Mulu,
    Mullu,
    Div,
    Divr,
    Divu,
    Divru,
    Rem,
    Remu,
    And,
    Or,
    Xor,
    Not,
    Test,
    Cmp,
    Mov,
    Load1,
    Loadu1,
    Load2,
    Loadu2,
    Load4,
    Loadu4,
    Load8,
    Loadu8,
    Store1,
    Store2,
    Store4,
    Store8,
    Push,
    Pop,
    Jmp,
    Je,
    Jne,
    Jg,
    Jge,
    Ja,
    Jae,
    Jl,
    Jle,
    Jb,
    Jbe,
    Jo,
    Jno,
    Jz,
    Jnz,
    Js,
    Jns,
    Call,
    Ret,
}

/// The position of a kind in declaration order; base opcodes are assigned
/// twelve apart in this order.
pub open spec fn kind_index_spec(k: InstrKind) -> int {
    match k {
        InstrKind::Nop => 0,
        InstrKind::Add => 1,
        InstrKind::Sub => 2,
        InstrKind::Mul => 3,
        InstrKind::Mull => 4,
        InstrKind::Mulu => 5,
        InstrKind::Mullu => 6,
        InstrKind::Div => 7,
        InstrKind::Divr => 8,
        InstrKind::Divu => 9,
        InstrKind::Divru => 10,
        InstrKind::Rem => 11,
        InstrKind::Remu => 12,
        InstrKind::And => 13,
        InstrKind::Or => 14,
        InstrKind::Xor => 15,
        InstrKind::Not => 16,
        InstrKind::Test => 17,
        InstrKind::Cmp => 18,
        InstrKind::Mov => 19,
        InstrKind::Load1 => 20,
        InstrKind::Loadu1 => 21,
        InstrKind::Load2 => 22,
        InstrKind::Loadu2 => 23,
        InstrKind::Load4 => 24,
        InstrKind::Loadu4 => 25,
        InstrKind::Load8 => 26,
        InstrKind::Loadu8 => 27,
        InstrKind::Store1 => 28,
        InstrKind::Store2 => 29,
        InstrKind::Store4 => 30,
        InstrKind::Store8 => 31,
        InstrKind::Push => 32,
        InstrKind::Pop => 33,
        InstrKind::Jmp => 34,
        InstrKind::Je => 35,
        InstrKind::Jne => 36,
        InstrKind::Jg => 37,
        InstrKind::Jge => 38,
        InstrKind::Ja => 39,
        InstrKind::Jae => 40,
        InstrKind::Jl => 41,
        InstrKind::Jle => 42,
        InstrKind::Jb => 43,
        InstrKind::Jbe => 44,
        InstrKind::Jo => 45,
        InstrKind::Jno => 46,
        InstrKind::Jz => 47,
        InstrKind::Jnz => 48,
        InstrKind::Js => 49,
        InstrKind::Jns => 50,
        InstrKind::Call => 51,
        InstrKind::Ret => 52,
    }
}

/// The base opcode of a kind: twelve times its position, so the opcode
/// ranges of consecutive kinds never overlap.
pub open spec fn base_opcode_spec(k: InstrKind) -> int {
    12 * kind_index_spec(k)
}

/// The kind declared at a given position, inverse of `kind_index_spec`.
pub open spec fn kind_at_index_spec(i: int) -> InstrKind {
    if i == 0 {
        InstrKind::Nop
    } else if i == 1 {
        InstrKind::Add
    } else if i == 2 {
        InstrKind::Sub
    } else if i == 3 {
        InstrKind::Mul
    } else if i == 4 {
        InstrKind::Mull
    } else if i == 5 {
        InstrKind::Mulu
    } else if i == 6 {
        InstrKind::Mullu
    } else if i == 7 {
        InstrKind::Div
    } else if i == 8 {
        InstrKind::Divr
    } else if i == 9 {
        InstrKind::Divu
    } else if i == 10 {
        InstrKind::Divru
    } else if i == 11 {
        InstrKind::Rem
    } else if i == 12 {
        InstrKind::Remu
    } else if i == 13 {
        InstrKind::And
    } else if i == 14 {
        InstrKind::Or
    } else if i == 15 {
        InstrKind::Xor
    } else if i == 16 {
        InstrKind::Not
    } else if i == 17 {
        InstrKind::Test
    } else if i == 18 {
        InstrKind::Cmp
    } else if i == 19 {
        InstrKind::Mov
    } else if i == 20 {
        InstrKind::Load1
    } else if i == 21 {
        InstrKind::Loadu1
    } else if i == 22 {
        InstrKind::Load2
    } else if i == 23 {
        InstrKind::Loadu2
    } else if i == 24 {
        InstrKind::Load4
    } else if i == 25 {
        InstrKind::Loadu4
    } else if i == 26 {
        InstrKind::Load8
    } else if i == 27 {
        InstrKind::Loadu8
    } else if i == 28 {
        InstrKind::Store1
    } else if i == 29 {
        InstrKind::Store2
    } else if i == 30 {
        InstrKind::Store4
    } else if i == 31 {
        InstrKind::Store8
    } else if i == 32 {
        InstrKind::Push
    } else if i == 33 {
        InstrKind::Pop
    } else if i == 34 {
        InstrKind::Jmp
    } else if i == 35 {
        InstrKind::Je
    } else if i == 36 {
        InstrKind::Jne
    } else if i == 37 {
        InstrKind::Jg
    } else if i == 38 {
        InstrKind::Jge
    } else if i == 39 {
        InstrKind::Ja
    } else if i == 40 {
        InstrKind::Jae
    } else if i == 41 {
        InstrKind::Jl
    } else if i == 42 {
        InstrKind::Jle
    } else if i == 43 {
        InstrKind::Jb
    } else if i == 44 {
        InstrKind::Jbe
    } else if i == 45 {
        InstrKind::Jo
    } else if i == 46 {
        InstrKind::Jno
    } else if i == 47 {
        InstrKind::Jz
    } else if i == 48 {
        InstrKind::Jnz
    } else if i == 49 {
        InstrKind::Js
    } else if i == 50 {
        InstrKind::Jns
    } else if i == 51 {
        InstrKind::Call
    } else {
        InstrKind::Ret
    }
}

/// The operand shape an instruction kind declares.
#[derive(Debug, Clone, Copy, PartialEq, Eq, Structural)]
pub enum OperandShape {
    /// No operands.
    Nullary,
    /// `(Destination, Source)`
    DestSource,
    /// `(Destination, Destination, Source)`
    DestDestSource,
    /// `(Source, Source)`
    SourceSource,
    /// `(Destination, Location)`
    DestLoc,
    /// `(Location, Source)`
    LocSource,
    /// `(Source,)`
    SourceOnly,
    /// `(Destination,)`
    DestOnly,
    /// `(Location,)`
    LocOnly,
}

/// The operand shape of each instruction kind.
pub open spec fn shape_of_spec(k: InstrKind) -> OperandShape {
    match k {
        InstrKind::Nop => OperandShape::Nullary,
        InstrKind::Ret => OperandShape::Nullary,
        InstrKind::Add => OperandShape::DestSource,
        InstrKind::Sub => OperandShape::DestSource,
        InstrKind::Mul => OperandShape::DestSource,
        InstrKind::Mulu => OperandShape::DestSource,
        InstrKind::Div => OperandShape::DestSource,
        InstrKind::Divu => OperandShape::DestSource,
        InstrKind::Rem => OperandShape::DestSource,
        InstrKind::Remu => OperandShape::DestSource,
        InstrKind::And => OperandShape::DestSource,
        InstrKind::Or => OperandShape::DestSource,
        InstrKind::Xor => OperandShape::DestSource,
        InstrKind::Mov => OperandShape::DestSource,
        InstrKind::Mull => OperandShape::DestDestSource,
        InstrKind::Mullu => OperandShape::DestDestSource,
        InstrKind::Divr => OperandShape::DestDestSource,
        InstrKind::Divru => OperandShape::DestDestSource,
        InstrKind::Test => OperandShape::SourceSource,
        InstrKind::Cmp => OperandShape::SourceSource,
        InstrKind::Not => OperandShape::DestOnly,
        InstrKind::Pop => OperandShape::DestOnly,
        InstrKind::Load1 => OperandShape::DestLoc,
        InstrKind::Loadu1 => OperandShape::DestLoc,
        InstrKind::Load2 => OperandShape::DestLoc,
        InstrKind::Loadu2 => OperandShape::DestLoc,
        InstrKind::Load4 => OperandShape::DestLoc,
        InstrKind::Loadu4 => OperandShape::DestLoc,
        InstrKind::Load8 => OperandShape::DestLoc,
        InstrKind::Loadu8 => OperandShape::DestLoc,
        InstrKind::Store1 => OperandShape::LocSource,
        InstrKind::Store2 => OperandShape::LocSource,
        InstrKind::Store4 => OperandShape::LocSource,
        InstrKind::Store8 => OperandShape::LocSource,
        InstrKind::Push => OperandShape::SourceOnly,
        InstrKind::Jmp => OperandShape::LocOnly,
        InstrKind::Je => OperandShape::LocOnly,
        InstrKind::Jne => OperandShape::LocOnly,
        InstrKind::Jg => OperandShape::LocOnly,
        InstrKind::Jge => OperandShape::LocOnly,
        InstrKind::Ja => OperandShape::LocOnly,
        InstrKind::Jae => OperandShape::LocOnly,
        InstrKind::Jl => OperandShape::LocOnly,
        InstrKind::Jle => OperandShape::LocOnly,
        InstrKind::Jb => OperandShape::LocOnly,
        InstrKind::Jbe => OperandShape::LocOnly,
        InstrKind::Jo => OperandShape::LocOnly,
        InstrKind::Jno => OperandShape::LocOnly,
        InstrKind::Jz => OperandShape::LocOnly,
        InstrKind::Jnz => OperandShape::LocOnly,
        InstrKind::Js => OperandShape::LocOnly,
        InstrKind::Jns => OperandShape::LocOnly,
        InstrKind::Call => OperandShape::LocOnly,
    }
}

/// The mnemonic of each kind as a byte string.
pub open spec fn name_seq(k: InstrKind) -> Seq<u8> {
    match k {
        // nop
        InstrKind::Nop => seq![110u8, 111u8, 112u8],
        // add
        InstrKind::Add => seq![97u8, 100u8, 100u8],
        // sub
        InstrKind::Sub => seq![115u8, 117u8, 98u8],
        // mul
        InstrKind::Mul => seq![109u8, 117u8, 108u8],
        // mull
        InstrKind::Mull => seq![109u8, 117u8, 108u8, 108u8],
        // mulu
        InstrKind::Mulu => seq![109u8, 117u8, 108u8, 117u8],
        // mullu
        InstrKind::Mullu => seq![109u8, 117u8, 108u8, 108u8, 117u8],
        // div
        InstrKind::Div => seq![100u8, 105u8, 118u8],
        // divr
        InstrKind::Divr => seq![100u8, 105u8, 118u8, 114u8],
        // divu
        InstrKind::Divu => seq![100u8, 105u8, 118u8, 117u8],
        // divru
        InstrKind::Divru => seq![100u8, 105u8, 118u8, 114u8, 117u8],
        // rem
        InstrKind::Rem => seq![114u8, 101u8, 109u8],
        // remu
        InstrKind::Remu => seq![114u8, 101u8, 109u8, 117u8],
        // and
        InstrKind::And => seq![97u8, 110u8, 100u8],
        // or
        InstrKind::Or => seq![111u8, 114u8],
        // xor
        InstrKind::Xor => seq![120u8, 111u8, 114u8],
        // not
        InstrKind::Not => seq![110u8, 111u8, 116u8],
        // test
        InstrKind::Test => seq![116u8, 101u8, 115u8, 116u8],
        // cmp
        InstrKind::Cmp => seq![99u8, 109u8, 112u8],
        // mov
        InstrKind::Mov => seq![109u8, 111u8, 118u8],
        // load1
        InstrKind::Load1 => seq![108u8, 111u8, 97u8, 100u8, 49u8],
        // loadu1
        InstrKind::Loadu1 => seq![108u8, 111u8, 97u8, 100u8, 117u8, 49u8],
        // load2
        InstrKind::Load2 => seq![108u8, 111u8, 97u8, 100u8, 50u8],
        // loadu2
        InstrKind::Loadu2 => seq![108u8, 111u8, 97u8, 100u8, 117u8, 50u8],
        // load4
        InstrKind::Load4 => seq![108u8, 111u8, 97u8, 100u8, 52u8],
        // loadu4
        InstrKind::Loadu4 => seq![108u8, 111u8, 97u8, 100u8, 117u8, 52u8],
        // load8
        InstrKind::Load8 => seq![108u8, 111u8, 97u8, 100u8, 56u8],
        // loadu8
        InstrKind::Loadu8 => seq![108u8, 111u8, 97u8, 100u8, 117u8, 56u8],
        // store1
        InstrKind::Store1 => seq![115u8, 116u8, 111u8, 114u8, 101u8, 49u8],
        // store2
        InstrKind::Store2 => seq![115u8, 116u8, 111u8, 114u8, 101u8, 50u8],
        // store4
        InstrKind::Store4 => seq![115u8, 116u8, 111u8, 114u8, 101u8, 52u8],
        // store8
        InstrKind::Store8 => seq![115u8, 116u8, 111u8, 114u8, 101u8, 56u8],
        // push
        InstrKind::Push => seq![112u8, 117u8, 115u8, 104u8],
        // pop
        InstrKind::Pop => seq![112u8, 111u8, 112u8],
        // jmp
        InstrKind::Jmp => seq![106u8, 109u8, 112u8],
        // je
        InstrKind::Je => seq![106u8, 101u8],
        // jne
        InstrKind::Jne => seq![106u8, 110u8, 101u8],
        // jg
        InstrKind::Jg => seq![106u8, 103u8],
        // jge
        InstrKind::Jge => seq![106u8, 103u8, 101u8],
        // ja
        InstrKind::Ja => seq![106u8, 97u8],
        // jae
        InstrKind::Jae => seq![106u8, 97u8, 101u8],
        // jl
        InstrKind::Jl => seq![106u8, 108u8],
        // jle
        InstrKind::Jle => seq![106u8, 108u8, 101u8],
        // jb
        InstrKind::Jb => seq![106u8, 98u8],
        // jbe
        InstrKind::Jbe => seq![106u8, 98u8, 101u8],
        // jo
        InstrKind::Jo => seq![106u8, 111u8],
        // jno
        InstrKind::Jno => seq![106u8, 110u8, 111u8],
        // jz
        InstrKind::Jz => seq![106u8, 122u8],
        // jnz
        InstrKind::Jnz => seq![106u8, 110u8, 122u8],
        // js
        InstrKind::Js => seq![106u8, 115u8],
        // jns
        InstrKind::Jns => seq![106u8, 110u8, 115u8],
        // call
        InstrKind::Call => seq![99u8, 97u8, 108u8, 108u8],
        // ret
        InstrKind::Ret => seq![114u8, 101u8, 116u8],
    }
}

impl InstrKind {
    /// The index of this kind in declaration order.
    pub fn index(self) -> (r: u16)
        ensures
            r == kind_index_spec(self),
            r <= 52,
    {
        match self {
            InstrKind::Nop => 0,
            InstrKind::Add => 1,
            InstrKind::Sub => 2,
            InstrKind::Mul => 3,
            InstrKind::Mull => 4,
            InstrKind::Mulu => 5,
            InstrKind::Mullu => 6,
            InstrKind::Div => 7,
            InstrKind::Divr => 8,
            InstrKind::Divu => 9,
            InstrKind::Divru => 10,
            InstrKind::Rem => 11,
            InstrKind::Remu => 12,
            InstrKind::And => 13,
            InstrKind::Or => 14,
            InstrKind::Xor => 15,
            InstrKind::Not => 16,
            InstrKind::Test => 17,
            InstrKind::Cmp => 18,
            InstrKind::Mov => 19,
            InstrKind::Load1 => 20,
            InstrKind::Loadu1 => 21,
            InstrKind::Load2 => 22,
            InstrKind::Loadu2 => 23,
            InstrKind::Load4 => 24,
            InstrKind::Loadu4 => 25,
            InstrKind::Load8 => 26,
            InstrKind::Loadu8 => 27,
            InstrKind::Store1 => 28,
            InstrKind::Store2 => 29,
            InstrKind::Store4 => 30,
            InstrKind::Store8 => 31,
            InstrKind::Push => 32,
            InstrKind::Pop => 33,
            InstrKind::Jmp => 34,
            InstrKind::Je => 35,
            InstrKind::Jne => 36,
            InstrKind::Jg => 37,
            InstrKind::Jge => 38,
            InstrKind::Ja => 39,
            InstrKind::Jae => 40,
            InstrKind::Jl => 41,
            InstrKind::Jle => 42,
            InstrKind::Jb => 43,
            InstrKind::Jbe => 44,
            InstrKind::Jo => 45,
            InstrKind::Jno => 46,
            InstrKind::Jz => 47,
            InstrKind::Jnz => 48,
            InstrKind::Js => 49,
            InstrKind::Jns => 50,
            InstrKind::Call => 51,
            InstrKind::Ret => 52,
        }
    }

    /// The base opcode assigned to this kind.
    pub fn base_opcode(self) -> (r: u16)
        ensures
            r == base_opcode_spec(self),
            r <= 624,
            r % 12 == 0,
    {
        12 * self.index()
    }

    /// The kind declared at a given index below 53.
    pub fn from_index(i: u16) -> (r: InstrKind)
        requires
            i <= 52,
        ensures
            r == kind_at_index_spec(i as int),
            kind_index_spec(r) == i,
    {
        match i {
            0 => InstrKind::Nop,
            1 => InstrKind::Add,
            2 => InstrKind::Sub,
            3 => InstrKind::Mul,
            4 => InstrKind::Mull,
            5 => InstrKind::Mulu,
            6 => InstrKind::Mullu,
            7 => InstrKind::Div,
            8 => InstrKind::Divr,
            9 => InstrKind::Divu,
            10 => InstrKind::Divru,
            11 => InstrKind::Rem,
            12 => InstrKind::Remu,
            13 => InstrKind::And,
            14 => InstrKind::Or,
            15 => InstrKind::Xor,
            16 => InstrKind::Not,
            17 => InstrKind::Test,
            18 => InstrKind::Cmp,
            19 => InstrKind::Mov,
            20 => InstrKind::Load1,
            21 => InstrKind::Loadu1,
            22 => InstrKind::Load2,
            23 => InstrKind::Loadu2,
            24 => InstrKind::Load4,
            25 => InstrKind::Loadu4,
            26 => InstrKind::Load8,
            27 => InstrKind::Loadu8,
            28 => InstrKind::Store1,
            29 => InstrKind::Store2,
            30 => InstrKind::Store4,
            31 => InstrKind::Store8,
            32 => InstrKind::Push,
            33 => InstrKind::Pop,
            34 => InstrKind::Jmp,
            35 => InstrKind::Je,
            36 => InstrKind::Jne,
            37 => InstrKind::Jg,
            38 => InstrKind::Jge,
            39 => InstrKind::Ja,
            40 => InstrKind::Jae,
            41 => InstrKind::Jl,
            42 => InstrKind::Jle,
            43 => InstrKind::Jb,
            44 => InstrKind::Jbe,
            45 => InstrKind::Jo,
            46 => InstrKind::Jno,
            47 => InstrKind::Jz,
            48 => InstrKind::Jnz,
            49 => InstrKind::Js,
            50 => InstrKind::Jns,
            51 => InstrKind::Call,
            _ => InstrKind::Ret,
        }
    }

    /// Recovers the instruction kind and opcode offset from an opcode: the
    /// kind with the greatest base opcode not above the observed opcode, and
    /// the distance to it. An offset above ten is rejected later, when the
    /// layout is looked up.
    pub fn from_opcode(opcode: crate::layout::Opcode) -> (r: (InstrKind, u16))
        requires
            opcode.wf(),
        ensures
            r == crate::decode::kind_of_opcode_spec(opcode.value),
            base_opcode_spec(r.0) <= opcode.value,
            r.1 == opcode.value - base_opcode_spec(r.0),
            opcode.value < base_opcode_spec(r.0) + 12 || r.0 == InstrKind::Ret,
    {
        let value = opcode.into_value();
        let index = value / 12;
        if index >= 52 {
            (InstrKind::Ret, value - 624)
        } else {
            let kind = InstrKind::from_index(index);
            proof {
                assert(12 * (value as int / 12) + value as int % 12 == value as int) by {
                    vstd::arithmetic::div_mod::lemma_fundamental_div_mod(value as int, 12);
                };
            }
            (kind, value % 12)
        }
    }

    /// The size in bytes this instruction has in the generated executable.
    pub fn size_bytes(&self) -> (r: u64)
        ensures
            r == 8,
    {
        8
    }

    /// The operand shape this kind declares.
    pub fn shape(self) -> (r: OperandShape)
        ensures
            r == shape_of_spec(self),
    {
        match self {
            InstrKind::Nop => OperandShape::Nullary,
            InstrKind::Ret => OperandShape::Nullary,
            InstrKind::Add => OperandShape::DestSource,
            InstrKind::Sub => OperandShape::DestSource,
            InstrKind::Mul => OperandShape::DestSource,
            InstrKind::Mulu => OperandShape::DestSource,
            InstrKind::Div => OperandShape::DestSource,
            InstrKind::Divu => OperandShape::DestSource,
            InstrKind::Rem => OperandShape::DestSource,
            InstrKind::Remu => OperandShape::DestSource,
            InstrKind::And => OperandShape::DestSource,
            InstrKind::Or => OperandShape::DestSource,
            InstrKind::Xor => OperandShape::DestSource,
            InstrKind::Mov => OperandShape::DestSource,
            InstrKind::Mull => OperandShape::DestDestSource,
            InstrKind::Mullu => OperandShape::DestDestSource,
            InstrKind::Divr => OperandShape::DestDestSource,
            InstrKind::Divru => OperandShape::DestDestSource,
            InstrKind::Test => OperandShape::SourceSource,
            InstrKind::Cmp => OperandShape::SourceSource,
            InstrKind::Not => OperandShape::DestOnly,
            InstrKind::Pop => OperandShape::DestOnly,
            InstrKind::Load1 => OperandShape::DestLoc,
            InstrKind::Loadu1 => OperandShape::DestLoc,
            InstrKind::Load2 => OperandShape::DestLoc,
            InstrKind::Loadu2 => OperandShape::DestLoc,
            InstrKind::Load4 => OperandShape::DestLoc,
            InstrKind::Loadu4 => OperandShape::DestLoc,
            InstrKind::Load8 => OperandShape::DestLoc,
            InstrKind::Loadu8 => OperandShape::DestLoc,
            InstrKind::Store1 => OperandShape::LocSource,
            InstrKind::Store2 => OperandShape::LocSource,
            InstrKind::Store4 => OperandShape::LocSource,
            InstrKind::Store8 => OperandShape::LocSource,
            InstrKind::Push => OperandShape::SourceOnly,
            InstrKind::Jmp => OperandShape::LocOnly,
            InstrKind::Je => OperandShape::LocOnly,
            InstrKind::Jne => OperandShape::LocOnly,
            InstrKind::Jg => OperandShape::LocOnly,
            InstrKind::Jge => OperandShape::LocOnly,
            InstrKind::Ja => OperandShape::LocOnly,
            InstrKind::Jae => OperandShape::LocOnly,
            InstrKind::Jl => OperandShape::LocOnly,
            InstrKind::Jle => OperandShape::LocOnly,
            InstrKind::Jb => OperandShape::LocOnly,
            InstrKind::Jbe => OperandShape::LocOnly,
            InstrKind::Jo => OperandShape::LocOnly,
            InstrKind::Jno => OperandShape::LocOnly,
            InstrKind::Jz => OperandShape::LocOnly,
            InstrKind::Jnz => OperandShape::LocOnly,
            InstrKind::Js => OperandShape::LocOnly,
            InstrKind::Jns => OperandShape::LocOnly,
            InstrKind::Call => OperandShape::LocOnly,
        }
    }

    /// The mnemonic of this kind.
    pub fn name(self) -> (r: Vec<u8>)
        ensures
            r@ == name_seq(self),
    {
        let r: Vec<u8> = match self {
            InstrKind::Nop => vec![110u8, 111u8, 112u8],
            InstrKind::Add => vec![97u8, 100u8, 100u8],
            InstrKind::Sub => vec![115u8, 117u8, 98u8],
            InstrKind::Mul => vec![109u8, 117u8, 108u8],
            InstrKind::Mull => vec![109u8, 117u8, 108u8, 108u8],
            InstrKind::Mulu => vec![109u8, 117u8, 108u8, 117u8],
            InstrKind::Mullu => vec![109u8, 117u8, 108u8, 108u8, 117u8],
            InstrKind::Div => vec![100u8, 105u8, 118u8],
            InstrKind::Divr => vec![100u8, 105u8, 118u8, 114u8],
            InstrKind::Divu => vec![100u8, 105u8, 118u8, 117u8],
            InstrKind::Divru => vec![100u8, 105u8, 118u8, 114u8, 117u8],
            InstrKind::Rem => vec![114u8, 101u8, 109u8],
            InstrKind::Remu => vec![114u8, 101u8, 109u8, 117u8],
            InstrKind::And => vec![97u8, 110u8, 100u8],
            InstrKind::Or => vec![111u8, 114u8],
            InstrKind::Xor => vec![120u8, 111u8, 114u8],
            InstrKind::Not => vec![110u8, 111u8, 116u8],
            InstrKind::Test => vec![116u8, 101u8, 115u8, 116u8],
            InstrKind::Cmp => vec![99u8, 109u8, 112u8],
            InstrKind::Mov => vec![109u8, 111u8, 118u8],
            InstrKind::Load1 => vec![108u8, 111u8, 97u8, 100u8, 49u8],
            InstrKind::Loadu1 => vec![108u8, 111u8, 97u8, 100u8, 117u8, 49u8],
            InstrKind::Load2 => vec![108u8, 111u8, 97u8, 100u8, 50u8],
            InstrKind::Loadu2 => vec![108u8, 111u8, 97u8, 100u8, 117u8, 50u8],
            InstrKind::Load4 => vec![108u8, 111u8, 97u8, 100u8, 52u8],
            InstrKind::Loadu4 => vec![108u8, 111u8, 97u8, 100u8, 117u8, 52u8],
            InstrKind::Load8 => vec![108u8, 111u8, 97u8, 100u8, 56u8],
            InstrKind::Loadu8 => vec![108u8, 111u8, 97u8, 100u8, 117u8, 56u8],
            InstrKind::Store1 => vec![115u8, 116u8, 111u8, 114u8, 101u8, 49u8],
            InstrKind::Store2 => vec![115u8, 116u8, 111u8, 114u8, 101u8, 50u8],
            InstrKind::Store4 => vec![115u8, 116u8, 111u8, 114u8, 101u8, 52u8],
            InstrKind::Store8 => vec![115u8, 116u8, 111u8, 114u8, 101u8, 56u8],
            InstrKind::Push => vec![112u8, 117u8, 115u8, 104u8],
            InstrKind::Pop => vec![112u8, 111u8, 112u8],
            InstrKind::Jmp => vec![106u8, 109u8, 112u8],
            InstrKind::Je => vec![106u8, 101u8],
            InstrKind::Jne => vec![106u8, 110u8, 101u8],
            InstrKind::Jg => vec![106u8, 103u8],
            InstrKind::Jge => vec![106u8, 103u8, 101u8],
            InstrKind::Ja => vec![106u8, 97u8],
            InstrKind::Jae => vec![106u8, 97u8, 101u8],
            InstrKind::Jl => vec![106u8, 108u8],
            InstrKind::Jle => vec![106u8, 108u8, 101u8],
            InstrKind::Jb => vec![106u8, 98u8],
            InstrKind::Jbe => vec![106u8, 98u8, 101u8],
            InstrKind::Jo => vec![106u8, 111u8],
            InstrKind::Jno => vec![106u8, 110u8, 111u8],
            InstrKind::Jz => vec![106u8, 122u8],
            InstrKind::Jnz => vec![106u8, 110u8, 122u8],
            InstrKind::Js => vec![106u8, 115u8],
            InstrKind::Jns => vec![106u8, 110u8, 115u8],
            InstrKind::Call => vec![99u8, 97u8, 108u8, 108u8],
            InstrKind::Ret => vec![114u8, 101u8, 116u8],
        };
        r
    }

    /// Looks a mnemonic up in the instruction table.
    pub fn from_name(name: &[u8]) -> (r: Option<InstrKind>)
        ensures
            match r {
                Some(k) => name@ == name_seq(k),
                None => forall|k: InstrKind| name@ != name_seq(k),
            },
    {
        let mut i: u16 = 0;
        while i < 53
            invariant
                i <= 53,
                forall|j: int| 0 <= j < i ==> name@ != name_seq(kind_at_index_spec(j)),
            decreases 53 - i,
        {
            let candidate = InstrKind::from_index(i);
            let expected = candidate.name();
            if bytes_eq(name, expected.as_slice()) {
                return Some(candidate);
            }
            i = i + 1;
        }
        proof {
            assert forall|k: InstrKind| name@ != name_seq(k) by {
                lemma_kind_index_roundtrip(k);
                assert(name@ != name_seq(kind_at_index_spec(kind_index_spec(k))));
            };
        }
        None
    }
}

/// Declaration position and the kind table are mutually inverse.
pub proof fn lemma_kind_index_roundtrip(k: InstrKind)
    ensures
        kind_at_index_spec(kind_index_spec(k)) == k,
{
}

/// Base opcodes never collide: a kind earlier in declaration order keeps its
/// whole opcode range, all eleven layout offsets included, below the next
/// kind's base opcode.
pub proof fn lemma_opcode_ranges_disjoint(k1: InstrKind, k2: InstrKind)
    requires
        kind_index_spec(k1) < kind_index_spec(k2),
    ensures
        base_opcode_spec(k1) + 10 < base_opcode_spec(k2),
{
}

/// The validated operands of an instruction, one variant per operand shape.
#[derive(Debug, Clone, PartialEq)]
pub enum Args {
    Nullary,
    DestSource(Destination, Source),
    DestDestSource(Destination, Destination, Source),
    SourceSource(Source, Source),
    DestLoc(Destination, Location),
    LocSource(Location, Source),
    SourceOnly(Source),
    DestOnly(Destination),
    LocOnly(Location),
}

impl Args {
    /// The shape these operands fill.
    pub open spec fn shape_spec(self) -> OperandShape {
        match self {
            Args::Nullary => OperandShape::Nullary,
            Args::DestSource(_, _) => OperandShape::DestSource,
            Args::DestDestSource(_, _, _) => OperandShape::DestDestSource,
            Args::SourceSource(_, _) => OperandShape::SourceSource,
            Args::DestLoc(_, _) => OperandShape::DestLoc,
            Args::LocSource(_, _) => OperandShape::LocSource,
            Args::SourceOnly(_) => OperandShape::SourceOnly,
            Args::DestOnly(_) => OperandShape::DestOnly,
            Args::LocOnly(_) => OperandShape::LocOnly,
        }
    }

    /// Every register operand names a register below 64.
    pub open spec fn wf(self) -> bool {
        match self {
            Args::Nullary => true,
            Args::DestSource(d, s) => dest_wf(d) && source_wf(s),
            Args::DestDestSource(d1, d2, s) => dest_wf(d1) && dest_wf(d2) && source_wf(s),
            Args::SourceSource(s1, s2) => source_wf(s1) && source_wf(s2),
            Args::DestLoc(d, l) => dest_wf(d) && loc_wf(l),
            Args::LocSource(l, s) => loc_wf(l) && source_wf(s),
            Args::SourceOnly(s) => source_wf(s),
            Args::DestOnly(d) => dest_wf(d),
            Args::LocOnly(l) => loc_wf(l),
        }
    }
}

pub open spec fn source_wf(s: Source) -> bool {
    match s {
        Source::Register(reg) => reg.kind.wf(),
        _ => true,
    }
}

pub open spec fn dest_wf(d: Destination) -> bool {
    match d {
        Destination::Register(reg) => reg.kind.wf(),
    }
}

pub open spec fn loc_wf(l: Location) -> bool {
    match l {
        Location::Register(reg, _) => reg.kind.wf(),
        _ => true,
    }
}

/// A validated instruction: its kind and its checked operands. Labels inside
/// the operands are still unresolved.
#[derive(Debug, Clone, PartialEq)]
pub struct Instr {
    pub kind: InstrKind,
    pub args: Args,
    /// The span of the entire instruction.
    pub span: Span,
}

/// The arguments not yet consumed after taking the first `i`.
pub open spec fn rest_args(orig: Seq<ast::InstrArg>, i: int) -> Seq<ast::InstrArg> {
    if i <= orig.len() {
        orig.skip(i)
    } else {
        Seq::empty()
    }
}

/// The operand taken from position `i` of the argument list when a
/// destination is expected: a missing argument recovers as register zero at
/// the mnemonic's span.
pub open spec fn dest_arg_spec(args: Seq<ast::InstrArg>, i: int, name_span: Span) -> Destination {
    if i < args.len() {
        dest_of(args[i])
    } else {
        Destination::error_default_spec(name_span)
    }
}

pub open spec fn source_arg_spec(args: Seq<ast::InstrArg>, i: int, name_span: Span) -> Source {
    if i < args.len() {
        source_of(args[i])
    } else {
        Source::Register(
            ir::Register { kind: ir::RegisterKind::Numbered(0), span: name_span },
        )
    }
}

pub open spec fn loc_arg_spec(args: Seq<ast::InstrArg>, i: int, name_span: Span) -> Location {
    if i < args.len() {
        loc_of(args[i])
    } else {
        Location::Register(
            ir::Register { kind: ir::RegisterKind::Numbered(0), span: name_span },
            None,
        )
    }
}

/// The operands a known instruction kind validates to, shape by shape.
pub open spec fn args_spec(
    shape: OperandShape,
    args: Seq<ast::InstrArg>,
    name_span: Span,
) -> Args {
    match shape {
        OperandShape::Nullary => Args::Nullary,
        OperandShape::DestSource => Args::DestSource(
            dest_arg_spec(args, 0, name_span),
            source_arg_spec(args, 1, name_span),
        ),
        OperandShape::DestDestSource => Args::DestDestSource(
            dest_arg_spec(args, 0, name_span),
            dest_arg_spec(args, 1, name_span),
            source_arg_spec(args, 2, name_span),
        ),
        OperandShape::SourceSource => Args::SourceSource(
            source_arg_spec(args, 0, name_span),
            source_arg_spec(args, 1, name_span),
        ),
        OperandShape::DestLoc => Args::DestLoc(
            dest_arg_spec(args, 0, name_span),
            loc_arg_spec(args, 1, name_span),
        ),
        OperandShape::LocSource => Args::LocSource(
            loc_arg_spec(args, 0, name_span),
            source_arg_spec(args, 1, name_span),
        ),
        OperandShape::SourceOnly => Args::SourceOnly(source_arg_spec(args, 0, name_span)),
        OperandShape::DestOnly => Args::DestOnly(dest_arg_spec(args, 0, name_span)),
        OperandShape::LocOnly => Args::LocOnly(loc_arg_spec(args, 0, name_span)),
    }
}

/// Whether the provided arguments fill a shape exactly, both in count and
/// in kind, so that validation owes a clean pass.
pub open spec fn args_all_ok(shape: OperandShape, args: Seq<ast::InstrArg>) -> bool {
    match shape {
        OperandShape::Nullary => args.len() == 0,
        OperandShape::DestSource => args.len() == 2 && dest_all_ok(args[0]) && source_all_ok(
            args[1],
        ),
        OperandShape::DestDestSource => args.len() == 3 && dest_all_ok(args[0]) && dest_all_ok(
            args[1],
        ) && source_all_ok(args[2]),
        OperandShape::SourceSource => args.len() == 2 && source_all_ok(args[0]) && source_all_ok(
            args[1],
        ),
        OperandShape::DestLoc => args.len() == 2 && dest_all_ok(args[0]) && loc_all_ok(args[1]),
        OperandShape::LocSource => args.len() == 2 && loc_all_ok(args[0]) && source_all_ok(
            args[1],
        ),
        OperandShape::SourceOnly => args.len() == 1 && source_all_ok(args[0]),
        OperandShape::DestOnly => args.len() == 1 && dest_all_ok(args[0]),
        OperandShape::LocOnly => args.len() == 1 && loc_all_ok(args[0]),
    }
}

/// What a known kind validates to.
pub open spec fn validate_known_spec(k: InstrKind, instr: ast::Instr, full_span: Span) -> Instr {
    Instr { kind: k, args: args_spec(shape_of_spec(k), instr.args@, instr.name.span), span: full_span }
}

impl Instr {
    pub open spec fn wf(self) -> bool {
        self.args.shape_spec() == shape_of_spec(self.kind) && self.args.wf()
    }

    /// The size in bytes this instruction has in the generated executable.
    pub fn size_bytes(&self) -> (r: u64)
        ensures
            r == 8,
    {
        8
    }

    /// Checks an instruction against the table: the mnemonic must be known,
    /// the arguments must fill the kind's operand shape. Missing arguments
    /// recover as register zero, extra arguments are diagnosed, and an
    /// unknown mnemonic recovers as `nop`, each with a diagnostic.
    pub fn validate(instr: ast::Instr, diag: &mut Diagnostics) -> (r: Instr)
        ensures
            r.wf(),
            old(diag).records@.is_prefix_of(final(diag).records@),
            (exists|k: InstrKind| instr.name.value@ == name_seq(k)) ==> {
                &&& instr.name.value@ == name_seq(r.kind)
                &&& r == validate_known_spec(
                    r.kind,
                    instr,
                    spec_instr_span(instr),
                )
            },
            (forall|k: InstrKind| instr.name.value@ != name_seq(k)) ==> (r == (Instr {
                kind: InstrKind::Nop,
                args: Args::Nullary,
                span: instr.name.span,
            }) && crate::diag::error_count(final(diag).records@) == crate::diag::error_count(
                old(diag).records@,
            ) + 1),
            instr.name.value@ == name_seq(r.kind) && args_all_ok(
                shape_of_spec(r.kind),
                instr.args@,
            ) ==> final(diag).records@ == old(diag).records@,
    {
        let span = instr.span();
        let kind = match InstrKind::from_name(instr.name.value.as_slice()) {
            Some(kind) => kind,
            None => {
                let ghost pre = diag.records@;
                diag.span_error(DiagKind::UnknownMnemonic, instr.name.span);
                proof {
                    crate::diag::lemma_error_count_push(pre, diag.records@.last());
                }
                // Error recovery: stand in a `nop` so assembly continues.
                return Instr { kind: InstrKind::Nop, args: Args::Nullary, span: instr.name.span };
            },
        };
        let name_span = instr.name.span;
        let expected: usize = match kind.shape() {
            OperandShape::Nullary => 0,
            OperandShape::DestSource => 2,
            OperandShape::DestDestSource => 3,
            OperandShape::SourceSource => 2,
            OperandShape::DestLoc => 2,
            OperandShape::LocSource => 2,
            OperandShape::SourceOnly => 1,
            OperandShape::DestOnly => 1,
            OperandShape::LocOnly => 1,
        };
        let mut args = instr.args;
        let ghost orig_args = args@;
        proof {
            assert(rest_args(orig_args, 0) =~= orig_args);
        }
        let provided = args.len();
        let args_len = args.len();
        let shape = kind.shape();
        let built: Args = match shape {
            OperandShape::Nullary => Args::Nullary,
            OperandShape::DestSource => {
                let d = Self::take_dest(&mut args, Ghost(orig_args), Ghost(0), name_span, diag);
                let s = Self::take_source(&mut args, Ghost(orig_args), Ghost(1), name_span, diag);
                Args::DestSource(d, s)
            },
            OperandShape::DestDestSource => {
                let d1 = Self::take_dest(&mut args, Ghost(orig_args), Ghost(0), name_span, diag);
                let d2 = Self::take_dest(&mut args, Ghost(orig_args), Ghost(1), name_span, diag);
                let s = Self::take_source(&mut args, Ghost(orig_args), Ghost(2), name_span, diag);
                Args::DestDestSource(d1, d2, s)
            },
            OperandShape::SourceSource => {
                let s1 = Self::take_source(&mut args, Ghost(orig_args), Ghost(0), name_span, diag);
                let s2 = Self::take_source(&mut args, Ghost(orig_args), Ghost(1), name_span, diag);
                Args::SourceSource(s1, s2)
            },
            OperandShape::DestLoc => {
                let d = Self::take_dest(&mut args, Ghost(orig_args), Ghost(0), name_span, diag);
                let l = Self::take_loc(&mut args, Ghost(orig_args), Ghost(1), name_span, diag);
                Args::DestLoc(d, l)
            },
            OperandShape::LocSource => {
                let l = Self::take_loc(&mut args, Ghost(orig_args), Ghost(0), name_span, diag);
                let s = Self::take_source(&mut args, Ghost(orig_args), Ghost(1), name_span, diag);
                Args::LocSource(l, s)
            },
            OperandShape::SourceOnly => {
                let s = Self::take_source(&mut args, Ghost(orig_args), Ghost(0), name_span, diag);
                Args::SourceOnly(s)
            },
            OperandShape::DestOnly => {
                let d = Self::take_dest(&mut args, Ghost(orig_args), Ghost(0), name_span, diag);
                Args::DestOnly(d)
            },
            OperandShape::LocOnly => {
                let l = Self::take_loc(&mut args, Ghost(orig_args), Ghost(0), name_span, diag);
                Args::LocOnly(l)
            },
        };
        if provided > expected {
            diag.span_error(DiagKind::OperandArityError, name_span);
        }
        Instr { kind, args: built, span }
    }

    /// Takes the next argument as a destination, or recovers with register
    /// zero and a diagnostic when the argument list has run out.
    fn take_dest(
        args: &mut Vec<ast::InstrArg>,
        Ghost(orig): Ghost<Seq<ast::InstrArg>>,
        Ghost(i): Ghost<int>,
        name_span: Span,
        diag: &mut Diagnostics,
    ) -> (r: Destination)
        requires
            0 <= i,
            old(args)@ == rest_args(orig, i),
        ensures
            final(args)@ == rest_args(orig, i + 1),
            r == dest_arg_spec(orig, i, name_span),
            dest_wf(r),
            old(diag).records@.is_prefix_of(final(diag).records@),
            i < orig.len() && dest_all_ok(orig[i]) ==> final(diag).records@ == old(
                diag,
            ).records@,
    {
        proof {
            if i < orig.len() {
                assert(rest_args(orig, i).len() > 0);
                assert(rest_args(orig, i)[0] == orig[i]);
            } else if i == orig.len() {
                assert(rest_args(orig, i).len() == 0);
                assert(rest_args(orig, i) =~= rest_args(orig, i + 1));
            } else {
                assert(rest_args(orig, i) =~= rest_args(orig, i + 1));
            }
        }
        if args.len() > 0 {
            let arg = args.remove(0);
            proof {
                assert(args@ =~= rest_args(orig, i + 1));
            }
            Destination::validate(arg, diag)
        } else {
            diag.span_error(DiagKind::OperandArityError, name_span);
            // Error recovery: a default register keeps the program going.
            Destination::error_default(name_span)
        }
    }

    /// Takes the next argument as a source, or recovers with register zero
    /// and a diagnostic when the argument list has run out.
    fn take_source(
        args: &mut Vec<ast::InstrArg>,
        Ghost(orig): Ghost<Seq<ast::InstrArg>>,
        Ghost(i): Ghost<int>,
        name_span: Span,
        diag: &mut Diagnostics,
    ) -> (r: Source)
        requires
            0 <= i,
            old(args)@ == rest_args(orig, i),
        ensures
            final(args)@ == rest_args(orig, i + 1),
            r == source_arg_spec(orig, i, name_span),
            source_wf(r),
            old(diag).records@.is_prefix_of(final(diag).records@),
            i < orig.len() && source_all_ok(orig[i]) ==> final(diag).records@ == old(
                diag,
            ).records@,
    {
        proof {
            if i < orig.len() {
                assert(rest_args(orig, i).len() > 0);
                assert(rest_args(orig, i)[0] == orig[i]);
            } else if i == orig.len() {
                assert(rest_args(orig, i).len() == 0);
                assert(rest_args(orig, i) =~= rest_args(orig, i + 1));
            } else {
                assert(rest_args(orig, i) =~= rest_args(orig, i + 1));
            }
        }
        if args.len() > 0 {
            let arg = args.remove(0);
            proof {
                assert(args@ =~= rest_args(orig, i + 1));
            }
            Source::validate(arg, diag)
        } else {
            diag.span_error(DiagKind::OperandArityError, name_span);
            // Error recovery: a default register keeps the program going.
            Source::error_default(name_span)
        }
    }

    /// Takes the next argument as a location, or recovers with register zero
    /// and a diagnostic when the argument list has run out.
    fn take_loc(
        args: &mut Vec<ast::InstrArg>,
        Ghost(orig): Ghost<Seq<ast::InstrArg>>,
        Ghost(i): Ghost<int>,
        name_span: Span,
        diag: &mut Diagnostics,
    ) -> (r: Location)
        requires
            0 <= i,
            old(args)@ == rest_args(orig, i),
        ensures
            final(args)@ == rest_args(orig, i + 1),
            r == loc_arg_spec(orig, i, name_span),
            loc_wf(r),
            old(diag).records@.is_prefix_of(final(diag).records@),
            i < orig.len() && loc_all_ok(orig[i]) ==> final(diag).records@ == old(diag).records@,
    {
        proof {
            if i < orig.len() {
                assert(rest_args(orig, i).len() > 0);
                assert(rest_args(orig, i)[0] == orig[i]);
            } else if i == orig.len() {
                assert(rest_args(orig, i).len() == 0);
                assert(rest_args(orig, i) =~= rest_args(orig, i + 1));
            } else {
                assert(rest_args(orig, i) =~= rest_args(orig, i + 1));
            }
        }
        if args.len() > 0 {
            let arg = args.remove(0);
            proof {
                assert(args@ =~= rest_args(orig, i + 1));
            }
            Location::validate(arg, diag)
        } else {
            diag.span_error(DiagKind::OperandArityError, name_span);
            // Error recovery: a default register keeps the program going.
            Location::error_default(name_span)
        }
    }
}

/// Like `Source`, but with labels resolved to immediates.
#[derive(Debug, Clone, PartialEq)]
pub enum Src {
    Register(ir::Register),
    Immediate(ir::Immediate),
}

/// What label resolution yields for a source operand.
pub open spec fn src_res_spec(s: Source, m: Map<Seq<u8>, u64>) -> Src {
    match s {
        Source::Register(reg) => Src::Register(reg),
        Source::Immediate(imm) => Src::Immediate(imm),
        Source::Label(label) => Src::Immediate(
            ast::Integer {
                value: crate::label_offsets::lookup_spec(m, label.value@) as i128,
                span: label.span,
            },
        ),
    }
}

impl Src {
    /// Resolves a label operand to its byte offset; registers and immediates
    /// pass through.
    pub fn new(source: Source, diag: &mut Diagnostics, labels: &LabelOffsets) -> (r: Src)
        ensures
            r == src_res_spec(source, labels@),
            old(diag).records@.is_prefix_of(final(diag).records@),
    {
        match source {
            Source::Register(reg) => Src::Register(reg),
            Source::Immediate(imm) => Src::Immediate(imm),
            Source::Label(label) => Src::Immediate(labels.lookup(&label, diag)),
        }
    }
}

/// Like `Destination`, but after label resolution (a destination is always a
/// register).
#[derive(Debug, Clone, PartialEq)]
pub enum Dest {
    Register(ir::Register),
}

impl Dest {
    pub fn new(dest: Destination, _diag: &Diagnostics, _labels: &LabelOffsets) -> (r: Dest)
        ensures
            r == (match dest {
                Destination::Register(reg) => Dest::Register(reg),
            }),
    {
        match dest {
            Destination::Register(reg) => Dest::Register(reg),
        }
    }
}

/// Like `Location`, but with labels resolved to immediates.
#[derive(Debug, Clone, PartialEq)]
pub enum Loc {
    Register(ir::Register, Option<ir::Offset>),
    Immediate(ir::Immediate),
}

/// What label resolution yields for a location operand.
pub open spec fn loc_res_spec(l: Location, m: Map<Seq<u8>, u64>) -> Loc {
    match l {
        Location::Register(reg, offset) => Loc::Register(reg, offset),
        Location::Immediate(imm) => Loc::Immediate(imm),
        Location::Label(label) => Loc::Immediate(
            ast::Integer {
                value: crate::label_offsets::lookup_spec(m, label.value@) as i128,
                span: label.span,
            },
        ),
    }
}

impl Loc {
    /// Resolves a label operand to its byte offset; registers and immediates
    /// pass through.
    pub fn new(loc: Location, diag: &mut Diagnostics, labels: &LabelOffsets) -> (r: Loc)
        ensures
            r == loc_res_spec(loc, labels@),
            old(diag).records@.is_prefix_of(final(diag).records@),
    {
        match loc {
            Location::Register(reg, offset) => Loc::Register(reg, offset),
            Location::Immediate(imm) => Loc::Immediate(imm),
            Location::Label(label) => Loc::Immediate(labels.lookup(&label, diag)),
        }
    }
}

/// The 6-bit encoding of a validated register.
pub open spec fn reg_enc(reg: ir::Register) -> Reg {
    Reg { value: reg.kind.index_spec() }
}

/// The encoded form of a checked offset.
pub open spec fn off_enc(off: ir::Offset) -> crate::layout::Offset {
    crate::layout::Offset { value: off.value }
}

/// The layout selected for validated operands, given the label offsets: the
/// smallest layout whose fields accept the resolved operands, ties broken by
/// layout index. Nullary instructions encode as two zero registers in the
/// offset-zero layout.
pub open spec fn layout_spec(args: Args, m: Map<Seq<u8>, u64>) -> Layout {
    match args {
        Args::Nullary => Layout::L1(L1(Reg { value: 0 }, Reg { value: 0 })),
        Args::DestSource(Destination::Register(d), s) => match src_res_spec(s, m) {
            Src::Register(sr) => Layout::L1(L1(reg_enc(d), reg_enc(sr))),
            Src::Immediate(imm) => Layout::L2(L2(reg_enc(d), Imm::new_spec(46, imm.value))),
        },
        Args::DestDestSource(Destination::Register(d1), Destination::Register(d2), s) => match src_res_spec(
            s,
            m,
        ) {
            Src::Register(sr) => Layout::L7(L7(reg_enc(d1), reg_enc(d2), reg_enc(sr))),
            Src::Immediate(imm) => Layout::L8(
                L8(reg_enc(d1), reg_enc(d2), Imm::new_spec(40, imm.value)),
            ),
        },
        Args::SourceSource(s1, s2) => match (src_res_spec(s1, m), src_res_spec(s2, m)) {
            (Src::Register(r1), Src::Register(r2)) => Layout::L1(L1(reg_enc(r1), reg_enc(r2))),
            (Src::Register(r1), Src::Immediate(im2)) => Layout::L2(
                L2(reg_enc(r1), Imm::new_spec(46, im2.value)),
            ),
            (Src::Immediate(im1), Src::Register(r2)) => Layout::L3(
                L3(Imm::new_spec(46, im1.value), reg_enc(r2)),
            ),
            (Src::Immediate(im1), Src::Immediate(im2)) => Layout::L6(
                L6(Imm::new_spec(26, im1.value), Imm::new_spec(26, im2.value)),
            ),
        },
        Args::DestLoc(Destination::Register(d), l) => match loc_res_spec(l, m) {
            Loc::Register(lr, None) => Layout::L1(L1(reg_enc(d), reg_enc(lr))),
            Loc::Register(lr, Some(off)) => Layout::L4(
                L4(reg_enc(d), reg_enc(lr), off_enc(off)),
            ),
            Loc::Immediate(imm) => Layout::L2(L2(reg_enc(d), Imm::new_spec(46, imm.value))),
        },
        Args::LocSource(l, s) => match (loc_res_spec(l, m), src_res_spec(s, m)) {
            (Loc::Register(lr, None), Src::Register(sr)) => Layout::L1(
                L1(reg_enc(lr), reg_enc(sr)),
            ),
            (Loc::Register(lr, None), Src::Immediate(imm)) => Layout::L2(
                L2(reg_enc(lr), Imm::new_spec(46, imm.value)),
            ),
            (Loc::Register(lr, Some(off)), Src::Register(sr)) => Layout::L4(
                L4(reg_enc(lr), reg_enc(sr), off_enc(off)),
            ),
            (Loc::Register(lr, Some(off)), Src::Immediate(imm)) => Layout::L5(
                L5(reg_enc(lr), off_enc(off), Imm::new_spec(30, imm.value)),
            ),
            (Loc::Immediate(im1), Src::Register(sr)) => Layout::L3(
                L3(Imm::new_spec(46, im1.value), reg_enc(sr)),
            ),
            (Loc::Immediate(im1), Src::Immediate(im2)) => Layout::L6(
                L6(Imm::new_spec(26, im1.value), Imm::new_spec(26, im2.value)),
            ),
        },
        Args::SourceOnly(s) => match src_res_spec(s, m) {
            Src::Register(sr) => Layout::L9(L9(reg_enc(sr))),
            Src::Immediate(imm) => Layout::L10(L10(Imm::new_spec(52, imm.value))),
        },
        Args::DestOnly(Destination::Register(d)) => Layout::L9(L9(reg_enc(d))),
        Args::LocOnly(l) => match loc_res_spec(l, m) {
            Loc::Register(lr, None) => Layout::L9(L9(reg_enc(lr))),
            Loc::Register(lr, Some(off)) => Layout::L11(L11(reg_enc(lr), off_enc(off))),
            Loc::Immediate(imm) => Layout::L10(L10(Imm::new_spec(52, imm.value))),
        },
    }
}

impl Instr {
    /// The binary form this instruction lays out to under the given label
    /// offsets.
    pub open spec fn layout_instr_spec(self, m: Map<Seq<u8>, u64>) -> InstrLayout {
        InstrLayout {
            base_opcode: base_opcode_spec(self.kind) as u16,
            layout: layout_spec(self.args, m),
        }
    }

    /// Resolves labels, checks each immediate against the width the selected
    /// layout gives it, and picks the layout for this instruction's operands.
    pub fn layout(self, diag: &mut Diagnostics, labels: &LabelOffsets) -> (r: InstrLayout)
        requires
            self.wf(),
        ensures
            r == self.layout_instr_spec(labels@),
            r.wf(),
            old(diag).records@.is_prefix_of(final(diag).records@),
    {
        let base_opcode = self.kind.base_opcode();
        let layout: Layout = match self.args {
            Args::Nullary => Layout::L1(L1(Reg { value: 0 }, Reg { value: 0 })),
            Args::DestSource(Destination::Register(d), s) => match Src::new(s, diag, labels) {
                Src::Register(sr) => Layout::L1(L1(Reg::new(d), Reg::new(sr))),
                Src::Immediate(imm) => Layout::L2(L2(Reg::new(d), Imm::new(46, imm, diag))),
            },
            Args::DestDestSource(
                Destination::Register(d1),
                Destination::Register(d2),
                s,
            ) => match Src::new(s, diag, labels) {
                Src::Register(sr) => Layout::L7(L7(Reg::new(d1), Reg::new(d2), Reg::new(sr))),
                Src::Immediate(imm) => Layout::L8(
                    L8(Reg::new(d1), Reg::new(d2), Imm::new(40, imm, diag)),
                ),
            },
            Args::SourceSource(s1, s2) => {
                let r1 = Src::new(s1, diag, labels);
                let r2 = Src::new(s2, diag, labels);
                match (r1, r2) {
                    (Src::Register(r1), Src::Register(r2)) => Layout::L1(
                        L1(Reg::new(r1), Reg::new(r2)),
                    ),
                    (Src::Register(r1), Src::Immediate(im2)) => Layout::L2(
                        L2(Reg::new(r1), Imm::new(46, im2, diag)),
                    ),
                    (Src::Immediate(im1), Src::Register(r2)) => Layout::L3(
                        L3(Imm::new(46, im1, diag), Reg::new(r2)),
                    ),
                    (Src::Immediate(im1), Src::Immediate(im2)) => {
                        let e1 = Imm::new(26, im1, diag);
                        let e2 = Imm::new(26, im2, diag);
                        Layout::L6(L6(e1, e2))
                    },
                }
            },
            Args::DestLoc(Destination::Register(d), l) => match Loc::new(l, diag, labels) {
                Loc::Register(lr, None) => Layout::L1(L1(Reg::new(d), Reg::new(lr))),
                Loc::Register(lr, Some(off)) => Layout::L4(
                    L4(Reg::new(d), Reg::new(lr), crate::layout::Offset::new(off)),
                ),
                Loc::Immediate(imm) => Layout::L2(L2(Reg::new(d), Imm::new(46, imm, diag))),
            },
            Args::LocSource(l, s) => {
                let lr = Loc::new(l, diag, labels);
                let sr = Src::new(s, diag, labels);
                match (lr, sr) {
                    (Loc::Register(lr, None), Src::Register(sr)) => Layout::L1(
                        L1(Reg::new(lr), Reg::new(sr)),
                    ),
                    (Loc::Register(lr, None), Src::Immediate(imm)) => Layout::L2(
                        L2(Reg::new(lr), Imm::new(46, imm, diag)),
                    ),
                    (Loc::Register(lr, Some(off)), Src::Register(sr)) => Layout::L4(
                        L4(Reg::new(lr), Reg::new(sr), crate::layout::Offset::new(off)),
                    ),
                    (Loc::Register(lr, Some(off)), Src::Immediate(imm)) => Layout::L5(
                        L5(Reg::new(lr), crate::layout::Offset::new(off), Imm::new(30, imm, diag)),
                    ),
                    (Loc::Immediate(im1), Src::Register(sr)) => Layout::L3(
                        L3(Imm::new(46, im1, diag), Reg::new(sr)),
                    ),
                    (Loc::Immediate(im1), Src::Immediate(im2)) => {
                        let e1 = Imm::new(26, im1, diag);
                        let e2 = Imm::new(26, im2, diag);
                        Layout::L6(L6(e1, e2))
                    },
                }
            },
            Args::SourceOnly(s) => match Src::new(s, diag, labels) {
                Src::Register(sr) => Layout::L9(L9(Reg::new(sr))),
                Src::Immediate(imm) => Layout::L10(L10(Imm::new(52, imm, diag))),
            },
            Args::DestOnly(Destination::Register(d)) => Layout::L9(L9(Reg::new(d))),
            Args::LocOnly(l) => match Loc::new(l, diag, labels) {
                Loc::Register(lr, None) => Layout::L9(L9(Reg::new(lr))),
                Loc::Register(lr, Some(off)) => Layout::L11(
                    L11(Reg::new(lr), crate::layout::Offset::new(off)),
                ),
                Loc::Immediate(imm) => Layout::L10(L10(Imm::new(52, imm, diag))),
            },
        };
        InstrLayout { base_opcode, layout }
    }
}

/// Decoding the encoding of a well-formed instruction recovers the base
/// opcode, the layout offset, and every argument field exactly: encoding
/// loses nothing.
pub proof fn lemma_instr_round_trip(il: InstrLayout)
    requires
        il.wf(),
    ensures
        0 <= il.encode_spec() < 0x10000000000000000,
        ({
            let opcode = (il.encode_spec() as u64) / crate::layout::POW52;
            &&& opcode == il.base_opcode + il.layout.opcode_offset_spec()
            &&& opcode / 12 == il.base_opcode / 12
            &&& opcode % 12 == il.layout.opcode_offset_spec()
            &&& base_opcode_spec(kind_at_index_spec(opcode as int / 12)) == il.base_opcode
            &&& Layout::decode_spec(il.encode_spec() as u64, (opcode % 12) as u16) == Some(
                il.layout,
            )
        }),
{
    crate::layout::lemma_layout_round_trip(il.layout, il.base_opcode);
    let opcode = (il.encode_spec() as u64) / crate::layout::POW52;
    let off = il.layout.opcode_offset_spec() as int;
    let q = il.base_opcode as int / 12;
    assert(il.base_opcode == 12 * q) by {
        vstd::arithmetic::div_mod::lemma_fundamental_div_mod(il.base_opcode as int, 12);
    };
    vstd::arithmetic::div_mod::lemma_fundamental_div_mod_converse(12 * q + off, 12, q, off);
    assert(opcode / 12 == q && opcode % 12 == off);
    assert(0 <= q <= 52);
    assert(base_opcode_spec(kind_at_index_spec(q)) == 12 * q);
}

/// The arguments of an instruction after constant substitution.
pub open spec fn substituted_args(
    consts: Map<Seq<u8>, ast::Integer>,
    args: Seq<ast::InstrArg>,
) -> Seq<ast::InstrArg> {
    Seq::new(args.len(), |i: int| crate::const_table::subst_arg_spec(consts, args[i]))
}

/// What instruction validation yields for a parsed instruction once its
/// constant names are substituted: a known mnemonic gives the kind whose
/// name it is, with the substituted arguments filling that kind's shape;
/// an unknown mnemonic recovers as `nop`.
pub open spec fn validated_instr_ok(
    out: Instr,
    inp: ast::Instr,
    consts: Map<Seq<u8>, ast::Integer>,
) -> bool {
    let args2 = substituted_args(consts, inp.args@);
    let full_span = if args2.len() > 0 {
        Span { start: inp.name.span.start, end: args2.last().span_of().end }
    } else {
        inp.name.span
    };
    &&& ((exists|k: InstrKind| inp.name.value@ == name_seq(k)) ==> (inp.name.value@ == name_seq(
        out.kind,
    ) && out == (Instr {
        kind: out.kind,
        args: args_spec(shape_of_spec(out.kind), args2, inp.name.span),
        span: full_span,
    })))
    &&& ((forall|k: InstrKind| inp.name.value@ != name_seq(k)) ==> out == (Instr {
        kind: InstrKind::Nop,
        args: Args::Nullary,
        span: inp.name.span,
    }))
    &&& out.wf()
}

/// Whether an instruction passes validation without a diagnostic: the
/// mnemonic is known and, for every kind the mnemonic names, the
/// substituted arguments fill that kind's shape exactly.
pub open spec fn instr_subst_all_ok(inp: ast::Instr, consts: Map<Seq<u8>, ast::Integer>) -> bool {
    let args2 = substituted_args(consts, inp.args@);
    &&& (exists|k: InstrKind| inp.name.value@ == name_seq(k))
    &&& (forall|k: InstrKind|
        inp.name.value@ == name_seq(k) ==> args_all_ok(shape_of_spec(k), args2))
}

/// The span of an unvalidated instruction: from its mnemonic to its last
/// argument.
pub open spec fn spec_instr_span(instr: ast::Instr) -> Span {
    if instr.args@.len() > 0 {
        Span { start: instr.name.span.start, end: instr.args@.last().span_of().end }
    } else {
        instr.name.span
    }
}

} // verus!
