use vstd::prelude::*;
use crate::instr::{InstrKind, OperandShape, kind_at_index_spec, shape_of_spec};
use crate::layout::{Imm, Layout, Opcode, L1, L10, L11, L2, L3, L4, L5, L6, L7, L8, L9, Reg};
use crate::operands::{Destination, Location, Source};

verus! {

/// A word that does not decode to an instruction.
#[derive(Debug, Clone, Copy, PartialEq, Eq, Structural)]
pub enum DecodeError {
    /// The opcode offset names no layout.
    InvalidOpcode(u16),
    /// The layout is not one the instruction's operand shape accepts.
    UnsupportedInstructionLayout,
}

// One struct per instruction, holding its decoded, typed operands.
#[derive(Debug, Clone, Copy, PartialEq, Eq, Structural)]
pub struct Nop {}

#[derive(Debug, Clone, Copy, PartialEq, Eq, Structural)]
pub struct Add {
    pub dest: Destination,
    pub source: Source,
}

#[derive(Debug, Clone, Copy, PartialEq, Eq, Structural)]
pub struct Sub {
    pub dest: Destination,
    pub source: Source,
}

#[derive(Debug, Clone, Copy, PartialEq, Eq, Structural)]
pub struct Mul {
    pub dest: Destination,
    pub source: Source,
}

#[derive(Debug, Clone, Copy, PartialEq, Eq, Structural)]
pub struct Mull {
    pub dest_hi: Destination,
    pub dest: Destination,
    pub source: Source,
}

#[derive(Debug, Clone, Copy, PartialEq, Eq, Structural)]
pub struct Mulu {
    pub dest: Destination,
    pub source: Source,
}

#[derive(Debug, Clone, Copy, PartialEq, Eq, Structural)]
pub struct Mullu {
    pub dest_hi: Destination,
    pub dest: Destination,
    pub source: Source,
}

#[derive(Debug, Clone, Copy, PartialEq, Eq, Structural)]
pub struct Div {
    pub dest: Destination,
    pub source: Source,
}

#[derive(Debug, Clone, Copy, PartialEq, Eq, Structural)]
pub struct Divr {
    pub dest_rem: Destination,
    pub dest: Destination,
    pub source: Source,
}

#[derive(Debug, Clone, Copy, PartialEq, Eq, Structural)]
pub struct Divu {
    pub dest: Destination,
    pub source: Source,
}

#[derive(Debug, Clone, Copy, PartialEq, Eq, Structural)]
pub struct Divru {
    pub dest_rem: Destination,
    pub dest: Destination,
    pub source: Source,
}

#[derive(Debug, Clone, Copy, PartialEq, Eq, Structural)]
pub struct Rem {
    pub dest: Destination,
    pub source: Source,
}

#[derive(Debug, Clone, Copy, PartialEq, Eq, Structural)]
pub struct Remu {
    pub dest: Destination,
    pub source: Source,
}

#[derive(Debug, Clone, Copy, PartialEq, Eq, Structural)]
pub struct And {
    pub dest: Destination,
    pub source: Source,
}

#[derive(Debug, Clone, Copy, PartialEq, Eq, Structural)]
pub struct Or {
    pub dest: Destination,
    pub source: Source,
}

#[derive(Debug, Clone, Copy, PartialEq, Eq, Structural)]
pub struct Xor {
    pub dest: Destination,
    pub source: Source,
}

#[derive(Debug, Clone, Copy, PartialEq, Eq, Structural)]
pub struct Not {
    pub dest: Destination,
}

#[derive(Debug, Clone, Copy, PartialEq, Eq, Structural)]
pub struct Test {
    pub source1: Source,
    pub source2: Source,
}

#[derive(Debug, Clone, Copy, PartialEq, Eq, Structural)]
pub struct Cmp {
    pub source1: Source,
    pub source2: Source,
}

#[derive(Debug, Clone, Copy, PartialEq, Eq, Structural)]
pub struct Mov {
    pub dest: Destination,
    pub source: Source,
}

#[derive(Debug, Clone, Copy, PartialEq, Eq, Structural)]
pub struct Load1 {
    pub dest: Destination,
    pub loc: Location,
}

#[derive(Debug, Clone, Copy, PartialEq, Eq, Structural)]
pub struct Loadu1 {
    pub dest: Destination,
    pub loc: Location,
}

#[derive(Debug, Clone, Copy, PartialEq, Eq, Structural)]
pub struct Load2 {
    pub dest: Destination,
    pub loc: Location,
}

#[derive(Debug, Clone, Copy, PartialEq, Eq, Structural)]
pub struct Loadu2 {
    pub dest: Destination,
    pub loc: Location,
}

#[derive(Debug, Clone, Copy, PartialEq, Eq, Structural)]
pub struct Load4 {
    pub dest: Destination,
    pub loc: Location,
}

#[derive(Debug, Clone, Copy, PartialEq, Eq, Structural)]
pub struct Loadu4 {
    pub dest: Destination,
    pub loc: Location,
}

#[derive(Debug, Clone, Copy, PartialEq, Eq, Structural)]
pub struct Load8 {
    pub dest: Destination,
    pub loc: Location,
}

#[derive(Debug, Clone, Copy, PartialEq, Eq, Structural)]
pub struct Loadu8 {
    pub dest: Destination,
    pub loc: Location,
}

#[derive(Debug, Clone, Copy, PartialEq, Eq, Structural)]
pub struct Store1 {
    pub loc: Location,
    pub source: Source,
}

#[derive(Debug, Clone, Copy, PartialEq, Eq, Structural)]
pub struct Store2 {
    pub loc: Location,
    pub source: Source,
}

#[derive(Debug, Clone, Copy, PartialEq, Eq, Structural)]
pub struct Store4 {
    pub loc: Location,
    pub source: Source,
}

#[derive(Debug, Clone, Copy, PartialEq, Eq, Structural)]
pub struct Store8 {
    pub loc: Location,
    pub source: Source,
}

#[derive(Debug, Clone, Copy, PartialEq, Eq, Structural)]
pub struct Push {
    pub source: Source,
}

#[derive(Debug, Clone, Copy, PartialEq, Eq, Structural)]
pub struct Pop {
    pub dest: Destination,
}

#[derive(Debug, Clone, Copy, PartialEq, Eq, Structural)]
pub struct Jmp {
    pub loc: Location,
}

#[derive(Debug, Clone, Copy, PartialEq, Eq, Structural)]
pub struct Je {
    pub loc: Location,
}

#[derive(Debug, Clone, Copy, PartialEq, Eq, Structural)]
pub struct Jne {
    pub loc: Location,
}

#[derive(Debug, Clone, Copy, PartialEq, Eq, Structural)]
pub struct Jg {
    pub loc: Location,
}

#[derive(Debug, Clone, Copy, PartialEq, Eq, Structural)]
pub struct Jge {
    pub loc: Location,
}

#[derive(Debug, Clone, Copy, PartialEq, Eq, Structural)]
pub struct Ja {
    pub loc: Location,
}

#[derive(Debug, Clone, Copy, PartialEq, Eq, Structural)]
pub struct Jae {
    pub loc: Location,
}

#[derive(Debug, Clone, Copy, PartialEq, Eq, Structural)]
pub struct Jl {
    pub loc: Location,
}

#[derive(Debug, Clone, Copy, PartialEq, Eq, Structural)]
pub struct Jle {
    pub loc: Location,
}

#[derive(Debug, Clone, Copy, PartialEq, Eq, Structural)]
pub struct Jb {
    pub loc: Location,
}

#[derive(Debug, Clone, Copy, PartialEq, Eq, Structural)]
pub struct Jbe {
    pub loc: Location,
}

#[derive(Debug, Clone, Copy, PartialEq, Eq, Structural)]
pub struct Jo {
    pub loc: Location,
}

#[derive(Debug, Clone, Copy, PartialEq, Eq, Structural)]
pub struct Jno {
    pub loc: Location,
}

#[derive(Debug, Clone, Copy, PartialEq, Eq, Structural)]
pub struct Jz {
    pub loc: Location,
}

#[derive(Debug, Clone, Copy, PartialEq, Eq, Structural)]
pub struct Jnz {
    pub loc: Location,
}

#[derive(Debug, Clone, Copy, PartialEq, Eq, Structural)]
pub struct Js {
    pub loc: Location,
}

#[derive(Debug, Clone, Copy, PartialEq, Eq, Structural)]
pub struct Jns {
    pub loc: Location,
}

#[derive(Debug, Clone, Copy, PartialEq, Eq, Structural)]
pub struct Call {
    pub loc: Location,
}

#[derive(Debug, Clone, Copy, PartialEq, Eq, Structural)]
pub struct Ret {}

/// A decoded instruction, ready to execute.
#[derive(Debug, Clone, Copy, PartialEq, Eq, Structural)]
pub enum Instr {
    Nop(Nop),
    Add(Add),
    Sub(Sub),
    Mul(Mul),
    Mull(Mull),
    Mulu(Mulu),
    Mullu(Mullu),
    Div(Div),
    Divr(Divr),
    Divu(Divu),
    Divru(Divru),
    Rem(Rem),
    Remu(Remu),
    And(And),
    Or(Or),
    Xor(Xor),
    Not(Not),
    Test(Test),
    Cmp(Cmp),
    Mov(Mov),
    Load1(Load1),
    Loadu1(Loadu1),
    Load2(Load2),
    Loadu2(Loadu2),
    Load4(Load4),
    Loadu4(Loadu4),
    Load8(Load8),
    Loadu8(Loadu8),
    Store1(Store1),
    Store2(Store2),
    Store4(Store4),
    Store8(Store8),
    Push(Push),
    Pop(Pop),
    Jmp(Jmp),
    Je(Je),
    Jne(Jne),
    Jg(Jg),
    Jge(Jge),
    Ja(Ja),
    Jae(Jae),
    Jl(Jl),
    Jle(Jle),
    Jb(Jb),
    Jbe(Jbe),
    Jo(Jo),
    Jno(Jno),
    Jz(Jz),
    Jnz(Jnz),
    Js(Js),
    Jns(Jns),
    Call(Call),
    Ret(Ret),
}

/// The kind and opcode offset an opcode resolves to: the kind with the
/// greatest base opcode not above it, and the distance.
pub open spec fn kind_of_opcode_spec(op: u16) -> (InstrKind, u16) {
    if op / 12 >= 52 {
        (InstrKind::Ret, (op - 624) as u16)
    } else {
        (kind_at_index_spec(op as int / 12), (op % 12) as u16)
    }
}

/// The source operand a layout field becomes.
pub open spec fn src_of_reg(r: Reg) -> Source {
    Source::Register(r)
}

pub open spec fn src_of_imm(im: Imm) -> Source {
    Source::Immediate(im.value as i128)
}

pub open spec fn loc_of_reg(r: Reg) -> Location {
    Location::Register(r, None)
}

pub open spec fn loc_of_reg_off(r: Reg, off: crate::layout::Offset) -> Location {
    Location::Register(r, Some(off.value))
}

pub open spec fn loc_of_imm(im: Imm) -> Location {
    Location::Immediate(im.value as i128)
}

/// The `(Destination, Source)` operands a layout provides, if the shape
/// accepts it.
pub open spec fn ds_args_spec(layout: Layout) -> Option<(Destination, Source)> {
    match layout {
        Layout::L1(L1(r1, r2)) => Some((Destination::Register(r1), src_of_reg(r2))),
        Layout::L2(L2(r, im)) => Some((Destination::Register(r), src_of_imm(im))),
        _ => None,
    }
}

/// The `(Source, Source)` operands a layout provides, if the shape accepts
/// it.
pub open spec fn ss_args_spec(layout: Layout) -> Option<(Source, Source)> {
    match layout {
        Layout::L1(L1(r1, r2)) => Some((src_of_reg(r1), src_of_reg(r2))),
        Layout::L2(L2(r, im)) => Some((src_of_reg(r), src_of_imm(im))),
        Layout::L3(L3(im, r)) => Some((src_of_imm(im), src_of_reg(r))),
        Layout::L6(L6(im1, im2)) => Some((src_of_imm(im1), src_of_imm(im2))),
        _ => None,
    }
}

/// The `(Destination, Location)` operands a layout provides, if the shape
/// accepts it.
pub open spec fn dl_args_spec(layout: Layout) -> Option<(Destination, Location)> {
    match layout {
        Layout::L1(L1(r1, r2)) => Some((Destination::Register(r1), loc_of_reg(r2))),
        Layout::L2(L2(r, im)) => Some((Destination::Register(r), loc_of_imm(im))),
        Layout::L4(L4(r1, r2, off)) => Some(
            (Destination::Register(r1), loc_of_reg_off(r2, off)),
        ),
        _ => None,
    }
}

/// The `(Location, Source)` operands a layout provides, if the shape accepts
/// it.
pub open spec fn ls_args_spec(layout: Layout) -> Option<(Location, Source)> {
    match layout {
        Layout::L1(L1(r1, r2)) => Some((loc_of_reg(r1), src_of_reg(r2))),
        Layout::L2(L2(r, im)) => Some((loc_of_reg(r), src_of_imm(im))),
        Layout::L3(L3(im, r)) => Some((loc_of_imm(im), src_of_reg(r))),
        Layout::L4(L4(r1, r2, off)) => Some((loc_of_reg_off(r1, off), src_of_reg(r2))),
        Layout::L5(L5(r, off, im)) => Some((loc_of_reg_off(r, off), src_of_imm(im))),
        Layout::L6(L6(im1, im2)) => Some((loc_of_imm(im1), src_of_imm(im2))),
        _ => None,
    }
}

/// The `(Destination, Destination, Source)` operands a layout provides, if
/// the shape accepts it.
pub open spec fn dds_args_spec(layout: Layout) -> Option<(Destination, Destination, Source)> {
    match layout {
        Layout::L7(L7(r1, r2, r3)) => Some(
            (Destination::Register(r1), Destination::Register(r2), src_of_reg(r3)),
        ),
        Layout::L8(L8(r1, r2, im)) => Some(
            (Destination::Register(r1), Destination::Register(r2), src_of_imm(im)),
        ),
        _ => None,
    }
}

/// The single source operand a layout provides, if the shape accepts it.
pub open spec fn s_args_spec(layout: Layout) -> Option<Source> {
    match layout {
        Layout::L9(L9(r)) => Some(src_of_reg(r)),
        Layout::L10(L10(im)) => Some(src_of_imm(im)),
        _ => None,
    }
}

/// The single destination operand a layout provides, if the shape accepts
/// it.
pub open spec fn d_args_spec(layout: Layout) -> Option<Destination> {
    match layout {
        Layout::L9(L9(r)) => Some(Destination::Register(r)),
        _ => None,
    }
}

/// The single location operand a layout provides, if the shape accepts it.
pub open spec fn l_args_spec(layout: Layout) -> Option<Location> {
    match layout {
        Layout::L9(L9(r)) => Some(loc_of_reg(r)),
        Layout::L10(L10(im)) => Some(loc_of_imm(im)),
        Layout::L11(L11(r, off)) => Some(loc_of_reg_off(r, off)),
        _ => None,
    }
}

/// The instruction a kind and a decoded layout combine to, if the kind's
/// operand shape accepts the layout.
pub open spec fn mk_instr_spec(kind: InstrKind, layout: Layout) -> Option<Instr> {
    match kind {
        InstrKind::Nop => Some(Instr::Nop(Nop {  })),
        InstrKind::Ret => Some(Instr::Ret(Ret {  })),
        InstrKind::Add => match ds_args_spec(layout) {
            Some((d, s)) => Some(Instr::Add(Add { dest: d, source: s })),
            None => None,
        },
        InstrKind::Sub => match ds_args_spec(layout) {
            Some((d, s)) => Some(Instr::Sub(Sub { dest: d, source: s })),
            None => None,
        },
        InstrKind::Mul => match ds_args_spec(layout) {
            Some((d, s)) => Some(Instr::Mul(Mul { dest: d, source: s })),
            None => None,
        },
        InstrKind::Mulu => match ds_args_spec(layout) {
            Some((d, s)) => Some(Instr::Mulu(Mulu { dest: d, source: s })),
            None => None,
        },
        InstrKind::Div => match ds_args_spec(layout) {
            Some((d, s)) => Some(Instr::Div(Div { dest: d, source: s })),
            None => None,
        },
        InstrKind::Divu => match ds_args_spec(layout) {
            Some((d, s)) => Some(Instr::Divu(Divu { dest: d, source: s })),
            None => None,
        },
        InstrKind::Rem => match ds_args_spec(layout) {
            Some((d, s)) => Some(Instr::Rem(Rem { dest: d, source: s })),
            None => None,
        },
        InstrKind::Remu => match ds_args_spec(layout) {
            Some((d, s)) => Some(Instr::Remu(Remu { dest: d, source: s })),
            None => None,
        },
        InstrKind::And => match ds_args_spec(layout) {
            Some((d, s)) => Some(Instr::And(And { dest: d, source: s })),
            None => None,
        },
        InstrKind::Or => match ds_args_spec(layout) {
            Some((d, s)) => Some(Instr::Or(Or { dest: d, source: s })),
            None => None,
        },
        InstrKind::Xor => match ds_args_spec(layout) {
            Some((d, s)) => Some(Instr::Xor(Xor { dest: d, source: s })),
            None => None,
        },
        InstrKind::Mov => match ds_args_spec(layout) {
            Some((d, s)) => Some(Instr::Mov(Mov { dest: d, source: s })),
            None => None,
        },
        InstrKind::Mull => match dds_args_spec(layout) {
            Some((d1, d2, s)) => Some(Instr::Mull(Mull { dest_hi: d1, dest: d2, source: s })),
            None => None,
        },
        InstrKind::Mullu => match dds_args_spec(layout) {
            Some((d1, d2, s)) => Some(Instr::Mullu(Mullu { dest_hi: d1, dest: d2, source: s })),
            None => None,
        },
        InstrKind::Divr => match dds_args_spec(layout) {
            Some((d1, d2, s)) => Some(Instr::Divr(Divr { dest_rem: d1, dest: d2, source: s })),
            None => None,
        },
        InstrKind::Divru => match dds_args_spec(layout) {
            Some((d1, d2, s)) => Some(Instr::Divru(Divru { dest_rem: d1, dest: d2, source: s })),
            None => None,
        },
        InstrKind::Test => match ss_args_spec(layout) {
            Some((s1, s2)) => Some(Instr::Test(Test { source1: s1, source2: s2 })),
            None => None,
        },
        InstrKind::Cmp => match ss_args_spec(layout) {
            Some((s1, s2)) => Some(Instr::Cmp(Cmp { source1: s1, source2: s2 })),
            None => None,
        },
        InstrKind::Not => match d_args_spec(layout) {
            Some(d) => Some(Instr::Not(Not { dest: d })),
            None => None,
        },
        InstrKind::Pop => match d_args_spec(layout) {
            Some(d) => Some(Instr::Pop(Pop { dest: d })),
            None => None,
        },
        InstrKind::Load1 => match dl_args_spec(layout) {
            Some((d, l)) => Some(Instr::Load1(Load1 { dest: d, loc: l })),
            None => None,
        },
        InstrKind::Loadu1 => match dl_args_spec(layout) {
            Some((d, l)) => Some(Instr::Loadu1(Loadu1 { dest: d, loc: l })),
            None => None,
        },
        InstrKind::Load2 => match dl_args_spec(layout) {
            Some((d, l)) => Some(Instr::Load2(Load2 { dest: d, loc: l })),
            None => None,
        },
        InstrKind::Loadu2 => match dl_args_spec(layout) {
            Some((d, l)) => Some(Instr::Loadu2(Loadu2 { dest: d, loc: l })),
            None => None,
        },
        InstrKind::Load4 => match dl_args_spec(layout) {
            Some((d, l)) => Some(Instr::Load4(Load4 { dest: d, loc: l })),
            None => None,
        },
        InstrKind::Loadu4 => match dl_args_spec(layout) {
            Some((d, l)) => Some(Instr::Loadu4(Loadu4 { dest: d, loc: l })),
            None => None,
        },
        InstrKind::Load8 => match dl_args_spec(layout) {
            Some((d, l)) => Some(Instr::Load8(Load8 { dest: d, loc: l })),
            None => None,
        },
        InstrKind::Loadu8 => match dl_args_spec(layout) {
            Some((d, l)) => Some(Instr::Loadu8(Loadu8 { dest: d, loc: l })),
            None => None,
        },
        InstrKind::Store1 => match ls_args_spec(layout) {
            Some((l, s)) => Some(Instr::Store1(Store1 { loc: l, source: s })),
            None => None,
        },
        InstrKind::Store2 => match ls_args_spec(layout) {
            Some((l, s)) => Some(Instr::Store2(Store2 { loc: l, source: s })),
            None => None,
        },
        InstrKind::Store4 => match ls_args_spec(layout) {
            Some((l, s)) => Some(Instr::Store4(Store4 { loc: l, source: s })),
            None => None,
        },
        InstrKind::Store8 => match ls_args_spec(layout) {
            Some((l, s)) => Some(Instr::Store8(Store8 { loc: l, source: s })),
            None => None,
        },
        InstrKind::Push => match s_args_spec(layout) {
            Some(s) => Some(Instr::Push(Push { source: s })),
            None => None,
        },
        InstrKind::Jmp => match l_args_spec(layout) {
            Some(l) => Some(Instr::Jmp(Jmp { loc: l })),
            None => None,
        },
        InstrKind::Je => match l_args_spec(layout) {
            Some(l) => Some(Instr::Je(Je { loc: l })),
            None => None,
        },
        InstrKind::Jne => match l_args_spec(layout) {
            Some(l) => Some(Instr::Jne(Jne { loc: l })),
            None => None,
        },
        InstrKind::Jg => match l_args_spec(layout) {
            Some(l) => Some(Instr::Jg(Jg { loc: l })),
            None => None,
        },
        InstrKind::Jge => match l_args_spec(layout) {
            Some(l) => Some(Instr::Jge(Jge { loc: l })),
            None => None,
        },
        InstrKind::Ja => match l_args_spec(layout) {
            Some(l) => Some(Instr::Ja(Ja { loc: l })),
            None => None,
        },
        InstrKind::Jae => match l_args_spec(layout) {
            Some(l) => Some(Instr::Jae(Jae { loc: l })),
            None => None,
        },
        InstrKind::Jl => match l_args_spec(layout) {
            Some(l) => Some(Instr::Jl(Jl { loc: l })),
            None => None,
        },
        InstrKind::Jle => match l_args_spec(layout) {
            Some(l) => Some(Instr::Jle(Jle { loc: l })),
            None => None,
        },
        InstrKind::Jb => match l_args_spec(layout) {
            Some(l) => Some(Instr::Jb(Jb { loc: l })),
            None => None,
        },
        InstrKind::Jbe => match l_args_spec(layout) {
            Some(l) => Some(Instr::Jbe(Jbe { loc: l })),
            None => None,
        },
        InstrKind::Jo => match l_args_spec(layout) {
            Some(l) => Some(Instr::Jo(Jo { loc: l })),
            None => None,
        },
        InstrKind::Jno => match l_args_spec(layout) {
            Some(l) => Some(Instr::Jno(Jno { loc: l })),
            None => None,
        },
        InstrKind::Jz => match l_args_spec(layout) {
            Some(l) => Some(Instr::Jz(Jz { loc: l })),
            None => None,
        },
        InstrKind::Jnz => match l_args_spec(layout) {
            Some(l) => Some(Instr::Jnz(Jnz { loc: l })),
            None => None,
        },
        InstrKind::Js => match l_args_spec(layout) {
            Some(l) => Some(Instr::Js(Js { loc: l })),
            None => None,
        },
        InstrKind::Jns => match l_args_spec(layout) {
            Some(l) => Some(Instr::Jns(Jns { loc: l })),
            None => None,
        },
        InstrKind::Call => match l_args_spec(layout) {
            Some(l) => Some(Instr::Call(Call { loc: l })),
            None => None,
        },
    }
}

/// What decoding a 64-bit word yields: the opcode selects the kind and the
/// layout; the layout's fields are lifted into the kind's operand shape.
pub open spec fn decode_spec(word: u64) -> Result<Instr, DecodeError> {
    let op = (word / crate::layout::POW52) as u16;
    let (kind, off) = kind_of_opcode_spec(op);
    match Layout::decode_spec(word, off) {
        None => Err(DecodeError::InvalidOpcode(op)),
        Some(layout) => match mk_instr_spec(kind, layout) {
            None => Err(DecodeError::UnsupportedInstructionLayout),
            Some(i) => Ok(i),
        },
    }
}

/// Every register operand of a decoded instruction names a register below
/// 64.
pub open spec fn instr_wf(i: Instr) -> bool {
    match i {
        Instr::Nop(_) => true,
        Instr::Ret(_) => true,
        Instr::Add(x) => x.dest.wf() && x.source.wf(),
        Instr::Sub(x) => x.dest.wf() && x.source.wf(),
        Instr::Mul(x) => x.dest.wf() && x.source.wf(),
        Instr::Mulu(x) => x.dest.wf() && x.source.wf(),
        Instr::Div(x) => x.dest.wf() && x.source.wf(),
        Instr::Divu(x) => x.dest.wf() && x.source.wf(),
        Instr::Rem(x) => x.dest.wf() && x.source.wf(),
        Instr::Remu(x) => x.dest.wf() && x.source.wf(),
        Instr::And(x) => x.dest.wf() && x.source.wf(),
        Instr::Or(x) => x.dest.wf() && x.source.wf(),
        Instr::Xor(x) => x.dest.wf() && x.source.wf(),
        Instr::Mov(x) => x.dest.wf() && x.source.wf(),
        Instr::Mull(x) => x.dest_hi.wf() && x.dest.wf() && x.source.wf(),
        Instr::Mullu(x) => x.dest_hi.wf() && x.dest.wf() && x.source.wf(),
        Instr::Divr(x) => x.dest_rem.wf() && x.dest.wf() && x.source.wf(),
        Instr::Divru(x) => x.dest_rem.wf() && x.dest.wf() && x.source.wf(),
        Instr::Test(x) => x.source1.wf() && x.source2.wf(),
        Instr::Cmp(x) => x.source1.wf() && x.source2.wf(),
        Instr::Not(x) => x.dest.wf(),
        Instr::Pop(x) => x.dest.wf(),
        Instr::Load1(x) => x.dest.wf() && x.loc.wf(),
        Instr::Loadu1(x) => x.dest.wf() && x.loc.wf(),
        Instr::Load2(x) => x.dest.wf() && x.loc.wf(),
        Instr::Loadu2(x) => x.dest.wf() && x.loc.wf(),
        Instr::Load4(x) => x.dest.wf() && x.loc.wf(),
        Instr::Loadu4(x) => x.dest.wf() && x.loc.wf(),
        Instr::Load8(x) => x.dest.wf() && x.loc.wf(),
        Instr::Loadu8(x) => x.dest.wf() && x.loc.wf(),
        Instr::Store1(x) => x.loc.wf() && x.source.wf(),
        Instr::Store2(x) => x.loc.wf() && x.source.wf(),
        Instr::Store4(x) => x.loc.wf() && x.source.wf(),
        Instr::Store8(x) => x.loc.wf() && x.source.wf(),
        Instr::Push(x) => x.source.wf(),
        Instr::Jmp(x) => x.loc.wf(),
        Instr::Je(x) => x.loc.wf(),
        Instr::Jne(x) => x.loc.wf(),
        Instr::Jg(x) => x.loc.wf(),
        Instr::Jge(x) => x.loc.wf(),
        Instr::Ja(x) => x.loc.wf(),
        Instr::Jae(x) => x.loc.wf(),
        Instr::Jl(x) => x.loc.wf(),
        Instr::Jle(x) => x.loc.wf(),
        Instr::Jb(x) => x.loc.wf(),
        Instr::Jbe(x) => x.loc.wf(),
        Instr::Jo(x) => x.loc.wf(),
        Instr::Jno(x) => x.loc.wf(),
        Instr::Jz(x) => x.loc.wf(),
        Instr::Jnz(x) => x.loc.wf(),
        Instr::Js(x) => x.loc.wf(),
        Instr::Jns(x) => x.loc.wf(),
        Instr::Call(x) => x.loc.wf(),
    }
}

impl Instr {
    /// Decodes a 64-bit instruction word: extracts the 12-bit opcode,
    /// resolves the instruction kind and layout offset, reads the layout's
    /// fields, and lifts them into the kind's operand shape.
    pub fn decode(instr: u64) -> (r: Result<Instr, DecodeError>)
        ensures
            r == decode_spec(instr),
            r matches Ok(i) ==> instr_wf(i),
    {
        let opcode = Opcode::read(instr);
        let (kind, opcode_offset) = InstrKind::from_opcode(opcode);
        let layout = match Layout::from_binary(instr, opcode_offset) {
            Some(layout) => layout,
            None => {
                return Err(DecodeError::InvalidOpcode(opcode.into_value()));
            },
        };
        let out: Option<Instr> = match kind {
            InstrKind::Nop => Some(Instr::Nop(Nop {  })),
            InstrKind::Ret => Some(Instr::Ret(Ret {  })),
            InstrKind::Add => match Self::ds_args(layout) {
                Some((d, s)) => Some(Instr::Add(Add { dest: d, source: s })),
                None => None,
            },
            InstrKind::Sub => match Self::ds_args(layout) {
                Some((d, s)) => Some(Instr::Sub(Sub { dest: d, source: s })),
                None => None,
            },
            InstrKind::Mul => match Self::ds_args(layout) {
                Some((d, s)) => Some(Instr::Mul(Mul { dest: d, source: s })),
                None => None,
            },
            InstrKind::Mulu => match Self::ds_args(layout) {
                Some((d, s)) => Some(Instr::Mulu(Mulu { dest: d, source: s })),
                None => None,
            },
            InstrKind::Div => match Self::ds_args(layout) {
                Some((d, s)) => Some(Instr::Div(Div { dest: d, source: s })),
                None => None,
            },
            InstrKind::Divu => match Self::ds_args(layout) {
                Some((d, s)) => Some(Instr::Divu(Divu { dest: d, source: s })),
                None => None,
            },
            InstrKind::Rem => match Self::ds_args(layout) {
                Some((d, s)) => Some(Instr::Rem(Rem { dest: d, source: s })),
                None => None,
            },
            InstrKind::Remu => match Self::ds_args(layout) {
                Some((d, s)) => Some(Instr::Remu(Remu { dest: d, source: s })),
                None => None,
            },
            InstrKind::And => match Self::ds_args(layout) {
                Some((d, s)) => Some(Instr::And(And { dest: d, source: s })),
                None => None,
            },
            InstrKind::Or => match Self::ds_args(layout) {
                Some((d, s)) => Some(Instr::Or(Or { dest: d, source: s })),
                None => None,
            },
            InstrKind::Xor => match Self::ds_args(layout) {
                Some((d, s)) => Some(Instr::Xor(Xor { dest: d, source: s })),
                None => None,
            },
            InstrKind::Mov => match Self::ds_args(layout) {
                Some((d, s)) => Some(Instr::Mov(Mov { dest: d, source: s })),
                None => None,
            },
            InstrKind::Mull => match Self::dds_args(layout) {
                Some((d1, d2, s)) => Some(Instr::Mull(Mull { dest_hi: d1, dest: d2, source: s })),
                None => None,
            },
            InstrKind::Mullu => match Self::dds_args(layout) {
                Some((d1, d2, s)) => Some(
                    Instr::Mullu(Mullu { dest_hi: d1, dest: d2, source: s }),
                ),
                None => None,
            },
            InstrKind::Divr => match Self::dds_args(layout) {
                Some((d1, d2, s)) => Some(Instr::Divr(Divr { dest_rem: d1, dest: d2, source: s })),
                None => None,
            },
            InstrKind::Divru => match Self::dds_args(layout) {
                Some((d1, d2, s)) => Some(
                    Instr::Divru(Divru { dest_rem: d1, dest: d2, source: s }),
                ),
                None => None,
            },
            InstrKind::Test => match Self::ss_args(layout) {
                Some((s1, s2)) => Some(Instr::Test(Test { source1: s1, source2: s2 })),
                None => None,
            },
            InstrKind::Cmp => match Self::ss_args(layout) {
                Some((s1, s2)) => Some(Instr::Cmp(Cmp { source1: s1, source2: s2 })),
                None => None,
            },
            InstrKind::Not => match Self::d_args(layout) {
                Some(d) => Some(Instr::Not(Not { dest: d })),
                None => None,
            },
            InstrKind::Pop => match Self::d_args(layout) {
                Some(d) => Some(Instr::Pop(Pop { dest: d })),
                None => None,
            },
            InstrKind::Load1 => match Self::dl_args(layout) {
                Some((d, l)) => Some(Instr::Load1(Load1 { dest: d, loc: l })),
                None => None,
            },
            InstrKind::Loadu1 => match Self::dl_args(layout) {
                Some((d, l)) => Some(Instr::Loadu1(Loadu1 { dest: d, loc: l })),
                None => None,
            },
            InstrKind::Load2 => match Self::dl_args(layout) {
                Some((d, l)) => Some(Instr::Load2(Load2 { dest: d, loc: l })),
                None => None,
            },
            InstrKind::Loadu2 => match Self::dl_args(layout) {
                Some((d, l)) => Some(Instr::Loadu2(Loadu2 { dest: d, loc: l })),
                None => None,
            },
            InstrKind::Load4 => match Self::dl_args(layout) {
                Some((d, l)) => Some(Instr::Load4(Load4 { dest: d, loc: l })),
                None => None,
            },
            InstrKind::Loadu4 => match Self::dl_args(layout) {
                Some((d, l)) => Some(Instr::Loadu4(Loadu4 { dest: d, loc: l })),
                None => None,
            },
            InstrKind::Load8 => match Self::dl_args(layout) {
                Some((d, l)) => Some(Instr::Load8(Load8 { dest: d, loc: l })),
                None => None,
            },
            InstrKind::Loadu8 => match Self::dl_args(layout) {
                Some((d, l)) => Some(Instr::Loadu8(Loadu8 { dest: d, loc: l })),
                None => None,
            },
            InstrKind::Store1 => match Self::ls_args(layout) {
                Some((l, s)) => Some(Instr::Store1(Store1 { loc: l, source: s })),
                None => None,
            },
            InstrKind::Store2 => match Self::ls_args(layout) {
                Some((l, s)) => Some(Instr::Store2(Store2 { loc: l, source: s })),
                None => None,
            },
            InstrKind::Store4 => match Self::ls_args(layout) {
                Some((l, s)) => Some(Instr::Store4(Store4 { loc: l, source: s })),
                None => None,
            },
            InstrKind::Store8 => match Self::ls_args(layout) {
                Some((l, s)) => Some(Instr::Store8(Store8 { loc: l, source: s })),
                None => None,
            },
            InstrKind::Push => match Self::s_args(layout) {
                Some(s) => Some(Instr::Push(Push { source: s })),
                None => None,
            },
            InstrKind::Jmp => match Self::l_args(layout) {
                Some(l) => Some(Instr::Jmp(Jmp { loc: l })),
                None => None,
            },
            InstrKind::Je => match Self::l_args(layout) {
                Some(l) => Some(Instr::Je(Je { loc: l })),
                None => None,
            },
            InstrKind::Jne => match Self::l_args(layout) {
                Some(l) => Some(Instr::Jne(Jne { loc: l })),
                None => None,
            },
            InstrKind::Jg => match Self::l_args(layout) {
                Some(l) => Some(Instr::Jg(Jg { loc: l })),
                None => None,
            },
            InstrKind::Jge => match Self::l_args(layout) {
                Some(l) => Some(Instr::Jge(Jge { loc: l })),
                None => None,
            },
            InstrKind::Ja => match Self::l_args(layout) {
                Some(l) => Some(Instr::Ja(Ja { loc: l })),
                None => None,
            },
            InstrKind::Jae => match Self::l_args(layout) {
                Some(l) => Some(Instr::Jae(Jae { loc: l })),
                None => None,
            },
            InstrKind::Jl => match Self::l_args(layout) {
                Some(l) => Some(Instr::Jl(Jl { loc: l })),
                None => None,
            },
            InstrKind::Jle => match Self::l_args(layout) {
                Some(l) => Some(Instr::Jle(Jle { loc: l })),
                None => None,
            },
            InstrKind::Jb => match Self::l_args(layout) {
                Some(l) => Some(Instr::Jb(Jb { loc: l })),
                None => None,
            },
            InstrKind::Jbe => match Self::l_args(layout) {
                Some(l) => Some(Instr::Jbe(Jbe { loc: l })),
                None => None,
            },
            InstrKind::Jo => match Self::l_args(layout) {
                Some(l) => Some(Instr::Jo(Jo { loc: l })),
                None => None,
            },
            InstrKind::Jno => match Self::l_args(layout) {
                Some(l) => Some(Instr::Jno(Jno { loc: l })),
                None => None,
            },
            InstrKind::Jz => match Self::l_args(layout) {
                Some(l) => Some(Instr::Jz(Jz { loc: l })),
                None => None,
            },
            InstrKind::Jnz => match Self::l_args(layout) {
                Some(l) => Some(Instr::Jnz(Jnz { loc: l })),
                None => None,
            },
            InstrKind::Js => match Self::l_args(layout) {
                Some(l) => Some(Instr::Js(Js { loc: l })),
                None => None,
            },
            InstrKind::Jns => match Self::l_args(layout) {
                Some(l) => Some(Instr::Jns(Jns { loc: l })),
                None => None,
            },
            InstrKind::Call => match Self::l_args(layout) {
                Some(l) => Some(Instr::Call(Call { loc: l })),
                None => None,
            },
        };
        match out {
            Some(i) => Ok(i),
            None => Err(DecodeError::UnsupportedInstructionLayout),
        }
    }

    /// The size in bytes this instruction has in the generated executable.
    pub fn size_bytes(&self) -> (r: u64)
        ensures
            r == 8,
    {
        8
    }

    fn ds_args(layout: Layout) -> (r: Option<(Destination, Source)>)
        ensures
            r == ds_args_spec(layout),
    {
        match layout {
            Layout::L1(L1(r1, r2)) => Some((Destination::Register(r1), Source::Register(r2))),
            Layout::L2(L2(rg, im)) => Some(
                (Destination::Register(rg), Source::Immediate(im.into_value() as i128)),
            ),
            _ => None,
        }
    }

    fn ss_args(layout: Layout) -> (r: Option<(Source, Source)>)
        ensures
            r == ss_args_spec(layout),
    {
        match layout {
            Layout::L1(L1(r1, r2)) => Some((Source::Register(r1), Source::Register(r2))),
            Layout::L2(L2(rg, im)) => Some(
                (Source::Register(rg), Source::Immediate(im.into_value() as i128)),
            ),
            Layout::L3(L3(im, rg)) => Some(
                (Source::Immediate(im.into_value() as i128), Source::Register(rg)),
            ),
            Layout::L6(L6(im1, im2)) => Some(
                (
                    Source::Immediate(im1.into_value() as i128),
                    Source::Immediate(im2.into_value() as i128),
                ),
            ),
            _ => None,
        }
    }

    fn dl_args(layout: Layout) -> (r: Option<(Destination, Location)>)
        ensures
            r == dl_args_spec(layout),
    {
        match layout {
            Layout::L1(L1(r1, r2)) => Some(
                (Destination::Register(r1), Location::Register(r2, None)),
            ),
            Layout::L2(L2(rg, im)) => Some(
                (Destination::Register(rg), Location::Immediate(im.into_value() as i128)),
            ),
            Layout::L4(L4(r1, r2, off)) => Some(
                (Destination::Register(r1), Location::Register(r2, Some(off.value))),
            ),
            _ => None,
        }
    }

    fn ls_args(layout: Layout) -> (r: Option<(Location, Source)>)
        ensures
            r == ls_args_spec(layout),
    {
        match layout {
            Layout::L1(L1(r1, r2)) => Some((Location::Register(r1, None), Source::Register(r2))),
            Layout::L2(L2(rg, im)) => Some(
                (Location::Register(rg, None), Source::Immediate(im.into_value() as i128)),
            ),
            Layout::L3(L3(im, rg)) => Some(
                (Location::Immediate(im.into_value() as i128), Source::Register(rg)),
            ),
            Layout::L4(L4(r1, r2, off)) => Some(
                (Location::Register(r1, Some(off.value)), Source::Register(r2)),
            ),
            Layout::L5(L5(rg, off, im)) => Some(
                (
                    Location::Register(rg, Some(off.value)),
                    Source::Immediate(im.into_value() as i128),
                ),
            ),
            Layout::L6(L6(im1, im2)) => Some(
                (
                    Location::Immediate(im1.into_value() as i128),
                    Source::Immediate(im2.into_value() as i128),
                ),
            ),
            _ => None,
        }
    }

    fn dds_args(layout: Layout) -> (r: Option<(Destination, Destination, Source)>)
        ensures
            r == dds_args_spec(layout),
    {
        match layout {
            Layout::L7(L7(r1, r2, r3)) => Some(
                (Destination::Register(r1), Destination::Register(r2), Source::Register(r3)),
            ),
            Layout::L8(L8(r1, r2, im)) => Some(
                (
                    Destination::Register(r1),
                    Destination::Register(r2),
                    Source::Immediate(im.into_value() as i128),
                ),
            ),
            _ => None,
        }
    }

    fn s_args(layout: Layout) -> (r: Option<Source>)
        ensures
            r == s_args_spec(layout),
    {
        match layout {
            Layout::L9(L9(rg)) => Some(Source::Register(rg)),
            Layout::L10(L10(im)) => Some(Source::Immediate(im.into_value() as i128)),
            _ => None,
        }
    }

    fn d_args(layout: Layout) -> (r: Option<Destination>)
        ensures
            r == d_args_spec(layout),
    {
        match layout {
            Layout::L9(L9(rg)) => Some(Destination::Register(rg)),
            _ => None,
        }
    }

    fn l_args(layout: Layout) -> (r: Option<Location>)
        ensures
            r == l_args_spec(layout),
    {
        match layout {
            Layout::L9(L9(rg)) => Some(Location::Register(rg, None)),
            Layout::L10(L10(im)) => Some(Location::Immediate(im.into_value() as i128)),
            Layout::L11(L11(rg, off)) => Some(Location::Register(rg, Some(off.value))),
            _ => None,
        }
    }
}

} // verus!
