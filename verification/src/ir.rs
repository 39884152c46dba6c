use vstd::prelude::*;
use crate::ast;
use crate::diag::{DiagKind, Diagnostics, error_count};
use crate::span::Span;

verus! {

/// The number of registers supported by the machine.
pub const REGISTERS: u8 = 64;

/// A program after validation: statements grouped into their sections,
/// constants substituted, every operand checked.
#[derive(Debug, Clone, PartialEq)]
pub struct Program {
    /// The statements in the `.code` section.
    pub code_section: Option<Section>,
    /// The statements in the `.static` section.
    pub static_section: Option<Section>,
}

impl Program {
    /// All statements of the program in image order: code first, then static.
    pub open spec fn all_stmts(self) -> Seq<Stmt> {
        let code = match self.code_section {
            Some(s) => s.stmts@,
            None => Seq::empty(),
        };
        let stat = match self.static_section {
            Some(s) => s.stmts@,
            None => Seq::empty(),
        };
        code + stat
    }
}

#[derive(Debug, Clone, PartialEq)]
pub struct Section {
    pub section_header_span: Span,
    pub stmts: Vec<Stmt>,
}

#[derive(Debug, Clone, PartialEq)]
pub struct Stmt {
    /// The labels preceding this statement. Label names are unique across
    /// the whole program.
    pub labels: Vec<ast::Ident>,
    pub kind: StmtKind,
}

impl Stmt {
    /// The size in bytes this statement occupies in the generated executable.
    pub open spec fn size_bytes_spec(self) -> int {
        self.kind.size_bytes_spec()
    }

    /// The size in bytes this statement occupies in the generated executable.
    pub fn size_bytes(&self) -> (r: u64)
        ensures
            r == self.size_bytes_spec(),
    {
        self.kind.size_bytes()
    }
}

#[derive(Debug, Clone, PartialEq)]
pub enum StmtKind {
    StaticData(StaticData),
    Instr(crate::instr::Instr),
}

impl StmtKind {
    pub open spec fn size_bytes_spec(self) -> int {
        match self {
            StmtKind::StaticData(data) => data.size_bytes_spec(),
            StmtKind::Instr(_) => 8,
        }
    }

    pub fn size_bytes(&self) -> (r: u64)
        ensures
            r == self.size_bytes_spec(),
    {
        match self {
            StmtKind::StaticData(data) => data.size_bytes(),
            StmtKind::Instr(_) => 8,
        }
    }

    pub fn span(&self) -> (r: Span)
        ensures
            r == match self {
                StmtKind::StaticData(data) => data.span_spec(),
                StmtKind::Instr(instr) => instr.span,
            },
    {
        match self {
            StmtKind::StaticData(data) => data.span(),
            StmtKind::Instr(instr) => instr.span,
        }
    }
}

#[derive(Debug, Clone, PartialEq)]
pub enum StaticData {
    StaticBytes(StaticBytes),
    StaticZero(StaticZero),
    StaticUninit(StaticUninit),
    StaticByteStr(StaticByteStr),
}

impl StaticData {
    pub open spec fn span_spec(self) -> Span {
        match self {
            StaticData::StaticBytes(data) => data.span,
            StaticData::StaticZero(data) => data.span,
            StaticData::StaticUninit(data) => data.span,
            StaticData::StaticByteStr(data) => data.span,
        }
    }

    pub fn span(&self) -> (r: Span)
        ensures
            r == self.span_spec(),
    {
        match self {
            StaticData::StaticBytes(data) => data.span,
            StaticData::StaticZero(data) => data.span,
            StaticData::StaticUninit(data) => data.span,
            StaticData::StaticByteStr(data) => data.span,
        }
    }

    pub open spec fn size_bytes_spec(self) -> int {
        match self {
            StaticData::StaticBytes(data) => data.value.size_bytes_spec(),
            StaticData::StaticZero(data) => data.nbytes.value as int,
            StaticData::StaticUninit(data) => data.nbytes.value as int,
            StaticData::StaticByteStr(data) => data.bytes.value@.len() as int,
        }
    }

    /// The size in bytes this directive occupies in the generated executable.
    pub fn size_bytes(&self) -> (r: u64)
        ensures
            r == self.size_bytes_spec(),
    {
        match self {
            StaticData::StaticBytes(data) => data.size_bytes(),
            StaticData::StaticZero(data) => data.nbytes.value,
            StaticData::StaticUninit(data) => data.nbytes.value,
            StaticData::StaticByteStr(data) => data.bytes.value.len() as u64,
        }
    }
}

/// No statement has a negative size.
pub proof fn lemma_stmt_size_nonneg(stmt: Stmt)
    ensures
        stmt.size_bytes_spec() >= 0,
{
}

/// The `.b1`, `.b2`, `.b4`, or `.b8` static data directive.
#[derive(Debug, Clone, PartialEq)]
pub struct StaticBytes {
    pub value: StaticBytesValue,
    /// The span of the entire directive.
    pub span: Span,
}

impl StaticBytes {
    pub fn size_bytes(&self) -> (r: u64)
        ensures
            r == self.value.size_bytes_spec(),
    {
        self.value.size_bytes()
    }
}

/// The checked value of a `.bN` directive: the stored integer is emitted in
/// little-endian order over the declared width.
#[derive(Debug, Clone, PartialEq)]
pub enum StaticBytesValue {
    B1(u8, Span),
    B2(u16, Span),
    B4(u32, Span),
    B8(u64, Span),
}

impl StaticBytesValue {
    pub open spec fn size_bytes_spec(self) -> int {
        match self {
            StaticBytesValue::B1(_, _) => 1,
            StaticBytesValue::B2(_, _) => 2,
            StaticBytesValue::B4(_, _) => 4,
            StaticBytesValue::B8(_, _) => 8,
        }
    }

    pub fn size_bytes(&self) -> (r: u64)
        ensures
            r == self.size_bytes_spec(),
    {
        match self {
            StaticBytesValue::B1(_, _) => 1,
            StaticBytesValue::B2(_, _) => 2,
            StaticBytesValue::B4(_, _) => 4,
            StaticBytesValue::B8(_, _) => 8,
        }
    }

    pub fn span(&self) -> (r: Span)
        ensures
            r == match self {
                StaticBytesValue::B1(_, span) => span,
                StaticBytesValue::B2(_, span) => span,
                StaticBytesValue::B4(_, span) => span,
                StaticBytesValue::B8(_, span) => span,
            },
    {
        match self {
            StaticBytesValue::B1(_, span) => *span,
            StaticBytesValue::B2(_, span) => *span,
            StaticBytesValue::B4(_, span) => *span,
            StaticBytesValue::B8(_, span) => *span,
        }
    }
}

/// The `.zero` directive.
#[derive(Debug, Clone, PartialEq)]
pub struct StaticZero {
    pub nbytes: Size,
    /// The span of the entire directive.
    pub span: Span,
}

/// The `.uninit` directive.
#[derive(Debug, Clone, PartialEq)]
pub struct StaticUninit {
    pub nbytes: Size,
    /// The span of the entire directive.
    pub span: Span,
}

/// The `.bytes` directive.
#[derive(Debug, Clone, PartialEq)]
pub struct StaticByteStr {
    pub bytes: Bytes,
    /// The span of the entire directive.
    pub span: Span,
}

/// A checked non-negative byte count.
#[derive(Debug, Clone, Copy, PartialEq, Eq, Structural)]
pub struct Size {
    pub value: u64,
    pub span: Span,
}

/// A validated register reference.
#[derive(Debug, Clone, PartialEq)]
pub struct Register {
    pub kind: RegisterKind,
    pub span: Span,
}

#[derive(Debug, Clone, Copy, PartialEq, Eq, Structural)]
pub enum RegisterKind {
    /// The `$sp` register.
    StackPointer,
    /// The `$fp` register.
    FramePointer,
    /// A numbered register `$0` to `$63`.
    Numbered(u8),
}

impl RegisterKind {
    pub open spec fn wf(self) -> bool {
        match self {
            RegisterKind::Numbered(n) => n < 64,
            _ => true,
        }
    }

    /// The register file index this register names: `$sp` is 63, `$fp` is 62.
    pub open spec fn index_spec(self) -> u8 {
        match self {
            RegisterKind::StackPointer => 63,
            RegisterKind::FramePointer => 62,
            RegisterKind::Numbered(n) => n,
        }
    }
}

/// The `$sp` register name.
pub open spec fn is_sp_name(s: Seq<u8>) -> bool {
    // "sp"
    s == seq![115u8, 112u8]
}

/// The `$fp` register name.
pub open spec fn is_fp_name(s: Seq<u8>) -> bool {
    // "fp"
    s == seq![102u8, 112u8]
}

/// What `Register::validate` yields for a register kind: `$sp` and `$fp`
/// resolve to their aliases, numbers below 64 stand, anything else recovers
/// as register zero.
pub open spec fn reg_kind_spec(kind: ast::RegisterKind) -> RegisterKind {
    match kind {
        ast::RegisterKind::Named(name) => if is_sp_name(name@) {
            RegisterKind::StackPointer
        } else if is_fp_name(name@) {
            RegisterKind::FramePointer
        } else {
            RegisterKind::Numbered(0)
        },
        ast::RegisterKind::Numbered(n) => if n < 64 {
            RegisterKind::Numbered(n)
        } else {
            RegisterKind::Numbered(0)
        },
    }
}

/// Whether a register kind is acceptable as written.
pub open spec fn reg_kind_ok(kind: ast::RegisterKind) -> bool {
    match kind {
        ast::RegisterKind::Named(name) => is_sp_name(name@) || is_fp_name(name@),
        ast::RegisterKind::Numbered(n) => n < 64,
    }
}

impl Register {
    /// Checks a parsed register: `$sp`, `$fp`, or a number below 64. An
    /// invalid register emits a diagnostic and recovers as register zero so
    /// later faults are still reported. An embedded offset is checked against
    /// the 16-bit signed range.
    pub fn validate(reg: ast::Register, diag: &mut Diagnostics) -> (r: (Register, Option<Offset>))
        ensures
            r.0.kind == reg_kind_spec(reg.kind),
            r.0.kind.wf(),
            r.0.span == reg.span,
            r.1 is Some <==> reg.offset is Some,
            reg.offset is Some ==> r.1.unwrap() == offset_spec(reg.offset.unwrap()),
            old(diag).records@.is_prefix_of(final(diag).records@),
            reg_kind_ok(reg.kind) && (reg.offset is Some ==> offset_in_range(
                reg.offset.unwrap().value,
            )) ==> final(diag).records@ == old(diag).records@,
            error_count(final(diag).records@) == error_count(old(diag).records@) + (
            if reg_kind_ok(reg.kind) {
                0int
            } else {
                1int
            }) + (
            if reg.offset is Some && !offset_in_range(reg.offset.unwrap().value) {
                1int
            } else {
                0int
            }),
    {
        let ast::Register { kind, offset, span } = reg;
        let valid = match &kind {
            ast::RegisterKind::Named(name) => {
                (name.len() == 2 && ((name[0] == 115 && name[1] == 112) || (name[0] == 102
                    && name[1] == 112)))
            },
            ast::RegisterKind::Numbered(n) => *n < 64,
        };
        let out_kind = if valid {
            match &kind {
                ast::RegisterKind::Named(name) => {
                    if name[0] == 115 {
                        proof {
                            assert(name@ =~= seq![115u8, 112u8]);
                        }
                        RegisterKind::StackPointer
                    } else {
                        proof {
                            assert(name@ =~= seq![102u8, 112u8]);
                        }
                        RegisterKind::FramePointer
                    }
                },
                ast::RegisterKind::Numbered(n) => RegisterKind::Numbered(*n),
            }
        } else {
            proof {
                match kind {
                    ast::RegisterKind::Named(ref name) => {
                        assert(!is_sp_name(name@) && !is_fp_name(name@)) by {
                            if is_sp_name(name@) || is_fp_name(name@) {
                                assert(name@.len() == 2);
                            }
                        };
                    },
                    ast::RegisterKind::Numbered(_) => {},
                }
            }
            let ghost pre = diag.records@;
            diag.span_error(DiagKind::OperandKindError, span);
            proof {
                crate::diag::lemma_error_count_push(pre, diag.records@.last());
            }
            // Error recovery: use register zero so later faults still surface.
            RegisterKind::Numbered(0)
        };
        let out_offset = match offset {
            Some(imm) => Some(Offset::validate(imm, diag)),
            None => None,
        };
        (Register { kind: out_kind, span }, out_offset)
    }
}

/// Whether a value fits the 16-bit signed offset range.
pub open spec fn offset_in_range(value: i128) -> bool {
    -0x8000 <= value <= 0x7fff
}

/// What `Offset::validate` yields: the value itself when it fits 16 signed
/// bits, zero otherwise.
pub open spec fn offset_spec(imm: ast::Immediate) -> Offset {
    Offset {
        value: if offset_in_range(imm.value) {
            imm.value as i16
        } else {
            0
        },
        span: imm.span,
    }
}

/// A checked 16-bit signed offset.
#[derive(Debug, Clone, Copy, PartialEq, Eq, Structural)]
pub struct Offset {
    pub value: i16,
    pub span: Span,
}

impl Offset {
    /// Checks that an offset fits the full 16-bit signed range. An
    /// out-of-range value emits a diagnostic and recovers as zero.
    pub fn validate(imm: ast::Immediate, diag: &mut Diagnostics) -> (r: Offset)
        ensures
            r == offset_spec(imm),
            old(diag).records@.is_prefix_of(final(diag).records@),
            offset_in_range(imm.value) ==> final(diag).records@ == old(diag).records@,
            error_count(final(diag).records@) == error_count(old(diag).records@) + (
            if offset_in_range(imm.value) {
                0int
            } else {
                1int
            }),
    {
        let ast::Integer { value, span } = imm;
        let value = if value >= -0x8000 && value <= 0x7fff {
            value as i16
        } else {
            let ghost pre = diag.records@;
            diag.span_error(DiagKind::ImmediateRangeError, span);
            proof {
                crate::diag::lemma_error_count_push(pre, diag.records@.last());
            }
            // Error recovery: zero keeps later checks running.
            0
        };
        Offset { value, span }
    }
}

/// An immediate value.
pub type Immediate = ast::Immediate;

pub type Integer = ast::Integer;

pub type Bytes = ast::Bytes;

pub type Ident = ast::Ident;

/// What validation yields for an argument in source position.
pub open spec fn source_of(arg: ast::InstrArg) -> Source {
    match arg {
        ast::InstrArg::Register(reg) => Source::Register(
            Register { kind: reg_kind_spec(reg.kind), span: reg.span },
        ),
        ast::InstrArg::Immediate(imm) => Source::Immediate(imm),
        ast::InstrArg::Name(name) => Source::Label(name),
    }
}

/// Whether an argument is acceptable in source position as written: any
/// immediate or name, or a valid register without an offset.
pub open spec fn source_all_ok(arg: ast::InstrArg) -> bool {
    match arg {
        ast::InstrArg::Register(reg) => reg_kind_ok(reg.kind) && reg.offset is None,
        _ => true,
    }
}

/// What validation yields for an argument in destination position.
pub open spec fn dest_of(arg: ast::InstrArg) -> Destination {
    match arg {
        ast::InstrArg::Register(reg) => Destination::Register(
            Register { kind: reg_kind_spec(reg.kind), span: reg.span },
        ),
        ast::InstrArg::Immediate(imm) => Destination::error_default_spec(imm.span),
        ast::InstrArg::Name(name) => Destination::error_default_spec(name.span),
    }
}

/// Whether an argument is acceptable in destination position as written:
/// only a valid register without an offset.
pub open spec fn dest_all_ok(arg: ast::InstrArg) -> bool {
    match arg {
        ast::InstrArg::Register(reg) => reg_kind_ok(reg.kind) && reg.offset is None,
        _ => false,
    }
}

/// What validation yields for an argument in location position.
pub open spec fn loc_of(arg: ast::InstrArg) -> Location {
    match arg {
        ast::InstrArg::Register(reg) => Location::Register(
            Register { kind: reg_kind_spec(reg.kind), span: reg.span },
            match reg.offset {
                Some(imm) => Some(offset_spec(imm)),
                None => None,
            },
        ),
        ast::InstrArg::Immediate(imm) => Location::Immediate(imm),
        ast::InstrArg::Name(name) => Location::Label(name),
    }
}

/// Whether an argument is acceptable in location position as written.
pub open spec fn loc_all_ok(arg: ast::InstrArg) -> bool {
    match arg {
        ast::InstrArg::Register(reg) => reg_kind_ok(reg.kind) && (match reg.offset {
            Some(imm) => offset_in_range(imm.value),
            None => true,
        }),
        _ => true,
    }
}

/// An argument used as a source operand: a register, an immediate, or a
/// label still awaiting resolution.
#[derive(Debug, Clone, PartialEq)]
pub enum Source {
    Register(Register),
    Immediate(Immediate),
    Label(Ident),
}

impl Source {
    /// A name for this kind of argument usable in messages.
    pub fn arg_type_name() -> &'static str {
        "source"
    }

    /// Checks an argument in source-operand position: any register (without
    /// offset), immediate, or name is accepted; an offset on the register is
    /// diagnosed.
    pub fn validate(arg: ast::InstrArg, diag: &mut Diagnostics) -> (r: Source)
        ensures
            r == source_of(arg),
            old(diag).records@.is_prefix_of(final(diag).records@),
            source_all_ok(arg) ==> final(diag).records@ == old(diag).records@,
    {
        match arg {
            ast::InstrArg::Register(reg) => {
                let (reg, offset) = Register::validate(reg, diag);
                match offset {
                    Some(offset) => {
                        diag.span_error(DiagKind::OperandKindError, offset.span);
                    },
                    None => (),
                }
                Source::Register(reg)
            },
            ast::InstrArg::Immediate(imm) => Source::Immediate(imm),
            // After constant substitution, the only names left are labels.
            ast::InstrArg::Name(label) => Source::Label(label),
        }
    }

    /// The fallback operand used to recover from an arity error.
    pub fn error_default(span: Span) -> (r: Source)
        ensures
            r == Source::Register(
                Register { kind: RegisterKind::Numbered(0), span },
            ),
    {
        Source::Register(Register { kind: RegisterKind::Numbered(0), span })
    }
}

/// An argument used as a destination operand: always a register.
#[derive(Debug, Clone, PartialEq)]
pub enum Destination {
    Register(Register),
}

impl Destination {
    /// A name for this kind of argument usable in messages.
    pub fn arg_type_name() -> &'static str {
        "destination"
    }

    /// Checks an argument in destination-operand position: only a plain
    /// register is accepted; anything else is diagnosed and recovers as
    /// register zero.
    pub fn validate(arg: ast::InstrArg, diag: &mut Diagnostics) -> (r: Destination)
        ensures
            r == dest_of(arg),
            r->Register_0.kind.wf(),
            old(diag).records@.is_prefix_of(final(diag).records@),
            dest_all_ok(arg) ==> final(diag).records@ == old(diag).records@,
    {
        match arg {
            ast::InstrArg::Register(reg) => {
                let (reg, offset) = Register::validate(reg, diag);
                match offset {
                    Some(offset) => {
                        diag.span_error(DiagKind::OperandKindError, offset.span);
                    },
                    None => (),
                }
                Destination::Register(reg)
            },
            _ => {
                let span = arg.span();
                diag.span_error(DiagKind::OperandKindError, span);
                // Error recovery: a default register keeps the program going.
                Destination::error_default(span)
            },
        }
    }

    pub open spec fn error_default_spec(span: Span) -> Destination {
        Destination::Register(Register { kind: RegisterKind::Numbered(0), span })
    }

    /// The fallback operand used to recover from an arity error.
    pub fn error_default(span: Span) -> (r: Destination)
        ensures
            r == Destination::error_default_spec(span),
    {
        Destination::Register(Register { kind: RegisterKind::Numbered(0), span })
    }
}

/// An argument used as a location (address) operand: a register with an
/// optional offset, an immediate address, or a label.
#[derive(Debug, Clone, PartialEq)]
pub enum Location {
    Register(Register, Option<Offset>),
    Immediate(Immediate),
    Label(Ident),
}

impl Location {
    /// A name for this kind of argument usable in messages.
    pub fn arg_type_name() -> &'static str {
        "location"
    }

    /// Checks an argument in location-operand position: registers may carry
    /// an offset; immediates and names are accepted as addresses.
    pub fn validate(arg: ast::InstrArg, diag: &mut Diagnostics) -> (r: Location)
        ensures
            r == loc_of(arg),
            old(diag).records@.is_prefix_of(final(diag).records@),
            loc_all_ok(arg) ==> final(diag).records@ == old(diag).records@,
    {
        match arg {
            ast::InstrArg::Register(reg) => {
                let (reg, offset) = Register::validate(reg, diag);
                Location::Register(reg, offset)
            },
            ast::InstrArg::Immediate(imm) => Location::Immediate(imm),
            // After constant substitution, the only names left are labels.
            ast::InstrArg::Name(label) => Location::Label(label),
        }
    }

    /// The fallback operand used to recover from an arity error.
    pub fn error_default(span: Span) -> (r: Location)
        ensures
            r == Location::Register(
                Register { kind: RegisterKind::Numbered(0), span },
                None,
            ),
    {
        Location::Register(Register { kind: RegisterKind::Numbered(0), span }, None)
    }
}

} // verus!
