use vstd::prelude::*;
use crate::span::Span;

verus! {

/// A case-normalized identifier with the span it was read from. Identifier
/// bytes are ASCII and already lowercased by the lexer.
#[derive(Debug, Clone, PartialEq)]
pub struct Ident {
    pub value: Vec<u8>,
    pub span: Span,
}

impl Ident {
    /// A copy of this identifier with the same bytes and span.
    pub fn clone_ident(&self) -> (r: Ident)
        ensures
            r.value@ == self.value@,
            r.span == self.span,
    {
        let value = self.value.clone();
        proof {
            assert(value@ =~= self.value@);
        }
        Ident { value, span: self.span }
    }
}

/// An integer literal. The lexer guarantees the value lies in
/// `[i64::MIN, u64::MAX]`.
#[derive(Debug, Clone, Copy, PartialEq, Eq, Structural)]
pub struct Integer {
    pub value: i128,
    pub span: Span,
}

/// An immediate value.
pub type Immediate = Integer;

/// An unescaped byte string literal.
#[derive(Debug, Clone, PartialEq)]
pub struct Bytes {
    pub value: Vec<u8>,
    pub span: Span,
}

/// The statement stream of a source file, in source order.
#[derive(Debug, Clone, PartialEq)]
pub struct Program {
    pub stmts: Vec<Stmt>,
}

#[derive(Debug, Clone, PartialEq)]
pub enum Stmt {
    Label(Ident),
    Section(Section),
    Include(Include),
    Const(Const),
    StaticData(StaticData),
    Instr(Instr),
}

impl Stmt {
    pub fn is_include(&self) -> (r: bool)
        ensures
            r <==> self is Include,
    {
        match self {
            Stmt::Include(_) => true,
            _ => false,
        }
    }
}

/// A section header, `section .code` or `section .static`.
#[derive(Debug, Clone, Copy, PartialEq, Eq, Structural)]
pub struct Section {
    pub kind: SectionKind,
    /// The span of the entire section declaration.
    pub span: Span,
}

#[derive(Debug, Clone, Copy, PartialEq, Eq, Structural)]
pub enum SectionKind {
    /// The `.static` section.
    Static(Span),
    /// The `.code` section.
    Code(Span),
}

impl SectionKind {
    pub fn span(self) -> (r: Span)
        ensures
            r == match self {
                SectionKind::Static(span) => span,
                SectionKind::Code(span) => span,
            },
    {
        match self {
            SectionKind::Static(span) => span,
            SectionKind::Code(span) => span,
        }
    }
}

/// An `.include` directive.
#[derive(Debug, Clone, PartialEq)]
pub struct Include {
    pub path: Bytes,
}

/// A `.const` directive.
#[derive(Debug, Clone, PartialEq)]
pub struct Const {
    pub name: Ident,
    pub value: Immediate,
    /// The span of the entire directive.
    pub span: Span,
}

#[derive(Debug, Clone, PartialEq)]
pub enum StaticData {
    StaticBytes(StaticBytes),
    StaticZero(StaticZero),
    StaticUninit(StaticUninit),
    StaticByteStr(StaticByteStr),
}

/// The `.b1`, `.b2`, `.b4`, or `.b8` static data directive.
#[derive(Debug, Clone, PartialEq)]
pub struct StaticBytes {
    /// Either 1, 2, 4, or 8.
    pub size: u8,
    pub value: Immediate,
    /// The span of the entire directive.
    pub span: Span,
}

/// The `.zero` directive.
#[derive(Debug, Clone, PartialEq)]
pub struct StaticZero {
    pub nbytes: Integer,
    /// The span of the entire directive.
    pub span: Span,
}

/// The `.uninit` directive.
#[derive(Debug, Clone, PartialEq)]
pub struct StaticUninit {
    pub nbytes: Integer,
    /// The span of the entire directive.
    pub span: Span,
}

/// The `.bytes` directive.
#[derive(Debug, Clone, PartialEq)]
pub struct StaticByteStr {
    pub bytes: Bytes,
    /// The span of the entire directive.
    pub span: Span,
}

/// An instruction statement before validation.
#[derive(Debug, Clone, PartialEq)]
pub struct Instr {
    /// The name of the instruction (lowercase), e.g. `add`.
    pub name: Ident,
    /// The arguments provided to the instruction (possibly empty).
    pub args: Vec<InstrArg>,
}

impl Instr {
    pub fn span(&self) -> (r: Span)
        ensures
            self.args@.len() == 0 ==> r == self.name.span,
            self.args@.len() > 0 ==> r == (Span {
                start: self.name.span.start,
                end: self.args@.last().span_of().end,
            }),
    {
        if self.args.len() > 0 {
            let last = self.args.len() - 1;
            self.name.span.to(self.args[last].span())
        } else {
            self.name.span
        }
    }
}

#[derive(Debug, Clone, PartialEq)]
pub enum InstrArg {
    Register(Register),
    Immediate(Immediate),
    Name(Ident),
}

impl InstrArg {
    /// The span of the argument.
    pub open spec fn span_of(self) -> Span {
        match self {
            InstrArg::Register(reg) => reg.span,
            InstrArg::Immediate(imm) => imm.span,
            InstrArg::Name(name) => name.span,
        }
    }

    pub fn span(&self) -> (r: Span)
        ensures
            r == self.span_of(),
    {
        match self {
            InstrArg::Register(reg) => reg.span,
            InstrArg::Immediate(imm) => imm.span,
            InstrArg::Name(name) => name.span,
        }
    }

    pub fn is_name(&self) -> (r: bool)
        ensures
            r <==> self is Name,
    {
        match self {
            InstrArg::Name(_) => true,
            _ => false,
        }
    }
}

/// A register argument, optionally with an embedded offset, e.g. `$7` or
/// `$fp` with offset `-8`.
#[derive(Debug, Clone, PartialEq)]
pub struct Register {
    pub kind: RegisterKind,
    pub offset: Option<Immediate>,
    pub span: Span,
}

#[derive(Debug, Clone, PartialEq)]
pub enum RegisterKind {
    /// A named register like `$sp` or `$fp`.
    Named(Vec<u8>),
    /// A numbered register like `$0`, `$1`, `$63`.
    Numbered(u8),
}

} // verus!
