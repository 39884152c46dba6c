use vstd::prelude::*;
use crate::span::Span;

verus! {

/// The reserved words of the assembly dialect.
#[derive(Debug, Clone, Copy, PartialEq, Eq, Structural)]
pub enum Keyword {
    Section,
}

/// The bytes of the `section` keyword.
pub open spec fn section_name() -> Seq<u8> {
    // "section"
    seq![115u8, 101u8, 99u8, 116u8, 105u8, 111u8, 110u8]
}

impl Keyword {
    /// The keyword a word denotes, if any.
    pub fn from_str(value: &[u8]) -> (r: Option<Keyword>)
        ensures
            r is Some <==> value@ == section_name(),
            r is Some ==> r == Some(Keyword::Section),
    {
        if value.len() == 7 && value[0] == 115 && value[1] == 101 && value[2] == 99 && value[3]
            == 116 && value[4] == 105 && value[5] == 111 && value[6] == 110 {
            proof {
                assert(value@ =~= section_name());
            }
            Some(Keyword::Section)
        } else {
            proof {
                if value@ == section_name() {
                    assert(value@.len() == 7);
                }
            }
            None
        }
    }
}

#[derive(Debug, Clone, Copy, PartialEq, Eq, Structural)]
pub enum LitKind {
    /// An integer literal, decimal, hexadecimal, or binary.
    Integer,
    /// A string literal, interpreted as a series of bytes, with escapes
    /// already resolved.
    Bytes,
}

/// The different kinds of tokens the lexer produces.
#[derive(Debug, Clone, Copy, PartialEq, Eq, Structural)]
pub enum TokenKind {
    /// A keyword.
    Keyword(Keyword),
    /// A period immediately followed by an identifier.
    DotIdent,
    /// An identifier.
    Ident,
    /// A register reference, `$0` to `$63`, `$sp`, or `$fp`.
    Register,
    /// A literal.
    Literal(LitKind),
    /// A `:` character.
    Colon,
    /// A `,` character.
    Comma,
    /// The newline character.
    Newline,
    /// The end of the input.
    Eof,
    /// A placeholder produced for a fault, so lexing can continue.
    Error,
}

/// The payload of a register token.
#[derive(Debug, Clone, PartialEq)]
pub enum Register {
    /// A named register like `$sp` or `$fp`.
    Named(Vec<u8>),
    /// A numbered register like `$0`, `$1`, `$63`.
    Numbered(u8),
}

/// The data some token kinds carry.
#[derive(Debug, Clone, PartialEq)]
pub enum TokenValue {
    /// The lowercased text of an identifier.
    Ident(Vec<u8>),
    /// The value of a named or numbered register.
    Register(Register),
    /// An integer literal value, within `[i64::MIN, u64::MAX]`.
    Integer(i128),
    /// The unescaped bytes of a byte string literal.
    Bytes(Vec<u8>),
}

#[derive(Debug, Clone, PartialEq)]
pub struct Token {
    pub kind: TokenKind,
    pub span: Span,
    /// Some token kinds have data associated with them.
    pub value: Option<TokenValue>,
}

impl Token {
    /// The identifier text this token carries.
    pub fn unwrap_ident(&self) -> (r: &Vec<u8>)
        requires
            self.value matches Some(TokenValue::Ident(_)),
        ensures
            Some(TokenValue::Ident(*r)) == self.value,
    {
        match &self.value {
            Some(TokenValue::Ident(ident)) => ident,
            _ => unreached(),
        }
    }

    /// The register this token carries.
    pub fn unwrap_register(&self) -> (r: &Register)
        requires
            self.value matches Some(TokenValue::Register(_)),
        ensures
            Some(TokenValue::Register(*r)) == self.value,
    {
        match &self.value {
            Some(TokenValue::Register(reg)) => reg,
            _ => unreached(),
        }
    }

    /// The integer value this token carries.
    pub fn unwrap_integer(&self) -> (r: i128)
        requires
            self.value matches Some(TokenValue::Integer(_)),
        ensures
            Some(TokenValue::Integer(r)) == self.value,
    {
        match &self.value {
            Some(TokenValue::Integer(value)) => *value,
            _ => unreached(),
        }
    }

    /// The byte string this token carries.
    pub fn unwrap_bytes(&self) -> (r: &Vec<u8>)
        requires
            self.value matches Some(TokenValue::Bytes(_)),
        ensures
            Some(TokenValue::Bytes(*r)) == self.value,
    {
        match &self.value {
            Some(TokenValue::Bytes(bytes)) => bytes,
            _ => unreached(),
        }
    }
}

} // verus!
