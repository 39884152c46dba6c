use vstd::prelude::*;
use crate::ast;
use crate::diag::{DiagKind, Diagnostics};
use crate::span::Span;
use crate::token::{Keyword, LitKind, Register, Token, TokenKind, TokenValue};

verus! {

/// The name bytes of the directives the parser recognizes.
fn directive_is(name: &Vec<u8>, expected: &[u8]) -> (r: bool)
    ensures
        r <==> name@ == expected@,
{
    crate::bytestr::bytes_eq(name.as_slice(), expected)
}

/// A cursor over a token stream.
struct Parser<'a> {
    tokens: &'a Vec<Token>,
    pos: usize,
}

impl<'a> Parser<'a> {
    spec fn wf(self) -> bool {
        self.pos <= self.tokens@.len()
    }

    spec fn remaining(self) -> int {
        self.tokens@.len() - self.pos
    }

    /// The token at the cursor, or the last token when past the end.
    fn peek(&self) -> (t: &'a Token)
        requires
            self.wf(),
            self.tokens@.len() > 0,
    {
        if self.pos < self.tokens.len() {
            &self.tokens[self.pos]
        } else {
            &self.tokens[self.tokens.len() - 1]
        }
    }

    fn advance(&mut self)
        requires
            old(self).wf(),
        ensures
            final(self).wf(),
            final(self).tokens == old(self).tokens,
            old(self).remaining() > 0 ==> final(self).pos == old(self).pos + 1,
            old(self).remaining() == 0 ==> final(self).pos == old(self).pos,
    {
        if self.pos < self.tokens.len() {
            self.pos = self.pos + 1;
        }
    }

    /// Skips past the end of the current line so parsing can resume after a
    /// fault.
    fn skip_line(&mut self)
        requires
            old(self).wf(),
            old(self).tokens@.len() > 0,
        ensures
            final(self).wf(),
            final(self).tokens == old(self).tokens,
            final(self).pos >= old(self).pos,
    {
        loop
            invariant
                self.wf(),
                self.tokens@.len() > 0,
                self.tokens == old(self).tokens,
                self.pos >= old(self).pos,
            decreases self.remaining(),
        {
            if self.pos >= self.tokens.len() {
                break ;
            }
            let kind = self.peek().kind;
            match kind {
                TokenKind::Eof => {
                    break ;
                },
                TokenKind::Newline => {
                    self.advance();
                    break ;
                },
                _ => {
                    self.advance();
                },
            }
        }
    }
}

/// Parses the token stream of one source file into its statement list.
/// Every fault is diagnosed and recovered from by skipping to the next
/// line, so one run reports as many faults as possible.
pub fn parse_program(tokens: &Vec<Token>, diag: &mut Diagnostics) -> (r: ast::Program)
    requires
        tokens@.len() > 0,
    ensures
        old(diag).records@.is_prefix_of(final(diag).records@),
{
    let mut parser = Parser { tokens, pos: 0 };
    let mut stmts: Vec<ast::Stmt> = Vec::new();
    loop
        invariant
            parser.wf(),
            parser.tokens == tokens,
            tokens@.len() > 0,
            old(diag).records@.is_prefix_of(diag.records@),
        decreases parser.remaining(),
    {
        if parser.pos >= parser.tokens.len() {
            break ;
        }
        let ghost before = parser.pos;
        let kind = parser.peek().kind;
        match kind {
            TokenKind::Eof => {
                break ;
            },
            TokenKind::Newline => {
                parser.advance();
            },
            _ => {
                parse_stmt(&mut parser, &mut stmts, diag);
                proof {
                    assert(parser.pos > before);
                }
            },
        }
    }
    ast::Program { stmts }
}

/// Parses one statement line: leading labels, then a section header, a
/// directive, or an instruction, then the end of the line.
fn parse_stmt(parser: &mut Parser, stmts: &mut Vec<ast::Stmt>, diag: &mut Diagnostics)
    requires
        old(parser).wf(),
        old(parser).tokens@.len() > 0,
        old(parser).remaining() > 0,
    ensures
        final(parser).wf(),
        final(parser).tokens == old(parser).tokens,
        final(parser).pos > old(parser).pos,
        old(diag).records@.is_prefix_of(final(diag).records@),
{
    // Leading labels: an identifier directly followed by a colon.
    loop
        invariant
            parser.wf(),
            parser.tokens == old(parser).tokens,
            parser.tokens@.len() > 0,
            parser.pos >= old(parser).pos,
            old(diag).records@.is_prefix_of(diag.records@),
        decreases parser.remaining(),
    {
        if parser.pos >= parser.tokens.len() || parser.pos + 1 >= parser.tokens.len() {
            break ;
        }
        let is_label = {
            let t = &parser.tokens[parser.pos];
            let n = &parser.tokens[parser.pos + 1];
            (match (t.kind, n.kind) {
                (TokenKind::Ident, TokenKind::Colon) => true,
                _ => false,
            }) && (match &t.value {
                Some(TokenValue::Ident(_)) => true,
                _ => false,
            })
        };
        if !is_label {
            break ;
        }
        let t = &parser.tokens[parser.pos];
        let name = match &t.value {
            Some(TokenValue::Ident(name)) => name.clone(),
            _ => Vec::new(),
        };
        stmts.push(ast::Stmt::Label(ast::Ident { value: name, span: t.span }));
        parser.advance();
        parser.advance();
    }
    if parser.pos >= parser.tokens.len() {
        return ;
    }
    let ghost at_body = parser.pos;
    let t_kind = parser.peek().kind;
    let t_span = parser.peek().span;
    match t_kind {
        TokenKind::Newline => {
            // The line held only labels.
            parser.advance();
            return ;
        },
        TokenKind::Eof => {
            return handle_eof(parser);
        },
        TokenKind::Keyword(Keyword::Section) => {
            parser.advance();
            parse_section_header(parser, stmts, diag, t_span);
        },
        TokenKind::DotIdent => {
            parse_directive(parser, stmts, diag);
        },
        TokenKind::Ident => {
            parse_instr(parser, stmts, diag);
        },
        _ => {
            diag.span_error(DiagKind::ParseError, t_span);
            parser.advance();
            parser.skip_line();
            proof {
                assert(parser.pos > at_body);
            }
        },
    }
}

/// At the end of input a statement cannot start; the cursor moves to the
/// end so parsing stops.
fn handle_eof(parser: &mut Parser)
    requires
        old(parser).wf(),
        old(parser).remaining() > 0,
    ensures
        final(parser).wf(),
        final(parser).tokens == old(parser).tokens,
        final(parser).pos > old(parser).pos,
{
    parser.advance();
}

/// Parses `.static` or `.code` after the `section` keyword.
fn parse_section_header(
    parser: &mut Parser,
    stmts: &mut Vec<ast::Stmt>,
    diag: &mut Diagnostics,
    section_span: Span,
)
    requires
        old(parser).wf(),
        old(parser).tokens@.len() > 0,
    ensures
        final(parser).wf(),
        final(parser).tokens == old(parser).tokens,
        final(parser).pos >= old(parser).pos,
        old(diag).records@.is_prefix_of(final(diag).records@),
{
    let t_span = parser.peek().span;
    let name: Option<Vec<u8>> = {
        let t = parser.peek();
        match (t.kind, &t.value) {
            (TokenKind::DotIdent, Some(TokenValue::Ident(name))) => Some(name.clone()),
            _ => None,
        }
    };
    // ".code" and ".static".
    let kind = match &name {
        Some(name) => {
            if directive_is(name, &[46, 99, 111, 100, 101]) {
                Some(ast::SectionKind::Code(t_span))
            } else if directive_is(name, &[46, 115, 116, 97, 116, 105, 99]) {
                Some(ast::SectionKind::Static(t_span))
            } else {
                None
            }
        },
        None => None,
    };
    match kind {
        Some(kind) => {
            parser.advance();
            stmts.push(
                ast::Stmt::Section(
                    ast::Section { kind, span: section_span.to(t_span) },
                ),
            );
            expect_line_end(parser, diag);
        },
        None => {
            diag.span_error(DiagKind::ParseError, t_span);
            parser.skip_line();
        },
    }
}

/// Reads the newline that ends a statement; the end of input is accepted
/// too. Anything else is diagnosed and the rest of the line is skipped.
fn expect_line_end(parser: &mut Parser, diag: &mut Diagnostics)
    requires
        old(parser).wf(),
        old(parser).tokens@.len() > 0,
    ensures
        final(parser).wf(),
        final(parser).tokens == old(parser).tokens,
        final(parser).pos >= old(parser).pos,
        old(diag).records@.is_prefix_of(final(diag).records@),
{
    if parser.pos >= parser.tokens.len() {
        return ;
    }
    let kind = parser.peek().kind;
    let span = parser.peek().span;
    match kind {
        TokenKind::Newline => {
            parser.advance();
        },
        TokenKind::Eof => (),
        _ => {
            diag.span_error(DiagKind::ParseError, span);
            parser.skip_line();
        },
    }
}

/// Parses a directive statement: `.include`, `.const`, `.b1`/`.b2`/`.b4`/
/// `.b8`, `.zero`, `.uninit`, or `.bytes`.
fn parse_directive(parser: &mut Parser, stmts: &mut Vec<ast::Stmt>, diag: &mut Diagnostics)
    requires
        old(parser).wf(),
        old(parser).tokens@.len() > 0,
        old(parser).remaining() > 0,
    ensures
        final(parser).wf(),
        final(parser).tokens == old(parser).tokens,
        final(parser).pos > old(parser).pos,
        old(diag).records@.is_prefix_of(final(diag).records@),
{
    let t_span = parser.peek().span;
    let name: Vec<u8> = {
        let t = parser.peek();
        match &t.value {
            Some(TokenValue::Ident(name)) => name.clone(),
            _ => Vec::new(),
        }
    };
    parser.advance();
    // ".include"
    if directive_is(&name, &[46, 105, 110, 99, 108, 117, 100, 101]) {
        match take_bytes_lit(parser) {
            Some(path) => {
                stmts.push(ast::Stmt::Include(ast::Include { path }));
                expect_line_end(parser, diag);
            },
            None => {
                diag.span_error(DiagKind::ParseError, t_span);
                parser.skip_line();
            },
        }
        // ".const"
    } else if directive_is(&name, &[46, 99, 111, 110, 115, 116]) {
        let const_name = take_ident(parser);
        let value = take_integer(parser);
        match (const_name, value) {
            (Some(const_name), Some(value)) => {
                let span = t_span.to(value.span);
                stmts.push(ast::Stmt::Const(ast::Const { name: const_name, value, span }));
                expect_line_end(parser, diag);
            },
            _ => {
                diag.span_error(DiagKind::ParseError, t_span);
                parser.skip_line();
            },
        }
        // ".b1", ".b2", ".b4", ".b8"
    } else if directive_is(&name, &[46, 98, 49]) || directive_is(&name, &[46, 98, 50])
        || directive_is(&name, &[46, 98, 52]) || directive_is(&name, &[46, 98, 56]) {
        let size: u8 = if name.len() == 3 && name[2] == 49 {
            1
        } else if name.len() == 3 && name[2] == 50 {
            2
        } else if name.len() == 3 && name[2] == 52 {
            4
        } else {
            8
        };
        match take_integer(parser) {
            Some(value) => {
                let span = t_span.to(value.span);
                stmts.push(
                    ast::Stmt::StaticData(
                        ast::StaticData::StaticBytes(ast::StaticBytes { size, value, span }),
                    ),
                );
                expect_line_end(parser, diag);
            },
            None => {
                diag.span_error(DiagKind::ParseError, t_span);
                parser.skip_line();
            },
        }
        // ".zero"
    } else if directive_is(&name, &[46, 122, 101, 114, 111]) {
        match take_integer(parser) {
            Some(nbytes) => {
                let span = t_span.to(nbytes.span);
                stmts.push(
                    ast::Stmt::StaticData(
                        ast::StaticData::StaticZero(ast::StaticZero { nbytes, span }),
                    ),
                );
                expect_line_end(parser, diag);
            },
            None => {
                diag.span_error(DiagKind::ParseError, t_span);
                parser.skip_line();
            },
        }
        // ".uninit"
    } else if directive_is(&name, &[46, 117, 110, 105, 110, 105, 116]) {
        match take_integer(parser) {
            Some(nbytes) => {
                let span = t_span.to(nbytes.span);
                stmts.push(
                    ast::Stmt::StaticData(
                        ast::StaticData::StaticUninit(ast::StaticUninit { nbytes, span }),
                    ),
                );
                expect_line_end(parser, diag);
            },
            None => {
                diag.span_error(DiagKind::ParseError, t_span);
                parser.skip_line();
            },
        }
        // ".bytes"
    } else if directive_is(&name, &[46, 98, 121, 116, 101, 115]) {
        match take_bytes_lit(parser) {
            Some(bytes) => {
                let span = t_span.to(bytes.span);
                stmts.push(
                    ast::Stmt::StaticData(
                        ast::StaticData::StaticByteStr(ast::StaticByteStr { bytes, span }),
                    ),
                );
                expect_line_end(parser, diag);
            },
            None => {
                diag.span_error(DiagKind::ParseError, t_span);
                parser.skip_line();
            },
        }
    } else {
        // An unknown directive.
        diag.span_error(DiagKind::ParseError, t_span);
        parser.skip_line();
    }
}

/// Takes a byte string literal at the cursor, if one is there.
fn take_bytes_lit(parser: &mut Parser) -> (r: Option<ast::Bytes>)
    requires
        old(parser).wf(),
        old(parser).tokens@.len() > 0,
    ensures
        final(parser).wf(),
        final(parser).tokens == old(parser).tokens,
        final(parser).pos >= old(parser).pos,
{
    let t = if parser.pos < parser.tokens.len() {
        &parser.tokens[parser.pos]
    } else {
        return None;
    };
    match (t.kind, &t.value) {
        (TokenKind::Literal(LitKind::Bytes), Some(TokenValue::Bytes(bytes))) => {
            let r = ast::Bytes { value: bytes.clone(), span: t.span };
            parser.advance();
            Some(r)
        },
        _ => None,
    }
}

/// Takes an identifier at the cursor, if one is there.
fn take_ident(parser: &mut Parser) -> (r: Option<ast::Ident>)
    requires
        old(parser).wf(),
        old(parser).tokens@.len() > 0,
    ensures
        final(parser).wf(),
        final(parser).tokens == old(parser).tokens,
        final(parser).pos >= old(parser).pos,
{
    let t = if parser.pos < parser.tokens.len() {
        &parser.tokens[parser.pos]
    } else {
        return None;
    };
    match (t.kind, &t.value) {
        (TokenKind::Ident, Some(TokenValue::Ident(name))) => {
            let r = ast::Ident { value: name.clone(), span: t.span };
            parser.advance();
            Some(r)
        },
        _ => None,
    }
}

/// Takes an integer literal at the cursor, if one is there.
fn take_integer(parser: &mut Parser) -> (r: Option<ast::Integer>)
    requires
        old(parser).wf(),
        old(parser).tokens@.len() > 0,
    ensures
        final(parser).wf(),
        final(parser).tokens == old(parser).tokens,
        final(parser).pos >= old(parser).pos,
{
    let t = if parser.pos < parser.tokens.len() {
        &parser.tokens[parser.pos]
    } else {
        return None;
    };
    match (t.kind, &t.value) {
        (TokenKind::Literal(LitKind::Integer), Some(TokenValue::Integer(value))) => {
            let r = ast::Integer { value: *value, span: t.span };
            parser.advance();
            Some(r)
        },
        _ => None,
    }
}

/// Parses an instruction: its mnemonic and comma-separated arguments.
fn parse_instr(parser: &mut Parser, stmts: &mut Vec<ast::Stmt>, diag: &mut Diagnostics)
    requires
        old(parser).wf(),
        old(parser).tokens@.len() > 0,
        old(parser).remaining() > 0,
    ensures
        final(parser).wf(),
        final(parser).tokens == old(parser).tokens,
        final(parser).pos > old(parser).pos,
        old(diag).records@.is_prefix_of(final(diag).records@),
{
    let t_span = parser.peek().span;
    let name: Vec<u8> = {
        let t = parser.peek();
        match &t.value {
            Some(TokenValue::Ident(name)) => name.clone(),
            _ => Vec::new(),
        }
    };
    parser.advance();
    let mut args: Vec<ast::InstrArg> = Vec::new();
    // An argument list runs to the end of the line.
    let mut expect_arg = false;
    loop
        invariant
            parser.wf(),
            parser.tokens == old(parser).tokens,
            parser.tokens@.len() > 0,
            parser.pos > old(parser).pos,
            old(diag).records@.is_prefix_of(diag.records@),
        decreases parser.remaining(),
    {
        if parser.pos >= parser.tokens.len() {
            break ;
        }
        let kind = parser.peek().kind;
        let span = parser.peek().span;
        match kind {
            TokenKind::Newline => {
                if expect_arg {
                    // A trailing comma with no argument after it.
                    diag.span_error(DiagKind::ParseError, span);
                }
                parser.advance();
                break ;
            },
            TokenKind::Eof => {
                if expect_arg {
                    diag.span_error(DiagKind::ParseError, span);
                }
                break ;
            },
            _ => {
                let arg: Option<ast::InstrArg> = {
                    let t = parser.peek();
                    match (t.kind, &t.value) {
                        (TokenKind::Register, Some(TokenValue::Register(reg))) => {
                            let reg_kind = match reg {
                                Register::Named(name) => ast::RegisterKind::Named(name.clone()),
                                Register::Numbered(n) => ast::RegisterKind::Numbered(*n),
                            };
                            Some(
                                ast::InstrArg::Register(
                                    ast::Register { kind: reg_kind, offset: None, span: t.span },
                                ),
                            )
                        },
                        (
                            TokenKind::Literal(LitKind::Integer),
                            Some(TokenValue::Integer(value)),
                        ) => Some(ast::InstrArg::Immediate(ast::Integer { value: *value, span: t.span })),
                        (TokenKind::Ident, Some(TokenValue::Ident(name))) => Some(
                            ast::InstrArg::Name(ast::Ident { value: name.clone(), span: t.span }),
                        ),
                        _ => None,
                    }
                };
                match arg {
                    Some(arg) => {
                        args.push(arg);
                        parser.advance();
                        expect_arg = false;
                        // A comma continues the argument list.
                        if parser.pos < parser.tokens.len() {
                            let next_kind = parser.peek().kind;
                            match next_kind {
                                TokenKind::Comma => {
                                    parser.advance();
                                    expect_arg = true;
                                },
                                _ => (),
                            }
                        }
                    },
                    None => {
                        diag.span_error(DiagKind::ParseError, span);
                        parser.skip_line();
                        break ;
                    },
                }
            },
        }
    }
    stmts.push(ast::Stmt::Instr(ast::Instr { name: ast::Ident { value: name, span: t_span }, args }));
}

} // verus!
