use vstd::prelude::*;
use crate::diag::{DiagKind, Diagnostics};
use crate::span::Span;
use crate::scanner::Scanner;
use crate::token::{Keyword, LitKind, Register, Token, TokenKind, TokenValue};

verus! {

/// Turns the source bytes into tokens, one `next` call per token. Faults
/// are reported into the carried diagnostics and produce `Error` tokens, so
/// lexing always continues.
#[derive(Debug)]
pub struct Lexer {
    scanner: Scanner,
    diag: Diagnostics,
}

impl Lexer {
    pub closed spec fn wf(self) -> bool {
        self.scanner.wf()
    }

    pub closed spec fn pos_spec(self) -> int {
        self.scanner.pos_spec()
    }

    pub closed spec fn src(self) -> Seq<u8> {
        self.scanner.source_spec()
    }

    /// How many bytes of input are left.
    pub open spec fn remaining(self) -> int {
        self.src().len() - self.pos_spec()
    }

    pub fn new(scanner: Scanner) -> (r: Lexer)
        requires
            scanner.wf(),
        ensures
            r.wf(),
    {
        Lexer { scanner, diag: Diagnostics::new() }
    }

    /// The diagnostics collected so far.
    pub fn diagnostics(&self) -> &Diagnostics {
        &self.diag
    }

    /// Returns the next token in the input.
    pub fn next(&mut self) -> (t: Token)
        requires
            old(self).wf(),
        ensures
            final(self).wf(),
            final(self).src() == old(self).src(),
            final(self).pos_spec() >= old(self).pos_spec(),
            t.kind is Eof ==> final(self).remaining() == 0,
            !(t.kind is Eof) ==> final(self).pos_spec() > old(self).pos_spec(),
    {
        self.ignore_whitespace_comments();

        let start = self.scanner.current_pos();
        let current_byte = match self.scanner.next() {
            Some(b) => b,
            None => {
                return self.empty_token(start, TokenKind::Eof);
            },
        };

        // `:` 58, `,` 44, newline 10, `"` 34, `'` 39, `-` 45, `.` 46,
        // `$` 36, `_` 95.
        if current_byte == 58 {
            self.byte_token(start, TokenKind::Colon)
        } else if current_byte == 44 {
            self.byte_token(start, TokenKind::Comma)
        } else if current_byte == 10 {
            self.byte_token(start, TokenKind::Newline)
        } else if current_byte == 34 || current_byte == 39 {
            self.bytes_lit(start, current_byte)
        } else if is_digit(current_byte) || (current_byte == 45 && match self.scanner.peek() {
            Some(b) => is_digit(b),
            None => false,
        }) {
            self.integer_lit(start, current_byte)
        } else if current_byte == 46 && (match self.scanner.peek() {
            Some(b) => is_letter(b) || b == 95,
            None => false,
        }) {
            self.dot_ident(start)
        } else if is_letter(current_byte) || current_byte == 95 {
            self.ident(start)
        } else if current_byte == 36 {
            self.register(start)
        } else {
            let token = self.byte_token(start, TokenKind::Error);
            self.diag.span_error(DiagKind::ParseError, token.span);
            token
        }
    }

    /// Skips whitespace and line comments until neither makes progress.
    fn ignore_whitespace_comments(&mut self)
        requires
            old(self).wf(),
        ensures
            final(self).wf(),
            final(self).src() == old(self).src(),
            final(self).pos_spec() >= old(self).pos_spec(),
    {
        let mut made_progress = true;
        while made_progress
            invariant
                self.wf(),
                self.src() == old(self).src(),
                self.pos_spec() >= old(self).pos_spec(),
            decreases self.remaining() + (if made_progress {
                1int
            } else {
                0int
            }),
        {
            let before = self.scanner.current_pos();
            self.ignore_whitespace();
            self.ignore_comments();
            made_progress = self.scanner.current_pos() > before;
        }
    }

    /// Skips whitespace; a newline is significant and is not skipped.
    fn ignore_whitespace(&mut self)
        requires
            old(self).wf(),
        ensures
            final(self).wf(),
            final(self).src() == old(self).src(),
            final(self).pos_spec() >= old(self).pos_spec(),
    {
        loop
            invariant
                self.wf(),
                self.src() == old(self).src(),
                self.pos_spec() >= old(self).pos_spec(),
            decreases self.remaining(),
        {
            match self.scanner.peek() {
                // Space 32, tab 9, carriage return 13, form feed 12,
                // vertical tab 11: ASCII whitespace except newline.
                Some(b) => {
                    if (b == 32 || b == 9 || b == 13 || b == 12 || b == 11) {
                        self.scanner.next();
                    } else {
                        break ;
                    }
                },
                None => {
                    break ;
                },
            }
        }
    }

    /// Skips `#` and `;` line comments.
    fn ignore_comments(&mut self)
        requires
            old(self).wf(),
        ensures
            final(self).wf(),
            final(self).src() == old(self).src(),
            final(self).pos_spec() >= old(self).pos_spec(),
    {
        loop
            invariant
                self.wf(),
                self.src() == old(self).src(),
                self.pos_spec() >= old(self).pos_spec(),
            decreases self.remaining(),
        {
            match self.scanner.peek() {
                // `#` 35, `;` 59.
                Some(b) => {
                    if b == 35 || b == 59 {
                        // Consume the marker, then the rest of the line.
                        self.scanner.next();
                        self.ignore_until_eol();
                    } else {
                        break ;
                    }
                },
                None => {
                    break ;
                },
            }
        }
    }

    /// Skips until the end of the line, leaving the newline unconsumed.
    fn ignore_until_eol(&mut self)
        requires
            old(self).wf(),
        ensures
            final(self).wf(),
            final(self).src() == old(self).src(),
            final(self).pos_spec() >= old(self).pos_spec(),
    {
        loop
            invariant
                self.wf(),
                self.src() == old(self).src(),
                self.pos_spec() >= old(self).pos_spec(),
            decreases self.remaining(),
        {
            match self.scanner.peek() {
                Some(b) => {
                    if b == 10 {
                        break ;
                    }
                    self.scanner.next();
                },
                None => {
                    break ;
                },
            }
        }
    }

    /// Lexes the remaining byte string literal after the opening quote.
    fn bytes_lit(&mut self, start: usize, quote: u8) -> (t: Token)
        requires
            old(self).wf(),
            old(self).pos_spec() > 0,
        ensures
            final(self).wf(),
            final(self).src() == old(self).src(),
            final(self).pos_spec() >= old(self).pos_spec(),
            !(t.kind is Eof),
    {
        let mut unescaped_text: Vec<u8> = Vec::new();
        loop
            invariant
                self.wf(),
                self.src() == old(self).src(),
                self.pos_spec() >= old(self).pos_spec(),
            decreases self.remaining(),
        {
            let b = self.scanner.next();
            match b {
                Some(ch) => {
                    if ch == quote {
                        break ;
                    } else if ch == 92 {
                        // A backslash starts an escape sequence.
                        match self.unescape_byte(start) {
                            Ok(unescaped) => {
                                unescaped_text.push(unescaped);
                            },
                            Err(token) => {
                                return token;
                            },
                        }
                    } else if ch == 10 {
                        // An unescaped newline is not allowed.
                        return self.unterminated_bytes(start, quote);
                    } else {
                        unescaped_text.push(ch);
                    }
                },
                None => {
                    return self.unterminated_bytes(start, quote);
                },
            }
        }
        let value = TokenValue::Bytes(unescaped_text);
        self.token_to_current(start, TokenKind::Literal(LitKind::Bytes), Some(value))
    }

    /// Reports an unterminated byte string and skips to its closing quote so
    /// no spurious errors follow.
    fn unterminated_bytes(&mut self, start: usize, quote: u8) -> (t: Token)
        requires
            old(self).wf(),
        ensures
            final(self).wf(),
            final(self).src() == old(self).src(),
            final(self).pos_spec() >= old(self).pos_spec(),
            !(t.kind is Eof),
    {
        let token = self.token_to_current(start, TokenKind::Error, None);
        self.diag.span_error(DiagKind::ParseError, token.span);
        loop
            invariant
                self.wf(),
                self.src() == old(self).src(),
                self.pos_spec() >= old(self).pos_spec(),
            decreases self.remaining(),
        {
            match self.scanner.next() {
                Some(ch) => {
                    if ch == quote {
                        break ;
                    }
                },
                None => {
                    break ;
                },
            }
        }
        token
    }

    /// Interprets a byte escape sequence, the starting backslash already
    /// consumed.
    fn unescape_byte(&mut self, start: usize) -> (r: Result<u8, Token>)
        requires
            old(self).wf(),
        ensures
            final(self).wf(),
            final(self).src() == old(self).src(),
            final(self).pos_spec() >= old(self).pos_spec(),
            r matches Err(t) ==> !(t.kind is Eof),
    {
        match self.scanner.next() {
            // `\\`, `\"`, `\'`, `\n`, `\r`, `\t`, `\0`.
            Some(92) => Ok(92),
            Some(34) => Ok(34),
            Some(39) => Ok(39),
            Some(110) => Ok(10),
            Some(114) => Ok(13),
            Some(116) => Ok(9),
            Some(48) => Ok(0),
            // `\x{..}`: one or two hex digits.
            Some(120) => {
                // `{` 123, `}` 125.
                if !(match self.scanner.next() {
                    Some(b) => b == 123,
                    None => false,
                }) {
                    return Err(self.escape_error(start));
                }
                let (count, digits) = self.digits(true);
                if count == 0 || count > 2 {
                    return Err(self.escape_error(start));
                }
                if !(match self.scanner.next() {
                    Some(b) => b == 125,
                    None => false,
                }) {
                    return Err(self.escape_error(start));
                }
                let mut value: u64 = 0;
                let mut i: usize = 0;
                while i < digits.len()
                    invariant
                        value < 0x100000000,
                    decreases digits@.len() - i,
                {
                    if value < 0x10000000 {
                        value = value * 16 + (hex_digit_value(digits[i]) as u64);
                    }
                    i = i + 1;
                }
                // One or two hex digits always fit a byte.
                if value <= 0xff {
                    Ok(value as u8)
                } else {
                    Err(self.escape_error(start))
                }
            },
            // `\b{..}`: one to eight binary digits.
            Some(98) => {
                if !(match self.scanner.next() {
                    Some(b) => b == 123,
                    None => false,
                }) {
                    return Err(self.escape_error(start));
                }
                let (count, digits) = self.digits(false);
                if count == 0 || count > 8 {
                    return Err(self.escape_error(start));
                }
                if !(match self.scanner.next() {
                    Some(b) => b == 125,
                    None => false,
                }) {
                    return Err(self.escape_error(start));
                }
                let mut value: u64 = 0;
                let mut bad_digit = false;
                let mut i: usize = 0;
                while i < digits.len()
                    invariant
                        value < 0x10000000000,
                    decreases digits@.len() - i,
                {
                    let d = hex_digit_value(digits[i]);
                    if d > 1 {
                        bad_digit = true;
                    }
                    if value < 0x100000000 {
                        value = value * 2 + (d as u64);
                    }
                    i = i + 1;
                }
                if bad_digit || value > 0xff {
                    Err(self.escape_error(start))
                } else {
                    Ok(value as u8)
                }
            },
            Some(_) => Err(self.escape_error(start)),
            None => {
                let token = self.token_to_current(start, TokenKind::Error, None);
                self.diag.span_error(DiagKind::ParseError, token.span);
                Err(token)
            },
        }
    }

    /// An error token for a malformed escape sequence.
    fn escape_error(&mut self, start: usize) -> (t: Token)
        requires
            old(self).wf(),
        ensures
            final(self).wf(),
            final(self).src() == old(self).src(),
            final(self).pos_spec() == old(self).pos_spec(),
            t.kind is Error,
    {
        let token = self.byte_token(start, TokenKind::Error);
        self.diag.span_error(DiagKind::ParseError, token.span);
        token
    }

    /// Lexes an integer literal, given its first byte (a digit or the
    /// negative sign). The value must lie in `[i64::MIN, u64::MAX]`.
    fn integer_lit(&mut self, start: usize, start_byte: u8) -> (t: Token)
        requires
            old(self).wf(),
        ensures
            final(self).wf(),
            final(self).src() == old(self).src(),
            final(self).pos_spec() >= old(self).pos_spec(),
            !(t.kind is Eof),
    {
        // A leading zero may start a hex (`0x`) or binary (`0b`) literal.
        let next_is_x = match self.scanner.peek() {
            Some(b) => b == 120,
            None => false,
        };
        let next_is_b = match self.scanner.peek() {
            Some(b) => b == 98,
            None => false,
        };
        let parsed: Result<i128, ()> = if start_byte == 48 && next_is_x {
            self.scanner.next();
            let (count, digits) = self.digits(true);
            if count == 0 {
                Err(())
            } else {
                match magnitude_of_digits(&digits, 16) {
                    Some(mag) => Ok(mag as i128),
                    None => Err(()),
                }
            }
        } else if start_byte == 48 && next_is_b {
            self.scanner.next();
            let (count, digits) = self.digits(false);
            if count == 0 {
                Err(())
            } else {
                match magnitude_of_digits(&digits, 2) {
                    Some(mag) => Ok(mag as i128),
                    None => Err(()),
                }
            }
        } else {
            let negative = start_byte == 45;
            let (_, digits) = self.digits(false);
            let mut all_digits: Vec<u8> = Vec::new();
            if !negative {
                all_digits.push(start_byte);
            }
            let mut i: usize = 0;
            while i < digits.len()
                decreases digits@.len() - i,
            {
                all_digits.push(digits[i]);
                i = i + 1;
            }
            match magnitude_of_digits(&all_digits, 10) {
                Some(mag) => Ok(
                    if negative {
                        -(mag as i128)
                    } else {
                        mag as i128
                    },
                ),
                None => Err(()),
            }
        };
        let value = match parsed {
            Ok(v) => v,
            Err(()) => {
                let token = self.token_to_current(start, TokenKind::Error, None);
                self.diag.span_error(DiagKind::ParseError, token.span);
                return token;
            },
        };
        if value < -0x8000000000000000i128 || value > 0xffffffffffffffffi128 {
            let token = self.token_to_current(start, TokenKind::Error, None);
            self.diag.span_error(DiagKind::ParseError, token.span);
            return token;
        }
        // An integer cannot be directly followed by an identifier.
        let followed_by_letter = match self.scanner.peek() {
            Some(b) => is_letter(b),
            None => false,
        };
        if followed_by_letter {
            // Skip the stuck-together identifier or number so no spurious
            // errors follow.
            loop
                invariant
                    self.wf(),
                    self.src() == old(self).src(),
                    self.pos_spec() >= old(self).pos_spec(),
                decreases self.remaining(),
            {
                match self.scanner.peek() {
                    Some(b) => {
                        if is_letter(b) || is_digit(b) || b == 95 {
                            self.scanner.next();
                        } else {
                            break ;
                        }
                    },
                    None => {
                        break ;
                    },
                }
            }
            let token = self.token_to_current(start, TokenKind::Error, None);
            self.diag.span_error(DiagKind::ParseError, token.span);
            return token;
        }
        let value = TokenValue::Integer(value);
        self.token_to_current(start, TokenKind::Literal(LitKind::Integer), Some(value))
    }

    /// Collects digit bytes: decimal digits, and when `hex` also the hex
    /// letters. Underscores are skipped and not counted. The byte after the
    /// run is left unconsumed.
    fn digits(&mut self, hex: bool) -> (r: (usize, Vec<u8>))
        requires
            old(self).wf(),
        ensures
            final(self).wf(),
            final(self).src() == old(self).src(),
            final(self).pos_spec() >= old(self).pos_spec(),
            r.0 == r.1@.len(),
    {
        let mut collected: Vec<u8> = Vec::new();
        loop
            invariant
                self.wf(),
                self.src() == old(self).src(),
                self.pos_spec() >= old(self).pos_spec(),
            decreases self.remaining(),
        {
            match self.scanner.peek() {
                Some(b) => {
                    if is_digit(b) || (hex && is_hex_letter(b)) {
                        collected.push(b);
                        self.scanner.next();
                    } else if b == 95 {
                        // Underscores separate digit groups and are skipped.
                        self.scanner.next();
                    } else {
                        break ;
                    }
                },
                None => {
                    break ;
                },
            }
        }
        let n = collected.len();
        (n, collected)
    }

    /// Lexes an identifier preceded by a period, the period already
    /// consumed.
    fn dot_ident(&mut self, start: usize) -> (t: Token)
        requires
            old(self).wf(),
            old(self).pos_spec() > 0,
        ensures
            final(self).wf(),
            final(self).src() == old(self).src(),
            final(self).pos_spec() >= old(self).pos_spec(),
            !(t.kind is Eof),
    {
        // Skip the first letter.
        self.scanner.next();
        self.consume_ident_bytes();
        let end = self.scanner.current_pos();
        let start_clamped = if start <= end {
            start
        } else {
            end
        };
        let text = self.scanner.slice(start_clamped, end);
        let value = TokenValue::Ident(to_lowercase(&text));
        self.token_to_current(start, TokenKind::DotIdent, Some(value))
    }

    /// Lexes an identifier, its first byte already consumed. Identifiers
    /// are case-insensitive: the token carries the lowercased text.
    fn ident(&mut self, start: usize) -> (t: Token)
        requires
            old(self).wf(),
            old(self).pos_spec() > 0,
        ensures
            final(self).wf(),
            final(self).src() == old(self).src(),
            final(self).pos_spec() >= old(self).pos_spec(),
            !(t.kind is Eof),
    {
        self.consume_ident_bytes();
        let end = self.scanner.current_pos();
        let start_clamped = if start <= end {
            start
        } else {
            end
        };
        let text = self.scanner.slice(start_clamped, end);
        match Keyword::from_str(text.as_slice()) {
            Some(kw) => self.token_to_current(start, TokenKind::Keyword(kw), None),
            None => {
                let value = TokenValue::Ident(to_lowercase(&text));
                self.token_to_current(start, TokenKind::Ident, Some(value))
            },
        }
    }

    /// Consumes the alphanumeric-or-underscore tail of an identifier.
    fn consume_ident_bytes(&mut self)
        requires
            old(self).wf(),
        ensures
            final(self).wf(),
            final(self).src() == old(self).src(),
            final(self).pos_spec() >= old(self).pos_spec(),
    {
        loop
            invariant
                self.wf(),
                self.src() == old(self).src(),
                self.pos_spec() >= old(self).pos_spec(),
            decreases self.remaining(),
        {
            match self.scanner.peek() {
                Some(b) => {
                    if is_letter(b) || is_digit(b) || b == 95 {
                        self.scanner.next();
                    } else {
                        break ;
                    }
                },
                None => {
                    break ;
                },
            }
        }
    }

    /// Lexes a register, the starting `$` already consumed.
    fn register(&mut self, start: usize) -> (t: Token)
        requires
            old(self).wf(),
            old(self).pos_spec() > 0,
        ensures
            final(self).wf(),
            final(self).src() == old(self).src(),
            final(self).pos_spec() >= old(self).pos_spec(),
            !(t.kind is Eof),
    {
        let reg_name_start = self.scanner.current_pos();
        match self.scanner.next() {
            // A lowercase letter begins a named register.
            Some(b) if 97 <= b && b <= 122 => {
                let name_token = self.ident(reg_name_start);
                match name_token.kind {
                    TokenKind::Ident => {
                        let name = match name_token.value {
                            Some(TokenValue::Ident(name)) => name,
                            _ => Vec::new(),
                        };
                        let value = TokenValue::Register(Register::Named(name));
                        self.token_to_current(start, TokenKind::Register, Some(value))
                    },
                    _ => {
                        let token = self.token_to_current(start, TokenKind::Error, None);
                        self.diag.span_error(DiagKind::ParseError, token.span);
                        token
                    },
                }
            },
            Some(b) if is_digit(b) => {
                let mut value: u64 = b as u64 - 48;
                let mut too_large = false;
                loop
                    invariant
                        self.wf(),
                        self.src() == old(self).src(),
                        self.pos_spec() >= old(self).pos_spec(),
                        value <= 0xffff,
                    decreases self.remaining(),
                {
                    match self.scanner.peek() {
                        Some(d) => {
                            if is_digit(d) {
                                self.scanner.next();
                                if value <= 0xff {
                                    value = value * 10 + (d as u64 - 48);
                                } else {
                                    too_large = true;
                                }
                            } else {
                                break ;
                            }
                        },
                        None => {
                            break ;
                        },
                    }
                }
                if too_large || value > 0xff {
                    // The number does not fit the register field.
                    let token = self.token_to_current(start, TokenKind::Error, None);
                    self.diag.span_error(DiagKind::ParseError, token.span);
                    token
                } else {
                    let value = TokenValue::Register(Register::Numbered(value as u8));
                    self.token_to_current(start, TokenKind::Register, Some(value))
                }
            },
            Some(_) => {
                let token = self.token_to_current(start, TokenKind::Error, None);
                self.diag.span_error(DiagKind::ParseError, token.span);
                token
            },
            None => {
                let token = self.token_to_current(start, TokenKind::Error, None);
                self.diag.span_error(DiagKind::ParseError, token.span);
                token
            },
        }
    }

    /// A zero-width token at the given position.
    fn empty_token(&self, start: usize, kind: TokenKind) -> (t: Token)
        ensures
            t.kind == kind,
            t.value is None,
    {
        let span = self.scanner.empty_span(start);
        Token { kind, span, value: None }
    }

    /// A one-byte token at the given position.
    fn byte_token(&self, start: usize, kind: TokenKind) -> (t: Token)
        ensures
            t.kind == kind,
            t.value is None,
    {
        let span = if start < usize::MAX {
            self.scanner.byte_span(start)
        } else {
            self.scanner.empty_span(start)
        };
        Token { kind, span, value: None }
    }

    /// A token spanning from `start` to the current position.
    fn token_to_current(&self, start: usize, kind: TokenKind, value: Option<TokenValue>) -> (t:
        Token)
        ensures
            t.kind == kind,
            t.value == value,
    {
        let span = self.scanner.span(start, self.scanner.current_pos());
        Token { kind, span, value }
    }
}

/// Whether a byte is an ASCII decimal digit.
pub fn is_digit(b: u8) -> (r: bool)
    ensures
        r <==> 48 <= b <= 57,
{
    48 <= b && b <= 57
}

/// Whether a byte is an ASCII letter.
pub fn is_letter(b: u8) -> (r: bool)
    ensures
        r <==> (65 <= b <= 90 || 97 <= b <= 122),
{
    (65 <= b && b <= 90) || (97 <= b && b <= 122)
}

/// Whether a byte is a hex digit letter, `a` to `f` in either case.
pub fn is_hex_letter(b: u8) -> (r: bool)
    ensures
        r <==> (97 <= b <= 102 || 65 <= b <= 70),
{
    (97 <= b && b <= 102) || (65 <= b && b <= 70)
}

/// The numeric value of a digit byte: decimal digits and hex letters.
pub fn hex_digit_value(b: u8) -> (r: u8)
    ensures
        r < 16 || r == 0,
        48 <= b <= 57 ==> r == b - 48,
        97 <= b <= 102 ==> r == b - 97 + 10,
        65 <= b <= 70 ==> r == b - 65 + 10,
{
    if 48 <= b && b <= 57 {
        b - 48
    } else if 97 <= b && b <= 102 {
        b - 97 + 10
    } else if 65 <= b && b <= 70 {
        b - 65 + 10
    } else {
        0
    }
}

/// The magnitude the collected digits denote in the given radix, or `None`
/// when a digit does not fit the radix or the value exceeds the 64-bit
/// range.
fn magnitude_of_digits(digits: &Vec<u8>, radix: u8) -> (r: Option<u64>)
    requires
        radix == 2 || radix == 10 || radix == 16,
{
    let mut mag: u128 = 0;
    let mut too_big = false;
    let mut bad_digit = false;
    let mut i: usize = 0;
    while i < digits.len()
        invariant
            mag <= 0xffffffffffffffffu128,
            radix == 2 || radix == 10 || radix == 16,
        decreases digits@.len() - i,
    {
        let d = hex_digit_value(digits[i]);
        if d >= radix || !(is_digit(digits[i]) || (radix == 16 && is_hex_letter(digits[i]))) {
            bad_digit = true;
        }
        let scaled: u128 = if radix == 2 {
            mag * 2
        } else if radix == 10 {
            mag * 10
        } else {
            mag * 16
        };
        let next = scaled + (d as u128);
        if next > 0xffffffffffffffffu128 {
            too_big = true;
            mag = 0xffffffffffffffffu128;
        } else {
            mag = next;
        }
        i = i + 1;
    }
    if bad_digit || too_big {
        None
    } else {
        Some(mag as u64)
    }
}

/// The ASCII-lowercased copy of a byte string.
pub fn to_lowercase(text: &Vec<u8>) -> (r: Vec<u8>)
    ensures
        r@.len() == text@.len(),
        forall|i: int|
            0 <= i < text@.len() ==> r@[i] == (if 65 <= text@[i] <= 90 {
                (text@[i] + 32) as u8
            } else {
                text@[i]
            }),
{
    let mut out: Vec<u8> = Vec::new();
    let mut i: usize = 0;
    while i < text.len()
        invariant
            i <= text@.len(),
            out@.len() == i,
            forall|j: int|
                0 <= j < i ==> out@[j] == (if 65 <= text@[j] <= 90 {
                    (text@[j] + 32) as u8
                } else {
                    text@[j]
                }),
        decreases text@.len() - i,
    {
        let b = text[i];
        if 65 <= b && b <= 90 {
            out.push(b + 32);
        } else {
            out.push(b);
        }
        i = i + 1;
    }
    out
}

/// Tokenizes a whole source file, reporting lexing faults into the given
/// diagnostics. The returned stream always ends with an end-of-input token.
pub fn collect_tokens(source: Vec<u8>, diag: &mut Diagnostics) -> (r: Vec<Token>)
    ensures
        old(diag).records@.is_prefix_of(final(diag).records@),
        r@.len() > 0,
{
    let mut lexer = Lexer::new(crate::scanner::Scanner::new(source));
    let mut tokens: Vec<Token> = Vec::new();
    loop
        invariant
            lexer.wf(),
        decreases lexer.remaining(),
    {
        let token = lexer.next();
        let is_eof = match token.kind {
            TokenKind::Eof => true,
            _ => false,
        };
        tokens.push(token);
        if is_eof {
            break ;
        }
    }
    // Carry the lexer's diagnostics over.
    let records = &lexer.diagnostics().records;
    let mut i: usize = 0;
    while i < records.len()
        invariant
            old(diag).records@.is_prefix_of(diag.records@),
        decreases records@.len() - i,
    {
        let d = records[i];
        diag.records.push(d);
        proof {
            assert(old(diag).records@.is_prefix_of(diag.records@));
        }
        i = i + 1;
    }
    if tokens.len() == 0 {
        // Unreachable: the stream always ends with an end-of-input token.
        tokens.push(Token { kind: TokenKind::Eof, span: Span { start: 0, end: 0 }, value: None });
    }
    tokens
}

} // verus!
