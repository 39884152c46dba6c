use wolf_asm::lexer::Lexer;
use wolf_asm::scanner::Scanner;
use wolf_asm::token::{Keyword, LitKind, Register, Token, TokenKind, TokenValue};

fn lex(source: &[u8]) -> Vec<Token> {
    let mut lexer = Lexer::new(Scanner::new(source.to_vec()));
    let mut tokens = Vec::new();
    loop {
        let token = lexer.next();
        let eof = token.kind == TokenKind::Eof;
        tokens.push(token);
        if eof {
            break;
        }
    }
    tokens
}

/// Asserts that the source lexes to exactly the expected kind/value pairs,
/// followed by end of input.
fn expect_tokens(source: &[u8], expected: &[(TokenKind, Option<TokenValue>)]) {
    let tokens = lex(source);
    assert_eq!(
        tokens.len(),
        expected.len() + 1,
        "wrong token count for {:?}",
        String::from_utf8_lossy(source)
    );
    for (i, (kind, value)) in expected.iter().enumerate() {
        assert_eq!(tokens[i].kind, *kind, "kind mismatch at {}", i);
        assert_eq!(tokens[i].value, *value, "value mismatch at {}", i);
    }
    assert_eq!(tokens[expected.len()].kind, TokenKind::Eof);
}

fn expect_token(source: &[u8], kind: TokenKind, value: Option<TokenValue>) {
    expect_tokens(source, &[(kind, value)]);
}

fn expect_error(source: &[u8]) {
    expect_token(source, TokenKind::Error, None);
}

fn ident(text: &[u8]) -> Option<TokenValue> {
    Some(TokenValue::Ident(text.to_vec()))
}

fn int_val(value: i128) -> Option<TokenValue> {
    Some(TokenValue::Integer(value))
}

fn named_reg(text: &[u8]) -> Option<TokenValue> {
    Some(TokenValue::Register(Register::Named(text.to_vec())))
}

fn numbered_reg(value: u8) -> Option<TokenValue> {
    Some(TokenValue::Register(Register::Numbered(value)))
}

fn bytes_value(bytes: &[u8]) -> Option<TokenValue> {
    Some(TokenValue::Bytes(bytes.to_vec()))
}

const ERR: (TokenKind, Option<TokenValue>) = (TokenKind::Error, None);

#[test]
fn line_comments() {
    expect_tokens(b"; 0xInvalidLit", &[]);
    expect_tokens(b"# 0xInvalid", &[]);
    expect_tokens(b"###wooooo", &[]);
    expect_tokens(b";this # is a nested comment ;;; # ##", &[]);
}

#[test]
fn keywords() {
    expect_token(b"section", TokenKind::Keyword(Keyword::Section), None);
}

#[test]
fn colon() {
    expect_token(b":", TokenKind::Colon, None);
}

#[test]
fn comma() {
    expect_token(b",", TokenKind::Comma, None);
}

#[test]
fn newline() {
    let nl = (TokenKind::Newline, None);
    expect_token(b"\n", TokenKind::Newline, None);
    expect_tokens(b"\n\n", &[nl.clone(), nl.clone()]);
    expect_tokens(b"\n  \n\t \n", &[nl.clone(), nl.clone(), nl.clone()]);
    expect_token(b"\t; comment\n", TokenKind::Newline, None);
    expect_token(b"# comment\n", TokenKind::Newline, None);
}

#[test]
fn decimal_literals() {
    let int_kind = TokenKind::Literal(LitKind::Integer);
    expect_token(b"0", int_kind, int_val(0));
    expect_token(b"000", int_kind, int_val(0));
    expect_token(b"013", int_kind, int_val(13));
    expect_token(b"123", int_kind, int_val(123));
    expect_token(b"9_999", int_kind, int_val(9999));
    expect_token(b"-9_999", int_kind, int_val(-9999));
    expect_token(b"-9223372036854775808", int_kind, int_val(i64::MIN as i128));
    expect_token(b"18446744073709551615", int_kind, int_val(u64::MAX as i128));
}

#[test]
fn decimal_literals_invalid() {
    // out of range
    expect_error(b"-9223372036854775809");
    expect_error(b"18446744073709551616");

    // hex digits
    expect_error(b"1844A674f4073709C551616");
}

#[test]
fn hex_literals() {
    let int_kind = TokenKind::Literal(LitKind::Integer);
    expect_token(b"0x0", int_kind, int_val(0x0));
    expect_token(b"0x000", int_kind, int_val(0x0));
    expect_token(b"0x013", int_kind, int_val(0x013));
    expect_token(b"0x123", int_kind, int_val(0x123));
    expect_token(b"0x9999", int_kind, int_val(0x9999));
    expect_token(b"0x030AfacbCDdef", int_kind, int_val(0x030AfacbCDdef));
    expect_token(b"0xffff", int_kind, int_val(0xffff));
    expect_token(b"0xffff_ffff_ffff_ffff", int_kind, int_val(u64::MAX as i128));
    expect_token(b"0xFFFF_FFFF_FFFF_FFFF", int_kind, int_val(u64::MAX as i128));
}

#[test]
fn hex_literals_invalid() {
    // out of range
    expect_error(b"0x1_0000_0000_0000_0000");

    // cannot be negative
    expect_error(b"-0x0");
    expect_error(b"-0x1");

    // empty
    expect_error(b"0x");

    // 'g' is not a letter between 'a' and 'f'
    expect_tokens(b"0xg", &[ERR, (TokenKind::Ident, ident(b"g"))]);
}

#[test]
fn binary_literals() {
    let int_kind = TokenKind::Literal(LitKind::Integer);
    expect_token(b"0b0", int_kind, int_val(0));
    expect_token(b"0b000", int_kind, int_val(0));
    expect_token(b"0b0001", int_kind, int_val(1));
    expect_token(b"0b1", int_kind, int_val(1));
    expect_token(
        b"0b11111111_11111111_11111111_11111111_11111111_11111111_11111111_11111111",
        int_kind,
        int_val(u64::MAX as i128),
    );
}

#[test]
fn binary_literals_invalid() {
    // out of range
    expect_error(b"0b1_00000000_00000000_00000000_00000000_00000000_00000000_00000000_00000000");

    // cannot be negative
    expect_error(b"-0b0");
    expect_error(b"-0b1");

    // empty
    expect_error(b"0b");

    // decimal or hex digit
    expect_error(b"0b2");
    expect_tokens(b"0bF", &[ERR, (TokenKind::Ident, ident(b"f"))]);
}

#[test]
fn bytes() {
    let bytes_kind = TokenKind::Literal(LitKind::Bytes);
    expect_token(b"\"\"", bytes_kind, bytes_value(b""));
    expect_token(b"''", bytes_kind, bytes_value(b""));
    expect_token(
        b"\"abc #\\n defok ; okok\"",
        bytes_kind,
        bytes_value(b"abc #\n defok ; okok"),
    );
    expect_token(
        b"'abc #\\n\\t\\r\\'\\\"\\0 defok ; okok'",
        bytes_kind,
        bytes_value(b"abc #\n\t\r'\"\0 defok ; okok"),
    );
    expect_token(
        b"\"\\x{FF} \\b{01} \\b{0} \\x{0} \\x{a} \\b{0001_0001}\"",
        bytes_kind,
        bytes_value(b"\xFF \x01 \0 \0 \x0A \x11"),
    );
}

#[test]
fn bytes_invalid_escape() {
    expect_tokens(b"\"\\x{}\"", &[ERR, ERR, ERR]);
    expect_tokens(b"\"\\x{0ff}\"", &[ERR, ERR, ERR]);
    expect_tokens(b"\"\\x{100}\"", &[ERR, ERR, ERR]);

    expect_tokens(b"\"\\b{}\"", &[ERR, ERR, ERR]);
    expect_tokens(b"\"\\b{010001000}\"", &[ERR, ERR, ERR]);
    expect_tokens(b"\"\\b{100000000}\"", &[ERR, ERR, ERR]);
}

#[test]
fn bytes_multiline() {
    expect_error(b"\"abc\n\"");
    expect_error(b"'abc\n'");
    expect_error(b"\"abc\n        def'\"");
    expect_error(b"'abc\n        def\"'");
}

#[test]
fn bytes_mismatched_quotes() {
    expect_error(b"\"'");
    expect_error(b"'\"");
    expect_error(b"\"abc '");
    expect_error(b"'abc \"");
}

#[test]
fn idents() {
    expect_token(b"a", TokenKind::Ident, ident(b"a"));
    expect_token(b"bF", TokenKind::Ident, ident(b"bf"));
    expect_token(b"L1", TokenKind::Ident, ident(b"l1"));
    expect_token(b"_L1", TokenKind::Ident, ident(b"_l1"));
    expect_token(
        b"abc_efod_fso2190_123___",
        TokenKind::Ident,
        ident(b"abc_efod_fso2190_123___"),
    );
}

#[test]
fn idents_invalid() {
    expect_error(b"1ab132c");
}

#[test]
fn dot_idents() {
    expect_token(b".a", TokenKind::DotIdent, ident(b".a"));
    expect_token(b".bF", TokenKind::DotIdent, ident(b".bf"));
    expect_token(b".L1", TokenKind::DotIdent, ident(b".l1"));
    expect_token(b"._L1", TokenKind::DotIdent, ident(b"._l1"));
    expect_token(
        b".abc_efod_fso2190_123___",
        TokenKind::DotIdent,
        ident(b".abc_efod_fso2190_123___"),
    );
}

#[test]
fn dot_idents_invalid() {
    expect_tokens(b".1ab132c", &[ERR, ERR]);
}

#[test]
fn registers() {
    expect_token(b"$a", TokenKind::Register, named_reg(b"a"));
    expect_token(b"$sp", TokenKind::Register, named_reg(b"sp"));
    expect_token(b"$fp", TokenKind::Register, named_reg(b"fp"));
    for n in 0u8..=63 {
        let text = format!("${}", n);
        expect_token(text.as_bytes(), TokenKind::Register, numbered_reg(n));
    }
    expect_token(b"$128", TokenKind::Register, numbered_reg(128));
}

#[test]
fn registers_invalid() {
    // 256 is greater than the largest byte value
    expect_error(b"$256");
}

#[test]
fn unknown_token_start() {
    let int_kind = TokenKind::Literal(LitKind::Integer);
    expect_tokens(
        b"123\x00456",
        &[(int_kind, int_val(123)), ERR, (int_kind, int_val(456))],
    );
}
