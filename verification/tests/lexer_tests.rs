use rand::RngExt;
use shaderfront::parse::lexer::{token_iter, Token, TokenKind, TokenNumberLiteralKind};
use shaderfront::span::{SourceFile, Span};
use shaderfront::symbol::{Interner, Symbol};
use std::collections::VecDeque;

fn random_span_low() -> u32 {
    rand::rng().random_range(0..u32::MAX / 2)
}

#[test]
fn test_token_iter_never_ends() {
    let file = SourceFile::new(0, "", "test", None);
    let mut interner = Interner::new();
    let mut iter = token_iter(&file, &mut interner);

    for _ in 0..1000 {
        assert!(iter.next_token(&mut interner) == Token::new(0, TokenKind::EndOfFile));
    }
}

fn check_tokens(mut span_low: u32, input: &str, expected: Vec<TokenKind>) {
    let file = SourceFile::new(span_low, input, "test", None);
    let mut interner = Interner::new();
    let mut iter = token_iter(&file, &mut interner);
    let mut expected = expected.into_iter();

    loop {
        let token = iter.next_token(&mut interner);
        if token.kind == TokenKind::EndOfFile {
            break;
        }

        assert_eq!(&token, &Token::new(span_low, expected.next().unwrap()));
        span_low += token.kind.len();
    }

    assert_eq!(None, expected.next());
}

#[test]
fn test_token_iter_empty() {
    let span_low = random_span_low();
    check_tokens(span_low, "", Vec::new());
}

#[test]
fn test_token_iter_unknown() {
    let span_low = random_span_low();
    let file = SourceFile::new(span_low, "$$$", "test", None);
    let mut interner = Interner::new();
    let mut iter = token_iter(&file, &mut interner);
    let token = iter.next_token(&mut interner);
    let expected = TokenKind::Unknown {
        len: 3,
        symbol: Symbol::from_str(&mut interner, "$$$"),
    };
    assert_eq!(token, Token::new(span_low, expected));
    assert_eq!(iter.next_token(&mut interner).kind, TokenKind::EndOfFile);
}

#[test]
fn test_token_iter_whitespace() {
    let span_low = random_span_low();
    check_tokens(
        span_low,
        "    \r\r\r\r\n\n\n\n\t\t\t\t",
        vec![TokenKind::Whitespace { len: 16 }],
    );
}

#[test]
fn test_token_iter_string_literal() {
    let span_low = random_span_low();
    let file = SourceFile::new(span_low, "\"hello, world!\" \"\\t\\r\\n\"", "test", None);
    let mut interner = Interner::new();
    let mut iter = token_iter(&file, &mut interner);

    let token = iter.next_token(&mut interner);
    assert_eq!(
        token,
        Token::new(
            span_low,
            TokenKind::StringLiteral {
                len: 15,
                content: Symbol::from_str(&mut interner, "\"hello, world!\""),
                unquoted_content: Symbol::from_str(&mut interner, "hello, world!"),
                terminated: true,
            }
        )
    );

    let token = iter.next_token(&mut interner);
    assert_eq!(token, Token::new(span_low + 15, TokenKind::Whitespace { len: 1 }));

    let token = iter.next_token(&mut interner);
    assert_eq!(
        token,
        Token::new(
            span_low + 16,
            TokenKind::StringLiteral {
                len: 8,
                content: Symbol::from_str(&mut interner, "\"\\t\\r\\n\""),
                unquoted_content: Symbol::from_str(&mut interner, "\\t\\r\\n"),
                terminated: true,
            }
        )
    );
}

#[test]
fn test_token_iter_unterminated_string_swallows_rest() {
    let file = SourceFile::new(0, "\"hello", "test", None);
    let mut interner = Interner::new();
    let mut iter = token_iter(&file, &mut interner);
    let token = iter.next_token(&mut interner);
    assert_eq!(
        token,
        Token::new(
            0,
            TokenKind::StringLiteral {
                len: 6,
                content: Symbol::from_str(&mut interner, "\"hello"),
                unquoted_content: Symbol::from_str(&mut interner, "hello"),
                terminated: false,
            }
        )
    );
    assert_eq!(iter.next_token(&mut interner).kind, TokenKind::EndOfFile);
}

#[test]
fn test_token_iter_binary_literal_with_suffix() {
    let file = SourceFile::new(0, "0b01_01suffix", "test", None);
    let mut interner = Interner::new();
    let mut iter = token_iter(&file, &mut interner);
    let token = iter.next_token(&mut interner);
    assert_eq!(
        token,
        Token::new(
            0,
            TokenKind::NumberLiteral {
                len: 13,
                kind: TokenNumberLiteralKind::IntegerBinary,
                content: Symbol::from_str(&mut interner, "0b01_01"),
                suffix: Some(Symbol::from_str(&mut interner, "suffix")),
            }
        )
    );
    assert_eq!(token.span(), Span::new(0, 13));
}

#[test]
fn test_token_iter() {
    let span_low = random_span_low();
    let file = SourceFile::new(
        span_low,
        " \r\n\t# test\n(){}[].,:;@->=+=-=*=/=%=**=<<=>>=|=&=^===!=<><=>=+-*/%**<<>>|&^||&&~!identifier keyword 0b01_01suffix 0o01234_567suffix 0x0123456789_abcdefsuffix 01234_56789suffix 0123456789.0123456789e-0123456789suffix \"hello, world\" \"hello, world",
        "test",
        None,
    );
    let mut interner = Interner::new();
    let mut iter = token_iter(&file, &mut interner);
    let expected = vec![
        TokenKind::Whitespace { len: 4 },
        TokenKind::Comment { len: 6 },
        TokenKind::Whitespace { len: 1 },
        TokenKind::OpenParen,
        TokenKind::CloseParen,
        TokenKind::OpenBrace,
        TokenKind::CloseBrace,
        TokenKind::OpenBracket,
        TokenKind::CloseBracket,
        TokenKind::Dot,
        TokenKind::Comma,
        TokenKind::Colon,
        TokenKind::Semicolon,
        TokenKind::At,
        TokenKind::Arrow,
        TokenKind::Assign,
        TokenKind::AssignAdd,
        TokenKind::AssignSub,
        TokenKind::AssignMul,
        TokenKind::AssignDiv,
        TokenKind::AssignMod,
        TokenKind::AssignPow,
        TokenKind::AssignShl,
        TokenKind::AssignShr,
        TokenKind::AssignBitOr,
        TokenKind::AssignBitAnd,
        TokenKind::AssignBitXor,
        TokenKind::Eq,
        TokenKind::Ne,
        TokenKind::Lt,
        TokenKind::Gt,
        TokenKind::Le,
        TokenKind::Ge,
        TokenKind::Add,
        TokenKind::Sub,
        TokenKind::Mul,
        TokenKind::Div,
        TokenKind::Mod,
        TokenKind::Pow,
        TokenKind::Shl,
        TokenKind::Shr,
        TokenKind::BitOr,
        TokenKind::BitAnd,
        TokenKind::BitXor,
        TokenKind::LogOr,
        TokenKind::LogAnd,
        TokenKind::BitNot,
        TokenKind::LogNot,
        TokenKind::Id {
            len: 10,
            symbol: Symbol::from_str(&mut interner, "identifier"),
        },
        TokenKind::Whitespace { len: 1 },
        TokenKind::Id {
            len: 7,
            symbol: Symbol::from_str(&mut interner, "keyword"),
        },
        TokenKind::Whitespace { len: 1 },
        TokenKind::NumberLiteral {
            len: 13,
            kind: TokenNumberLiteralKind::IntegerBinary,
            content: Symbol::from_str(&mut interner, "0b01_01"),
            suffix: Some(Symbol::from_str(&mut interner, "suffix")),
        },
        TokenKind::Whitespace { len: 1 },
        TokenKind::NumberLiteral {
            len: 17,
            kind: TokenNumberLiteralKind::IntegerOctal,
            content: Symbol::from_str(&mut interner, "0o01234_567"),
            suffix: Some(Symbol::from_str(&mut interner, "suffix")),
        },
        TokenKind::Whitespace { len: 1 },
        TokenKind::NumberLiteral {
            len: 25,
            kind: TokenNumberLiteralKind::IntegerHexadecimal,
            content: Symbol::from_str(&mut interner, "0x0123456789_abcdef"),
            suffix: Some(Symbol::from_str(&mut interner, "suffix")),
        },
        TokenKind::Whitespace { len: 1 },
        TokenKind::NumberLiteral {
            len: 17,
            kind: TokenNumberLiteralKind::IntegerDecimal,
            content: Symbol::from_str(&mut interner, "01234_56789"),
            suffix: Some(Symbol::from_str(&mut interner, "suffix")),
        },
        TokenKind::Whitespace { len: 1 },
        TokenKind::NumberLiteral {
            len: 39,
            kind: TokenNumberLiteralKind::Float,
            content: Symbol::from_str(&mut interner, "0123456789.0123456789e-0123456789"),
            suffix: Some(Symbol::from_str(&mut interner, "suffix")),
        },
        TokenKind::Whitespace { len: 1 },
        TokenKind::StringLiteral {
            len: 14,
            content: Symbol::from_str(&mut interner, "\"hello, world\""),
            unquoted_content: Symbol::from_str(&mut interner, "hello, world"),
            terminated: true,
        },
        TokenKind::Whitespace { len: 1 },
        TokenKind::StringLiteral {
            len: 13,
            content: Symbol::from_str(&mut interner, "\"hello, world"),
            unquoted_content: Symbol::from_str(&mut interner, "hello, world"),
            terminated: false,
        },
    ];

    let mut pos = span_low;
    let mut expected = expected.into_iter();
    loop {
        let token = iter.next_token(&mut interner);
        if token.kind == TokenKind::EndOfFile {
            break;
        }
        assert_eq!(&token, &Token::new(pos, expected.next().unwrap()));
        pos += token.kind.len();
    }
    assert_eq!(None, expected.next());
}

fn make_token(kind: TokenKind) -> Token {
    Token::new(random_span_low(), kind)
}

fn check_unglue_glue(token: Token, interner: &mut Interner) {
    let mut buf = VecDeque::with_capacity(3);
    Token::unglue(token.clone(), &mut buf);

    for token in &buf {
        assert_eq!(token.len(), 1);
    }

    let mut glued = buf.pop_front().unwrap();

    while let Some(rhs) = buf.pop_front() {
        glued = Token::glue(&glued, &rhs, interner).unwrap();
    }

    assert_eq!(glued, token);
}

#[test]
fn test_token_unglue_glue() {
    let mut interner = Interner::new();
    let kinds = [
        TokenKind::OpenParen,
        TokenKind::CloseParen,
        TokenKind::OpenBrace,
        TokenKind::CloseBrace,
        TokenKind::OpenBracket,
        TokenKind::CloseBracket,
        TokenKind::Dot,
        TokenKind::Comma,
        TokenKind::Colon,
        TokenKind::Semicolon,
        TokenKind::At,
        TokenKind::Arrow,
        TokenKind::Assign,
        TokenKind::AssignAdd,
        TokenKind::AssignSub,
        TokenKind::AssignMul,
        TokenKind::AssignDiv,
        TokenKind::AssignMod,
        TokenKind::AssignPow,
        TokenKind::AssignShl,
        TokenKind::AssignShr,
        TokenKind::AssignBitOr,
        TokenKind::AssignBitAnd,
        TokenKind::AssignBitXor,
        TokenKind::Eq,
        TokenKind::Ne,
        TokenKind::Lt,
        TokenKind::Gt,
        TokenKind::Le,
        TokenKind::Ge,
        TokenKind::Add,
        TokenKind::Sub,
        TokenKind::Mul,
        TokenKind::Div,
        TokenKind::Mod,
        TokenKind::Pow,
        TokenKind::Shl,
        TokenKind::Shr,
        TokenKind::BitOr,
        TokenKind::BitAnd,
        TokenKind::BitXor,
        TokenKind::LogOr,
        TokenKind::LogAnd,
        TokenKind::BitNot,
        TokenKind::LogNot,
    ];

    for kind in kinds {
        check_unglue_glue(make_token(kind), &mut interner);
    }
}

#[test]
fn test_token_glue_pow_spans() {
    let mut interner = Interner::new();
    let star1 = Token::new(5, TokenKind::Mul);
    let star2 = Token::new(6, TokenKind::Mul);
    let pow = Token::glue(&star1, &star2, &mut interner).unwrap();
    assert_eq!(pow, Token::new(5, TokenKind::Pow));
    assert_eq!(pow.span(), Span::new(5, 7));

    let assign = Token::new(7, TokenKind::Assign);
    let assign_pow = Token::glue(&pow, &assign, &mut interner).unwrap();
    assert_eq!(assign_pow, Token::new(5, TokenKind::AssignPow));
    assert_eq!(assign_pow.span(), Span::new(5, 8));
}

#[test]
fn test_token_glue_rejects_unrelated_pair() {
    let mut interner = Interner::new();
    let dot = Token::new(0, TokenKind::Dot);
    let comma = Token::new(1, TokenKind::Comma);
    assert!(Token::glue(&dot, &comma, &mut interner).is_none());
}

#[test]
fn test_token_glue_unknown_concatenates_text() {
    let mut interner = Interner::new();
    let a = Symbol::from_str(&mut interner, "$");
    let b = Symbol::from_str(&mut interner, "\u{60}");
    let lhs = Token::new(0, TokenKind::Unknown { len: 1, symbol: a });
    let rhs = Token::new(1, TokenKind::Unknown { len: 1, symbol: b });
    let glued = Token::glue(&lhs, &rhs, &mut interner).unwrap();
    match glued.kind {
        TokenKind::Unknown { len, symbol } => {
            assert_eq!(len, 2);
            assert_eq!(symbol.to_str(&interner), "$\u{60}");
        }
        _ => panic!("the glued token must stay an unknown run"),
    }
}

#[test]
fn test_token_iter_output_is_maximally_glued() {
    // No two consecutive emitted tokens can be glued any further.
    let file = SourceFile::new(
        0,
        "**=<<=>>=||&&->!=$$$  a==b # c\n<<<",
        "test",
        None,
    );
    let mut interner = Interner::new();
    let mut iter = token_iter(&file, &mut interner);
    let mut prev = iter.next_token(&mut interner);
    loop {
        let next = iter.next_token(&mut interner);
        assert!(Token::glue(&prev, &next, &mut interner).is_none());
        if next.kind == TokenKind::EndOfFile {
            break;
        }
        prev = next;
    }
}
