use shaderfront::parse::low_lexer::{low_token_iter, next, LowToken, LowTokenKind,
    LowTokenNumberLiteralKind};
use shaderfront::parse::low_lexer::LowTokenNumberLiteralKind::{Float, IntegerBinary,
    IntegerDecimal, IntegerHexadecimal, IntegerOctal};

fn low_next(input: &str) -> LowToken {
    let chars: Vec<char> = input.chars().collect();
    next(&chars, 0).0
}

fn number(kind: LowTokenNumberLiteralKind, suffix_start: u32, len: u32) -> LowToken {
    LowToken::new(LowTokenKind::NumberLiteral { kind, suffix_start }, len)
}

#[test]
fn test_low_token_next_eof() {
    assert_eq!(low_next(""), LowToken::new(LowTokenKind::EndOfFile, 0));
}

#[test]
fn test_low_token_next_whitespace() {
    assert_eq!(low_next(" "), LowToken::new(LowTokenKind::Whitespace, 1));
    assert_eq!(low_next("\n"), LowToken::new(LowTokenKind::Whitespace, 1));
    assert_eq!(low_next("\r"), LowToken::new(LowTokenKind::Whitespace, 1));
    assert_eq!(low_next("\t"), LowToken::new(LowTokenKind::Whitespace, 1));
    assert_eq!(
        low_next("  \n  \r  \t  \n  "),
        LowToken::new(LowTokenKind::Whitespace, 14)
    );
}

#[test]
fn test_low_token_next_comment() {
    assert_eq!(
        low_next("# hello, world!"),
        LowToken::new(LowTokenKind::Comment, 15)
    );
    assert_eq!(
        low_next("# hello, world!\n"),
        LowToken::new(LowTokenKind::Comment, 15)
    );
    assert_eq!(
        low_next("# hello, world!\n\n"),
        LowToken::new(LowTokenKind::Comment, 15)
    );
    assert_eq!(
        low_next("# hello, world!\r\n"),
        LowToken::new(LowTokenKind::Comment, 15)
    );
}

#[test]
fn test_low_token_next_punc() {
    assert_eq!(low_next("("), LowToken::new(LowTokenKind::OpenParen, 1));
    assert_eq!(low_next(")"), LowToken::new(LowTokenKind::CloseParen, 1));
    assert_eq!(low_next("{"), LowToken::new(LowTokenKind::OpenBrace, 1));
    assert_eq!(low_next("}"), LowToken::new(LowTokenKind::CloseBrace, 1));
    assert_eq!(low_next("["), LowToken::new(LowTokenKind::OpenBracket, 1));
    assert_eq!(low_next("]"), LowToken::new(LowTokenKind::CloseBracket, 1));
    assert_eq!(low_next("."), LowToken::new(LowTokenKind::Dot, 1));
    assert_eq!(low_next(","), LowToken::new(LowTokenKind::Comma, 1));
    assert_eq!(low_next(":"), LowToken::new(LowTokenKind::Colon, 1));
    assert_eq!(low_next(";"), LowToken::new(LowTokenKind::Semicolon, 1));
    assert_eq!(low_next("="), LowToken::new(LowTokenKind::Eq, 1));
    assert_eq!(low_next("!"), LowToken::new(LowTokenKind::Bang, 1));
    assert_eq!(low_next("@"), LowToken::new(LowTokenKind::At, 1));
    assert_eq!(low_next("<"), LowToken::new(LowTokenKind::Lt, 1));
    assert_eq!(low_next(">"), LowToken::new(LowTokenKind::Gt, 1));
    assert_eq!(low_next("+"), LowToken::new(LowTokenKind::Plus, 1));
    assert_eq!(low_next("-"), LowToken::new(LowTokenKind::Minus, 1));
    assert_eq!(low_next("*"), LowToken::new(LowTokenKind::Star, 1));
    assert_eq!(low_next("/"), LowToken::new(LowTokenKind::Slash, 1));
    assert_eq!(low_next("%"), LowToken::new(LowTokenKind::Percent, 1));
    assert_eq!(low_next("|"), LowToken::new(LowTokenKind::Or, 1));
    assert_eq!(low_next("&"), LowToken::new(LowTokenKind::And, 1));
    assert_eq!(low_next("^"), LowToken::new(LowTokenKind::Caret, 1));
    assert_eq!(low_next("~"), LowToken::new(LowTokenKind::Tilde, 1));
}

#[test]
fn test_low_token_next_id() {
    assert_eq!(low_next("a"), LowToken::new(LowTokenKind::Id, 1));
    assert_eq!(low_next("foo"), LowToken::new(LowTokenKind::Id, 3));
    assert_eq!(low_next("hello-world"), LowToken::new(LowTokenKind::Id, 5));
    assert_eq!(low_next("_"), LowToken::new(LowTokenKind::Id, 1));
    assert_eq!(low_next("_foo"), LowToken::new(LowTokenKind::Id, 4));
    assert_eq!(low_next("foo_"), LowToken::new(LowTokenKind::Id, 4));
    assert_eq!(low_next("_foo_"), LowToken::new(LowTokenKind::Id, 5));
    assert_eq!(low_next("test123"), LowToken::new(LowTokenKind::Id, 7));
    assert_eq!(low_next("test123_123"), LowToken::new(LowTokenKind::Id, 11));
    assert_eq!(low_next("_123test"), LowToken::new(LowTokenKind::Id, 8));
}

#[test]
fn test_low_token_next_id_beyond_ascii() {
    // Two Greek letters have the identifier-start property and take two
    // bytes each; lengths are counted in bytes.
    assert_eq!(low_next("\u{3b1}\u{3b2}"), LowToken::new(LowTokenKind::Id, 4));
    // A degree sign does not start an identifier.
    assert_eq!(low_next("\u{b0}"), LowToken::new(LowTokenKind::Unknown, 2));
}

#[test]
fn test_low_token_next_number_literal_integers() {
    assert_eq!(low_next("0b010101"), number(IntegerBinary, 8, 8));
    assert_eq!(low_next("0B010101"), number(IntegerBinary, 8, 8));
    assert_eq!(low_next("0b01_01_01_"), number(IntegerBinary, 11, 11));
    assert_eq!(low_next("0B01_01_01_"), number(IntegerBinary, 11, 11));
    assert_eq!(low_next("0b010101suffix"), number(IntegerBinary, 8, 8 + 6));
    assert_eq!(low_next("0B010101suffix"), number(IntegerBinary, 8, 8 + 6));
    assert_eq!(low_next("0b01_01_01_suffix"), number(IntegerBinary, 11, 11 + 6));
    assert_eq!(low_next("0B01_01_01_suffix"), number(IntegerBinary, 11, 11 + 6));
    assert_eq!(low_next("0o01234567"), number(IntegerOctal, 10, 10));
    assert_eq!(low_next("0O01234567"), number(IntegerOctal, 10, 10));
    assert_eq!(low_next("0o01_23_45_67_"), number(IntegerOctal, 14, 14));
    assert_eq!(low_next("0O01_23_45_67_"), number(IntegerOctal, 14, 14));
    assert_eq!(low_next("0o01234567suffix"), number(IntegerOctal, 10, 10 + 6));
    assert_eq!(low_next("0O01234567suffix"), number(IntegerOctal, 10, 10 + 6));
    assert_eq!(low_next("0o01_23_45_67_suffix"), number(IntegerOctal, 14, 14 + 6));
    assert_eq!(low_next("0O01_23_45_67_suffix"), number(IntegerOctal, 14, 14 + 6));
    assert_eq!(low_next("0x0123456789abcdef"), number(IntegerHexadecimal, 18, 18));
    assert_eq!(low_next("0X0123456789ABCDEF"), number(IntegerHexadecimal, 18, 18));
    assert_eq!(
        low_next("0x01_23_45_67_89_ab_cd_ef_"),
        number(IntegerHexadecimal, 26, 26)
    );
    assert_eq!(
        low_next("0X01_23_45_67_89_AB_CD_EF_"),
        number(IntegerHexadecimal, 26, 26)
    );
    assert_eq!(
        low_next("0x0123456789abcdefsuffix"),
        number(IntegerHexadecimal, 18, 18 + 6)
    );
    assert_eq!(
        low_next("0X0123456789ABCDEFsuffix"),
        number(IntegerHexadecimal, 18, 18 + 6)
    );
    assert_eq!(
        low_next("0x01_23_45_67_89_ab_cd_ef_suffix"),
        number(IntegerHexadecimal, 26, 26 + 6)
    );
    assert_eq!(
        low_next("0X01_23_45_67_89_AB_CD_EF_suffix"),
        number(IntegerHexadecimal, 26, 26 + 6)
    );
    assert_eq!(low_next("0123456789"), number(IntegerDecimal, 10, 10));
    assert_eq!(low_next("01_23_45_67_89_"), number(IntegerDecimal, 15, 15));
    assert_eq!(low_next("0123456789suffix"), number(IntegerDecimal, 10, 10 + 6));
    assert_eq!(
        low_next("01_23_45_67_89_suffix"),
        number(IntegerDecimal, 15, 15 + 6)
    );
}

#[test]
fn test_low_token_next_zero_then_separator() {
    // A `0` followed directly by anything but a digit ends the content
    // at the `0`; the rest is the literal suffix.
    assert_eq!(low_next("0_1"), number(IntegerDecimal, 1, 3));
    assert_eq!(low_next("0z"), number(IntegerDecimal, 1, 2));
    // After any digit, `_` serves as a separator inside the run.
    assert_eq!(low_next("00_1"), number(IntegerDecimal, 4, 4));
    assert_eq!(low_next("1_5"), number(IntegerDecimal, 3, 3));
}

#[test]
fn test_low_token_next_number_literal_floats() {
    assert_eq!(low_next("0123456789e0123456789"), number(Float, 21, 21));
    assert_eq!(low_next("0123456789E0123456789"), number(Float, 21, 21));
    assert_eq!(low_next("01_23_45_67_89_e01_23_45_67_89_"), number(Float, 31, 31));
    assert_eq!(low_next("01_23_45_67_89_E01_23_45_67_89_"), number(Float, 31, 31));
    assert_eq!(low_next("0123456789e+0123456789"), number(Float, 22, 22));
    assert_eq!(low_next("0123456789E+0123456789"), number(Float, 22, 22));
    assert_eq!(low_next("0123456789e-0123456789"), number(Float, 22, 22));
    assert_eq!(low_next("0123456789E-0123456789"), number(Float, 22, 22));
    assert_eq!(low_next("0123456789.0123456789"), number(Float, 21, 21));
    assert_eq!(low_next("0123456789.0123456789e0123456789"), number(Float, 32, 32));
    assert_eq!(low_next("0123456789.0123456789E0123456789"), number(Float, 32, 32));
    assert_eq!(low_next("0123456789.0123456789e+0123456789"), number(Float, 33, 33));
    assert_eq!(low_next("0123456789.0123456789E+0123456789"), number(Float, 33, 33));
    assert_eq!(low_next("0123456789.0123456789e-0123456789"), number(Float, 33, 33));
    assert_eq!(low_next("0123456789.0123456789E-0123456789"), number(Float, 33, 33));
    assert_eq!(low_next("0123456789e0123456789suffix"), number(Float, 21, 21 + 6));
    assert_eq!(low_next("0123456789E0123456789suffix"), number(Float, 21, 21 + 6));
    assert_eq!(
        low_next("01_23_45_67_89_e01_23_45_67_89_suffix"),
        number(Float, 31, 31 + 6)
    );
    assert_eq!(
        low_next("01_23_45_67_89_E01_23_45_67_89_suffix"),
        number(Float, 31, 31 + 6)
    );
    assert_eq!(low_next("0123456789e+0123456789suffix"), number(Float, 22, 22 + 6));
    assert_eq!(low_next("0123456789E+0123456789suffix"), number(Float, 22, 22 + 6));
    assert_eq!(low_next("0123456789e-0123456789suffix"), number(Float, 22, 22 + 6));
    assert_eq!(low_next("0123456789E-0123456789suffix"), number(Float, 22, 22 + 6));
    assert_eq!(low_next("0123456789.0123456789suffix"), number(Float, 21, 21 + 6));
    assert_eq!(
        low_next("0123456789.0123456789e0123456789suffix"),
        number(Float, 32, 32 + 6)
    );
    assert_eq!(
        low_next("0123456789.0123456789E0123456789suffix"),
        number(Float, 32, 32 + 6)
    );
    assert_eq!(
        low_next("0123456789.0123456789e+0123456789suffix"),
        number(Float, 33, 33 + 6)
    );
    assert_eq!(
        low_next("0123456789.0123456789E+0123456789suffix"),
        number(Float, 33, 33 + 6)
    );
    assert_eq!(
        low_next("0123456789.0123456789e-0123456789suffix"),
        number(Float, 33, 33 + 6)
    );
    assert_eq!(
        low_next("0123456789.0123456789E-0123456789suffix"),
        number(Float, 33, 33 + 6)
    );
}

#[test]
fn test_low_token_next_string_literal() {
    assert_eq!(
        low_next("\"hello\""),
        LowToken::new(LowTokenKind::StringLiteral { terminated: true }, 7)
    );
    assert_eq!(
        low_next("\"hello\n\""),
        LowToken::new(LowTokenKind::StringLiteral { terminated: true }, 8)
    );

    assert_eq!(
        low_next("\"hello"),
        LowToken::new(LowTokenKind::StringLiteral { terminated: false }, 6)
    );
    assert_eq!(
        low_next("\"hello\n"),
        LowToken::new(LowTokenKind::StringLiteral { terminated: false }, 7)
    );
}

#[test]
fn test_low_token_next_eof_forever() {
    let chars: Vec<char> = "x".chars().collect();
    let mut iter = low_token_iter(&chars);
    assert_eq!(iter.next_token(), LowToken::new(LowTokenKind::Id, 1));
    for _ in 0..1000 {
        assert_eq!(iter.next_token(), LowToken::new(LowTokenKind::EndOfFile, 0));
    }
}

fn check_low_tokens<'a>(input: &str, mut expected: impl Iterator<Item = &'a LowToken>) {
    let chars: Vec<char> = input.chars().collect();
    let mut iter = low_token_iter(&chars);

    loop {
        let token = iter.next_token();
        if token.kind == LowTokenKind::EndOfFile {
            break;
        }

        assert_eq!(&token, expected.next().unwrap());
    }

    assert_eq!(None, expected.next());
}

#[test]
fn test_low_token_iter() {
    check_low_tokens("", [].iter());
    check_low_tokens(
        " \r\n\t# test\n(){}[].,:;=!@<>+-*/%|&^~identifier keyword 0b01_01suffix 0o01234_567suffix 0x0123456789_abcdefsuffix 01234_56789suffix 0123456789.0123456789e-0123456789suffix \"hello, world\" \"hello, world",
        [
            LowToken::new(LowTokenKind::Whitespace, 4),
            LowToken::new(LowTokenKind::Comment, 6),
            LowToken::new(LowTokenKind::Whitespace, 1),
            LowToken::new(LowTokenKind::OpenParen, 1),
            LowToken::new(LowTokenKind::CloseParen, 1),
            LowToken::new(LowTokenKind::OpenBrace, 1),
            LowToken::new(LowTokenKind::CloseBrace, 1),
            LowToken::new(LowTokenKind::OpenBracket, 1),
            LowToken::new(LowTokenKind::CloseBracket, 1),
            LowToken::new(LowTokenKind::Dot, 1),
            LowToken::new(LowTokenKind::Comma, 1),
            LowToken::new(LowTokenKind::Colon, 1),
            LowToken::new(LowTokenKind::Semicolon, 1),
            LowToken::new(LowTokenKind::Eq, 1),
            LowToken::new(LowTokenKind::Bang, 1),
            LowToken::new(LowTokenKind::At, 1),
            LowToken::new(LowTokenKind::Lt, 1),
            LowToken::new(LowTokenKind::Gt, 1),
            LowToken::new(LowTokenKind::Plus, 1),
            LowToken::new(LowTokenKind::Minus, 1),
            LowToken::new(LowTokenKind::Star, 1),
            LowToken::new(LowTokenKind::Slash, 1),
            LowToken::new(LowTokenKind::Percent, 1),
            LowToken::new(LowTokenKind::Or, 1),
            LowToken::new(LowTokenKind::And, 1),
            LowToken::new(LowTokenKind::Caret, 1),
            LowToken::new(LowTokenKind::Tilde, 1),
            LowToken::new(LowTokenKind::Id, 10),
            LowToken::new(LowTokenKind::Whitespace, 1),
            LowToken::new(LowTokenKind::Id, 7),
            LowToken::new(LowTokenKind::Whitespace, 1),
            LowToken::new(
                LowTokenKind::NumberLiteral {
                    kind: LowTokenNumberLiteralKind::IntegerBinary,
                    suffix_start: 7,
                },
                7 + 6,
            ),
            LowToken::new(LowTokenKind::Whitespace, 1),
            LowToken::new(
                LowTokenKind::NumberLiteral {
                    kind: LowTokenNumberLiteralKind::IntegerOctal,
                    suffix_start: 11,
                },
                11 + 6,
            ),
            LowToken::new(LowTokenKind::Whitespace, 1),
            LowToken::new(
                LowTokenKind::NumberLiteral {
                    kind: LowTokenNumberLiteralKind::IntegerHexadecimal,
                    suffix_start: 19,
                },
                19 + 6,
            ),
            LowToken::new(LowTokenKind::Whitespace, 1),
            LowToken::new(
                LowTokenKind::NumberLiteral {
                    kind: LowTokenNumberLiteralKind::IntegerDecimal,
                    suffix_start: 11,
                },
                11 + 6,
            ),
            LowToken::new(LowTokenKind::Whitespace, 1),
            LowToken::new(
                LowTokenKind::NumberLiteral {
                    kind: LowTokenNumberLiteralKind::Float,
                    suffix_start: 33,
                },
                33 + 6,
            ),
            LowToken::new(LowTokenKind::Whitespace, 1),
            LowToken::new(LowTokenKind::StringLiteral { terminated: true }, 14),
            LowToken::new(LowTokenKind::Whitespace, 1),
            LowToken::new(LowTokenKind::StringLiteral { terminated: false }, 13),
        ]
        .iter(),
    );
}
