use vstd::prelude::*;

verus! {

/// The numeric literal shapes the scanner tells apart.
#[derive(Debug, Clone, Copy, PartialEq, Eq, PartialOrd, Ord, Hash, Structural)]
pub enum LowTokenNumberLiteralKind {
    /// `0b` or `0B` followed by binary digits.
    IntegerBinary,
    /// `0o` or `0O` followed by octal digits.
    IntegerOctal,
    /// `0x` or `0X` followed by hexadecimal digits.
    IntegerHexadecimal,
    /// A plain digit run.
    IntegerDecimal,
    /// A digit run with a fraction part, an exponent part, or both.
    Float,
}

/// What kind of primitive token the scanner recognized.
#[derive(Debug, Clone, Copy, PartialEq, Eq, Hash, Structural)]
pub enum LowTokenKind {
    Unknown,
    EndOfFile,
    Whitespace,
    Comment,  // "#"
    OpenParen,  // "("
    CloseParen,  // ")"
    OpenBrace,  // "{"
    CloseBrace,  // "}"
    OpenBracket,  // "["
    CloseBracket,  // "]"
    Dot,  // "."
    Comma,  // ","
    Colon,  // ":"
    Semicolon,  // ";"
    Eq,  // "="
    Bang,  // "!"
    At,  // "@"
    Lt,  // "<"
    Gt,  // ">"
    Plus,  // "+"
    Minus,  // "-"
    Star,  // "*"
    Slash,  // "/"
    Percent,  // "%"
    Or,  // "|"
    And,  // "&"
    Caret,  // "^"
    Tilde,  // "~"
    Id,  // identifier or keyword
    NumberLiteral { kind: LowTokenNumberLiteralKind, suffix_start: u32 },
    StringLiteral { terminated: bool },
}

} // verus!
