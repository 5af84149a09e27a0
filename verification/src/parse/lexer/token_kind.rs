use super::TokenNumberLiteralKind;
use crate::symbol::{Interner, Symbol};
use vstd::prelude::*;

verus! {

/// The kind of a lexed token. Literal kinds carry their text as interned
/// symbols and their encoded byte length; compound operator kinds (made
/// by gluing) know their length by themselves.
#[derive(Debug, Clone, Copy, PartialEq, Eq, Hash)]
pub enum TokenKind {
    Unknown { len: u32, symbol: Symbol },
    EndOfFile,
    Whitespace { len: u32 },
    Comment { len: u32 },  // "#"
    OpenParen,  // "("
    CloseParen,  // ")"
    OpenBrace,  // "{"
    CloseBrace,  // "}"
    OpenBracket,  // "["
    CloseBracket,  // "]"
    Dot,  // "."
    Comma,  // ","
    Colon,  // ":"
    Semicolon,  // ";"
    At,  // "@"
    Arrow,  // "->"
    // Assignment operators
    Assign,  // "="
    AssignAdd,  // "+="
    AssignSub,  // "-="
    AssignMul,  // "*="
    AssignDiv,  // "/="
    AssignMod,  // "%="
    AssignPow,  // "**="
    AssignShl,  // "<<="
    AssignShr,  // ">>="
    AssignBitOr,  // "|="
    AssignBitAnd,  // "&="
    AssignBitXor,  // "^="
    // Cmp operators
    Eq,  // "=="
    Ne,  // "!="
    Lt,  // "<"
    Gt,  // ">"
    Le,  // "<="
    Ge,  // ">="
    // Binary operators
    Add,  // "+"
    Sub,  // "-"
    Mul,  // "*"
    Div,  // "/"
    Mod,  // "%"
    Pow,  // "**"
    Shl,  // "<<"
    Shr,  // ">>"
    BitOr,  // "|"
    BitAnd,  // "&"
    BitXor,  // "^"
    LogOr,  // "||"
    LogAnd,  // "&&"
    // Unary operators
    BitNot,  // "~"
    LogNot,  // "!"
    Id { len: u32, symbol: Symbol },
    BoolLiteral { len: u32, content: Symbol },
    NumberLiteral {
        len: u32,
        kind: TokenNumberLiteralKind,
        /// The content of the number literal without the suffix.
        content: Symbol,
        /// The literal suffix, if any (`123u32` carries `u32`).
        suffix: Option<Symbol>,
    },
    StringLiteral {
        len: u32,
        /// The content of the string literal with the quotes.
        content: Symbol,
        /// The content of the string literal without the quotes.
        unquoted_content: Symbol,
        /// Whether the literal was closed by a quote. An unterminated
        /// literal swallows the rest of the file; the program is then
        /// invalid but lexing can carry on.
        terminated: bool,
    },
}

impl TokenKind {
    /// The token's length in bytes.
    pub open spec fn len_spec(self) -> int {
        match self {
            TokenKind::Unknown { len, .. } => len as int,
            TokenKind::EndOfFile => 0,
            TokenKind::Whitespace { len } => len as int,
            TokenKind::Comment { len } => len as int,
            TokenKind::OpenParen => 1,
            TokenKind::CloseParen => 1,
            TokenKind::OpenBrace => 1,
            TokenKind::CloseBrace => 1,
            TokenKind::OpenBracket => 1,
            TokenKind::CloseBracket => 1,
            TokenKind::Dot => 1,
            TokenKind::Comma => 1,
            TokenKind::Colon => 1,
            TokenKind::Semicolon => 1,
            TokenKind::At => 1,
            TokenKind::Arrow => 2,
            TokenKind::Assign => 1,
            TokenKind::AssignAdd => 2,
            TokenKind::AssignSub => 2,
            TokenKind::AssignMul => 2,
            TokenKind::AssignDiv => 2,
            TokenKind::AssignMod => 2,
            TokenKind::AssignPow => 3,
            TokenKind::AssignShl => 3,
            TokenKind::AssignShr => 3,
            TokenKind::AssignBitOr => 2,
            TokenKind::AssignBitAnd => 2,
            TokenKind::AssignBitXor => 2,
            TokenKind::Eq => 2,
            TokenKind::Ne => 2,
            TokenKind::Lt => 1,
            TokenKind::Gt => 1,
            TokenKind::Le => 2,
            TokenKind::Ge => 2,
            TokenKind::Add => 1,
            TokenKind::Sub => 1,
            TokenKind::Mul => 1,
            TokenKind::Div => 1,
            TokenKind::Mod => 1,
            TokenKind::Pow => 2,
            TokenKind::Shl => 2,
            TokenKind::Shr => 2,
            TokenKind::BitOr => 1,
            TokenKind::BitAnd => 1,
            TokenKind::BitXor => 1,
            TokenKind::LogOr => 2,
            TokenKind::LogAnd => 2,
            TokenKind::BitNot => 1,
            TokenKind::LogNot => 1,
            TokenKind::Id { len, .. } => len as int,
            TokenKind::BoolLiteral { len, .. } => len as int,
            TokenKind::NumberLiteral { len, .. } => len as int,
            TokenKind::StringLiteral { len, .. } => len as int,
        }
    }

    /// The token's length in bytes.
    pub fn len(self) -> (r: u32)
        ensures
            r as int == self.len_spec(),
    {
        match self {
            TokenKind::Unknown { len, .. } => len,
            TokenKind::EndOfFile => 0,
            TokenKind::Whitespace { len } => len,
            TokenKind::Comment { len } => len,
            TokenKind::OpenParen => 1,
            TokenKind::CloseParen => 1,
            TokenKind::OpenBrace => 1,
            TokenKind::CloseBrace => 1,
            TokenKind::OpenBracket => 1,
            TokenKind::CloseBracket => 1,
            TokenKind::Dot => 1,
            TokenKind::Comma => 1,
            TokenKind::Colon => 1,
            TokenKind::Semicolon => 1,
            TokenKind::At => 1,
            TokenKind::Arrow => 2,
            TokenKind::Assign => 1,
            TokenKind::AssignAdd => 2,
            TokenKind::AssignSub => 2,
            TokenKind::AssignMul => 2,
            TokenKind::AssignDiv => 2,
            TokenKind::AssignMod => 2,
            TokenKind::AssignPow => 3,
            TokenKind::AssignShl => 3,
            TokenKind::AssignShr => 3,
            TokenKind::AssignBitOr => 2,
            TokenKind::AssignBitAnd => 2,
            TokenKind::AssignBitXor => 2,
            TokenKind::Eq => 2,
            TokenKind::Ne => 2,
            TokenKind::Lt => 1,
            TokenKind::Gt => 1,
            TokenKind::Le => 2,
            TokenKind::Ge => 2,
            TokenKind::Add => 1,
            TokenKind::Sub => 1,
            TokenKind::Mul => 1,
            TokenKind::Div => 1,
            TokenKind::Mod => 1,
            TokenKind::Pow => 2,
            TokenKind::Shl => 2,
            TokenKind::Shr => 2,
            TokenKind::BitOr => 1,
            TokenKind::BitAnd => 1,
            TokenKind::BitXor => 1,
            TokenKind::LogOr => 2,
            TokenKind::LogAnd => 2,
            TokenKind::BitNot => 1,
            TokenKind::LogNot => 1,
            TokenKind::Id { len, .. } => len,
            TokenKind::BoolLiteral { len, .. } => len,
            TokenKind::NumberLiteral { len, .. } => len,
            TokenKind::StringLiteral { len, .. } => len,
        }
    }

    /// Every symbol the kind carries addresses an entry of `it`.
    pub open spec fn syms_ok(self, it: Interner) -> bool {
        match self {
            TokenKind::Unknown { symbol, .. } => it.holds(symbol),
            TokenKind::Id { symbol, .. } => it.holds(symbol),
            TokenKind::BoolLiteral { content, .. } => it.holds(content),
            TokenKind::NumberLiteral { content, suffix, .. } => it.holds(content) && (suffix
                matches Some(s) ==> it.holds(s)),
            TokenKind::StringLiteral { content, unquoted_content, .. } => it.holds(content)
                && it.holds(unquoted_content),
            _ => true,
        }
    }

    /// Symbols stay valid while the interner grows.
    pub proof fn lemma_syms_ok_monotone(self, a: Interner, b: Interner)
        requires
            self.syms_ok(a),
            a@.len() <= b@.len(),
            forall|i: int| 0 <= i < a@.len() ==> b@[i] == a@[i],
        ensures
            self.syms_ok(b),
    {
    }
}

} // verus!
