use super::TokenKind;
use crate::span::Span;
use crate::symbol::Interner;
use std::collections::VecDeque;
use vstd::prelude::*;

verus! {

/// A lexed token: its absolute byte start offset and its kind. The
/// span follows from the kind's own length.
#[derive(Debug, Clone, Copy, PartialEq, Eq, Hash)]
pub struct Token {
    pub span_low: u32,
    pub kind: TokenKind,
}

/// The pure gluing table: which pairs of adjacent tokens fuse into one
/// compound token, and into what. `Unknown` pairs also glue, but their
/// fused symbol lives in the interner, so `Token::glue` handles them
/// apart.
pub open spec fn glue_kind(a: TokenKind, b: TokenKind) -> Option<TokenKind> {
    match (a, b) {
        (TokenKind::Whitespace { len: la }, TokenKind::Whitespace { len: lb }) => Some(
            TokenKind::Whitespace { len: (la + lb) as u32 },
        ),
        (TokenKind::Assign, TokenKind::Assign) => Some(TokenKind::Eq),  // `==`
        (TokenKind::Lt, TokenKind::Assign) => Some(TokenKind::Le),  // `<=`
        (TokenKind::Lt, TokenKind::Lt) => Some(TokenKind::Shl),  // `<<`
        (TokenKind::Gt, TokenKind::Assign) => Some(TokenKind::Ge),  // `>=`
        (TokenKind::Gt, TokenKind::Gt) => Some(TokenKind::Shr),  // `>>`
        (TokenKind::Add, TokenKind::Assign) => Some(TokenKind::AssignAdd),  // `+=`
        (TokenKind::Sub, TokenKind::Assign) => Some(TokenKind::AssignSub),  // `-=`
        (TokenKind::Sub, TokenKind::Gt) => Some(TokenKind::Arrow),  // `->`
        (TokenKind::Mul, TokenKind::Assign) => Some(TokenKind::AssignMul),  // `*=`
        (TokenKind::Mul, TokenKind::Mul) => Some(TokenKind::Pow),  // `**`
        (TokenKind::Div, TokenKind::Assign) => Some(TokenKind::AssignDiv),  // `/=`
        (TokenKind::Mod, TokenKind::Assign) => Some(TokenKind::AssignMod),  // `%=`
        (TokenKind::Pow, TokenKind::Assign) => Some(TokenKind::AssignPow),  // `**=`
        (TokenKind::Shl, TokenKind::Assign) => Some(TokenKind::AssignShl),  // `<<=`
        (TokenKind::Shr, TokenKind::Assign) => Some(TokenKind::AssignShr),  // `>>=`
        (TokenKind::BitOr, TokenKind::Assign) => Some(TokenKind::AssignBitOr),  // `|=`
        (TokenKind::BitOr, TokenKind::BitOr) => Some(TokenKind::LogOr),  // `||`
        (TokenKind::BitAnd, TokenKind::Assign) => Some(TokenKind::AssignBitAnd),  // `&=`
        (TokenKind::BitAnd, TokenKind::BitAnd) => Some(TokenKind::LogAnd),  // `&&`
        (TokenKind::BitXor, TokenKind::Assign) => Some(TokenKind::AssignBitXor),  // `^=`
        (TokenKind::LogNot, TokenKind::Assign) => Some(TokenKind::Ne),  // `!=`
        _ => None,
    }
}

/// Whether two adjacent tokens fuse into one.
pub open spec fn glueable(a: TokenKind, b: TokenKind) -> bool {
    ||| glue_kind(a, b) is Some
    ||| (a matches TokenKind::Unknown { .. } && b matches TokenKind::Unknown { .. })
}

/// A compound operator kind: one that gluing single-character tokens
/// produces.
pub open spec fn is_glued_compound(k: TokenKind) -> bool {
    match k {
        TokenKind::Arrow => true,
        TokenKind::AssignAdd => true,
        TokenKind::AssignSub => true,
        TokenKind::AssignMul => true,
        TokenKind::AssignDiv => true,
        TokenKind::AssignMod => true,
        TokenKind::AssignPow => true,
        TokenKind::AssignShl => true,
        TokenKind::AssignShr => true,
        TokenKind::AssignBitOr => true,
        TokenKind::AssignBitAnd => true,
        TokenKind::AssignBitXor => true,
        TokenKind::Eq => true,
        TokenKind::Ne => true,
        TokenKind::Le => true,
        TokenKind::Ge => true,
        TokenKind::Pow => true,
        TokenKind::Shl => true,
        TokenKind::Shr => true,
        TokenKind::LogOr => true,
        TokenKind::LogAnd => true,
        _ => false,
    }
}

/// The single-character constituents a token decomposes into, at their
/// correct sub-offsets. Tokens that were not glued from punctuation
/// (including merged `Unknown` and `Whitespace` runs) stand alone.
pub open spec fn unglue_seq(t: Token) -> Seq<Token> {
    let lo = t.span_low as int;
    match t.kind {
        TokenKind::Eq => pair(lo, TokenKind::Assign, TokenKind::Assign),
        TokenKind::Le => pair(lo, TokenKind::Lt, TokenKind::Assign),
        TokenKind::Shl => pair(lo, TokenKind::Lt, TokenKind::Lt),
        TokenKind::Ge => pair(lo, TokenKind::Gt, TokenKind::Assign),
        TokenKind::Shr => pair(lo, TokenKind::Gt, TokenKind::Gt),
        TokenKind::AssignAdd => pair(lo, TokenKind::Add, TokenKind::Assign),
        TokenKind::AssignSub => pair(lo, TokenKind::Sub, TokenKind::Assign),
        TokenKind::Arrow => pair(lo, TokenKind::Sub, TokenKind::Gt),
        TokenKind::AssignMul => pair(lo, TokenKind::Mul, TokenKind::Assign),
        TokenKind::Pow => pair(lo, TokenKind::Mul, TokenKind::Mul),
        TokenKind::AssignDiv => pair(lo, TokenKind::Div, TokenKind::Assign),
        TokenKind::AssignMod => pair(lo, TokenKind::Mod, TokenKind::Assign),
        TokenKind::AssignPow => triple(lo, TokenKind::Mul, TokenKind::Mul, TokenKind::Assign),
        TokenKind::AssignShl => triple(lo, TokenKind::Lt, TokenKind::Lt, TokenKind::Assign),
        TokenKind::AssignShr => triple(lo, TokenKind::Gt, TokenKind::Gt, TokenKind::Assign),
        TokenKind::AssignBitOr => pair(lo, TokenKind::BitOr, TokenKind::Assign),
        TokenKind::LogOr => pair(lo, TokenKind::BitOr, TokenKind::BitOr),
        TokenKind::AssignBitAnd => pair(lo, TokenKind::BitAnd, TokenKind::Assign),
        TokenKind::LogAnd => pair(lo, TokenKind::BitAnd, TokenKind::BitAnd),
        TokenKind::AssignBitXor => pair(lo, TokenKind::BitXor, TokenKind::Assign),
        TokenKind::Ne => pair(lo, TokenKind::LogNot, TokenKind::Assign),
        _ => seq![t],
    }
}

pub open spec fn pair(lo: int, a: TokenKind, b: TokenKind) -> Seq<Token> {
    seq![
        Token { span_low: lo as u32, kind: a },
        Token { span_low: (lo + 1) as u32, kind: b },
    ]
}

pub open spec fn triple(lo: int, a: TokenKind, b: TokenKind, c: TokenKind) -> Seq<Token> {
    seq![
        Token { span_low: lo as u32, kind: a },
        Token { span_low: (lo + 1) as u32, kind: b },
        Token { span_low: (lo + 2) as u32, kind: c },
    ]
}

impl Token {
    /// The token fits the 32-bit coordinate space.
    pub open spec fn wf(self) -> bool {
        self.span_low as int + self.kind.len_spec() <= u32::MAX
    }

    pub fn new(span_low: u32, kind: TokenKind) -> (t: Self)
        ensures
            t.span_low == span_low,
            t.kind == kind,
    {
        Self { span_low, kind }
    }

    /// The byte range the token covers.
    pub fn span(self) -> (r: Span)
        requires
            self.wf(),
        ensures
            r.low == self.span_low,
            r.high as int == self.span_low as int + self.kind.len_spec(),
            r.wf(),
    {
        let len = self.kind.len();
        Span::new(self.span_low, self.span_low + len)
    }

    /// The token's length in bytes.
    pub fn len(self) -> (r: u32)
        ensures
            r as int == self.kind.len_spec(),
    {
        self.kind.len()
    }

    /// Fuses two adjacent tokens when the gluing table allows it.
    /// Adjacent `Unknown` tokens merge by concatenating their text in
    /// the interner; adjacent `Whitespace` runs merge by length.
    pub fn glue(lhs: &Self, rhs: &Self, interner: &mut Interner) -> (r: Option<Self>)
        requires
            old(interner).wf(),
            old(interner).has_room(1),
            lhs.kind.syms_ok(*old(interner)),
            rhs.kind.syms_ok(*old(interner)),
            lhs.kind.len_spec() + rhs.kind.len_spec() <= u32::MAX,
        ensures
            final(interner).wf(),
            final(interner).interned_from(*old(interner), 1),
            r is Some <==> glueable(lhs.kind, rhs.kind),
            glue_kind(lhs.kind, rhs.kind) matches Some(k) ==> r == Some(
                Token { span_low: lhs.span_low, kind: k },
            ),
            (match (lhs.kind, rhs.kind) {
                (
                    TokenKind::Unknown { len: la, symbol: sa },
                    TokenKind::Unknown { len: lb, symbol: sb },
                ) => r matches Some(t) && {
                    &&& t.span_low == lhs.span_low
                    &&& t.kind matches TokenKind::Unknown { len, symbol } && len == la + lb
                        && final(interner).holds(symbol) && final(interner)@[symbol.spec_index()]
                        == old(interner)@[sa.spec_index()] + old(interner)@[sb.spec_index()]
                },
                _ => true,
            }),
            r is Some ==> r->0.kind.len_spec() == lhs.kind.len_spec() + rhs.kind.len_spec(),
            r is Some ==> r->0.kind.syms_ok(*final(interner)),
            r is None ==> *final(interner) == *old(interner),
    {
        let kind = match (lhs.kind, rhs.kind) {
            (
                TokenKind::Unknown { len: lhs_len, symbol: lhs_symbol },
                TokenKind::Unknown { len: rhs_len, symbol: rhs_symbol },
            ) => {
                let mut joined = interner.resolve(lhs_symbol).to_owned();
                joined.append(interner.resolve(rhs_symbol));
                let symbol = interner.intern(joined.as_str());
                TokenKind::Unknown { len: lhs_len + rhs_len, symbol }
            },
            (TokenKind::Whitespace { len: lhs_len }, TokenKind::Whitespace { len: rhs_len }) => {
                TokenKind::Whitespace { len: lhs_len + rhs_len }
            },
            (TokenKind::Assign, TokenKind::Assign) => TokenKind::Eq,  // `==`
            (TokenKind::Lt, TokenKind::Assign) => TokenKind::Le,  // `<=`
            (TokenKind::Lt, TokenKind::Lt) => TokenKind::Shl,  // `<<`
            (TokenKind::Gt, TokenKind::Assign) => TokenKind::Ge,  // `>=`
            (TokenKind::Gt, TokenKind::Gt) => TokenKind::Shr,  // `>>`
            (TokenKind::Add, TokenKind::Assign) => TokenKind::AssignAdd,  // `+=`
            (TokenKind::Sub, TokenKind::Assign) => TokenKind::AssignSub,  // `-=`
            (TokenKind::Sub, TokenKind::Gt) => TokenKind::Arrow,  // `->`
            (TokenKind::Mul, TokenKind::Assign) => TokenKind::AssignMul,  // `*=`
            (TokenKind::Mul, TokenKind::Mul) => TokenKind::Pow,  // `**`
            (TokenKind::Div, TokenKind::Assign) => TokenKind::AssignDiv,  // `/=`
            (TokenKind::Mod, TokenKind::Assign) => TokenKind::AssignMod,  // `%=`
            (TokenKind::Pow, TokenKind::Assign) => TokenKind::AssignPow,  // `**=`
            (TokenKind::Shl, TokenKind::Assign) => TokenKind::AssignShl,  // `<<=`
            (TokenKind::Shr, TokenKind::Assign) => TokenKind::AssignShr,  // `>>=`
            (TokenKind::BitOr, TokenKind::Assign) => TokenKind::AssignBitOr,  // `|=`
            (TokenKind::BitOr, TokenKind::BitOr) => TokenKind::LogOr,  // `||`
            (TokenKind::BitAnd, TokenKind::Assign) => TokenKind::AssignBitAnd,  // `&=`
            (TokenKind::BitAnd, TokenKind::BitAnd) => TokenKind::LogAnd,  // `&&`
            (TokenKind::BitXor, TokenKind::Assign) => TokenKind::AssignBitXor,  // `^=`
            (TokenKind::LogNot, TokenKind::Assign) => TokenKind::Ne,  // `!=`
            _ => {
                return None;
            },
        };
        Some(Self::new(lhs.span_low, kind))
    }

    /// Decomposes a compound token back into its single-character
    /// constituents, appending them to `unglued`. Tokens that are not
    /// glued compounds (including merged `Unknown` and `Whitespace`
    /// runs) are appended unchanged.
    pub fn unglue(this: Self, unglued: &mut VecDeque<Self>)
        requires
            this.wf(),
        ensures
            final(unglued)@ == old(unglued)@ + unglue_seq(this),
    {
        proof {
            assert(old(unglued)@ + unglue_seq(this) =~= match this.kind {
                TokenKind::Eq
                | TokenKind::Le
                | TokenKind::Shl
                | TokenKind::Ge
                | TokenKind::Shr
                | TokenKind::AssignAdd
                | TokenKind::AssignSub
                | TokenKind::Arrow
                | TokenKind::AssignMul
                | TokenKind::Pow
                | TokenKind::AssignDiv
                | TokenKind::AssignMod
                | TokenKind::AssignBitOr
                | TokenKind::LogOr
                | TokenKind::AssignBitAnd
                | TokenKind::LogAnd
                | TokenKind::AssignBitXor
                | TokenKind::Ne => old(unglued)@.push(unglue_seq(this)[0]).push(
                    unglue_seq(this)[1],
                ),
                TokenKind::AssignPow | TokenKind::AssignShl | TokenKind::AssignShr => old(
                    unglued,
                )@.push(unglue_seq(this)[0]).push(unglue_seq(this)[1]).push(unglue_seq(this)[2]),
                _ => old(unglued)@.push(this),
            });
        }
        match this.kind {
            TokenKind::Eq => {
                unglued.push_back(Self { span_low: this.span_low, kind: TokenKind::Assign });
                unglued.push_back(Self { span_low: this.span_low + 1, kind: TokenKind::Assign });
            },
            TokenKind::Le => {
                unglued.push_back(Self { span_low: this.span_low, kind: TokenKind::Lt });
                unglued.push_back(Self { span_low: this.span_low + 1, kind: TokenKind::Assign });
            },
            TokenKind::Shl => {
                unglued.push_back(Self { span_low: this.span_low, kind: TokenKind::Lt });
                unglued.push_back(Self { span_low: this.span_low + 1, kind: TokenKind::Lt });
            },
            TokenKind::Ge => {
                unglued.push_back(Self { span_low: this.span_low, kind: TokenKind::Gt });
                unglued.push_back(Self { span_low: this.span_low + 1, kind: TokenKind::Assign });
            },
            TokenKind::Shr => {
                unglued.push_back(Self { span_low: this.span_low, kind: TokenKind::Gt });
                unglued.push_back(Self { span_low: this.span_low + 1, kind: TokenKind::Gt });
            },
            TokenKind::AssignAdd => {
                unglued.push_back(Self { span_low: this.span_low, kind: TokenKind::Add });
                unglued.push_back(Self { span_low: this.span_low + 1, kind: TokenKind::Assign });
            },
            TokenKind::AssignSub => {
                unglued.push_back(Self { span_low: this.span_low, kind: TokenKind::Sub });
                unglued.push_back(Self { span_low: this.span_low + 1, kind: TokenKind::Assign });
            },
            TokenKind::Arrow => {
                unglued.push_back(Self { span_low: this.span_low, kind: TokenKind::Sub });
                unglued.push_back(Self { span_low: this.span_low + 1, kind: TokenKind::Gt });
            },
            TokenKind::AssignMul => {
                unglued.push_back(Self { span_low: this.span_low, kind: TokenKind::Mul });
                unglued.push_back(Self { span_low: this.span_low + 1, kind: TokenKind::Assign });
            },
            TokenKind::Pow => {
                unglued.push_back(Self { span_low: this.span_low, kind: TokenKind::Mul });
                unglued.push_back(Self { span_low: this.span_low + 1, kind: TokenKind::Mul });
            },
            TokenKind::AssignDiv => {
                unglued.push_back(Self { span_low: this.span_low, kind: TokenKind::Div });
                unglued.push_back(Self { span_low: this.span_low + 1, kind: TokenKind::Assign });
            },
            TokenKind::AssignMod => {
                unglued.push_back(Self { span_low: this.span_low, kind: TokenKind::Mod });
                unglued.push_back(Self { span_low: this.span_low + 1, kind: TokenKind::Assign });
            },
            TokenKind::AssignPow => {
                unglued.push_back(Self { span_low: this.span_low, kind: TokenKind::Mul });
                unglued.push_back(Self { span_low: this.span_low + 1, kind: TokenKind::Mul });
                unglued.push_back(Self { span_low: this.span_low + 2, kind: TokenKind::Assign });
            },
            TokenKind::AssignShl => {
                unglued.push_back(Self { span_low: this.span_low, kind: TokenKind::Lt });
                unglued.push_back(Self { span_low: this.span_low + 1, kind: TokenKind::Lt });
                unglued.push_back(Self { span_low: this.span_low + 2, kind: TokenKind::Assign });
            },
            TokenKind::AssignShr => {
                unglued.push_back(Self { span_low: this.span_low, kind: TokenKind::Gt });
                unglued.push_back(Self { span_low: this.span_low + 1, kind: TokenKind::Gt });
                unglued.push_back(Self { span_low: this.span_low + 2, kind: TokenKind::Assign });
            },
            TokenKind::AssignBitOr => {
                unglued.push_back(Self { span_low: this.span_low, kind: TokenKind::BitOr });
                unglued.push_back(Self { span_low: this.span_low + 1, kind: TokenKind::Assign });
            },
            TokenKind::LogOr => {
                unglued.push_back(Self { span_low: this.span_low, kind: TokenKind::BitOr });
                unglued.push_back(Self { span_low: this.span_low + 1, kind: TokenKind::BitOr });
            },
            TokenKind::AssignBitAnd => {
                unglued.push_back(Self { span_low: this.span_low, kind: TokenKind::BitAnd });
                unglued.push_back(Self { span_low: this.span_low + 1, kind: TokenKind::Assign });
            },
            TokenKind::LogAnd => {
                unglued.push_back(Self { span_low: this.span_low, kind: TokenKind::BitAnd });
                unglued.push_back(Self { span_low: this.span_low + 1, kind: TokenKind::BitAnd });
            },
            TokenKind::AssignBitXor => {
                unglued.push_back(Self { span_low: this.span_low, kind: TokenKind::BitXor });
                unglued.push_back(Self { span_low: this.span_low + 1, kind: TokenKind::Assign });
            },
            TokenKind::Ne => {
                unglued.push_back(Self { span_low: this.span_low, kind: TokenKind::LogNot });
                unglued.push_back(Self { span_low: this.span_low + 1, kind: TokenKind::Assign });
            },
            _ => {
                unglued.push_back(this);
            },
        }
    }
}

/// Ungluing a glued compound token and re-gluing the constituents left
/// to right reproduces the token exactly, and every constituent is one
/// character long. A token that is not a glued compound decomposes
/// into itself alone.
pub proof fn lemma_unglue_glue_roundtrip(t: Token)
    requires
        t.wf(),
    ensures
        !is_glued_compound(t.kind) ==> unglue_seq(t) == seq![t],
        is_glued_compound(t.kind) ==> ({
            let u = unglue_seq(t);
            &&& 2 <= u.len() <= 3
            &&& forall|i: int| 0 <= i < u.len() ==> (#[trigger] u[i]).kind.len_spec() == 1
            &&& u[0].span_low == t.span_low
            &&& forall|i: int|
                0 <= i < u.len() ==> (#[trigger] u[i]).span_low == t.span_low + i
            &&& u.len() == 2 ==> glue_kind(u[0].kind, u[1].kind) == Some(t.kind)
            &&& u.len() == 3 ==> (glue_kind(u[0].kind, u[1].kind) matches Some(k1) && glue_kind(
                k1,
                u[2].kind,
            ) == Some(t.kind))
        }),
{
}

} // verus!
