mod token;
mod token_kind;
mod token_number_literal_kind;

pub use token::{glue_kind, glueable, is_glued_compound, lemma_unglue_glue_roundtrip, pair, triple,
    unglue_seq, Token};
pub use token_kind::TokenKind;
pub use token_number_literal_kind::TokenNumberLiteralKind;

use super::low_lexer::{comment_end, is_dec_digit, is_id_start_char, is_punct_char, is_ws,
    low_next_ok, number_scan, punct_kind, run_end, string_scan, suffix_end, ws_pred, LowToken,
    LowTokenKind, LowTokenNumberLiteralKind};
use crate::span::{SourceFile, Span};
use crate::symbol::Interner;
use crate::text::{blen, lemma_blen_ge_len, lemma_blen_subrange, lemma_blen_take_succ};
use vstd::prelude::*;

verus! {

/// A scan step never yields `EndOfFile` before the end of input, and
/// each token kind pins down the character class it started from.
pub proof fn lemma_low_reverse(s: Seq<char>, pos: int, t: LowToken, end: int)
    requires
        low_next_ok(s, pos, t, end),
        0 <= pos < s.len(),
    ensures
        match t.kind {
            LowTokenKind::Whitespace => is_ws(s[pos]) && end == run_end(s, pos, ws_pred()),
            LowTokenKind::Id => !is_ws(s[pos]) && is_id_start_char(s[pos]),
            LowTokenKind::NumberLiteral { kind, suffix_start } => {
                &&& is_dec_digit(s[pos])
                &&& kind == number_scan(s, pos).0
                &&& suffix_start as int == blen(s.subrange(pos, number_scan(s, pos).1))
                &&& end == suffix_end(s, number_scan(s, pos).1)
            },
            LowTokenKind::Comment => s[pos] == '#' && end == comment_end(s, pos + 1),
            LowTokenKind::StringLiteral { terminated } => s[pos] == '"' && end == string_scan(
                s,
                pos + 1,
            ).0 && terminated == string_scan(s, pos + 1).1,
            LowTokenKind::Unknown => end == pos + 1,
            LowTokenKind::EndOfFile => false,
            _ => is_punct_char(s[pos]) && t.kind == punct_kind(s[pos]) && end == pos + 1,
        },
{
    let c = s[pos];
    if is_ws(c) {
    } else if is_id_start_char(c) {
    } else if is_dec_digit(c) {
    } else if c == '#' {
    } else if is_punct_char(c) {
    } else if c == '"' {
    } else {
    }
}

/// The closing quote of a terminated string literal is the token's last
/// character.
pub proof fn lemma_string_scan_quote(s: Seq<char>, i: int)
    requires
        0 <= i <= s.len(),
    ensures
        string_scan(s, i).1 ==> i + 1 <= string_scan(s, i).0 <= s.len() && s[string_scan(s, i).0
            - 1] == '"',
    decreases s.len() - i,
{
    if i < s.len() && s[i] != '"' {
        if s[i] == '\\' {
            if i + 1 < s.len() {
                lemma_string_scan_quote(s, i + 2);
            }
        } else {
            lemma_string_scan_quote(s, i + 1);
        }
    }
}

/// The character range of this file that the byte range `[lo, hi)`
/// covers.
pub open spec fn token_text(file: &SourceFile, lo: u32, hi: u32) -> Seq<char> {
    file.text().subrange(file.char_idx(lo), file.char_idx(hi))
}

pub open spec fn map_num_kind(kind: LowTokenNumberLiteralKind) -> TokenNumberLiteralKind {
    match kind {
        LowTokenNumberLiteralKind::IntegerBinary => TokenNumberLiteralKind::IntegerBinary,
        LowTokenNumberLiteralKind::IntegerOctal => TokenNumberLiteralKind::IntegerOctal,
        LowTokenNumberLiteralKind::IntegerHexadecimal => TokenNumberLiteralKind::IntegerHexadecimal,
        LowTokenNumberLiteralKind::IntegerDecimal => TokenNumberLiteralKind::IntegerDecimal,
        LowTokenNumberLiteralKind::Float => TokenNumberLiteralKind::Float,
    }
}

/// How a converted token relates to the primitive token it came from:
/// same position and length, the matching kind, and every carried
/// symbol resolving (in `it`) to the exact slice of the file's text.
pub open spec fn lexed_ok(
    file: &SourceFile,
    it: Interner,
    low: LowToken,
    span_low: u32,
    t: Token,
) -> bool {
    let full = token_text(file, span_low, (span_low + low.len) as u32);
    &&& t.span_low == span_low
    &&& t.kind.len_spec() == low.len
    &&& t.kind.syms_ok(it)
    &&& match low.kind {
        LowTokenKind::Unknown => t.kind matches TokenKind::Unknown { len, symbol } && len == low.len
            && it.holds(symbol) && it@[symbol.spec_index()] == full,
        LowTokenKind::EndOfFile => t.kind == TokenKind::EndOfFile,
        LowTokenKind::Whitespace => t.kind == (TokenKind::Whitespace { len: low.len }),
        LowTokenKind::Comment => t.kind == (TokenKind::Comment { len: low.len }),
        LowTokenKind::OpenParen => t.kind == TokenKind::OpenParen,
        LowTokenKind::CloseParen => t.kind == TokenKind::CloseParen,
        LowTokenKind::OpenBrace => t.kind == TokenKind::OpenBrace,
        LowTokenKind::CloseBrace => t.kind == TokenKind::CloseBrace,
        LowTokenKind::OpenBracket => t.kind == TokenKind::OpenBracket,
        LowTokenKind::CloseBracket => t.kind == TokenKind::CloseBracket,
        LowTokenKind::Dot => t.kind == TokenKind::Dot,
        LowTokenKind::Comma => t.kind == TokenKind::Comma,
        LowTokenKind::Colon => t.kind == TokenKind::Colon,
        LowTokenKind::Semicolon => t.kind == TokenKind::Semicolon,
        LowTokenKind::Eq => t.kind == TokenKind::Assign,
        LowTokenKind::Bang => t.kind == TokenKind::LogNot,
        LowTokenKind::At => t.kind == TokenKind::At,
        LowTokenKind::Lt => t.kind == TokenKind::Lt,
        LowTokenKind::Gt => t.kind == TokenKind::Gt,
        LowTokenKind::Plus => t.kind == TokenKind::Add,
        LowTokenKind::Minus => t.kind == TokenKind::Sub,
        LowTokenKind::Star => t.kind == TokenKind::Mul,
        LowTokenKind::Slash => t.kind == TokenKind::Div,
        LowTokenKind::Percent => t.kind == TokenKind::Mod,
        LowTokenKind::Or => t.kind == TokenKind::BitOr,
        LowTokenKind::And => t.kind == TokenKind::BitAnd,
        LowTokenKind::Caret => t.kind == TokenKind::BitXor,
        LowTokenKind::Tilde => t.kind == TokenKind::BitNot,
        LowTokenKind::Id => {
            if full == "true"@ || full == "false"@ {
                t.kind matches TokenKind::BoolLiteral { len, content } && len == low.len
                    && it.holds(content) && it@[content.spec_index()] == full
            } else {
                t.kind matches TokenKind::Id { len, symbol } && len == low.len && it.holds(symbol)
                    && it@[symbol.spec_index()] == full
            }
        },
        LowTokenKind::NumberLiteral { kind, suffix_start } => t.kind
            matches TokenKind::NumberLiteral { len, kind: tk, content, suffix } && {
            &&& len == low.len
            &&& tk == map_num_kind(kind)
            &&& it.holds(content) && it@[content.spec_index()] == token_text(
                file,
                span_low,
                (span_low + suffix_start) as u32,
            )
            &&& (suffix_start == low.len ==> suffix is None)
            &&& (suffix_start < low.len ==> (suffix matches Some(sx) && it.holds(sx)
                && it@[sx.spec_index()] == token_text(
                file,
                (span_low + suffix_start) as u32,
                (span_low + low.len) as u32,
            )))
        },
        LowTokenKind::StringLiteral { terminated } => t.kind matches TokenKind::StringLiteral {
            len,
            content,
            unquoted_content,
            terminated: t2,
        } && {
            &&& len == low.len
            &&& t2 == terminated
            &&& it.holds(content) && it@[content.spec_index()] == full
            &&& it.holds(unquoted_content) && it@[unquoted_content.spec_index()] == token_text(
                file,
                (span_low + 1) as u32,
                if terminated {
                    (span_low + low.len - 1) as u32
                } else {
                    (span_low + low.len) as u32
                },
            )
        },
    }
}

/// Converts one primitive token sitting at byte offset `span_low` of
/// `file` into a full token: it is stamped with its position, literal
/// kinds intern their text, `true`/`false` identifiers become boolean
/// literals, and numeric content is split from its suffix.
#[verifier::rlimit(100)]
pub fn from_low_token(token: LowToken, span_low: u32, file: &SourceFile, interner: &mut Interner)
    -> (t: Token)
    requires
        file.wf(),
        old(interner).wf(),
        old(interner).has_room(2),
        exists|cidx: int, cend: int|
            {
                &&& 0 <= cidx <= cend <= file.text().len()
                &&& file.byte_starts@[cidx] == span_low
                &&& #[trigger] low_next_ok(file.text(), cidx, token, cend)
            },
    ensures
        final(interner).wf(),
        final(interner).interned_from(*old(interner), 2),
        token.kind == LowTokenKind::EndOfFile ==> final(interner)@ == old(interner)@,
        lexed_ok(file, *final(interner), token, span_low, t),
{
    let ghost s = file.text();
    let ghost (cidx, cend): (int, int) = choose|cidx: int, cend: int|
        {
            &&& 0 <= cidx <= cend <= file.text().len()
            &&& file.byte_starts@[cidx] == span_low
            &&& #[trigger] low_next_ok(file.text(), cidx, token, cend)
        };
    proof {
        file.lemma_char_idx_unique(span_low, cidx);
        lemma_blen_subrange(s, cidx, cend);
        assert(file.byte_starts@[cend] as int == span_low as int + token.len as int);
        file.lemma_char_idx_unique((span_low + token.len) as u32, cend);
        file.lemma_byte_starts_le(0, cidx);
        file.lemma_byte_starts_le(cend, s.len() as int);
        assert(s.take(0) =~= Seq::<char>::empty());
        assert(blen(Seq::<char>::empty()) == 0);
        assert(s.take(s.len() as int) =~= s);
        assert(s.subrange(cidx, cidx) =~= Seq::<char>::empty());
        if cidx < s.len() {
            lemma_low_reverse(s, cidx, token, cend);
            if cend == cidx + 1 {
                crate::text::lemma_blen_singleton(s, cidx);
                if s[cidx] <= '\x7f' {
                    crate::text::lemma_ulen_ascii(s[cidx]);
                }
            }
        }
    }
    let span = Span::new(span_low, span_low + token.len);
    let kind = match token.kind {
        LowTokenKind::Unknown => {
            let symbol = interner.intern(file.slice(span));
            TokenKind::Unknown { len: token.len, symbol }
        },
        LowTokenKind::EndOfFile => TokenKind::EndOfFile,
        LowTokenKind::Whitespace => TokenKind::Whitespace { len: token.len },
        LowTokenKind::Comment => TokenKind::Comment { len: token.len },
        LowTokenKind::OpenParen => TokenKind::OpenParen,
        LowTokenKind::CloseParen => TokenKind::CloseParen,
        LowTokenKind::OpenBrace => TokenKind::OpenBrace,
        LowTokenKind::CloseBrace => TokenKind::CloseBrace,
        LowTokenKind::OpenBracket => TokenKind::OpenBracket,
        LowTokenKind::CloseBracket => TokenKind::CloseBracket,
        LowTokenKind::Dot => TokenKind::Dot,
        LowTokenKind::Comma => TokenKind::Comma,
        LowTokenKind::Colon => TokenKind::Colon,
        LowTokenKind::Semicolon => TokenKind::Semicolon,
        LowTokenKind::Eq => TokenKind::Assign,
        LowTokenKind::Bang => TokenKind::LogNot,
        LowTokenKind::At => TokenKind::At,
        LowTokenKind::Lt => TokenKind::Lt,
        LowTokenKind::Gt => TokenKind::Gt,
        LowTokenKind::Plus => TokenKind::Add,
        LowTokenKind::Minus => TokenKind::Sub,
        LowTokenKind::Star => TokenKind::Mul,
        LowTokenKind::Slash => TokenKind::Div,
        LowTokenKind::Percent => TokenKind::Mod,
        LowTokenKind::Or => TokenKind::BitOr,
        LowTokenKind::And => TokenKind::BitAnd,
        LowTokenKind::Caret => TokenKind::BitXor,
        LowTokenKind::Tilde => TokenKind::BitNot,
        LowTokenKind::Id => {
            let text = file.slice(span);
            let owned = text.to_owned();
            let true_text = "true".to_owned();
            let false_text = "false".to_owned();
            if owned == true_text || owned == false_text {
                let content = interner.intern(text);
                TokenKind::BoolLiteral { len: token.len, content }
            } else {
                let symbol = interner.intern(text);
                TokenKind::Id { len: token.len, symbol }
            }
        },
        LowTokenKind::NumberLiteral { kind, suffix_start } => {
            let kind = match kind {
                LowTokenNumberLiteralKind::IntegerBinary => TokenNumberLiteralKind::IntegerBinary,
                LowTokenNumberLiteralKind::IntegerOctal => TokenNumberLiteralKind::IntegerOctal,
                LowTokenNumberLiteralKind::IntegerHexadecimal => {
                    TokenNumberLiteralKind::IntegerHexadecimal
                },
                LowTokenNumberLiteralKind::IntegerDecimal => TokenNumberLiteralKind::IntegerDecimal,
                LowTokenNumberLiteralKind::Float => TokenNumberLiteralKind::Float,
            };
            proof {
                let ce = number_scan(s, cidx).1;
                super::low_lexer::lemma_number_scan_props(s, cidx);
                lemma_blen_subrange(s, cidx, ce);
                assert(file.byte_starts@[ce] as int == span_low as int + suffix_start as int);
                file.lemma_char_idx_unique((span_low + suffix_start) as u32, ce);
                file.lemma_byte_starts_le(ce, cend);
            }
            let content = interner.intern(
                file.slice(Span::new(span_low, span_low + suffix_start)),
            );
            let suffix = if suffix_start == token.len {
                None
            } else {
                Some(
                    interner.intern(
                        file.slice(Span::new(span_low + suffix_start, span_low + token.len)),
                    ),
                )
            };
            TokenKind::NumberLiteral { len: token.len, kind, content, suffix }
        },
        LowTokenKind::StringLiteral { terminated } => {
            proof {
                lemma_string_scan_quote(s, cidx + 1);
                lemma_blen_take_succ(s, cidx);
                assert(crate::text::ulen('"') == 1) by {
                    vstd::utf8::char_is_scalar('"');
                }
                if terminated {
                    lemma_blen_take_succ(s, cend - 1);
                    assert(crate::text::ulen(s[cend - 1]) == 1) by {
                        vstd::utf8::char_is_scalar(s[cend - 1]);
                    }
                    file.lemma_char_idx_unique((span_low + token.len - 1) as u32, cend - 1);
                }
                file.lemma_char_idx_unique((span_low + 1) as u32, cidx + 1);
            }
            let content = interner.intern(file.slice(span));
            let unquoted_span = Span::new(
                span_low + 1,
                if terminated {
                    span_low + token.len - 1
                } else {
                    span_low + token.len
                },
            );
            let unquoted_content = interner.intern(file.slice(unquoted_span));
            TokenKind::StringLiteral {
                len: token.len,
                content,
                unquoted_content,
                terminated,
            }
        },
    };
    Token::new(span_low, kind)
}

/// A converted token stays converted while the interner grows: every
/// clause of `lexed_ok` speaks of entries that are already there.
pub proof fn lemma_lexed_ok_monotone(
    file: &SourceFile,
    a: Interner,
    b: Interner,
    low: LowToken,
    span_low: u32,
    t: Token,
)
    requires
        lexed_ok(file, a, low, span_low, t),
        a@.len() <= b@.len(),
        forall|i: int| 0 <= i < a@.len() ==> b@[i] == a@[i],
    ensures
        lexed_ok(file, b, low, span_low, t),
{
}

/// Two consecutive tokens of the glued stream cannot be glued further:
/// the left one came out because it would not glue with the seed of the
/// right one, and gluing only grows the seed in ways that cannot make
/// it glueable on its left.
pub proof fn lemma_glued_stream_maximal(prev: TokenKind, seed: TokenKind, grown: TokenKind)
    requires
        !glueable(prev, seed),
        forall|x: TokenKind| #[trigger] glueable(x, grown) ==> glueable(x, seed),
    ensures
        !glueable(prev, grown),
{
}

/// The stream of converted (not yet glued) tokens of one file: each
/// primitive token stamped with its absolute byte offset.
pub struct UngluedTokenIter<'a> {
    pub file: &'a SourceFile,
    pub char_pos: usize,
    pub byte_pos: u32,
}

impl<'a> UngluedTokenIter<'a> {
    pub open spec fn wf(&self) -> bool {
        &&& self.file.wf()
        &&& self.char_pos <= self.file.text().len()
        &&& self.file.byte_starts@[self.char_pos as int] == self.byte_pos
    }

    pub open spec fn at_end(&self) -> bool {
        self.char_pos == self.file.text().len()
    }

    /// Converts the next primitive token; at the end of input it yields
    /// `EndOfFile` forever without interning anything.
    pub fn next_token(&mut self, interner: &mut Interner) -> (t: Token)
        requires
            old(self).wf(),
            old(interner).wf(),
            old(interner).has_room(2),
        ensures
            final(self).wf(),
            final(self).file == old(self).file,
            final(interner).wf(),
            final(interner).interned_from(*old(interner), 2),
            t.span_low == old(self).byte_pos,
            final(self).byte_pos as int == old(self).byte_pos as int + t.kind.len_spec(),
            old(self).char_pos <= final(self).char_pos,
            (t.kind == TokenKind::EndOfFile) <==> old(self).at_end(),
            old(self).at_end() ==> *final(self) == *old(self) && final(interner)@ == old(
                interner,
            )@,
            !old(self).at_end() ==> t.kind.len_spec() >= 1 && final(self).char_pos > old(
                self,
            ).char_pos,
            t.kind.syms_ok(*final(interner)),
            exists|low: LowToken|
                #[trigger] lexed_ok(old(self).file, *final(interner), low, old(self).byte_pos, t)
                    && low_next_ok(
                    old(self).file.text(),
                    old(self).char_pos as int,
                    low,
                    final(self).char_pos as int,
                ),
    {
        let ghost s = self.file.text();
        proof {
            assert(s.take(s.len() as int) =~= s);
            lemma_blen_ge_len(s);
        }
        let (low, end) = super::low_lexer::next(&self.file.chars, self.char_pos);
        proof {
            lemma_blen_subrange(s, self.char_pos as int, end as int);
            assert(self.file.byte_starts@[end as int] as int == self.byte_pos as int
                + low.len as int);
            if self.char_pos < s.len() && end as int > self.char_pos as int {
                lemma_blen_ge_len(s.subrange(self.char_pos as int, end as int));
            }
            assert(s.subrange(self.char_pos as int, self.char_pos as int) =~= Seq::<
                char,
            >::empty());
        }
        let t = from_low_token(low, self.byte_pos, self.file, interner);
        self.char_pos = end;
        self.byte_pos = self.byte_pos + low.len;
        t
    }
}

/// The unglued token stream of `file`, starting at the file's span low.
pub fn unglued_token_iter<'a>(file: &'a SourceFile) -> (it: UngluedTokenIter<'a>)
    requires
        file.wf(),
    ensures
        it.wf(),
        it.file == file,
        it.char_pos == 0,
        it.byte_pos == file.span.low,
{
    proof {
        assert(file.text().take(0) =~= Seq::<char>::empty());
        assert(blen(Seq::<char>::empty()) == 0);
    }
    UngluedTokenIter { file, char_pos: 0, byte_pos: file.span().low() }
}

/// The glued token stream of one file: converted tokens, with adjacent
/// ones fused greedily from the left (so `*` `*` `=` comes out as the
/// single token `**=`).
pub struct TokenIter<'a> {
    pub inner: UngluedTokenIter<'a>,
    pub current: Token,
    pub ahead: Token,
}

impl<'a> TokenIter<'a> {
    /// One interning may still be spent gluing this token into its left
    /// neighbour.
    pub open spec fn credit(t: Token) -> int {
        if t.kind == TokenKind::EndOfFile {
            0
        } else {
            1
        }
    }

    pub open spec fn wf(&self, it: Interner) -> bool {
        &&& self.inner.wf()
        &&& it.wf()
        &&& self.current.kind.syms_ok(it)
        &&& self.ahead.kind.syms_ok(it)
        &&& self.current.span_low as int + self.current.kind.len_spec()
            == self.ahead.span_low as int
        &&& self.ahead.span_low as int + self.ahead.kind.len_spec() == self.inner.byte_pos as int
        &&& (self.current.kind == TokenKind::EndOfFile ==> self.ahead.kind
            == TokenKind::EndOfFile)
        &&& (self.ahead.kind == TokenKind::EndOfFile ==> self.inner.at_end())
        &&& (self.current.kind != TokenKind::EndOfFile ==> self.current.kind.len_spec() >= 1)
        &&& (self.ahead.kind != TokenKind::EndOfFile ==> self.ahead.kind.len_spec() >= 1)
        &&& self.inner.byte_pos <= self.inner.file.span.high
        &&& it@.len() + 3 * (self.inner.file.span.high - self.inner.byte_pos) + Self::credit(
            self.ahead,
        ) + 2 <= u32::MAX
    }

    /// The bytes not yet emitted; every emitted token shrinks it by the
    /// token's own length.
    pub open spec fn measure(&self) -> int {
        self.inner.file.span.high - self.current.span_low
    }

    /// Emits the next glued token: the current token absorbs its right
    /// neighbours while the gluing table allows, then is final.
    pub fn next_token(&mut self, interner: &mut Interner) -> (t: Token)
        requires
            old(self).wf(*old(interner)),
        ensures
            final(self).wf(*final(interner)),
            final(self).inner.file == old(self).inner.file,
            final(interner).wf(),
            old(interner)@.len() <= final(interner)@.len(),
            forall|i: int|
                0 <= i < old(interner)@.len() ==> final(interner)@[i] == old(interner)@[i],
            t.span_low == old(self).current.span_low,
            (t.kind == TokenKind::EndOfFile) <==> (old(self).current.kind
                == TokenKind::EndOfFile),
            t.kind != TokenKind::EndOfFile ==> t.kind.len_spec() >= 1,
            final(self).current.span_low as int == t.span_low as int + t.kind.len_spec(),
            final(self).measure() == old(self).measure() - t.kind.len_spec(),
            t.kind.syms_ok(*final(interner)),
            t.kind == TokenKind::EndOfFile ==> *final(self) == *old(self) && final(interner)@
                == old(interner)@,
            !glueable(t.kind, final(self).current.kind),
            forall|x: TokenKind|
                #[trigger] glueable(x, t.kind) ==> glueable(x, old(self).current.kind),
            !glueable(old(self).current.kind, old(self).ahead.kind) ==> t == old(self).current
                && final(self).current == old(self).ahead && (exists|low: LowToken|
                #[trigger] lexed_ok(
                    old(self).inner.file,
                    *final(interner),
                    low,
                    final(self).ahead.span_low,
                    final(self).ahead,
                )),
    {
        proof {
            self.inner.file.lemma_byte_starts_le(
                self.inner.char_pos as int,
                self.inner.file.text().len() as int,
            );
            assert(self.inner.file.text().take(self.inner.file.text().len() as int)
                =~= self.inner.file.text());
        }
        let ghost it0 = *interner;
        let ghost file0 = self.inner.file;
        let ghost start = self.current;
        let ghost self0 = *self;
        let mut token = self.current;
        loop
            invariant
                start.kind == TokenKind::EndOfFile ==> token == start && *self == self0
                    && interner@ == it0@,
                self.inner.wf(),
                interner.wf(),
                self.inner.file == file0,
                it0@.len() <= interner@.len(),
                forall|i: int| 0 <= i < it0@.len() ==> interner@[i] == it0@[i],
                token.kind.syms_ok(*interner),
                self.ahead.kind.syms_ok(*interner),
                token.span_low == start.span_low,
                token.span_low as int + token.kind.len_spec() == self.ahead.span_low as int,
                self.ahead.span_low as int + self.ahead.kind.len_spec()
                    == self.inner.byte_pos as int,
                (token.kind == TokenKind::EndOfFile) <==> (start.kind == TokenKind::EndOfFile),
                (token.kind == TokenKind::EndOfFile ==> self.ahead.kind == TokenKind::EndOfFile),
                (self.ahead.kind == TokenKind::EndOfFile ==> self.inner.at_end()),
                (token.kind != TokenKind::EndOfFile ==> token.kind.len_spec() >= 1),
                (self.ahead.kind != TokenKind::EndOfFile ==> self.ahead.kind.len_spec() >= 1),
                forall|x: TokenKind|
                    #[trigger] glueable(x, token.kind) ==> glueable(x, start.kind),
                (token == start && *self == self0 && interner@ == it0@) || glueable(
                    start.kind,
                    self0.ahead.kind,
                ),
                interner@.len() + 3 * (file0.span.high - self.inner.byte_pos) + Self::credit(
                    self.ahead,
                ) + 2 <= u32::MAX,
                self.inner.byte_pos <= file0.span.high,
            ensures
                start.kind == TokenKind::EndOfFile ==> token == start && *self == self0
                    && interner@ == it0@,
                self.inner.wf(),
                interner.wf(),
                self.inner.file == file0,
                it0@.len() <= interner@.len(),
                forall|i: int| 0 <= i < it0@.len() ==> interner@[i] == it0@[i],
                token.kind.syms_ok(*interner),
                self.ahead.kind.syms_ok(*interner),
                token.span_low == start.span_low,
                token.span_low as int + token.kind.len_spec() == self.ahead.span_low as int,
                self.ahead.span_low as int + self.ahead.kind.len_spec()
                    == self.inner.byte_pos as int,
                (token.kind == TokenKind::EndOfFile) <==> (start.kind == TokenKind::EndOfFile),
                (token.kind == TokenKind::EndOfFile ==> self.ahead.kind == TokenKind::EndOfFile),
                (self.ahead.kind == TokenKind::EndOfFile ==> self.inner.at_end()),
                (token.kind != TokenKind::EndOfFile ==> token.kind.len_spec() >= 1),
                (self.ahead.kind != TokenKind::EndOfFile ==> self.ahead.kind.len_spec() >= 1),
                forall|x: TokenKind|
                    #[trigger] glueable(x, token.kind) ==> glueable(x, start.kind),
                (token == start && *self == self0 && interner@ == it0@) || glueable(
                    start.kind,
                    self0.ahead.kind,
                ),
                !glueable(token.kind, self.ahead.kind),
                interner@.len() + 3 * (file0.span.high - self.inner.byte_pos) + Self::credit(
                    self.ahead,
                ) + 2 <= u32::MAX,
                self.inner.byte_pos <= file0.span.high,
            decreases file0.span.high - self.ahead.span_low,
        {
            proof {
                self.inner.file.lemma_byte_starts_le(
                    self.inner.char_pos as int,
                    self.inner.file.text().len() as int,
                );
                assert(self.inner.file.text().take(self.inner.file.text().len() as int)
                    =~= self.inner.file.text());
            }
            let glued_opt = Token::glue(&token, &self.ahead, interner);
            match glued_opt {
                Some(glued) => {
                    proof {
                        assert(self.ahead.kind != TokenKind::EndOfFile);
                    }
                    let ghost prev_kind = token.kind;
                    token = glued;
                    proof {
                        assert forall|x: TokenKind| #[trigger] glueable(x, token.kind) implies
                            glueable(x, prev_kind) by {
                            // The table's right-hand sides are single
                            // characters; merged runs keep their kind.
                        }
                    }
                    self.ahead = self.inner.next_token(interner);
                    proof {
                        self.inner.file.lemma_byte_starts_le(
                            self.inner.char_pos as int,
                            self.inner.file.text().len() as int,
                        );
                        assert(self.inner.file.text().take(self.inner.file.text().len() as int)
                            =~= self.inner.file.text());
                    }
                },
                None => {
                    break ;
                },
            }
        }
        proof {
            self.inner.file.lemma_byte_starts_le(
                self.inner.char_pos as int,
                self.inner.file.text().len() as int,
            );
            assert(self.inner.file.text().take(self.inner.file.text().len() as int)
                =~= self.inner.file.text());
        }
        let t = token;
        self.current = self.ahead;
        self.ahead = self.inner.next_token(interner);
        proof {
            self.inner.file.lemma_byte_starts_le(
                self.inner.char_pos as int,
                self.inner.file.text().len() as int,
            );
            assert(self.inner.file.text().take(self.inner.file.text().len() as int)
                =~= self.inner.file.text());
            if start.kind == TokenKind::EndOfFile {
                assert(self.current.kind == TokenKind::EndOfFile && self.current.span_low
                    == start.span_low);
                assert(self.current == old(self).current);
                assert(self.ahead == old(self).ahead);
                assert(*self == *old(self));
            }
        }
        t
    }
}

/// The glued token stream of `file`. The interner must have room for
/// the file's worst case: a few interned strings per token byte.
#[verifier::rlimit(50)]
pub fn token_iter<'a>(file: &'a SourceFile, interner: &mut Interner) -> (it: TokenIter<'a>)
    requires
        file.wf(),
        old(interner).wf(),
        old(interner)@.len() + 3 * file.span.spec_len() + 9 <= u32::MAX,
    ensures
        it.wf(*final(interner)),
        it.inner.file == file,
        it.current.span_low == file.span.low,
        final(interner).wf(),
        old(interner)@.len() <= final(interner)@.len(),
        forall|i: int| 0 <= i < old(interner)@.len() ==> final(interner)@[i] == old(interner)@[i],
        exists|low: LowToken|
            #[trigger] lexed_ok(file, *final(interner), low, it.current.span_low, it.current),
        exists|low: LowToken|
            #[trigger] lexed_ok(file, *final(interner), low, it.ahead.span_low, it.ahead),
{
    let mut inner = unglued_token_iter(file);
    proof {
        inner.file.lemma_byte_starts_le(inner.char_pos as int, inner.file.text().len() as int);
        assert(inner.file.text().take(inner.file.text().len() as int) =~= inner.file.text());
    }
    let current = inner.next_token(interner);
    proof {
        inner.file.lemma_byte_starts_le(inner.char_pos as int, inner.file.text().len() as int);
        assert(inner.file.text().take(inner.file.text().len() as int) =~= inner.file.text());
    }
    let ghost it1 = *interner;
    let ahead = inner.next_token(interner);
    proof {
        inner.file.lemma_byte_starts_le(inner.char_pos as int, inner.file.text().len() as int);
        assert(inner.file.text().take(inner.file.text().len() as int) =~= inner.file.text());
        let low0 = choose|low: LowToken|
            #[trigger] lexed_ok(file, it1, low, current.span_low, current);
        lemma_lexed_ok_monotone(file, it1, *interner, low0, current.span_low, current);
    }
    TokenIter { inner, current, ahead }
}

} // verus!
