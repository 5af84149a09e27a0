use super::ast::{AstPuncKind, NodeId, NodeIdAllocator};
use super::lexer::{glueable, Token, TokenIter, TokenKind};
use super::symbols::Keywords;
use crate::diagnostics::ItemSender;
use crate::span::SourceFile;
use crate::symbol::{Interner, Symbol};
use vstd::prelude::*;

verus! {

/// One buffered token of lookahead.
#[derive(Debug, Clone, Copy, PartialEq, Eq, Hash)]
pub struct LookaheadToken {
    pub token: Token,
}

impl LookaheadToken {
    /// Whether there is a real token here (not the end of the file).
    pub fn is_exists(self) -> (r: bool)
        ensures
            r == (self.token.kind != TokenKind::EndOfFile),
    {
        !matches!(self.token.kind, TokenKind::EndOfFile)
    }

    pub fn is_id(self) -> (r: bool)
        ensures
            r == (self.token.kind matches TokenKind::Id { .. }),
    {
        matches!(self.token.kind, TokenKind::Id { .. })
    }

    /// Whether this is an identifier token spelling exactly the keyword
    /// behind `symbol`.
    pub fn is_keyword(self, symbol: Symbol) -> (r: bool)
        ensures
            r == (self.token.kind matches TokenKind::Id { symbol: s, .. } && s == symbol),
    {
        match self.token.kind {
            TokenKind::Id { symbol: id_symbol, .. } => id_symbol == symbol,
            _ => false,
        }
    }

    pub fn is_punc(self, kind: AstPuncKind) -> (r: bool)
        ensures
            r == kind.spec_matches_token_kind(self.token.kind),
    {
        kind.matches_token_kind(self.token.kind)
    }

    pub fn is_string_literal(self) -> (r: bool)
        ensures
            r == (self.token.kind matches TokenKind::StringLiteral { .. }),
    {
        matches!(self.token.kind, TokenKind::StringLiteral { .. })
    }
}

/// A token the parser looks at: anything but whitespace and comments
/// (the end-of-file token counts as significant).
pub open spec fn significant(k: TokenKind) -> bool {
    &&& !(k matches TokenKind::Whitespace { .. })
    &&& !(k matches TokenKind::Comment { .. })
}

/// Pulls glued tokens until one that is neither whitespace nor a
/// comment comes out (the end-of-file token counts as one).
fn pull_significant(stream: &mut TokenIter, interner: &mut Interner) -> (t: Token)
    requires
        old(stream).wf(*old(interner)),
    ensures
        final(stream).wf(*final(interner)),
        final(stream).inner.file == old(stream).inner.file,
        final(interner).wf(),
        old(interner)@.len() <= final(interner)@.len(),
        forall|i: int| 0 <= i < old(interner)@.len() ==> final(interner)@[i] == old(interner)@[i],
        !(t.kind matches TokenKind::Whitespace { .. }),
        !(t.kind matches TokenKind::Comment { .. }),
        t.kind.syms_ok(*final(interner)),
        t.kind != TokenKind::EndOfFile ==> t.kind.len_spec() >= 1,
        t.kind == TokenKind::EndOfFile ==> final(stream).current.kind == TokenKind::EndOfFile,
        old(stream).current.kind == TokenKind::EndOfFile ==> t.kind == TokenKind::EndOfFile,
        old(stream).current.span_low <= t.span_low,
        final(stream).current.span_low as int == t.span_low as int + t.kind.len_spec(),
        (significant(old(stream).current.kind) && !glueable(
            old(stream).current.kind,
            old(stream).ahead.kind,
        )) ==> t == old(stream).current,
{
    let ghost it0 = *interner;
    let mut t = stream.next_token(interner);
    while matches!(t.kind, TokenKind::Whitespace { .. }) || matches!(
        t.kind,
        TokenKind::Comment { .. },
    )
        invariant
            stream.wf(*interner),
            stream.inner.file == old(stream).inner.file,
            interner.wf(),
            it0@.len() <= interner@.len(),
            forall|i: int| 0 <= i < it0@.len() ==> interner@[i] == it0@[i],
            t.kind.syms_ok(*interner),
            t.kind != TokenKind::EndOfFile ==> t.kind.len_spec() >= 1,
            t.kind == TokenKind::EndOfFile ==> stream.current.kind == TokenKind::EndOfFile,
            old(stream).current.kind == TokenKind::EndOfFile ==> t.kind == TokenKind::EndOfFile,
            old(stream).current.span_low <= t.span_low,
            stream.current.span_low as int == t.span_low as int + t.kind.len_spec(),
            (significant(old(stream).current.kind) && !glueable(
                old(stream).current.kind,
                old(stream).ahead.kind,
            )) ==> t == old(stream).current,
        decreases stream.inner.file.span.high - t.span_low,
    {
        t = stream.next_token(interner);
    }
    t
}

/// The parser's sole view of the token stream: two tokens of lookahead
/// over the glued stream (whitespace and comments already dropped),
/// the node identity allocator, the interner of the session and the
/// file's diagnostics sink.
pub struct Cursor<'a> {
    pub lookahead_0: LookaheadToken,
    pub lookahead_1: LookaheadToken,
    pub token_stream: TokenIter<'a>,
    pub interner: Interner,
    pub keywords: Keywords,
    pub id_allocator: NodeIdAllocator,
    pub diagnostics_sender: &'a ItemSender,
}

impl<'a> Cursor<'a> {
    pub open spec fn file(&self) -> &SourceFile {
        self.token_stream.inner.file
    }

    pub open spec fn wf(&self) -> bool {
        &&& self.token_stream.wf(self.interner)
        &&& self.keywords.wf(self.interner)
        &&& self.lookahead_0.token.kind.syms_ok(self.interner)
        &&& self.lookahead_1.token.kind.syms_ok(self.interner)
        &&& !(self.lookahead_0.token.kind matches TokenKind::Whitespace { .. })
        &&& !(self.lookahead_0.token.kind matches TokenKind::Comment { .. })
        &&& !(self.lookahead_1.token.kind matches TokenKind::Whitespace { .. })
        &&& !(self.lookahead_1.token.kind matches TokenKind::Comment { .. })
        &&& self.lookahead_0.token.span_low as int + self.lookahead_0.token.kind.len_spec()
            <= self.lookahead_1.token.span_low as int
        &&& self.lookahead_1.token.span_low as int + self.lookahead_1.token.kind.len_spec()
            <= self.token_stream.current.span_low as int
        &&& (self.lookahead_0.token.kind == TokenKind::EndOfFile ==> self.lookahead_1.token.kind
            == TokenKind::EndOfFile)
        &&& (self.lookahead_1.token.kind == TokenKind::EndOfFile
            ==> self.token_stream.current.kind == TokenKind::EndOfFile)
        &&& (self.lookahead_0.token.kind != TokenKind::EndOfFile
            ==> self.lookahead_0.token.kind.len_spec() >= 1)
        &&& (self.lookahead_1.token.kind != TokenKind::EndOfFile
            ==> self.lookahead_1.token.kind.len_spec() >= 1)
    }

    /// The same file, keywords and diagnostics sink as `other`, and an
    /// interner that only grew.
    pub open spec fn same_session(&self, other: Cursor<'a>) -> bool {
        &&& self.token_stream.inner.file == other.token_stream.inner.file
        &&& self.diagnostics_sender == other.diagnostics_sender
        &&& self.keywords == other.keywords
        &&& other.interner@.len() <= self.interner@.len()
        &&& forall|i: int|
            0 <= i < other.interner@.len() ==> self.interner@[i] == other.interner@[i]
    }

    /// The bytes not yet handed to the parser; consuming one token
    /// shrinks it by at least that token's length.
    pub open spec fn measure(&self) -> int {
        self.file().span.high - self.lookahead_0.token.span_low
    }

    /// Primes the two lookahead slots from the stream.
    pub fn new(
        token_stream: TokenIter<'a>,
        interner: Interner,
        keywords: Keywords,
        id_allocator: NodeIdAllocator,
        diagnostics_sender: &'a ItemSender,
    ) -> (c: Cursor<'a>)
        requires
            token_stream.wf(interner),
            keywords.wf(interner),
        ensures
            c.wf(),
            c.token_stream.inner.file == token_stream.inner.file,
            c.diagnostics_sender == diagnostics_sender,
            c.keywords == keywords,
            c.id_allocator == id_allocator,
            token_stream.current.span_low <= c.lookahead_0.token.span_low,
            c.lookahead_0.token.span_low as int + c.lookahead_0.token.kind.len_spec()
                <= c.lookahead_1.token.span_low as int,
            c.token_stream.current.span_low as int == c.lookahead_1.token.span_low as int
                + c.lookahead_1.token.kind.len_spec(),
            (significant(token_stream.current.kind) && !glueable(
                token_stream.current.kind,
                token_stream.ahead.kind,
            )) ==> c.lookahead_0.token == token_stream.current,
    {
        let mut stream = token_stream;
        let mut interner = interner;
        let ghost it0 = interner;
        let lookahead_0 = LookaheadToken { token: pull_significant(&mut stream, &mut interner) };
        let ghost it1 = interner;
        let lookahead_1 = LookaheadToken { token: pull_significant(&mut stream, &mut interner) };
        proof {
            keywords.lemma_wf_monotone(it0, interner);
            lookahead_0.token.kind.lemma_syms_ok_monotone(it1, interner);
        }
        Cursor {
            lookahead_0,
            lookahead_1,
            token_stream: stream,
            interner,
            keywords,
            id_allocator,
            diagnostics_sender,
        }
    }

    /// Whether the current lookahead is a real token.
    pub fn has_token(&self) -> (r: bool)
        ensures
            r == (self.lookahead_0.token.kind != TokenKind::EndOfFile),
    {
        self.lookahead_0.is_exists()
    }

    pub fn lookahead_0(&self) -> (r: LookaheadToken)
        ensures
            r == self.lookahead_0,
    {
        self.lookahead_0
    }

    pub fn lookahead_1(&self) -> (r: LookaheadToken)
        ensures
            r == self.lookahead_1,
    {
        self.lookahead_1
    }

    /// Shifts the lookahead window one token forward. This never fails:
    /// the stream is infinite at the end of the file.
    pub fn consume(&mut self)
        requires
            old(self).wf(),
        ensures
            final(self).wf(),
            final(self).same_session(*old(self)),
            final(self).id_allocator == old(self).id_allocator,
            final(self).lookahead_0 == old(self).lookahead_1,
            final(self).measure() <= old(self).measure()
                - old(self).lookahead_0.token.kind.len_spec(),
            old(self).lookahead_0.token.kind != TokenKind::EndOfFile ==> final(self).measure()
                < old(self).measure(),
            old(self).token_stream.current.span_low <= final(self).lookahead_1.token.span_low,
            final(self).token_stream.current.span_low as int
                == final(self).lookahead_1.token.span_low as int
                + final(self).lookahead_1.token.kind.len_spec(),
            (significant(old(self).token_stream.current.kind) && !glueable(
                old(self).token_stream.current.kind,
                old(self).token_stream.ahead.kind,
            )) ==> final(self).lookahead_1.token == old(self).token_stream.current,
    {
        self.lookahead_0 = self.lookahead_1;
        let t = pull_significant(&mut self.token_stream, &mut self.interner);
        self.lookahead_1 = LookaheadToken { token: t };
        proof {
            let itf = self.interner;
            self.keywords.lemma_wf_monotone(old(self).interner, itf);
            self.lookahead_0.token.kind.lemma_syms_ok_monotone(old(self).interner, itf);
        }
    }

    /// Mints the identity of the next AST node.
    pub fn node_id(&mut self) -> (r: NodeId)
        requires
            old(self).wf(),
        ensures
            final(self).wf(),
            final(self).same_session(*old(self)),
            final(self).lookahead_0 == old(self).lookahead_0,
            final(self).lookahead_1 == old(self).lookahead_1,
            final(self).token_stream == old(self).token_stream,
            final(self).interner == old(self).interner,
            final(self).measure() == old(self).measure(),
    {
        self.id_allocator.allocate()
    }

    /// The diagnostics sink of the file being parsed.
    pub fn reporter(&self) -> (r: &'a ItemSender)
        ensures
            r == self.diagnostics_sender,
    {
        self.diagnostics_sender
    }
}

} // verus!
