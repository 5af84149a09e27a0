use super::ast::{AstAttribute, AstAttributeItem, AstCompTime, AstCompTimeBlock, AstInput,
    AstTypeName,
    AstCompTimeElseIfPart, AstCompTimeElsePart, AstCompTimeIf, AstCompTimeIfPart,
    AstCompTimeIfPredicateExpr, AstCompTimeIfPredicateExprFlag, AstCompTimeIfPredicateExprKind,
    AstCompTimeIfPredicateExprNot, AstCompTimeIfPredicateExprOr, AstCompTimeIfPredicateExprParen,
    AstCompTimeIfPredicateExprSingle, AstCompTimeIfPredicateExprSingleKind, AstCompTimeKind,
    AstCompTimeLoop, AstComposedIdentifier, AstComposedIdentifierArg, AstExpr, AstExprKind,
    AstIdentifier, AstIdentifierKind, AstKeyword, AstPunc, AstPuncKind, AstShaderPack,
    AstStringLiteral, AstTopLevel, AstTopLevelKind, AstCompTimeIfPredicateExprAnd, span_in};
use super::cursor::Cursor;
use super::lexer::{Token, TokenKind};
use crate::diagnostics::codes::{PARSE_ERR_EXPECTED_EXPR, PARSE_ERR_EXPECTED_IDENTIFIER,
    PARSE_ERR_INVALID_COMPTIME};
use crate::span::Span;
use crate::symbol::Symbol;
use vstd::prelude::*;

verus! {

/// The token is the identifier spelling the keyword behind `keyword`.
pub open spec fn at_keyword(t: Token, keyword: Symbol) -> bool {
    t.kind matches TokenKind::Id { symbol, .. } && symbol == keyword
}

/// Consumes the identifier token spelling the keyword behind `keyword`,
/// if that is what stands at the cursor.
pub fn parse_keyword(cursor: &mut Cursor, keyword: Symbol) -> (r: Option<AstKeyword>)
    requires
        old(cursor).wf(),
    ensures
        final(cursor).wf(),
        final(cursor).same_session(*old(cursor)),
        final(cursor).measure() <= old(cursor).measure(),
        r is Some <==> at_keyword(old(cursor).lookahead_0.token, keyword),
        r matches Some(k) ==> {
            &&& k.wf()
            &&& k.symbol == keyword
            &&& k.span.low == old(cursor).lookahead_0.token.span_low
            &&& k.span.high as int == k.span.low as int
                + old(cursor).lookahead_0.token.kind.len_spec()
            &&& final(cursor).lookahead_0 == old(cursor).lookahead_1
            &&& final(cursor).measure() < old(cursor).measure()
            &&& old(cursor).lookahead_0.token.span_low <= k.span.low
            &&& k.span.high <= final(cursor).lookahead_0.token.span_low
        },
        r is None ==> *final(cursor) == *old(cursor),
    decreases old(cursor).measure(), 0int,
{
    let la = cursor.lookahead_0();
    match la.token.kind {
        TokenKind::Id { len, symbol } => {
            if symbol == keyword {
                cursor.consume();
                Some(
                    AstKeyword {
                        span: Span::new(la.token.span_low, la.token.span_low + len),
                        symbol,
                    },
                )
            } else {
                None
            }
        },
        _ => None,
    }
}

/// Consumes the punctuation token that `kind` stands for, if that is
/// what stands at the cursor.
pub fn parse_punc(cursor: &mut Cursor, kind: AstPuncKind) -> (r: Option<AstPunc>)
    requires
        old(cursor).wf(),
    ensures
        final(cursor).wf(),
        final(cursor).same_session(*old(cursor)),
        final(cursor).measure() <= old(cursor).measure(),
        r is Some <==> kind.spec_matches_token_kind(old(cursor).lookahead_0.token.kind),
        r matches Some(p) ==> {
            &&& p.wf()
            &&& p.kind == kind
            &&& p.span.low == old(cursor).lookahead_0.token.span_low
            &&& p.span.high as int == p.span.low as int
                + old(cursor).lookahead_0.token.kind.len_spec()
            &&& final(cursor).lookahead_0 == old(cursor).lookahead_1
            &&& final(cursor).measure() < old(cursor).measure()
            &&& old(cursor).lookahead_0.token.span_low <= p.span.low
            &&& p.span.high <= final(cursor).lookahead_0.token.span_low
        },
        r is None ==> *final(cursor) == *old(cursor),
    decreases old(cursor).measure(), 0int,
{
    let la = cursor.lookahead_0();
    if la.is_punc(kind) {
        proof {
            assert(la.token.kind != TokenKind::EndOfFile);
        }
        let len = la.token.kind.len();
        cursor.consume();
        Some(AstPunc { span: Span::new(la.token.span_low, la.token.span_low + len), kind })
    } else {
        None
    }
}

/// Reports the expected expression and yields an invalid placeholder
/// node, so the enclosing production can still finish building its
/// tree. The expression grammar itself is outside this front end.
pub fn parse_expr(cursor: &mut Cursor) -> (r: Option<AstExpr>)
    requires
        old(cursor).wf(),
    ensures
        final(cursor).wf(),
        final(cursor).same_session(*old(cursor)),
        final(cursor).measure() == old(cursor).measure(),
        final(cursor).lookahead_0 == old(cursor).lookahead_0,
        final(cursor).lookahead_1 == old(cursor).lookahead_1,
        r matches Some(e) && e.kind is Invalid && e.span.low == old(cursor).lookahead_0.token.span_low && e.span.high == e.span.low,
        r matches Some(e) ==> {
            &&& e.wf()
            &&& old(cursor).lookahead_0.token.span_low <= e.span.low
            &&& e.span.high <= final(cursor).lookahead_0.token.span_low
        },
    decreases old(cursor).measure(), 1int,
{
    let node_id = cursor.node_id();
    let la = cursor.lookahead_0();
    proof {
        assert(la.token.wf());
    }
    cursor.reporter().error(
        PARSE_ERR_EXPECTED_EXPR,
        la.token.span(),
        "an expression is expected here".to_owned(),
    );
    Some(AstExpr { node_id, span: Span::empty(la.token.span_low), kind: AstExprKind::Invalid })
}

impl AstExpr {
    pub fn parse(cursor: &mut Cursor) -> (r: Option<Self>)
        requires
            old(cursor).wf(),
        ensures
            final(cursor).wf(),
            final(cursor).same_session(*old(cursor)),
            final(cursor).measure() == old(cursor).measure(),
            final(cursor).lookahead_0 == old(cursor).lookahead_0,
            final(cursor).lookahead_1 == old(cursor).lookahead_1,
            r matches Some(e) && e.kind is Invalid && e.span.low == old(cursor).lookahead_0.token.span_low && e.span.high == e.span.low,
            r matches Some(e) ==> {
                &&& e.wf()
                &&& old(cursor).lookahead_0.token.span_low <= e.span.low
                &&& e.span.high <= final(cursor).lookahead_0.token.span_low
            },
        decreases old(cursor).measure(), 2int,
    {
        parse_expr(cursor)
    }
}

impl AstStringLiteral {
    /// Consumes one string-literal token.
    pub fn parse(cursor: &mut Cursor) -> (r: Option<Self>)
        requires
            old(cursor).wf(),
        ensures
            final(cursor).wf(),
            final(cursor).same_session(*old(cursor)),
            final(cursor).measure() <= old(cursor).measure(),
            r is Some <==> old(cursor).lookahead_0.token.kind
                matches TokenKind::StringLiteral { .. },
            r matches Some(s) ==> {
                &&& s.wf()
                &&& match old(cursor).lookahead_0.token.kind {
                    TokenKind::StringLiteral { len, content, unquoted_content, terminated } => {
                        &&& s.span.low == old(cursor).lookahead_0.token.span_low
                        &&& s.span.high as int == s.span.low as int + len
                        &&& s.content == content
                        &&& s.unquoted_content == unquoted_content
                        &&& s.terminated == terminated
                    },
                    _ => false,
                }
                &&& final(cursor).lookahead_0 == old(cursor).lookahead_1
                &&& final(cursor).measure() < old(cursor).measure()
                &&& old(cursor).lookahead_0.token.span_low <= s.span.low
                &&& s.span.high <= final(cursor).lookahead_0.token.span_low
            },
            r is None ==> final(cursor).lookahead_0 == old(cursor).lookahead_0 && final(cursor).lookahead_1 == old(cursor).lookahead_1 && final(cursor).measure() == old(cursor).measure(),
        decreases old(cursor).measure(), 2int,
    {
        let la = cursor.lookahead_0();
        match la.token.kind {
            TokenKind::StringLiteral { len, content, unquoted_content, terminated } => {
                let node_id = cursor.node_id();
                cursor.consume();
                Some(
                    AstStringLiteral {
                        node_id,
                        span: Span::new(la.token.span_low, la.token.span_low + len),
                        content,
                        unquoted_content,
                        terminated,
                    },
                )
            },
            _ => None,
        }
    }
}

/// Consumes a plain identifier token as an identifier node.
fn parse_symbol_identifier(cursor: &mut Cursor) -> (r: Option<AstIdentifier>)
    requires
        old(cursor).wf(),
    ensures
        final(cursor).wf(),
        final(cursor).same_session(*old(cursor)),
        final(cursor).measure() <= old(cursor).measure(),
        r is Some <==> old(cursor).lookahead_0.token.kind matches TokenKind::Id { .. },
        r matches Some(n) ==> {
            &&& n.wf()
            &&& match old(cursor).lookahead_0.token.kind {
                TokenKind::Id { len, symbol } => {
                    &&& n.span.low == old(cursor).lookahead_0.token.span_low
                    &&& n.span.high as int == n.span.low as int + len
                    &&& n.kind == AstIdentifierKind::Symbol(symbol)
                },
                _ => false,
            }
            &&& final(cursor).lookahead_0 == old(cursor).lookahead_1
            &&& final(cursor).measure() < old(cursor).measure()
            &&& old(cursor).lookahead_0.token.span_low <= n.span.low
            &&& n.span.high <= final(cursor).lookahead_0.token.span_low
        },
        r is None ==> final(cursor).lookahead_0 == old(cursor).lookahead_0 && final(cursor).lookahead_1 == old(cursor).lookahead_1 && final(cursor).measure() == old(cursor).measure(),
    decreases old(cursor).measure(), 8int,
{
    let node_id = cursor.node_id();
    let la = cursor.lookahead_0();
    match la.token.kind {
        TokenKind::Id { len, symbol } => {
            cursor.consume();
            Some(
                AstIdentifier {
                    node_id,
                    span: Span::new(la.token.span_low, la.token.span_low + len),
                    kind: AstIdentifierKind::Symbol(symbol),
                },
            )
        },
        _ => None,
    }
}

/// Parses a composed identifier `!ident("rule", <expr>,*)`: the literal
/// keyword `ident` right after `!`, then a parenthesized argument list
/// whose first argument is the format rule string. A trailing comma is
/// optional only on the last argument.
fn parse_composed_identifier(cursor: &mut Cursor) -> (r: Option<AstIdentifier>)
    requires
        old(cursor).wf(),
    ensures
        final(cursor).wf(),
        final(cursor).same_session(*old(cursor)),
        final(cursor).measure() <= old(cursor).measure(),
        !AstPuncKind::LogNot.spec_matches_token_kind(old(cursor).lookahead_0.token.kind) ==> (r
            is None && final(cursor).lookahead_0 == old(cursor).lookahead_0 && final(cursor).lookahead_1 == old(cursor).lookahead_1 && final(cursor).measure() == old(cursor).measure()),
        (AstPuncKind::LogNot.spec_matches_token_kind(old(cursor).lookahead_0.token.kind) && r
            is None) ==> final(cursor).measure() < old(cursor).measure(),
        r matches Some(n) ==> {
            &&& n.wf()
            &&& AstPuncKind::LogNot.spec_matches_token_kind(old(cursor).lookahead_0.token.kind)
            &&& n.span.low == old(cursor).lookahead_0.token.span_low
            &&& n.kind matches AstIdentifierKind::Composed(c) && {
                &&& c.punc_bang.kind == AstPuncKind::LogNot
                &&& c.punc_bang.span.low == old(cursor).lookahead_0.token.span_low
                &&& c.keyword_ident.symbol == old(cursor).keywords.ident
                &&& c.punc_open_paren.kind == AstPuncKind::OpenParen
                &&& c.punc_close_paren.kind == AstPuncKind::CloseParen
                &&& (c.punc_comma matches Some(p) ==> p.kind == AstPuncKind::Comma)
                &&& forall|i: int|
                    0 <= i < c.args@.len() ==> ((#[trigger] c.args@[i]).punc_comma matches Some(p)
                        ==> p.kind == AstPuncKind::Comma)
                &&& n.span.high == c.punc_close_paren.span.high
            }
            &&& final(cursor).measure() < old(cursor).measure()
            &&& old(cursor).lookahead_0.token.span_low <= n.span.low
            &&& n.span.high <= final(cursor).lookahead_0.token.span_low
        },
        r is None ==> (final(cursor).measure() < old(cursor).measure()
            || final(cursor).lookahead_0 == old(cursor).lookahead_0),
    decreases old(cursor).measure(), 10int,
{
    let node_id = cursor.node_id();
    let punc_bang = match parse_punc(cursor, AstPuncKind::LogNot) {
        Some(p) => p,
        None => {
            return None;
        },
    };
    let kw_ident = cursor.keywords.ident;
    let keyword_ident = match parse_keyword(cursor, kw_ident) {
        Some(k) => k,
        None => {
            return None;
        },
    };
    let punc_open_paren = match parse_punc(cursor, AstPuncKind::OpenParen) {
        Some(p) => p,
        None => {
            return None;
        },
    };
    let rule_str = match AstStringLiteral::parse(cursor) {
        Some(s) => s,
        None => {
            return None;
        },
    };
    let ghost mid = *cursor;
    let (punc_comma, args): (Option<AstPunc>, Vec<AstComposedIdentifierArg>) = if cursor
        .lookahead_0()
        .is_punc(AstPuncKind::CloseParen) {
        (None, Vec::new())
    } else {
        let punc_comma = match parse_punc(cursor, AstPuncKind::Comma) {
            Some(p) => p,
            None => {
                return None;
            },
        };
        let mut args: Vec<AstComposedIdentifierArg> = Vec::new();
        while cursor.has_token() && !cursor.lookahead_0().is_punc(AstPuncKind::CloseParen)
            invariant
                cursor.wf(),
                cursor.same_session(*old(cursor)),
                cursor.measure() < old(cursor).measure(),
                mid.lookahead_0.token.span_low <= cursor.lookahead_0.token.span_low,
                punc_comma.wf(),
                punc_comma.span.high <= cursor.lookahead_0.token.span_low,
                mid.lookahead_0.token.span_low <= punc_comma.span.high,
                punc_bang.span.low <= punc_comma.span.low,
                forall|i: int|
                    0 <= i < args@.len() ==> (#[trigger] args@[i]).wf()
                        && mid.lookahead_0.token.span_low <= args@[i].span.low
                        && args@[i].span.high <= cursor.lookahead_0.token.span_low && (
                        args@[i].punc_comma matches Some(p) ==> p.kind == AstPuncKind::Comma),
            decreases cursor.measure(),
        {
            let arg_node_id = cursor.node_id();
            let expr = match parse_expr(cursor) {
                Some(e) => e,
                None => {
                    return None;
                },
            };
            let punc_comma_arg = parse_punc(cursor, AstPuncKind::Comma);
            let span = match punc_comma_arg {
                Some(p) => Span::merge(expr.span, p.span),
                None => expr.span,
            };
            let is_punc_comma_exists = matches!(punc_comma_arg, Some(_));
            args.push(
                AstComposedIdentifierArg { node_id: arg_node_id, span, expr, punc_comma: punc_comma_arg },
            );
            if !is_punc_comma_exists {
                break ;
            }
        }
        (Some(punc_comma), args)
    };
    let punc_close_paren = match parse_punc(cursor, AstPuncKind::CloseParen) {
        Some(p) => p,
        None => {
            return None;
        },
    };
    let span = Span::merge(punc_bang.span, punc_close_paren.span);
    Some(
        AstIdentifier {
            node_id,
            span,
            kind: AstIdentifierKind::Composed(
                AstComposedIdentifier {
                    punc_bang,
                    keyword_ident,
                    punc_open_paren,
                    rule_str,
                    punc_comma,
                    args,
                    punc_close_paren,
                },
            ),
        },
    )
}

impl AstIdentifier {
    /// Parses a plain or composed identifier; anything else is reported
    /// and yields nothing.
    pub fn parse(cursor: &mut Cursor) -> (r: Option<Self>)
        requires
            old(cursor).wf(),
        ensures
            final(cursor).wf(),
            final(cursor).same_session(*old(cursor)),
            final(cursor).measure() <= old(cursor).measure(),
            old(cursor).lookahead_0.token.kind matches TokenKind::Id { .. } ==> r is Some,
            (!AstPuncKind::LogNot.spec_matches_token_kind(old(cursor).lookahead_0.token.kind)
                && !(old(cursor).lookahead_0.token.kind matches TokenKind::Id { .. })) ==> (r
                is None && final(cursor).lookahead_0 == old(cursor).lookahead_0 && final(cursor).lookahead_1 == old(cursor).lookahead_1 && final(cursor).measure() == old(cursor).measure()),
            r matches Some(n) ==> {
                &&& n.wf()
                &&& !(n.kind is Invalid)
                &&& n.span.low == old(cursor).lookahead_0.token.span_low
                &&& match old(cursor).lookahead_0.token.kind {
                    TokenKind::Id { len, symbol } => n.kind == AstIdentifierKind::Symbol(symbol)
                        && n.span.high as int == n.span.low as int + len,
                    _ => n.kind matches AstIdentifierKind::Composed(_),
                }
                &&& final(cursor).measure() < old(cursor).measure()
                &&& old(cursor).lookahead_0.token.span_low <= n.span.low
                &&& n.span.high <= final(cursor).lookahead_0.token.span_low
            },
            r is None ==> (final(cursor).measure() < old(cursor).measure()
                || final(cursor).lookahead_0 == old(cursor).lookahead_0),
        decreases old(cursor).measure(), 12int,
    {
        let la = cursor.lookahead_0();
        if la.is_punc(AstPuncKind::LogNot) {
            parse_composed_identifier(cursor)
        } else if la.is_id() {
            parse_symbol_identifier(cursor)
        } else {
            proof {
                assert(la.token.wf());
            }
            cursor.reporter().error(
                PARSE_ERR_EXPECTED_IDENTIFIER,
                la.token.span(),
                "an identifier is expected here".to_owned(),
            );
            None
        }
    }
}

impl AstAttributeItem {
    /// Parses one `@<ident> = "<string>"` attribute.
    pub fn parse(cursor: &mut Cursor) -> (r: Option<Self>)
        requires
            old(cursor).wf(),
        ensures
            final(cursor).wf(),
            final(cursor).same_session(*old(cursor)),
            final(cursor).measure() <= old(cursor).measure(),
            !AstPuncKind::At.spec_matches_token_kind(old(cursor).lookahead_0.token.kind) ==> (r is None && final(cursor).lookahead_0 == old(cursor).lookahead_0
                && final(cursor).lookahead_1 == old(cursor).lookahead_1
                && final(cursor).measure() == old(cursor).measure()),
            (AstPuncKind::At.spec_matches_token_kind(old(cursor).lookahead_0.token.kind) && r
                is None) ==> final(cursor).measure() < old(cursor).measure(),
            r matches Some(n) ==> {
                &&& n.wf()
                &&& AstPuncKind::At.spec_matches_token_kind(old(cursor).lookahead_0.token.kind)
                &&& n.span.low == old(cursor).lookahead_0.token.span_low
                &&& n.punc_at.kind == AstPuncKind::At
                &&& n.punc_at.span.low == old(cursor).lookahead_0.token.span_low
                &&& n.punc_assign.kind == AstPuncKind::Assign
                &&& n.span.high == n.expr.span.high
                &&& final(cursor).measure() < old(cursor).measure()
                &&& old(cursor).lookahead_0.token.span_low <= n.span.low
                &&& n.span.high <= final(cursor).lookahead_0.token.span_low
            },
            r is None ==> (final(cursor).measure() < old(cursor).measure()
                || final(cursor).lookahead_0 == old(cursor).lookahead_0),
        decreases old(cursor).measure(), 24int,
    {
        let node_id = cursor.node_id();
        let punc_at = match parse_punc(cursor, AstPuncKind::At) {
            Some(p) => p,
            None => {
                return None;
            },
        };
        let ident = match AstIdentifier::parse(cursor) {
            Some(i) => i,
            None => {
                return None;
            },
        };
        let punc_assign = match parse_punc(cursor, AstPuncKind::Assign) {
            Some(p) => p,
            None => {
                return None;
            },
        };
        let expr = match AstStringLiteral::parse(cursor) {
            Some(s) => s,
            None => {
                return None;
            },
        };
        let span = Span::merge(punc_at.span, expr.span);
        Some(AstAttributeItem { node_id, span, punc_at, ident, punc_assign, expr })
    }
}

impl AstAttribute {
    /// Parses zero or more attribute items. The node's span is the
    /// envelope of its items, or the empty span at the cursor when
    /// there is none.
    pub fn parse(cursor: &mut Cursor) -> (r: Option<Self>)
        requires
            old(cursor).wf(),
        ensures
            final(cursor).wf(),
            final(cursor).same_session(*old(cursor)),
            final(cursor).measure() <= old(cursor).measure(),
            !AstPuncKind::At.spec_matches_token_kind(old(cursor).lookahead_0.token.kind) ==> (r
                matches Some(a) && a.items@.len() == 0 && final(cursor).lookahead_0 == old(cursor).lookahead_0 && final(cursor).lookahead_1 == old(cursor).lookahead_1 && final(cursor).measure() == old(cursor).measure()),
            r matches Some(n) ==> {
                &&& n.wf()
                &&& n.span.low == old(cursor).lookahead_0.token.span_low
                &&& forall|i: int|
                    0 <= i < n.items@.len() ==> (#[trigger] n.items@[i]).punc_at.kind
                        == AstPuncKind::At && n.items@[i].punc_assign.kind == AstPuncKind::Assign
                &&& (n.items@.len() > 0 ==> AstPuncKind::At.spec_matches_token_kind(
                    old(cursor).lookahead_0.token.kind,
                ))
                &&& old(cursor).lookahead_0.token.span_low <= n.span.low
                &&& n.span.high <= final(cursor).lookahead_0.token.span_low
            },
            r is None ==> (final(cursor).measure() < old(cursor).measure()
                || final(cursor).lookahead_0 == old(cursor).lookahead_0),
            (r is Some && AstPuncKind::At.spec_matches_token_kind(
                old(cursor).lookahead_0.token.kind,
            )) ==> final(cursor).measure() < old(cursor).measure(),
            (r is None && AstPuncKind::At.spec_matches_token_kind(
                old(cursor).lookahead_0.token.kind,
            )) ==> final(cursor).measure() < old(cursor).measure(),
        decreases old(cursor).measure(), 26int,
    {
        let node_id = cursor.node_id();
        let start_low = cursor.lookahead_0().token.span_low;
        let mut span = Span::empty(start_low);
        let mut items: Vec<AstAttributeItem> = Vec::new();
        while cursor.lookahead_0().is_punc(AstPuncKind::At)
            invariant
                cursor.wf(),
                cursor.same_session(*old(cursor)),
                cursor.measure() <= old(cursor).measure(),
                cursor.measure() < old(cursor).measure() || cursor.lookahead_0 == old(cursor).lookahead_0,
                items@.len() > 0 ==> cursor.measure() < old(cursor).measure(),
                AstPuncKind::At.spec_matches_token_kind(old(cursor).lookahead_0.token.kind) ==> (
                items@.len() > 0 || cursor.lookahead_0 == old(cursor).lookahead_0),
                items@.len() == 0 ==> (cursor.lookahead_0 == old(cursor).lookahead_0
                    && cursor.lookahead_1 == old(cursor).lookahead_1 && cursor.measure() == old(cursor).measure()),
                items@.len() > 0 ==> AstPuncKind::At.spec_matches_token_kind(
                    old(cursor).lookahead_0.token.kind,
                ),
                start_low == old(cursor).lookahead_0.token.span_low,
                span.wf(),
                span.low == start_low,
                start_low <= cursor.lookahead_0.token.span_low,
                span.high <= cursor.lookahead_0.token.span_low,
                forall|i: int|
                    0 <= i < items@.len() ==> (#[trigger] items@[i]).wf() && span_in(
                        span,
                        items@[i].span,
                    ) && items@[i].punc_at.kind == AstPuncKind::At && items@[i].punc_assign.kind
                        == AstPuncKind::Assign,
            decreases cursor.measure(),
        {
            let item = match AstAttributeItem::parse(cursor) {
                Some(i) => i,
                None => {
                    return None;
                },
            };
            span = Span::merge(span, item.span);
            items.push(item);
        }
        Some(AstAttribute { node_id, span, items })
    }
}

/// Parses one primary predicate: a flag string, a parenthesized
/// predicate, or a `not` predicate. Anything else is reported and
/// yields an invalid placeholder, so the enclosing `if` can finish.
fn parse_single_predicate(cursor: &mut Cursor) -> (r: Option<AstCompTimeIfPredicateExpr>)
    requires
        old(cursor).wf(),
    ensures
        final(cursor).wf(),
        final(cursor).same_session(*old(cursor)),
        final(cursor).measure() <= old(cursor).measure(),
        old(cursor).lookahead_0.token.kind matches TokenKind::StringLiteral { .. } ==> (r
            matches Some(e) && e.kind matches AstCompTimeIfPredicateExprKind::Single(sg)
            && sg.kind matches AstCompTimeIfPredicateExprSingleKind::Flag(_)),
        (!(old(cursor).lookahead_0.token.kind matches TokenKind::StringLiteral { .. })
            && !AstPuncKind::OpenParen.spec_matches_token_kind(old(cursor).lookahead_0.token.kind)
            && !at_keyword(old(cursor).lookahead_0.token, old(cursor).keywords.kw_not)) ==> (r
            matches Some(e) && e.kind is Invalid && e.span.low == old(cursor).lookahead_0.token.span_low && e.span.high == e.span.low && final(cursor).lookahead_0
            == old(cursor).lookahead_0 && final(cursor).lookahead_1 == old(cursor).lookahead_1
            && final(cursor).measure() == old(cursor).measure()),
        r matches Some(n) ==> {
            &&& n.wf()
            &&& n.span.low == old(cursor).lookahead_0.token.span_low
            &&& !(n.kind matches AstCompTimeIfPredicateExprKind::And(_))
            &&& !(n.kind matches AstCompTimeIfPredicateExprKind::Or(_))
            &&& old(cursor).lookahead_0.token.span_low <= n.span.low
            &&& n.span.high <= final(cursor).lookahead_0.token.span_low
        },
    decreases old(cursor).measure(), 18int,
{
    let la = cursor.lookahead_0();
    if la.is_string_literal() {
        let node_id = cursor.node_id();
        let single_id = cursor.node_id();
        let flag = match AstCompTimeIfPredicateExprFlag::parse(cursor) {
            Some(f) => f,
            None => {
                return None;
            },
        };
        let span = flag.span;
        let single = AstCompTimeIfPredicateExprSingle {
            node_id: single_id,
            span,
            kind: AstCompTimeIfPredicateExprSingleKind::Flag(flag),
        };
        Some(
            AstCompTimeIfPredicateExpr {
                node_id,
                span,
                kind: AstCompTimeIfPredicateExprKind::Single(single),
            },
        )
    } else if la.is_punc(AstPuncKind::OpenParen) {
        let node_id = cursor.node_id();
        let single_id = cursor.node_id();
        let paren = match AstCompTimeIfPredicateExprParen::parse(cursor) {
            Some(p) => p,
            None => {
                return None;
            },
        };
        let span = paren.span;
        let single = AstCompTimeIfPredicateExprSingle {
            node_id: single_id,
            span,
            kind: AstCompTimeIfPredicateExprSingleKind::Paren(paren),
        };
        Some(
            AstCompTimeIfPredicateExpr {
                node_id,
                span,
                kind: AstCompTimeIfPredicateExprKind::Single(single),
            },
        )
    } else if la.is_keyword(cursor.keywords.kw_not) {
        let node_id = cursor.node_id();
        let single_id = cursor.node_id();
        let not = match AstCompTimeIfPredicateExprNot::parse(cursor) {
            Some(n) => n,
            None => {
                return None;
            },
        };
        let span = not.span;
        let single = AstCompTimeIfPredicateExprSingle {
            node_id: single_id,
            span,
            kind: AstCompTimeIfPredicateExprSingleKind::Not(not),
        };
        Some(
            AstCompTimeIfPredicateExpr {
                node_id,
                span,
                kind: AstCompTimeIfPredicateExprKind::Single(single),
            },
        )
    } else {
        proof {
            assert(la.token.wf());
        }
        cursor.reporter().error(
            PARSE_ERR_INVALID_COMPTIME,
            la.token.span(),
            "an `if` predicate must be a string literal, a parenthesized expression, or a `not` expression".to_owned(),
        );
        let node_id = cursor.node_id();
        Some(
            AstCompTimeIfPredicateExpr {
                node_id,
                span: Span::empty(la.token.span_low),
                kind: AstCompTimeIfPredicateExprKind::Invalid,
            },
        )
    }
}

impl AstCompTimeIfPredicateExprFlag {
    /// Parses a flag predicate: a string literal naming a compile flag.
    pub fn parse(cursor: &mut Cursor) -> (r: Option<Self>)
        requires
            old(cursor).wf(),
        ensures
            final(cursor).wf(),
            final(cursor).same_session(*old(cursor)),
            final(cursor).measure() <= old(cursor).measure(),
            r is Some <==> old(cursor).lookahead_0.token.kind
                matches TokenKind::StringLiteral { .. },
            r matches Some(n) ==> {
                &&& n.wf()
                &&& n.span.low == old(cursor).lookahead_0.token.span_low
                &&& n.flag.span == n.span
                &&& match old(cursor).lookahead_0.token.kind {
                    TokenKind::StringLiteral { len, content, unquoted_content, terminated } => {
                        &&& n.span.high as int == n.span.low as int + len
                        &&& n.flag.content == content
                        &&& n.flag.unquoted_content == unquoted_content
                        &&& n.flag.terminated == terminated
                    },
                    _ => false,
                }
                &&& final(cursor).measure() < old(cursor).measure()
                &&& old(cursor).lookahead_0.token.span_low <= n.span.low
                &&& n.span.high <= final(cursor).lookahead_0.token.span_low
            },
        decreases old(cursor).measure(), 14int,
    {
        let node_id = cursor.node_id();
        let flag = match AstStringLiteral::parse(cursor) {
            Some(f) => f,
            None => {
                return None;
            },
        };
        Some(AstCompTimeIfPredicateExprFlag { node_id, span: flag.span, flag })
    }
}

impl AstCompTimeIfPredicateExprParen {
    /// Parses `( <predicate> )`. A missing closing parenthesis is
    /// reported and marked by a placeholder whose span low is the
    /// sentinel value.
    pub fn parse(cursor: &mut Cursor) -> (r: Option<Self>)
        requires
            old(cursor).wf(),
        ensures
            final(cursor).wf(),
            final(cursor).same_session(*old(cursor)),
            final(cursor).measure() <= old(cursor).measure(),
            !AstPuncKind::OpenParen.spec_matches_token_kind(old(cursor).lookahead_0.token.kind)
                ==> (r is None && final(cursor).lookahead_0 == old(cursor).lookahead_0
                && final(cursor).lookahead_1 == old(cursor).lookahead_1 && final(cursor).measure()
                == old(cursor).measure()),
            (AstPuncKind::OpenParen.spec_matches_token_kind(old(cursor).lookahead_0.token.kind)
                && r is None) ==> final(cursor).measure() < old(cursor).measure(),
            r matches Some(n) ==> {
                &&& n.wf()
                &&& AstPuncKind::OpenParen.spec_matches_token_kind(
                    old(cursor).lookahead_0.token.kind,
                )
                &&& n.span.low == old(cursor).lookahead_0.token.span_low
                &&& n.punc_open_paren.kind == AstPuncKind::OpenParen
                &&& n.punc_open_paren.span.low == old(cursor).lookahead_0.token.span_low
                &&& n.punc_close_paren.kind == AstPuncKind::CloseParen
                &&& final(cursor).measure() < old(cursor).measure()
                &&& old(cursor).lookahead_0.token.span_low <= n.span.low
                &&& n.span.high <= final(cursor).lookahead_0.token.span_low
            },
        decreases old(cursor).measure(), 14int,
    {
        let node_id = cursor.node_id();
        let punc_open_paren = match parse_punc(cursor, AstPuncKind::OpenParen) {
            Some(p) => p,
            None => {
                return None;
            },
        };
        let expr = match AstCompTimeIfPredicateExpr::parse(cursor) {
            Some(e) => e,
            None => {
                return None;
            },
        };
        let (punc_close_paren, span): (AstPunc, Span) = match parse_punc(
            cursor,
            AstPuncKind::CloseParen,
        ) {
            Some(p) => (p, Span::merge(punc_open_paren.span, p.span)),
            None => {
                let la = cursor.lookahead_0();
                proof {
                    assert(la.token.wf());
                }
                cursor.reporter().error(
                    PARSE_ERR_INVALID_COMPTIME,
                    la.token.span(),
                    "`)` is expected".to_owned(),
                );
                (
                    AstPunc { span: Span::empty(u32::MAX), kind: AstPuncKind::CloseParen },
                    Span::merge(punc_open_paren.span, expr.span),
                )
            },
        };
        Some(
            AstCompTimeIfPredicateExprParen {
                node_id,
                span,
                punc_open_paren,
                expr: Box::new(expr),
                punc_close_paren,
            },
        )
    }
}

impl AstCompTimeIfPredicateExprNot {
    /// Parses `not <predicate>`.
    pub fn parse(cursor: &mut Cursor) -> (r: Option<Self>)
        requires
            old(cursor).wf(),
        ensures
            final(cursor).wf(),
            final(cursor).same_session(*old(cursor)),
            final(cursor).measure() <= old(cursor).measure(),
            !at_keyword(old(cursor).lookahead_0.token, old(cursor).keywords.kw_not) ==> (r
                is None && final(cursor).lookahead_0 == old(cursor).lookahead_0 && final(cursor).lookahead_1 == old(cursor).lookahead_1 && final(cursor).measure() == old(cursor).measure()),
            (at_keyword(old(cursor).lookahead_0.token, old(cursor).keywords.kw_not) && r
                is None) ==> final(cursor).measure() < old(cursor).measure(),
            r matches Some(n) ==> {
                &&& n.wf()
                &&& at_keyword(old(cursor).lookahead_0.token, old(cursor).keywords.kw_not)
                &&& n.span.low == old(cursor).lookahead_0.token.span_low
                &&& n.keyword_not.symbol == old(cursor).keywords.kw_not
                &&& n.keyword_not.span.low == old(cursor).lookahead_0.token.span_low
                &&& final(cursor).measure() < old(cursor).measure()
                &&& old(cursor).lookahead_0.token.span_low <= n.span.low
                &&& n.span.high <= final(cursor).lookahead_0.token.span_low
            },
        decreases old(cursor).measure(), 14int,
    {
        let node_id = cursor.node_id();
        let kw_not = cursor.keywords.kw_not;
        let keyword_not = match parse_keyword(cursor, kw_not) {
            Some(k) => k,
            None => {
                return None;
            },
        };
        let expr = match AstCompTimeIfPredicateExpr::parse(cursor) {
            Some(e) => e,
            None => {
                return None;
            },
        };
        let span = Span::merge(keyword_not.span, expr.span);
        Some(AstCompTimeIfPredicateExprNot { node_id, span, keyword_not, expr: Box::new(expr) })
    }
}

impl AstCompTimeIfPredicateExpr {
    /// Parses a predicate over compile flags: primaries joined by the
    /// infix keywords `and` and `or`, both left-associative at one
    /// level of binding (flat precedence).
    pub fn parse(cursor: &mut Cursor) -> (r: Option<Self>)
        requires
            old(cursor).wf(),
        ensures
            final(cursor).wf(),
            final(cursor).same_session(*old(cursor)),
            final(cursor).measure() <= old(cursor).measure(),
            (!(old(cursor).lookahead_0.token.kind matches TokenKind::StringLiteral { .. })
                && !AstPuncKind::OpenParen.spec_matches_token_kind(
                old(cursor).lookahead_0.token.kind,
            ) && !at_keyword(old(cursor).lookahead_0.token, old(cursor).keywords.kw_not)
                && !at_keyword(old(cursor).lookahead_0.token, old(cursor).keywords.kw_and)
                && !at_keyword(old(cursor).lookahead_0.token, old(cursor).keywords.kw_or)) ==> (r
                matches Some(e) && e.kind is Invalid && final(cursor).lookahead_0 == old(cursor).lookahead_0),
            r matches Some(n) ==> {
                &&& n.wf()
                &&& n.span.low == old(cursor).lookahead_0.token.span_low
                &&& match n.kind {
                    AstCompTimeIfPredicateExprKind::And(a) => a.keyword_and.symbol == old(cursor).keywords.kw_and,
                    AstCompTimeIfPredicateExprKind::Or(o) => o.keyword_or.symbol == old(cursor).keywords.kw_or,
                    _ => true,
                }
                &&& old(cursor).lookahead_0.token.span_low <= n.span.low
                &&& n.span.high <= final(cursor).lookahead_0.token.span_low
            },
        decreases old(cursor).measure(), 20int,
    {
        let first = match parse_single_predicate(cursor) {
            Some(e) => e,
            None => {
                return None;
            },
        };
        let mut expr = first;
        loop
            invariant
                cursor.wf(),
                cursor.same_session(*old(cursor)),
                cursor.measure() <= old(cursor).measure(),
                expr.wf(),
                expr.span.low == old(cursor).lookahead_0.token.span_low,
                old(cursor).lookahead_0.token.span_low <= expr.span.low,
                expr.span.high <= cursor.lookahead_0.token.span_low,
                match expr.kind {
                    AstCompTimeIfPredicateExprKind::And(a) => a.keyword_and.symbol == old(cursor).keywords.kw_and,
                    AstCompTimeIfPredicateExprKind::Or(o) => o.keyword_or.symbol == old(cursor).keywords.kw_or,
                    _ => true,
                },
                (!(old(cursor).lookahead_0.token.kind matches TokenKind::StringLiteral { .. })
                    && !AstPuncKind::OpenParen.spec_matches_token_kind(
                    old(cursor).lookahead_0.token.kind,
                ) && !at_keyword(old(cursor).lookahead_0.token, old(cursor).keywords.kw_not)
                    && !at_keyword(old(cursor).lookahead_0.token, old(cursor).keywords.kw_and)
                    && !at_keyword(old(cursor).lookahead_0.token, old(cursor).keywords.kw_or))
                    ==> (expr.kind is Invalid && cursor.lookahead_0 == old(cursor).lookahead_0
                    && cursor.lookahead_1 == old(cursor).lookahead_1 && cursor.measure() == old(cursor).measure()),
            decreases cursor.measure(),
        {
            let la = cursor.lookahead_0();
            if la.is_keyword(cursor.keywords.kw_and) {
                let node_id = cursor.node_id();
                let kw_and = cursor.keywords.kw_and;
                let keyword_and = match parse_keyword(cursor, kw_and) {
                    Some(k) => k,
                    None => {
                        return None;
                    },
                };
                let rhs = match parse_single_predicate(cursor) {
                    Some(e) => e,
                    None => {
                        return None;
                    },
                };
                let span = Span::merge(expr.span, Span::merge(keyword_and.span, rhs.span));
                expr = AstCompTimeIfPredicateExpr {
                    node_id,
                    span,
                    kind: AstCompTimeIfPredicateExprKind::And(
                        AstCompTimeIfPredicateExprAnd {
                            node_id,
                            span,
                            lhs: Box::new(expr),
                            keyword_and,
                            rhs: Box::new(rhs),
                        },
                    ),
                };
            } else if la.is_keyword(cursor.keywords.kw_or) {
                let node_id = cursor.node_id();
                let kw_or = cursor.keywords.kw_or;
                let keyword_or = match parse_keyword(cursor, kw_or) {
                    Some(k) => k,
                    None => {
                        return None;
                    },
                };
                let rhs = match parse_single_predicate(cursor) {
                    Some(e) => e,
                    None => {
                        return None;
                    },
                };
                let span = Span::merge(expr.span, Span::merge(keyword_or.span, rhs.span));
                expr = AstCompTimeIfPredicateExpr {
                    node_id,
                    span,
                    kind: AstCompTimeIfPredicateExprKind::Or(
                        AstCompTimeIfPredicateExprOr {
                            node_id,
                            span,
                            lhs: Box::new(expr),
                            keyword_or,
                            rhs: Box::new(rhs),
                        },
                    ),
                };
            } else {
                break ;
            }
        }
        Some(expr)
    }
}

impl AstTypeName {
    /// Parses a type name: an identifier.
    pub fn parse(cursor: &mut Cursor) -> (r: Option<Self>)
        requires
            old(cursor).wf(),
        ensures
            final(cursor).wf(),
            final(cursor).same_session(*old(cursor)),
            final(cursor).measure() <= old(cursor).measure(),
            old(cursor).lookahead_0.token.kind matches TokenKind::Id { .. } ==> r is Some,
            r matches Some(n) ==> {
                &&& n.wf()
                &&& n.span.low == old(cursor).lookahead_0.token.span_low
                &&& n.span == n.ident.span
                &&& final(cursor).measure() < old(cursor).measure()
                &&& old(cursor).lookahead_0.token.span_low <= n.span.low
                &&& n.span.high <= final(cursor).lookahead_0.token.span_low
            },
            r is None ==> (final(cursor).measure() < old(cursor).measure()
                || final(cursor).lookahead_0 == old(cursor).lookahead_0),
        decreases old(cursor).measure(), 13int,
    {
        let node_id = cursor.node_id();
        let ident = match AstIdentifier::parse(cursor) {
            Some(i) => i,
            None => {
                return None;
            },
        };
        let span = ident.span;
        Some(AstTypeName { node_id, span, ident })
    }
}

impl AstInput {
    /// Parses `in <ident> : <type-name> ;`, with any attributes in
    /// front of it.
    pub fn parse(cursor: &mut Cursor) -> (r: Option<Self>)
        requires
            old(cursor).wf(),
        ensures
            final(cursor).wf(),
            final(cursor).same_session(*old(cursor)),
            final(cursor).measure() <= old(cursor).measure(),
            (!AstPuncKind::At.spec_matches_token_kind(old(cursor).lookahead_0.token.kind)
                && !at_keyword(old(cursor).lookahead_0.token, old(cursor).keywords.kw_in)) ==> (r
                is None && final(cursor).lookahead_0 == old(cursor).lookahead_0 && final(cursor).lookahead_1 == old(cursor).lookahead_1 && final(cursor).measure() == old(cursor).measure()),
            ((AstPuncKind::At.spec_matches_token_kind(old(cursor).lookahead_0.token.kind)
                || at_keyword(old(cursor).lookahead_0.token, old(cursor).keywords.kw_in)) && r
                is None) ==> final(cursor).measure() < old(cursor).measure(),
            r matches Some(n) ==> {
                &&& n.wf()
                &&& n.span.low == old(cursor).lookahead_0.token.span_low
                &&& n.keyword_in.symbol == old(cursor).keywords.kw_in
                &&& n.punc_colon.kind == AstPuncKind::Colon
                &&& n.punc_semicolon.kind == AstPuncKind::Semicolon
                &&& n.span.high == n.punc_semicolon.span.high
                &&& final(cursor).measure() < old(cursor).measure()
                &&& old(cursor).lookahead_0.token.span_low <= n.span.low
                &&& n.span.high <= final(cursor).lookahead_0.token.span_low
            },
            r is None ==> (final(cursor).measure() < old(cursor).measure()
                || final(cursor).lookahead_0 == old(cursor).lookahead_0),
        decreases old(cursor).measure(), 27int,
    {
        let node_id = cursor.node_id();
        let mut attributes: Vec<AstAttribute> = Vec::new();
        let ghost start_low = cursor.lookahead_0.token.span_low;
        if cursor.lookahead_0().is_punc(AstPuncKind::At) {
            let attribute = match AstAttribute::parse(cursor) {
                Some(a) => a,
                None => {
                    return None;
                },
            };
            attributes.push(attribute);
        }
        let kw_in = cursor.keywords.kw_in;
        let keyword_in = match parse_keyword(cursor, kw_in) {
            Some(k) => k,
            None => {
                return None;
            },
        };
        let ident = match AstIdentifier::parse(cursor) {
            Some(i) => i,
            None => {
                return None;
            },
        };
        let punc_colon = match parse_punc(cursor, AstPuncKind::Colon) {
            Some(p) => p,
            None => {
                return None;
            },
        };
        let ty_name = match AstTypeName::parse(cursor) {
            Some(t) => t,
            None => {
                return None;
            },
        };
        let punc_semicolon = match parse_punc(cursor, AstPuncKind::Semicolon) {
            Some(p) => p,
            None => {
                return None;
            },
        };
        let span = if attributes.len() > 0 {
            Span::merge(attributes[0].span, punc_semicolon.span)
        } else {
            Span::merge(keyword_in.span, punc_semicolon.span)
        };
        Some(
            AstInput {
                node_id,
                span,
                attributes,
                keyword_in,
                ident,
                punc_colon,
                ty_name,
                punc_semicolon,
            },
        )
    }
}

impl AstCompTimeBlock<AstTopLevel> {
    /// Parses `{ <top-level>* }`.
    pub fn parse(cursor: &mut Cursor) -> (r: Option<Self>)
        requires
            old(cursor).wf(),
        ensures
            final(cursor).wf(),
            final(cursor).same_session(*old(cursor)),
            final(cursor).measure() <= old(cursor).measure(),
            !AstPuncKind::OpenBrace.spec_matches_token_kind(old(cursor).lookahead_0.token.kind)
                ==> (r is None && final(cursor).lookahead_0 == old(cursor).lookahead_0
                && final(cursor).lookahead_1 == old(cursor).lookahead_1 && final(cursor).measure()
                == old(cursor).measure()),
            (AstPuncKind::OpenBrace.spec_matches_token_kind(old(cursor).lookahead_0.token.kind)
                && r is None) ==> final(cursor).measure() < old(cursor).measure(),
            r matches Some(n) ==> {
                &&& n.wf()
                &&& AstPuncKind::OpenBrace.spec_matches_token_kind(
                    old(cursor).lookahead_0.token.kind,
                )
                &&& n.span.low == old(cursor).lookahead_0.token.span_low
                &&& n.punc_open_brace.kind == AstPuncKind::OpenBrace
                &&& n.punc_open_brace.span.low == old(cursor).lookahead_0.token.span_low
                &&& n.punc_close_brace.kind == AstPuncKind::CloseBrace
                &&& n.span.high == n.punc_close_brace.span.high
                &&& final(cursor).measure() < old(cursor).measure()
                &&& old(cursor).lookahead_0.token.span_low <= n.span.low
                &&& n.span.high <= final(cursor).lookahead_0.token.span_low
            },
        decreases old(cursor).measure(), 22int,
    {
        let node_id = cursor.node_id();
        let punc_open_brace = match parse_punc(cursor, AstPuncKind::OpenBrace) {
            Some(p) => p,
            None => {
                return None;
            },
        };
        let mut items: Vec<AstTopLevel> = Vec::new();
        while cursor.has_token() && !cursor.lookahead_0().is_punc(AstPuncKind::CloseBrace)
            invariant
                cursor.wf(),
                cursor.same_session(*old(cursor)),
                cursor.measure() < old(cursor).measure(),
                AstPuncKind::OpenBrace.spec_matches_token_kind(
                    old(cursor).lookahead_0.token.kind,
                ),
                punc_open_brace.wf(),
                punc_open_brace.span.high <= cursor.lookahead_0.token.span_low,
                old(cursor).lookahead_0.token.span_low <= punc_open_brace.span.low,
                forall|i: int|
                    0 <= i < items@.len() ==> (#[trigger] items@[i]).wf()
                        && punc_open_brace.span.high <= items@[i].span.low
                        && items@[i].span.high <= cursor.lookahead_0.token.span_low,
            decreases cursor.measure(),
        {
            let item = match AstTopLevel::parse(cursor) {
                Some(i) => i,
                None => {
                    return None;
                },
            };
            items.push(item);
        }
        let punc_close_brace = match parse_punc(cursor, AstPuncKind::CloseBrace) {
            Some(p) => p,
            None => {
                return None;
            },
        };
        let span = Span::merge(punc_open_brace.span, punc_close_brace.span);
        Some(AstCompTimeBlock { node_id, span, punc_open_brace, items, punc_close_brace })
    }
}

impl AstCompTimeIfPart<AstTopLevel> {
    /// Parses `if <predicate> { ... }`.
    pub fn parse(cursor: &mut Cursor) -> (r: Option<Self>)
        requires
            old(cursor).wf(),
        ensures
            final(cursor).wf(),
            final(cursor).same_session(*old(cursor)),
            final(cursor).measure() <= old(cursor).measure(),
            !at_keyword(old(cursor).lookahead_0.token, old(cursor).keywords.kw_if) ==> (r
                is None && final(cursor).lookahead_0 == old(cursor).lookahead_0
                && final(cursor).lookahead_1 == old(cursor).lookahead_1
                && final(cursor).measure() == old(cursor).measure()),
            (at_keyword(old(cursor).lookahead_0.token, old(cursor).keywords.kw_if) && r
                is None) ==> final(cursor).measure() < old(cursor).measure(),
            (at_keyword(old(cursor).lookahead_0.token, old(cursor).keywords.kw_if) && r
                is None) ==> final(cursor).measure() < old(cursor).measure(),
            r matches Some(n) ==> {
                &&& n.wf()
                &&& at_keyword(old(cursor).lookahead_0.token, old(cursor).keywords.kw_if)
                &&& n.span.low == old(cursor).lookahead_0.token.span_low
                &&& n.keyword_if.symbol == old(cursor).keywords.kw_if
                &&& n.keyword_if.span.low == old(cursor).lookahead_0.token.span_low
                &&& n.span.high == n.block.span.high
                &&& final(cursor).measure() < old(cursor).measure()
                &&& old(cursor).lookahead_0.token.span_low <= n.span.low
                &&& n.span.high <= final(cursor).lookahead_0.token.span_low
            },
            r is None ==> (final(cursor).measure() < old(cursor).measure()
                || final(cursor).lookahead_0 == old(cursor).lookahead_0),
        decreases old(cursor).measure(), 24int,
    {
        let node_id = cursor.node_id();
        let kw_if = cursor.keywords.kw_if;
        let keyword_if = match parse_keyword(cursor, kw_if) {
            Some(k) => k,
            None => {
                return None;
            },
        };
        let predicate = match AstCompTimeIfPredicateExpr::parse(cursor) {
            Some(p) => p,
            None => {
                return None;
            },
        };
        let block = match AstCompTimeBlock::<AstTopLevel>::parse(cursor) {
            Some(b) => b,
            None => {
                return None;
            },
        };
        let span = Span::merge(keyword_if.span, block.span);
        Some(AstCompTimeIfPart { node_id, span, keyword_if, predicate, block })
    }
}

impl AstCompTimeElseIfPart<AstTopLevel> {
    /// Parses `else if <predicate> { ... }`.
    pub fn parse(cursor: &mut Cursor) -> (r: Option<Self>)
        requires
            old(cursor).wf(),
        ensures
            final(cursor).wf(),
            final(cursor).same_session(*old(cursor)),
            final(cursor).measure() <= old(cursor).measure(),
            !at_keyword(old(cursor).lookahead_0.token, old(cursor).keywords.kw_else) ==> (r
                is None && final(cursor).lookahead_0 == old(cursor).lookahead_0
                && final(cursor).lookahead_1 == old(cursor).lookahead_1
                && final(cursor).measure() == old(cursor).measure()),
            (at_keyword(old(cursor).lookahead_0.token, old(cursor).keywords.kw_else) && r
                is None) ==> final(cursor).measure() < old(cursor).measure(),
            (at_keyword(old(cursor).lookahead_0.token, old(cursor).keywords.kw_else) && r
                is None) ==> final(cursor).measure() < old(cursor).measure(),
            r matches Some(n) ==> {
                &&& n.wf()
                &&& at_keyword(old(cursor).lookahead_0.token, old(cursor).keywords.kw_else)
                &&& n.span.low == old(cursor).lookahead_0.token.span_low
                &&& n.keyword_else.symbol == old(cursor).keywords.kw_else
                &&& n.keyword_if.symbol == old(cursor).keywords.kw_if
                &&& n.keyword_else.span.low == old(cursor).lookahead_0.token.span_low
                &&& n.span.high == n.block.span.high
                &&& final(cursor).measure() < old(cursor).measure()
                &&& old(cursor).lookahead_0.token.span_low <= n.span.low
                &&& n.span.high <= final(cursor).lookahead_0.token.span_low
            },
            r is None ==> (final(cursor).measure() < old(cursor).measure()
                || final(cursor).lookahead_0 == old(cursor).lookahead_0),
        decreases old(cursor).measure(), 24int,
    {
        let node_id = cursor.node_id();
        let kw_else = cursor.keywords.kw_else;
        let keyword_else = match parse_keyword(cursor, kw_else) {
            Some(k) => k,
            None => {
                return None;
            },
        };
        let kw_if = cursor.keywords.kw_if;
        let keyword_if = match parse_keyword(cursor, kw_if) {
            Some(k) => k,
            None => {
                return None;
            },
        };
        let predicate = match AstCompTimeIfPredicateExpr::parse(cursor) {
            Some(p) => p,
            None => {
                return None;
            },
        };
        let block = match AstCompTimeBlock::<AstTopLevel>::parse(cursor) {
            Some(b) => b,
            None => {
                return None;
            },
        };
        let span = Span::merge(keyword_else.span, block.span);
        Some(AstCompTimeElseIfPart { node_id, span, keyword_else, keyword_if, predicate, block })
    }
}

impl AstCompTimeElsePart<AstTopLevel> {
    /// Parses a trailing `else { ... }`.
    pub fn parse(cursor: &mut Cursor) -> (r: Option<Self>)
        requires
            old(cursor).wf(),
        ensures
            final(cursor).wf(),
            final(cursor).same_session(*old(cursor)),
            final(cursor).measure() <= old(cursor).measure(),
            !at_keyword(old(cursor).lookahead_0.token, old(cursor).keywords.kw_else) ==> (r
                is None && final(cursor).lookahead_0 == old(cursor).lookahead_0
                && final(cursor).lookahead_1 == old(cursor).lookahead_1
                && final(cursor).measure() == old(cursor).measure()),
            r matches Some(n) ==> {
                &&& n.wf()
                &&& at_keyword(old(cursor).lookahead_0.token, old(cursor).keywords.kw_else)
                &&& n.span.low == old(cursor).lookahead_0.token.span_low
                &&& n.keyword_else.symbol == old(cursor).keywords.kw_else
                &&& n.keyword_else.span.low == old(cursor).lookahead_0.token.span_low
                &&& n.span.high == n.block.span.high
                &&& final(cursor).measure() < old(cursor).measure()
                &&& old(cursor).lookahead_0.token.span_low <= n.span.low
                &&& n.span.high <= final(cursor).lookahead_0.token.span_low
            },
            r is None ==> (final(cursor).measure() < old(cursor).measure()
                || final(cursor).lookahead_0 == old(cursor).lookahead_0),
        decreases old(cursor).measure(), 24int,
    {
        let node_id = cursor.node_id();
        let kw_else = cursor.keywords.kw_else;
        let keyword_else = match parse_keyword(cursor, kw_else) {
            Some(k) => k,
            None => {
                return None;
            },
        };
        let block = match AstCompTimeBlock::<AstTopLevel>::parse(cursor) {
            Some(b) => b,
            None => {
                return None;
            },
        };
        let span = Span::merge(keyword_else.span, block.span);
        Some(AstCompTimeElsePart { node_id, span, keyword_else, block })
    }
}

impl AstCompTimeIf<AstTopLevel> {
    /// Parses one mandatory if-part, any number of `else if` parts
    /// (told apart from a trailing `else` by one extra token of
    /// lookahead), and an optional `else` part.
    pub fn parse(cursor: &mut Cursor) -> (r: Option<Self>)
        requires
            old(cursor).wf(),
        ensures
            final(cursor).wf(),
            final(cursor).same_session(*old(cursor)),
            final(cursor).measure() <= old(cursor).measure(),
            !at_keyword(old(cursor).lookahead_0.token, old(cursor).keywords.kw_if) ==> (r
                is None && final(cursor).lookahead_0 == old(cursor).lookahead_0
                && final(cursor).lookahead_1 == old(cursor).lookahead_1
                && final(cursor).measure() == old(cursor).measure()),
            r matches Some(n) ==> {
                &&& n.wf()
                &&& at_keyword(old(cursor).lookahead_0.token, old(cursor).keywords.kw_if)
                &&& n.span.low == old(cursor).lookahead_0.token.span_low
                &&& n.if_part.keyword_if.symbol == old(cursor).keywords.kw_if
                &&& forall|i: int|
                    0 <= i < n.else_if_parts@.len() ==> (#[trigger] n.else_if_parts@[i]).keyword_else.symbol == old(cursor).keywords.kw_else
                        && n.else_if_parts@[i].keyword_if.symbol == old(cursor).keywords.kw_if
                &&& (n.else_part matches Some(e) ==> e.keyword_else.symbol == old(cursor).keywords.kw_else)
                &&& final(cursor).measure() < old(cursor).measure()
                &&& old(cursor).lookahead_0.token.span_low <= n.span.low
                &&& n.span.high <= final(cursor).lookahead_0.token.span_low
            },
            r is None ==> (final(cursor).measure() < old(cursor).measure()
                || final(cursor).lookahead_0 == old(cursor).lookahead_0),
        decreases old(cursor).measure(), 26int,
    {
        let node_id = cursor.node_id();
        let if_part = match AstCompTimeIfPart::<AstTopLevel>::parse(cursor) {
            Some(p) => p,
            None => {
                return None;
            },
        };
        let mut span = if_part.span;
        let mut else_if_parts: Vec<AstCompTimeElseIfPart<AstTopLevel>> = Vec::new();
        while cursor.lookahead_0().is_keyword(cursor.keywords.kw_else) && cursor.lookahead_1()
            .is_keyword(cursor.keywords.kw_if)
            invariant
                cursor.wf(),
                cursor.same_session(*old(cursor)),
                cursor.measure() < old(cursor).measure(),
                at_keyword(old(cursor).lookahead_0.token, old(cursor).keywords.kw_if),
                span.wf(),
                old(cursor).lookahead_0.token.span_low <= span.low,
                span.low <= if_part.span.low,
                span.high <= cursor.lookahead_0.token.span_low,
                if_part.wf(),
                span_in(span, if_part.span),
                forall|i: int|
                    0 <= i < else_if_parts@.len() ==> (#[trigger] else_if_parts@[i]).wf()
                        && span_in(span, else_if_parts@[i].span)
                        && else_if_parts@[i].keyword_else.symbol == old(cursor).keywords.kw_else
                        && else_if_parts@[i].keyword_if.symbol == old(cursor).keywords.kw_if,
            decreases cursor.measure(),
        {
            let part = match AstCompTimeElseIfPart::<AstTopLevel>::parse(cursor) {
                Some(p) => p,
                None => {
                    return None;
                },
            };
            span = Span::merge(span, part.span);
            else_if_parts.push(part);
        }
        let else_part: Option<AstCompTimeElsePart<AstTopLevel>> = if cursor.lookahead_0()
            .is_keyword(cursor.keywords.kw_else) {
            let part = match AstCompTimeElsePart::<AstTopLevel>::parse(cursor) {
                Some(p) => p,
                None => {
                    return None;
                },
            };
            span = Span::merge(span, part.span);
            Some(part)
        } else {
            None
        };
        Some(AstCompTimeIf { node_id, span, if_part, else_if_parts, else_part })
    }
}

impl AstCompTimeLoop<AstTopLevel> {
    /// Parses `loop <ident> times <expr> { ... }`.
    pub fn parse(cursor: &mut Cursor) -> (r: Option<Self>)
        requires
            old(cursor).wf(),
        ensures
            final(cursor).wf(),
            final(cursor).same_session(*old(cursor)),
            final(cursor).measure() <= old(cursor).measure(),
            !at_keyword(old(cursor).lookahead_0.token, old(cursor).keywords.kw_loop) ==> (r
                is None && final(cursor).lookahead_0 == old(cursor).lookahead_0
                && final(cursor).lookahead_1 == old(cursor).lookahead_1
                && final(cursor).measure() == old(cursor).measure()),
            (at_keyword(old(cursor).lookahead_0.token, old(cursor).keywords.kw_loop) && r
                is None) ==> final(cursor).measure() < old(cursor).measure(),
            r matches Some(n) ==> {
                &&& n.wf()
                &&& at_keyword(old(cursor).lookahead_0.token, old(cursor).keywords.kw_loop)
                &&& n.span.low == old(cursor).lookahead_0.token.span_low
                &&& n.keyword_loop.symbol == old(cursor).keywords.kw_loop
                &&& n.keyword_times.symbol == old(cursor).keywords.times
                &&& n.span.high == n.block.span.high
                &&& final(cursor).measure() < old(cursor).measure()
                &&& old(cursor).lookahead_0.token.span_low <= n.span.low
                &&& n.span.high <= final(cursor).lookahead_0.token.span_low
            },
            r is None ==> (final(cursor).measure() < old(cursor).measure()
                || final(cursor).lookahead_0 == old(cursor).lookahead_0),
        decreases old(cursor).measure(), 26int,
    {
        let node_id = cursor.node_id();
        let kw_loop = cursor.keywords.kw_loop;
        let keyword_loop = match parse_keyword(cursor, kw_loop) {
            Some(k) => k,
            None => {
                return None;
            },
        };
        let loop_var_ident = match AstIdentifier::parse(cursor) {
            Some(i) => i,
            None => {
                return None;
            },
        };
        let kw_times = cursor.keywords.times;
        let keyword_times = match parse_keyword(cursor, kw_times) {
            Some(k) => k,
            None => {
                return None;
            },
        };
        let expr = match AstExpr::parse(cursor) {
            Some(e) => e,
            None => {
                return None;
            },
        };
        let block = match AstCompTimeBlock::<AstTopLevel>::parse(cursor) {
            Some(b) => b,
            None => {
                return None;
            },
        };
        let span = Span::merge(keyword_loop.span, block.span);
        Some(
            AstCompTimeLoop {
                node_id,
                span,
                keyword_loop,
                loop_var_ident,
                keyword_times,
                expr,
                block,
            },
        )
    }
}

impl AstCompTime<AstTopLevel> {
    /// Parses a compile-time directive: `comptime` followed by its
    /// `if` or `loop` form. Anything else after `comptime` is
    /// reported.
    pub fn parse(cursor: &mut Cursor) -> (r: Option<Self>)
        requires
            old(cursor).wf(),
        ensures
            final(cursor).wf(),
            final(cursor).same_session(*old(cursor)),
            final(cursor).measure() <= old(cursor).measure(),
            !at_keyword(old(cursor).lookahead_0.token, old(cursor).keywords.comptime) ==> (r
                is None && final(cursor).lookahead_0 == old(cursor).lookahead_0
                && final(cursor).lookahead_1 == old(cursor).lookahead_1
                && final(cursor).measure() == old(cursor).measure()),
            (at_keyword(old(cursor).lookahead_0.token, old(cursor).keywords.comptime) && r
                is None) ==> final(cursor).measure() < old(cursor).measure(),
            r matches Some(n) ==> {
                &&& n.wf()
                &&& at_keyword(old(cursor).lookahead_0.token, old(cursor).keywords.comptime)
                &&& n.span.low == old(cursor).lookahead_0.token.span_low
                &&& n.keyword_comptime.symbol == old(cursor).keywords.comptime
                &&& n.keyword_comptime.span.low == old(cursor).lookahead_0.token.span_low
                &&& !(n.kind is Invalid)
                &&& match n.kind {
                    AstCompTimeKind::If(i) => i.if_part.keyword_if.symbol == old(cursor).keywords.kw_if,
                    AstCompTimeKind::Loop(l) => l.keyword_loop.symbol == old(cursor).keywords.kw_loop,
                    AstCompTimeKind::Invalid => false,
                }
                &&& final(cursor).measure() < old(cursor).measure()
                &&& old(cursor).lookahead_0.token.span_low <= n.span.low
                &&& n.span.high <= final(cursor).lookahead_0.token.span_low
            },
            r is None ==> (final(cursor).measure() < old(cursor).measure()
                || final(cursor).lookahead_0 == old(cursor).lookahead_0),
        decreases old(cursor).measure(), 28int,
    {
        let node_id = cursor.node_id();
        let kw_comptime = cursor.keywords.comptime;
        let keyword_comptime = match parse_keyword(cursor, kw_comptime) {
            Some(k) => k,
            None => {
                return None;
            },
        };
        if cursor.lookahead_0().is_keyword(cursor.keywords.kw_if) {
            let comptime_if = match AstCompTimeIf::<AstTopLevel>::parse(cursor) {
                Some(i) => i,
                None => {
                    return None;
                },
            };
            let span = Span::merge(keyword_comptime.span, comptime_if.span);
            return Some(
                AstCompTime {
                    node_id,
                    span,
                    keyword_comptime,
                    kind: AstCompTimeKind::If(comptime_if),
                },
            );
        }
        if cursor.lookahead_0().is_keyword(cursor.keywords.kw_loop) {
            let comptime_loop = match AstCompTimeLoop::<AstTopLevel>::parse(cursor) {
                Some(l) => l,
                None => {
                    return None;
                },
            };
            let span = Span::merge(keyword_comptime.span, comptime_loop.span);
            return Some(
                AstCompTime {
                    node_id,
                    span,
                    keyword_comptime,
                    kind: AstCompTimeKind::Loop(comptime_loop),
                },
            );
        }
        cursor.reporter().error(
            PARSE_ERR_INVALID_COMPTIME,
            keyword_comptime.span,
            "`comptime` must be followed by `if` or `loop`".to_owned(),
        );
        None
    }
}

impl AstTopLevel {
    /// Parses one top-level item. Of the top-level forms, this front
    /// end parses the compile-time directive; any other item is
    /// reported and yields nothing, so the caller can resynchronize.
    pub fn parse(cursor: &mut Cursor) -> (r: Option<Self>)
        requires
            old(cursor).wf(),
        ensures
            final(cursor).wf(),
            final(cursor).same_session(*old(cursor)),
            final(cursor).measure() <= old(cursor).measure(),
            (!at_keyword(old(cursor).lookahead_0.token, old(cursor).keywords.comptime)
                && !at_keyword(old(cursor).lookahead_0.token, old(cursor).keywords.kw_in)
                && !AstPuncKind::At.spec_matches_token_kind(old(cursor).lookahead_0.token.kind))
                ==> (r is None && final(cursor).lookahead_0 == old(cursor).lookahead_0
                && final(cursor).lookahead_1 == old(cursor).lookahead_1
                && final(cursor).measure() == old(cursor).measure()),
            ((at_keyword(old(cursor).lookahead_0.token, old(cursor).keywords.comptime)
                || at_keyword(old(cursor).lookahead_0.token, old(cursor).keywords.kw_in)
                || AstPuncKind::At.spec_matches_token_kind(old(cursor).lookahead_0.token.kind))
                && r is None) ==> final(cursor).measure() < old(cursor).measure(),
            r matches Some(n) ==> {
                &&& n.wf()
                &&& n.span.low == old(cursor).lookahead_0.token.span_low
                &&& match n.kind {
                    AstTopLevelKind::CompTime(c) => at_keyword(
                        old(cursor).lookahead_0.token,
                        old(cursor).keywords.comptime,
                    ) && c.keyword_comptime.symbol == old(cursor).keywords.comptime,
                    AstTopLevelKind::Input(i) => i.keyword_in.symbol == old(cursor).keywords.kw_in,
                    _ => false,
                }
                &&& final(cursor).measure() < old(cursor).measure()
                &&& old(cursor).lookahead_0.token.span_low <= n.span.low
                &&& n.span.high <= final(cursor).lookahead_0.token.span_low
            },
            r is None ==> (final(cursor).measure() < old(cursor).measure()
                || final(cursor).lookahead_0 == old(cursor).lookahead_0),
        decreases old(cursor).measure(), 30int,
    {
        let la = cursor.lookahead_0();
        if la.is_keyword(cursor.keywords.comptime) {
            let node_id = cursor.node_id();
            let comptime = match AstCompTime::<AstTopLevel>::parse(cursor) {
                Some(c) => c,
                None => {
                    return None;
                },
            };
            let span = comptime.span;
            Some(AstTopLevel { node_id, span, kind: AstTopLevelKind::CompTime(comptime) })
        } else if la.is_keyword(cursor.keywords.kw_in) || la.is_punc(AstPuncKind::At) {
            let node_id = cursor.node_id();
            let input = match AstInput::parse(cursor) {
                Some(i) => i,
                None => {
                    return None;
                },
            };
            let span = input.span;
            Some(AstTopLevel { node_id, span, kind: AstTopLevelKind::Input(input) })
        } else {
            proof {
                assert(la.token.wf());
            }
            cursor.reporter().error(
                PARSE_ERR_INVALID_COMPTIME,
                la.token.span(),
                "a top-level item is expected here".to_owned(),
            );
            None
        }
    }
}

impl AstShaderPack {
    /// Parses a whole file: top-level items until the end of input. A
    /// malformed item does not abort the file; one token is skipped
    /// and parsing resynchronizes, so diagnostics about the rest of
    /// the file still come out.
    pub fn parse(cursor: &mut Cursor) -> (r: Option<Self>)
        requires
            old(cursor).wf(),
        ensures
            final(cursor).wf(),
            final(cursor).same_session(*old(cursor)),
            final(cursor).measure() <= old(cursor).measure(),
            r is Some,
            r matches Some(n) ==> {
                &&& n.wf()
                &&& n.span.low == old(cursor).lookahead_0.token.span_low
                &&& final(cursor).lookahead_0.token.kind == TokenKind::EndOfFile
            },
        decreases old(cursor).measure(), 32int,
    {
        let node_id = cursor.node_id();
        let start_low = cursor.lookahead_0().token.span_low;
        let mut span = Span::empty(start_low);
        let mut top_levels: Vec<AstTopLevel> = Vec::new();
        while cursor.has_token()
            invariant
                cursor.wf(),
                cursor.same_session(*old(cursor)),
                cursor.measure() <= old(cursor).measure(),
                span.wf(),
                start_low <= cursor.lookahead_0.token.span_low,
                span.low == start_low,
                span.high <= cursor.lookahead_0.token.span_low,
                forall|i: int|
                    0 <= i < top_levels@.len() ==> (#[trigger] top_levels@[i]).wf() && span_in(
                        span,
                        top_levels@[i].span,
                    ),
            decreases cursor.measure(),
        {
            match AstTopLevel::parse(cursor) {
                Some(tl) => {
                    span = Span::merge(span, tl.span);
                    top_levels.push(tl);
                },
                None => {
                    cursor.consume();
                },
            }
        }
        Some(AstShaderPack { node_id, span, top_levels })
    }
}

} // verus!
