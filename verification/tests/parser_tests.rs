use shaderfront::diagnostics::ItemSender;
use shaderfront::parse::ast::{AstCompTimeIfPredicateExprKind, AstCompTimeIfPredicateExprSingleKind,
    AstCompTimeKind, AstIdentifierKind, AstPuncKind, AstShaderPack, AstTopLevelKind, NodeIdAllocator,
    AstIdentifier};
use shaderfront::parse::cursor::Cursor;
use shaderfront::parse::lexer::{token_iter, TokenKind};
use shaderfront::parse::symbols::Keywords;
use shaderfront::span::{SourceFile, SourceMap, Span};
use shaderfront::symbol::Interner;

#[test]
fn test_node_id_allocator() {
    let mut allocator = NodeIdAllocator::new();
    let id1 = allocator.allocate();
    let id2 = allocator.allocate();
    assert_eq!(id1.get(), 1);
    assert_eq!(id2.get(), 2);
}

fn cursor_for<'a>(file: &'a SourceFile, sender: &'a ItemSender) -> Cursor<'a> {
    let mut interner = Interner::new();
    let keywords = Keywords::new(&mut interner);
    let stream = token_iter(file, &mut interner);
    Cursor::new(stream, interner, keywords, NodeIdAllocator::new(), sender)
}

#[test]
fn test_cursor_lookahead_and_consume() {
    let mut map = SourceMap::new();
    let file = map.add_file("comptime if # note\n{", "test", None);
    let (tx, _rx) = tokio::sync::mpsc::unbounded_channel();
    let sender = ItemSender::new(file.clone(), tx);
    let mut cursor = cursor_for(&file, &sender);
    assert!(cursor.has_token());
    assert!(cursor.lookahead_0().is_id());
    assert!(cursor.lookahead_1().is_id());
    cursor.consume();
    cursor.consume();
    // Whitespace and the comment are dropped; `{` is next.
    assert!(cursor.lookahead_0().is_punc(AstPuncKind::OpenBrace));
    cursor.consume();
    assert!(!cursor.has_token());
    assert!(!cursor.lookahead_0().is_exists());
    assert_eq!(cursor.lookahead_0().token.kind, TokenKind::EndOfFile);
}

#[test]
fn test_parse_comptime_if_else_chain() {
    let src = "comptime if \"debug\" { } else if \"fast\" { } else { }";
    let mut map = SourceMap::new();
    let file = map.add_file(src, "test", None);
    let (tx, mut rx) = tokio::sync::mpsc::unbounded_channel();
    let sender = ItemSender::new(file.clone(), tx);
    let mut cursor = cursor_for(&file, &sender);
    let pack = AstShaderPack::parse(&mut cursor).unwrap();
    assert_eq!(pack.top_levels.len(), 1);
    let top = &pack.top_levels[0];
    match &top.kind {
        AstTopLevelKind::CompTime(comptime) => {
            assert_eq!(comptime.span, Span::new(0, src.len() as u32));
            match &comptime.kind {
                AstCompTimeKind::If(comptime_if) => {
                    assert_eq!(comptime_if.else_if_parts.len(), 1);
                    assert!(comptime_if.else_part.is_some());
                    match &comptime_if.if_part.predicate.kind {
                        AstCompTimeIfPredicateExprKind::Single(single) => match &single.kind {
                            AstCompTimeIfPredicateExprSingleKind::Flag(_) => {}
                            _ => panic!("the predicate must be a flag"),
                        },
                        _ => panic!("the predicate must be a single flag"),
                    }
                }
                _ => panic!("a comptime `if` was parsed"),
            }
        }
        _ => panic!("a comptime item was parsed"),
    }
    assert!(rx.try_recv().ok().is_none());
}

#[test]
fn test_parse_predicate_flat_precedence() {
    // `and` and `or` bind equally and lean left:
    // a and b or c parses as (a and b) or c.
    let src = "comptime if \"a\" and \"b\" or \"c\" { }";
    let mut map = SourceMap::new();
    let file = map.add_file(src, "test", None);
    let (tx, _rx) = tokio::sync::mpsc::unbounded_channel();
    let sender = ItemSender::new(file.clone(), tx);
    let mut cursor = cursor_for(&file, &sender);
    let pack = AstShaderPack::parse(&mut cursor).unwrap();
    let top = &pack.top_levels[0];
    let comptime = match &top.kind {
        AstTopLevelKind::CompTime(c) => c,
        _ => panic!("a comptime item was parsed"),
    };
    let comptime_if = match &comptime.kind {
        AstCompTimeKind::If(i) => i,
        _ => panic!("a comptime `if` was parsed"),
    };
    match &comptime_if.if_part.predicate.kind {
        AstCompTimeIfPredicateExprKind::Or(or) => match &or.lhs.kind {
            AstCompTimeIfPredicateExprKind::And(_) => {}
            _ => panic!("the left operand of `or` must be the `and`"),
        },
        _ => panic!("the top operator must be `or`"),
    }
}

#[test]
fn test_parse_comptime_without_if_or_loop_reports() {
    let src = "comptime banana";
    let mut map = SourceMap::new();
    let file = map.add_file(src, "test", None);
    let (tx, mut rx) = tokio::sync::mpsc::unbounded_channel();
    let sender = ItemSender::new(file.clone(), tx);
    let mut cursor = cursor_for(&file, &sender);
    let pack = AstShaderPack::parse(&mut cursor).unwrap();
    assert_eq!(pack.top_levels.len(), 0);
    let item = rx.try_recv().ok().unwrap();
    assert_eq!(item.code, shaderfront::diagnostics::codes::PARSE_ERR_INVALID_COMPTIME);
    assert_eq!(item.origin.as_ref().unwrap().span, Span::new(0, 8));
}

#[test]
fn test_parse_comptime_loop_reports_missing_expression() {
    let src = "comptime loop i times 5 { }";
    let mut map = SourceMap::new();
    let file = map.add_file(src, "test", None);
    let (tx, mut rx) = tokio::sync::mpsc::unbounded_channel();
    let sender = ItemSender::new(file.clone(), tx);
    let mut cursor = cursor_for(&file, &sender);
    let pack = AstShaderPack::parse(&mut cursor).unwrap();
    // The expression grammar is not part of this front end: the loop
    // count position is reported as a missing expression.
    let item = rx.try_recv().ok().unwrap();
    assert_eq!(item.code, shaderfront::diagnostics::codes::PARSE_ERR_EXPECTED_EXPR);
    // The loop form cannot finish without its count expression;
    // parsing resynchronizes and the pack stays empty.
    assert!(pack.span.low() == 0);
    assert_eq!(pack.top_levels.len(), 0);
}

#[test]
fn test_parse_top_level_resynchronizes() {
    let src = "banana comptime if \"x\" { }";
    let mut map = SourceMap::new();
    let file = map.add_file(src, "test", None);
    let (tx, mut rx) = tokio::sync::mpsc::unbounded_channel();
    let sender = ItemSender::new(file.clone(), tx);
    let mut cursor = cursor_for(&file, &sender);
    let pack = AstShaderPack::parse(&mut cursor).unwrap();
    // The stray identifier is reported and skipped; the comptime item
    // after it still comes out.
    assert_eq!(pack.top_levels.len(), 1);
    assert!(rx.try_recv().ok().is_some());
}

#[test]
fn test_parse_composed_identifier() {
    let src = "!ident(\"rule_{}\")";
    let mut map = SourceMap::new();
    let file = map.add_file(src, "test", None);
    let (tx, _rx) = tokio::sync::mpsc::unbounded_channel();
    let sender = ItemSender::new(file.clone(), tx);
    let mut cursor = cursor_for(&file, &sender);
    let ident = AstIdentifier::parse(&mut cursor).unwrap();
    assert_eq!(ident.span, Span::new(0, src.len() as u32));
    match &ident.kind {
        AstIdentifierKind::Composed(composed) => {
            assert!(composed.punc_comma.is_none());
            assert_eq!(composed.args.len(), 0);
            assert!(composed.rule_str.terminated);
        }
        _ => panic!("a composed identifier was parsed"),
    }
}

#[test]
fn test_parse_plain_identifier() {
    let src = "main_color";
    let mut map = SourceMap::new();
    let file = map.add_file(src, "test", None);
    let (tx, _rx) = tokio::sync::mpsc::unbounded_channel();
    let sender = ItemSender::new(file.clone(), tx);
    let mut cursor = cursor_for(&file, &sender);
    let ident = AstIdentifier::parse(&mut cursor).unwrap();
    assert_eq!(ident.span, Span::new(0, 10));
    match &ident.kind {
        AstIdentifierKind::Symbol(sym) => {
            assert_eq!(sym.to_str(&cursor.interner), "main_color");
        }
        _ => panic!("a plain identifier was parsed"),
    }
}

#[test]
fn test_parse_identifier_rejects_number() {
    let src = "42";
    let mut map = SourceMap::new();
    let file = map.add_file(src, "test", None);
    let (tx, mut rx) = tokio::sync::mpsc::unbounded_channel();
    let sender = ItemSender::new(file.clone(), tx);
    let mut cursor = cursor_for(&file, &sender);
    assert!(AstIdentifier::parse(&mut cursor).is_none());
    let item = rx.try_recv().ok().unwrap();
    assert_eq!(
        item.code,
        shaderfront::diagnostics::codes::PARSE_ERR_EXPECTED_IDENTIFIER
    );
}

#[test]
fn test_parse_input_declaration() {
    let src = "@binding = \"b0\" in color : vec4;";
    let mut map = SourceMap::new();
    let file = map.add_file(src, "test", None);
    let (tx, mut rx) = tokio::sync::mpsc::unbounded_channel();
    let sender = ItemSender::new(file.clone(), tx);
    let mut cursor = cursor_for(&file, &sender);
    let pack = AstShaderPack::parse(&mut cursor).unwrap();
    assert_eq!(pack.top_levels.len(), 1);
    match &pack.top_levels[0].kind {
        AstTopLevelKind::Input(input) => {
            assert_eq!(input.span, Span::new(0, src.len() as u32));
            assert_eq!(input.attributes.len(), 1);
            assert_eq!(input.attributes[0].items.len(), 1);
            match &input.ident.kind {
                AstIdentifierKind::Symbol(sym) => {
                    assert_eq!(sym.to_str(&cursor.interner), "color");
                }
                _ => panic!("the input name must be a plain identifier"),
            }
            match &input.ty_name.ident.kind {
                AstIdentifierKind::Symbol(sym) => {
                    assert_eq!(sym.to_str(&cursor.interner), "vec4");
                }
                _ => panic!("the type name must be a plain identifier"),
            }
        }
        _ => panic!("an input declaration was parsed"),
    }
    assert!(rx.try_recv().ok().is_none());
}

#[test]
fn test_parse_nested_comptime_blocks() {
    let src = "comptime if \"a\" { comptime if not \"b\" { } in x : t; }";
    let mut map = SourceMap::new();
    let file = map.add_file(src, "test", None);
    let (tx, mut rx) = tokio::sync::mpsc::unbounded_channel();
    let sender = ItemSender::new(file.clone(), tx);
    let mut cursor = cursor_for(&file, &sender);
    let pack = AstShaderPack::parse(&mut cursor).unwrap();
    assert_eq!(pack.top_levels.len(), 1);
    let outer = match &pack.top_levels[0].kind {
        AstTopLevelKind::CompTime(c) => match &c.kind {
            AstCompTimeKind::If(i) => i,
            _ => panic!("the outer item must be a comptime `if`"),
        },
        _ => panic!("the outer item must be a comptime directive"),
    };
    let block = &outer.if_part.block;
    assert_eq!(block.items.len(), 2);
    assert!(matches!(block.items[0].kind, AstTopLevelKind::CompTime(_)));
    assert!(matches!(block.items[1].kind, AstTopLevelKind::Input(_)));
    // Every child's span lies inside its parent's span.
    assert!(pack.span.contains_span(pack.top_levels[0].span));
    assert!(pack.top_levels[0].span.contains_span(block.items[0].span));
    assert!(pack.top_levels[0].span.contains_span(block.items[1].span));
    assert!(rx.try_recv().ok().is_none());
}
