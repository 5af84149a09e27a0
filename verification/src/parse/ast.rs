mod node_id;
mod node_id_allocator;

pub use node_id::NodeId;
pub use node_id_allocator::NodeIdAllocator;

use super::lexer::TokenKind;
use crate::span::Span;
use crate::symbol::Symbol;
use vstd::prelude::*;

verus! {

/// The root of one parsed source file: its top-level items in order.
#[derive(Debug, PartialEq, Eq, Hash)]
pub struct AstShaderPack {
    pub node_id: NodeId,
    pub span: Span,
    pub top_levels: Vec<AstTopLevel>,
}

#[derive(Debug, PartialEq, Eq, Hash)]
pub struct AstTopLevel {
    pub node_id: NodeId,
    pub span: Span,
    pub kind: AstTopLevelKind,
}

#[derive(Debug, PartialEq, Eq, Hash)]
pub enum AstTopLevelKind {
    CompTime(AstCompTime<AstTopLevel>),
    FnDef(AstFnDef),
    Input(AstInput),
    Pass(AstPass),
}

#[derive(Debug, PartialEq, Eq, Hash)]
pub struct AstAttribute {
    pub node_id: NodeId,
    pub span: Span,
    pub items: Vec<AstAttributeItem>,
}

#[derive(Debug, PartialEq, Eq, Hash)]
pub struct AstAttributeItem {
    pub node_id: NodeId,
    pub span: Span,
    pub punc_at: AstPunc,
    pub ident: AstIdentifier,
    pub punc_assign: AstPunc,
    pub expr: AstStringLiteral,
}

#[derive(Debug, PartialEq, Eq, Hash)]
pub struct AstCompTime<T> {
    pub node_id: NodeId,
    pub span: Span,
    pub keyword_comptime: AstKeyword,
    pub kind: AstCompTimeKind<T>,
}

#[derive(Debug, PartialEq, Eq, Hash)]
pub enum AstCompTimeKind<T> {
    Invalid,
    If(AstCompTimeIf<T>),
    Loop(AstCompTimeLoop<T>),
}

/// Example:
///
/// - `comptime if ... { ... }`
/// - `comptime if ... { ... } else if ... { ... } else { ... }`
#[derive(Debug, PartialEq, Eq, Hash)]
pub struct AstCompTimeIf<T> {
    pub node_id: NodeId,
    pub span: Span,
    pub if_part: AstCompTimeIfPart<T>,
    pub else_if_parts: Vec<AstCompTimeElseIfPart<T>>,
    pub else_part: Option<AstCompTimeElsePart<T>>,
}

#[derive(Debug, PartialEq, Eq, Hash)]
pub struct AstCompTimeIfPart<T> {
    pub node_id: NodeId,
    pub span: Span,
    pub keyword_if: AstKeyword,
    pub predicate: AstCompTimeIfPredicateExpr,
    pub block: AstCompTimeBlock<T>,
}

#[derive(Debug, PartialEq, Eq, Hash)]
pub struct AstCompTimeElseIfPart<T> {
    pub node_id: NodeId,
    pub span: Span,
    pub keyword_else: AstKeyword,
    pub keyword_if: AstKeyword,
    pub predicate: AstCompTimeIfPredicateExpr,
    pub block: AstCompTimeBlock<T>,
}

#[derive(Debug, PartialEq, Eq, Hash)]
pub struct AstCompTimeElsePart<T> {
    pub node_id: NodeId,
    pub span: Span,
    pub keyword_else: AstKeyword,
    pub block: AstCompTimeBlock<T>,
}

#[derive(Debug, PartialEq, Eq, Hash)]
pub struct AstCompTimeIfPredicateExpr {
    pub node_id: NodeId,
    pub span: Span,
    pub kind: AstCompTimeIfPredicateExprKind,
}

#[derive(Debug, PartialEq, Eq, Hash)]
pub enum AstCompTimeIfPredicateExprKind {
    Invalid,
    Single(AstCompTimeIfPredicateExprSingle),
    And(AstCompTimeIfPredicateExprAnd),
    Or(AstCompTimeIfPredicateExprOr),
}

#[derive(Debug, PartialEq, Eq, Hash)]
pub struct AstCompTimeIfPredicateExprSingle {
    pub node_id: NodeId,
    pub span: Span,
    pub kind: AstCompTimeIfPredicateExprSingleKind,
}

#[derive(Debug, PartialEq, Eq, Hash)]
pub enum AstCompTimeIfPredicateExprSingleKind {
    Invalid,
    Flag(AstCompTimeIfPredicateExprFlag),
    Paren(AstCompTimeIfPredicateExprParen),
    Not(AstCompTimeIfPredicateExprNot),
}

#[derive(Debug, PartialEq, Eq, Hash)]
pub struct AstCompTimeIfPredicateExprAnd {
    pub node_id: NodeId,
    pub span: Span,
    pub lhs: Box<AstCompTimeIfPredicateExpr>,
    pub keyword_and: AstKeyword,
    pub rhs: Box<AstCompTimeIfPredicateExpr>,
}

#[derive(Debug, PartialEq, Eq, Hash)]
pub struct AstCompTimeIfPredicateExprOr {
    pub node_id: NodeId,
    pub span: Span,
    pub lhs: Box<AstCompTimeIfPredicateExpr>,
    pub keyword_or: AstKeyword,
    pub rhs: Box<AstCompTimeIfPredicateExpr>,
}

#[derive(Debug, PartialEq, Eq, Hash)]
pub struct AstCompTimeIfPredicateExprFlag {
    pub node_id: NodeId,
    pub span: Span,
    pub flag: AstStringLiteral,
}

#[derive(Debug, PartialEq, Eq, Hash)]
pub struct AstCompTimeIfPredicateExprParen {
    pub node_id: NodeId,
    pub span: Span,
    pub punc_open_paren: AstPunc,
    pub expr: Box<AstCompTimeIfPredicateExpr>,
    pub punc_close_paren: AstPunc,
}

#[derive(Debug, PartialEq, Eq, Hash)]
pub struct AstCompTimeIfPredicateExprNot {
    pub node_id: NodeId,
    pub span: Span,
    pub keyword_not: AstKeyword,
    pub expr: Box<AstCompTimeIfPredicateExpr>,
}

/// Example:
///
/// `comptime loop n times 1 + 1 { ... }`
#[derive(Debug, PartialEq, Eq, Hash)]
pub struct AstCompTimeLoop<T> {
    pub node_id: NodeId,
    pub span: Span,
    pub keyword_loop: AstKeyword,
    pub loop_var_ident: AstIdentifier,
    pub keyword_times: AstKeyword,
    pub expr: AstExpr,
    pub block: AstCompTimeBlock<T>,
}

#[derive(Debug, PartialEq, Eq, Hash)]
pub struct AstCompTimeBlock<T> {
    pub node_id: NodeId,
    pub span: Span,
    pub punc_open_brace: AstPunc,
    pub items: Vec<T>,
    pub punc_close_brace: AstPunc,
}

/// Example:
///
/// `fn <identifier> (<params>) [<return-type>] { ... }`
#[derive(Debug, PartialEq, Eq, Hash)]
pub struct AstFnDef {
    pub node_id: NodeId,
    pub span: Span,
    pub attributes: Vec<AstAttribute>,
    pub keyword_fn: AstKeyword,
    pub ident: AstIdentifier,
    pub punc_open_paren: AstPunc,
    pub params: Vec<AstFnDefParam>,
    pub punc_close_paren: AstPunc,
    pub return_type: Option<AstFnDefReturnType>,
    pub punc_open_brace: AstPunc,
    pub statements: Vec<AstStatement>,
    pub punc_close_brace: AstPunc,
}

/// Example:
///
/// `<identifier> : <type-name> [,]`
#[derive(Debug, PartialEq, Eq, Hash)]
pub struct AstFnDefParam {
    pub node_id: NodeId,
    pub span: Span,
    pub attributes: Vec<AstAttribute>,
    pub ident: AstIdentifier,
    pub punc_colon: AstPunc,
    pub ty_name: AstTypeName,
    pub punc_comma: Option<AstPunc>,
}

/// Example:
///
/// `-> <type-name>`
#[derive(Debug, PartialEq, Eq, Hash)]
pub struct AstFnDefReturnType {
    pub node_id: NodeId,
    pub span: Span,
    pub punc_arrow: AstPunc,
    pub ty_name: AstTypeName,
}

/// Example:
///
/// `in <identifier> : <type-name> ;`
#[derive(Debug, PartialEq, Eq, Hash)]
pub struct AstInput {
    pub node_id: NodeId,
    pub span: Span,
    pub attributes: Vec<AstAttribute>,
    pub keyword_in: AstKeyword,
    pub ident: AstIdentifier,
    pub punc_colon: AstPunc,
    pub ty_name: AstTypeName,
    pub punc_semicolon: AstPunc,
}

/// Example:
///
/// `pass <identifier> { ... }`
#[derive(Debug, PartialEq, Eq, Hash)]
pub struct AstPass {
    pub node_id: NodeId,
    pub span: Span,
    pub attributes: Vec<AstAttribute>,
    pub keyword_pass: AstKeyword,
    pub ident: AstIdentifier,
    pub punc_open_brace: AstPunc,
    pub pass_levels: Vec<AstPassLevel>,
    pub punc_close_brace: AstPunc,
}

#[derive(Debug, PartialEq, Eq, Hash)]
pub struct AstPassLevel {
    pub node_id: NodeId,
    pub span: Span,
    pub kind: AstPassLevelKind,
}

#[derive(Debug, PartialEq, Eq, Hash)]
pub enum AstPassLevelKind {
    Input(AstInput),
    Stage(AstStage),
}

/// Example:
///
/// `<stage> { ... }`
#[derive(Debug, PartialEq, Eq, Hash)]
pub struct AstStage {
    pub node_id: NodeId,
    pub span: Span,
    pub attributes: Vec<AstAttribute>,
    pub stage: AstIdentifier,
    pub punc_open_brace: AstPunc,
    pub statements: Vec<AstStatement>,
    pub punc_close_brace: AstPunc,
}

#[derive(Debug, PartialEq, Eq, Hash)]
pub struct AstStatement {
    pub node_id: NodeId,
    pub span: Span,
    pub kind: AstStatementKind,
}

#[derive(Debug, PartialEq, Eq, Hash)]
pub enum AstStatementKind {
    VarDecl(AstStatementVarDecl),
    Assignment(AstStatementAssignment),
    Expr(AstExpr),
}

#[derive(Debug, PartialEq, Eq, Hash)]
pub struct AstStatementVarDecl {
    pub keyword_let: AstKeyword,
    pub ident: AstIdentifier,
    pub ty_name: Option<AstStatementVarDeclTypeName>,
    pub assignment: Option<AstStatementVarDeclAssignment>,
    pub punc_semicolon: AstPunc,
}

#[derive(Debug, PartialEq, Eq, Hash)]
pub struct AstStatementVarDeclTypeName {
    pub node_id: NodeId,
    pub span: Span,
    pub punc_colon: AstPunc,
    pub ty_name: AstTypeName,
}

#[derive(Debug, PartialEq, Eq, Hash)]
pub struct AstStatementVarDeclAssignment {
    pub node_id: NodeId,
    pub span: Span,
    pub punc_assignment: AstPunc,
    pub rhs: AstExpr,
}

#[derive(Debug, PartialEq, Eq, Hash)]
pub struct AstStatementAssignment {
    pub op: AstAssignmentOp,
    pub lhs: AstExpr,
    pub rhs: AstExpr,
    pub punc_semicolon: AstPunc,
}

#[derive(Debug, PartialEq, Eq, Hash)]
pub struct AstAssignmentOp {
    pub span: Span,
    pub kind: AstAssignmentOpKind,
}

#[derive(Debug, Clone, Copy, PartialEq, Eq, Hash)]
pub enum AstAssignmentOpKind {
    Invalid,
    /// `=`
    Assign,
    /// `+=`
    AssignAdd,
    /// `-=`
    AssignSub,
    /// `*=`
    AssignMul,
    /// `/=`
    AssignDiv,
    /// `%=`
    AssignMod,
    /// `**=`
    AssignPow,
    /// `<<=`
    AssignShl,
    /// `>>=`
    AssignShr,
    /// `|=`
    AssignBitOr,
    /// `&=`
    AssignBitAnd,
    /// `^=`
    AssignBitXor,
}

#[derive(Debug, PartialEq, Eq, Hash)]
pub struct AstExpr {
    pub node_id: NodeId,
    pub span: Span,
    pub kind: AstExprKind,
}

/// The expression grammar itself is outside this front end's scope;
/// an expression position that could not be filled carries `Invalid`.
#[derive(Debug, PartialEq, Eq, Hash)]
pub enum AstExprKind {
    Invalid,
    Binary(AstBinaryExpr),
    Unary(AstUnaryExpr),
}

#[derive(Debug, PartialEq, Eq, Hash)]
pub struct AstBinaryExpr {
    pub node_id: NodeId,
    pub span: Span,
    pub op: AstBinaryExprOp,
    pub lhs: Box<AstExpr>,
    pub rhs: Box<AstExpr>,
}

#[derive(Debug, Clone, Copy, PartialEq, Eq, Hash)]
pub struct AstBinaryExprOp {
    pub span: Span,
    pub kind: AstBinaryExprOpKind,
}

#[derive(Debug, Clone, Copy, PartialEq, Eq, Hash)]
pub enum AstBinaryExprOpKind {
    Invalid,
    /// `==`
    Eq,
    /// `!=`
    Ne,
    /// `<`
    Lt,
    /// `>`
    Gt,
    /// `<=`
    Le,
    /// `>=`
    Ge,
    /// `+`
    Add,
    /// `-`
    Sub,
    /// `*`
    Mul,
    /// `/`
    Div,
    /// `%`
    Mod,
    /// `**`
    Pow,
    /// `<<`
    Shl,
    /// `>>`
    Shr,
    /// `|`
    BitOr,
    /// `&`
    BitAnd,
    /// `^`
    BitXor,
    /// `||`
    LogOr,
    /// `&&`
    LogAnd,
}

#[derive(Debug, PartialEq, Eq, Hash)]
pub struct AstUnaryExpr {
    pub node_id: NodeId,
    pub span: Span,
    pub op: AstUnaryExprOp,
    pub rhs: Box<AstExpr>,
}

#[derive(Debug, Clone, Copy, PartialEq, Eq, Hash)]
pub struct AstUnaryExprOp {
    pub span: Span,
    pub kind: AstUnaryExprOpKind,
}

#[derive(Debug, Clone, Copy, PartialEq, Eq, Hash)]
pub enum AstUnaryExprOpKind {
    Invalid,
    /// `+`
    Pos,
    /// `-`
    Neg,
    /// `!`
    LogNot,
    /// `~`
    BitNot,
}

/// One explicit punctuation occurrence, with its own span.
#[derive(Debug, Clone, Copy, PartialEq, Eq, Hash)]
pub struct AstPunc {
    pub span: Span,
    pub kind: AstPuncKind,
}

#[derive(Debug, Clone, Copy, PartialEq, Eq, PartialOrd, Ord, Hash, Structural)]
pub enum AstPuncKind {
    Invalid,
    OpenParen,
    CloseParen,
    OpenBrace,
    CloseBrace,
    OpenBracket,
    CloseBracket,
    Dot,
    Comma,
    Colon,
    Semicolon,
    At,
    Arrow,
    Assign,
    AssignAdd,
    AssignSub,
    AssignMul,
    AssignDiv,
    AssignMod,
    AssignPow,
    AssignShl,
    AssignShr,
    AssignBitOr,
    AssignBitAnd,
    AssignBitXor,
    Eq,
    Ne,
    Lt,
    Gt,
    Le,
    Ge,
    Add,
    Sub,
    Mul,
    Div,
    Mod,
    Pow,
    Shl,
    Shr,
    BitOr,
    BitAnd,
    BitXor,
    LogOr,
    LogAnd,
    BitNot,
    LogNot,
}

impl AstPuncKind {
    /// The token kind this punctuation stands for; `Invalid` matches
    /// nothing.
    pub open spec fn spec_matches_token_kind(self, token_kind: TokenKind) -> bool {
        match self {
            AstPuncKind::Invalid => false,
            AstPuncKind::OpenParen => token_kind == TokenKind::OpenParen,
            AstPuncKind::CloseParen => token_kind == TokenKind::CloseParen,
            AstPuncKind::OpenBrace => token_kind == TokenKind::OpenBrace,
            AstPuncKind::CloseBrace => token_kind == TokenKind::CloseBrace,
            AstPuncKind::OpenBracket => token_kind == TokenKind::OpenBracket,
            AstPuncKind::CloseBracket => token_kind == TokenKind::CloseBracket,
            AstPuncKind::Dot => token_kind == TokenKind::Dot,
            AstPuncKind::Comma => token_kind == TokenKind::Comma,
            AstPuncKind::Colon => token_kind == TokenKind::Colon,
            AstPuncKind::Semicolon => token_kind == TokenKind::Semicolon,
            AstPuncKind::At => token_kind == TokenKind::At,
            AstPuncKind::Arrow => token_kind == TokenKind::Arrow,
            AstPuncKind::Assign => token_kind == TokenKind::Assign,
            AstPuncKind::AssignAdd => token_kind == TokenKind::AssignAdd,
            AstPuncKind::AssignSub => token_kind == TokenKind::AssignSub,
            AstPuncKind::AssignMul => token_kind == TokenKind::AssignMul,
            AstPuncKind::AssignDiv => token_kind == TokenKind::AssignDiv,
            AstPuncKind::AssignMod => token_kind == TokenKind::AssignMod,
            AstPuncKind::AssignPow => token_kind == TokenKind::AssignPow,
            AstPuncKind::AssignShl => token_kind == TokenKind::AssignShl,
            AstPuncKind::AssignShr => token_kind == TokenKind::AssignShr,
            AstPuncKind::AssignBitOr => token_kind == TokenKind::AssignBitOr,
            AstPuncKind::AssignBitAnd => token_kind == TokenKind::AssignBitAnd,
            AstPuncKind::AssignBitXor => token_kind == TokenKind::AssignBitXor,
            AstPuncKind::Eq => token_kind == TokenKind::Eq,
            AstPuncKind::Ne => token_kind == TokenKind::Ne,
            AstPuncKind::Lt => token_kind == TokenKind::Lt,
            AstPuncKind::Gt => token_kind == TokenKind::Gt,
            AstPuncKind::Le => token_kind == TokenKind::Le,
            AstPuncKind::Ge => token_kind == TokenKind::Ge,
            AstPuncKind::Add => token_kind == TokenKind::Add,
            AstPuncKind::Sub => token_kind == TokenKind::Sub,
            AstPuncKind::Mul => token_kind == TokenKind::Mul,
            AstPuncKind::Div => token_kind == TokenKind::Div,
            AstPuncKind::Mod => token_kind == TokenKind::Mod,
            AstPuncKind::Pow => token_kind == TokenKind::Pow,
            AstPuncKind::Shl => token_kind == TokenKind::Shl,
            AstPuncKind::Shr => token_kind == TokenKind::Shr,
            AstPuncKind::BitOr => token_kind == TokenKind::BitOr,
            AstPuncKind::BitAnd => token_kind == TokenKind::BitAnd,
            AstPuncKind::BitXor => token_kind == TokenKind::BitXor,
            AstPuncKind::LogOr => token_kind == TokenKind::LogOr,
            AstPuncKind::LogAnd => token_kind == TokenKind::LogAnd,
            AstPuncKind::BitNot => token_kind == TokenKind::BitNot,
            AstPuncKind::LogNot => token_kind == TokenKind::LogNot,
        }
    }

    /// Whether `token_kind` is exactly the token this punctuation kind
    /// stands for.
    pub fn matches_token_kind(self, token_kind: TokenKind) -> (r: bool)
        ensures
            r == self.spec_matches_token_kind(token_kind),
    {
        match self {
            AstPuncKind::Invalid => false,
            AstPuncKind::OpenParen => matches!(token_kind, TokenKind::OpenParen),
            AstPuncKind::CloseParen => matches!(token_kind, TokenKind::CloseParen),
            AstPuncKind::OpenBrace => matches!(token_kind, TokenKind::OpenBrace),
            AstPuncKind::CloseBrace => matches!(token_kind, TokenKind::CloseBrace),
            AstPuncKind::OpenBracket => matches!(token_kind, TokenKind::OpenBracket),
            AstPuncKind::CloseBracket => matches!(token_kind, TokenKind::CloseBracket),
            AstPuncKind::Dot => matches!(token_kind, TokenKind::Dot),
            AstPuncKind::Comma => matches!(token_kind, TokenKind::Comma),
            AstPuncKind::Colon => matches!(token_kind, TokenKind::Colon),
            AstPuncKind::Semicolon => matches!(token_kind, TokenKind::Semicolon),
            AstPuncKind::At => matches!(token_kind, TokenKind::At),
            AstPuncKind::Arrow => matches!(token_kind, TokenKind::Arrow),
            AstPuncKind::Assign => matches!(token_kind, TokenKind::Assign),
            AstPuncKind::AssignAdd => matches!(token_kind, TokenKind::AssignAdd),
            AstPuncKind::AssignSub => matches!(token_kind, TokenKind::AssignSub),
            AstPuncKind::AssignMul => matches!(token_kind, TokenKind::AssignMul),
            AstPuncKind::AssignDiv => matches!(token_kind, TokenKind::AssignDiv),
            AstPuncKind::AssignMod => matches!(token_kind, TokenKind::AssignMod),
            AstPuncKind::AssignPow => matches!(token_kind, TokenKind::AssignPow),
            AstPuncKind::AssignShl => matches!(token_kind, TokenKind::AssignShl),
            AstPuncKind::AssignShr => matches!(token_kind, TokenKind::AssignShr),
            AstPuncKind::AssignBitOr => matches!(token_kind, TokenKind::AssignBitOr),
            AstPuncKind::AssignBitAnd => matches!(token_kind, TokenKind::AssignBitAnd),
            AstPuncKind::AssignBitXor => matches!(token_kind, TokenKind::AssignBitXor),
            AstPuncKind::Eq => matches!(token_kind, TokenKind::Eq),
            AstPuncKind::Ne => matches!(token_kind, TokenKind::Ne),
            AstPuncKind::Lt => matches!(token_kind, TokenKind::Lt),
            AstPuncKind::Gt => matches!(token_kind, TokenKind::Gt),
            AstPuncKind::Le => matches!(token_kind, TokenKind::Le),
            AstPuncKind::Ge => matches!(token_kind, TokenKind::Ge),
            AstPuncKind::Add => matches!(token_kind, TokenKind::Add),
            AstPuncKind::Sub => matches!(token_kind, TokenKind::Sub),
            AstPuncKind::Mul => matches!(token_kind, TokenKind::Mul),
            AstPuncKind::Div => matches!(token_kind, TokenKind::Div),
            AstPuncKind::Mod => matches!(token_kind, TokenKind::Mod),
            AstPuncKind::Pow => matches!(token_kind, TokenKind::Pow),
            AstPuncKind::Shl => matches!(token_kind, TokenKind::Shl),
            AstPuncKind::Shr => matches!(token_kind, TokenKind::Shr),
            AstPuncKind::BitOr => matches!(token_kind, TokenKind::BitOr),
            AstPuncKind::BitAnd => matches!(token_kind, TokenKind::BitAnd),
            AstPuncKind::BitXor => matches!(token_kind, TokenKind::BitXor),
            AstPuncKind::LogOr => matches!(token_kind, TokenKind::LogOr),
            AstPuncKind::LogAnd => matches!(token_kind, TokenKind::LogAnd),
            AstPuncKind::BitNot => matches!(token_kind, TokenKind::BitNot),
            AstPuncKind::LogNot => matches!(token_kind, TokenKind::LogNot),
        }
    }
}

/// One explicit keyword occurrence, with its own span.
#[derive(Debug, Clone, Copy, PartialEq, Eq, Hash)]
pub struct AstKeyword {
    pub span: Span,
    pub symbol: Symbol,
}

#[derive(Debug, PartialEq, Eq, Hash)]
pub struct AstIdentifier {
    pub node_id: NodeId,
    pub span: Span,
    pub kind: AstIdentifierKind,
}

#[derive(Debug, PartialEq, Eq, Hash)]
pub enum AstIdentifierKind {
    Invalid,
    Symbol(Symbol),
    Composed(AstComposedIdentifier),
}

/// Example:
///
/// `!ident("rule_str_{}", comptime_expr, ...)`
#[derive(Debug, PartialEq, Eq, Hash)]
pub struct AstComposedIdentifier {
    pub punc_bang: AstPunc,
    pub keyword_ident: AstKeyword,
    pub punc_open_paren: AstPunc,
    pub rule_str: AstStringLiteral,
    pub punc_comma: Option<AstPunc>,
    pub args: Vec<AstComposedIdentifierArg>,
    pub punc_close_paren: AstPunc,
}

#[derive(Debug, PartialEq, Eq, Hash)]
pub struct AstStringLiteral {
    pub node_id: NodeId,
    pub span: Span,
    pub content: Symbol,
    pub unquoted_content: Symbol,
    pub terminated: bool,
}

#[derive(Debug, PartialEq, Eq, Hash)]
pub struct AstComposedIdentifierArg {
    pub node_id: NodeId,
    pub span: Span,
    pub expr: AstExpr,
    pub punc_comma: Option<AstPunc>,
}

#[derive(Debug, PartialEq, Eq, Hash)]
pub struct AstTypeName {
    pub node_id: NodeId,
    pub span: Span,
    pub ident: AstIdentifier,
}

/// `inner` lies within `outer`: the parent-child span invariant.
pub open spec fn span_in(outer: Span, inner: Span) -> bool {
    outer.wf() && inner.wf() && outer.spec_contains_span(inner)
}

impl AstStringLiteral {
    pub open spec fn wf(&self) -> bool {
        self.span.wf()
    }
}

impl AstKeyword {
    pub open spec fn wf(&self) -> bool {
        self.span.wf()
    }
}

impl AstPunc {
    pub open spec fn wf(&self) -> bool {
        self.span.wf()
    }
}

impl AstExpr {
    /// The node's span contains every child's span, recursively.
    pub open spec fn wf(&self) -> bool
        decreases self,
    {
        &&& self.span.wf()
        &&& match self.kind {
            AstExprKind::Invalid => true,
            AstExprKind::Binary(ref b) => span_in(self.span, b.span) && b.wf(),
            AstExprKind::Unary(ref u) => span_in(self.span, u.span) && u.wf(),
        }
    }
}

impl AstBinaryExpr {
    pub open spec fn wf(&self) -> bool
        decreases self,
    {
        &&& self.span.wf()
        &&& span_in(self.span, self.op.span)
        &&& span_in(self.span, self.lhs.span) && self.lhs.wf()
        &&& span_in(self.span, self.rhs.span) && self.rhs.wf()
    }
}

impl AstUnaryExpr {
    pub open spec fn wf(&self) -> bool
        decreases self,
    {
        &&& self.span.wf()
        &&& span_in(self.span, self.op.span)
        &&& span_in(self.span, self.rhs.span) && self.rhs.wf()
    }
}

impl AstIdentifier {
    pub open spec fn wf(&self) -> bool
        decreases self,
    {
        &&& self.span.wf()
        &&& match self.kind {
            AstIdentifierKind::Invalid => true,
            AstIdentifierKind::Symbol(_) => true,
            AstIdentifierKind::Composed(ref c) => c.wf(self.span),
        }
    }
}

impl AstComposedIdentifier {
    /// Every part lies within the identifier's own span.
    pub open spec fn wf(&self, outer: Span) -> bool
        decreases self,
    {
        &&& span_in(outer, self.punc_bang.span)
        &&& span_in(outer, self.keyword_ident.span)
        &&& span_in(outer, self.punc_open_paren.span)
        &&& span_in(outer, self.rule_str.span)
        &&& (self.punc_comma matches Some(p) ==> span_in(outer, p.span))
        &&& forall|i: int|
            0 <= i < self.args@.len() ==> span_in(outer, (#[trigger] self.args@[i]).span)
                && self.args@[i].wf()
        &&& span_in(outer, self.punc_close_paren.span)
    }
}

impl AstComposedIdentifierArg {
    pub open spec fn wf(&self) -> bool
        decreases self,
    {
        &&& self.span.wf()
        &&& span_in(self.span, self.expr.span) && self.expr.wf()
        &&& (self.punc_comma matches Some(p) ==> span_in(self.span, p.span))
    }
}

impl AstTypeName {
    pub open spec fn wf(&self) -> bool {
        &&& self.span.wf()
        &&& span_in(self.span, self.ident.span) && self.ident.wf()
    }
}

impl AstFnDefReturnType {
    pub open spec fn wf(&self) -> bool {
        &&& self.span.wf()
        &&& span_in(self.span, self.punc_arrow.span)
        &&& span_in(self.span, self.ty_name.span) && self.ty_name.wf()
    }
}

impl AstFnDefParam {
    pub open spec fn wf(&self) -> bool {
        &&& self.span.wf()
        &&& forall|i: int|
            0 <= i < self.attributes@.len() ==> span_in(
                self.span,
                (#[trigger] self.attributes@[i]).span,
            ) && self.attributes@[i].wf()
        &&& span_in(self.span, self.ident.span) && self.ident.wf()
        &&& span_in(self.span, self.punc_colon.span)
        &&& span_in(self.span, self.ty_name.span) && self.ty_name.wf()
        &&& (self.punc_comma matches Some(p) ==> span_in(self.span, p.span))
    }
}

impl AstStatementVarDeclTypeName {
    pub open spec fn wf(&self) -> bool {
        &&& self.span.wf()
        &&& span_in(self.span, self.punc_colon.span)
        &&& span_in(self.span, self.ty_name.span) && self.ty_name.wf()
    }
}

impl AstStatementVarDeclAssignment {
    pub open spec fn wf(&self) -> bool {
        &&& self.span.wf()
        &&& span_in(self.span, self.punc_assignment.span)
        &&& span_in(self.span, self.rhs.span) && self.rhs.wf()
    }
}

impl AstStatementVarDecl {
    /// Every part lies within the statement's own span.
    pub open spec fn wf(&self, outer: Span) -> bool {
        &&& span_in(outer, self.keyword_let.span)
        &&& span_in(outer, self.ident.span) && self.ident.wf()
        &&& (self.ty_name matches Some(ref t) ==> span_in(outer, t.span) && t.wf())
        &&& (self.assignment matches Some(ref a) ==> span_in(outer, a.span) && a.wf())
        &&& span_in(outer, self.punc_semicolon.span)
    }
}

impl AstStatementAssignment {
    /// Every part lies within the statement's own span.
    pub open spec fn wf(&self, outer: Span) -> bool {
        &&& span_in(outer, self.op.span)
        &&& span_in(outer, self.lhs.span) && self.lhs.wf()
        &&& span_in(outer, self.rhs.span) && self.rhs.wf()
        &&& span_in(outer, self.punc_semicolon.span)
    }
}

impl AstStatement {
    pub open spec fn wf(&self) -> bool {
        &&& self.span.wf()
        &&& match self.kind {
            AstStatementKind::VarDecl(ref v) => v.wf(self.span),
            AstStatementKind::Assignment(ref a) => a.wf(self.span),
            AstStatementKind::Expr(ref e) => span_in(self.span, e.span) && e.wf(),
        }
    }
}

impl AstFnDef {
    pub open spec fn wf(&self) -> bool {
        &&& self.span.wf()
        &&& forall|i: int|
            0 <= i < self.attributes@.len() ==> span_in(
                self.span,
                (#[trigger] self.attributes@[i]).span,
            ) && self.attributes@[i].wf()
        &&& span_in(self.span, self.keyword_fn.span)
        &&& span_in(self.span, self.ident.span) && self.ident.wf()
        &&& span_in(self.span, self.punc_open_paren.span)
        &&& forall|i: int|
            0 <= i < self.params@.len() ==> span_in(self.span, (#[trigger] self.params@[i]).span)
                && self.params@[i].wf()
        &&& span_in(self.span, self.punc_close_paren.span)
        &&& (self.return_type matches Some(ref r) ==> span_in(self.span, r.span) && r.wf())
        &&& span_in(self.span, self.punc_open_brace.span)
        &&& forall|i: int|
            0 <= i < self.statements@.len() ==> span_in(
                self.span,
                (#[trigger] self.statements@[i]).span,
            ) && self.statements@[i].wf()
        &&& span_in(self.span, self.punc_close_brace.span)
    }
}

impl AstStage {
    pub open spec fn wf(&self) -> bool {
        &&& self.span.wf()
        &&& forall|i: int|
            0 <= i < self.attributes@.len() ==> span_in(
                self.span,
                (#[trigger] self.attributes@[i]).span,
            ) && self.attributes@[i].wf()
        &&& span_in(self.span, self.stage.span) && self.stage.wf()
        &&& span_in(self.span, self.punc_open_brace.span)
        &&& forall|i: int|
            0 <= i < self.statements@.len() ==> span_in(
                self.span,
                (#[trigger] self.statements@[i]).span,
            ) && self.statements@[i].wf()
        &&& span_in(self.span, self.punc_close_brace.span)
    }
}

impl AstPassLevel {
    pub open spec fn wf(&self) -> bool {
        &&& self.span.wf()
        &&& match self.kind {
            AstPassLevelKind::Input(ref i) => span_in(self.span, i.span) && i.wf(),
            AstPassLevelKind::Stage(ref st) => span_in(self.span, st.span) && st.wf(),
        }
    }
}

impl AstPass {
    pub open spec fn wf(&self) -> bool {
        &&& self.span.wf()
        &&& forall|i: int|
            0 <= i < self.attributes@.len() ==> span_in(
                self.span,
                (#[trigger] self.attributes@[i]).span,
            ) && self.attributes@[i].wf()
        &&& span_in(self.span, self.keyword_pass.span)
        &&& span_in(self.span, self.ident.span) && self.ident.wf()
        &&& span_in(self.span, self.punc_open_brace.span)
        &&& forall|i: int|
            0 <= i < self.pass_levels@.len() ==> span_in(
                self.span,
                (#[trigger] self.pass_levels@[i]).span,
            ) && self.pass_levels@[i].wf()
        &&& span_in(self.span, self.punc_close_brace.span)
    }
}

impl AstInput {
    pub open spec fn wf(&self) -> bool {
        &&& self.span.wf()
        &&& forall|i: int|
            0 <= i < self.attributes@.len() ==> span_in(
                self.span,
                (#[trigger] self.attributes@[i]).span,
            ) && self.attributes@[i].wf()
        &&& span_in(self.span, self.keyword_in.span)
        &&& span_in(self.span, self.ident.span) && self.ident.wf()
        &&& span_in(self.span, self.punc_colon.span)
        &&& span_in(self.span, self.ty_name.span) && self.ty_name.wf()
        &&& span_in(self.span, self.punc_semicolon.span)
    }
}

impl AstAttributeItem {
    pub open spec fn wf(&self) -> bool {
        &&& self.span.wf()
        &&& span_in(self.span, self.punc_at.span)
        &&& span_in(self.span, self.ident.span) && self.ident.wf()
        &&& span_in(self.span, self.punc_assign.span)
        &&& span_in(self.span, self.expr.span) && self.expr.wf()
    }
}

impl AstAttribute {
    pub open spec fn wf(&self) -> bool {
        &&& self.span.wf()
        &&& forall|i: int|
            0 <= i < self.items@.len() ==> span_in(self.span, (#[trigger] self.items@[i]).span)
                && self.items@[i].wf()
    }
}

impl AstCompTimeIfPredicateExpr {
    pub open spec fn wf(&self) -> bool
        decreases self,
    {
        &&& self.span.wf()
        &&& match self.kind {
            AstCompTimeIfPredicateExprKind::Invalid => true,
            AstCompTimeIfPredicateExprKind::Single(ref s) => span_in(self.span, s.span) && s.wf(),
            AstCompTimeIfPredicateExprKind::And(ref a) => span_in(self.span, a.span) && a.wf(),
            AstCompTimeIfPredicateExprKind::Or(ref o) => span_in(self.span, o.span) && o.wf(),
        }
    }
}

impl AstCompTimeIfPredicateExprSingle {
    pub open spec fn wf(&self) -> bool
        decreases self,
    {
        &&& self.span.wf()
        &&& match self.kind {
            AstCompTimeIfPredicateExprSingleKind::Invalid => true,
            AstCompTimeIfPredicateExprSingleKind::Flag(ref f) => span_in(self.span, f.span)
                && f.wf(),
            AstCompTimeIfPredicateExprSingleKind::Paren(ref p) => span_in(self.span, p.span)
                && p.wf(),
            AstCompTimeIfPredicateExprSingleKind::Not(ref n) => span_in(self.span, n.span)
                && n.wf(),
        }
    }
}

impl AstCompTimeIfPredicateExprAnd {
    pub open spec fn wf(&self) -> bool
        decreases self,
    {
        &&& self.span.wf()
        &&& span_in(self.span, self.lhs.span) && self.lhs.wf()
        &&& span_in(self.span, self.keyword_and.span)
        &&& span_in(self.span, self.rhs.span) && self.rhs.wf()
    }
}

impl AstCompTimeIfPredicateExprOr {
    pub open spec fn wf(&self) -> bool
        decreases self,
    {
        &&& self.span.wf()
        &&& span_in(self.span, self.lhs.span) && self.lhs.wf()
        &&& span_in(self.span, self.keyword_or.span)
        &&& span_in(self.span, self.rhs.span) && self.rhs.wf()
    }
}

impl AstCompTimeIfPredicateExprFlag {
    pub open spec fn wf(&self) -> bool {
        &&& self.span.wf()
        &&& span_in(self.span, self.flag.span) && self.flag.wf()
    }
}

impl AstCompTimeIfPredicateExprParen {
    pub open spec fn wf(&self) -> bool
        decreases self,
    {
        &&& self.span.wf()
        &&& span_in(self.span, self.punc_open_paren.span)
        &&& span_in(self.span, self.expr.span) && self.expr.wf()
        &&& (self.punc_close_paren.span.low != u32::MAX ==> span_in(
            self.span,
            self.punc_close_paren.span,
        ))
    }
}

impl AstCompTimeIfPredicateExprNot {
    pub open spec fn wf(&self) -> bool
        decreases self,
    {
        &&& self.span.wf()
        &&& span_in(self.span, self.keyword_not.span)
        &&& span_in(self.span, self.expr.span) && self.expr.wf()
    }
}

impl AstCompTimeBlock<AstTopLevel> {
    pub open spec fn wf(&self) -> bool
        decreases self,
    {
        &&& self.span.wf()
        &&& span_in(self.span, self.punc_open_brace.span)
        &&& forall|i: int|
            0 <= i < self.items@.len() ==> span_in(self.span, (#[trigger] self.items@[i]).span)
                && self.items@[i].wf()
        &&& span_in(self.span, self.punc_close_brace.span)
    }
}

impl AstCompTimeIfPart<AstTopLevel> {
    pub open spec fn wf(&self) -> bool
        decreases self,
    {
        &&& self.span.wf()
        &&& span_in(self.span, self.keyword_if.span)
        &&& span_in(self.span, self.predicate.span) && self.predicate.wf()
        &&& span_in(self.span, self.block.span) && self.block.wf()
    }
}

impl AstCompTimeElseIfPart<AstTopLevel> {
    pub open spec fn wf(&self) -> bool
        decreases self,
    {
        &&& self.span.wf()
        &&& span_in(self.span, self.keyword_else.span)
        &&& span_in(self.span, self.keyword_if.span)
        &&& span_in(self.span, self.predicate.span) && self.predicate.wf()
        &&& span_in(self.span, self.block.span) && self.block.wf()
    }
}

impl AstCompTimeElsePart<AstTopLevel> {
    pub open spec fn wf(&self) -> bool
        decreases self,
    {
        &&& self.span.wf()
        &&& span_in(self.span, self.keyword_else.span)
        &&& span_in(self.span, self.block.span) && self.block.wf()
    }
}

impl AstCompTimeIf<AstTopLevel> {
    pub open spec fn wf(&self) -> bool
        decreases self,
    {
        &&& self.span.wf()
        &&& span_in(self.span, self.if_part.span) && self.if_part.wf()
        &&& forall|i: int|
            0 <= i < self.else_if_parts@.len() ==> span_in(
                self.span,
                (#[trigger] self.else_if_parts@[i]).span,
            ) && self.else_if_parts@[i].wf()
        &&& (self.else_part matches Some(ref e) ==> span_in(self.span, e.span) && e.wf())
    }
}

impl AstCompTimeLoop<AstTopLevel> {
    pub open spec fn wf(&self) -> bool
        decreases self,
    {
        &&& self.span.wf()
        &&& span_in(self.span, self.keyword_loop.span)
        &&& span_in(self.span, self.loop_var_ident.span) && self.loop_var_ident.wf()
        &&& span_in(self.span, self.keyword_times.span)
        &&& span_in(self.span, self.expr.span) && self.expr.wf()
        &&& span_in(self.span, self.block.span) && self.block.wf()
    }
}

impl AstCompTime<AstTopLevel> {
    pub open spec fn wf(&self) -> bool
        decreases self,
    {
        &&& self.span.wf()
        &&& span_in(self.span, self.keyword_comptime.span)
        &&& match self.kind {
            AstCompTimeKind::Invalid => true,
            AstCompTimeKind::If(ref i) => span_in(self.span, i.span) && i.wf(),
            AstCompTimeKind::Loop(ref l) => span_in(self.span, l.span) && l.wf(),
        }
    }
}

impl AstTopLevel {
    pub open spec fn wf(&self) -> bool
        decreases self,
    {
        &&& self.span.wf()
        &&& match self.kind {
            AstTopLevelKind::CompTime(ref c) => span_in(self.span, c.span) && c.wf(),
            AstTopLevelKind::FnDef(ref f) => span_in(self.span, f.span) && f.wf(),
            AstTopLevelKind::Input(ref i) => span_in(self.span, i.span) && i.wf(),
            AstTopLevelKind::Pass(ref p) => span_in(self.span, p.span) && p.wf(),
        }
    }
}

impl AstShaderPack {
    pub open spec fn wf(&self) -> bool {
        &&& self.span.wf()
        &&& forall|i: int|
            0 <= i < self.top_levels@.len() ==> span_in(
                self.span,
                (#[trigger] self.top_levels@[i]).span,
            ) && self.top_levels@[i].wf()
    }
}

} // verus!
