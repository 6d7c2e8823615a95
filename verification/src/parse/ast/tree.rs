use vstd::prelude::*;
use std::sync::Arc;
use crate::parse::ast::node_id::NodeId;
use crate::parse::ast::punctuated::{Punctuated, PUNCTUATION_KIND_COMMA, PUNCTUATION_KIND_PATH_SEP};
use crate::parse::lexer::token::Token;
use crate::parse::lexer::token_literal::TokenLiteral;
use crate::span::Span;
use crate::symbol::Symbol;

verus! {

/// A name as it stands in the source: its symbol and where it was written.
#[derive(Debug, Clone, Copy, PartialEq, Eq, Structural, Hash)]
pub struct Id {
    pub span: Span,
    pub symbol: Symbol,
}

#[derive(Debug, Hash)]
pub struct ASTModule {
    pub id: NodeId,
    pub span: Span,
    pub items: Vec<ASTModuleItem>,
}

#[derive(Debug, Hash)]
pub struct ASTModuleItem {
    pub id: NodeId,
    pub span: Span,
    pub kind: ASTModuleItemKind,
}

#[derive(Debug, Hash)]
pub enum ASTModuleItemKind {
    Use(Arc<ASTUse>),
    AliasDef(Arc<ASTAliasDef>),
    ModuleDecl(Arc<ASTModuleDecl>),
    ModuleDef(Arc<ASTModuleDef>),
    ExternBlock(ASTExternBlock),
    FnDef(Arc<ASTFnDef>),
    StructDef(Arc<ASTStructDef>),
    InterfaceDef(Arc<ASTInterfaceDef>),
    ImplBlock(ASTImplBlock),
}

#[derive(Debug, Hash)]
pub struct ASTUse {
    pub id: NodeId,
    pub span: Span,
    pub keyword_pub: Option<Id>, // pub
    pub keyword_use: Id,         // use
    pub path: ASTUsePath,        // self::super::identifier::*
    pub token_semicolon: Token,  // ;
}

#[derive(Debug, Hash)]
pub struct ASTUsePath {
    pub id: NodeId,
    pub span: Span,
    pub prefix: Option<ASTUsePathPrefix>, // self::super::identifier::
    pub item: ASTUsePathItem,             // * | identifier | { ... }
}

#[derive(Debug, Hash)]
pub struct ASTUsePathPrefix {
    pub id: NodeId,
    pub span: Span,
    pub segments: Vec<ASTUsePathPrefixSegment>, // self::super::identifier::
}

#[derive(Debug, Hash)]
pub struct ASTUsePathPrefixSegment {
    pub id: NodeId,
    pub span: Span,
    pub kind: ASTUsePathPrefixSegmentKind, // self | super | identifier
    pub token_path_sep: Token,             // ::
}

#[derive(Debug, Clone, Copy, PartialEq, Eq, Structural, Hash)]
pub enum ASTUsePathPrefixSegmentKind {
    Self_(Id),      // self
    Super_(Id),     // super
    Identifier(Id), // identifier
}

impl ASTUsePathPrefixSegmentKind {
    /// The name token of the segment, whatever its kind.
    pub open spec fn spec_id(&self) -> Id {
        match self {
            Self::Self_(id) => *id,
            Self::Super_(id) => *id,
            Self::Identifier(id) => *id,
        }
    }

    pub fn id(&self) -> (r: Id)
        ensures
            r == self.spec_id(),
    {
        match self {
            Self::Self_(id) => *id,
            Self::Super_(id) => *id,
            Self::Identifier(id) => *id,
        }
    }
}

#[derive(Debug, Hash)]
pub struct ASTUsePathItem {
    pub id: NodeId,
    pub span: Span,
    pub kind: ASTUsePathItemKind,
}

#[derive(Debug, Hash)]
pub enum ASTUsePathItemKind {
    All(Token),                   // *
    Single(ASTUsePathItemSingle), // identifier | identifier as identifier
    Group(ASTUsePathItemGroup),   // { ... }
}

#[derive(Debug, Hash)]
pub struct ASTUsePathItemSingle {
    pub id: NodeId,
    pub span: Span,
    pub identifier: Id,                           // identifier
    pub alias: Option<ASTUsePathItemSingleAlias>, // as identifier
}

#[derive(Debug, Hash)]
pub struct ASTUsePathItemSingleAlias {
    pub id: NodeId,
    pub span: Span,
    pub keyword_as: Id, // as
    pub identifier: Id, // identifier
}

#[derive(Debug, Hash)]
pub struct ASTUsePathItemGroup {
    pub id: NodeId,
    pub span: Span,
    pub token_brace_open: Token, // {
    pub items: Punctuated<ASTUsePath, PUNCTUATION_KIND_COMMA>,
    pub token_brace_close: Token, // }
}

#[derive(Debug, Hash)]
pub struct ASTAliasDef {
    pub id: NodeId,
    pub span: Span,
    pub keyword_pub: Option<Id>, // pub
    pub keyword_alias: Id,       // alias
    pub identifier: Id,          // identifier
    pub token_assign: Token,     // =
    pub ty: ASTTy,               // ty
    pub token_semicolon: Token,  // ;
}

#[derive(Debug, Hash)]
pub struct ASTModuleDecl {
    pub id: NodeId,
    pub span: Span,
    pub keyword_pub: Option<Id>, // pub
    pub keyword_module: Id,      // module
    pub identifier: Id,          // identifier
    pub token_semicolon: Token,  // ;
}

#[derive(Debug, Hash)]
pub struct ASTModuleDef {
    pub id: NodeId,
    pub span: Span,
    pub keyword_pub: Option<Id>, // pub
    pub keyword_module: Id,      // module
    pub identifier: Id,          // identifier
    pub token_brace_open: Token, // {
    pub items: Vec<ASTModuleItem>,
    pub token_brace_close: Token, // }
}

#[derive(Debug, Hash)]
pub struct ASTExternBlock {
    pub id: NodeId,
    pub span: Span,
    pub keyword_extern: Id,      // extern
    pub token_brace_open: Token, // {
    pub items: Vec<ASTExternBlockItem>,
    pub token_brace_close: Token, // }
}

#[derive(Debug, Hash)]
pub struct ASTExternBlockItem {
    pub id: NodeId,
    pub span: Span,
    pub kind: ASTExternBlockItemKind,
}

#[derive(Debug, Hash)]
pub enum ASTExternBlockItemKind {
    PrototypeDef(Arc<ASTPrototypeDef>),
    FnDef(Arc<ASTFnDef>),
    StructDef(Arc<ASTStructDef>),
    ImplBlock(ASTImplBlock),
}

#[derive(Debug, Hash)]
pub struct ASTPrototypeDef {
    pub id: NodeId,
    pub span: Span,
    pub keyword_pub: Option<Id>,                                   // pub
    pub keyword_prototype: Id,                                     // prototype
    pub identifier: Id,                                            // identifier
    pub token_paren_open: Token,                                   // (
    pub params: Punctuated<ASTFnParam, PUNCTUATION_KIND_COMMA>, // ...
    pub token_paren_close: Token,                                  // )
    pub result: Option<ASTFnResult>,                               // -> ty
    pub token_semicolon: Token,                                    // ;
}

#[derive(Debug, Hash)]
pub struct ASTFnDef {
    pub id: NodeId,
    pub span: Span,
    pub keyword_pub: Option<Id>,                // pub
    pub keyword_fn: Id,                         // fn
    pub identifier: Id,                         // identifier
    pub generic_param: Option<ASTGenericParam>, // <...>
    pub token_paren_open: Token,                // (
    pub params: Punctuated<ASTFnParam, PUNCTUATION_KIND_COMMA>,
    pub token_paren_close: Token,               // )
    pub result: Option<ASTFnResult>,            // -> ty
    pub generic_where: Option<ASTGenericWhere>, // where ...
    pub stmt_block: ASTStmtBlock,               // { ... }
}

#[derive(Debug, Hash)]
pub struct ASTFnParam {
    pub id: NodeId,
    pub span: Span,
    pub identifier: Id,     // identifier
    pub token_colon: Token, // :
    pub ty: ASTTy,          // ty
}

#[derive(Debug, Hash)]
pub struct ASTFnResult {
    pub id: NodeId,
    pub span: Span,
    pub token_arrow: Token, // ->
    pub ty: ASTTy,          // ty
}

#[derive(Debug, Hash)]
pub struct ASTStructDef {
    pub id: NodeId,
    pub span: Span,
    pub keyword_pub: Option<Id>,                // pub
    pub keyword_struct: Id,                     // struct
    pub identifier: Id,                         // identifier
    pub generic_param: Option<ASTGenericParam>, // <...>
    pub generic_where: Option<ASTGenericWhere>, // where ...
    pub token_brace_open: Token,                // {
    pub fields: Punctuated<ASTStructDefField, PUNCTUATION_KIND_COMMA>,
    pub token_brace_close: Token, // }
}

#[derive(Debug, Hash)]
pub struct ASTStructDefField {
    pub id: NodeId,
    pub span: Span,
    pub identifier: Id,     // identifier
    pub token_colon: Token, // :
    pub ty: ASTTy,          // ty
}

#[derive(Debug, Hash)]
pub struct ASTInterfaceDef {
    pub id: NodeId,
    pub span: Span,
    pub keyword_pub: Option<Id>,                // pub
    pub keyword_interface: Id,                  // interface
    pub identifier: Id,                         // identifier
    pub generic_param: Option<ASTGenericParam>, // <...>
    pub generic_where: Option<ASTGenericWhere>, // where ...
    pub token_brace_open: Token,                // {
    pub items: Vec<ASTInterfaceDefItem>,        // ...
    pub token_brace_close: Token,               // }
}

#[derive(Debug, Hash)]
pub struct ASTInterfaceDefItem {
    pub id: NodeId,
    pub span: Span,
    pub kind: ASTInterfaceDefItemKind,
}

#[derive(Debug, Hash)]
pub enum ASTInterfaceDefItemKind {
    FnDecl(ASTInterfaceDefItemFnDecl),
}

#[derive(Debug, Hash)]
pub struct ASTInterfaceDefItemFnDecl {
    pub id: NodeId,
    pub span: Span,
    pub keyword_fn: Id,                                            // fn
    pub identifier: Id,                                            // identifier
    pub generic_param: Option<ASTGenericParam>,                    // <...>
    pub token_paren_open: Token,                                   // (
    pub params: Punctuated<ASTFnParam, PUNCTUATION_KIND_COMMA>, // identifier: ty, ...
    pub token_paren_close: Token,                                  // )
    pub result: Option<ASTFnResult>,                               // -> ty
    pub generic_where: Option<ASTGenericWhere>,                    // where ...
    pub token_semicolon: Token,                                    // ;
}

#[derive(Debug, Hash)]
pub struct ASTImplBlock {
    pub id: NodeId,
    pub span: Span,
    pub keyword_impl: Id,                         // impl
    pub generic_param: Option<ASTGenericParam>,   // <...>
    pub ty: ASTTy,                                // ty
    pub interface: Option<ASTImplBlockInterface>, // interface path::to::interface
    pub generic_where: Option<ASTGenericWhere>,   // where ...
    pub token_brace_open: Token,                  // {
    pub items: Vec<ASTImplBlockItem>,             // ...
    pub token_brace_close: Token,                 // }
}

#[derive(Debug, Hash)]
pub struct ASTImplBlockInterface {
    pub id: NodeId,
    pub span: Span,
    pub keyword_interface: Id, // interface
    pub path: ASTPath,         // path::to::interface
}

#[derive(Debug, Hash)]
pub struct ASTImplBlockItem {
    pub id: NodeId,
    pub span: Span,
    pub kind: ASTImplBlockItemKind,
}

#[derive(Debug, Hash)]
pub enum ASTImplBlockItemKind {
    FnDef(ASTFnDef),
}

#[derive(Debug, Hash)]
pub struct ASTGenericParam {
    pub id: NodeId,
    pub span: Span,
    pub token_angle_open: Token, // <
    pub items: Punctuated<ASTGenericParamItem, PUNCTUATION_KIND_COMMA>,
    pub token_angle_close: Token, // >
}

#[derive(Debug, Hash)]
pub struct ASTGenericParamItem {
    pub id: NodeId,
    pub span: Span,
    pub identifier: Id, // identifier
}

#[derive(Debug, Hash)]
pub struct ASTGenericWhere {
    pub id: NodeId,
    pub span: Span,
    pub keyword_where: Id, // where
    pub items: Punctuated<ASTGenericWhereItem, PUNCTUATION_KIND_COMMA>,
}

#[derive(Debug, Hash)]
pub struct ASTGenericWhereItem {
    pub id: NodeId,
    pub span: Span,
    pub identifier: Id,                          // identifier
    pub token_colon: Token,                      // :
    pub condition: ASTGenericWhereItemCondition, // path::to::interface + path::to::interface
}

#[derive(Debug, Hash)]
pub struct ASTGenericWhereItemCondition {
    pub id: NodeId,
    pub span: Span,
    pub path: ASTPath,                                      // path::to::interface
    pub extra_items: Vec<ASTGenericWhereItemConditionItem>, // + path::to::interface
}

#[derive(Debug, Hash)]
pub struct ASTGenericWhereItemConditionItem {
    pub id: NodeId,
    pub span: Span,
    pub token_plus: Token, // +
    pub path: ASTPath,     // path::to::interface
}

#[derive(Debug, Hash)]
pub struct ASTGenericArg {
    pub id: NodeId,
    pub span: Span,
    pub token_angle_open: Token, // <
    pub args: Punctuated<ASTTy, PUNCTUATION_KIND_COMMA>,
    pub token_angle_close: Token, // >
}

#[derive(Debug, Hash)]
pub struct ASTStmtBlock {
    pub id: NodeId,
    pub span: Span,
    pub token_brace_open: Token, // {
    pub stmts: Vec<ASTStmt>,
    pub token_brace_close: Token, // }
}

#[derive(Debug, Hash)]
pub struct ASTStmtLet {
    pub id: NodeId,
    pub span: Span,
    pub keyword_let: Id,              // let
    pub identifier: Id,               // identifier
    pub ty: Option<ASTStmtLetTy>,     // : ty
    pub expr: Option<ASTStmtLetExpr>, // = expression
    pub token_semicolon: Token,       // ;
}

#[derive(Debug, Hash)]
pub struct ASTStmtLetTy {
    pub id: NodeId,
    pub span: Span,
    pub token_colon: Token, // :
    pub ty: ASTTy,          // ty
}

#[derive(Debug, Hash)]
pub struct ASTStmtLetExpr {
    pub id: NodeId,
    pub span: Span,
    pub token_assign: Token, // =
    pub expr: ASTExpr,       // expression
}

#[derive(Debug, Hash)]
pub struct ASTStmtIf {
    pub id: NodeId,
    pub span: Span,
    pub keyword_if: Id,           // if
    pub expr: ASTExpr,            // expression
    pub stmt_block: ASTStmtBlock, // { ... }
    pub else_ifs: Vec<ASTStmtIfElseIf>,
    pub else_: Option<ASTStmtIfElse>,
}

#[derive(Debug, Hash)]
pub struct ASTStmtIfElseIf {
    pub id: NodeId,
    pub span: Span,
    pub keyword_else: Id,         // else
    pub keyword_if: Id,           // if
    pub expr: ASTExpr,            // expression
    pub stmt_block: ASTStmtBlock, // { ... }
}

#[derive(Debug, Hash)]
pub struct ASTStmtIfElse {
    pub id: NodeId,
    pub span: Span,
    pub keyword_else: Id,         // else
    pub stmt_block: ASTStmtBlock, // { ... }
}

#[derive(Debug, Hash)]
pub struct ASTStmtLoop {
    pub id: NodeId,
    pub span: Span,
    pub keyword_loop: Id,         // loop
    pub stmt_block: ASTStmtBlock, // { ... }
}

#[derive(Debug, Hash)]
pub struct ASTStmtWhile {
    pub id: NodeId,
    pub span: Span,
    pub keyword_while: Id,        // while
    pub expr: ASTExpr,            // expression
    pub stmt_block: ASTStmtBlock, // { ... }
}

#[derive(Debug, Hash)]
pub struct ASTStmtBreak {
    pub id: NodeId,
    pub span: Span,
    pub keyword_break: Id,      // break
    pub token_semicolon: Token, // ;
}

#[derive(Debug, Hash)]
pub struct ASTStmtContinue {
    pub id: NodeId,
    pub span: Span,
    pub keyword_continue: Id,   // continue
    pub token_semicolon: Token, // ;
}

#[derive(Debug, Hash)]
pub struct ASTStmtReturn {
    pub id: NodeId,
    pub span: Span,
    pub keyword_return: Id, // return
    pub expr: Option<ASTExpr>,
    pub token_semicolon: Token, // ;
}

#[derive(Debug, Hash)]
pub struct ASTStmtAssignment {
    pub id: NodeId,
    pub span: Span,
    pub operand_lhs: ASTExpr,
    pub operator: ASTStmtAssignmentOperator,
    pub operand_rhs: ASTExpr,
    pub token_semicolon: Token, // ;
}

#[derive(Debug, Hash)]
pub struct ASTStmtAssignmentOperator {
    pub id: NodeId,
    pub span: Span,
    pub token_operator: Token,
    pub kind: ASTStmtAssignmentOperatorKind,
}

#[derive(Debug, Clone, Copy, PartialEq, Eq, Structural, Hash)]
pub enum ASTStmtAssignmentOperatorKind {
    Assignment, // =
    Add,        // +=
    Sub,        // -=
    Mul,        // *=
    Div,        // /=
    Mod,        // %=
    Pow,        // **=
    Shl,        // <<=
    Shr,        // >>=
    BitOr,      // |=
    BitAnd,     // &=
    BitXor,     // ^=
}


#[derive(Debug, Hash)]
pub struct ASTStmtExpr {
    pub id: NodeId,
    pub span: Span,
    pub expr: ASTExpr,          // expression
    pub token_semicolon: Token, // ;
}

#[derive(Debug, Hash)]
pub struct ASTStmt {
    pub id: NodeId,
    pub span: Span,
    pub kind: ASTStmtKind,
}

#[derive(Debug, Hash)]
pub enum ASTStmtKind {
    Block(ASTStmtBlock),
    Let(ASTStmtLet),
    If(ASTStmtIf),
    Loop(ASTStmtLoop),
    While(ASTStmtWhile),
    Break(ASTStmtBreak),
    Continue(ASTStmtContinue),
    Return(ASTStmtReturn),
    Assignment(ASTStmtAssignment),
    Expr(ASTStmtExpr),
}

#[derive(Debug, Hash)]
pub struct ASTExpr {
    pub id: NodeId,
    pub span: Span,
    pub kind: ASTExprKind,
}

#[derive(Debug, Hash)]
pub enum ASTExprKind {
    Binary(ASTExprBinary),               // Precedence 5 : postfix
    As(ASTExprAs),                       // Precedence 4 : postfix
    Unary(ASTExprUnary),                 // Precedence 3 : prefix
    Call(ASTExprCall),                   // Precedence 2 : postfix
    Member(ASTExprMember),               // Precedence 2 : postfix
    Paren(ASTExprParen),                 // Precedence 1 : prefix
    Path(ASTExprPath),                   // Precedence 1 : single item
    Literal(ASTExprLiteral),             // Precedence 1 : single item
    StructLiteral(ASTExprStructLiteral), // Precedence 1 : single item
}

#[derive(Debug, Hash)]
pub struct ASTExprBinary {
    pub id: NodeId,
    pub span: Span,
    pub operand_lhs: Box<ASTExpr>,
    pub operator: ASTExprBinaryOperator,
    pub operand_rhs: Box<ASTExpr>,
}

#[derive(Debug, Hash)]
pub struct ASTExprBinaryOperator {
    pub id: NodeId,
    pub span: Span,
    pub token_operator: Token,
    pub kind: ASTExprBinaryOperatorKind,
}

#[derive(Debug, Clone, Copy, PartialEq, Eq, Structural, Hash)]
pub enum ASTExprBinaryOperatorKind {
    Eq,     // Precedence 7 : compare
    Ne,     // Precedence 7 : compare
    Lt,     // Precedence 7 : compare
    Gt,     // Precedence 7 : compare
    Le,     // Precedence 7 : compare
    Ge,     // Precedence 7 : compare
    LogOr,  // Precedence 6 : logical_or_and
    LogAnd, // Precedence 6 : logical_or_and
    Add,    // Precedence 5 : arithmetic_add_sub
    Sub,    // Precedence 5 : arithmetic_add_sub
    Mul,    // Precedence 4 : arithmetic_mul_div_mod
    Div,    // Precedence 4 : arithmetic_mul_div_mod
    Mod,    // Precedence 4 : arithmetic_mul_div_mod
    Pow,    // Precedence 3 : arithmetic_pow
    Shl,    // Precedence 2 : bit_shift
    Shr,    // Precedence 2 : bit_shift
    BitOr,  // Precedence 1 : bit_or_and_xor
    BitAnd, // Precedence 1 : bit_or_and_xor
    BitXor, // Precedence 1 : bit_or_and_xor
}


#[derive(Debug, Hash)]
pub struct ASTExprAs {
    pub id: NodeId,
    pub span: Span,
    pub expr: Box<ASTExpr>,
    pub keyword_as: Id, // as
    pub ty: ASTTy,      // ty
}

#[derive(Debug, Hash)]
pub struct ASTExprUnary {
    pub id: NodeId,
    pub span: Span,
    pub operator: ASTExprUnaryOperator,
    pub operand_lhs: Box<ASTExpr>,
}

#[derive(Debug, Hash)]
pub struct ASTExprUnaryOperator {
    pub id: NodeId,
    pub span: Span,
    pub token_operator: Token,
    pub kind: ASTExprUnaryOperatorKind,
}

#[derive(Debug, Clone, Copy, PartialEq, Eq, Structural, Hash)]
pub enum ASTExprUnaryOperatorKind {
    Plus,
    Minus,
    BitNot,
    LogNot,
    AddressOf,
    Dereference,
}


#[derive(Debug, Hash)]
pub struct ASTExprCall {
    pub id: NodeId,
    pub span: Span,
    pub callee: ASTExprCallCallee,
    pub token_paren_open: Token, // (
    pub args: Punctuated<ASTExpr, PUNCTUATION_KIND_COMMA>,
    pub token_paren_close: Token, // )
}

#[derive(Debug, Hash)]
pub struct ASTExprCallCallee {
    pub id: NodeId,
    pub span: Span,
    pub expr: Box<ASTExpr>,
}

#[derive(Debug, Hash)]
pub struct ASTExprMember {
    pub id: NodeId,
    pub span: Span,
    pub expr: Box<ASTExpr>,
    pub token_dot: Token, // .
    pub member: Id,       // identifier
}

#[derive(Debug, Hash)]
pub struct ASTExprParen {
    pub id: NodeId,
    pub span: Span,
    pub token_paren_open: Token, // (
    pub expr: Box<ASTExpr>,
    pub token_paren_close: Token, // )
}

#[derive(Debug, Hash)]
pub struct ASTExprPath {
    pub id: NodeId,
    pub span: Span,
    pub path: ASTPath,
}

#[derive(Debug, Hash)]
pub struct ASTExprLiteral {
    pub id: NodeId,
    pub span: Span,
    pub literal: TokenLiteral,
}

#[derive(Debug, Hash)]
pub struct ASTExprStructLiteral {
    pub id: NodeId,
    pub span: Span,
    pub path: ASTPath,
    pub token_brace_open: Token, // {
    pub fields: Punctuated<ASTExprStructLiteralField, PUNCTUATION_KIND_COMMA>,
    pub token_brace_close: Token, // }
}

#[derive(Debug, Hash)]
pub struct ASTExprStructLiteralField {
    pub id: NodeId,
    pub span: Span,
    pub identifier: Id,     // identifier
    pub token_colon: Token, // :
    pub expr: ASTExpr,      // expression
}

#[derive(Debug, Hash)]
pub struct ASTPath {
    pub id: NodeId,
    pub span: Span,
    pub segments: Punctuated<ASTPathSegment, PUNCTUATION_KIND_PATH_SEP>,
}

#[derive(Debug, Hash)]
pub struct ASTPathSegment {
    pub id: NodeId,
    pub span: Span,
    pub identifier: Id, // identifier
    pub generic: Option<ASTGenericArg>,
}

#[derive(Debug, Hash)]
pub struct ASTTy {
    pub id: NodeId,
    pub span: Span,
    pub kind: ASTTyKind,
}

#[derive(Debug, Hash)]
pub enum ASTTyKind {
    Paren(ASTTyParen),
    Span(ASTTySpan),
    Array(ASTTyArray),
    FnPointer(ASTTyFnPointer),
    Path(ASTPath),
}

#[derive(Debug, Hash)]
pub struct ASTTyParen {
    pub id: NodeId,
    pub span: Span,
    pub token_paren_open: Token,  // (
    pub ty: Box<ASTTy>,           // ty
    pub token_paren_close: Token, // )
}

#[derive(Debug, Hash)]
pub struct ASTTySpan {
    pub id: NodeId,
    pub span: Span,
    pub token_bracket_open: Token,  // [
    pub ty: Box<ASTTy>,             // ty
    pub token_bracket_close: Token, // ]
}

#[derive(Debug, Hash)]
pub struct ASTTyArray {
    pub id: NodeId,
    pub span: Span,
    pub token_bracket_open: Token,  // [
    pub ty: Box<ASTTy>,             // ty
    pub token_semicolon: Token,     // ;
    pub literal: TokenLiteral,      // literal
    pub token_bracket_close: Token, // ]
}

#[derive(Debug, Hash)]
pub struct ASTTyFnPointer {
    pub id: NodeId,
    pub span: Span,
    pub keyword_fn: Id,                                       // fn
    pub token_paren_open: Token,                              // (
    pub params: Punctuated<ASTTy, PUNCTUATION_KIND_COMMA>, // ty, ty, ..
    pub token_paren_close: Token,                             // )
    pub result: Option<Box<ASTFnResult>>,                     // -> ty
}

} // verus!
