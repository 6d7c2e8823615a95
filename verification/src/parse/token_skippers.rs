use vstd::prelude::*;
use crate::parse::lexer::symbols::{
    Symbols, KEYWORD_ALIAS, KEYWORD_FN, KEYWORD_IMPL, KEYWORD_INTERFACE, KEYWORD_MODULE,
    KEYWORD_PROTOTYPE, KEYWORD_PUB, KEYWORD_STRUCT, KEYWORD_USE,
};
use crate::parse::lexer::token::Token;
use crate::parse::lexer::token_kind::TokenKind;

verus! {

/// Whether a token of kind `kind` is the well-known name at `index`.
pub open spec fn is_keyword(symbols: &Symbols, kind: TokenKind, index: usize) -> bool {
    kind matches TokenKind::Id { symbol } && symbol == symbols.spec_get(index as int)
}

fn keyword(symbols: &Symbols, token: &Token, index: usize) -> (r: bool)
    ensures
        r == is_keyword(symbols, token.kind, index),
{
    match token.kind {
        TokenKind::Id { symbol } => symbol == symbols.get(index),
        _ => false,
    }
}

/// Whether `token` is to be skipped when the parser looks for a place at
/// which a module item can start.
pub fn before_module_item(symbols: &Symbols, token: &Token) -> (r: bool)
    ensures
        r == !(is_keyword(symbols, token.kind, KEYWORD_PUB) || is_keyword(symbols, token.kind, KEYWORD_USE) || is_keyword(symbols, token.kind, KEYWORD_ALIAS) || is_keyword(symbols, token.kind, KEYWORD_MODULE) || is_keyword(symbols, token.kind, KEYWORD_FN) || is_keyword(symbols, token.kind, KEYWORD_STRUCT) || is_keyword(symbols, token.kind, KEYWORD_INTERFACE) || is_keyword(symbols, token.kind, KEYWORD_IMPL)),
{
    !(keyword(symbols, token, KEYWORD_PUB) || keyword(symbols, token, KEYWORD_USE) || keyword(symbols, token, KEYWORD_ALIAS) || keyword(symbols, token, KEYWORD_MODULE) || keyword(symbols, token, KEYWORD_FN) || keyword(symbols, token, KEYWORD_STRUCT) || keyword(symbols, token, KEYWORD_INTERFACE) || keyword(symbols, token, KEYWORD_IMPL))
}

/// Whether `token` is to be skipped when the parser looks for a place at
/// which an item of a `use` group ends.
pub fn before_use_path_item_group_item(symbols: &Symbols, token: &Token) -> (r: bool)
    ensures
        r == !(token.kind == TokenKind::Comma || token.kind == TokenKind::CloseBrace),
{
    !(token.kind == TokenKind::Comma || token.kind == TokenKind::CloseBrace)
}

/// Whether `token` is to be skipped when the parser looks for a place at
/// which an item of an external block can start.
pub fn before_extern_block_item(symbols: &Symbols, token: &Token) -> (r: bool)
    ensures
        r == !(is_keyword(symbols, token.kind, KEYWORD_PUB) || is_keyword(symbols, token.kind, KEYWORD_PROTOTYPE) || is_keyword(symbols, token.kind, KEYWORD_FN) || is_keyword(symbols, token.kind, KEYWORD_STRUCT) || is_keyword(symbols, token.kind, KEYWORD_IMPL)),
{
    !(keyword(symbols, token, KEYWORD_PUB) || keyword(symbols, token, KEYWORD_PROTOTYPE) || keyword(symbols, token, KEYWORD_FN) || keyword(symbols, token, KEYWORD_STRUCT) || keyword(symbols, token, KEYWORD_IMPL))
}

/// Whether `token` is to be skipped when the parser looks for a place at
/// which a parameter of a prototype ends.
pub fn before_prototype_params_item(symbols: &Symbols, token: &Token) -> (r: bool)
    ensures
        r == !(token.kind == TokenKind::Comma || token.kind == TokenKind::CloseParen),
{
    !(token.kind == TokenKind::Comma || token.kind == TokenKind::CloseParen)
}

/// Whether `token` is to be skipped when the parser looks for a place at
/// which a parameter of a function ends.
pub fn before_fn_params_item(symbols: &Symbols, token: &Token) -> (r: bool)
    ensures
        r == !(token.kind == TokenKind::Comma || token.kind == TokenKind::CloseParen),
{
    !(token.kind == TokenKind::Comma || token.kind == TokenKind::CloseParen)
}

/// Whether `token` is to be skipped when the parser looks for a place at
/// which a field of a struct ends.
pub fn before_struct_fields_item(symbols: &Symbols, token: &Token) -> (r: bool)
    ensures
        r == !(token.kind == TokenKind::Comma || token.kind == TokenKind::CloseBrace),
{
    !(token.kind == TokenKind::Comma || token.kind == TokenKind::CloseBrace)
}

/// Whether `token` is to be skipped when the parser looks for a place at
/// which an item of an interface can start.
pub fn before_interface_item(symbols: &Symbols, token: &Token) -> (r: bool)
    ensures
        r == !(is_keyword(symbols, token.kind, KEYWORD_PUB) || is_keyword(symbols, token.kind, KEYWORD_FN)),
{
    !(keyword(symbols, token, KEYWORD_PUB) || keyword(symbols, token, KEYWORD_FN))
}

/// Whether `token` is to be skipped when the parser looks for a place at
/// which a parameter of an interface function ends.
pub fn before_interface_item_fn_decl_params_item(symbols: &Symbols, token: &Token) -> (r: bool)
    ensures
        r == !(token.kind == TokenKind::Comma || token.kind == TokenKind::CloseParen),
{
    !(token.kind == TokenKind::Comma || token.kind == TokenKind::CloseParen)
}

/// Whether `token` is to be skipped when the parser looks for a place at
/// which an item of an impl block can start.
pub fn before_impl_block_item(symbols: &Symbols, token: &Token) -> (r: bool)
    ensures
        r == !(is_keyword(symbols, token.kind, KEYWORD_PUB) || is_keyword(symbols, token.kind, KEYWORD_FN)),
{
    !(keyword(symbols, token, KEYWORD_PUB) || keyword(symbols, token, KEYWORD_FN))
}

/// Whether `token` is to be skipped when the parser looks for a place at
/// which a generic parameter ends.
pub fn before_generic_param_item(symbols: &Symbols, token: &Token) -> (r: bool)
    ensures
        r == !(token.kind == TokenKind::Comma || token.kind == TokenKind::Gt),
{
    !(token.kind == TokenKind::Comma || token.kind == TokenKind::Gt)
}

/// Whether `token` is to be skipped when the parser looks for a place at
/// which an item of a `where` clause ends.
pub fn before_generic_where_item(symbols: &Symbols, token: &Token) -> (r: bool)
    ensures
        r == !(token.kind == TokenKind::Comma || token.kind == TokenKind::OpenBrace),
{
    !(token.kind == TokenKind::Comma || token.kind == TokenKind::OpenBrace)
}

/// Whether `token` is to be skipped when the parser looks for a place at
/// which a bound of a `where` item ends.
pub fn before_generic_where_item_condition_item(symbols: &Symbols, token: &Token) -> (r: bool)
    ensures
        r == !(token.kind == TokenKind::Add),
{
    !(token.kind == TokenKind::Add)
}

/// Whether `token` is to be skipped when the parser looks for a place at
/// which a generic argument ends.
pub fn before_generic_arg_item(symbols: &Symbols, token: &Token) -> (r: bool)
    ensures
        r == !(token.kind == TokenKind::Comma || token.kind == TokenKind::Gt),
{
    !(token.kind == TokenKind::Comma || token.kind == TokenKind::Gt)
}

/// Whether `token` is to be skipped when the parser looks for a place at
/// which a statement can start or a block ends.
pub fn before_stmt(symbols: &Symbols, token: &Token) -> (r: bool)
    ensures
        r == !(token.kind == TokenKind::CloseBrace || token.kind == TokenKind::OpenBrace || token.kind is Id || token.kind is Literal || token.kind == TokenKind::OpenParen),
{
    !(token.kind == TokenKind::CloseBrace || token.kind == TokenKind::OpenBrace || matches!(token.kind, TokenKind::Id { .. }) || matches!(token.kind, TokenKind::Literal(_)) || token.kind == TokenKind::OpenParen)
}

/// Whether `token` is to be skipped when the parser looks for a place at
/// which an expression statement ends.
pub fn before_expr(symbols: &Symbols, token: &Token) -> (r: bool)
    ensures
        r == !(token.kind == TokenKind::Semicolon),
{
    !(token.kind == TokenKind::Semicolon)
}

/// Whether `token` is to be skipped when the parser looks for a place at
/// which an argument of a call ends.
pub fn before_expr_call_item(symbols: &Symbols, token: &Token) -> (r: bool)
    ensures
        r == !(token.kind == TokenKind::Comma || token.kind == TokenKind::CloseParen),
{
    !(token.kind == TokenKind::Comma || token.kind == TokenKind::CloseParen)
}

/// Whether `token` is to be skipped when the parser looks for a place at
/// which a field of a struct literal ends.
pub fn before_expr_struct_literal_field_item(symbols: &Symbols, token: &Token) -> (r: bool)
    ensures
        r == !(token.kind == TokenKind::Comma || token.kind == TokenKind::CloseBrace),
{
    !(token.kind == TokenKind::Comma || token.kind == TokenKind::CloseBrace)
}

/// Whether `token` is to be skipped when the parser looks for a place at
/// which a parameter of a function pointer type ends.
pub fn before_ty_fn_pointer_param_item(symbols: &Symbols, token: &Token) -> (r: bool)
    ensures
        r == !(token.kind == TokenKind::Comma || token.kind == TokenKind::CloseBrace),
{
    !(token.kind == TokenKind::Comma || token.kind == TokenKind::CloseBrace)
}

} // verus!
