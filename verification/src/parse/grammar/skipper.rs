use vstd::prelude::*;
use crate::parse::lexer::symbols::Symbols;
use crate::parse::lexer::token::Token;
use crate::parse::lexer::token_kind::TokenKind;
use crate::parse::token_skippers::{
    before_expr, before_expr_call_item, before_expr_struct_literal_field_item,
    before_extern_block_item, before_fn_params_item, before_generic_arg_item,
    before_generic_param_item, before_generic_where_item,
    before_generic_where_item_condition_item, before_impl_block_item, before_interface_item,
    before_interface_item_fn_decl_params_item, before_module_item, before_prototype_params_item,
    before_stmt, before_struct_fields_item, before_ty_fn_pointer_param_item,
    before_use_path_item_group_item, is_keyword,
};
use crate::parse::lexer::symbols::{
    KEYWORD_ALIAS, KEYWORD_FN, KEYWORD_IMPL, KEYWORD_INTERFACE, KEYWORD_MODULE, KEYWORD_PROTOTYPE,
    KEYWORD_PUB, KEYWORD_STRUCT, KEYWORD_USE,
};

verus! {

/// A place for which the parser looks after an error: it skips tokens
/// until one that can stand at such a place.
#[derive(Debug, Clone, Copy, PartialEq, Eq, Structural, Hash)]
pub enum Skipper {
    ModuleItem,
    UsePathItemGroupItem,
    ExternBlockItem,
    PrototypeParamsItem,
    FnParamsItem,
    StructFieldsItem,
    InterfaceItem,
    InterfaceItemFnDeclParamsItem,
    ImplBlockItem,
    GenericParamItem,
    GenericWhereItem,
    GenericWhereItemConditionItem,
    GenericArgItem,
    Stmt,
    Expr,
    ExprCallItem,
    ExprStructLiteralFieldItem,
    TyFnPointerParamItem,
    /// Skips commas, and nothing else.
    Comma,
}

impl Skipper {
    /// Whether the token is skipped on the way to such a place.
    pub open spec fn spec_skips(self, symbols: &Symbols, kind: TokenKind) -> bool {
        match self {
            Skipper::ModuleItem => !(is_keyword(symbols, kind, KEYWORD_PUB) || is_keyword(
                symbols,
                kind,
                KEYWORD_USE,
            ) || is_keyword(symbols, kind, KEYWORD_ALIAS) || is_keyword(
                symbols,
                kind,
                KEYWORD_MODULE,
            ) || is_keyword(symbols, kind, KEYWORD_FN) || is_keyword(
                symbols,
                kind,
                KEYWORD_STRUCT,
            ) || is_keyword(symbols, kind, KEYWORD_INTERFACE) || is_keyword(
                symbols,
                kind,
                KEYWORD_IMPL,
            )),
            Skipper::UsePathItemGroupItem => !(kind == TokenKind::Comma || kind
                == TokenKind::CloseBrace),
            Skipper::ExternBlockItem => !(is_keyword(symbols, kind, KEYWORD_PUB) || is_keyword(
                symbols,
                kind,
                KEYWORD_PROTOTYPE,
            ) || is_keyword(symbols, kind, KEYWORD_FN) || is_keyword(
                symbols,
                kind,
                KEYWORD_STRUCT,
            ) || is_keyword(symbols, kind, KEYWORD_IMPL)),
            Skipper::PrototypeParamsItem => !(kind == TokenKind::Comma || kind
                == TokenKind::CloseParen),
            Skipper::FnParamsItem => !(kind == TokenKind::Comma || kind == TokenKind::CloseParen),
            Skipper::StructFieldsItem => !(kind == TokenKind::Comma || kind
                == TokenKind::CloseBrace),
            Skipper::InterfaceItem => !(is_keyword(symbols, kind, KEYWORD_PUB) || is_keyword(
                symbols,
                kind,
                KEYWORD_FN,
            )),
            Skipper::InterfaceItemFnDeclParamsItem => !(kind == TokenKind::Comma || kind
                == TokenKind::CloseParen),
            Skipper::ImplBlockItem => !(is_keyword(symbols, kind, KEYWORD_PUB) || is_keyword(
                symbols,
                kind,
                KEYWORD_FN,
            )),
            Skipper::GenericParamItem => !(kind == TokenKind::Comma || kind == TokenKind::Gt),
            Skipper::GenericWhereItem => !(kind == TokenKind::Comma || kind
                == TokenKind::OpenBrace),
            Skipper::GenericWhereItemConditionItem => !(kind == TokenKind::Add),
            Skipper::GenericArgItem => !(kind == TokenKind::Comma || kind == TokenKind::Gt),
            Skipper::Stmt => !(kind == TokenKind::CloseBrace || kind == TokenKind::OpenBrace
                || kind is Id || kind is Literal || kind == TokenKind::OpenParen),
            Skipper::Expr => !(kind == TokenKind::Semicolon),
            Skipper::ExprCallItem => !(kind == TokenKind::Comma || kind == TokenKind::CloseParen),
            Skipper::ExprStructLiteralFieldItem => !(kind == TokenKind::Comma || kind
                == TokenKind::CloseBrace),
            Skipper::TyFnPointerParamItem => !(kind == TokenKind::Comma || kind
                == TokenKind::CloseBrace),
            Skipper::Comma => kind == TokenKind::Comma,
        }
    }

    pub fn skips(self, symbols: &Symbols, token: &Token) -> (r: bool)
        ensures
            r == self.spec_skips(symbols, token.kind),
    {
        match self {
            Skipper::ModuleItem => before_module_item(symbols, token),
            Skipper::UsePathItemGroupItem => before_use_path_item_group_item(symbols, token),
            Skipper::ExternBlockItem => before_extern_block_item(symbols, token),
            Skipper::PrototypeParamsItem => before_prototype_params_item(symbols, token),
            Skipper::FnParamsItem => before_fn_params_item(symbols, token),
            Skipper::StructFieldsItem => before_struct_fields_item(symbols, token),
            Skipper::InterfaceItem => before_interface_item(symbols, token),
            Skipper::InterfaceItemFnDeclParamsItem => before_interface_item_fn_decl_params_item(
                symbols,
                token,
            ),
            Skipper::ImplBlockItem => before_impl_block_item(symbols, token),
            Skipper::GenericParamItem => before_generic_param_item(symbols, token),
            Skipper::GenericWhereItem => before_generic_where_item(symbols, token),
            Skipper::GenericWhereItemConditionItem => before_generic_where_item_condition_item(
                symbols,
                token,
            ),
            Skipper::GenericArgItem => before_generic_arg_item(symbols, token),
            Skipper::Stmt => before_stmt(symbols, token),
            Skipper::Expr => before_expr(symbols, token),
            Skipper::ExprCallItem => before_expr_call_item(symbols, token),
            Skipper::ExprStructLiteralFieldItem => before_expr_struct_literal_field_item(
                symbols,
                token,
            ),
            Skipper::TyFnPointerParamItem => before_ty_fn_pointer_param_item(symbols, token),
            Skipper::Comma => token.kind == TokenKind::Comma,
        }
    }
}

/// Whether all of the first `upto` of `skippers` skip the token.
pub open spec fn all_skip(skippers: Seq<Skipper>, symbols: &Symbols, kind: TokenKind, upto: int) -> bool
    decreases upto,
{
    if upto <= 0 {
        true
    } else {
        all_skip(skippers, symbols, kind, upto - 1) && skippers[upto - 1].spec_skips(symbols, kind)
    }
}

/// Whether all of `skippers` skip the token.
pub fn skipped_by(skippers: &Vec<Skipper>, symbols: &Symbols, token: &Token) -> (r: bool)
    ensures
        r == all_skip(skippers@, symbols, token.kind, skippers@.len() as int),
{
    let mut i: usize = 0;
    while i < skippers.len()
        invariant
            i <= skippers@.len(),
            all_skip(skippers@, symbols, token.kind, i as int),
        decreases skippers@.len() - i,
    {
        if !skippers[i].skips(symbols, token) {
            proof {
                lemma_all_skip_fails(skippers@, symbols, token.kind, i as int, skippers@.len() as int);
            }
            return false;
        }
        i += 1;
    }
    true
}

/// Where one of the skippers does not skip the token, not all do.
pub proof fn lemma_all_skip_fails(
    skippers: Seq<Skipper>,
    symbols: &Symbols,
    kind: TokenKind,
    at: int,
    upto: int,
)
    requires
        0 <= at < upto,
        !skippers[at].spec_skips(symbols, kind),
    ensures
        !all_skip(skippers, symbols, kind, upto),
    decreases upto,
{
    if at < upto - 1 {
        lemma_all_skip_fails(skippers, symbols, kind, at, upto - 1);
    }
}

} // verus!
