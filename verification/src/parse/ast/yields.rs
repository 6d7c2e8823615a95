//! The tokens of a tree in the order of the source. For each sort of node
//! a function adds the kinds of the tokens of a node to the kinds that came
//! before it: the tokens of a node are those of its parts, part after part.

use vstd::prelude::*;
use crate::parse::ast::kinds::{id_onto, literal_onto, opt_id_onto, opt_token_onto, token_onto};
use crate::parse::ast::punctuated::PunctuatedItem;
use crate::parse::ast::tree::{
    ASTAliasDef, ASTExpr, ASTExprAs, ASTExprBinary, ASTExprBinaryOperator, ASTExprCall,
    ASTExprCallCallee, ASTExprKind, ASTExprLiteral, ASTExprMember, ASTExprParen, ASTExprPath,
    ASTExprStructLiteral, ASTExprStructLiteralField, ASTExprUnary, ASTExprUnaryOperator,
    ASTExternBlock, ASTExternBlockItem, ASTExternBlockItemKind, ASTFnDef, ASTFnParam, ASTFnResult,
    ASTGenericArg, ASTGenericParam, ASTGenericParamItem, ASTGenericWhere, ASTGenericWhereItem,
    ASTGenericWhereItemCondition, ASTGenericWhereItemConditionItem, ASTImplBlock,
    ASTImplBlockInterface, ASTImplBlockItem, ASTImplBlockItemKind, ASTInterfaceDef,
    ASTInterfaceDefItem, ASTInterfaceDefItemFnDecl, ASTInterfaceDefItemKind, ASTModule,
    ASTModuleDecl, ASTModuleDef, ASTModuleItem, ASTModuleItemKind, ASTPath, ASTPathSegment,
    ASTPrototypeDef, ASTStmt, ASTStmtAssignment, ASTStmtAssignmentOperator, ASTStmtBlock,
    ASTStmtBreak, ASTStmtContinue, ASTStmtExpr, ASTStmtIf, ASTStmtIfElse, ASTStmtIfElseIf,
    ASTStmtKind, ASTStmtLet, ASTStmtLetExpr, ASTStmtLetTy, ASTStmtLoop, ASTStmtReturn,
    ASTStmtWhile, ASTStructDef, ASTStructDefField, ASTTy, ASTTyArray, ASTTyFnPointer, ASTTyKind,
    ASTTyParen, ASTTySpan, ASTUse, ASTUsePath, ASTUsePathItem, ASTUsePathItemGroup,
    ASTUsePathItemKind, ASTUsePathItemSingle, ASTUsePathItemSingleAlias, ASTUsePathPrefix,
    ASTUsePathPrefixSegment, ASTUsePathPrefixSegmentKind,
};
use crate::parse::lexer::token_kind::TokenKind;

verus! {

/// The kinds `acc` and after them the kinds of the tokens of `node`, in
/// their order.
pub open spec fn module_onto(acc: Seq<TokenKind>, node: ASTModule) -> Seq<TokenKind> {
    module_item_list_onto(acc, node.items@, 0)
}

/// The kinds `acc` and after them the kinds of the tokens of `node`, in
/// their order.
pub open spec fn module_item_onto(acc: Seq<TokenKind>, node: ASTModuleItem) -> Seq<TokenKind>
    decreases node, 0int,
{
    module_item_kind_onto(acc, node.kind)
}

/// The kinds `acc` and after them the kinds of the tokens of `node`, in
/// their order.
pub open spec fn module_item_kind_onto(acc: Seq<TokenKind>, node: ASTModuleItemKind) -> Seq<TokenKind>
    decreases node, 0int,
{
    match node {
        ASTModuleItemKind::Use(inner) => use_onto(acc, *inner),
        ASTModuleItemKind::AliasDef(inner) => alias_def_onto(acc, *inner),
        ASTModuleItemKind::ModuleDecl(inner) => module_decl_onto(acc, *inner),
        ASTModuleItemKind::ModuleDef(inner) => module_def_onto(acc, *inner),
        ASTModuleItemKind::ExternBlock(inner) => extern_block_onto(acc, inner),
        ASTModuleItemKind::FnDef(inner) => fn_def_onto(acc, *inner),
        ASTModuleItemKind::StructDef(inner) => struct_def_onto(acc, *inner),
        ASTModuleItemKind::InterfaceDef(inner) => interface_def_onto(acc, *inner),
        ASTModuleItemKind::ImplBlock(inner) => impl_block_onto(acc, inner),
    }
}

/// The kinds `acc` and after them the kinds of the tokens of `node`, in
/// their order.
pub open spec fn use_onto(acc: Seq<TokenKind>, node: ASTUse) -> Seq<TokenKind> {
    let acc = opt_id_onto(acc, node.keyword_pub);
    let acc = id_onto(acc, node.keyword_use);
    let acc = use_path_onto(acc, node.path);
    token_onto(acc, node.token_semicolon)
}

/// The kinds `acc` and after them the kinds of the tokens of `node`, in
/// their order.
pub open spec fn use_path_onto(acc: Seq<TokenKind>, node: ASTUsePath) -> Seq<TokenKind>
    decreases node, 0int,
{
    let acc = (match node.prefix {
        Some(inner) => use_path_prefix_onto(acc, inner),
        None => acc,
    });
    use_path_item_onto(acc, node.item)
}

/// The kinds `acc` and after them the kinds of the tokens of `node`, in
/// their order.
pub open spec fn use_path_prefix_onto(acc: Seq<TokenKind>, node: ASTUsePathPrefix) -> Seq<TokenKind> {
    use_path_prefix_segment_list_onto(acc, node.segments@, 0)
}

/// The kinds `acc` and after them the kinds of the tokens of `node`, in
/// their order.
pub open spec fn use_path_prefix_segment_onto(acc: Seq<TokenKind>, node: ASTUsePathPrefixSegment) -> Seq<TokenKind> {
    let acc = use_path_prefix_segment_kind_onto(acc, node.kind);
    token_onto(acc, node.token_path_sep)
}

/// The kinds `acc` and after them the kinds of the tokens of `node`, in
/// their order.
pub open spec fn use_path_prefix_segment_kind_onto(acc: Seq<TokenKind>, node: ASTUsePathPrefixSegmentKind) -> Seq<TokenKind> {
    match node {
        ASTUsePathPrefixSegmentKind::Self_(inner) => id_onto(acc, inner),
        ASTUsePathPrefixSegmentKind::Super_(inner) => id_onto(acc, inner),
        ASTUsePathPrefixSegmentKind::Identifier(inner) => id_onto(acc, inner),
    }
}

/// The kinds `acc` and after them the kinds of the tokens of `node`, in
/// their order.
pub open spec fn use_path_item_onto(acc: Seq<TokenKind>, node: ASTUsePathItem) -> Seq<TokenKind>
    decreases node, 0int,
{
    use_path_item_kind_onto(acc, node.kind)
}

/// The kinds `acc` and after them the kinds of the tokens of `node`, in
/// their order.
pub open spec fn use_path_item_kind_onto(acc: Seq<TokenKind>, node: ASTUsePathItemKind) -> Seq<TokenKind>
    decreases node, 0int,
{
    match node {
        ASTUsePathItemKind::All(inner) => token_onto(acc, inner),
        ASTUsePathItemKind::Single(inner) => use_path_item_single_onto(acc, inner),
        ASTUsePathItemKind::Group(inner) => use_path_item_group_onto(acc, inner),
    }
}

/// The kinds `acc` and after them the kinds of the tokens of `node`, in
/// their order.
pub open spec fn use_path_item_single_onto(acc: Seq<TokenKind>, node: ASTUsePathItemSingle) -> Seq<TokenKind> {
    let acc = id_onto(acc, node.identifier);
    (match node.alias {
        Some(inner) => use_path_item_single_alias_onto(acc, inner),
        None => acc,
    })
}

/// The kinds `acc` and after them the kinds of the tokens of `node`, in
/// their order.
pub open spec fn use_path_item_single_alias_onto(acc: Seq<TokenKind>, node: ASTUsePathItemSingleAlias) -> Seq<TokenKind> {
    let acc = id_onto(acc, node.keyword_as);
    id_onto(acc, node.identifier)
}

/// The kinds `acc` and after them the kinds of the tokens of `node`, in
/// their order.
pub open spec fn use_path_item_group_onto(acc: Seq<TokenKind>, node: ASTUsePathItemGroup) -> Seq<TokenKind>
    decreases node, 0int,
{
    let acc = token_onto(acc, node.token_brace_open);
    let acc = use_path_items_onto(acc, node.items.items@, 0);
    token_onto(acc, node.token_brace_close)
}

/// The kinds `acc` and after them the kinds of the tokens of `node`, in
/// their order.
pub open spec fn alias_def_onto(acc: Seq<TokenKind>, node: ASTAliasDef) -> Seq<TokenKind> {
    let acc = opt_id_onto(acc, node.keyword_pub);
    let acc = id_onto(acc, node.keyword_alias);
    let acc = id_onto(acc, node.identifier);
    let acc = token_onto(acc, node.token_assign);
    let acc = ty_onto(acc, node.ty);
    token_onto(acc, node.token_semicolon)
}

/// The kinds `acc` and after them the kinds of the tokens of `node`, in
/// their order.
pub open spec fn module_decl_onto(acc: Seq<TokenKind>, node: ASTModuleDecl) -> Seq<TokenKind> {
    let acc = opt_id_onto(acc, node.keyword_pub);
    let acc = id_onto(acc, node.keyword_module);
    let acc = id_onto(acc, node.identifier);
    token_onto(acc, node.token_semicolon)
}

/// The kinds `acc` and after them the kinds of the tokens of `node`, in
/// their order.
pub open spec fn module_def_onto(acc: Seq<TokenKind>, node: ASTModuleDef) -> Seq<TokenKind>
    decreases node, 0int,
{
    let acc = opt_id_onto(acc, node.keyword_pub);
    let acc = id_onto(acc, node.keyword_module);
    let acc = id_onto(acc, node.identifier);
    let acc = token_onto(acc, node.token_brace_open);
    let acc = module_item_list_onto(acc, node.items@, 0);
    token_onto(acc, node.token_brace_close)
}

/// The kinds `acc` and after them the kinds of the tokens of `node`, in
/// their order.
pub open spec fn extern_block_onto(acc: Seq<TokenKind>, node: ASTExternBlock) -> Seq<TokenKind> {
    let acc = id_onto(acc, node.keyword_extern);
    let acc = token_onto(acc, node.token_brace_open);
    let acc = extern_block_item_list_onto(acc, node.items@, 0);
    token_onto(acc, node.token_brace_close)
}

/// The kinds `acc` and after them the kinds of the tokens of `node`, in
/// their order.
pub open spec fn extern_block_item_onto(acc: Seq<TokenKind>, node: ASTExternBlockItem) -> Seq<TokenKind> {
    extern_block_item_kind_onto(acc, node.kind)
}

/// The kinds `acc` and after them the kinds of the tokens of `node`, in
/// their order.
pub open spec fn extern_block_item_kind_onto(acc: Seq<TokenKind>, node: ASTExternBlockItemKind) -> Seq<TokenKind> {
    match node {
        ASTExternBlockItemKind::PrototypeDef(inner) => prototype_def_onto(acc, *inner),
        ASTExternBlockItemKind::FnDef(inner) => fn_def_onto(acc, *inner),
        ASTExternBlockItemKind::StructDef(inner) => struct_def_onto(acc, *inner),
        ASTExternBlockItemKind::ImplBlock(inner) => impl_block_onto(acc, inner),
    }
}

/// The kinds `acc` and after them the kinds of the tokens of `node`, in
/// their order.
pub open spec fn prototype_def_onto(acc: Seq<TokenKind>, node: ASTPrototypeDef) -> Seq<TokenKind> {
    let acc = opt_id_onto(acc, node.keyword_pub);
    let acc = id_onto(acc, node.keyword_prototype);
    let acc = id_onto(acc, node.identifier);
    let acc = token_onto(acc, node.token_paren_open);
    let acc = fn_param_items_onto(acc, node.params.items@, 0);
    let acc = token_onto(acc, node.token_paren_close);
    let acc = (match node.result {
        Some(inner) => fn_result_onto(acc, inner),
        None => acc,
    });
    token_onto(acc, node.token_semicolon)
}

/// The kinds `acc` and after them the kinds of the tokens of `node`, in
/// their order.
pub open spec fn fn_def_onto(acc: Seq<TokenKind>, node: ASTFnDef) -> Seq<TokenKind> {
    let acc = opt_id_onto(acc, node.keyword_pub);
    let acc = id_onto(acc, node.keyword_fn);
    let acc = id_onto(acc, node.identifier);
    let acc = (match node.generic_param {
        Some(inner) => generic_param_onto(acc, inner),
        None => acc,
    });
    let acc = token_onto(acc, node.token_paren_open);
    let acc = fn_param_items_onto(acc, node.params.items@, 0);
    let acc = token_onto(acc, node.token_paren_close);
    let acc = (match node.result {
        Some(inner) => fn_result_onto(acc, inner),
        None => acc,
    });
    let acc = (match node.generic_where {
        Some(inner) => generic_where_onto(acc, inner),
        None => acc,
    });
    stmt_block_onto(acc, node.stmt_block)
}

/// The kinds `acc` and after them the kinds of the tokens of `node`, in
/// their order.
pub open spec fn fn_param_onto(acc: Seq<TokenKind>, node: ASTFnParam) -> Seq<TokenKind> {
    let acc = id_onto(acc, node.identifier);
    let acc = token_onto(acc, node.token_colon);
    ty_onto(acc, node.ty)
}

/// The kinds `acc` and after them the kinds of the tokens of `node`, in
/// their order.
pub open spec fn fn_result_onto(acc: Seq<TokenKind>, node: ASTFnResult) -> Seq<TokenKind>
    decreases node, 0int,
{
    let acc = token_onto(acc, node.token_arrow);
    ty_onto(acc, node.ty)
}

/// The kinds `acc` and after them the kinds of the tokens of `node`, in
/// their order.
pub open spec fn struct_def_onto(acc: Seq<TokenKind>, node: ASTStructDef) -> Seq<TokenKind> {
    let acc = opt_id_onto(acc, node.keyword_pub);
    let acc = id_onto(acc, node.keyword_struct);
    let acc = id_onto(acc, node.identifier);
    let acc = (match node.generic_param {
        Some(inner) => generic_param_onto(acc, inner),
        None => acc,
    });
    let acc = (match node.generic_where {
        Some(inner) => generic_where_onto(acc, inner),
        None => acc,
    });
    let acc = token_onto(acc, node.token_brace_open);
    let acc = struct_def_field_items_onto(acc, node.fields.items@, 0);
    token_onto(acc, node.token_brace_close)
}

/// The kinds `acc` and after them the kinds of the tokens of `node`, in
/// their order.
pub open spec fn struct_def_field_onto(acc: Seq<TokenKind>, node: ASTStructDefField) -> Seq<TokenKind> {
    let acc = id_onto(acc, node.identifier);
    let acc = token_onto(acc, node.token_colon);
    ty_onto(acc, node.ty)
}

/// The kinds `acc` and after them the kinds of the tokens of `node`, in
/// their order.
pub open spec fn interface_def_onto(acc: Seq<TokenKind>, node: ASTInterfaceDef) -> Seq<TokenKind> {
    let acc = opt_id_onto(acc, node.keyword_pub);
    let acc = id_onto(acc, node.keyword_interface);
    let acc = id_onto(acc, node.identifier);
    let acc = (match node.generic_param {
        Some(inner) => generic_param_onto(acc, inner),
        None => acc,
    });
    let acc = (match node.generic_where {
        Some(inner) => generic_where_onto(acc, inner),
        None => acc,
    });
    let acc = token_onto(acc, node.token_brace_open);
    let acc = interface_def_item_list_onto(acc, node.items@, 0);
    token_onto(acc, node.token_brace_close)
}

/// The kinds `acc` and after them the kinds of the tokens of `node`, in
/// their order.
pub open spec fn interface_def_item_onto(acc: Seq<TokenKind>, node: ASTInterfaceDefItem) -> Seq<TokenKind> {
    interface_def_item_kind_onto(acc, node.kind)
}

/// The kinds `acc` and after them the kinds of the tokens of `node`, in
/// their order.
pub open spec fn interface_def_item_kind_onto(acc: Seq<TokenKind>, node: ASTInterfaceDefItemKind) -> Seq<TokenKind> {
    match node {
        ASTInterfaceDefItemKind::FnDecl(inner) => interface_def_item_fn_decl_onto(acc, inner),
    }
}

/// The kinds `acc` and after them the kinds of the tokens of `node`, in
/// their order.
pub open spec fn interface_def_item_fn_decl_onto(acc: Seq<TokenKind>, node: ASTInterfaceDefItemFnDecl) -> Seq<TokenKind> {
    let acc = id_onto(acc, node.keyword_fn);
    let acc = id_onto(acc, node.identifier);
    let acc = (match node.generic_param {
        Some(inner) => generic_param_onto(acc, inner),
        None => acc,
    });
    let acc = token_onto(acc, node.token_paren_open);
    let acc = fn_param_items_onto(acc, node.params.items@, 0);
    let acc = token_onto(acc, node.token_paren_close);
    let acc = (match node.result {
        Some(inner) => fn_result_onto(acc, inner),
        None => acc,
    });
    let acc = (match node.generic_where {
        Some(inner) => generic_where_onto(acc, inner),
        None => acc,
    });
    token_onto(acc, node.token_semicolon)
}

/// The kinds `acc` and after them the kinds of the tokens of `node`, in
/// their order.
pub open spec fn impl_block_onto(acc: Seq<TokenKind>, node: ASTImplBlock) -> Seq<TokenKind> {
    let acc = id_onto(acc, node.keyword_impl);
    let acc = (match node.generic_param {
        Some(inner) => generic_param_onto(acc, inner),
        None => acc,
    });
    let acc = ty_onto(acc, node.ty);
    let acc = (match node.interface {
        Some(inner) => impl_block_interface_onto(acc, inner),
        None => acc,
    });
    let acc = (match node.generic_where {
        Some(inner) => generic_where_onto(acc, inner),
        None => acc,
    });
    let acc = token_onto(acc, node.token_brace_open);
    let acc = impl_block_item_list_onto(acc, node.items@, 0);
    token_onto(acc, node.token_brace_close)
}

/// The kinds `acc` and after them the kinds of the tokens of `node`, in
/// their order.
pub open spec fn impl_block_interface_onto(acc: Seq<TokenKind>, node: ASTImplBlockInterface) -> Seq<TokenKind> {
    let acc = id_onto(acc, node.keyword_interface);
    path_onto(acc, node.path)
}

/// The kinds `acc` and after them the kinds of the tokens of `node`, in
/// their order.
pub open spec fn impl_block_item_onto(acc: Seq<TokenKind>, node: ASTImplBlockItem) -> Seq<TokenKind> {
    impl_block_item_kind_onto(acc, node.kind)
}

/// The kinds `acc` and after them the kinds of the tokens of `node`, in
/// their order.
pub open spec fn impl_block_item_kind_onto(acc: Seq<TokenKind>, node: ASTImplBlockItemKind) -> Seq<TokenKind> {
    match node {
        ASTImplBlockItemKind::FnDef(inner) => fn_def_onto(acc, inner),
    }
}

/// The kinds `acc` and after them the kinds of the tokens of `node`, in
/// their order.
pub open spec fn generic_param_onto(acc: Seq<TokenKind>, node: ASTGenericParam) -> Seq<TokenKind> {
    let acc = token_onto(acc, node.token_angle_open);
    let acc = generic_param_item_items_onto(acc, node.items.items@, 0);
    token_onto(acc, node.token_angle_close)
}

/// The kinds `acc` and after them the kinds of the tokens of `node`, in
/// their order.
pub open spec fn generic_param_item_onto(acc: Seq<TokenKind>, node: ASTGenericParamItem) -> Seq<TokenKind> {
    id_onto(acc, node.identifier)
}

/// The kinds `acc` and after them the kinds of the tokens of `node`, in
/// their order.
pub open spec fn generic_where_onto(acc: Seq<TokenKind>, node: ASTGenericWhere) -> Seq<TokenKind> {
    let acc = id_onto(acc, node.keyword_where);
    generic_where_item_items_onto(acc, node.items.items@, 0)
}

/// The kinds `acc` and after them the kinds of the tokens of `node`, in
/// their order.
pub open spec fn generic_where_item_onto(acc: Seq<TokenKind>, node: ASTGenericWhereItem) -> Seq<TokenKind> {
    let acc = id_onto(acc, node.identifier);
    let acc = token_onto(acc, node.token_colon);
    generic_where_item_condition_onto(acc, node.condition)
}

/// The kinds `acc` and after them the kinds of the tokens of `node`, in
/// their order.
pub open spec fn generic_where_item_condition_onto(acc: Seq<TokenKind>, node: ASTGenericWhereItemCondition) -> Seq<TokenKind> {
    let acc = path_onto(acc, node.path);
    generic_where_item_condition_item_list_onto(acc, node.extra_items@, 0)
}

/// The kinds `acc` and after them the kinds of the tokens of `node`, in
/// their order.
pub open spec fn generic_where_item_condition_item_onto(acc: Seq<TokenKind>, node: ASTGenericWhereItemConditionItem) -> Seq<TokenKind> {
    let acc = token_onto(acc, node.token_plus);
    path_onto(acc, node.path)
}

/// The kinds `acc` and after them the kinds of the tokens of `node`, in
/// their order.
pub open spec fn generic_arg_onto(acc: Seq<TokenKind>, node: ASTGenericArg) -> Seq<TokenKind>
    decreases node, 0int,
{
    let acc = token_onto(acc, node.token_angle_open);
    let acc = ty_items_onto(acc, node.args.items@, 0);
    token_onto(acc, node.token_angle_close)
}

/// The kinds `acc` and after them the kinds of the tokens of `node`, in
/// their order.
pub open spec fn stmt_block_onto(acc: Seq<TokenKind>, node: ASTStmtBlock) -> Seq<TokenKind>
    decreases node, 0int,
{
    let acc = token_onto(acc, node.token_brace_open);
    let acc = stmt_list_onto(acc, node.stmts@, 0);
    token_onto(acc, node.token_brace_close)
}

/// The kinds `acc` and after them the kinds of the tokens of `node`, in
/// their order.
pub open spec fn stmt_let_onto(acc: Seq<TokenKind>, node: ASTStmtLet) -> Seq<TokenKind> {
    let acc = id_onto(acc, node.keyword_let);
    let acc = id_onto(acc, node.identifier);
    let acc = (match node.ty {
        Some(inner) => stmt_let_ty_onto(acc, inner),
        None => acc,
    });
    let acc = (match node.expr {
        Some(inner) => stmt_let_expr_onto(acc, inner),
        None => acc,
    });
    token_onto(acc, node.token_semicolon)
}

/// The kinds `acc` and after them the kinds of the tokens of `node`, in
/// their order.
pub open spec fn stmt_let_ty_onto(acc: Seq<TokenKind>, node: ASTStmtLetTy) -> Seq<TokenKind> {
    let acc = token_onto(acc, node.token_colon);
    ty_onto(acc, node.ty)
}

/// The kinds `acc` and after them the kinds of the tokens of `node`, in
/// their order.
pub open spec fn stmt_let_expr_onto(acc: Seq<TokenKind>, node: ASTStmtLetExpr) -> Seq<TokenKind> {
    let acc = token_onto(acc, node.token_assign);
    expr_onto(acc, node.expr)
}

/// The kinds `acc` and after them the kinds of the tokens of `node`, in
/// their order.
pub open spec fn stmt_if_onto(acc: Seq<TokenKind>, node: ASTStmtIf) -> Seq<TokenKind>
    decreases node, 0int,
{
    let acc = id_onto(acc, node.keyword_if);
    let acc = expr_onto(acc, node.expr);
    let acc = stmt_block_onto(acc, node.stmt_block);
    let acc = stmt_if_else_if_list_onto(acc, node.else_ifs@, 0);
    (match node.else_ {
        Some(inner) => stmt_if_else_onto(acc, inner),
        None => acc,
    })
}

/// The kinds `acc` and after them the kinds of the tokens of `node`, in
/// their order.
pub open spec fn stmt_if_else_if_onto(acc: Seq<TokenKind>, node: ASTStmtIfElseIf) -> Seq<TokenKind>
    decreases node, 0int,
{
    let acc = id_onto(acc, node.keyword_else);
    let acc = id_onto(acc, node.keyword_if);
    let acc = expr_onto(acc, node.expr);
    stmt_block_onto(acc, node.stmt_block)
}

/// The kinds `acc` and after them the kinds of the tokens of `node`, in
/// their order.
pub open spec fn stmt_if_else_onto(acc: Seq<TokenKind>, node: ASTStmtIfElse) -> Seq<TokenKind>
    decreases node, 0int,
{
    let acc = id_onto(acc, node.keyword_else);
    stmt_block_onto(acc, node.stmt_block)
}

/// The kinds `acc` and after them the kinds of the tokens of `node`, in
/// their order.
pub open spec fn stmt_loop_onto(acc: Seq<TokenKind>, node: ASTStmtLoop) -> Seq<TokenKind>
    decreases node, 0int,
{
    let acc = id_onto(acc, node.keyword_loop);
    stmt_block_onto(acc, node.stmt_block)
}

/// The kinds `acc` and after them the kinds of the tokens of `node`, in
/// their order.
pub open spec fn stmt_while_onto(acc: Seq<TokenKind>, node: ASTStmtWhile) -> Seq<TokenKind>
    decreases node, 0int,
{
    let acc = id_onto(acc, node.keyword_while);
    let acc = expr_onto(acc, node.expr);
    stmt_block_onto(acc, node.stmt_block)
}

/// The kinds `acc` and after them the kinds of the tokens of `node`, in
/// their order.
pub open spec fn stmt_break_onto(acc: Seq<TokenKind>, node: ASTStmtBreak) -> Seq<TokenKind> {
    let acc = id_onto(acc, node.keyword_break);
    token_onto(acc, node.token_semicolon)
}

/// The kinds `acc` and after them the kinds of the tokens of `node`, in
/// their order.
pub open spec fn stmt_continue_onto(acc: Seq<TokenKind>, node: ASTStmtContinue) -> Seq<TokenKind> {
    let acc = id_onto(acc, node.keyword_continue);
    token_onto(acc, node.token_semicolon)
}

/// The kinds `acc` and after them the kinds of the tokens of `node`, in
/// their order.
pub open spec fn stmt_return_onto(acc: Seq<TokenKind>, node: ASTStmtReturn) -> Seq<TokenKind> {
    let acc = id_onto(acc, node.keyword_return);
    let acc = (match node.expr {
        Some(inner) => expr_onto(acc, inner),
        None => acc,
    });
    token_onto(acc, node.token_semicolon)
}

/// The kinds `acc` and after them the kinds of the tokens of `node`, in
/// their order.
pub open spec fn stmt_assignment_onto(acc: Seq<TokenKind>, node: ASTStmtAssignment) -> Seq<TokenKind> {
    let acc = expr_onto(acc, node.operand_lhs);
    let acc = stmt_assignment_operator_onto(acc, node.operator);
    let acc = expr_onto(acc, node.operand_rhs);
    token_onto(acc, node.token_semicolon)
}

/// The kinds `acc` and after them the kinds of the tokens of `node`, in
/// their order.
pub open spec fn stmt_assignment_operator_onto(acc: Seq<TokenKind>, node: ASTStmtAssignmentOperator) -> Seq<TokenKind> {
    token_onto(acc, node.token_operator)
}

/// The kinds `acc` and after them the kinds of the tokens of `node`, in
/// their order.
pub open spec fn stmt_expr_onto(acc: Seq<TokenKind>, node: ASTStmtExpr) -> Seq<TokenKind> {
    let acc = expr_onto(acc, node.expr);
    token_onto(acc, node.token_semicolon)
}

/// The kinds `acc` and after them the kinds of the tokens of `node`, in
/// their order.
pub open spec fn stmt_onto(acc: Seq<TokenKind>, node: ASTStmt) -> Seq<TokenKind>
    decreases node, 0int,
{
    stmt_kind_onto(acc, node.kind)
}

/// The kinds `acc` and after them the kinds of the tokens of `node`, in
/// their order.
pub open spec fn stmt_kind_onto(acc: Seq<TokenKind>, node: ASTStmtKind) -> Seq<TokenKind>
    decreases node, 0int,
{
    match node {
        ASTStmtKind::Block(inner) => stmt_block_onto(acc, inner),
        ASTStmtKind::Let(inner) => stmt_let_onto(acc, inner),
        ASTStmtKind::If(inner) => stmt_if_onto(acc, inner),
        ASTStmtKind::Loop(inner) => stmt_loop_onto(acc, inner),
        ASTStmtKind::While(inner) => stmt_while_onto(acc, inner),
        ASTStmtKind::Break(inner) => stmt_break_onto(acc, inner),
        ASTStmtKind::Continue(inner) => stmt_continue_onto(acc, inner),
        ASTStmtKind::Return(inner) => stmt_return_onto(acc, inner),
        ASTStmtKind::Assignment(inner) => stmt_assignment_onto(acc, inner),
        ASTStmtKind::Expr(inner) => stmt_expr_onto(acc, inner),
    }
}

/// The kinds `acc` and after them the kinds of the tokens of `node`, in
/// their order.
pub open spec fn expr_onto(acc: Seq<TokenKind>, node: ASTExpr) -> Seq<TokenKind>
    decreases node, 0int,
{
    expr_kind_onto(acc, node.kind)
}

/// The kinds `acc` and after them the kinds of the tokens of `node`, in
/// their order.
pub open spec fn expr_kind_onto(acc: Seq<TokenKind>, node: ASTExprKind) -> Seq<TokenKind>
    decreases node, 0int,
{
    match node {
        ASTExprKind::Binary(inner) => expr_binary_onto(acc, inner),
        ASTExprKind::As(inner) => expr_as_onto(acc, inner),
        ASTExprKind::Unary(inner) => expr_unary_onto(acc, inner),
        ASTExprKind::Call(inner) => expr_call_onto(acc, inner),
        ASTExprKind::Member(inner) => expr_member_onto(acc, inner),
        ASTExprKind::Paren(inner) => expr_paren_onto(acc, inner),
        ASTExprKind::Path(inner) => expr_path_onto(acc, inner),
        ASTExprKind::Literal(inner) => expr_literal_onto(acc, inner),
        ASTExprKind::StructLiteral(inner) => expr_struct_literal_onto(acc, inner),
    }
}

/// The kinds `acc` and after them the kinds of the tokens of `node`, in
/// their order.
pub open spec fn expr_binary_onto(acc: Seq<TokenKind>, node: ASTExprBinary) -> Seq<TokenKind>
    decreases node, 0int,
{
    let acc = expr_onto(acc, *node.operand_lhs);
    let acc = expr_binary_operator_onto(acc, node.operator);
    expr_onto(acc, *node.operand_rhs)
}

/// The kinds `acc` and after them the kinds of the tokens of `node`, in
/// their order.
pub open spec fn expr_binary_operator_onto(acc: Seq<TokenKind>, node: ASTExprBinaryOperator) -> Seq<TokenKind> {
    token_onto(acc, node.token_operator)
}

/// The kinds `acc` and after them the kinds of the tokens of `node`, in
/// their order.
pub open spec fn expr_as_onto(acc: Seq<TokenKind>, node: ASTExprAs) -> Seq<TokenKind>
    decreases node, 0int,
{
    let acc = expr_onto(acc, *node.expr);
    let acc = id_onto(acc, node.keyword_as);
    ty_onto(acc, node.ty)
}

/// The kinds `acc` and after them the kinds of the tokens of `node`, in
/// their order.
pub open spec fn expr_unary_onto(acc: Seq<TokenKind>, node: ASTExprUnary) -> Seq<TokenKind>
    decreases node, 0int,
{
    let acc = expr_unary_operator_onto(acc, node.operator);
    expr_onto(acc, *node.operand_lhs)
}

/// The kinds `acc` and after them the kinds of the tokens of `node`, in
/// their order.
pub open spec fn expr_unary_operator_onto(acc: Seq<TokenKind>, node: ASTExprUnaryOperator) -> Seq<TokenKind> {
    token_onto(acc, node.token_operator)
}

/// The kinds `acc` and after them the kinds of the tokens of `node`, in
/// their order.
pub open spec fn expr_call_onto(acc: Seq<TokenKind>, node: ASTExprCall) -> Seq<TokenKind>
    decreases node, 0int,
{
    let acc = expr_call_callee_onto(acc, node.callee);
    let acc = token_onto(acc, node.token_paren_open);
    let acc = expr_items_onto(acc, node.args.items@, 0);
    token_onto(acc, node.token_paren_close)
}

/// The kinds `acc` and after them the kinds of the tokens of `node`, in
/// their order.
pub open spec fn expr_call_callee_onto(acc: Seq<TokenKind>, node: ASTExprCallCallee) -> Seq<TokenKind>
    decreases node, 0int,
{
    expr_onto(acc, *node.expr)
}

/// The kinds `acc` and after them the kinds of the tokens of `node`, in
/// their order.
pub open spec fn expr_member_onto(acc: Seq<TokenKind>, node: ASTExprMember) -> Seq<TokenKind>
    decreases node, 0int,
{
    let acc = expr_onto(acc, *node.expr);
    let acc = token_onto(acc, node.token_dot);
    id_onto(acc, node.member)
}

/// The kinds `acc` and after them the kinds of the tokens of `node`, in
/// their order.
pub open spec fn expr_paren_onto(acc: Seq<TokenKind>, node: ASTExprParen) -> Seq<TokenKind>
    decreases node, 0int,
{
    let acc = token_onto(acc, node.token_paren_open);
    let acc = expr_onto(acc, *node.expr);
    token_onto(acc, node.token_paren_close)
}

/// The kinds `acc` and after them the kinds of the tokens of `node`, in
/// their order.
pub open spec fn expr_path_onto(acc: Seq<TokenKind>, node: ASTExprPath) -> Seq<TokenKind> {
    path_onto(acc, node.path)
}

/// The kinds `acc` and after them the kinds of the tokens of `node`, in
/// their order.
pub open spec fn expr_literal_onto(acc: Seq<TokenKind>, node: ASTExprLiteral) -> Seq<TokenKind> {
    literal_onto(acc, node.literal)
}

/// The kinds `acc` and after them the kinds of the tokens of `node`, in
/// their order.
pub open spec fn expr_struct_literal_onto(acc: Seq<TokenKind>, node: ASTExprStructLiteral) -> Seq<TokenKind>
    decreases node, 0int,
{
    let acc = path_onto(acc, node.path);
    let acc = token_onto(acc, node.token_brace_open);
    let acc = expr_struct_literal_field_items_onto(acc, node.fields.items@, 0);
    token_onto(acc, node.token_brace_close)
}

/// The kinds `acc` and after them the kinds of the tokens of `node`, in
/// their order.
pub open spec fn expr_struct_literal_field_onto(acc: Seq<TokenKind>, node: ASTExprStructLiteralField) -> Seq<TokenKind>
    decreases node, 0int,
{
    let acc = id_onto(acc, node.identifier);
    let acc = token_onto(acc, node.token_colon);
    expr_onto(acc, node.expr)
}

/// The kinds `acc` and after them the kinds of the tokens of `node`, in
/// their order.
pub open spec fn path_onto(acc: Seq<TokenKind>, node: ASTPath) -> Seq<TokenKind>
    decreases node, 0int,
{
    path_segment_items_onto(acc, node.segments.items@, 0)
}

/// The kinds `acc` and after them the kinds of the tokens of `node`, in
/// their order.
pub open spec fn path_segment_onto(acc: Seq<TokenKind>, node: ASTPathSegment) -> Seq<TokenKind>
    decreases node, 0int,
{
    let acc = id_onto(acc, node.identifier);
    (match node.generic {
        Some(inner) => generic_arg_onto(acc, inner),
        None => acc,
    })
}

/// The kinds `acc` and after them the kinds of the tokens of `node`, in
/// their order.
pub open spec fn ty_onto(acc: Seq<TokenKind>, node: ASTTy) -> Seq<TokenKind>
    decreases node, 0int,
{
    ty_kind_onto(acc, node.kind)
}

/// The kinds `acc` and after them the kinds of the tokens of `node`, in
/// their order.
pub open spec fn ty_kind_onto(acc: Seq<TokenKind>, node: ASTTyKind) -> Seq<TokenKind>
    decreases node, 0int,
{
    match node {
        ASTTyKind::Paren(inner) => ty_paren_onto(acc, inner),
        ASTTyKind::Span(inner) => ty_span_onto(acc, inner),
        ASTTyKind::Array(inner) => ty_array_onto(acc, inner),
        ASTTyKind::FnPointer(inner) => ty_fn_pointer_onto(acc, inner),
        ASTTyKind::Path(inner) => path_onto(acc, inner),
    }
}

/// The kinds `acc` and after them the kinds of the tokens of `node`, in
/// their order.
pub open spec fn ty_paren_onto(acc: Seq<TokenKind>, node: ASTTyParen) -> Seq<TokenKind>
    decreases node, 0int,
{
    let acc = token_onto(acc, node.token_paren_open);
    let acc = ty_onto(acc, *node.ty);
    token_onto(acc, node.token_paren_close)
}

/// The kinds `acc` and after them the kinds of the tokens of `node`, in
/// their order.
pub open spec fn ty_span_onto(acc: Seq<TokenKind>, node: ASTTySpan) -> Seq<TokenKind>
    decreases node, 0int,
{
    let acc = token_onto(acc, node.token_bracket_open);
    let acc = ty_onto(acc, *node.ty);
    token_onto(acc, node.token_bracket_close)
}

/// The kinds `acc` and after them the kinds of the tokens of `node`, in
/// their order.
pub open spec fn ty_array_onto(acc: Seq<TokenKind>, node: ASTTyArray) -> Seq<TokenKind>
    decreases node, 0int,
{
    let acc = token_onto(acc, node.token_bracket_open);
    let acc = ty_onto(acc, *node.ty);
    let acc = token_onto(acc, node.token_semicolon);
    let acc = literal_onto(acc, node.literal);
    token_onto(acc, node.token_bracket_close)
}

/// The kinds `acc` and after them the kinds of the tokens of `node`, in
/// their order.
pub open spec fn ty_fn_pointer_onto(acc: Seq<TokenKind>, node: ASTTyFnPointer) -> Seq<TokenKind>
    decreases node, 0int,
{
    let acc = id_onto(acc, node.keyword_fn);
    let acc = token_onto(acc, node.token_paren_open);
    let acc = ty_items_onto(acc, node.params.items@, 0);
    let acc = token_onto(acc, node.token_paren_close);
    (match node.result {
        Some(inner) => fn_result_onto(acc, *inner),
        None => acc,
    })
}

/// The kinds `acc` and after them the kinds of the tokens of
/// `nodes[from..]`, node after node.
pub open spec fn expr_unary_operator_list_onto(acc: Seq<TokenKind>, nodes: Seq<ASTExprUnaryOperator>, from: int) -> Seq<TokenKind>
    decreases nodes, nodes.len() - from,
{
    if from < 0 || from >= nodes.len() {
        acc
    } else {
        expr_unary_operator_list_onto(expr_unary_operator_onto(acc, nodes[from]), nodes, from + 1)
    }
}

/// A node added at the end of a list comes last.
pub proof fn lemma_expr_unary_operator_list_push(acc: Seq<TokenKind>, nodes: Seq<ASTExprUnaryOperator>, node: ASTExprUnaryOperator, from: int)
    requires
        0 <= from <= nodes.len(),
    ensures
        expr_unary_operator_list_onto(acc, nodes.push(node), from) == expr_unary_operator_onto(
            expr_unary_operator_list_onto(acc, nodes, from),
            node,
        ),
    decreases nodes.len() - from,
{
    reveal_with_fuel(expr_unary_operator_list_onto, 3);
    if from < nodes.len() {
        assert(nodes.push(node)[from] == nodes[from]);
        lemma_expr_unary_operator_list_push(expr_unary_operator_onto(acc, nodes[from]), nodes, node, from + 1);
    } else {
        assert(nodes.push(node)[from] == node);
    }
}

/// The kinds `acc` and after them the kinds of the tokens of
/// `nodes[from..]`, node after node.
pub open spec fn extern_block_item_list_onto(acc: Seq<TokenKind>, nodes: Seq<ASTExternBlockItem>, from: int) -> Seq<TokenKind>
    decreases nodes, nodes.len() - from,
{
    if from < 0 || from >= nodes.len() {
        acc
    } else {
        extern_block_item_list_onto(extern_block_item_onto(acc, nodes[from]), nodes, from + 1)
    }
}

/// A node added at the end of a list comes last.
pub proof fn lemma_extern_block_item_list_push(acc: Seq<TokenKind>, nodes: Seq<ASTExternBlockItem>, node: ASTExternBlockItem, from: int)
    requires
        0 <= from <= nodes.len(),
    ensures
        extern_block_item_list_onto(acc, nodes.push(node), from) == extern_block_item_onto(
            extern_block_item_list_onto(acc, nodes, from),
            node,
        ),
    decreases nodes.len() - from,
{
    reveal_with_fuel(extern_block_item_list_onto, 3);
    if from < nodes.len() {
        assert(nodes.push(node)[from] == nodes[from]);
        lemma_extern_block_item_list_push(extern_block_item_onto(acc, nodes[from]), nodes, node, from + 1);
    } else {
        assert(nodes.push(node)[from] == node);
    }
}

/// The kinds `acc` and after them the kinds of the tokens of
/// `nodes[from..]`, node after node.
pub open spec fn generic_where_item_condition_item_list_onto(acc: Seq<TokenKind>, nodes: Seq<ASTGenericWhereItemConditionItem>, from: int) -> Seq<TokenKind>
    decreases nodes, nodes.len() - from,
{
    if from < 0 || from >= nodes.len() {
        acc
    } else {
        generic_where_item_condition_item_list_onto(generic_where_item_condition_item_onto(acc, nodes[from]), nodes, from + 1)
    }
}

/// A node added at the end of a list comes last.
pub proof fn lemma_generic_where_item_condition_item_list_push(acc: Seq<TokenKind>, nodes: Seq<ASTGenericWhereItemConditionItem>, node: ASTGenericWhereItemConditionItem, from: int)
    requires
        0 <= from <= nodes.len(),
    ensures
        generic_where_item_condition_item_list_onto(acc, nodes.push(node), from) == generic_where_item_condition_item_onto(
            generic_where_item_condition_item_list_onto(acc, nodes, from),
            node,
        ),
    decreases nodes.len() - from,
{
    reveal_with_fuel(generic_where_item_condition_item_list_onto, 3);
    if from < nodes.len() {
        assert(nodes.push(node)[from] == nodes[from]);
        lemma_generic_where_item_condition_item_list_push(generic_where_item_condition_item_onto(acc, nodes[from]), nodes, node, from + 1);
    } else {
        assert(nodes.push(node)[from] == node);
    }
}

/// The kinds `acc` and after them the kinds of the tokens of
/// `nodes[from..]`, node after node.
pub open spec fn impl_block_item_list_onto(acc: Seq<TokenKind>, nodes: Seq<ASTImplBlockItem>, from: int) -> Seq<TokenKind>
    decreases nodes, nodes.len() - from,
{
    if from < 0 || from >= nodes.len() {
        acc
    } else {
        impl_block_item_list_onto(impl_block_item_onto(acc, nodes[from]), nodes, from + 1)
    }
}

/// A node added at the end of a list comes last.
pub proof fn lemma_impl_block_item_list_push(acc: Seq<TokenKind>, nodes: Seq<ASTImplBlockItem>, node: ASTImplBlockItem, from: int)
    requires
        0 <= from <= nodes.len(),
    ensures
        impl_block_item_list_onto(acc, nodes.push(node), from) == impl_block_item_onto(
            impl_block_item_list_onto(acc, nodes, from),
            node,
        ),
    decreases nodes.len() - from,
{
    reveal_with_fuel(impl_block_item_list_onto, 3);
    if from < nodes.len() {
        assert(nodes.push(node)[from] == nodes[from]);
        lemma_impl_block_item_list_push(impl_block_item_onto(acc, nodes[from]), nodes, node, from + 1);
    } else {
        assert(nodes.push(node)[from] == node);
    }
}

/// The kinds `acc` and after them the kinds of the tokens of
/// `nodes[from..]`, node after node.
pub open spec fn interface_def_item_list_onto(acc: Seq<TokenKind>, nodes: Seq<ASTInterfaceDefItem>, from: int) -> Seq<TokenKind>
    decreases nodes, nodes.len() - from,
{
    if from < 0 || from >= nodes.len() {
        acc
    } else {
        interface_def_item_list_onto(interface_def_item_onto(acc, nodes[from]), nodes, from + 1)
    }
}

/// A node added at the end of a list comes last.
pub proof fn lemma_interface_def_item_list_push(acc: Seq<TokenKind>, nodes: Seq<ASTInterfaceDefItem>, node: ASTInterfaceDefItem, from: int)
    requires
        0 <= from <= nodes.len(),
    ensures
        interface_def_item_list_onto(acc, nodes.push(node), from) == interface_def_item_onto(
            interface_def_item_list_onto(acc, nodes, from),
            node,
        ),
    decreases nodes.len() - from,
{
    reveal_with_fuel(interface_def_item_list_onto, 3);
    if from < nodes.len() {
        assert(nodes.push(node)[from] == nodes[from]);
        lemma_interface_def_item_list_push(interface_def_item_onto(acc, nodes[from]), nodes, node, from + 1);
    } else {
        assert(nodes.push(node)[from] == node);
    }
}

/// The kinds `acc` and after them the kinds of the tokens of
/// `nodes[from..]`, node after node.
pub open spec fn module_item_list_onto(acc: Seq<TokenKind>, nodes: Seq<ASTModuleItem>, from: int) -> Seq<TokenKind>
    decreases nodes, nodes.len() - from,
{
    if from < 0 || from >= nodes.len() {
        acc
    } else {
        module_item_list_onto(module_item_onto(acc, nodes[from]), nodes, from + 1)
    }
}

/// A node added at the end of a list comes last.
pub proof fn lemma_module_item_list_push(acc: Seq<TokenKind>, nodes: Seq<ASTModuleItem>, node: ASTModuleItem, from: int)
    requires
        0 <= from <= nodes.len(),
    ensures
        module_item_list_onto(acc, nodes.push(node), from) == module_item_onto(
            module_item_list_onto(acc, nodes, from),
            node,
        ),
    decreases nodes.len() - from,
{
    reveal_with_fuel(module_item_list_onto, 3);
    if from < nodes.len() {
        assert(nodes.push(node)[from] == nodes[from]);
        lemma_module_item_list_push(module_item_onto(acc, nodes[from]), nodes, node, from + 1);
    } else {
        assert(nodes.push(node)[from] == node);
    }
}

/// The kinds `acc` and after them the kinds of the tokens of
/// `nodes[from..]`, node after node.
pub open spec fn stmt_list_onto(acc: Seq<TokenKind>, nodes: Seq<ASTStmt>, from: int) -> Seq<TokenKind>
    decreases nodes, nodes.len() - from,
{
    if from < 0 || from >= nodes.len() {
        acc
    } else {
        stmt_list_onto(stmt_onto(acc, nodes[from]), nodes, from + 1)
    }
}

/// A node added at the end of a list comes last.
pub proof fn lemma_stmt_list_push(acc: Seq<TokenKind>, nodes: Seq<ASTStmt>, node: ASTStmt, from: int)
    requires
        0 <= from <= nodes.len(),
    ensures
        stmt_list_onto(acc, nodes.push(node), from) == stmt_onto(
            stmt_list_onto(acc, nodes, from),
            node,
        ),
    decreases nodes.len() - from,
{
    reveal_with_fuel(stmt_list_onto, 3);
    if from < nodes.len() {
        assert(nodes.push(node)[from] == nodes[from]);
        lemma_stmt_list_push(stmt_onto(acc, nodes[from]), nodes, node, from + 1);
    } else {
        assert(nodes.push(node)[from] == node);
    }
}

/// The kinds `acc` and after them the kinds of the tokens of
/// `nodes[from..]`, node after node.
pub open spec fn stmt_if_else_if_list_onto(acc: Seq<TokenKind>, nodes: Seq<ASTStmtIfElseIf>, from: int) -> Seq<TokenKind>
    decreases nodes, nodes.len() - from,
{
    if from < 0 || from >= nodes.len() {
        acc
    } else {
        stmt_if_else_if_list_onto(stmt_if_else_if_onto(acc, nodes[from]), nodes, from + 1)
    }
}

/// A node added at the end of a list comes last.
pub proof fn lemma_stmt_if_else_if_list_push(acc: Seq<TokenKind>, nodes: Seq<ASTStmtIfElseIf>, node: ASTStmtIfElseIf, from: int)
    requires
        0 <= from <= nodes.len(),
    ensures
        stmt_if_else_if_list_onto(acc, nodes.push(node), from) == stmt_if_else_if_onto(
            stmt_if_else_if_list_onto(acc, nodes, from),
            node,
        ),
    decreases nodes.len() - from,
{
    reveal_with_fuel(stmt_if_else_if_list_onto, 3);
    if from < nodes.len() {
        assert(nodes.push(node)[from] == nodes[from]);
        lemma_stmt_if_else_if_list_push(stmt_if_else_if_onto(acc, nodes[from]), nodes, node, from + 1);
    } else {
        assert(nodes.push(node)[from] == node);
    }
}

/// The kinds `acc` and after them the kinds of the tokens of
/// `nodes[from..]`, node after node.
pub open spec fn use_path_prefix_segment_list_onto(acc: Seq<TokenKind>, nodes: Seq<ASTUsePathPrefixSegment>, from: int) -> Seq<TokenKind>
    decreases nodes, nodes.len() - from,
{
    if from < 0 || from >= nodes.len() {
        acc
    } else {
        use_path_prefix_segment_list_onto(use_path_prefix_segment_onto(acc, nodes[from]), nodes, from + 1)
    }
}

/// A node added at the end of a list comes last.
pub proof fn lemma_use_path_prefix_segment_list_push(acc: Seq<TokenKind>, nodes: Seq<ASTUsePathPrefixSegment>, node: ASTUsePathPrefixSegment, from: int)
    requires
        0 <= from <= nodes.len(),
    ensures
        use_path_prefix_segment_list_onto(acc, nodes.push(node), from) == use_path_prefix_segment_onto(
            use_path_prefix_segment_list_onto(acc, nodes, from),
            node,
        ),
    decreases nodes.len() - from,
{
    reveal_with_fuel(use_path_prefix_segment_list_onto, 3);
    if from < nodes.len() {
        assert(nodes.push(node)[from] == nodes[from]);
        lemma_use_path_prefix_segment_list_push(use_path_prefix_segment_onto(acc, nodes[from]), nodes, node, from + 1);
    } else {
        assert(nodes.push(node)[from] == node);
    }
}

/// The kinds `acc` and after them the kinds of the tokens of `item` and
/// of the punctuation behind it, if there is one.
pub open spec fn expr_punctuated_onto(
    acc: Seq<TokenKind>,
    item: PunctuatedItem<ASTExpr>,
) -> Seq<TokenKind>
    decreases item, 0int,
{
    match item {
        PunctuatedItem::Punctuated { item, punctuation } => token_onto(
            expr_onto(acc, item),
            punctuation,
        ),
        PunctuatedItem::NotPunctuated { item } => expr_onto(acc, item),
    }
}

/// The kinds `acc` and after them the kinds of the tokens of
/// `items[from..]`, item after item.
pub open spec fn expr_items_onto(
    acc: Seq<TokenKind>,
    items: Seq<PunctuatedItem<ASTExpr>>,
    from: int,
) -> Seq<TokenKind>
    decreases items, items.len() - from,
{
    if from < 0 || from >= items.len() {
        acc
    } else {
        expr_items_onto(expr_punctuated_onto(acc, items[from]), items, from + 1)
    }
}

/// An item added at the end of a list comes last.
pub proof fn lemma_expr_items_push(
    acc: Seq<TokenKind>,
    items: Seq<PunctuatedItem<ASTExpr>>,
    item: PunctuatedItem<ASTExpr>,
    from: int,
)
    requires
        0 <= from <= items.len(),
    ensures
        expr_items_onto(acc, items.push(item), from) == expr_punctuated_onto(
            expr_items_onto(acc, items, from),
            item,
        ),
    decreases items.len() - from,
{
    reveal_with_fuel(expr_items_onto, 3);
    if from < items.len() {
        assert(items.push(item)[from] == items[from]);
        lemma_expr_items_push(expr_punctuated_onto(acc, items[from]), items, item, from + 1);
    } else {
        assert(items.push(item)[from] == item);
    }
}

/// The kinds `acc` and after them the kinds of the tokens of `item` and
/// of the punctuation behind it, if there is one.
pub open spec fn expr_struct_literal_field_punctuated_onto(
    acc: Seq<TokenKind>,
    item: PunctuatedItem<ASTExprStructLiteralField>,
) -> Seq<TokenKind>
    decreases item, 0int,
{
    match item {
        PunctuatedItem::Punctuated { item, punctuation } => token_onto(
            expr_struct_literal_field_onto(acc, item),
            punctuation,
        ),
        PunctuatedItem::NotPunctuated { item } => expr_struct_literal_field_onto(acc, item),
    }
}

/// The kinds `acc` and after them the kinds of the tokens of
/// `items[from..]`, item after item.
pub open spec fn expr_struct_literal_field_items_onto(
    acc: Seq<TokenKind>,
    items: Seq<PunctuatedItem<ASTExprStructLiteralField>>,
    from: int,
) -> Seq<TokenKind>
    decreases items, items.len() - from,
{
    if from < 0 || from >= items.len() {
        acc
    } else {
        expr_struct_literal_field_items_onto(expr_struct_literal_field_punctuated_onto(acc, items[from]), items, from + 1)
    }
}

/// An item added at the end of a list comes last.
pub proof fn lemma_expr_struct_literal_field_items_push(
    acc: Seq<TokenKind>,
    items: Seq<PunctuatedItem<ASTExprStructLiteralField>>,
    item: PunctuatedItem<ASTExprStructLiteralField>,
    from: int,
)
    requires
        0 <= from <= items.len(),
    ensures
        expr_struct_literal_field_items_onto(acc, items.push(item), from) == expr_struct_literal_field_punctuated_onto(
            expr_struct_literal_field_items_onto(acc, items, from),
            item,
        ),
    decreases items.len() - from,
{
    reveal_with_fuel(expr_struct_literal_field_items_onto, 3);
    if from < items.len() {
        assert(items.push(item)[from] == items[from]);
        lemma_expr_struct_literal_field_items_push(expr_struct_literal_field_punctuated_onto(acc, items[from]), items, item, from + 1);
    } else {
        assert(items.push(item)[from] == item);
    }
}

/// The kinds `acc` and after them the kinds of the tokens of `item` and
/// of the punctuation behind it, if there is one.
pub open spec fn fn_param_punctuated_onto(
    acc: Seq<TokenKind>,
    item: PunctuatedItem<ASTFnParam>,
) -> Seq<TokenKind> {
    match item {
        PunctuatedItem::Punctuated { item, punctuation } => token_onto(
            fn_param_onto(acc, item),
            punctuation,
        ),
        PunctuatedItem::NotPunctuated { item } => fn_param_onto(acc, item),
    }
}

/// The kinds `acc` and after them the kinds of the tokens of
/// `items[from..]`, item after item.
pub open spec fn fn_param_items_onto(
    acc: Seq<TokenKind>,
    items: Seq<PunctuatedItem<ASTFnParam>>,
    from: int,
) -> Seq<TokenKind>
    decreases items, items.len() - from,
{
    if from < 0 || from >= items.len() {
        acc
    } else {
        fn_param_items_onto(fn_param_punctuated_onto(acc, items[from]), items, from + 1)
    }
}

/// An item added at the end of a list comes last.
pub proof fn lemma_fn_param_items_push(
    acc: Seq<TokenKind>,
    items: Seq<PunctuatedItem<ASTFnParam>>,
    item: PunctuatedItem<ASTFnParam>,
    from: int,
)
    requires
        0 <= from <= items.len(),
    ensures
        fn_param_items_onto(acc, items.push(item), from) == fn_param_punctuated_onto(
            fn_param_items_onto(acc, items, from),
            item,
        ),
    decreases items.len() - from,
{
    reveal_with_fuel(fn_param_items_onto, 3);
    if from < items.len() {
        assert(items.push(item)[from] == items[from]);
        lemma_fn_param_items_push(fn_param_punctuated_onto(acc, items[from]), items, item, from + 1);
    } else {
        assert(items.push(item)[from] == item);
    }
}

/// The kinds `acc` and after them the kinds of the tokens of `item` and
/// of the punctuation behind it, if there is one.
pub open spec fn generic_param_item_punctuated_onto(
    acc: Seq<TokenKind>,
    item: PunctuatedItem<ASTGenericParamItem>,
) -> Seq<TokenKind> {
    match item {
        PunctuatedItem::Punctuated { item, punctuation } => token_onto(
            generic_param_item_onto(acc, item),
            punctuation,
        ),
        PunctuatedItem::NotPunctuated { item } => generic_param_item_onto(acc, item),
    }
}

/// The kinds `acc` and after them the kinds of the tokens of
/// `items[from..]`, item after item.
pub open spec fn generic_param_item_items_onto(
    acc: Seq<TokenKind>,
    items: Seq<PunctuatedItem<ASTGenericParamItem>>,
    from: int,
) -> Seq<TokenKind>
    decreases items, items.len() - from,
{
    if from < 0 || from >= items.len() {
        acc
    } else {
        generic_param_item_items_onto(generic_param_item_punctuated_onto(acc, items[from]), items, from + 1)
    }
}

/// An item added at the end of a list comes last.
pub proof fn lemma_generic_param_item_items_push(
    acc: Seq<TokenKind>,
    items: Seq<PunctuatedItem<ASTGenericParamItem>>,
    item: PunctuatedItem<ASTGenericParamItem>,
    from: int,
)
    requires
        0 <= from <= items.len(),
    ensures
        generic_param_item_items_onto(acc, items.push(item), from) == generic_param_item_punctuated_onto(
            generic_param_item_items_onto(acc, items, from),
            item,
        ),
    decreases items.len() - from,
{
    reveal_with_fuel(generic_param_item_items_onto, 3);
    if from < items.len() {
        assert(items.push(item)[from] == items[from]);
        lemma_generic_param_item_items_push(generic_param_item_punctuated_onto(acc, items[from]), items, item, from + 1);
    } else {
        assert(items.push(item)[from] == item);
    }
}

/// The kinds `acc` and after them the kinds of the tokens of `item` and
/// of the punctuation behind it, if there is one.
pub open spec fn generic_where_item_punctuated_onto(
    acc: Seq<TokenKind>,
    item: PunctuatedItem<ASTGenericWhereItem>,
) -> Seq<TokenKind> {
    match item {
        PunctuatedItem::Punctuated { item, punctuation } => token_onto(
            generic_where_item_onto(acc, item),
            punctuation,
        ),
        PunctuatedItem::NotPunctuated { item } => generic_where_item_onto(acc, item),
    }
}

/// The kinds `acc` and after them the kinds of the tokens of
/// `items[from..]`, item after item.
pub open spec fn generic_where_item_items_onto(
    acc: Seq<TokenKind>,
    items: Seq<PunctuatedItem<ASTGenericWhereItem>>,
    from: int,
) -> Seq<TokenKind>
    decreases items, items.len() - from,
{
    if from < 0 || from >= items.len() {
        acc
    } else {
        generic_where_item_items_onto(generic_where_item_punctuated_onto(acc, items[from]), items, from + 1)
    }
}

/// An item added at the end of a list comes last.
pub proof fn lemma_generic_where_item_items_push(
    acc: Seq<TokenKind>,
    items: Seq<PunctuatedItem<ASTGenericWhereItem>>,
    item: PunctuatedItem<ASTGenericWhereItem>,
    from: int,
)
    requires
        0 <= from <= items.len(),
    ensures
        generic_where_item_items_onto(acc, items.push(item), from) == generic_where_item_punctuated_onto(
            generic_where_item_items_onto(acc, items, from),
            item,
        ),
    decreases items.len() - from,
{
    reveal_with_fuel(generic_where_item_items_onto, 3);
    if from < items.len() {
        assert(items.push(item)[from] == items[from]);
        lemma_generic_where_item_items_push(generic_where_item_punctuated_onto(acc, items[from]), items, item, from + 1);
    } else {
        assert(items.push(item)[from] == item);
    }
}

/// The kinds `acc` and after them the kinds of the tokens of `item` and
/// of the punctuation behind it, if there is one.
pub open spec fn path_segment_punctuated_onto(
    acc: Seq<TokenKind>,
    item: PunctuatedItem<ASTPathSegment>,
) -> Seq<TokenKind>
    decreases item, 0int,
{
    match item {
        PunctuatedItem::Punctuated { item, punctuation } => token_onto(
            path_segment_onto(acc, item),
            punctuation,
        ),
        PunctuatedItem::NotPunctuated { item } => path_segment_onto(acc, item),
    }
}

/// The kinds `acc` and after them the kinds of the tokens of
/// `items[from..]`, item after item.
pub open spec fn path_segment_items_onto(
    acc: Seq<TokenKind>,
    items: Seq<PunctuatedItem<ASTPathSegment>>,
    from: int,
) -> Seq<TokenKind>
    decreases items, items.len() - from,
{
    if from < 0 || from >= items.len() {
        acc
    } else {
        path_segment_items_onto(path_segment_punctuated_onto(acc, items[from]), items, from + 1)
    }
}

/// An item added at the end of a list comes last.
pub proof fn lemma_path_segment_items_push(
    acc: Seq<TokenKind>,
    items: Seq<PunctuatedItem<ASTPathSegment>>,
    item: PunctuatedItem<ASTPathSegment>,
    from: int,
)
    requires
        0 <= from <= items.len(),
    ensures
        path_segment_items_onto(acc, items.push(item), from) == path_segment_punctuated_onto(
            path_segment_items_onto(acc, items, from),
            item,
        ),
    decreases items.len() - from,
{
    reveal_with_fuel(path_segment_items_onto, 3);
    if from < items.len() {
        assert(items.push(item)[from] == items[from]);
        lemma_path_segment_items_push(path_segment_punctuated_onto(acc, items[from]), items, item, from + 1);
    } else {
        assert(items.push(item)[from] == item);
    }
}

/// The kinds `acc` and after them the kinds of the tokens of `item` and
/// of the punctuation behind it, if there is one.
pub open spec fn struct_def_field_punctuated_onto(
    acc: Seq<TokenKind>,
    item: PunctuatedItem<ASTStructDefField>,
) -> Seq<TokenKind> {
    match item {
        PunctuatedItem::Punctuated { item, punctuation } => token_onto(
            struct_def_field_onto(acc, item),
            punctuation,
        ),
        PunctuatedItem::NotPunctuated { item } => struct_def_field_onto(acc, item),
    }
}

/// The kinds `acc` and after them the kinds of the tokens of
/// `items[from..]`, item after item.
pub open spec fn struct_def_field_items_onto(
    acc: Seq<TokenKind>,
    items: Seq<PunctuatedItem<ASTStructDefField>>,
    from: int,
) -> Seq<TokenKind>
    decreases items, items.len() - from,
{
    if from < 0 || from >= items.len() {
        acc
    } else {
        struct_def_field_items_onto(struct_def_field_punctuated_onto(acc, items[from]), items, from + 1)
    }
}

/// An item added at the end of a list comes last.
pub proof fn lemma_struct_def_field_items_push(
    acc: Seq<TokenKind>,
    items: Seq<PunctuatedItem<ASTStructDefField>>,
    item: PunctuatedItem<ASTStructDefField>,
    from: int,
)
    requires
        0 <= from <= items.len(),
    ensures
        struct_def_field_items_onto(acc, items.push(item), from) == struct_def_field_punctuated_onto(
            struct_def_field_items_onto(acc, items, from),
            item,
        ),
    decreases items.len() - from,
{
    reveal_with_fuel(struct_def_field_items_onto, 3);
    if from < items.len() {
        assert(items.push(item)[from] == items[from]);
        lemma_struct_def_field_items_push(struct_def_field_punctuated_onto(acc, items[from]), items, item, from + 1);
    } else {
        assert(items.push(item)[from] == item);
    }
}

/// The kinds `acc` and after them the kinds of the tokens of `item` and
/// of the punctuation behind it, if there is one.
pub open spec fn ty_punctuated_onto(
    acc: Seq<TokenKind>,
    item: PunctuatedItem<ASTTy>,
) -> Seq<TokenKind>
    decreases item, 0int,
{
    match item {
        PunctuatedItem::Punctuated { item, punctuation } => token_onto(
            ty_onto(acc, item),
            punctuation,
        ),
        PunctuatedItem::NotPunctuated { item } => ty_onto(acc, item),
    }
}

/// The kinds `acc` and after them the kinds of the tokens of
/// `items[from..]`, item after item.
pub open spec fn ty_items_onto(
    acc: Seq<TokenKind>,
    items: Seq<PunctuatedItem<ASTTy>>,
    from: int,
) -> Seq<TokenKind>
    decreases items, items.len() - from,
{
    if from < 0 || from >= items.len() {
        acc
    } else {
        ty_items_onto(ty_punctuated_onto(acc, items[from]), items, from + 1)
    }
}

/// An item added at the end of a list comes last.
pub proof fn lemma_ty_items_push(
    acc: Seq<TokenKind>,
    items: Seq<PunctuatedItem<ASTTy>>,
    item: PunctuatedItem<ASTTy>,
    from: int,
)
    requires
        0 <= from <= items.len(),
    ensures
        ty_items_onto(acc, items.push(item), from) == ty_punctuated_onto(
            ty_items_onto(acc, items, from),
            item,
        ),
    decreases items.len() - from,
{
    reveal_with_fuel(ty_items_onto, 3);
    if from < items.len() {
        assert(items.push(item)[from] == items[from]);
        lemma_ty_items_push(ty_punctuated_onto(acc, items[from]), items, item, from + 1);
    } else {
        assert(items.push(item)[from] == item);
    }
}

/// The kinds `acc` and after them the kinds of the tokens of `item` and
/// of the punctuation behind it, if there is one.
pub open spec fn use_path_punctuated_onto(
    acc: Seq<TokenKind>,
    item: PunctuatedItem<ASTUsePath>,
) -> Seq<TokenKind>
    decreases item, 0int,
{
    match item {
        PunctuatedItem::Punctuated { item, punctuation } => token_onto(
            use_path_onto(acc, item),
            punctuation,
        ),
        PunctuatedItem::NotPunctuated { item } => use_path_onto(acc, item),
    }
}

/// The kinds `acc` and after them the kinds of the tokens of
/// `items[from..]`, item after item.
pub open spec fn use_path_items_onto(
    acc: Seq<TokenKind>,
    items: Seq<PunctuatedItem<ASTUsePath>>,
    from: int,
) -> Seq<TokenKind>
    decreases items, items.len() - from,
{
    if from < 0 || from >= items.len() {
        acc
    } else {
        use_path_items_onto(use_path_punctuated_onto(acc, items[from]), items, from + 1)
    }
}

/// An item added at the end of a list comes last.
pub proof fn lemma_use_path_items_push(
    acc: Seq<TokenKind>,
    items: Seq<PunctuatedItem<ASTUsePath>>,
    item: PunctuatedItem<ASTUsePath>,
    from: int,
)
    requires
        0 <= from <= items.len(),
    ensures
        use_path_items_onto(acc, items.push(item), from) == use_path_punctuated_onto(
            use_path_items_onto(acc, items, from),
            item,
        ),
    decreases items.len() - from,
{
    reveal_with_fuel(use_path_items_onto, 3);
    if from < items.len() {
        assert(items.push(item)[from] == items[from]);
        lemma_use_path_items_push(use_path_punctuated_onto(acc, items[from]), items, item, from + 1);
    } else {
        assert(items.push(item)[from] == item);
    }
}

} // verus!
