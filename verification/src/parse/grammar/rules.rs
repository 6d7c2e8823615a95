use vstd::prelude::*;
use vstd::string::*;
use std::sync::Arc;
use crate::diagnostic::error_codes::{
    INVALID_ASSIGNMENT_OPERATOR, INVALID_BINARY_OPERATOR, INVALID_UNARY_OPERATOR,
};
use crate::diagnostic::message::{log_view, Diagnostics, DiagnosticsView};
use crate::diagnostic::sender::DiagnosticsSender;
use crate::parse::ast::node_id_allocator::NodeIdAllocator;
use crate::parse::ast::punctuated::{Punctuated, PunctuatedItem};
use crate::parse::ast::tree::{
    ASTAliasDef, ASTExpr, ASTExprAs, ASTExprBinary, ASTExprBinaryOperator,
    ASTExprBinaryOperatorKind, ASTExprCall, ASTExprCallCallee, ASTExprKind, ASTExprLiteral,
    ASTExprMember, ASTExprParen, ASTExprPath, ASTExprStructLiteral, ASTExprStructLiteralField,
    ASTExprUnary, ASTExprUnaryOperator, ASTExprUnaryOperatorKind, ASTExternBlock,
    ASTExternBlockItem, ASTExternBlockItemKind, ASTFnDef, ASTFnParam, ASTFnResult,
    ASTGenericArg, ASTGenericParam, ASTGenericParamItem, ASTGenericWhere, ASTGenericWhereItem,
    ASTGenericWhereItemCondition, ASTGenericWhereItemConditionItem, ASTImplBlock,
    ASTImplBlockInterface, ASTImplBlockItem, ASTImplBlockItemKind, ASTInterfaceDef,
    ASTInterfaceDefItem, ASTInterfaceDefItemFnDecl, ASTInterfaceDefItemKind, ASTModule,
    ASTModuleDecl, ASTModuleDef, ASTModuleItem, ASTModuleItemKind, ASTPath, ASTPathSegment,
    ASTPrototypeDef, ASTStmt, ASTStmtAssignment, ASTStmtAssignmentOperator,
    ASTStmtAssignmentOperatorKind, ASTStmtBlock, ASTStmtBreak, ASTStmtContinue, ASTStmtExpr,
    ASTStmtIf, ASTStmtIfElse, ASTStmtIfElseIf, ASTStmtKind, ASTStmtLet, ASTStmtLetExpr,
    ASTStmtLetTy, ASTStmtLoop, ASTStmtReturn, ASTStmtWhile, ASTStructDef, ASTStructDefField,
    ASTTy, ASTTyArray, ASTTyFnPointer, ASTTyKind, ASTTyParen, ASTTySpan, ASTUse, ASTUsePath,
    ASTUsePathItem, ASTUsePathItemGroup, ASTUsePathItemKind, ASTUsePathItemSingle,
    ASTUsePathItemSingleAlias, ASTUsePathPrefix, ASTUsePathPrefixSegment,
    ASTUsePathPrefixSegmentKind,
};
use crate::parse::ast::yields::{
    expr_call_callee_onto, expr_call_onto, expr_kind_onto,
    alias_def_onto, expr_binary_operator_onto, expr_items_onto, expr_onto,
    expr_struct_literal_field_items_onto, expr_struct_literal_field_onto,
    expr_unary_operator_list_onto, expr_unary_operator_onto, extern_block_item_list_onto,
    extern_block_item_onto, extern_block_onto, fn_def_onto, fn_param_items_onto, fn_param_onto,
    fn_result_onto, generic_arg_onto, generic_param_item_items_onto, generic_param_item_onto,
    generic_param_onto, generic_where_item_condition_item_list_onto,
    generic_where_item_condition_item_onto, generic_where_item_condition_onto,
    generic_where_item_items_onto, generic_where_item_onto, generic_where_onto,
    impl_block_interface_onto, impl_block_item_list_onto, impl_block_item_onto, impl_block_onto,
    interface_def_item_fn_decl_onto, interface_def_item_list_onto, interface_def_item_onto,
    interface_def_onto, lemma_expr_items_push, lemma_expr_struct_literal_field_items_push,
    lemma_expr_unary_operator_list_push, lemma_extern_block_item_list_push,
    lemma_fn_param_items_push, lemma_generic_param_item_items_push,
    lemma_generic_where_item_condition_item_list_push, lemma_generic_where_item_items_push,
    lemma_impl_block_item_list_push, lemma_interface_def_item_list_push,
    lemma_module_item_list_push, lemma_path_segment_items_push, lemma_stmt_if_else_if_list_push,
    lemma_stmt_list_push, lemma_struct_def_field_items_push, lemma_ty_items_push,
    lemma_use_path_items_push, lemma_use_path_prefix_segment_list_push, module_decl_onto,
    module_def_onto, module_item_list_onto, module_item_onto, module_onto, path_onto,
    path_segment_items_onto, path_segment_onto, prototype_def_onto, stmt_assignment_operator_onto,
    stmt_block_onto, stmt_break_onto, stmt_continue_onto, stmt_if_else_if_list_onto,
    stmt_if_else_if_onto, stmt_if_else_onto, stmt_if_onto, stmt_kind_onto, stmt_let_expr_onto,
    stmt_let_onto, stmt_let_ty_onto, stmt_list_onto, stmt_loop_onto, stmt_onto, stmt_return_onto,
    stmt_while_onto, struct_def_field_items_onto, struct_def_field_onto, struct_def_onto,
    ty_fn_pointer_onto, ty_items_onto, ty_kind_onto, ty_onto, ty_paren_onto, use_onto,
    use_path_item_group_onto, use_path_item_onto, use_path_item_single_alias_onto,
    use_path_item_single_onto, use_path_items_onto, use_path_onto, use_path_prefix_onto,
    use_path_prefix_segment_list_onto, use_path_prefix_segment_onto,
};
use crate::parse::grammar::operators::{
    assignment_operator_of, binary_operator_of, invalid_operator, invalid_operator_message,
    spec_assignment_operator_kind, spec_binary_operator_kind, spec_unary_operator_kind,
    unary_operator_of,
};
use crate::parse::grammar::outlook::{
    all_stand, asked_in_turn, item_keyword_asked, item_keyword_stands, item_sort,
    item_sort_asked, lemma_asked_in_turn, lemma_either_asked, lemma_item_keyword_asked,
    marked_module_decl_words, module_decl_asked, module_decl_stands, module_decl_words,
};
use crate::parse::grammar::parser::{
    covered, errors_in, kinds_of, lemma_looked_up, Parser, TokenClass,
};
use crate::parse::grammar::skipper::Skipper;
use crate::parse::lexer::symbols::{
    Symbols, KEYWORD_ALIAS, KEYWORD_AS, KEYWORD_BREAK, KEYWORD_CONTINUE, KEYWORD_ELSE,
    KEYWORD_EXTERN, KEYWORD_FN, KEYWORD_IF, KEYWORD_IMPL, KEYWORD_INTERFACE, KEYWORD_LET,
    KEYWORD_LOOP, KEYWORD_MODULE, KEYWORD_PROTOTYPE, KEYWORD_PUB, KEYWORD_RETURN, KEYWORD_SELF,
    KEYWORD_STRUCT, KEYWORD_SUPER, KEYWORD_USE, KEYWORD_WHERE, KEYWORD_WHILE,
};
use crate::parse::lexer::token::Token;
use crate::parse::lexer::token_kind::TokenKind;
use crate::symbol::interner::Interner;

verus! {

/// The error for a token that is no operator of the sort `sort`.
pub open spec fn invalid_operator_diagnostic(
    parser: &Parser,
    code: u32,
    token: Token,
    sort: Seq<char>,
) -> DiagnosticsView {
    invalid_operator(
        parser.spec_diagnostics().file,
        parser.spec_table(),
        parser.spec_symbols(),
        code,
        token,
        sort,
    )
}

/// The sorts of items of a module.
#[derive(Debug, Clone, Copy, PartialEq, Eq, Structural, Hash)]
pub enum ModuleItemSort {
    Use,
    AliasDef,
    ModuleDecl,
    ModuleDef,
    ExternBlock,
    FnDef,
    StructDef,
    InterfaceDef,
    ImplBlock,
}

impl<'a> Parser<'a> {
    fn invalid_operator(&mut self, code: u32, token: &Token, sort: &str)
        ensures
            final(self)@ == old(self)@,
            final(self).same_setting(old(self)),
            final(self).allocated() == old(self).allocated(),
            final(self).spec_log() == old(self).spec_log().push(
                invalid_operator_diagnostic(old(self), code, *token, sort@),
            ),
    {
        let message = invalid_operator_message(token, self.symbols_ref(), self.interner_ref(), sort);
        self.error(code, token.span, message);
    }

    /// The kind of assignment that the operator `token` makes; an error is
    /// reported for a token that is no assignment operator.
    pub fn assignment_operator_kind(&mut self, token: &Token) -> (r: Result<
        ASTStmtAssignmentOperatorKind,
        (),
    >)
        ensures
            final(self)@ == old(self)@,
            final(self).same_setting(old(self)),
            final(self).allocated() == old(self).allocated(),
            match spec_assignment_operator_kind(token.kind) {
                Some(kind) => r == Ok::<ASTStmtAssignmentOperatorKind, ()>(kind) && final(self).spec_log() == old(self).spec_log(),
                None => r.is_err() && final(self).spec_log() == old(self).spec_log().push(
                    invalid_operator_diagnostic(
                        old(self),
                        INVALID_ASSIGNMENT_OPERATOR,
                        *token,
                        "assignment"@,
                    ),
                ),
            },
    {
        match assignment_operator_of(token.kind) {
            Some(kind) => Ok(kind),
            None => {
                self.invalid_operator(INVALID_ASSIGNMENT_OPERATOR, token, "assignment");
                Err(())
            },
        }
    }

    /// The operation that the binary operator `token` stands for; an error
    /// is reported for a token that is no binary operator.
    pub fn binary_operator_kind(&mut self, token: &Token) -> (r: Result<
        ASTExprBinaryOperatorKind,
        (),
    >)
        ensures
            final(self)@ == old(self)@,
            final(self).same_setting(old(self)),
            final(self).allocated() == old(self).allocated(),
            match spec_binary_operator_kind(token.kind) {
                Some(kind) => r == Ok::<ASTExprBinaryOperatorKind, ()>(kind) && final(self).spec_log() == old(self).spec_log(),
                None => r.is_err() && final(self).spec_log() == old(self).spec_log().push(
                    invalid_operator_diagnostic(
                        old(self),
                        INVALID_BINARY_OPERATOR,
                        *token,
                        "binary"@,
                    ),
                ),
            },
    {
        match binary_operator_of(token.kind) {
            Some(kind) => Ok(kind),
            None => {
                self.invalid_operator(INVALID_BINARY_OPERATOR, token, "binary");
                Err(())
            },
        }
    }

    /// The operation that the unary operator `token` stands for; an error
    /// is reported for a token that is no unary operator.
    pub fn unary_operator_kind(&mut self, token: &Token) -> (r: Result<
        ASTExprUnaryOperatorKind,
        (),
    >)
        ensures
            final(self)@ == old(self)@,
            final(self).same_setting(old(self)),
            final(self).allocated() == old(self).allocated(),
            match spec_unary_operator_kind(token.kind) {
                Some(kind) => r == Ok::<ASTExprUnaryOperatorKind, ()>(kind) && final(self).spec_log() == old(self).spec_log(),
                None => r.is_err() && final(self).spec_log() == old(self).spec_log().push(
                    invalid_operator_diagnostic(old(self), INVALID_UNARY_OPERATOR, *token, "unary"@),
                ),
            },
    {
        match unary_operator_of(token.kind) {
            Some(kind) => Ok(kind),
            None => {
                self.invalid_operator(INVALID_UNARY_OPERATOR, token, "unary");
                Err(())
            },
        }
    }

    /// Parses a whole file: module items until the tokens end. After an
    /// item that fails, tokens are passed until one with which an item can
    /// start. Fails only when no node identity is left.
    pub fn parse_module(&mut self) -> (r: Result<ASTModule, ()>)
        requires
            old(self)@.wf(),
        ensures
            final(self).advanced(old(self)),
            r.is_ok() && final(self).quiet_since(old(self)) ==> final(self)@.taken
                == module_onto(old(self)@.taken, r->Ok_0),
            r.is_err() ==> final(self).failed_aloud(old(self)),
            r.is_ok() == (old(self).allocated() < u64::MAX),
            match r {
                Ok(module) => module.id@ == old(self).allocated() + 1 && final(self)@.remaining()
                    == 0 && covered(
                    final(self)@.tokens,
                    final(self)@.tokens.len() as int,
                    final(self)@.taken,
                ),
                Err(_) => final(self).spec_log() == old(self).spec_log(),
            },
        decreases old(self)@.remaining(), 2int,
    {
        let (id, pos) = self.new_node()?;
        let mut items = Vec::new();
        let ghost start_items = self@.taken;
        let ghost calm_items = self.quiet_since(old(self));
        loop
            invariant_except_break
                self.advanced(old(self)),
            invariant
                id@ == old(self).allocated() + 1,
                old(self).allocated() < u64::MAX,
                start_items == old(self)@.taken,
                self.quiet_since(old(self)) ==> calm_items && self@.taken == module_item_list_onto(start_items,
                    items@,
                    0,
                ),
            ensures
                self.advanced(old(self)),
                self@.remaining() == 0,
            decreases self@.remaining(),
        {
            let mark = self.progress_mark();
            if !self.is_exists() {
                break ;
            }
            match self.parse_module_item() {
                Ok(item) => {
                    let ghost before_items = items@;
                    items.push(item);
                    proof {
                        assert(items@ =~= before_items.push(items@.last()));
                        lemma_module_item_list_push(start_items, before_items, items@.last(), 0);
                    }
                },
                Err(_) => {
                    self.skip_tokens(&vec![Skipper::ModuleItem]);
                },
            }
            if self.progress_mark() >= mark {
                if !self.skip_one() {
                    break ;
                }
            }
        }
        proof {
            assert(self@.taken + kinds_of(self@.buffer) =~= self@.taken);
        }
        Ok(ASTModule { id, span: self.make_span(pos), items })
    }

    /// Parses the declaration of a module that lives in a file of its own:
    /// `module name;`, with `pub` before it or not.
    pub fn parse_module_decl(&mut self) -> (r: Result<ASTModuleDecl, ()>)
        requires
            old(self)@.wf(),
        ensures
            final(self).advanced(old(self)),
            r.is_ok() && final(self).quiet_since(old(self)) ==> final(self)@.taken
                == module_decl_onto(old(self)@.taken, r->Ok_0),
            r.is_ok() ==> r->Ok_0.id@ == old(self).allocated() + 1 && r->Ok_0.span == old(
                self,
            ).span_to(final(self)),
            r.is_err() ==> final(self).failed_aloud(old(self)),
            r.is_ok() ==> final(self)@.remaining() < old(self)@.remaining(),
        decreases old(self)@.remaining(), 0int,
    {
        let (id, pos) = self.new_node()?;
        let keyword_pub = self.keyword(KEYWORD_PUB);
        let keyword_module = self.keyword_or_err(KEYWORD_MODULE)?;
        let identifier = self.identifier_or_err()?;
        let token_semicolon = self.kind_or_err(TokenKind::Semicolon)?;
        Ok(
            ASTModuleDecl {
                id,
                span: self.make_span(pos),
                keyword_pub,
                keyword_module,
                identifier,
                token_semicolon,
            },
        )
    }

    /// Parses a path: segments with `::` between them.
    #[verifier::loop_isolation(false)]
    pub fn parse_path(&mut self) -> (r: Result<ASTPath, ()>)
        requires
            old(self)@.wf(),
        ensures
            final(self).advanced(old(self)),
            r.is_ok() && final(self).quiet_since(old(self)) ==> final(self)@.taken
                == path_onto(old(self)@.taken, r->Ok_0),
            r.is_ok() ==> r->Ok_0.id@ == old(self).allocated() + 1 && r->Ok_0.span == old(self).span_to(
                final(self),
            ),
            r.is_ok() ==> r->Ok_0.segments.items@.len() >= 1 && r->Ok_0.segments.items@.last() is NotPunctuated,
            r.is_ok() ==> forall|i: int|
                0 <= i < r->Ok_0.segments.items@.len() - 1 ==> #[trigger] r->Ok_0.segments.items@[i] is Punctuated,
            r.is_err() ==> final(self).failed_aloud(old(self)),
            r.is_ok() ==> final(self)@.remaining() < old(self)@.remaining(),
        decreases old(self)@.remaining(), 1int,
    {
        let (id, pos) = self.new_node()?;
        let ghost start_segments = self@.taken;
        let mut last = self.parse_path_segment()?;
        let mut segments: Vec<PunctuatedItem<ASTPathSegment>> = Vec::new();
        loop
            invariant
                self.quiet_since(old(self)) ==> self@.taken == path_segment_onto(
                    path_segment_items_onto(start_segments, segments@, 0),
                    last,
                ),
                self.advanced(old(self)),
                self@.remaining() < old(self)@.remaining(),
                id@ == old(self).allocated() + 1,
                pos == old(self).next_low(),
                forall|i: int| 0 <= i < segments@.len() ==> #[trigger] segments@[i] is Punctuated,
            decreases self@.remaining(),
        {
            if !self.lookup_kind(0, TokenKind::PathSep) {
                break ;
            }
            let token_path_sep = self.kind_or_err(TokenKind::PathSep)?;
            let ghost before_segments = segments@;
            segments.push(PunctuatedItem::Punctuated { item: last, punctuation: token_path_sep });
            proof {
                assert(segments@ =~= before_segments.push(segments@.last()));
                lemma_path_segment_items_push(start_segments, before_segments, segments@.last(), 0);
            }
            last = self.parse_path_segment()?;
        }
        let ghost before_segments = segments@;
        segments.push(PunctuatedItem::NotPunctuated { item: last });
        proof {
            assert(segments@ =~= before_segments.push(segments@.last()));
            lemma_path_segment_items_push(start_segments, before_segments, segments@.last(), 0);
        }
        Ok(ASTPath { id, span: self.make_span(pos), segments: Punctuated { items: segments } })
    }

    /// Parses an expression with unary operators before it, the innermost
    /// of which stands last.
    #[verifier::loop_isolation(false)]
    pub fn parse_expr_unary(&mut self) -> (r: Result<ASTExpr, ()>)
        requires
            old(self)@.wf(),
        ensures
            final(self).advanced(old(self)),
            r.is_ok() && final(self).quiet_since(old(self)) ==> final(self)@.taken
                == expr_onto(old(self)@.taken, r->Ok_0),
            r.is_err() ==> final(self).failed_aloud(old(self)),
            r.is_ok() ==> final(self)@.remaining() < old(self)@.remaining(),
        decreases old(self)@.remaining(), 5int,
    {
        let mut ops: Vec<ASTExprUnaryOperator> = Vec::new();
        loop
            invariant
                self.advanced(old(self)),
                self.quiet_since(old(self)) ==> self@.taken == expr_unary_operator_list_onto(
                    old(self)@.taken,
                    ops@,
                    0,
                ),
            decreases self@.remaining(),
        {
            if !self.lookup_unary_op(0) {
                break ;
            }
            let ghost before_ops = ops@;
            ops.push(self.parse_expr_unary_operator()?);
            proof {
                assert(ops@ =~= before_ops.push(ops@.last()));
                lemma_expr_unary_operator_list_push(old(self)@.taken, before_ops, ops@.last(), 0);
            }
        }
        let mut expr = self.parse_expr_call_or_member()?;
        let ghost end = self@.taken;
        loop
            invariant
                self.advanced(old(self)),
                self@.remaining() < old(self)@.remaining(),
                self@.taken == end,
                self.quiet_since(old(self)) ==> end == expr_onto(
                    expr_unary_operator_list_onto(old(self)@.taken, ops@, 0),
                    expr,
                ),
            decreases ops@.len(),
        {
            let ghost before_ops = ops@;
            match ops.pop() {
                Some(op) => {
                    let (id, pos) = self.new_node()?;
                    proof {
                        assert(before_ops =~= ops@.push(op));
                        lemma_expr_unary_operator_list_push(old(self)@.taken, ops@, op, 0);
                    }
                    expr = self.wrap_expr_unary_op(
                        ASTExprUnary {
                            id,
                            span: self.make_span(pos),
                            operator: op,
                            operand_lhs: Box::new(expr),
                        },
                    )?;
                },
                None => {
                    break ;
                },
            }
        }
        Ok(expr)
    }

    /// Parses an expression with the calls and member accesses that follow
    /// it.
    #[verifier::loop_isolation(false)]
    pub fn parse_expr_call_or_member(&mut self) -> (r: Result<ASTExpr, ()>)
        requires
            old(self)@.wf(),
        ensures
            final(self).advanced(old(self)),
            r.is_ok() && final(self).quiet_since(old(self)) ==> final(self)@.taken
                == expr_onto(old(self)@.taken, r->Ok_0),
            r.is_err() ==> final(self).failed_aloud(old(self)),
            r.is_ok() ==> final(self)@.remaining() < old(self)@.remaining(),
        decreases old(self)@.remaining(), 4int,
    {
        let mut expr = self.parse_expr_paren_or_single_item()?;
        loop
            invariant
                self.quiet_since(old(self)) ==> self@.taken == expr_onto(
                    old(self)@.taken,
                    expr,
                ),
                self.advanced(old(self)),
                self@.remaining() < old(self)@.remaining(),
            decreases self@.remaining(),
        {
            if self.lookup_kind(0, TokenKind::OpenParen) {
                expr = self.parse_expr_call(expr)?;
            } else if self.lookup_kind(0, TokenKind::Dot) {
                expr = self.parse_expr_member(expr)?;
            } else {
                break ;
            }
        }
        Ok(expr)
    }

    /// Whether the keyword `keyword` stands next, with `pub` before it or
    /// not.
    fn item_keyword_follows(&mut self, keyword: usize) -> (r: bool)
        requires
            old(self)@.wf(),
        ensures
            r == item_keyword_stands(old(self)@, old(self).spec_symbols(), keyword as int),
            final(self)@ == item_keyword_asked(
                old(self)@,
                old(self).spec_symbols(),
                keyword as int,
            ),
            final(self).advanced(old(self)),
            final(self)@.taken == old(self)@.taken,
            final(self).spec_log() == old(self).spec_log(),
            final(self).allocated() == old(self).allocated(),
    {
        proof {
            let word = TokenClass::Keyword(self.spec_symbols().spec_get(keyword as int));
            let marker = TokenClass::Keyword(self.spec_symbols().spec_get(KEYWORD_PUB as int));
            let first = self@.looked_up(0, word);
            reveal_with_fuel(all_stand, 3);
            reveal_with_fuel(asked_in_turn, 3);
            lemma_looked_up(self@, 0, word);
            lemma_looked_up(first, 0, marker);
        }
        self.lookup_keyword(0, keyword) || (self.lookup_keyword(0, KEYWORD_PUB)
            && self.lookup_keyword(1, keyword))
    }

    /// Whether the declaration of a module in a file of its own stands
    /// next: `module`, a name and a semicolon, with `pub` before them or
    /// not.
    fn module_decl_follows(&mut self) -> (r: bool)
        requires
            old(self)@.wf(),
        ensures
            r == module_decl_stands(old(self)@, old(self).spec_symbols()),
            final(self)@ == module_decl_asked(old(self)@, old(self).spec_symbols()),
            final(self).advanced(old(self)),
            final(self)@.taken == old(self)@.taken,
            final(self).spec_log() == old(self).spec_log(),
            final(self).allocated() == old(self).allocated(),
    {
        proof {
            let module = self.spec_symbols().spec_get(KEYWORD_MODULE as int);
            let marker = self.spec_symbols().spec_get(KEYWORD_PUB as int);
            let name = TokenClass::Identifier;
            reveal_with_fuel(all_stand, 5);
            reveal_with_fuel(asked_in_turn, 5);
            let first = self@.looked_up(0, TokenClass::Keyword(module));
            lemma_looked_up(self@, 0, TokenClass::Keyword(module));
            lemma_looked_up(first, 1, name);
            let asked = asked_in_turn(self@, module_decl_words(module), 0);
            lemma_asked_in_turn(self@, module_decl_words(module), 0);
            let marked = asked.looked_up(0, TokenClass::Keyword(marker));
            lemma_looked_up(asked, 0, TokenClass::Keyword(marker));
            let named = marked.looked_up(1, TokenClass::Keyword(module));
            lemma_looked_up(marked, 1, TokenClass::Keyword(module));
            lemma_looked_up(named, 2, name);
        }
        (self.lookup_keyword(0, KEYWORD_MODULE) && self.lookup_identifier(1) && self.lookup_kind(
            2,
            TokenKind::Semicolon,
        )) || (self.lookup_keyword(0, KEYWORD_PUB) && self.lookup_keyword(1, KEYWORD_MODULE)
            && self.lookup_identifier(2) && self.lookup_kind(3, TokenKind::Semicolon))
    }

    /// Tells by the words that stand next which item follows.
    fn module_item_sort(&mut self) -> (r: ModuleItemSort)
        requires
            old(self)@.wf(),
        ensures
            r == item_sort(old(self)@, old(self).spec_symbols()),
            final(self)@ == item_sort_asked(old(self)@, old(self).spec_symbols()),
            final(self).advanced(old(self)),
            final(self)@.taken == old(self)@.taken,
            final(self).spec_log() == old(self).spec_log(),
            final(self).allocated() == old(self).allocated(),
    {
        let ghost start = self@;
        let ghost symbols = self.spec_symbols();
        let ghost marker = symbols.spec_get(KEYWORD_PUB as int);
        let ghost module = symbols.spec_get(KEYWORD_MODULE as int);
        proof {
            lemma_item_keyword_asked(start, start, symbols, KEYWORD_USE as int);
        }
        if self.item_keyword_follows(KEYWORD_USE) {
            return ModuleItemSort::Use;
        }
        proof {
            lemma_item_keyword_asked(self@, start, symbols, KEYWORD_ALIAS as int);
        }
        if self.item_keyword_follows(KEYWORD_ALIAS) {
            return ModuleItemSort::AliasDef;
        }
        proof {
            lemma_either_asked(
                self@,
                start,
                module_decl_words(module),
                marked_module_decl_words(marker, module),
            );
        }
        if self.module_decl_follows() {
            return ModuleItemSort::ModuleDecl;
        }
        proof {
            lemma_item_keyword_asked(self@, start, symbols, KEYWORD_MODULE as int);
        }
        if self.item_keyword_follows(KEYWORD_MODULE) {
            return ModuleItemSort::ModuleDef;
        }
        proof {
            lemma_looked_up(
                self@,
                0,
                TokenClass::Keyword(symbols.spec_get(KEYWORD_EXTERN as int)),
            );
        }
        if self.lookup_keyword(0, KEYWORD_EXTERN) {
            return ModuleItemSort::ExternBlock;
        }
        proof {
            lemma_item_keyword_asked(self@, start, symbols, KEYWORD_FN as int);
        }
        if self.item_keyword_follows(KEYWORD_FN) {
            return ModuleItemSort::FnDef;
        }
        proof {
            lemma_item_keyword_asked(self@, start, symbols, KEYWORD_STRUCT as int);
        }
        if self.item_keyword_follows(KEYWORD_STRUCT) {
            return ModuleItemSort::StructDef;
        }
        proof {
            lemma_item_keyword_asked(self@, start, symbols, KEYWORD_INTERFACE as int);
        }
        if self.item_keyword_follows(KEYWORD_INTERFACE) {
            return ModuleItemSort::InterfaceDef;
        }
        ModuleItemSort::ImplBlock
    }

    pub fn parse_module_item(&mut self) -> (r: Result<ASTModuleItem, ()>)
        requires
            old(self)@.wf(),
        ensures
            final(self).advanced(old(self)),
            r.is_ok() && final(self).quiet_since(old(self)) ==> final(self)@.taken
                == module_item_onto(old(self)@.taken, r->Ok_0),
            r.is_ok() ==> r->Ok_0.id@ == old(self).allocated() + 1 && r->Ok_0.span == old(
                self,
            ).span_to(final(self)),
            r.is_err() ==> final(self).failed_aloud(old(self)),
            r.is_ok() ==> final(self)@.remaining() < old(self)@.remaining(),
        decreases old(self)@.remaining(), 1int,
    {
        let (id, pos) = self.new_node()?;
        let kind = match self.module_item_sort() {
            ModuleItemSort::Use => ASTModuleItemKind::Use(Arc::new(self.parse_use()?)),
            ModuleItemSort::AliasDef => ASTModuleItemKind::AliasDef(
                Arc::new(self.parse_alias_def()?),
            ),
            ModuleItemSort::ModuleDecl => ASTModuleItemKind::ModuleDecl(
                Arc::new(self.parse_module_decl()?),
            ),
            ModuleItemSort::ModuleDef => ASTModuleItemKind::ModuleDef(
                Arc::new(self.parse_module_def()?),
            ),
            ModuleItemSort::ExternBlock => ASTModuleItemKind::ExternBlock(
                self.parse_extern_block()?,
            ),
            ModuleItemSort::FnDef => ASTModuleItemKind::FnDef(Arc::new(self.parse_fn_def()?)),
            ModuleItemSort::StructDef => ASTModuleItemKind::StructDef(
                Arc::new(self.parse_struct_def()?),
            ),
            ModuleItemSort::InterfaceDef => ASTModuleItemKind::InterfaceDef(
                Arc::new(self.parse_interface_def()?),
            ),
            ModuleItemSort::ImplBlock => ASTModuleItemKind::ImplBlock(self.parse_impl_block()?),
        };
        Ok(ASTModuleItem { id, span: self.make_span(pos), kind })
    }

    pub fn parse_use(&mut self) -> (r: Result<ASTUse, ()>)
        requires
            old(self)@.wf(),
        ensures
            final(self).advanced(old(self)),
            r.is_ok() && final(self).quiet_since(old(self)) ==> final(self)@.taken
                == use_onto(old(self)@.taken, r->Ok_0),
            r.is_ok() ==> r->Ok_0.id@ == old(self).allocated() + 1 && r->Ok_0.span == old(
                self,
            ).span_to(final(self)),
            r.is_err() ==> final(self).failed_aloud(old(self)),
            r.is_ok() ==> final(self)@.remaining() < old(self)@.remaining(),
        decreases old(self)@.remaining(), 0int,
    {
        let (id, pos) = self.new_node()?;
        let keyword_pub = self.keyword(KEYWORD_PUB);
        let keyword_use = self.keyword_or_err(KEYWORD_USE)?;
        let path = self.parse_use_path()?;
        let token_semicolon = self.kind_or_err(TokenKind::Semicolon)?;

        Ok(ASTUse {
            id,
            span: self.make_span(pos),
            keyword_pub,
            keyword_use,
            path,
            token_semicolon,
        })
    }

    pub fn parse_use_path(&mut self) -> (r: Result<ASTUsePath, ()>)
        requires
            old(self)@.wf(),
        ensures
            final(self).advanced(old(self)),
            r.is_ok() && final(self).quiet_since(old(self)) ==> final(self)@.taken
                == use_path_onto(old(self)@.taken, r->Ok_0),
            r.is_ok() ==> r->Ok_0.id@ == old(self).allocated() + 1 && r->Ok_0.span == old(
                self,
            ).span_to(final(self)),
            r.is_err() ==> final(self).failed_aloud(old(self)),
            r.is_ok() ==> final(self)@.remaining() < old(self)@.remaining(),
        decreases old(self)@.remaining(), 2int,
    {
        let (id, pos) = self.new_node()?;
        let prefix = self.parse_use_path_prefix()?;
        let item = self.parse_use_path_item()?;

        Ok(ASTUsePath {
            id,
            span: self.make_span(pos),
            prefix: if prefix.segments.len() == 0 {
                None
            } else {
                Some(prefix)
            },
            item,
        })
    }

    #[verifier::loop_isolation(false)]
    pub fn parse_use_path_prefix(&mut self) -> (r: Result<ASTUsePathPrefix, ()>)
        requires
            old(self)@.wf(),
        ensures
            final(self).advanced(old(self)),
            r.is_ok() && final(self).quiet_since(old(self)) ==> final(self)@.taken
                == use_path_prefix_onto(old(self)@.taken, r->Ok_0),
            r.is_ok() ==> r->Ok_0.id@ == old(self).allocated() + 1 && r->Ok_0.span == old(
                self,
            ).span_to(final(self)),
            r.is_err() ==> final(self).failed_aloud(old(self)),
        decreases old(self)@.remaining(), 1int,
    {
        let (id, pos) = self.new_node()?;

        let mut segments = Vec::new();
        let ghost start_segments = self@.taken;
        let ghost calm_segments = self.quiet_since(old(self));
        loop
            invariant
                self.quiet_since(old(self)) ==> calm_segments && self@.taken == use_path_prefix_segment_list_onto(
                    start_segments,
                    segments@,
                    0,
                ),
                id@ == old(self).allocated() + 1,
                pos == old(self).next_low(),
                self.advanced(old(self)),
            decreases self@.remaining(),
        {
            let mark = self.progress_mark();
            if !self.lookup_identifier(0) {
                break ;
            }
            if !self.lookup_kind(1, TokenKind::PathSep) {
                break ;
            }
            let ghost before_segments = segments@;
            segments.push(self.parse_use_path_prefix_segment()?);
            proof {
                assert(segments@ =~= before_segments.push(segments@.last()));
                lemma_use_path_prefix_segment_list_push(start_segments, before_segments, segments@.last(), 0);
            }
            if self.progress_mark() >= mark {
                if !self.skip_one() {
                    break ;
                }
            }
        }

        Ok(ASTUsePathPrefix {
            id,
            span: self.make_span(pos),
            segments,
        })
    }

    pub fn parse_use_path_prefix_segment(&mut self) -> (r: Result<ASTUsePathPrefixSegment, ()>)
        requires
            old(self)@.wf(),
        ensures
            final(self).advanced(old(self)),
            r.is_ok() && final(self).quiet_since(old(self)) ==> final(self)@.taken
                == use_path_prefix_segment_onto(old(self)@.taken, r->Ok_0),
            r.is_ok() ==> r->Ok_0.id@ == old(self).allocated() + 1 && r->Ok_0.span == old(
                self,
            ).span_to(final(self)),
            r.is_err() ==> final(self).failed_aloud(old(self)),
            r.is_ok() ==> final(self)@.remaining() < old(self)@.remaining(),
        decreases old(self)@.remaining(), 0int,
    {
        let (id, pos) = self.new_node()?;

        let kind = if let Some(keyword) = self.keyword(KEYWORD_SELF) {
            ASTUsePathPrefixSegmentKind::Self_(keyword)
        } else if let Some(keyword) = self.keyword(KEYWORD_SUPER) {
            ASTUsePathPrefixSegmentKind::Super_(keyword)
        } else {
            ASTUsePathPrefixSegmentKind::Identifier(self.identifier_or_err()?)
        };

        let token_path_sep = self.kind_or_err(TokenKind::PathSep)?;

        Ok(ASTUsePathPrefixSegment {
            id,
            span: self.make_span(pos),
            kind,
            token_path_sep,
        })
    }

    pub fn parse_use_path_item(&mut self) -> (r: Result<ASTUsePathItem, ()>)
        requires
            old(self)@.wf(),
        ensures
            final(self).advanced(old(self)),
            r.is_ok() && final(self).quiet_since(old(self)) ==> final(self)@.taken
                == use_path_item_onto(old(self)@.taken, r->Ok_0),
            r.is_ok() ==> r->Ok_0.id@ == old(self).allocated() + 1 && r->Ok_0.span == old(
                self,
            ).span_to(final(self)),
            r.is_err() ==> final(self).failed_aloud(old(self)),
            r.is_ok() ==> final(self)@.remaining() < old(self)@.remaining(),
        decreases old(self)@.remaining(), 1int,
    {
        let (id, pos) = self.new_node()?;

        let kind = if let Some(token) = self.kind(TokenKind::Mul) {
            ASTUsePathItemKind::All(token)
        } else if self.lookup_identifier(0) {
            ASTUsePathItemKind::Single(self.parse_use_path_item_single()?)
        } else {
            ASTUsePathItemKind::Group(self.parse_use_path_item_group()?)
        };

        Ok(ASTUsePathItem {
            id,
            span: self.make_span(pos),
            kind,
        })
    }

    pub fn parse_use_path_item_single(&mut self) -> (r: Result<ASTUsePathItemSingle, ()>)
        requires
            old(self)@.wf(),
        ensures
            final(self).advanced(old(self)),
            r.is_ok() && final(self).quiet_since(old(self)) ==> final(self)@.taken
                == use_path_item_single_onto(old(self)@.taken, r->Ok_0),
            r.is_ok() ==> r->Ok_0.id@ == old(self).allocated() + 1 && r->Ok_0.span == old(
                self,
            ).span_to(final(self)),
            r.is_err() ==> final(self).failed_aloud(old(self)),
            r.is_ok() ==> final(self)@.remaining() < old(self)@.remaining(),
        decreases old(self)@.remaining(), 0int,
    {
        let (id, pos) = self.new_node()?;
        let identifier = self.identifier_or_err()?;
        let alias = if self.lookup_keyword(0, KEYWORD_AS) {
            Some(self.parse_use_path_item_single_alias()?)
        } else {
            None
        };

        Ok(ASTUsePathItemSingle {
            id,
            span: self.make_span(pos),
            identifier,
            alias,
        })
    }

    pub fn parse_use_path_item_single_alias(&mut self) -> (r: Result<ASTUsePathItemSingleAlias, ()>)
        requires
            old(self)@.wf(),
        ensures
            final(self).advanced(old(self)),
            r.is_ok() && final(self).quiet_since(old(self)) ==> final(self)@.taken
                == use_path_item_single_alias_onto(old(self)@.taken, r->Ok_0),
            r.is_ok() ==> r->Ok_0.id@ == old(self).allocated() + 1 && r->Ok_0.span == old(
                self,
            ).span_to(final(self)),
            r.is_err() ==> final(self).failed_aloud(old(self)),
            r.is_ok() ==> final(self)@.remaining() < old(self)@.remaining(),
        decreases old(self)@.remaining(), 0int,
    {
        let (id, pos) = self.new_node()?;
        let keyword_as = self.keyword_or_err(KEYWORD_AS)?;
        let identifier = self.identifier_or_err()?;

        Ok(ASTUsePathItemSingleAlias {
            id,
            span: self.make_span(pos),
            keyword_as,
            identifier,
        })
    }

    #[verifier::loop_isolation(false)]
    pub fn parse_use_path_item_group(&mut self) -> (r: Result<ASTUsePathItemGroup, ()>)
        requires
            old(self)@.wf(),
        ensures
            final(self).advanced(old(self)),
            r.is_ok() && final(self).quiet_since(old(self)) ==> final(self)@.taken
                == use_path_item_group_onto(old(self)@.taken, r->Ok_0),
            r.is_ok() ==> r->Ok_0.id@ == old(self).allocated() + 1 && r->Ok_0.span == old(
                self,
            ).span_to(final(self)),
            r.is_err() ==> final(self).failed_aloud(old(self)),
            r.is_ok() ==> final(self)@.remaining() < old(self)@.remaining(),
        decreases old(self)@.remaining(), 0int,
    {
        let (id, pos) = self.new_node()?;
        let token_brace_open = self.kind_or_err(TokenKind::OpenBrace)?;

        let mut items = Vec::new();
        let ghost start_items = self@.taken;
        let ghost calm_items = self.quiet_since(old(self));
        loop
            invariant
                self.quiet_since(old(self)) ==> calm_items && self@.taken == use_path_items_onto(
                    start_items,
                    items@,
                    0,
                ),
                id@ == old(self).allocated() + 1,
                pos == old(self).next_low(),
                self.advanced(old(self)),
                self@.remaining() < old(self)@.remaining(),
            decreases self@.remaining(),
        {
            let mark = self.progress_mark();
            if !self.is_exists() {
                break ;
            }
            if self.lookup_kind(0, TokenKind::CloseBrace) {
                break ;
            }
            let item = match self.parse_use_path() {
                Ok(item) => item,
                Err(_) => {
                    // eat erroneous tokens
                    self.skip_tokens(&vec![Skipper::UsePathItemGroupItem, Skipper::ModuleItem]);
                    // eat commas if any
                    self.skip_tokens(&vec![Skipper::Comma]);
                    if self.progress_mark() >= mark {
                        if !self.skip_one() {
                            break ;
                        }
                    }
                    continue;
                }
            };

            let punctuation = self.kind(TokenKind::Comma);

            match punctuation {
                Some(punctuation) => {
                    let ghost before_items = items@;
                    items.push(PunctuatedItem::Punctuated { item, punctuation });
                    proof {
                        assert(items@ =~= before_items.push(items@.last()));
                        lemma_use_path_items_push(start_items, before_items, items@.last(), 0);
                    }
                }
                None => {
                    let ghost before_items = items@;
                    items.push(PunctuatedItem::NotPunctuated { item });
                    proof {
                        assert(items@ =~= before_items.push(items@.last()));
                        lemma_use_path_items_push(start_items, before_items, items@.last(), 0);
                    }
                    break;
                }
            }
            if self.progress_mark() >= mark {
                if !self.skip_one() {
                    break ;
                }
            }
        }

        let token_brace_close = self.kind_or_err(TokenKind::CloseBrace)?;

        Ok(ASTUsePathItemGroup {
            id,
            span: self.make_span(pos),
            token_brace_open,
            items: Punctuated { items },
            token_brace_close,
        })
    }

    pub fn parse_alias_def(&mut self) -> (r: Result<ASTAliasDef, ()>)
        requires
            old(self)@.wf(),
        ensures
            final(self).advanced(old(self)),
            r.is_ok() && final(self).quiet_since(old(self)) ==> final(self)@.taken
                == alias_def_onto(old(self)@.taken, r->Ok_0),
            r.is_ok() ==> r->Ok_0.id@ == old(self).allocated() + 1 && r->Ok_0.span == old(
                self,
            ).span_to(final(self)),
            r.is_err() ==> final(self).failed_aloud(old(self)),
            r.is_ok() ==> final(self)@.remaining() < old(self)@.remaining(),
        decreases old(self)@.remaining(), 0int,
    {
        let (id, pos) = self.new_node()?;
        let keyword_pub = self.keyword(KEYWORD_PUB);
        let keyword_alias = self.keyword_or_err(KEYWORD_ALIAS)?;
        let identifier = self.identifier_or_err()?;
        let token_assign = self.kind_or_err(TokenKind::Assign)?;
        let ty = self.parse_ty()?;
        let token_semicolon = self.kind_or_err(TokenKind::Semicolon)?;

        Ok(ASTAliasDef {
            id,
            span: self.make_span(pos),
            keyword_pub,
            keyword_alias,
            identifier,
            token_assign,
            ty,
            token_semicolon,
        })
    }

    #[verifier::loop_isolation(false)]
    pub fn parse_module_def(&mut self) -> (r: Result<ASTModuleDef, ()>)
        requires
            old(self)@.wf(),
        ensures
            final(self).advanced(old(self)),
            r.is_ok() && final(self).quiet_since(old(self)) ==> final(self)@.taken
                == module_def_onto(old(self)@.taken, r->Ok_0),
            r.is_ok() ==> r->Ok_0.id@ == old(self).allocated() + 1 && r->Ok_0.span == old(
                self,
            ).span_to(final(self)),
            r.is_err() ==> final(self).failed_aloud(old(self)),
            r.is_ok() ==> final(self)@.remaining() < old(self)@.remaining(),
        decreases old(self)@.remaining(), 0int,
    {
        let (id, pos) = self.new_node()?;
        let keyword_pub = self.keyword(KEYWORD_PUB);
        let keyword_module = self.keyword_or_err(KEYWORD_MODULE)?;
        let identifier = self.identifier_or_err()?;
        let token_brace_open = self.kind_or_err(TokenKind::OpenBrace)?;

        let mut items = Vec::new();
        let ghost start_items = self@.taken;
        let ghost calm_items = self.quiet_since(old(self));
        loop
            invariant
                self.quiet_since(old(self)) ==> calm_items && self@.taken == module_item_list_onto(
                    start_items,
                    items@,
                    0,
                ),
                id@ == old(self).allocated() + 1,
                pos == old(self).next_low(),
                self.advanced(old(self)),
                self@.remaining() < old(self)@.remaining(),
            decreases self@.remaining(),
        {
            let mark = self.progress_mark();
            if !self.is_exists() {
                break ;
            }
            if self.lookup_kind(0, TokenKind::CloseBrace) {
                break ;
            }
            match self.parse_module_item() {
                Ok(item) => {
                    let ghost before_items = items@;
                    items.push(item);
                    proof {
                        assert(items@ =~= before_items.push(items@.last()));
                        lemma_module_item_list_push(start_items, before_items, items@.last(), 0);
                    }
                }
                Err(_) => {
                    // eat erroneous tokens
                    self.skip_tokens(&vec![Skipper::ModuleItem]);
                }
            }
            if self.progress_mark() >= mark {
                if !self.skip_one() {
                    break ;
                }
            }
        }

        let token_brace_close = self.kind_or_err(TokenKind::CloseBrace)?;

        Ok(ASTModuleDef {
            id,
            span: self.make_span(pos),
            keyword_pub,
            keyword_module,
            identifier,
            token_brace_open,
            items,
            token_brace_close,
        })
    }

    #[verifier::loop_isolation(false)]
    pub fn parse_extern_block(&mut self) -> (r: Result<ASTExternBlock, ()>)
        requires
            old(self)@.wf(),
        ensures
            final(self).advanced(old(self)),
            r.is_ok() && final(self).quiet_since(old(self)) ==> final(self)@.taken
                == extern_block_onto(old(self)@.taken, r->Ok_0),
            r.is_ok() ==> r->Ok_0.id@ == old(self).allocated() + 1 && r->Ok_0.span == old(
                self,
            ).span_to(final(self)),
            r.is_err() ==> final(self).failed_aloud(old(self)),
            r.is_ok() ==> final(self)@.remaining() < old(self)@.remaining(),
        decreases old(self)@.remaining(), 0int,
    {
        let (id, pos) = self.new_node()?;
        let keyword_extern = self.keyword_or_err(KEYWORD_EXTERN)?;
        let token_brace_open = self.kind_or_err(TokenKind::OpenBrace)?;

        let mut items = Vec::new();
        let ghost start_items = self@.taken;
        let ghost calm_items = self.quiet_since(old(self));
        loop
            invariant
                self.quiet_since(old(self)) ==> calm_items && self@.taken == extern_block_item_list_onto(
                    start_items,
                    items@,
                    0,
                ),
                id@ == old(self).allocated() + 1,
                pos == old(self).next_low(),
                self.advanced(old(self)),
                self@.remaining() < old(self)@.remaining(),
            decreases self@.remaining(),
        {
            let mark = self.progress_mark();
            if !self.is_exists() {
                break ;
            }
            if self.lookup_kind(0, TokenKind::CloseBrace) {
                break ;
            }
            match self.parse_extern_block_item() {
                Ok(item) => {
                    let ghost before_items = items@;
                    items.push(item);
                    proof {
                        assert(items@ =~= before_items.push(items@.last()));
                        lemma_extern_block_item_list_push(start_items, before_items, items@.last(), 0);
                    }
                }
                Err(_) => {
                    // eat erroneous tokens
                    self.skip_tokens(&vec![Skipper::ExternBlockItem, Skipper::ModuleItem]);
                }
            }
            if self.progress_mark() >= mark {
                if !self.skip_one() {
                    break ;
                }
            }
        }

        let token_brace_close = self.kind_or_err(TokenKind::CloseBrace)?;

        Ok(ASTExternBlock {
            id,
            span: self.make_span(pos),
            keyword_extern,
            token_brace_open,
            items,
            token_brace_close,
        })
    }

    pub fn parse_extern_block_item(&mut self) -> (r: Result<ASTExternBlockItem, ()>)
        requires
            old(self)@.wf(),
        ensures
            final(self).advanced(old(self)),
            r.is_ok() && final(self).quiet_since(old(self)) ==> final(self)@.taken
                == extern_block_item_onto(old(self)@.taken, r->Ok_0),
            r.is_ok() ==> r->Ok_0.id@ == old(self).allocated() + 1 && r->Ok_0.span == old(
                self,
            ).span_to(final(self)),
            r.is_err() ==> final(self).failed_aloud(old(self)),
            r.is_ok() ==> final(self)@.remaining() < old(self)@.remaining(),
        decreases old(self)@.remaining(), 1int,
    {
        let (id, pos) = self.new_node()?;

        let kind = if self.lookup_keyword(0, KEYWORD_PROTOTYPE)
            || (self.lookup_keyword(0, KEYWORD_PUB) && self.lookup_keyword(1, KEYWORD_PROTOTYPE))
        {
            ASTExternBlockItemKind::PrototypeDef(Arc::new(self.parse_prototype_def()?))
        } else if self.lookup_keyword(0, KEYWORD_FN)
            || (self.lookup_keyword(0, KEYWORD_PUB) && self.lookup_keyword(1, KEYWORD_FN))
        {
            ASTExternBlockItemKind::FnDef(Arc::new(self.parse_fn_def()?))
        } else if self.lookup_keyword(0, KEYWORD_STRUCT)
            || (self.lookup_keyword(0, KEYWORD_PUB) && self.lookup_keyword(1, KEYWORD_STRUCT))
        {
            ASTExternBlockItemKind::StructDef(Arc::new(self.parse_struct_def()?))
        } else {
            ASTExternBlockItemKind::ImplBlock(self.parse_impl_block()?)
        };

        Ok(ASTExternBlockItem {
            id,
            span: self.make_span(pos),
            kind,
        })
    }

    #[verifier::loop_isolation(false)]
    pub fn parse_prototype_def(&mut self) -> (r: Result<ASTPrototypeDef, ()>)
        requires
            old(self)@.wf(),
        ensures
            final(self).advanced(old(self)),
            r.is_ok() && final(self).quiet_since(old(self)) ==> final(self)@.taken
                == prototype_def_onto(old(self)@.taken, r->Ok_0),
            r.is_ok() ==> r->Ok_0.id@ == old(self).allocated() + 1 && r->Ok_0.span == old(
                self,
            ).span_to(final(self)),
            r.is_err() ==> final(self).failed_aloud(old(self)),
            r.is_ok() ==> final(self)@.remaining() < old(self)@.remaining(),
        decreases old(self)@.remaining(), 0int,
    {
        let (id, pos) = self.new_node()?;
        let keyword_pub = self.keyword(KEYWORD_PUB);
        let keyword_prototype = self.keyword_or_err(KEYWORD_PROTOTYPE)?;
        let identifier = self.identifier_or_err()?;
        let token_paren_open = self.kind_or_err(TokenKind::OpenParen)?;

        let mut params = Vec::new();
        let ghost start_params = self@.taken;
        let ghost calm_params = self.quiet_since(old(self));
        loop
            invariant
                self.quiet_since(old(self)) ==> calm_params && self@.taken == fn_param_items_onto(
                    start_params,
                    params@,
                    0,
                ),
                id@ == old(self).allocated() + 1,
                pos == old(self).next_low(),
                self.advanced(old(self)),
                self@.remaining() < old(self)@.remaining(),
            decreases self@.remaining(),
        {
            let mark = self.progress_mark();
            if !self.is_exists() {
                break ;
            }
            if self.lookup_kind(0, TokenKind::CloseParen) {
                break ;
            }
            let param = match self.parse_fn_param() {
                Ok(param) => param,
                Err(_) => {
                    // eat erroneous tokens
                    self.skip_tokens(&vec![Skipper::PrototypeParamsItem, Skipper::ExternBlockItem, Skipper::ModuleItem]);
                    // eat commas if any
                    self.skip_tokens(&vec![Skipper::Comma]);
                    if self.progress_mark() >= mark {
                        if !self.skip_one() {
                            break ;
                        }
                    }
                    continue;
                }
            };

            let punctuation = self.kind(TokenKind::Comma);

            match punctuation {
                Some(punctuation) => {
                    let ghost before_params = params@;
                    params.push(PunctuatedItem::Punctuated {
                        item: param,
                        punctuation,
                    });
                    proof {
                        assert(params@ =~= before_params.push(params@.last()));
                        lemma_fn_param_items_push(start_params, before_params, params@.last(), 0);
                    }
                }
                None => {
                    let ghost before_params = params@;
                    params.push(PunctuatedItem::NotPunctuated { item: param });
                    proof {
                        assert(params@ =~= before_params.push(params@.last()));
                        lemma_fn_param_items_push(start_params, before_params, params@.last(), 0);
                    }
                    break;
                }
            }
            if self.progress_mark() >= mark {
                if !self.skip_one() {
                    break ;
                }
            }
        }

        let token_paren_close = self.kind_or_err(TokenKind::CloseParen)?;
        let result = if self.lookup_kind(0, TokenKind::Arrow) {
            Some(self.parse_fn_result()?)
        } else {
            None
        };
        let token_semicolon = self.kind_or_err(TokenKind::Semicolon)?;

        Ok(ASTPrototypeDef {
            id,
            span: self.make_span(pos),
            keyword_pub,
            keyword_prototype,
            identifier,
            token_paren_open,
            params: Punctuated { items: params },
            token_paren_close,
            result,
            token_semicolon,
        })
    }

    #[verifier::loop_isolation(false)]
    pub fn parse_fn_def(&mut self) -> (r: Result<ASTFnDef, ()>)
        requires
            old(self)@.wf(),
        ensures
            final(self).advanced(old(self)),
            r.is_ok() && final(self).quiet_since(old(self)) ==> final(self)@.taken
                == fn_def_onto(old(self)@.taken, r->Ok_0),
            r.is_ok() ==> r->Ok_0.id@ == old(self).allocated() + 1 && r->Ok_0.span == old(
                self,
            ).span_to(final(self)),
            r.is_err() ==> final(self).failed_aloud(old(self)),
            r.is_ok() ==> final(self)@.remaining() < old(self)@.remaining(),
        decreases old(self)@.remaining(), 0int,
    {
        let (id, pos) = self.new_node()?;
        let keyword_pub = self.keyword(KEYWORD_PUB);
        let keyword_fn = self.keyword_or_err(KEYWORD_FN)?;
        let identifier = self.identifier_or_err()?;
        let generic_param = if self.lookup_kind(0, TokenKind::Lt) {
            Some(self.parse_generic_param()?)
        } else {
            None
        };
        let token_paren_open = self.kind_or_err(TokenKind::OpenParen)?;

        let mut params = Vec::new();
        let ghost start_params = self@.taken;
        let ghost calm_params = self.quiet_since(old(self));
        loop
            invariant
                self.quiet_since(old(self)) ==> calm_params && self@.taken == fn_param_items_onto(
                    start_params,
                    params@,
                    0,
                ),
                id@ == old(self).allocated() + 1,
                pos == old(self).next_low(),
                self.advanced(old(self)),
                self@.remaining() < old(self)@.remaining(),
            decreases self@.remaining(),
        {
            let mark = self.progress_mark();
            if !self.is_exists() {
                break ;
            }
            if self.lookup_kind(0, TokenKind::CloseParen) {
                break ;
            }
            let param = match self.parse_fn_param() {
                Ok(param) => param,
                Err(_) => {
                    // eat erroneous tokens
                    self.skip_tokens(&vec![Skipper::FnParamsItem, Skipper::ExternBlockItem, Skipper::ModuleItem]);
                    // eat commas if any
                    self.skip_tokens(&vec![Skipper::Comma]);
                    if self.progress_mark() >= mark {
                        if !self.skip_one() {
                            break ;
                        }
                    }
                    continue;
                }
            };

            let punctuation = self.kind(TokenKind::Comma);

            match punctuation {
                Some(punctuation) => {
                    let ghost before_params = params@;
                    params.push(PunctuatedItem::Punctuated {
                        item: param,
                        punctuation,
                    });
                    proof {
                        assert(params@ =~= before_params.push(params@.last()));
                        lemma_fn_param_items_push(start_params, before_params, params@.last(), 0);
                    }
                }
                None => {
                    let ghost before_params = params@;
                    params.push(PunctuatedItem::NotPunctuated { item: param });
                    proof {
                        assert(params@ =~= before_params.push(params@.last()));
                        lemma_fn_param_items_push(start_params, before_params, params@.last(), 0);
                    }
                    break;
                }
            }
            if self.progress_mark() >= mark {
                if !self.skip_one() {
                    break ;
                }
            }
        }

        let token_paren_close = self.kind_or_err(TokenKind::CloseParen)?;
        let result = if self.lookup_kind(0, TokenKind::Arrow) {
            Some(self.parse_fn_result()?)
        } else {
            None
        };
        let generic_where = if self.lookup_keyword(0, KEYWORD_WHERE) {
            Some(self.parse_generic_where()?)
        } else {
            None
        };
        let stmt_block = self.parse_stmt_block()?;

        Ok(ASTFnDef {
            id,
            span: self.make_span(pos),
            keyword_pub,
            keyword_fn,
            identifier,
            generic_param,
            token_paren_open,
            params: Punctuated { items: params },
            token_paren_close,
            result,
            generic_where,
            stmt_block,
        })
    }

    pub fn parse_fn_param(&mut self) -> (r: Result<ASTFnParam, ()>)
        requires
            old(self)@.wf(),
        ensures
            final(self).advanced(old(self)),
            r.is_ok() && final(self).quiet_since(old(self)) ==> final(self)@.taken
                == fn_param_onto(old(self)@.taken, r->Ok_0),
            r.is_ok() ==> r->Ok_0.id@ == old(self).allocated() + 1 && r->Ok_0.span == old(
                self,
            ).span_to(final(self)),
            r.is_err() ==> final(self).failed_aloud(old(self)),
            r.is_ok() ==> final(self)@.remaining() < old(self)@.remaining(),
        decreases old(self)@.remaining(), 0int,
    {
        let (id, pos) = self.new_node()?;
        let identifier = self.identifier_or_err()?;
        let token_colon = self.kind_or_err(TokenKind::Colon)?;
        let ty = self.parse_ty()?;

        Ok(ASTFnParam {
            id,
            span: self.make_span(pos),
            identifier,
            token_colon,
            ty,
        })
    }

    pub fn parse_fn_result(&mut self) -> (r: Result<ASTFnResult, ()>)
        requires
            old(self)@.wf(),
        ensures
            final(self).advanced(old(self)),
            r.is_ok() && final(self).quiet_since(old(self)) ==> final(self)@.taken
                == fn_result_onto(old(self)@.taken, r->Ok_0),
            r.is_ok() ==> r->Ok_0.id@ == old(self).allocated() + 1 && r->Ok_0.span == old(
                self,
            ).span_to(final(self)),
            r.is_err() ==> final(self).failed_aloud(old(self)),
            r.is_ok() ==> final(self)@.remaining() < old(self)@.remaining(),
        decreases old(self)@.remaining(), 0int,
    {
        let (id, pos) = self.new_node()?;
        let token_arrow = self.kind_or_err(TokenKind::Arrow)?;
        let ty = self.parse_ty()?;

        Ok(ASTFnResult {
            id,
            span: self.make_span(pos),
            token_arrow,
            ty,
        })
    }

    #[verifier::loop_isolation(false)]
    pub fn parse_struct_def(&mut self) -> (r: Result<ASTStructDef, ()>)
        requires
            old(self)@.wf(),
        ensures
            final(self).advanced(old(self)),
            r.is_ok() && final(self).quiet_since(old(self)) ==> final(self)@.taken
                == struct_def_onto(old(self)@.taken, r->Ok_0),
            r.is_ok() ==> r->Ok_0.id@ == old(self).allocated() + 1 && r->Ok_0.span == old(
                self,
            ).span_to(final(self)),
            r.is_err() ==> final(self).failed_aloud(old(self)),
            r.is_ok() ==> final(self)@.remaining() < old(self)@.remaining(),
        decreases old(self)@.remaining(), 0int,
    {
        let (id, pos) = self.new_node()?;
        let keyword_pub = self.keyword(KEYWORD_PUB);
        let keyword_struct = self.keyword_or_err(KEYWORD_STRUCT)?;
        let identifier = self.identifier_or_err()?;
        let generic_param = if self.lookup_kind(0, TokenKind::Lt) {
            Some(self.parse_generic_param()?)
        } else {
            None
        };
        let generic_where = if self.lookup_keyword(0, KEYWORD_WHERE) {
            Some(self.parse_generic_where()?)
        } else {
            None
        };
        let token_brace_open = self.kind_or_err(TokenKind::OpenBrace)?;

        let mut fields = Vec::new();
        let ghost start_fields = self@.taken;
        let ghost calm_fields = self.quiet_since(old(self));
        loop
            invariant
                self.quiet_since(old(self)) ==> calm_fields && self@.taken == struct_def_field_items_onto(
                    start_fields,
                    fields@,
                    0,
                ),
                id@ == old(self).allocated() + 1,
                pos == old(self).next_low(),
                self.advanced(old(self)),
                self@.remaining() < old(self)@.remaining(),
            decreases self@.remaining(),
        {
            let mark = self.progress_mark();
            if !self.is_exists() {
                break ;
            }
            if self.lookup_kind(0, TokenKind::CloseBrace) {
                break ;
            }
            let field = match self.parse_struct_def_field() {
                Ok(field) => field,
                Err(_) => {
                    // eat erroneous tokens
                    self.skip_tokens(&vec![Skipper::StructFieldsItem, Skipper::ExternBlockItem, Skipper::ModuleItem]);
                    // eat commas if any
                    self.skip_tokens(&vec![Skipper::Comma]);
                    if self.progress_mark() >= mark {
                        if !self.skip_one() {
                            break ;
                        }
                    }
                    continue;
                }
            };

            let punctuation = self.kind(TokenKind::Comma);

            match punctuation {
                Some(punctuation) => {
                    let ghost before_fields = fields@;
                    fields.push(PunctuatedItem::Punctuated {
                        item: field,
                        punctuation,
                    });
                    proof {
                        assert(fields@ =~= before_fields.push(fields@.last()));
                        lemma_struct_def_field_items_push(start_fields, before_fields, fields@.last(), 0);
                    }
                }
                None => {
                    let ghost before_fields = fields@;
                    fields.push(PunctuatedItem::NotPunctuated { item: field });
                    proof {
                        assert(fields@ =~= before_fields.push(fields@.last()));
                        lemma_struct_def_field_items_push(start_fields, before_fields, fields@.last(), 0);
                    }
                    break;
                }
            }
            if self.progress_mark() >= mark {
                if !self.skip_one() {
                    break ;
                }
            }
        }

        let token_brace_close = self.kind_or_err(TokenKind::CloseBrace)?;

        Ok(ASTStructDef {
            id,
            span: self.make_span(pos),
            keyword_pub,
            keyword_struct,
            identifier,
            generic_param,
            generic_where,
            token_brace_open,
            fields: Punctuated { items: fields },
            token_brace_close,
        })
    }

    pub fn parse_struct_def_field(&mut self) -> (r: Result<ASTStructDefField, ()>)
        requires
            old(self)@.wf(),
        ensures
            final(self).advanced(old(self)),
            r.is_ok() && final(self).quiet_since(old(self)) ==> final(self)@.taken
                == struct_def_field_onto(old(self)@.taken, r->Ok_0),
            r.is_ok() ==> r->Ok_0.id@ == old(self).allocated() + 1 && r->Ok_0.span == old(
                self,
            ).span_to(final(self)),
            r.is_err() ==> final(self).failed_aloud(old(self)),
            r.is_ok() ==> final(self)@.remaining() < old(self)@.remaining(),
        decreases old(self)@.remaining(), 0int,
    {
        let (id, pos) = self.new_node()?;
        let identifier = self.identifier_or_err()?;
        let token_colon = self.kind_or_err(TokenKind::Colon)?;
        let ty = self.parse_ty()?;

        Ok(ASTStructDefField {
            id,
            span: self.make_span(pos),
            identifier,
            token_colon,
            ty,
        })
    }

    #[verifier::loop_isolation(false)]
    pub fn parse_interface_def(&mut self) -> (r: Result<ASTInterfaceDef, ()>)
        requires
            old(self)@.wf(),
        ensures
            final(self).advanced(old(self)),
            r.is_ok() && final(self).quiet_since(old(self)) ==> final(self)@.taken
                == interface_def_onto(old(self)@.taken, r->Ok_0),
            r.is_ok() ==> r->Ok_0.id@ == old(self).allocated() + 1 && r->Ok_0.span == old(
                self,
            ).span_to(final(self)),
            r.is_err() ==> final(self).failed_aloud(old(self)),
            r.is_ok() ==> final(self)@.remaining() < old(self)@.remaining(),
        decreases old(self)@.remaining(), 0int,
    {
        let (id, pos) = self.new_node()?;
        let keyword_pub = self.keyword(KEYWORD_PUB);
        let keyword_interface = self.keyword_or_err(KEYWORD_INTERFACE)?;
        let identifier = self.identifier_or_err()?;
        let generic_param = if self.lookup_kind(0, TokenKind::Lt) {
            Some(self.parse_generic_param()?)
        } else {
            None
        };
        let generic_where = if self.lookup_keyword(0, KEYWORD_WHERE) {
            Some(self.parse_generic_where()?)
        } else {
            None
        };
        let token_brace_open = self.kind_or_err(TokenKind::OpenBrace)?;

        let mut items = Vec::new();
        let ghost start_items = self@.taken;
        let ghost calm_items = self.quiet_since(old(self));
        loop
            invariant
                self.quiet_since(old(self)) ==> calm_items && self@.taken == interface_def_item_list_onto(
                    start_items,
                    items@,
                    0,
                ),
                id@ == old(self).allocated() + 1,
                pos == old(self).next_low(),
                self.advanced(old(self)),
                self@.remaining() < old(self)@.remaining(),
            decreases self@.remaining(),
        {
            let mark = self.progress_mark();
            if !self.is_exists() {
                break ;
            }
            if self.lookup_kind(0, TokenKind::CloseBrace) {
                break ;
            }
            match self.parse_interface_def_item() {
                Ok(item) => {
                    let ghost before_items = items@;
                    items.push(item);
                    proof {
                        assert(items@ =~= before_items.push(items@.last()));
                        lemma_interface_def_item_list_push(start_items, before_items, items@.last(), 0);
                    }
                }
                Err(_) => {
                    // eat erroneous tokens
                    self.skip_tokens(&vec![Skipper::InterfaceItem, Skipper::ModuleItem]);
                }
            }
            if self.progress_mark() >= mark {
                if !self.skip_one() {
                    break ;
                }
            }
        }

        let token_brace_close = self.kind_or_err(TokenKind::CloseBrace)?;

        Ok(ASTInterfaceDef {
            id,
            span: self.make_span(pos),
            keyword_pub,
            keyword_interface,
            identifier,
            generic_param,
            generic_where,
            token_brace_open,
            items,
            token_brace_close,
        })
    }

    pub fn parse_interface_def_item(&mut self) -> (r: Result<ASTInterfaceDefItem, ()>)
        requires
            old(self)@.wf(),
        ensures
            final(self).advanced(old(self)),
            r.is_ok() && final(self).quiet_since(old(self)) ==> final(self)@.taken
                == interface_def_item_onto(old(self)@.taken, r->Ok_0),
            r.is_ok() ==> r->Ok_0.id@ == old(self).allocated() + 1 && r->Ok_0.span == old(
                self,
            ).span_to(final(self)),
            r.is_err() ==> final(self).failed_aloud(old(self)),
            r.is_ok() ==> final(self)@.remaining() < old(self)@.remaining(),
        decreases old(self)@.remaining(), 1int,
    {
        let (id, pos) = self.new_node()?;
        let kind = ASTInterfaceDefItemKind::FnDecl(self.parse_interface_def_item_fn_decl()?);

        Ok(ASTInterfaceDefItem {
            id,
            span: self.make_span(pos),
            kind,
        })
    }

    #[verifier::loop_isolation(false)]
    pub fn parse_interface_def_item_fn_decl(&mut self) -> (r: Result<ASTInterfaceDefItemFnDecl, ()>)
        requires
            old(self)@.wf(),
        ensures
            final(self).advanced(old(self)),
            r.is_ok() && final(self).quiet_since(old(self)) ==> final(self)@.taken
                == interface_def_item_fn_decl_onto(old(self)@.taken, r->Ok_0),
            r.is_ok() ==> r->Ok_0.id@ == old(self).allocated() + 1 && r->Ok_0.span == old(
                self,
            ).span_to(final(self)),
            r.is_err() ==> final(self).failed_aloud(old(self)),
            r.is_ok() ==> final(self)@.remaining() < old(self)@.remaining(),
        decreases old(self)@.remaining(), 0int,
    {
        let (id, pos) = self.new_node()?;
        let keyword_fn = self.keyword_or_err(KEYWORD_FN)?;
        let identifier = self.identifier_or_err()?;
        let generic_param = if self.lookup_kind(0, TokenKind::Lt) {
            Some(self.parse_generic_param()?)
        } else {
            None
        };
        let token_paren_open = self.kind_or_err(TokenKind::OpenParen)?;

        let mut params = Vec::new();
        let ghost start_params = self@.taken;
        let ghost calm_params = self.quiet_since(old(self));
        loop
            invariant
                self.quiet_since(old(self)) ==> calm_params && self@.taken == fn_param_items_onto(
                    start_params,
                    params@,
                    0,
                ),
                id@ == old(self).allocated() + 1,
                pos == old(self).next_low(),
                self.advanced(old(self)),
                self@.remaining() < old(self)@.remaining(),
            decreases self@.remaining(),
        {
            let mark = self.progress_mark();
            if !self.is_exists() {
                break ;
            }
            if self.lookup_kind(0, TokenKind::CloseParen) {
                break ;
            }
            let param = match self.parse_fn_param() {
                Ok(param) => param,
                Err(_) => {
                    // eat erroneous tokens
                    self.skip_tokens(&vec![Skipper::InterfaceItemFnDeclParamsItem, Skipper::InterfaceItem, Skipper::ModuleItem]);
                    // eat commas if any
                    self.skip_tokens(&vec![Skipper::Comma]);
                    if self.progress_mark() >= mark {
                        if !self.skip_one() {
                            break ;
                        }
                    }
                    continue;
                }
            };

            let punctuation = self.kind(TokenKind::Comma);

            match punctuation {
                Some(punctuation) => {
                    let ghost before_params = params@;
                    params.push(PunctuatedItem::Punctuated {
                        item: param,
                        punctuation,
                    });
                    proof {
                        assert(params@ =~= before_params.push(params@.last()));
                        lemma_fn_param_items_push(start_params, before_params, params@.last(), 0);
                    }
                }
                None => {
                    let ghost before_params = params@;
                    params.push(PunctuatedItem::NotPunctuated { item: param });
                    proof {
                        assert(params@ =~= before_params.push(params@.last()));
                        lemma_fn_param_items_push(start_params, before_params, params@.last(), 0);
                    }
                    break;
                }
            }
            if self.progress_mark() >= mark {
                if !self.skip_one() {
                    break ;
                }
            }
        }

        let token_paren_close = self.kind_or_err(TokenKind::CloseParen)?;
        let result = if self.lookup_kind(0, TokenKind::Arrow) {
            Some(self.parse_fn_result()?)
        } else {
            None
        };
        let generic_where = if self.lookup_keyword(0, KEYWORD_WHERE) {
            Some(self.parse_generic_where()?)
        } else {
            None
        };
        let token_semicolon = self.kind_or_err(TokenKind::Semicolon)?;

        Ok(ASTInterfaceDefItemFnDecl {
            id,
            span: self.make_span(pos),
            keyword_fn,
            identifier,
            generic_param,
            token_paren_open,
            params: Punctuated { items: params },
            token_paren_close,
            result,
            generic_where,
            token_semicolon,
        })
    }

    #[verifier::loop_isolation(false)]
    pub fn parse_impl_block(&mut self) -> (r: Result<ASTImplBlock, ()>)
        requires
            old(self)@.wf(),
        ensures
            final(self).advanced(old(self)),
            r.is_ok() && final(self).quiet_since(old(self)) ==> final(self)@.taken
                == impl_block_onto(old(self)@.taken, r->Ok_0),
            r.is_ok() ==> r->Ok_0.id@ == old(self).allocated() + 1 && r->Ok_0.span == old(
                self,
            ).span_to(final(self)),
            r.is_err() ==> final(self).failed_aloud(old(self)),
            r.is_ok() ==> final(self)@.remaining() < old(self)@.remaining(),
        decreases old(self)@.remaining(), 0int,
    {
        let (id, pos) = self.new_node()?;
        let keyword_impl = self.keyword_or_err(KEYWORD_IMPL)?;
        let generic_param = if self.lookup_kind(0, TokenKind::Lt) {
            Some(self.parse_generic_param()?)
        } else {
            None
        };
        let ty = self.parse_ty()?;
        let interface = if self.lookup_keyword(0, KEYWORD_INTERFACE) {
            Some(self.parse_impl_block_interface()?)
        } else {
            None
        };
        let generic_where = if self.lookup_keyword(0, KEYWORD_WHERE) {
            Some(self.parse_generic_where()?)
        } else {
            None
        };
        let token_brace_open = self.kind_or_err(TokenKind::OpenBrace)?;

        let mut items = Vec::new();
        let ghost start_items = self@.taken;
        let ghost calm_items = self.quiet_since(old(self));
        loop
            invariant
                self.quiet_since(old(self)) ==> calm_items && self@.taken == impl_block_item_list_onto(
                    start_items,
                    items@,
                    0,
                ),
                id@ == old(self).allocated() + 1,
                pos == old(self).next_low(),
                self.advanced(old(self)),
                self@.remaining() < old(self)@.remaining(),
            decreases self@.remaining(),
        {
            let mark = self.progress_mark();
            if !self.is_exists() {
                break ;
            }
            if self.lookup_kind(0, TokenKind::CloseBrace) {
                break ;
            }
            match self.parse_impl_block_item() {
                Ok(item) => {
                    let ghost before_items = items@;
                    items.push(item);
                    proof {
                        assert(items@ =~= before_items.push(items@.last()));
                        lemma_impl_block_item_list_push(start_items, before_items, items@.last(), 0);
                    }
                }
                Err(_) => {
                    // eat erroneous tokens
                    self.skip_tokens(&vec![Skipper::ImplBlockItem, Skipper::ModuleItem]);
                }
            }
            if self.progress_mark() >= mark {
                if !self.skip_one() {
                    break ;
                }
            }
        }

        let token_brace_close = self.kind_or_err(TokenKind::CloseBrace)?;

        Ok(ASTImplBlock {
            id,
            span: self.make_span(pos),
            keyword_impl,
            generic_param,
            ty,
            interface,
            generic_where,
            token_brace_open,
            items,
            token_brace_close,
        })
    }

    pub fn parse_impl_block_interface(&mut self) -> (r: Result<ASTImplBlockInterface, ()>)
        requires
            old(self)@.wf(),
        ensures
            final(self).advanced(old(self)),
            r.is_ok() && final(self).quiet_since(old(self)) ==> final(self)@.taken
                == impl_block_interface_onto(old(self)@.taken, r->Ok_0),
            r.is_ok() ==> r->Ok_0.id@ == old(self).allocated() + 1 && r->Ok_0.span == old(
                self,
            ).span_to(final(self)),
            r.is_err() ==> final(self).failed_aloud(old(self)),
            r.is_ok() ==> final(self)@.remaining() < old(self)@.remaining(),
        decreases old(self)@.remaining(), 0int,
    {
        let (id, pos) = self.new_node()?;
        let keyword_interface = self.keyword_or_err(KEYWORD_INTERFACE)?;
        let path = self.parse_path()?;

        Ok(ASTImplBlockInterface {
            id,
            span: self.make_span(pos),
            keyword_interface,
            path,
        })
    }

    pub fn parse_impl_block_item(&mut self) -> (r: Result<ASTImplBlockItem, ()>)
        requires
            old(self)@.wf(),
        ensures
            final(self).advanced(old(self)),
            r.is_ok() && final(self).quiet_since(old(self)) ==> final(self)@.taken
                == impl_block_item_onto(old(self)@.taken, r->Ok_0),
            r.is_ok() ==> r->Ok_0.id@ == old(self).allocated() + 1 && r->Ok_0.span == old(
                self,
            ).span_to(final(self)),
            r.is_err() ==> final(self).failed_aloud(old(self)),
            r.is_ok() ==> final(self)@.remaining() < old(self)@.remaining(),
        decreases old(self)@.remaining(), 1int,
    {
        let (id, pos) = self.new_node()?;
        let kind = ASTImplBlockItemKind::FnDef(self.parse_fn_def()?);

        Ok(ASTImplBlockItem {
            id,
            span: self.make_span(pos),
            kind,
        })
    }

    #[verifier::loop_isolation(false)]
    pub fn parse_generic_param(&mut self) -> (r: Result<ASTGenericParam, ()>)
        requires
            old(self)@.wf(),
        ensures
            final(self).advanced(old(self)),
            r.is_ok() && final(self).quiet_since(old(self)) ==> final(self)@.taken
                == generic_param_onto(old(self)@.taken, r->Ok_0),
            r.is_ok() ==> r->Ok_0.id@ == old(self).allocated() + 1 && r->Ok_0.span == old(
                self,
            ).span_to(final(self)),
            r.is_err() ==> final(self).failed_aloud(old(self)),
            r.is_ok() ==> final(self)@.remaining() < old(self)@.remaining(),
        decreases old(self)@.remaining(), 0int,
    {
        let (id, pos) = self.new_node()?;
        let token_angle_open = self.kind_or_err(TokenKind::Lt)?;

        let mut items = Vec::new();
        let ghost start_items = self@.taken;
        let ghost calm_items = self.quiet_since(old(self));
        loop
            invariant
                self.quiet_since(old(self)) ==> calm_items && self@.taken == generic_param_item_items_onto(
                    start_items,
                    items@,
                    0,
                ),
                id@ == old(self).allocated() + 1,
                pos == old(self).next_low(),
                self.advanced(old(self)),
                self@.remaining() < old(self)@.remaining(),
            decreases self@.remaining(),
        {
            let mark = self.progress_mark();
            if !self.is_exists() {
                break ;
            }
            if self.lookup_kind(0, TokenKind::Gt) {
                break ;
            }
            let item = match self.parse_generic_param_item() {
                Ok(item) => item,
                Err(_) => {
                    // eat erroneous tokens
                    self.skip_tokens(&vec![Skipper::GenericParamItem, Skipper::ImplBlockItem, Skipper::ExternBlockItem, Skipper::ModuleItem]);
                    // eat commas if any
                    self.skip_tokens(&vec![Skipper::Comma]);
                    if self.progress_mark() >= mark {
                        if !self.skip_one() {
                            break ;
                        }
                    }
                    continue;
                }
            };
            let punctuation = self.kind(TokenKind::Comma);

            match punctuation {
                Some(punctuation) => {
                    let ghost before_items = items@;
                    items.push(PunctuatedItem::Punctuated { item, punctuation });
                    proof {
                        assert(items@ =~= before_items.push(items@.last()));
                        lemma_generic_param_item_items_push(start_items, before_items, items@.last(), 0);
                    }
                }
                None => {
                    let ghost before_items = items@;
                    items.push(PunctuatedItem::NotPunctuated { item });
                    proof {
                        assert(items@ =~= before_items.push(items@.last()));
                        lemma_generic_param_item_items_push(start_items, before_items, items@.last(), 0);
                    }
                    break;
                }
            }
            if self.progress_mark() >= mark {
                if !self.skip_one() {
                    break ;
                }
            }
        }

        let token_angle_close = self.kind_or_err(TokenKind::Gt)?;

        Ok(ASTGenericParam {
            id,
            span: self.make_span(pos),
            token_angle_open,
            items: Punctuated { items },
            token_angle_close,
        })
    }

    pub fn parse_generic_param_item(&mut self) -> (r: Result<ASTGenericParamItem, ()>)
        requires
            old(self)@.wf(),
        ensures
            final(self).advanced(old(self)),
            r.is_ok() && final(self).quiet_since(old(self)) ==> final(self)@.taken
                == generic_param_item_onto(old(self)@.taken, r->Ok_0),
            r.is_ok() ==> r->Ok_0.id@ == old(self).allocated() + 1 && r->Ok_0.span == old(
                self,
            ).span_to(final(self)),
            r.is_err() ==> final(self).failed_aloud(old(self)),
            r.is_ok() ==> final(self)@.remaining() < old(self)@.remaining(),
        decreases old(self)@.remaining(), 0int,
    {
        let (id, pos) = self.new_node()?;
        let identifier = self.identifier_or_err()?;

        Ok(ASTGenericParamItem {
            id,
            span: self.make_span(pos),
            identifier,
        })
    }

    #[verifier::loop_isolation(false)]
    pub fn parse_generic_where(&mut self) -> (r: Result<ASTGenericWhere, ()>)
        requires
            old(self)@.wf(),
        ensures
            final(self).advanced(old(self)),
            r.is_ok() && final(self).quiet_since(old(self)) ==> final(self)@.taken
                == generic_where_onto(old(self)@.taken, r->Ok_0),
            r.is_ok() ==> r->Ok_0.id@ == old(self).allocated() + 1 && r->Ok_0.span == old(
                self,
            ).span_to(final(self)),
            r.is_err() ==> final(self).failed_aloud(old(self)),
            r.is_ok() ==> final(self)@.remaining() < old(self)@.remaining(),
        decreases old(self)@.remaining(), 0int,
    {
        let (id, pos) = self.new_node()?;
        let keyword_where = self.keyword_or_err(KEYWORD_WHERE)?;

        let mut items = Vec::new();
        let ghost start_items = self@.taken;
        let ghost calm_items = self.quiet_since(old(self));
        loop
            invariant
                self.quiet_since(old(self)) ==> calm_items && self@.taken == generic_where_item_items_onto(
                    start_items,
                    items@,
                    0,
                ),
                id@ == old(self).allocated() + 1,
                pos == old(self).next_low(),
                self.advanced(old(self)),
                self@.remaining() < old(self)@.remaining(),
            decreases self@.remaining(),
        {
            let mark = self.progress_mark();
            if !self.is_exists() {
                break ;
            }
            if !self.lookup_identifier(0) {
                break ;
            }
            let item = match self.parse_generic_where_item() {
                Ok(item) => item,
                Err(_) => {
                    // eat erroneous tokens
                    self.skip_tokens(&vec![Skipper::GenericWhereItem, Skipper::ImplBlockItem, Skipper::ExternBlockItem, Skipper::ModuleItem]);
                    // eat commas if any
                    self.skip_tokens(&vec![Skipper::Comma]);
                    if self.progress_mark() >= mark {
                        if !self.skip_one() {
                            break ;
                        }
                    }
                    continue;
                }
            };
            let punctuation = self.kind(TokenKind::Comma);

            match punctuation {
                Some(punctuation) => {
                    let ghost before_items = items@;
                    items.push(PunctuatedItem::Punctuated { item, punctuation });
                    proof {
                        assert(items@ =~= before_items.push(items@.last()));
                        lemma_generic_where_item_items_push(start_items, before_items, items@.last(), 0);
                    }
                }
                None => {
                    let ghost before_items = items@;
                    items.push(PunctuatedItem::NotPunctuated { item });
                    proof {
                        assert(items@ =~= before_items.push(items@.last()));
                        lemma_generic_where_item_items_push(start_items, before_items, items@.last(), 0);
                    }
                    break;
                }
            }
            if self.progress_mark() >= mark {
                if !self.skip_one() {
                    break ;
                }
            }
        }

        Ok(ASTGenericWhere {
            id,
            span: self.make_span(pos),
            keyword_where,
            items: Punctuated { items },
        })
    }

    pub fn parse_generic_where_item(&mut self) -> (r: Result<ASTGenericWhereItem, ()>)
        requires
            old(self)@.wf(),
        ensures
            final(self).advanced(old(self)),
            r.is_ok() && final(self).quiet_since(old(self)) ==> final(self)@.taken
                == generic_where_item_onto(old(self)@.taken, r->Ok_0),
            r.is_ok() ==> r->Ok_0.id@ == old(self).allocated() + 1 && r->Ok_0.span == old(
                self,
            ).span_to(final(self)),
            r.is_err() ==> final(self).failed_aloud(old(self)),
            r.is_ok() ==> final(self)@.remaining() < old(self)@.remaining(),
        decreases old(self)@.remaining(), 0int,
    {
        let (id, pos) = self.new_node()?;
        let identifier = self.identifier_or_err()?;
        let token_colon = self.kind_or_err(TokenKind::Colon)?;
        let condition = self.parse_generic_where_item_condition()?;

        Ok(ASTGenericWhereItem {
            id,
            span: self.make_span(pos),
            identifier,
            token_colon,
            condition,
        })
    }

    #[verifier::loop_isolation(false)]
    pub fn parse_generic_where_item_condition(&mut self,) -> (r: Result<ASTGenericWhereItemCondition, ()>)
        requires
            old(self)@.wf(),
        ensures
            final(self).advanced(old(self)),
            r.is_ok() && final(self).quiet_since(old(self)) ==> final(self)@.taken
                == generic_where_item_condition_onto(old(self)@.taken, r->Ok_0),
            r.is_ok() ==> r->Ok_0.id@ == old(self).allocated() + 1 && r->Ok_0.span == old(
                self,
            ).span_to(final(self)),
            r.is_err() ==> final(self).failed_aloud(old(self)),
            r.is_ok() ==> final(self)@.remaining() < old(self)@.remaining(),
        decreases old(self)@.remaining(), 2int,
    {
        let (id, pos) = self.new_node()?;
        let path = self.parse_path()?;

        let mut extra_items = Vec::new();
        let ghost start_extra_items = self@.taken;
        let ghost calm_extra_items = self.quiet_since(old(self));
        loop
            invariant
                self.quiet_since(old(self)) ==> calm_extra_items && self@.taken == generic_where_item_condition_item_list_onto(
                    start_extra_items,
                    extra_items@,
                    0,
                ),
                id@ == old(self).allocated() + 1,
                pos == old(self).next_low(),
                self.advanced(old(self)),
                self@.remaining() < old(self)@.remaining(),
            decreases self@.remaining(),
        {
            let mark = self.progress_mark();
            if !self.is_exists() {
                break ;
            }
            if !self.lookup_kind(0, TokenKind::Add) {
                break ;
            }
            match self.parse_generic_where_item_condition_item() {
                Ok(item) => {
                    let ghost before_extra_items = extra_items@;
                    extra_items.push(item);
                    proof {
                        assert(extra_items@ =~= before_extra_items.push(extra_items@.last()));
                        lemma_generic_where_item_condition_item_list_push(start_extra_items, before_extra_items, extra_items@.last(), 0);
                    }
                }
                Err(_) => {
                    // eat erroneous tokens
                    self.skip_tokens(&vec![Skipper::GenericWhereItemConditionItem, Skipper::GenericWhereItem, Skipper::ImplBlockItem, Skipper::ModuleItem]);
                }
            }
            if self.progress_mark() >= mark {
                if !self.skip_one() {
                    break ;
                }
            }
        }

        Ok(ASTGenericWhereItemCondition {
            id,
            span: self.make_span(pos),
            path,
            extra_items,
        })
    }

    pub fn parse_generic_where_item_condition_item(&mut self,) -> (r: Result<ASTGenericWhereItemConditionItem, ()>)
        requires
            old(self)@.wf(),
        ensures
            final(self).advanced(old(self)),
            r.is_ok() && final(self).quiet_since(old(self)) ==> final(self)@.taken
                == generic_where_item_condition_item_onto(old(self)@.taken, r->Ok_0),
            r.is_ok() ==> r->Ok_0.id@ == old(self).allocated() + 1 && r->Ok_0.span == old(
                self,
            ).span_to(final(self)),
            r.is_err() ==> final(self).failed_aloud(old(self)),
            r.is_ok() ==> final(self)@.remaining() < old(self)@.remaining(),
        decreases old(self)@.remaining(), 0int,
    {
        let (id, pos) = self.new_node()?;
        let token_plus = self.kind_or_err(TokenKind::Add)?;
        let path = self.parse_path()?;

        Ok(ASTGenericWhereItemConditionItem {
            id,
            span: self.make_span(pos),
            token_plus,
            path,
        })
    }

    #[verifier::loop_isolation(false)]
    pub fn parse_generic_arg(&mut self) -> (r: Result<ASTGenericArg, ()>)
        requires
            old(self)@.wf(),
        ensures
            final(self).advanced(old(self)),
            r.is_ok() && final(self).quiet_since(old(self)) ==> final(self)@.taken
                == generic_arg_onto(old(self)@.taken, r->Ok_0),
            r.is_ok() ==> r->Ok_0.id@ == old(self).allocated() + 1 && r->Ok_0.span == old(
                self,
            ).span_to(final(self)),
            r.is_err() ==> final(self).failed_aloud(old(self)),
            r.is_ok() ==> final(self)@.remaining() < old(self)@.remaining(),
        decreases old(self)@.remaining(), 0int,
    {
        let (id, pos) = self.new_node()?;
        let token_angle_open = self.kind_or_err(TokenKind::Lt)?;

        let mut args = Vec::new();
        let ghost start_args = self@.taken;
        let ghost calm_args = self.quiet_since(old(self));
        loop
            invariant
                self.quiet_since(old(self)) ==> calm_args && self@.taken == ty_items_onto(
                    start_args,
                    args@,
                    0,
                ),
                id@ == old(self).allocated() + 1,
                pos == old(self).next_low(),
                self.advanced(old(self)),
                self@.remaining() < old(self)@.remaining(),
            decreases self@.remaining(),
        {
            let mark = self.progress_mark();
            if !self.is_exists() {
                break ;
            }
            if self.lookup_kind(0, TokenKind::Gt) {
                break ;
            }
            let arg = match self.parse_ty() {
                Ok(arg) => arg,
                Err(_) => {
                    // eat erroneous tokens
                    self.skip_tokens(&vec![Skipper::GenericArgItem, Skipper::ImplBlockItem, Skipper::ExternBlockItem, Skipper::ModuleItem]);
                    // eat commas if any
                    self.skip_tokens(&vec![Skipper::Comma]);
                    if self.progress_mark() >= mark {
                        if !self.skip_one() {
                            break ;
                        }
                    }
                    continue;
                }
            };

            let punctuation = self.kind(TokenKind::Comma);

            match punctuation {
                Some(punctuation) => {
                    let ghost before_args = args@;
                    args.push(PunctuatedItem::Punctuated {
                        item: arg,
                        punctuation,
                    });
                    proof {
                        assert(args@ =~= before_args.push(args@.last()));
                        lemma_ty_items_push(start_args, before_args, args@.last(), 0);
                    }
                }
                None => {
                    let ghost before_args = args@;
                    args.push(PunctuatedItem::NotPunctuated { item: arg });
                    proof {
                        assert(args@ =~= before_args.push(args@.last()));
                        lemma_ty_items_push(start_args, before_args, args@.last(), 0);
                    }
                    break;
                }
            }
            if self.progress_mark() >= mark {
                if !self.skip_one() {
                    break ;
                }
            }
        }

        let token_angle_close = self.kind_or_err(TokenKind::Gt)?;

        Ok(ASTGenericArg {
            id,
            span: self.make_span(pos),
            token_angle_open,
            args: Punctuated { items: args },
            token_angle_close,
        })
    }

    #[verifier::loop_isolation(false)]
    pub fn parse_stmt_block(&mut self) -> (r: Result<ASTStmtBlock, ()>)
        requires
            old(self)@.wf(),
        ensures
            final(self).advanced(old(self)),
            r.is_ok() && final(self).quiet_since(old(self)) ==> final(self)@.taken
                == stmt_block_onto(old(self)@.taken, r->Ok_0),
            r.is_ok() ==> r->Ok_0.id@ == old(self).allocated() + 1 && r->Ok_0.span == old(
                self,
            ).span_to(final(self)),
            r.is_err() ==> final(self).failed_aloud(old(self)),
            r.is_ok() ==> final(self)@.remaining() < old(self)@.remaining(),
        decreases old(self)@.remaining(), 0int,
    {
        let (id, pos) = self.new_node()?;
        let token_brace_open = self.kind_or_err(TokenKind::OpenBrace)?;

        let mut stmts = Vec::new();
        let ghost start_stmts = self@.taken;
        let ghost calm_stmts = self.quiet_since(old(self));
        loop
            invariant
                self.quiet_since(old(self)) ==> calm_stmts && self@.taken == stmt_list_onto(
                    start_stmts,
                    stmts@,
                    0,
                ),
                id@ == old(self).allocated() + 1,
                pos == old(self).next_low(),
                self.advanced(old(self)),
                self@.remaining() < old(self)@.remaining(),
            decreases self@.remaining(),
        {
            let mark = self.progress_mark();
            if !self.is_exists() {
                break ;
            }
            if self.lookup_kind(0, TokenKind::CloseBrace) {
                break ;
            }
            match self.parse_stmt() {
                Ok(stmt) => {
                    let ghost before_stmts = stmts@;
                    stmts.push(stmt);
                    proof {
                        assert(stmts@ =~= before_stmts.push(stmts@.last()));
                        lemma_stmt_list_push(start_stmts, before_stmts, stmts@.last(), 0);
                    }
                }
                Err(_) => {
                    // eat erroneous tokens
                    self.skip_tokens(&vec![Skipper::Stmt, Skipper::ImplBlockItem, Skipper::ModuleItem]);
                }
            }
            if self.progress_mark() >= mark {
                if !self.skip_one() {
                    break ;
                }
            }
        }

        let token_brace_close = self.kind_or_err(TokenKind::CloseBrace)?;

        Ok(ASTStmtBlock {
            id,
            span: self.make_span(pos),
            token_brace_open,
            stmts,
            token_brace_close,
        })
    }

    pub fn parse_stmt_let(&mut self) -> (r: Result<ASTStmtLet, ()>)
        requires
            old(self)@.wf(),
        ensures
            final(self).advanced(old(self)),
            r.is_ok() && final(self).quiet_since(old(self)) ==> final(self)@.taken
                == stmt_let_onto(old(self)@.taken, r->Ok_0),
            r.is_ok() ==> r->Ok_0.id@ == old(self).allocated() + 1 && r->Ok_0.span == old(
                self,
            ).span_to(final(self)),
            r.is_err() ==> final(self).failed_aloud(old(self)),
            r.is_ok() ==> final(self)@.remaining() < old(self)@.remaining(),
        decreases old(self)@.remaining(), 0int,
    {
        let (id, pos) = self.new_node()?;
        let keyword_let = self.keyword_or_err(KEYWORD_LET)?;
        let identifier = self.identifier_or_err()?;
        let ty = if self.lookup_kind(0, TokenKind::Colon) {
            Some(self.parse_stmt_let_ty()?)
        } else {
            None
        };
        let expr = if self.lookup_kind(0, TokenKind::Assign) {
            Some(self.parse_stmt_let_expr()?)
        } else {
            None
        };
        let token_semicolon = self.kind_or_err(TokenKind::Semicolon)?;

        Ok(ASTStmtLet {
            id,
            span: self.make_span(pos),
            keyword_let,
            identifier,
            ty,
            expr,
            token_semicolon,
        })
    }

    pub fn parse_stmt_let_ty(&mut self) -> (r: Result<ASTStmtLetTy, ()>)
        requires
            old(self)@.wf(),
        ensures
            final(self).advanced(old(self)),
            r.is_ok() && final(self).quiet_since(old(self)) ==> final(self)@.taken
                == stmt_let_ty_onto(old(self)@.taken, r->Ok_0),
            r.is_ok() ==> r->Ok_0.id@ == old(self).allocated() + 1 && r->Ok_0.span == old(
                self,
            ).span_to(final(self)),
            r.is_err() ==> final(self).failed_aloud(old(self)),
            r.is_ok() ==> final(self)@.remaining() < old(self)@.remaining(),
        decreases old(self)@.remaining(), 0int,
    {
        let (id, pos) = self.new_node()?;
        let token_colon = self.kind_or_err(TokenKind::Colon)?;
        let ty = self.parse_ty()?;

        Ok(ASTStmtLetTy {
            id,
            span: self.make_span(pos),
            token_colon,
            ty,
        })
    }

    pub fn parse_stmt_let_expr(&mut self) -> (r: Result<ASTStmtLetExpr, ()>)
        requires
            old(self)@.wf(),
        ensures
            final(self).advanced(old(self)),
            r.is_ok() && final(self).quiet_since(old(self)) ==> final(self)@.taken
                == stmt_let_expr_onto(old(self)@.taken, r->Ok_0),
            r.is_ok() ==> r->Ok_0.id@ == old(self).allocated() + 1 && r->Ok_0.span == old(
                self,
            ).span_to(final(self)),
            r.is_err() ==> final(self).failed_aloud(old(self)),
            r.is_ok() ==> final(self)@.remaining() < old(self)@.remaining(),
        decreases old(self)@.remaining(), 0int,
    {
        let (id, pos) = self.new_node()?;
        let token_assign = self.kind_or_err(TokenKind::Assign)?;
        let expr = self.parse_expr()?;

        Ok(ASTStmtLetExpr {
            id,
            span: self.make_span(pos),
            token_assign,
            expr,
        })
    }

    #[verifier::loop_isolation(false)]
    pub fn parse_stmt_if(&mut self) -> (r: Result<ASTStmtIf, ()>)
        requires
            old(self)@.wf(),
        ensures
            final(self).advanced(old(self)),
            r.is_ok() && final(self).quiet_since(old(self)) ==> final(self)@.taken
                == stmt_if_onto(old(self)@.taken, r->Ok_0),
            r.is_ok() ==> r->Ok_0.id@ == old(self).allocated() + 1 && r->Ok_0.span == old(
                self,
            ).span_to(final(self)),
            r.is_err() ==> final(self).failed_aloud(old(self)),
            r.is_ok() ==> final(self)@.remaining() < old(self)@.remaining(),
        decreases old(self)@.remaining(), 0int,
    {
        let (id, pos) = self.new_node()?;
        let keyword_if = self.keyword_or_err(KEYWORD_IF)?;
        let expr = self.parse_expr()?;
        let stmt_block = self.parse_stmt_block()?;

        let mut else_ifs = Vec::new();
        let ghost start_else_ifs = self@.taken;
        let ghost calm_else_ifs = self.quiet_since(old(self));
        loop
            invariant
                self.quiet_since(old(self)) ==> calm_else_ifs && self@.taken == stmt_if_else_if_list_onto(
                    start_else_ifs,
                    else_ifs@,
                    0,
                ),
                id@ == old(self).allocated() + 1,
                pos == old(self).next_low(),
                self.advanced(old(self)),
                self@.remaining() < old(self)@.remaining(),
            decreases self@.remaining(),
        {
            let mark = self.progress_mark();
            if !self.lookup_keyword(0, KEYWORD_ELSE) {
                break ;
            }
            if !self.lookup_keyword(1, KEYWORD_IF) {
                break ;
            }
            let ghost before_else_ifs = else_ifs@;
            else_ifs.push(self.parse_stmt_if_else_if()?);
            proof {
                assert(else_ifs@ =~= before_else_ifs.push(else_ifs@.last()));
                lemma_stmt_if_else_if_list_push(start_else_ifs, before_else_ifs, else_ifs@.last(), 0);
            }
            if self.progress_mark() >= mark {
                if !self.skip_one() {
                    break ;
                }
            }
        }

        let else_ = if self.lookup_keyword(0, KEYWORD_ELSE) {
            Some(self.parse_stmt_if_else()?)
        } else {
            None
        };

        Ok(ASTStmtIf {
            id,
            span: self.make_span(pos),
            keyword_if,
            expr,
            stmt_block,
            else_ifs,
            else_,
        })
    }

    pub fn parse_stmt_if_else_if(&mut self) -> (r: Result<ASTStmtIfElseIf, ()>)
        requires
            old(self)@.wf(),
        ensures
            final(self).advanced(old(self)),
            r.is_ok() && final(self).quiet_since(old(self)) ==> final(self)@.taken
                == stmt_if_else_if_onto(old(self)@.taken, r->Ok_0),
            r.is_ok() ==> r->Ok_0.id@ == old(self).allocated() + 1 && r->Ok_0.span == old(
                self,
            ).span_to(final(self)),
            r.is_err() ==> final(self).failed_aloud(old(self)),
            r.is_ok() ==> final(self)@.remaining() < old(self)@.remaining(),
        decreases old(self)@.remaining(), 0int,
    {
        let (id, pos) = self.new_node()?;
        let keyword_else = self.keyword_or_err(KEYWORD_ELSE)?;
        let keyword_if = self.keyword_or_err(KEYWORD_IF)?;
        let expr = self.parse_expr()?;
        let stmt_block = self.parse_stmt_block()?;

        Ok(ASTStmtIfElseIf {
            id,
            span: self.make_span(pos),
            keyword_else,
            keyword_if,
            expr,
            stmt_block,
        })
    }

    pub fn parse_stmt_if_else(&mut self) -> (r: Result<ASTStmtIfElse, ()>)
        requires
            old(self)@.wf(),
        ensures
            final(self).advanced(old(self)),
            r.is_ok() && final(self).quiet_since(old(self)) ==> final(self)@.taken
                == stmt_if_else_onto(old(self)@.taken, r->Ok_0),
            r.is_ok() ==> r->Ok_0.id@ == old(self).allocated() + 1 && r->Ok_0.span == old(
                self,
            ).span_to(final(self)),
            r.is_err() ==> final(self).failed_aloud(old(self)),
            r.is_ok() ==> final(self)@.remaining() < old(self)@.remaining(),
        decreases old(self)@.remaining(), 0int,
    {
        let (id, pos) = self.new_node()?;
        let keyword_else = self.keyword_or_err(KEYWORD_ELSE)?;
        let stmt_block = self.parse_stmt_block()?;

        Ok(ASTStmtIfElse {
            id,
            span: self.make_span(pos),
            keyword_else,
            stmt_block,
        })
    }

    pub fn parse_stmt_loop(&mut self) -> (r: Result<ASTStmtLoop, ()>)
        requires
            old(self)@.wf(),
        ensures
            final(self).advanced(old(self)),
            r.is_ok() && final(self).quiet_since(old(self)) ==> final(self)@.taken
                == stmt_loop_onto(old(self)@.taken, r->Ok_0),
            r.is_ok() ==> r->Ok_0.id@ == old(self).allocated() + 1 && r->Ok_0.span == old(
                self,
            ).span_to(final(self)),
            r.is_err() ==> final(self).failed_aloud(old(self)),
            r.is_ok() ==> final(self)@.remaining() < old(self)@.remaining(),
        decreases old(self)@.remaining(), 0int,
    {
        let (id, pos) = self.new_node()?;
        let keyword_loop = self.keyword_or_err(KEYWORD_LOOP)?;
        let stmt_block = self.parse_stmt_block()?;

        Ok(ASTStmtLoop {
            id,
            span: self.make_span(pos),
            keyword_loop,
            stmt_block,
        })
    }

    pub fn parse_stmt_while(&mut self) -> (r: Result<ASTStmtWhile, ()>)
        requires
            old(self)@.wf(),
        ensures
            final(self).advanced(old(self)),
            r.is_ok() && final(self).quiet_since(old(self)) ==> final(self)@.taken
                == stmt_while_onto(old(self)@.taken, r->Ok_0),
            r.is_ok() ==> r->Ok_0.id@ == old(self).allocated() + 1 && r->Ok_0.span == old(
                self,
            ).span_to(final(self)),
            r.is_err() ==> final(self).failed_aloud(old(self)),
            r.is_ok() ==> final(self)@.remaining() < old(self)@.remaining(),
        decreases old(self)@.remaining(), 0int,
    {
        let (id, pos) = self.new_node()?;
        let keyword_while = self.keyword_or_err(KEYWORD_WHILE)?;
        let expr = self.parse_expr()?;
        let stmt_block = self.parse_stmt_block()?;

        Ok(ASTStmtWhile {
            id,
            span: self.make_span(pos),
            keyword_while,
            expr,
            stmt_block,
        })
    }

    pub fn parse_stmt_break(&mut self) -> (r: Result<ASTStmtBreak, ()>)
        requires
            old(self)@.wf(),
        ensures
            final(self).advanced(old(self)),
            r.is_ok() && final(self).quiet_since(old(self)) ==> final(self)@.taken
                == stmt_break_onto(old(self)@.taken, r->Ok_0),
            r.is_ok() ==> r->Ok_0.id@ == old(self).allocated() + 1 && r->Ok_0.span == old(
                self,
            ).span_to(final(self)),
            r.is_err() ==> final(self).failed_aloud(old(self)),
            r.is_ok() ==> final(self)@.remaining() < old(self)@.remaining(),
        decreases old(self)@.remaining(), 0int,
    {
        let (id, pos) = self.new_node()?;
        let keyword_break = self.keyword_or_err(KEYWORD_BREAK)?;
        let token_semicolon = self.kind_or_err(TokenKind::Semicolon)?;

        Ok(ASTStmtBreak {
            id,
            span: self.make_span(pos),
            keyword_break,
            token_semicolon,
        })
    }

    pub fn parse_stmt_continue(&mut self) -> (r: Result<ASTStmtContinue, ()>)
        requires
            old(self)@.wf(),
        ensures
            final(self).advanced(old(self)),
            r.is_ok() && final(self).quiet_since(old(self)) ==> final(self)@.taken
                == stmt_continue_onto(old(self)@.taken, r->Ok_0),
            r.is_ok() ==> r->Ok_0.id@ == old(self).allocated() + 1 && r->Ok_0.span == old(
                self,
            ).span_to(final(self)),
            r.is_err() ==> final(self).failed_aloud(old(self)),
            r.is_ok() ==> final(self)@.remaining() < old(self)@.remaining(),
        decreases old(self)@.remaining(), 0int,
    {
        let (id, pos) = self.new_node()?;
        let keyword_continue = self.keyword_or_err(KEYWORD_CONTINUE)?;
        let token_semicolon = self.kind_or_err(TokenKind::Semicolon)?;

        Ok(ASTStmtContinue {
            id,
            span: self.make_span(pos),
            keyword_continue,
            token_semicolon,
        })
    }

    pub fn parse_stmt_return(&mut self) -> (r: Result<ASTStmtReturn, ()>)
        requires
            old(self)@.wf(),
        ensures
            final(self).advanced(old(self)),
            r.is_ok() && final(self).quiet_since(old(self)) ==> final(self)@.taken
                == stmt_return_onto(old(self)@.taken, r->Ok_0),
            r.is_ok() ==> r->Ok_0.id@ == old(self).allocated() + 1 && r->Ok_0.span == old(
                self,
            ).span_to(final(self)),
            r.is_err() ==> final(self).failed_aloud(old(self)),
            r.is_ok() ==> final(self)@.remaining() < old(self)@.remaining(),
        decreases old(self)@.remaining(), 0int,
    {
        let (id, pos) = self.new_node()?;
        let keyword_return = self.keyword_or_err(KEYWORD_RETURN)?;
        let expr = if self.lookup_kind(0, TokenKind::Semicolon) {
            None
        } else {
            Some(self.parse_expr()?)
        };
        let token_semicolon = self.kind_or_err(TokenKind::Semicolon)?;

        Ok(ASTStmtReturn {
            id,
            span: self.make_span(pos),
            keyword_return,
            expr,
            token_semicolon,
        })
    }

    pub fn parse_stmt_assignment_or_expr(&mut self) -> (r: Result<ASTStmtKind, ()>)
        requires
            old(self)@.wf(),
        ensures
            final(self).advanced(old(self)),
            r.is_ok() && final(self).quiet_since(old(self)) ==> final(self)@.taken
                == stmt_kind_onto(old(self)@.taken, r->Ok_0),
            r.is_ok() ==> (match r->Ok_0 {
                ASTStmtKind::Assignment(ast) => ast.id@ == old(self).allocated() + 1 && ast.span == old(self).span_to(
                    final(self),
                ),
                ASTStmtKind::Expr(ast) => ast.id@ == old(self).allocated() + 1 && ast.span == old(self).span_to(
                    final(self),
                ),
                _ => false,
            }),
            r.is_err() ==> final(self).failed_aloud(old(self)),
            r.is_ok() ==> final(self)@.remaining() < old(self)@.remaining(),
        decreases old(self)@.remaining(), 15int,
    {
        let (id, pos) = self.new_node()?;
        let expr = self.parse_expr()?;

        if self.lookup_assignment_op(0) {
            let operator = self.parse_stmt_assignment_operator()?;
            let operand_rhs = self.parse_expr()?;
            let token_semicolon = self.kind_or_err(TokenKind::Semicolon)?;

            Ok(ASTStmtKind::Assignment(ASTStmtAssignment {
                id,
                span: self.make_span(pos),
                operand_lhs: expr,
                operator,
                operand_rhs,
                token_semicolon,
            }))
        } else {
            let token_semicolon = self.kind_or_err(TokenKind::Semicolon)?;

            Ok(ASTStmtKind::Expr(ASTStmtExpr {
                id,
                span: self.make_span(pos),
                expr,
                token_semicolon,
            }))
        }
    }

    pub fn parse_stmt_assignment_operator(&mut self) -> (r: Result<ASTStmtAssignmentOperator, ()>)
        requires
            old(self)@.wf(),
        ensures
            final(self).advanced(old(self)),
            r.is_ok() && final(self).quiet_since(old(self)) ==> final(self)@.taken
                == stmt_assignment_operator_onto(old(self)@.taken, r->Ok_0),
            r.is_ok() ==> r->Ok_0.id@ == old(self).allocated() + 1 && r->Ok_0.span == old(
                self,
            ).span_to(final(self)),
            r.is_err() ==> final(self).failed_aloud(old(self)),
            r.is_ok() ==> final(self)@.remaining() < old(self)@.remaining(),
        decreases old(self)@.remaining(), 0int,
    {
        let (id, pos) = self.new_node()?;
        let token_operator = self.assignment_op_or_err()?;
        let kind = self.assignment_operator_kind(&token_operator)?;

        Ok(ASTStmtAssignmentOperator {
            id,
            span: self.make_span(pos),
            token_operator,
            kind,
        })
    }

    pub fn parse_stmt(&mut self) -> (r: Result<ASTStmt, ()>)
        requires
            old(self)@.wf(),
        ensures
            final(self).advanced(old(self)),
            r.is_ok() && final(self).quiet_since(old(self)) ==> final(self)@.taken
                == stmt_onto(old(self)@.taken, r->Ok_0),
            r.is_ok() ==> r->Ok_0.id@ == old(self).allocated() + 1 && r->Ok_0.span == old(
                self,
            ).span_to(final(self)),
            r.is_err() ==> final(self).failed_aloud(old(self)),
            r.is_ok() ==> final(self)@.remaining() < old(self)@.remaining(),
        decreases old(self)@.remaining(), 16int,
    {
        let (id, pos) = self.new_node()?;

        let kind = if self.lookup_kind(0, TokenKind::OpenBrace) {
            ASTStmtKind::Block(self.parse_stmt_block()?)
        } else if self.lookup_keyword(0, KEYWORD_LET) {
            ASTStmtKind::Let(self.parse_stmt_let()?)
        } else if self.lookup_keyword(0, KEYWORD_IF) {
            ASTStmtKind::If(self.parse_stmt_if()?)
        } else if self.lookup_keyword(0, KEYWORD_LOOP) {
            ASTStmtKind::Loop(self.parse_stmt_loop()?)
        } else if self.lookup_keyword(0, KEYWORD_WHILE) {
            ASTStmtKind::While(self.parse_stmt_while()?)
        } else if self.lookup_keyword(0, KEYWORD_BREAK) {
            ASTStmtKind::Break(self.parse_stmt_break()?)
        } else if self.lookup_keyword(0, KEYWORD_CONTINUE) {
            ASTStmtKind::Continue(self.parse_stmt_continue()?)
        } else if self.lookup_keyword(0, KEYWORD_RETURN) {
            ASTStmtKind::Return(self.parse_stmt_return()?)
        } else {
            self.parse_stmt_assignment_or_expr()?
        };

        Ok(ASTStmt {
            id,
            span: self.make_span(pos),
            kind,
        })
    }

    pub fn parse_expr(&mut self) -> (r: Result<ASTExpr, ()>)
        requires
            old(self)@.wf(),
        ensures
            final(self).advanced(old(self)),
            r.is_ok() && final(self).quiet_since(old(self)) ==> final(self)@.taken
                == expr_onto(old(self)@.taken, r->Ok_0),
            r.is_err() ==> final(self).failed_aloud(old(self)),
            r.is_ok() ==> final(self)@.remaining() < old(self)@.remaining(),
        decreases old(self)@.remaining(), 14int,
    {
        let prev = self.set_unglue_tokens(false);

        let expr = self.parse_expr_binary_1_compare()?;

        self.set_unglue_tokens(prev);

        Ok(expr)
    }

    #[verifier::loop_isolation(false)]
    pub fn parse_expr_binary_1_compare(&mut self) -> (r: Result<ASTExpr, ()>)
        requires
            old(self)@.wf(),
        ensures
            final(self).advanced(old(self)),
            r.is_ok() && final(self).quiet_since(old(self)) ==> final(self)@.taken
                == expr_onto(old(self)@.taken, r->Ok_0),
            r.is_err() ==> final(self).failed_aloud(old(self)),
            r.is_ok() ==> final(self)@.remaining() < old(self)@.remaining(),
        decreases old(self)@.remaining(), 13int,
    {
        let mut expr = self.parse_expr_binary_2_logical_or_and()?;

        loop
            invariant
                self.quiet_since(old(self)) ==> self@.taken == expr_onto(
                    old(self)@.taken,
                    expr,
                ),
                self.advanced(old(self)),
                self@.remaining() < old(self)@.remaining(),
            decreases self@.remaining(),
        {
            let mark = self.progress_mark();
            let more = self.lookup_kind(0, TokenKind::Eq) || self.lookup_kind(0, TokenKind::Ne) || self.lookup_kind(0, TokenKind::Lt) || self.lookup_kind(0, TokenKind::Gt) || self.lookup_kind(0, TokenKind::Le) || self.lookup_kind(0, TokenKind::Ge);
            if !more {
                break ;
            }
            let (id, pos) = self.new_node()?;
            let operator = self.parse_expr_binary_operator()?;
            let operand_rhs = self.parse_expr_binary_2_logical_or_and()?;

            expr = self.wrap_expr_binary_op(ASTExprBinary {
                id,
                span: self.make_span(pos),
                operand_lhs: Box::new(expr),
                operator,
                operand_rhs: Box::new(operand_rhs),
            })?;
            if self.progress_mark() >= mark {
                if !self.skip_one() {
                    break ;
                }
            }
        }

        Ok(expr)
    }

    #[verifier::loop_isolation(false)]
    pub fn parse_expr_binary_2_logical_or_and(&mut self) -> (r: Result<ASTExpr, ()>)
        requires
            old(self)@.wf(),
        ensures
            final(self).advanced(old(self)),
            r.is_ok() && final(self).quiet_since(old(self)) ==> final(self)@.taken
                == expr_onto(old(self)@.taken, r->Ok_0),
            r.is_err() ==> final(self).failed_aloud(old(self)),
            r.is_ok() ==> final(self)@.remaining() < old(self)@.remaining(),
        decreases old(self)@.remaining(), 12int,
    {
        let mut expr = self.parse_expr_binary_3_arithmetic_add_sub()?;

        loop
            invariant
                self.quiet_since(old(self)) ==> self@.taken == expr_onto(
                    old(self)@.taken,
                    expr,
                ),
                self.advanced(old(self)),
                self@.remaining() < old(self)@.remaining(),
            decreases self@.remaining(),
        {
            let mark = self.progress_mark();
            let more = self.lookup_kind(0, TokenKind::LogOr) || self.lookup_kind(0, TokenKind::LogAnd);
            if !more {
                break ;
            }
            let (id, pos) = self.new_node()?;
            let operator = self.parse_expr_binary_operator()?;
            let operand_rhs = self.parse_expr_binary_3_arithmetic_add_sub()?;

            expr = self.wrap_expr_binary_op(ASTExprBinary {
                id,
                span: self.make_span(pos),
                operand_lhs: Box::new(expr),
                operator,
                operand_rhs: Box::new(operand_rhs),
            })?;
            if self.progress_mark() >= mark {
                if !self.skip_one() {
                    break ;
                }
            }
        }

        Ok(expr)
    }

    #[verifier::loop_isolation(false)]
    pub fn parse_expr_binary_3_arithmetic_add_sub(&mut self) -> (r: Result<ASTExpr, ()>)
        requires
            old(self)@.wf(),
        ensures
            final(self).advanced(old(self)),
            r.is_ok() && final(self).quiet_since(old(self)) ==> final(self)@.taken
                == expr_onto(old(self)@.taken, r->Ok_0),
            r.is_err() ==> final(self).failed_aloud(old(self)),
            r.is_ok() ==> final(self)@.remaining() < old(self)@.remaining(),
        decreases old(self)@.remaining(), 11int,
    {
        let mut expr = self.parse_expr_binary_4_arithmetic_mul_div_mod()?;

        loop
            invariant
                self.quiet_since(old(self)) ==> self@.taken == expr_onto(
                    old(self)@.taken,
                    expr,
                ),
                self.advanced(old(self)),
                self@.remaining() < old(self)@.remaining(),
            decreases self@.remaining(),
        {
            let mark = self.progress_mark();
            let more = self.lookup_kind(0, TokenKind::Add) || self.lookup_kind(0, TokenKind::Sub);
            if !more {
                break ;
            }
            let (id, pos) = self.new_node()?;
            let operator = self.parse_expr_binary_operator()?;
            let operand_rhs = self.parse_expr_binary_4_arithmetic_mul_div_mod()?;

            expr = self.wrap_expr_binary_op(ASTExprBinary {
                id,
                span: self.make_span(pos),
                operand_lhs: Box::new(expr),
                operator,
                operand_rhs: Box::new(operand_rhs),
            })?;
            if self.progress_mark() >= mark {
                if !self.skip_one() {
                    break ;
                }
            }
        }

        Ok(expr)
    }

    #[verifier::loop_isolation(false)]
    pub fn parse_expr_binary_4_arithmetic_mul_div_mod(&mut self) -> (r: Result<ASTExpr, ()>)
        requires
            old(self)@.wf(),
        ensures
            final(self).advanced(old(self)),
            r.is_ok() && final(self).quiet_since(old(self)) ==> final(self)@.taken
                == expr_onto(old(self)@.taken, r->Ok_0),
            r.is_err() ==> final(self).failed_aloud(old(self)),
            r.is_ok() ==> final(self)@.remaining() < old(self)@.remaining(),
        decreases old(self)@.remaining(), 10int,
    {
        let mut expr = self.parse_expr_binary_5_arithmetic_pow()?;

        loop
            invariant
                self.quiet_since(old(self)) ==> self@.taken == expr_onto(
                    old(self)@.taken,
                    expr,
                ),
                self.advanced(old(self)),
                self@.remaining() < old(self)@.remaining(),
            decreases self@.remaining(),
        {
            let mark = self.progress_mark();
            let more = self.lookup_kind(0, TokenKind::Mul) || self.lookup_kind(0, TokenKind::Div) || self.lookup_kind(0, TokenKind::Mod);
            if !more {
                break ;
            }
            let (id, pos) = self.new_node()?;
            let operator = self.parse_expr_binary_operator()?;
            let operand_rhs = self.parse_expr_binary_5_arithmetic_pow()?;

            expr = self.wrap_expr_binary_op(ASTExprBinary {
                id,
                span: self.make_span(pos),
                operand_lhs: Box::new(expr),
                operator,
                operand_rhs: Box::new(operand_rhs),
            })?;
            if self.progress_mark() >= mark {
                if !self.skip_one() {
                    break ;
                }
            }
        }

        Ok(expr)
    }

    #[verifier::loop_isolation(false)]
    pub fn parse_expr_binary_5_arithmetic_pow(&mut self) -> (r: Result<ASTExpr, ()>)
        requires
            old(self)@.wf(),
        ensures
            final(self).advanced(old(self)),
            r.is_ok() && final(self).quiet_since(old(self)) ==> final(self)@.taken
                == expr_onto(old(self)@.taken, r->Ok_0),
            r.is_err() ==> final(self).failed_aloud(old(self)),
            r.is_ok() ==> final(self)@.remaining() < old(self)@.remaining(),
        decreases old(self)@.remaining(), 9int,
    {
        let mut expr = self.parse_expr_binary_6_bit_shift()?;

        loop
            invariant
                self.quiet_since(old(self)) ==> self@.taken == expr_onto(
                    old(self)@.taken,
                    expr,
                ),
                self.advanced(old(self)),
                self@.remaining() < old(self)@.remaining(),
            decreases self@.remaining(),
        {
            let mark = self.progress_mark();
            if !self.lookup_kind(0, TokenKind::Pow) {
                break ;
            }
            let (id, pos) = self.new_node()?;
            let operator = self.parse_expr_binary_operator()?;
            let operand_rhs = self.parse_expr_binary_6_bit_shift()?;

            expr = self.wrap_expr_binary_op(ASTExprBinary {
                id,
                span: self.make_span(pos),
                operand_lhs: Box::new(expr),
                operator,
                operand_rhs: Box::new(operand_rhs),
            })?;
            if self.progress_mark() >= mark {
                if !self.skip_one() {
                    break ;
                }
            }
        }

        Ok(expr)
    }

    #[verifier::loop_isolation(false)]
    pub fn parse_expr_binary_6_bit_shift(&mut self) -> (r: Result<ASTExpr, ()>)
        requires
            old(self)@.wf(),
        ensures
            final(self).advanced(old(self)),
            r.is_ok() && final(self).quiet_since(old(self)) ==> final(self)@.taken
                == expr_onto(old(self)@.taken, r->Ok_0),
            r.is_err() ==> final(self).failed_aloud(old(self)),
            r.is_ok() ==> final(self)@.remaining() < old(self)@.remaining(),
        decreases old(self)@.remaining(), 8int,
    {
        let mut expr = self.parse_expr_binary_7_bit_or_and_xor()?;

        loop
            invariant
                self.quiet_since(old(self)) ==> self@.taken == expr_onto(
                    old(self)@.taken,
                    expr,
                ),
                self.advanced(old(self)),
                self@.remaining() < old(self)@.remaining(),
            decreases self@.remaining(),
        {
            let mark = self.progress_mark();
            let more = self.lookup_kind(0, TokenKind::Shl) || self.lookup_kind(0, TokenKind::Shr);
            if !more {
                break ;
            }
            let (id, pos) = self.new_node()?;
            let operator = self.parse_expr_binary_operator()?;
            let operand_rhs = self.parse_expr_binary_7_bit_or_and_xor()?;

            expr = self.wrap_expr_binary_op(ASTExprBinary {
                id,
                span: self.make_span(pos),
                operand_lhs: Box::new(expr),
                operator,
                operand_rhs: Box::new(operand_rhs),
            })?;
            if self.progress_mark() >= mark {
                if !self.skip_one() {
                    break ;
                }
            }
        }

        Ok(expr)
    }

    #[verifier::loop_isolation(false)]
    pub fn parse_expr_binary_7_bit_or_and_xor(&mut self) -> (r: Result<ASTExpr, ()>)
        requires
            old(self)@.wf(),
        ensures
            final(self).advanced(old(self)),
            r.is_ok() && final(self).quiet_since(old(self)) ==> final(self)@.taken
                == expr_onto(old(self)@.taken, r->Ok_0),
            r.is_err() ==> final(self).failed_aloud(old(self)),
            r.is_ok() ==> final(self)@.remaining() < old(self)@.remaining(),
        decreases old(self)@.remaining(), 7int,
    {
        let mut expr = self.parse_expr_as()?;

        loop
            invariant
                self.quiet_since(old(self)) ==> self@.taken == expr_onto(
                    old(self)@.taken,
                    expr,
                ),
                self.advanced(old(self)),
                self@.remaining() < old(self)@.remaining(),
            decreases self@.remaining(),
        {
            let mark = self.progress_mark();
            let more = self.lookup_kind(0, TokenKind::BitOr) || self.lookup_kind(0, TokenKind::BitAnd) || self.lookup_kind(0, TokenKind::BitXor);
            if !more {
                break ;
            }
            let (id, pos) = self.new_node()?;
            let operator = self.parse_expr_binary_operator()?;
            let operand_rhs = self.parse_expr_as()?;

            expr = self.wrap_expr_binary_op(ASTExprBinary {
                id,
                span: self.make_span(pos),
                operand_lhs: Box::new(expr),
                operator,
                operand_rhs: Box::new(operand_rhs),
            })?;
            if self.progress_mark() >= mark {
                if !self.skip_one() {
                    break ;
                }
            }
        }

        Ok(expr)
    }

    fn wrap_expr_binary_op(&mut self, expr: ASTExprBinary) -> (r: Result<ASTExpr, ()>)
        requires
            old(self)@.wf(),
        ensures
            final(self).advanced(old(self)),
            r.is_ok() == (old(self).allocated() < u64::MAX),
            final(self)@ == old(self)@.fetched(1),
            final(self)@.taken == old(self)@.taken,
            final(self).spec_log() == old(self).spec_log(),
            r.is_ok() ==> r->Ok_0.id@ == old(self).allocated() + 1 && r->Ok_0.span == expr.span
                && r->Ok_0.kind == ASTExprKind::Binary(expr),
            r.is_err() ==> final(self).failed_aloud(old(self)),
    {
        let (id, _) = self.new_node()?;

        Ok(ASTExpr {
            id,
            span: expr.span,
            kind: ASTExprKind::Binary(expr),
        }
    )
    }

    pub fn parse_expr_binary_operator(&mut self) -> (r: Result<ASTExprBinaryOperator, ()>)
        requires
            old(self)@.wf(),
        ensures
            final(self).advanced(old(self)),
            r.is_ok() && final(self).quiet_since(old(self)) ==> final(self)@.taken
                == expr_binary_operator_onto(old(self)@.taken, r->Ok_0),
            r.is_ok() ==> r->Ok_0.id@ == old(self).allocated() + 1 && r->Ok_0.span == old(
                self,
            ).span_to(final(self)),
            r.is_err() ==> final(self).failed_aloud(old(self)),
            r.is_ok() ==> final(self)@.remaining() < old(self)@.remaining(),
        decreases old(self)@.remaining(), 0int,
    {
        let (id, pos) = self.new_node()?;
        let token_operator = self.binary_op_or_err()?;
        let kind = self.binary_operator_kind(&token_operator)?;

        Ok(ASTExprBinaryOperator {
            id,
            span: self.make_span(pos),
            token_operator,
            kind,
        })
    }

    #[verifier::loop_isolation(false)]
    pub fn parse_expr_as(&mut self) -> (r: Result<ASTExpr, ()>)
        requires
            old(self)@.wf(),
        ensures
            final(self).advanced(old(self)),
            r.is_ok() && final(self).quiet_since(old(self)) ==> final(self)@.taken
                == expr_onto(old(self)@.taken, r->Ok_0),
            r.is_err() ==> final(self).failed_aloud(old(self)),
            r.is_ok() ==> final(self)@.remaining() < old(self)@.remaining(),
        decreases old(self)@.remaining(), 6int,
    {
        let mut expr = self.parse_expr_unary()?;

        loop
            invariant
                self.quiet_since(old(self)) ==> self@.taken == expr_onto(
                    old(self)@.taken,
                    expr,
                ),
                self.advanced(old(self)),
                self@.remaining() < old(self)@.remaining(),
            decreases self@.remaining(),
        {
            let mark = self.progress_mark();
            if !self.lookup_keyword(0, KEYWORD_AS) {
                break ;
            }
            let (id, pos) = self.new_node()?;
            let keyword_as = self.keyword_or_err(KEYWORD_AS)?;
            let ty = self.parse_ty()?;

            expr = self.wrap_expr_as(ASTExprAs {
                id,
                span: self.make_span(pos),
                expr: Box::new(expr),
                keyword_as,
                ty,
            })?;
            if self.progress_mark() >= mark {
                if !self.skip_one() {
                    break ;
                }
            }
        }

        Ok(expr)
    }

    fn wrap_expr_as(&mut self, expr: ASTExprAs) -> (r: Result<ASTExpr, ()>)
        requires
            old(self)@.wf(),
        ensures
            final(self).advanced(old(self)),
            r.is_ok() == (old(self).allocated() < u64::MAX),
            final(self)@ == old(self)@.fetched(1),
            final(self)@.taken == old(self)@.taken,
            final(self).spec_log() == old(self).spec_log(),
            r.is_ok() ==> r->Ok_0.id@ == old(self).allocated() + 1 && r->Ok_0.span == expr.span
                && r->Ok_0.kind == ASTExprKind::As(expr),
            r.is_err() ==> final(self).failed_aloud(old(self)),
    {
        let (id, _) = self.new_node()?;

        Ok(ASTExpr {
            id,
            span: expr.span,
            kind: ASTExprKind::As(expr),
        }
    )
    }

    fn wrap_expr_unary_op(&mut self, expr: ASTExprUnary) -> (r: Result<ASTExpr, ()>)
        requires
            old(self)@.wf(),
        ensures
            final(self).advanced(old(self)),
            r.is_ok() == (old(self).allocated() < u64::MAX),
            final(self)@ == old(self)@.fetched(1),
            final(self)@.taken == old(self)@.taken,
            final(self).spec_log() == old(self).spec_log(),
            r.is_ok() ==> r->Ok_0.id@ == old(self).allocated() + 1 && r->Ok_0.span == expr.span
                && r->Ok_0.kind == ASTExprKind::Unary(expr),
            r.is_err() ==> final(self).failed_aloud(old(self)),
    {
        let (id, _) = self.new_node()?;

        Ok(ASTExpr {
            id,
            span: expr.span,
            kind: ASTExprKind::Unary(expr),
        }
    )
    }

    pub fn parse_expr_unary_operator(&mut self) -> (r: Result<ASTExprUnaryOperator, ()>)
        requires
            old(self)@.wf(),
        ensures
            final(self).advanced(old(self)),
            r.is_ok() && final(self).quiet_since(old(self)) ==> final(self)@.taken
                == expr_unary_operator_onto(old(self)@.taken, r->Ok_0),
            r.is_ok() ==> r->Ok_0.id@ == old(self).allocated() + 1 && r->Ok_0.span == old(
                self,
            ).span_to(final(self)),
            r.is_err() ==> final(self).failed_aloud(old(self)),
            r.is_ok() ==> final(self)@.remaining() < old(self)@.remaining(),
        decreases old(self)@.remaining(), 0int,
    {
        let (id, pos) = self.new_node()?;
        let token_operator = self.unary_op_or_err()?;
        let kind = self.unary_operator_kind(&token_operator)?;

        Ok(ASTExprUnaryOperator {
            id,
            span: self.make_span(pos),
            token_operator,
            kind,
        })
    }

    #[verifier::loop_isolation(false)]
    pub fn parse_expr_call(&mut self, callee: ASTExpr) -> (r: Result<ASTExpr, ()>)
        requires
            old(self)@.wf(),
        ensures
            final(self).advanced(old(self)),
            r.is_ok() && final(self).quiet_since(old(self)) ==> (forall|base: Seq<TokenKind>|
                old(self)@.taken == #[trigger] expr_onto(base, callee) ==> final(self)@.taken == expr_onto(
                    base,
                    r->Ok_0,
                )),
            r.is_err() ==> final(self).failed_aloud(old(self)),
            r.is_ok() ==> final(self)@.remaining() < old(self)@.remaining(),
        decreases old(self)@.remaining(), 1int,
    {
        let ghost called = callee;
        let (id, _) = self.new_node()?;
        let callee = self.wrap_expr_call_callee(callee)?;
        let token_paren_open = self.kind_or_err(TokenKind::OpenParen)?;

        let mut args = Vec::new();
        let ghost start_args = self@.taken;
        let ghost calm_args = self.quiet_since(old(self));
        loop
            invariant
                self.quiet_since(old(self)) ==> calm_args && self@.taken == expr_items_onto(
                    start_args,
                    args@,
                    0,
                ),
                self.advanced(old(self)),
                self@.remaining() < old(self)@.remaining(),
            decreases self@.remaining(),
        {
            let mark = self.progress_mark();
            if !self.is_exists() {
                break ;
            }
            if self.lookup_kind(0, TokenKind::CloseParen) {
                break ;
            }
            let arg = match self.parse_expr() {
                Ok(arg) => arg,
                Err(_) => {
                    // eat erroneous tokens
                    self.skip_tokens(&vec![Skipper::ExprCallItem, Skipper::Expr, Skipper::ImplBlockItem, Skipper::ExternBlockItem, Skipper::ModuleItem]);
                    // eat commas if any
                    self.skip_tokens(&vec![Skipper::Comma]);
                    if self.progress_mark() >= mark {
                        if !self.skip_one() {
                            break ;
                        }
                    }
                    continue;
                }
            };

            let punctuation = self.kind(TokenKind::Comma);

            match punctuation {
                Some(punctuation) => {
                    let ghost before_args = args@;
                    args.push(PunctuatedItem::Punctuated {
                        item: arg,
                        punctuation,
                    });
                    proof {
                        assert(args@ =~= before_args.push(args@.last()));
                        lemma_expr_items_push(start_args, before_args, args@.last(), 0);
                    }
                }
                None => {
                    let ghost before_args = args@;
                    args.push(PunctuatedItem::NotPunctuated { item: arg });
                    proof {
                        assert(args@ =~= before_args.push(args@.last()));
                        lemma_expr_items_push(start_args, before_args, args@.last(), 0);
                    }
                    break;
                }
            }
            if self.progress_mark() >= mark {
                if !self.skip_one() {
                    break ;
                }
            }
        }

        let token_paren_close = self.kind_or_err(TokenKind::CloseParen)?;

        let wrapped = self.wrap_expr_call(
            ASTExprCall {
                id,
                span: self.make_span(callee.span.low),
                callee,
                token_paren_open,
                args: Punctuated { items: args },
                token_paren_close,
            },
        );
        proof {
            if wrapped.is_ok() && self.quiet_since(old(self)) {
                let call = wrapped->Ok_0.kind->Call_0;
                assert forall|base: Seq<TokenKind>|
                    old(self)@.taken == #[trigger] expr_onto(base, called) implies self@.taken
                    == expr_onto(base, wrapped->Ok_0) by {
                    assert(expr_call_callee_onto(base, call.callee) == expr_onto(base, called));
                    assert(expr_call_onto(base, call) == self@.taken);
                    assert(expr_kind_onto(base, wrapped->Ok_0.kind) == expr_call_onto(base, call));
                }
            }
        }
        wrapped
    }

    fn wrap_expr_call(&mut self, expr: ASTExprCall) -> (r: Result<ASTExpr, ()>)
        requires
            old(self)@.wf(),
        ensures
            final(self).advanced(old(self)),
            r.is_ok() == (old(self).allocated() < u64::MAX),
            final(self)@ == old(self)@.fetched(1),
            final(self)@.taken == old(self)@.taken,
            final(self).spec_log() == old(self).spec_log(),
            r.is_ok() ==> r->Ok_0.id@ == old(self).allocated() + 1 && r->Ok_0.span == expr.span
                && r->Ok_0.kind == ASTExprKind::Call(expr),
            r.is_err() ==> final(self).failed_aloud(old(self)),
    {
        let (id, _) = self.new_node()?;

        Ok(ASTExpr {
            id,
            span: expr.span,
            kind: ASTExprKind::Call(expr),
        }
    )
    }

    fn wrap_expr_call_callee(&mut self, expr: ASTExpr) -> (r: Result<ASTExprCallCallee, ()>)
        requires
            old(self)@.wf(),
        ensures
            final(self).advanced(old(self)),
            r.is_ok() == (old(self).allocated() < u64::MAX),
            final(self)@ == old(self)@.fetched(1),
            final(self)@.taken == old(self)@.taken,
            final(self).spec_log() == old(self).spec_log(),
            r.is_ok() ==> r->Ok_0.id@ == old(self).allocated() + 1 && r->Ok_0.span == expr.span
                && *r->Ok_0.expr == expr,
            r.is_err() ==> final(self).failed_aloud(old(self)),
        decreases old(self)@.remaining(), 0int,
    {
        let (id, _) = self.new_node()?;

        Ok(ASTExprCallCallee {
            id,
            span: expr.span,
            expr: Box::new(expr),
        })
    }

    pub fn parse_expr_member(&mut self, expr: ASTExpr) -> (r: Result<ASTExpr, ()>)
        requires
            old(self)@.wf(),
        ensures
            final(self).advanced(old(self)),
            r.is_ok() && final(self).quiet_since(old(self)) ==> (forall|base: Seq<TokenKind>|
                old(self)@.taken == #[trigger] expr_onto(base, expr) ==> final(self)@.taken == expr_onto(
                    base,
                    r->Ok_0,
                )),
            r.is_err() ==> final(self).failed_aloud(old(self)),
            r.is_ok() ==> final(self)@.remaining() < old(self)@.remaining(),
        decreases old(self)@.remaining(), 0int,
    {
        let (id, _) = self.new_node()?;
        let token_dot = self.kind_or_err(TokenKind::Dot)?;
        let member = self.identifier_or_err()?;

        self.wrap_expr_member(ASTExprMember {
            id,
            span: self.make_span(expr.span.low),
            expr: Box::new(expr),
            token_dot,
            member,
        })
    }

    fn wrap_expr_member(&mut self, expr: ASTExprMember) -> (r: Result<ASTExpr, ()>)
        requires
            old(self)@.wf(),
        ensures
            final(self).advanced(old(self)),
            r.is_ok() == (old(self).allocated() < u64::MAX),
            final(self)@ == old(self)@.fetched(1),
            final(self)@.taken == old(self)@.taken,
            final(self).spec_log() == old(self).spec_log(),
            r.is_ok() ==> r->Ok_0.id@ == old(self).allocated() + 1 && r->Ok_0.span == expr.span
                && r->Ok_0.kind == ASTExprKind::Member(expr),
            r.is_err() ==> final(self).failed_aloud(old(self)),
    {
        let (id, _) = self.new_node()?;

        Ok(ASTExpr {
            id,
            span: expr.span,
            kind: ASTExprKind::Member(expr),
        }
    )
    }

    pub fn parse_expr_paren_or_single_item(&mut self) -> (r: Result<ASTExpr, ()>)
        requires
            old(self)@.wf(),
        ensures
            final(self).advanced(old(self)),
            r.is_ok() && final(self).quiet_since(old(self)) ==> final(self)@.taken
                == expr_onto(old(self)@.taken, r->Ok_0),
            r.is_err() ==> final(self).failed_aloud(old(self)),
            r.is_ok() ==> final(self)@.remaining() < old(self)@.remaining(),
        decreases old(self)@.remaining(), 3int,
    {
        if self.lookup_kind(0, TokenKind::OpenParen) {
            self.parse_expr_paren()
        } else {
            self.parse_expr_single_item()
        }
    }

    pub fn parse_expr_paren(&mut self) -> (r: Result<ASTExpr, ()>)
        requires
            old(self)@.wf(),
        ensures
            final(self).advanced(old(self)),
            r.is_ok() && final(self).quiet_since(old(self)) ==> final(self)@.taken
                == expr_onto(old(self)@.taken, r->Ok_0),
            r.is_err() ==> final(self).failed_aloud(old(self)),
            r.is_ok() ==> final(self)@.remaining() < old(self)@.remaining(),
        decreases old(self)@.remaining(), 0int,
    {
        let (id, pos) = self.new_node()?;
        let token_paren_open = self.kind_or_err(TokenKind::OpenParen)?;
        let expr = self.parse_expr()?;
        let token_paren_close = self.kind_or_err(TokenKind::CloseParen)?;

        self.wrap_expr_paren(ASTExprParen {
            id,
            span: self.make_span(pos),
            token_paren_open,
            expr: Box::new(expr),
            token_paren_close,
        })
    }

    fn wrap_expr_paren(&mut self, expr: ASTExprParen) -> (r: Result<ASTExpr, ()>)
        requires
            old(self)@.wf(),
        ensures
            final(self).advanced(old(self)),
            r.is_ok() == (old(self).allocated() < u64::MAX),
            final(self)@ == old(self)@.fetched(1),
            final(self)@.taken == old(self)@.taken,
            final(self).spec_log() == old(self).spec_log(),
            r.is_ok() ==> r->Ok_0.id@ == old(self).allocated() + 1 && r->Ok_0.span == expr.span
                && r->Ok_0.kind == ASTExprKind::Paren(expr),
            r.is_err() ==> final(self).failed_aloud(old(self)),
    {
        let (id, _) = self.new_node()?;

        Ok(ASTExpr {
            id,
            span: expr.span,
            kind: ASTExprKind::Paren(expr),
        }
    )
    }

    pub fn parse_expr_single_item(&mut self) -> (r: Result<ASTExpr, ()>)
        requires
            old(self)@.wf(),
        ensures
            final(self).advanced(old(self)),
            r.is_ok() && final(self).quiet_since(old(self)) ==> final(self)@.taken
                == expr_onto(old(self)@.taken, r->Ok_0),
            r.is_err() ==> final(self).failed_aloud(old(self)),
            r.is_ok() ==> final(self)@.remaining() < old(self)@.remaining(),
        decreases old(self)@.remaining(), 2int,
    {
        let path = self.parse_path()?;

        if self.lookup_kind(0, TokenKind::OpenBrace) {
            self.parse_expr_struct_literal(path)
        } else {
            self.parse_expr_path(path)
        }
    }

    pub fn parse_expr_path(&mut self, path: ASTPath) -> (r: Result<ASTExpr, ()>)
        requires
            old(self)@.wf(),
        ensures
            final(self).advanced(old(self)),
            r.is_ok() && final(self).quiet_since(old(self)) ==> (forall|base: Seq<TokenKind>|
                old(self)@.taken == #[trigger] path_onto(base, path) ==> final(self)@.taken == expr_onto(
                    base,
                    r->Ok_0,
                )),
            r.is_err() ==> final(self).failed_aloud(old(self)),
        decreases old(self)@.remaining(), 1int,
    {
        let (id, _) = self.new_node()?;

        self.wrap_expr_path(ASTExprPath {
            id,
            span: self.make_span(path.span.low),
            path,
        })
    }

    fn wrap_expr_path(&mut self, expr: ASTExprPath) -> (r: Result<ASTExpr, ()>)
        requires
            old(self)@.wf(),
        ensures
            final(self).advanced(old(self)),
            r.is_ok() == (old(self).allocated() < u64::MAX),
            final(self)@ == old(self)@.fetched(1),
            final(self)@.taken == old(self)@.taken,
            final(self).spec_log() == old(self).spec_log(),
            r.is_ok() ==> r->Ok_0.id@ == old(self).allocated() + 1 && r->Ok_0.span == expr.span
                && r->Ok_0.kind == ASTExprKind::Path(expr),
            r.is_err() ==> final(self).failed_aloud(old(self)),
    {
        let (id, _) = self.new_node()?;

        Ok(ASTExpr {
            id,
            span: expr.span,
            kind: ASTExprKind::Path(expr),
        }
    )
    }

    pub fn parse_expr_literal(&mut self) -> (r: Result<ASTExpr, ()>)
        requires
            old(self)@.wf(),
        ensures
            final(self).advanced(old(self)),
            r.is_ok() && final(self).quiet_since(old(self)) ==> final(self)@.taken
                == expr_onto(old(self)@.taken, r->Ok_0),
            r.is_err() ==> final(self).failed_aloud(old(self)),
            r.is_ok() ==> final(self)@.remaining() < old(self)@.remaining(),
        decreases old(self)@.remaining(), 0int,
    {
        let (id, pos) = self.new_node()?;
        let literal = self.literal_op_or_err()?;

        self.wrap_expr_literal(ASTExprLiteral {
            id,
            span: self.make_span(pos),
            literal,
        })
    }

    fn wrap_expr_literal(&mut self, expr: ASTExprLiteral) -> (r: Result<ASTExpr, ()>)
        requires
            old(self)@.wf(),
        ensures
            final(self).advanced(old(self)),
            r.is_ok() == (old(self).allocated() < u64::MAX),
            final(self)@ == old(self)@.fetched(1),
            final(self)@.taken == old(self)@.taken,
            final(self).spec_log() == old(self).spec_log(),
            r.is_ok() ==> r->Ok_0.id@ == old(self).allocated() + 1 && r->Ok_0.span == expr.span
                && r->Ok_0.kind == ASTExprKind::Literal(expr),
            r.is_err() ==> final(self).failed_aloud(old(self)),
    {
        let (id, _) = self.new_node()?;

        Ok(ASTExpr {
            id,
            span: expr.span,
            kind: ASTExprKind::Literal(expr),
        }
    )
    }

    #[verifier::loop_isolation(false)]
    pub fn parse_expr_struct_literal(&mut self, path: ASTPath) -> (r: Result<ASTExpr, ()>)
        requires
            old(self)@.wf(),
        ensures
            final(self).advanced(old(self)),
            r.is_ok() && final(self).quiet_since(old(self)) ==> (forall|base: Seq<TokenKind>|
                old(self)@.taken == #[trigger] path_onto(base, path) ==> final(self)@.taken == expr_onto(
                    base,
                    r->Ok_0,
                )),
            r.is_err() ==> final(self).failed_aloud(old(self)),
            r.is_ok() ==> final(self)@.remaining() < old(self)@.remaining(),
        decreases old(self)@.remaining(), 0int,
    {
        let (id, _) = self.new_node()?;
        let token_brace_open = self.kind_or_err(TokenKind::OpenBrace)?;

        let mut fields = Vec::new();
        let ghost start_fields = self@.taken;
        let ghost calm_fields = self.quiet_since(old(self));
        loop
            invariant
                self.quiet_since(old(self)) ==> calm_fields && self@.taken == expr_struct_literal_field_items_onto(
                    start_fields,
                    fields@,
                    0,
                ),
                self.advanced(old(self)),
                self@.remaining() < old(self)@.remaining(),
            decreases self@.remaining(),
        {
            let mark = self.progress_mark();
            if !self.is_exists() {
                break ;
            }
            if self.lookup_kind(0, TokenKind::CloseBrace) {
                break ;
            }
            let field = match self.parse_expr_struct_literal_field() {
                Ok(field) => field,
                Err(_) => {
                    // eat erroneous tokens
                    self.skip_tokens(&vec![Skipper::ExprStructLiteralFieldItem, Skipper::Expr, Skipper::ImplBlockItem, Skipper::ExternBlockItem, Skipper::ModuleItem]);
                    // eat commas if any
                    self.skip_tokens(&vec![Skipper::Comma]);
                    if self.progress_mark() >= mark {
                        if !self.skip_one() {
                            break ;
                        }
                    }
                    continue;
                }
            };

            let punctuation = self.kind(TokenKind::Comma);

            match punctuation {
                Some(punctuation) => {
                    let ghost before_fields = fields@;
                    fields.push(PunctuatedItem::Punctuated {
                        item: field,
                        punctuation,
                    });
                    proof {
                        assert(fields@ =~= before_fields.push(fields@.last()));
                        lemma_expr_struct_literal_field_items_push(start_fields, before_fields, fields@.last(), 0);
                    }
                }
                None => {
                    let ghost before_fields = fields@;
                    fields.push(PunctuatedItem::NotPunctuated { item: field });
                    proof {
                        assert(fields@ =~= before_fields.push(fields@.last()));
                        lemma_expr_struct_literal_field_items_push(start_fields, before_fields, fields@.last(), 0);
                    }
                    break;
                }
            }
            if self.progress_mark() >= mark {
                if !self.skip_one() {
                    break ;
                }
            }
        }

        let token_brace_close = self.kind_or_err(TokenKind::CloseBrace)?;

        self.wrap_expr_struct_literal(ASTExprStructLiteral {
            id,
            span: self.make_span(path.span.low),
            path,
            token_brace_open,
            fields: Punctuated { items: fields },
            token_brace_close,
        })
    }

    fn wrap_expr_struct_literal(&mut self, expr: ASTExprStructLiteral) -> (r: Result<ASTExpr, ()>)
        requires
            old(self)@.wf(),
        ensures
            final(self).advanced(old(self)),
            r.is_ok() == (old(self).allocated() < u64::MAX),
            final(self)@ == old(self)@.fetched(1),
            final(self)@.taken == old(self)@.taken,
            final(self).spec_log() == old(self).spec_log(),
            r.is_ok() ==> r->Ok_0.id@ == old(self).allocated() + 1 && r->Ok_0.span == expr.span
                && r->Ok_0.kind == ASTExprKind::StructLiteral(expr),
            r.is_err() ==> final(self).failed_aloud(old(self)),
    {
        let (id, _) = self.new_node()?;

        Ok(ASTExpr {
            id,
            span: expr.span,
            kind: ASTExprKind::StructLiteral(expr),
        }
    )
    }

    pub fn parse_expr_struct_literal_field(&mut self) -> (r: Result<ASTExprStructLiteralField, ()>)
        requires
            old(self)@.wf(),
        ensures
            final(self).advanced(old(self)),
            r.is_ok() && final(self).quiet_since(old(self)) ==> final(self)@.taken
                == expr_struct_literal_field_onto(old(self)@.taken, r->Ok_0),
            r.is_ok() ==> r->Ok_0.id@ == old(self).allocated() + 1 && r->Ok_0.span == old(
                self,
            ).span_to(final(self)),
            r.is_err() ==> final(self).failed_aloud(old(self)),
            r.is_ok() ==> final(self)@.remaining() < old(self)@.remaining(),
        decreases old(self)@.remaining(), 0int,
    {
        let (id, pos) = self.new_node()?;
        let identifier = self.identifier_or_err()?;
        let token_colon = self.kind_or_err(TokenKind::Colon)?;
        let expr = self.parse_expr()?;

        Ok(ASTExprStructLiteralField {
            id,
            span: self.make_span(pos),
            identifier,
            token_colon,
            expr,
        })
    }

    pub fn parse_path_segment(&mut self) -> (r: Result<ASTPathSegment, ()>)
        requires
            old(self)@.wf(),
        ensures
            final(self).advanced(old(self)),
            r.is_ok() && final(self).quiet_since(old(self)) ==> final(self)@.taken
                == path_segment_onto(old(self)@.taken, r->Ok_0),
            r.is_ok() ==> r->Ok_0.id@ == old(self).allocated() + 1 && r->Ok_0.span == old(
                self,
            ).span_to(final(self)),
            r.is_err() ==> final(self).failed_aloud(old(self)),
            r.is_ok() ==> final(self)@.remaining() < old(self)@.remaining(),
        decreases old(self)@.remaining(), 0int,
    {
        let (id, pos) = self.new_node()?;
        let identifier = self.identifier_or_err()?;
        let generic = if self.lookup_kind(0, TokenKind::Lt) {
            Some(self.parse_generic_arg()?)
        } else {
            None
        };

        Ok(ASTPathSegment {
            id,
            span: self.make_span(pos),
            identifier,
            generic,
        })
    }

    pub fn parse_ty(&mut self) -> (r: Result<ASTTy, ()>)
        requires
            old(self)@.wf(),
        ensures
            final(self).advanced(old(self)),
            r.is_ok() && final(self).quiet_since(old(self)) ==> final(self)@.taken
                == ty_onto(old(self)@.taken, r->Ok_0),
            r.is_err() ==> final(self).failed_aloud(old(self)),
            r.is_ok() ==> final(self)@.remaining() < old(self)@.remaining(),
        decreases old(self)@.remaining(), 2int,
    {
        let prev = self.set_unglue_tokens(true);

        let (id, pos) = self.new_node()?;
        let kind = if self.lookup_kind(0, TokenKind::OpenParen) {
            ASTTyKind::Paren(self.parse_ty_paren()?)
        } else if self.lookup_kind(0, TokenKind::OpenBracket) {
            self.parse_ty_span_or_array()?
        } else if self.lookup_keyword(0, KEYWORD_FN) {
            ASTTyKind::FnPointer(self.parse_ty_fn_pointer()?)
        } else {
            ASTTyKind::Path(self.parse_path()?)
        };

        self.set_unglue_tokens(prev);

        Ok(ASTTy {
            id,
            span: self.make_span(pos),
            kind,
        })
    }

    pub fn parse_ty_paren(&mut self) -> (r: Result<ASTTyParen, ()>)
        requires
            old(self)@.wf(),
        ensures
            final(self).advanced(old(self)),
            r.is_ok() && final(self).quiet_since(old(self)) ==> final(self)@.taken
                == ty_paren_onto(old(self)@.taken, r->Ok_0),
            r.is_ok() ==> r->Ok_0.id@ == old(self).allocated() + 1 && r->Ok_0.span == old(
                self,
            ).span_to(final(self)),
            r.is_err() ==> final(self).failed_aloud(old(self)),
            r.is_ok() ==> final(self)@.remaining() < old(self)@.remaining(),
        decreases old(self)@.remaining(), 0int,
    {
        let (id, pos) = self.new_node()?;
        let token_paren_open = self.kind_or_err(TokenKind::OpenParen)?;
        let ty = self.parse_ty()?;
        let token_paren_close = self.kind_or_err(TokenKind::CloseParen)?;

        Ok(ASTTyParen {
            id,
            span: self.make_span(pos),
            token_paren_open,
            ty: Box::new(ty),
            token_paren_close,
        })
    }

    pub fn parse_ty_span_or_array(&mut self) -> (r: Result<ASTTyKind, ()>)
        requires
            old(self)@.wf(),
        ensures
            final(self).advanced(old(self)),
            r.is_ok() && final(self).quiet_since(old(self)) ==> final(self)@.taken
                == ty_kind_onto(old(self)@.taken, r->Ok_0),
            r.is_ok() ==> (match r->Ok_0 {
                ASTTyKind::Array(ast) => ast.id@ == old(self).allocated() + 1 && ast.span == old(self).span_to(
                    final(self),
                ),
                ASTTyKind::Span(ast) => ast.id@ == old(self).allocated() + 1 && ast.span == old(self).span_to(
                    final(self),
                ),
                _ => false,
            }),
            r.is_err() ==> final(self).failed_aloud(old(self)),
            r.is_ok() ==> final(self)@.remaining() < old(self)@.remaining(),
        decreases old(self)@.remaining(), 0int,
    {
        let (id, pos) = self.new_node()?;
        let token_bracket_open = self.kind_or_err(TokenKind::OpenBracket)?;
        let ty = self.parse_ty()?;

        if self.lookup_kind(0, TokenKind::Semicolon) {
            let token_semicolon = self.kind_or_err(TokenKind::Semicolon)?;
            let literal = self.literal_op_or_err()?;
            let token_bracket_close = self.kind_or_err(TokenKind::CloseBracket)?;

            Ok(ASTTyKind::Array(ASTTyArray {
                id,
                span: self.make_span(pos),
                token_bracket_open,
                ty: Box::new(ty),
                token_semicolon,
                literal,
                token_bracket_close,
            }))
        } else {
            let token_bracket_close = self.kind_or_err(TokenKind::CloseBracket)?;

            Ok(ASTTyKind::Span(ASTTySpan {
                id,
                span: self.make_span(pos),
                token_bracket_open,
                ty: Box::new(ty),
                token_bracket_close,
            }))
        }
    }

    #[verifier::loop_isolation(false)]
    pub fn parse_ty_fn_pointer(&mut self) -> (r: Result<ASTTyFnPointer, ()>)
        requires
            old(self)@.wf(),
        ensures
            final(self).advanced(old(self)),
            r.is_ok() && final(self).quiet_since(old(self)) ==> final(self)@.taken
                == ty_fn_pointer_onto(old(self)@.taken, r->Ok_0),
            r.is_ok() ==> r->Ok_0.id@ == old(self).allocated() + 1 && r->Ok_0.span == old(
                self,
            ).span_to(final(self)),
            r.is_err() ==> final(self).failed_aloud(old(self)),
            r.is_ok() ==> final(self)@.remaining() < old(self)@.remaining(),
        decreases old(self)@.remaining(), 0int,
    {
        let (id, pos) = self.new_node()?;
        let keyword_fn = self.keyword_or_err(KEYWORD_FN)?;
        let token_paren_open = self.kind_or_err(TokenKind::OpenParen)?;

        let mut params = Vec::new();
        let ghost start_params = self@.taken;
        let ghost calm_params = self.quiet_since(old(self));
        loop
            invariant
                self.quiet_since(old(self)) ==> calm_params && self@.taken == ty_items_onto(
                    start_params,
                    params@,
                    0,
                ),
                id@ == old(self).allocated() + 1,
                pos == old(self).next_low(),
                self.advanced(old(self)),
                self@.remaining() < old(self)@.remaining(),
            decreases self@.remaining(),
        {
            let mark = self.progress_mark();
            if !self.is_exists() {
                break ;
            }
            if self.lookup_kind(0, TokenKind::CloseParen) {
                break ;
            }
            let param = match self.parse_ty() {
                Ok(param) => param,
                Err(_) => {
                    // eat erroneous tokens
                    self.skip_tokens(&vec![Skipper::TyFnPointerParamItem, Skipper::Expr, Skipper::ImplBlockItem, Skipper::ExternBlockItem, Skipper::ModuleItem]);
                    // eat commas if any
                    self.skip_tokens(&vec![Skipper::Comma]);
                    if self.progress_mark() >= mark {
                        if !self.skip_one() {
                            break ;
                        }
                    }
                    continue;
                }
            };

            let punctuation = self.kind(TokenKind::Comma);

            match punctuation {
                Some(punctuation) => {
                    let ghost before_params = params@;
                    params.push(PunctuatedItem::Punctuated {
                        item: param,
                        punctuation,
                    });
                    proof {
                        assert(params@ =~= before_params.push(params@.last()));
                        lemma_ty_items_push(start_params, before_params, params@.last(), 0);
                    }
                }
                None => {
                    let ghost before_params = params@;
                    params.push(PunctuatedItem::NotPunctuated { item: param });
                    proof {
                        assert(params@ =~= before_params.push(params@.last()));
                        lemma_ty_items_push(start_params, before_params, params@.last(), 0);
                    }
                    break;
                }
            }
            if self.progress_mark() >= mark {
                if !self.skip_one() {
                    break ;
                }
            }
        }

        let token_paren_close = self.kind_or_err(TokenKind::CloseParen)?;
        let result = if self.lookup_kind(0, TokenKind::Arrow) {
            Some(self.parse_fn_result()?)
        } else {
            None
        };

        Ok(ASTTyFnPointer {
            id,
            span: self.make_span(pos),
            keyword_fn,
            token_paren_open,
            params: Punctuated { items: params },
            token_paren_close,
            result: match result {
                Some(result) => Some(Box::new(result)),
                None => None,
            },
        })
    }
}

/// Parses the tokens of one file into its syntax tree.
///
/// Node identities come from `id_allocator`, the first of them for the
/// tree itself; the work fails if and only if none is left at the start.
/// What is wrong with the tokens is appended to `log`, each time as an
/// error at a place of the file, and never ends the work. Where nothing is
/// wrong, the tokens of the tree are the tokens of the file other than
/// white space and comments, in their order: none is left out, and none is
/// made up.
pub fn parse_module(
    tokens: &Vec<Token>,
    id_allocator: &mut NodeIdAllocator,
    diagnostics: &DiagnosticsSender,
    symbols: &Symbols,
    interner: &Interner,
    log: &mut Vec<Diagnostics>,
) -> (r: Result<ASTModule, ()>)
    ensures
        r.is_ok() == (old(id_allocator)@ < u64::MAX),
        match r {
            Ok(module) => module.id@ == old(id_allocator)@ + 1,
            Err(_) => final(log)@ == old(log)@,
        },
        r.is_ok() && final(log)@.len() == old(log)@.len() && final(id_allocator)@ < u64::MAX
            ==> covered(tokens@, tokens@.len() as int, module_onto(Seq::empty(), r->Ok_0)),
        final(id_allocator)@ >= old(id_allocator)@,
        final(log)@.len() >= old(log)@.len(),
        final(log)@.take(old(log)@.len() as int) == old(log)@,
        errors_in(
            diagnostics.file,
            log_view(final(log)@).skip(old(log)@.len() as int),
        ),
{
    let mut allocator = NodeIdAllocator::new();
    core::mem::swap(id_allocator, &mut allocator);
    let begin = diagnostics.file().span_begin();
    let end = diagnostics.file().span_end();
    let mut parser = Parser::new(
        tokens,
        allocator,
        diagnostics.duplicate(),
        symbols,
        interner,
        begin,
        end,
    );
    let r = parser.parse_module();
    let (allocator, mut reports) = parser.finish();
    *id_allocator = allocator;
    let ghost added = reports@;
    log.append(&mut reports);
    proof {
        assert(log@.take(old(log)@.len() as int) =~= old(log)@);
        assert(log_view(log@).skip(old(log)@.len() as int) =~= log_view(added));
        if r.is_err() {
            assert(log_view(added).len() == 0);
            assert(log@ =~= old(log)@);
        }
    }
    r
}

} // verus!
