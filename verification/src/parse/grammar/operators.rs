use vstd::prelude::*;
use vstd::string::*;
use std::sync::Arc;
use crate::diagnostic::error_codes::{
    INVALID_ASSIGNMENT_OPERATOR, INVALID_BINARY_OPERATOR, INVALID_UNARY_OPERATOR,
};
use crate::diagnostic::message::{log_view, Diagnostics, DiagnosticsLevel, DiagnosticsView};
use crate::diagnostic::sender::{located, DiagnosticsSender};
use crate::parse::ast::tree::{
    ASTExprBinaryOperatorKind, ASTExprUnaryOperatorKind, ASTStmtAssignmentOperatorKind,
};
use crate::parse::lexer::symbols::Symbols;
use crate::parse::lexer::token::Token;
use crate::parse::lexer::token_kind::TokenKind;
use crate::span::source_file::SourceFile;
use crate::symbol::interner::{quoted, Interner};

verus! {

/// The kind of assignment that an assignment operator makes.
pub open spec fn spec_assignment_operator_kind(kind: TokenKind) -> Option<
    ASTStmtAssignmentOperatorKind,
> {
    match kind {
        TokenKind::Assign => Some(ASTStmtAssignmentOperatorKind::Assignment),
        TokenKind::AssignAdd => Some(ASTStmtAssignmentOperatorKind::Add),
        TokenKind::AssignSub => Some(ASTStmtAssignmentOperatorKind::Sub),
        TokenKind::AssignMul => Some(ASTStmtAssignmentOperatorKind::Mul),
        TokenKind::AssignDiv => Some(ASTStmtAssignmentOperatorKind::Div),
        TokenKind::AssignMod => Some(ASTStmtAssignmentOperatorKind::Mod),
        TokenKind::AssignPow => Some(ASTStmtAssignmentOperatorKind::Pow),
        TokenKind::AssignShl => Some(ASTStmtAssignmentOperatorKind::Shl),
        TokenKind::AssignShr => Some(ASTStmtAssignmentOperatorKind::Shr),
        TokenKind::AssignBitOr => Some(ASTStmtAssignmentOperatorKind::BitOr),
        TokenKind::AssignBitAnd => Some(ASTStmtAssignmentOperatorKind::BitAnd),
        TokenKind::AssignBitXor => Some(ASTStmtAssignmentOperatorKind::BitXor),
        _ => None,
    }
}

/// The operation that a binary operator stands for.
pub open spec fn spec_binary_operator_kind(kind: TokenKind) -> Option<ASTExprBinaryOperatorKind> {
    match kind {
        TokenKind::Eq => Some(ASTExprBinaryOperatorKind::Eq),
        TokenKind::Ne => Some(ASTExprBinaryOperatorKind::Ne),
        TokenKind::Lt => Some(ASTExprBinaryOperatorKind::Lt),
        TokenKind::Gt => Some(ASTExprBinaryOperatorKind::Gt),
        TokenKind::Le => Some(ASTExprBinaryOperatorKind::Le),
        TokenKind::Ge => Some(ASTExprBinaryOperatorKind::Ge),
        TokenKind::Add => Some(ASTExprBinaryOperatorKind::Add),
        TokenKind::Sub => Some(ASTExprBinaryOperatorKind::Sub),
        TokenKind::Mul => Some(ASTExprBinaryOperatorKind::Mul),
        TokenKind::Div => Some(ASTExprBinaryOperatorKind::Div),
        TokenKind::Mod => Some(ASTExprBinaryOperatorKind::Mod),
        TokenKind::Pow => Some(ASTExprBinaryOperatorKind::Pow),
        TokenKind::Shl => Some(ASTExprBinaryOperatorKind::Shl),
        TokenKind::Shr => Some(ASTExprBinaryOperatorKind::Shr),
        TokenKind::BitOr => Some(ASTExprBinaryOperatorKind::BitOr),
        TokenKind::BitAnd => Some(ASTExprBinaryOperatorKind::BitAnd),
        TokenKind::BitXor => Some(ASTExprBinaryOperatorKind::BitXor),
        TokenKind::LogOr => Some(ASTExprBinaryOperatorKind::LogOr),
        TokenKind::LogAnd => Some(ASTExprBinaryOperatorKind::LogAnd),
        _ => None,
    }
}

/// The operation that a unary operator stands for.
pub open spec fn spec_unary_operator_kind(kind: TokenKind) -> Option<ASTExprUnaryOperatorKind> {
    match kind {
        TokenKind::Add => Some(ASTExprUnaryOperatorKind::Plus),
        TokenKind::Sub => Some(ASTExprUnaryOperatorKind::Minus),
        TokenKind::BitNot => Some(ASTExprUnaryOperatorKind::BitNot),
        TokenKind::LogNot => Some(ASTExprUnaryOperatorKind::LogNot),
        TokenKind::BitAnd => Some(ASTExprUnaryOperatorKind::AddressOf),
        TokenKind::Mul => Some(ASTExprUnaryOperatorKind::Dereference),
        _ => None,
    }
}

/// The error for a token that is no operator of the sort `sort`: it
/// points at the token and names its kind.
pub open spec fn invalid_operator(
    file: Arc<SourceFile>,
    table: Seq<Seq<char>>,
    symbols: &Symbols,
    code: u32,
    token: Token,
    sort: Seq<char>,
) -> DiagnosticsView {
    located(
        file,
        code,
        DiagnosticsLevel::Error,
        token.span,
        quoted(table, symbols.spec_get(token.kind.spec_name_index() as int)) + " is not a valid "@
            + sort + " operator"@,
        Seq::empty(),
    )
}

/// The words of the error for a token that is no operator of the sort
/// `sort`.
pub fn invalid_operator_message(
    token: &Token,
    symbols: &Symbols,
    interner: &Interner,
    sort: &str,
) -> (r: String)
    ensures
        r@ == quoted(interner@, symbols.spec_get(token.kind.spec_name_index() as int))
            + " is not a valid "@ + sort@ + " operator"@,
{
    let mut message = interner.display(token.kind.into_symbol(symbols));
    message.append(" is not a valid ");
    message.append(sort);
    message.append(" operator");
    message
}

/// The kind of assignment that an operator of kind `kind` makes.
pub fn assignment_operator_of(kind: TokenKind) -> (r: Option<ASTStmtAssignmentOperatorKind>)
    ensures
        r == spec_assignment_operator_kind(kind),
{
    match kind {
        TokenKind::Assign => Some(ASTStmtAssignmentOperatorKind::Assignment),
        TokenKind::AssignAdd => Some(ASTStmtAssignmentOperatorKind::Add),
        TokenKind::AssignSub => Some(ASTStmtAssignmentOperatorKind::Sub),
        TokenKind::AssignMul => Some(ASTStmtAssignmentOperatorKind::Mul),
        TokenKind::AssignDiv => Some(ASTStmtAssignmentOperatorKind::Div),
        TokenKind::AssignMod => Some(ASTStmtAssignmentOperatorKind::Mod),
        TokenKind::AssignPow => Some(ASTStmtAssignmentOperatorKind::Pow),
        TokenKind::AssignShl => Some(ASTStmtAssignmentOperatorKind::Shl),
        TokenKind::AssignShr => Some(ASTStmtAssignmentOperatorKind::Shr),
        TokenKind::AssignBitOr => Some(ASTStmtAssignmentOperatorKind::BitOr),
        TokenKind::AssignBitAnd => Some(ASTStmtAssignmentOperatorKind::BitAnd),
        TokenKind::AssignBitXor => Some(ASTStmtAssignmentOperatorKind::BitXor),
        _ => None,
    }
}

/// The operation that a binary operator of kind `kind` stands for.
pub fn binary_operator_of(kind: TokenKind) -> (r: Option<ASTExprBinaryOperatorKind>)
    ensures
        r == spec_binary_operator_kind(kind),
{
    match kind {
        TokenKind::Eq => Some(ASTExprBinaryOperatorKind::Eq),
        TokenKind::Ne => Some(ASTExprBinaryOperatorKind::Ne),
        TokenKind::Lt => Some(ASTExprBinaryOperatorKind::Lt),
        TokenKind::Gt => Some(ASTExprBinaryOperatorKind::Gt),
        TokenKind::Le => Some(ASTExprBinaryOperatorKind::Le),
        TokenKind::Ge => Some(ASTExprBinaryOperatorKind::Ge),
        TokenKind::Add => Some(ASTExprBinaryOperatorKind::Add),
        TokenKind::Sub => Some(ASTExprBinaryOperatorKind::Sub),
        TokenKind::Mul => Some(ASTExprBinaryOperatorKind::Mul),
        TokenKind::Div => Some(ASTExprBinaryOperatorKind::Div),
        TokenKind::Mod => Some(ASTExprBinaryOperatorKind::Mod),
        TokenKind::Pow => Some(ASTExprBinaryOperatorKind::Pow),
        TokenKind::Shl => Some(ASTExprBinaryOperatorKind::Shl),
        TokenKind::Shr => Some(ASTExprBinaryOperatorKind::Shr),
        TokenKind::BitOr => Some(ASTExprBinaryOperatorKind::BitOr),
        TokenKind::BitAnd => Some(ASTExprBinaryOperatorKind::BitAnd),
        TokenKind::BitXor => Some(ASTExprBinaryOperatorKind::BitXor),
        TokenKind::LogOr => Some(ASTExprBinaryOperatorKind::LogOr),
        TokenKind::LogAnd => Some(ASTExprBinaryOperatorKind::LogAnd),
        _ => None,
    }
}

/// The operation that a unary operator of kind `kind` stands for.
pub fn unary_operator_of(kind: TokenKind) -> (r: Option<ASTExprUnaryOperatorKind>)
    ensures
        r == spec_unary_operator_kind(kind),
{
    match kind {
        TokenKind::Add => Some(ASTExprUnaryOperatorKind::Plus),
        TokenKind::Sub => Some(ASTExprUnaryOperatorKind::Minus),
        TokenKind::BitNot => Some(ASTExprUnaryOperatorKind::BitNot),
        TokenKind::LogNot => Some(ASTExprUnaryOperatorKind::LogNot),
        TokenKind::BitAnd => Some(ASTExprUnaryOperatorKind::AddressOf),
        TokenKind::Mul => Some(ASTExprUnaryOperatorKind::Dereference),
        _ => None,
    }
}

impl ASTStmtAssignmentOperatorKind {
    /// The kind of assignment that the operator `token` makes; an error is
    /// reported for a token that is no assignment operator.
    pub fn from_token(
        token: &Token,
        diagnostics: &DiagnosticsSender,
        symbols: &Symbols,
        interner: &Interner,
        log: &mut Vec<Diagnostics>,
    ) -> (r: Result<Self, ()>)
        ensures
            match spec_assignment_operator_kind(token.kind) {
                Some(kind) => r == Ok::<Self, ()>(kind) && final(log)@ == old(log)@,
                None => r.is_err() && log_view(final(log)@) == log_view(old(log)@).push(
                    invalid_operator(
                        diagnostics.file,
                        interner@,
                        symbols,
                        INVALID_ASSIGNMENT_OPERATOR,
                        *token,
                        "assignment"@,
                    ),
                ),
            },
    {
        match assignment_operator_of(token.kind) {
            Some(kind) => Ok(kind),
            None => {
                let message = invalid_operator_message(token, symbols, interner, "assignment");
                diagnostics.error(log, INVALID_ASSIGNMENT_OPERATOR, token.span, message);
                Err(())
            },
        }
    }
}

impl ASTExprBinaryOperatorKind {
    /// The operation that the binary operator `token` stands for; an error
    /// is reported for a token that is no binary operator.
    pub fn from_token(
        token: &Token,
        diagnostics: &DiagnosticsSender,
        symbols: &Symbols,
        interner: &Interner,
        log: &mut Vec<Diagnostics>,
    ) -> (r: Result<Self, ()>)
        ensures
            match spec_binary_operator_kind(token.kind) {
                Some(kind) => r == Ok::<Self, ()>(kind) && final(log)@ == old(log)@,
                None => r.is_err() && log_view(final(log)@) == log_view(old(log)@).push(
                    invalid_operator(
                        diagnostics.file,
                        interner@,
                        symbols,
                        INVALID_BINARY_OPERATOR,
                        *token,
                        "binary"@,
                    ),
                ),
            },
    {
        match binary_operator_of(token.kind) {
            Some(kind) => Ok(kind),
            None => {
                let message = invalid_operator_message(token, symbols, interner, "binary");
                diagnostics.error(log, INVALID_BINARY_OPERATOR, token.span, message);
                Err(())
            },
        }
    }
}

impl ASTExprUnaryOperatorKind {
    /// The operation that the unary operator `token` stands for; an error
    /// is reported for a token that is no unary operator.
    pub fn from_token(
        token: &Token,
        diagnostics: &DiagnosticsSender,
        symbols: &Symbols,
        interner: &Interner,
        log: &mut Vec<Diagnostics>,
    ) -> (r: Result<Self, ()>)
        ensures
            match spec_unary_operator_kind(token.kind) {
                Some(kind) => r == Ok::<Self, ()>(kind) && final(log)@ == old(log)@,
                None => r.is_err() && log_view(final(log)@) == log_view(old(log)@).push(
                    invalid_operator(
                        diagnostics.file,
                        interner@,
                        symbols,
                        INVALID_UNARY_OPERATOR,
                        *token,
                        "unary"@,
                    ),
                ),
            },
    {
        match unary_operator_of(token.kind) {
            Some(kind) => Ok(kind),
            None => {
                let message = invalid_operator_message(token, symbols, interner, "unary");
                diagnostics.error(log, INVALID_UNARY_OPERATOR, token.span, message);
                Err(())
            },
        }
    }
}

} // verus!
