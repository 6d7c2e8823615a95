//! The syntax tree. Every node carries a stable identity and its span.

pub mod kinds;
pub mod node_id;
pub mod node_id_allocator;
pub mod punctuated;
pub mod tree;
pub mod yields;

pub use node_id::NodeId;
pub use node_id_allocator::NodeIdAllocator;
pub use punctuated::{
    Punctuated, PunctuatedItem, PunctuationKind, PUNCTUATION_KIND_COMMA, PUNCTUATION_KIND_PATH_SEP,
};
pub use tree::{
    ASTAliasDef, ASTExpr, ASTExprAs, ASTExprBinary, ASTExprBinaryOperator,
    ASTExprBinaryOperatorKind, ASTExprCall, ASTExprCallCallee, ASTExprKind, ASTExprLiteral,
    ASTExprMember, ASTExprParen, ASTExprPath, ASTExprStructLiteral, ASTExprStructLiteralField,
    ASTExprUnary, ASTExprUnaryOperator, ASTExprUnaryOperatorKind, ASTExternBlock,
    ASTExternBlockItem, ASTExternBlockItemKind, ASTFnDef, ASTFnParam, ASTFnResult,
    ASTGenericArg, ASTGenericParam, ASTGenericParamItem, ASTGenericWhere, ASTGenericWhereItem,
    ASTGenericWhereItemCondition, ASTGenericWhereItemConditionItem, ASTImplBlock,
    ASTImplBlockInterface, ASTImplBlockItem, ASTImplBlockItemKind, ASTInterfaceDef,
    ASTInterfaceDefItem, ASTInterfaceDefItemFnDecl, ASTInterfaceDefItemKind, ASTModule,
    ASTModuleDecl, ASTModuleDef, ASTModuleItem, ASTModuleItemKind, ASTPath, ASTPathSegment,
    ASTPrototypeDef, ASTStmt, ASTStmtAssignment, ASTStmtAssignmentOperator,
    ASTStmtAssignmentOperatorKind, ASTStmtBlock, ASTStmtBreak, ASTStmtContinue, ASTStmtExpr,
    ASTStmtIf, ASTStmtIfElse, ASTStmtIfElseIf, ASTStmtKind, ASTStmtLet, ASTStmtLetExpr,
    ASTStmtLetTy, ASTStmtLoop, ASTStmtReturn, ASTStmtWhile, ASTStructDef, ASTStructDefField,
    ASTTy, ASTTyArray, ASTTyFnPointer, ASTTyKind, ASTTyParen, ASTTySpan, ASTUse, ASTUsePath,
    ASTUsePathItem, ASTUsePathItemGroup, ASTUsePathItemKind, ASTUsePathItemSingle,
    ASTUsePathItemSingleAlias, ASTUsePathPrefix, ASTUsePathPrefixSegment,
    ASTUsePathPrefixSegmentKind, Id,
};
