use vstd::prelude::*;
use std::sync::Arc;
use crate::diagnostic::sender::DiagnosticsSender;
use crate::parse::ast::node_id::NodeId;
use crate::parse::ast::tree::{ASTModule, ASTModuleDef, ASTModuleItem};
use crate::resolve::visibility::Visibility;
use crate::span::source_file::SourceFile;
use crate::span::span_range::Span;
use crate::symbol::name::Symbol;

verus! {

/// The syntax of a module: a whole file, or an inline `module name { .. }`.
#[derive(Debug)]
pub enum ModuleASTKind {
    Module(Arc<ASTModule>),
    Submodule(Arc<ASTModuleDef>),
}

impl ModuleASTKind {
    pub open spec fn spec_id(&self) -> NodeId {
        match self {
            Self::Module(ast) => ast.id,
            Self::Submodule(ast) => ast.id,
        }
    }

    pub open spec fn spec_span(&self) -> Span {
        match self {
            Self::Module(ast) => ast.span,
            Self::Submodule(ast) => ast.span,
        }
    }

    pub open spec fn spec_items(&self) -> Seq<ASTModuleItem> {
        match self {
            Self::Module(ast) => ast.items@,
            Self::Submodule(ast) => ast.items@,
        }
    }

    pub fn id(&self) -> (r: NodeId)
        ensures
            r == self.spec_id(),
    {
        match self {
            Self::Module(ast) => ast.id,
            Self::Submodule(ast) => ast.id,
        }
    }

    pub fn span(&self) -> (r: Span)
        ensures
            r == self.spec_span(),
    {
        match self {
            Self::Module(ast) => ast.span,
            Self::Submodule(ast) => ast.span,
        }
    }

    pub fn items(&self) -> (r: &Vec<ASTModuleItem>)
        ensures
            r@ == self.spec_items(),
    {
        match self {
            Self::Module(ast) => &ast.items,
            Self::Submodule(ast) => &ast.items,
        }
    }
}

/// A resolved module: one file or one inline module block, with its
/// root-relative path.
#[derive(Debug)]
pub struct Module {
    pub visibility: Visibility,
    pub ast: ModuleASTKind,
    pub path: Vec<Symbol>,
    pub file: Arc<SourceFile>,
    pub diagnostics: DiagnosticsSender,
}

/// A module as a plain value.
pub struct ModuleView {
    pub visibility: Visibility,
    pub ast: ModuleASTKind,
    pub path: Seq<Symbol>,
    pub file: Arc<SourceFile>,
    pub diagnostics: DiagnosticsSender,
}

impl View for Module {
    type V = ModuleView;

    open spec fn view(&self) -> ModuleView {
        ModuleView {
            visibility: self.visibility,
            ast: self.ast,
            path: self.path@,
            file: self.file,
            diagnostics: self.diagnostics,
        }
    }
}

impl Module {
    /// The identity of the module: that of its syntax node.
    pub open spec fn spec_id(&self) -> NodeId {
        self.ast.spec_id()
    }

    /// Whether two modules stand in the same source file.
    pub open spec fn spec_same_file(&self, other: &Module) -> bool {
        self.file.spec_id() == other.file.spec_id()
    }

    /// Whether an item of visibility `visibility` that lives in `owner` may
    /// be named from this module.
    pub open spec fn spec_can_see(&self, visibility: Visibility, owner: &Module) -> bool {
        visibility == Visibility::Public || self.spec_same_file(owner)
    }

    pub fn new(
        visibility: Visibility,
        ast: ModuleASTKind,
        path: Vec<Symbol>,
        file: Arc<SourceFile>,
        diagnostics: DiagnosticsSender,
    ) -> (r: Self)
        ensures
            r == (Module { visibility, ast, path, file, diagnostics }),
    {
        Self { visibility, ast, path, file, diagnostics }
    }

    pub fn id(&self) -> (r: NodeId)
        ensures
            r == self.spec_id(),
    {
        self.ast.id()
    }

    pub fn same_file(&self, other: &Module) -> (r: bool)
        ensures
            r == self.spec_same_file(other),
    {
        self.file.id().0 == other.file.id().0
    }

    pub fn can_see(&self, visibility: Visibility, owner: &Module) -> (r: bool)
        ensures
            r == self.spec_can_see(visibility, owner),
    {
        visibility == Visibility::Public || self.same_file(owner)
    }
}

} // verus!
