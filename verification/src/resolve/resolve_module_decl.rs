use vstd::prelude::*;
use vstd::string::*;
use std::sync::Arc;
use crate::diagnostic::error_codes::UNREACHABLE_MODULE;
use crate::diagnostic::message::{log_view, Diagnostics, DiagnosticsLevel, DiagnosticsView};
use crate::diagnostic::sender::located;
use crate::parse::ast::tree::{ASTModuleDecl, ASTModuleItem, ASTModuleItemKind};
use crate::resolve::module::{Module, ModuleView};
use crate::resolve::module_registry::{copy_path, resolve_items, ModuleRegistry, ModuleResolution};
use crate::sharing::share;
use crate::symbol::interner::{quoted, text_of, Interner};
use crate::symbol::name::Symbol;

verus! {

/// The module declarations (`module name;`) among the first `upto` items.
pub open spec fn module_decls(items: Seq<ASTModuleItem>, upto: int) -> Seq<Arc<ASTModuleDecl>>
    decreases upto,
{
    if upto <= 0 {
        Seq::empty()
    } else {
        match items[upto - 1].kind {
            ASTModuleItemKind::ModuleDecl(ast) => module_decls(items, upto - 1).push(ast),
            _ => module_decls(items, upto - 1),
        }
    }
}

/// The path of the module that a declaration in the module at `parent`
/// names: the module is a sibling of the file that declares it.
pub open spec fn declared_module_path(parent: Seq<Symbol>, name: Symbol) -> Seq<Symbol> {
    parent.drop_last().push(name)
}

/// The first `upto` segments of a path as a file path: the texts of the
/// segments with `/` between them.
pub open spec fn fs_joined(table: Seq<Seq<char>>, path: Seq<Symbol>, upto: int) -> Seq<char>
    decreases upto,
{
    if upto <= 0 {
        Seq::empty()
    } else if upto == 1 {
        text_of(table, path[0])
    } else {
        fs_joined(table, path, upto - 1) + "/"@ + text_of(table, path[upto - 1])
    }
}

/// The file in which the module at `path` is looked for, relative to the
/// root: one component for each segment, and the extension of source files.
pub open spec fn fs_path_text(table: Seq<Seq<char>>, path: Seq<Symbol>) -> Seq<char> {
    fs_joined(table, path, path.len() as int) + ".exc"@
}

/// The error for a module declaration whose file cannot be read.
pub open spec fn unreachable_module_diagnostic(
    table: Seq<Seq<char>>,
    parent: ModuleView,
    ast: ASTModuleDecl,
) -> DiagnosticsView {
    located(
        parent.diagnostics.file,
        UNREACHABLE_MODULE,
        DiagnosticsLevel::Error,
        ast.span,
        "the module "@ + quoted(table, ast.identifier.symbol)
            + " is not reachable; failed to read file at path `"@ + fs_path_text(
            table,
            declared_module_path(parent.path, ast.identifier.symbol),
        ) + "`"@,
        Seq::empty(),
    )
}

/// The module declarations of `module`, in source order. Each names a file
/// that has to be loaded.
pub fn collect_module_decls(module: &Module) -> (r: Vec<Arc<ASTModuleDecl>>)
    ensures
        r@ == module_decls(module.ast.spec_items(), module.ast.spec_items().len() as int),
{
    let items = module.ast.items();
    let mut r: Vec<Arc<ASTModuleDecl>> = Vec::new();
    let mut i: usize = 0;
    while i < items.len()
        invariant
            i <= items@.len(),
            r@ == module_decls(items@, i as int),
        decreases items@.len() - i,
    {
        match &items[i].kind {
            ASTModuleItemKind::ModuleDecl(ast) => {
                r.push(share(ast));
            },
            _ => {},
        }
        i += 1;
    }
    r
}

/// The path of the module that the declaration `ast` in `module` names.
pub fn module_decl_path(module: &Module, ast: &ASTModuleDecl) -> (r: Vec<Symbol>)
    requires
        module.path@.len() > 0,
    ensures
        r@ == declared_module_path(module.path@, ast.identifier.symbol),
{
    let mut path = copy_path(&module.path);
    path.pop();
    path.push(ast.identifier.symbol);
    path
}

/// The file in which the module at `path` is looked for, relative to the
/// root, with `/` between its components.
pub fn make_fs_path(interner: &Interner, path: &Vec<Symbol>) -> (r: String)
    ensures
        r@ == fs_path_text(interner@, path@),
{
    let mut r = String::new();
    let mut i: usize = 0;
    assert(r@ =~= fs_joined(interner@, path@, 0));
    while i < path.len()
        invariant
            i <= path@.len(),
            r@ == fs_joined(interner@, path@, i as int),
        decreases path@.len() - i,
    {
        if i > 0 {
            r.append("/");
        }
        r.append(interner.text(path[i]));
        proof {
            if i == 0 {
                assert(r@ =~= text_of(interner@, path@[0]));
            }
        }
        i += 1;
    }
    r.append(".exc");
    r
}

/// Takes in what loading the file of the declaration `ast` of `module`
/// gave. A loaded module is registered with the inline modules inside it,
/// recorded as what the declaration stands for, and returned: its own
/// declarations are to be loaded next. A failed load is reported.
pub fn resolve_single_module_decl(
    module_registry: &mut ModuleRegistry,
    interner: &Interner,
    log: &mut Vec<Diagnostics>,
    module: &Module,
    ast: &ASTModuleDecl,
    loaded: Option<Module>,
) -> (r: Option<Arc<Module>>)
    requires
        module.path@.len() > 0,
    ensures
        match (loaded, r) {
            (Some(new_module), Some(registered)) => {
                &&& *registered == new_module
                &&& (ModuleResolution {
                    table: final(module_registry)@.table(),
                    log: log_view(final(log)@),
                }) == (ModuleResolution {
                    table: resolve_items(
                        ModuleResolution {
                            table: old(module_registry)@.register(registered).table(),
                            log: log_view(old(log)@),
                        },
                        interner@,
                        new_module@,
                        new_module.ast.spec_items(),
                        0,
                    ).table.with_id(ast.id, new_module@),
                    log: resolve_items(
                        ModuleResolution {
                            table: old(module_registry)@.register(registered).table(),
                            log: log_view(old(log)@),
                        },
                        interner@,
                        new_module@,
                        new_module.ast.spec_items(),
                        0,
                    ).log,
                })
            },
            (None, None) => {
                &&& final(module_registry)@ == old(module_registry)@
                &&& log_view(final(log)@) == log_view(old(log)@).push(
                    unreachable_module_diagnostic(interner@, module@, *ast),
                )
            },
            _ => false,
        },
{
    match loaded {
        Some(new_module) => {
            let new_module = module_registry.register(new_module);
            module_registry.resolve_submodule(interner, log, &new_module);
            module_registry.register_module_decl(ast, share(&new_module));
            Some(new_module)
        },
        None => {
            let path = module_decl_path(module, ast);
            let mut message = String::from_str("the module ");
            message.append(interner.display(ast.identifier.symbol).as_str());
            message.append(" is not reachable; failed to read file at path `");
            message.append(make_fs_path(interner, &path).as_str());
            message.append("`");
            module.diagnostics.error(log, UNREACHABLE_MODULE, ast.span, message);
            None
        },
    }
}

} // verus!
