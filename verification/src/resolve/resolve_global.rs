use vstd::prelude::*;
use std::sync::Arc;
use crate::diagnostic::message::{log_view, Diagnostics, DiagnosticsView};
use crate::resolve::global_symbol_registry::{
    lemma_register_all_wf, module_declared_symbols, GlobalSymbolRegistry,
    GlobalSymbolRegistryView,
};
use crate::resolve::module::Module;
use crate::resolve::module_registry::{ModuleRegistry, ModuleRegistryView};
use crate::resolve::redirect::RedirectGroupView;
use crate::resolve::redirect_registry::{
    add_redirects, module_redirects, resolved, unresolved_log, RedirectRegistry,
};
use crate::symbol::interner::Interner;

verus! {

/// The symbol tables after the declarations of the first `upto` of
/// `modules` were registered, module by module.
pub open spec fn declared_tables(
    tables: GlobalSymbolRegistryView,
    modules: Seq<Arc<Module>>,
    upto: int,
) -> GlobalSymbolRegistryView
    decreases upto,
{
    if upto <= 0 {
        tables
    } else {
        declared_tables(tables, modules, upto - 1).register_all(
            module_declared_symbols(modules[upto - 1]),
            module_declared_symbols(modules[upto - 1]).len() as int,
        )
    }
}

/// What registering the declarations of the first `upto` of `modules`
/// reports.
pub open spec fn declared_log(
    tables: GlobalSymbolRegistryView,
    table: Seq<Seq<char>>,
    modules: Seq<Arc<Module>>,
    upto: int,
) -> Seq<DiagnosticsView>
    decreases upto,
{
    if upto <= 0 {
        Seq::empty()
    } else {
        declared_log(tables, table, modules, upto - 1) + declared_tables(
            tables,
            modules,
            upto - 1,
        ).register_all_log(
            table,
            module_declared_symbols(modules[upto - 1]),
            module_declared_symbols(modules[upto - 1]).len() as int,
        )
    }
}

/// The pending imports of the first `upto` of `modules`.
pub open spec fn collected_redirects(modules: Seq<Arc<Module>>, upto: int) -> Seq<RedirectGroupView>
    decreases upto,
{
    if upto <= 0 {
        Seq::empty()
    } else {
        add_redirects(
            collected_redirects(modules, upto - 1),
            modules[upto - 1].spec_id(),
            module_redirects(
                modules[upto - 1],
                modules[upto - 1].ast.spec_items(),
                modules[upto - 1].ast.spec_items().len() as int,
            ),
        )
    }
}

/// Registering the declarations of modules keeps the tables well formed.
pub proof fn lemma_declared_tables_wf(
    tables: GlobalSymbolRegistryView,
    modules: Seq<Arc<Module>>,
    upto: int,
)
    requires
        tables.wf(),
    ensures
        declared_tables(tables, modules, upto).wf(),
    decreases upto,
{
    if upto > 0 {
        lemma_declared_tables_wf(tables, modules, upto - 1);
        lemma_register_all_wf(
            declared_tables(tables, modules, upto - 1),
            module_declared_symbols(modules[upto - 1]),
            module_declared_symbols(modules[upto - 1]).len() as int,
        );
    }
}

/// What binding the top-level names of a module tree gives: the symbol
/// tables, and everything that was reported.
pub struct GlobalResolution {
    pub symbols: GlobalSymbolRegistryView,
    pub log: Seq<DiagnosticsView>,
}

/// The outcome of binding the top-level names of the module tree
/// `registry`, after `before` was reported.
///
/// First the declarations of every module are registered, module by module
/// in registration order. Then the imports of every module are collected,
/// in the same order, and resolved. At the end every import that could not
/// be resolved is reported.
pub open spec fn global_resolution(
    registry: ModuleRegistryView,
    table: Seq<Seq<char>>,
    before: Seq<DiagnosticsView>,
) -> GlobalResolution {
    let modules = registry.modules;
    let empty = GlobalSymbolRegistryView {
        module_symbols: Seq::empty(),
        non_module_symbols: Seq::empty(),
    };
    let declared = declared_tables(empty, modules, modules.len() as int);
    let end = resolved(
        registry,
        table,
        declared,
        before + declared_log(empty, table, modules, modules.len() as int),
        collected_redirects(modules, modules.len() as int),
    );
    GlobalResolution {
        symbols: end.symbols,
        log: end.log + unresolved_log(table, end.groups, end.groups.len() as int),
    }
}

/// Repeatability. Two runs of the resolution on one module tree, with one
/// table of names and after the same reports, end with the same symbol
/// tables and the same reports.
pub proof fn lemma_resolution_is_repeatable(
    registry: ModuleRegistryView,
    table: Seq<Seq<char>>,
    before: Seq<DiagnosticsView>,
    first: GlobalResolution,
    second: GlobalResolution,
)
    requires
        first == global_resolution(registry, table, before),
        second == global_resolution(registry, table, before),
    ensures
        first.symbols == second.symbols,
        first.log == second.log,
{
}

/// Binds the top-level names of a complete module tree. Every error is
/// reported and none ends the work.
pub fn resolve_global(
    module_registry: &ModuleRegistry,
    interner: &Interner,
    log: &mut Vec<Diagnostics>,
) -> (r: GlobalSymbolRegistry)
    ensures
        r@ == global_resolution(module_registry@, interner@, log_view(old(log)@)).symbols,
        log_view(final(log)@) == global_resolution(
            module_registry@,
            interner@,
            log_view(old(log)@),
        ).log,
        r@.wf(),
{
    let mut global_symbol_registry = GlobalSymbolRegistry::new();
    let ghost empty = global_symbol_registry@;
    assert(empty == GlobalSymbolRegistryView {
        module_symbols: Seq::empty(),
        non_module_symbols: Seq::empty(),
    });
    let ghost before = log_view(log@);
    let modules = module_registry.modules();
    let mut i: usize = 0;
    assert(before =~= before + declared_log(empty, interner@, modules@, 0));
    while i < modules.len()
        invariant
            i <= modules@.len(),
            global_symbol_registry@ == declared_tables(empty, modules@, i as int),
            global_symbol_registry@.wf(),
            log_view(log@) == before + declared_log(empty, interner@, modules@, i as int),
        decreases modules@.len() - i,
    {
        global_symbol_registry.register_module(interner, log, &modules[i]);
        assert(log_view(log@) =~= before + declared_log(empty, interner@, modules@, i + 1));
        i += 1;
    }
    let mut redirect_registry = RedirectRegistry::new();
    let mut k: usize = 0;
    while k < modules.len()
        invariant
            k <= modules@.len(),
            redirect_registry@ == collected_redirects(modules@, k as int),
        decreases modules@.len() - k,
    {
        redirect_registry.collect_redirects(&modules[k]);
        k += 1;
    }
    redirect_registry.resolve_redirects(module_registry, &mut global_symbol_registry, interner, log);
    global_symbol_registry
}

} // verus!
