//! Why import resolution ends: every pass that binds a name either resolves
//! an import for good or fills a slot that can be filled only once.

use vstd::prelude::*;
use std::sync::Arc;
use crate::parse::ast::node_id::NodeId;
use crate::resolve::global_symbol_registry::{
    binds, entries_of, lemma_register_wf, lookup, register_entries, GlobalSymbol,
    GlobalSymbolEntry, GlobalSymbolRegistryView, SymbolLevel,
};
use crate::resolve::laws::{lemma_lookup_elsewhere, lemma_lookup_registered};
use crate::resolve::module::Module;
use crate::resolve::module_registry::ModuleRegistryView;
use crate::resolve::redirect::{pending_count, RedirectGroupView, RedirectView, Resolution};
use crate::resolve::redirect_glob::{
    glob_bindings, glob_blocklist, glob_candidates, glob_group, glob_import, glob_imports,
    glob_only, glob_scan, glob_scan_step, glob_sweep, glob_symbol, offered_name, Bound,
    GlobBlocklistView, GlobScan,
};
use crate::resolve::redirect_single::{
    after_group, after_step, before_group, imported_symbol, lemma_single_sweep_total,
    single_group, single_only, single_step, single_sweep,
};
use crate::resolve::redirect::{RedirectTarget, Sweep};
use crate::resolve::redirect_target::{target_of, TargetResolution};
use crate::resolve::seq_search::{first_index, lemma_first_index};
use crate::resolve::visibility::Visibility;
use crate::symbol::name::Symbol;

verus! {

/// The names under which the symbols of `rows` were declared.
pub open spec fn declared_names(rows: Seq<GlobalSymbolEntry>) -> Seq<Symbol> {
    rows.map_values(|row: GlobalSymbolEntry| offered_name(row))
}

/// Every symbol of `rows` was declared under one of `names`.
pub open spec fn names_closed(rows: Seq<GlobalSymbolEntry>, names: Seq<Symbol>) -> bool {
    forall|i: int| 0 <= i < rows.len() ==> names.contains(offered_name(#[trigger] rows[i]))
}

/// The module into which the glob imports of `group` bind.
pub open spec fn importer_of(modules: ModuleRegistryView, group: RedirectGroupView) -> NodeId {
    match modules.get_module_by_id(group.module) {
        Some(module) => module.spec_id(),
        None => group.module,
    }
}

/// The modules into which the glob imports of `groups` bind.
pub open spec fn importers(modules: ModuleRegistryView, groups: Seq<RedirectGroupView>) -> Seq<
    NodeId,
> {
    groups.map_values(|group: RedirectGroupView| importer_of(modules, group))
}

/// How many of the first `upto` of `names` the module `module` does not
/// bind.
pub open spec fn free_names(
    rows: Seq<GlobalSymbolEntry>,
    module: NodeId,
    names: Seq<Symbol>,
    upto: int,
) -> nat
    decreases upto,
{
    if upto <= 0 {
        0
    } else {
        free_names(rows, module, names, upto - 1) + (if lookup(
            rows,
            module,
            names[upto - 1],
        ).is_none() {
            1nat
        } else {
            0nat
        })
    }
}

/// How many slots are free: pairs of one of the first `upto` of `modules`
/// and one of `names` that the module does not bind.
pub open spec fn free_slots(
    rows: Seq<GlobalSymbolEntry>,
    modules: Seq<NodeId>,
    names: Seq<Symbol>,
    upto: int,
) -> nat
    decreases upto,
{
    if upto <= 0 {
        0
    } else {
        free_slots(rows, modules, names, upto - 1) + free_names(
            rows,
            modules[upto - 1],
            names,
            names.len() as int,
        )
    }
}

/// Whatever `before` binds, `after` binds too.
pub open spec fn no_unbinding(before: Seq<GlobalSymbolEntry>, after: Seq<GlobalSymbolEntry>) -> bool {
    forall|module: NodeId, name: Symbol| #[trigger]
        lookup(before, module, name).is_some() ==> lookup(after, module, name).is_some()
}

/// The tables `after` are well formed, declare no new name, and bind all
/// that `before` binds.
pub open spec fn steady(
    before: GlobalSymbolRegistryView,
    after: GlobalSymbolRegistryView,
    names: Seq<Symbol>,
) -> bool {
    &&& after.wf()
    &&& names_closed(after.non_module_symbols, names)
    &&& no_unbinding(before.non_module_symbols, after.non_module_symbols)
}

/// The free slots at the start of import resolution: a bound on the
/// number of names that glob imports can bind.
pub open spec fn glob_fuel(modules: ModuleRegistryView, state: Resolution) -> nat {
    free_slots(
        state.symbols.non_module_symbols,
        importers(modules, state.groups),
        declared_names(state.symbols.non_module_symbols),
        state.groups.len() as int,
    )
}

/// Where nothing is unbound, no more names are free.
pub proof fn lemma_free_names_shrink(
    before: Seq<GlobalSymbolEntry>,
    after: Seq<GlobalSymbolEntry>,
    module: NodeId,
    names: Seq<Symbol>,
    upto: int,
)
    requires
        no_unbinding(before, after),
    ensures
        free_names(after, module, names, upto) <= free_names(before, module, names, upto),
    decreases upto,
{
    if upto > 0 {
        lemma_free_names_shrink(before, after, module, names, upto - 1);
        if lookup(before, module, names[upto - 1]).is_some() {
        }
    }
}

/// Where nothing is unbound and a name is bound anew, fewer names are free.
pub proof fn lemma_free_names_drop(
    before: Seq<GlobalSymbolEntry>,
    after: Seq<GlobalSymbolEntry>,
    module: NodeId,
    names: Seq<Symbol>,
    upto: int,
    at: int,
)
    requires
        no_unbinding(before, after),
        0 <= at < upto,
        lookup(before, module, names[at]).is_none(),
        lookup(after, module, names[at]).is_some(),
    ensures
        free_names(after, module, names, upto) < free_names(before, module, names, upto),
    decreases upto,
{
    if at == upto - 1 {
        lemma_free_names_shrink(before, after, module, names, upto - 1);
    } else {
        lemma_free_names_drop(before, after, module, names, upto - 1, at);
        if lookup(before, module, names[upto - 1]).is_some() {
        }
    }
}

/// Where nothing is unbound, no more slots are free.
pub proof fn lemma_free_slots_shrink(
    before: Seq<GlobalSymbolEntry>,
    after: Seq<GlobalSymbolEntry>,
    modules: Seq<NodeId>,
    names: Seq<Symbol>,
    upto: int,
)
    requires
        no_unbinding(before, after),
    ensures
        free_slots(after, modules, names, upto) <= free_slots(before, modules, names, upto),
    decreases upto,
{
    if upto > 0 {
        lemma_free_slots_shrink(before, after, modules, names, upto - 1);
        lemma_free_names_shrink(before, after, modules[upto - 1], names, names.len() as int);
    }
}

/// Where nothing is unbound and a slot is filled, fewer slots are free.
pub proof fn lemma_free_slots_drop(
    before: Seq<GlobalSymbolEntry>,
    after: Seq<GlobalSymbolEntry>,
    modules: Seq<NodeId>,
    names: Seq<Symbol>,
    upto: int,
    module_at: int,
    name_at: int,
)
    requires
        no_unbinding(before, after),
        0 <= module_at < upto,
        0 <= name_at < names.len(),
        lookup(before, modules[module_at], names[name_at]).is_none(),
        lookup(after, modules[module_at], names[name_at]).is_some(),
    ensures
        free_slots(after, modules, names, upto) < free_slots(before, modules, names, upto),
    decreases upto,
{
    if module_at == upto - 1 {
        lemma_free_slots_shrink(before, after, modules, names, upto - 1);
        lemma_free_names_drop(
            before,
            after,
            modules[upto - 1],
            names,
            names.len() as int,
            name_at,
        );
    } else {
        lemma_free_slots_drop(before, after, modules, names, upto - 1, module_at, name_at);
        lemma_free_names_shrink(before, after, modules[upto - 1], names, names.len() as int);
    }
}

/// Registering unbinds nothing.
pub proof fn lemma_register_no_unbinding(
    entries: Seq<GlobalSymbolEntry>,
    name: Symbol,
    symbol: GlobalSymbol,
)
    ensures
        no_unbinding(entries, register_entries(entries, name, symbol)),
{
    let after = register_entries(entries, name, symbol);
    assert forall|module: NodeId, other: Symbol| #[trigger]
        lookup(entries, module, other).is_some() implies lookup(after, module, other).is_some() by {
        if module == symbol.module.spec_id() && other == name {
            lemma_lookup_registered(entries, name, symbol);
        } else {
            lemma_lookup_elsewhere(entries, name, symbol, module, other);
        }
    }
}

/// Registering a symbol that was declared under one of `names` declares no
/// new name.
pub proof fn lemma_register_closed(
    entries: Seq<GlobalSymbolEntry>,
    name: Symbol,
    symbol: GlobalSymbol,
    names: Seq<Symbol>,
)
    requires
        names_closed(entries, names),
        names.contains(symbol.kind.spec_identifier().symbol),
    ensures
        names_closed(register_entries(entries, name, symbol), names),
{
    let after = register_entries(entries, name, symbol);
    lemma_first_index(entries, binds(symbol.module.spec_id(), name));
    assert forall|i: int| 0 <= i < after.len() implies names.contains(
        offered_name(#[trigger] after[i]),
    ) by {
        if i < entries.len() && after[i] == entries[i] {
        } else {
            assert(after[i].symbol == symbol);
        }
    }
}

/// Registering in the tables a symbol that was declared under one of
/// `names` keeps them steady.
pub proof fn lemma_register_steady(
    tables: GlobalSymbolRegistryView,
    name: Symbol,
    symbol: GlobalSymbol,
    names: Seq<Symbol>,
)
    requires
        tables.wf(),
        names_closed(tables.non_module_symbols, names),
        symbol.kind.spec_is_module() || names.contains(symbol.kind.spec_identifier().symbol),
    ensures
        steady(tables, tables.register(name, symbol), names),
{
    lemma_register_wf(tables, name, symbol);
    if !symbol.kind.spec_is_module() {
        lemma_register_no_unbinding(tables.non_module_symbols, name, symbol);
        lemma_register_closed(tables.non_module_symbols, name, symbol, names);
    }
}

/// Steadiness carries over from step to step.
pub proof fn lemma_steady_chain(
    a: GlobalSymbolRegistryView,
    b: GlobalSymbolRegistryView,
    c: GlobalSymbolRegistryView,
    names: Seq<Symbol>,
)
    requires
        steady(a, b, names),
        steady(b, c, names),
    ensures
        steady(a, c, names),
{
    assert forall|module: NodeId, name: Symbol| #[trigger]
        lookup(a.non_module_symbols, module, name).is_some() implies lookup(
        c.non_module_symbols,
        module,
        name,
    ).is_some() by {
        assert(lookup(b.non_module_symbols, module, name).is_some());
    }
}

/// Every row of a module is a row of the table.
pub proof fn lemma_entries_of_in_table(
    entries: Seq<GlobalSymbolEntry>,
    module: NodeId,
    upto: int,
    at: int,
)
    requires
        upto <= entries.len(),
        0 <= at < entries_of(entries, module, upto).len(),
    ensures
        exists|k: int| 0 <= k < upto && entries[k] == entries_of(entries, module, upto)[at],
    decreases upto,
{
    if upto > 0 {
        let before = entries_of(entries, module, upto - 1);
        if entries[upto - 1].module == module && at == before.len() {
            assert(entries[upto - 1] == entries_of(entries, module, upto)[at]);
        } else {
            lemma_entries_of_in_table(entries, module, upto - 1, at);
        }
    }
}

/// A binding that a glob import of the module `importer` may make: of a
/// symbol that is no module and was declared under one of `names`, at level
/// `Glob`, under the name of its declaration.
pub open spec fn glob_bound(symbol: GlobalSymbol, importer: NodeId, names: Seq<Symbol>) -> bool {
    &&& symbol.level == SymbolLevel::Glob
    &&& !symbol.kind.spec_is_module()
    &&& symbol.module.spec_id() == importer
    &&& symbol.identifier == symbol.kind.spec_identifier()
    &&& names.contains(symbol.identifier.symbol)
}

/// The bindings that a glob import makes are such bindings.
pub proof fn lemma_glob_candidates_bound(
    rows: Seq<GlobalSymbolEntry>,
    importer: Arc<Module>,
    visibility: Visibility,
    blocklist: GlobBlocklistView,
    upto: int,
    names: Seq<Symbol>,
)
    requires
        upto <= rows.len(),
        forall|i: int|
            0 <= i < rows.len() ==> !(#[trigger] rows[i]).symbol.kind.spec_is_module()
                && names.contains(offered_name(rows[i])),
    ensures
        forall|k: int|
            0 <= k < glob_candidates(rows, importer, visibility, blocklist, upto).len()
                ==> glob_bound(
                #[trigger] glob_candidates(rows, importer, visibility, blocklist, upto)[k],
                importer.spec_id(),
                names,
            ),
    decreases upto,
{
    if upto > 0 {
        lemma_glob_candidates_bound(rows, importer, visibility, blocklist, upto - 1, names);
        let before = glob_candidates(rows, importer, visibility, blocklist, upto - 1);
        let all = glob_candidates(rows, importer, visibility, blocklist, upto);
        let row = rows[upto - 1];
        assert(!row.symbol.kind.spec_is_module() && names.contains(offered_name(row)));
        assert forall|k: int| 0 <= k < all.len() implies glob_bound(
            #[trigger] all[k],
            importer.spec_id(),
            names,
        ) by {
            if k < before.len() {
                assert(all[k] == before[k]);
            } else {
                assert(all[k] == glob_symbol(importer, visibility, row.symbol));
            }
        }
    }
}

/// The bindings of a glob import, taken from steady tables, are such
/// bindings.
pub proof fn lemma_glob_bindings_bound(
    symbols: GlobalSymbolRegistryView,
    importer: Arc<Module>,
    blocklist: GlobBlocklistView,
    glob: crate::resolve::redirect::GlobRedirect,
    names: Seq<Symbol>,
)
    requires
        symbols.wf(),
        names_closed(symbols.non_module_symbols, names),
    ensures
        forall|k: int|
            0 <= k < glob_bindings(symbols, importer, blocklist, glob).len() ==> glob_bound(
                #[trigger] glob_bindings(symbols, importer, blocklist, glob)[k],
                importer.spec_id(),
                names,
            ),
{
    let rows = symbols.non_module_entries_of(glob.target_module.spec_id());
    assert forall|i: int| 0 <= i < rows.len() implies !(#[trigger] rows[i]).symbol.kind.spec_is_module()
        && names.contains(offered_name(rows[i])) by {
        lemma_entries_of_in_table(
            symbols.non_module_symbols,
            glob.target_module.spec_id(),
            symbols.non_module_symbols.len() as int,
            i,
        );
    }
    lemma_glob_candidates_bound(
        rows,
        importer,
        glob.visibility,
        blocklist,
        rows.len() as int,
        names,
    );
}

/// Registering glob bindings of the module `modules[at]` keeps the tables
/// steady, and fills a slot if it binds a name.
pub proof fn lemma_register_all_glob(
    tables: GlobalSymbolRegistryView,
    bindings: Seq<GlobalSymbol>,
    upto: int,
    modules: Seq<NodeId>,
    at: int,
    names: Seq<Symbol>,
)
    requires
        tables.wf(),
        names_closed(tables.non_module_symbols, names),
        0 <= at < modules.len(),
        upto <= bindings.len(),
        forall|k: int| 0 <= k < bindings.len() ==> glob_bound(#[trigger] bindings[k], modules[at], names),
    ensures
        steady(tables, tables.register_all(bindings, upto), names),
        tables.register_all_adds(bindings, upto) ==> free_slots(
            tables.register_all(bindings, upto).non_module_symbols,
            modules,
            names,
            modules.len() as int,
        ) < free_slots(tables.non_module_symbols, modules, names, modules.len() as int),
    decreases upto,
{
    if upto > 0 {
        lemma_register_all_glob(tables, bindings, upto - 1, modules, at, names);
        let before = tables.register_all(bindings, upto - 1);
        let symbol = bindings[upto - 1];
        let name = symbol.identifier.symbol;
        let after = before.register(name, symbol);
        assert(glob_bound(symbol, modules[at], names));
        lemma_register_steady(before, name, symbol, names);
        lemma_steady_chain(tables, before, after, names);
        lemma_free_slots_shrink(
            tables.non_module_symbols,
            before.non_module_symbols,
            modules,
            names,
            modules.len() as int,
        );
        lemma_free_slots_shrink(
            before.non_module_symbols,
            after.non_module_symbols,
            modules,
            names,
            modules.len() as int,
        );
        if before.adds(name, symbol) {
            lemma_first_index(before.non_module_symbols, binds(symbol.module.spec_id(), name));
            lemma_lookup_registered(before.non_module_symbols, name, symbol);
            let name_at = choose|j: int| 0 <= j < names.len() && names[j] == name;
            assert(lookup(before.non_module_symbols, modules[at], names[name_at]).is_none());
            lemma_free_slots_drop(
                before.non_module_symbols,
                after.non_module_symbols,
                modules,
                names,
                modules.len() as int,
                at,
                name_at,
            );
        }
    } else {
        assert forall|module: NodeId, name: Symbol| #[trigger]
            lookup(tables.non_module_symbols, module, name).is_some() implies lookup(
            tables.non_module_symbols,
            module,
            name,
        ).is_some() by {}
    }
}

/// The glob imports of the module `modules[at]` keep the tables steady,
/// and fill a slot if they bind a name.
pub proof fn lemma_glob_imports_progress(
    table: Seq<Seq<char>>,
    state: Bound,
    importer: Arc<Module>,
    blocklist: GlobBlocklistView,
    globs: Seq<crate::resolve::redirect::GlobRedirect>,
    from: int,
    modules: Seq<NodeId>,
    at: int,
    names: Seq<Symbol>,
)
    requires
        state.symbols.wf(),
        names_closed(state.symbols.non_module_symbols, names),
        0 <= at < modules.len(),
        modules[at] == importer.spec_id(),
        0 <= from,
    ensures
        ({
            let after = glob_imports(table, state, importer, blocklist, globs, from);
            &&& steady(state.symbols, after.symbols, names)
            &&& state.changed ==> after.changed
            &&& after.changed && !state.changed ==> free_slots(
                after.symbols.non_module_symbols,
                modules,
                names,
                modules.len() as int,
            ) < free_slots(state.symbols.non_module_symbols, modules, names, modules.len() as int)
        }),
    decreases globs.len() - from,
{
    if from < globs.len() {
        let bindings = glob_bindings(state.symbols, importer, blocklist, globs[from]);
        lemma_glob_bindings_bound(state.symbols, importer, blocklist, globs[from], names);
        lemma_register_all_glob(
            state.symbols,
            bindings,
            bindings.len() as int,
            modules,
            at,
            names,
        );
        let next = glob_import(table, state, importer, blocklist, globs[from]);
        lemma_glob_imports_progress(
            table,
            next,
            importer,
            blocklist,
            globs,
            from + 1,
            modules,
            at,
            names,
        );
        let after = glob_imports(table, next, importer, blocklist, globs, from + 1);
        lemma_steady_chain(state.symbols, next.symbols, after.symbols, names);
        lemma_free_slots_shrink(
            state.symbols.non_module_symbols,
            next.symbols.non_module_symbols,
            modules,
            names,
            modules.len() as int,
        );
        lemma_free_slots_shrink(
            next.symbols.non_module_symbols,
            after.symbols.non_module_symbols,
            modules,
            names,
            modules.len() as int,
        );
    } else {
        lemma_steady_same(state.symbols, names);
    }
}

/// Tables are steady with regard to themselves.
pub proof fn lemma_steady_same(tables: GlobalSymbolRegistryView, names: Seq<Symbol>)
    requires
        tables.wf(),
        names_closed(tables.non_module_symbols, names),
    ensures
        steady(tables, tables, names),
{
    assert forall|module: NodeId, name: Symbol| #[trigger]
        lookup(tables.non_module_symbols, module, name).is_some() implies lookup(
        tables.non_module_symbols,
        module,
        name,
    ).is_some() by {}
}

/// The first half of a glob pass keeps no more imports than it was given.
pub proof fn lemma_glob_scan_shrinks(
    modules: ModuleRegistryView,
    symbols: GlobalSymbolRegistryView,
    table: Seq<Seq<char>>,
    state: GlobScan,
    redirects: Seq<RedirectView>,
    from: int,
)
    requires
        0 <= from <= redirects.len(),
    ensures
        glob_scan(modules, symbols, table, state, redirects, from).kept.len() <= state.kept.len()
            + redirects.len() - from,
    decreases redirects.len() - from,
{
    if from < redirects.len() {
        lemma_glob_scan_shrinks(
            modules,
            symbols,
            table,
            glob_scan_step(modules, symbols, table, state, redirects[from]),
            redirects,
            from + 1,
        );
    }
}

/// What a glob pass over one group keeps: the tables steady, the groups
/// and their modules, and no more imports pending than there were. If it
/// binds a name, it fills a slot.
pub proof fn lemma_glob_group_progress(
    modules: ModuleRegistryView,
    table: Seq<Seq<char>>,
    state: Resolution,
    at: int,
    names: Seq<Symbol>,
)
    requires
        state.symbols.wf(),
        names_closed(state.symbols.non_module_symbols, names),
        0 <= at < state.groups.len(),
    ensures
        ({
            let after = glob_group(modules, table, state, at);
            let slots = importers(modules, state.groups);
            &&& steady(state.symbols, after.symbols, names)
            &&& after.groups.len() == state.groups.len()
            &&& forall|k: int|
                0 <= k < state.groups.len() ==> (#[trigger] after.groups[k]).module
                    == state.groups[k].module
            &&& forall|k: int|
                0 <= k < state.groups.len() && k != at ==> #[trigger] after.groups[k]
                    == state.groups[k]
            &&& after.groups[at].redirects.len() <= state.groups[at].redirects.len()
            &&& importers(modules, after.groups) == slots
            &&& state.changed ==> after.changed
            &&& after.changed && !state.changed ==> free_slots(
                after.symbols.non_module_symbols,
                slots,
                names,
                slots.len() as int,
            ) < free_slots(state.symbols.non_module_symbols, slots, names, slots.len() as int)
        }),
{
    let group = state.groups[at];
    let start = GlobScan { log: state.log, kept: Seq::empty(), globs: Seq::empty() };
    let scan = glob_scan(modules, state.symbols, table, start, group.redirects, 0);
    lemma_glob_scan_shrinks(modules, state.symbols, table, start, group.redirects, 0);
    let after = glob_group(modules, table, state, at);
    let slots = importers(modules, state.groups);
    assert(importers(modules, after.groups) =~= slots);
    match modules.get_module_by_id(group.module) {
        None => {
            lemma_steady_same(state.symbols, names);
        },
        Some(importer) => {
            assert(slots[at] == importer.spec_id());
            lemma_glob_imports_progress(
                table,
                Bound { symbols: state.symbols, log: scan.log, changed: state.changed },
                importer,
                glob_blocklist(state.symbols, importer, scan.globs),
                scan.globs,
                0,
                slots,
                at,
                names,
            );
        },
    }
}

/// What a glob pass keeps, over the groups from `from` on.
pub proof fn lemma_glob_sweep_progress(
    modules: ModuleRegistryView,
    table: Seq<Seq<char>>,
    state: Resolution,
    from: int,
    names: Seq<Symbol>,
)
    requires
        state.symbols.wf(),
        names_closed(state.symbols.non_module_symbols, names),
        0 <= from <= state.groups.len(),
    ensures
        ({
            let after = glob_sweep(modules, table, state, from);
            let slots = importers(modules, state.groups);
            &&& steady(state.symbols, after.symbols, names)
            &&& after.groups.len() == state.groups.len()
            &&& importers(modules, after.groups) == slots
            &&& forall|k: int|
                0 <= k < state.groups.len() ==> (#[trigger] after.groups[k]).redirects.len()
                    <= state.groups[k].redirects.len()
            &&& state.changed ==> after.changed
            &&& after.changed && !state.changed ==> free_slots(
                after.symbols.non_module_symbols,
                slots,
                names,
                slots.len() as int,
            ) < free_slots(state.symbols.non_module_symbols, slots, names, slots.len() as int)
        }),
    decreases state.groups.len() - from,
{
    if from < state.groups.len() {
        let next = glob_group(modules, table, state, from);
        lemma_glob_group_progress(modules, table, state, from, names);
        lemma_glob_sweep_progress(modules, table, next, from + 1, names);
        let after = glob_sweep(modules, table, next, from + 1);
        let slots = importers(modules, state.groups);
        lemma_steady_chain(state.symbols, next.symbols, after.symbols, names);
        lemma_free_slots_shrink(
            state.symbols.non_module_symbols,
            next.symbols.non_module_symbols,
            slots,
            names,
            slots.len() as int,
        );
        lemma_free_slots_shrink(
            next.symbols.non_module_symbols,
            after.symbols.non_module_symbols,
            slots,
            names,
            slots.len() as int,
        );
        assert forall|k: int| 0 <= k < state.groups.len() implies (
        #[trigger] after.groups[k]).redirects.len() <= state.groups[k].redirects.len() by {
            assert(after.groups[k].redirects.len() <= next.groups[k].redirects.len());
            if k != from {
                assert(next.groups[k] == state.groups[k]);
            }
        }
    } else {
        lemma_steady_same(state.symbols, names);
    }
}

/// Where no group has more imports, no more imports are pending.
pub proof fn lemma_pending_count_shrinks(
    before: Seq<RedirectGroupView>,
    after: Seq<RedirectGroupView>,
    from: int,
)
    requires
        before.len() == after.len(),
        forall|k: int|
            0 <= k < before.len() ==> (#[trigger] after[k]).redirects.len()
                <= before[k].redirects.len(),
    ensures
        pending_count(after, from) <= pending_count(before, from),
    decreases before.len() - from,
{
    if 0 <= from < before.len() {
        lemma_pending_count_shrinks(before, after, from + 1);
    }
}

/// The rows of a table were all declared under the names of its rows.
pub proof fn lemma_declared_names_closed(rows: Seq<GlobalSymbolEntry>)
    ensures
        names_closed(rows, declared_names(rows)),
{
    assert forall|i: int| 0 <= i < rows.len() implies declared_names(rows).contains(
        offered_name(#[trigger] rows[i]),
    ) by {
        assert(declared_names(rows)[i] == offered_name(rows[i]));
    }
}

/// What is bound to a name is a row of one of the tables: a module in the
/// table of module symbols, or no module that was declared under one of
/// `names`.
pub proof fn lemma_found_declared(
    tables: GlobalSymbolRegistryView,
    module: NodeId,
    name: Symbol,
    names: Seq<Symbol>,
)
    requires
        tables.wf(),
        names_closed(tables.non_module_symbols, names),
    ensures
        match tables.get_any_symbol(module, name) {
            Some(found) => found.kind.spec_is_module() || names.contains(
                found.kind.spec_identifier().symbol,
            ),
            None => true,
        },
{
    lemma_first_index(tables.module_symbols, binds(module, name));
    lemma_first_index(tables.non_module_symbols, binds(module, name));
    match first_index(tables.module_symbols, binds(module, name)) {
        Some(i) => {
            assert(tables.module_symbols[i].symbol.kind.spec_is_module());
        },
        None => match first_index(tables.non_module_symbols, binds(module, name)) {
            Some(i) => {
                assert(names.contains(offered_name(tables.non_module_symbols[i])));
            },
            None => {},
        },
    }
}

/// Resolving one import by name keeps the tables steady.
pub proof fn lemma_single_step_steady(
    modules: ModuleRegistryView,
    table: Seq<Seq<char>>,
    symbols: GlobalSymbolRegistryView,
    redirect: RedirectView,
    names: Seq<Symbol>,
)
    requires
        symbols.wf(),
        names_closed(symbols.non_module_symbols, names),
    ensures
        steady(symbols, single_step(modules, table, symbols, redirect).symbols, names),
{
    lemma_steady_same(symbols, names);
    let target = target_of(modules, symbols, table, redirect.module, redirect.prefix);
    match target.resolution {
        TargetResolution::Found(target_module) => match redirect.target {
            RedirectTarget::Single(single) => {
                lemma_found_declared(
                    symbols,
                    target_module.spec_id(),
                    single.identifier.symbol,
                    names,
                );
                match symbols.get_any_symbol(target_module.spec_id(), single.identifier.symbol) {
                    Some(found) => {
                        let symbol = imported_symbol(redirect, single, found);
                        lemma_register_steady(symbols, symbol.identifier.symbol, symbol, names);
                    },
                    None => {},
                }
            },
            RedirectTarget::Glob => {},
        },
        _ => {},
    }
}

/// Resolving the imports of one module by name keeps the tables steady.
pub proof fn lemma_single_group_steady(
    modules: ModuleRegistryView,
    table: Seq<Seq<char>>,
    state: Sweep,
    redirects: Seq<RedirectView>,
    from: int,
    names: Seq<Symbol>,
)
    requires
        state.symbols.wf(),
        names_closed(state.symbols.non_module_symbols, names),
        0 <= from,
    ensures
        steady(state.symbols, single_group(modules, table, state, redirects, from).symbols, names),
    decreases redirects.len() - from,
{
    if from < redirects.len() {
        let next = after_step(state, single_step(modules, table, state.symbols, redirects[from]));
        lemma_single_step_steady(modules, table, state.symbols, redirects[from], names);
        lemma_single_group_steady(modules, table, next, redirects, from + 1, names);
        lemma_steady_chain(
            state.symbols,
            next.symbols,
            single_group(modules, table, next, redirects, from + 1).symbols,
            names,
        );
    } else {
        lemma_steady_same(state.symbols, names);
    }
}

/// A pass that resolves imports by name keeps the tables steady and the
/// groups and their modules.
pub proof fn lemma_single_sweep_steady(
    modules: ModuleRegistryView,
    table: Seq<Seq<char>>,
    state: Resolution,
    from: int,
    names: Seq<Symbol>,
)
    requires
        state.symbols.wf(),
        names_closed(state.symbols.non_module_symbols, names),
        0 <= from <= state.groups.len(),
    ensures
        ({
            let after = single_sweep(modules, table, state, from);
            &&& steady(state.symbols, after.symbols, names)
            &&& after.groups.len() == state.groups.len()
            &&& importers(modules, after.groups) == importers(modules, state.groups)
        }),
    decreases state.groups.len() - from,
{
    if from < state.groups.len() {
        let sweep = single_group(
            modules,
            table,
            before_group(state),
            state.groups[from].redirects,
            0,
        );
        lemma_single_group_steady(
            modules,
            table,
            before_group(state),
            state.groups[from].redirects,
            0,
            names,
        );
        let next = after_group(state, from, sweep);
        lemma_single_sweep_steady(modules, table, next, from + 1, names);
        lemma_steady_chain(
            state.symbols,
            next.symbols,
            single_sweep(modules, table, next, from + 1).symbols,
            names,
        );
        assert(importers(modules, next.groups) =~= importers(modules, state.groups));
    } else {
        lemma_steady_same(state.symbols, names);
    }
}

/// The passes that resolve imports by name keep the tables steady and the
/// groups and their modules. They leave no more imports pending than there
/// were, and fewer if they bound a name.
pub proof fn lemma_single_only_progress(
    modules: ModuleRegistryView,
    table: Seq<Seq<char>>,
    state: Resolution,
    fuel: nat,
    names: Seq<Symbol>,
)
    requires
        state.symbols.wf(),
        names_closed(state.symbols.non_module_symbols, names),
    ensures
        ({
            let after = single_only(modules, table, state, fuel);
            &&& steady(state.symbols, after.symbols, names)
            &&& after.groups.len() == state.groups.len()
            &&& importers(modules, after.groups) == importers(modules, state.groups)
            &&& pending_count(after.groups, 0) <= pending_count(state.groups, 0)
            &&& after.changed ==> pending_count(after.groups, 0) < pending_count(state.groups, 0)
        }),
    decreases fuel,
{
    let cleared = Resolution { changed: false, ..state };
    let swept = single_sweep(modules, table, cleared, 0);
    lemma_single_sweep_steady(modules, table, cleared, 0, names);
    lemma_single_sweep_total(modules, table, cleared);
    if !swept.changed || fuel == 0 {
    } else {
        lemma_single_only_progress(modules, table, swept, (fuel - 1) as nat, names);
        lemma_steady_chain(
            state.symbols,
            swept.symbols,
            single_only(modules, table, swept, (fuel - 1) as nat).symbols,
            names,
        );
    }
}

/// The glob passes keep the tables steady and the groups and their
/// modules, and leave no more imports pending than there were. If they
/// bound a name, they filled a slot.
pub proof fn lemma_glob_only_progress(
    modules: ModuleRegistryView,
    table: Seq<Seq<char>>,
    state: Resolution,
    fuel: nat,
    names: Seq<Symbol>,
)
    requires
        state.symbols.wf(),
        names_closed(state.symbols.non_module_symbols, names),
    ensures
        ({
            let after = glob_only(modules, table, state, fuel);
            let slots = importers(modules, state.groups);
            &&& steady(state.symbols, after.symbols, names)
            &&& after.groups.len() == state.groups.len()
            &&& importers(modules, after.groups) == slots
            &&& pending_count(after.groups, 0) <= pending_count(state.groups, 0)
            &&& free_slots(after.symbols.non_module_symbols, slots, names, slots.len() as int)
                <= free_slots(state.symbols.non_module_symbols, slots, names, slots.len() as int)
            &&& after.changed ==> free_slots(
                after.symbols.non_module_symbols,
                slots,
                names,
                slots.len() as int,
            ) < free_slots(state.symbols.non_module_symbols, slots, names, slots.len() as int)
        }),
    decreases fuel,
{
    let cleared = Resolution { changed: false, ..state };
    let swept = glob_sweep(modules, table, cleared, 0);
    let slots = importers(modules, state.groups);
    lemma_glob_sweep_progress(modules, table, cleared, 0, names);
    lemma_pending_count_shrinks(state.groups, swept.groups, 0);
    lemma_free_slots_shrink(
        state.symbols.non_module_symbols,
        swept.symbols.non_module_symbols,
        slots,
        names,
        slots.len() as int,
    );
    if !swept.changed || fuel == 0 {
    } else {
        lemma_glob_only_progress(modules, table, swept, (fuel - 1) as nat, names);
        let after = glob_only(modules, table, swept, (fuel - 1) as nat);
        lemma_steady_chain(state.symbols, swept.symbols, after.symbols, names);
    }
}

} // verus!
