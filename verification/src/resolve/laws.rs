//! What holds of name resolution whatever the program.

use vstd::prelude::*;
use std::sync::Arc;
use crate::diagnostic::message::DiagnosticsView;
use crate::parse::ast::node_id::NodeId;
use crate::resolve::global_symbol_registry::{
    binds, duplicated_symbol_diagnostic, find_entry, lookup, register_entries, register_outcome,
    GlobalSymbol, GlobalSymbolEntry, GlobalSymbolRegistryView, Registered, SymbolLevel,
};
use crate::resolve::module::Module;
use crate::resolve::module_registry::ModuleRegistryView;
use crate::resolve::redirect::{RedirectSingleTarget, RedirectTarget, RedirectView};
use crate::resolve::redirect_single::{
    imported_symbol, single_step, symbol_not_visible_diagnostic,
};
use crate::resolve::redirect_target::{target_of, TargetResolution};
use crate::resolve::seq_search::{
    first_index, is_first, lemma_first_index, lemma_first_index_is, lemma_first_index_none,
};
use crate::resolve::visibility::Visibility;
use crate::symbol::name::Symbol;

verus! {

/// After a symbol is registered under a name, the name is bound: to the
/// symbol if it was inserted or took the place of another, and to what it
/// was bound to before otherwise.
pub proof fn lemma_lookup_registered(
    entries: Seq<GlobalSymbolEntry>,
    name: Symbol,
    symbol: GlobalSymbol,
)
    ensures
        lookup(register_entries(entries, name, symbol), symbol.module.spec_id(), name) == (
        match register_outcome(entries, name, symbol) {
            Registered::Inserted => Some(symbol),
            Registered::Replaced => Some(symbol),
            Registered::Ignored => lookup(entries, symbol.module.spec_id(), name),
            Registered::Conflict => lookup(entries, symbol.module.spec_id(), name),
        }),
        lookup(register_entries(entries, name, symbol), symbol.module.spec_id(), name).is_some(),
{
    let module = symbol.module.spec_id();
    let after = register_entries(entries, name, symbol);
    lemma_first_index(entries, binds(module, name));
    match find_entry(entries, module, name) {
        None => {
            lemma_first_index_is(after, binds(module, name), entries.len() as int);
        },
        Some(i) => {
            lemma_first_index_is(after, binds(module, name), i);
        },
    }
}

/// Registering a symbol under a name leaves every other name, and the
/// names of every other module, bound as they were.
pub proof fn lemma_lookup_elsewhere(
    entries: Seq<GlobalSymbolEntry>,
    name: Symbol,
    symbol: GlobalSymbol,
    module: NodeId,
    other: Symbol,
)
    requires
        module != symbol.module.spec_id() || other != name,
    ensures
        lookup(register_entries(entries, name, symbol), module, other) == lookup(
            entries,
            module,
            other,
        ),
{
    let after = register_entries(entries, name, symbol);
    lemma_first_index(entries, binds(symbol.module.spec_id(), name));
    lemma_first_index(entries, binds(module, other));
    match first_index(entries, binds(module, other)) {
        Some(i) => {
            assert(is_first(after, binds(module, other), i)) by {
                assert forall|j: int| 0 <= j < i implies !binds(module, other)(
                    #[trigger] after[j],
                ) by {
                    assert(!binds(module, other)(entries[j]));
                }
            }
            lemma_first_index_is(after, binds(module, other), i);
        },
        None => {
            assert forall|j: int| 0 <= j < after.len() implies !binds(module, other)(
                #[trigger] after[j],
            ) by {
                if j < entries.len() {
                    assert(!binds(module, other)(entries[j]));
                }
            }
            lemma_first_index_none(after, binds(module, other));
        },
    }
}

/// Priority. Let a glob binding and an explicit binding of one name be
/// registered in one module, in either order. Then the name is bound alike
/// after both orders, and at level `Explicit`: to the explicit binding that
/// it had before, if it had one, and to the new explicit binding otherwise.
pub proof fn lemma_explicit_beats_glob(
    tables: GlobalSymbolRegistryView,
    name: Symbol,
    glob: GlobalSymbol,
    explicit: GlobalSymbol,
)
    requires
        glob.level == SymbolLevel::Glob,
        explicit.level == SymbolLevel::Explicit,
        glob.module.spec_id() == explicit.module.spec_id(),
        glob.kind.spec_is_module() == explicit.kind.spec_is_module(),
    ensures
        ({
            let module = explicit.module.spec_id();
            let before = lookup(tables.table_for(explicit), module, name);
            let glob_first = lookup(
                tables.register(name, glob).register(name, explicit).table_for(explicit),
                module,
                name,
            );
            let explicit_first = lookup(
                tables.register(name, explicit).register(name, glob).table_for(explicit),
                module,
                name,
            );
            &&& glob_first == explicit_first
            &&& glob_first == (match before {
                Some(previous) => if previous.level == SymbolLevel::Explicit {
                    Some(previous)
                } else {
                    Some(explicit)
                },
                None => Some(explicit),
            })
            &&& glob_first.is_some() && glob_first->0.level == SymbolLevel::Explicit
        }),
{
    let entries = tables.table_for(explicit);
    assert(tables.table_for(glob) == entries);
    let with_glob = register_entries(entries, name, glob);
    let with_explicit = register_entries(entries, name, explicit);
    lemma_lookup_registered(entries, name, glob);
    lemma_lookup_registered(entries, name, explicit);
    lemma_lookup_registered(with_glob, name, explicit);
    lemma_lookup_registered(with_explicit, name, glob);
    assert(tables.register(name, glob).table_for(explicit) == with_glob);
    assert(tables.register(name, explicit).table_for(glob) == with_explicit);
    assert(tables.register(name, glob).register(name, explicit).table_for(explicit)
        == register_entries(with_glob, name, explicit));
    assert(tables.register(name, explicit).register(name, glob).table_for(explicit)
        == register_entries(with_explicit, name, glob));
    lemma_first_index(entries, binds(explicit.module.spec_id(), name));
    lemma_first_index(with_glob, binds(explicit.module.spec_id(), name));
    lemma_first_index(with_explicit, binds(explicit.module.spec_id(), name));
}

/// Duplicates. Let two bindings of one level be registered under one free
/// name of one module. Then the first is bound without a word, and the
/// second changes nothing and is reported by exactly one error, which
/// points at the second and, in its hint, at the first.
pub proof fn lemma_duplicate_is_one_error(
    tables: GlobalSymbolRegistryView,
    table: Seq<Seq<char>>,
    first: GlobalSymbol,
    second: GlobalSymbol,
)
    requires
        first.level == second.level,
        first.module.spec_id() == second.module.spec_id(),
        first.kind.spec_is_module() == second.kind.spec_is_module(),
        first.identifier.symbol == second.identifier.symbol,
        lookup(tables.table_for(first), first.module.spec_id(), first.identifier.symbol).is_none(),
    ensures
        ({
            let name = first.identifier.symbol;
            let once = tables.register(name, first);
            &&& tables.register_log(table, first.identifier, first) == Seq::<
                DiagnosticsView,
            >::empty()
            &&& tables.adds(name, first)
            &&& once.register(name, second) == once
            &&& !once.adds(name, second)
            &&& once.register_log(table, second.identifier, second) == seq![
                duplicated_symbol_diagnostic(table, second.identifier, second, first),
            ]
            &&& tables.register_all_log(table, seq![first, second], 2) == seq![
                duplicated_symbol_diagnostic(table, second.identifier, second, first),
            ]
        }),
{
    let name = first.identifier.symbol;
    let entries = tables.table_for(first);
    lemma_lookup_registered(entries, name, first);
    let once = tables.register(name, first);
    assert(once.table_for(second) == register_entries(entries, name, first));
    let pair = seq![first, second];
    assert(tables.register_all(pair, 0) == tables);
    assert(tables.register_all(pair, 1) == once);
    assert(tables.register_all_log(table, pair, 0) == Seq::<DiagnosticsView>::empty());
    assert(tables.register_all_log(table, pair, 1) =~= Seq::<DiagnosticsView>::empty());
    assert(tables.register_all_log(table, pair, 2) =~= once.register_log(
        table,
        second.identifier,
        second,
    ));
}

/// The visibility boundary. Let a by-name import reach its target module,
/// and let the module bind the wanted name to a private symbol. Either way
/// the import leaves, so it is judged once. From another file the symbol
/// stays unbound and exactly one error is added to what the prefix
/// reported. From the same file the symbol is registered in the importing
/// module, and no error of visibility is reported.
pub proof fn lemma_visibility_boundary(
    modules: ModuleRegistryView,
    table: Seq<Seq<char>>,
    symbols: GlobalSymbolRegistryView,
    redirect: RedirectView,
    single: RedirectSingleTarget,
    target: Arc<Module>,
    found: GlobalSymbol,
)
    requires
        redirect.target == RedirectTarget::Single(single),
        target_of(modules, symbols, table, redirect.module, redirect.prefix).resolution
            == TargetResolution::Found(target),
        symbols.get_any_symbol(target.spec_id(), single.identifier.symbol) == Some(found),
        found.visibility == Visibility::Private,
    ensures
        ({
            let step = single_step(modules, table, symbols, redirect);
            let prefix_log = target_of(
                modules,
                symbols,
                table,
                redirect.module,
                redirect.prefix,
            ).log;
            let imported = imported_symbol(redirect, single, found);
            &&& step.keep.is_none()
            &&& !redirect.module.spec_same_file(&found.module) ==> {
                &&& step.symbols == symbols
                &&& !step.added
                &&& step.log == prefix_log.push(
                    symbol_not_visible_diagnostic(table, redirect.module, found),
                )
            }
            &&& redirect.module.spec_same_file(&found.module) ==> {
                &&& step.symbols == symbols.register(imported.identifier.symbol, imported)
                &&& step.log == prefix_log + symbols.register_log(
                    table,
                    imported.identifier,
                    imported,
                )
                &&& step.symbols.table_for(imported) == register_entries(
                    symbols.table_for(imported),
                    imported.identifier.symbol,
                    imported,
                )
                &&& lookup(
                    step.symbols.table_for(imported),
                    redirect.module.spec_id(),
                    imported.identifier.symbol,
                ).is_some()
            }
        }),
{
    let imported = imported_symbol(redirect, single, found);
    lemma_lookup_registered(symbols.table_for(imported), imported.identifier.symbol, imported);
}

} // verus!
