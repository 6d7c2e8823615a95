//! What a glob pass does to the names of one importing module.

use vstd::prelude::*;
use std::sync::Arc;
use crate::diagnostic::message::DiagnosticsView;
use crate::parse::ast::node_id::NodeId;
use crate::resolve::global_symbol_registry::{
    binds, entries_of, lemma_register_wf, register_entries, GlobalSymbol, GlobalSymbolEntry,
    GlobalSymbolRegistryView,
};
use crate::resolve::laws::{lemma_lookup_elsewhere, lemma_lookup_registered};
use crate::resolve::module::Module;
use crate::resolve::redirect::GlobRedirect;
use crate::resolve::redirect_glob::{
    bound_names, glob_blocklist, glob_candidates, glob_import, glob_imports, glob_offer,
    glob_symbol, occurrences, offered_name, offered_names, offers, supplied_names, Bound,
    GlobBlocklistView,
};
use crate::resolve::redirect_measure::lemma_entries_of_in_table;
use crate::resolve::seq_search::{first_index, lemma_first_index};
use crate::resolve::visibility::Visibility;
use crate::symbol::name::Symbol;

verus! {

/// Whether a glob import into `importer` binds the symbol of `row`: the
/// row offers it, and the name is not blocked.
pub open spec fn taken(importer: Arc<Module>, blocklist: GlobBlocklistView, row: GlobalSymbolEntry) -> bool {
    offers(importer, row) && !blocklist.blocks(offered_name(row))
}

/// The binding of `name` that a glob import takes from the first `upto`
/// of `rows`.
pub open spec fn picked_in_rows(
    rows: Seq<GlobalSymbolEntry>,
    importer: Arc<Module>,
    visibility: Visibility,
    blocklist: GlobBlocklistView,
    name: Symbol,
    upto: int,
) -> Option<GlobalSymbol>
    decreases upto,
{
    if upto <= 0 {
        None
    } else if taken(importer, blocklist, rows[upto - 1]) && offered_name(rows[upto - 1]) == name {
        Some(glob_symbol(importer, visibility, rows[upto - 1].symbol))
    } else {
        picked_in_rows(rows, importer, visibility, blocklist, name, upto - 1)
    }
}

/// The binding of `name` that the first `upto` of `globs` take from their
/// target modules, as `tables` hold them.
pub open spec fn picked(
    tables: GlobalSymbolRegistryView,
    importer: Arc<Module>,
    blocklist: GlobBlocklistView,
    globs: Seq<GlobRedirect>,
    name: Symbol,
    upto: int,
) -> Option<GlobalSymbol>
    decreases upto,
{
    if upto <= 0 {
        None
    } else {
        match picked_in_rows(
            tables.non_module_entries_of(globs[upto - 1].target_module.spec_id()),
            importer,
            globs[upto - 1].visibility,
            blocklist,
            name,
            tables.non_module_entries_of(globs[upto - 1].target_module.spec_id()).len() as int,
        ) {
            Some(symbol) => Some(symbol),
            None => picked(tables, importer, blocklist, globs, name, upto - 1),
        }
    }
}

/// How often the first `upto` of `rows` offer `name` to `importer`.
pub open spec fn offer_count(
    rows: Seq<GlobalSymbolEntry>,
    importer: Arc<Module>,
    name: Symbol,
    upto: int,
) -> nat {
    occurrences(
        offered_names(rows, importer, upto),
        name,
        offered_names(rows, importer, upto).len() as int,
    )
}

/// How often the first `upto` of `globs` offer `name` to `importer`.
pub open spec fn supply_count(
    tables: GlobalSymbolRegistryView,
    importer: Arc<Module>,
    globs: Seq<GlobRedirect>,
    name: Symbol,
    upto: int,
) -> nat {
    occurrences(
        supplied_names(tables, importer, globs, upto),
        name,
        supplied_names(tables, importer, globs, upto).len() as int,
    )
}

/// Occurrences among the first `upto` names depend on those names alone.
pub proof fn lemma_occurrences_prefix(a: Seq<Symbol>, b: Seq<Symbol>, name: Symbol, upto: int)
    requires
        upto <= a.len(),
        upto <= b.len(),
        forall|i: int| 0 <= i < upto ==> a[i] == b[i],
    ensures
        occurrences(a, name, upto) == occurrences(b, name, upto),
    decreases upto,
{
    if upto > 0 {
        lemma_occurrences_prefix(a, b, name, upto - 1);
    }
}

/// Occurrences in two lists, one after the other, add up.
pub proof fn lemma_occurrences_add(a: Seq<Symbol>, b: Seq<Symbol>, name: Symbol, upto: int)
    requires
        0 <= upto <= b.len(),
    ensures
        occurrences(a + b, name, a.len() + upto) == occurrences(a, name, a.len() as int)
            + occurrences(b, name, upto),
    decreases upto,
{
    if upto > 0 {
        lemma_occurrences_add(a, b, name, upto - 1);
        assert((a + b)[a.len() + upto - 1] == b[upto - 1]);
    } else {
        lemma_occurrences_prefix(a + b, a, name, a.len() as int);
    }
}

/// One more row offers its name once more, if it offers it at all.
pub proof fn lemma_offer_count_step(
    rows: Seq<GlobalSymbolEntry>,
    importer: Arc<Module>,
    name: Symbol,
    upto: int,
)
    requires
        0 < upto,
    ensures
        offer_count(rows, importer, name, upto) == offer_count(rows, importer, name, upto - 1) + (
        if offers(importer, rows[upto - 1]) && offered_name(rows[upto - 1]) == name {
            1nat
        } else {
            0nat
        }),
{
    let before = offered_names(rows, importer, upto - 1);
    if offers(importer, rows[upto - 1]) {
        let all = before.push(offered_name(rows[upto - 1]));
        lemma_occurrences_prefix(all, before, name, before.len() as int);
    }
}

/// More rows offer a name no less often.
pub proof fn lemma_offer_count_grows(
    rows: Seq<GlobalSymbolEntry>,
    importer: Arc<Module>,
    name: Symbol,
    a: int,
    b: int,
)
    requires
        0 <= a <= b,
    ensures
        offer_count(rows, importer, name, a) <= offer_count(rows, importer, name, b),
    decreases b - a,
{
    if a < b {
        lemma_offer_count_grows(rows, importer, name, a, b - 1);
        lemma_offer_count_step(rows, importer, name, b);
    }
}

/// A row that offers `name` is counted.
pub proof fn lemma_offer_counted(
    rows: Seq<GlobalSymbolEntry>,
    importer: Arc<Module>,
    name: Symbol,
    at: int,
    upto: int,
)
    requires
        0 <= at < upto,
        offers(importer, rows[at]),
        offered_name(rows[at]) == name,
    ensures
        offer_count(rows, importer, name, upto) >= offer_count(rows, importer, name, at) + 1,
{
    lemma_offer_count_step(rows, importer, name, at + 1);
    lemma_offer_count_grows(rows, importer, name, at + 1, upto);
}

/// A name that is taken from rows is offered by them.
pub proof fn lemma_picked_is_offered(
    rows: Seq<GlobalSymbolEntry>,
    importer: Arc<Module>,
    visibility: Visibility,
    blocklist: GlobBlocklistView,
    name: Symbol,
    upto: int,
)
    requires
        0 <= upto,
    ensures
        picked_in_rows(rows, importer, visibility, blocklist, name, upto).is_some()
            ==> offer_count(rows, importer, name, upto) >= 1,
    decreases upto,
{
    if upto > 0 {
        lemma_offer_count_step(rows, importer, name, upto);
        lemma_picked_is_offered(rows, importer, visibility, blocklist, name, upto - 1);
    }
}

/// One more glob import supplies what its target module offers.
pub proof fn lemma_supply_count_step(
    tables: GlobalSymbolRegistryView,
    importer: Arc<Module>,
    globs: Seq<GlobRedirect>,
    name: Symbol,
    upto: int,
)
    requires
        0 < upto,
    ensures
        supply_count(tables, importer, globs, name, upto) == supply_count(
            tables,
            importer,
            globs,
            name,
            upto - 1,
        ) + offer_count(
            tables.non_module_entries_of(globs[upto - 1].target_module.spec_id()),
            importer,
            name,
            tables.non_module_entries_of(globs[upto - 1].target_module.spec_id()).len() as int,
        ),
{
    let before = supplied_names(tables, importer, globs, upto - 1);
    let offer = glob_offer(tables, importer, globs[upto - 1]);
    lemma_occurrences_add(before, offer, name, offer.len() as int);
}

/// More glob imports supply a name no less often.
pub proof fn lemma_supply_count_grows(
    tables: GlobalSymbolRegistryView,
    importer: Arc<Module>,
    globs: Seq<GlobRedirect>,
    name: Symbol,
    a: int,
    b: int,
)
    requires
        0 <= a <= b,
    ensures
        supply_count(tables, importer, globs, name, a) <= supply_count(
            tables,
            importer,
            globs,
            name,
            b,
        ),
    decreases b - a,
{
    if a < b {
        lemma_supply_count_grows(tables, importer, globs, name, a, b - 1);
        lemma_supply_count_step(tables, importer, globs, name, b);
    }
}

/// A name that glob imports take is supplied by them.
pub proof fn lemma_picked_is_supplied(
    tables: GlobalSymbolRegistryView,
    importer: Arc<Module>,
    blocklist: GlobBlocklistView,
    globs: Seq<GlobRedirect>,
    name: Symbol,
    upto: int,
)
    requires
        0 <= upto,
    ensures
        picked(tables, importer, blocklist, globs, name, upto).is_some() ==> supply_count(
            tables,
            importer,
            globs,
            name,
            upto,
        ) >= 1,
    decreases upto,
{
    if upto > 0 {
        let rows = tables.non_module_entries_of(globs[upto - 1].target_module.spec_id());
        lemma_supply_count_step(tables, importer, globs, name, upto);
        lemma_picked_is_offered(
            rows,
            importer,
            globs[upto - 1].visibility,
            blocklist,
            name,
            rows.len() as int,
        );
        lemma_picked_is_supplied(tables, importer, blocklist, globs, name, upto - 1);
    }
}

/// Collision. A name that two glob imports of one pass both offer, or that
/// one offers twice, is blocked.
pub proof fn lemma_collision_is_blocked(
    tables: GlobalSymbolRegistryView,
    importer: Arc<Module>,
    globs: Seq<GlobRedirect>,
    name: Symbol,
    first: int,
    first_row: int,
    second: int,
    second_row: int,
)
    requires
        0 <= first <= second < globs.len(),
        first < second || first_row < second_row,
        0 <= first_row < tables.non_module_entries_of(globs[first].target_module.spec_id()).len(),
        0 <= second_row < tables.non_module_entries_of(
            globs[second].target_module.spec_id(),
        ).len(),
        offers(
            importer,
            tables.non_module_entries_of(globs[first].target_module.spec_id())[first_row],
        ),
        offers(
            importer,
            tables.non_module_entries_of(globs[second].target_module.spec_id())[second_row],
        ),
        offered_name(
            tables.non_module_entries_of(globs[first].target_module.spec_id())[first_row],
        ) == name,
        offered_name(
            tables.non_module_entries_of(globs[second].target_module.spec_id())[second_row],
        ) == name,
    ensures
        glob_blocklist(tables, importer, globs).blocks(name),
{
    let rows1 = tables.non_module_entries_of(globs[first].target_module.spec_id());
    let rows2 = tables.non_module_entries_of(globs[second].target_module.spec_id());
    lemma_offer_counted(rows2, importer, name, second_row, rows2.len() as int);
    lemma_supply_count_step(tables, importer, globs, name, second + 1);
    lemma_supply_count_grows(tables, importer, globs, name, second + 1, globs.len() as int);
    if first < second {
        lemma_offer_counted(rows1, importer, name, first_row, rows1.len() as int);
        lemma_supply_count_step(tables, importer, globs, name, first + 1);
        lemma_supply_count_grows(tables, importer, globs, name, first + 1, second);
    } else {
        lemma_offer_counted(rows2, importer, name, first_row, second_row);
    }
}

/// Every row of the module `module` among the first `upto` rows of a
/// table is one of the rows of the module.
pub proof fn lemma_entries_of_complete(
    entries: Seq<GlobalSymbolEntry>,
    module: NodeId,
    upto: int,
    at: int,
)
    requires
        0 <= at < upto <= entries.len(),
        entries[at].module == module,
    ensures
        exists|p: int|
            0 <= p < entries_of(entries, module, upto).len() && #[trigger] entries_of(
                entries,
                module,
                upto,
            )[p] == entries[at],
    decreases upto,
{
    if at == upto - 1 {
        let p = entries_of(entries, module, upto - 1).len() as int;
        assert(entries_of(entries, module, upto)[p] == entries[at]);
    } else {
        lemma_entries_of_complete(entries, module, upto - 1, at);
        let before = entries_of(entries, module, upto - 1);
        let p = choose|p: int| 0 <= p < before.len() && #[trigger] before[p] == entries[at];
        assert(entries_of(entries, module, upto)[p] == entries[at]);
    }
}

/// A name that is not blocked is not bound in the importing module.
pub proof fn lemma_unblocked_is_unbound(
    tables: GlobalSymbolRegistryView,
    importer: Arc<Module>,
    globs: Seq<GlobRedirect>,
    name: Symbol,
)
    requires
        !glob_blocklist(tables, importer, globs).blocks(name),
    ensures
        tables.get_non_module_symbol(importer.spec_id(), name).is_none(),
{
    let entries = tables.non_module_symbols;
    lemma_first_index(entries, binds(importer.spec_id(), name));
    match first_index(entries, binds(importer.spec_id(), name)) {
        Some(i) => {
            lemma_entries_of_complete(entries, importer.spec_id(), entries.len() as int, i);
            let rows = tables.non_module_entries_of(importer.spec_id());
            let p = choose|p: int| 0 <= p < rows.len() && #[trigger] rows[p] == entries[i];
            let all = tables.any_entries_of(importer.spec_id());
            let q = tables.module_entries_of(importer.spec_id()).len() + p;
            assert(all[q] == entries[i]);
            assert(bound_names(all)[q] == name);
        },
        None => {},
    }
}

/// Registering a symbol leaves the rows of every other module as they are.
pub proof fn lemma_register_keeps_rows(
    entries: Seq<GlobalSymbolEntry>,
    name: Symbol,
    symbol: GlobalSymbol,
    module: NodeId,
    upto: int,
)
    requires
        module != symbol.module.spec_id(),
        0 <= upto <= entries.len(),
    ensures
        entries_of(register_entries(entries, name, symbol), module, upto) == entries_of(
            entries,
            module,
            upto,
        ),
    decreases upto,
{
    let after = register_entries(entries, name, symbol);
    lemma_first_index(entries, binds(symbol.module.spec_id(), name));
    if upto > 0 {
        lemma_register_keeps_rows(entries, name, symbol, module, upto - 1);
        if after[upto - 1] != entries[upto - 1] {
            assert(after[upto - 1].module == symbol.module.spec_id());
            assert(entries[upto - 1].module == symbol.module.spec_id());
        }
    }
}

/// Registering a symbol leaves all rows of every other module as they are.
pub proof fn lemma_register_keeps_module(
    tables: GlobalSymbolRegistryView,
    name: Symbol,
    symbol: GlobalSymbol,
    module: NodeId,
)
    requires
        module != symbol.module.spec_id(),
    ensures
        tables.register(name, symbol).non_module_entries_of(module)
            == tables.non_module_entries_of(module),
{
    if !symbol.kind.spec_is_module() {
        let entries = tables.non_module_symbols;
        let after = register_entries(entries, name, symbol);
        lemma_first_index(entries, binds(symbol.module.spec_id(), name));
        lemma_register_keeps_rows(entries, name, symbol, module, entries.len() as int);
        if after.len() > entries.len() {
            assert(after[entries.len() as int].module == symbol.module.spec_id());
        }
    }
}

/// The bindings of more rows are those of fewer rows, with that of the
/// last row added if it is taken.
pub proof fn lemma_register_all_prefix(
    tables: GlobalSymbolRegistryView,
    table: Seq<Seq<char>>,
    a: Seq<GlobalSymbol>,
    b: Seq<GlobalSymbol>,
    upto: int,
)
    requires
        upto <= a.len(),
        upto <= b.len(),
        forall|i: int| 0 <= i < upto ==> a[i] == b[i],
    ensures
        tables.register_all(a, upto) == tables.register_all(b, upto),
        tables.register_all_log(table, a, upto) == tables.register_all_log(table, b, upto),
        tables.register_all_adds(a, upto) == tables.register_all_adds(b, upto),
    decreases upto,
{
    if upto > 0 {
        lemma_register_all_prefix(tables, table, a, b, upto - 1);
    }
}

/// What the bindings of a glob import do, row by row. Let the importing
/// module bind none of the names that the rows offer unblocked, but for
/// those taken from earlier rows, and let no name be taken from two rows.
/// Then every binding is made without a word, each name that is taken is
/// bound to what was taken, every other name of the module is bound as it
/// was, and the rows of all other modules are as they were.
pub proof fn lemma_glob_rows(
    tables: GlobalSymbolRegistryView,
    table: Seq<Seq<char>>,
    rows: Seq<GlobalSymbolEntry>,
    importer: Arc<Module>,
    visibility: Visibility,
    blocklist: GlobBlocklistView,
    upto: int,
)
    requires
        tables.wf(),
        0 <= upto <= rows.len(),
        forall|i: int| 0 <= i < rows.len() ==> !(#[trigger] rows[i]).symbol.kind.spec_is_module(),
        forall|i: int|
            0 <= i < rows.len() && taken(importer, blocklist, #[trigger] rows[i])
                ==> tables.get_non_module_symbol(importer.spec_id(), offered_name(rows[i])).is_none()
                && offer_count(rows, importer, offered_name(rows[i]), rows.len() as int) <= 1,
    ensures
        ({
            let bindings = glob_candidates(rows, importer, visibility, blocklist, upto);
            let after = tables.register_all(bindings, bindings.len() as int);
            &&& after.wf()
            &&& after.module_symbols == tables.module_symbols
            &&& tables.register_all_log(table, bindings, bindings.len() as int) == Seq::<
                DiagnosticsView,
            >::empty()
            &&& forall|name: Symbol| #[trigger]
                after.get_non_module_symbol(importer.spec_id(), name) == (match picked_in_rows(
                    rows,
                    importer,
                    visibility,
                    blocklist,
                    name,
                    upto,
                ) {
                    Some(symbol) => Some(symbol),
                    None => tables.get_non_module_symbol(importer.spec_id(), name),
                })
            &&& forall|module: NodeId|
                module != importer.spec_id() ==> #[trigger] after.non_module_entries_of(module)
                    == tables.non_module_entries_of(module)
        }),
    decreases upto,
{
    let bindings = glob_candidates(rows, importer, visibility, blocklist, upto);
    if upto > 0 {
        lemma_glob_rows(tables, table, rows, importer, visibility, blocklist, upto - 1);
        let fewer = glob_candidates(rows, importer, visibility, blocklist, upto - 1);
        let before = tables.register_all(fewer, fewer.len() as int);
        let row = rows[upto - 1];
        if taken(importer, blocklist, row) {
            let symbol = glob_symbol(importer, visibility, row.symbol);
            let name = offered_name(row);
            assert(bindings == fewer.push(symbol));
            lemma_register_all_prefix(tables, table, bindings, fewer, fewer.len() as int);
            let after = before.register(name, symbol);
            assert(tables.register_all(bindings, bindings.len() as int) == after);
            // the name is free when its turn comes
            lemma_picked_is_offered(rows, importer, visibility, blocklist, name, upto - 1);
            lemma_offer_counted(rows, importer, name, upto - 1, rows.len() as int);
            assert(picked_in_rows(rows, importer, visibility, blocklist, name, upto - 1).is_none());
            assert(before.get_non_module_symbol(importer.spec_id(), name).is_none());
            lemma_register_wf(before, name, symbol);
            lemma_lookup_registered(before.non_module_symbols, name, symbol);
            lemma_first_index(before.non_module_symbols, binds(importer.spec_id(), name));
            assert(before.register_log(table, symbol.identifier, symbol) =~= Seq::<
                DiagnosticsView,
            >::empty());
            assert(tables.register_all_log(table, bindings, bindings.len() as int) =~= Seq::<
                DiagnosticsView,
            >::empty());
            assert forall|other: Symbol| #[trigger]
                after.get_non_module_symbol(importer.spec_id(), other) == (match picked_in_rows(
                    rows,
                    importer,
                    visibility,
                    blocklist,
                    other,
                    upto,
                ) {
                    Some(picked) => Some(picked),
                    None => tables.get_non_module_symbol(importer.spec_id(), other),
                }) by {
                if other != name {
                    lemma_lookup_elsewhere(
                        before.non_module_symbols,
                        name,
                        symbol,
                        importer.spec_id(),
                        other,
                    );
                    assert(before.get_non_module_symbol(importer.spec_id(), other) == (
                    match picked_in_rows(rows, importer, visibility, blocklist, other, upto - 1) {
                        Some(picked) => Some(picked),
                        None => tables.get_non_module_symbol(importer.spec_id(), other),
                    }));
                }
            }
            assert forall|module: NodeId| module != importer.spec_id() implies #[trigger]
                after.non_module_entries_of(module) == tables.non_module_entries_of(module) by {
                lemma_register_keeps_module(before, name, symbol, module);
                assert(before.non_module_entries_of(module) == tables.non_module_entries_of(module));
            }
        } else {
            assert(bindings == fewer);
            assert forall|other: Symbol| #[trigger]
                before.get_non_module_symbol(importer.spec_id(), other) == (match picked_in_rows(
                    rows,
                    importer,
                    visibility,
                    blocklist,
                    other,
                    upto,
                ) {
                    Some(picked) => Some(picked),
                    None => tables.get_non_module_symbol(importer.spec_id(), other),
                }) by {
                assert(before.get_non_module_symbol(importer.spec_id(), other) == (
                match picked_in_rows(rows, importer, visibility, blocklist, other, upto - 1) {
                    Some(picked) => Some(picked),
                    None => tables.get_non_module_symbol(importer.spec_id(), other),
                }));
            }
        }
    } else {
        assert(bindings.len() == 0);
    }
}

/// No glob import of the list takes from the importing module itself.
pub open spec fn no_self_glob(importer: Arc<Module>, globs: Seq<GlobRedirect>) -> bool {
    forall|i: int|
        0 <= i < globs.len() ==> (#[trigger] globs[i]).target_module.spec_id()
            != importer.spec_id()
}

/// What the tables `now` hold after the first `done` glob imports made
/// their bindings in the tables `start`: the module symbols and the rows of
/// all other modules as they were, and in the importing module each name
/// that was taken bound to what was taken, and every other name as it was.
pub open spec fn glob_progress(
    start: GlobalSymbolRegistryView,
    now: GlobalSymbolRegistryView,
    importer: Arc<Module>,
    blocklist: GlobBlocklistView,
    globs: Seq<GlobRedirect>,
    done: int,
) -> bool {
    &&& now.wf()
    &&& now.module_symbols == start.module_symbols
    &&& forall|module: NodeId|
        module != importer.spec_id() ==> #[trigger] now.non_module_entries_of(module)
            == start.non_module_entries_of(module)
    &&& forall|name: Symbol| #[trigger]
        now.get_non_module_symbol(importer.spec_id(), name) == (match picked(
            start,
            importer,
            blocklist,
            globs,
            name,
            done,
        ) {
            Some(symbol) => Some(symbol),
            None => start.get_non_module_symbol(importer.spec_id(), name),
        })
}

/// A blocked name is taken from no rows.
pub proof fn lemma_blocked_not_picked_in_rows(
    rows: Seq<GlobalSymbolEntry>,
    importer: Arc<Module>,
    visibility: Visibility,
    blocklist: GlobBlocklistView,
    name: Symbol,
    upto: int,
)
    requires
        blocklist.blocks(name),
    ensures
        picked_in_rows(rows, importer, visibility, blocklist, name, upto).is_none(),
    decreases upto,
{
    if upto > 0 {
        lemma_blocked_not_picked_in_rows(rows, importer, visibility, blocklist, name, upto - 1);
    }
}

/// A blocked name is taken by no glob import.
pub proof fn lemma_blocked_not_picked(
    tables: GlobalSymbolRegistryView,
    importer: Arc<Module>,
    blocklist: GlobBlocklistView,
    globs: Seq<GlobRedirect>,
    name: Symbol,
    upto: int,
)
    requires
        blocklist.blocks(name),
    ensures
        picked(tables, importer, blocklist, globs, name, upto).is_none(),
    decreases upto,
{
    if upto > 0 {
        let rows = tables.non_module_entries_of(globs[upto - 1].target_module.spec_id());
        lemma_blocked_not_picked_in_rows(
            rows,
            importer,
            globs[upto - 1].visibility,
            blocklist,
            name,
            rows.len() as int,
        );
        lemma_blocked_not_picked(tables, importer, blocklist, globs, name, upto - 1);
    }
}

/// A name that is not blocked is supplied at most once.
pub proof fn lemma_unblocked_supplied_once(
    tables: GlobalSymbolRegistryView,
    importer: Arc<Module>,
    globs: Seq<GlobRedirect>,
    name: Symbol,
    upto: int,
)
    requires
        !glob_blocklist(tables, importer, globs).blocks(name),
        0 <= upto <= globs.len(),
    ensures
        supply_count(tables, importer, globs, name, upto) <= 1,
{
    lemma_supply_count_grows(tables, importer, globs, name, upto, globs.len() as int);
}

/// The row from which an unblocked name is taken is the only one that
/// offers it, so what is taken from the rows is what that row holds.
pub proof fn lemma_picked_in_rows_is(
    rows: Seq<GlobalSymbolEntry>,
    importer: Arc<Module>,
    visibility: Visibility,
    blocklist: GlobBlocklistView,
    at: int,
    upto: int,
)
    requires
        0 <= at < upto <= rows.len(),
        taken(importer, blocklist, rows[at]),
        offer_count(rows, importer, offered_name(rows[at]), rows.len() as int) <= 1,
    ensures
        picked_in_rows(rows, importer, visibility, blocklist, offered_name(rows[at]), upto)
            == Some(glob_symbol(importer, visibility, rows[at].symbol)),
    decreases upto,
{
    let name = offered_name(rows[at]);
    if at < upto - 1 {
        lemma_picked_in_rows_is(rows, importer, visibility, blocklist, at, upto - 1);
        if offers(importer, rows[upto - 1]) && offered_name(rows[upto - 1]) == name {
            lemma_offer_counted(rows, importer, name, at, upto - 1);
            lemma_offer_counted(rows, importer, name, upto - 1, rows.len() as int);
        }
    }
}

/// The glob import from whose target an unblocked name is taken is the
/// only one that supplies it, so what the glob imports take is what that
/// row holds.
pub proof fn lemma_picked_is(
    tables: GlobalSymbolRegistryView,
    importer: Arc<Module>,
    globs: Seq<GlobRedirect>,
    glob: int,
    row: int,
    upto: int,
)
    requires
        0 <= glob < upto <= globs.len(),
        0 <= row < tables.non_module_entries_of(globs[glob].target_module.spec_id()).len(),
        taken(
            importer,
            glob_blocklist(tables, importer, globs),
            tables.non_module_entries_of(globs[glob].target_module.spec_id())[row],
        ),
    ensures
        picked(
            tables,
            importer,
            glob_blocklist(tables, importer, globs),
            globs,
            offered_name(tables.non_module_entries_of(globs[glob].target_module.spec_id())[row]),
            upto,
        ) == Some(
            glob_symbol(
                importer,
                globs[glob].visibility,
                tables.non_module_entries_of(globs[glob].target_module.spec_id())[row].symbol,
            ),
        ),
    decreases upto,
{
    let blocklist = glob_blocklist(tables, importer, globs);
    let rows = tables.non_module_entries_of(globs[glob].target_module.spec_id());
    let name = offered_name(rows[row]);
    lemma_offer_counted(rows, importer, name, row, rows.len() as int);
    lemma_supply_count_step(tables, importer, globs, name, glob + 1);
    lemma_unblocked_supplied_once(tables, importer, globs, name, glob + 1);
    if glob == upto - 1 {
        lemma_picked_in_rows_is(
            rows,
            importer,
            globs[glob].visibility,
            blocklist,
            row,
            rows.len() as int,
        );
    } else {
        lemma_picked_is(tables, importer, globs, glob, row, upto - 1);
        let last = tables.non_module_entries_of(globs[upto - 1].target_module.spec_id());
        lemma_picked_is_offered(
            last,
            importer,
            globs[upto - 1].visibility,
            blocklist,
            name,
            last.len() as int,
        );
        lemma_supply_count_step(tables, importer, globs, name, upto);
        lemma_supply_count_grows(tables, importer, globs, name, glob + 1, upto - 1);
        lemma_unblocked_supplied_once(tables, importer, globs, name, upto);
    }
}

/// The glob imports `globs[done..]` of one pass, none of which takes from
/// the importing module itself, make their bindings without a word and
/// keep the tables in order.
pub proof fn lemma_glob_imports_quiet(
    start: GlobalSymbolRegistryView,
    table: Seq<Seq<char>>,
    state: Bound,
    importer: Arc<Module>,
    globs: Seq<GlobRedirect>,
    done: int,
)
    requires
        start.wf(),
        no_self_glob(importer, globs),
        0 <= done <= globs.len(),
        glob_progress(
            start,
            state.symbols,
            importer,
            glob_blocklist(start, importer, globs),
            globs,
            done,
        ),
    ensures
        ({
            let blocklist = glob_blocklist(start, importer, globs);
            let after = glob_imports(table, state, importer, blocklist, globs, done);
            &&& after.log == state.log
            &&& glob_progress(start, after.symbols, importer, blocklist, globs, globs.len() as int)
        }),
    decreases globs.len() - done,
{
    let blocklist = glob_blocklist(start, importer, globs);
    if done < globs.len() {
        let glob = globs[done];
        let target = glob.target_module.spec_id();
        let rows = start.non_module_entries_of(target);
        assert(state.symbols.non_module_entries_of(target) == rows);
        assert forall|i: int| 0 <= i < rows.len() implies !(#[trigger] rows[i]).symbol.kind.spec_is_module() by {
            lemma_entries_of_in_table(
                start.non_module_symbols,
                target,
                start.non_module_symbols.len() as int,
                i,
            );
        }
        assert forall|i: int|
            0 <= i < rows.len() && taken(importer, blocklist, #[trigger] rows[i])
            implies state.symbols.get_non_module_symbol(
            importer.spec_id(),
            offered_name(rows[i]),
        ).is_none() && offer_count(rows, importer, offered_name(rows[i]), rows.len() as int)
            <= 1 by {
            let name = offered_name(rows[i]);
            lemma_offer_counted(rows, importer, name, i, rows.len() as int);
            lemma_supply_count_step(start, importer, globs, name, done + 1);
            lemma_unblocked_supplied_once(start, importer, globs, name, done + 1);
            lemma_picked_is_supplied(start, importer, blocklist, globs, name, done);
            lemma_unblocked_is_unbound(start, importer, globs, name);
            assert(picked(start, importer, blocklist, globs, name, done).is_none());
        }
        lemma_glob_rows(
            state.symbols,
            table,
            rows,
            importer,
            glob.visibility,
            blocklist,
            rows.len() as int,
        );
        let next = glob_import(table, state, importer, blocklist, glob);
        assert(next.log =~= state.log);
        assert forall|name: Symbol| #[trigger]
            next.symbols.get_non_module_symbol(importer.spec_id(), name) == (match picked(
                start,
                importer,
                blocklist,
                globs,
                name,
                done + 1,
            ) {
                Some(symbol) => Some(symbol),
                None => start.get_non_module_symbol(importer.spec_id(), name),
            }) by {
            assert(state.symbols.get_non_module_symbol(importer.spec_id(), name) == (match picked(
                start,
                importer,
                blocklist,
                globs,
                name,
                done,
            ) {
                Some(symbol) => Some(symbol),
                None => start.get_non_module_symbol(importer.spec_id(), name),
            }));
        }
        assert forall|module: NodeId| module != importer.spec_id() implies #[trigger]
            next.symbols.non_module_entries_of(module) == start.non_module_entries_of(module) by {
            assert(state.symbols.non_module_entries_of(module) == start.non_module_entries_of(
                module,
            ));
        }
        lemma_glob_imports_quiet(start, table, next, importer, globs, done + 1);
    }
}

/// Glob collision. Let the glob imports `globs` of one module make their
/// bindings in one pass, none of them taking from the module itself.
///
/// Then nothing is reported. A name that is blocked, as is every name that
/// two of the imports offer, is bound afterwards as it was before: if it
/// was absent, it is absent. And a name that is not blocked is bound
/// afterwards to the symbol of the row that offers it, at level `Glob`.
pub proof fn lemma_glob_collision(
    tables: GlobalSymbolRegistryView,
    table: Seq<Seq<char>>,
    log: Seq<DiagnosticsView>,
    changed: bool,
    importer: Arc<Module>,
    globs: Seq<GlobRedirect>,
    collided: Symbol,
    glob: int,
    row: int,
)
    requires
        tables.wf(),
        no_self_glob(importer, globs),
        glob_blocklist(tables, importer, globs).blocks(collided),
        0 <= glob < globs.len(),
        0 <= row < tables.non_module_entries_of(globs[glob].target_module.spec_id()).len(),
        taken(
            importer,
            glob_blocklist(tables, importer, globs),
            tables.non_module_entries_of(globs[glob].target_module.spec_id())[row],
        ),
    ensures
        ({
            let blocklist = glob_blocklist(tables, importer, globs);
            let after = glob_imports(
                table,
                Bound { symbols: tables, log, changed },
                importer,
                blocklist,
                globs,
                0,
            );
            let unambiguous = tables.non_module_entries_of(
                globs[glob].target_module.spec_id(),
            )[row];
            &&& after.log == log
            &&& after.symbols.module_symbols == tables.module_symbols
            &&& after.symbols.get_non_module_symbol(importer.spec_id(), collided)
                == tables.get_non_module_symbol(importer.spec_id(), collided)
            &&& after.symbols.get_non_module_symbol(
                importer.spec_id(),
                offered_name(unambiguous),
            ) == Some(glob_symbol(importer, globs[glob].visibility, unambiguous.symbol))
        }),
{
    let blocklist = glob_blocklist(tables, importer, globs);
    let state = Bound { symbols: tables, log, changed };
    assert forall|name: Symbol| #[trigger]
        tables.get_non_module_symbol(importer.spec_id(), name) == (match picked(
            tables,
            importer,
            blocklist,
            globs,
            name,
            0,
        ) {
            Some(symbol) => Some(symbol),
            None => tables.get_non_module_symbol(importer.spec_id(), name),
        }) by {}
    lemma_glob_imports_quiet(tables, table, state, importer, globs, 0);
    lemma_blocked_not_picked(tables, importer, blocklist, globs, collided, globs.len() as int);
    lemma_picked_is(tables, importer, globs, glob, row, globs.len() as int);
}

} // verus!
