use vstd::prelude::*;
use std::sync::Arc;
use crate::diagnostic::message::{log_view, Diagnostics, DiagnosticsView};
use crate::resolve::global_symbol_registry::{
    GlobalSymbol, GlobalSymbolEntry, GlobalSymbolRegistry, GlobalSymbolRegistryView, SymbolLevel,
};
use crate::resolve::module::Module;
use crate::resolve::module_registry::{ModuleRegistry, ModuleRegistryView};
use crate::resolve::redirect::{
    group_views, redirect_views, GlobRedirect, Redirect, RedirectGroup, RedirectGroupView,
    RedirectTarget, RedirectView, Resolution,
};
use crate::resolve::redirect_measure::{
    declared_names, free_slots, glob_fuel, importers, lemma_declared_names_closed,
    lemma_glob_sweep_progress, names_closed,
};
use crate::resolve::redirect_target::{resolve_target_module, target_of, TargetResolution};
use crate::resolve::visibility::Visibility;
use crate::sharing::share;
use crate::symbol::interner::Interner;
use crate::symbol::name::Symbol;

verus! {

/// Whether a glob import into `importer` may take the symbol of `row`: it
/// must be public or live in the file of `importer`.
pub open spec fn offers(importer: Arc<Module>, row: GlobalSymbolEntry) -> bool {
    importer.spec_can_see(row.symbol.visibility, &row.symbol.module)
}

/// The name under which a glob import binds the symbol of `row`: the name
/// under which the symbol was declared.
pub open spec fn offered_name(row: GlobalSymbolEntry) -> Symbol {
    row.symbol.kind.spec_identifier().symbol
}

/// The names that the first `upto` of `rows` offer to `importer`.
pub open spec fn offered_names(rows: Seq<GlobalSymbolEntry>, importer: Arc<Module>, upto: int) -> Seq<
    Symbol,
>
    decreases upto,
{
    if upto <= 0 {
        Seq::empty()
    } else if offers(importer, rows[upto - 1]) {
        offered_names(rows, importer, upto - 1).push(offered_name(rows[upto - 1]))
    } else {
        offered_names(rows, importer, upto - 1)
    }
}

/// The names that the target module of `glob` offers to `importer`.
pub open spec fn glob_offer(
    symbols: GlobalSymbolRegistryView,
    importer: Arc<Module>,
    glob: GlobRedirect,
) -> Seq<Symbol> {
    offered_names(
        symbols.non_module_entries_of(glob.target_module.spec_id()),
        importer,
        symbols.non_module_entries_of(glob.target_module.spec_id()).len() as int,
    )
}

/// The names that the first `upto` of `globs` offer to `importer`, each
/// as often as it is offered.
pub open spec fn supplied_names(
    symbols: GlobalSymbolRegistryView,
    importer: Arc<Module>,
    globs: Seq<GlobRedirect>,
    upto: int,
) -> Seq<Symbol>
    decreases upto,
{
    if upto <= 0 {
        Seq::empty()
    } else {
        supplied_names(symbols, importer, globs, upto - 1) + glob_offer(
            symbols,
            importer,
            globs[upto - 1],
        )
    }
}

/// The names to which `rows` bind.
pub open spec fn bound_names(rows: Seq<GlobalSymbolEntry>) -> Seq<Symbol> {
    rows.map_values(|row: GlobalSymbolEntry| row.name)
}

/// How often `name` occurs among the first `upto` of `names`.
pub open spec fn occurrences(names: Seq<Symbol>, name: Symbol, upto: int) -> nat
    decreases upto,
{
    if upto <= 0 {
        0
    } else if names[upto - 1] == name {
        occurrences(names, name, upto - 1) + 1
    } else {
        occurrences(names, name, upto - 1)
    }
}

/// Occurrences only grow with the part of the list that is counted.
pub proof fn lemma_occurrences_grow(names: Seq<Symbol>, name: Symbol, a: int, b: int)
    requires
        a <= b,
    ensures
        occurrences(names, name, a) <= occurrences(names, name, b),
    decreases b - a,
{
    if a < b {
        lemma_occurrences_grow(names, name, a, b - 1);
    }
}

/// The names that the glob imports of one module must not bind in one pass.
pub struct GlobBlocklistView {
    /// The names that the module binds already.
    pub bound: Seq<Symbol>,
    /// The names that the glob imports offer, each as often as offered.
    pub supplied: Seq<Symbol>,
}

impl GlobBlocklistView {
    /// A name is blocked if the module binds it already, or if it is
    /// offered more than once.
    pub open spec fn blocks(self, name: Symbol) -> bool {
        self.bound.contains(name) || occurrences(
            self.supplied,
            name,
            self.supplied.len() as int,
        ) > 1
    }
}

/// The blocklist for the glob imports `globs` of `importer`.
pub open spec fn glob_blocklist(
    symbols: GlobalSymbolRegistryView,
    importer: Arc<Module>,
    globs: Seq<GlobRedirect>,
) -> GlobBlocklistView {
    GlobBlocklistView {
        bound: bound_names(symbols.any_entries_of(importer.spec_id())),
        supplied: supplied_names(symbols, importer, globs, globs.len() as int),
    }
}

/// The binding that a glob import of visibility `visibility` makes of
/// `found` in `importer`.
pub open spec fn glob_symbol(importer: Arc<Module>, visibility: Visibility, found: GlobalSymbol) -> GlobalSymbol {
    GlobalSymbol {
        level: SymbolLevel::Glob,
        visibility,
        module: importer,
        kind: found.kind,
        identifier: found.kind.spec_identifier(),
    }
}

/// The bindings that a glob import makes of the first `upto` of `rows`:
/// one for each row that offers its symbol under a name that is not blocked.
pub open spec fn glob_candidates(
    rows: Seq<GlobalSymbolEntry>,
    importer: Arc<Module>,
    visibility: Visibility,
    blocklist: GlobBlocklistView,
    upto: int,
) -> Seq<GlobalSymbol>
    decreases upto,
{
    if upto <= 0 {
        Seq::empty()
    } else if offers(importer, rows[upto - 1]) && !blocklist.blocks(offered_name(rows[upto - 1])) {
        glob_candidates(rows, importer, visibility, blocklist, upto - 1).push(
            glob_symbol(importer, visibility, rows[upto - 1].symbol),
        )
    } else {
        glob_candidates(rows, importer, visibility, blocklist, upto - 1)
    }
}

/// The bindings that `glob` makes in `importer`, given the symbol tables
/// as they are when its turn comes.
pub open spec fn glob_bindings(
    symbols: GlobalSymbolRegistryView,
    importer: Arc<Module>,
    blocklist: GlobBlocklistView,
    glob: GlobRedirect,
) -> Seq<GlobalSymbol> {
    glob_candidates(
        symbols.non_module_entries_of(glob.target_module.spec_id()),
        importer,
        glob.visibility,
        blocklist,
        symbols.non_module_entries_of(glob.target_module.spec_id()).len() as int,
    )
}

/// The symbol tables, all that was reported, and whether a name was bound.
pub struct Bound {
    pub symbols: GlobalSymbolRegistryView,
    pub log: Seq<DiagnosticsView>,
    pub changed: bool,
}

/// The state after `glob` made its bindings.
pub open spec fn glob_import(
    table: Seq<Seq<char>>,
    state: Bound,
    importer: Arc<Module>,
    blocklist: GlobBlocklistView,
    glob: GlobRedirect,
) -> Bound {
    let bindings = glob_bindings(state.symbols, importer, blocklist, glob);
    Bound {
        symbols: state.symbols.register_all(bindings, bindings.len() as int),
        log: state.log + state.symbols.register_all_log(table, bindings, bindings.len() as int),
        changed: state.changed || state.symbols.register_all_adds(bindings, bindings.len() as int),
    }
}

/// The state after `globs[from..]` made their bindings, each in turn.
pub open spec fn glob_imports(
    table: Seq<Seq<char>>,
    state: Bound,
    importer: Arc<Module>,
    blocklist: GlobBlocklistView,
    globs: Seq<GlobRedirect>,
    from: int,
) -> Bound
    decreases globs.len() - from,
{
    if from < 0 || from >= globs.len() {
        state
    } else {
        glob_imports(
            table,
            glob_import(table, state, importer, blocklist, globs[from]),
            importer,
            blocklist,
            globs,
            from + 1,
        )
    }
}

/// What was reported, the imports that stay pending, and the glob imports
/// whose target module is known.
pub struct GlobScan {
    pub log: Seq<DiagnosticsView>,
    pub kept: Seq<RedirectView>,
    pub globs: Seq<GlobRedirect>,
}

/// One import in the first half of a glob pass. An import whose prefix
/// fails leaves; one whose prefix is pending stays; one whose prefix leads
/// to a module is marked and stays, and a glob import among these is noted
/// with its target module.
pub open spec fn glob_scan_step(
    modules: ModuleRegistryView,
    symbols: GlobalSymbolRegistryView,
    table: Seq<Seq<char>>,
    state: GlobScan,
    redirect: RedirectView,
) -> GlobScan {
    let target = target_of(modules, symbols, table, redirect.module, redirect.prefix);
    match target.resolution {
        TargetResolution::Failed => GlobScan { log: state.log + target.log, ..state },
        TargetResolution::Pending => GlobScan {
            log: state.log + target.log,
            kept: state.kept.push(redirect),
            globs: state.globs,
        },
        TargetResolution::Found(target_module) => GlobScan {
            log: state.log + target.log,
            kept: state.kept.push(redirect.marked()),
            globs: match redirect.target {
                RedirectTarget::Glob => state.globs.push(
                    GlobRedirect {
                        module: redirect.module,
                        target_module,
                        visibility: redirect.visibility,
                    },
                ),
                RedirectTarget::Single(_) => state.globs,
            },
        },
    }
}

/// The first half of a glob pass over `redirects[from..]`.
pub open spec fn glob_scan(
    modules: ModuleRegistryView,
    symbols: GlobalSymbolRegistryView,
    table: Seq<Seq<char>>,
    state: GlobScan,
    redirects: Seq<RedirectView>,
    from: int,
) -> GlobScan
    decreases redirects.len() - from,
{
    if from < 0 || from >= redirects.len() {
        state
    } else {
        glob_scan(
            modules,
            symbols,
            table,
            glob_scan_step(modules, symbols, table, state, redirects[from]),
            redirects,
            from + 1,
        )
    }
}

/// A glob pass over the group `at`.
///
/// First the target module of every import of the group is looked for.
/// Then, if the module of the group is registered, the blocklist is made
/// from the symbol tables as they are, and the glob imports whose target
/// is known make their bindings, each in turn.
pub open spec fn glob_group(
    modules: ModuleRegistryView,
    table: Seq<Seq<char>>,
    state: Resolution,
    at: int,
) -> Resolution {
    let group = state.groups[at];
    let scan = glob_scan(
        modules,
        state.symbols,
        table,
        GlobScan { log: state.log, kept: Seq::empty(), globs: Seq::empty() },
        group.redirects,
        0,
    );
    let groups = state.groups.update(
        at,
        RedirectGroupView { module: group.module, redirects: scan.kept },
    );
    match modules.get_module_by_id(group.module) {
        None => Resolution { symbols: state.symbols, log: scan.log, groups, changed: state.changed },
        Some(importer) => {
            let bound = glob_imports(
                table,
                Bound { symbols: state.symbols, log: scan.log, changed: state.changed },
                importer,
                glob_blocklist(state.symbols, importer, scan.globs),
                scan.globs,
                0,
            );
            Resolution { symbols: bound.symbols, log: bound.log, groups, changed: bound.changed }
        },
    }
}

/// One glob pass, over the groups from `from` on.
pub open spec fn glob_sweep(
    modules: ModuleRegistryView,
    table: Seq<Seq<char>>,
    state: Resolution,
    from: int,
) -> Resolution
    decreases state.groups.len() - from,
{
    if from < 0 || from >= state.groups.len() {
        state
    } else {
        glob_sweep(modules, table, glob_group(modules, table, state, from), from + 1)
    }
}

/// Glob passes, repeated until one binds nothing or `fuel` passes were
/// made after the first. The result says whether any pass bound a name.
pub open spec fn glob_only(
    modules: ModuleRegistryView,
    table: Seq<Seq<char>>,
    state: Resolution,
    fuel: nat,
) -> Resolution
    decreases fuel,
{
    let swept = glob_sweep(modules, table, Resolution { changed: false, ..state }, 0);
    if !swept.changed || fuel == 0 {
        swept
    } else {
        Resolution { changed: true, ..glob_only(modules, table, swept, (fuel - 1) as nat) }
    }
}

/// The glob passes do not depend on whether a name was bound before them.
pub proof fn lemma_glob_only_from(
    modules: ModuleRegistryView,
    table: Seq<Seq<char>>,
    state: Resolution,
    fuel: nat,
)
    ensures
        glob_only(modules, table, state, fuel) == glob_only(
            modules,
            table,
            Resolution { changed: false, ..state },
            fuel,
        ),
{
    let cleared = Resolution { changed: false, ..state };
    assert(cleared == Resolution { changed: false, ..cleared });
}

/// A glob pass keeps the number of groups.
pub proof fn lemma_glob_sweep_groups(
    modules: ModuleRegistryView,
    table: Seq<Seq<char>>,
    state: Resolution,
    from: int,
)
    ensures
        glob_sweep(modules, table, state, from).groups.len() == state.groups.len(),
    decreases state.groups.len() - from,
{
    if 0 <= from < state.groups.len() {
        lemma_glob_sweep_groups(modules, table, glob_group(modules, table, state, from), from + 1);
    }
}

/// The names that the glob imports of one module must not bind in one pass.
#[derive(Debug)]
pub struct GlobBlocklist {
    bound: Vec<Symbol>,
    supplied: Vec<Symbol>,
}

impl View for GlobBlocklist {
    type V = GlobBlocklistView;

    closed spec fn view(&self) -> GlobBlocklistView {
        GlobBlocklistView { bound: self.bound@, supplied: self.supplied@ }
    }
}

impl GlobBlocklist {
    /// Whether `name` is blocked.
    pub fn contains(&self, name: Symbol) -> (r: bool)
        ensures
            r == self@.blocks(name),
    {
        let mut i: usize = 0;
        while i < self.bound.len()
            invariant
                i <= self.bound@.len(),
                forall|j: int| 0 <= j < i ==> self.bound@[j] != name,
            decreases self.bound@.len() - i,
        {
            if self.bound[i] == name {
                return true;
            }
            i += 1;
        }
        let mut count: usize = 0;
        let mut k: usize = 0;
        while k < self.supplied.len()
            invariant
                k <= self.supplied@.len(),
                count == occurrences(self.supplied@, name, k as int),
                count <= 1,
            decreases self.supplied@.len() - k,
        {
            if self.supplied[k] == name {
                if count == 1 {
                    proof {
                        lemma_occurrences_grow(
                            self.supplied@,
                            name,
                            k + 1,
                            self.supplied@.len() as int,
                        );
                    }
                    return true;
                }
                count = 1;
            }
            k += 1;
        }
        false
    }
}

/// The blocklist for the glob imports `glob_redirects` of `module`: the
/// names that `module` binds, and the names that more than one of the
/// imports offers.
pub fn build_glob_import_blocklist(
    global_symbol_registry: &GlobalSymbolRegistry,
    module: &Arc<Module>,
    glob_redirects: &Vec<GlobRedirect>,
) -> (r: GlobBlocklist)
    ensures
        r@ == glob_blocklist(global_symbol_registry@, *module, glob_redirects@),
{
    let mut bound: Vec<Symbol> = Vec::new();
    let rows = global_symbol_registry.any_symbols(module);
    let ghost all = global_symbol_registry@.any_entries_of(module.spec_id());
    let mut i: usize = 0;
    while i < rows.len()
        invariant
            i <= rows@.len(),
            rows@.len() == all.len(),
            forall|k: int| 0 <= k < rows@.len() ==> *(#[trigger] rows@[k]) == all[k],
            bound@ == bound_names(all).take(i as int),
        decreases rows@.len() - i,
    {
        bound.push(rows[i].name);
        assert(bound@ =~= bound_names(all).take(i + 1));
        i += 1;
    }
    assert(bound@ =~= bound_names(all));
    let mut supplied: Vec<Symbol> = Vec::new();
    let mut g: usize = 0;
    while g < glob_redirects.len()
        invariant
            g <= glob_redirects@.len(),
            supplied@ == supplied_names(global_symbol_registry@, *module, glob_redirects@, g as int),
        decreases glob_redirects@.len() - g,
    {
        let ghost before = supplied@;
        let target = &glob_redirects[g].target_module;
        let rows = global_symbol_registry.non_module_rows(target.id());
        let ghost offer = global_symbol_registry@.non_module_entries_of(target.spec_id());
        let mut k: usize = 0;
        while k < rows.len()
            invariant
                k <= rows@.len(),
                rows@.len() == offer.len(),
                forall|j: int| 0 <= j < rows@.len() ==> *(#[trigger] rows@[j]) == offer[j],
                supplied@ == before + offered_names(offer, *module, k as int),
            decreases rows@.len() - k,
        {
            let row = rows[k];
            if module.can_see(row.symbol.visibility, &row.symbol.module) {
                supplied.push(row.symbol.kind.identifier().symbol);
            }
            assert(supplied@ =~= before + offered_names(offer, *module, k + 1));
            k += 1;
        }
        g += 1;
    }
    GlobBlocklist { bound, supplied }
}

/// The bindings that `glob_redirect` makes in `module`, given the symbol
/// tables as they are.
pub fn collect_glob_bindings(
    global_symbol_registry: &GlobalSymbolRegistry,
    module: &Arc<Module>,
    blocklist: &GlobBlocklist,
    glob_redirect: &GlobRedirect,
) -> (r: Vec<GlobalSymbol>)
    ensures
        r@ == glob_bindings(global_symbol_registry@, *module, blocklist@, *glob_redirect),
{
    let mut redirected: Vec<GlobalSymbol> = Vec::new();
    let rows = global_symbol_registry.non_module_rows(glob_redirect.target_module.id());
    let ghost offer = global_symbol_registry@.non_module_entries_of(
        glob_redirect.target_module.spec_id(),
    );
    let mut k: usize = 0;
    while k < rows.len()
        invariant
            k <= rows@.len(),
            rows@.len() == offer.len(),
            forall|j: int| 0 <= j < rows@.len() ==> *(#[trigger] rows@[j]) == offer[j],
            redirected@ == glob_candidates(
                offer,
                *module,
                glob_redirect.visibility,
                blocklist@,
                k as int,
            ),
        decreases rows@.len() - k,
    {
        let row = rows[k];
        if module.can_see(row.symbol.visibility, &row.symbol.module) && !blocklist.contains(
            row.symbol.kind.identifier().symbol,
        ) {
            let identifier = row.symbol.kind.identifier();
            redirected.push(
                GlobalSymbol::new(
                    SymbolLevel::Glob,
                    glob_redirect.visibility,
                    share(module),
                    row.symbol.kind.duplicate(),
                    identifier,
                ),
            );
        }
        k += 1;
    }
    redirected
}

/// The first half of a glob pass over the imports of one module. Returns
/// the imports that stay pending and the glob imports whose target module
/// is known.
pub fn scan_glob_group(
    module_registry: &ModuleRegistry,
    global_symbol_registry: &GlobalSymbolRegistry,
    interner: &Interner,
    log: &mut Vec<Diagnostics>,
    redirects: Vec<Redirect>,
) -> (r: (Vec<Redirect>, Vec<GlobRedirect>))
    ensures
        (GlobScan { log: log_view(final(log)@), kept: redirect_views(r.0@), globs: r.1@ })
            == glob_scan(
            module_registry@,
            global_symbol_registry@,
            interner@,
            GlobScan { log: log_view(old(log)@), kept: Seq::empty(), globs: Seq::empty() },
            redirect_views(redirects@),
            0,
        ),
{
    let ghost all = redirect_views(redirects@);
    let ghost start = GlobScan { log: log_view(log@), kept: Seq::empty(), globs: Seq::empty() };
    let ghost goal = glob_scan(
        module_registry@,
        global_symbol_registry@,
        interner@,
        start,
        all,
        0,
    );
    let mut redirects = redirects;
    let mut kept: Vec<Redirect> = Vec::new();
    let mut globs: Vec<GlobRedirect> = Vec::new();
    let ghost mut done: int = 0;
    assert(redirect_views(kept@) =~= Seq::empty());
    assert(redirect_views(redirects@) =~= all.subrange(0, all.len() as int));
    while redirects.len() > 0
        invariant
            0 <= done <= all.len(),
            redirect_views(redirects@) == all.subrange(done, all.len() as int),
            glob_scan(
                module_registry@,
                global_symbol_registry@,
                interner@,
                GlobScan { log: log_view(log@), kept: redirect_views(kept@), globs: globs@ },
                all,
                done,
            ) == goal,
        decreases redirects@.len(),
    {
        let ghost now = GlobScan {
            log: log_view(log@),
            kept: redirect_views(kept@),
            globs: globs@,
        };
        let ghost rest = redirect_views(redirects@);
        assert(rest.len() == redirects@.len());
        let mut redirect = redirects.remove(0);
        assert(redirect@ == rest[0]);
        assert(rest[0] == all[done]);
        assert forall|k: int| 0 <= k < redirects@.len() implies #[trigger] redirect_views(
            redirects@,
        )[k] == all[done + 1 + k] by {
            assert(redirect_views(redirects@)[k] == rest[k + 1]);
        }
        assert(redirect_views(redirects@) =~= all.subrange(done + 1, all.len() as int));
        let ghost unmarked = redirect@;
        let ghost next = glob_scan_step(
            module_registry@,
            global_symbol_registry@,
            interner@,
            now,
            unmarked,
        );
        let resolution = resolve_target_module(
            module_registry,
            global_symbol_registry,
            interner,
            log,
            &redirect.module,
            &redirect.prefix,
        );
        let ghost kept_before = redirect_views(kept@);
        match resolution {
            TargetResolution::Failed => {},
            TargetResolution::Pending => {
                kept.push(redirect);
                assert(redirect_views(kept@) =~= kept_before.push(unmarked));
            },
            TargetResolution::Found(target_module) => {
                redirect.found_target_module = true;
                assert(redirect@ == unmarked.marked());
                match redirect.target {
                    RedirectTarget::Glob => {
                        globs.push(
                            GlobRedirect::new(
                                share(&redirect.module),
                                target_module,
                                redirect.visibility,
                            ),
                        );
                    },
                    RedirectTarget::Single(_) => {},
                }
                kept.push(redirect);
                assert(redirect_views(kept@) =~= kept_before.push(unmarked.marked()));
            },
        }
        proof {
            done = done + 1;
            assert(GlobScan { log: log_view(log@), kept: redirect_views(kept@), globs: globs@ }
                == next);
        }
    }
    (kept, globs)
}

/// A glob pass over the imports of the group `at`. Returns whether a name
/// was bound now or before.
pub fn resolve_glob_group(
    groups: &mut Vec<RedirectGroup>,
    at: usize,
    module_registry: &ModuleRegistry,
    global_symbol_registry: &mut GlobalSymbolRegistry,
    interner: &Interner,
    log: &mut Vec<Diagnostics>,
    changed: bool,
) -> (r: bool)
    requires
        at < old(groups)@.len(),
    ensures
        (Resolution {
            symbols: final(global_symbol_registry)@,
            log: log_view(final(log)@),
            groups: group_views(final(groups)@),
            changed: r,
        }) == glob_group(
            module_registry@,
            interner@,
            Resolution {
                symbols: old(global_symbol_registry)@,
                log: log_view(old(log)@),
                groups: group_views(old(groups)@),
                changed,
            },
            at as int,
        ),
        final(groups)@.len() == old(groups)@.len(),
        old(global_symbol_registry)@.wf() ==> final(global_symbol_registry)@.wf(),
{
    let ghost start = Resolution {
        symbols: global_symbol_registry@,
        log: log_view(log@),
        groups: group_views(groups@),
        changed,
    };
    let mut pending: Vec<Redirect> = Vec::new();
    core::mem::swap(&mut groups[at].redirects, &mut pending);
    assert(redirect_views(pending@) == start.groups[at as int].redirects);
    let (kept, glob_redirects) = scan_glob_group(
        module_registry,
        &*global_symbol_registry,
        interner,
        log,
        pending,
    );
    let ghost scan = GlobScan {
        log: log_view(log@),
        kept: redirect_views(kept@),
        globs: glob_redirects@,
    };
    groups[at].redirects = kept;
    assert(group_views(groups@) =~= start.groups.update(
        at as int,
        RedirectGroupView { module: start.groups[at as int].module, redirects: scan.kept },
    ));
    let module = match module_registry.get_module_by_id(groups[at].module) {
        Some(module) => share(module),
        None => {
            return changed;
        },
    };
    let blocklist = build_glob_import_blocklist(
        &*global_symbol_registry,
        &module,
        &glob_redirects,
    );
    let ghost first = Bound { symbols: global_symbol_registry@, log: log_view(log@), changed };
    let ghost goal = glob_imports(interner@, first, module, blocklist@, glob_redirects@, 0);
    let mut changed = changed;
    let mut g: usize = 0;
    while g < glob_redirects.len()
        invariant
            g <= glob_redirects@.len(),
            old(global_symbol_registry)@.wf() ==> global_symbol_registry@.wf(),
            glob_imports(
                interner@,
                Bound { symbols: global_symbol_registry@, log: log_view(log@), changed },
                module,
                blocklist@,
                glob_redirects@,
                g as int,
            ) == goal,
        decreases glob_redirects@.len() - g,
    {
        let ghost now = Bound { symbols: global_symbol_registry@, log: log_view(log@), changed };
        let redirected = collect_glob_bindings(
            &*global_symbol_registry,
            &module,
            &blocklist,
            &glob_redirects[g],
        );
        let added = global_symbol_registry.register_each(interner, log, &redirected);
        changed = changed || added;
        assert(Bound { symbols: global_symbol_registry@, log: log_view(log@), changed }
            == glob_import(interner@, now, module, blocklist@, glob_redirects@[g as int]));
        g += 1;
    }
    changed
}

/// One glob pass over the imports of every module. Returns whether a name
/// was bound.
pub fn resolve_glob_sweep(
    groups: &mut Vec<RedirectGroup>,
    module_registry: &ModuleRegistry,
    global_symbol_registry: &mut GlobalSymbolRegistry,
    interner: &Interner,
    log: &mut Vec<Diagnostics>,
) -> (changed: bool)
    ensures
        (Resolution {
            symbols: final(global_symbol_registry)@,
            log: log_view(final(log)@),
            groups: group_views(final(groups)@),
            changed,
        }) == glob_sweep(
            module_registry@,
            interner@,
            Resolution {
                symbols: old(global_symbol_registry)@,
                log: log_view(old(log)@),
                groups: group_views(old(groups)@),
                changed: false,
            },
            0,
        ),
        old(global_symbol_registry)@.wf() ==> final(global_symbol_registry)@.wf(),
{
    let ghost start = Resolution {
        symbols: global_symbol_registry@,
        log: log_view(log@),
        groups: group_views(groups@),
        changed: false,
    };
    let ghost goal = glob_sweep(module_registry@, interner@, start, 0);
    let mut changed = false;
    let mut i: usize = 0;
    while i < groups.len()
        invariant
            i <= groups@.len(),
            old(global_symbol_registry)@.wf() ==> global_symbol_registry@.wf(),
            glob_sweep(
                module_registry@,
                interner@,
                Resolution {
                    symbols: global_symbol_registry@,
                    log: log_view(log@),
                    groups: group_views(groups@),
                    changed,
                },
                i as int,
            ) == goal,
        decreases groups@.len() - i,
    {
        changed = resolve_glob_group(
            groups,
            i,
            module_registry,
            global_symbol_registry,
            interner,
            log,
            changed,
        );
        i += 1;
    }
    changed
}

/// Glob passes, until one binds nothing. Every pass that binds a name
/// fills a slot that was free, a pair of an importing module and a declared
/// name, and no pass frees one, so the passes end. Returns whether any pass
/// bound a name.
pub fn resolve_redirects_glob_only(
    groups: &mut Vec<RedirectGroup>,
    module_registry: &ModuleRegistry,
    global_symbol_registry: &mut GlobalSymbolRegistry,
    interner: &Interner,
    log: &mut Vec<Diagnostics>,
) -> (changed: bool)
    requires
        old(global_symbol_registry)@.wf(),
    ensures
        (Resolution {
            symbols: final(global_symbol_registry)@,
            log: log_view(final(log)@),
            groups: group_views(final(groups)@),
            changed,
        }) == glob_only(
            module_registry@,
            interner@,
            Resolution {
                symbols: old(global_symbol_registry)@,
                log: log_view(old(log)@),
                groups: group_views(old(groups)@),
                changed: false,
            },
            glob_fuel(
                module_registry@,
                Resolution {
                    symbols: old(global_symbol_registry)@,
                    log: log_view(old(log)@),
                    groups: group_views(old(groups)@),
                    changed: false,
                },
            ),
        ),
        final(global_symbol_registry)@.wf(),
{
    let ghost start = Resolution {
        symbols: global_symbol_registry@,
        log: log_view(log@),
        groups: group_views(groups@),
        changed: false,
    };
    let ghost names = declared_names(start.symbols.non_module_symbols);
    let ghost slots = importers(module_registry@, start.groups);
    let ghost goal = glob_only(
        module_registry@,
        interner@,
        start,
        glob_fuel(module_registry@, start),
    );
    let mut changed_at_least_once = false;
    let ghost mut fuel: nat = glob_fuel(module_registry@, start);
    proof {
        lemma_declared_names_closed(start.symbols.non_module_symbols);
    }
    loop
        invariant_except_break
            fuel >= free_slots(
                global_symbol_registry@.non_module_symbols,
                slots,
                names,
                slots.len() as int,
            ),
            ({
                let rest = glob_only(
                    module_registry@,
                    interner@,
                    Resolution {
                        symbols: global_symbol_registry@,
                        log: log_view(log@),
                        groups: group_views(groups@),
                        changed: false,
                    },
                    fuel,
                );
                goal == Resolution { changed: changed_at_least_once || rest.changed, ..rest }
            }),
        invariant
            global_symbol_registry@.wf(),
            names_closed(global_symbol_registry@.non_module_symbols, names),
            importers(module_registry@, group_views(groups@)) == slots,
        ensures
            (Resolution {
                symbols: global_symbol_registry@,
                log: log_view(log@),
                groups: group_views(groups@),
                changed: changed_at_least_once,
            }) == goal,
        decreases
            free_slots(
                global_symbol_registry@.non_module_symbols,
                slots,
                names,
                slots.len() as int,
            ),
    {
        let ghost now = Resolution {
            symbols: global_symbol_registry@,
            log: log_view(log@),
            groups: group_views(groups@),
            changed: false,
        };
        proof {
            lemma_glob_sweep_progress(module_registry@, interner@, now, 0, names);
        }
        let changed = resolve_glob_sweep(
            groups,
            module_registry,
            global_symbol_registry,
            interner,
            log,
        );
        let ghost swept = glob_sweep(module_registry@, interner@, now, 0);
        let ghost rest = glob_only(module_registry@, interner@, now, fuel);
        assert(now == Resolution { changed: false, ..now });
        if !changed {
            assert(rest == swept);
            break ;
        }
        assert(fuel > 0);
        proof {
            lemma_glob_only_from(module_registry@, interner@, swept, (fuel - 1) as nat);
        }
        changed_at_least_once = true;
        proof {
            fuel = (fuel - 1) as nat;
        }
    }
    changed_at_least_once
}

} // verus!
