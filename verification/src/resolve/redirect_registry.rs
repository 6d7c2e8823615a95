use vstd::prelude::*;
use vstd::string::*;
use std::sync::Arc;
use crate::diagnostic::error_codes::{MODULE_NOT_FOUND, SYMBOL_NOT_FOUND};
use crate::diagnostic::message::{log_view, Diagnostics, DiagnosticsLevel, DiagnosticsView};
use crate::diagnostic::sender::located;
use crate::parse::ast::node_id::NodeId;
use crate::parse::ast::punctuated::PunctuatedItem;
use crate::parse::ast::tree::{
    ASTModuleItem, ASTModuleItemKind, ASTUsePath, ASTUsePathItemKind, ASTUsePathPrefixSegment,
    ASTUsePathPrefixSegmentKind,
};
use crate::resolve::global_symbol_registry::{GlobalSymbolRegistry, GlobalSymbolRegistryView};
use crate::resolve::module::Module;
use crate::resolve::module_registry::{ModuleRegistry, ModuleRegistryView};
use crate::resolve::path_visualizers::{prefix_text, visualize_prefix};
use crate::resolve::redirect::{
    group_views, pending_count, redirect_views, Redirect, RedirectGroup, RedirectGroupView,
    RedirectSingleTarget, RedirectTarget, RedirectView, Resolution,
};
use crate::resolve::redirect_glob::{glob_only, resolve_redirects_glob_only};
use crate::resolve::redirect_measure::{
    declared_names, free_slots, glob_fuel, importers, lemma_declared_names_closed,
    lemma_free_slots_shrink, lemma_glob_only_progress, lemma_single_only_progress,
    lemma_steady_chain, names_closed,
};
use crate::resolve::redirect_single::{resolve_redirects_single_only, single_only};
use crate::resolve::seq_search::{
    first_index, lemma_first_index_is, lemma_first_index_none,
};
use crate::resolve::visibility::Visibility;
use crate::sharing::share;
use crate::symbol::interner::{quoted, Interner};

verus! {

/// The segments that a `use` path adds to the prefix before it.
pub open spec fn path_prefix(path: ASTUsePath) -> Seq<ASTUsePathPrefixSegmentKind> {
    match path.prefix {
        Some(prefix) => prefix.segments@.map_values(
            |segment: ASTUsePathPrefixSegment| segment.kind,
        ),
        None => Seq::empty(),
    }
}

/// The import that a leaf of a `use` path stands for.
pub open spec fn leaf_redirect(
    module: Arc<Module>,
    visibility: Visibility,
    prefix: Seq<ASTUsePathPrefixSegmentKind>,
    target: RedirectTarget,
    path: ASTUsePath,
) -> RedirectView {
    RedirectView { module, visibility, prefix, target, found_target_module: false, span: path.span }
}

/// The imports that a `use` path stands for: one for each leaf, in source
/// order, each with the whole prefix that leads to it from `base` on.
pub open spec fn path_redirects(
    module: Arc<Module>,
    visibility: Visibility,
    base: Seq<ASTUsePathPrefixSegmentKind>,
    path: ASTUsePath,
) -> Seq<RedirectView>
    decreases path, 0int,
{
    match path.item.kind {
        ASTUsePathItemKind::All(_) => seq![
            leaf_redirect(
                module,
                visibility,
                base + path_prefix(path),
                RedirectTarget::Glob,
                path,
            ),
        ],
        ASTUsePathItemKind::Single(ast) => seq![
            leaf_redirect(
                module,
                visibility,
                base + path_prefix(path),
                RedirectTarget::Single(
                    RedirectSingleTarget {
                        identifier: ast.identifier,
                        alias: match ast.alias {
                            Some(alias) => Some(alias.identifier),
                            None => None,
                        },
                    },
                ),
                path,
            ),
        ],
        ASTUsePathItemKind::Group(ast) => group_redirects(
            module,
            visibility,
            base + path_prefix(path),
            ast.items.items@,
            0,
        ),
    }
}

/// The imports that the paths `items[from..]` of a group stand for.
pub open spec fn group_redirects(
    module: Arc<Module>,
    visibility: Visibility,
    base: Seq<ASTUsePathPrefixSegmentKind>,
    items: Seq<PunctuatedItem<ASTUsePath>>,
    from: int,
) -> Seq<RedirectView>
    decreases items, items.len() - from,
{
    if from < 0 || from >= items.len() {
        Seq::empty()
    } else {
        path_redirects(
            module,
            visibility,
            base,
            match items[from] {
                PunctuatedItem::Punctuated { item, .. } => item,
                PunctuatedItem::NotPunctuated { item } => item,
            },
        ) + group_redirects(module, visibility, base, items, from + 1)
    }
}

/// The imports that one module item stands for: none unless it is a `use`.
pub open spec fn item_redirects(module: Arc<Module>, item: ASTModuleItem) -> Seq<RedirectView> {
    match item.kind {
        ASTModuleItemKind::Use(ast) => path_redirects(
            module,
            Visibility::spec_from_pub(ast.keyword_pub.is_some()),
            Seq::empty(),
            ast.path,
        ),
        _ => Seq::empty(),
    }
}

/// The imports that the first `upto` items of a module stand for.
pub open spec fn module_redirects(module: Arc<Module>, items: Seq<ASTModuleItem>, upto: int) -> Seq<
    RedirectView,
>
    decreases upto,
{
    if upto <= 0 {
        Seq::empty()
    } else {
        module_redirects(module, items, upto - 1) + item_redirects(module, items[upto - 1])
    }
}

/// The groups for the module `module`.
pub open spec fn group_of(module: NodeId) -> spec_fn(RedirectGroupView) -> bool {
    |group: RedirectGroupView| group.module == module
}

/// The groups after `redirects` were added to those of `module`. Where
/// there is nothing to add, no group is made.
pub open spec fn add_redirects(
    groups: Seq<RedirectGroupView>,
    module: NodeId,
    redirects: Seq<RedirectView>,
) -> Seq<RedirectGroupView> {
    if redirects.len() == 0 {
        groups
    } else {
        match first_index(groups, group_of(module)) {
            Some(i) => groups.update(
                i,
                RedirectGroupView { module, redirects: groups[i].redirects + redirects },
            ),
            None => groups.push(RedirectGroupView { module, redirects }),
        }
    }
}

/// What is reported of an import that is still pending when resolution
/// ends: a glob import whose target module was never found, and every
/// by-name import.
pub open spec fn unresolved_diagnostics(table: Seq<Seq<char>>, redirect: RedirectView) -> Seq<
    DiagnosticsView,
> {
    match redirect.target {
        RedirectTarget::Glob => if redirect.found_target_module {
            Seq::empty()
        } else {
            seq![
                located(
                    redirect.module.diagnostics.file,
                    MODULE_NOT_FOUND,
                    DiagnosticsLevel::Error,
                    redirect.span,
                    "the module `"@ + prefix_text(table, redirect.prefix) + "` is not found"@,
                    Seq::empty(),
                ),
            ]
        },
        RedirectTarget::Single(single) => seq![
            located(
                redirect.module.diagnostics.file,
                SYMBOL_NOT_FOUND,
                DiagnosticsLevel::Error,
                redirect.span,
                "the symbol "@ + quoted(table, single.identifier.symbol) + " from module `"@
                    + prefix_text(table, redirect.prefix) + "` is not found"@,
                Seq::empty(),
            ),
        ],
    }
}

/// What is reported of the first `upto` of the pending imports `redirects`.
pub open spec fn unresolved_in(table: Seq<Seq<char>>, redirects: Seq<RedirectView>, upto: int) -> Seq<
    DiagnosticsView,
>
    decreases upto,
{
    if upto <= 0 {
        Seq::empty()
    } else {
        unresolved_in(table, redirects, upto - 1) + unresolved_diagnostics(
            table,
            redirects[upto - 1],
        )
    }
}

/// What is reported of the pending imports of the first `upto` groups.
pub open spec fn unresolved_log(table: Seq<Seq<char>>, groups: Seq<RedirectGroupView>, upto: int) -> Seq<
    DiagnosticsView,
>
    decreases upto,
{
    if upto <= 0 {
        Seq::empty()
    } else {
        unresolved_log(table, groups, upto - 1) + unresolved_in(
            table,
            groups[upto - 1].redirects,
            groups[upto - 1].redirects.len() as int,
        )
    }
}

/// Rounds of import resolution. A round resolves imports by name until
/// that binds nothing, then glob imports until that binds nothing. Rounds
/// are made until one binds nothing, or `fuel` rounds were made after the
/// first; `round_fuel` rounds are never used up.
pub open spec fn resolve_rounds(
    modules: ModuleRegistryView,
    table: Seq<Seq<char>>,
    state: Resolution,
    fuel: nat,
) -> Resolution
    decreases fuel,
{
    let by_name = single_only(modules, table, state, pending_count(state.groups, 0));
    let by_glob = glob_only(modules, table, by_name, glob_fuel(modules, by_name));
    if !(by_name.changed || by_glob.changed) || fuel == 0 {
        by_glob
    } else {
        resolve_rounds(modules, table, by_glob, (fuel - 1) as nat)
    }
}

/// The state in which import resolution ends, before the imports that are
/// still pending are reported.
pub open spec fn resolved(
    modules: ModuleRegistryView,
    table: Seq<Seq<char>>,
    symbols: GlobalSymbolRegistryView,
    log: Seq<DiagnosticsView>,
    groups: Seq<RedirectGroupView>,
) -> Resolution {
    resolve_rounds(
        modules,
        table,
        Resolution { symbols, log, groups, changed: false },
        round_fuel(modules, Resolution { symbols, log, groups, changed: false }),
    )
}

/// A bound on the number of rounds that bind a name: each resolves an
/// import for good or fills a free slot.
pub open spec fn round_fuel(modules: ModuleRegistryView, state: Resolution) -> nat {
    pending_count(state.groups, 0) + glob_fuel(modules, state)
}

/// Rounds do not depend on whether a name was bound before them.
pub proof fn lemma_resolve_rounds_from(
    modules: ModuleRegistryView,
    table: Seq<Seq<char>>,
    state: Resolution,
    fuel: nat,
)
    ensures
        resolve_rounds(modules, table, state, fuel) == resolve_rounds(
            modules,
            table,
            Resolution { changed: false, ..state },
            fuel,
        ),
{
    let cleared = Resolution { changed: false, ..state };
    crate::resolve::redirect_single::lemma_single_only_from(
        modules,
        table,
        state,
        pending_count(state.groups, 0),
    );
    assert(cleared.groups == state.groups);
}

/// The pending imports of every module, in the order in which the modules
/// were first given.
#[derive(Debug)]
pub struct RedirectRegistry {
    pub redirects: Vec<RedirectGroup>,
}

impl View for RedirectRegistry {
    type V = Seq<RedirectGroupView>;

    open spec fn view(&self) -> Seq<RedirectGroupView> {
        group_views(self.redirects@)
    }
}

/// The views of two lists of imports, one after the other, are the views
/// of the lists joined.
pub proof fn lemma_redirect_views_add(a: Seq<Redirect>, b: Seq<Redirect>)
    ensures
        redirect_views(a + b) == redirect_views(a) + redirect_views(b),
{
    assert(redirect_views(a + b) =~= redirect_views(a) + redirect_views(b));
}

fn collect_redirects_items(
    out: &mut Vec<Redirect>,
    module: &Arc<Module>,
    visibility: Visibility,
    base_prefix: &Vec<ASTUsePathPrefixSegmentKind>,
    path: &ASTUsePath,
)
    ensures
        redirect_views(final(out)@) == redirect_views(old(out)@) + path_redirects(
            *module,
            visibility,
            base_prefix@,
            *path,
        ),
    decreases path,
{
    let ghost before = redirect_views(out@);
    let mut full_prefix: Vec<ASTUsePathPrefixSegmentKind> = Vec::new();
    let mut i: usize = 0;
    while i < base_prefix.len()
        invariant
            i <= base_prefix@.len(),
            full_prefix@ == base_prefix@.take(i as int),
        decreases base_prefix@.len() - i,
    {
        full_prefix.push(base_prefix[i]);
        assert(full_prefix@ =~= base_prefix@.take(i + 1));
        i += 1;
    }
    assert(full_prefix@ =~= base_prefix@);
    match &path.prefix {
        Some(prefix) => {
            let mut k: usize = 0;
            while k < prefix.segments.len()
                invariant
                    k <= prefix.segments@.len(),
                    path.prefix == Some(*prefix),
                    full_prefix@ == base_prefix@ + path_prefix(*path).take(k as int),
                decreases prefix.segments@.len() - k,
            {
                full_prefix.push(prefix.segments[k].kind);
                assert(full_prefix@ =~= base_prefix@ + path_prefix(*path).take(k + 1));
                k += 1;
            }
            assert(path_prefix(*path).take(prefix.segments@.len() as int) =~= path_prefix(*path));
        },
        None => {
            assert(full_prefix@ =~= base_prefix@ + path_prefix(*path));
        },
    }
    match &path.item.kind {
        ASTUsePathItemKind::All(_) => {
            let redirect = Redirect::new(
                share(module),
                visibility,
                full_prefix,
                RedirectTarget::all(),
                path.span,
            );
            out.push(redirect);
            assert(redirect_views(out@) =~= before + path_redirects(
                *module,
                visibility,
                base_prefix@,
                *path,
            ));
        },
        ASTUsePathItemKind::Single(ast) => {
            let alias = match &ast.alias {
                Some(alias) => Some(alias.identifier),
                None => None,
            };
            let redirect = Redirect::new(
                share(module),
                visibility,
                full_prefix,
                RedirectTarget::single(ast.identifier, alias),
                path.span,
            );
            out.push(redirect);
            assert(redirect_views(out@) =~= before + path_redirects(
                *module,
                visibility,
                base_prefix@,
                *path,
            ));
        },
        ASTUsePathItemKind::Group(ast) => {
            let items = &ast.items.items;
            let ghost goal = group_redirects(*module, visibility, full_prefix@, items@, 0);
            let mut j: usize = 0;
            assert(redirect_views(out@) + goal =~= before + goal);
            while j < items.len()
                invariant
                    j <= items@.len(),
                    items@ == ast.items.items@,
                    path.item.kind == ASTUsePathItemKind::Group(*ast),
                    redirect_views(out@) + group_redirects(
                        *module,
                        visibility,
                        full_prefix@,
                        items@,
                        j as int,
                    ) == before + goal,
                decreases items@.len() - j,
            {
                let ghost now = redirect_views(out@);
                let item = match &items[j] {
                    PunctuatedItem::Punctuated { item, .. } => item,
                    PunctuatedItem::NotPunctuated { item } => item,
                };
                proof {
                    assert(decreases_to!(*path => path.item.kind));
                    assert(path.item.kind->Group_0 == *ast);
                    assert(decreases_to!(path.item.kind => path.item.kind->Group_0));
                    assert(decreases_to!(*ast => ast.items.items@));
                    assert(decreases_to!(ast.items.items@ => items@[j as int]));
                    assert(decreases_to!(items@[j as int] => *item));
                }
                collect_redirects_items(out, module, visibility, &full_prefix, item);
                proof {
                    let one = path_redirects(*module, visibility, full_prefix@, *item);
                    let rest = group_redirects(*module, visibility, full_prefix@, items@, j + 1);
                    assert((now + one) + rest =~= now + (one + rest));
                }
                j += 1;
            }
            assert(redirect_views(out@) + Seq::<RedirectView>::empty() =~= redirect_views(out@));
        },
    }
}

fn find_group(groups: &Vec<RedirectGroup>, module: NodeId) -> (r: Option<usize>)
    ensures
        match r {
            Some(i) => first_index(group_views(groups@), group_of(module)) == Some(i as int) && i
                < groups@.len(),
            None => first_index(group_views(groups@), group_of(module)).is_none(),
        },
{
    let mut i: usize = 0;
    while i < groups.len()
        invariant
            i <= groups@.len(),
            forall|j: int| 0 <= j < i ==> !group_of(module)(#[trigger] group_views(groups@)[j]),
        decreases groups@.len() - i,
    {
        if groups[i].module == module {
            proof {
                lemma_first_index_is(group_views(groups@), group_of(module), i as int);
            }
            return Some(i);
        }
        i += 1;
    }
    proof {
        lemma_first_index_none(group_views(groups@), group_of(module));
    }
    None
}

impl RedirectRegistry {
    pub fn new() -> (r: Self)
        ensures
            r@ == Seq::<RedirectGroupView>::empty(),
    {
        let r = Self { redirects: Vec::new() };
        assert(r@ =~= Seq::<RedirectGroupView>::empty());
        r
    }

    /// Adds the imports that the `use` items of `module` stand for to the
    /// pending imports of `module`, in source order.
    pub fn collect_redirects(&mut self, module: &Arc<Module>)
        ensures
            final(self)@ == add_redirects(
                old(self)@,
                module.spec_id(),
                module_redirects(
                    *module,
                    module.ast.spec_items(),
                    module.ast.spec_items().len() as int,
                ),
            ),
    {
        let items = module.ast.items();
        let mut collected: Vec<Redirect> = Vec::new();
        let mut i: usize = 0;
        assert(redirect_views(collected@) =~= module_redirects(*module, items@, 0));
        while i < items.len()
            invariant
                i <= items@.len(),
                items@ == module.ast.spec_items(),
                redirect_views(collected@) == module_redirects(*module, items@, i as int),
            decreases items@.len() - i,
        {
            match &items[i].kind {
                ASTModuleItemKind::Use(ast) => {
                    let base: Vec<ASTUsePathPrefixSegmentKind> = Vec::new();
                    collect_redirects_items(
                        &mut collected,
                        module,
                        Visibility::from_pub(ast.keyword_pub.is_some()),
                        &base,
                        &ast.path,
                    );
                },
                _ => {
                    assert(redirect_views(collected@) + Seq::<RedirectView>::empty()
                        =~= redirect_views(collected@));
                },
            }
            i += 1;
        }
        if collected.len() == 0 {
            return ;
        }
        let id = module.id();
        let ghost before = self@;
        let ghost added = redirect_views(collected@);
        match find_group(&self.redirects, id) {
            Some(k) => {
                let ghost had = self.redirects@[k as int].redirects@;
                proof {
                    lemma_redirect_views_add(had, collected@);
                }
                self.redirects[k].redirects.append(&mut collected);
                assert(self@ =~= before.update(
                    k as int,
                    RedirectGroupView { module: id, redirects: before[k as int].redirects + added },
                ));
            },
            None => {
                self.redirects.push(RedirectGroup { module: id, redirects: collected });
                assert(self@ =~= before.push(RedirectGroupView { module: id, redirects: added }));
            },
        }
    }

    /// Resolves the pending imports against the modules and the symbol
    /// tables, binds what they import, and reports every import that stays
    /// unresolved.
    ///
    /// A round resolves imports by name until that binds nothing, then glob
    /// imports until that binds nothing; rounds are made until one binds
    /// nothing. Every round that binds a name resolves an import for good or
    /// fills a free slot, so the rounds end. Then each import that is still
    /// pending is reported once.
    pub fn resolve_redirects(
        self,
        module_registry: &ModuleRegistry,
        global_symbol_registry: &mut GlobalSymbolRegistry,
        interner: &Interner,
        log: &mut Vec<Diagnostics>,
    )
        requires
            old(global_symbol_registry)@.wf(),
        ensures
            final(global_symbol_registry)@ == resolved(
                module_registry@,
                interner@,
                old(global_symbol_registry)@,
                log_view(old(log)@),
                self@,
            ).symbols,
            log_view(final(log)@) == resolved(
                module_registry@,
                interner@,
                old(global_symbol_registry)@,
                log_view(old(log)@),
                self@,
            ).log + unresolved_log(
                interner@,
                resolved(
                    module_registry@,
                    interner@,
                    old(global_symbol_registry)@,
                    log_view(old(log)@),
                    self@,
                ).groups,
                resolved(
                    module_registry@,
                    interner@,
                    old(global_symbol_registry)@,
                    log_view(old(log)@),
                    self@,
                ).groups.len() as int,
            ),
            final(global_symbol_registry)@.wf(),
    {
        let ghost start = Resolution {
            symbols: global_symbol_registry@,
            log: log_view(log@),
            groups: self@,
            changed: false,
        };
        let ghost goal = resolved(
            module_registry@,
            interner@,
            global_symbol_registry@,
            log_view(log@),
            self@,
        );
        let ghost names = declared_names(start.symbols.non_module_symbols);
        let ghost slots = importers(module_registry@, start.groups);
        let mut groups = self.redirects;
        let ghost mut fuel: nat = round_fuel(module_registry@, start);
        proof {
            lemma_declared_names_closed(start.symbols.non_module_symbols);
        }
        loop
            invariant_except_break
                fuel >= pending_count(group_views(groups@), 0) + free_slots(
                    global_symbol_registry@.non_module_symbols,
                    slots,
                    names,
                    slots.len() as int,
                ),
                resolve_rounds(
                    module_registry@,
                    interner@,
                    Resolution {
                        symbols: global_symbol_registry@,
                        log: log_view(log@),
                        groups: group_views(groups@),
                        changed: false,
                    },
                    fuel,
                ) == goal,
            invariant
                global_symbol_registry@.wf(),
                names_closed(global_symbol_registry@.non_module_symbols, names),
                importers(module_registry@, group_views(groups@)) == slots,
            ensures
                global_symbol_registry@ == goal.symbols,
                log_view(log@) == goal.log,
                group_views(groups@) == goal.groups,
                global_symbol_registry@.wf(),
            decreases
                pending_count(group_views(groups@), 0) + free_slots(
                    global_symbol_registry@.non_module_symbols,
                    slots,
                    names,
                    slots.len() as int,
                ),
        {
            let ghost now = Resolution {
                symbols: global_symbol_registry@,
                log: log_view(log@),
                groups: group_views(groups@),
                changed: false,
            };
            proof {
                lemma_single_only_progress(
                    module_registry@,
                    interner@,
                    now,
                    pending_count(now.groups, 0),
                    names,
                );
            }
            let by_name = resolve_redirects_single_only(
                &mut groups,
                module_registry,
                global_symbol_registry,
                interner,
                log,
            );
            let ghost named = Resolution {
                symbols: global_symbol_registry@,
                log: log_view(log@),
                groups: group_views(groups@),
                changed: by_name,
            };
            let ghost cleared = Resolution { changed: false, ..named };
            proof {
                assert(glob_fuel(module_registry@, named) == glob_fuel(module_registry@, cleared));
                crate::resolve::redirect_glob::lemma_glob_only_from(
                    module_registry@,
                    interner@,
                    named,
                    glob_fuel(module_registry@, named),
                );
                lemma_free_slots_shrink(
                    now.symbols.non_module_symbols,
                    named.symbols.non_module_symbols,
                    slots,
                    names,
                    slots.len() as int,
                );
                lemma_glob_only_progress(
                    module_registry@,
                    interner@,
                    cleared,
                    glob_fuel(module_registry@, cleared),
                    names,
                );
            }
            let by_glob = resolve_redirects_glob_only(
                &mut groups,
                module_registry,
                global_symbol_registry,
                interner,
                log,
            );
            let ghost globbed = Resolution {
                symbols: global_symbol_registry@,
                log: log_view(log@),
                groups: group_views(groups@),
                changed: by_glob,
            };
            proof {
                lemma_steady_chain(now.symbols, named.symbols, globbed.symbols, names);
            }
            if !(by_name || by_glob) {
                break ;
            }
            assert(fuel > 0);
            proof {
                lemma_resolve_rounds_from(module_registry@, interner@, globbed, (fuel - 1) as nat);
                fuel = (fuel - 1) as nat;
            }
        }
        let ghost end = log_view(log@);
        let mut i: usize = 0;
        assert(end =~= end + unresolved_log(interner@, group_views(groups@), 0));
        while i < groups.len()
            invariant
                i <= groups@.len(),
                log_view(log@) == end + unresolved_log(interner@, group_views(groups@), i as int),
            decreases groups@.len() - i,
        {
            let redirects = &groups[i].redirects;
            let ghost before = log_view(log@);
            let mut j: usize = 0;
            assert(before =~= before + unresolved_in(interner@, redirect_views(redirects@), 0));
            while j < redirects.len()
                invariant
                    j <= redirects@.len(),
                    log_view(log@) == before + unresolved_in(
                        interner@,
                        redirect_views(redirects@),
                        j as int,
                    ),
                decreases redirects@.len() - j,
            {
                let redirect = &redirects[j];
                let ghost here = log_view(log@);
                match redirect.target {
                    RedirectTarget::Glob => {
                        if !redirect.found_target_module {
                            let mut message = String::from_str("the module `");
                            message.append(visualize_prefix(interner, &redirect.prefix).as_str());
                            message.append("` is not found");
                            redirect.module.diagnostics.error(
                                log,
                                MODULE_NOT_FOUND,
                                redirect.span,
                                message,
                            );
                        }
                    },
                    RedirectTarget::Single(single_target) => {
                        let mut message = String::from_str("the symbol ");
                        message.append(interner.display(single_target.identifier.symbol).as_str());
                        message.append(" from module `");
                        message.append(visualize_prefix(interner, &redirect.prefix).as_str());
                        message.append("` is not found");
                        redirect.module.diagnostics.error(
                            log,
                            SYMBOL_NOT_FOUND,
                            redirect.span,
                            message,
                        );
                    },
                }
                assert(log_view(log@) =~= here + unresolved_diagnostics(interner@, redirect@));
                assert(redirect_views(redirects@)[j as int] == redirect@);
                assert(log_view(log@) =~= before + unresolved_in(
                    interner@,
                    redirect_views(redirects@),
                    j + 1,
                ));
                j += 1;
            }
            assert(group_views(groups@)[i as int].redirects == redirect_views(redirects@));
            assert(log_view(log@) =~= end + unresolved_log(
                interner@,
                group_views(groups@),
                i + 1,
            ));
            i += 1;
        }
    }
}

} // verus!
