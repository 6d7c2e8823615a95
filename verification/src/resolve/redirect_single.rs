use vstd::prelude::*;
use vstd::string::*;
use std::sync::Arc;
use crate::diagnostic::error_codes::SYMBOL_IS_NOT_VISIBLE;
use crate::diagnostic::message::{
    log_view, Diagnostics, DiagnosticsLevel, DiagnosticsView, SubDiagnostics,
};
use crate::diagnostic::sender::{located, sub_unlocated};
use crate::resolve::global_symbol_registry::{
    GlobalSymbol, GlobalSymbolRegistry, GlobalSymbolRegistryView, SymbolLevel,
};
use crate::resolve::module::Module;
use crate::resolve::module_registry::{ModuleRegistry, ModuleRegistryView};
use crate::resolve::path_visualizers::{global_symbol_path_text, visualize_global_symbol_path};
use crate::resolve::redirect::{
    group_views, lemma_pending_count_from, pending_count, redirect_views, Redirect,
    RedirectGroup, RedirectGroupView, RedirectSingleTarget, RedirectTarget, RedirectView,
    Resolution, StepResult, Sweep,
};
use crate::resolve::redirect_target::{resolve_target_module, target_of, TargetResolution};
use crate::sharing::share;
use crate::symbol::interner::Interner;

verus! {

/// The error for a private symbol named from another file.
pub open spec fn symbol_not_visible_diagnostic(
    table: Seq<Seq<char>>,
    origin: Arc<Module>,
    found: GlobalSymbol,
) -> DiagnosticsView {
    located(
        origin.diagnostics.file,
        SYMBOL_IS_NOT_VISIBLE,
        DiagnosticsLevel::Error,
        found.kind.spec_identifier().span,
        "the symbol `"@ + global_symbol_path_text(table, found)
            + "` is not visible from this module"@,
        seq![
            sub_unlocated(
                DiagnosticsLevel::Hint,
                "consider making the symbol public, or accessing it in same file"@,
            ),
        ],
    )
}

/// The binding that a by-name import makes of the symbol `found`: explicit,
/// with the visibility of the import, in the importing module, under the
/// alias if the import has one.
pub open spec fn imported_symbol(
    redirect: RedirectView,
    target: RedirectSingleTarget,
    found: GlobalSymbol,
) -> GlobalSymbol {
    GlobalSymbol {
        level: SymbolLevel::Explicit,
        visibility: redirect.visibility,
        module: redirect.module,
        kind: found.kind,
        identifier: target.spec_bound_identifier(),
    }
}

/// One import in a pass that resolves imports by name.
///
/// An import whose prefix fails leaves. One whose prefix is pending stays.
/// One whose prefix leads to a module is marked; a glob import then stays,
/// and so does a by-name import whose name the module does not bind yet.
/// A by-name import whose name is bound leaves: the symbol is registered
/// in the importing module if it may be seen from there, and an error is
/// reported if not.
pub open spec fn single_step(
    modules: ModuleRegistryView,
    table: Seq<Seq<char>>,
    symbols: GlobalSymbolRegistryView,
    redirect: RedirectView,
) -> StepResult {
    let target = target_of(modules, symbols, table, redirect.module, redirect.prefix);
    match target.resolution {
        TargetResolution::Failed => StepResult {
            symbols,
            log: target.log,
            keep: None,
            added: false,
        },
        TargetResolution::Pending => StepResult {
            symbols,
            log: target.log,
            keep: Some(redirect),
            added: false,
        },
        TargetResolution::Found(target_module) => match redirect.target {
            RedirectTarget::Glob => StepResult {
                symbols,
                log: target.log,
                keep: Some(redirect.marked()),
                added: false,
            },
            RedirectTarget::Single(single) => match symbols.get_any_symbol(
                target_module.spec_id(),
                single.identifier.symbol,
            ) {
                None => StepResult {
                    symbols,
                    log: target.log,
                    keep: Some(redirect.marked()),
                    added: false,
                },
                Some(found) => if redirect.module.spec_can_see(found.visibility, &found.module) {
                    let symbol = imported_symbol(redirect, single, found);
                    StepResult {
                        symbols: symbols.register(symbol.identifier.symbol, symbol),
                        log: target.log + symbols.register_log(table, symbol.identifier, symbol),
                        keep: None,
                        added: symbols.adds(symbol.identifier.symbol, symbol),
                    }
                } else {
                    StepResult {
                        symbols,
                        log: target.log.push(
                            symbol_not_visible_diagnostic(table, redirect.module, found),
                        ),
                        keep: None,
                        added: false,
                    }
                },
            },
        },
    }
}

/// The state after `step` in a pass over the imports of one module.
pub open spec fn after_step(state: Sweep, step: StepResult) -> Sweep {
    Sweep {
        symbols: step.symbols,
        log: state.log + step.log,
        kept: match step.keep {
            Some(redirect) => state.kept.push(redirect),
            None => state.kept,
        },
        changed: state.changed || step.added,
    }
}

/// The imports `redirects[from..]` of one module, each resolved by name in
/// turn.
pub open spec fn single_group(
    modules: ModuleRegistryView,
    table: Seq<Seq<char>>,
    state: Sweep,
    redirects: Seq<RedirectView>,
    from: int,
) -> Sweep
    decreases redirects.len() - from,
{
    if from < 0 || from >= redirects.len() {
        state
    } else {
        single_group(
            modules,
            table,
            after_step(state, single_step(modules, table, state.symbols, redirects[from])),
            redirects,
            from + 1,
        )
    }
}

/// The state after the imports of the group `at` were passed over and
/// `sweep` is what is left of them.
pub open spec fn after_group(state: Resolution, at: int, sweep: Sweep) -> Resolution {
    Resolution {
        symbols: sweep.symbols,
        log: sweep.log,
        groups: state.groups.update(
            at,
            RedirectGroupView { module: state.groups[at].module, redirects: sweep.kept },
        ),
        changed: sweep.changed,
    }
}

/// The state in which a pass over the group `at` begins.
pub open spec fn before_group(state: Resolution) -> Sweep {
    Sweep { symbols: state.symbols, log: state.log, kept: Seq::empty(), changed: state.changed }
}

/// One pass that resolves imports by name, over the groups from `from` on.
pub open spec fn single_sweep(
    modules: ModuleRegistryView,
    table: Seq<Seq<char>>,
    state: Resolution,
    from: int,
) -> Resolution
    decreases state.groups.len() - from,
{
    if from < 0 || from >= state.groups.len() {
        state
    } else {
        single_sweep(
            modules,
            table,
            after_group(
                state,
                from,
                single_group(modules, table, before_group(state), state.groups[from].redirects, 0),
            ),
            from + 1,
        )
    }
}

/// Passes that resolve imports by name, repeated until one binds nothing
/// or `fuel` passes were made after the first. The result says whether any
/// pass bound a name.
pub open spec fn single_only(
    modules: ModuleRegistryView,
    table: Seq<Seq<char>>,
    state: Resolution,
    fuel: nat,
) -> Resolution
    decreases fuel,
{
    let swept = single_sweep(modules, table, Resolution { changed: false, ..state }, 0);
    if !swept.changed || fuel == 0 {
        swept
    } else {
        Resolution { changed: true, ..single_only(modules, table, swept, (fuel - 1) as nat) }
    }
}

/// The passes do not depend on whether a name was bound before them.
pub proof fn lemma_single_only_from(
    modules: ModuleRegistryView,
    table: Seq<Seq<char>>,
    state: Resolution,
    fuel: nat,
)
    ensures
        single_only(modules, table, state, fuel) == single_only(
            modules,
            table,
            Resolution { changed: false, ..state },
            fuel,
        ),
{
    let cleared = Resolution { changed: false, ..state };
    assert(cleared == Resolution { changed: false, ..cleared });
}

/// A pass over one group keeps no more imports than it was given, and
/// fewer if it bound a name.
pub proof fn lemma_single_group_shrinks(
    modules: ModuleRegistryView,
    table: Seq<Seq<char>>,
    state: Sweep,
    redirects: Seq<RedirectView>,
    from: int,
)
    requires
        0 <= from <= redirects.len(),
    ensures
        ({
            let after = single_group(modules, table, state, redirects, from);
            &&& after.kept.len() <= state.kept.len() + redirects.len() - from
            &&& state.changed ==> after.changed
            &&& after.changed && !state.changed ==> after.kept.len() < state.kept.len()
                + redirects.len() - from
        }),
    decreases redirects.len() - from,
{
    if from < redirects.len() {
        let next = after_step(state, single_step(modules, table, state.symbols, redirects[from]));
        lemma_single_group_shrinks(modules, table, next, redirects, from + 1);
    }
}

/// A pass leaves no more imports pending than there were, and fewer if it
/// bound a name. It leaves the groups before `from` as they are.
pub proof fn lemma_single_sweep_shrinks(
    modules: ModuleRegistryView,
    table: Seq<Seq<char>>,
    state: Resolution,
    from: int,
)
    requires
        0 <= from <= state.groups.len(),
    ensures
        ({
            let after = single_sweep(modules, table, state, from);
            &&& after.groups.len() == state.groups.len()
            &&& forall|k: int| 0 <= k < from ==> after.groups[k] == state.groups[k]
            &&& pending_count(after.groups, from) <= pending_count(state.groups, from)
            &&& state.changed ==> after.changed
            &&& after.changed && !state.changed ==> pending_count(after.groups, from)
                < pending_count(state.groups, from)
        }),
    decreases state.groups.len() - from,
{
    if from < state.groups.len() {
        let sweep = single_group(
            modules,
            table,
            before_group(state),
            state.groups[from].redirects,
            0,
        );
        lemma_single_group_shrinks(
            modules,
            table,
            before_group(state),
            state.groups[from].redirects,
            0,
        );
        let next = after_group(state, from, sweep);
        lemma_single_sweep_shrinks(modules, table, next, from + 1);
        let after = single_sweep(modules, table, next, from + 1);
        lemma_pending_count_from(next.groups, state.groups, from + 1);
        assert(after.groups[from] == next.groups[from]);
    }
}

/// The whole number of pending imports does not depend on the groups
/// before the first.
pub proof fn lemma_single_sweep_total(
    modules: ModuleRegistryView,
    table: Seq<Seq<char>>,
    state: Resolution,
)
    ensures
        ({
            let after = single_sweep(modules, table, state, 0);
            &&& after.groups.len() == state.groups.len()
            &&& pending_count(after.groups, 0) <= pending_count(state.groups, 0)
            &&& after.changed && !state.changed ==> pending_count(after.groups, 0)
                < pending_count(state.groups, 0)
        }),
{
    lemma_single_sweep_shrinks(modules, table, state, 0);
}

fn check_global_symbol_visibility(
    interner: &Interner,
    log: &mut Vec<Diagnostics>,
    module: &Arc<Module>,
    global_symbol: &GlobalSymbol,
) -> (r: bool)
    ensures
        r == module.spec_can_see(global_symbol.visibility, &*global_symbol.module),
        log_view(final(log)@) == (if r {
            log_view(old(log)@)
        } else {
            log_view(old(log)@).push(
                symbol_not_visible_diagnostic(interner@, *module, *global_symbol),
            )
        }),
{
    if module.can_see(global_symbol.visibility, &global_symbol.module) {
        return true;
    }
    let mut message = String::from_str("the symbol `");
    message.append(visualize_global_symbol_path(interner, global_symbol).as_str());
    message.append("` is not visible from this module");
    let hint = module.diagnostics.sub_hint_simple(
        String::from_str("consider making the symbol public, or accessing it in same file"),
    );
    let subs = vec![hint];
    assert(subs@.map_values(|sub: SubDiagnostics| sub@) =~= seq![
        sub_unlocated(
            DiagnosticsLevel::Hint,
            "consider making the symbol public, or accessing it in same file"@,
        ),
    ]);
    module.diagnostics.error_sub(
        log,
        SYMBOL_IS_NOT_VISIBLE,
        global_symbol.kind.identifier().span,
        message,
        subs,
    );
    false
}

/// Resolves one import by name. Returns the import if it stays pending,
/// and whether a name was bound.
pub fn resolve_single(
    module_registry: &ModuleRegistry,
    global_symbol_registry: &mut GlobalSymbolRegistry,
    interner: &Interner,
    log: &mut Vec<Diagnostics>,
    redirect: Redirect,
) -> (r: (Option<Redirect>, bool))
    ensures
        final(global_symbol_registry)@ == single_step(
            module_registry@,
            interner@,
            old(global_symbol_registry)@,
            redirect@,
        ).symbols,
        log_view(final(log)@) == log_view(old(log)@) + single_step(
            module_registry@,
            interner@,
            old(global_symbol_registry)@,
            redirect@,
        ).log,
        single_step(module_registry@, interner@, old(global_symbol_registry)@, redirect@).keep
            == (match r.0 {
            Some(kept) => Some(kept@),
            None => None,
        }),
        r.1 == single_step(module_registry@, interner@, old(global_symbol_registry)@, redirect@).added,
        old(global_symbol_registry)@.wf() ==> final(global_symbol_registry)@.wf(),
{
    let ghost before = log_view(log@);
    let ghost goal = single_step(module_registry@, interner@, global_symbol_registry@, redirect@);
    let mut redirect = redirect;
    let resolution = resolve_target_module(
        module_registry,
        &*global_symbol_registry,
        interner,
        log,
        &redirect.module,
        &redirect.prefix,
    );
    let target_module = match resolution {
        TargetResolution::Failed => {
            return (None, false);
        },
        TargetResolution::Pending => {
            return (Some(redirect), false);
        },
        TargetResolution::Found(target_module) => target_module,
    };
    let ghost unmarked = redirect@;
    redirect.found_target_module = true;
    assert(redirect@ == unmarked.marked());
    let single_target = match redirect.target {
        RedirectTarget::Glob => {
            return (Some(redirect), false);
        },
        RedirectTarget::Single(single_target) => single_target,
    };
    let found = match global_symbol_registry.get_any_symbol(
        &target_module,
        single_target.identifier.symbol,
    ) {
        Some(global_symbol) => global_symbol.duplicate(),
        None => {
            return (Some(redirect), false);
        },
    };
    if check_global_symbol_visibility(interner, log, &redirect.module, &found) {
        let symbol = GlobalSymbol::new(
            SymbolLevel::Explicit,
            redirect.visibility,
            share(&redirect.module),
            found.kind.duplicate(),
            single_target.bound_identifier(),
        );
        assert(symbol == imported_symbol(unmarked, single_target, found));
        let added = global_symbol_registry.register(interner, log, symbol);
        assert(log_view(log@) =~= before + goal.log);
        (None, added)
    } else {
        assert(log_view(log@) =~= before + goal.log);
        (None, false)
    }
}

/// Resolves the imports of one module by name, each in turn. Returns those
/// that stay pending, and whether a name was bound now or before.
pub fn resolve_single_group(
    module_registry: &ModuleRegistry,
    global_symbol_registry: &mut GlobalSymbolRegistry,
    interner: &Interner,
    log: &mut Vec<Diagnostics>,
    redirects: Vec<Redirect>,
    changed: bool,
) -> (r: (Vec<Redirect>, bool))
    ensures
        (Sweep {
            symbols: final(global_symbol_registry)@,
            log: log_view(final(log)@),
            kept: redirect_views(r.0@),
            changed: r.1,
        }) == single_group(
            module_registry@,
            interner@,
            Sweep {
                symbols: old(global_symbol_registry)@,
                log: log_view(old(log)@),
                kept: Seq::empty(),
                changed,
            },
            redirect_views(redirects@),
            0,
        ),
        old(global_symbol_registry)@.wf() ==> final(global_symbol_registry)@.wf(),
{
    let ghost all = redirect_views(redirects@);
    let ghost start = Sweep {
        symbols: global_symbol_registry@,
        log: log_view(log@),
        kept: Seq::empty(),
        changed,
    };
    let ghost goal = single_group(module_registry@, interner@, start, all, 0);
    let mut redirects = redirects;
    let mut kept: Vec<Redirect> = Vec::new();
    let mut changed = changed;
    let ghost mut done: int = 0;
    assert(redirect_views(kept@) =~= Seq::empty());
    assert(redirect_views(redirects@) =~= all.subrange(0, all.len() as int));
    while redirects.len() > 0
        invariant
            0 <= done <= all.len(),
            redirect_views(redirects@) == all.subrange(done, all.len() as int),
            old(global_symbol_registry)@.wf() ==> global_symbol_registry@.wf(),
            single_group(
                module_registry@,
                interner@,
                Sweep {
                    symbols: global_symbol_registry@,
                    log: log_view(log@),
                    kept: redirect_views(kept@),
                    changed,
                },
                all,
                done,
            ) == goal,
        decreases redirects@.len(),
    {
        let ghost now = Sweep {
            symbols: global_symbol_registry@,
            log: log_view(log@),
            kept: redirect_views(kept@),
            changed,
        };
        let ghost rest = redirect_views(redirects@);
        assert(rest.len() == redirects@.len());
        let redirect = redirects.remove(0);
        assert(redirect@ == rest[0]);
        assert(rest[0] == all[done]);
        assert forall|k: int| 0 <= k < redirects@.len() implies #[trigger] redirect_views(
            redirects@,
        )[k] == all[done + 1 + k] by {
            assert(redirect_views(redirects@)[k] == rest[k + 1]);
        }
        assert(redirect_views(redirects@) =~= all.subrange(done + 1, all.len() as int));
        let ghost step = single_step(
            module_registry@,
            interner@,
            global_symbol_registry@,
            redirect@,
        );
        let (keep, added) = resolve_single(
            module_registry,
            global_symbol_registry,
            interner,
            log,
            redirect,
        );
        let ghost kept_before = redirect_views(kept@);
        match keep {
            Some(redirect) => {
                kept.push(redirect);
                assert(redirect_views(kept@) =~= kept_before.push(step.keep->0));
            },
            None => {},
        }
        changed = changed || added;
        proof {
            done = done + 1;
            assert(Sweep {
                symbols: global_symbol_registry@,
                log: log_view(log@),
                kept: redirect_views(kept@),
                changed,
            } == after_step(now, step));
        }
    }
    (kept, changed)
}

/// One pass that resolves the imports of every module by name. Returns
/// whether a name was bound.
pub fn resolve_single_sweep(
    groups: &mut Vec<RedirectGroup>,
    module_registry: &ModuleRegistry,
    global_symbol_registry: &mut GlobalSymbolRegistry,
    interner: &Interner,
    log: &mut Vec<Diagnostics>,
) -> (changed: bool)
    ensures
        (Resolution {
            symbols: final(global_symbol_registry)@,
            log: log_view(final(log)@),
            groups: group_views(final(groups)@),
            changed,
        }) == single_sweep(
            module_registry@,
            interner@,
            Resolution {
                symbols: old(global_symbol_registry)@,
                log: log_view(old(log)@),
                groups: group_views(old(groups)@),
                changed: false,
            },
            0,
        ),
        old(global_symbol_registry)@.wf() ==> final(global_symbol_registry)@.wf(),
{
    let ghost start = Resolution {
        symbols: global_symbol_registry@,
        log: log_view(log@),
        groups: group_views(groups@),
        changed: false,
    };
    let ghost goal = single_sweep(module_registry@, interner@, start, 0);
    let mut changed = false;
    let mut i: usize = 0;
    while i < groups.len()
        invariant
            i <= groups@.len(),
            old(global_symbol_registry)@.wf() ==> global_symbol_registry@.wf(),
            single_sweep(
                module_registry@,
                interner@,
                Resolution {
                    symbols: global_symbol_registry@,
                    log: log_view(log@),
                    groups: group_views(groups@),
                    changed,
                },
                i as int,
            ) == goal,
        decreases groups@.len() - i,
    {
        let ghost now = Resolution {
            symbols: global_symbol_registry@,
            log: log_view(log@),
            groups: group_views(groups@),
            changed,
        };
        let mut pending: Vec<Redirect> = Vec::new();
        core::mem::swap(&mut groups[i].redirects, &mut pending);
        assert(redirect_views(pending@) == now.groups[i as int].redirects);
        let (kept, swept) = resolve_single_group(
            module_registry,
            global_symbol_registry,
            interner,
            log,
            pending,
            changed,
        );
        let ghost sweep = Sweep {
            symbols: global_symbol_registry@,
            log: log_view(log@),
            kept: redirect_views(kept@),
            changed: swept,
        };
        groups[i].redirects = kept;
        changed = swept;
        proof {
            assert(group_views(groups@) =~= after_group(now, i as int, sweep).groups);
            assert(Resolution {
                symbols: global_symbol_registry@,
                log: log_view(log@),
                groups: group_views(groups@),
                changed,
            } == after_group(now, i as int, sweep));
        }
        i += 1;
    }
    changed
}

/// Passes that resolve imports by name, until one binds nothing. Every
/// pass that binds a name resolves an import for good, so the passes end.
/// Returns whether any pass bound a name.
pub fn resolve_redirects_single_only(
    groups: &mut Vec<RedirectGroup>,
    module_registry: &ModuleRegistry,
    global_symbol_registry: &mut GlobalSymbolRegistry,
    interner: &Interner,
    log: &mut Vec<Diagnostics>,
) -> (changed: bool)
    ensures
        (Resolution {
            symbols: final(global_symbol_registry)@,
            log: log_view(final(log)@),
            groups: group_views(final(groups)@),
            changed,
        }) == single_only(
            module_registry@,
            interner@,
            Resolution {
                symbols: old(global_symbol_registry)@,
                log: log_view(old(log)@),
                groups: group_views(old(groups)@),
                changed: false,
            },
            pending_count(group_views(old(groups)@), 0),
        ),
        old(global_symbol_registry)@.wf() ==> final(global_symbol_registry)@.wf(),
{
    let ghost start = Resolution {
        symbols: global_symbol_registry@,
        log: log_view(log@),
        groups: group_views(groups@),
        changed: false,
    };
    let ghost goal = single_only(
        module_registry@,
        interner@,
        start,
        pending_count(start.groups, 0),
    );
    let mut changed_at_least_once = false;
    let ghost mut fuel: nat = pending_count(start.groups, 0);
    loop
        invariant_except_break
            fuel >= pending_count(group_views(groups@), 0),
            ({
                let rest = single_only(
                    module_registry@,
                    interner@,
                    Resolution {
                        symbols: global_symbol_registry@,
                        log: log_view(log@),
                        groups: group_views(groups@),
                        changed: false,
                    },
                    fuel,
                );
                goal == Resolution { changed: changed_at_least_once || rest.changed, ..rest }
            }),
        invariant
            old(global_symbol_registry)@.wf() ==> global_symbol_registry@.wf(),
        ensures
            (Resolution {
                symbols: global_symbol_registry@,
                log: log_view(log@),
                groups: group_views(groups@),
                changed: changed_at_least_once,
            }) == goal,
            old(global_symbol_registry)@.wf() ==> global_symbol_registry@.wf(),
        decreases pending_count(group_views(groups@), 0),
    {
        let ghost now = Resolution {
            symbols: global_symbol_registry@,
            log: log_view(log@),
            groups: group_views(groups@),
            changed: false,
        };
        proof {
            lemma_single_sweep_total(module_registry@, interner@, now);
        }
        let changed = resolve_single_sweep(
            groups,
            module_registry,
            global_symbol_registry,
            interner,
            log,
        );
        let ghost swept = single_sweep(module_registry@, interner@, now, 0);
        let ghost rest = single_only(module_registry@, interner@, now, fuel);
        assert(now == Resolution { changed: false, ..now });
        if !changed {
            assert(rest == swept);
            break ;
        }
        assert(fuel > 0);
        proof {
            lemma_single_only_from(module_registry@, interner@, swept, (fuel - 1) as nat);
        }
        changed_at_least_once = true;
        proof {
            fuel = (fuel - 1) as nat;
        }
    }
    changed_at_least_once
}

} // verus!
