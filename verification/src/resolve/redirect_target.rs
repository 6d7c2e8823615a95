use vstd::prelude::*;
use vstd::string::*;
use std::sync::Arc;
use crate::diagnostic::error_codes::{MODULE_HAS_NO_SUPER, MODULE_IS_NOT_VISIBLE};
use crate::diagnostic::message::{
    log_view, Diagnostics, DiagnosticsLevel, DiagnosticsView, SubDiagnostics,
};
use crate::diagnostic::sender::{located, sub_unlocated};
use crate::parse::ast::tree::{ASTUsePathPrefixSegmentKind, Id};
use crate::resolve::global_symbol_registry::{
    GlobalSymbolKind, GlobalSymbolRegistry, GlobalSymbolRegistryView,
};
use crate::resolve::module::Module;
use crate::resolve::module_registry::{copy_path, ModuleRegistry, ModuleRegistryView};
use crate::resolve::path_visualizers::{module_path_text, visualize_module_path};
use crate::sharing::share;
use crate::span::span_range::Span;
use crate::symbol::interner::{quoted, Interner};

verus! {

/// Where the prefix of an import leads.
#[derive(Debug)]
pub enum TargetResolution {
    /// To this module.
    Found(Arc<Module>),
    /// Nowhere yet: a name on the way is not bound. It may be bound later.
    Pending,
    /// Nowhere, for good. The reason has been reported.
    Failed,
}

/// Where a prefix leads, and what was reported on the way.
pub struct TargetOutcome {
    pub resolution: TargetResolution,
    pub log: Seq<DiagnosticsView>,
}

/// The error for `super` in a module that has no parent.
pub open spec fn no_super_diagnostic(
    table: Seq<Seq<char>>,
    origin: Arc<Module>,
    current: Arc<Module>,
    id: Id,
) -> DiagnosticsView {
    located(
        origin.diagnostics.file,
        MODULE_HAS_NO_SUPER,
        DiagnosticsLevel::Error,
        id.span,
        quoted(table, id.symbol) + " is not allowed here; the module `"@ + module_path_text(
            table,
            current.path@,
        ) + "` is already at root level"@,
        Seq::empty(),
    )
}

/// The error for a private module named from another file.
pub open spec fn module_not_visible_diagnostic(
    table: Seq<Seq<char>>,
    origin: Arc<Module>,
    target: Arc<Module>,
    span: Span,
) -> DiagnosticsView {
    located(
        origin.diagnostics.file,
        MODULE_IS_NOT_VISIBLE,
        DiagnosticsLevel::Error,
        span,
        "the module `"@ + module_path_text(table, target.path@)
            + "` is not visible from this module"@,
        seq![
            sub_unlocated(
                DiagnosticsLevel::Hint,
                "consider making the module public, or accessing it in same file"@,
            ),
        ],
    )
}

/// Follows `prefix[from..]` from the module `current`, on behalf of an
/// import that stands in `origin`.
///
/// `self` stays. `super` goes to the module whose path is one segment
/// shorter: an error in a module whose path has one segment, and pending
/// where no module has that path. A name goes to the module that the name
/// is bound to among the module symbols of `current`: pending where it is
/// not bound or the bound module is not registered. Each module reached
/// must be public or in the file of `origin`, else an error.
pub open spec fn resolve_target(
    modules: ModuleRegistryView,
    symbols: GlobalSymbolRegistryView,
    table: Seq<Seq<char>>,
    origin: Arc<Module>,
    current: Arc<Module>,
    prefix: Seq<ASTUsePathPrefixSegmentKind>,
    from: int,
) -> TargetOutcome
    decreases prefix.len() - from,
{
    if from < 0 || from >= prefix.len() {
        TargetOutcome { resolution: TargetResolution::Found(current), log: Seq::empty() }
    } else {
        match prefix[from] {
            ASTUsePathPrefixSegmentKind::Self_(_) => resolve_target(
                modules,
                symbols,
                table,
                origin,
                current,
                prefix,
                from + 1,
            ),
            ASTUsePathPrefixSegmentKind::Super_(id) => {
                if current.path@.len() <= 1 {
                    TargetOutcome {
                        resolution: TargetResolution::Failed,
                        log: seq![no_super_diagnostic(table, origin, current, id)],
                    }
                } else {
                    match modules.get_module(current.path@.drop_last()) {
                        None => TargetOutcome {
                            resolution: TargetResolution::Pending,
                            log: Seq::empty(),
                        },
                        Some(next) => if origin.spec_can_see(next.visibility, &next) {
                            resolve_target(modules, symbols, table, origin, next, prefix, from + 1)
                        } else {
                            TargetOutcome {
                                resolution: TargetResolution::Failed,
                                log: seq![
                                    module_not_visible_diagnostic(table, origin, next, id.span),
                                ],
                            }
                        },
                    }
                }
            },
            ASTUsePathPrefixSegmentKind::Identifier(id) => {
                match symbols.get_module_symbol(current.spec_id(), id.symbol) {
                    None => TargetOutcome {
                        resolution: TargetResolution::Pending,
                        log: Seq::empty(),
                    },
                    Some(symbol) => {
                        if !symbol.kind.spec_is_module() {
                            TargetOutcome {
                                resolution: TargetResolution::Pending,
                                log: Seq::empty(),
                            }
                        } else {
                            match modules.get_module_by_id(symbol.kind.spec_id()) {
                                None => TargetOutcome {
                                    resolution: TargetResolution::Pending,
                                    log: Seq::empty(),
                                },
                                Some(next) => if origin.spec_can_see(next.visibility, &next) {
                                    resolve_target(
                                        modules,
                                        symbols,
                                        table,
                                        origin,
                                        next,
                                        prefix,
                                        from + 1,
                                    )
                                } else {
                                    TargetOutcome {
                                        resolution: TargetResolution::Failed,
                                        log: seq![
                                            module_not_visible_diagnostic(
                                                table,
                                                origin,
                                                next,
                                                id.span,
                                            ),
                                        ],
                                    }
                                },
                            }
                        }
                    },
                }
            },
        }
    }
}

/// The target module of an import of `origin` with this prefix.
pub open spec fn target_of(
    modules: ModuleRegistryView,
    symbols: GlobalSymbolRegistryView,
    table: Seq<Seq<char>>,
    origin: Arc<Module>,
    prefix: Seq<ASTUsePathPrefixSegmentKind>,
) -> TargetOutcome {
    resolve_target(modules, symbols, table, origin, origin, prefix, 0)
}

fn check_module_has_super(
    interner: &Interner,
    log: &mut Vec<Diagnostics>,
    module: &Arc<Module>,
    target_module: &Arc<Module>,
    id: Id,
) -> (r: bool)
    ensures
        r == (target_module.path@.len() > 1),
        log_view(final(log)@) == (if r {
            log_view(old(log)@)
        } else {
            log_view(old(log)@).push(no_super_diagnostic(interner@, *module, *target_module, id))
        }),
{
    if 1 < target_module.path.len() {
        return true;
    }
    let mut message = interner.display(id.symbol);
    message.append(" is not allowed here; the module `");
    message.append(visualize_module_path(interner, &target_module.path).as_str());
    message.append("` is already at root level");
    module.diagnostics.error(log, MODULE_HAS_NO_SUPER, id.span, message);
    false
}

fn check_module_visibility(
    interner: &Interner,
    log: &mut Vec<Diagnostics>,
    module: &Arc<Module>,
    target_module: &Arc<Module>,
    span: Span,
) -> (r: bool)
    ensures
        r == module.spec_can_see(target_module.visibility, &**target_module),
        log_view(final(log)@) == (if r {
            log_view(old(log)@)
        } else {
            log_view(old(log)@).push(
                module_not_visible_diagnostic(interner@, *module, *target_module, span),
            )
        }),
{
    if module.can_see(target_module.visibility, target_module) {
        return true;
    }
    let mut message = String::from_str("the module `");
    message.append(visualize_module_path(interner, &target_module.path).as_str());
    message.append("` is not visible from this module");
    let hint = module.diagnostics.sub_hint_simple(
        String::from_str("consider making the module public, or accessing it in same file"),
    );
    let subs = vec![hint];
    assert(subs@.map_values(|sub: SubDiagnostics| sub@) =~= seq![
        sub_unlocated(
            DiagnosticsLevel::Hint,
            "consider making the module public, or accessing it in same file"@,
        ),
    ]);
    module.diagnostics.error_sub(log, MODULE_IS_NOT_VISIBLE, span, message, subs);
    false
}

/// Follows the prefix of an import that stands in `module`, and reports
/// the error if the prefix fails for good.
pub fn resolve_target_module(
    module_registry: &ModuleRegistry,
    global_symbol_registry: &GlobalSymbolRegistry,
    interner: &Interner,
    log: &mut Vec<Diagnostics>,
    module: &Arc<Module>,
    prefix: &Vec<ASTUsePathPrefixSegmentKind>,
) -> (r: TargetResolution)
    ensures
        r == target_of(
            module_registry@,
            global_symbol_registry@,
            interner@,
            *module,
            prefix@,
        ).resolution,
        log_view(final(log)@) == log_view(old(log)@) + target_of(
            module_registry@,
            global_symbol_registry@,
            interner@,
            *module,
            prefix@,
        ).log,
{
    let ghost goal = target_of(
        module_registry@,
        global_symbol_registry@,
        interner@,
        *module,
        prefix@,
    );
    let ghost before = log_view(log@);
    let mut target_module = share(module);
    let mut i: usize = 0;
    while i < prefix.len()
        invariant
            i <= prefix@.len(),
            log_view(log@) == before,
            before == log_view(old(log)@),
            goal == target_of(
                module_registry@,
                global_symbol_registry@,
                interner@,
                *module,
                prefix@,
            ),
            resolve_target(
                module_registry@,
                global_symbol_registry@,
                interner@,
                *module,
                target_module,
                prefix@,
                i as int,
            ) == goal,
        decreases prefix@.len() - i,
    {
        match prefix[i] {
            ASTUsePathPrefixSegmentKind::Self_(_) => {},
            ASTUsePathPrefixSegmentKind::Super_(id) => {
                if !check_module_has_super(interner, log, module, &target_module, id) {
                    assert(log_view(log@) =~= before + goal.log);
                    return TargetResolution::Failed;
                }
                let mut path = copy_path(&target_module.path);
                path.pop();
                assert(path@ =~= target_module.path@.drop_last());
                let next = match module_registry.get_module(&path) {
                    Some(next) => share(next),
                    None => {
                        assert(log_view(log@) =~= before + goal.log);
                        return TargetResolution::Pending;
                    },
                };
                if !check_module_visibility(interner, log, module, &next, id.span) {
                    assert(log_view(log@) =~= before + goal.log);
                    return TargetResolution::Failed;
                }
                target_module = next;
            },
            ASTUsePathPrefixSegmentKind::Identifier(id) => {
                let found = match global_symbol_registry.get_module_symbol(
                    &target_module,
                    id.symbol,
                ) {
                    Some(global_symbol) => match &global_symbol.kind {
                        GlobalSymbolKind::ModuleDecl(ast) => module_registry.get_module_by_id(
                            ast.id,
                        ),
                        GlobalSymbolKind::ModuleDef(ast) => module_registry.get_module_by_id(
                            ast.id,
                        ),
                        _ => None,
                    },
                    None => None,
                };
                let next = match found {
                    Some(next) => share(next),
                    None => {
                        assert(log_view(log@) =~= before + goal.log);
                        return TargetResolution::Pending;
                    },
                };
                if !check_module_visibility(interner, log, module, &next, id.span) {
                    assert(log_view(log@) =~= before + goal.log);
                    return TargetResolution::Failed;
                }
                target_module = next;
            },
        }
        i += 1;
    }
    assert(log_view(log@) =~= before + goal.log);
    TargetResolution::Found(target_module)
}

} // verus!
