use vstd::prelude::*;
use std::sync::Arc;
use crate::parse::ast::node_id::NodeId;
use crate::parse::ast::tree::{ASTUsePathPrefixSegmentKind, Id};
use crate::resolve::module::Module;
use crate::resolve::visibility::Visibility;
use crate::span::span_range::Span;

verus! {

/// The one name that an import asks for, and the name it is to have here.
#[derive(Debug, Clone, Copy, PartialEq, Eq, Structural, Hash)]
pub struct RedirectSingleTarget {
    pub identifier: Id,
    pub alias: Option<Id>,
}

impl RedirectSingleTarget {
    /// The name that the import binds: the alias if there is one.
    pub open spec fn spec_bound_identifier(self) -> Id {
        match self.alias {
            Some(alias) => alias,
            None => self.identifier,
        }
    }

    pub fn bound_identifier(self) -> (r: Id)
        ensures
            r == self.spec_bound_identifier(),
    {
        match self.alias {
            Some(alias) => alias,
            None => self.identifier,
        }
    }
}

/// What an import asks of its target module: everything, or one name.
#[derive(Debug, Clone, Copy, PartialEq, Eq, Structural, Hash)]
pub enum RedirectTarget {
    Glob,
    Single(RedirectSingleTarget),
}

impl RedirectTarget {
    pub fn all() -> (r: Self)
        ensures
            r == RedirectTarget::Glob,
    {
        Self::Glob
    }

    pub fn single(identifier: Id, alias: Option<Id>) -> (r: Self)
        ensures
            r == RedirectTarget::Single(RedirectSingleTarget { identifier, alias }),
    {
        Self::Single(RedirectSingleTarget { identifier, alias })
    }
}

/// One pending import: a leaf of a `use` path, with the whole prefix that
/// leads to it.
#[derive(Debug)]
pub struct Redirect {
    pub module: Arc<Module>,
    pub visibility: Visibility,
    pub prefix: Vec<ASTUsePathPrefixSegmentKind>,
    pub target: RedirectTarget,
    /// Whether the prefix has led to a module at least once. A glob import
    /// for which it never did is reported when resolution ends.
    pub found_target_module: bool,
    pub span: Span,
}

/// A pending import as a plain value.
pub struct RedirectView {
    pub module: Arc<Module>,
    pub visibility: Visibility,
    pub prefix: Seq<ASTUsePathPrefixSegmentKind>,
    pub target: RedirectTarget,
    pub found_target_module: bool,
    pub span: Span,
}

impl View for Redirect {
    type V = RedirectView;

    open spec fn view(&self) -> RedirectView {
        RedirectView {
            module: self.module,
            visibility: self.visibility,
            prefix: self.prefix@,
            target: self.target,
            found_target_module: self.found_target_module,
            span: self.span,
        }
    }
}

impl RedirectView {
    /// The same import, marked as having found its target module.
    pub open spec fn marked(self) -> RedirectView {
        RedirectView { found_target_module: true, ..self }
    }
}

impl Redirect {
    pub fn new(
        module: Arc<Module>,
        visibility: Visibility,
        prefix: Vec<ASTUsePathPrefixSegmentKind>,
        target: RedirectTarget,
        span: Span,
    ) -> (r: Self)
        ensures
            r == (Redirect {
                module,
                visibility,
                prefix,
                target,
                found_target_module: false,
                span,
            }),
    {
        Self { module, visibility, prefix, target, found_target_module: false, span }
    }
}

/// A glob import whose target module is known, for the length of one pass.
#[derive(Debug)]
pub struct GlobRedirect {
    pub module: Arc<Module>,
    pub target_module: Arc<Module>,
    pub visibility: Visibility,
}

impl GlobRedirect {
    pub fn new(module: Arc<Module>, target_module: Arc<Module>, visibility: Visibility) -> (r: Self)
        ensures
            r == (GlobRedirect { module, target_module, visibility }),
    {
        Self { module, target_module, visibility }
    }
}

/// The pending imports of one module, in source order.
#[derive(Debug)]
pub struct RedirectGroup {
    pub module: NodeId,
    pub redirects: Vec<Redirect>,
}

/// The pending imports of one module as plain values.
pub struct RedirectGroupView {
    pub module: NodeId,
    pub redirects: Seq<RedirectView>,
}

/// A list of imports as plain values.
pub open spec fn redirect_views(redirects: Seq<Redirect>) -> Seq<RedirectView> {
    redirects.map_values(|redirect: Redirect| redirect@)
}

impl View for RedirectGroup {
    type V = RedirectGroupView;

    open spec fn view(&self) -> RedirectGroupView {
        RedirectGroupView { module: self.module, redirects: redirect_views(self.redirects@) }
    }
}

/// A list of groups as plain values.
pub open spec fn group_views(groups: Seq<RedirectGroup>) -> Seq<RedirectGroupView> {
    groups.map_values(|group: RedirectGroup| group@)
}

/// The number of imports in all groups from `from` on.
pub open spec fn pending_count(groups: Seq<RedirectGroupView>, from: int) -> nat
    decreases groups.len() - from,
{
    if from < 0 || from >= groups.len() {
        0
    } else {
        groups[from].redirects.len() + pending_count(groups, from + 1)
    }
}

} // verus!

verus! {

/// What resolving one import did: the symbol tables after it, what it
/// reported, the import itself if it stays pending, and whether it bound
/// a name.
pub struct StepResult {
    pub symbols: crate::resolve::global_symbol_registry::GlobalSymbolRegistryView,
    pub log: Seq<crate::diagnostic::message::DiagnosticsView>,
    pub keep: Option<RedirectView>,
    pub added: bool,
}

/// The state of a pass over the imports of one module: the symbol tables,
/// all that was reported, the imports that stay pending, and whether a name
/// was bound.
pub struct Sweep {
    pub symbols: crate::resolve::global_symbol_registry::GlobalSymbolRegistryView,
    pub log: Seq<crate::diagnostic::message::DiagnosticsView>,
    pub kept: Seq<RedirectView>,
    pub changed: bool,
}

/// The state of import resolution: the symbol tables, all that was
/// reported, the pending imports of every module, and whether a name was
/// bound.
pub struct Resolution {
    pub symbols: crate::resolve::global_symbol_registry::GlobalSymbolRegistryView,
    pub log: Seq<crate::diagnostic::message::DiagnosticsView>,
    pub groups: Seq<RedirectGroupView>,
    pub changed: bool,
}

/// The number of pending imports depends on the groups from `from` on alone.
pub proof fn lemma_pending_count_from(a: Seq<RedirectGroupView>, b: Seq<RedirectGroupView>, from: int)
    requires
        a.len() == b.len(),
        forall|k: int| from <= k < a.len() && 0 <= k ==> a[k].redirects.len() == b[k].redirects.len(),
    ensures
        pending_count(a, from) == pending_count(b, from),
    decreases a.len() - from,
{
    if 0 <= from < a.len() {
        lemma_pending_count_from(a, b, from + 1);
    }
}

} // verus!
