use vstd::prelude::*;
use vstd::string::*;
use std::sync::Arc;
use crate::diagnostic::error_codes::DUPLICATED_MODULE;
use crate::diagnostic::message::{
    log_view, Diagnostics, DiagnosticsLevel, DiagnosticsView, SubDiagnostics, SubDiagnosticsView,
};
use crate::diagnostic::sender::{located, sub_located, sub_unlocated};
use crate::parse::ast::node_id::NodeId;
use crate::parse::ast::tree::{ASTModuleDecl, ASTModuleDef, ASTModuleItem, ASTModuleItemKind};
use crate::resolve::module::{Module, ModuleASTKind, ModuleView};
use crate::resolve::seq_search::{
    first_index, lemma_first_index, lemma_first_index_is, lemma_first_index_none,
};
use crate::resolve::visibility::Visibility;
use crate::sharing::share;
use crate::symbol::interner::{quoted, Interner};
use crate::symbol::name::Symbol;

verus! {

/// One row of the identity table: the module that a syntax node stands for.
#[derive(Debug)]
pub struct ModuleIdEntry {
    pub id: NodeId,
    pub module: Arc<Module>,
}

/// The modules at `path`.
pub open spec fn at_path(path: Seq<Symbol>) -> spec_fn(Arc<Module>) -> bool {
    |module: Arc<Module>| module.path@ == path
}

/// The rows for the node `id`.
pub open spec fn for_node(id: NodeId) -> spec_fn(ModuleIdEntry) -> bool {
    |entry: ModuleIdEntry| entry.id == id
}

/// The rows for the node `id`, among plain values.
pub open spec fn view_for_node(id: NodeId) -> spec_fn((NodeId, ModuleView)) -> bool {
    |entry: (NodeId, ModuleView)| entry.0 == id
}

/// The modules at `path`, among plain values.
pub open spec fn view_at_path(path: Seq<Symbol>) -> spec_fn(ModuleView) -> bool {
    |module: ModuleView| module.path == path
}

/// The module registry as a value: the modules in the order in which their
/// paths were first registered, and the identity table in the order in which
/// nodes were first registered.
pub struct ModuleRegistryView {
    pub modules: Seq<Arc<Module>>,
    pub ids: Seq<ModuleIdEntry>,
}

impl ModuleRegistryView {
    /// No path and no node is registered twice.
    pub open spec fn wf(self) -> bool {
        &&& forall|i: int, j: int|
            0 <= i < j < self.modules.len() ==> self.modules[i].path@ != self.modules[j].path@
        &&& forall|i: int, j: int| 0 <= i < j < self.ids.len() ==> self.ids[i].id != self.ids[j].id
    }

    pub open spec fn has_module(self, path: Seq<Symbol>) -> bool {
        first_index(self.modules, at_path(path)).is_some()
    }

    pub open spec fn get_module(self, path: Seq<Symbol>) -> Option<Arc<Module>> {
        match first_index(self.modules, at_path(path)) {
            Some(i) => Some(self.modules[i]),
            None => None,
        }
    }

    pub open spec fn get_module_by_id(self, id: NodeId) -> Option<Arc<Module>> {
        match first_index(self.ids, for_node(id)) {
            Some(i) => Some(self.ids[i].module),
            None => None,
        }
    }

    /// The modules after `module` is stored under its path: in the place of
    /// the module that had the path, or at the end.
    pub open spec fn put_path(self, module: Arc<Module>) -> Seq<Arc<Module>> {
        match first_index(self.modules, at_path(module.path@)) {
            Some(i) => self.modules.update(i, module),
            None => self.modules.push(module),
        }
    }

    /// The identity table after `module` is stored for the node `id`.
    pub open spec fn put_id(self, id: NodeId, module: Arc<Module>) -> Seq<ModuleIdEntry> {
        match first_index(self.ids, for_node(id)) {
            Some(i) => self.ids.update(i, ModuleIdEntry { id, module }),
            None => self.ids.push(ModuleIdEntry { id, module }),
        }
    }

    pub open spec fn register(self, module: Arc<Module>) -> ModuleRegistryView {
        ModuleRegistryView {
            modules: self.put_path(module),
            ids: self.put_id(module.spec_id(), module),
        }
    }

    pub open spec fn register_module_decl(self, id: NodeId, module: Arc<Module>) -> ModuleRegistryView {
        ModuleRegistryView { modules: self.modules, ids: self.put_id(id, module) }
    }

    /// The registered modules as plain values.
    pub open spec fn module_views(self) -> Seq<ModuleView> {
        self.modules.map_values(|module: Arc<Module>| module@)
    }

    /// The identity table as plain values.
    pub open spec fn id_views(self) -> Seq<(NodeId, ModuleView)> {
        self.ids.map_values(|entry: ModuleIdEntry| (entry.id, entry.module@))
    }

    pub open spec fn table(self) -> ModuleTable {
        ModuleTable { modules: self.module_views(), ids: self.id_views() }
    }
}

/// A module registry whose modules are plain values.
pub struct ModuleTable {
    pub modules: Seq<ModuleView>,
    pub ids: Seq<(NodeId, ModuleView)>,
}

impl ModuleTable {
    /// The table after `module` is stored for the node `id`.
    pub open spec fn with_id(self, id: NodeId, module: ModuleView) -> ModuleTable {
        ModuleTable {
            modules: self.modules,
            ids: match first_index(self.ids, view_for_node(id)) {
                Some(i) => self.ids.update(i, (id, module)),
                None => self.ids.push((id, module)),
            },
        }
    }
}

/// The inline module that `def` defines inside `parent`: its path is that
/// of `parent` with the name of `def` added, and it shares the file.
pub open spec fn submodule_view(parent: ModuleView, def: Arc<ASTModuleDef>) -> ModuleView {
    ModuleView {
        visibility: Visibility::spec_from_pub(def.keyword_pub.is_some()),
        ast: ModuleASTKind::Submodule(def),
        path: parent.path.push(def.identifier.symbol),
        file: parent.file,
        diagnostics: parent.diagnostics,
    }
}

/// The hint that points at the module that already has a path. A file
/// module is named by the path of its file, or by the file's name where it
/// has no path; an inline module is pointed at.
pub open spec fn previous_module_hint(previous: ModuleView) -> SubDiagnosticsView {
    match previous.ast {
        ModuleASTKind::Module(_) => sub_unlocated(
            DiagnosticsLevel::Hint,
            "previous definition at `"@ + (match previous.file.spec_path() {
                Some(path) => path,
                None => previous.file.spec_name(),
            }) + "`"@,
        ),
        ModuleASTKind::Submodule(ast) => sub_located(
            previous.diagnostics.file,
            DiagnosticsLevel::Hint,
            ast.identifier.span,
            "previous definition here"@,
        ),
    }
}

/// The error for an inline module whose path is taken.
pub open spec fn duplicated_module_diagnostic(
    table: Seq<Seq<char>>,
    parent: ModuleView,
    def: Arc<ASTModuleDef>,
    previous: ModuleView,
) -> DiagnosticsView {
    located(
        parent.diagnostics.file,
        DUPLICATED_MODULE,
        DiagnosticsLevel::Error,
        def.identifier.span,
        "the module "@ + quoted(table, def.identifier.symbol) + " is defined multiple times"@,
        seq![previous_module_hint(previous)],
    )
}

/// A module table together with the diagnostics reported so far.
pub struct ModuleResolution {
    pub table: ModuleTable,
    pub log: Seq<DiagnosticsView>,
}

/// Registers the inline modules among `items[from..]` of `parent`, each
/// with all inline modules inside it before the next. A module whose path
/// is taken is reported and neither registered nor entered.
pub open spec fn resolve_items(
    state: ModuleResolution,
    table: Seq<Seq<char>>,
    parent: ModuleView,
    items: Seq<ASTModuleItem>,
    from: int,
) -> ModuleResolution
    decreases items, items.len() - from,
{
    if from < 0 || from >= items.len() {
        state
    } else {
        let after = match items[from].kind {
            ASTModuleItemKind::ModuleDef(def) => {
                let child = submodule_view(parent, def);
                match first_index(state.table.modules, view_at_path(child.path)) {
                    Some(i) => ModuleResolution {
                        table: state.table,
                        log: state.log.push(
                            duplicated_module_diagnostic(
                                table,
                                parent,
                                def,
                                state.table.modules[i],
                            ),
                        ),
                    },
                    None => resolve_items(
                        ModuleResolution {
                            table: ModuleTable {
                                modules: state.table.modules.push(child),
                                ids: match first_index(
                                    state.table.ids,
                                    view_for_node(def.id),
                                ) {
                                    Some(i) => state.table.ids.update(i, (def.id, child)),
                                    None => state.table.ids.push((def.id, child)),
                                },
                            },
                            log: state.log,
                        },
                        table,
                        child,
                        def.items@,
                        0,
                    ),
                }
            },
            _ => state,
        };
        resolve_items(after, table, parent, items, from + 1)
    }
}

/// The module tree: every module by its canonical path and by the identity
/// of its syntax node.
#[derive(Debug)]
pub struct ModuleRegistry {
    modules: Vec<Arc<Module>>,
    module_id_map: Vec<ModuleIdEntry>,
}

impl View for ModuleRegistry {
    type V = ModuleRegistryView;

    closed spec fn view(&self) -> ModuleRegistryView {
        ModuleRegistryView { modules: self.modules@, ids: self.module_id_map@ }
    }
}

/// Whether two paths have the same segments.
pub fn same_path(a: &Vec<Symbol>, b: &Vec<Symbol>) -> (r: bool)
    ensures
        r == (a@ == b@),
{
    if a.len() != b.len() {
        return false;
    }
    let mut i: usize = 0;
    while i < a.len()
        invariant
            i <= a@.len(),
            a@.len() == b@.len(),
            forall|j: int| 0 <= j < i ==> a@[j] == b@[j],
        decreases a@.len() - i,
    {
        if a[i] != b[i] {
            return false;
        }
        i += 1;
    }
    assert(a@ =~= b@);
    true
}

/// A copy of `path`.
pub fn copy_path(path: &Vec<Symbol>) -> (r: Vec<Symbol>)
    ensures
        r@ == path@,
{
    let mut r: Vec<Symbol> = Vec::new();
    let mut i: usize = 0;
    while i < path.len()
        invariant
            i <= path@.len(),
            r@ == path@.take(i as int),
        decreases path@.len() - i,
    {
        r.push(path[i]);
        assert(r@ =~= path@.take(i + 1));
        i += 1;
    }
    assert(path@.take(path@.len() as int) =~= path@);
    r
}

fn find_path(modules: &Vec<Arc<Module>>, path: &Vec<Symbol>) -> (r: Option<usize>)
    ensures
        match r {
            Some(i) => first_index(modules@, at_path(path@)) == Some(i as int) && i < modules@.len(),
            None => first_index(modules@, at_path(path@)).is_none(),
        },
        match r {
            Some(i) => first_index(
                modules@.map_values(|module: Arc<Module>| module@),
                view_at_path(path@),
            ) == Some(i as int),
            None => first_index(
                modules@.map_values(|module: Arc<Module>| module@),
                view_at_path(path@),
            ).is_none(),
        },
{
    let ghost views = modules@.map_values(|module: Arc<Module>| module@);
    let mut i: usize = 0;
    while i < modules.len()
        invariant
            i <= modules@.len(),
            views == modules@.map_values(|module: Arc<Module>| module@),
            forall|j: int| 0 <= j < i ==> !at_path(path@)(#[trigger] modules@[j]),
            forall|j: int| 0 <= j < i ==> !view_at_path(path@)(#[trigger] views[j]),
        decreases modules@.len() - i,
    {
        if same_path(&modules[i].path, path) {
            proof {
                lemma_first_index_is(modules@, at_path(path@), i as int);
                lemma_first_index_is(views, view_at_path(path@), i as int);
            }
            return Some(i);
        }
        i += 1;
    }
    proof {
        lemma_first_index_none(modules@, at_path(path@));
        lemma_first_index_none(views, view_at_path(path@));
    }
    None
}

fn find_id(ids: &Vec<ModuleIdEntry>, id: NodeId) -> (r: Option<usize>)
    ensures
        match r {
            Some(i) => first_index(ids@, for_node(id)) == Some(i as int) && i < ids@.len(),
            None => first_index(ids@, for_node(id)).is_none(),
        },
        match r {
            Some(i) => first_index(
                ids@.map_values(|entry: ModuleIdEntry| (entry.id, entry.module@)),
                view_for_node(id),
            ) == Some(i as int),
            None => first_index(
                ids@.map_values(|entry: ModuleIdEntry| (entry.id, entry.module@)),
                view_for_node(id),
            ).is_none(),
        },
{
    let ghost views = ids@.map_values(|entry: ModuleIdEntry| (entry.id, entry.module@));
    let ghost p = view_for_node(id);
    let mut i: usize = 0;
    while i < ids.len()
        invariant
            i <= ids@.len(),
            views == ids@.map_values(|entry: ModuleIdEntry| (entry.id, entry.module@)),
            p == view_for_node(id),
            forall|j: int| 0 <= j < i ==> !for_node(id)(#[trigger] ids@[j]),
            forall|j: int| 0 <= j < i ==> !p(#[trigger] views[j]),
        decreases ids@.len() - i,
    {
        if ids[i].id == id {
            proof {
                lemma_first_index_is(ids@, for_node(id), i as int);
                lemma_first_index_is(views, p, i as int);
            }
            return Some(i);
        }
        i += 1;
    }
    proof {
        lemma_first_index_none(ids@, for_node(id));
        lemma_first_index_none(views, p);
    }
    None
}

impl ModuleRegistry {
    pub fn new() -> (r: Self)
        ensures
            r@.modules == Seq::<Arc<Module>>::empty(),
            r@.ids == Seq::<ModuleIdEntry>::empty(),
            r@.wf(),
    {
        Self { modules: Vec::new(), module_id_map: Vec::new() }
    }

    /// The registered modules, in the order in which their paths were first
    /// registered.
    pub fn modules(&self) -> (r: &Vec<Arc<Module>>)
        ensures
            r@ == self@.modules,
    {
        &self.modules
    }

    pub fn has_module(&self, path: &Vec<Symbol>) -> (r: bool)
        ensures
            r == self@.has_module(path@),
    {
        find_path(&self.modules, path).is_some()
    }

    pub fn get_module(&self, path: &Vec<Symbol>) -> (r: Option<&Arc<Module>>)
        ensures
            match r {
                Some(module) => self@.get_module(path@) == Some(*module),
                None => self@.get_module(path@).is_none(),
            },
    {
        match find_path(&self.modules, path) {
            Some(i) => Some(&self.modules[i]),
            None => None,
        }
    }

    pub fn get_module_by_id(&self, id: NodeId) -> (r: Option<&Arc<Module>>)
        ensures
            match r {
                Some(module) => self@.get_module_by_id(id) == Some(*module),
                None => self@.get_module_by_id(id).is_none(),
            },
    {
        match find_id(&self.module_id_map, id) {
            Some(i) => Some(&self.module_id_map[i].module),
            None => None,
        }
    }

    fn put_id(&mut self, id: NodeId, module: Arc<Module>)
        ensures
            final(self)@.modules == old(self)@.modules,
            final(self)@.ids == old(self)@.put_id(id, module),
            final(self)@.id_views() == (match first_index(
                old(self)@.id_views(),
                view_for_node(id),
            ) {
                Some(i) => old(self)@.id_views().update(i, (id, module@)),
                None => old(self)@.id_views().push((id, module@)),
            }),
            old(self)@.wf() ==> final(self)@.wf(),
    {
        proof {
            lemma_first_index(self@.ids, for_node(id));
        }
        match find_id(&self.module_id_map, id) {
            Some(i) => {
                self.module_id_map[i] = ModuleIdEntry { id, module };
                assert(self@.id_views() =~= old(self)@.id_views().update(i as int, (id, module@)));
            },
            None => {
                self.module_id_map.push(ModuleIdEntry { id, module });
                assert(self@.id_views() =~= old(self)@.id_views().push((id, module@)));
            },
        }
    }

    /// Stores `module` under its path and under the identity of its syntax
    /// node, in the place of whatever was stored there, and returns a shared
    /// handle to it.
    pub fn register(&mut self, module: Module) -> (r: Arc<Module>)
        ensures
            *r == module,
            final(self)@ == old(self)@.register(r),
            old(self)@.wf() ==> final(self)@.wf(),
    {
        let module = Arc::new(module);
        proof {
            lemma_first_index(self@.modules, at_path(module.path@));
        }
        match find_path(&self.modules, &module.path) {
            Some(i) => {
                self.modules[i] = share(&module);
            },
            None => {
                self.modules.push(share(&module));
            },
        }
        let id = module.id();
        self.put_id(id, share(&module));
        module
    }

    /// Registers every inline module of `module`, and every inline module
    /// inside those, under its canonical path. An inline module whose path
    /// is taken is reported as an error and not registered.
    pub fn resolve_submodule(
        &mut self,
        interner: &Interner,
        log: &mut Vec<Diagnostics>,
        module: &Module,
    )
        ensures
            (ModuleResolution { table: final(self)@.table(), log: log_view(final(log)@) })
                == resolve_items(
                ModuleResolution { table: old(self)@.table(), log: log_view(old(log)@) },
                interner@,
                module@,
                module.ast.spec_items(),
                0,
            ),
    {
        self.resolve_submodule_items(interner, log, module, module.ast.items());
    }

    fn resolve_submodule_items(
        &mut self,
        interner: &Interner,
        log: &mut Vec<Diagnostics>,
        parent: &Module,
        items: &Vec<ASTModuleItem>,
    )
        ensures
            (ModuleResolution { table: final(self)@.table(), log: log_view(final(log)@) })
                == resolve_items(
                ModuleResolution { table: old(self)@.table(), log: log_view(old(log)@) },
                interner@,
                parent@,
                items@,
                0,
            ),
        decreases items@,
    {
        let ghost start = ModuleResolution { table: self@.table(), log: log_view(log@) };
        let mut i: usize = 0;
        while i < items.len()
            invariant
                i <= items@.len(),
                resolve_items(
                    ModuleResolution { table: self@.table(), log: log_view(log@) },
                    interner@,
                    parent@,
                    items@,
                    i as int,
                ) == resolve_items(start, interner@, parent@, items@, 0),
            decreases items@.len() - i,
        {
            let ghost now = ModuleResolution { table: self@.table(), log: log_view(log@) };
            match &items[i].kind {
                ASTModuleItemKind::ModuleDef(def) => {
                    let mut path = copy_path(&parent.path);
                    path.push(def.identifier.symbol);
                    let ghost child_view = submodule_view(parent@, *def);
                    match find_path(&self.modules, &path) {
                        Some(k) => {
                            let previous = &self.modules[k];
                            let hint = match &previous.ast {
                                ModuleASTKind::Module(_) => {
                                    let mut text = String::from_str("previous definition at `");
                                    match previous.file.path() {
                                        Some(file_path) => text.append(file_path.as_str()),
                                        None => text.append(previous.file.name().as_str()),
                                    }
                                    text.append("`");
                                    previous.diagnostics.sub_hint_simple(text)
                                },
                                ModuleASTKind::Submodule(ast) => previous.diagnostics.sub_hint(
                                    ast.identifier.span,
                                    String::from_str("previous definition here"),
                                ),
                            };
                            assert(hint@ == previous_module_hint(previous@));
                            let mut message = String::from_str("the module ");
                            message.append(interner.display(def.identifier.symbol).as_str());
                            message.append(" is defined multiple times");
                            let subs = vec![hint];
                            assert(subs@.map_values(|sub: SubDiagnostics| sub@) =~= seq![
                                previous_module_hint(previous@),
                            ]);
                            parent.diagnostics.error_sub(
                                log,
                                DUPLICATED_MODULE,
                                def.identifier.span,
                                message,
                                subs,
                            );
                        },
                        None => {
                            let child = Arc::new(
                                Module {
                                    visibility: Visibility::from_pub(def.keyword_pub.is_some()),
                                    ast: ModuleASTKind::Submodule(share(def)),
                                    path,
                                    file: share(&parent.file),
                                    diagnostics: parent.diagnostics.duplicate(),
                                },
                            );
                            assert(child@ == child_view);
                            let ghost before = self@;
                            self.modules.push(share(&child));
                            assert(self@.module_views() =~= before.module_views().push(child@));
                            self.put_id(def.id, share(&child));
                            self.resolve_submodule_items(interner, log, &child, &def.items);
                        },
                    }
                },
                _ => {},
            }
            i += 1;
        }
    }

    /// Records that the declaration `ast` stands for `module`.
    pub fn register_module_decl(&mut self, ast: &ASTModuleDecl, module: Arc<Module>)
        ensures
            final(self)@ == old(self)@.register_module_decl(ast.id, module),
            final(self)@.table() == old(self)@.table().with_id(ast.id, module@),
            old(self)@.wf() ==> final(self)@.wf(),
    {
        self.put_id(ast.id, module);
    }
}

} // verus!
