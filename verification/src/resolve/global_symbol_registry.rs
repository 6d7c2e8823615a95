use vstd::prelude::*;
use vstd::std_specs::cmp::PartialEqSpecImpl;
use vstd::std_specs::convert::FromSpecImpl;
use vstd::string::*;
use std::sync::Arc;
use crate::diagnostic::error_codes::DUPLICATED_SYMBOL;
use crate::diagnostic::message::{
    log_view, Diagnostics, DiagnosticsLevel, DiagnosticsView, SubDiagnostics,
};
use crate::diagnostic::sender::{located, sub_located};
use crate::parse::ast::node_id::NodeId;
use crate::parse::ast::tree::{
    ASTAliasDef, ASTExternBlockItem, ASTExternBlockItemKind, ASTFnDef, ASTInterfaceDef,
    ASTModuleDecl, ASTModuleDef, ASTModuleItem, ASTModuleItemKind, ASTPrototypeDef, ASTStructDef,
    Id,
};
use crate::resolve::module::Module;
use crate::resolve::seq_search::{
    first_index, lemma_first_index, lemma_first_index_is, lemma_first_index_none,
};
use crate::resolve::visibility::Visibility;
use crate::sharing::share;
use crate::symbol::interner::{quoted, Interner};
use crate::symbol::name::Symbol;

verus! {

/// The priority of a binding. An explicit binding always outranks one that
/// a glob import made.
#[derive(Debug, Clone, Copy, PartialEq, Eq, Structural, Hash)]
pub enum SymbolLevel {
    /// Bound by a glob import; an explicit binding may take its place.
    Glob,
    /// Declared in the module or imported by name.
    Explicit,
}

impl SymbolLevel {
    pub open spec fn rank(self) -> int {
        match self {
            SymbolLevel::Glob => 0,
            SymbolLevel::Explicit => 1,
        }
    }

    /// Whether this level has priority over `other`.
    pub fn outranks(self, other: SymbolLevel) -> (r: bool)
        ensures
            r == (self.rank() > other.rank()),
    {
        match (self, other) {
            (SymbolLevel::Explicit, SymbolLevel::Glob) => true,
            _ => false,
        }
    }
}

/// What a top-level name stands for: the declaration itself, shared.
#[derive(Debug)]
pub enum GlobalSymbolKind {
    ModuleDecl(Arc<ASTModuleDecl>),
    ModuleDef(Arc<ASTModuleDef>),
    Alias(Arc<ASTAliasDef>),
    Prototype(Arc<ASTPrototypeDef>),
    Fn(Arc<ASTFnDef>),
    Struct(Arc<ASTStructDef>),
    Interface(Arc<ASTInterfaceDef>),
}

impl GlobalSymbolKind {
    pub open spec fn spec_is_module(&self) -> bool {
        self is ModuleDecl || self is ModuleDef
    }

    /// The identity of the declaration.
    pub open spec fn spec_id(&self) -> NodeId {
        match self {
            GlobalSymbolKind::ModuleDecl(ast) => ast.id,
            GlobalSymbolKind::ModuleDef(ast) => ast.id,
            GlobalSymbolKind::Alias(ast) => ast.id,
            GlobalSymbolKind::Prototype(ast) => ast.id,
            GlobalSymbolKind::Fn(ast) => ast.id,
            GlobalSymbolKind::Struct(ast) => ast.id,
            GlobalSymbolKind::Interface(ast) => ast.id,
        }
    }

    /// The name under which the declaration was written.
    pub open spec fn spec_identifier(&self) -> Id {
        match self {
            GlobalSymbolKind::ModuleDecl(ast) => ast.identifier,
            GlobalSymbolKind::ModuleDef(ast) => ast.identifier,
            GlobalSymbolKind::Alias(ast) => ast.identifier,
            GlobalSymbolKind::Prototype(ast) => ast.identifier,
            GlobalSymbolKind::Fn(ast) => ast.identifier,
            GlobalSymbolKind::Struct(ast) => ast.identifier,
            GlobalSymbolKind::Interface(ast) => ast.identifier,
        }
    }

    pub fn is_module(&self) -> (r: bool)
        ensures
            r == self.spec_is_module(),
    {
        match self {
            GlobalSymbolKind::ModuleDecl(_) => true,
            GlobalSymbolKind::ModuleDef(_) => true,
            _ => false,
        }
    }

    pub fn id(&self) -> (r: NodeId)
        ensures
            r == self.spec_id(),
    {
        match self {
            GlobalSymbolKind::ModuleDecl(ast) => ast.id,
            GlobalSymbolKind::ModuleDef(ast) => ast.id,
            GlobalSymbolKind::Alias(ast) => ast.id,
            GlobalSymbolKind::Prototype(ast) => ast.id,
            GlobalSymbolKind::Fn(ast) => ast.id,
            GlobalSymbolKind::Struct(ast) => ast.id,
            GlobalSymbolKind::Interface(ast) => ast.id,
        }
    }

    pub fn identifier(&self) -> (r: Id)
        ensures
            r == self.spec_identifier(),
    {
        match self {
            GlobalSymbolKind::ModuleDecl(ast) => ast.identifier,
            GlobalSymbolKind::ModuleDef(ast) => ast.identifier,
            GlobalSymbolKind::Alias(ast) => ast.identifier,
            GlobalSymbolKind::Prototype(ast) => ast.identifier,
            GlobalSymbolKind::Fn(ast) => ast.identifier,
            GlobalSymbolKind::Struct(ast) => ast.identifier,
            GlobalSymbolKind::Interface(ast) => ast.identifier,
        }
    }

    /// Another handle to the same declaration.
    pub fn duplicate(&self) -> (r: Self)
        ensures
            r == *self,
    {
        match self {
            GlobalSymbolKind::ModuleDecl(ast) => GlobalSymbolKind::ModuleDecl(share(ast)),
            GlobalSymbolKind::ModuleDef(ast) => GlobalSymbolKind::ModuleDef(share(ast)),
            GlobalSymbolKind::Alias(ast) => GlobalSymbolKind::Alias(share(ast)),
            GlobalSymbolKind::Prototype(ast) => GlobalSymbolKind::Prototype(share(ast)),
            GlobalSymbolKind::Fn(ast) => GlobalSymbolKind::Fn(share(ast)),
            GlobalSymbolKind::Struct(ast) => GlobalSymbolKind::Struct(share(ast)),
            GlobalSymbolKind::Interface(ast) => GlobalSymbolKind::Interface(share(ast)),
        }
    }
}

impl From<Arc<ASTModuleDecl>> for GlobalSymbolKind {
    fn from(ast: Arc<ASTModuleDecl>) -> (r: Self) {
        GlobalSymbolKind::ModuleDecl(ast)
    }
}

impl FromSpecImpl<Arc<ASTModuleDecl>> for GlobalSymbolKind {
    open spec fn obeys_from_spec() -> bool {
        true
    }

    open spec fn from_spec(ast: Arc<ASTModuleDecl>) -> Self {
        GlobalSymbolKind::ModuleDecl(ast)
    }
}

impl From<Arc<ASTModuleDef>> for GlobalSymbolKind {
    fn from(ast: Arc<ASTModuleDef>) -> (r: Self) {
        GlobalSymbolKind::ModuleDef(ast)
    }
}

impl FromSpecImpl<Arc<ASTModuleDef>> for GlobalSymbolKind {
    open spec fn obeys_from_spec() -> bool {
        true
    }

    open spec fn from_spec(ast: Arc<ASTModuleDef>) -> Self {
        GlobalSymbolKind::ModuleDef(ast)
    }
}

impl From<Arc<ASTAliasDef>> for GlobalSymbolKind {
    fn from(ast: Arc<ASTAliasDef>) -> (r: Self) {
        GlobalSymbolKind::Alias(ast)
    }
}

impl FromSpecImpl<Arc<ASTAliasDef>> for GlobalSymbolKind {
    open spec fn obeys_from_spec() -> bool {
        true
    }

    open spec fn from_spec(ast: Arc<ASTAliasDef>) -> Self {
        GlobalSymbolKind::Alias(ast)
    }
}

impl From<Arc<ASTPrototypeDef>> for GlobalSymbolKind {
    fn from(ast: Arc<ASTPrototypeDef>) -> (r: Self) {
        GlobalSymbolKind::Prototype(ast)
    }
}

impl FromSpecImpl<Arc<ASTPrototypeDef>> for GlobalSymbolKind {
    open spec fn obeys_from_spec() -> bool {
        true
    }

    open spec fn from_spec(ast: Arc<ASTPrototypeDef>) -> Self {
        GlobalSymbolKind::Prototype(ast)
    }
}

impl From<Arc<ASTFnDef>> for GlobalSymbolKind {
    fn from(ast: Arc<ASTFnDef>) -> (r: Self) {
        GlobalSymbolKind::Fn(ast)
    }
}

impl FromSpecImpl<Arc<ASTFnDef>> for GlobalSymbolKind {
    open spec fn obeys_from_spec() -> bool {
        true
    }

    open spec fn from_spec(ast: Arc<ASTFnDef>) -> Self {
        GlobalSymbolKind::Fn(ast)
    }
}

impl From<Arc<ASTStructDef>> for GlobalSymbolKind {
    fn from(ast: Arc<ASTStructDef>) -> (r: Self) {
        GlobalSymbolKind::Struct(ast)
    }
}

impl FromSpecImpl<Arc<ASTStructDef>> for GlobalSymbolKind {
    open spec fn obeys_from_spec() -> bool {
        true
    }

    open spec fn from_spec(ast: Arc<ASTStructDef>) -> Self {
        GlobalSymbolKind::Struct(ast)
    }
}

impl From<Arc<ASTInterfaceDef>> for GlobalSymbolKind {
    fn from(ast: Arc<ASTInterfaceDef>) -> (r: Self) {
        GlobalSymbolKind::Interface(ast)
    }
}

impl FromSpecImpl<Arc<ASTInterfaceDef>> for GlobalSymbolKind {
    open spec fn obeys_from_spec() -> bool {
        true
    }

    open spec fn from_spec(ast: Arc<ASTInterfaceDef>) -> Self {
        GlobalSymbolKind::Interface(ast)
    }
}

/// One bound top-level name of a module.
#[derive(Debug)]
pub struct GlobalSymbol {
    pub level: SymbolLevel,
    pub visibility: Visibility,
    /// The module in which the name is bound.
    pub module: Arc<Module>,
    pub kind: GlobalSymbolKind,
    /// The name token that bound it: the alias of an import that has one,
    /// else the declared name.
    pub identifier: Id,
}

impl GlobalSymbol {
    pub fn new(
        level: SymbolLevel,
        visibility: Visibility,
        module: Arc<Module>,
        kind: GlobalSymbolKind,
        identifier: Id,
    ) -> (r: Self)
        ensures
            r == (GlobalSymbol { level, visibility, module, kind, identifier }),
    {
        Self { level, visibility, module, kind, identifier }
    }

    /// Another handle to the same binding.
    pub fn duplicate(&self) -> (r: Self)
        ensures
            r == *self,
    {
        Self {
            level: self.level,
            visibility: self.visibility,
            module: share(&self.module),
            kind: self.kind.duplicate(),
            identifier: self.identifier,
        }
    }
}

/// Two bindings are equal when they stand for the same declaration.
impl PartialEq for GlobalSymbol {
    fn eq(&self, other: &Self) -> (r: bool) {
        self.kind.id() == other.kind.id()
    }
}

impl Eq for GlobalSymbol {

}

impl PartialEqSpecImpl for GlobalSymbol {
    open spec fn obeys_eq_spec() -> bool {
        true
    }

    open spec fn eq_spec(&self, other: &Self) -> bool {
        self.kind.spec_id() == other.kind.spec_id()
    }
}

/// One row of a symbol table: `symbol` is bound to `name` in `module`.
#[derive(Debug)]
pub struct GlobalSymbolEntry {
    pub module: NodeId,
    pub name: Symbol,
    pub symbol: GlobalSymbol,
}

/// The rows that bind `name` in `module`.
pub open spec fn binds(module: NodeId, name: Symbol) -> spec_fn(GlobalSymbolEntry) -> bool {
    |entry: GlobalSymbolEntry| entry.module == module && entry.name == name
}

/// The index of the row that binds `name` in `module`.
pub open spec fn find_entry(entries: Seq<GlobalSymbolEntry>, module: NodeId, name: Symbol) -> Option<
    int,
> {
    first_index(entries, binds(module, name))
}

/// The symbol bound to `name` in `module`.
pub open spec fn lookup(entries: Seq<GlobalSymbolEntry>, module: NodeId, name: Symbol) -> Option<
    GlobalSymbol,
> {
    match find_entry(entries, module, name) {
        Some(i) => Some(entries[i].symbol),
        None => None,
    }
}

/// The rows of `module` among the first `upto` rows, in table order.
pub open spec fn entries_of(entries: Seq<GlobalSymbolEntry>, module: NodeId, upto: int) -> Seq<
    GlobalSymbolEntry,
>
    decreases upto,
{
    if upto <= 0 {
        Seq::empty()
    } else if entries[upto - 1].module == module {
        entries_of(entries, module, upto - 1).push(entries[upto - 1])
    } else {
        entries_of(entries, module, upto - 1)
    }
}

/// What registering a symbol did.
#[derive(Debug, Clone, Copy, PartialEq, Eq, Structural, Hash)]
pub enum Registered {
    /// The name was free: the symbol is bound.
    Inserted,
    /// The name was bound at a lower level: the symbol took its place.
    Replaced,
    /// The name was bound at a higher level: the symbol is dropped.
    Ignored,
    /// The name was bound at the same level: an error.
    Conflict,
}

/// What registering `symbol` under `name` does to a table with `entries`.
pub open spec fn register_outcome(
    entries: Seq<GlobalSymbolEntry>,
    name: Symbol,
    symbol: GlobalSymbol,
) -> Registered {
    match find_entry(entries, symbol.module.spec_id(), name) {
        None => Registered::Inserted,
        Some(i) => if entries[i].symbol.level.rank() < symbol.level.rank() {
            Registered::Replaced
        } else if entries[i].symbol.level.rank() > symbol.level.rank() {
            Registered::Ignored
        } else {
            Registered::Conflict
        },
    }
}

/// The rows after registering `symbol` under `name`.
pub open spec fn register_entries(
    entries: Seq<GlobalSymbolEntry>,
    name: Symbol,
    symbol: GlobalSymbol,
) -> Seq<GlobalSymbolEntry> {
    let entry = GlobalSymbolEntry { module: symbol.module.spec_id(), name, symbol };
    match find_entry(entries, symbol.module.spec_id(), name) {
        None => entries.push(entry),
        Some(i) => if entries[i].symbol.level.rank() < symbol.level.rank() {
            entries.update(i, entry)
        } else {
            entries
        },
    }
}

/// A table binds no name of a module twice, holds each symbol under the
/// module that the symbol names, and holds module symbols only if it is the
/// table of module symbols.
pub open spec fn entries_wf(entries: Seq<GlobalSymbolEntry>, of_modules: bool) -> bool {
    &&& forall|i: int, j: int|
        0 <= i < j < entries.len() ==> !(entries[i].module == entries[j].module && entries[i].name
            == entries[j].name)
    &&& forall|i: int|
        0 <= i < entries.len() ==> (#[trigger] entries[i]).symbol.kind.spec_is_module()
            == of_modules && entries[i].module == entries[i].symbol.module.spec_id()
}

/// The error for a second binding of a name at the same level. It points at
/// the new name and, in a hint, at the earlier one.
pub open spec fn duplicated_symbol_diagnostic(
    table: Seq<Seq<char>>,
    identifier: Id,
    symbol: GlobalSymbol,
    previous: GlobalSymbol,
) -> DiagnosticsView {
    located(
        symbol.module.diagnostics.file,
        DUPLICATED_SYMBOL,
        DiagnosticsLevel::Error,
        identifier.span,
        "the symbol "@ + quoted(table, identifier.symbol) + " is defined multiple times"@,
        seq![
            sub_located(
                previous.module.diagnostics.file,
                DiagnosticsLevel::Hint,
                previous.identifier.span,
                "previous definition here"@,
            ),
        ],
    )
}

/// The symbol tables as plain values: the rows of the module symbols and
/// those of all other symbols, each in the order in which names were bound.
pub struct GlobalSymbolRegistryView {
    pub module_symbols: Seq<GlobalSymbolEntry>,
    pub non_module_symbols: Seq<GlobalSymbolEntry>,
}

impl GlobalSymbolRegistryView {
    pub open spec fn wf(self) -> bool {
        entries_wf(self.module_symbols, true) && entries_wf(self.non_module_symbols, false)
    }

    /// The table that holds symbols such as `symbol`.
    pub open spec fn table_for(self, symbol: GlobalSymbol) -> Seq<GlobalSymbolEntry> {
        if symbol.kind.spec_is_module() {
            self.module_symbols
        } else {
            self.non_module_symbols
        }
    }

    pub open spec fn get_module_symbol(self, module: NodeId, name: Symbol) -> Option<GlobalSymbol> {
        lookup(self.module_symbols, module, name)
    }

    pub open spec fn get_non_module_symbol(self, module: NodeId, name: Symbol) -> Option<
        GlobalSymbol,
    > {
        lookup(self.non_module_symbols, module, name)
    }

    /// The module symbol of that name if there is one, else the other symbol.
    pub open spec fn get_any_symbol(self, module: NodeId, name: Symbol) -> Option<GlobalSymbol> {
        match self.get_module_symbol(module, name) {
            Some(symbol) => Some(symbol),
            None => self.get_non_module_symbol(module, name),
        }
    }

    pub open spec fn module_entries_of(self, module: NodeId) -> Seq<GlobalSymbolEntry> {
        entries_of(self.module_symbols, module, self.module_symbols.len() as int)
    }

    pub open spec fn non_module_entries_of(self, module: NodeId) -> Seq<GlobalSymbolEntry> {
        entries_of(self.non_module_symbols, module, self.non_module_symbols.len() as int)
    }

    /// All rows of `module`: its module symbols, then its other symbols.
    pub open spec fn any_entries_of(self, module: NodeId) -> Seq<GlobalSymbolEntry> {
        self.module_entries_of(module) + self.non_module_entries_of(module)
    }

    pub open spec fn outcome(self, name: Symbol, symbol: GlobalSymbol) -> Registered {
        register_outcome(self.table_for(symbol), name, symbol)
    }

    /// Whether registering `symbol` under `name` binds it.
    pub open spec fn adds(self, name: Symbol, symbol: GlobalSymbol) -> bool {
        self.outcome(name, symbol) is Inserted || self.outcome(name, symbol) is Replaced
    }

    /// The tables after registering `symbol` under `name`.
    pub open spec fn register(self, name: Symbol, symbol: GlobalSymbol) -> GlobalSymbolRegistryView {
        if symbol.kind.spec_is_module() {
            GlobalSymbolRegistryView {
                module_symbols: register_entries(self.module_symbols, name, symbol),
                non_module_symbols: self.non_module_symbols,
            }
        } else {
            GlobalSymbolRegistryView {
                module_symbols: self.module_symbols,
                non_module_symbols: register_entries(self.non_module_symbols, name, symbol),
            }
        }
    }

    /// What registering `symbol` under `identifier` reports: one error on a
    /// conflict, and nothing otherwise.
    pub open spec fn register_log(
        self,
        table: Seq<Seq<char>>,
        identifier: Id,
        symbol: GlobalSymbol,
    ) -> Seq<DiagnosticsView> {
        if self.outcome(identifier.symbol, symbol) is Conflict {
            seq![
                duplicated_symbol_diagnostic(
                    table,
                    identifier,
                    symbol,
                    lookup(self.table_for(symbol), symbol.module.spec_id(), identifier.symbol)->0,
                ),
            ]
        } else {
            Seq::empty()
        }
    }

    /// The tables after registering the first `upto` of `symbols` in turn,
    /// each under its own identifier.
    pub open spec fn register_all(self, symbols: Seq<GlobalSymbol>, upto: int) -> GlobalSymbolRegistryView
        decreases upto,
    {
        if upto <= 0 {
            self
        } else {
            self.register_all(symbols, upto - 1).register(
                symbols[upto - 1].identifier.symbol,
                symbols[upto - 1],
            )
        }
    }

    /// Whether registering the first `upto` of `symbols` in turn binds any
    /// of them.
    pub open spec fn register_all_adds(self, symbols: Seq<GlobalSymbol>, upto: int) -> bool
        decreases upto,
    {
        if upto <= 0 {
            false
        } else {
            self.register_all_adds(symbols, upto - 1) || self.register_all(symbols, upto - 1).adds(
                symbols[upto - 1].identifier.symbol,
                symbols[upto - 1],
            )
        }
    }

    /// What registering the first `upto` of `symbols` in turn reports.
    pub open spec fn register_all_log(
        self,
        table: Seq<Seq<char>>,
        symbols: Seq<GlobalSymbol>,
        upto: int,
    ) -> Seq<DiagnosticsView>
        decreases upto,
    {
        if upto <= 0 {
            Seq::empty()
        } else {
            self.register_all_log(table, symbols, upto - 1) + self.register_all(
                symbols,
                upto - 1,
            ).register_log(table, symbols[upto - 1].identifier, symbols[upto - 1])
        }
    }
}

/// The binding that a declaration of `kind` makes in `module`.
pub open spec fn declared_symbol(module: Arc<Module>, is_pub: bool, kind: GlobalSymbolKind) -> GlobalSymbol {
    GlobalSymbol {
        level: SymbolLevel::Explicit,
        visibility: Visibility::spec_from_pub(is_pub),
        module,
        kind,
        identifier: kind.spec_identifier(),
    }
}

/// The binding that one item of an external block makes, if it makes one.
pub open spec fn extern_item_symbol(module: Arc<Module>, item: ASTExternBlockItem) -> Option<
    GlobalSymbol,
> {
    match item.kind {
        ASTExternBlockItemKind::PrototypeDef(ast) => Some(
            declared_symbol(module, ast.keyword_pub.is_some(), GlobalSymbolKind::Prototype(ast)),
        ),
        ASTExternBlockItemKind::FnDef(ast) => Some(
            declared_symbol(module, ast.keyword_pub.is_some(), GlobalSymbolKind::Fn(ast)),
        ),
        ASTExternBlockItemKind::StructDef(ast) => Some(
            declared_symbol(module, ast.keyword_pub.is_some(), GlobalSymbolKind::Struct(ast)),
        ),
        ASTExternBlockItemKind::ImplBlock(_) => None,
    }
}

/// The bindings that the first `upto` items of an external block make.
pub open spec fn extern_symbols(module: Arc<Module>, items: Seq<ASTExternBlockItem>, upto: int) -> Seq<
    GlobalSymbol,
>
    decreases upto,
{
    if upto <= 0 {
        Seq::empty()
    } else {
        match extern_item_symbol(module, items[upto - 1]) {
            Some(symbol) => extern_symbols(module, items, upto - 1).push(symbol),
            None => extern_symbols(module, items, upto - 1),
        }
    }
}

/// The bindings that one module item makes: none for an import or an impl
/// block, those of its items for an external block, and one otherwise.
pub open spec fn item_symbols(module: Arc<Module>, item: ASTModuleItem) -> Seq<GlobalSymbol> {
    match item.kind {
        ASTModuleItemKind::Use(_) => Seq::empty(),
        ASTModuleItemKind::AliasDef(ast) => seq![
            declared_symbol(module, ast.keyword_pub.is_some(), GlobalSymbolKind::Alias(ast)),
        ],
        ASTModuleItemKind::ModuleDecl(ast) => seq![
            declared_symbol(module, ast.keyword_pub.is_some(), GlobalSymbolKind::ModuleDecl(ast)),
        ],
        ASTModuleItemKind::ModuleDef(ast) => seq![
            declared_symbol(module, ast.keyword_pub.is_some(), GlobalSymbolKind::ModuleDef(ast)),
        ],
        ASTModuleItemKind::ExternBlock(ast) => extern_symbols(
            module,
            ast.items@,
            ast.items@.len() as int,
        ),
        ASTModuleItemKind::FnDef(ast) => seq![
            declared_symbol(module, ast.keyword_pub.is_some(), GlobalSymbolKind::Fn(ast)),
        ],
        ASTModuleItemKind::StructDef(ast) => seq![
            declared_symbol(module, ast.keyword_pub.is_some(), GlobalSymbolKind::Struct(ast)),
        ],
        ASTModuleItemKind::InterfaceDef(ast) => seq![
            declared_symbol(module, ast.keyword_pub.is_some(), GlobalSymbolKind::Interface(ast)),
        ],
        ASTModuleItemKind::ImplBlock(_) => Seq::empty(),
    }
}

/// The bindings that the first `upto` items of a module make, in order.
pub open spec fn declared_symbols(module: Arc<Module>, items: Seq<ASTModuleItem>, upto: int) -> Seq<
    GlobalSymbol,
>
    decreases upto,
{
    if upto <= 0 {
        Seq::empty()
    } else {
        declared_symbols(module, items, upto - 1) + item_symbols(module, items[upto - 1])
    }
}

/// All bindings that the items of `module` make.
pub open spec fn module_declared_symbols(module: Arc<Module>) -> Seq<GlobalSymbol> {
    declared_symbols(module, module.ast.spec_items(), module.ast.spec_items().len() as int)
}

/// Registering keeps the tables well formed.
pub proof fn lemma_register_wf(reg: GlobalSymbolRegistryView, name: Symbol, symbol: GlobalSymbol)
    requires
        reg.wf(),
    ensures
        reg.register(name, symbol).wf(),
{
    let entries = reg.table_for(symbol);
    lemma_first_index(entries, binds(symbol.module.spec_id(), name));
}

/// Registering symbols in turn keeps the tables well formed.
pub proof fn lemma_register_all_wf(reg: GlobalSymbolRegistryView, symbols: Seq<GlobalSymbol>, upto: int)
    requires
        reg.wf(),
    ensures
        reg.register_all(symbols, upto).wf(),
    decreases upto,
{
    if upto > 0 {
        lemma_register_all_wf(reg, symbols, upto - 1);
        lemma_register_wf(
            reg.register_all(symbols, upto - 1),
            symbols[upto - 1].identifier.symbol,
            symbols[upto - 1],
        );
    }
}

/// The bound top-level names of all modules: module symbols in one table,
/// all other symbols in another, each keyed by module and bound name.
#[derive(Debug)]
pub struct GlobalSymbolRegistry {
    module_symbols: Vec<GlobalSymbolEntry>,
    non_module_symbols: Vec<GlobalSymbolEntry>,
}

impl View for GlobalSymbolRegistry {
    type V = GlobalSymbolRegistryView;

    closed spec fn view(&self) -> GlobalSymbolRegistryView {
        GlobalSymbolRegistryView {
            module_symbols: self.module_symbols@,
            non_module_symbols: self.non_module_symbols@,
        }
    }
}

fn find_in(entries: &Vec<GlobalSymbolEntry>, module: NodeId, name: Symbol) -> (r: Option<usize>)
    ensures
        match r {
            Some(i) => find_entry(entries@, module, name) == Some(i as int) && i < entries@.len(),
            None => find_entry(entries@, module, name).is_none(),
        },
{
    let mut i: usize = 0;
    while i < entries.len()
        invariant
            i <= entries@.len(),
            forall|j: int| 0 <= j < i ==> !binds(module, name)(#[trigger] entries@[j]),
        decreases entries@.len() - i,
    {
        if entries[i].module == module && entries[i].name == name {
            proof {
                lemma_first_index_is(entries@, binds(module, name), i as int);
            }
            return Some(i);
        }
        i += 1;
    }
    proof {
        lemma_first_index_none(entries@, binds(module, name));
    }
    None
}

fn collect_of(entries: &Vec<GlobalSymbolEntry>, module: NodeId) -> (r: Vec<&GlobalSymbolEntry>)
    ensures
        r@.len() == entries_of(entries@, module, entries@.len() as int).len(),
        forall|k: int|
            0 <= k < r@.len() ==> *(#[trigger] r@[k]) == entries_of(
                entries@,
                module,
                entries@.len() as int,
            )[k],
{
    let mut r: Vec<&GlobalSymbolEntry> = Vec::new();
    let mut i: usize = 0;
    while i < entries.len()
        invariant
            i <= entries@.len(),
            r@.len() == entries_of(entries@, module, i as int).len(),
            forall|k: int|
                0 <= k < r@.len() ==> *(#[trigger] r@[k]) == entries_of(entries@, module, i as int)[k],
        decreases entries@.len() - i,
    {
        if entries[i].module == module {
            r.push(&entries[i]);
        }
        i += 1;
    }
    r
}

fn register_into(
    entries: &mut Vec<GlobalSymbolEntry>,
    interner: &Interner,
    log: &mut Vec<Diagnostics>,
    identifier: Id,
    symbol: GlobalSymbol,
) -> (added: bool)
    ensures
        final(entries)@ == register_entries(old(entries)@, identifier.symbol, symbol),
        added == (register_outcome(old(entries)@, identifier.symbol, symbol) is Inserted
            || register_outcome(old(entries)@, identifier.symbol, symbol) is Replaced),
        log_view(final(log)@) == log_view(old(log)@) + (if register_outcome(
            old(entries)@,
            identifier.symbol,
            symbol,
        ) is Conflict {
            seq![
                duplicated_symbol_diagnostic(
                    interner@,
                    identifier,
                    symbol,
                    lookup(old(entries)@, symbol.module.spec_id(), identifier.symbol)->0,
                ),
            ]
        } else {
            Seq::empty()
        }),
{
    let module = symbol.module.id();
    match find_in(entries, module, identifier.symbol) {
        Some(i) => {
            let previous = &entries[i].symbol;
            if symbol.level.outranks(previous.level) {
                entries[i] = GlobalSymbolEntry { module, name: identifier.symbol, symbol };
                assert(log_view(log@) =~= log_view(log@) + Seq::empty());
                return true;
            }
            if previous.level.outranks(symbol.level) {
                assert(log_view(log@) =~= log_view(log@) + Seq::empty());
                return false;
            }
            let mut message = String::from_str("the symbol ");
            message.append(interner.display(identifier.symbol).as_str());
            message.append(" is defined multiple times");
            let hint = previous.module.diagnostics.sub_hint(
                previous.identifier.span,
                String::from_str("previous definition here"),
            );
            let ghost expected = duplicated_symbol_diagnostic(
                interner@,
                identifier,
                symbol,
                *previous,
            );
            let subs = vec![hint];
            assert(subs@.map_values(|sub: SubDiagnostics| sub@) =~= expected.sub_diagnostics);
            let ghost before = log_view(log@);
            symbol.module.diagnostics.error_sub(
                log,
                DUPLICATED_SYMBOL,
                identifier.span,
                message,
                subs,
            );
            assert(log_view(log@) =~= before + seq![expected]);
            false
        },
        None => {
            entries.push(GlobalSymbolEntry { module, name: identifier.symbol, symbol });
            assert(log_view(log@) =~= log_view(log@) + Seq::empty());
            true
        },
    }
}

impl GlobalSymbolRegistry {
    pub fn new() -> (r: Self)
        ensures
            r@.module_symbols == Seq::<GlobalSymbolEntry>::empty(),
            r@.non_module_symbols == Seq::<GlobalSymbolEntry>::empty(),
            r@.wf(),
    {
        Self { module_symbols: Vec::new(), non_module_symbols: Vec::new() }
    }

    /// The rows of the module symbols, in the order in which names were bound.
    pub fn module_entries(&self) -> (r: &Vec<GlobalSymbolEntry>)
        ensures
            r@ == self@.module_symbols,
    {
        &self.module_symbols
    }

    /// The rows of all other symbols, in the order in which names were bound.
    pub fn non_module_entries(&self) -> (r: &Vec<GlobalSymbolEntry>)
        ensures
            r@ == self@.non_module_symbols,
    {
        &self.non_module_symbols
    }

    /// The module symbols bound in `module`, and `None` where it has none.
    pub fn module_symbols(&self, module: &Module) -> (r: Option<Vec<&GlobalSymbolEntry>>)
        ensures
            match r {
                Some(rows) => {
                    &&& rows@.len() > 0
                    &&& rows@.len() == self@.module_entries_of(module.spec_id()).len()
                    &&& forall|k: int|
                        0 <= k < rows@.len() ==> *(#[trigger] rows@[k]) == self@.module_entries_of(
                            module.spec_id(),
                        )[k]
                },
                None => self@.module_entries_of(module.spec_id()).len() == 0,
            },
    {
        let rows = collect_of(&self.module_symbols, module.id());
        if rows.len() == 0 {
            None
        } else {
            Some(rows)
        }
    }

    /// The symbols other than modules bound in `module`, and `None` where it
    /// has none.
    pub fn non_module_symbols(&self, module: &Module) -> (r: Option<Vec<&GlobalSymbolEntry>>)
        ensures
            match r {
                Some(rows) => {
                    &&& rows@.len() > 0
                    &&& rows@.len() == self@.non_module_entries_of(module.spec_id()).len()
                    &&& forall|k: int|
                        0 <= k < rows@.len() ==> *(#[trigger] rows@[k])
                            == self@.non_module_entries_of(module.spec_id())[k]
                },
                None => self@.non_module_entries_of(module.spec_id()).len() == 0,
            },
    {
        let rows = collect_of(&self.non_module_symbols, module.id());
        if rows.len() == 0 {
            None
        } else {
            Some(rows)
        }
    }

    /// All symbols bound in `module`: its module symbols, then the others.
    pub fn any_symbols(&self, module: &Module) -> (r: Vec<&GlobalSymbolEntry>)
        ensures
            r@.len() == self@.any_entries_of(module.spec_id()).len(),
            forall|k: int|
                0 <= k < r@.len() ==> *(#[trigger] r@[k]) == self@.any_entries_of(
                    module.spec_id(),
                )[k],
    {
        let mut rows = collect_of(&self.module_symbols, module.id());
        let others = collect_of(&self.non_module_symbols, module.id());
        let ghost first = rows@;
        let mut i: usize = 0;
        while i < others.len()
            invariant
                i <= others@.len(),
                rows@ == first + others@.take(i as int),
            decreases others@.len() - i,
        {
            rows.push(others[i]);
            assert(rows@ =~= first + others@.take(i + 1));
            i += 1;
        }
        rows
    }

    pub fn get_any_symbol(&self, module: &Module, symbol: Symbol) -> (r: Option<&GlobalSymbol>)
        ensures
            match r {
                Some(found) => self@.get_any_symbol(module.spec_id(), symbol) == Some(*found),
                None => self@.get_any_symbol(module.spec_id(), symbol).is_none(),
            },
    {
        match self.get_module_symbol(module, symbol) {
            Some(found) => Some(found),
            None => self.get_non_module_symbol(module, symbol),
        }
    }

    pub fn get_module_symbol(&self, module: &Module, symbol: Symbol) -> (r: Option<&GlobalSymbol>)
        ensures
            match r {
                Some(found) => self@.get_module_symbol(module.spec_id(), symbol) == Some(*found),
                None => self@.get_module_symbol(module.spec_id(), symbol).is_none(),
            },
    {
        match find_in(&self.module_symbols, module.id(), symbol) {
            Some(i) => Some(&self.module_symbols[i].symbol),
            None => None,
        }
    }

    pub fn get_non_module_symbol(&self, module: &Module, symbol: Symbol) -> (r: Option<
        &GlobalSymbol,
    >)
        ensures
            match r {
                Some(found) => self@.get_non_module_symbol(module.spec_id(), symbol) == Some(
                    *found,
                ),
                None => self@.get_non_module_symbol(module.spec_id(), symbol).is_none(),
            },
    {
        match find_in(&self.non_module_symbols, module.id(), symbol) {
            Some(i) => Some(&self.non_module_symbols[i].symbol),
            None => None,
        }
    }

    /// The symbols other than modules bound in the module `module`, in the
    /// order in which they were bound.
    pub fn non_module_rows(&self, module: NodeId) -> (r: Vec<&GlobalSymbolEntry>)
        ensures
            r@.len() == self@.non_module_entries_of(module).len(),
            forall|k: int|
                0 <= k < r@.len() ==> *(#[trigger] r@[k]) == self@.non_module_entries_of(module)[k],
    {
        collect_of(&self.non_module_symbols, module)
    }

    /// Registers `symbols` in turn, each under its own identifier. Returns
    /// whether any of them is bound by it.
    pub fn register_each(
        &mut self,
        interner: &Interner,
        log: &mut Vec<Diagnostics>,
        symbols: &Vec<GlobalSymbol>,
    ) -> (added: bool)
        ensures
            final(self)@ == old(self)@.register_all(symbols@, symbols@.len() as int),
            log_view(final(log)@) == log_view(old(log)@) + old(self)@.register_all_log(
                interner@,
                symbols@,
                symbols@.len() as int,
            ),
            added == old(self)@.register_all_adds(symbols@, symbols@.len() as int),
            old(self)@.wf() ==> final(self)@.wf(),
    {
        let ghost start = self@;
        let ghost before = log_view(log@);
        let mut added = false;
        let mut i: usize = 0;
        assert(before =~= before + start.register_all_log(interner@, symbols@, 0));
        while i < symbols.len()
            invariant
                i <= symbols@.len(),
                self@ == start.register_all(symbols@, i as int),
                log_view(log@) == before + start.register_all_log(interner@, symbols@, i as int),
                added == start.register_all_adds(symbols@, i as int),
            decreases symbols@.len() - i,
        {
            let one = self.register(interner, log, symbols[i].duplicate());
            added = added || one;
            assert(log_view(log@) =~= before + start.register_all_log(
                interner@,
                symbols@,
                i + 1,
            ));
            i += 1;
        }
        proof {
            if start.wf() {
                lemma_register_all_wf(start, symbols@, symbols@.len() as int);
            }
        }
        added
    }

    /// Binds every top-level declaration of `module`, in source order, at
    /// level `Explicit`. Imports and impl blocks bind nothing; the items of
    /// an external block are bound as if they stood in the module itself.
    pub fn register_module(
        &mut self,
        interner: &Interner,
        log: &mut Vec<Diagnostics>,
        module: &Arc<Module>,
    )
        ensures
            final(self)@ == old(self)@.register_all(
                module_declared_symbols(*module),
                module_declared_symbols(*module).len() as int,
            ),
            log_view(final(log)@) == log_view(old(log)@) + old(self)@.register_all_log(
                interner@,
                module_declared_symbols(*module),
                module_declared_symbols(*module).len() as int,
            ),
            old(self)@.wf() ==> final(self)@.wf(),
    {
        let symbols = collect_declared_symbols(module);
        self.register_each(interner, log, &symbols);
    }

    /// Binds `symbol` to the name of its own identifier. See
    /// [`Self::register_with_rename`].
    pub fn register(&mut self, interner: &Interner, log: &mut Vec<Diagnostics>, symbol: GlobalSymbol) -> (added:
        bool)
        ensures
            final(self)@ == old(self)@.register(symbol.identifier.symbol, symbol),
            added == old(self)@.adds(symbol.identifier.symbol, symbol),
            log_view(final(log)@) == log_view(old(log)@) + old(self)@.register_log(
                interner@,
                symbol.identifier,
                symbol,
            ),
            old(self)@.wf() ==> final(self)@.wf(),
    {
        let identifier = symbol.identifier;
        self.register_with_rename(interner, log, identifier, symbol)
    }

    /// Binds `symbol` to the name of `identifier` in the module that the
    /// symbol names. A free name is bound; a name bound at a lower level is
    /// bound anew; a name bound at a higher level stays as it is; a name
    /// bound at the same level stays as it is and an error is reported.
    /// Returns whether the symbol is now bound.
    pub fn register_with_rename(
        &mut self,
        interner: &Interner,
        log: &mut Vec<Diagnostics>,
        identifier: Id,
        symbol: GlobalSymbol,
    ) -> (added: bool)
        ensures
            final(self)@ == old(self)@.register(identifier.symbol, symbol),
            added == old(self)@.adds(identifier.symbol, symbol),
            log_view(final(log)@) == log_view(old(log)@) + old(self)@.register_log(
                interner@,
                identifier,
                symbol,
            ),
            old(self)@.wf() ==> final(self)@.wf(),
    {
        proof {
            if self@.wf() {
                lemma_register_wf(self@, identifier.symbol, symbol);
            }
        }
        if symbol.kind.is_module() {
            register_into(&mut self.module_symbols, interner, log, identifier, symbol)
        } else {
            register_into(&mut self.non_module_symbols, interner, log, identifier, symbol)
        }
    }
}

/// The bindings that the items of `module` make, in source order.
pub fn collect_declared_symbols(module: &Arc<Module>) -> (r: Vec<GlobalSymbol>)
    ensures
        r@ == module_declared_symbols(*module),
{
    let items = module.ast.items();
    let mut r: Vec<GlobalSymbol> = Vec::new();
    let mut i: usize = 0;
    while i < items.len()
        invariant
            i <= items@.len(),
            items@ == module.ast.spec_items(),
            r@ == declared_symbols(*module, items@, i as int),
        decreases items@.len() - i,
    {
        let ghost before = r@;
        match &items[i].kind {
            ASTModuleItemKind::Use(_) => {},
            ASTModuleItemKind::AliasDef(ast) => {
                let kind = GlobalSymbolKind::Alias(share(ast));
                r.push(declare(module, ast.keyword_pub.is_some(), kind));
            },
            ASTModuleItemKind::ModuleDecl(ast) => {
                let kind = GlobalSymbolKind::ModuleDecl(share(ast));
                r.push(declare(module, ast.keyword_pub.is_some(), kind));
            },
            ASTModuleItemKind::ModuleDef(ast) => {
                let kind = GlobalSymbolKind::ModuleDef(share(ast));
                r.push(declare(module, ast.keyword_pub.is_some(), kind));
            },
            ASTModuleItemKind::ExternBlock(ast) => {
                let mut j: usize = 0;
                while j < ast.items.len()
                    invariant
                        j <= ast.items@.len(),
                        r@ == before + extern_symbols(*module, ast.items@, j as int),
                    decreases ast.items@.len() - j,
                {
                    match &ast.items[j].kind {
                        ASTExternBlockItemKind::PrototypeDef(ast) => {
                            let kind = GlobalSymbolKind::Prototype(share(ast));
                            r.push(declare(module, ast.keyword_pub.is_some(), kind));
                        },
                        ASTExternBlockItemKind::FnDef(ast) => {
                            let kind = GlobalSymbolKind::Fn(share(ast));
                            r.push(declare(module, ast.keyword_pub.is_some(), kind));
                        },
                        ASTExternBlockItemKind::StructDef(ast) => {
                            let kind = GlobalSymbolKind::Struct(share(ast));
                            r.push(declare(module, ast.keyword_pub.is_some(), kind));
                        },
                        ASTExternBlockItemKind::ImplBlock(_) => {},
                    }
                    assert(r@ =~= before + extern_symbols(*module, ast.items@, j + 1));
                    j += 1;
                }
            },
            ASTModuleItemKind::FnDef(ast) => {
                let kind = GlobalSymbolKind::Fn(share(ast));
                r.push(declare(module, ast.keyword_pub.is_some(), kind));
            },
            ASTModuleItemKind::StructDef(ast) => {
                let kind = GlobalSymbolKind::Struct(share(ast));
                r.push(declare(module, ast.keyword_pub.is_some(), kind));
            },
            ASTModuleItemKind::InterfaceDef(ast) => {
                let kind = GlobalSymbolKind::Interface(share(ast));
                r.push(declare(module, ast.keyword_pub.is_some(), kind));
            },
            ASTModuleItemKind::ImplBlock(_) => {},
        }
        assert(r@ =~= before + item_symbols(*module, items@[i as int]));
        i += 1;
    }
    r
}

fn declare(module: &Arc<Module>, is_pub: bool, kind: GlobalSymbolKind) -> (r: GlobalSymbol)
    ensures
        r == declared_symbol(*module, is_pub, kind),
{
    let identifier = kind.identifier();
    GlobalSymbol::new(
        SymbolLevel::Explicit,
        Visibility::from_pub(is_pub),
        share(module),
        kind,
        identifier,
    )
}

} // verus!
