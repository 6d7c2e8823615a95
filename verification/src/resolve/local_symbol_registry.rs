use vstd::prelude::*;
use vstd::std_specs::cmp::PartialEqSpecImpl;
use std::sync::Arc;
use crate::parse::ast::node_id::NodeId;
use crate::parse::ast::punctuated::PunctuatedItem;
use crate::parse::ast::tree::{
    ASTExpr, ASTExprKind, ASTExprPath, ASTExprStructLiteralField, ASTFnDef, ASTFnParam,
    ASTPathSegment,
    ASTStmt, ASTStmtBlock, ASTStmtIfElseIf, ASTStmtKind, Id,
};
use crate::resolve::global_symbol_registry::{
    GlobalSymbol, GlobalSymbolEntry, GlobalSymbolKind, GlobalSymbolRegistry,
    GlobalSymbolRegistryView,
};
use crate::resolve::module::Module;
use crate::resolve::module_registry::{ModuleRegistry, ModuleRegistryView};
use crate::resolve::scope_table::{
    LocalSymbolParameter, LocalSymbolVariable, ScopeIndex, ScopeTable, ScopeTableView,
};
use crate::resolve::seq_search::{
    first_index, lemma_first_index_is, lemma_first_index_none,
};
use crate::sharing::share;

verus! {

/// What an identifier in a function body is bound to.
#[derive(Debug)]
pub enum LocalSymbolKind {
    Global(GlobalSymbol),
    Parameter(LocalSymbolParameter),
    Variable(LocalSymbolVariable),
}

impl LocalSymbolKind {
    /// The node of the declaration that the identifier is bound to.
    pub open spec fn spec_id(&self) -> NodeId {
        match self {
            LocalSymbolKind::Global(global) => global.kind.spec_id(),
            LocalSymbolKind::Parameter(param) => param.id,
            LocalSymbolKind::Variable(var) => var.id,
        }
    }

    pub fn id(&self) -> (r: NodeId)
        ensures
            r == self.spec_id(),
    {
        match self {
            LocalSymbolKind::Global(global) => global.kind.id(),
            LocalSymbolKind::Parameter(param) => param.id,
            LocalSymbolKind::Variable(var) => var.id,
        }
    }
}

/// The binding of one identifier expression.
#[derive(Debug)]
pub struct LocalSymbol {
    pub module: Arc<Module>,
    pub function: NodeId,
    pub kind: LocalSymbolKind,
    pub identifier: Id,
}

impl LocalSymbol {
    pub fn new(module: Arc<Module>, function: NodeId, kind: LocalSymbolKind, identifier: Id) -> (r:
        Self)
        ensures
            r == (LocalSymbol { module, function, kind, identifier }),
    {
        Self { module, function, kind, identifier }
    }
}

/// Two bindings are equal when they are bound to the same declaration.
impl PartialEq for LocalSymbol {
    fn eq(&self, other: &Self) -> (r: bool) {
        self.kind.id() == other.kind.id()
    }
}

impl Eq for LocalSymbol {

}

impl PartialEqSpecImpl for LocalSymbol {
    open spec fn obeys_eq_spec() -> bool {
        true
    }

    open spec fn eq_spec(&self, other: &Self) -> bool {
        self.kind.spec_id() == other.kind.spec_id()
    }
}

/// One row of the table of bindings: the binding of the expression `expr`
/// in the function `function`.
#[derive(Debug)]
pub struct LocalSymbolEntry {
    pub function: NodeId,
    pub expr: NodeId,
    pub symbol: LocalSymbol,
}

/// Which lookup of a path failed.
#[derive(Debug, Clone, Copy, PartialEq, Eq, Structural, Hash)]
pub enum BindingFailureKind {
    /// A segment before the last names no module.
    Module,
    /// The last segment names no symbol.
    Symbol,
    /// A segment before the last carries generic arguments, which a module
    /// does not take. The path is followed all the same.
    PrefixGeneric,
}

/// A path expression that could not be bound, with the name that failed.
#[derive(Debug, Clone, Copy, PartialEq, Eq, Structural, Hash)]
pub struct BindingFailure {
    pub function: NodeId,
    pub expr: NodeId,
    pub identifier: Id,
    pub kind: BindingFailureKind,
}

/// The bindings of all functions as a plain value: the rows in the order
/// in which expressions were first bound, and the failures in the order in
/// which they occurred.
pub struct LocalSymbolRegistryView {
    pub symbols: Seq<LocalSymbolEntry>,
    pub failures: Seq<BindingFailure>,
}

/// The rows for the expression `expr` of `function`.
pub open spec fn binding_of(function: NodeId, expr: NodeId) -> spec_fn(LocalSymbolEntry) -> bool {
    |entry: LocalSymbolEntry| entry.function == function && entry.expr == expr
}

/// The rows after `symbol` is stored for the expression `expr`: in the
/// place of the row that the expression had, or at the end.
pub open spec fn put_symbol(
    symbols: Seq<LocalSymbolEntry>,
    function: NodeId,
    expr: NodeId,
    symbol: LocalSymbol,
) -> Seq<LocalSymbolEntry> {
    match first_index(symbols, binding_of(function, expr)) {
        Some(i) => symbols.update(i, LocalSymbolEntry { function, expr, symbol }),
        None => symbols.push(LocalSymbolEntry { function, expr, symbol }),
    }
}

impl LocalSymbolRegistryView {
    pub open spec fn get(self, function: NodeId, expr: NodeId) -> Option<LocalSymbol> {
        match first_index(self.symbols, binding_of(function, expr)) {
            Some(i) => Some(self.symbols[i].symbol),
            None => None,
        }
    }
}

/// What the walk over a function body has made so far: the bindings, the
/// failures, and the scopes of the function.
pub struct LocalBindings {
    pub symbols: Seq<LocalSymbolEntry>,
    pub failures: Seq<BindingFailure>,
    pub table: ScopeTableView,
}

/// What a walk reads: the modules, the global symbols, and the module in
/// which the function is bound.
pub struct LocalContext {
    pub modules: ModuleRegistryView,
    pub symbols: GlobalSymbolRegistryView,
    pub module: Arc<Module>,
}

/// Follows the segments `segments[from..upto]` from the module `current`,
/// each as the name of a module symbol of the module reached before it.
/// Fails with the name that is bound to no registered module.
pub open spec fn follow_modules(
    context: LocalContext,
    current: Arc<Module>,
    segments: Seq<PunctuatedItem<ASTPathSegment>>,
    from: int,
    upto: int,
) -> Result<Arc<Module>, Id>
    decreases upto - from,
{
    if from < 0 || from >= upto {
        Ok(current)
    } else {
        let identifier = (match segments[from] {
            PunctuatedItem::Punctuated { item, .. } => item,
            PunctuatedItem::NotPunctuated { item } => item,
        }).identifier;
        match context.symbols.get_module_symbol(current.spec_id(), identifier.symbol) {
            None => Err(identifier),
            Some(symbol) => if !symbol.kind.spec_is_module() {
                Err(identifier)
            } else {
                match context.modules.get_module_by_id(symbol.kind.spec_id()) {
                    None => Err(identifier),
                    Some(next) => follow_modules(context, next, segments, from + 1, upto),
                }
            },
        }
    }
}

/// The failures `failures` and one more for each of the segments
/// `segments[from..upto]` that carries generic arguments.
pub open spec fn flag_generics(
    failures: Seq<BindingFailure>,
    function: NodeId,
    expr: NodeId,
    segments: Seq<PunctuatedItem<ASTPathSegment>>,
    from: int,
    upto: int,
) -> Seq<BindingFailure>
    decreases upto - from,
{
    if from < 0 || from >= upto {
        failures
    } else {
        let segment = match segments[from] {
            PunctuatedItem::Punctuated { item, .. } => item,
            PunctuatedItem::NotPunctuated { item } => item,
        };
        flag_generics(
            if segment.generic.is_some() {
                failures.push(
                    BindingFailure {
                        function,
                        expr,
                        identifier: segment.identifier,
                        kind: BindingFailureKind::PrefixGeneric,
                    },
                )
            } else {
                failures
            },
            function,
            expr,
            segments,
            from + 1,
            upto,
        )
    }
}

/// Binds a path expression.
///
/// A path of one segment without generic arguments that names a variable
/// in scope is bound to that variable, and one that names no variable in
/// scope but a parameter of the function to that parameter. Any other path
/// is global: its
/// segments but the last are followed as module names from the module of
/// the function, and the last is looked up among the symbols other than
/// modules of the module reached. A global path that cannot be followed or
/// looked up is recorded as a failure. Generic arguments on a segment
/// before the last are recorded as a failure too, and the path is followed
/// all the same.
pub open spec fn bind_path(
    context: LocalContext,
    state: LocalBindings,
    ast: ASTExprPath,
    scope: ScopeIndex,
) -> LocalBindings {
    let segments = ast.path.segments.items@;
    if segments.len() == 0 {
        state
    } else {
        let first = match segments[0] {
            PunctuatedItem::Punctuated { item, .. } => item,
            PunctuatedItem::NotPunctuated { item } => item,
        };
        let last = match segments[segments.len() - 1] {
            PunctuatedItem::Punctuated { item, .. } => item,
            PunctuatedItem::NotPunctuated { item } => item,
        };
        let local = if segments.len() == 1 && first.generic.is_none() {
            state.table.lookup_variable(scope, first.identifier.symbol)
        } else {
            None
        };
        match local {
            Some(variable) => LocalBindings {
                symbols: put_symbol(
                    state.symbols,
                    state.table.function,
                    ast.id,
                    LocalSymbol {
                        module: context.module,
                        function: state.table.function,
                        kind: LocalSymbolKind::Variable(state.table.variables[variable.0 as int]),
                        identifier: first.identifier,
                    },
                ),
                ..state
            },
            None => if segments.len() == 1 && first.generic.is_none()
                && state.table.lookup_parameter(first.identifier.symbol).is_some() {
                LocalBindings {
                    symbols: put_symbol(
                        state.symbols,
                        state.table.function,
                        ast.id,
                        LocalSymbol {
                            module: context.module,
                            function: state.table.function,
                            kind: LocalSymbolKind::Parameter(
                                state.table.lookup_parameter(first.identifier.symbol)->0,
                            ),
                            identifier: first.identifier,
                        },
                    ),
                    ..state
                }
            } else {
                let flagged = flag_generics(
                    state.failures,
                    state.table.function,
                    ast.id,
                    segments,
                    0,
                    segments.len() - 1,
                );
                match follow_modules(context, context.module, segments, 0, segments.len() - 1) {
                    Err(identifier) => LocalBindings {
                        failures: flagged.push(
                            BindingFailure {
                                function: state.table.function,
                                expr: ast.id,
                                identifier,
                                kind: BindingFailureKind::Module,
                            },
                        ),
                        ..state
                    },
                    Ok(target) => match context.symbols.get_non_module_symbol(
                        target.spec_id(),
                        last.identifier.symbol,
                    ) {
                        Some(symbol) => LocalBindings {
                            symbols: put_symbol(
                                state.symbols,
                                state.table.function,
                                ast.id,
                                LocalSymbol {
                                    module: context.module,
                                    function: state.table.function,
                                    kind: LocalSymbolKind::Global(symbol),
                                    identifier: last.identifier,
                                },
                            ),
                            failures: flagged,
                            ..state
                        },
                        None => LocalBindings {
                            failures: flagged.push(
                                BindingFailure {
                                    function: state.table.function,
                                    expr: ast.id,
                                    identifier: last.identifier,
                                    kind: BindingFailureKind::Symbol,
                                },
                            ),
                            ..state
                        },
                    },
                }
            },
        }
    }
}

/// Walks an expression in the scope `scope` and binds every path in it.
/// Of a member access only the base is walked.
pub open spec fn walk_expr(
    context: LocalContext,
    state: LocalBindings,
    expr: ASTExpr,
    scope: ScopeIndex,
) -> LocalBindings
    decreases expr, 0int,
{
    match expr.kind {
        ASTExprKind::Binary(ast) => walk_expr(
            context,
            walk_expr(context, state, *ast.operand_lhs, scope),
            *ast.operand_rhs,
            scope,
        ),
        ASTExprKind::As(ast) => walk_expr(context, state, *ast.expr, scope),
        ASTExprKind::Unary(ast) => walk_expr(context, state, *ast.operand_lhs, scope),
        ASTExprKind::Call(ast) => walk_args(
            context,
            walk_expr(context, state, *ast.callee.expr, scope),
            ast.args.items@,
            0,
            scope,
        ),
        ASTExprKind::Member(ast) => walk_expr(context, state, *ast.expr, scope),
        ASTExprKind::Paren(ast) => walk_expr(context, state, *ast.expr, scope),
        ASTExprKind::Path(ast) => bind_path(context, state, ast, scope),
        ASTExprKind::Literal(_) => state,
        ASTExprKind::StructLiteral(ast) => walk_fields(context, state, ast.fields.items@, 0, scope),
    }
}

/// Walks the arguments `args[from..]` of a call, in order.
pub open spec fn walk_args(
    context: LocalContext,
    state: LocalBindings,
    args: Seq<PunctuatedItem<ASTExpr>>,
    from: int,
    scope: ScopeIndex,
) -> LocalBindings
    decreases args, args.len() - from,
{
    if from < 0 || from >= args.len() {
        state
    } else {
        walk_args(
            context,
            walk_expr(
                context,
                state,
                match args[from] {
                    PunctuatedItem::Punctuated { item, .. } => item,
                    PunctuatedItem::NotPunctuated { item } => item,
                },
                scope,
            ),
            args,
            from + 1,
            scope,
        )
    }
}

/// Walks the values of the fields `fields[from..]` of a struct literal.
pub open spec fn walk_fields(
    context: LocalContext,
    state: LocalBindings,
    fields: Seq<PunctuatedItem<ASTExprStructLiteralField>>,
    from: int,
    scope: ScopeIndex,
) -> LocalBindings
    decreases fields, fields.len() - from,
{
    if from < 0 || from >= fields.len() {
        state
    } else {
        walk_fields(
            context,
            walk_expr(
                context,
                state,
                (match fields[from] {
                    PunctuatedItem::Punctuated { item, .. } => item,
                    PunctuatedItem::NotPunctuated { item } => item,
                }).expr,
                scope,
            ),
            fields,
            from + 1,
            scope,
        )
    }
}

/// Walks a block: opens a scope inside `parent` and walks the statements
/// of the block in it.
pub open spec fn walk_block(
    context: LocalContext,
    state: LocalBindings,
    block: ASTStmtBlock,
    parent: Option<ScopeIndex>,
) -> LocalBindings
    decreases block, 0int,
{
    walk_stmts(
        context,
        LocalBindings { table: state.table.new_scope(parent), ..state },
        block.stmts@,
        0,
        ScopeIndex(state.table.scopes.len() as usize),
    )
}

/// Walks the statements `stmts[from..]` of a block whose scope is `scope`.
pub open spec fn walk_stmts(
    context: LocalContext,
    state: LocalBindings,
    stmts: Seq<ASTStmt>,
    from: int,
    scope: ScopeIndex,
) -> LocalBindings
    decreases stmts, stmts.len() - from,
{
    if from < 0 || from >= stmts.len() {
        state
    } else {
        walk_stmts(
            context,
            walk_stmt(context, state, stmts[from], scope),
            stmts,
            from + 1,
            scope,
        )
    }
}

/// Walks one statement of a block whose scope is `scope`.
///
/// A nested block and the bodies of `if`, `else if`, `else`, `loop` and
/// `while` each get a scope of their own inside `scope`. A `let` declares
/// its variable in `scope` and then walks its initializer, so the
/// initializer sees the variable. Conditions and all other expressions are
/// walked in `scope`.
pub open spec fn walk_stmt(
    context: LocalContext,
    state: LocalBindings,
    stmt: ASTStmt,
    scope: ScopeIndex,
) -> LocalBindings
    decreases stmt, 0int,
{
    match stmt.kind {
        ASTStmtKind::Block(ast) => walk_block(context, state, ast, Some(scope)),
        ASTStmtKind::Let(ast) => {
            let declared = LocalBindings {
                table: state.table.new_variable(ast.id, ast.identifier.symbol, scope),
                ..state
            };
            match ast.expr {
                Some(init) => walk_expr(context, declared, init.expr, scope),
                None => declared,
            }
        },
        ASTStmtKind::If(ast) => {
            let after_ifs = walk_else_ifs(
                context,
                walk_block(
                    context,
                    walk_expr(context, state, ast.expr, scope),
                    ast.stmt_block,
                    Some(scope),
                ),
                ast.else_ifs@,
                0,
                scope,
            );
            match ast.else_ {
                Some(otherwise) => walk_block(context, after_ifs, otherwise.stmt_block, Some(scope)),
                None => after_ifs,
            }
        },
        ASTStmtKind::Loop(ast) => walk_block(context, state, ast.stmt_block, Some(scope)),
        ASTStmtKind::While(ast) => walk_block(
            context,
            walk_expr(context, state, ast.expr, scope),
            ast.stmt_block,
            Some(scope),
        ),
        ASTStmtKind::Break(_) => state,
        ASTStmtKind::Continue(_) => state,
        ASTStmtKind::Return(ast) => match ast.expr {
            Some(expr) => walk_expr(context, state, expr, scope),
            None => state,
        },
        ASTStmtKind::Assignment(ast) => walk_expr(
            context,
            walk_expr(context, state, ast.operand_lhs, scope),
            ast.operand_rhs,
            scope,
        ),
        ASTStmtKind::Expr(ast) => walk_expr(context, state, ast.expr, scope),
    }
}

/// Walks the `else if` branches `branches[from..]` of an `if`.
pub open spec fn walk_else_ifs(
    context: LocalContext,
    state: LocalBindings,
    branches: Seq<ASTStmtIfElseIf>,
    from: int,
    scope: ScopeIndex,
) -> LocalBindings
    decreases branches, branches.len() - from,
{
    if from < 0 || from >= branches.len() {
        state
    } else {
        walk_else_ifs(
            context,
            walk_block(
                context,
                walk_expr(context, state, branches[from].expr, scope),
                branches[from].stmt_block,
                Some(scope),
            ),
            branches,
            from + 1,
            scope,
        )
    }
}

/// The table `table` after the parameters `params[from..]` were declared,
/// in their order.
pub open spec fn declare_parameters(
    table: ScopeTableView,
    params: Seq<PunctuatedItem<ASTFnParam>>,
    from: int,
) -> ScopeTableView
    decreases params.len() - from,
{
    if from < 0 || from >= params.len() {
        table
    } else {
        let param = match params[from] {
            PunctuatedItem::Punctuated { item, .. } => item,
            PunctuatedItem::NotPunctuated { item } => item,
        };
        declare_parameters(
            table.new_parameter(param.id, param.identifier.symbol),
            params,
            from + 1,
        )
    }
}

/// The bindings after the body of the function `ast`, bound in the module
/// of `context`, was walked. The parameters are declared first, and the
/// body is the first scope of the function.
pub open spec fn walk_function(
    context: LocalContext,
    registry: LocalSymbolRegistryView,
    ast: ASTFnDef,
) -> LocalSymbolRegistryView {
    let end = walk_block(
        context,
        LocalBindings {
            symbols: registry.symbols,
            failures: registry.failures,
            table: declare_parameters(
                ScopeTableView {
                    function: ast.id,
                    parameters: Seq::empty(),
                    scopes: Seq::empty(),
                    variables: Seq::empty(),
                },
                ast.params.items@,
                0,
            ),
        },
        ast.stmt_block,
        None,
    );
    LocalSymbolRegistryView { symbols: end.symbols, failures: end.failures }
}

/// The bindings after the functions among `rows[from..]`, which are rows of
/// `module`, were walked in turn.
pub open spec fn walk_rows(
    modules: ModuleRegistryView,
    symbols: GlobalSymbolRegistryView,
    registry: LocalSymbolRegistryView,
    module: Arc<Module>,
    rows: Seq<GlobalSymbolEntry>,
    from: int,
) -> LocalSymbolRegistryView
    decreases rows.len() - from,
{
    if from < 0 || from >= rows.len() {
        registry
    } else {
        walk_rows(
            modules,
            symbols,
            match rows[from].symbol.kind {
                GlobalSymbolKind::Fn(ast) => walk_function(
                    LocalContext { modules, symbols, module },
                    registry,
                    *ast,
                ),
                _ => registry,
            },
            module,
            rows,
            from + 1,
        )
    }
}

/// The bindings after the functions of the modules `modules.modules[from..]`
/// were walked, module by module.
pub open spec fn walk_modules(
    modules: ModuleRegistryView,
    symbols: GlobalSymbolRegistryView,
    registry: LocalSymbolRegistryView,
    from: int,
) -> LocalSymbolRegistryView
    decreases modules.modules.len() - from,
{
    if from < 0 || from >= modules.modules.len() {
        registry
    } else {
        walk_modules(
            modules,
            symbols,
            walk_rows(
                modules,
                symbols,
                registry,
                modules.modules[from],
                symbols.non_module_entries_of(modules.modules[from].spec_id()),
                0,
            ),
            from + 1,
        )
    }
}

/// The binding of every identifier expression of every function, keyed by
/// function and expression, and the paths that could not be bound.
#[derive(Debug)]
pub struct LocalSymbolRegistry {
    symbols: Vec<LocalSymbolEntry>,
    failures: Vec<BindingFailure>,
}

impl View for LocalSymbolRegistry {
    type V = LocalSymbolRegistryView;

    closed spec fn view(&self) -> LocalSymbolRegistryView {
        LocalSymbolRegistryView { symbols: self.symbols@, failures: self.failures@ }
    }
}

/// The state of a walk, from the registry and the scope table.
pub open spec fn bindings(registry: LocalSymbolRegistryView, table: ScopeTableView) -> LocalBindings {
    LocalBindings { symbols: registry.symbols, failures: registry.failures, table }
}

impl LocalSymbolRegistry {
    pub fn new() -> (r: Self)
        ensures
            r@.symbols == Seq::<LocalSymbolEntry>::empty(),
            r@.failures == Seq::<BindingFailure>::empty(),
    {
        Self { symbols: Vec::new(), failures: Vec::new() }
    }

    /// The rows of the table, in the order in which expressions were first
    /// bound.
    pub fn symbols(&self) -> (r: &Vec<LocalSymbolEntry>)
        ensures
            r@ == self@.symbols,
    {
        &self.symbols
    }

    /// The paths that could not be bound, in the order in which they were
    /// met.
    pub fn failures(&self) -> (r: &Vec<BindingFailure>)
        ensures
            r@ == self@.failures,
    {
        &self.failures
    }

    fn find(&self, function: NodeId, expr: NodeId) -> (r: Option<usize>)
        ensures
            match r {
                Some(i) => first_index(self@.symbols, binding_of(function, expr)) == Some(i as int)
                    && i < self@.symbols.len(),
                None => first_index(self@.symbols, binding_of(function, expr)).is_none(),
            },
    {
        let mut i: usize = 0;
        while i < self.symbols.len()
            invariant
                i <= self@.symbols.len(),
                forall|j: int| 0 <= j < i ==> !binding_of(function, expr)(#[trigger] self@.symbols[j]),
            decreases self@.symbols.len() - i,
        {
            if self.symbols[i].function == function && self.symbols[i].expr == expr {
                proof {
                    lemma_first_index_is(self@.symbols, binding_of(function, expr), i as int);
                }
                return Some(i);
            }
            i += 1;
        }
        proof {
            lemma_first_index_none(self@.symbols, binding_of(function, expr));
        }
        None
    }

    /// The binding of the expression `expr` of the function `function`.
    pub fn get(&self, function: NodeId, expr: NodeId) -> (r: Option<&LocalSymbol>)
        ensures
            match r {
                Some(symbol) => self@.get(function, expr) == Some(*symbol),
                None => self@.get(function, expr).is_none(),
            },
    {
        match self.find(function, expr) {
            Some(i) => Some(&self.symbols[i].symbol),
            None => None,
        }
    }

    fn insert(&mut self, function: NodeId, expr: NodeId, symbol: LocalSymbol)
        ensures
            final(self)@.symbols == put_symbol(old(self)@.symbols, function, expr, symbol),
            final(self)@.failures == old(self)@.failures,
    {
        match self.find(function, expr) {
            Some(i) => {
                self.symbols[i] = LocalSymbolEntry { function, expr, symbol };
            },
            None => {
                self.symbols.push(LocalSymbolEntry { function, expr, symbol });
            },
        }
    }

    /// Walks the body of every function that is bound in a registered
    /// module, module by module in registration order and function by
    /// function in the order of the symbol table, and binds its paths.
    pub fn register(
        &mut self,
        module_registry: &ModuleRegistry,
        global_symbol_registry: &GlobalSymbolRegistry,
    )
        ensures
            final(self)@ == walk_modules(module_registry@, global_symbol_registry@, old(self)@, 0),
    {
        let ghost goal = walk_modules(module_registry@, global_symbol_registry@, self@, 0);
        let modules = module_registry.modules();
        let mut m: usize = 0;
        while m < modules.len()
            invariant
                m <= modules@.len(),
                modules@ == module_registry@.modules,
                walk_modules(module_registry@, global_symbol_registry@, self@, m as int) == goal,
            decreases modules@.len() - m,
        {
            let module = &modules[m];
            let rows = global_symbol_registry.non_module_rows(module.id());
            let ghost all = global_symbol_registry@.non_module_entries_of(module.spec_id());
            let ghost inner = walk_rows(
                module_registry@,
                global_symbol_registry@,
                self@,
                *module,
                all,
                0,
            );
            let mut k: usize = 0;
            while k < rows.len()
                invariant
                    k <= rows@.len(),
                    rows@.len() == all.len(),
                    forall|j: int| 0 <= j < rows@.len() ==> *(#[trigger] rows@[j]) == all[j],
                    walk_rows(
                        module_registry@,
                        global_symbol_registry@,
                        self@,
                        *module,
                        all,
                        k as int,
                    ) == inner,
                decreases rows@.len() - k,
            {
                let row = rows[k];
                match &row.symbol.kind {
                    GlobalSymbolKind::Fn(ast) => {
                        self.register_function(module_registry, global_symbol_registry, module, ast);
                    },
                    _ => {},
                }
                k += 1;
            }
            m += 1;
        }
    }

    fn register_function(
        &mut self,
        module_registry: &ModuleRegistry,
        global_symbol_registry: &GlobalSymbolRegistry,
        module: &Arc<Module>,
        ast: &ASTFnDef,
    )
        ensures
            final(self)@ == walk_function(
                LocalContext {
                    modules: module_registry@,
                    symbols: global_symbol_registry@,
                    module: *module,
                },
                old(self)@,
                *ast,
            ),
    {
        let mut scope_table = ScopeTable::new(ast.id);
        let ghost declared = declare_parameters(scope_table@, ast.params.items@, 0);
        let mut i: usize = 0;
        while i < ast.params.items.len()
            invariant
                i <= ast.params.items@.len(),
                scope_table@.wf(),
                declare_parameters(scope_table@, ast.params.items@, i as int) == declared,
            decreases ast.params.items@.len() - i,
        {
            let param = match &ast.params.items[i] {
                PunctuatedItem::Punctuated { item, .. } => item,
                PunctuatedItem::NotPunctuated { item } => item,
            };
            scope_table.new_parameter(param.id, param.identifier.symbol);
            i += 1;
        }
        self.register_function_stmt_block(
            module_registry,
            global_symbol_registry,
            module,
            &ast.stmt_block,
            None,
            &mut scope_table,
        );
    }

    fn register_function_stmt_block(
        &mut self,
        module_registry: &ModuleRegistry,
        global_symbol_registry: &GlobalSymbolRegistry,
        module: &Arc<Module>,
        ast: &ASTStmtBlock,
        parent: Option<ScopeIndex>,
        scope_table: &mut ScopeTable,
    )
        requires
            old(scope_table)@.wf(),
            match parent {
                Some(parent) => parent.0 < old(scope_table)@.scopes.len(),
                None => true,
            },
        ensures
            bindings(final(self)@, final(scope_table)@) == walk_block(
                LocalContext {
                    modules: module_registry@,
                    symbols: global_symbol_registry@,
                    module: *module,
                },
                bindings(old(self)@, old(scope_table)@),
                *ast,
                parent,
            ),
            final(scope_table)@.wf(),
            final(scope_table)@.scopes.len() >= old(scope_table)@.scopes.len(),
        decreases ast, 1int,
    {
        let ghost context = LocalContext {
            modules: module_registry@,
            symbols: global_symbol_registry@,
            module: *module,
        };
        let ghost goal = walk_block(context, bindings(self@, scope_table@), *ast, parent);
        let scope_index = scope_table.new_scope(parent);
        let mut i: usize = 0;
        while i < ast.stmts.len()
            invariant
                i <= ast.stmts@.len(),
                scope_table@.wf(),
                scope_index.0 < scope_table@.scopes.len(),
                scope_table@.scopes.len() > old(scope_table)@.scopes.len(),
                context == (LocalContext {
                    modules: module_registry@,
                    symbols: global_symbol_registry@,
                    module: *module,
                }),
                walk_stmts(
                    context,
                    bindings(self@, scope_table@),
                    ast.stmts@,
                    i as int,
                    scope_index,
                ) == goal,
            decreases ast.stmts@.len() - i,
        {
            proof {
                assert(decreases_to!(*ast => ast.stmts@));
                assert(decreases_to!(ast.stmts@ => ast.stmts@[i as int]));
            }
            self.register_function_stmt(
                module_registry,
                global_symbol_registry,
                module,
                &ast.stmts[i],
                scope_index,
                scope_table,
            );
            i += 1;
        }
    }

    fn register_function_stmt(
        &mut self,
        module_registry: &ModuleRegistry,
        global_symbol_registry: &GlobalSymbolRegistry,
        module: &Arc<Module>,
        stmt: &ASTStmt,
        scope_index: ScopeIndex,
        scope_table: &mut ScopeTable,
    )
        requires
            old(scope_table)@.wf(),
            scope_index.0 < old(scope_table)@.scopes.len(),
        ensures
            bindings(final(self)@, final(scope_table)@) == walk_stmt(
                LocalContext {
                    modules: module_registry@,
                    symbols: global_symbol_registry@,
                    module: *module,
                },
                bindings(old(self)@, old(scope_table)@),
                *stmt,
                scope_index,
            ),
            final(scope_table)@.wf(),
            final(scope_table)@.scopes.len() >= old(scope_table)@.scopes.len(),
        decreases stmt, 0int,
    {
        let ghost context = LocalContext {
            modules: module_registry@,
            symbols: global_symbol_registry@,
            module: *module,
        };
        match &stmt.kind {
            ASTStmtKind::Block(ast) => {
                proof {
                    assert(stmt.kind->Block_0 == *ast);
                    assert(decreases_to!(*stmt => stmt.kind));
                    assert(decreases_to!(stmt.kind => stmt.kind->Block_0));
                }
                self.register_function_stmt_block(
                    module_registry,
                    global_symbol_registry,
                    module,
                    ast,
                    Some(scope_index),
                    scope_table,
                );
            },
            ASTStmtKind::Let(ast) => {
                scope_table.new_variable(ast.id, ast.identifier.symbol, scope_index);
                match &ast.expr {
                    Some(init) => {
                        proof {
                            assert(decreases_to!(*stmt => stmt.kind));
                        }
                        self.register_function_expr(
                            module_registry,
                            global_symbol_registry,
                            module,
                            &init.expr,
                            scope_index,
                            scope_table,
                        );
                    },
                    None => {},
                }
            },
            ASTStmtKind::If(ast) => {
                proof {
                    assert(stmt.kind->If_0 == *ast);
                    assert(decreases_to!(*stmt => stmt.kind));
                    assert(decreases_to!(stmt.kind => stmt.kind->If_0));
                    assert(decreases_to!(*ast => ast.stmt_block));
                    assert(decreases_to!(*ast => ast.else_ifs@));
                    assert(decreases_to!(*ast => ast.else_));
                }
                self.register_function_expr(
                    module_registry,
                    global_symbol_registry,
                    module,
                    &ast.expr,
                    scope_index,
                    scope_table,
                );
                self.register_function_stmt_block(
                    module_registry,
                    global_symbol_registry,
                    module,
                    &ast.stmt_block,
                    Some(scope_index),
                    scope_table,
                );
                let ghost goal = walk_else_ifs(
                    context,
                    bindings(self@, scope_table@),
                    ast.else_ifs@,
                    0,
                    scope_index,
                );
                let mut i: usize = 0;
                while i < ast.else_ifs.len()
                    invariant
                        i <= ast.else_ifs@.len(),
                        scope_table@.wf(),
                        scope_index.0 < scope_table@.scopes.len(),
                        scope_table@.scopes.len() >= old(scope_table)@.scopes.len(),
                        decreases_to!(*stmt => ast.else_ifs@),
                        context == (LocalContext {
                            modules: module_registry@,
                            symbols: global_symbol_registry@,
                            module: *module,
                        }),
                        walk_else_ifs(
                            context,
                            bindings(self@, scope_table@),
                            ast.else_ifs@,
                            i as int,
                            scope_index,
                        ) == goal,
                    decreases ast.else_ifs@.len() - i,
                {
                    let branch = &ast.else_ifs[i];
                    proof {
                        assert(decreases_to!(ast.else_ifs@ => ast.else_ifs@[i as int]));
                        assert(decreases_to!(*branch => branch.stmt_block));
                    }
                    self.register_function_expr(
                        module_registry,
                        global_symbol_registry,
                        module,
                        &branch.expr,
                        scope_index,
                        scope_table,
                    );
                    self.register_function_stmt_block(
                        module_registry,
                        global_symbol_registry,
                        module,
                        &branch.stmt_block,
                        Some(scope_index),
                        scope_table,
                    );
                    i += 1;
                }
                match &ast.else_ {
                    Some(otherwise) => {
                        proof {
                            assert(ast.else_->0 == *otherwise);
                            assert(decreases_to!(ast.else_ => ast.else_->0));
                            assert(decreases_to!(*otherwise => otherwise.stmt_block));
                        }
                        self.register_function_stmt_block(
                            module_registry,
                            global_symbol_registry,
                            module,
                            &otherwise.stmt_block,
                            Some(scope_index),
                            scope_table,
                        );
                    },
                    None => {},
                }
            },
            ASTStmtKind::Loop(ast) => {
                proof {
                    assert(stmt.kind->Loop_0 == *ast);
                    assert(decreases_to!(*stmt => stmt.kind));
                    assert(decreases_to!(stmt.kind => stmt.kind->Loop_0));
                    assert(decreases_to!(*ast => ast.stmt_block));
                }
                self.register_function_stmt_block(
                    module_registry,
                    global_symbol_registry,
                    module,
                    &ast.stmt_block,
                    Some(scope_index),
                    scope_table,
                );
            },
            ASTStmtKind::While(ast) => {
                proof {
                    assert(stmt.kind->While_0 == *ast);
                    assert(decreases_to!(*stmt => stmt.kind));
                    assert(decreases_to!(stmt.kind => stmt.kind->While_0));
                    assert(decreases_to!(*ast => ast.stmt_block));
                }
                self.register_function_expr(
                    module_registry,
                    global_symbol_registry,
                    module,
                    &ast.expr,
                    scope_index,
                    scope_table,
                );
                self.register_function_stmt_block(
                    module_registry,
                    global_symbol_registry,
                    module,
                    &ast.stmt_block,
                    Some(scope_index),
                    scope_table,
                );
            },
            ASTStmtKind::Break(_) => {},
            ASTStmtKind::Continue(_) => {},
            ASTStmtKind::Return(ast) => {
                match &ast.expr {
                    Some(expr) => {
                        proof {
                            assert(decreases_to!(*stmt => stmt.kind));
                        }
                        self.register_function_expr(
                            module_registry,
                            global_symbol_registry,
                            module,
                            expr,
                            scope_index,
                            scope_table,
                        );
                    },
                    None => {},
                }
            },
            ASTStmtKind::Assignment(ast) => {
                proof {
                    assert(decreases_to!(*stmt => stmt.kind));
                }
                self.register_function_expr(
                    module_registry,
                    global_symbol_registry,
                    module,
                    &ast.operand_lhs,
                    scope_index,
                    scope_table,
                );
                self.register_function_expr(
                    module_registry,
                    global_symbol_registry,
                    module,
                    &ast.operand_rhs,
                    scope_index,
                    scope_table,
                );
            },
            ASTStmtKind::Expr(ast) => {
                proof {
                    assert(decreases_to!(*stmt => stmt.kind));
                }
                self.register_function_expr(
                    module_registry,
                    global_symbol_registry,
                    module,
                    &ast.expr,
                    scope_index,
                    scope_table,
                );
            },
        }
    }

    fn register_function_expr(
        &mut self,
        module_registry: &ModuleRegistry,
        global_symbol_registry: &GlobalSymbolRegistry,
        module: &Arc<Module>,
        expr: &ASTExpr,
        scope_index: ScopeIndex,
        scope_table: &mut ScopeTable,
    )
        requires
            old(scope_table)@.wf(),
            scope_index.0 < old(scope_table)@.scopes.len(),
        ensures
            bindings(final(self)@, final(scope_table)@) == walk_expr(
                LocalContext {
                    modules: module_registry@,
                    symbols: global_symbol_registry@,
                    module: *module,
                },
                bindings(old(self)@, old(scope_table)@),
                *expr,
                scope_index,
            ),
            final(scope_table)@.wf(),
            final(scope_table)@.scopes.len() >= old(scope_table)@.scopes.len(),
        decreases expr, 0int,
    {
        let ghost context = LocalContext {
            modules: module_registry@,
            symbols: global_symbol_registry@,
            module: *module,
        };
        match &expr.kind {
            ASTExprKind::Binary(ast) => {
                proof {
                    assert(expr.kind->Binary_0 == *ast);
                    assert(decreases_to!(*expr => expr.kind));
                    assert(decreases_to!(expr.kind => expr.kind->Binary_0));
                    assert(decreases_to!(*ast => ast.operand_lhs));
                    assert(decreases_to!(*ast => ast.operand_rhs));
                }
                self.register_function_expr(
                    module_registry,
                    global_symbol_registry,
                    module,
                    &ast.operand_lhs,
                    scope_index,
                    scope_table,
                );
                self.register_function_expr(
                    module_registry,
                    global_symbol_registry,
                    module,
                    &ast.operand_rhs,
                    scope_index,
                    scope_table,
                );
            },
            ASTExprKind::As(ast) => {
                proof {
                    assert(expr.kind->As_0 == *ast);
                    assert(decreases_to!(*expr => expr.kind));
                    assert(decreases_to!(expr.kind => expr.kind->As_0));
                    assert(decreases_to!(*ast => ast.expr));
                }
                self.register_function_expr(
                    module_registry,
                    global_symbol_registry,
                    module,
                    &ast.expr,
                    scope_index,
                    scope_table,
                );
            },
            ASTExprKind::Unary(ast) => {
                proof {
                    assert(expr.kind->Unary_0 == *ast);
                    assert(decreases_to!(*expr => expr.kind));
                    assert(decreases_to!(expr.kind => expr.kind->Unary_0));
                    assert(decreases_to!(*ast => ast.operand_lhs));
                }
                self.register_function_expr(
                    module_registry,
                    global_symbol_registry,
                    module,
                    &ast.operand_lhs,
                    scope_index,
                    scope_table,
                );
            },
            ASTExprKind::Call(ast) => {
                proof {
                    assert(expr.kind->Call_0 == *ast);
                    assert(decreases_to!(*expr => expr.kind));
                    assert(decreases_to!(expr.kind => expr.kind->Call_0));
                    assert(decreases_to!(*ast => ast.callee));
                    assert(decreases_to!(ast.callee => ast.callee.expr));
                    assert(decreases_to!(*ast => ast.args));
                    assert(decreases_to!(ast.args => ast.args.items@));
                }
                self.register_function_expr(
                    module_registry,
                    global_symbol_registry,
                    module,
                    &ast.callee.expr,
                    scope_index,
                    scope_table,
                );
                let args = &ast.args.items;
                let ghost goal = walk_args(
                    context,
                    bindings(self@, scope_table@),
                    args@,
                    0,
                    scope_index,
                );
                let mut i: usize = 0;
                while i < args.len()
                    invariant
                        i <= args@.len(),
                        scope_table@.wf(),
                        scope_index.0 < scope_table@.scopes.len(),
                        scope_table@.scopes.len() >= old(scope_table)@.scopes.len(),
                        decreases_to!(*expr => args@),
                        context == (LocalContext {
                            modules: module_registry@,
                            symbols: global_symbol_registry@,
                            module: *module,
                        }),
                        walk_args(
                            context,
                            bindings(self@, scope_table@),
                            args@,
                            i as int,
                            scope_index,
                        ) == goal,
                    decreases args@.len() - i,
                {
                    let item = match &args[i] {
                        PunctuatedItem::Punctuated { item, .. } => item,
                        PunctuatedItem::NotPunctuated { item } => item,
                    };
                    proof {
                        assert(decreases_to!(args@ => args@[i as int]));
                        assert(decreases_to!(args@[i as int] => *item));
                    }
                    self.register_function_expr(
                        module_registry,
                        global_symbol_registry,
                        module,
                        item,
                        scope_index,
                        scope_table,
                    );
                    i += 1;
                }
            },
            ASTExprKind::Member(ast) => {
                proof {
                    assert(expr.kind->Member_0 == *ast);
                    assert(decreases_to!(*expr => expr.kind));
                    assert(decreases_to!(expr.kind => expr.kind->Member_0));
                    assert(decreases_to!(*ast => ast.expr));
                }
                self.register_function_expr(
                    module_registry,
                    global_symbol_registry,
                    module,
                    &ast.expr,
                    scope_index,
                    scope_table,
                );
            },
            ASTExprKind::Paren(ast) => {
                proof {
                    assert(expr.kind->Paren_0 == *ast);
                    assert(decreases_to!(*expr => expr.kind));
                    assert(decreases_to!(expr.kind => expr.kind->Paren_0));
                    assert(decreases_to!(*ast => ast.expr));
                }
                self.register_function_expr(
                    module_registry,
                    global_symbol_registry,
                    module,
                    &ast.expr,
                    scope_index,
                    scope_table,
                );
            },
            ASTExprKind::Path(ast) => {
                self.register_function_path(
                    module_registry,
                    global_symbol_registry,
                    module,
                    ast,
                    scope_index,
                    &*scope_table,
                );
            },
            ASTExprKind::Literal(_) => {},
            ASTExprKind::StructLiteral(ast) => {
                proof {
                    assert(expr.kind->StructLiteral_0 == *ast);
                    assert(decreases_to!(*expr => expr.kind));
                    assert(decreases_to!(expr.kind => expr.kind->StructLiteral_0));
                    assert(decreases_to!(*ast => ast.fields));
                    assert(decreases_to!(ast.fields => ast.fields.items@));
                }
                let fields = &ast.fields.items;
                let ghost goal = walk_fields(
                    context,
                    bindings(self@, scope_table@),
                    fields@,
                    0,
                    scope_index,
                );
                let mut i: usize = 0;
                while i < fields.len()
                    invariant
                        i <= fields@.len(),
                        scope_table@.wf(),
                        scope_index.0 < scope_table@.scopes.len(),
                        scope_table@.scopes.len() >= old(scope_table)@.scopes.len(),
                        decreases_to!(*expr => fields@),
                        context == (LocalContext {
                            modules: module_registry@,
                            symbols: global_symbol_registry@,
                            module: *module,
                        }),
                        walk_fields(
                            context,
                            bindings(self@, scope_table@),
                            fields@,
                            i as int,
                            scope_index,
                        ) == goal,
                    decreases fields@.len() - i,
                {
                    let item = match &fields[i] {
                        PunctuatedItem::Punctuated { item, .. } => item,
                        PunctuatedItem::NotPunctuated { item } => item,
                    };
                    proof {
                        assert(decreases_to!(fields@ => fields@[i as int]));
                        assert(decreases_to!(fields@[i as int] => *item));
                        assert(decreases_to!(*item => item.expr));
                    }
                    self.register_function_expr(
                        module_registry,
                        global_symbol_registry,
                        module,
                        &item.expr,
                        scope_index,
                        scope_table,
                    );
                    i += 1;
                }
            },
        }
    }

    fn register_function_path(
        &mut self,
        module_registry: &ModuleRegistry,
        global_symbol_registry: &GlobalSymbolRegistry,
        module: &Arc<Module>,
        ast: &ASTExprPath,
        scope_index: ScopeIndex,
        scope_table: &ScopeTable,
    )
        requires
            scope_table@.wf(),
            scope_index.0 < scope_table@.scopes.len(),
        ensures
            bindings(final(self)@, scope_table@) == bind_path(
                LocalContext {
                    modules: module_registry@,
                    symbols: global_symbol_registry@,
                    module: *module,
                },
                bindings(old(self)@, scope_table@),
                *ast,
                scope_index,
            ),
    {
        let segments = &ast.path.segments.items;
        if segments.len() == 0 {
            return ;
        }
        let function = scope_table.function;
        if segments.len() == 1 {
            let segment = match &segments[0] {
                PunctuatedItem::Punctuated { item, .. } => item,
                PunctuatedItem::NotPunctuated { item } => item,
            };
            if segment.generic.is_none() {
                match scope_table.lookup_variable(scope_index, segment.identifier.symbol) {
                    Some(variable_index) => {
                        let local_symbol = LocalSymbol::new(
                            share(module),
                            function,
                            LocalSymbolKind::Variable(scope_table.variable(variable_index)),
                            segment.identifier,
                        );
                        self.insert(function, ast.id, local_symbol);
                        return ;
                    },
                    None => {},
                }
                match scope_table.lookup_parameter(segment.identifier.symbol) {
                    Some(parameter) => {
                        let local_symbol = LocalSymbol::new(
                            share(module),
                            function,
                            LocalSymbolKind::Parameter(parameter),
                            segment.identifier,
                        );
                        self.insert(function, ast.id, local_symbol);
                        return ;
                    },
                    None => {},
                }
            }
        }
        let last_index = segments.len() - 1;
        let last = match &segments[last_index] {
            PunctuatedItem::Punctuated { item, .. } => item,
            PunctuatedItem::NotPunctuated { item } => item,
        };
        let ghost flagged = flag_generics(
            self.failures@,
            function,
            ast.id,
            segments@,
            0,
            last_index as int,
        );
        let mut i: usize = 0;
        while i < last_index
            invariant
                i <= last_index < segments@.len(),
                self.symbols == old(self).symbols,
                flag_generics(
                    self.failures@,
                    function,
                    ast.id,
                    segments@,
                    i as int,
                    last_index as int,
                ) == flagged,
            decreases last_index - i,
        {
            let segment = match &segments[i] {
                PunctuatedItem::Punctuated { item, .. } => item,
                PunctuatedItem::NotPunctuated { item } => item,
            };
            if segment.generic.is_some() {
                self.failures.push(
                    BindingFailure {
                        function,
                        expr: ast.id,
                        identifier: segment.identifier,
                        kind: BindingFailureKind::PrefixGeneric,
                    },
                );
            }
            i += 1;
        }
        match follow_module_path(
            module_registry,
            global_symbol_registry,
            module,
            segments,
            last_index,
        ) {
            Err(identifier) => {
                self.failures.push(
                    BindingFailure {
                        function,
                        expr: ast.id,
                        identifier,
                        kind: BindingFailureKind::Module,
                    },
                );
            },
            Ok(target_module) => {
                match global_symbol_registry.get_non_module_symbol(
                    &target_module,
                    last.identifier.symbol,
                ) {
                    Some(symbol) => {
                        let local_symbol = LocalSymbol::new(
                            share(module),
                            function,
                            LocalSymbolKind::Global(symbol.duplicate()),
                            last.identifier,
                        );
                        self.insert(function, ast.id, local_symbol);
                    },
                    None => {
                        self.failures.push(
                            BindingFailure {
                                function,
                                expr: ast.id,
                                identifier: last.identifier,
                                kind: BindingFailureKind::Symbol,
                            },
                        );
                    },
                }
            },
        }
    }
}

/// Follows the first `upto` segments of a path as module names, from
/// `module` on.
fn follow_module_path(
    module_registry: &ModuleRegistry,
    global_symbol_registry: &GlobalSymbolRegistry,
    module: &Arc<Module>,
    segments: &Vec<PunctuatedItem<ASTPathSegment>>,
    upto: usize,
) -> (r: Result<Arc<Module>, Id>)
    requires
        upto <= segments@.len(),
    ensures
        r == follow_modules(
            LocalContext {
                modules: module_registry@,
                symbols: global_symbol_registry@,
                module: *module,
            },
            *module,
            segments@,
            0,
            upto as int,
        ),
{
    let ghost context = LocalContext {
        modules: module_registry@,
        symbols: global_symbol_registry@,
        module: *module,
    };
    let ghost goal = follow_modules(context, *module, segments@, 0, upto as int);
    let mut target_module = share(module);
    let mut i: usize = 0;
    while i < upto
        invariant
            i <= upto <= segments@.len(),
            context == (LocalContext {
                modules: module_registry@,
                symbols: global_symbol_registry@,
                module: *module,
            }),
            goal == follow_modules(context, *module, segments@, 0, upto as int),
            follow_modules(context, target_module, segments@, i as int, upto as int) == goal,
        decreases upto - i,
    {
        let segment = match &segments[i] {
            PunctuatedItem::Punctuated { item, .. } => item,
            PunctuatedItem::NotPunctuated { item } => item,
        };
        let found = match global_symbol_registry.get_module_symbol(
            &target_module,
            segment.identifier.symbol,
        ) {
            Some(symbol) => match &symbol.kind {
                GlobalSymbolKind::ModuleDecl(ast) => module_registry.get_module_by_id(ast.id),
                GlobalSymbolKind::ModuleDef(ast) => module_registry.get_module_by_id(ast.id),
                _ => None,
            },
            None => None,
        };
        match found {
            Some(next) => {
                target_module = share(next);
            },
            None => {
                return Err(segment.identifier);
            },
        }
        i += 1;
    }
    Ok(target_module)
}

} // verus!
