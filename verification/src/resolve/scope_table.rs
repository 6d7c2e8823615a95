use vstd::prelude::*;
use crate::parse::ast::node_id::NodeId;
use crate::symbol::name::Symbol;

verus! {

/// The place of a variable in the list of variables of a function.
#[derive(Debug, Clone, Copy, PartialEq, Eq, Structural, Hash)]
pub struct VariableIndex(pub usize);

/// The place of a scope in the list of scopes of a function.
#[derive(Debug, Clone, Copy, PartialEq, Eq, Structural, Hash)]
pub struct ScopeIndex(pub usize);

/// A function parameter: its node and its place among the parameters.
#[derive(Debug, Clone, Copy, PartialEq, Eq, Structural, Hash)]
pub struct LocalSymbolParameter {
    pub id: NodeId,
    pub index: usize,
}

impl LocalSymbolParameter {
    pub fn new(id: NodeId, index: usize) -> (r: Self)
        ensures
            r == (LocalSymbolParameter { id, index }),
    {
        Self { id, index }
    }
}

/// A variable that a `let` introduced: its node, its own index, and the
/// scope in which it was declared.
#[derive(Debug, Clone, Copy, PartialEq, Eq, Structural, Hash)]
pub struct LocalSymbolVariable {
    pub id: NodeId,
    pub index: VariableIndex,
    pub scope: ScopeIndex,
}

impl LocalSymbolVariable {
    pub fn new(id: NodeId, index: VariableIndex, scope: ScopeIndex) -> (r: Self)
        ensures
            r == (LocalSymbolVariable { id, index, scope }),
    {
        Self { id, index, scope }
    }
}

/// One parameter of a function: its name and what it stands for.
#[derive(Debug, Clone, Copy, PartialEq, Eq, Structural, Hash)]
pub struct ScopeParameter {
    pub name: Symbol,
    pub parameter: LocalSymbolParameter,
}

/// The parameter that the last of the first `upto` parameters under the
/// name `name` stands for.
pub open spec fn last_parameter(parameters: Seq<ScopeParameter>, name: Symbol, upto: int) -> Option<
    LocalSymbolParameter,
>
    decreases upto,
{
    if upto <= 0 {
        None
    } else if parameters[upto - 1].name == name {
        Some(parameters[upto - 1].parameter)
    } else {
        last_parameter(parameters, name, upto - 1)
    }
}

/// One declaration of a scope: a name and the variable that it stands for.
#[derive(Debug, Clone, Copy, PartialEq, Eq, Structural, Hash)]
pub struct ScopeVariable {
    pub name: Symbol,
    pub index: VariableIndex,
}

/// A lexical scope: its own index, the scope around it, and its
/// declarations in source order.
#[derive(Debug)]
pub struct Scope {
    pub index: ScopeIndex,
    pub parent: Option<ScopeIndex>,
    pub variables: Vec<ScopeVariable>,
}

/// A scope as a plain value.
pub struct ScopeView {
    pub index: ScopeIndex,
    pub parent: Option<ScopeIndex>,
    pub variables: Seq<ScopeVariable>,
}

impl View for Scope {
    type V = ScopeView;

    open spec fn view(&self) -> ScopeView {
        ScopeView { index: self.index, parent: self.parent, variables: self.variables@ }
    }
}

/// The variable that the last declaration of `name` among the first `upto`
/// declarations stands for.
pub open spec fn last_declared(variables: Seq<ScopeVariable>, name: Symbol, upto: int) -> Option<
    VariableIndex,
>
    decreases upto,
{
    if upto <= 0 {
        None
    } else if variables[upto - 1].name == name {
        Some(variables[upto - 1].index)
    } else {
        last_declared(variables, name, upto - 1)
    }
}

impl ScopeView {
    /// The variable that `name` stands for in this scope alone.
    pub open spec fn declared(self, name: Symbol) -> Option<VariableIndex> {
        last_declared(self.variables, name, self.variables.len() as int)
    }

    pub open spec fn add_variable(self, name: Symbol, index: VariableIndex) -> ScopeView {
        ScopeView { variables: self.variables.push(ScopeVariable { name, index }), ..self }
    }
}

impl Scope {
    pub fn new(index: ScopeIndex, parent: Option<ScopeIndex>) -> (r: Self)
        ensures
            r@ == (ScopeView { index, parent, variables: Seq::empty() }),
    {
        Self { index, parent, variables: Vec::new() }
    }

    /// Declares `symbol` anew: from now on it stands for the variable `index`.
    pub fn add_variable(&mut self, symbol: Symbol, index: VariableIndex)
        ensures
            final(self)@ == old(self)@.add_variable(symbol, index),
    {
        self.variables.push(ScopeVariable { name: symbol, index });
    }

    /// The variable that `symbol` stands for in this scope alone: that of
    /// its last declaration.
    pub fn declared(&self, symbol: Symbol) -> (r: Option<VariableIndex>)
        ensures
            r == self@.declared(symbol),
    {
        let mut i = self.variables.len();
        while i > 0
            invariant
                i <= self.variables@.len(),
                last_declared(self.variables@, symbol, self.variables@.len() as int)
                    == last_declared(self.variables@, symbol, i as int),
            decreases i,
        {
            if self.variables[i - 1].name == symbol {
                return Some(self.variables[i - 1].index);
            }
            i -= 1;
        }
        None
    }
}

/// The parameters, scopes and variables of one function as plain values.
pub struct ScopeTableView {
    pub function: NodeId,
    pub parameters: Seq<ScopeParameter>,
    pub scopes: Seq<ScopeView>,
    pub variables: Seq<LocalSymbolVariable>,
}

/// The variable that `name` stands for when looked up from the scope
/// `scope`: that of the nearest scope, from `scope` outwards, that declares
/// the name.
pub open spec fn lookup_from(scopes: Seq<ScopeView>, scope: int, name: Symbol) -> Option<
    VariableIndex,
>
    decreases scope,
{
    if scope < 0 || scope >= scopes.len() {
        None
    } else {
        match scopes[scope].declared(name) {
            Some(variable) => Some(variable),
            None => match scopes[scope].parent {
                Some(parent) => if parent.0 < scope {
                    lookup_from(scopes, parent.0 as int, name)
                } else {
                    None
                },
                None => None,
            },
        }
    }
}

impl ScopeTableView {
    /// Scopes and variables stand at their own index. The parent of a scope
    /// comes before it, so the scopes form trees in pre-order and the first
    /// scope has no parent. Every declaration stands for a variable of the
    /// table that was declared in that scope.
    pub open spec fn wf(self) -> bool {
        &&& forall|i: int|
            0 <= i < self.scopes.len() ==> (#[trigger] self.scopes[i]).index.0 == i && (match self.scopes[i].parent {
                Some(parent) => parent.0 < i,
                None => true,
            })
        &&& forall|k: int|
            0 <= k < self.variables.len() ==> (#[trigger] self.variables[k]).index.0 == k
                && self.variables[k].scope.0 < self.scopes.len()
        &&& forall|i: int, j: int|
            0 <= i < self.scopes.len() && 0 <= j < self.scopes[i].variables.len() ==> (
            #[trigger] self.scopes[i].variables[j]).index.0 < self.variables.len()
                && self.variables[self.scopes[i].variables[j].index.0 as int].scope.0 == i
    }

    /// The table after the parameter with node `id` was declared under the
    /// name `name`: it is the next of the parameters.
    pub open spec fn new_parameter(self, id: NodeId, name: Symbol) -> ScopeTableView {
        ScopeTableView {
            parameters: self.parameters.push(
                ScopeParameter {
                    name,
                    parameter: LocalSymbolParameter { id, index: self.parameters.len() as usize },
                },
            ),
            ..self
        }
    }

    /// The parameter that `name` stands for: the last one of that name.
    pub open spec fn lookup_parameter(self, name: Symbol) -> Option<LocalSymbolParameter> {
        last_parameter(self.parameters, name, self.parameters.len() as int)
    }

    pub open spec fn new_scope(self, parent: Option<ScopeIndex>) -> ScopeTableView {
        ScopeTableView {
            scopes: self.scopes.push(
                ScopeView {
                    index: ScopeIndex(self.scopes.len() as usize),
                    parent,
                    variables: Seq::empty(),
                },
            ),
            ..self
        }
    }

    pub open spec fn new_variable(self, id: NodeId, name: Symbol, scope: ScopeIndex) -> ScopeTableView {
        ScopeTableView {
            scopes: self.scopes.update(
                scope.0 as int,
                self.scopes[scope.0 as int].add_variable(
                    name,
                    VariableIndex(self.variables.len() as usize),
                ),
            ),
            variables: self.variables.push(
                LocalSymbolVariable {
                    id,
                    index: VariableIndex(self.variables.len() as usize),
                    scope,
                },
            ),
            ..self
        }
    }

    pub open spec fn lookup_variable(self, scope: ScopeIndex, name: Symbol) -> Option<VariableIndex> {
        lookup_from(self.scopes, scope.0 as int, name)
    }
}

/// A lookup finds a variable of the table.
pub proof fn lemma_lookup_in_table(table: ScopeTableView, scope: int, name: Symbol)
    requires
        table.wf(),
    ensures
        match lookup_from(table.scopes, scope, name) {
            Some(variable) => variable.0 < table.variables.len(),
            None => true,
        },
    decreases scope,
{
    if 0 <= scope < table.scopes.len() {
        lemma_declared_in_scope(table.scopes[scope].variables, name, table.scopes[scope].variables.len() as int);
        match table.scopes[scope].declared(name) {
            Some(variable) => {},
            None => match table.scopes[scope].parent {
                Some(parent) => {
                    if parent.0 < scope {
                        lemma_lookup_in_table(table, parent.0 as int, name);
                    }
                },
                None => {},
            },
        }
    }
}

/// What a scope declares for a name is one of its declarations.
pub proof fn lemma_declared_in_scope(variables: Seq<ScopeVariable>, name: Symbol, upto: int)
    requires
        upto <= variables.len(),
    ensures
        match last_declared(variables, name, upto) {
            Some(variable) => exists|j: int|
                0 <= j < upto && (#[trigger] variables[j]).index == variable && variables[j].name
                    == name,
            None => forall|j: int| 0 <= j < upto ==> (#[trigger] variables[j]).name != name,
        },
    decreases upto,
{
    if upto > 0 {
        lemma_declared_in_scope(variables, name, upto - 1);
    }
}

/// A lookup does not depend on the scopes after the one it starts from.
pub proof fn lemma_lookup_prefix(a: Seq<ScopeView>, b: Seq<ScopeView>, scope: int, name: Symbol)
    requires
        0 <= scope < a.len(),
        scope < b.len(),
        forall|i: int| 0 <= i <= scope ==> a[i] == b[i],
    ensures
        lookup_from(a, scope, name) == lookup_from(b, scope, name),
    decreases scope,
{
    match a[scope].declared(name) {
        Some(_) => {},
        None => match a[scope].parent {
            Some(parent) => {
                if parent.0 < scope {
                    lemma_lookup_prefix(a, b, parent.0 as int, name);
                }
            },
            None => {},
        },
    }
}

/// Shadowing. Let `name` be declared in a scope `outer`, then a scope be
/// opened inside `outer`, then `name` be declared in that inner scope.
/// Looked up from the inner scope, before its own declaration the name
/// stands for the outer variable and after it for the inner one. Looked up
/// from `outer`, the name stands for the outer variable throughout: what
/// the inner scope declares ends with it.
pub proof fn lemma_shadowing(
    table: ScopeTableView,
    outer: ScopeIndex,
    name: Symbol,
    outer_let: NodeId,
    inner_let: NodeId,
)
    requires
        table.wf(),
        outer.0 < table.scopes.len(),
        table.scopes.len() < usize::MAX,
        table.variables.len() + 1 < usize::MAX,
    ensures
        ({
            let declared = table.new_variable(outer_let, name, outer);
            let opened = declared.new_scope(Some(outer));
            let inner = ScopeIndex(table.scopes.len() as usize);
            let shadowed = opened.new_variable(inner_let, name, inner);
            let outer_variable = VariableIndex(table.variables.len() as usize);
            let inner_variable = VariableIndex((table.variables.len() + 1) as usize);
            &&& declared.lookup_variable(outer, name) == Some(outer_variable)
            &&& opened.lookup_variable(inner, name) == Some(outer_variable)
            &&& shadowed.lookup_variable(inner, name) == Some(inner_variable)
            &&& shadowed.lookup_variable(outer, name) == Some(outer_variable)
            &&& shadowed.variables[outer_variable.0 as int].id == outer_let
            &&& shadowed.variables[inner_variable.0 as int].id == inner_let
            &&& shadowed.wf()
        }),
{
    let declared = table.new_variable(outer_let, name, outer);
    let opened = declared.new_scope(Some(outer));
    let inner = ScopeIndex(table.scopes.len() as usize);
    let shadowed = opened.new_variable(inner_let, name, inner);
    lemma_new_variable_wf(table, outer_let, name, outer);
    lemma_new_scope_wf(declared, Some(outer));
    lemma_new_variable_wf(opened, inner_let, name, inner);
    assert(opened.scopes[inner.0 as int].declared(name).is_none());
    lemma_lookup_prefix(opened.scopes, declared.scopes, outer.0 as int, name);
    lemma_lookup_prefix(shadowed.scopes, declared.scopes, outer.0 as int, name);
}

/// Opening a scope inside a scope of the table keeps the table well formed.
pub proof fn lemma_new_scope_wf(table: ScopeTableView, parent: Option<ScopeIndex>)
    requires
        table.wf(),
        table.scopes.len() <= usize::MAX,
        match parent {
            Some(parent) => parent.0 < table.scopes.len(),
            None => true,
        },
    ensures
        table.new_scope(parent).wf(),
{
    let after = table.new_scope(parent);
    assert forall|i: int, j: int|
        0 <= i < after.scopes.len() && 0 <= j < after.scopes[i].variables.len() implies (
    #[trigger] after.scopes[i].variables[j]).index.0 < after.variables.len()
        && after.variables[after.scopes[i].variables[j].index.0 as int].scope.0 == i by {
        assert(i < table.scopes.len());
        assert(after.scopes[i] == table.scopes[i]);
    }
}

/// Declaring a variable in a scope of the table keeps the table well formed.
pub proof fn lemma_new_variable_wf(
    table: ScopeTableView,
    id: NodeId,
    name: Symbol,
    scope: ScopeIndex,
)
    requires
        table.wf(),
        scope.0 < table.scopes.len(),
        table.variables.len() <= usize::MAX,
    ensures
        table.new_variable(id, name, scope).wf(),
{
    let after = table.new_variable(id, name, scope);
    assert forall|i: int, j: int|
        0 <= i < after.scopes.len() && 0 <= j < after.scopes[i].variables.len() implies (
    #[trigger] after.scopes[i].variables[j]).index.0 < after.variables.len()
        && after.variables[after.scopes[i].variables[j].index.0 as int].scope.0 == i by {
        if i == scope.0 && j == table.scopes[i].variables.len() {
        } else {
            assert(after.scopes[i].variables[j] == table.scopes[i].variables[j]);
        }
    }
    assert forall|i: int| 0 <= i < after.scopes.len() implies (#[trigger] after.scopes[i]).index.0
        == i && (match after.scopes[i].parent {
        Some(parent) => parent.0 < i,
        None => true,
    }) by {
        assert(after.scopes[i].index == table.scopes[i].index);
        assert(after.scopes[i].parent == table.scopes[i].parent);
    }
}

/// The parameters, the scopes and the variables of one function. Scopes
/// are stored in the order in which they were opened, and each names the
/// scope around it.
#[derive(Debug)]
pub struct ScopeTable {
    pub function: NodeId,
    pub parameters: Vec<ScopeParameter>,
    pub scopes: Vec<Scope>,
    pub variables: Vec<LocalSymbolVariable>,
}

impl View for ScopeTable {
    type V = ScopeTableView;

    open spec fn view(&self) -> ScopeTableView {
        ScopeTableView {
            function: self.function,
            parameters: self.parameters@,
            scopes: self.scopes@.map_values(|scope: Scope| scope@),
            variables: self.variables@,
        }
    }
}

impl ScopeTable {
    pub fn new(function: NodeId) -> (r: Self)
        ensures
            r@ == (ScopeTableView {
                function,
                parameters: Seq::empty(),
                scopes: Seq::empty(),
                variables: Seq::empty(),
            }),
            r@.wf(),
    {
        let r = Self {
            function,
            parameters: Vec::new(),
            variables: Vec::new(),
            scopes: Vec::new(),
        };
        assert(r@.scopes =~= Seq::empty());
        r
    }

    /// Declares the parameter with node `id` under the name `symbol`.
    pub fn new_parameter(&mut self, id: NodeId, symbol: Symbol)
        ensures
            final(self)@ == old(self)@.new_parameter(id, symbol),
            old(self)@.wf() ==> final(self)@.wf(),
    {
        let index = self.parameters.len();
        self.parameters.push(
            ScopeParameter { name: symbol, parameter: LocalSymbolParameter::new(id, index) },
        );
        assert(self@.scopes =~= old(self)@.scopes);
    }

    /// The parameter that `symbol` stands for: the last one of that name.
    pub fn lookup_parameter(&self, symbol: Symbol) -> (r: Option<LocalSymbolParameter>)
        ensures
            r == self@.lookup_parameter(symbol),
    {
        let mut i = self.parameters.len();
        while i > 0
            invariant
                i <= self.parameters@.len(),
                last_parameter(self.parameters@, symbol, self.parameters@.len() as int)
                    == last_parameter(self.parameters@, symbol, i as int),
            decreases i,
        {
            if self.parameters[i - 1].name == symbol {
                return Some(self.parameters[i - 1].parameter);
            }
            i -= 1;
        }
        None
    }

    /// Opens a scope inside `parent`, or a scope with nothing around it,
    /// and returns its index.
    pub fn new_scope(&mut self, parent: Option<ScopeIndex>) -> (r: ScopeIndex)
        requires
            old(self)@.wf(),
            match parent {
                Some(parent) => parent.0 < old(self)@.scopes.len(),
                None => true,
            },
        ensures
            r.0 == old(self)@.scopes.len(),
            final(self)@ == old(self)@.new_scope(parent),
            final(self)@.wf(),
    {
        let index = ScopeIndex(self.scopes.len());
        proof {
            lemma_new_scope_wf(self@, parent);
        }
        self.scopes.push(Scope::new(index, parent));
        assert(self@.scopes =~= old(self)@.new_scope(parent).scopes);
        index
    }

    /// Declares the variable of the `let` with node `id` under the name
    /// `symbol` in the scope `scope_index`.
    pub fn new_variable(&mut self, id: NodeId, symbol: Symbol, scope_index: ScopeIndex)
        requires
            old(self)@.wf(),
            scope_index.0 < old(self)@.scopes.len(),
        ensures
            final(self)@ == old(self)@.new_variable(id, symbol, scope_index),
            final(self)@.wf(),
    {
        let index = VariableIndex(self.variables.len());
        proof {
            lemma_new_variable_wf(self@, id, symbol, scope_index);
        }
        self.variables.push(LocalSymbolVariable::new(id, index, scope_index));
        self.scopes[scope_index.0].add_variable(symbol, index);
        assert(self@.scopes =~= old(self)@.new_variable(id, symbol, scope_index).scopes);
    }

    /// The variable that `symbol` stands for when looked up from the scope
    /// `scope_index`: the last one declared under that name in the nearest
    /// scope, from `scope_index` outwards, that declares the name.
    pub fn lookup_variable(&self, scope_index: ScopeIndex, symbol: Symbol) -> (r: Option<
        VariableIndex,
    >)
        requires
            self@.wf(),
            scope_index.0 < self@.scopes.len(),
        ensures
            r == self@.lookup_variable(scope_index, symbol),
            match r {
                Some(variable) => variable.0 < self@.variables.len(),
                None => true,
            },
    {
        proof {
            lemma_lookup_in_table(self@, scope_index.0 as int, symbol);
        }
        let mut scope = scope_index.0;
        loop
            invariant
                self@.wf(),
                scope < self@.scopes.len(),
                lookup_from(self@.scopes, scope as int, symbol) == self@.lookup_variable(
                    scope_index,
                    symbol,
                ),
                match self@.lookup_variable(scope_index, symbol) {
                    Some(variable) => variable.0 < self@.variables.len(),
                    None => true,
                },
            decreases scope,
        {
            assert(self@.scopes[scope as int] == self.scopes@[scope as int]@);
            match self.scopes[scope].declared(symbol) {
                Some(index) => {
                    return Some(index);
                },
                None => {},
            }
            match self.scopes[scope].parent {
                Some(parent) => {
                    scope = parent.0;
                },
                None => {
                    return None;
                },
            }
        }
    }

    /// The scope at `index`.
    pub fn scope(&self, index: ScopeIndex) -> (r: &Scope)
        requires
            index.0 < self@.scopes.len(),
        ensures
            r@ == self@.scopes[index.0 as int],
    {
        &self.scopes[index.0]
    }

    /// The variable at `index`.
    pub fn variable(&self, index: VariableIndex) -> (r: LocalSymbolVariable)
        requires
            index.0 < self@.variables.len(),
        ensures
            r == self@.variables[index.0 as int],
    {
        self.variables[index.0]
    }
}

} // verus!
