use vstd::prelude::*;
use vstd::string::*;
use crate::parse::ast::tree::ASTUsePathPrefixSegmentKind;
use crate::resolve::global_symbol_registry::GlobalSymbol;
use crate::symbol::interner::{text_of, Interner};
use crate::symbol::name::Symbol;

verus! {

/// The first `upto` names of `names`, each as its text in `table`, with `::`
/// between them.
pub open spec fn joined(table: Seq<Seq<char>>, names: Seq<Symbol>, upto: int) -> Seq<char>
    decreases upto,
{
    if upto <= 0 {
        Seq::empty()
    } else if upto == 1 {
        text_of(table, names[0])
    } else {
        joined(table, names, upto - 1) + "::"@ + text_of(table, names[upto - 1])
    }
}

/// A module path as text: its segments with `::` between them.
pub open spec fn module_path_text(table: Seq<Seq<char>>, path: Seq<Symbol>) -> Seq<char> {
    joined(table, path, path.len() as int)
}

/// The names of the segments of an import prefix.
pub open spec fn prefix_names(prefix: Seq<ASTUsePathPrefixSegmentKind>) -> Seq<Symbol> {
    prefix.map_values(|segment: ASTUsePathPrefixSegmentKind| segment.spec_id().symbol)
}

/// An import prefix as text: its segments with `::` between them.
pub open spec fn prefix_text(
    table: Seq<Seq<char>>,
    prefix: Seq<ASTUsePathPrefixSegmentKind>,
) -> Seq<char> {
    module_path_text(table, prefix_names(prefix))
}

/// The full path of a symbol as text: the path of its module, then the name
/// under which it was declared.
pub open spec fn global_symbol_path_text(table: Seq<Seq<char>>, symbol: GlobalSymbol) -> Seq<char> {
    module_path_text(table, symbol.module.path@.push(symbol.kind.spec_identifier().symbol))
}

pub fn visualize_module_path(interner: &Interner, path: &Vec<Symbol>) -> (r: String)
    ensures
        r@ == module_path_text(interner@, path@),
{
    let mut r = String::new();
    let mut i: usize = 0;
    assert(r@ =~= joined(interner@, path@, 0));
    while i < path.len()
        invariant
            i <= path@.len(),
            r@ == joined(interner@, path@, i as int),
        decreases path@.len() - i,
    {
        if i > 0 {
            r.append("::");
        }
        r.append(interner.text(path[i]));
        proof {
            if i == 0 {
                assert(r@ =~= text_of(interner@, path@[0]));
            }
        }
        i += 1;
    }
    r
}

pub fn visualize_prefix(interner: &Interner, prefix: &Vec<ASTUsePathPrefixSegmentKind>) -> (r:
    String)
    ensures
        r@ == prefix_text(interner@, prefix@),
{
    let mut names: Vec<Symbol> = Vec::new();
    let mut i: usize = 0;
    while i < prefix.len()
        invariant
            i <= prefix@.len(),
            names@ == prefix_names(prefix@).take(i as int),
        decreases prefix@.len() - i,
    {
        names.push(prefix[i].id().symbol);
        assert(names@ =~= prefix_names(prefix@).take(i + 1));
        i += 1;
    }
    assert(names@ =~= prefix_names(prefix@));
    visualize_module_path(interner, &names)
}

pub fn visualize_global_symbol_path(interner: &Interner, global_symbol: &GlobalSymbol) -> (r:
    String)
    ensures
        r@ == global_symbol_path_text(interner@, *global_symbol),
{
    let mut names: Vec<Symbol> = Vec::new();
    let mut i: usize = 0;
    let path = &global_symbol.module.path;
    while i < path.len()
        invariant
            i <= path@.len(),
            names@ == path@.take(i as int),
        decreases path@.len() - i,
    {
        names.push(path[i]);
        assert(names@ =~= path@.take(i + 1));
        i += 1;
    }
    assert(path@.take(path@.len() as int) =~= path@);
    names.push(global_symbol.kind.identifier().symbol);
    visualize_module_path(interner, &names)
}

} // verus!
