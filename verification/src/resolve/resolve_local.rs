use vstd::prelude::*;
use crate::resolve::global_symbol_registry::GlobalSymbolRegistry;
use crate::resolve::local_symbol_registry::{
    walk_modules, LocalSymbolRegistry, LocalSymbolRegistryView,
};
use crate::resolve::module_registry::ModuleRegistry;

verus! {

/// Binds the identifiers in the body of every function that is bound in a
/// registered module.
pub fn resolve_local(
    module_registry: &ModuleRegistry,
    global_symbol_registry: &GlobalSymbolRegistry,
) -> (r: LocalSymbolRegistry)
    ensures
        r@ == walk_modules(
            module_registry@,
            global_symbol_registry@,
            LocalSymbolRegistryView { symbols: Seq::empty(), failures: Seq::empty() },
            0,
        ),
{
    let mut local_symbol_registry = LocalSymbolRegistry::new();
    assert(local_symbol_registry@ == LocalSymbolRegistryView {
        symbols: Seq::empty(),
        failures: Seq::empty(),
    });
    local_symbol_registry.register(module_registry, global_symbol_registry);
    local_symbol_registry
}

} // verus!
