//! The name resolution engine: the module tree, the global symbol tables,
//! the import resolver and the local scopes.

pub mod glob_law;
pub mod global_symbol_registry;
pub mod laws;
pub mod local_symbol_registry;
pub mod module;
pub mod module_registry;
pub mod path_visualizers;
pub mod redirect;
pub mod redirect_glob;
pub mod redirect_measure;
pub mod redirect_registry;
pub mod redirect_single;
pub mod redirect_target;
pub mod resolve_global;
pub mod resolve_local;
pub mod resolve_module_decl;
pub mod scope_table;
pub mod seq_search;
pub mod source_file_resolver;
pub mod visibility;

pub use global_symbol_registry::{
    GlobalSymbol, GlobalSymbolEntry, GlobalSymbolKind, GlobalSymbolRegistry,
    GlobalSymbolRegistryView, Registered, SymbolLevel,
};
pub use local_symbol_registry::{
    BindingFailure, BindingFailureKind, LocalSymbol, LocalSymbolEntry, LocalSymbolKind,
    LocalSymbolRegistry, LocalSymbolRegistryView,
};
pub use module::{Module, ModuleASTKind, ModuleView};
pub use module_registry::{ModuleIdEntry, ModuleRegistry, ModuleRegistryView};
pub use path_visualizers::{visualize_global_symbol_path, visualize_module_path, visualize_prefix};
pub use redirect::{
    GlobRedirect, Redirect, RedirectGroup, RedirectGroupView, RedirectSingleTarget, RedirectTarget,
    RedirectView,
};
pub use redirect_registry::RedirectRegistry;
pub use redirect_target::{resolve_target_module, TargetResolution};
pub use resolve_global::{global_resolution, resolve_global, GlobalResolution};
pub use resolve_local::resolve_local;
pub use resolve_module_decl::{
    collect_module_decls, make_fs_path, module_decl_path, resolve_single_module_decl,
};
pub use scope_table::{
    LocalSymbolParameter, LocalSymbolVariable, Scope, ScopeIndex, ScopeParameter, ScopeTable,
    ScopeTableView, ScopeVariable, ScopeView, VariableIndex,
};
pub use source_file_resolver::{module_path_of, SourceFileResolveError};
pub use visibility::Visibility;
