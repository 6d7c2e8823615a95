use exc::diagnostic::error_codes;
use exc::diagnostic::{Diagnostics, DiagnosticsLevel, DiagnosticsSender};
use exc::parse::ast::{
    ASTExpr, ASTExprKind, ASTExprPath, ASTExternBlock, ASTExternBlockItem,
    ASTExternBlockItemKind, ASTFnDef, ASTImplBlock, ASTModule, ASTModuleDecl, ASTModuleDef,
    ASTModuleItem, ASTModuleItemKind, ASTPath, ASTPathSegment, ASTPrototypeDef, ASTStmt,
    ASTStmtBlock, ASTStmtExpr, ASTStmtIf, ASTStmtIfElse, ASTStmtKind, ASTStmtLet, ASTStmtLetExpr,
    ASTTy, ASTTyKind, ASTUse, ASTUsePath, ASTUsePathItem, ASTUsePathItemGroup,
    ASTUsePathItemKind, ASTUsePathItemSingle, ASTUsePathItemSingleAlias, ASTUsePathPrefix,
    ASTUsePathPrefixSegment, ASTUsePathPrefixSegmentKind, Id, NodeId, NodeIdAllocator,
    Punctuated, PunctuatedItem,
};
use exc::parse::lexer::{Token, TokenKind};
use exc::resolve::{
    collect_module_decls, make_fs_path, module_decl_path, resolve_global, resolve_local,
    resolve_single_module_decl, visualize_module_path, BindingFailureKind, GlobalSymbolKind,
    GlobalSymbolRegistry, LocalSymbolKind, LocalSymbolRegistry, Module, ModuleASTKind,
    ModuleRegistry, RedirectRegistry, RedirectTarget, ScopeIndex, ScopeTable, SymbolLevel,
    VariableIndex, Visibility,
};
use exc::span::{FileId, Pos, SourceFile, Span};
use exc::symbol::{Interner, Symbol};
use std::sync::Arc;

struct World {
    interner: Interner,
    nodes: NodeIdAllocator,
    files: usize,
    at: u32,
}

enum Seg {
    Me,
    Up,
    Name(&'static str),
}

impl World {
    fn new() -> Self {
        World { interner: Interner::new(), nodes: NodeIdAllocator::new(), files: 0, at: 0 }
    }

    fn node(&mut self) -> NodeId {
        self.nodes.allocate()
    }

    fn span(&mut self) -> Span {
        self.at += 1;
        Span::new(Pos::new(self.at), Pos::new(self.at))
    }

    fn sym(&mut self, name: &str) -> Symbol {
        self.interner.intern(name).unwrap()
    }

    fn id(&mut self, name: &str) -> Id {
        Id { span: self.span(), symbol: self.sym(name) }
    }

    fn tok(&mut self) -> Token {
        Token::new(self.span(), TokenKind::Semicolon)
    }

    fn marker(&mut self, is_pub: bool) -> Option<Id> {
        if is_pub {
            Some(self.id("pub"))
        } else {
            None
        }
    }

    fn file(&mut self, name: &str) -> Arc<SourceFile> {
        let id = FileId(self.files);
        self.files += 1;
        Arc::new(SourceFile::new(
            id,
            Span::new(Pos::new(0), Pos::new(0)),
            String::new(),
            format!("{}.exc", name),
            Some(format!("{}.exc", name)),
        ))
    }

    fn item(&mut self, kind: ASTModuleItemKind) -> ASTModuleItem {
        ASTModuleItem { id: self.node(), span: self.span(), kind }
    }

    fn block(&mut self, stmts: Vec<ASTStmt>) -> ASTStmtBlock {
        ASTStmtBlock {
            id: self.node(),
            span: self.span(),
            token_brace_open: self.tok(),
            stmts,
            token_brace_close: self.tok(),
        }
    }

    fn fn_def(&mut self, name: &str, is_pub: bool, stmts: Vec<ASTStmt>) -> ASTFnDef {
        ASTFnDef {
            id: self.node(),
            span: self.span(),
            keyword_pub: self.marker(is_pub),
            keyword_fn: self.id("fn"),
            identifier: self.id(name),
            generic_param: None,
            token_paren_open: self.tok(),
            params: Punctuated { items: Vec::new() },
            token_paren_close: self.tok(),
            result: None,
            generic_where: None,
            stmt_block: self.block(stmts),
        }
    }

    fn func(&mut self, name: &str, is_pub: bool) -> ASTModuleItem {
        let def = self.fn_def(name, is_pub, Vec::new());
        self.item(ASTModuleItemKind::FnDef(Arc::new(def)))
    }

    fn func_with(&mut self, name: &str, stmts: Vec<ASTStmt>) -> ASTModuleItem {
        let def = self.fn_def(name, false, stmts);
        self.item(ASTModuleItemKind::FnDef(Arc::new(def)))
    }

    fn module_def(&mut self, name: &str, is_pub: bool, items: Vec<ASTModuleItem>) -> ASTModuleItem {
        let def = ASTModuleDef {
            id: self.node(),
            span: self.span(),
            keyword_pub: self.marker(is_pub),
            keyword_module: self.id("module"),
            identifier: self.id(name),
            token_brace_open: self.tok(),
            items,
            token_brace_close: self.tok(),
        };
        self.item(ASTModuleItemKind::ModuleDef(Arc::new(def)))
    }

    fn module_decl(&mut self, name: &str, is_pub: bool) -> ASTModuleItem {
        let decl = ASTModuleDecl {
            id: self.node(),
            span: self.span(),
            keyword_pub: self.marker(is_pub),
            keyword_module: self.id("module"),
            identifier: self.id(name),
            token_semicolon: self.tok(),
        };
        self.item(ASTModuleItemKind::ModuleDecl(Arc::new(decl)))
    }

    fn prefix(&mut self, segs: &[Seg]) -> Option<ASTUsePathPrefix> {
        if segs.is_empty() {
            return None;
        }
        let mut segments = Vec::new();
        for seg in segs {
            let kind = match seg {
                Seg::Me => ASTUsePathPrefixSegmentKind::Self_(self.id("self")),
                Seg::Up => ASTUsePathPrefixSegmentKind::Super_(self.id("super")),
                Seg::Name(name) => ASTUsePathPrefixSegmentKind::Identifier(self.id(name)),
            };
            segments.push(ASTUsePathPrefixSegment {
                id: self.node(),
                span: self.span(),
                kind,
                token_path_sep: self.tok(),
            });
        }
        Some(ASTUsePathPrefix { id: self.node(), span: self.span(), segments })
    }

    fn path_single(&mut self, segs: &[Seg], name: &str, alias: Option<&str>) -> ASTUsePath {
        let alias = match alias {
            Some(alias) => Some(ASTUsePathItemSingleAlias {
                id: self.node(),
                span: self.span(),
                keyword_as: self.id("as"),
                identifier: self.id(alias),
            }),
            None => None,
        };
        let single = ASTUsePathItemSingle {
            id: self.node(),
            span: self.span(),
            identifier: self.id(name),
            alias,
        };
        ASTUsePath {
            id: self.node(),
            span: self.span(),
            prefix: self.prefix(segs),
            item: ASTUsePathItem {
                id: self.node(),
                span: self.span(),
                kind: ASTUsePathItemKind::Single(single),
            },
        }
    }

    fn path_glob(&mut self, segs: &[Seg]) -> ASTUsePath {
        ASTUsePath {
            id: self.node(),
            span: self.span(),
            prefix: self.prefix(segs),
            item: ASTUsePathItem {
                id: self.node(),
                span: self.span(),
                kind: ASTUsePathItemKind::All(self.tok()),
            },
        }
    }

    fn path_group(&mut self, segs: &[Seg], paths: Vec<ASTUsePath>) -> ASTUsePath {
        let mut items = Vec::new();
        for path in paths {
            items.push(PunctuatedItem::Punctuated { item: path, punctuation: self.tok() });
        }
        let group = ASTUsePathItemGroup {
            id: self.node(),
            span: self.span(),
            token_brace_open: self.tok(),
            items: Punctuated { items },
            token_brace_close: self.tok(),
        };
        ASTUsePath {
            id: self.node(),
            span: self.span(),
            prefix: self.prefix(segs),
            item: ASTUsePathItem {
                id: self.node(),
                span: self.span(),
                kind: ASTUsePathItemKind::Group(group),
            },
        }
    }

    fn use_item(&mut self, is_pub: bool, path: ASTUsePath) -> ASTModuleItem {
        let ast = ASTUse {
            id: self.node(),
            span: self.span(),
            keyword_pub: self.marker(is_pub),
            keyword_use: self.id("use"),
            path,
            token_semicolon: self.tok(),
        };
        self.item(ASTModuleItemKind::Use(Arc::new(ast)))
    }

    fn use_single(&mut self, is_pub: bool, segs: &[Seg], name: &str) -> ASTModuleItem {
        let path = self.path_single(segs, name, None);
        self.use_item(is_pub, path)
    }

    fn use_glob(&mut self, is_pub: bool, segs: &[Seg]) -> ASTModuleItem {
        let path = self.path_glob(segs);
        self.use_item(is_pub, path)
    }

    fn file_module(&mut self, name: &str, items: Vec<ASTModuleItem>) -> Module {
        let file = self.file(name);
        let ast = ASTModule { id: self.node(), span: self.span(), items };
        let path = vec![self.sym(name)];
        Module::new(
            Visibility::Public,
            ModuleASTKind::Module(Arc::new(ast)),
            path,
            file.clone(),
            DiagnosticsSender::new(file),
        )
    }

    fn path_expr(&mut self, names: &[&str]) -> (ASTExpr, NodeId) {
        let mut items = Vec::new();
        for name in names {
            let segment = ASTPathSegment {
                id: self.node(),
                span: self.span(),
                identifier: self.id(name),
                generic: None,
            };
            items.push(PunctuatedItem::NotPunctuated { item: segment });
        }
        let path = ASTPath { id: self.node(), span: self.span(), segments: Punctuated { items } };
        let id = self.node();
        let expr = ASTExprPath { id, span: self.span(), path };
        (ASTExpr { id: self.node(), span: self.span(), kind: ASTExprKind::Path(expr) }, id)
    }

    fn stmt(&mut self, kind: ASTStmtKind) -> ASTStmt {
        ASTStmt { id: self.node(), span: self.span(), kind }
    }

    fn expr_stmt(&mut self, expr: ASTExpr) -> ASTStmt {
        let ast = ASTStmtExpr {
            id: self.node(),
            span: self.span(),
            expr,
            token_semicolon: self.tok(),
        };
        self.stmt(ASTStmtKind::Expr(ast))
    }

    fn let_stmt(&mut self, name: &str, init: Option<ASTExpr>) -> (ASTStmt, NodeId) {
        let id = self.node();
        let expr = match init {
            Some(expr) => Some(ASTStmtLetExpr {
                id: self.node(),
                span: self.span(),
                token_assign: self.tok(),
                expr,
            }),
            None => None,
        };
        let ast = ASTStmtLet {
            id,
            span: self.span(),
            keyword_let: self.id("let"),
            identifier: self.id(name),
            ty: None,
            expr,
            token_semicolon: self.tok(),
        };
        (self.stmt(ASTStmtKind::Let(ast)), id)
    }

    fn block_stmt(&mut self, stmts: Vec<ASTStmt>) -> ASTStmt {
        let block = self.block(stmts);
        self.stmt(ASTStmtKind::Block(block))
    }
}

struct Resolved {
    modules: ModuleRegistry,
    symbols: GlobalSymbolRegistry,
    log: Vec<Diagnostics>,
}

fn resolve(world: &World, files: Vec<Module>) -> Resolved {
    let mut modules = ModuleRegistry::new();
    let mut log = Vec::new();
    for file in files {
        let module = modules.register(file);
        modules.resolve_submodule(&world.interner, &mut log, &module);
    }
    let symbols = resolve_global(&modules, &world.interner, &mut log);
    Resolved { modules, symbols, log }
}

fn module_at(world: &mut World, resolved: &Resolved, path: &[&str]) -> Arc<Module> {
    let path: Vec<Symbol> = path.iter().map(|name| world.sym(name)).collect();
    resolved.modules.get_module(&path).expect("module is registered").clone()
}

fn codes(log: &[Diagnostics]) -> Vec<u32> {
    log.iter().map(|d| d.code).collect()
}

fn fn_id(item: &ASTModuleItem) -> NodeId {
    match &item.kind {
        ASTModuleItemKind::FnDef(def) => def.id,
        _ => panic!("not a function"),
    }
}

#[test]
fn end_to_end_duplicates() {
    let mut w = World::new();
    let foo1 = w.func("foo", false);
    let foo2 = w.func("foo", false);
    let bar = w.func("bar", false);
    let inner_foo = w.func("foo", false);
    let bar_module = w.module_def("bar", false, vec![inner_foo]);
    let first_foo = fn_id(&foo1);
    let test1 = w.module_def("test", false, vec![foo1, foo2, bar, bar_module]);
    let test2 = w.module_def("test", false, vec![]);
    let root = w.file_module("main", vec![test1, test2]);
    let resolved = resolve(&w, vec![root]);

    let duplicated_modules: Vec<&Diagnostics> =
        resolved.log.iter().filter(|d| d.code == error_codes::DUPLICATED_MODULE).collect();
    assert_eq!(duplicated_modules.len(), 1);
    assert_eq!(duplicated_modules[0].message, "the module `test` is defined multiple times");
    assert_eq!(duplicated_modules[0].level, DiagnosticsLevel::Error);
    assert_eq!(duplicated_modules[0].sub_diagnostics.len(), 1);
    assert_eq!(duplicated_modules[0].sub_diagnostics[0].message, "previous definition here");

    let duplicated_symbols: Vec<&str> = resolved
        .log
        .iter()
        .filter(|d| d.code == error_codes::DUPLICATED_SYMBOL)
        .map(|d| d.message.as_str())
        .collect();
    assert_eq!(
        duplicated_symbols,
        vec![
            "the symbol `test` is defined multiple times",
            "the symbol `foo` is defined multiple times",
        ]
    );
    assert_eq!(resolved.log.len(), 3);
    assert!(resolved.log.iter().all(|d| !d.message.contains("`bar`")));

    // The function `bar` and the module `bar` live side by side in `test`.
    let test = module_at(&mut w, &resolved, &["main", "test"]);
    let bar = w.sym("bar");
    let foo = w.sym("foo");
    assert!(resolved.symbols.get_module_symbol(&test, bar).is_some());
    assert!(resolved.symbols.get_non_module_symbol(&test, bar).is_some());
    // The first `foo` stays bound.
    assert_eq!(resolved.symbols.get_non_module_symbol(&test, foo).unwrap().kind.id(), first_foo);
    // The second `module test` is not registered, the module inside the first is.
    assert_eq!(resolved.modules.modules().len(), 3);
    let inner = module_at(&mut w, &resolved, &["main", "test", "bar"]);
    assert!(resolved.symbols.get_non_module_symbol(&inner, foo).is_some());
}

#[test]
fn duplicate_declaration_is_one_error_with_both_places() {
    let mut w = World::new();
    let first = w.func("twice", false);
    let second = w.func("twice", true);
    let (first_span, second_span) = match (&first.kind, &second.kind) {
        (ASTModuleItemKind::FnDef(a), ASTModuleItemKind::FnDef(b)) => {
            (a.identifier.span, b.identifier.span)
        }
        _ => unreachable!(),
    };
    let root = w.file_module("main", vec![first, second]);
    let resolved = resolve(&w, vec![root]);
    assert_eq!(codes(&resolved.log), vec![error_codes::DUPLICATED_SYMBOL]);
    let d = &resolved.log[0];
    assert_eq!(d.message, "the symbol `twice` is defined multiple times");
    assert_eq!(d.origin.as_ref().unwrap().span, second_span);
    assert_eq!(d.sub_diagnostics.len(), 1);
    assert_eq!(d.sub_diagnostics[0].level, DiagnosticsLevel::Hint);
    assert_eq!(d.sub_diagnostics[0].message, "previous definition here");
    assert_eq!(d.sub_diagnostics[0].origin.as_ref().unwrap().span, first_span);
}

fn duplicate_program(w: &mut World) -> Module {
    let a = w.func("f", false);
    let b = w.func("f", false);
    let c = w.func("g", false);
    w.file_module("main", vec![a, b, c])
}

#[test]
fn resolution_is_repeatable() {
    let mut w1 = World::new();
    let root1 = duplicate_program(&mut w1);
    let once = resolve(&w1, vec![root1]);
    let mut w2 = World::new();
    let root2 = duplicate_program(&mut w2);
    let again = resolve(&w2, vec![root2]);
    assert_eq!(codes(&once.log), codes(&again.log));
    let first: Vec<String> = once.log.iter().map(|d| d.message.clone()).collect();
    let second: Vec<String> = again.log.iter().map(|d| d.message.clone()).collect();
    assert_eq!(first, second);
    let rows1: Vec<(u64, u32, u64)> = once
        .symbols
        .non_module_entries()
        .iter()
        .map(|e| (e.module.get(), e.name.0, e.symbol.kind.id().get()))
        .collect();
    let rows2: Vec<(u64, u32, u64)> = again
        .symbols
        .non_module_entries()
        .iter()
        .map(|e| (e.module.get(), e.name.0, e.symbol.kind.id().get()))
        .collect();
    assert_eq!(rows1, rows2);
    assert_eq!(rows1.len(), 2);
}

fn explicit_beats_glob(glob_first: bool) {
    let mut w = World::new();
    let from_b = w.func("x", true);
    let from_c = w.func("x", true);
    let explicit = fn_id(&from_c);
    let b = w.module_def("b", false, vec![from_b]);
    let c = w.module_def("c", false, vec![from_c]);
    let glob = w.use_glob(false, &[Seg::Up, Seg::Name("b")]);
    let single = w.use_single(false, &[Seg::Up, Seg::Name("c")], "x");
    let uses = if glob_first { vec![glob, single] } else { vec![single, glob] };
    let a = w.module_def("a", false, uses);
    let root = w.file_module("main", vec![a, b, c]);
    let resolved = resolve(&w, vec![root]);
    assert_eq!(resolved.log.len(), 0);
    let a = module_at(&mut w, &resolved, &["main", "a"]);
    let x = w.sym("x");
    let bound = resolved.symbols.get_non_module_symbol(&a, x).unwrap();
    assert_eq!(bound.level, SymbolLevel::Explicit);
    assert_eq!(bound.kind.id(), explicit);
}

#[test]
fn explicit_import_beats_glob_import_in_either_order() {
    explicit_beats_glob(true);
    explicit_beats_glob(false);
}

#[test]
fn declaration_beats_glob_import() {
    let mut w = World::new();
    let from_b = w.func("x", true);
    let own = w.func("x", false);
    let own_id = fn_id(&own);
    let b = w.module_def("b", false, vec![from_b]);
    let glob = w.use_glob(false, &[Seg::Up, Seg::Name("b")]);
    let a = w.module_def("a", false, vec![glob, own]);
    let root = w.file_module("main", vec![a, b]);
    let resolved = resolve(&w, vec![root]);
    assert_eq!(resolved.log.len(), 0);
    let a = module_at(&mut w, &resolved, &["main", "a"]);
    let x = w.sym("x");
    let bound = resolved.symbols.get_non_module_symbol(&a, x).unwrap();
    assert_eq!(bound.level, SymbolLevel::Explicit);
    assert_eq!(bound.kind.id(), own_id);
}

#[test]
fn glob_collision_is_silent() {
    let mut w = World::new();
    let bx = w.func("x", true);
    let by = w.func("y", true);
    let cx = w.func("x", true);
    let cz = w.func("z", true);
    let y_id = fn_id(&by);
    let z_id = fn_id(&cz);
    let b = w.module_def("b", false, vec![bx, by]);
    let c = w.module_def("c", false, vec![cx, cz]);
    let glob_b = w.use_glob(false, &[Seg::Up, Seg::Name("b")]);
    let glob_c = w.use_glob(false, &[Seg::Up, Seg::Name("c")]);
    let a = w.module_def("a", false, vec![glob_b, glob_c]);
    let root = w.file_module("main", vec![a, b, c]);
    let resolved = resolve(&w, vec![root]);
    assert_eq!(resolved.log.len(), 0);
    let a = module_at(&mut w, &resolved, &["main", "a"]);
    let (x, y, z) = (w.sym("x"), w.sym("y"), w.sym("z"));
    assert!(resolved.symbols.get_any_symbol(&a, x).is_none());
    let y = resolved.symbols.get_non_module_symbol(&a, y).unwrap();
    assert_eq!(y.level, SymbolLevel::Glob);
    assert_eq!(y.kind.id(), y_id);
    assert_eq!(y.visibility, Visibility::Private);
    assert_eq!(resolved.symbols.get_non_module_symbol(&a, z).unwrap().kind.id(), z_id);
}

fn transitive(order: [usize; 3]) {
    let mut w = World::new();
    let x = w.func("x", true);
    let x_id = fn_id(&x);
    let use_in_a = w.use_single(false, &[Seg::Up, Seg::Name("b")], "x");
    let use_in_b = w.use_single(true, &[Seg::Up, Seg::Name("c")], "x");
    let mut defs = vec![
        Some(w.module_def("a", false, vec![use_in_a])),
        Some(w.module_def("b", false, vec![use_in_b])),
        Some(w.module_def("c", false, vec![x])),
    ];
    let items: Vec<ASTModuleItem> = order.iter().map(|i| defs[*i].take().unwrap()).collect();
    let root = w.file_module("main", items);
    let resolved = resolve(&w, vec![root]);
    assert_eq!(resolved.log.len(), 0, "order {:?}", order);
    let x = w.sym("x");
    for name in ["a", "b", "c"] {
        let module = module_at(&mut w, &resolved, &["main", name]);
        let bound = resolved.symbols.get_non_module_symbol(&module, x).unwrap();
        assert_eq!(bound.kind.id(), x_id);
        assert_eq!(bound.level, SymbolLevel::Explicit);
    }
}

#[test]
fn transitive_reexport_in_every_discovery_order() {
    for order in [[0, 1, 2], [0, 2, 1], [1, 0, 2], [1, 2, 0], [2, 0, 1], [2, 1, 0]] {
        transitive(order);
    }
}

#[test]
fn transitive_glob_reexport() {
    let mut w = World::new();
    let x = w.func("x", true);
    let x_id = fn_id(&x);
    let use_in_a = w.use_glob(false, &[Seg::Up, Seg::Name("b")]);
    let use_in_b = w.use_glob(true, &[Seg::Up, Seg::Name("c")]);
    let a = w.module_def("a", false, vec![use_in_a]);
    let b = w.module_def("b", false, vec![use_in_b]);
    let c = w.module_def("c", false, vec![x]);
    let root = w.file_module("main", vec![a, b, c]);
    let resolved = resolve(&w, vec![root]);
    assert_eq!(resolved.log.len(), 0);
    let x = w.sym("x");
    let a = module_at(&mut w, &resolved, &["main", "a"]);
    let bound = resolved.symbols.get_non_module_symbol(&a, x).unwrap();
    assert_eq!(bound.kind.id(), x_id);
    assert_eq!(bound.level, SymbolLevel::Glob);
}

fn two_files(w: &mut World) -> (Module, Module) {
    // main.exc: fn secret() {}  module near { use super::secret; }
    let secret = w.func("secret", false);
    let open = w.func("open", true);
    let near_use = w.use_single(false, &[Seg::Up], "secret");
    let near = w.module_def("near", false, vec![near_use]);
    let hidden = w.module_def("hidden", false, vec![]);
    let other_decl = w.module_decl("other", false);
    let main = w.file_module("main", vec![secret, open, near, hidden, other_decl]);
    // other.exc: module main;  use main::secret;  use main::open;
    let main_decl = w.module_decl("main", false);
    let far_use = w.use_single(false, &[Seg::Name("main")], "secret");
    let far_open = w.use_single(false, &[Seg::Name("main")], "open");
    let other = w.file_module("other", vec![main_decl, far_use, far_open]);
    (main, other)
}

fn resolve_two_files(w: &mut World, extra: Vec<ASTModuleItem>) -> Resolved {
    let (main, mut other) = two_files(w);
    if !extra.is_empty() {
        let mut items = vec![w.module_decl("main", false)];
        items.extend(extra);
        other = w.file_module("other", items);
    }
    let mut modules = ModuleRegistry::new();
    let mut log = Vec::new();
    let main = modules.register(main);
    modules.resolve_submodule(&w.interner, &mut log, &main);
    let other = modules.register(other);
    modules.resolve_submodule(&w.interner, &mut log, &other);
    // `module main;` in other.exc stands for the module of main.exc.
    let decls = collect_module_decls(&other);
    assert_eq!(decls.len(), 1);
    modules.register_module_decl(&decls[0], main.clone());
    let decls = collect_module_decls(&main);
    modules.register_module_decl(&decls[0], other.clone());
    let symbols = resolve_global(&modules, &w.interner, &mut log);
    Resolved { modules, symbols, log }
}

#[test]
fn private_symbol_is_visible_in_its_file_only() {
    let mut w = World::new();
    let resolved = resolve_two_files(&mut w, vec![]);
    assert_eq!(codes(&resolved.log), vec![error_codes::SYMBOL_IS_NOT_VISIBLE]);
    let d = &resolved.log[0];
    assert_eq!(d.message, "the symbol `main::secret` is not visible from this module");
    assert_eq!(d.sub_diagnostics.len(), 1);
    assert_eq!(
        d.sub_diagnostics[0].message,
        "consider making the symbol public, or accessing it in same file"
    );
    assert!(d.sub_diagnostics[0].origin.is_none());
    assert_eq!(d.origin.as_ref().unwrap().file.id(), FileId(1));
    let secret = w.sym("secret");
    let open = w.sym("open");
    let near = module_at(&mut w, &resolved, &["main", "near"]);
    let other = module_at(&mut w, &resolved, &["other"]);
    assert!(resolved.symbols.get_non_module_symbol(&near, secret).is_some());
    assert!(resolved.symbols.get_non_module_symbol(&other, secret).is_none());
    assert!(resolved.symbols.get_non_module_symbol(&other, open).is_some());
}

#[test]
fn private_module_is_visible_in_its_file_only() {
    let mut w = World::new();
    let far = w.use_glob(false, &[Seg::Name("main"), Seg::Name("hidden")]);
    let resolved = resolve_two_files(&mut w, vec![far]);
    assert_eq!(codes(&resolved.log), vec![error_codes::MODULE_IS_NOT_VISIBLE]);
    let d = &resolved.log[0];
    assert_eq!(d.message, "the module `main::hidden` is not visible from this module");
    assert_eq!(
        d.sub_diagnostics[0].message,
        "consider making the module public, or accessing it in same file"
    );
}

#[test]
fn glob_import_skips_private_symbols_of_another_file() {
    let mut w = World::new();
    let far = w.use_glob(false, &[Seg::Name("main")]);
    let resolved = resolve_two_files(&mut w, vec![far]);
    assert_eq!(resolved.log.len(), 0);
    let other = module_at(&mut w, &resolved, &["other"]);
    let secret = w.sym("secret");
    let open = w.sym("open");
    assert!(resolved.symbols.get_non_module_symbol(&other, secret).is_none());
    assert_eq!(
        resolved.symbols.get_non_module_symbol(&other, open).unwrap().level,
        SymbolLevel::Glob
    );
    // Glob imports take no module symbols.
    let near = w.sym("near");
    assert!(resolved.symbols.get_any_symbol(&other, near).is_none());
}

#[test]
fn super_at_root_is_an_error() {
    let mut w = World::new();
    let up = w.use_single(false, &[Seg::Up], "x");
    let root = w.file_module("main", vec![up]);
    let resolved = resolve(&w, vec![root]);
    assert_eq!(codes(&resolved.log), vec![error_codes::MODULE_HAS_NO_SUPER]);
    assert_eq!(
        resolved.log[0].message,
        "`super` is not allowed here; the module `main` is already at root level"
    );
}

#[test]
fn unresolved_imports_are_reported_once() {
    let mut w = World::new();
    let missing_symbol = w.use_single(false, &[Seg::Me, Seg::Name("sub")], "nothing");
    let missing_module = w.use_glob(false, &[Seg::Name("nowhere"), Seg::Name("deep")]);
    let pending_single = w.use_single(false, &[Seg::Name("nowhere")], "thing");
    let found_glob = w.use_glob(false, &[Seg::Name("sub")]);
    let sub = w.module_def("sub", false, vec![]);
    let root = w.file_module("main", vec![missing_symbol, missing_module, pending_single, found_glob, sub]);
    let resolved = resolve(&w, vec![root]);
    assert_eq!(
        codes(&resolved.log),
        vec![
            error_codes::SYMBOL_NOT_FOUND,
            error_codes::MODULE_NOT_FOUND,
            error_codes::SYMBOL_NOT_FOUND
        ]
    );
    assert_eq!(
        resolved.log[0].message,
        "the symbol `nothing` from module `self::sub` is not found"
    );
    assert_eq!(resolved.log[1].message, "the module `nowhere::deep` is not found");
    assert_eq!(resolved.log[2].message, "the symbol `thing` from module `nowhere` is not found");
}

#[test]
fn alias_binds_the_new_name() {
    let mut w = World::new();
    let x = w.func("x", true);
    let x_id = fn_id(&x);
    let c = w.module_def("c", false, vec![x]);
    let path = w.path_single(&[Seg::Name("c")], "x", Some("renamed"));
    let import = w.use_item(true, path);
    let root = w.file_module("main", vec![c, import]);
    let resolved = resolve(&w, vec![root]);
    assert_eq!(resolved.log.len(), 0);
    let main = module_at(&mut w, &resolved, &["main"]);
    let renamed = w.sym("renamed");
    let x = w.sym("x");
    let bound = resolved.symbols.get_non_module_symbol(&main, renamed).unwrap();
    assert_eq!(bound.kind.id(), x_id);
    assert_eq!(bound.identifier.symbol, renamed);
    assert_eq!(bound.visibility, Visibility::Public);
    assert_eq!(bound.kind.identifier().symbol, x);
    assert!(resolved.symbols.get_non_module_symbol(&main, x).is_none());
}

#[test]
fn import_of_a_module_by_name() {
    let mut w = World::new();
    let x = w.func("x", true);
    let inner = w.module_def("inner", true, vec![x]);
    let outer = w.module_def("outer", false, vec![inner]);
    let import = w.use_single(false, &[Seg::Name("outer")], "inner");
    let through = w.use_single(false, &[Seg::Name("inner")], "x");
    let root = w.file_module("main", vec![outer, through, import]);
    let resolved = resolve(&w, vec![root]);
    assert_eq!(resolved.log.len(), 0);
    let main = module_at(&mut w, &resolved, &["main"]);
    let inner = w.sym("inner");
    let x = w.sym("x");
    assert!(resolved.symbols.get_module_symbol(&main, inner).unwrap().kind.is_module());
    assert!(resolved.symbols.get_non_module_symbol(&main, x).is_some());
}

#[test]
fn group_paths_are_flattened() {
    let mut w = World::new();
    let one = w.path_single(&[], "x", None);
    let two = w.path_single(&[Seg::Name("deep")], "y", Some("z"));
    let all = w.path_glob(&[Seg::Name("deep")]);
    let group = w.path_group(&[Seg::Me, Seg::Name("c")], vec![one, two, all]);
    let import = w.use_item(false, group);
    let root = Arc::new(w.file_module("main", vec![import]));
    let mut registry = RedirectRegistry::new();
    registry.collect_redirects(&root);
    assert_eq!(registry.redirects.len(), 1);
    assert_eq!(registry.redirects[0].module, root.id());
    let redirects = &registry.redirects[0].redirects;
    assert_eq!(redirects.len(), 3);
    let names: Vec<Vec<String>> = redirects
        .iter()
        .map(|r| r.prefix.iter().map(|s| w.interner.text(s.id().symbol).to_string()).collect())
        .collect();
    assert_eq!(names[0], vec!["self", "c"]);
    assert_eq!(names[1], vec!["self", "c", "deep"]);
    assert_eq!(names[2], vec!["self", "c", "deep"]);
    assert!(matches!(redirects[0].target, RedirectTarget::Single(t) if t.alias.is_none()));
    assert!(matches!(redirects[1].target, RedirectTarget::Single(t) if t.alias.is_some()));
    assert!(matches!(redirects[2].target, RedirectTarget::Glob));
    assert!(redirects.iter().all(|r| !r.found_target_module));
    assert!(redirects.iter().all(|r| r.visibility == Visibility::Private));
    // A module without imports gets no group.
    let plain = Arc::new(w.file_module("plain", vec![]));
    registry.collect_redirects(&plain);
    assert_eq!(registry.redirects.len(), 1);
}

#[test]
fn extern_items_are_bound_in_the_module() {
    let mut w = World::new();
    let inside = w.fn_def("inside", true, Vec::new());
    let proto = ASTPrototypeDef {
        id: w.node(),
        span: w.span(),
        keyword_pub: None,
        keyword_prototype: w.id("prototype"),
        identifier: w.id("proto"),
        token_paren_open: w.tok(),
        params: Punctuated { items: Vec::new() },
        token_paren_close: w.tok(),
        result: None,
        token_semicolon: w.tok(),
    };
    let path = ASTPath { id: w.node(), span: w.span(), segments: Punctuated { items: Vec::new() } };
    let impl_block = ASTImplBlock {
        id: w.node(),
        span: w.span(),
        keyword_impl: w.id("impl"),
        generic_param: None,
        ty: ASTTy { id: w.node(), span: w.span(), kind: ASTTyKind::Path(path) },
        interface: None,
        generic_where: None,
        token_brace_open: w.tok(),
        items: Vec::new(),
        token_brace_close: w.tok(),
    };
    let items = vec![
        ASTExternBlockItem {
            id: w.node(),
            span: w.span(),
            kind: ASTExternBlockItemKind::FnDef(Arc::new(inside)),
        },
        ASTExternBlockItem {
            id: w.node(),
            span: w.span(),
            kind: ASTExternBlockItemKind::PrototypeDef(Arc::new(proto)),
        },
    ];
    let block = ASTExternBlock {
        id: w.node(),
        span: w.span(),
        keyword_extern: w.id("extern"),
        token_brace_open: w.tok(),
        items,
        token_brace_close: w.tok(),
    };
    let block = w.item(ASTModuleItemKind::ExternBlock(block));
    let impl_item = w.item(ASTModuleItemKind::ImplBlock(impl_block));
    let root = w.file_module("main", vec![block, impl_item]);
    let resolved = resolve(&w, vec![root]);
    assert_eq!(resolved.log.len(), 0);
    let main = module_at(&mut w, &resolved, &["main"]);
    let inside = w.sym("inside");
    let proto = w.sym("proto");
    let bound = resolved.symbols.get_non_module_symbol(&main, inside).unwrap();
    assert_eq!(bound.visibility, Visibility::Public);
    assert!(matches!(bound.kind, GlobalSymbolKind::Fn(_)));
    let bound = resolved.symbols.get_non_module_symbol(&main, proto).unwrap();
    assert_eq!(bound.visibility, Visibility::Private);
    assert!(matches!(bound.kind, GlobalSymbolKind::Prototype(_)));
    assert_eq!(resolved.symbols.non_module_entries().len(), 2);
    assert_eq!(resolved.symbols.module_entries().len(), 0);
}

#[test]
fn register_reports_what_it_did() {
    let mut w = World::new();
    let x = w.func("x", true);
    let root = Arc::new(w.file_module("main", vec![x]));
    let mut log = Vec::new();
    let mut symbols = GlobalSymbolRegistry::new();
    symbols.register_module(&w.interner, &mut log, &root);
    let x = w.sym("x");
    let declared = symbols.get_non_module_symbol(&root, x).unwrap().duplicate();
    let mut glob = declared.duplicate();
    glob.level = SymbolLevel::Glob;
    // a glob binding never displaces an explicit one, and says nothing
    assert!(!symbols.register(&w.interner, &mut log, glob.duplicate()));
    assert_eq!(log.len(), 0);
    assert_eq!(symbols.get_non_module_symbol(&root, x).unwrap().level, SymbolLevel::Explicit);
    // a glob binding of a free name is bound; an explicit one then takes its place
    let other = w.id("y");
    assert!(symbols.register_with_rename(&w.interner, &mut log, other, glob.duplicate()));
    assert!(!symbols.register_with_rename(&w.interner, &mut log, other, glob.duplicate()));
    assert_eq!(codes(&log), vec![error_codes::DUPLICATED_SYMBOL]);
    assert!(symbols.register_with_rename(&w.interner, &mut log, other, declared.duplicate()));
    assert_eq!(symbols.get_non_module_symbol(&root, other.symbol).unwrap().level, SymbolLevel::Explicit);
    assert_eq!(symbols.non_module_entries().len(), 2);
    assert_eq!(symbols.any_symbols(&root).len(), 2);
    assert!(symbols.module_symbols(&root).is_none());
    assert_eq!(symbols.non_module_symbols(&root).unwrap().len(), 2);
}

#[test]
fn duplicated_file_module_names_the_file() {
    let mut w = World::new();
    let clash = w.module_def("lib", false, vec![]);
    let main = w.file_module("main", vec![clash]);
    let mut lib = w.file_module("lib", vec![]);
    lib.path = vec![w.sym("main"), w.sym("lib")];
    let mut modules = ModuleRegistry::new();
    let mut log = Vec::new();
    modules.register(lib);
    let main = modules.register(main);
    modules.resolve_submodule(&w.interner, &mut log, &main);
    assert_eq!(codes(&log), vec![error_codes::DUPLICATED_MODULE]);
    assert_eq!(log[0].sub_diagnostics[0].message, "previous definition at `lib.exc`");
    assert_eq!(modules.modules().len(), 2);
}

#[test]
fn module_declarations_are_loaded_as_siblings() {
    let mut w = World::new();
    let decl = w.module_decl("util", true);
    let x = w.func("x", false);
    let main = w.file_module("main", vec![decl, x]);
    let mut modules = ModuleRegistry::new();
    let mut log = Vec::new();
    let main = modules.register(main);
    let decls = collect_module_decls(&main);
    assert_eq!(decls.len(), 1);
    let path = module_decl_path(&main, &decls[0]);
    assert_eq!(visualize_module_path(&w.interner, &path), "util");
    assert_eq!(make_fs_path(&w.interner, &path), "util.exc");
    let deep = vec![w.sym("a"), w.sym("b"), w.sym("c")];
    assert_eq!(make_fs_path(&w.interner, &deep), "a/b/c.exc");
    assert_eq!(visualize_module_path(&w.interner, &deep), "a::b::c");
    // a failed load is reported, and nothing is registered
    let missing = resolve_single_module_decl(&mut modules, &w.interner, &mut log, &main, &decls[0], None);
    assert!(missing.is_none());
    assert_eq!(codes(&log), vec![error_codes::UNREACHABLE_MODULE]);
    assert_eq!(
        log[0].message,
        "the module `util` is not reachable; failed to read file at path `util.exc`"
    );
    assert_eq!(modules.modules().len(), 1);
    // a loaded module is registered with its inline modules
    let inner = w.module_def("inner", false, vec![]);
    let util = w.file_module("util", vec![inner]);
    let loaded = resolve_single_module_decl(&mut modules, &w.interner, &mut log, &main, &decls[0], Some(util));
    let loaded = loaded.unwrap();
    assert_eq!(modules.modules().len(), 3);
    assert!(Arc::ptr_eq(modules.get_module_by_id(decls[0].id).unwrap(), &loaded));
    assert!(modules.has_module(&vec![w.sym("util"), w.sym("inner")]));
    assert!(!modules.has_module(&vec![w.sym("inner")]));
}

#[test]
fn missing_file_module_leaves_import_pending() {
    // `module gone;` was never loaded: an import through it is reported as not found.
    let mut w = World::new();
    let decl = w.module_decl("gone", false);
    let import = w.use_single(false, &[Seg::Name("gone")], "x");
    let root = w.file_module("main", vec![decl, import]);
    let resolved = resolve(&w, vec![root]);
    assert_eq!(codes(&resolved.log), vec![error_codes::SYMBOL_NOT_FOUND]);
}

#[test]
fn scope_table_shadowing() {
    let mut w = World::new();
    let x = w.sym("x");
    let y = w.sym("y");
    let mut table = ScopeTable::new(w.node());
    let outer = table.new_scope(None);
    assert_eq!(outer, ScopeIndex(0));
    let outer_let = w.node();
    table.new_variable(outer_let, x, outer);
    let inner = table.new_scope(Some(outer));
    assert_eq!(inner, ScopeIndex(1));
    assert_eq!(table.lookup_variable(inner, x), Some(VariableIndex(0)));
    let inner_let = w.node();
    table.new_variable(inner_let, x, inner);
    assert_eq!(table.lookup_variable(inner, x), Some(VariableIndex(1)));
    assert_eq!(table.lookup_variable(outer, x), Some(VariableIndex(0)));
    assert_eq!(table.lookup_variable(inner, y), None);
    // declaring the name again in the same scope hides the earlier declaration
    let again = w.node();
    table.new_variable(again, x, outer);
    assert_eq!(table.lookup_variable(outer, x), Some(VariableIndex(2)));
    assert_eq!(table.variable(VariableIndex(2)).id, again);
    assert_eq!(table.variable(VariableIndex(1)).scope, inner);
    assert_eq!(table.scope(inner).parent, Some(outer));
    assert_eq!(table.scope(outer).parent, None);
    // parameters are looked up by name too, the last of a name first
    let first = w.node();
    let second = w.node();
    table.new_parameter(first, y);
    table.new_parameter(second, y);
    assert_eq!(table.lookup_parameter(y).map(|p| (p.id, p.index)), Some((second, 1)));
    assert_eq!(table.lookup_parameter(x), None);
}

#[test]
fn local_resolution_binds_variables_and_globals() {
    let mut w = World::new();
    // fn f() { let x; { let x; x; } x; g; m::h; nope; m::nope; q::h; if .. }
    let (outer_let, outer_id) = w.let_stmt("x", None);
    let (inner_let, inner_id) = w.let_stmt("x", None);
    let (inner_ref, inner_ref_id) = w.path_expr(&["x"]);
    let (outer_ref, outer_ref_id) = w.path_expr(&["x"]);
    let (global_ref, global_ref_id) = w.path_expr(&["g"]);
    let (deep_ref, deep_ref_id) = w.path_expr(&["m", "h"]);
    let (unbound, unbound_id) = w.path_expr(&["nope"]);
    let (unbound_deep, unbound_deep_id) = w.path_expr(&["m", "nope"]);
    let (unbound_module, unbound_module_id) = w.path_expr(&["q", "h"]);
    let inner_ref = w.expr_stmt(inner_ref);
    let block = w.block_stmt(vec![inner_let, inner_ref]);
    let stmts = vec![
        outer_let,
        block,
        w.expr_stmt(outer_ref),
        w.expr_stmt(global_ref),
        w.expr_stmt(deep_ref),
        w.expr_stmt(unbound),
        w.expr_stmt(unbound_deep),
        w.expr_stmt(unbound_module),
    ];
    let f = w.func_with("f", stmts);
    let f_id = fn_id(&f);
    let g = w.func("g", false);
    let g_id = fn_id(&g);
    let h = w.func("h", false);
    let h_id = fn_id(&h);
    let m = w.module_def("m", false, vec![h]);
    let root = w.file_module("main", vec![f, g, m]);
    let resolved = resolve(&w, vec![root]);
    assert_eq!(resolved.log.len(), 0);
    let locals: LocalSymbolRegistry = resolve_local(&resolved.modules, &resolved.symbols);
    let bound = |expr: NodeId| locals.get(f_id, expr).map(|s| s.kind.id());
    assert_eq!(bound(inner_ref_id), Some(inner_id));
    assert_eq!(bound(outer_ref_id), Some(outer_id));
    assert_eq!(bound(global_ref_id), Some(g_id));
    assert_eq!(bound(deep_ref_id), Some(h_id));
    assert_eq!(bound(unbound_id), None);
    assert!(matches!(locals.get(f_id, inner_ref_id).unwrap().kind, LocalSymbolKind::Variable(v) if v.scope == ScopeIndex(1) && v.index == VariableIndex(1)));
    assert!(matches!(locals.get(f_id, global_ref_id).unwrap().kind, LocalSymbolKind::Global(_)));
    assert_eq!(locals.symbols().len(), 4);
    let failures: Vec<(NodeId, BindingFailureKind, String)> = locals
        .failures()
        .iter()
        .map(|f| (f.expr, f.kind, w.interner.text(f.identifier.symbol).to_string()))
        .collect();
    assert_eq!(
        failures,
        vec![
            (unbound_id, BindingFailureKind::Symbol, "nope".to_string()),
            (unbound_deep_id, BindingFailureKind::Symbol, "nope".to_string()),
            (unbound_module_id, BindingFailureKind::Module, "q".to_string()),
        ]
    );
}

#[test]
fn let_initializer_sees_its_own_variable() {
    let mut w = World::new();
    let (init, init_id) = w.path_expr(&["x"]);
    let (stmt, let_id) = w.let_stmt("x", Some(init));
    let f = w.func_with("f", vec![stmt]);
    let f_id = fn_id(&f);
    let root = w.file_module("main", vec![f]);
    let resolved = resolve(&w, vec![root]);
    let locals = resolve_local(&resolved.modules, &resolved.symbols);
    assert_eq!(locals.get(f_id, init_id).unwrap().kind.id(), let_id);
    assert_eq!(locals.failures().len(), 0);
}

#[test]
fn branch_bodies_are_sibling_scopes_inside_the_block() {
    let mut w = World::new();
    // fn f() { let a; if a { let b; a; } else { b; } }
    let (let_a, a_id) = w.let_stmt("a", None);
    let (cond, cond_id) = w.path_expr(&["a"]);
    let (let_b, _) = w.let_stmt("b", None);
    let (a_in_then, a_in_then_id) = w.path_expr(&["a"]);
    let (b_in_else, b_in_else_id) = w.path_expr(&["b"]);
    let then_stmts = vec![let_b, w.expr_stmt(a_in_then)];
    let else_stmts = vec![w.expr_stmt(b_in_else)];
    let otherwise = ASTStmtIfElse {
        id: w.node(),
        span: w.span(),
        keyword_else: w.id("else"),
        stmt_block: w.block(else_stmts),
    };
    let branch = ASTStmtIf {
        id: w.node(),
        span: w.span(),
        keyword_if: w.id("if"),
        expr: cond,
        stmt_block: w.block(then_stmts),
        else_ifs: Vec::new(),
        else_: Some(otherwise),
    };
    let stmts = vec![let_a, w.stmt(ASTStmtKind::If(branch))];
    let f = w.func_with("f", stmts);
    let f_id = fn_id(&f);
    let root = w.file_module("main", vec![f]);
    let resolved = resolve(&w, vec![root]);
    let locals = resolve_local(&resolved.modules, &resolved.symbols);
    assert_eq!(locals.get(f_id, cond_id).unwrap().kind.id(), a_id);
    assert_eq!(locals.get(f_id, a_in_then_id).unwrap().kind.id(), a_id);
    // what the `if` body declares is not visible in the `else` body
    assert!(locals.get(f_id, b_in_else_id).is_none());
    assert_eq!(locals.failures().len(), 1);
}

#[test]
fn interner_hands_out_stable_symbols() {
    let mut interner = Interner::new();
    assert_eq!(interner.len(), 1);
    assert_eq!(interner.lookup(""), Some(Symbol::empty()));
    let a = interner.intern("alpha").unwrap();
    let b = interner.intern("beta").unwrap();
    assert_eq!(a, Symbol::new(1));
    assert_eq!(b, Symbol::new(2));
    assert_eq!(interner.intern("alpha"), Some(a));
    assert_eq!(interner.len(), 3);
    assert_eq!(interner.str(a), "alpha");
    assert_eq!(a.to_str(&interner), "alpha");
    assert_eq!(Symbol::from_str(&mut interner, "beta"), Some(b));
    assert_eq!(interner.lookup("gamma"), None);
    assert_eq!(interner.text(Symbol::new(99)), "");
    assert_eq!(interner.display(b), "`beta`");
    assert!(interner.contains(b));
    assert!(!interner.contains(Symbol::new(3)));
}
