use exc::diagnostic::error_codes;
use exc::diagnostic::{Diagnostics, DiagnosticsLevel, DiagnosticsSender};
use exc::parse::ast::{ASTModule, ASTModuleItemKind, ASTStmtKind, NodeId, NodeIdAllocator};
use exc::parse::grammar::parse_module;
use exc::parse::lexer::{token_iter, Symbols};
use exc::resolve::{
    collect_module_decls, make_fs_path, module_decl_path, module_path_of, resolve_global,
    resolve_local, resolve_single_module_decl, BindingFailureKind, GlobalSymbolRegistry,
    LocalSymbolKind, Module,
    ModuleASTKind, ModuleRegistry, Visibility,
};
use exc::resolve::VariableIndex;
use exc::span::{LineCol, SourceFile, SourceMap};
use exc::symbol::{Interner, Symbol};
use std::sync::Arc;

struct Session {
    interner: Interner,
    symbols: Symbols,
    source_map: SourceMap,
    nodes: NodeIdAllocator,
    log: Vec<Diagnostics>,
}

struct Program {
    modules: ModuleRegistry,
    symbols: GlobalSymbolRegistry,
}

impl Session {
    fn new() -> Session {
        let mut interner = Interner::new();
        let symbols = Symbols::new(&mut interner).unwrap();
        Session {
            interner,
            symbols,
            source_map: SourceMap::new(),
            nodes: NodeIdAllocator::new(),
            log: Vec::new(),
        }
    }

    fn sym(&mut self, name: &str) -> Symbol {
        self.interner.intern(name).unwrap()
    }

    fn parse(&mut self, name: &str, content: &str) -> (Arc<SourceFile>, ASTModule) {
        let file = self
            .source_map
            .add_source_file(content.to_string(), format!("{}.exc", name), None)
            .unwrap();
        let tokens = token_iter(&mut self.interner, &file).unwrap();
        let ast = parse_module(
            &tokens,
            &mut self.nodes,
            &DiagnosticsSender::new(file.clone()),
            &self.symbols,
            &self.interner,
            &mut self.log,
        )
        .unwrap();
        (file, ast)
    }

    fn load(&mut self, path: &[&str], content: &str) -> Module {
        let (file, ast) = self.parse(path[path.len() - 1], content);
        let path: Vec<Symbol> = path.iter().map(|name| self.sym(name)).collect();
        Module::new(
            Visibility::Public,
            ModuleASTKind::Module(Arc::new(ast)),
            path,
            file.clone(),
            DiagnosticsSender::new(file),
        )
    }

    fn resolve(&mut self, files: Vec<Module>) -> Program {
        let mut modules = ModuleRegistry::new();
        for file in files {
            let module = modules.register(file);
            modules.resolve_submodule(&self.interner, &mut self.log, &module);
        }
        let symbols = resolve_global(&modules, &self.interner, &mut self.log);
        Program { modules, symbols }
    }

    fn module(&mut self, program: &Program, path: &[&str]) -> Arc<Module> {
        let path: Vec<Symbol> = path.iter().map(|name| self.sym(name)).collect();
        program.modules.get_module(&path).expect("the module is registered").clone()
    }

    fn messages(&self) -> Vec<(u32, String)> {
        self.log.iter().map(|d| (d.code, d.message.clone())).collect()
    }
}

fn place(diagnostics: &Diagnostics) -> (LineCol, LineCol) {
    let origin = diagnostics.origin.as_ref().unwrap();
    (origin.file.find_line_col(origin.span.low), origin.file.find_line_col(origin.span.high))
}

#[test]
fn duplicates_in_source_text() {
    let mut s = Session::new();
    let root = s.load(
        &["main"],
        "module test { fn foo() {} fn foo() {} fn bar() {} module bar { fn foo() {} } } module test {}",
    );
    let program = s.resolve(vec![root]);
    assert_eq!(
        s.messages(),
        vec![
            (error_codes::DUPLICATED_MODULE, "the module `test` is defined multiple times".to_string()),
            (error_codes::DUPLICATED_SYMBOL, "the symbol `test` is defined multiple times".to_string()),
            (error_codes::DUPLICATED_SYMBOL, "the symbol `foo` is defined multiple times".to_string()),
        ]
    );
    assert!(s.log.iter().all(|d| d.level == DiagnosticsLevel::Error));
    // The error stands at the second name, its note at the first.
    let duplicated_foo = &s.log[2];
    assert_eq!(place(duplicated_foo), (LineCol::new(0, 29), LineCol::new(0, 32)));
    assert_eq!(duplicated_foo.sub_diagnostics.len(), 1);
    assert_eq!(duplicated_foo.sub_diagnostics[0].message, "previous definition here");
    let previous = duplicated_foo.sub_diagnostics[0].origin.as_ref().unwrap();
    assert_eq!(previous.file.slice(previous.span), "foo");
    assert_eq!(previous.file.find_line_col(previous.span.low), LineCol::new(0, 17));

    let test = s.module(&program, &["main", "test"]);
    let bar = s.sym("bar");
    assert!(program.symbols.get_module_symbol(&test, bar).is_some());
    assert!(program.symbols.get_non_module_symbol(&test, bar).is_some());
    assert_eq!(program.modules.modules().len(), 3);
}

#[test]
fn imports_in_source_text() {
    let mut s = Session::new();
    let root = s.load(
        &["main"],
        "module a { pub fn f() {} fn hidden() {} pub struct S {} }\n\
         module b { pub use super::a::*; }\n\
         module c { use super::b::{f as g, S}; use super::a::missing; }\n\
         use c::nothing;\n",
    );
    let program = s.resolve(vec![root]);
    let a = s.module(&program, &["main", "a"]);
    let b = s.module(&program, &["main", "b"]);
    let c = s.module(&program, &["main", "c"]);
    let (f, g, hidden, big_s) = (s.sym("f"), s.sym("g"), s.sym("hidden"), s.sym("S"));
    let declared = program.symbols.get_non_module_symbol(&a, f).unwrap().kind.id();
    assert_eq!(program.symbols.get_non_module_symbol(&b, f).unwrap().kind.id(), declared);
    // An import binds the declaration itself: the two bindings are equal.
    assert!(
        program.symbols.get_non_module_symbol(&b, f).unwrap()
            == program.symbols.get_non_module_symbol(&a, f).unwrap()
    );
    assert!(
        program.symbols.get_non_module_symbol(&a, f).unwrap()
            != program.symbols.get_non_module_symbol(&a, big_s).unwrap()
    );
    // The file is one, so its private names are seen everywhere in it.
    assert!(program.symbols.get_non_module_symbol(&b, hidden).is_some());
    assert_eq!(program.symbols.get_non_module_symbol(&c, g).unwrap().kind.id(), declared);
    assert!(program.symbols.get_non_module_symbol(&c, f).is_none());
    assert!(program.symbols.get_non_module_symbol(&c, big_s).is_some());
    let codes: Vec<u32> = s.log.iter().map(|d| d.code).collect();
    assert_eq!(codes, vec![error_codes::SYMBOL_NOT_FOUND, error_codes::SYMBOL_NOT_FOUND]);
    let texts: Vec<(&str, &str)> = s
        .log
        .iter()
        .map(|d| {
            let origin = d.origin.as_ref().unwrap();
            (d.message.as_str(), origin.file.slice(origin.span))
        })
        .collect();
    assert_eq!(
        texts,
        vec![
            ("the symbol `nothing` from module `c` is not found", "c::nothing"),
            ("the symbol `missing` from module `super::a` is not found", "super::a::missing"),
        ]
    );
}

#[test]
fn private_names_stay_in_their_file() {
    let mut s = Session::new();
    let main = s.load(&["main"], "module lib; use lib::open; use lib::shut; use lib::*;");
    let lib = s.load(&["lib"], "pub fn open() {} fn shut() {} pub fn more() {} fn less() {}");
    let mut modules = ModuleRegistry::new();
    let main = modules.register(main);
    modules.resolve_submodule(&s.interner, &mut s.log, &main);
    let decls = collect_module_decls(&main);
    let lib =
        resolve_single_module_decl(&mut modules, &s.interner, &mut s.log, &main, &decls[0], Some(lib));
    assert!(lib.is_some());
    let symbols = resolve_global(&modules, &s.interner, &mut s.log);
    let (open, shut, more, less) = (s.sym("open"), s.sym("shut"), s.sym("more"), s.sym("less"));
    assert!(symbols.get_non_module_symbol(&main, open).is_some());
    assert!(symbols.get_non_module_symbol(&main, shut).is_none());
    assert!(symbols.get_non_module_symbol(&main, more).is_some());
    assert!(symbols.get_non_module_symbol(&main, less).is_none());
    assert_eq!(s.log.len(), 1);
    assert_eq!(s.log[0].code, error_codes::SYMBOL_IS_NOT_VISIBLE);
    assert_eq!(s.log[0].message, "the symbol `lib::shut` is not visible from this module");
    // The error is reported to the importing file, at the span of the declaration.
    let origin = s.log[0].origin.as_ref().unwrap();
    assert_eq!(origin.file.id(), main.file.id());
    let lib = lib.unwrap();
    assert_eq!(lib.file.slice(origin.span), "shut");
}

#[test]
fn locals_in_source_text() {
    let mut s = Session::new();
    let root = s.load(
        &["main"],
        "fn helper() {}\n\
         fn run() {\n\
             let x;\n\
             {\n\
                 let x;\n\
                 x;\n\
             }\n\
             x;\n\
             helper;\n\
             unknown;\n\
         }\n",
    );
    let program = s.resolve(vec![root]);
    assert_eq!(s.log.len(), 0);
    let locals = resolve_local(&program.modules, &program.symbols);
    let main = s.module(&program, &["main"]);
    let run = program.symbols.get_non_module_symbol(&main, s.sym("run")).unwrap().kind.id();
    let helper = program.symbols.get_non_module_symbol(&main, s.sym("helper")).unwrap().kind.id();
    let bound: Vec<(NodeId, NodeId)> = locals
        .symbols()
        .iter()
        .filter(|entry| entry.function == run)
        .map(|entry| (entry.expr, entry.symbol.kind.id()))
        .collect();
    assert_eq!(bound.len(), 3);
    // The inner use binds the inner variable, the outer use the outer one.
    assert_ne!(bound[0].1, bound[1].1);
    assert_eq!(bound[2].1, helper);
    assert!(matches!(locals.get(run, bound[0].0).unwrap().kind, LocalSymbolKind::Variable(_)));
    assert!(matches!(locals.get(run, bound[2].0).unwrap().kind, LocalSymbolKind::Global(_)));
    assert_eq!(locals.failures().len(), 1);
    assert_eq!(s.interner.text(locals.failures()[0].identifier.symbol), "unknown");
}

#[test]
fn generic_arguments_before_the_last_segment_are_flagged() {
    let mut s = Session::new();
    let root = s.load(&["main"], "module m { fn h() {} }\nfn run() { m<long>::h; m::h; }");
    let program = s.resolve(vec![root]);
    assert_eq!(s.messages(), vec![]);
    let locals = resolve_local(&program.modules, &program.symbols);
    let m = s.module(&program, &["main", "m"]);
    let h = program.symbols.get_non_module_symbol(&m, s.sym("h")).unwrap().kind.id();
    // Both paths are bound, and the first is flagged.
    let bound: Vec<NodeId> = locals.symbols().iter().map(|entry| entry.symbol.kind.id()).collect();
    assert_eq!(bound, vec![h, h]);
    let failures: Vec<(BindingFailureKind, &str, NodeId)> = locals
        .failures()
        .iter()
        .map(|f| (f.kind, s.interner.text(f.identifier.symbol), f.expr))
        .collect();
    assert_eq!(
        failures,
        vec![(BindingFailureKind::PrefixGeneric, "m", locals.symbols()[0].expr)]
    );
}

#[test]
fn parameters_are_bound_where_no_variable_hides_them() {
    let mut s = Session::new();
    let root = s.load(
        &["main"],
        "fn run(a: t, b: t, a: t) { a; b; let b; b; { b; a; } c; }\nfn b() {}",
    );
    let program = s.resolve(vec![root]);
    assert_eq!(s.messages(), vec![]);
    let main = s.module(&program, &["main"]);
    let run = match &main.ast {
        ModuleASTKind::Module(ast) => match &ast.items[0].kind {
            ASTModuleItemKind::FnDef(def) => def,
            _ => panic!("function expected"),
        },
        _ => panic!("file expected"),
    };
    let params: Vec<NodeId> = run.params.items.iter().map(|p| p.item().id).collect();
    assert_eq!(params.len(), 3);
    let locals = resolve_local(&program.modules, &program.symbols);
    let kinds: Vec<&LocalSymbolKind> =
        locals.symbols().iter().map(|entry| &entry.symbol.kind).collect();
    assert_eq!(kinds.len(), 5);
    // The last parameter of a name is the one that the name stands for.
    assert!(matches!(kinds[0], LocalSymbolKind::Parameter(p) if p.id == params[2] && p.index == 2));
    assert!(matches!(kinds[1], LocalSymbolKind::Parameter(p) if p.id == params[1] && p.index == 1));
    // A variable hides a parameter from its declaration on, in inner scopes too.
    assert!(matches!(kinds[2], LocalSymbolKind::Variable(v) if v.index == VariableIndex(0)));
    assert!(matches!(kinds[3], LocalSymbolKind::Variable(v) if v.index == VariableIndex(0)));
    assert!(matches!(kinds[4], LocalSymbolKind::Parameter(p) if p.index == 2));
    // A parameter hides a function of the module.
    assert!(kinds.iter().all(|kind| !matches!(kind, LocalSymbolKind::Global(_))));
    assert_eq!(locals.failures().len(), 1);
    assert_eq!(locals.failures()[0].kind, BindingFailureKind::Symbol);
    assert_eq!(s.interner.text(locals.failures()[0].identifier.symbol), "c");
}

#[test]
fn parse_errors_are_reported_and_passed() {
    let mut s = Session::new();
    let (_, ast) = s.parse("main", "fn good() {}\nfn (bad) {}\nstruct Fine {}\nfn open(");
    let kinds: Vec<&str> = ast
        .items
        .iter()
        .map(|item| match item.kind {
            ASTModuleItemKind::FnDef(_) => "fn",
            ASTModuleItemKind::StructDef(_) => "struct",
            _ => "other",
        })
        .collect();
    assert_eq!(kinds, vec!["fn", "struct"]);
    assert_eq!(
        s.messages(),
        vec![
            (error_codes::UNEXPECTED_TOKEN, "identifier expected, but found `(`".to_string()),
            (error_codes::UNEXPECTED_EOF, "`)` expected, but eof reached".to_string()),
        ]
    );
    assert_eq!(place(&s.log[0]), (LineCol::new(1, 3), LineCol::new(1, 4)));
}

#[test]
fn statements_in_source_text() {
    let mut s = Session::new();
    let (_, ast) = s.parse(
        "main",
        "fn f(a: i32, b: Vec<Vec<i32>>) -> i32 {\n\
             let total: i32 = a + b.len() * a ** a;\n\
             total += a;\n\
             if (total >= a) { return total; } else if (total == a) { break; } else { continue; }\n\
             while (total != a) { total <<= a; }\n\
             loop { g(total, -total).field; }\n\
             a >> a;\n\
             return a as i64;\n\
         }\n",
    );
    assert_eq!(s.messages(), vec![]);
    assert_eq!(ast.items.len(), 1);
    let body = match &ast.items[0].kind {
        ASTModuleItemKind::FnDef(def) => &def.stmt_block,
        _ => panic!("function expected"),
    };
    let kinds: Vec<&str> = body
        .stmts
        .iter()
        .map(|stmt| match stmt.kind {
            ASTStmtKind::Let(_) => "let",
            ASTStmtKind::Assignment(_) => "assignment",
            ASTStmtKind::If(_) => "if",
            ASTStmtKind::While(_) => "while",
            ASTStmtKind::Loop(_) => "loop",
            ASTStmtKind::Expr(_) => "expr",
            ASTStmtKind::Return(_) => "return",
            _ => "other",
        })
        .collect();
    assert_eq!(kinds, vec!["let", "assignment", "if", "while", "loop", "expr", "return"]);
}

#[test]
fn a_literal_is_no_expression() {
    let mut s = Session::new();
    let (_, ast) = s.parse("main", "fn f() { let x = 1; }\nfn g(a: [i32; 4]) {}");
    assert_eq!(ast.items.len(), 2);
    // The literal is refused where the expression starts, and then passed
    // token by token: it and the semicolon start no statement either.
    assert_eq!(s.log.len(), 3);
    assert!(s.log.iter().all(|d| d.code == error_codes::UNEXPECTED_TOKEN));
    assert_eq!(
        s.log[0].message,
        "`(`, an unary operator or identifier expected, but found `literal`"
    );
    assert_eq!(place(&s.log[0]), (LineCol::new(0, 17), LineCol::new(0, 18)));
    assert_eq!(place(&s.log[2]), (LineCol::new(0, 18), LineCol::new(0, 19)));
}

#[test]
fn node_identities_are_distinct() {
    let mut s = Session::new();
    let (_, first) = s.parse("a", "fn f() {} fn g() {}");
    let (_, second) = s.parse("b", "fn h() {}");
    let mut ids = vec![first.id, second.id];
    for item in first.items.iter().chain(second.items.iter()) {
        ids.push(item.id);
    }
    let count = ids.len();
    ids.sort_by_key(|id| id.get());
    ids.dedup();
    assert_eq!(ids.len(), count);
}

#[test]
fn file_modules_are_found_beside_their_parent() {
    let mut s = Session::new();
    let root = s.load(&["main"], "module util; pub module deep; use util::tool;");
    let mut modules = ModuleRegistry::new();
    let root = modules.register(root);
    modules.resolve_submodule(&s.interner, &mut s.log, &root);
    let decls = collect_module_decls(&root);
    assert_eq!(decls.len(), 2);
    let util_path = module_decl_path(&root, &decls[0]);
    assert_eq!(util_path, vec![s.sym("util")]);
    assert_eq!(make_fs_path(&s.interner, &util_path), "util.exc");
    let deep_path = module_decl_path(&root, &decls[1]);
    assert_eq!(make_fs_path(&s.interner, &deep_path), "deep.exc");

    let util = s.load(&["util"], "pub fn tool() {}");
    let loaded =
        resolve_single_module_decl(&mut modules, &s.interner, &mut s.log, &root, &decls[0], Some(util));
    assert!(loaded.is_some());
    let missing =
        resolve_single_module_decl(&mut modules, &s.interner, &mut s.log, &root, &decls[1], None);
    assert!(missing.is_none());
    assert_eq!(
        s.messages(),
        vec![(
            error_codes::UNREACHABLE_MODULE,
            "the module `deep` is not reachable; failed to read file at path `deep.exc`".to_string()
        )]
    );
    let symbols = resolve_global(&modules, &s.interner, &mut s.log);
    let tool = s.sym("tool");
    assert!(symbols.get_non_module_symbol(&root, tool).is_some());
    assert_eq!(s.log.len(), 1);
    assert_eq!(modules.modules().len(), 2);
}

#[test]
fn module_paths_from_directories() {
    let mut interner = Interner::new();
    let components = vec!["src".to_string(), "util".to_string(), "text".to_string()];
    let path = module_path_of(&mut interner, &components).unwrap();
    let names: Vec<&str> = path.iter().map(|symbol| interner.text(*symbol)).collect();
    assert_eq!(names, vec!["src", "util", "text"]);
    assert_eq!(make_fs_path(&interner, &path), "src/util/text.exc");
}
