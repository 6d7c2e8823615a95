use exc::diagnostic::{Diagnostics, DiagnosticsSender};
use exc::parse::ast::{ASTModule, ASTModuleItemKind, NodeIdAllocator};
use exc::parse::grammar::parse_module;
use exc::parse::lexer::{token_iter, Symbols};
use exc::span::SourceMap;
use exc::symbol::Interner;

fn parse_with_log(content: &str) -> (ASTModule, Vec<Diagnostics>) {
    let mut interner = Interner::new();
    let symbols = Symbols::new(&mut interner).unwrap();
    let mut source_map = SourceMap::new();
    let file = source_map
        .add_source_file(content.to_string(), "test.exc".to_string(), None)
        .unwrap();
    let diagnostics = DiagnosticsSender::new(file.clone());
    let tokens = token_iter(&mut interner, &file).unwrap();
    let mut id_allocator = NodeIdAllocator::new();
    let mut log = Vec::new();
    let ast = parse_module(&tokens, &mut id_allocator, &diagnostics, &symbols, &interner, &mut log)
        .unwrap();
    (ast, log)
}

fn parse_module_for_test(content: &str) -> ASTModule {
    parse_with_log(content).0
}


#[test]
fn test_module_item_alias() {
    const CONTENT: &'static str = "
    alias identifier = path;
    alias identifier = path::subpath;
    alias identifier = path::subpath::subsubpath<generic_param>;
    alias identifier = path::subpath::subsubpath<generic_param::sub_param>::subsubsubpath;

    pub alias identifier = path;
    pub alias identifier = path::subpath;
    pub alias identifier = path::subpath::subsubpath<generic_param>;
    pub alias identifier = path::subpath::subsubpath<generic_param::sub_param>::subsubsubpath;
";

    let ast = parse_module_for_test(CONTENT);
    assert_eq!(ast.items.len(), 8);

    match ast.items[0].kind {
        ASTModuleItemKind::AliasDef(_) => {}
        _ => panic!("expected alias module item"),
    }
}

#[test]
fn test_module_item_extern() {
    const CONTENT: &'static str = "
    extern {
        prototype foo();
        prototype foo(bar: path);
        prototype foo(bar: path, bar: path, bar: path, bar: path) -> path;
        prototype foo(bar: path) -> path;
        prototype foo(bar: path) -> fn () -> path;
        prototype foo(bar: [path::subpath<generic_param>]) -> fn () -> path;
        prototype foo(bar: [path::subpath<generic_param>; 123]) -> [fn (path, path::subpath, path::subpath<generic_param::sub_param>::subsubpath) -> path; 123];

        pub prototype foo();
        pub prototype foo(bar: path);
        pub prototype foo(bar: path, bar: path, bar: path, bar: path) -> path;
        pub prototype foo(bar: path) -> path;
        pub prototype foo(bar: path) -> fn () -> path;
        pub prototype foo(bar: [path::subpath<generic_param>]) -> fn () -> path;
        pub prototype foo(bar: [path::subpath<generic_param>; 123]) -> [fn (path, path::subpath, path::subpath<generic_param::sub_param>::subsubpath) -> path; 123];
    }

    extern {
        fn foo() { }
        fn foo(bar: path, bar: path::subpath, bar: path::subpath<generic_param>) { }
        fn foo(bar: path, bar: path::subpath, bar: path::subpath<generic_param>) -> path::subpath::subsubpath<path::subpath>::subsubsubpath { }

        pub fn foo() { }
        pub fn foo(bar: path, bar: path::subpath, bar: path::subpath<generic_param>) { }
        pub fn foo(bar: path, bar: path::subpath, bar: path::subpath<generic_param>) -> path::subpath::subsubpath<path::subpath>::subsubsubpath { }
    }

    extern {
        struct Foo { }

        struct Foo {
            bar: path,
        }
        
        struct Foo {
            bar: path,
            bar: path::subpath,
        }
        
        struct Foo {
            bar: path,
            bar: path::subpath,
            bar: path::subpath<generic_param>,
            bar: [path::subpath<generic_param>],
            bar: [path::subpath<generic_param>; 123],
            bar: fn (path, path::subpath, path::subpath<generic_param::sub_param>::subsubpath) -> path,
        }

        struct Foo<T> {
            bar: path,
            bar: path::subpath,
            bar: path::subpath<generic_param>,
            bar: [path::subpath<generic_param>],
            bar: [path::subpath<generic_param>; 123],
            bar: fn (path, path::subpath, path::subpath<generic_param::sub_param>::subsubpath) -> path,
        }

        struct Foo<T> where T: path::to::interface {
            bar: path,
            bar: path::subpath,
            bar: path::subpath<generic_param>,
            bar: [path::subpath<generic_param>],
            bar: [path::subpath<generic_param>; 123],
            bar: fn (path, path::subpath, path::subpath<generic_param::sub_param>::subsubpath) -> path,
        }

        struct Foo<T> where T: path::to::interface + path::to::interface {
            bar: path,
            bar: path::subpath,
            bar: path::subpath<generic_param>,
            bar: [path::subpath<generic_param>],
            bar: [path::subpath<generic_param>; 123],
            bar: fn (path, path::subpath, path::subpath<generic_param::sub_param>::subsubpath) -> path,
        }

        struct Foo<T> where T: path::to::interface, {
            bar: path,
            bar: path::subpath,
            bar: path::subpath<generic_param>,
            bar: [path::subpath<generic_param>],
            bar: [path::subpath<generic_param>; 123],
            bar: fn (path, path::subpath, path::subpath<generic_param::sub_param>::subsubpath) -> path,
        }

        struct Foo<T> where T: path::to::interface + path::to::interface, {
            bar: path,
            bar: path::subpath,
            bar: path::subpath<generic_param>,
            bar: [path::subpath<generic_param>],
            bar: [path::subpath<generic_param>; 123],
            bar: fn (path, path::subpath, path::subpath<generic_param::sub_param>::subsubpath) -> path,
        }

        struct Foo<T, U,> where T: path::to::interface + path::to::interface, U: path::to::interface + path::to::interface, {
            bar: path,
            bar: path::subpath,
            bar: path::subpath<generic_param>,
            bar: [path::subpath<generic_param>],
            bar: [path::subpath<generic_param>; 123],
            bar: fn (path, path::subpath, path::subpath<generic_param::sub_param>::subsubpath) -> path,
        }

        pub struct Foo { }

        pub struct Foo {
            bar: path,
        }
        
        pub struct Foo {
            bar: path,
            bar: path::subpath,
        }
        
        pub struct Foo {
            bar: path,
            bar: path::subpath,
            bar: path::subpath<generic_param>,
            bar: [path::subpath<generic_param>],
            bar: [path::subpath<generic_param>; 123],
            bar: fn (path, path::subpath, path::subpath<generic_param::sub_param>::subsubpath) -> path,
        }

        pub struct Foo<T> {
            bar: path,
            bar: path::subpath,
            bar: path::subpath<generic_param>,
            bar: [path::subpath<generic_param>],
            bar: [path::subpath<generic_param>; 123],
            bar: fn (path, path::subpath, path::subpath<generic_param::sub_param>::subsubpath) -> path,
        }

        pub struct Foo<T> where T: path::to::interface {
            bar: path,
            bar: path::subpath,
            bar: path::subpath<generic_param>,
            bar: [path::subpath<generic_param>],
            bar: [path::subpath<generic_param>; 123],
            bar: fn (path, path::subpath, path::subpath<generic_param::sub_param>::subsubpath) -> path,
        }

        pub struct Foo<T> where T: path::to::interface + path::to::interface {
            bar: path,
            bar: path::subpath,
            bar: path::subpath<generic_param>,
            bar: [path::subpath<generic_param>],
            bar: [path::subpath<generic_param>; 123],
            bar: fn (path, path::subpath, path::subpath<generic_param::sub_param>::subsubpath) -> path,
        }

        pub struct Foo<T> where T: path::to::interface, {
            bar: path,
            bar: path::subpath,
            bar: path::subpath<generic_param>,
            bar: [path::subpath<generic_param>],
            bar: [path::subpath<generic_param>; 123],
            bar: fn (path, path::subpath, path::subpath<generic_param::sub_param>::subsubpath) -> path,
        }

        pub struct Foo<T> where T: path::to::interface + path::to::interface, {
            bar: path,
            bar: path::subpath,
            bar: path::subpath<generic_param>,
            bar: [path::subpath<generic_param>],
            bar: [path::subpath<generic_param>; 123],
            bar: fn (path, path::subpath, path::subpath<generic_param::sub_param>::subsubpath) -> path,
        }

        pub struct Foo<T, U,> where T: path::to::interface + path::to::interface, U: path::to::interface + path::to::interface, {
            bar: path,
            bar: path::subpath,
            bar: path::subpath<generic_param>,
            bar: [path::subpath<generic_param>],
            bar: [path::subpath<generic_param>; 123],
            bar: fn (path, path::subpath, path::subpath<generic_param::sub_param>::subsubpath) -> path,
        }
    }

    extern {
        impl Foo { }

        impl Foo {
            fn foo() { }
        }

        impl Foo {
            fn foo() { }
            fn foo(bar: path, bar: path::subpath, bar: path::subpath<generic_param>) { }
            fn foo(bar: path, bar: path::subpath, bar: path::subpath<generic_param>) -> path::subpath::subsubpath<path::subpath>::subsubsubpath { }
        }
    }

    extern {
        impl Foo interface path::to::interface { }

        impl Foo interface path::to::interface {
            fn foo() { }
        }

        impl Foo interface path::to::interface {
            fn foo() { }
            fn foo(bar: path, bar: path::subpath, bar: path::subpath<generic_param>) { }
            fn foo(bar: path, bar: path::subpath, bar: path::subpath<generic_param>) -> path::subpath::subsubpath<path::subpath>::subsubsubpath { }
        }

        impl<T> Foo interface path::to::interface {
            fn foo() { }
            fn foo(bar: path, bar: path::subpath, bar: path::subpath<generic_param>) { }
            fn foo(bar: path, bar: path::subpath, bar: path::subpath<generic_param>) -> path::subpath::subsubpath<path::subpath>::subsubsubpath { }
        }

        impl<T> Foo interface path::to::interface where T: path::to::interface {
            fn foo() { }
            fn foo(bar: path, bar: path::subpath, bar: path::subpath<generic_param>) { }
            fn foo(bar: path, bar: path::subpath, bar: path::subpath<generic_param>) -> path::subpath::subsubpath<path::subpath>::subsubsubpath { }
        }

        impl<T> Foo interface path::to::interface where T: path::to::interface + path::to::interface {
            fn foo() { }
            fn foo(bar: path, bar: path::subpath, bar: path::subpath<generic_param>) { }
            fn foo(bar: path, bar: path::subpath, bar: path::subpath<generic_param>) -> path::subpath::subsubpath<path::subpath>::subsubsubpath { }
        }

        impl<T> Foo interface path::to::interface where T: path::to::interface, {
            fn foo() { }
            fn foo(bar: path, bar: path::subpath, bar: path::subpath<generic_param>) { }
            fn foo(bar: path, bar: path::subpath, bar: path::subpath<generic_param>) -> path::subpath::subsubpath<path::subpath>::subsubsubpath { }
        }

        impl<T> Foo interface path::to::interface where T: path::to::interface + path::to::interface, {
            fn foo() { }
            fn foo(bar: path, bar: path::subpath, bar: path::subpath<generic_param>) { }
            fn foo(bar: path, bar: path::subpath, bar: path::subpath<generic_param>) -> path::subpath::subsubpath<path::subpath>::subsubsubpath { }
        }

        impl<T, U,> Foo interface path::to::interface where T: path::to::interface + path::to::interface, U: path::to::interface + path::to::interface, {
            fn foo() { }
            fn foo(bar: path, bar: path::subpath, bar: path::subpath<generic_param>) { }
            fn foo(bar: path, bar: path::subpath, bar: path::subpath<generic_param>) -> path::subpath::subsubpath<path::subpath>::subsubsubpath { }
        }
    }
";

    let ast = parse_module_for_test(CONTENT);
    assert_eq!(ast.items.len(), 5);

    for item in &ast.items {
        match item.kind {
            ASTModuleItemKind::ExternBlock(_) => {}
            _ => panic!("expected extern module item"),
        }
    }
}

#[test]
fn test_module_item_fn() {
    const CONTENT: &'static str = "
    fn foo() {}
    fn foo() -> path {}
    fn foo() -> path::subpath::subsubpath {}
    fn foo() -> path::subpath::subsubpath<generic_param::sub_param>::subsubsubpath {}
    fn foo<T>() -> path::subpath::subsubpath<generic_param::sub_param>::subsubsubpath where T: path::to::interface {}
    fn foo<T, U,>() -> path::subpath::subsubpath<generic_param::sub_param>::subsubsubpath where T: path::to::interface, U: path::to::interface {}

    pub fn foo() {}
    pub fn foo() -> path {}
    pub fn foo() -> path::subpath::subsubpath {}
    pub fn foo() -> path::subpath::subsubpath<generic_param::sub_param>::subsubsubpath {}
    pub fn foo<T>() -> path::subpath::subsubpath<generic_param::sub_param>::subsubsubpath where T: path::to::interface {}
    pub fn foo<T, U,>() -> path::subpath::subsubpath<generic_param::sub_param>::subsubsubpath where T: path::to::interface, U: path::to::interface {}

    fn foo(param0: path) {}
    fn foo(param0: path::subpath::subsubpath) {}
    fn foo(param0: path::subpath::subsubpath<generic_param::sub_param>::subsubsubpath) {}
    fn foo<T>(param0: path::subpath::subsubpath<generic_param::sub_param>::subsubsubpath) where T: path::to::interface {}
    fn foo<T, U,>(param0: path::subpath::subsubpath<generic_param::sub_param>::subsubsubpath) where T: path::to::interface, U: path::to::interface {}

    pub fn foo(param0: path) {}
    pub fn foo(param0: path::subpath::subsubpath) {}
    pub fn foo(param0: path::subpath::subsubpath<generic_param::sub_param>::subsubsubpath) {}
    pub fn foo<T>(param0: path::subpath::subsubpath<generic_param::sub_param>::subsubsubpath) where T: path::to::interface {}
    pub fn foo<T, U,>(param0: path::subpath::subsubpath<generic_param::sub_param>::subsubsubpath) where T: path::to::interface, U: path::to::interface {}

    fn foo(param0: path, param1: path,) {}
    fn foo(param0: path::subpath::subsubpath, param1: path::subpath::subsubpath,) {}
    fn foo(param0: path::subpath::subsubpath<generic_param::sub_param>::subsubsubpath, param1: path::subpath::subsubpath<generic_param::sub_param>::subsubsubpath,) {}
    fn foo<T>(param0: path::subpath::subsubpath<generic_param::sub_param>::subsubsubpath, param1: path::subpath::subsubpath<generic_param::sub_param>::subsubsubpath,) where T: path::to::interface {}
    fn foo<T, U,>(param0: path::subpath::subsubpath<generic_param::sub_param>::subsubsubpath, param1: path::subpath::subsubpath<generic_param::sub_param>::subsubsubpath,) where T: path::to::interface, U: path::to::interface {}

    pub fn foo(param0: path, param1: path,) {}
    pub fn foo(param0: path::subpath::subsubpath, param1: path::subpath::subsubpath,) {}
    pub fn foo(param0: path::subpath::subsubpath<generic_param::sub_param>::subsubsubpath, param1: path::subpath::subsubpath<generic_param::sub_param>::subsubsubpath,) {}
    pub fn foo<T>(param0: path::subpath::subsubpath<generic_param::sub_param>::subsubsubpath, param1: path::subpath::subsubpath<generic_param::sub_param>::subsubsubpath,) where T: path::to::interface {}
    pub fn foo<T, U,>(param0: path::subpath::subsubpath<generic_param::sub_param>::subsubsubpath, param1: path::subpath::subsubpath<generic_param::sub_param>::subsubsubpath,) where T: path::to::interface, U: path::to::interface {}
";

    let ast = parse_module_for_test(CONTENT);
    assert_eq!(ast.items.len(), 32);

    for item in &ast.items {
        match item.kind {
            ASTModuleItemKind::FnDef(_) => {}
            _ => panic!("expected fn module item"),
        }
    }
}

#[test]
fn test_module_item_impl() {
    const CONTENT: &'static str = "
    impl path { }
    impl path::subpath { }
    impl path::subpath::subsubpath { }
    impl path::subpath::subsubpath<generic_param> { }
    impl path::subpath::subsubpath<generic_param::sub_param>::subsubsubpath { }
    impl path::subpath::subsubpath<generic_param::sub_param,>::subsubsubpath { }
    impl path::subpath::subsubpath<generic_param::sub_param,generic_param::sub_param>::subsubsubpath { }
    impl path::subpath::subsubpath<generic_param::sub_param,generic_param::sub_param,>::subsubsubpath { }
    
    impl path interface path { }
    impl path::subpath interface path::subpath { }
    impl path::subpath::subsubpath interface path::subpath::subsubpath { }
    impl path::subpath::subsubpath<generic_param> interface path::subpath::subsubpath<generic_param> { }
    impl path::subpath::subsubpath<generic_param::sub_param>::subsubsubpath interface path::subpath::subsubpath<generic_param::sub_param>::subsubsubpath { }
    impl path::subpath::subsubpath<generic_param::sub_param,>::subsubsubpath interface path::subpath::subsubpath<generic_param::sub_param,>::subsubsubpath { }
    impl path::subpath::subsubpath<generic_param::sub_param,generic_param::sub_param>::subsubsubpath interface path::subpath::subsubpath<generic_param::sub_param,generic_param::sub_param>::subsubsubpath { }
    impl path::subpath::subsubpath<generic_param::sub_param,generic_param::sub_param,>::subsubsubpath interface path::subpath::subsubpath<generic_param::sub_param,generic_param::sub_param,>::subsubsubpath { }

    impl path {
        fn method() { }
        fn method() -> path { }
        fn method() -> path::subpath::subsubpath { }
        fn method() -> path::subpath::subsubpath<generic_param::sub_param>::subsubsubpath { }
        fn method<T>() -> path::subpath::subsubpath<generic_param::sub_param>::subsubsubpath where T: path::to::interface { }
        fn method<T>() -> path::subpath::subsubpath<generic_param::sub_param>::subsubsubpath where T: path::to::interface + path::to::interface { }
        fn method<T>() -> path::subpath::subsubpath<generic_param::sub_param>::subsubsubpath where T: path::to::interface, { }
        fn method<T>() -> path::subpath::subsubpath<generic_param::sub_param>::subsubsubpath where T: path::to::interface + path::to::interface, { }
        fn method<T, U,>() -> path::subpath::subsubpath<generic_param::sub_param>::subsubsubpath where T: path::to::interface, U: path::to::interface { }
        fn method<T, U,>() -> path::subpath::subsubpath<generic_param::sub_param>::subsubsubpath where T: path::to::interface, U: path::to::interface, { }
        fn method<T, U,>() -> path::subpath::subsubpath<generic_param::sub_param>::subsubsubpath where T: path::to::interface + path::to::interface, U: path::to::interface + path::to::interface { }
        fn method<T, U,>() -> path::subpath::subsubpath<generic_param::sub_param>::subsubsubpath where T: path::to::interface + path::to::interface, U: path::to::interface + path::to::interface, { }

        fn method(param: path) { }
        fn method(param: path::subpath::subsubpath) { }
        fn method(param: path::subpath::subsubpath<generic_param::sub_param>::subsubsubpath) { }
        fn method<T>(param: path::subpath::subsubpath<generic_param::sub_param>::subsubsubpath) where T: path::to::interface { }
        fn method<T, U,>(param: path::subpath::subsubpath<generic_param::sub_param>::subsubsubpath) where T: path::to::interface, U: path::to::interface { }

        fn method(param: path, param: path,) { }
        fn method(param: path::subpath::subsubpath, param: path::subpath::subsubpath,) { }
        fn method(param: path::subpath::subsubpath<generic_param::sub_param>::subsubsubpath, param: path::subpath::subsubpath<generic_param::sub_param>::subsubsubpath,) { }
        fn method<T>(param: path::subpath::subsubpath<generic_param::sub_param>::subsubsubpath, param: path::subpath::subsubpath<generic_param::sub_param>::subsubsubpath,) where T: path::to::interface { }
        fn method<T, U,>(param: path::subpath::subsubpath<generic_param::sub_param>::subsubsubpath, param: path::subpath::subsubpath<generic_param::sub_param>::subsubsubpath,) where T: path::to::interface, U: path::to::interface { }

        fn method(param: path, param: path, param: path,) -> path { }
        fn method(param: path::subpath::subsubpath, param: path::subpath::subsubpath, param: path::subpath::subsubpath,) -> path::subpath::subsubpath { }
        fn method(param: path::subpath::subsubpath<generic_param::sub_param>::subsubsubpath, param: path::subpath::subsubpath<generic_param::sub_param>::subsubsubpath, param: path::subpath::subsubpath<generic_param::sub_param>::subsubsubpath,) -> path::subpath::subsubpath<generic_param::sub_param>::subsubsubpath { }
        fn method<T>(param: path::subpath::subsubpath<generic_param::sub_param>::subsubsubpath, param: path::subpath::subsubpath<generic_param::sub_param>::subsubsubpath, param: path::subpath::subsubpath<generic_param::sub_param>::subsubsubpath,) -> path::subpath::subsubpath<generic_param::sub_param>::subsubsubpath where T: path::to::interface { }
        fn method<T, U,>(param: path::subpath::subsubpath<generic_param::sub_param>::subsubsubpath, param: path::subpath::subsubpath<generic_param::sub_param>::subsubsubpath, param: path::subpath::subsubpath<generic_param::sub_param>::subsubsubpath,) -> path::subpath::subsubpath<generic_param::sub_param>::subsubsubpath where T: path::to::interface, U: path::to::interface { }
    }
    impl path::subpath {
        fn method() { }
        fn method() -> path { }
        fn method() -> path::subpath::subsubpath { }
        fn method() -> path::subpath::subsubpath<generic_param::sub_param>::subsubsubpath { }
        fn method<T>() -> path::subpath::subsubpath<generic_param::sub_param>::subsubsubpath where T: path::to::interface { }
        fn method<T>() -> path::subpath::subsubpath<generic_param::sub_param>::subsubsubpath where T: path::to::interface + path::to::interface { }
        fn method<T>() -> path::subpath::subsubpath<generic_param::sub_param>::subsubsubpath where T: path::to::interface, { }
        fn method<T>() -> path::subpath::subsubpath<generic_param::sub_param>::subsubsubpath where T: path::to::interface + path::to::interface, { }
        fn method<T, U,>() -> path::subpath::subsubpath<generic_param::sub_param>::subsubsubpath where T: path::to::interface, U: path::to::interface { }
        fn method<T, U,>() -> path::subpath::subsubpath<generic_param::sub_param>::subsubsubpath where T: path::to::interface, U: path::to::interface, { }
        fn method<T, U,>() -> path::subpath::subsubpath<generic_param::sub_param>::subsubsubpath where T: path::to::interface + path::to::interface, U: path::to::interface + path::to::interface { }
        fn method<T, U,>() -> path::subpath::subsubpath<generic_param::sub_param>::subsubsubpath where T: path::to::interface + path::to::interface, U: path::to::interface + path::to::interface, { }

        fn method(param: path) { }
        fn method(param: path::subpath::subsubpath) { }
        fn method(param: path::subpath::subsubpath<generic_param::sub_param>::subsubsubpath) { }
        fn method<T>(param: path::subpath::subsubpath<generic_param::sub_param>::subsubsubpath) where T: path::to::interface { }
        fn method<T, U,>(param: path::subpath::subsubpath<generic_param::sub_param>::subsubsubpath) where T: path::to::interface, U: path::to::interface { }

        fn method(param: path, param: path,) { }
        fn method(param: path::subpath::subsubpath, param: path::subpath::subsubpath,) { }
        fn method(param: path::subpath::subsubpath<generic_param::sub_param>::subsubsubpath, param: path::subpath::subsubpath<generic_param::sub_param>::subsubsubpath,) { }
        fn method<T>(param: path::subpath::subsubpath<generic_param::sub_param>::subsubsubpath, param: path::subpath::subsubpath<generic_param::sub_param>::subsubsubpath,) where T: path::to::interface { }
        fn method<T, U,>(param: path::subpath::subsubpath<generic_param::sub_param>::subsubsubpath, param: path::subpath::subsubpath<generic_param::sub_param>::subsubsubpath,) where T: path::to::interface, U: path::to::interface { }

        fn method(param: path, param: path, param: path,) -> path { }
        fn method(param: path::subpath::subsubpath, param: path::subpath::subsubpath, param: path::subpath::subsubpath,) -> path::subpath::subsubpath { }
        fn method(param: path::subpath::subsubpath<generic_param::sub_param>::subsubsubpath, param: path::subpath::subsubpath<generic_param::sub_param>::subsubsubpath, param: path::subpath::subsubpath<generic_param::sub_param>::subsubsubpath,) -> path::subpath::subsubpath<generic_param::sub_param>::subsubsubpath { }
        fn method<T>(param: path::subpath::subsubpath<generic_param::sub_param>::subsubsubpath, param: path::subpath::subsubpath<generic_param::sub_param>::subsubsubpath, param: path::subpath::subsubpath<generic_param::sub_param>::subsubsubpath,) -> path::subpath::subsubpath<generic_param::sub_param>::subsubsubpath where T: path::to::interface { }
        fn method<T, U,>(param: path::subpath::subsubpath<generic_param::sub_param>::subsubsubpath, param: path::subpath::subsubpath<generic_param::sub_param>::subsubsubpath, param: path::subpath::subsubpath<generic_param::sub_param>::subsubsubpath,) -> path::subpath::subsubpath<generic_param::sub_param>::subsubsubpath where T: path::to::interface, U: path::to::interface { }
    }
    impl path::subpath::subsubpath {
        fn method() { }
        fn method() -> path { }
        fn method() -> path::subpath::subsubpath { }
        fn method() -> path::subpath::subsubpath<generic_param::sub_param>::subsubsubpath { }
        fn method<T>() -> path::subpath::subsubpath<generic_param::sub_param>::subsubsubpath where T: path::to::interface { }
        fn method<T>() -> path::subpath::subsubpath<generic_param::sub_param>::subsubsubpath where T: path::to::interface + path::to::interface { }
        fn method<T>() -> path::subpath::subsubpath<generic_param::sub_param>::subsubsubpath where T: path::to::interface, { }
        fn method<T>() -> path::subpath::subsubpath<generic_param::sub_param>::subsubsubpath where T: path::to::interface + path::to::interface, { }
        fn method<T, U,>() -> path::subpath::subsubpath<generic_param::sub_param>::subsubsubpath where T: path::to::interface, U: path::to::interface { }
        fn method<T, U,>() -> path::subpath::subsubpath<generic_param::sub_param>::subsubsubpath where T: path::to::interface, U: path::to::interface, { }
        fn method<T, U,>() -> path::subpath::subsubpath<generic_param::sub_param>::subsubsubpath where T: path::to::interface + path::to::interface, U: path::to::interface + path::to::interface { }
        fn method<T, U,>() -> path::subpath::subsubpath<generic_param::sub_param>::subsubsubpath where T: path::to::interface + path::to::interface, U: path::to::interface + path::to::interface, { }

        fn method(param: path) { }
        fn method(param: path::subpath::subsubpath) { }
        fn method(param: path::subpath::subsubpath<generic_param::sub_param>::subsubsubpath) { }
        fn method<T>(param: path::subpath::subsubpath<generic_param::sub_param>::subsubsubpath) where T: path::to::interface { }
        fn method<T, U,>(param: path::subpath::subsubpath<generic_param::sub_param>::subsubsubpath) where T: path::to::interface, U: path::to::interface { }

        fn method(param: path, param: path,) { }
        fn method(param: path::subpath::subsubpath, param: path::subpath::subsubpath,) { }
        fn method(param: path::subpath::subsubpath<generic_param::sub_param>::subsubsubpath, param: path::subpath::subsubpath<generic_param::sub_param>::subsubsubpath,) { }
        fn method<T>(param: path::subpath::subsubpath<generic_param::sub_param>::subsubsubpath, param: path::subpath::subsubpath<generic_param::sub_param>::subsubsubpath,) where T: path::to::interface { }
        fn method<T, U,>(param: path::subpath::subsubpath<generic_param::sub_param>::subsubsubpath, param: path::subpath::subsubpath<generic_param::sub_param>::subsubsubpath,) where T: path::to::interface, U: path::to::interface { }

        fn method(param: path, param: path, param: path,) -> path { }
        fn method(param: path::subpath::subsubpath, param: path::subpath::subsubpath, param: path::subpath::subsubpath,) -> path::subpath::subsubpath { }
        fn method(param: path::subpath::subsubpath<generic_param::sub_param>::subsubsubpath, param: path::subpath::subsubpath<generic_param::sub_param>::subsubsubpath, param: path::subpath::subsubpath<generic_param::sub_param>::subsubsubpath,) -> path::subpath::subsubpath<generic_param::sub_param>::subsubsubpath { }
        fn method<T>(param: path::subpath::subsubpath<generic_param::sub_param>::subsubsubpath, param: path::subpath::subsubpath<generic_param::sub_param>::subsubsubpath, param: path::subpath::subsubpath<generic_param::sub_param>::subsubsubpath,) -> path::subpath::subsubpath<generic_param::sub_param>::subsubsubpath where T: path::to::interface { }
        fn method<T, U,>(param: path::subpath::subsubpath<generic_param::sub_param>::subsubsubpath, param: path::subpath::subsubpath<generic_param::sub_param>::subsubsubpath, param: path::subpath::subsubpath<generic_param::sub_param>::subsubsubpath,) -> path::subpath::subsubpath<generic_param::sub_param>::subsubsubpath where T: path::to::interface, U: path::to::interface { }
    }
    impl path::subpath::subsubpath<generic_param> {
        fn method() { }
        fn method() -> path { }
        fn method() -> path::subpath::subsubpath { }
        fn method() -> path::subpath::subsubpath<generic_param::sub_param>::subsubsubpath { }
        fn method<T>() -> path::subpath::subsubpath<generic_param::sub_param>::subsubsubpath where T: path::to::interface { }
        fn method<T>() -> path::subpath::subsubpath<generic_param::sub_param>::subsubsubpath where T: path::to::interface + path::to::interface { }
        fn method<T>() -> path::subpath::subsubpath<generic_param::sub_param>::subsubsubpath where T: path::to::interface, { }
        fn method<T>() -> path::subpath::subsubpath<generic_param::sub_param>::subsubsubpath where T: path::to::interface + path::to::interface, { }
        fn method<T, U,>() -> path::subpath::subsubpath<generic_param::sub_param>::subsubsubpath where T: path::to::interface, U: path::to::interface { }
        fn method<T, U,>() -> path::subpath::subsubpath<generic_param::sub_param>::subsubsubpath where T: path::to::interface, U: path::to::interface, { }
        fn method<T, U,>() -> path::subpath::subsubpath<generic_param::sub_param>::subsubsubpath where T: path::to::interface + path::to::interface, U: path::to::interface + path::to::interface { }
        fn method<T, U,>() -> path::subpath::subsubpath<generic_param::sub_param>::subsubsubpath where T: path::to::interface + path::to::interface, U: path::to::interface + path::to::interface, { }

        fn method(param: path) { }
        fn method(param: path::subpath::subsubpath) { }
        fn method(param: path::subpath::subsubpath<generic_param::sub_param>::subsubsubpath) { }
        fn method<T>(param: path::subpath::subsubpath<generic_param::sub_param>::subsubsubpath) where T: path::to::interface { }
        fn method<T, U,>(param: path::subpath::subsubpath<generic_param::sub_param>::subsubsubpath) where T: path::to::interface, U: path::to::interface { }

        fn method(param: path, param: path,) { }
        fn method(param: path::subpath::subsubpath, param: path::subpath::subsubpath,) { }
        fn method(param: path::subpath::subsubpath<generic_param::sub_param>::subsubsubpath, param: path::subpath::subsubpath<generic_param::sub_param>::subsubsubpath,) { }
        fn method<T>(param: path::subpath::subsubpath<generic_param::sub_param>::subsubsubpath, param: path::subpath::subsubpath<generic_param::sub_param>::subsubsubpath,) where T: path::to::interface { }
        fn method<T, U,>(param: path::subpath::subsubpath<generic_param::sub_param>::subsubsubpath, param: path::subpath::subsubpath<generic_param::sub_param>::subsubsubpath,) where T: path::to::interface, U: path::to::interface { }

        fn method(param: path, param: path, param: path,) -> path { }
        fn method(param: path::subpath::subsubpath, param: path::subpath::subsubpath, param: path::subpath::subsubpath,) -> path::subpath::subsubpath { }
        fn method(param: path::subpath::subsubpath<generic_param::sub_param>::subsubsubpath, param: path::subpath::subsubpath<generic_param::sub_param>::subsubsubpath, param: path::subpath::subsubpath<generic_param::sub_param>::subsubsubpath,) -> path::subpath::subsubpath<generic_param::sub_param>::subsubsubpath { }
        fn method<T>(param: path::subpath::subsubpath<generic_param::sub_param>::subsubsubpath, param: path::subpath::subsubpath<generic_param::sub_param>::subsubsubpath, param: path::subpath::subsubpath<generic_param::sub_param>::subsubsubpath,) -> path::subpath::subsubpath<generic_param::sub_param>::subsubsubpath where T: path::to::interface { }
        fn method<T, U,>(param: path::subpath::subsubpath<generic_param::sub_param>::subsubsubpath, param: path::subpath::subsubpath<generic_param::sub_param>::subsubsubpath, param: path::subpath::subsubpath<generic_param::sub_param>::subsubsubpath,) -> path::subpath::subsubpath<generic_param::sub_param>::subsubsubpath where T: path::to::interface, U: path::to::interface { }
    }
    impl path::subpath::subsubpath<generic_param::sub_param>::subsubsubpath {
        fn method() { }
        fn method() -> path { }
        fn method() -> path::subpath::subsubpath { }
        fn method() -> path::subpath::subsubpath<generic_param::sub_param>::subsubsubpath { }
        fn method<T>() -> path::subpath::subsubpath<generic_param::sub_param>::subsubsubpath where T: path::to::interface { }
        fn method<T>() -> path::subpath::subsubpath<generic_param::sub_param>::subsubsubpath where T: path::to::interface + path::to::interface { }
        fn method<T>() -> path::subpath::subsubpath<generic_param::sub_param>::subsubsubpath where T: path::to::interface, { }
        fn method<T>() -> path::subpath::subsubpath<generic_param::sub_param>::subsubsubpath where T: path::to::interface + path::to::interface, { }
        fn method<T, U,>() -> path::subpath::subsubpath<generic_param::sub_param>::subsubsubpath where T: path::to::interface, U: path::to::interface { }
        fn method<T, U,>() -> path::subpath::subsubpath<generic_param::sub_param>::subsubsubpath where T: path::to::interface, U: path::to::interface, { }
        fn method<T, U,>() -> path::subpath::subsubpath<generic_param::sub_param>::subsubsubpath where T: path::to::interface + path::to::interface, U: path::to::interface + path::to::interface { }
        fn method<T, U,>() -> path::subpath::subsubpath<generic_param::sub_param>::subsubsubpath where T: path::to::interface + path::to::interface, U: path::to::interface + path::to::interface, { }

        fn method(param: path) { }
        fn method(param: path::subpath::subsubpath) { }
        fn method(param: path::subpath::subsubpath<generic_param::sub_param>::subsubsubpath) { }
        fn method<T>(param: path::subpath::subsubpath<generic_param::sub_param>::subsubsubpath) where T: path::to::interface { }
        fn method<T, U,>(param: path::subpath::subsubpath<generic_param::sub_param>::subsubsubpath) where T: path::to::interface, U: path::to::interface { }

        fn method(param: path, param: path,) { }
        fn method(param: path::subpath::subsubpath, param: path::subpath::subsubpath,) { }
        fn method(param: path::subpath::subsubpath<generic_param::sub_param>::subsubsubpath, param: path::subpath::subsubpath<generic_param::sub_param>::subsubsubpath,) { }
        fn method<T>(param: path::subpath::subsubpath<generic_param::sub_param>::subsubsubpath, param: path::subpath::subsubpath<generic_param::sub_param>::subsubsubpath,) where T: path::to::interface { }
        fn method<T, U,>(param: path::subpath::subsubpath<generic_param::sub_param>::subsubsubpath, param: path::subpath::subsubpath<generic_param::sub_param>::subsubsubpath,) where T: path::to::interface, U: path::to::interface { }

        fn method(param: path, param: path, param: path,) -> path { }
        fn method(param: path::subpath::subsubpath, param: path::subpath::subsubpath, param: path::subpath::subsubpath,) -> path::subpath::subsubpath { }
        fn method(param: path::subpath::subsubpath<generic_param::sub_param>::subsubsubpath, param: path::subpath::subsubpath<generic_param::sub_param>::subsubsubpath, param: path::subpath::subsubpath<generic_param::sub_param>::subsubsubpath,) -> path::subpath::subsubpath<generic_param::sub_param>::subsubsubpath { }
        fn method<T>(param: path::subpath::subsubpath<generic_param::sub_param>::subsubsubpath, param: path::subpath::subsubpath<generic_param::sub_param>::subsubsubpath, param: path::subpath::subsubpath<generic_param::sub_param>::subsubsubpath,) -> path::subpath::subsubpath<generic_param::sub_param>::subsubsubpath where T: path::to::interface { }
        fn method<T, U,>(param: path::subpath::subsubpath<generic_param::sub_param>::subsubsubpath, param: path::subpath::subsubpath<generic_param::sub_param>::subsubsubpath, param: path::subpath::subsubpath<generic_param::sub_param>::subsubsubpath,) -> path::subpath::subsubpath<generic_param::sub_param>::subsubsubpath where T: path::to::interface, U: path::to::interface { }
    }
    impl path::subpath::subsubpath<generic_param::sub_param,>::subsubsubpath {
        fn method() { }
        fn method() -> path { }
        fn method() -> path::subpath::subsubpath { }
        fn method() -> path::subpath::subsubpath<generic_param::sub_param>::subsubsubpath { }
        fn method<T>() -> path::subpath::subsubpath<generic_param::sub_param>::subsubsubpath where T: path::to::interface { }
        fn method<T>() -> path::subpath::subsubpath<generic_param::sub_param>::subsubsubpath where T: path::to::interface + path::to::interface { }
        fn method<T>() -> path::subpath::subsubpath<generic_param::sub_param>::subsubsubpath where T: path::to::interface, { }
        fn method<T>() -> path::subpath::subsubpath<generic_param::sub_param>::subsubsubpath where T: path::to::interface + path::to::interface, { }
        fn method<T, U,>() -> path::subpath::subsubpath<generic_param::sub_param>::subsubsubpath where T: path::to::interface, U: path::to::interface { }
        fn method<T, U,>() -> path::subpath::subsubpath<generic_param::sub_param>::subsubsubpath where T: path::to::interface, U: path::to::interface, { }
        fn method<T, U,>() -> path::subpath::subsubpath<generic_param::sub_param>::subsubsubpath where T: path::to::interface + path::to::interface, U: path::to::interface + path::to::interface { }
        fn method<T, U,>() -> path::subpath::subsubpath<generic_param::sub_param>::subsubsubpath where T: path::to::interface + path::to::interface, U: path::to::interface + path::to::interface, { }

        fn method(param: path) { }
        fn method(param: path::subpath::subsubpath) { }
        fn method(param: path::subpath::subsubpath<generic_param::sub_param>::subsubsubpath) { }
        fn method<T>(param: path::subpath::subsubpath<generic_param::sub_param>::subsubsubpath) where T: path::to::interface { }
        fn method<T, U,>(param: path::subpath::subsubpath<generic_param::sub_param>::subsubsubpath) where T: path::to::interface, U: path::to::interface { }

        fn method(param: path, param: path,) { }
        fn method(param: path::subpath::subsubpath, param: path::subpath::subsubpath,) { }
        fn method(param: path::subpath::subsubpath<generic_param::sub_param>::subsubsubpath, param: path::subpath::subsubpath<generic_param::sub_param>::subsubsubpath,) { }
        fn method<T>(param: path::subpath::subsubpath<generic_param::sub_param>::subsubsubpath, param: path::subpath::subsubpath<generic_param::sub_param>::subsubsubpath,) where T: path::to::interface { }
        fn method<T, U,>(param: path::subpath::subsubpath<generic_param::sub_param>::subsubsubpath, param: path::subpath::subsubpath<generic_param::sub_param>::subsubsubpath,) where T: path::to::interface, U: path::to::interface { }

        fn method(param: path, param: path, param: path,) -> path { }
        fn method(param: path::subpath::subsubpath, param: path::subpath::subsubpath, param: path::subpath::subsubpath,) -> path::subpath::subsubpath { }
        fn method(param: path::subpath::subsubpath<generic_param::sub_param>::subsubsubpath, param: path::subpath::subsubpath<generic_param::sub_param>::subsubsubpath, param: path::subpath::subsubpath<generic_param::sub_param>::subsubsubpath,) -> path::subpath::subsubpath<generic_param::sub_param>::subsubsubpath { }
        fn method<T>(param: path::subpath::subsubpath<generic_param::sub_param>::subsubsubpath, param: path::subpath::subsubpath<generic_param::sub_param>::subsubsubpath, param: path::subpath::subsubpath<generic_param::sub_param>::subsubsubpath,) -> path::subpath::subsubpath<generic_param::sub_param>::subsubsubpath where T: path::to::interface { }
        fn method<T, U,>(param: path::subpath::subsubpath<generic_param::sub_param>::subsubsubpath, param: path::subpath::subsubpath<generic_param::sub_param>::subsubsubpath, param: path::subpath::subsubpath<generic_param::sub_param>::subsubsubpath,) -> path::subpath::subsubpath<generic_param::sub_param>::subsubsubpath where T: path::to::interface, U: path::to::interface { }
    }
    impl path::subpath::subsubpath<generic_param::sub_param,generic_param::sub_param>::subsubsubpath {
        fn method() { }
        fn method() -> path { }
        fn method() -> path::subpath::subsubpath { }
        fn method() -> path::subpath::subsubpath<generic_param::sub_param>::subsubsubpath { }
        fn method<T>() -> path::subpath::subsubpath<generic_param::sub_param>::subsubsubpath where T: path::to::interface { }
        fn method<T>() -> path::subpath::subsubpath<generic_param::sub_param>::subsubsubpath where T: path::to::interface + path::to::interface { }
        fn method<T>() -> path::subpath::subsubpath<generic_param::sub_param>::subsubsubpath where T: path::to::interface, { }
        fn method<T>() -> path::subpath::subsubpath<generic_param::sub_param>::subsubsubpath where T: path::to::interface + path::to::interface, { }
        fn method<T, U,>() -> path::subpath::subsubpath<generic_param::sub_param>::subsubsubpath where T: path::to::interface, U: path::to::interface { }
        fn method<T, U,>() -> path::subpath::subsubpath<generic_param::sub_param>::subsubsubpath where T: path::to::interface, U: path::to::interface, { }
        fn method<T, U,>() -> path::subpath::subsubpath<generic_param::sub_param>::subsubsubpath where T: path::to::interface + path::to::interface, U: path::to::interface + path::to::interface { }
        fn method<T, U,>() -> path::subpath::subsubpath<generic_param::sub_param>::subsubsubpath where T: path::to::interface + path::to::interface, U: path::to::interface + path::to::interface, { }

        fn method(param: path) { }
        fn method(param: path::subpath::subsubpath) { }
        fn method(param: path::subpath::subsubpath<generic_param::sub_param>::subsubsubpath) { }
        fn method<T>(param: path::subpath::subsubpath<generic_param::sub_param>::subsubsubpath) where T: path::to::interface { }
        fn method<T, U,>(param: path::subpath::subsubpath<generic_param::sub_param>::subsubsubpath) where T: path::to::interface, U: path::to::interface { }

        fn method(param: path, param: path,) { }
        fn method(param: path::subpath::subsubpath, param: path::subpath::subsubpath,) { }
        fn method(param: path::subpath::subsubpath<generic_param::sub_param>::subsubsubpath, param: path::subpath::subsubpath<generic_param::sub_param>::subsubsubpath,) { }
        fn method<T>(param: path::subpath::subsubpath<generic_param::sub_param>::subsubsubpath, param: path::subpath::subsubpath<generic_param::sub_param>::subsubsubpath,) where T: path::to::interface { }
        fn method<T, U,>(param: path::subpath::subsubpath<generic_param::sub_param>::subsubsubpath, param: path::subpath::subsubpath<generic_param::sub_param>::subsubsubpath,) where T: path::to::interface, U: path::to::interface { }

        fn method(param: path, param: path, param: path,) -> path { }
        fn method(param: path::subpath::subsubpath, param: path::subpath::subsubpath, param: path::subpath::subsubpath,) -> path::subpath::subsubpath { }
        fn method(param: path::subpath::subsubpath<generic_param::sub_param>::subsubsubpath, param: path::subpath::subsubpath<generic_param::sub_param>::subsubsubpath, param: path::subpath::subsubpath<generic_param::sub_param>::subsubsubpath,) -> path::subpath::subsubpath<generic_param::sub_param>::subsubsubpath { }
        fn method<T>(param: path::subpath::subsubpath<generic_param::sub_param>::subsubsubpath, param: path::subpath::subsubpath<generic_param::sub_param>::subsubsubpath, param: path::subpath::subsubpath<generic_param::sub_param>::subsubsubpath,) -> path::subpath::subsubpath<generic_param::sub_param>::subsubsubpath where T: path::to::interface { }
        fn method<T, U,>(param: path::subpath::subsubpath<generic_param::sub_param>::subsubsubpath, param: path::subpath::subsubpath<generic_param::sub_param>::subsubsubpath, param: path::subpath::subsubpath<generic_param::sub_param>::subsubsubpath,) -> path::subpath::subsubpath<generic_param::sub_param>::subsubsubpath where T: path::to::interface, U: path::to::interface { }
    }
    impl path::subpath::subsubpath<generic_param::sub_param,generic_param::sub_param,>::subsubsubpath {
        fn method() { }
        fn method() -> path { }
        fn method() -> path::subpath::subsubpath { }
        fn method() -> path::subpath::subsubpath<generic_param::sub_param>::subsubsubpath { }
        fn method<T>() -> path::subpath::subsubpath<generic_param::sub_param>::subsubsubpath where T: path::to::interface { }
        fn method<T>() -> path::subpath::subsubpath<generic_param::sub_param>::subsubsubpath where T: path::to::interface + path::to::interface { }
        fn method<T>() -> path::subpath::subsubpath<generic_param::sub_param>::subsubsubpath where T: path::to::interface, { }
        fn method<T>() -> path::subpath::subsubpath<generic_param::sub_param>::subsubsubpath where T: path::to::interface + path::to::interface, { }
        fn method<T, U,>() -> path::subpath::subsubpath<generic_param::sub_param>::subsubsubpath where T: path::to::interface, U: path::to::interface { }
        fn method<T, U,>() -> path::subpath::subsubpath<generic_param::sub_param>::subsubsubpath where T: path::to::interface, U: path::to::interface, { }
        fn method<T, U,>() -> path::subpath::subsubpath<generic_param::sub_param>::subsubsubpath where T: path::to::interface + path::to::interface, U: path::to::interface + path::to::interface { }
        fn method<T, U,>() -> path::subpath::subsubpath<generic_param::sub_param>::subsubsubpath where T: path::to::interface + path::to::interface, U: path::to::interface + path::to::interface, { }

        fn method(param: path) { }
        fn method(param: path::subpath::subsubpath) { }
        fn method(param: path::subpath::subsubpath<generic_param::sub_param>::subsubsubpath) { }
        fn method<T>(param: path::subpath::subsubpath<generic_param::sub_param>::subsubsubpath) where T: path::to::interface { }
        fn method<T, U,>(param: path::subpath::subsubpath<generic_param::sub_param>::subsubsubpath) where T: path::to::interface, U: path::to::interface { }

        fn method(param: path, param: path,) { }
        fn method(param: path::subpath::subsubpath, param: path::subpath::subsubpath,) { }
        fn method(param: path::subpath::subsubpath<generic_param::sub_param>::subsubsubpath, param: path::subpath::subsubpath<generic_param::sub_param>::subsubsubpath,) { }
        fn method<T>(param: path::subpath::subsubpath<generic_param::sub_param>::subsubsubpath, param: path::subpath::subsubpath<generic_param::sub_param>::subsubsubpath,) where T: path::to::interface { }
        fn method<T, U,>(param: path::subpath::subsubpath<generic_param::sub_param>::subsubsubpath, param: path::subpath::subsubpath<generic_param::sub_param>::subsubsubpath,) where T: path::to::interface, U: path::to::interface { }

        fn method(param: path, param: path, param: path,) -> path { }
        fn method(param: path::subpath::subsubpath, param: path::subpath::subsubpath, param: path::subpath::subsubpath,) -> path::subpath::subsubpath { }
        fn method(param: path::subpath::subsubpath<generic_param::sub_param>::subsubsubpath, param: path::subpath::subsubpath<generic_param::sub_param>::subsubsubpath, param: path::subpath::subsubpath<generic_param::sub_param>::subsubsubpath,) -> path::subpath::subsubpath<generic_param::sub_param>::subsubsubpath { }
        fn method<T>(param: path::subpath::subsubpath<generic_param::sub_param>::subsubsubpath, param: path::subpath::subsubpath<generic_param::sub_param>::subsubsubpath, param: path::subpath::subsubpath<generic_param::sub_param>::subsubsubpath,) -> path::subpath::subsubpath<generic_param::sub_param>::subsubsubpath where T: path::to::interface { }
        fn method<T, U,>(param: path::subpath::subsubpath<generic_param::sub_param>::subsubsubpath, param: path::subpath::subsubpath<generic_param::sub_param>::subsubsubpath, param: path::subpath::subsubpath<generic_param::sub_param>::subsubsubpath,) -> path::subpath::subsubpath<generic_param::sub_param>::subsubsubpath where T: path::to::interface, U: path::to::interface { }
    }
";

    let ast = parse_module_for_test(CONTENT);
    assert_eq!(ast.items.len(), 24);

    for item in ast.items.iter() {
        match item.kind {
            ASTModuleItemKind::ImplBlock(_) => {}
            _ => panic!("expected impl module item"),
        }
    }
}

#[test]
fn test_module_item_interface() {
    const CONTENT: &'static str = "
    interface foo { }
    interface foo {
        fn foo();
        fn foo() -> path;
        fn foo() -> path::subpath::subsubpath;
        fn foo() -> path::subpath::subsubpath<generic_param::sub_param>::subsubsubpath;
        fn foo<T>() -> path::subpath::subsubpath<generic_param::sub_param>::subsubsubpath where T: path::to::interface;
        fn foo<T>() -> path::subpath::subsubpath<generic_param::sub_param>::subsubsubpath where T: path::to::interface + path::to::interface;
        fn foo<T>() -> path::subpath::subsubpath<generic_param::sub_param>::subsubsubpath where T: path::to::interface,;
        fn foo<T>() -> path::subpath::subsubpath<generic_param::sub_param>::subsubsubpath where T: path::to::interface + path::to::interface,;
        fn foo<T, U,>() -> path::subpath::subsubpath<generic_param::sub_param>::subsubsubpath where T: path::to::interface, U: path::to::interface;
        fn foo<T, U,>() -> path::subpath::subsubpath<generic_param::sub_param>::subsubsubpath where T: path::to::interface, U: path::to::interface,;
        fn foo<T, U,>() -> path::subpath::subsubpath<generic_param::sub_param>::subsubsubpath where T: path::to::interface + path::to::interface, U: path::to::interface + path::to::interface;
        fn foo<T, U,>() -> path::subpath::subsubpath<generic_param::sub_param>::subsubsubpath where T: path::to::interface + path::to::interface, U: path::to::interface + path::to::interface,;
    }
    interface foo<T> {
        fn foo();
        fn foo() -> path;
        fn foo() -> path::subpath::subsubpath;
        fn foo() -> path::subpath::subsubpath<generic_param::sub_param>::subsubsubpath;
        fn foo<T>() -> path::subpath::subsubpath<generic_param::sub_param>::subsubsubpath where T: path::to::interface;
        fn foo<T>() -> path::subpath::subsubpath<generic_param::sub_param>::subsubsubpath where T: path::to::interface + path::to::interface;
        fn foo<T>() -> path::subpath::subsubpath<generic_param::sub_param>::subsubsubpath where T: path::to::interface,;
        fn foo<T>() -> path::subpath::subsubpath<generic_param::sub_param>::subsubsubpath where T: path::to::interface + path::to::interface,;
        fn foo<T, U,>() -> path::subpath::subsubpath<generic_param::sub_param>::subsubsubpath where T: path::to::interface, U: path::to::interface;
        fn foo<T, U,>() -> path::subpath::subsubpath<generic_param::sub_param>::subsubsubpath where T: path::to::interface, U: path::to::interface,;
        fn foo<T, U,>() -> path::subpath::subsubpath<generic_param::sub_param>::subsubsubpath where T: path::to::interface + path::to::interface, U: path::to::interface + path::to::interface;
        fn foo<T, U,>() -> path::subpath::subsubpath<generic_param::sub_param>::subsubsubpath where T: path::to::interface + path::to::interface, U: path::to::interface + path::to::interface,;
    }
    interface foo<T,> {
        fn foo();
        fn foo() -> path;
        fn foo() -> path::subpath::subsubpath;
        fn foo() -> path::subpath::subsubpath<generic_param::sub_param>::subsubsubpath;
        fn foo<T>() -> path::subpath::subsubpath<generic_param::sub_param>::subsubsubpath where T: path::to::interface;
        fn foo<T>() -> path::subpath::subsubpath<generic_param::sub_param>::subsubsubpath where T: path::to::interface + path::to::interface;
        fn foo<T>() -> path::subpath::subsubpath<generic_param::sub_param>::subsubsubpath where T: path::to::interface,;
        fn foo<T>() -> path::subpath::subsubpath<generic_param::sub_param>::subsubsubpath where T: path::to::interface + path::to::interface,;
        fn foo<T, U,>() -> path::subpath::subsubpath<generic_param::sub_param>::subsubsubpath where T: path::to::interface, U: path::to::interface;
        fn foo<T, U,>() -> path::subpath::subsubpath<generic_param::sub_param>::subsubsubpath where T: path::to::interface, U: path::to::interface,;
        fn foo<T, U,>() -> path::subpath::subsubpath<generic_param::sub_param>::subsubsubpath where T: path::to::interface + path::to::interface, U: path::to::interface + path::to::interface;
        fn foo<T, U,>() -> path::subpath::subsubpath<generic_param::sub_param>::subsubsubpath where T: path::to::interface + path::to::interface, U: path::to::interface + path::to::interface,;
    }
    interface foo<T, U> {
        fn foo();
        fn foo() -> path;
        fn foo() -> path::subpath::subsubpath;
        fn foo() -> path::subpath::subsubpath<generic_param::sub_param>::subsubsubpath;
        fn foo<T>() -> path::subpath::subsubpath<generic_param::sub_param>::subsubsubpath where T: path::to::interface;
        fn foo<T>() -> path::subpath::subsubpath<generic_param::sub_param>::subsubsubpath where T: path::to::interface + path::to::interface;
        fn foo<T>() -> path::subpath::subsubpath<generic_param::sub_param>::subsubsubpath where T: path::to::interface,;
        fn foo<T>() -> path::subpath::subsubpath<generic_param::sub_param>::subsubsubpath where T: path::to::interface + path::to::interface,;
        fn foo<T, U,>() -> path::subpath::subsubpath<generic_param::sub_param>::subsubsubpath where T: path::to::interface, U: path::to::interface;
        fn foo<T, U,>() -> path::subpath::subsubpath<generic_param::sub_param>::subsubsubpath where T: path::to::interface, U: path::to::interface,;
        fn foo<T, U,>() -> path::subpath::subsubpath<generic_param::sub_param>::subsubsubpath where T: path::to::interface + path::to::interface, U: path::to::interface + path::to::interface;
        fn foo<T, U,>() -> path::subpath::subsubpath<generic_param::sub_param>::subsubsubpath where T: path::to::interface + path::to::interface, U: path::to::interface + path::to::interface,;
    }
    interface foo<T, U,> {
        fn foo();
        fn foo() -> path;
        fn foo() -> path::subpath::subsubpath;
        fn foo() -> path::subpath::subsubpath<generic_param::sub_param>::subsubsubpath;
        fn foo<T>() -> path::subpath::subsubpath<generic_param::sub_param>::subsubsubpath where T: path::to::interface;
        fn foo<T>() -> path::subpath::subsubpath<generic_param::sub_param>::subsubsubpath where T: path::to::interface + path::to::interface;
        fn foo<T>() -> path::subpath::subsubpath<generic_param::sub_param>::subsubsubpath where T: path::to::interface,;
        fn foo<T>() -> path::subpath::subsubpath<generic_param::sub_param>::subsubsubpath where T: path::to::interface + path::to::interface,;
        fn foo<T, U,>() -> path::subpath::subsubpath<generic_param::sub_param>::subsubsubpath where T: path::to::interface, U: path::to::interface;
        fn foo<T, U,>() -> path::subpath::subsubpath<generic_param::sub_param>::subsubsubpath where T: path::to::interface, U: path::to::interface,;
        fn foo<T, U,>() -> path::subpath::subsubpath<generic_param::sub_param>::subsubsubpath where T: path::to::interface + path::to::interface, U: path::to::interface + path::to::interface;
        fn foo<T, U,>() -> path::subpath::subsubpath<generic_param::sub_param>::subsubsubpath where T: path::to::interface + path::to::interface, U: path::to::interface + path::to::interface,;
    }
    interface foo<T, U,> where T: path::to::interface {
        fn foo();
        fn foo() -> path;
        fn foo() -> path::subpath::subsubpath;
        fn foo() -> path::subpath::subsubpath<generic_param::sub_param>::subsubsubpath;
        fn foo<T>() -> path::subpath::subsubpath<generic_param::sub_param>::subsubsubpath where T: path::to::interface;
        fn foo<T>() -> path::subpath::subsubpath<generic_param::sub_param>::subsubsubpath where T: path::to::interface + path::to::interface;
        fn foo<T>() -> path::subpath::subsubpath<generic_param::sub_param>::subsubsubpath where T: path::to::interface,;
        fn foo<T>() -> path::subpath::subsubpath<generic_param::sub_param>::subsubsubpath where T: path::to::interface + path::to::interface,;
        fn foo<T, U,>() -> path::subpath::subsubpath<generic_param::sub_param>::subsubsubpath where T: path::to::interface, U: path::to::interface;
        fn foo<T, U,>() -> path::subpath::subsubpath<generic_param::sub_param>::subsubsubpath where T: path::to::interface, U: path::to::interface,;
        fn foo<T, U,>() -> path::subpath::subsubpath<generic_param::sub_param>::subsubsubpath where T: path::to::interface + path::to::interface, U: path::to::interface + path::to::interface;
        fn foo<T, U,>() -> path::subpath::subsubpath<generic_param::sub_param>::subsubsubpath where T: path::to::interface + path::to::interface, U: path::to::interface + path::to::interface,;
    }
    interface foo<T, U,> where T: path::to::interface, {
        fn foo();
        fn foo() -> path;
        fn foo() -> path::subpath::subsubpath;
        fn foo() -> path::subpath::subsubpath<generic_param::sub_param>::subsubsubpath;
        fn foo<T>() -> path::subpath::subsubpath<generic_param::sub_param>::subsubsubpath where T: path::to::interface;
        fn foo<T>() -> path::subpath::subsubpath<generic_param::sub_param>::subsubsubpath where T: path::to::interface + path::to::interface;
        fn foo<T>() -> path::subpath::subsubpath<generic_param::sub_param>::subsubsubpath where T: path::to::interface,;
        fn foo<T>() -> path::subpath::subsubpath<generic_param::sub_param>::subsubsubpath where T: path::to::interface + path::to::interface,;
        fn foo<T, U,>() -> path::subpath::subsubpath<generic_param::sub_param>::subsubsubpath where T: path::to::interface, U: path::to::interface;
        fn foo<T, U,>() -> path::subpath::subsubpath<generic_param::sub_param>::subsubsubpath where T: path::to::interface, U: path::to::interface,;
        fn foo<T, U,>() -> path::subpath::subsubpath<generic_param::sub_param>::subsubsubpath where T: path::to::interface + path::to::interface, U: path::to::interface + path::to::interface;
        fn foo<T, U,>() -> path::subpath::subsubpath<generic_param::sub_param>::subsubsubpath where T: path::to::interface + path::to::interface, U: path::to::interface + path::to::interface,;
    }
    interface foo<T, U,> where T: path::to::interface + path::to::interface {
        fn foo();
        fn foo() -> path;
        fn foo() -> path::subpath::subsubpath;
        fn foo() -> path::subpath::subsubpath<generic_param::sub_param>::subsubsubpath;
        fn foo<T>() -> path::subpath::subsubpath<generic_param::sub_param>::subsubsubpath where T: path::to::interface;
        fn foo<T>() -> path::subpath::subsubpath<generic_param::sub_param>::subsubsubpath where T: path::to::interface + path::to::interface;
        fn foo<T>() -> path::subpath::subsubpath<generic_param::sub_param>::subsubsubpath where T: path::to::interface,;
        fn foo<T>() -> path::subpath::subsubpath<generic_param::sub_param>::subsubsubpath where T: path::to::interface + path::to::interface,;
        fn foo<T, U,>() -> path::subpath::subsubpath<generic_param::sub_param>::subsubsubpath where T: path::to::interface, U: path::to::interface;
        fn foo<T, U,>() -> path::subpath::subsubpath<generic_param::sub_param>::subsubsubpath where T: path::to::interface, U: path::to::interface,;
        fn foo<T, U,>() -> path::subpath::subsubpath<generic_param::sub_param>::subsubsubpath where T: path::to::interface + path::to::interface, U: path::to::interface + path::to::interface;
        fn foo<T, U,>() -> path::subpath::subsubpath<generic_param::sub_param>::subsubsubpath where T: path::to::interface + path::to::interface, U: path::to::interface + path::to::interface,;
    }
    interface foo<T, U,> where T: path::to::interface + path::to::interface, {
        fn foo();
        fn foo() -> path;
        fn foo() -> path::subpath::subsubpath;
        fn foo() -> path::subpath::subsubpath<generic_param::sub_param>::subsubsubpath;
        fn foo<T>() -> path::subpath::subsubpath<generic_param::sub_param>::subsubsubpath where T: path::to::interface;
        fn foo<T>() -> path::subpath::subsubpath<generic_param::sub_param>::subsubsubpath where T: path::to::interface + path::to::interface;
        fn foo<T>() -> path::subpath::subsubpath<generic_param::sub_param>::subsubsubpath where T: path::to::interface,;
        fn foo<T>() -> path::subpath::subsubpath<generic_param::sub_param>::subsubsubpath where T: path::to::interface + path::to::interface,;
        fn foo<T, U,>() -> path::subpath::subsubpath<generic_param::sub_param>::subsubsubpath where T: path::to::interface, U: path::to::interface;
        fn foo<T, U,>() -> path::subpath::subsubpath<generic_param::sub_param>::subsubsubpath where T: path::to::interface, U: path::to::interface,;
        fn foo<T, U,>() -> path::subpath::subsubpath<generic_param::sub_param>::subsubsubpath where T: path::to::interface + path::to::interface, U: path::to::interface + path::to::interface;
        fn foo<T, U,>() -> path::subpath::subsubpath<generic_param::sub_param>::subsubsubpath where T: path::to::interface + path::to::interface, U: path::to::interface + path::to::interface,;
    }
    interface foo<T, U,> where T: path::to::interface + path::to::interface, U: path::to::interface {
        fn foo();
        fn foo() -> path;
        fn foo() -> path::subpath::subsubpath;
        fn foo() -> path::subpath::subsubpath<generic_param::sub_param>::subsubsubpath;
        fn foo<T>() -> path::subpath::subsubpath<generic_param::sub_param>::subsubsubpath where T: path::to::interface;
        fn foo<T>() -> path::subpath::subsubpath<generic_param::sub_param>::subsubsubpath where T: path::to::interface + path::to::interface;
        fn foo<T>() -> path::subpath::subsubpath<generic_param::sub_param>::subsubsubpath where T: path::to::interface,;
        fn foo<T>() -> path::subpath::subsubpath<generic_param::sub_param>::subsubsubpath where T: path::to::interface + path::to::interface,;
        fn foo<T, U,>() -> path::subpath::subsubpath<generic_param::sub_param>::subsubsubpath where T: path::to::interface, U: path::to::interface;
        fn foo<T, U,>() -> path::subpath::subsubpath<generic_param::sub_param>::subsubsubpath where T: path::to::interface, U: path::to::interface,;
        fn foo<T, U,>() -> path::subpath::subsubpath<generic_param::sub_param>::subsubsubpath where T: path::to::interface + path::to::interface, U: path::to::interface + path::to::interface;
        fn foo<T, U,>() -> path::subpath::subsubpath<generic_param::sub_param>::subsubsubpath where T: path::to::interface + path::to::interface, U: path::to::interface + path::to::interface,;
    }
    interface foo<T, U,> where T: path::to::interface + path::to::interface, U: path::to::interface, {
        fn foo();
        fn foo() -> path;
        fn foo() -> path::subpath::subsubpath;
        fn foo() -> path::subpath::subsubpath<generic_param::sub_param>::subsubsubpath;
        fn foo<T>() -> path::subpath::subsubpath<generic_param::sub_param>::subsubsubpath where T: path::to::interface;
        fn foo<T>() -> path::subpath::subsubpath<generic_param::sub_param>::subsubsubpath where T: path::to::interface + path::to::interface;
        fn foo<T>() -> path::subpath::subsubpath<generic_param::sub_param>::subsubsubpath where T: path::to::interface,;
        fn foo<T>() -> path::subpath::subsubpath<generic_param::sub_param>::subsubsubpath where T: path::to::interface + path::to::interface,;
        fn foo<T, U,>() -> path::subpath::subsubpath<generic_param::sub_param>::subsubsubpath where T: path::to::interface, U: path::to::interface;
        fn foo<T, U,>() -> path::subpath::subsubpath<generic_param::sub_param>::subsubsubpath where T: path::to::interface, U: path::to::interface,;
        fn foo<T, U,>() -> path::subpath::subsubpath<generic_param::sub_param>::subsubsubpath where T: path::to::interface + path::to::interface, U: path::to::interface + path::to::interface;
        fn foo<T, U,>() -> path::subpath::subsubpath<generic_param::sub_param>::subsubsubpath where T: path::to::interface + path::to::interface, U: path::to::interface + path::to::interface,;
    }
    interface foo<T, U,> where T: path::to::interface + path::to::interface, U: path::to::interface + path::to::interface {
        fn foo();
        fn foo() -> path;
        fn foo() -> path::subpath::subsubpath;
        fn foo() -> path::subpath::subsubpath<generic_param::sub_param>::subsubsubpath;
        fn foo<T>() -> path::subpath::subsubpath<generic_param::sub_param>::subsubsubpath where T: path::to::interface;
        fn foo<T>() -> path::subpath::subsubpath<generic_param::sub_param>::subsubsubpath where T: path::to::interface + path::to::interface;
        fn foo<T>() -> path::subpath::subsubpath<generic_param::sub_param>::subsubsubpath where T: path::to::interface,;
        fn foo<T>() -> path::subpath::subsubpath<generic_param::sub_param>::subsubsubpath where T: path::to::interface + path::to::interface,;
        fn foo<T, U,>() -> path::subpath::subsubpath<generic_param::sub_param>::subsubsubpath where T: path::to::interface, U: path::to::interface;
        fn foo<T, U,>() -> path::subpath::subsubpath<generic_param::sub_param>::subsubsubpath where T: path::to::interface, U: path::to::interface,;
        fn foo<T, U,>() -> path::subpath::subsubpath<generic_param::sub_param>::subsubsubpath where T: path::to::interface + path::to::interface, U: path::to::interface + path::to::interface;
        fn foo<T, U,>() -> path::subpath::subsubpath<generic_param::sub_param>::subsubsubpath where T: path::to::interface + path::to::interface, U: path::to::interface + path::to::interface,;
    }
    interface foo<T, U,> where T: path::to::interface + path::to::interface, U: path::to::interface + path::to::interface, {
        fn foo();
        fn foo() -> path;
        fn foo() -> path::subpath::subsubpath;
        fn foo() -> path::subpath::subsubpath<generic_param::sub_param>::subsubsubpath;
        fn foo<T>() -> path::subpath::subsubpath<generic_param::sub_param>::subsubsubpath where T: path::to::interface;
        fn foo<T>() -> path::subpath::subsubpath<generic_param::sub_param>::subsubsubpath where T: path::to::interface + path::to::interface;
        fn foo<T>() -> path::subpath::subsubpath<generic_param::sub_param>::subsubsubpath where T: path::to::interface,;
        fn foo<T>() -> path::subpath::subsubpath<generic_param::sub_param>::subsubsubpath where T: path::to::interface + path::to::interface,;
        fn foo<T, U,>() -> path::subpath::subsubpath<generic_param::sub_param>::subsubsubpath where T: path::to::interface, U: path::to::interface;
        fn foo<T, U,>() -> path::subpath::subsubpath<generic_param::sub_param>::subsubsubpath where T: path::to::interface, U: path::to::interface,;
        fn foo<T, U,>() -> path::subpath::subsubpath<generic_param::sub_param>::subsubsubpath where T: path::to::interface + path::to::interface, U: path::to::interface + path::to::interface;
        fn foo<T, U,>() -> path::subpath::subsubpath<generic_param::sub_param>::subsubsubpath where T: path::to::interface + path::to::interface, U: path::to::interface + path::to::interface,;
    }

    pub interface foo { }
    pub interface foo {
        fn foo();
        fn foo() -> path;
        fn foo() -> path::subpath::subsubpath;
        fn foo() -> path::subpath::subsubpath<generic_param::sub_param>::subsubsubpath;
        fn foo<T>() -> path::subpath::subsubpath<generic_param::sub_param>::subsubsubpath where T: path::to::interface;
        fn foo<T>() -> path::subpath::subsubpath<generic_param::sub_param>::subsubsubpath where T: path::to::interface + path::to::interface;
        fn foo<T>() -> path::subpath::subsubpath<generic_param::sub_param>::subsubsubpath where T: path::to::interface,;
        fn foo<T>() -> path::subpath::subsubpath<generic_param::sub_param>::subsubsubpath where T: path::to::interface + path::to::interface,;
        fn foo<T, U,>() -> path::subpath::subsubpath<generic_param::sub_param>::subsubsubpath where T: path::to::interface, U: path::to::interface;
        fn foo<T, U,>() -> path::subpath::subsubpath<generic_param::sub_param>::subsubsubpath where T: path::to::interface, U: path::to::interface,;
        fn foo<T, U,>() -> path::subpath::subsubpath<generic_param::sub_param>::subsubsubpath where T: path::to::interface + path::to::interface, U: path::to::interface + path::to::interface;
        fn foo<T, U,>() -> path::subpath::subsubpath<generic_param::sub_param>::subsubsubpath where T: path::to::interface + path::to::interface, U: path::to::interface + path::to::interface,;
    }
    pub interface foo<T> {
        fn foo();
        fn foo() -> path;
        fn foo() -> path::subpath::subsubpath;
        fn foo() -> path::subpath::subsubpath<generic_param::sub_param>::subsubsubpath;
        fn foo<T>() -> path::subpath::subsubpath<generic_param::sub_param>::subsubsubpath where T: path::to::interface;
        fn foo<T>() -> path::subpath::subsubpath<generic_param::sub_param>::subsubsubpath where T: path::to::interface + path::to::interface;
        fn foo<T>() -> path::subpath::subsubpath<generic_param::sub_param>::subsubsubpath where T: path::to::interface,;
        fn foo<T>() -> path::subpath::subsubpath<generic_param::sub_param>::subsubsubpath where T: path::to::interface + path::to::interface,;
        fn foo<T, U,>() -> path::subpath::subsubpath<generic_param::sub_param>::subsubsubpath where T: path::to::interface, U: path::to::interface;
        fn foo<T, U,>() -> path::subpath::subsubpath<generic_param::sub_param>::subsubsubpath where T: path::to::interface, U: path::to::interface,;
        fn foo<T, U,>() -> path::subpath::subsubpath<generic_param::sub_param>::subsubsubpath where T: path::to::interface + path::to::interface, U: path::to::interface + path::to::interface;
        fn foo<T, U,>() -> path::subpath::subsubpath<generic_param::sub_param>::subsubsubpath where T: path::to::interface + path::to::interface, U: path::to::interface + path::to::interface,;
    }
    pub interface foo<T,> {
        fn foo();
        fn foo() -> path;
        fn foo() -> path::subpath::subsubpath;
        fn foo() -> path::subpath::subsubpath<generic_param::sub_param>::subsubsubpath;
        fn foo<T>() -> path::subpath::subsubpath<generic_param::sub_param>::subsubsubpath where T: path::to::interface;
        fn foo<T>() -> path::subpath::subsubpath<generic_param::sub_param>::subsubsubpath where T: path::to::interface + path::to::interface;
        fn foo<T>() -> path::subpath::subsubpath<generic_param::sub_param>::subsubsubpath where T: path::to::interface,;
        fn foo<T>() -> path::subpath::subsubpath<generic_param::sub_param>::subsubsubpath where T: path::to::interface + path::to::interface,;
        fn foo<T, U,>() -> path::subpath::subsubpath<generic_param::sub_param>::subsubsubpath where T: path::to::interface, U: path::to::interface;
        fn foo<T, U,>() -> path::subpath::subsubpath<generic_param::sub_param>::subsubsubpath where T: path::to::interface, U: path::to::interface,;
        fn foo<T, U,>() -> path::subpath::subsubpath<generic_param::sub_param>::subsubsubpath where T: path::to::interface + path::to::interface, U: path::to::interface + path::to::interface;
        fn foo<T, U,>() -> path::subpath::subsubpath<generic_param::sub_param>::subsubsubpath where T: path::to::interface + path::to::interface, U: path::to::interface + path::to::interface,;
    }
    pub interface foo<T, U> {
        fn foo();
        fn foo() -> path;
        fn foo() -> path::subpath::subsubpath;
        fn foo() -> path::subpath::subsubpath<generic_param::sub_param>::subsubsubpath;
        fn foo<T>() -> path::subpath::subsubpath<generic_param::sub_param>::subsubsubpath where T: path::to::interface;
        fn foo<T>() -> path::subpath::subsubpath<generic_param::sub_param>::subsubsubpath where T: path::to::interface + path::to::interface;
        fn foo<T>() -> path::subpath::subsubpath<generic_param::sub_param>::subsubsubpath where T: path::to::interface,;
        fn foo<T>() -> path::subpath::subsubpath<generic_param::sub_param>::subsubsubpath where T: path::to::interface + path::to::interface,;
        fn foo<T, U,>() -> path::subpath::subsubpath<generic_param::sub_param>::subsubsubpath where T: path::to::interface, U: path::to::interface;
        fn foo<T, U,>() -> path::subpath::subsubpath<generic_param::sub_param>::subsubsubpath where T: path::to::interface, U: path::to::interface,;
        fn foo<T, U,>() -> path::subpath::subsubpath<generic_param::sub_param>::subsubsubpath where T: path::to::interface + path::to::interface, U: path::to::interface + path::to::interface;
        fn foo<T, U,>() -> path::subpath::subsubpath<generic_param::sub_param>::subsubsubpath where T: path::to::interface + path::to::interface, U: path::to::interface + path::to::interface,;
    }
    pub interface foo<T, U,> {
        fn foo();
        fn foo() -> path;
        fn foo() -> path::subpath::subsubpath;
        fn foo() -> path::subpath::subsubpath<generic_param::sub_param>::subsubsubpath;
        fn foo<T>() -> path::subpath::subsubpath<generic_param::sub_param>::subsubsubpath where T: path::to::interface;
        fn foo<T>() -> path::subpath::subsubpath<generic_param::sub_param>::subsubsubpath where T: path::to::interface + path::to::interface;
        fn foo<T>() -> path::subpath::subsubpath<generic_param::sub_param>::subsubsubpath where T: path::to::interface,;
        fn foo<T>() -> path::subpath::subsubpath<generic_param::sub_param>::subsubsubpath where T: path::to::interface + path::to::interface,;
        fn foo<T, U,>() -> path::subpath::subsubpath<generic_param::sub_param>::subsubsubpath where T: path::to::interface, U: path::to::interface;
        fn foo<T, U,>() -> path::subpath::subsubpath<generic_param::sub_param>::subsubsubpath where T: path::to::interface, U: path::to::interface,;
        fn foo<T, U,>() -> path::subpath::subsubpath<generic_param::sub_param>::subsubsubpath where T: path::to::interface + path::to::interface, U: path::to::interface + path::to::interface;
        fn foo<T, U,>() -> path::subpath::subsubpath<generic_param::sub_param>::subsubsubpath where T: path::to::interface + path::to::interface, U: path::to::interface + path::to::interface,;
    }
    pub interface foo<T, U,> where T: path::to::interface {
        fn foo();
        fn foo() -> path;
        fn foo() -> path::subpath::subsubpath;
        fn foo() -> path::subpath::subsubpath<generic_param::sub_param>::subsubsubpath;
        fn foo<T>() -> path::subpath::subsubpath<generic_param::sub_param>::subsubsubpath where T: path::to::interface;
        fn foo<T>() -> path::subpath::subsubpath<generic_param::sub_param>::subsubsubpath where T: path::to::interface + path::to::interface;
        fn foo<T>() -> path::subpath::subsubpath<generic_param::sub_param>::subsubsubpath where T: path::to::interface,;
        fn foo<T>() -> path::subpath::subsubpath<generic_param::sub_param>::subsubsubpath where T: path::to::interface + path::to::interface,;
        fn foo<T, U,>() -> path::subpath::subsubpath<generic_param::sub_param>::subsubsubpath where T: path::to::interface, U: path::to::interface;
        fn foo<T, U,>() -> path::subpath::subsubpath<generic_param::sub_param>::subsubsubpath where T: path::to::interface, U: path::to::interface,;
        fn foo<T, U,>() -> path::subpath::subsubpath<generic_param::sub_param>::subsubsubpath where T: path::to::interface + path::to::interface, U: path::to::interface + path::to::interface;
        fn foo<T, U,>() -> path::subpath::subsubpath<generic_param::sub_param>::subsubsubpath where T: path::to::interface + path::to::interface, U: path::to::interface + path::to::interface,;
    }
    pub interface foo<T, U,> where T: path::to::interface, {
        fn foo();
        fn foo() -> path;
        fn foo() -> path::subpath::subsubpath;
        fn foo() -> path::subpath::subsubpath<generic_param::sub_param>::subsubsubpath;
        fn foo<T>() -> path::subpath::subsubpath<generic_param::sub_param>::subsubsubpath where T: path::to::interface;
        fn foo<T>() -> path::subpath::subsubpath<generic_param::sub_param>::subsubsubpath where T: path::to::interface + path::to::interface;
        fn foo<T>() -> path::subpath::subsubpath<generic_param::sub_param>::subsubsubpath where T: path::to::interface,;
        fn foo<T>() -> path::subpath::subsubpath<generic_param::sub_param>::subsubsubpath where T: path::to::interface + path::to::interface,;
        fn foo<T, U,>() -> path::subpath::subsubpath<generic_param::sub_param>::subsubsubpath where T: path::to::interface, U: path::to::interface;
        fn foo<T, U,>() -> path::subpath::subsubpath<generic_param::sub_param>::subsubsubpath where T: path::to::interface, U: path::to::interface,;
        fn foo<T, U,>() -> path::subpath::subsubpath<generic_param::sub_param>::subsubsubpath where T: path::to::interface + path::to::interface, U: path::to::interface + path::to::interface;
        fn foo<T, U,>() -> path::subpath::subsubpath<generic_param::sub_param>::subsubsubpath where T: path::to::interface + path::to::interface, U: path::to::interface + path::to::interface,;
    }
    pub interface foo<T, U,> where T: path::to::interface + path::to::interface {
        fn foo();
        fn foo() -> path;
        fn foo() -> path::subpath::subsubpath;
        fn foo() -> path::subpath::subsubpath<generic_param::sub_param>::subsubsubpath;
        fn foo<T>() -> path::subpath::subsubpath<generic_param::sub_param>::subsubsubpath where T: path::to::interface;
        fn foo<T>() -> path::subpath::subsubpath<generic_param::sub_param>::subsubsubpath where T: path::to::interface + path::to::interface;
        fn foo<T>() -> path::subpath::subsubpath<generic_param::sub_param>::subsubsubpath where T: path::to::interface,;
        fn foo<T>() -> path::subpath::subsubpath<generic_param::sub_param>::subsubsubpath where T: path::to::interface + path::to::interface,;
        fn foo<T, U,>() -> path::subpath::subsubpath<generic_param::sub_param>::subsubsubpath where T: path::to::interface, U: path::to::interface;
        fn foo<T, U,>() -> path::subpath::subsubpath<generic_param::sub_param>::subsubsubpath where T: path::to::interface, U: path::to::interface,;
        fn foo<T, U,>() -> path::subpath::subsubpath<generic_param::sub_param>::subsubsubpath where T: path::to::interface + path::to::interface, U: path::to::interface + path::to::interface;
        fn foo<T, U,>() -> path::subpath::subsubpath<generic_param::sub_param>::subsubsubpath where T: path::to::interface + path::to::interface, U: path::to::interface + path::to::interface,;
    }
    pub interface foo<T, U,> where T: path::to::interface + path::to::interface, {
        fn foo();
        fn foo() -> path;
        fn foo() -> path::subpath::subsubpath;
        fn foo() -> path::subpath::subsubpath<generic_param::sub_param>::subsubsubpath;
        fn foo<T>() -> path::subpath::subsubpath<generic_param::sub_param>::subsubsubpath where T: path::to::interface;
        fn foo<T>() -> path::subpath::subsubpath<generic_param::sub_param>::subsubsubpath where T: path::to::interface + path::to::interface;
        fn foo<T>() -> path::subpath::subsubpath<generic_param::sub_param>::subsubsubpath where T: path::to::interface,;
        fn foo<T>() -> path::subpath::subsubpath<generic_param::sub_param>::subsubsubpath where T: path::to::interface + path::to::interface,;
        fn foo<T, U,>() -> path::subpath::subsubpath<generic_param::sub_param>::subsubsubpath where T: path::to::interface, U: path::to::interface;
        fn foo<T, U,>() -> path::subpath::subsubpath<generic_param::sub_param>::subsubsubpath where T: path::to::interface, U: path::to::interface,;
        fn foo<T, U,>() -> path::subpath::subsubpath<generic_param::sub_param>::subsubsubpath where T: path::to::interface + path::to::interface, U: path::to::interface + path::to::interface;
        fn foo<T, U,>() -> path::subpath::subsubpath<generic_param::sub_param>::subsubsubpath where T: path::to::interface + path::to::interface, U: path::to::interface + path::to::interface,;
    }
    pub interface foo<T, U,> where T: path::to::interface + path::to::interface, U: path::to::interface {
        fn foo();
        fn foo() -> path;
        fn foo() -> path::subpath::subsubpath;
        fn foo() -> path::subpath::subsubpath<generic_param::sub_param>::subsubsubpath;
        fn foo<T>() -> path::subpath::subsubpath<generic_param::sub_param>::subsubsubpath where T: path::to::interface;
        fn foo<T>() -> path::subpath::subsubpath<generic_param::sub_param>::subsubsubpath where T: path::to::interface + path::to::interface;
        fn foo<T>() -> path::subpath::subsubpath<generic_param::sub_param>::subsubsubpath where T: path::to::interface,;
        fn foo<T>() -> path::subpath::subsubpath<generic_param::sub_param>::subsubsubpath where T: path::to::interface + path::to::interface,;
        fn foo<T, U,>() -> path::subpath::subsubpath<generic_param::sub_param>::subsubsubpath where T: path::to::interface, U: path::to::interface;
        fn foo<T, U,>() -> path::subpath::subsubpath<generic_param::sub_param>::subsubsubpath where T: path::to::interface, U: path::to::interface,;
        fn foo<T, U,>() -> path::subpath::subsubpath<generic_param::sub_param>::subsubsubpath where T: path::to::interface + path::to::interface, U: path::to::interface + path::to::interface;
        fn foo<T, U,>() -> path::subpath::subsubpath<generic_param::sub_param>::subsubsubpath where T: path::to::interface + path::to::interface, U: path::to::interface + path::to::interface,;
    }
    pub interface foo<T, U,> where T: path::to::interface + path::to::interface, U: path::to::interface, {
        fn foo();
        fn foo() -> path;
        fn foo() -> path::subpath::subsubpath;
        fn foo() -> path::subpath::subsubpath<generic_param::sub_param>::subsubsubpath;
        fn foo<T>() -> path::subpath::subsubpath<generic_param::sub_param>::subsubsubpath where T: path::to::interface;
        fn foo<T>() -> path::subpath::subsubpath<generic_param::sub_param>::subsubsubpath where T: path::to::interface + path::to::interface;
        fn foo<T>() -> path::subpath::subsubpath<generic_param::sub_param>::subsubsubpath where T: path::to::interface,;
        fn foo<T>() -> path::subpath::subsubpath<generic_param::sub_param>::subsubsubpath where T: path::to::interface + path::to::interface,;
        fn foo<T, U,>() -> path::subpath::subsubpath<generic_param::sub_param>::subsubsubpath where T: path::to::interface, U: path::to::interface;
        fn foo<T, U,>() -> path::subpath::subsubpath<generic_param::sub_param>::subsubsubpath where T: path::to::interface, U: path::to::interface,;
        fn foo<T, U,>() -> path::subpath::subsubpath<generic_param::sub_param>::subsubsubpath where T: path::to::interface + path::to::interface, U: path::to::interface + path::to::interface;
        fn foo<T, U,>() -> path::subpath::subsubpath<generic_param::sub_param>::subsubsubpath where T: path::to::interface + path::to::interface, U: path::to::interface + path::to::interface,;
    }
    pub interface foo<T, U,> where T: path::to::interface + path::to::interface, U: path::to::interface + path::to::interface {
        fn foo();
        fn foo() -> path;
        fn foo() -> path::subpath::subsubpath;
        fn foo() -> path::subpath::subsubpath<generic_param::sub_param>::subsubsubpath;
        fn foo<T>() -> path::subpath::subsubpath<generic_param::sub_param>::subsubsubpath where T: path::to::interface;
        fn foo<T>() -> path::subpath::subsubpath<generic_param::sub_param>::subsubsubpath where T: path::to::interface + path::to::interface;
        fn foo<T>() -> path::subpath::subsubpath<generic_param::sub_param>::subsubsubpath where T: path::to::interface,;
        fn foo<T>() -> path::subpath::subsubpath<generic_param::sub_param>::subsubsubpath where T: path::to::interface + path::to::interface,;
        fn foo<T, U,>() -> path::subpath::subsubpath<generic_param::sub_param>::subsubsubpath where T: path::to::interface, U: path::to::interface;
        fn foo<T, U,>() -> path::subpath::subsubpath<generic_param::sub_param>::subsubsubpath where T: path::to::interface, U: path::to::interface,;
        fn foo<T, U,>() -> path::subpath::subsubpath<generic_param::sub_param>::subsubsubpath where T: path::to::interface + path::to::interface, U: path::to::interface + path::to::interface;
        fn foo<T, U,>() -> path::subpath::subsubpath<generic_param::sub_param>::subsubsubpath where T: path::to::interface + path::to::interface, U: path::to::interface + path::to::interface,;
    }
    pub interface foo<T, U,> where T: path::to::interface + path::to::interface, U: path::to::interface + path::to::interface, {
        fn foo();
        fn foo() -> path;
        fn foo() -> path::subpath::subsubpath;
        fn foo() -> path::subpath::subsubpath<generic_param::sub_param>::subsubsubpath;
        fn foo<T>() -> path::subpath::subsubpath<generic_param::sub_param>::subsubsubpath where T: path::to::interface;
        fn foo<T>() -> path::subpath::subsubpath<generic_param::sub_param>::subsubsubpath where T: path::to::interface + path::to::interface;
        fn foo<T>() -> path::subpath::subsubpath<generic_param::sub_param>::subsubsubpath where T: path::to::interface,;
        fn foo<T>() -> path::subpath::subsubpath<generic_param::sub_param>::subsubsubpath where T: path::to::interface + path::to::interface,;
        fn foo<T, U,>() -> path::subpath::subsubpath<generic_param::sub_param>::subsubsubpath where T: path::to::interface, U: path::to::interface;
        fn foo<T, U,>() -> path::subpath::subsubpath<generic_param::sub_param>::subsubsubpath where T: path::to::interface, U: path::to::interface,;
        fn foo<T, U,>() -> path::subpath::subsubpath<generic_param::sub_param>::subsubsubpath where T: path::to::interface + path::to::interface, U: path::to::interface + path::to::interface;
        fn foo<T, U,>() -> path::subpath::subsubpath<generic_param::sub_param>::subsubsubpath where T: path::to::interface + path::to::interface, U: path::to::interface + path::to::interface,;
    }
";

    let ast = parse_module_for_test(CONTENT);
    assert_eq!(ast.items.len(), 28);

    for item in ast.items.iter() {
        match item.kind {
            ASTModuleItemKind::InterfaceDef(_) => {}
            _ => panic!("expected interface module item"),
        }
    }
}

#[test]
fn test_module_item_use() {
    const CONTENT: &'static str = "
    use path;
    use path::subpath;
    use path::subpath::subsubpath;
    use path::subpath::subsubpath as alias;
    use path::{subpath, subpath2};
    use path::{subpath, subpath2,};
    use path::{subpath, subpath2 as alias};
    use path::{subpath, subpath2 as alias,};
    use path::*;
    use path::{subpath, subpath2, *};
    use path::{subpath, subpath2, *,};
    use path::{subpath, subpath2 as alias, *};
    use path::{subpath, subpath2 as alias, *,};
    use path::{subpath, subpath2 as alias, *, subpath3::{subsubpath, subsubpath2 as alias2, *}};
    use path::{subpath, subpath2 as alias, *, subpath3::{subsubpath, subsubpath2 as alias2, *},};
    use path::{};

    pub use path;
    pub use path::subpath;
    pub use path::subpath::subsubpath;
    pub use path::subpath::subsubpath as alias;
    pub use path::{subpath, subpath2};
    pub use path::{subpath, subpath2,};
    pub use path::{subpath, subpath2 as alias};
    pub use path::{subpath, subpath2 as alias,};
    pub use path::*;
    pub use path::{subpath, subpath2, *};
    pub use path::{subpath, subpath2, *,};
    pub use path::{subpath, subpath2 as alias, *};
    pub use path::{subpath, subpath2 as alias, *,};
    pub use path::{subpath, subpath2 as alias, *, subpath3::{subsubpath, subsubpath2 as alias2, *}};
    pub use path::{subpath, subpath2 as alias, *, subpath3::{subsubpath, subsubpath2 as alias2, *},};
    pub use path::{};
";

    let ast = parse_module_for_test(CONTENT);
    assert_eq!(ast.items.len(), 32);

    for item in ast.items.iter() {
        match item.kind {
            ASTModuleItemKind::Use(_) => {}
            _ => panic!("expected use module item"),
        }
    }
}

#[test]
fn use_empty() {
    let ast = parse_module_for_test("");
    assert_eq!(ast.items.len(), 0);

    let ast = parse_module_for_test("                ");
    assert_eq!(ast.items.len(), 0);

    let ast = parse_module_for_test("\n\n\n\n\n\n\n\n");
    assert_eq!(ast.items.len(), 0);

    let ast = parse_module_for_test("\t\t\t\t\t\t\t\t");
    assert_eq!(ast.items.len(), 0);

    let ast = parse_module_for_test("#comment\n#comment\n#comment");
    assert_eq!(ast.items.len(), 0);
}

#[test]
fn use_simple() {
    const CONTENT: &'static str = "
    use path;
    use path::subpath;
    use path::subpath::subsubpath;
    use path::subpath::subsubpath as alias;
    use path::{subpath, subpath2};
    use path::{subpath, subpath2,};
    use path::{subpath, subpath2 as alias};
    use path::{subpath, subpath2 as alias,};
    use path::*;
    use path::{subpath, subpath2, *};
    use path::{subpath, subpath2, *,};
    use path::{subpath, subpath2 as alias, *};
    use path::{subpath, subpath2 as alias, *,};
    use path::{subpath, subpath2 as alias, *, subpath3::{subsubpath, subsubpath2 as alias2, *}};
    use path::{subpath, subpath2 as alias, *, subpath3::{subsubpath, subsubpath2 as alias2, *},};
    use path::{};
";

    let ast = parse_module_for_test(CONTENT);
    assert_eq!(ast.items.len(), 16);

    match ast.items[0].kind {
        ASTModuleItemKind::Use(_) => {}
        _ => panic!("expected use statement"),
    }
}

