use swc_plugin_preact_signals::ast::{
    ArrowExpr, BlockStmt, BlockStmtOrExpr, CallExpr, Composite, Decl, Expr, ExprOrSpread,
    ExprStmt, FnDecl, FnExpr, Function, Ident, ImportDecl, ImportSpecifier, KeyValueProp, Lit,
    MemberExpr, MemberProp, Module, ModuleDecl, ModuleItem, ObjectLit, Pat, Program, Prop,
    PropName, ReturnStmt, Script, Span, Stmt, Str, VarDecl, VarDeclKind, VarDeclarator,
};
use swc_plugin_preact_signals::comments::Comments;
use swc_plugin_preact_signals::contexts::{
    highest_ctxt_expr, highest_ctxt_import, highest_ctxt_module, highest_ctxt_program,
    highest_ctxt_stmt, max_ctxt,
};
use swc_plugin_preact_signals::SignalsTransformVisitor;

fn sp(lo: u32, hi: u32) -> Span {
    Span { lo, hi }
}

fn id(sym: &str, ctxt: u32) -> Ident {
    Ident { span: sp(1, 2), sym: sym.to_string(), ctxt }
}

fn name(sym: &str, ctxt: u32) -> Expr {
    Expr::Ident(id(sym, ctxt))
}

fn call(callee: Expr, args: Vec<Expr>) -> Expr {
    Expr::Call(CallExpr {
        span: sp(3, 4),
        callee: Box::new(callee),
        args: args.into_iter().map(|e| ExprOrSpread { spread: None, expr: Box::new(e) }).collect(),
    })
}

fn markup() -> Expr {
    Expr::JsxElement(Composite { span: sp(5, 6), children: vec![] })
}

fn component(binding: Ident, stmts: Vec<Stmt>) -> ModuleItem {
    ModuleItem::Stmt(Stmt::Decl(Decl::Fn(FnDecl {
        ident: binding,
        function: Box::new(Function {
            span: sp(10, 90),
            params: vec![],
            body: Some(BlockStmt { span: sp(20, 90), stmts }),
            is_async: false,
            is_generator: false,
        }),
    })))
}

fn ret(arg: Expr) -> Stmt {
    Stmt::Return(ReturnStmt { span: sp(7, 8), arg: Some(Box::new(arg)) })
}

#[test]
fn the_higher_of_two_contexts() {
    assert_eq!(max_ctxt(3, 5), 5);
    assert_eq!(max_ctxt(5, 3), 5);
    assert_eq!(max_ctxt(4, 4), 4);
    assert_eq!(max_ctxt(0, u32::MAX), u32::MAX);
}

#[test]
fn an_expression_without_identifiers_holds_no_context() {
    assert_eq!(highest_ctxt_expr(&markup()), 0);
    assert_eq!(
        highest_ctxt_expr(&Expr::Lit(Lit::Str(Str { span: sp(1, 2), value: "x".to_string() }))),
        0
    );
}

#[test]
fn the_highest_context_is_found_wherever_it_stands() {
    assert_eq!(highest_ctxt_expr(&name("a", 7)), 7);
    assert_eq!(highest_ctxt_expr(&call(name("f", 2), vec![name("a", 9), name("b", 4)])), 9);
    assert_eq!(highest_ctxt_expr(&call(name("f", 12), vec![name("a", 9)])), 12);
    let member = Expr::Member(MemberExpr {
        span: sp(1, 2),
        obj: Box::new(name("o", 3)),
        prop: MemberProp::Ident(id("p", 8)),
    });
    assert_eq!(highest_ctxt_expr(&member), 8);
    let object = Expr::Object(ObjectLit {
        span: sp(1, 2),
        props: vec![
            Prop::KeyValue(KeyValueProp {
                key: PropName::Ident(id("k", 5)),
                value: Box::new(name("v", 6)),
            }),
            Prop::Other(Composite { span: sp(3, 4), children: vec![name("s", 11)] }),
        ],
    });
    assert_eq!(highest_ctxt_expr(&object), 11);
    let named = Expr::Fn(FnExpr {
        ident: Some(id("Named", 21)),
        function: Box::new(Function {
            span: sp(1, 2),
            params: vec![Pat::Ident(id("props", 20))],
            body: Some(BlockStmt { span: sp(3, 4), stmts: vec![ret(name("x", 19))] }),
            is_async: false,
            is_generator: false,
        }),
    });
    assert_eq!(highest_ctxt_expr(&named), 21);
    let arrow = Expr::Arrow(ArrowExpr {
        span: sp(1, 2),
        params: vec![Pat::Ident(id("a", 1))],
        body: Box::new(BlockStmtOrExpr::Expr(Box::new(name("b", 30)))),
        is_async: false,
        is_generator: false,
    });
    assert_eq!(highest_ctxt_expr(&arrow), 30);
}

#[test]
fn declarations_and_imports_count() {
    let var = Stmt::Decl(Decl::Var(Box::new(VarDecl {
        span: sp(1, 2),
        kind: VarDeclKind::Const,
        decls: vec![
            VarDeclarator { span: sp(3, 4), name: Pat::Ident(id("a", 4)), init: None },
            VarDeclarator {
                span: sp(5, 6),
                name: Pat::Ident(id("b", 2)),
                init: Some(Box::new(name("c", 3))),
            },
        ],
    })));
    assert_eq!(highest_ctxt_stmt(&var), 4);
    assert_eq!(
        highest_ctxt_stmt(&Stmt::Expr(ExprStmt { span: sp(1, 2), expr: Box::new(name("x", 6)) })),
        6
    );
    let import = ImportDecl {
        span: sp(1, 2),
        specifiers: vec![
            ImportSpecifier::Default { span: sp(3, 4), local: id("a", 2) },
            ImportSpecifier::Named { span: sp(5, 6), local: id("b", 3), imported: Some(id("c", 14)) },
            ImportSpecifier::Namespace { span: sp(7, 8), local: id("d", 5) },
        ],
        src: Str { span: sp(9, 10), value: "m".to_string() },
    };
    assert_eq!(highest_ctxt_import(&import), 14);
    let module = Module {
        span: sp(0, 100),
        body: vec![
            ModuleItem::ModuleDecl(ModuleDecl::Import(import)),
            ModuleItem::Stmt(var),
            ModuleItem::ModuleDecl(ModuleDecl::Other(sp(1, 2))),
        ],
    };
    assert_eq!(highest_ctxt_module(&module), 14);
    assert_eq!(highest_ctxt_program(&Program::Module(module)), 14);
    assert_eq!(highest_ctxt_program(&Program::Script(Script { span: sp(0, 1), body: vec![] })), 0);
}

#[test]
fn room_is_made_above_the_unit() {
    let mut v = SignalsTransformVisitor::from_default(Comments { leading: vec![] }, None);
    v.make_room_above(0);
    assert_eq!(v.next_ctxt, 1);
    v.make_room_above(9);
    assert_eq!(v.next_ctxt, 10);
    v.make_room_above(4);
    assert_eq!(v.next_ctxt, 10);
    v.make_room_above(10);
    assert_eq!(v.next_ctxt, 11);
}

#[test]
fn what_the_pass_makes_is_above_the_contexts_of_the_unit() {
    // The unit names `_useSignals` and `_effect` itself, in contexts of its own.
    let body = || vec![ret(call(name("_useSignals", 9), vec![name("_effect", 3), markup()]))];
    let mut visitor = SignalsTransformVisitor::from_default(Comments { leading: vec![] }, None);
    let mut module = Module { span: sp(0, 100), body: vec![component(id("A", 2), body())] };
    visitor.visit_mut_module(&mut module);
    let tracker = visitor.import_use_signals.clone().expect("a tracking entry point");
    assert_eq!(tracker, Ident { span: sp(0, 0), sym: "_useSignals".to_string(), ctxt: 10 });
    assert_ne!(tracker, id("_useSignals", 9));
    assert_eq!(visitor.next_ctxt, 12);
    match &module.body[1] {
        ModuleItem::Stmt(Stmt::Decl(Decl::Fn(f))) => {
            let stmts = &f.function.body.as_ref().expect("a body").stmts;
            match &stmts[0] {
                Stmt::Decl(Decl::Var(var)) => {
                    assert_eq!(
                        var.decls[0].name,
                        Pat::Ident(Ident { span: sp(0, 0), sym: "_effect".to_string(), ctxt: 11 })
                    );
                    match var.decls[0].init.as_deref() {
                        Some(Expr::Call(opening)) => {
                            assert_eq!(*opening.callee, Expr::Ident(tracker.clone()))
                        }
                        other => panic!("expected a call, got {:?}", other),
                    }
                }
                other => panic!("expected a binding, got {:?}", other),
            }
            match &stmts[1] {
                Stmt::Try(guard) => assert_eq!(guard.block.stmts, body()),
                other => panic!("expected a try statement, got {:?}", other),
            }
        }
        other => panic!("expected a function declaration, got {:?}", other),
    }
}

#[test]
fn a_later_unit_with_higher_contexts_gets_room_of_its_own() {
    let mut visitor = SignalsTransformVisitor::from_default(Comments { leading: vec![] }, None);
    let mut first = Module { span: sp(0, 100), body: vec![component(id("A", 0), vec![ret(markup())])] };
    visitor.visit_mut_module(&mut first);
    assert_eq!(visitor.next_ctxt, 3);
    let mut second = Module {
        span: sp(0, 100),
        body: vec![component(id("B", 50), vec![ret(markup())])],
    };
    visitor.visit_mut_module(&mut second);
    assert_eq!(
        visitor.import_use_signals,
        Some(Ident { span: sp(0, 0), sym: "_useSignals".to_string(), ctxt: 51 })
    );
    assert_eq!(visitor.next_ctxt, 53);
}
