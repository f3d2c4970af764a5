use swc_plugin_preact_signals::ast::{
    ArrowExpr, AssignExpr, AssignTarget, BlockStmt, BlockStmtOrExpr, CallExpr, Composite, Decl,
    DefaultDecl, ExportDecl, ExportDefaultDecl, ExportDefaultExpr, Expr, ExprOrSpread, ExprStmt,
    FnDecl, FnExpr, Function, Ident, ImportDecl, ImportSpecifier, KeyValueProp, Lit, MemberExpr,
    MemberProp, MethodProp, Module, ModuleDecl, ModuleItem, Number, ObjectLit, OtherStmt,
    ParenExpr, Pat, Program, Prop, PropName, ReturnStmt, Script, Span, Stmt, Str, TryStmt,
    VarDecl, VarDeclKind, VarDeclarator,
};
use swc_plugin_preact_signals::comments::{Comment, CommentKind, Comments};
use swc_plugin_preact_signals::options::{
    PreactSignalsPluginExperimental, PreactSignalsPluginOptions, TransformMode,
};
use swc_plugin_preact_signals::utils::Trackable;
use swc_plugin_preact_signals::SignalsTransformVisitor;

fn sp(lo: u32, hi: u32) -> Span {
    Span { lo, hi }
}


fn nowhere() -> Span {
    Span { lo: 0, hi: 0 }
}


fn ident(sym: &str) -> Ident {
    Ident { span: sp(900, 901), sym: sym.to_string(), ctxt: 0 }
}


fn private(sym: &str, ctxt: u32) -> Ident {
    Ident { span: nowhere(), sym: sym.to_string(), ctxt }
}


fn name(sym: &str) -> Expr {
    Expr::Ident(ident(sym))
}


fn text(value: &str) -> Expr {
    Expr::Lit(Lit::Str(Str { span: sp(902, 903), value: value.to_string() }))
}


fn number(value: u32) -> Expr {
    Expr::Lit(Lit::Num(Number { span: sp(904, 905), value }))
}


fn markup() -> Expr {
    Expr::JsxElement(Composite { span: sp(906, 907), children: vec![] })
}


fn dot(obj: Expr, prop: &str) -> Expr {
    Expr::Member(MemberExpr {
        span: sp(908, 909),
        obj: Box::new(obj),
        prop: MemberProp::Ident(ident(prop)),
    })
}


fn call(callee: Expr, args: Vec<Expr>) -> Expr {
    Expr::Call(CallExpr {
        span: sp(910, 911),
        callee: Box::new(callee),
        args: args.into_iter().map(|e| ExprOrSpread { spread: None, expr: Box::new(e) }).collect(),
    })
}


fn paren(expr: Expr) -> Expr {
    Expr::Paren(ParenExpr { span: sp(912, 913), expr: Box::new(expr) })
}


fn ret(arg: Expr) -> Stmt {
    Stmt::Return(ReturnStmt { span: sp(914, 915), arg: Some(Box::new(arg)) })
}


fn expr_stmt(expr: Expr) -> Stmt {
    Stmt::Expr(ExprStmt { span: sp(916, 917), expr: Box::new(expr) })
}


fn block(stmts: Vec<Stmt>) -> BlockStmt {
    BlockStmt { span: sp(918, 919), stmts }
}


fn function_at(span: Span, stmts: Vec<Stmt>) -> Function {
    Function { span, params: vec![], body: Some(block(stmts)), is_async: false, is_generator: false }
}


fn arrow_at(span: Span, stmts: Vec<Stmt>) -> ArrowExpr {
    ArrowExpr {
        span,
        params: vec![],
        body: Box::new(BlockStmtOrExpr::BlockStmt(block(stmts))),
        is_async: false,
        is_generator: false,
    }
}


fn var_at(span: Span, kind: VarDeclKind, binding: &str, init: Expr) -> VarDecl {
    VarDecl {
        span,
        kind,
        decls: vec![VarDeclarator {
            span: sp(920, 921),
            name: Pat::Ident(ident(binding)),
            init: Some(Box::new(init)),
        }],
    }
}


fn opening(tracker: Ident, effect: u32, arg: Option<u32>) -> Stmt {
    Stmt::Decl(Decl::Var(Box::new(VarDecl {
        span: nowhere(),
        kind: VarDeclKind::Var,
        decls: vec![VarDeclarator {
            span: nowhere(),
            name: Pat::Ident(private("_effect", effect)),
            init: Some(Box::new(Expr::Call(CallExpr {
                span: nowhere(),
                callee: Box::new(Expr::Ident(tracker)),
                args: match arg {
                    Some(value) => vec![ExprOrSpread {
                        spread: None,
                        expr: Box::new(Expr::Lit(Lit::Num(Number { span: nowhere(), value }))),
                    }],
                    None => vec![],
                },
            }))),
        }],
    })))
}


fn closing(effect: u32) -> Stmt {
    Stmt::Expr(ExprStmt {
        span: nowhere(),
        expr: Box::new(Expr::Call(CallExpr {
            span: nowhere(),
            callee: Box::new(Expr::Member(MemberExpr {
                span: nowhere(),
                obj: Box::new(Expr::Ident(private("_effect", effect))),
                prop: MemberProp::Ident(Ident {
                    span: nowhere(),
                    sym: "f".to_string(),
                    ctxt: 0,
                }),
            })),
            args: vec![],
        })),
    })
}


fn scope(stmts: Vec<Stmt>, tracker: Ident, arg: Option<u32>) -> Vec<Stmt> {
    scope_at(2, stmts, tracker, arg)
}

/// A tracking scope that is bound to `_effect` in the syntax context `effect`.
fn scope_at(effect: u32, stmts: Vec<Stmt>, tracker: Ident, arg: Option<u32>) -> Vec<Stmt> {
    vec![
        opening(tracker, effect, arg),
        Stmt::Try(Box::new(TryStmt {
            span: nowhere(),
            block: BlockStmt { span: nowhere(), stmts },
            handler: None,
            finalizer: Some(BlockStmt { span: nowhere(), stmts: vec![closing(effect)] }),
        })),
    ]
}

const TRACKING: &str = "@preact-signals/safe-react/tracking";

fn tracker() -> Ident {
    private("_useSignals", 1)
}

fn tracker_import(source: &str) -> ModuleItem {
    ModuleItem::ModuleDecl(ModuleDecl::Import(ImportDecl {
        span: nowhere(),
        specifiers: vec![ImportSpecifier::Named {
            span: nowhere(),
            local: tracker(),
            imported: Some(Ident { span: nowhere(), sym: "useSignals".to_string(), ctxt: 1 }),
        }],
        src: Str { span: nowhere(), value: source.to_string() },
    }))
}

fn tracker_require(source: &str) -> Stmt {
    Stmt::Decl(Decl::Var(Box::new(VarDecl {
        span: nowhere(),
        kind: VarDeclKind::Var,
        decls: vec![VarDeclarator {
            span: nowhere(),
            name: Pat::Ident(tracker()),
            init: Some(Box::new(Expr::Member(MemberExpr {
                span: nowhere(),
                obj: Box::new(Expr::Call(CallExpr {
                    span: nowhere(),
                    callee: Box::new(Expr::Ident(Ident {
                        span: nowhere(),
                        sym: "require".to_string(),
                        ctxt: 0,
                    })),
                    args: vec![ExprOrSpread {
                        spread: None,
                        expr: Box::new(Expr::Lit(Lit::Str(Str {
                            span: nowhere(),
                            value: source.to_string(),
                        }))),
                    }],
                })),
                prop: MemberProp::Ident(Ident {
                    span: nowhere(),
                    sym: "useSignals".to_string(),
                    ctxt: 1,
                }),
            }))),
        }],
    })))
}

fn comment(pos: u32, text: &str) -> Comment {
    Comment { pos, kind: CommentKind::Block, text: text.to_string() }
}

fn no_comments() -> Comments {
    Comments { leading: vec![] }
}

fn with_mode(mode: TransformMode) -> PreactSignalsPluginOptions {
    PreactSignalsPluginOptions { mode, ..PreactSignalsPluginOptions::default() }
}

fn run(options: PreactSignalsPluginOptions, comments: Vec<Comment>, body: Vec<ModuleItem>) -> Vec<ModuleItem> {
    let mut visitor = SignalsTransformVisitor::from_options(options, Comments { leading: comments }, None);
    let mut module = Module { span: sp(0, 1000), body };
    visitor.visit_mut_module(&mut module);
    assert_eq!(module.span, sp(0, 1000));
    module.body
}

fn run_default(body: Vec<ModuleItem>) -> Vec<ModuleItem> {
    run(PreactSignalsPluginOptions::default(), vec![], body)
}

/// The statements of a body in the first tracking scope of a unit.
fn in_scope(stmts: Vec<Stmt>, arg: Option<u32>) -> Vec<Stmt> {
    scope(stmts, tracker(), arg)
}

/// The statements of a body in a tracking scope that is bound in the syntax
/// context `effect`.
fn in_scope_at(effect: u32, stmts: Vec<Stmt>, arg: Option<u32>) -> Vec<Stmt> {
    scope_at(effect, stmts, tracker(), arg)
}

fn decl_stmt(v: VarDecl) -> ModuleItem {
    ModuleItem::Stmt(Stmt::Decl(Decl::Var(Box::new(v))))
}

fn fn_decl_at(span: Span, binding: &str, stmts: Vec<Stmt>) -> FnDecl {
    FnDecl { ident: ident(binding), function: Box::new(function_at(span, stmts)) }
}

fn fn_stmt(d: FnDecl) -> ModuleItem {
    ModuleItem::Stmt(Stmt::Decl(Decl::Fn(d)))
}

fn reads_value() -> Stmt {
    expr_stmt(call(dot(name("console"), "log"), vec![dot(name("c"), "value")]))
}

#[test]
fn a_component_arrow_is_wrapped_and_the_import_is_added() {
    let input = || var_at(sp(0, 40), VarDeclKind::Const, "A", Expr::Arrow(arrow_at(sp(10, 40), vec![ret(markup())])));
    let out = run_default(vec![decl_stmt(input())]);
    let expected = var_at(
        sp(0, 40),
        VarDeclKind::Const,
        "A",
        Expr::Arrow(arrow_at(sp(10, 40), in_scope(vec![ret(markup())], None))),
    );
    assert_eq!(out, vec![tracker_import(TRACKING), decl_stmt(expected)]);
}

#[test]
fn an_opted_out_function_is_left_as_it_is() {
    let input = || fn_stmt(fn_decl_at(sp(30, 70), "B", vec![ret(markup())]));
    let out = run(
        PreactSignalsPluginOptions::default(),
        vec![comment(30, " @noUseSignals ")],
        vec![input()],
    );
    assert_eq!(out, vec![input()]);
}

#[test]
fn the_same_function_without_the_opt_out_is_wrapped() {
    let out = run_default(vec![fn_stmt(fn_decl_at(sp(30, 70), "B", vec![ret(markup())]))]);
    assert_eq!(
        out,
        vec![
            tracker_import(TRACKING),
            fn_stmt(fn_decl_at(sp(30, 70), "B", in_scope(vec![ret(markup())], None))),
        ]
    );
}

fn aboba() -> VarDecl {
    let body = vec![
        Stmt::Decl(Decl::Var(Box::new(var_at(
            sp(30, 50),
            VarDeclKind::Const,
            "c",
            call(name("useSignal"), vec![number(0)]),
        )))),
        reads_value(),
    ];
    var_at(sp(0, 90), VarDeclKind::Const, "useAboba", Expr::Arrow(arrow_at(sp(17, 90), body)))
}

fn aboba_in_scope(arg: Option<u32>) -> VarDecl {
    let body = vec![
        Stmt::Decl(Decl::Var(Box::new(var_at(
            sp(30, 50),
            VarDeclKind::Const,
            "c",
            call(name("useSignal"), vec![number(0)]),
        )))),
        reads_value(),
    ];
    var_at(
        sp(0, 90),
        VarDeclKind::Const,
        "useAboba",
        Expr::Arrow(arrow_at(sp(17, 90), in_scope(body, arg))),
    )
}

#[test]
fn a_hook_that_reads_value_is_wrapped_in_mode_auto() {
    let out = run(PreactSignalsPluginOptions::auto_hooks(), vec![], vec![decl_stmt(aboba())]);
    assert_eq!(out, vec![tracker_import(TRACKING), decl_stmt(aboba_in_scope(None))]);
}

#[test]
fn a_hook_is_tagged_with_two_where_the_kind_is_told() {
    let out = run(
        PreactSignalsPluginOptions::auto_hooks_and_hook_usage_flag(),
        vec![],
        vec![decl_stmt(aboba())],
    );
    assert_eq!(out, vec![tracker_import(TRACKING), decl_stmt(aboba_in_scope(Some(2)))]);
}

#[test]
fn a_hook_is_left_alone_where_hooks_are_not_instrumented() {
    let options = PreactSignalsPluginOptions {
        transform_hooks: false,
        ..PreactSignalsPluginOptions::auto_hooks()
    };
    assert_eq!(run(options, vec![], vec![decl_stmt(aboba())]), vec![decl_stmt(aboba())]);
}

#[test]
fn a_hook_that_reads_no_value_is_left_alone() {
    let hook = || var_at(sp(0, 40), VarDeclKind::Const, "useThing", Expr::Arrow(arrow_at(sp(10, 40), vec![ret(markup())])));
    assert_eq!(run_default(vec![decl_stmt(hook())]), vec![decl_stmt(hook())]);
    assert_eq!(
        run(PreactSignalsPluginOptions::auto_hooks(), vec![], vec![decl_stmt(hook())]),
        vec![decl_stmt(hook())]
    );
}

#[test]
fn mode_auto_wants_markup_and_a_read_of_value_in_a_component() {
    let only_markup = || fn_stmt(fn_decl_at(sp(30, 70), "A", vec![ret(markup())]));
    let only_value = || fn_stmt(fn_decl_at(sp(30, 70), "A", vec![reads_value()]));
    let both = || fn_stmt(fn_decl_at(sp(30, 70), "A", vec![reads_value(), ret(markup())]));
    let auto = || with_mode(TransformMode::Auto);
    assert_eq!(run(auto(), vec![], vec![only_markup()]), vec![only_markup()]);
    assert_eq!(run(auto(), vec![], vec![only_value()]), vec![only_value()]);
    assert_eq!(
        run(auto(), vec![], vec![both()]),
        vec![
            tracker_import(TRACKING),
            fn_stmt(fn_decl_at(sp(30, 70), "A", in_scope(vec![reads_value(), ret(markup())], None))),
        ]
    );
    assert_eq!(run_default(vec![only_value()]), vec![only_value()]);
}

#[test]
fn mode_manual_tracks_only_what_is_opted_in() {
    let component = || fn_stmt(fn_decl_at(sp(30, 70), "A", vec![ret(markup())]));
    let manual = || with_mode(TransformMode::Manual);
    assert_eq!(run(manual(), vec![], vec![component()]), vec![component()]);
    assert_eq!(
        run(manual(), vec![comment(30, "@useSignals")], vec![component()]),
        vec![
            tracker_import(TRACKING),
            fn_stmt(fn_decl_at(sp(30, 70), "A", in_scope(vec![ret(markup())], None))),
        ]
    );
}

#[test]
fn an_opt_in_needs_no_markup_and_no_trackable_name() {
    let plain = || fn_stmt(fn_decl_at(sp(30, 70), "helper", vec![ret(number(1))]));
    let flagged = || PreactSignalsPluginOptions {
        experimental: PreactSignalsPluginExperimental { add_hook_usage_flag: true },
        ..PreactSignalsPluginOptions::default()
    };
    assert_eq!(
        run(flagged(), vec![comment(30, "* @useSignals *")], vec![plain()]),
        vec![
            tracker_import(TRACKING),
            fn_stmt(fn_decl_at(sp(30, 70), "helper", in_scope(vec![ret(number(1))], Some(0)))),
        ]
    );
    let component = || fn_stmt(fn_decl_at(sp(30, 70), "Helper", vec![ret(number(1))]));
    assert_eq!(
        run(flagged(), vec![comment(30, "@useSignals")], vec![component()]),
        vec![
            tracker_import(TRACKING),
            fn_stmt(fn_decl_at(sp(30, 70), "Helper", in_scope(vec![ret(number(1))], Some(1)))),
        ]
    );
}

#[test]
fn an_opt_out_beats_an_opt_in_on_another_span() {
    // The comments of a variable declaration are looked up at the initialiser
    // and at the declaration.
    let input = || var_at(sp(0, 40), VarDeclKind::Const, "A", Expr::Arrow(arrow_at(sp(10, 40), vec![ret(markup())])));
    for comments in [
        vec![comment(0, "@useSignals"), comment(10, "@noUseSignals")],
        vec![comment(0, "@noUseSignals"), comment(10, "@useSignals")],
        vec![comment(10, "@noUseSignals")],
        vec![comment(0, "@noUseSignals")],
    ] {
        assert_eq!(
            run(PreactSignalsPluginOptions::default(), comments, vec![decl_stmt(input())]),
            vec![decl_stmt(input())]
        );
    }
}

#[test]
fn nested_declarations_are_judged_on_their_own() {
    let inner_out = || Stmt::Decl(Decl::Fn(fn_decl_at(sp(100, 150), "Skipped", vec![ret(markup())])));
    let inner_in = |stmts: Vec<Stmt>| Stmt::Decl(Decl::Fn(fn_decl_at(sp(200, 250), "picked", stmts)));
    let input = fn_stmt(fn_decl_at(
        sp(30, 300),
        "Outer",
        vec![inner_out(), inner_in(vec![ret(number(1))]), ret(markup())],
    ));
    let out = run(
        PreactSignalsPluginOptions::default(),
        vec![comment(100, " @noUseSignals "), comment(200, " @useSignals ")],
        vec![input],
    );
    let expected = fn_stmt(fn_decl_at(
        sp(30, 300),
        "Outer",
        in_scope_at(
            3,
            vec![inner_out(), inner_in(in_scope_at(2, vec![ret(number(1))], None)), ret(markup())],
            None,
        ),
    ));
    assert_eq!(out, vec![tracker_import(TRACKING), expected]);
}

#[test]
fn an_inner_declaration_is_wrapped_inside_an_outer_one_that_is_not() {
    let inner = |stmts: Vec<Stmt>| Stmt::Decl(Decl::Fn(fn_decl_at(sp(100, 150), "Inner", stmts)));
    let input = fn_stmt(fn_decl_at(sp(30, 300), "outer", vec![inner(vec![ret(markup())])]));
    let out = run_default(vec![input]);
    let expected =
        fn_stmt(fn_decl_at(sp(30, 300), "outer", vec![inner(in_scope(vec![ret(markup())], None))]));
    assert_eq!(out, vec![tracker_import(TRACKING), expected]);
}

#[test]
fn one_import_serves_every_wrapped_body() {
    let out = run_default(vec![
        fn_stmt(fn_decl_at(sp(30, 70), "A", vec![ret(markup())])),
        fn_stmt(fn_decl_at(sp(80, 120), "b", vec![ret(markup())])),
        fn_stmt(fn_decl_at(sp(130, 170), "C", vec![ret(markup())])),
    ]);
    assert_eq!(
        out,
        vec![
            tracker_import(TRACKING),
            fn_stmt(fn_decl_at(sp(30, 70), "A", in_scope(vec![ret(markup())], None))),
            fn_stmt(fn_decl_at(sp(80, 120), "b", vec![ret(markup())])),
            fn_stmt(fn_decl_at(sp(130, 170), "C", in_scope_at(3, vec![ret(markup())], None))),
        ]
    );
    let imports = out
        .iter()
        .filter(|item| matches!(item, ModuleItem::ModuleDecl(ModuleDecl::Import(_))))
        .count();
    assert_eq!(imports, 1);
}

#[test]
fn nothing_is_added_where_nothing_is_wrapped() {
    let input = || {
        vec![
            ModuleItem::Stmt(expr_stmt(text("use client"))),
            fn_stmt(fn_decl_at(sp(30, 70), "helper", vec![ret(markup())])),
            ModuleItem::ModuleDecl(ModuleDecl::Other(sp(80, 90))),
        ]
    };
    assert_eq!(run_default(input()), input());
    assert_eq!(run_default(vec![]), vec![]);
}

#[test]
fn the_import_goes_behind_the_directives() {
    let out = run_default(vec![
        ModuleItem::Stmt(expr_stmt(text("use client"))),
        ModuleItem::Stmt(expr_stmt(text("use strict"))),
        fn_stmt(fn_decl_at(sp(30, 70), "A", vec![ret(markup())])),
    ]);
    assert_eq!(
        out,
        vec![
            ModuleItem::Stmt(expr_stmt(text("use client"))),
            ModuleItem::Stmt(expr_stmt(text("use strict"))),
            tracker_import(TRACKING),
            fn_stmt(fn_decl_at(sp(30, 70), "A", in_scope(vec![ret(markup())], None))),
        ]
    );
}

#[test]
fn the_import_names_the_configured_module() {
    let options = PreactSignalsPluginOptions {
        import_source: "my/runtime".to_string(),
        ..PreactSignalsPluginOptions::default()
    };
    let out = run(options, vec![], vec![fn_stmt(fn_decl_at(sp(30, 70), "A", vec![ret(markup())]))]);
    assert_eq!(out[0], tracker_import("my/runtime"));
    assert_eq!(out.len(), 2);
}

#[test]
fn a_script_loads_the_entry_point_with_require() {
    let mut visitor = SignalsTransformVisitor::from_default(no_comments(), None);
    let mut script = Script {
        span: sp(0, 1000),
        body: vec![
            expr_stmt(text("use strict")),
            Stmt::Decl(Decl::Fn(fn_decl_at(sp(30, 70), "A", vec![ret(markup())]))),
        ],
    };
    visitor.visit_mut_script(&mut script);
    assert_eq!(
        script.body,
        vec![
            expr_stmt(text("use strict")),
            tracker_require(TRACKING),
            Stmt::Decl(Decl::Fn(fn_decl_at(sp(30, 70), "A", in_scope(vec![ret(markup())], None)))),
        ]
    );
}

#[test]
fn a_script_without_a_component_is_left_as_it_is() {
    let mut visitor = SignalsTransformVisitor::from_default(no_comments(), None);
    let body = || vec![Stmt::Decl(Decl::Fn(fn_decl_at(sp(30, 70), "a", vec![ret(markup())])))];
    let mut program = Program::Script(Script { span: sp(0, 1000), body: body() });
    visitor.visit_mut_program(&mut program);
    assert_eq!(program, Program::Script(Script { span: sp(0, 1000), body: body() }));
}

#[test]
fn a_program_is_walked_as_the_unit_that_it_is() {
    let mut visitor = SignalsTransformVisitor::from_default(no_comments(), None);
    let mut program = Program::Module(Module {
        span: sp(0, 1000),
        body: vec![fn_stmt(fn_decl_at(sp(30, 70), "A", vec![ret(markup())]))],
    });
    visitor.visit_mut_program(&mut program);
    assert_eq!(
        program,
        Program::Module(Module {
            span: sp(0, 1000),
            body: vec![
                tracker_import(TRACKING),
                fn_stmt(fn_decl_at(sp(30, 70), "A", in_scope(vec![ret(markup())], None))),
            ],
        })
    );
}

#[test]
fn each_unit_gets_its_own_import() {
    let mut visitor = SignalsTransformVisitor::from_default(no_comments(), None);
    let unit = |binding: &str| Module {
        span: sp(0, 1000),
        body: vec![fn_stmt(fn_decl_at(sp(30, 70), binding, vec![ret(markup())]))],
    };
    let mut first = unit("A");
    visitor.visit_mut_module(&mut first);
    assert_eq!(first.body.len(), 2);
    assert_eq!(visitor.import_use_signals, Some(tracker()));
    let mut second = unit("plain");
    visitor.visit_mut_module(&mut second);
    assert_eq!(second, unit("plain"));
    assert_eq!(visitor.import_use_signals, None);
    let mut third = unit("B");
    visitor.visit_mut_module(&mut third);
    assert_ne!(third.body[0], tracker_import(TRACKING));
    assert_eq!(visitor.import_use_signals, Some(private("_useSignals", 3)));
    assert_eq!(
        third.body[1],
        fn_stmt(fn_decl_at(
            sp(30, 70),
            "B",
            scope_at(4, vec![ret(markup())], private("_useSignals", 3), None),
        ))
    );
    assert_eq!(visitor.next_ctxt, 5);
}

#[test]
fn only_the_first_binding_of_a_declaration_is_judged() {
    let component = |span: Span| Expr::Arrow(arrow_at(span, vec![ret(markup())]));
    let two = |first: Expr, second: Expr| VarDecl {
        span: sp(0, 100),
        kind: VarDeclKind::Const,
        decls: vec![
            VarDeclarator { span: sp(1, 2), name: Pat::Ident(ident("A")), init: Some(Box::new(first)) },
            VarDeclarator { span: sp(3, 4), name: Pat::Ident(ident("B")), init: Some(Box::new(second)) },
        ],
    };
    let out = run_default(vec![decl_stmt(two(number(1), component(sp(50, 90))))]);
    assert_eq!(out, vec![decl_stmt(two(number(1), component(sp(50, 90))))]);

    let out = run_default(vec![decl_stmt(two(component(sp(10, 40)), component(sp(50, 90))))]);
    assert_eq!(
        out,
        vec![
            tracker_import(TRACKING),
            decl_stmt(two(
                Expr::Arrow(arrow_at(sp(10, 40), in_scope(vec![ret(markup())], None))),
                component(sp(50, 90)),
            )),
        ]
    );
}

#[test]
fn a_declaration_without_bindings_or_initialiser_is_left_alone() {
    let empty = || VarDecl { span: sp(0, 10), kind: VarDeclKind::Let, decls: vec![] };
    assert_eq!(run_default(vec![decl_stmt(empty())]), vec![decl_stmt(empty())]);
    let bare = || VarDecl {
        span: sp(0, 10),
        kind: VarDeclKind::Let,
        decls: vec![VarDeclarator { span: sp(1, 2), name: Pat::Ident(ident("A")), init: None }],
    };
    assert_eq!(
        run(PreactSignalsPluginOptions::default(), vec![comment(0, "@useSignals")], vec![decl_stmt(bare())]),
        vec![decl_stmt(bare())]
    );
}

#[test]
fn a_component_inside_a_call_is_judged_by_the_binding() {
    let memo = |stmts: Vec<Stmt>| call(name("memo"), vec![paren(Expr::Arrow(arrow_at(sp(20, 40), stmts)))]);
    let out = run_default(vec![decl_stmt(var_at(sp(0, 50), VarDeclKind::Const, "A", memo(vec![ret(markup())])))]);
    assert_eq!(
        out,
        vec![
            tracker_import(TRACKING),
            decl_stmt(var_at(sp(0, 50), VarDeclKind::Const, "A", memo(in_scope(vec![ret(markup())], None)))),
        ]
    );
    let lower = || decl_stmt(var_at(sp(0, 50), VarDeclKind::Const, "a", memo(vec![ret(markup())])));
    assert_eq!(run_default(vec![lower()]), vec![lower()]);
}

#[test]
fn an_initialiser_in_parentheses_is_judged_too() {
    let init = |stmts: Vec<Stmt>| paren(paren(Expr::Arrow(arrow_at(sp(20, 40), stmts))));
    let out = run_default(vec![decl_stmt(var_at(sp(0, 50), VarDeclKind::Let, "A", init(vec![ret(markup())])))]);
    assert_eq!(
        out,
        vec![
            tracker_import(TRACKING),
            decl_stmt(var_at(sp(0, 50), VarDeclKind::Let, "A", init(in_scope(vec![ret(markup())], None)))),
        ]
    );
}

#[test]
fn the_comment_of_an_initialiser_is_looked_up_inside_its_parentheses() {
    // The parenthesis starts at 15, the arrow function inside it at 20.
    let init = |stmts: Vec<Stmt>| {
        Expr::Paren(ParenExpr { span: sp(15, 45), expr: Box::new(Expr::Arrow(arrow_at(sp(20, 40), stmts))) })
    };
    let input = || decl_stmt(var_at(sp(0, 50), VarDeclKind::Let, "a", init(vec![ret(number(1))])));
    assert_eq!(
        run(PreactSignalsPluginOptions::default(), vec![comment(15, "@useSignals")], vec![input()]),
        vec![input()]
    );
    assert_eq!(
        run(PreactSignalsPluginOptions::default(), vec![comment(20, "@useSignals")], vec![input()]),
        vec![
            tracker_import(TRACKING),
            decl_stmt(var_at(sp(0, 50), VarDeclKind::Let, "a", init(in_scope(vec![ret(number(1))], None)))),
        ]
    );
}

#[test]
fn a_named_function_expression_is_judged_by_its_own_name() {
    let init = |own: &str, stmts: Vec<Stmt>| {
        Expr::Fn(FnExpr { ident: Some(ident(own)), function: Box::new(function_at(sp(20, 40), stmts)) })
    };
    let out = run_default(vec![decl_stmt(var_at(sp(0, 50), VarDeclKind::Const, "a", init("Named", vec![ret(markup())])))]);
    assert_eq!(
        out,
        vec![
            tracker_import(TRACKING),
            decl_stmt(var_at(sp(0, 50), VarDeclKind::Const, "a", init("Named", in_scope(vec![ret(markup())], None)))),
        ]
    );
    let hidden = || decl_stmt(var_at(sp(0, 50), VarDeclKind::Const, "A", init("lower", vec![ret(markup())])));
    assert_eq!(run_default(vec![hidden()]), vec![hidden()]);
}

#[test]
fn an_asynchronous_component_is_left_alone() {
    let input = || {
        decl_stmt(var_at(
            sp(0, 50),
            VarDeclKind::Const,
            "A",
            Expr::Arrow(ArrowExpr { is_async: true, ..arrow_at(sp(20, 40), vec![ret(markup())]) }),
        ))
    };
    assert_eq!(
        run(PreactSignalsPluginOptions::default(), vec![comment(0, "@useSignals")], vec![input()]),
        vec![input()]
    );
}

fn export_var(span: Span, v: VarDecl) -> ModuleItem {
    ModuleItem::ModuleDecl(ModuleDecl::ExportDecl(ExportDecl { span, decl: Decl::Var(Box::new(v)) }))
}

fn export_fn(span: Span, d: FnDecl) -> ModuleItem {
    ModuleItem::ModuleDecl(ModuleDecl::ExportDecl(ExportDecl { span, decl: Decl::Fn(d) }))
}

#[test]
fn an_exported_component_is_wrapped_once() {
    let v = |stmts: Vec<Stmt>| var_at(sp(7, 50), VarDeclKind::Const, "A", Expr::Arrow(arrow_at(sp(17, 50), stmts)));
    let out = run_default(vec![export_var(sp(0, 50), v(vec![ret(markup())]))]);
    assert_eq!(
        out,
        vec![tracker_import(TRACKING), export_var(sp(0, 50), v(in_scope(vec![ret(markup())], None)))]
    );
    let out = run_default(vec![export_fn(sp(0, 50), fn_decl_at(sp(7, 50), "A", vec![ret(markup())]))]);
    assert_eq!(
        out,
        vec![
            tracker_import(TRACKING),
            export_fn(sp(0, 50), fn_decl_at(sp(7, 50), "A", in_scope(vec![ret(markup())], None))),
        ]
    );
}

#[test]
fn the_comment_of_an_export_counts_for_the_declaration() {
    let v = |stmts: Vec<Stmt>| var_at(sp(7, 50), VarDeclKind::Const, "a", Expr::Arrow(arrow_at(sp(17, 50), stmts)));
    let out = run(
        PreactSignalsPluginOptions::default(),
        vec![comment(0, "@useSignals")],
        vec![export_var(sp(0, 50), v(vec![ret(number(1))]))],
    );
    assert_eq!(
        out,
        vec![tracker_import(TRACKING), export_var(sp(0, 50), v(in_scope(vec![ret(number(1))], None)))]
    );
    let component = || export_fn(sp(0, 50), fn_decl_at(sp(7, 50), "A", vec![ret(markup())]));
    assert_eq!(
        run(PreactSignalsPluginOptions::default(), vec![comment(0, "@noUseSignals")], vec![component()]),
        vec![component()]
    );
    assert_eq!(
        run(PreactSignalsPluginOptions::default(), vec![comment(7, "@noUseSignals")], vec![component()]),
        vec![component()]
    );
}

#[test]
fn a_declaration_with_the_span_of_the_export_around_it_is_not_judged() {
    // A nested declaration that carries the very span of the exported one is
    // taken for it and passed over.
    let nested = || Stmt::Decl(Decl::Var(Box::new(var_at(
        sp(7, 50),
        VarDeclKind::Const,
        "Inner",
        Expr::Arrow(arrow_at(sp(20, 30), vec![ret(markup())])),
    ))));
    let outer = |stmts: Vec<Stmt>| var_at(sp(7, 50), VarDeclKind::Const, "outer", Expr::Arrow(arrow_at(sp(17, 50), stmts)));
    let input = || export_var(sp(0, 50), outer(vec![nested()]));
    assert_eq!(run_default(vec![input()]), vec![input()]);

    // Outside an export the same nested declaration is judged.
    let out = run_default(vec![decl_stmt(outer(vec![nested()]))]);
    assert_eq!(out.len(), 2);
    assert_eq!(out[0], tracker_import(TRACKING));
}

#[test]
fn other_exported_declarations_are_walked() {
    let exported = |children: Vec<Expr>| {
        ModuleItem::ModuleDecl(ModuleDecl::ExportDecl(ExportDecl {
            span: sp(0, 90),
            decl: Decl::Other(Composite { span: sp(7, 90), children }),
        }))
    };
    let method = |stmts: Vec<Stmt>| {
        Expr::Assign(AssignExpr {
            span: sp(10, 80),
            left: AssignTarget::Ident(ident("Render")),
            right: Box::new(Expr::Arrow(arrow_at(sp(20, 80), stmts))),
        })
    };
    let out = run_default(vec![exported(vec![method(vec![ret(markup())])])]);
    assert_eq!(
        out,
        vec![tracker_import(TRACKING), exported(vec![method(in_scope(vec![ret(markup())], None))])]
    );
}

fn default_fn(span: Span, own: Option<&str>, stmts: Vec<Stmt>) -> ModuleItem {
    ModuleItem::ModuleDecl(ModuleDecl::ExportDefaultDecl(ExportDefaultDecl {
        span,
        decl: DefaultDecl::Fn(FnExpr {
            ident: own.map(ident),
            function: Box::new(function_at(sp(15, 60), stmts)),
        }),
    }))
}

fn run_in_file(kind: Option<Trackable>, comments: Vec<Comment>, body: Vec<ModuleItem>) -> Vec<ModuleItem> {
    let mut visitor = SignalsTransformVisitor::from_options(
        PreactSignalsPluginOptions::default(),
        Comments { leading: comments },
        kind,
    );
    let mut module = Module { span: sp(0, 1000), body };
    visitor.visit_mut_module(&mut module);
    module.body
}

#[test]
fn a_default_export_without_a_name_is_judged_by_the_file() {
    let input = || default_fn(sp(0, 60), None, vec![ret(markup())]);
    assert_eq!(run_in_file(None, vec![], vec![input()]), vec![input()]);
    assert_eq!(
        run_in_file(Some(Trackable::Component), vec![], vec![input()]),
        vec![tracker_import(TRACKING), default_fn(sp(0, 60), None, in_scope(vec![ret(markup())], None))]
    );
    assert_eq!(run_in_file(Some(Trackable::Hook), vec![], vec![input()]), vec![input()]);
}

#[test]
fn a_default_export_with_a_name_is_judged_by_the_name() {
    let lower = || default_fn(sp(0, 60), Some("lower"), vec![ret(markup())]);
    assert_eq!(run_in_file(Some(Trackable::Component), vec![], vec![lower()]), vec![lower()]);
    assert_eq!(
        run_in_file(None, vec![], vec![default_fn(sp(0, 60), Some("Page"), vec![ret(markup())])]),
        vec![
            tracker_import(TRACKING),
            default_fn(sp(0, 60), Some("Page"), in_scope(vec![ret(markup())], None)),
        ]
    );
}

#[test]
fn an_opted_in_default_export_without_any_name_is_of_unknown_kind() {
    let mut visitor = SignalsTransformVisitor::from_options(
        PreactSignalsPluginOptions::auto_hooks_context_flags(),
        Comments { leading: vec![comment(0, "@useSignals")] },
        None,
    );
    let mut module = Module { span: sp(0, 1000), body: vec![default_fn(sp(0, 60), None, vec![])] };
    visitor.visit_mut_module(&mut module);
    assert_eq!(
        module.body,
        vec![tracker_import(TRACKING), default_fn(sp(0, 60), None, in_scope(vec![], Some(0)))]
    );
}

#[test]
fn other_default_declarations_are_walked() {
    let class = |children: Vec<Expr>| {
        ModuleItem::ModuleDecl(ModuleDecl::ExportDefaultDecl(ExportDefaultDecl {
            span: sp(0, 90),
            decl: DefaultDecl::Other(Composite { span: sp(15, 90), children }),
        }))
    };
    let input = || class(vec![name("Base")]);
    assert_eq!(run_default(vec![input()]), vec![input()]);
}

fn default_expr(span: Span, expr: Expr) -> ModuleItem {
    ModuleItem::ModuleDecl(ModuleDecl::ExportDefaultExpr(ExportDefaultExpr { span, expr: Box::new(expr) }))
}

#[test]
fn a_default_exported_arrow_is_judged_by_the_file() {
    let arrow = |stmts: Vec<Stmt>| paren(Expr::Arrow(arrow_at(sp(16, 60), stmts)));
    let input = || default_expr(sp(0, 61), arrow(vec![ret(markup())]));
    assert_eq!(run_in_file(None, vec![], vec![input()]), vec![input()]);
    assert_eq!(
        run_in_file(Some(Trackable::Component), vec![], vec![input()]),
        vec![
            tracker_import(TRACKING),
            default_expr(sp(0, 61), arrow(in_scope(vec![ret(markup())], None))),
        ]
    );
    assert_eq!(
        run_in_file(None, vec![comment(16, "@useSignals")], vec![input()]),
        vec![
            tracker_import(TRACKING),
            default_expr(sp(0, 61), arrow(in_scope(vec![ret(markup())], None))),
        ]
    );
    assert_eq!(
        run_in_file(Some(Trackable::Component), vec![comment(0, "@noUseSignals")], vec![input()]),
        vec![input()]
    );
}

#[test]
fn a_default_exported_value_is_left_alone() {
    let input = || default_expr(sp(0, 20), name("Component"));
    assert_eq!(
        run_in_file(Some(Trackable::Component), vec![comment(0, "@useSignals")], vec![input()]),
        vec![input()]
    );
}

fn assignment(span: Span, left: AssignTarget, right: Expr) -> ModuleItem {
    ModuleItem::Stmt(expr_stmt(Expr::Assign(AssignExpr { span, left, right: Box::new(right) })))
}

#[test]
fn an_assigned_component_is_judged_by_its_target() {
    let arrow = |stmts: Vec<Stmt>| Expr::Arrow(arrow_at(sp(10, 40), stmts));
    let out = run_default(vec![assignment(sp(0, 40), AssignTarget::Ident(ident("A")), arrow(vec![ret(markup())]))]);
    assert_eq!(
        out,
        vec![
            tracker_import(TRACKING),
            assignment(sp(0, 40), AssignTarget::Ident(ident("A")), arrow(in_scope(vec![ret(markup())], None))),
        ]
    );
    let member = || {
        AssignTarget::Member(MemberExpr {
            span: sp(0, 9),
            obj: Box::new(name("module")),
            prop: MemberProp::Ident(ident("Widget")),
        })
    };
    let out = run_default(vec![assignment(sp(0, 40), member(), arrow(vec![ret(markup())]))]);
    assert_eq!(
        out,
        vec![
            tracker_import(TRACKING),
            assignment(sp(0, 40), member(), arrow(in_scope(vec![ret(markup())], None))),
        ]
    );
    let lower = || assignment(sp(0, 40), AssignTarget::Ident(ident("a")), arrow(vec![ret(markup())]));
    assert_eq!(run_default(vec![lower()]), vec![lower()]);
}

#[test]
fn an_assigned_function_in_parentheses_is_not_judged() {
    let input = || {
        assignment(
            sp(0, 40),
            AssignTarget::Ident(ident("A")),
            paren(Expr::Arrow(arrow_at(sp(10, 40), vec![ret(markup())]))),
        )
    };
    assert_eq!(run_default(vec![input()]), vec![input()]);
}

fn object_item(props: Vec<Prop>) -> ModuleItem {
    ModuleItem::Stmt(expr_stmt(call(
        name("register"),
        vec![Expr::Object(ObjectLit { span: sp(5, 95), props })],
    )))
}

#[test]
fn a_property_value_is_judged_by_its_key() {
    let prop = |key: PropName, stmts: Vec<Stmt>| {
        Prop::KeyValue(KeyValueProp { key, value: Box::new(Expr::Arrow(arrow_at(sp(20, 40), stmts))) })
    };
    let key = || PropName::Ident(Ident { span: sp(10, 16), sym: "Widget".to_string(), ctxt: 0 });
    let out = run_default(vec![object_item(vec![prop(key(), vec![ret(markup())])])]);
    assert_eq!(
        out,
        vec![tracker_import(TRACKING), object_item(vec![prop(key(), in_scope(vec![ret(markup())], None))])]
    );
    let quoted = || PropName::Str(Str { span: sp(10, 18), value: "Widget".to_string() });
    let out = run(
        PreactSignalsPluginOptions::default(),
        vec![comment(10, "@noUseSignals")],
        vec![object_item(vec![prop(quoted(), vec![ret(markup())])])],
    );
    assert_eq!(out, vec![object_item(vec![prop(quoted(), vec![ret(markup())])])]);
    let lower = || PropName::Ident(Ident { span: sp(10, 16), sym: "widget".to_string(), ctxt: 0 });
    assert_eq!(
        run_default(vec![object_item(vec![prop(lower(), vec![ret(markup())])])]),
        vec![object_item(vec![prop(lower(), vec![ret(markup())])])]
    );
}

#[test]
fn a_method_is_judged_by_its_key() {
    let method = |stmts: Vec<Stmt>| {
        Prop::Method(MethodProp {
            key: PropName::Ident(Ident { span: sp(10, 16), sym: "Widget".to_string(), ctxt: 0 }),
            function: Box::new(function_at(sp(10, 40), stmts)),
        })
    };
    let out = run_default(vec![object_item(vec![method(vec![ret(markup())])])]);
    assert_eq!(
        out,
        vec![tracker_import(TRACKING), object_item(vec![method(in_scope(vec![ret(markup())], None))])]
    );
}

#[test]
fn an_opted_in_function_without_a_body_brings_no_import() {
    let signature = || {
        fn_stmt(FnDecl {
            ident: ident("Declared"),
            function: Box::new(Function { body: None, ..function_at(sp(30, 70), vec![]) }),
        })
    };
    assert_eq!(
        run(PreactSignalsPluginOptions::default(), vec![comment(30, "@useSignals")], vec![signature()]),
        vec![signature()]
    );
}

#[test]
fn an_arrow_with_an_expression_body_becomes_a_block_that_returns_it() {
    let input = ArrowExpr {
        span: sp(10, 40),
        params: vec![],
        body: Box::new(BlockStmtOrExpr::Expr(Box::new(markup()))),
        is_async: false,
        is_generator: false,
    };
    let out = run_default(vec![decl_stmt(var_at(sp(0, 40), VarDeclKind::Const, "A", Expr::Arrow(input)))]);
    let returned = Stmt::Return(ReturnStmt { span: nowhere(), arg: Some(Box::new(markup())) });
    let expected = ArrowExpr {
        span: sp(10, 40),
        params: vec![],
        body: Box::new(BlockStmtOrExpr::BlockStmt(BlockStmt {
            span: nowhere(),
            stmts: in_scope(vec![returned], None),
        })),
        is_async: false,
        is_generator: false,
    };
    assert_eq!(
        out,
        vec![
            tracker_import(TRACKING),
            decl_stmt(var_at(sp(0, 40), VarDeclKind::Const, "A", Expr::Arrow(expected))),
        ]
    );
}

#[test]
fn a_tracking_scope_is_not_taken_for_a_component() {
    // The statements that the pass writes stand for no component: walking an
    // instrumented body again judges only what was there before.
    let body = in_scope(vec![ret(number(1))], None);
    let input = || fn_stmt(fn_decl_at(sp(30, 70), "helper", in_scope(vec![ret(number(1))], None)));
    assert_eq!(body.len(), 2);
    assert_eq!(run_default(vec![input()]), vec![input()]);
}

#[test]
fn declarations_inside_other_statements_are_reached() {
    let inner = |stmts: Vec<Stmt>| Stmt::Decl(Decl::Fn(fn_decl_at(sp(100, 150), "Inner", stmts)));
    let conditional = |stmts: Vec<Stmt>| {
        ModuleItem::Stmt(Stmt::Other(OtherStmt {
            span: sp(0, 200),
            exprs: vec![name("flag")],
            stmts: vec![Stmt::Block(BlockStmt { span: sp(10, 200), stmts })],
        }))
    };
    let out = run_default(vec![conditional(vec![inner(vec![ret(markup())])])]);
    assert_eq!(
        out,
        vec![tracker_import(TRACKING), conditional(vec![inner(in_scope(vec![ret(markup())], None))])]
    );
}

/// The identifiers that the scopes of a list of statements are bound to,
/// outer scopes first.
fn bound_in(stmts: &[Stmt], found: &mut Vec<Ident>) {
    for stmt in stmts {
        match stmt {
            Stmt::Decl(Decl::Var(var)) => {
                if let Pat::Ident(name) = &var.decls[0].name {
                    if name.sym == "_effect" {
                        found.push(name.clone());
                    }
                }
            }
            Stmt::Decl(Decl::Fn(f)) => {
                if let Some(body) = &f.function.body {
                    bound_in(&body.stmts, found);
                }
            }
            Stmt::Try(guard) => bound_in(&guard.block.stmts, found),
            _ => {}
        }
    }
}

#[test]
fn every_scope_of_a_unit_has_an_identifier_of_its_own() {
    let inner = |binding: &str, span: Span| Stmt::Decl(Decl::Fn(fn_decl_at(span, binding, vec![ret(markup())])));
    let out = run_default(vec![
        fn_stmt(fn_decl_at(sp(10, 100), "A", vec![inner("B", sp(20, 40)), inner("C", sp(50, 70)), ret(markup())])),
        fn_stmt(fn_decl_at(sp(110, 200), "D", vec![ret(markup())])),
    ]);
    let mut found = Vec::new();
    for item in &out {
        if let ModuleItem::Stmt(stmt) = item {
            bound_in(std::slice::from_ref(stmt), &mut found);
        }
    }
    assert_eq!(
        found,
        vec![
            private("_effect", 4),
            private("_effect", 2),
            private("_effect", 3),
            private("_effect", 5),
        ]
    );
    for (i, a) in found.iter().enumerate() {
        assert_ne!(*a, tracker());
        for b in &found[i + 1..] {
            assert_ne!(a, b);
        }
    }
    assert_eq!(out[0], tracker_import(TRACKING));
}

#[test]
fn the_contexts_of_a_unit_start_where_the_state_says() {
    let mut visitor = SignalsTransformVisitor::from_default(no_comments(), None);
    visitor.next_ctxt = 40;
    let mut module = Module {
        span: sp(0, 1000),
        body: vec![fn_stmt(fn_decl_at(sp(30, 70), "A", vec![ret(markup())]))],
    };
    visitor.visit_mut_module(&mut module);
    assert_eq!(visitor.import_use_signals, Some(private("_useSignals", 40)));
    assert_eq!(
        module.body[1],
        fn_stmt(fn_decl_at(
            sp(30, 70),
            "A",
            scope_at(41, vec![ret(markup())], private("_useSignals", 40), None),
        ))
    );
    assert_eq!(visitor.next_ctxt, 42);
}

#[test]
fn a_source_identifier_with_the_spelling_of_the_scope_is_another_identifier() {
    // The body names `_effect` and `_useSignals` itself, in the context of the source.
    let body = || vec![expr_stmt(call(name("_useSignals"), vec![name("_effect")])), ret(markup())];
    let out = run_default(vec![fn_stmt(fn_decl_at(sp(30, 70), "A", body()))]);
    assert_eq!(
        out,
        vec![tracker_import(TRACKING), fn_stmt(fn_decl_at(sp(30, 70), "A", in_scope(body(), None)))]
    );
    assert_ne!(ident("_effect"), private("_effect", 2));
    assert_ne!(ident("_useSignals"), tracker());
}
