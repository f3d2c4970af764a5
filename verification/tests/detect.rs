use swc_plugin_preact_signals::ast::{
    ArrowExpr, AssignExpr, AssignTarget, BlockStmt, BlockStmtOrExpr, CallExpr, Composite,
    ComputedPropName, Decl, Expr, ExprOrSpread, ExprStmt, FnDecl, FnExpr, Function, Ident,
    KeyValueProp, Lit, MemberExpr, MemberProp, MethodProp, Number, ObjectLit, OtherStmt,
    ParenExpr, Pat, Prop, PropName, ReturnStmt, Span, Stmt, Str, TryStmt, VarDecl, VarDeclKind,
    VarDeclarator,
};
use swc_plugin_preact_signals::detect::{scan_arrow, scan_expr, scan_function, Probe};
use swc_plugin_preact_signals::utils::{
    extract_fn_from_expr, Detectable, FunctionLike, FunctionLikeExpr,
};

fn sp(lo: u32, hi: u32) -> Span {
    Span { lo, hi }
}


fn ident(sym: &str) -> Ident {
    Ident { span: sp(900, 901), sym: sym.to_string(), ctxt: 0 }
}


fn name(sym: &str) -> Expr {
    Expr::Ident(ident(sym))
}


fn text(value: &str) -> Expr {
    Expr::Lit(Lit::Str(Str { span: sp(902, 903), value: value.to_string() }))
}


fn number(value: u32) -> Expr {
    Expr::Lit(Lit::Num(Number { span: sp(904, 905), value }))
}


fn markup() -> Expr {
    Expr::JsxElement(Composite { span: sp(906, 907), children: vec![] })
}


fn dot(obj: Expr, prop: &str) -> Expr {
    Expr::Member(MemberExpr {
        span: sp(908, 909),
        obj: Box::new(obj),
        prop: MemberProp::Ident(ident(prop)),
    })
}


fn call(callee: Expr, args: Vec<Expr>) -> Expr {
    Expr::Call(CallExpr {
        span: sp(910, 911),
        callee: Box::new(callee),
        args: args.into_iter().map(|e| ExprOrSpread { spread: None, expr: Box::new(e) }).collect(),
    })
}


fn paren(expr: Expr) -> Expr {
    Expr::Paren(ParenExpr { span: sp(912, 913), expr: Box::new(expr) })
}


fn ret(arg: Expr) -> Stmt {
    Stmt::Return(ReturnStmt { span: sp(914, 915), arg: Some(Box::new(arg)) })
}


fn expr_stmt(expr: Expr) -> Stmt {
    Stmt::Expr(ExprStmt { span: sp(916, 917), expr: Box::new(expr) })
}


fn block(stmts: Vec<Stmt>) -> BlockStmt {
    BlockStmt { span: sp(918, 919), stmts }
}


fn function_at(span: Span, stmts: Vec<Stmt>) -> Function {
    Function { span, params: vec![], body: Some(block(stmts)), is_async: false, is_generator: false }
}


fn arrow_at(span: Span, stmts: Vec<Stmt>) -> ArrowExpr {
    ArrowExpr {
        span,
        params: vec![],
        body: Box::new(BlockStmtOrExpr::BlockStmt(block(stmts))),
        is_async: false,
        is_generator: false,
    }
}


fn computed_member(obj: Expr, key: Expr) -> Expr {
    Expr::Member(MemberExpr {
        span: sp(930, 931),
        obj: Box::new(obj),
        prop: MemberProp::Computed(ComputedPropName { span: sp(932, 933), expr: Box::new(key) }),
    })
}

fn other(children: Vec<Expr>) -> Expr {
    Expr::Other(Composite { span: sp(934, 935), children })
}

fn fragment(children: Vec<Expr>) -> Expr {
    Expr::JsxFragment(Composite { span: sp(936, 937), children })
}

fn element(children: Vec<Expr>) -> Expr {
    Expr::JsxElement(Composite { span: sp(938, 939), children })
}

fn body_of(stmts: Vec<Stmt>) -> Function {
    function_at(sp(1, 99), stmts)
}

#[test]
fn markup_in_a_return_is_found() {
    assert!(body_of(vec![ret(markup())]).has_jsx());
    assert!(body_of(vec![ret(fragment(vec![]))]).has_jsx());
    assert!(!body_of(vec![ret(number(1))]).has_jsx());
    assert!(!body_of(vec![]).has_jsx());
}

#[test]
fn markup_is_found_however_deep() {
    let deep = body_of(vec![Stmt::Other(OtherStmt {
        span: sp(1, 2),
        exprs: vec![name("cond")],
        stmts: vec![Stmt::Block(block(vec![expr_stmt(call(
            name("render"),
            vec![name("x"), other(vec![paren(markup())])],
        ))]))],
    })]);
    assert!(deep.has_jsx());
    assert!(!deep.has_dot_value());
}

#[test]
fn markup_in_a_nested_function_counts_for_the_outer_one() {
    let outer = body_of(vec![Stmt::Decl(Decl::Fn(FnDecl {
        ident: ident("helper"),
        function: Box::new(function_at(sp(10, 20), vec![ret(markup())])),
    }))]);
    assert!(outer.has_jsx());
    let outer = body_of(vec![expr_stmt(Expr::Arrow(ArrowExpr {
        span: sp(10, 20),
        params: vec![],
        body: Box::new(BlockStmtOrExpr::Expr(Box::new(markup()))),
        is_async: true,
        is_generator: false,
    }))]);
    assert!(outer.has_jsx());
}

#[test]
fn markup_in_a_parameter_default_is_found() {
    let f = Function {
        span: sp(1, 99),
        params: vec![Pat::Other(Composite { span: sp(2, 3), children: vec![markup()] })],
        body: Some(block(vec![])),
        is_async: false,
        is_generator: false,
    };
    assert!(f.has_jsx());
    let signature = Function { body: None, ..function_at(sp(1, 99), vec![]) };
    assert!(!signature.has_jsx());
    assert!(!signature.has_dot_value());
}

#[test]
fn a_read_of_value_is_found() {
    assert!(body_of(vec![ret(dot(name("count"), "value"))]).has_dot_value());
    assert!(!body_of(vec![ret(dot(name("count"), "values"))]).has_dot_value());
    assert!(!body_of(vec![ret(dot(name("value"), "count"))]).has_dot_value());
    assert!(!body_of(vec![ret(name("value"))]).has_dot_value());
    assert!(!body_of(vec![ret(dot(name("count"), "Value"))]).has_dot_value());
}

#[test]
fn a_read_of_value_by_a_literal_key_is_found() {
    assert!(body_of(vec![ret(computed_member(name("count"), text("value")))]).has_dot_value());
    assert!(
        body_of(vec![ret(computed_member(name("count"), paren(text("value"))))]).has_dot_value()
    );
    assert!(!body_of(vec![ret(computed_member(name("count"), text("other")))]).has_dot_value());
    assert!(!body_of(vec![ret(computed_member(name("count"), name("value")))]).has_dot_value());
}

#[test]
fn a_private_name_is_no_read_of_value() {
    let private_access = Expr::Member(MemberExpr {
        span: sp(1, 2),
        obj: Box::new(name("this")),
        prop: MemberProp::PrivateName(ident("value")),
    });
    assert!(!body_of(vec![ret(private_access)]).has_dot_value());
}

#[test]
fn a_read_of_value_inside_an_object_or_a_key_is_found() {
    assert!(body_of(vec![ret(dot(dot(name("a"), "value"), "b"))]).has_dot_value());
    assert!(body_of(vec![ret(computed_member(name("a"), dot(name("k"), "value")))])
        .has_dot_value());
    let object = Expr::Object(ObjectLit {
        span: sp(1, 2),
        props: vec![
            Prop::Other(Composite { span: sp(3, 4), children: vec![name("x")] }),
            Prop::KeyValue(KeyValueProp {
                key: PropName::Computed(ComputedPropName {
                    span: sp(5, 6),
                    expr: Box::new(dot(name("k"), "value")),
                }),
                value: Box::new(number(1)),
            }),
        ],
    });
    assert!(body_of(vec![ret(object)]).has_dot_value());
    let method = Expr::Object(ObjectLit {
        span: sp(1, 2),
        props: vec![Prop::Method(MethodProp {
            key: PropName::Ident(ident("m")),
            function: Box::new(function_at(sp(7, 8), vec![ret(dot(name("s"), "value"))])),
        })],
    });
    assert!(body_of(vec![ret(method)]).has_dot_value());
}

#[test]
fn a_write_to_value_counts_as_an_access() {
    let assign = |left: AssignTarget| {
        Expr::Assign(AssignExpr { span: sp(1, 2), left, right: Box::new(number(1)) })
    };
    let target = AssignTarget::Member(MemberExpr {
        span: sp(3, 4),
        obj: Box::new(name("count")),
        prop: MemberProp::Ident(ident("value")),
    });
    assert!(body_of(vec![expr_stmt(assign(target))]).has_dot_value());
    assert!(!body_of(vec![expr_stmt(assign(AssignTarget::Ident(ident("value"))))])
        .has_dot_value());
    let in_parens = AssignTarget::Paren(ParenExpr {
        span: sp(5, 6),
        expr: Box::new(dot(name("count"), "value")),
    });
    assert!(body_of(vec![expr_stmt(assign(in_parens))]).has_dot_value());
}

#[test]
fn statements_of_every_kind_are_scanned() {
    let in_try = |t: TryStmt| body_of(vec![Stmt::Try(Box::new(t))]);
    let empty = || BlockStmt { span: sp(1, 2), stmts: vec![] };
    let hit = || block(vec![ret(dot(name("s"), "value"))]);
    assert!(in_try(TryStmt { span: sp(1, 2), block: hit(), handler: None, finalizer: None })
        .has_dot_value());
    assert!(in_try(TryStmt {
        span: sp(1, 2),
        block: empty(),
        handler: Some(hit()),
        finalizer: None
    })
    .has_dot_value());
    assert!(in_try(TryStmt {
        span: sp(1, 2),
        block: empty(),
        handler: None,
        finalizer: Some(hit())
    })
    .has_dot_value());
    assert!(!in_try(TryStmt {
        span: sp(1, 2),
        block: empty(),
        handler: Some(empty()),
        finalizer: Some(empty())
    })
    .has_dot_value());
    let declared = body_of(vec![Stmt::Decl(Decl::Var(Box::new(VarDecl {
        span: sp(1, 2),
        kind: VarDeclKind::Const,
        decls: vec![
            VarDeclarator { span: sp(3, 4), name: Pat::Ident(ident("a")), init: None },
            VarDeclarator {
                span: sp(5, 6),
                name: Pat::Ident(ident("b")),
                init: Some(Box::new(element(vec![name("x")]))),
            },
        ],
    })))]);
    assert!(declared.has_jsx());
    assert!(!declared.has_dot_value());
    let class_like = body_of(vec![Stmt::Decl(Decl::Other(Composite {
        span: sp(1, 2),
        children: vec![dot(name("s"), "value")],
    }))]);
    assert!(class_like.has_dot_value());
    assert!(!body_of(vec![Stmt::Return(ReturnStmt { span: sp(1, 2), arg: None })]).has_jsx());
}

#[test]
fn expressions_inside_markup_are_scanned() {
    let with_read = body_of(vec![ret(element(vec![dot(name("count"), "value")]))]);
    assert!(with_read.has_jsx());
    assert!(with_read.has_dot_value());
}

#[test]
fn scans_agree_across_the_forms_of_a_function() {
    let stmts = || vec![ret(element(vec![dot(name("count"), "value")]))];
    let f = FnExpr { ident: None, function: Box::new(function_at(sp(1, 2), stmts())) };
    assert!(f.has_jsx() && f.has_dot_value());
    let d = FnDecl { ident: ident("A"), function: Box::new(function_at(sp(1, 2), stmts())) };
    assert!(d.has_jsx() && d.has_dot_value());
    let a = Expr::Arrow(arrow_at(sp(1, 2), stmts()));
    let like = extract_fn_from_expr(&a).expect("an arrow function");
    assert!(like.has_jsx() && like.has_dot_value());
    assert!(scan_expr(&a, Probe::Jsx));
    assert!(scan_arrow(&arrow_at(sp(1, 2), stmts()), Probe::DotValue));
    assert!(scan_function(&function_at(sp(1, 2), stmts()), Probe::Jsx));
    assert!(!scan_expr(&name("x"), Probe::Jsx));
}

#[test]
fn regular_functions_only() {
    assert!(arrow_at(sp(1, 2), vec![]).is_regular());
    assert!(!ArrowExpr { is_async: true, ..arrow_at(sp(1, 2), vec![]) }.is_regular());
    assert!(!ArrowExpr { is_generator: true, ..arrow_at(sp(1, 2), vec![]) }.is_regular());
    assert!(function_at(sp(1, 2), vec![]).is_regular());
    assert!(!Function { is_async: true, ..function_at(sp(1, 2), vec![]) }.is_regular());
    let generator = Function { is_generator: true, ..function_at(sp(1, 2), vec![]) };
    assert!(!FnExpr { ident: None, function: Box::new(generator) }.is_regular());
    let plain = FnDecl { ident: ident("f"), function: Box::new(function_at(sp(1, 2), vec![])) };
    assert!(plain.is_regular());
}

#[test]
fn an_arrow_or_a_function_expression_is_extracted() {
    let arrow = Expr::Arrow(arrow_at(sp(1, 2), vec![]));
    assert!(matches!(extract_fn_from_expr(&arrow), Some(FunctionLike::Arrow(_))));
    let function = Expr::Fn(FnExpr {
        ident: Some(ident("Inner")),
        function: Box::new(function_at(sp(1, 2), vec![])),
    });
    match extract_fn_from_expr(&function) {
        Some(found) => {
            assert!(matches!(found, FunctionLike::Fn(_)));
            assert_eq!(found.get_fn_ident(), Some(ident("Inner")));
            assert!(found.has_body());
        }
        None => panic!("expected a function expression"),
    }
}

#[test]
fn only_a_named_function_expression_has_a_name_of_its_own() {
    let arrow = Expr::Arrow(arrow_at(sp(1, 2), vec![]));
    assert_eq!(extract_fn_from_expr(&arrow).expect("an arrow").get_fn_ident(), None);
    let anonymous =
        Expr::Fn(FnExpr { ident: None, function: Box::new(function_at(sp(1, 2), vec![])) });
    assert_eq!(extract_fn_from_expr(&anonymous).expect("a function").get_fn_ident(), None);
}

#[test]
fn asynchronous_functions_and_generators_are_not_extracted() {
    let a = Expr::Arrow(ArrowExpr { is_async: true, ..arrow_at(sp(1, 2), vec![]) });
    assert!(extract_fn_from_expr(&a).is_none());
    let g = Expr::Fn(FnExpr {
        ident: None,
        function: Box::new(Function { is_generator: true, ..function_at(sp(1, 2), vec![]) }),
    });
    assert!(extract_fn_from_expr(&g).is_none());
    let wrapped = call(name("memo"), vec![a]);
    assert!(extract_fn_from_expr(&wrapped).is_none());
}

#[test]
fn the_first_argument_of_a_call_is_looked_into() {
    let arrow = || Expr::Arrow(arrow_at(sp(1, 2), vec![]));
    assert!(extract_fn_from_expr(&call(name("memo"), vec![arrow()])).is_some());
    assert!(extract_fn_from_expr(&call(name("memo"), vec![paren(paren(arrow()))])).is_some());
    assert!(extract_fn_from_expr(&call(
        name("memo"),
        vec![call(name("forwardRef"), vec![arrow()])]
    ))
    .is_some());
    assert!(extract_fn_from_expr(&call(name("memo"), vec![name("x"), arrow()])).is_none());
    assert!(extract_fn_from_expr(&call(name("memo"), vec![])).is_none());
    assert!(extract_fn_from_expr(&call(arrow(), vec![])).is_none());
}

#[test]
fn a_spread_first_argument_is_not_looked_into() {
    let spread = Expr::Call(CallExpr {
        span: sp(1, 2),
        callee: Box::new(name("memo")),
        args: vec![ExprOrSpread {
            spread: Some(sp(3, 4)),
            expr: Box::new(Expr::Arrow(arrow_at(sp(5, 6), vec![]))),
        }],
    });
    assert!(extract_fn_from_expr(&spread).is_none());
}

#[test]
fn parentheses_around_the_expression_itself_hide_the_function() {
    let arrow = || Expr::Arrow(arrow_at(sp(1, 2), vec![]));
    assert!(extract_fn_from_expr(&paren(arrow())).is_none());
    assert!(extract_fn_from_expr(paren(arrow()).unwrap_parens()).is_some());
}

#[test]
fn other_expressions_stand_for_no_function() {
    assert!(extract_fn_from_expr(&name("Component")).is_none());
    assert!(extract_fn_from_expr(&text("Component")).is_none());
    assert!(extract_fn_from_expr(&markup()).is_none());
    assert!(extract_fn_from_expr(&dot(name("a"), "b")).is_none());
    assert!(extract_fn_from_expr(&other(vec![Expr::Arrow(arrow_at(sp(1, 2), vec![]))])).is_none());
}
