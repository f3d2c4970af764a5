//! What the walk makes of a tree, stated node by node: the verdict on each
//! shape of declaration, and the tree with every judged body wrapped.
//!
//! Each `visited_*` function takes a node and what the walk has handed out
//! before it comes to the node, and gives the node after the walk, what has
//! been handed out by then, and how many bodies were wrapped in the node. A
//! declaration is judged as it was written; the tracking scope goes around
//! the statements of its body as the walk leaves them, and is bound to an
//! identifier that is handed out when the walk is through with the body.

use crate::ast::Span;
use crate::detect::{Probe, found_in_function, found_in_function_like};
use crate::extract::{
    FunctionLikeView, bodied, extracted, extracted_from, own_ident, replaced_in, wrapped_function,
    wrapped_function_like,
};
use crate::rewrite::{
    import_of, is_directive, is_directive_item, private_ident, prologue_len, require_of,
};
use crate::utils::{
    Trackable, assign_target_kind, expr_span, name_kind, pat_kind, prop_name_kind,
    prop_name_span, strip_parens,
};
use crate::view::{
    ArrowExprView, AssignExprView, AssignTargetView, BlockStmtOrExprView, BlockStmtView,
    CallExprView, CompositeView, ComputedPropNameView, DeclView, DefaultDeclView,
    ExportDeclView, ExportDefaultDeclView, ExportDefaultExprView, ExprOrSpreadView,
    ExprStmtView, ExprView, FnDeclView, FnExprView, FunctionView, IdentView, KeyValuePropView,
    MemberExprView, MemberPropView, MethodPropView, ModuleDeclView, ModuleItemView,
    ModuleView, ObjectLitView, OtherStmtView, ParenExprView, PatView, ProgramView,
    PropNameView, PropView, ReturnStmtView, ScriptView, StmtView, StrView, TryStmtView,
    VarDeclView, VarDeclaratorView,
};
use crate::contexts::{top_ctxt_module, top_ctxt_script};
use crate::visitor::{Marks, Rules, SignalsTransformVisitor, decision, raised, scope_for};
use vstd::prelude::*;

verus! {

/// What a step of the walk goes by and does not change: the rules, and the
/// span of the exported declaration that is being walked and was judged as a
/// whole already.
pub ghost struct Context {
    pub rules: Rules,
    pub ignore_span: Option<Span>,
}

/// What a step of the walk gives: the node after it, what has been handed
/// out by then, and how many bodies the step wrapped.
pub ghost struct Walked<T> {
    pub node: T,
    pub marks: Marks,
    pub wraps: nat,
}

/// A step that gave `node` in the place of what the step `w` gave.
pub open spec fn put<A, B>(w: Walked<A>, node: B) -> Walked<B> {
    Walked { node, marks: w.marks, wraps: w.wraps }
}

/// A step that left `node` as it is.
pub open spec fn kept<T>(node: T, marks: Marks) -> Walked<T> {
    Walked { node, marks, wraps: 0 }
}

/// Two steps, one after the other, that together gave `node`.
pub open spec fn both<A, B, C>(first: Walked<A>, second: Walked<B>, node: C) -> Walked<C> {
    Walked { node, marks: second.marks, wraps: first.wraps + second.wraps }
}

impl SignalsTransformVisitor {
    /// What the next step of the walk goes by.
    pub open spec fn context(&self) -> Context {
        Context { rules: self.rules(), ignore_span: self.ignore_span }
    }

    /// `after` and `node` are this state and a node after a step of the
    /// walk that was to give `result`.
    pub open spec fn walked<T>(
        &self,
        after: &SignalsTransformVisitor,
        node: T,
        result: Walked<T>,
    ) -> bool {
        node == result.node && after.marks() == result.marks && self.settled(after)
    }
}

/// A wrap that is due: nothing, or the argument for the tracking entry
/// point, which may be absent.
pub type Pending = Option<Option<u8>>;

/// The wrap that a verdict asks for.
pub open spec fn pending_of(rules: Rules, verdict: Option<Trackable>) -> Pending {
    match verdict {
        Some(kind) => Some(kind.arg(rules.add_context_to_hooks)),
        None => None,
    }
}

/// The verdict on a function in expression position. It is judged by its
/// own name where it has one, else by `fallback`: the kind that the name of
/// its binding stands for, absent where the binding has no name.
pub open spec fn function_like_verdict(
    rules: Rules,
    spans: Seq<Span>,
    f: FunctionLikeView,
    fallback: Option<Option<Trackable>>,
    is_default_export: bool,
) -> Option<Trackable> {
    decision(
        rules,
        spans,
        match own_ident(f) {
            Some(ident) => Some(name_kind(ident.sym)),
            None => fallback,
        },
        found_in_function_like(f, Probe::Jsx),
        found_in_function_like(f, Probe::DotValue),
        is_default_export,
    )
}

/// The verdict on a function that is judged by a name given from outside.
pub open spec fn function_verdict(
    rules: Rules,
    spans: Seq<Span>,
    f: FunctionView,
    named: Option<Option<Trackable>>,
    is_default_export: bool,
) -> Option<Trackable> {
    decision(
        rules,
        spans,
        named,
        found_in_function(f, Probe::Jsx),
        found_in_function(f, Probe::DotValue),
        is_default_export,
    )
}

/// The verdict on a variable declaration: on the function that its first
/// binding is initialised with, and on no other binding. The comments are
/// looked up at the initialiser, at the declaration, and at `extra`.
pub open spec fn var_decl_verdict(v: VarDeclView, rules: Rules, extra: Seq<Span>) -> Option<
    Trackable,
> {
    if v.decls.len() > 0 {
        match v.decls[0].init {
            Some(init) => match extracted_from(*init, true) {
                Some(f) => function_like_verdict(
                    rules,
                    seq![expr_span(strip_parens(*init)), v.span] + extra,
                    f,
                    Some(pat_kind(v.decls[0].name)),
                    false,
                ),
                None => None,
            },
            None => None,
        }
    } else {
        None
    }
}

/// The verdict on a function declaration, with the comments looked up at
/// `spans`.
pub open spec fn fn_decl_verdict(fd: FnDeclView, rules: Rules, spans: Seq<Span>) -> Option<
    Trackable,
> {
    function_verdict(rules, spans, *fd.function, Some(name_kind(fd.ident.sym)), false)
}

/// The verdict on a function that is exported as the default.
pub open spec fn default_fn_verdict(fe: FnExprView, rules: Rules, export_span: Span) -> Option<
    Trackable,
> {
    function_verdict(
        rules,
        seq![export_span, fe.function.span],
        *fe.function,
        match fe.ident {
            Some(ident) => Some(name_kind(ident.sym)),
            None => None,
        },
        true,
    )
}

/// The verdict on an expression that is exported as the default.
pub open spec fn default_expr_verdict(e: ExportDefaultExprView, rules: Rules) -> Option<
    Trackable,
> {
    match extracted_from(*e.expr, true) {
        Some(f) => function_like_verdict(
            rules,
            seq![e.span, expr_span(strip_parens(*e.expr))],
            f,
            None,
            true,
        ),
        None => None,
    }
}

/// The verdict on an assignment: on the function that its right side stands
/// for.
pub open spec fn assign_verdict(a: AssignExprView, rules: Rules) -> Option<Trackable> {
    match extracted(*a.right) {
        Some(f) => function_like_verdict(
            rules,
            seq![a.span],
            f,
            Some(assign_target_kind(a.left)),
            false,
        ),
        None => None,
    }
}

/// The verdict on a property `key: value`: on the function that the value
/// stands for.
pub open spec fn key_value_verdict(kv: KeyValuePropView, rules: Rules) -> Option<Trackable> {
    match extracted(*kv.value) {
        Some(f) => function_like_verdict(
            rules,
            seq![prop_name_span(kv.key)],
            f,
            Some(prop_name_kind(kv.key)),
            false,
        ),
        None => None,
    }
}

/// The verdict on a method of an object literal.
pub open spec fn method_verdict(m: MethodPropView, rules: Rules) -> Option<Trackable> {
    function_verdict(
        rules,
        seq![m.function.span, prop_name_span(m.key)],
        *m.function,
        Some(prop_name_kind(m.key)),
        false,
    )
}


/// An expression after the walk.
pub open spec fn visited_expr(e: ExprView, cx: Context, marks: Marks) -> Walked<ExprView>
    decreases e, 0nat,
{
    match e {
        ExprView::Ident(_) => kept(e, marks),
        ExprView::Lit(_) => kept(e, marks),
        ExprView::Member(m) => {
            let w = visited_member(m, cx, marks);
            put(w, ExprView::Member(w.node))
        },
        ExprView::Call(c) => {
            let callee = visited_expr(*c.callee, cx, marks);
            let args = visited_args(c.args, cx, callee.marks);
            both(
                callee,
                args,
                ExprView::Call(
                    CallExprView { span: c.span, callee: Box::new(callee.node), args: args.node },
                ),
            )
        },
        ExprView::Fn(f) => {
            let w = visited_function(*f.function, cx, marks);
            put(w, ExprView::Fn(FnExprView { ident: f.ident, function: Box::new(w.node) }))
        },
        ExprView::Arrow(a) => {
            let w = visited_arrow(a, cx, marks);
            put(w, ExprView::Arrow(w.node))
        },
        ExprView::Assign(a) => {
            let w = visited_assign(a, cx, marks);
            put(w, ExprView::Assign(w.node))
        },
        ExprView::Object(o) => {
            let w = visited_props(o.props, cx, marks);
            put(w, ExprView::Object(ObjectLitView { span: o.span, props: w.node }))
        },
        ExprView::Paren(p) => {
            let w = visited_expr(*p.expr, cx, marks);
            put(w, ExprView::Paren(ParenExprView { span: p.span, expr: Box::new(w.node) }))
        },
        ExprView::JsxElement(c) => {
            let w = visited_composite(c, cx, marks);
            put(w, ExprView::JsxElement(w.node))
        },
        ExprView::JsxFragment(c) => {
            let w = visited_composite(c, cx, marks);
            put(w, ExprView::JsxFragment(w.node))
        },
        ExprView::Other(c) => {
            let w = visited_composite(c, cx, marks);
            put(w, ExprView::Other(w.node))
        },
    }
}

/// What a due wrap makes of a walked expression: the function that the
/// expression stands for gets a tracking scope around its body, bound to an
/// identifier that is handed out for it. An expression that stands for no
/// function, or for one without a body, stays as the walk left it, and
/// nothing is handed out.
pub open spec fn wrap_walked_expr(w: Walked<ExprView>, pending: Pending, through_parens: bool)
    -> Walked<ExprView> {
    match pending {
        Some(arg) => match extracted_from(w.node, through_parens) {
            Some(f) => if bodied(f) {
                let (tracker, effect, marks) = scope_for(w.marks);
                Walked {
                    node: replaced_in(
                        w.node,
                        wrapped_function_like(f, tracker, effect, arg),
                        through_parens,
                    ),
                    marks,
                    wraps: w.wraps + 1,
                }
            } else {
                w
            },
            None => w,
        },
        None => w,
    }
}

/// An expression after the walk, with the function that it stands for
/// wrapped where a wrap is due. `through_parens` says whether the expression
/// itself may stand in parentheses for that.
pub open spec fn visited_expr_with(
    e: ExprView,
    cx: Context,
    marks: Marks,
    pending: Pending,
    through_parens: bool,
) -> Walked<ExprView>
    decreases e, 1nat,
{
    wrap_walked_expr(visited_expr(e, cx, marks), pending, through_parens)
}

/// An argument of a call after the walk.
pub open spec fn visited_arg(arg: ExprOrSpreadView, cx: Context, marks: Marks) -> Walked<
    ExprOrSpreadView,
>
    decreases arg, 0nat,
{
    let w = visited_expr(*arg.expr, cx, marks);
    put(w, ExprOrSpreadView { spread: arg.spread, expr: Box::new(w.node) })
}

/// A property in brackets after the walk.
pub open spec fn visited_computed(computed: ComputedPropNameView, cx: Context, marks: Marks)
    -> Walked<ComputedPropNameView>
    decreases computed, 0nat,
{
    let w = visited_expr(*computed.expr, cx, marks);
    put(w, ComputedPropNameView { span: computed.span, expr: Box::new(w.node) })
}

/// The property of a member access after the walk.
pub open spec fn visited_member_prop(prop: MemberPropView, cx: Context, marks: Marks) -> Walked<
    MemberPropView,
>
    decreases prop, 0nat,
{
    match prop {
        MemberPropView::Computed(computed) => {
            let w = visited_computed(computed, cx, marks);
            put(w, MemberPropView::Computed(w.node))
        },
        _ => kept(prop, marks),
    }
}

/// A member access after the walk.
pub open spec fn visited_member(m: MemberExprView, cx: Context, marks: Marks) -> Walked<
    MemberExprView,
>
    decreases m, 0nat,
{
    let obj = visited_expr(*m.obj, cx, marks);
    let prop = visited_member_prop(m.prop, cx, obj.marks);
    both(obj, prop, MemberExprView { span: m.span, obj: Box::new(obj.node), prop: prop.node })
}

/// A construct without a rule of its own after the walk.
pub open spec fn visited_composite(c: CompositeView, cx: Context, marks: Marks) -> Walked<
    CompositeView,
>
    decreases c, 0nat,
{
    let w = visited_exprs(c.children, cx, marks);
    put(w, CompositeView { span: c.span, children: w.node })
}

/// The left side of an assignment after the walk.
pub open spec fn visited_target(target: AssignTargetView, cx: Context, marks: Marks) -> Walked<
    AssignTargetView,
>
    decreases target, 0nat,
{
    match target {
        AssignTargetView::Ident(_) => kept(target, marks),
        AssignTargetView::Member(m) => {
            let w = visited_member(m, cx, marks);
            put(w, AssignTargetView::Member(w.node))
        },
        AssignTargetView::Paren(p) => {
            let w = visited_expr(*p.expr, cx, marks);
            put(
                w,
                AssignTargetView::Paren(ParenExprView { span: p.span, expr: Box::new(w.node) }),
            )
        },
        AssignTargetView::Other(c) => {
            let w = visited_composite(c, cx, marks);
            put(w, AssignTargetView::Other(w.node))
        },
    }
}

/// An assignment after the walk: the function that its right side stands
/// for is wrapped where the verdict on the assignment says so.
pub open spec fn visited_assign(a: AssignExprView, cx: Context, marks: Marks) -> Walked<
    AssignExprView,
>
    decreases a, 0nat,
{
    let left = visited_target(a.left, cx, marks);
    let right = visited_expr_with(
        *a.right,
        cx,
        left.marks,
        pending_of(cx.rules, assign_verdict(a, cx.rules)),
        false,
    );
    both(
        left,
        right,
        AssignExprView { span: a.span, left: left.node, right: Box::new(right.node) },
    )
}

/// A pattern after the walk.
pub open spec fn visited_pat(pat: PatView, cx: Context, marks: Marks) -> Walked<PatView>
    decreases pat, 0nat,
{
    match pat {
        PatView::Ident(_) => kept(pat, marks),
        PatView::Other(c) => {
            let w = visited_composite(c, cx, marks);
            put(w, PatView::Other(w.node))
        },
    }
}

/// The key of a property after the walk.
pub open spec fn visited_key(key: PropNameView, cx: Context, marks: Marks) -> Walked<PropNameView>
    decreases key, 0nat,
{
    match key {
        PropNameView::Computed(computed) => {
            let w = visited_computed(computed, cx, marks);
            put(w, PropNameView::Computed(w.node))
        },
        _ => kept(key, marks),
    }
}

/// A property `key: value` after the walk: the function that the value
/// stands for is wrapped where the verdict on the property says so.
pub open spec fn visited_key_value(kv: KeyValuePropView, cx: Context, marks: Marks) -> Walked<
    KeyValuePropView,
>
    decreases kv, 0nat,
{
    let key = visited_key(kv.key, cx, marks);
    let value = visited_expr_with(
        *kv.value,
        cx,
        key.marks,
        pending_of(cx.rules, key_value_verdict(kv, cx.rules)),
        false,
    );
    both(key, value, KeyValuePropView { key: key.node, value: Box::new(value.node) })
}

/// A method of an object literal after the walk: its body is wrapped where
/// the verdict on the method says so.
pub open spec fn visited_method(m: MethodPropView, cx: Context, marks: Marks) -> Walked<
    MethodPropView,
>
    decreases m, 0nat,
{
    let key = visited_key(m.key, cx, marks);
    let function = visited_function_with(
        *m.function,
        cx,
        key.marks,
        pending_of(cx.rules, method_verdict(m, cx.rules)),
    );
    both(key, function, MethodPropView { key: key.node, function: Box::new(function.node) })
}

/// A member of an object literal after the walk.
pub open spec fn visited_prop(prop: PropView, cx: Context, marks: Marks) -> Walked<PropView>
    decreases prop, 0nat,
{
    match prop {
        PropView::KeyValue(kv) => {
            let w = visited_key_value(kv, cx, marks);
            put(w, PropView::KeyValue(w.node))
        },
        PropView::Method(m) => {
            let w = visited_method(m, cx, marks);
            put(w, PropView::Method(w.node))
        },
        PropView::Other(c) => {
            let w = visited_composite(c, cx, marks);
            put(w, PropView::Other(w.node))
        },
    }
}

/// A block after the walk.
pub open spec fn visited_block(block: BlockStmtView, cx: Context, marks: Marks) -> Walked<
    BlockStmtView,
>
    decreases block, 0nat,
{
    let w = visited_stmts(block.stmts, cx, marks);
    put(w, BlockStmtView { span: block.span, stmts: w.node })
}

/// A block that may be absent after the walk.
pub open spec fn visited_block_opt(block: Option<BlockStmtView>, cx: Context, marks: Marks)
    -> Walked<Option<BlockStmtView>>
    decreases block, 0nat,
{
    match block {
        Some(block) => {
            let w = visited_block(block, cx, marks);
            put(w, Some(w.node))
        },
        None => kept(None, marks),
    }
}

/// A function after the walk: its parameters and the statements of its
/// body after the walk.
pub open spec fn visited_function(f: FunctionView, cx: Context, marks: Marks) -> Walked<
    FunctionView,
>
    decreases f, 0nat,
{
    let params = visited_pats(f.params, cx, marks);
    let body = visited_block_opt(f.body, cx, params.marks);
    both(params, body, FunctionView { params: params.node, body: body.node, ..f })
}

/// What a due wrap makes of a walked function: its body gets a tracking
/// scope, bound to an identifier that is handed out for it. Where there is no
/// body, nothing is wrapped and nothing is handed out.
pub open spec fn wrap_walked_function(w: Walked<FunctionView>, pending: Pending) -> Walked<
    FunctionView,
> {
    match pending {
        Some(arg) => if w.node.body is Some {
            let (tracker, effect, marks) = scope_for(w.marks);
            Walked {
                node: wrapped_function(w.node, tracker, effect, arg),
                marks,
                wraps: w.wraps + 1,
            }
        } else {
            w
        },
        None => w,
    }
}

/// A function after the walk, with its body wrapped where a wrap is due.
pub open spec fn visited_function_with(
    f: FunctionView,
    cx: Context,
    marks: Marks,
    pending: Pending,
) -> Walked<FunctionView>
    decreases f, 1nat,
{
    wrap_walked_function(visited_function(f, cx, marks), pending)
}

/// The body of an arrow function after the walk.
pub open spec fn visited_arrow_body(body: BlockStmtOrExprView, cx: Context, marks: Marks)
    -> Walked<BlockStmtOrExprView>
    decreases body, 0nat,
{
    match body {
        BlockStmtOrExprView::BlockStmt(block) => {
            let w = visited_block(block, cx, marks);
            put(w, BlockStmtOrExprView::BlockStmt(w.node))
        },
        BlockStmtOrExprView::Expr(e) => {
            let w = visited_expr(*e, cx, marks);
            put(w, BlockStmtOrExprView::Expr(Box::new(w.node)))
        },
    }
}

/// An arrow function after the walk: its parameters and its body after the
/// walk.
pub open spec fn visited_arrow(a: ArrowExprView, cx: Context, marks: Marks) -> Walked<
    ArrowExprView,
>
    decreases a, 0nat,
{
    let params = visited_pats(a.params, cx, marks);
    let body = visited_arrow_body(*a.body, cx, params.marks);
    both(params, body, ArrowExprView { params: params.node, body: Box::new(body.node), ..a })
}

/// An expression that may be absent after the walk.
pub open spec fn visited_expr_opt(e: Option<Box<ExprView>>, cx: Context, marks: Marks) -> Walked<
    Option<Box<ExprView>>,
>
    decreases e, 0nat,
{
    match e {
        Some(e) => {
            let w = visited_expr(*e, cx, marks);
            put(w, Some(Box::new(w.node)))
        },
        None => kept(None, marks),
    }
}

/// A binding of a variable declaration after the walk.
pub open spec fn visited_declarator(d: VarDeclaratorView, cx: Context, marks: Marks) -> Walked<
    VarDeclaratorView,
>
    decreases d, 0nat,
{
    let name = visited_pat(d.name, cx, marks);
    let init = visited_expr_opt(d.init, cx, name.marks);
    both(name, init, VarDeclaratorView { span: d.span, name: name.node, init: init.node })
}

/// The function that the first binding of a variable declaration is
/// initialised with, under any parentheses, has a body.
pub open spec fn var_decl_bodied(v: VarDeclView) -> bool {
    &&& v.decls.len() > 0
    &&& v.decls[0].init matches Some(init)
    &&& extracted_from(*init, true) matches Some(f)
    &&& bodied(f)
}

/// A variable declaration with a tracking scope around the body of the
/// function that its first binding is initialised with.
pub open spec fn wrapped_var_decl(
    v: VarDeclView,
    tracker: IdentView,
    effect: IdentView,
    arg: Option<u8>,
) -> VarDeclView
    recommends
        var_decl_bodied(v),
{
    let init = *v.decls[0].init->Some_0;
    let f = extracted_from(init, true)->Some_0;
    VarDeclView {
        decls: v.decls.update(
            0,
            VarDeclaratorView {
                init: Some(
                    Box::new(
                        replaced_in(init, wrapped_function_like(f, tracker, effect, arg), true),
                    ),
                ),
                ..v.decls[0]
            },
        ),
        ..v
    }
}

/// What a due wrap makes of a walked variable declaration.
pub open spec fn wrap_walked_var_decl(w: Walked<VarDeclView>, pending: Pending) -> Walked<
    VarDeclView,
> {
    match pending {
        Some(arg) => if var_decl_bodied(w.node) {
            let (tracker, effect, marks) = scope_for(w.marks);
            Walked {
                node: wrapped_var_decl(w.node, tracker, effect, arg),
                marks,
                wraps: w.wraps + 1,
            }
        } else {
            w
        },
        None => w,
    }
}

/// A variable declaration after the walk, where `verdict` was reached on
/// it: every binding is walked, and then the function that the first is
/// initialised with is wrapped where the verdict says so.
pub open spec fn visited_var_decl(
    v: VarDeclView,
    cx: Context,
    marks: Marks,
    verdict: Option<Trackable>,
) -> Walked<VarDeclView>
    decreases v, 0nat,
{
    let w = visited_declarators(v.decls, cx, marks);
    wrap_walked_var_decl(
        put(w, VarDeclView { span: v.span, kind: v.kind, decls: w.node }),
        pending_of(cx.rules, verdict),
    )
}

/// A function declaration after the walk, where `verdict` was reached on
/// it.
pub open spec fn visited_fn_decl(
    fd: FnDeclView,
    cx: Context,
    marks: Marks,
    verdict: Option<Trackable>,
) -> Walked<FnDeclView>
    decreases fd, 2nat,
{
    let w = visited_function_with(*fd.function, cx, marks, pending_of(cx.rules, verdict));
    put(w, FnDeclView { ident: fd.ident, function: Box::new(w.node) })
}

/// The verdict on a variable declaration that the walk comes to as a
/// statement: none where the declaration is the exported one that was judged
/// already.
pub open spec fn plain_var_decl_verdict(v: VarDeclView, cx: Context) -> Option<Trackable> {
    if cx.ignore_span == Some(v.span) {
        None
    } else {
        var_decl_verdict(v, cx.rules, seq![])
    }
}

/// The verdict on a function declaration that the walk comes to as a
/// statement: none where the declaration is the exported one that was judged
/// already.
pub open spec fn plain_fn_decl_verdict(fd: FnDeclView, cx: Context) -> Option<Trackable> {
    if cx.ignore_span == Some(fd.function.span) {
        None
    } else {
        fn_decl_verdict(fd, cx.rules, seq![fd.function.span])
    }
}

/// A declaration after the walk.
pub open spec fn visited_decl(decl: DeclView, cx: Context, marks: Marks) -> Walked<DeclView>
    decreases decl, 0nat,
{
    match decl {
        DeclView::Var(v) => {
            let w = visited_var_decl(*v, cx, marks, plain_var_decl_verdict(*v, cx));
            put(w, DeclView::Var(Box::new(w.node)))
        },
        DeclView::Fn(fd) => {
            let w = visited_fn_decl(fd, cx, marks, plain_fn_decl_verdict(fd, cx));
            put(w, DeclView::Fn(w.node))
        },
        DeclView::Other(c) => {
            let w = visited_composite(c, cx, marks);
            put(w, DeclView::Other(w.node))
        },
    }
}

/// A `try` statement after the walk.
pub open spec fn visited_try(t: TryStmtView, cx: Context, marks: Marks) -> Walked<TryStmtView>
    decreases t, 0nat,
{
    let block = visited_block(t.block, cx, marks);
    let handler = visited_block_opt(t.handler, cx, block.marks);
    let finalizer = visited_block_opt(t.finalizer, cx, handler.marks);
    Walked {
        node: TryStmtView {
            span: t.span,
            block: block.node,
            handler: handler.node,
            finalizer: finalizer.node,
        },
        marks: finalizer.marks,
        wraps: block.wraps + handler.wraps + finalizer.wraps,
    }
}

/// A statement after the walk.
pub open spec fn visited_stmt(stmt: StmtView, cx: Context, marks: Marks) -> Walked<StmtView>
    decreases stmt, 0nat,
{
    match stmt {
        StmtView::Expr(s) => {
            let w = visited_expr(*s.expr, cx, marks);
            put(w, StmtView::Expr(ExprStmtView { span: s.span, expr: Box::new(w.node) }))
        },
        StmtView::Decl(decl) => {
            let w = visited_decl(decl, cx, marks);
            put(w, StmtView::Decl(w.node))
        },
        StmtView::Return(r) => {
            let w = visited_expr_opt(r.arg, cx, marks);
            put(w, StmtView::Return(ReturnStmtView { span: r.span, arg: w.node }))
        },
        StmtView::Try(t) => {
            let w = visited_try(*t, cx, marks);
            put(w, StmtView::Try(Box::new(w.node)))
        },
        StmtView::Block(block) => {
            let w = visited_block(block, cx, marks);
            put(w, StmtView::Block(w.node))
        },
        StmtView::Other(o) => {
            let exprs = visited_exprs(o.exprs, cx, marks);
            let stmts = visited_stmts(o.stmts, cx, exprs.marks);
            both(
                exprs,
                stmts,
                StmtView::Other(
                    OtherStmtView { span: o.span, exprs: exprs.node, stmts: stmts.node },
                ),
            )
        },
    }
}

/// The first `k` of the expressions of a list after the walk.
pub open spec fn visited_exprs_upto(nodes: Seq<ExprView>, cx: Context, marks: Marks, k: nat) -> Walked<
    Seq<ExprView>,
>
    decreases nodes, k,
{
    if 0 < k <= nodes.len() {
        let before = visited_exprs_upto(nodes, cx, marks, (k - 1) as nat);
        let last = visited_expr(nodes[k - 1], cx, before.marks);
        both(before, last, before.node.push(last.node))
    } else {
        kept(Seq::empty(), marks)
    }
}

/// The expressions of a list after the walk, which goes through them in their order.
pub open spec fn visited_exprs(nodes: Seq<ExprView>, cx: Context, marks: Marks) -> Walked<Seq<ExprView>>
    decreases nodes, nodes.len() + 1,
{
    visited_exprs_upto(nodes, cx, marks, nodes.len())
}

/// The first `k` of the arguments of a call after the walk.
pub open spec fn visited_args_upto(nodes: Seq<ExprOrSpreadView>, cx: Context, marks: Marks, k: nat) -> Walked<
    Seq<ExprOrSpreadView>,
>
    decreases nodes, k,
{
    if 0 < k <= nodes.len() {
        let before = visited_args_upto(nodes, cx, marks, (k - 1) as nat);
        let last = visited_arg(nodes[k - 1], cx, before.marks);
        both(before, last, before.node.push(last.node))
    } else {
        kept(Seq::empty(), marks)
    }
}

/// The arguments of a call after the walk, which goes through them in their order.
pub open spec fn visited_args(nodes: Seq<ExprOrSpreadView>, cx: Context, marks: Marks) -> Walked<Seq<ExprOrSpreadView>>
    decreases nodes, nodes.len() + 1,
{
    visited_args_upto(nodes, cx, marks, nodes.len())
}

/// The first `k` of the patterns of a list after the walk.
pub open spec fn visited_pats_upto(nodes: Seq<PatView>, cx: Context, marks: Marks, k: nat) -> Walked<
    Seq<PatView>,
>
    decreases nodes, k,
{
    if 0 < k <= nodes.len() {
        let before = visited_pats_upto(nodes, cx, marks, (k - 1) as nat);
        let last = visited_pat(nodes[k - 1], cx, before.marks);
        both(before, last, before.node.push(last.node))
    } else {
        kept(Seq::empty(), marks)
    }
}

/// The patterns of a list after the walk, which goes through them in their order.
pub open spec fn visited_pats(nodes: Seq<PatView>, cx: Context, marks: Marks) -> Walked<Seq<PatView>>
    decreases nodes, nodes.len() + 1,
{
    visited_pats_upto(nodes, cx, marks, nodes.len())
}

/// The first `k` of the members of an object literal after the walk.
pub open spec fn visited_props_upto(nodes: Seq<PropView>, cx: Context, marks: Marks, k: nat) -> Walked<
    Seq<PropView>,
>
    decreases nodes, k,
{
    if 0 < k <= nodes.len() {
        let before = visited_props_upto(nodes, cx, marks, (k - 1) as nat);
        let last = visited_prop(nodes[k - 1], cx, before.marks);
        both(before, last, before.node.push(last.node))
    } else {
        kept(Seq::empty(), marks)
    }
}

/// The members of an object literal after the walk, which goes through them in their order.
pub open spec fn visited_props(nodes: Seq<PropView>, cx: Context, marks: Marks) -> Walked<Seq<PropView>>
    decreases nodes, nodes.len() + 1,
{
    visited_props_upto(nodes, cx, marks, nodes.len())
}

/// The first `k` of the bindings of a variable declaration after the walk.
pub open spec fn visited_declarators_upto(nodes: Seq<VarDeclaratorView>, cx: Context, marks: Marks, k: nat) -> Walked<
    Seq<VarDeclaratorView>,
>
    decreases nodes, k,
{
    if 0 < k <= nodes.len() {
        let before = visited_declarators_upto(nodes, cx, marks, (k - 1) as nat);
        let last = visited_declarator(nodes[k - 1], cx, before.marks);
        both(before, last, before.node.push(last.node))
    } else {
        kept(Seq::empty(), marks)
    }
}

/// The bindings of a variable declaration after the walk, which goes through them in their order.
pub open spec fn visited_declarators(nodes: Seq<VarDeclaratorView>, cx: Context, marks: Marks) -> Walked<Seq<VarDeclaratorView>>
    decreases nodes, nodes.len() + 1,
{
    visited_declarators_upto(nodes, cx, marks, nodes.len())
}

/// The first `k` of the statements of a list after the walk.
pub open spec fn visited_stmts_upto(nodes: Seq<StmtView>, cx: Context, marks: Marks, k: nat) -> Walked<
    Seq<StmtView>,
>
    decreases nodes, k,
{
    if 0 < k <= nodes.len() {
        let before = visited_stmts_upto(nodes, cx, marks, (k - 1) as nat);
        let last = visited_stmt(nodes[k - 1], cx, before.marks);
        both(before, last, before.node.push(last.node))
    } else {
        kept(Seq::empty(), marks)
    }
}

/// The statements of a list after the walk, which goes through them in their order.
pub open spec fn visited_stmts(nodes: Seq<StmtView>, cx: Context, marks: Marks) -> Walked<Seq<StmtView>>
    decreases nodes, nodes.len() + 1,
{
    visited_stmts_upto(nodes, cx, marks, nodes.len())
}

/// The context in which the parts of an exported declaration are walked:
/// the declaration with span `judged` was judged as a whole.
pub open spec fn inside_export(cx: Context, judged: Span) -> Context {
    Context { ignore_span: Some(judged), ..cx }
}

/// An exported declaration after the walk. The declaration is judged here,
/// with the comments of the export counted in, and not again when the walk
/// comes to it as a declaration.
pub open spec fn visited_export_decl(e: ExportDeclView, cx: Context, marks: Marks) -> Walked<
    ExportDeclView,
> {
    match e.decl {
        DeclView::Var(v) => {
            let w = visited_var_decl(
                *v,
                inside_export(cx, v.span),
                marks,
                var_decl_verdict(*v, cx.rules, seq![e.span]),
            );
            put(w, ExportDeclView { span: e.span, decl: DeclView::Var(Box::new(w.node)) })
        },
        DeclView::Fn(fd) => {
            let w = visited_fn_decl(
                fd,
                inside_export(cx, fd.function.span),
                marks,
                fn_decl_verdict(fd, cx.rules, seq![e.span, fd.function.span]),
            );
            put(w, ExportDeclView { span: e.span, decl: DeclView::Fn(w.node) })
        },
        DeclView::Other(c) => {
            let w = visited_composite(c, cx, marks);
            put(w, ExportDeclView { span: e.span, decl: DeclView::Other(w.node) })
        },
    }
}

/// A default export of a declaration after the walk.
pub open spec fn visited_export_default_decl(e: ExportDefaultDeclView, cx: Context, marks: Marks)
    -> Walked<ExportDefaultDeclView> {
    match e.decl {
        DefaultDeclView::Fn(fe) => {
            let w = visited_function_with(
                *fe.function,
                inside_export(cx, fe.function.span),
                marks,
                pending_of(cx.rules, default_fn_verdict(fe, cx.rules, e.span)),
            );
            put(
                w,
                ExportDefaultDeclView {
                    span: e.span,
                    decl: DefaultDeclView::Fn(
                        FnExprView { ident: fe.ident, function: Box::new(w.node) },
                    ),
                },
            )
        },
        DefaultDeclView::Other(c) => {
            let w = visited_composite(c, cx, marks);
            put(w, ExportDefaultDeclView { span: e.span, decl: DefaultDeclView::Other(w.node) })
        },
    }
}

/// A default export of an expression after the walk.
pub open spec fn visited_export_default_expr(e: ExportDefaultExprView, cx: Context, marks: Marks)
    -> Walked<ExportDefaultExprView> {
    let w = visited_expr_with(
        *e.expr,
        cx,
        marks,
        pending_of(cx.rules, default_expr_verdict(e, cx.rules)),
        true,
    );
    put(w, ExportDefaultExprView { span: e.span, expr: Box::new(w.node) })
}

/// A module declaration after the walk.
pub open spec fn visited_module_decl(decl: ModuleDeclView, cx: Context, marks: Marks) -> Walked<
    ModuleDeclView,
> {
    match decl {
        ModuleDeclView::Import(_) => kept(decl, marks),
        ModuleDeclView::ExportDecl(e) => {
            let w = visited_export_decl(e, cx, marks);
            put(w, ModuleDeclView::ExportDecl(w.node))
        },
        ModuleDeclView::ExportDefaultDecl(e) => {
            let w = visited_export_default_decl(e, cx, marks);
            put(w, ModuleDeclView::ExportDefaultDecl(w.node))
        },
        ModuleDeclView::ExportDefaultExpr(e) => {
            let w = visited_export_default_expr(e, cx, marks);
            put(w, ModuleDeclView::ExportDefaultExpr(w.node))
        },
        ModuleDeclView::Other(_) => kept(decl, marks),
    }
}

/// A top-level item of a module after the walk.
pub open spec fn visited_module_item(item: ModuleItemView, cx: Context, marks: Marks) -> Walked<
    ModuleItemView,
> {
    match item {
        ModuleItemView::ModuleDecl(decl) => {
            let w = visited_module_decl(decl, cx, marks);
            put(w, ModuleItemView::ModuleDecl(w.node))
        },
        ModuleItemView::Stmt(stmt) => {
            let w = visited_stmt(stmt, cx, marks);
            put(w, ModuleItemView::Stmt(w.node))
        },
    }
}

/// The first `k` of the top-level items of a module after the walk.
pub open spec fn visited_module_items_upto(
    nodes: Seq<ModuleItemView>,
    cx: Context,
    marks: Marks,
    k: nat,
) -> Walked<Seq<ModuleItemView>>
    decreases k,
{
    if 0 < k <= nodes.len() {
        let before = visited_module_items_upto(nodes, cx, marks, (k - 1) as nat);
        let last = visited_module_item(nodes[k - 1], cx, before.marks);
        both(before, last, before.node.push(last.node))
    } else {
        kept(Seq::empty(), marks)
    }
}

/// The top-level items of a module after the walk, which goes through them
/// in their order.
pub open spec fn visited_module_items(nodes: Seq<ModuleItemView>, cx: Context, marks: Marks)
    -> Walked<Seq<ModuleItemView>> {
    visited_module_items_upto(nodes, cx, marks, nodes.len())
}

/// What a unit starts from: no body of it has asked for the tracking entry
/// point yet, and `next` is the next syntax context to hand out.
pub open spec fn unit_marks(next: u32) -> Marks {
    Marks { tracker: None, next }
}

/// What the walk over a module starts from, where `next` was the next
/// syntax context to hand out before: the contexts that the pass hands out
/// for the module begin above those that the module holds.
pub open spec fn module_marks(m: ModuleView, next: u32) -> Marks {
    unit_marks(raised(next, top_ctxt_module(m)))
}

/// What the walk over a script starts from, where `next` was the next
/// syntax context to hand out before.
pub open spec fn script_marks(s: ScriptView, next: u32) -> Marks {
    unit_marks(raised(next, top_ctxt_script(s)))
}

/// The context in which a unit is walked.
pub open spec fn unit_context(rules: Rules, ignore_span: Option<Span>) -> Context {
    Context { rules, ignore_span }
}

/// The name under which the tracking entry point is exported, in the syntax
/// context of the local name that it is bound to.
pub open spec fn entry_point_ident(ctxt: u32) -> IdentView {
    private_ident("useSignals"@, ctxt)
}

/// The import that binds the tracking entry point of the module `source` to
/// `tracker`.
pub open spec fn tracker_import(tracker: IdentView, source: StrView) -> ModuleItemView {
    ModuleItemView::ModuleDecl(
        ModuleDeclView::Import(
            import_of(tracker, source, Some(entry_point_ident(tracker.ctxt))),
        ),
    )
}

/// The statement that loads the tracking entry point of the module `source`
/// into `tracker`.
pub open spec fn tracker_require(tracker: IdentView, source: StrView) -> StmtView {
    require_of(tracker, source, Some(entry_point_ident(tracker.ctxt)))
}

/// A module after the pass: its items after the walk, and, where a body
/// asked for the tracking entry point, the import that binds it, behind the
/// directives at the head of the module.
pub open spec fn transformed_module(
    m: ModuleView,
    rules: Rules,
    ignore_span: Option<Span>,
    source: StrView,
    next: u32,
) -> ModuleView {
    let w = visited_module_items(m.body, unit_context(rules, ignore_span), module_marks(m, next));
    ModuleView {
        span: m.span,
        body: match w.marks.tracker {
            Some(tracker) => w.node.insert(
                prologue_len(w.node.map_values(|i: ModuleItemView| is_directive_item(i))) as int,
                tracker_import(tracker, source),
            ),
            None => w.node,
        },
    }
}

/// A script after the pass: its statements after the walk, and, where a
/// body asked for the tracking entry point, the statement that loads it,
/// behind the directives at the head of the script.
pub open spec fn transformed_script(
    s: ScriptView,
    rules: Rules,
    ignore_span: Option<Span>,
    source: StrView,
    next: u32,
) -> ScriptView {
    let w = visited_stmts(s.body, unit_context(rules, ignore_span), script_marks(s, next));
    ScriptView {
        span: s.span,
        body: match w.marks.tracker {
            Some(tracker) => w.node.insert(
                prologue_len(w.node.map_values(|s: StmtView| is_directive(s))) as int,
                tracker_require(tracker, source),
            ),
            None => w.node,
        },
    }
}

/// What the walk over a unit has handed out when it is through.
pub open spec fn marks_after_program(
    p: ProgramView,
    rules: Rules,
    ignore_span: Option<Span>,
    next: u32,
) -> Marks {
    match p {
        ProgramView::Module(m) => visited_module_items(
            m.body,
            unit_context(rules, ignore_span),
            module_marks(m, next),
        ).marks,
        ProgramView::Script(s) => visited_stmts(
            s.body,
            unit_context(rules, ignore_span),
            script_marks(s, next),
        ).marks,
    }
}

/// A compilation unit after the pass.
pub open spec fn transformed_program(
    p: ProgramView,
    rules: Rules,
    ignore_span: Option<Span>,
    source: StrView,
    next: u32,
) -> ProgramView {
    match p {
        ProgramView::Module(m) => ProgramView::Module(
            transformed_module(m, rules, ignore_span, source, next),
        ),
        ProgramView::Script(s) => ProgramView::Script(
            transformed_script(s, rules, ignore_span, source, next),
        ),
    }
}

} // verus!
