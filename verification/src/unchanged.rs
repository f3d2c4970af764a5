//! What every step of the walk keeps: the local name of the tracking entry
//! point stays once the unit has one, a step that wraps a body leaves the unit
//! with such a name, which is made in the first syntax context that the unit
//! hands out, a step that wraps no body changes nothing, neither in the tree
//! nor in what has been handed out, and the syntax contexts are handed out
//! upwards, at most three for a wrap, until the numbers start again.

use crate::rewrite::tracker_ident;
use crate::utils::Trackable;
use crate::view::{
    ArrowExprView, AssignExprView, AssignTargetView, BlockStmtOrExprView, BlockStmtView,
    CompositeView, ComputedPropNameView, DeclView, DefaultDeclView, ExportDeclView,
    ExportDefaultDeclView, ExportDefaultExprView, ExprOrSpreadView, ExprView, FnDeclView,
    FunctionView, KeyValuePropView, MemberExprView, MemberPropView, MethodPropView,
    ModuleDeclView, ModuleItemView, PatView, PropNameView, PropView, StmtView, TryStmtView,
    VarDeclView, VarDeclaratorView,
};
use crate::visitor::Marks;
use crate::walk::{
    Context, Pending, Walked, assign_verdict, default_expr_verdict, default_fn_verdict,
    fn_decl_verdict, inside_export, key_value_verdict, method_verdict, pending_of,
    plain_fn_decl_verdict, plain_var_decl_verdict, var_decl_verdict, visited_arg, visited_args,
    visited_args_upto, visited_arrow, visited_arrow_body, visited_assign, visited_block,
    visited_block_opt, visited_composite, visited_computed, visited_decl, visited_declarator,
    visited_declarators, visited_declarators_upto, visited_export_decl,
    visited_export_default_decl, visited_export_default_expr, visited_expr, visited_expr_opt,
    visited_expr_with, visited_exprs, visited_exprs_upto, visited_fn_decl, visited_function,
    visited_function_with, visited_key, visited_key_value, visited_member, visited_member_prop,
    visited_method, visited_module_decl, visited_module_item, visited_module_items,
    visited_module_items_upto, visited_pat, visited_pats, visited_pats_upto, visited_prop,
    visited_props, visited_props_upto, visited_stmt, visited_stmts, visited_stmts_upto,
    visited_target, visited_try, visited_var_decl, wrap_walked_expr,
};
use vstd::prelude::*;

verus! {

/// A step kept what every step of the walk keeps: it started from `marks`
/// at the node `before` and gave `w`.
pub open spec fn steady<T>(before: T, marks: Marks, w: Walked<T>) -> bool {
    &&& marks.tracker is Some ==> w.marks.tracker == marks.tracker
    &&& w.wraps > 0 ==> w.marks.tracker is Some
    &&& w.wraps == 0 ==> w.node == before && w.marks == marks
    &&& marks.tracker is None ==> (w.marks.tracker matches Some(tracker) ==> tracker
        == tracker_ident(marks.next) && w.wraps > 0)
    &&& marks.next + 3 * w.wraps <= u32::MAX ==> marks.next <= w.marks.next <= marks.next + 3
        * w.wraps
}

/// A due wrap keeps what every step keeps.
pub proof fn lemma_steady_wrap_expr(
    before: ExprView,
    marks: Marks,
    w: Walked<ExprView>,
    pending: Pending,
    through_parens: bool,
)
    requires
        steady(before, marks, w),
    ensures
        steady(before, marks, wrap_walked_expr(w, pending, through_parens)),
{
}

/// The walk over an expression keeps what every step keeps.
pub proof fn lemma_steady_expr(node: ExprView, cx: Context, marks: Marks)
    ensures
        steady(node, marks, visited_expr(node, cx, marks)),
    decreases node, 0nat,
{
    match node {
        ExprView::Ident(_) => {},
        ExprView::Lit(_) => {},
        ExprView::Member(m) => {
            lemma_steady_member(m, cx, marks);
        },
        ExprView::Call(c) => {
            lemma_steady_expr(*c.callee, cx, marks);
            lemma_steady_args(c.args, cx, visited_expr(*c.callee, cx, marks).marks);
        },
        ExprView::Fn(f) => {
            lemma_steady_function(*f.function, cx, marks);
        },
        ExprView::Arrow(a) => {
            lemma_steady_arrow(a, cx, marks);
        },
        ExprView::Assign(a) => {
            lemma_steady_assign(a, cx, marks);
        },
        ExprView::Object(o) => {
            lemma_steady_props(o.props, cx, marks);
        },
        ExprView::Paren(p) => {
            lemma_steady_expr(*p.expr, cx, marks);
        },
        ExprView::JsxElement(c) => {
            lemma_steady_composite(c, cx, marks);
        },
        ExprView::JsxFragment(c) => {
            lemma_steady_composite(c, cx, marks);
        },
        ExprView::Other(c) => {
            lemma_steady_composite(c, cx, marks);
        },
    }
}

/// The walk over an expression, with a wrap due or not, keeps what every step keeps.
pub proof fn lemma_steady_expr_with(node: ExprView, cx: Context, marks: Marks, pending: Pending, through_parens: bool)
    ensures
        steady(node, marks, visited_expr_with(node, cx, marks, pending, through_parens)),
    decreases node, 1nat,
{
    lemma_steady_expr(node, cx, marks);
    lemma_steady_wrap_expr(node, marks, visited_expr(node, cx, marks), pending, through_parens);
}

/// The walk over an argument of a call keeps what every step keeps.
pub proof fn lemma_steady_arg(node: ExprOrSpreadView, cx: Context, marks: Marks)
    ensures
        steady(node, marks, visited_arg(node, cx, marks)),
    decreases node, 0nat,
{
    lemma_steady_expr(*node.expr, cx, marks);
}

/// The walk over a property in brackets keeps what every step keeps.
pub proof fn lemma_steady_computed(node: ComputedPropNameView, cx: Context, marks: Marks)
    ensures
        steady(node, marks, visited_computed(node, cx, marks)),
    decreases node, 0nat,
{
    lemma_steady_expr(*node.expr, cx, marks);
}

/// The walk over the property of a member access keeps what every step keeps.
pub proof fn lemma_steady_member_prop(node: MemberPropView, cx: Context, marks: Marks)
    ensures
        steady(node, marks, visited_member_prop(node, cx, marks)),
    decreases node, 0nat,
{
    match node {
        MemberPropView::Computed(computed) => {
            lemma_steady_computed(computed, cx, marks);
        },
        _ => {},
    }
}

/// The walk over a member access keeps what every step keeps.
pub proof fn lemma_steady_member(node: MemberExprView, cx: Context, marks: Marks)
    ensures
        steady(node, marks, visited_member(node, cx, marks)),
    decreases node, 0nat,
{
    lemma_steady_expr(*node.obj, cx, marks);
    lemma_steady_member_prop(node.prop, cx, visited_expr(*node.obj, cx, marks).marks);
}

/// The walk over a construct without a rule of its own keeps what every step keeps.
pub proof fn lemma_steady_composite(node: CompositeView, cx: Context, marks: Marks)
    ensures
        steady(node, marks, visited_composite(node, cx, marks)),
    decreases node, 0nat,
{
    lemma_steady_exprs(node.children, cx, marks);
}

/// The walk over the left side of an assignment keeps what every step keeps.
pub proof fn lemma_steady_target(node: AssignTargetView, cx: Context, marks: Marks)
    ensures
        steady(node, marks, visited_target(node, cx, marks)),
    decreases node, 0nat,
{
    match node {
        AssignTargetView::Ident(_) => {},
        AssignTargetView::Member(m) => {
            lemma_steady_member(m, cx, marks);
        },
        AssignTargetView::Paren(p) => {
            lemma_steady_expr(*p.expr, cx, marks);
        },
        AssignTargetView::Other(c) => {
            lemma_steady_composite(c, cx, marks);
        },
    }
}

/// The walk over an assignment keeps what every step keeps.
pub proof fn lemma_steady_assign(node: AssignExprView, cx: Context, marks: Marks)
    ensures
        steady(node, marks, visited_assign(node, cx, marks)),
    decreases node, 0nat,
{
    lemma_steady_target(node.left, cx, marks);
    lemma_steady_expr_with(
        *node.right,
        cx,
        visited_target(node.left, cx, marks).marks,
        pending_of(cx.rules, assign_verdict(node, cx.rules)),
        false,
    );
}

/// The walk over a pattern keeps what every step keeps.
pub proof fn lemma_steady_pat(node: PatView, cx: Context, marks: Marks)
    ensures
        steady(node, marks, visited_pat(node, cx, marks)),
    decreases node, 0nat,
{
    match node {
        PatView::Ident(_) => {},
        PatView::Other(c) => {
            lemma_steady_composite(c, cx, marks);
        },
    }
}

/// The walk over the key of a property keeps what every step keeps.
pub proof fn lemma_steady_key(node: PropNameView, cx: Context, marks: Marks)
    ensures
        steady(node, marks, visited_key(node, cx, marks)),
    decreases node, 0nat,
{
    match node {
        PropNameView::Computed(computed) => {
            lemma_steady_computed(computed, cx, marks);
        },
        _ => {},
    }
}

/// The walk over a property `key: value` keeps what every step keeps.
pub proof fn lemma_steady_key_value(node: KeyValuePropView, cx: Context, marks: Marks)
    ensures
        steady(node, marks, visited_key_value(node, cx, marks)),
    decreases node, 0nat,
{
    lemma_steady_key(node.key, cx, marks);
    lemma_steady_expr_with(
        *node.value,
        cx,
        visited_key(node.key, cx, marks).marks,
        pending_of(cx.rules, key_value_verdict(node, cx.rules)),
        false,
    );
}

/// The walk over a method of an object literal keeps what every step keeps.
pub proof fn lemma_steady_method(node: MethodPropView, cx: Context, marks: Marks)
    ensures
        steady(node, marks, visited_method(node, cx, marks)),
    decreases node, 0nat,
{
    lemma_steady_key(node.key, cx, marks);
    lemma_steady_function_with(
        *node.function,
        cx,
        visited_key(node.key, cx, marks).marks,
        pending_of(cx.rules, method_verdict(node, cx.rules)),
    );
}

/// The walk over a member of an object literal keeps what every step keeps.
pub proof fn lemma_steady_prop(node: PropView, cx: Context, marks: Marks)
    ensures
        steady(node, marks, visited_prop(node, cx, marks)),
    decreases node, 0nat,
{
    match node {
        PropView::KeyValue(kv) => {
            lemma_steady_key_value(kv, cx, marks);
        },
        PropView::Method(m) => {
            lemma_steady_method(m, cx, marks);
        },
        PropView::Other(c) => {
            lemma_steady_composite(c, cx, marks);
        },
    }
}

/// The walk over a block keeps what every step keeps.
pub proof fn lemma_steady_block(node: BlockStmtView, cx: Context, marks: Marks)
    ensures
        steady(node, marks, visited_block(node, cx, marks)),
    decreases node, 0nat,
{
    lemma_steady_stmts(node.stmts, cx, marks);
}

/// The walk over a block that may be absent keeps what every step keeps.
pub proof fn lemma_steady_block_opt(node: Option<BlockStmtView>, cx: Context, marks: Marks)
    ensures
        steady(node, marks, visited_block_opt(node, cx, marks)),
    decreases node, 0nat,
{
    match node {
        Some(block) => {
            lemma_steady_block(block, cx, marks);
        },
        None => {},
    }
}

/// The walk over a function keeps what every step keeps.
pub proof fn lemma_steady_function(node: FunctionView, cx: Context, marks: Marks)
    ensures
        steady(node, marks, visited_function(node, cx, marks)),
    decreases node, 0nat,
{
    lemma_steady_pats(node.params, cx, marks);
    lemma_steady_block_opt(node.body, cx, visited_pats(node.params, cx, marks).marks);
}

/// The walk over a function, with a wrap due or not, keeps what every step keeps.
pub proof fn lemma_steady_function_with(node: FunctionView, cx: Context, marks: Marks, pending: Pending)
    ensures
        steady(node, marks, visited_function_with(node, cx, marks, pending)),
    decreases node, 1nat,
{
    lemma_steady_function(node, cx, marks);
}

/// The walk over the body of an arrow function keeps what every step keeps.
pub proof fn lemma_steady_arrow_body(node: BlockStmtOrExprView, cx: Context, marks: Marks)
    ensures
        steady(node, marks, visited_arrow_body(node, cx, marks)),
    decreases node, 0nat,
{
    match node {
        BlockStmtOrExprView::BlockStmt(block) => {
            lemma_steady_block(block, cx, marks);
        },
        BlockStmtOrExprView::Expr(e) => {
            lemma_steady_expr(*e, cx, marks);
        },
    }
}

/// The walk over an arrow function keeps what every step keeps.
pub proof fn lemma_steady_arrow(node: ArrowExprView, cx: Context, marks: Marks)
    ensures
        steady(node, marks, visited_arrow(node, cx, marks)),
    decreases node, 0nat,
{
    lemma_steady_pats(node.params, cx, marks);
    lemma_steady_arrow_body(*node.body, cx, visited_pats(node.params, cx, marks).marks);
}

/// The walk over an expression that may be absent keeps what every step keeps.
pub proof fn lemma_steady_expr_opt(node: Option<Box<ExprView>>, cx: Context, marks: Marks)
    ensures
        steady(node, marks, visited_expr_opt(node, cx, marks)),
    decreases node, 0nat,
{
    match node {
        Some(e) => {
            lemma_steady_expr(*e, cx, marks);
        },
        None => {},
    }
}

/// The walk over a binding of a variable declaration keeps what every step keeps.
pub proof fn lemma_steady_declarator(node: VarDeclaratorView, cx: Context, marks: Marks)
    ensures
        steady(node, marks, visited_declarator(node, cx, marks)),
    decreases node, 0nat,
{
    lemma_steady_pat(node.name, cx, marks);
    lemma_steady_expr_opt(node.init, cx, visited_pat(node.name, cx, marks).marks);
}

/// The walk over a variable declaration keeps what every step keeps.
pub proof fn lemma_steady_var_decl(node: VarDeclView, cx: Context, marks: Marks, verdict: Option<Trackable>)
    ensures
        steady(node, marks, visited_var_decl(node, cx, marks, verdict)),
    decreases node, 0nat,
{
    lemma_steady_declarators(node.decls, cx, marks);
}

/// The walk over a function declaration keeps what every step keeps.
pub proof fn lemma_steady_fn_decl(node: FnDeclView, cx: Context, marks: Marks, verdict: Option<Trackable>)
    ensures
        steady(node, marks, visited_fn_decl(node, cx, marks, verdict)),
    decreases node, 2nat,
{
    lemma_steady_function_with(*node.function, cx, marks, pending_of(cx.rules, verdict));
}

/// The walk over a declaration keeps what every step keeps.
pub proof fn lemma_steady_decl(node: DeclView, cx: Context, marks: Marks)
    ensures
        steady(node, marks, visited_decl(node, cx, marks)),
    decreases node, 0nat,
{
    match node {
        DeclView::Var(v) => {
            lemma_steady_var_decl(*v, cx, marks, plain_var_decl_verdict(*v, cx));
        },
        DeclView::Fn(fd) => {
            lemma_steady_fn_decl(fd, cx, marks, plain_fn_decl_verdict(fd, cx));
        },
        DeclView::Other(c) => {
            lemma_steady_composite(c, cx, marks);
        },
    }
}

/// The walk over a `try` statement keeps what every step keeps.
pub proof fn lemma_steady_try(node: TryStmtView, cx: Context, marks: Marks)
    ensures
        steady(node, marks, visited_try(node, cx, marks)),
    decreases node, 0nat,
{
    let block = visited_block(node.block, cx, marks);
    let handler = visited_block_opt(node.handler, cx, block.marks);
    lemma_steady_block(node.block, cx, marks);
    lemma_steady_block_opt(node.handler, cx, block.marks);
    lemma_steady_block_opt(node.finalizer, cx, handler.marks);
}

/// The walk over a statement keeps what every step keeps.
pub proof fn lemma_steady_stmt(node: StmtView, cx: Context, marks: Marks)
    ensures
        steady(node, marks, visited_stmt(node, cx, marks)),
    decreases node, 0nat,
{
    match node {
        StmtView::Expr(s) => {
            lemma_steady_expr(*s.expr, cx, marks);
        },
        StmtView::Decl(decl) => {
            lemma_steady_decl(decl, cx, marks);
        },
        StmtView::Return(r) => {
            lemma_steady_expr_opt(r.arg, cx, marks);
        },
        StmtView::Try(t) => {
            lemma_steady_try(*t, cx, marks);
        },
        StmtView::Block(block) => {
            lemma_steady_block(block, cx, marks);
        },
        StmtView::Other(o) => {
            lemma_steady_exprs(o.exprs, cx, marks);
            lemma_steady_stmts(o.stmts, cx, visited_exprs(o.exprs, cx, marks).marks);
        },
    }
}

/// The walk over the first `k` of the expressions of a list keeps what every step keeps.
pub proof fn lemma_steady_exprs_upto(nodes: Seq<ExprView>, cx: Context, marks: Marks, k: nat)
    requires
        k <= nodes.len(),
    ensures
        steady(nodes.take(k as int), marks, visited_exprs_upto(nodes, cx, marks, k)),
    decreases nodes, k,
{
    if k > 0 {
        let before = visited_exprs_upto(nodes, cx, marks, (k - 1) as nat);
        lemma_steady_exprs_upto(nodes, cx, marks, (k - 1) as nat);
        lemma_steady_expr(nodes[k - 1], cx, before.marks);
        assert(nodes.take(k as int) =~= nodes.take(k - 1).push(nodes[k - 1]));
    } else {
        assert(nodes.take(0) =~= Seq::empty());
    }
}

/// The walk over the expressions of a list keeps what every step keeps.
pub proof fn lemma_steady_exprs(nodes: Seq<ExprView>, cx: Context, marks: Marks)
    ensures
        steady(nodes, marks, visited_exprs(nodes, cx, marks)),
    decreases nodes, nodes.len() + 1,
{
    lemma_steady_exprs_upto(nodes, cx, marks, nodes.len());
    assert(nodes.take(nodes.len() as int) =~= nodes);
}

/// The walk over the first `k` of the arguments of a call keeps what every step keeps.
pub proof fn lemma_steady_args_upto(nodes: Seq<ExprOrSpreadView>, cx: Context, marks: Marks, k: nat)
    requires
        k <= nodes.len(),
    ensures
        steady(nodes.take(k as int), marks, visited_args_upto(nodes, cx, marks, k)),
    decreases nodes, k,
{
    if k > 0 {
        let before = visited_args_upto(nodes, cx, marks, (k - 1) as nat);
        lemma_steady_args_upto(nodes, cx, marks, (k - 1) as nat);
        lemma_steady_arg(nodes[k - 1], cx, before.marks);
        assert(nodes.take(k as int) =~= nodes.take(k - 1).push(nodes[k - 1]));
    } else {
        assert(nodes.take(0) =~= Seq::empty());
    }
}

/// The walk over the arguments of a call keeps what every step keeps.
pub proof fn lemma_steady_args(nodes: Seq<ExprOrSpreadView>, cx: Context, marks: Marks)
    ensures
        steady(nodes, marks, visited_args(nodes, cx, marks)),
    decreases nodes, nodes.len() + 1,
{
    lemma_steady_args_upto(nodes, cx, marks, nodes.len());
    assert(nodes.take(nodes.len() as int) =~= nodes);
}

/// The walk over the first `k` of the patterns of a list keeps what every step keeps.
pub proof fn lemma_steady_pats_upto(nodes: Seq<PatView>, cx: Context, marks: Marks, k: nat)
    requires
        k <= nodes.len(),
    ensures
        steady(nodes.take(k as int), marks, visited_pats_upto(nodes, cx, marks, k)),
    decreases nodes, k,
{
    if k > 0 {
        let before = visited_pats_upto(nodes, cx, marks, (k - 1) as nat);
        lemma_steady_pats_upto(nodes, cx, marks, (k - 1) as nat);
        lemma_steady_pat(nodes[k - 1], cx, before.marks);
        assert(nodes.take(k as int) =~= nodes.take(k - 1).push(nodes[k - 1]));
    } else {
        assert(nodes.take(0) =~= Seq::empty());
    }
}

/// The walk over the patterns of a list keeps what every step keeps.
pub proof fn lemma_steady_pats(nodes: Seq<PatView>, cx: Context, marks: Marks)
    ensures
        steady(nodes, marks, visited_pats(nodes, cx, marks)),
    decreases nodes, nodes.len() + 1,
{
    lemma_steady_pats_upto(nodes, cx, marks, nodes.len());
    assert(nodes.take(nodes.len() as int) =~= nodes);
}

/// The walk over the first `k` of the members of an object literal keeps what every step keeps.
pub proof fn lemma_steady_props_upto(nodes: Seq<PropView>, cx: Context, marks: Marks, k: nat)
    requires
        k <= nodes.len(),
    ensures
        steady(nodes.take(k as int), marks, visited_props_upto(nodes, cx, marks, k)),
    decreases nodes, k,
{
    if k > 0 {
        let before = visited_props_upto(nodes, cx, marks, (k - 1) as nat);
        lemma_steady_props_upto(nodes, cx, marks, (k - 1) as nat);
        lemma_steady_prop(nodes[k - 1], cx, before.marks);
        assert(nodes.take(k as int) =~= nodes.take(k - 1).push(nodes[k - 1]));
    } else {
        assert(nodes.take(0) =~= Seq::empty());
    }
}

/// The walk over the members of an object literal keeps what every step keeps.
pub proof fn lemma_steady_props(nodes: Seq<PropView>, cx: Context, marks: Marks)
    ensures
        steady(nodes, marks, visited_props(nodes, cx, marks)),
    decreases nodes, nodes.len() + 1,
{
    lemma_steady_props_upto(nodes, cx, marks, nodes.len());
    assert(nodes.take(nodes.len() as int) =~= nodes);
}

/// The walk over the first `k` of the bindings of a variable declaration keeps what every step keeps.
pub proof fn lemma_steady_declarators_upto(nodes: Seq<VarDeclaratorView>, cx: Context, marks: Marks, k: nat)
    requires
        k <= nodes.len(),
    ensures
        steady(nodes.take(k as int), marks, visited_declarators_upto(nodes, cx, marks, k)),
    decreases nodes, k,
{
    if k > 0 {
        let before = visited_declarators_upto(nodes, cx, marks, (k - 1) as nat);
        lemma_steady_declarators_upto(nodes, cx, marks, (k - 1) as nat);
        lemma_steady_declarator(nodes[k - 1], cx, before.marks);
        assert(nodes.take(k as int) =~= nodes.take(k - 1).push(nodes[k - 1]));
    } else {
        assert(nodes.take(0) =~= Seq::empty());
    }
}

/// The walk over the bindings of a variable declaration keeps what every step keeps.
pub proof fn lemma_steady_declarators(nodes: Seq<VarDeclaratorView>, cx: Context, marks: Marks)
    ensures
        steady(nodes, marks, visited_declarators(nodes, cx, marks)),
    decreases nodes, nodes.len() + 1,
{
    lemma_steady_declarators_upto(nodes, cx, marks, nodes.len());
    assert(nodes.take(nodes.len() as int) =~= nodes);
}

/// The walk over the first `k` of the statements of a list keeps what every step keeps.
pub proof fn lemma_steady_stmts_upto(nodes: Seq<StmtView>, cx: Context, marks: Marks, k: nat)
    requires
        k <= nodes.len(),
    ensures
        steady(nodes.take(k as int), marks, visited_stmts_upto(nodes, cx, marks, k)),
    decreases nodes, k,
{
    if k > 0 {
        let before = visited_stmts_upto(nodes, cx, marks, (k - 1) as nat);
        lemma_steady_stmts_upto(nodes, cx, marks, (k - 1) as nat);
        lemma_steady_stmt(nodes[k - 1], cx, before.marks);
        assert(nodes.take(k as int) =~= nodes.take(k - 1).push(nodes[k - 1]));
    } else {
        assert(nodes.take(0) =~= Seq::empty());
    }
}

/// The walk over the statements of a list keeps what every step keeps.
pub proof fn lemma_steady_stmts(nodes: Seq<StmtView>, cx: Context, marks: Marks)
    ensures
        steady(nodes, marks, visited_stmts(nodes, cx, marks)),
    decreases nodes, nodes.len() + 1,
{
    lemma_steady_stmts_upto(nodes, cx, marks, nodes.len());
    assert(nodes.take(nodes.len() as int) =~= nodes);
}

/// The walk over an exported declaration keeps what every step keeps.
pub proof fn lemma_steady_export_decl(node: ExportDeclView, cx: Context, marks: Marks)
    ensures
        steady(node, marks, visited_export_decl(node, cx, marks)),
{
    match node.decl {
        DeclView::Var(v) => {
            lemma_steady_var_decl(
                *v,
                inside_export(cx, v.span),
                marks,
                var_decl_verdict(*v, cx.rules, seq![node.span]),
            );
        },
        DeclView::Fn(fd) => {
            lemma_steady_fn_decl(
                fd,
                inside_export(cx, fd.function.span),
                marks,
                fn_decl_verdict(fd, cx.rules, seq![node.span, fd.function.span]),
            );
        },
        DeclView::Other(c) => {
            lemma_steady_composite(c, cx, marks);
        },
    }
}

/// The walk over a default export of a declaration keeps what every step keeps.
pub proof fn lemma_steady_export_default_decl(node: ExportDefaultDeclView, cx: Context, marks: Marks)
    ensures
        steady(node, marks, visited_export_default_decl(node, cx, marks)),
{
    match node.decl {
        DefaultDeclView::Fn(fe) => {
            lemma_steady_function_with(
                *fe.function,
                inside_export(cx, fe.function.span),
                marks,
                pending_of(cx.rules, default_fn_verdict(fe, cx.rules, node.span)),
            );
        },
        DefaultDeclView::Other(c) => {
            lemma_steady_composite(c, cx, marks);
        },
    }
}

/// The walk over a default export of an expression keeps what every step keeps.
pub proof fn lemma_steady_export_default_expr(node: ExportDefaultExprView, cx: Context, marks: Marks)
    ensures
        steady(node, marks, visited_export_default_expr(node, cx, marks)),
{
    lemma_steady_expr_with(
        *node.expr,
        cx,
        marks,
        pending_of(cx.rules, default_expr_verdict(node, cx.rules)),
        true,
    );
}

/// The walk over a module declaration keeps what every step keeps.
pub proof fn lemma_steady_module_decl(node: ModuleDeclView, cx: Context, marks: Marks)
    ensures
        steady(node, marks, visited_module_decl(node, cx, marks)),
{
    match node {
        ModuleDeclView::Import(_) => {},
        ModuleDeclView::ExportDecl(e) => {
            lemma_steady_export_decl(e, cx, marks);
        },
        ModuleDeclView::ExportDefaultDecl(e) => {
            lemma_steady_export_default_decl(e, cx, marks);
        },
        ModuleDeclView::ExportDefaultExpr(e) => {
            lemma_steady_export_default_expr(e, cx, marks);
        },
        ModuleDeclView::Other(_) => {},
    }
}

/// The walk over a top-level item of a module keeps what every step keeps.
pub proof fn lemma_steady_module_item(node: ModuleItemView, cx: Context, marks: Marks)
    ensures
        steady(node, marks, visited_module_item(node, cx, marks)),
{
    match node {
        ModuleItemView::ModuleDecl(decl) => {
            lemma_steady_module_decl(decl, cx, marks);
        },
        ModuleItemView::Stmt(stmt) => {
            lemma_steady_stmt(stmt, cx, marks);
        },
    }
}

/// The walk over the first `k` of the top-level items of a module keeps what every step keeps.
pub proof fn lemma_steady_module_items_upto(nodes: Seq<ModuleItemView>, cx: Context, marks: Marks, k: nat)
    requires
        k <= nodes.len(),
    ensures
        steady(nodes.take(k as int), marks, visited_module_items_upto(nodes, cx, marks, k)),
    decreases k,
{
    if k > 0 {
        let before = visited_module_items_upto(nodes, cx, marks, (k - 1) as nat);
        lemma_steady_module_items_upto(nodes, cx, marks, (k - 1) as nat);
        lemma_steady_module_item(nodes[k - 1], cx, before.marks);
        assert(nodes.take(k as int) =~= nodes.take(k - 1).push(nodes[k - 1]));
    } else {
        assert(nodes.take(0) =~= Seq::empty());
    }
}

/// The walk over the top-level items of a module keeps what every step keeps.
pub proof fn lemma_steady_module_items(nodes: Seq<ModuleItemView>, cx: Context, marks: Marks)
    ensures
        steady(nodes, marks, visited_module_items(nodes, cx, marks)),
{
    lemma_steady_module_items_upto(nodes, cx, marks, nodes.len());
    assert(nodes.take(nodes.len() as int) =~= nodes);
}

} // verus!
