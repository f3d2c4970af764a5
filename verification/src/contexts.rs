//! The syntax contexts that a tree holds: the highest one among its
//! identifiers, stated over the view and computed over the tree. What the pass
//! makes is made above it.

use crate::ast::{
    ArrowExpr, AssignExpr, AssignTarget, BlockStmt, BlockStmtOrExpr, CallExpr, Composite,
    ComputedPropName, Decl, DefaultDecl, ExportDecl, ExportDefaultDecl, ExportDefaultExpr, Expr,
    ExprOrSpread, ExprStmt, FnDecl, FnExpr, Function, ImportDecl, ImportSpecifier,
    KeyValueProp, MemberExpr, MemberProp, MethodProp, Module, ModuleDecl, ModuleItem,
    ObjectLit, OtherStmt, ParenExpr, Pat, Program, Prop, PropName, ReturnStmt, Script, Stmt,
    TryStmt, VarDecl, VarDeclarator,
};
use crate::view::{
    ArrowExprView, AssignExprView, AssignTargetView, BlockStmtOrExprView, BlockStmtView,
    CallExprView, CompositeView, ComputedPropNameView, DeclView, DefaultDeclView,
    ExportDeclView, ExportDefaultDeclView, ExportDefaultExprView, ExprOrSpreadView,
    ExprStmtView, ExprView, FnDeclView, FnExprView, FunctionView, ImportDeclView,
    ImportSpecifierView, KeyValuePropView, MemberExprView, MemberPropView, MethodPropView,
    ModuleDeclView, ModuleItemView, ModuleView, ObjectLitView, OtherStmtView, ParenExprView,
    PatView, ProgramView, PropNameView, PropView, ReturnStmtView, ScriptView, StmtView,
    TryStmtView, VarDeclView, VarDeclaratorView, args_view, declarators_view, exprs_view,
    module_items_view, pats_view, props_view, stmts_view,
};
use vstd::prelude::*;

verus! {

/// The higher of two syntax contexts.
pub open spec fn higher(a: u32, b: u32) -> u32 {
    if a < b {
        b
    } else {
        a
    }
}

/// The higher of two syntax contexts.
pub fn max_ctxt(a: u32, b: u32) -> (top: u32)
    ensures
        top == higher(a, b),
{
    if a < b {
        b
    } else {
        a
    }
}

/// The highest syntax context of an identifier in an import specifier.
pub open spec fn top_ctxt_specifier(node: ImportSpecifierView) -> u32 {
    match node {
        ImportSpecifierView::Named { local, imported, .. } => higher(
            local.ctxt,
            match imported {
                Some(name) => name.ctxt,
                None => 0,
            },
        ),
        ImportSpecifierView::Default { local, .. } => local.ctxt,
        ImportSpecifierView::Namespace { local, .. } => local.ctxt,
    }
}

/// The highest syntax context of an identifier in the first `k` specifiers.
pub open spec fn top_ctxt_specifiers_upto(nodes: Seq<ImportSpecifierView>, k: nat) -> u32
    decreases k,
{
    if 0 < k <= nodes.len() {
        higher(top_ctxt_specifiers_upto(nodes, (k - 1) as nat), top_ctxt_specifier(nodes[k - 1]))
    } else {
        0
    }
}

/// The highest syntax context of an identifier in an import declaration.
pub open spec fn top_ctxt_import(node: ImportDeclView) -> u32 {
    top_ctxt_specifiers_upto(node.specifiers, node.specifiers.len())
}

/// The highest syntax context of an identifier in an import specifier.
pub fn highest_ctxt_specifier(node: &ImportSpecifier) -> (top: u32)
    ensures
        top == top_ctxt_specifier(node@),
{
    match node {
        ImportSpecifier::Named { local, imported, .. } => max_ctxt(
            local.ctxt,
            match imported {
                Some(name) => name.ctxt,
                None => 0,
            },
        ),
        ImportSpecifier::Default { local, .. } => local.ctxt,
        ImportSpecifier::Namespace { local, .. } => local.ctxt,
    }
}

/// The highest syntax context of an identifier in an import declaration.
pub fn highest_ctxt_import(node: &ImportDecl) -> (top: u32)
    ensures
        top == top_ctxt_import(node@),
{
    let mut top: u32 = 0;
    let mut i: usize = 0;
    while i < node.specifiers.len()
        invariant
            i <= node.specifiers.len(),
            top == top_ctxt_specifiers_upto(node@.specifiers, i as nat),
        decreases node.specifiers.len() - i,
    {
        assert(node@.specifiers[i as int] == node.specifiers[i as int]@);
        top = max_ctxt(top, highest_ctxt_specifier(&node.specifiers[i]));
        i += 1;
    }
    top
}

/// The highest syntax context of an identifier in a [`Composite`].
pub open spec fn top_ctxt_composite(node: CompositeView) -> u32
    decreases node,
{
    top_ctxt_exprs(node.children)
}

/// The highest syntax context of an identifier in a [`ComputedPropName`].
pub open spec fn top_ctxt_computed_prop_name(node: ComputedPropNameView) -> u32
    decreases node,
{
    top_ctxt_expr(*node.expr)
}

/// The highest syntax context of an identifier in a [`MemberProp`].
pub open spec fn top_ctxt_member_prop(node: MemberPropView) -> u32
    decreases node,
{
    match node {
        MemberPropView::Ident(x) => x.ctxt,
        MemberPropView::PrivateName(x) => x.ctxt,
        MemberPropView::Computed(x) => top_ctxt_computed_prop_name(x),
    }
}

/// The highest syntax context of an identifier in a [`MemberExpr`].
pub open spec fn top_ctxt_member_expr(node: MemberExprView) -> u32
    decreases node,
{
    higher(
        top_ctxt_expr(*node.obj),
        top_ctxt_member_prop(node.prop),
    )
}

/// The highest syntax context of an identifier in a [`ExprOrSpread`].
pub open spec fn top_ctxt_expr_or_spread(node: ExprOrSpreadView) -> u32
    decreases node,
{
    top_ctxt_expr(*node.expr)
}

/// The highest syntax context of an identifier in a [`CallExpr`].
pub open spec fn top_ctxt_call_expr(node: CallExprView) -> u32
    decreases node,
{
    higher(
        top_ctxt_expr(*node.callee),
        top_ctxt_args(node.args),
    )
}

/// The highest syntax context of an identifier in a [`Pat`].
pub open spec fn top_ctxt_pat(node: PatView) -> u32
    decreases node,
{
    match node {
        PatView::Ident(x) => x.ctxt,
        PatView::Other(x) => top_ctxt_composite(x),
    }
}

/// The highest syntax context of an identifier in a [`BlockStmt`].
pub open spec fn top_ctxt_block_stmt(node: BlockStmtView) -> u32
    decreases node,
{
    top_ctxt_stmts(node.stmts)
}

/// The highest syntax context of an identifier in a [`Function`].
pub open spec fn top_ctxt_function(node: FunctionView) -> u32
    decreases node,
{
    higher(
        top_ctxt_pats(node.params),
        match node.body {
            Some(x) => top_ctxt_block_stmt(x),
            None => 0,
        },
    )
}

/// The highest syntax context of an identifier in a [`FnExpr`].
pub open spec fn top_ctxt_fn_expr(node: FnExprView) -> u32
    decreases node,
{
    higher(
        match node.ident {
            Some(ident) => ident.ctxt,
            None => 0,
        },
        top_ctxt_function(*node.function),
    )
}

/// The highest syntax context of an identifier in a [`BlockStmtOrExpr`].
pub open spec fn top_ctxt_block_stmt_or_expr(node: BlockStmtOrExprView) -> u32
    decreases node,
{
    match node {
        BlockStmtOrExprView::BlockStmt(x) => top_ctxt_block_stmt(x),
        BlockStmtOrExprView::Expr(x) => top_ctxt_expr(*x),
    }
}

/// The highest syntax context of an identifier in a [`ArrowExpr`].
pub open spec fn top_ctxt_arrow_expr(node: ArrowExprView) -> u32
    decreases node,
{
    higher(
        top_ctxt_pats(node.params),
        top_ctxt_block_stmt_or_expr(*node.body),
    )
}

/// The highest syntax context of an identifier in a [`ParenExpr`].
pub open spec fn top_ctxt_paren_expr(node: ParenExprView) -> u32
    decreases node,
{
    top_ctxt_expr(*node.expr)
}

/// The highest syntax context of an identifier in a [`AssignTarget`].
pub open spec fn top_ctxt_assign_target(node: AssignTargetView) -> u32
    decreases node,
{
    match node {
        AssignTargetView::Ident(x) => x.ctxt,
        AssignTargetView::Member(x) => top_ctxt_member_expr(x),
        AssignTargetView::Paren(x) => top_ctxt_paren_expr(x),
        AssignTargetView::Other(x) => top_ctxt_composite(x),
    }
}

/// The highest syntax context of an identifier in a [`AssignExpr`].
pub open spec fn top_ctxt_assign_expr(node: AssignExprView) -> u32
    decreases node,
{
    higher(
        top_ctxt_assign_target(node.left),
        top_ctxt_expr(*node.right),
    )
}

/// The highest syntax context of an identifier in a [`PropName`].
pub open spec fn top_ctxt_prop_name(node: PropNameView) -> u32
    decreases node,
{
    match node {
        PropNameView::Ident(x) => x.ctxt,
        PropNameView::Str(_) => 0,
        PropNameView::Num(_) => 0,
        PropNameView::Computed(x) => top_ctxt_computed_prop_name(x),
        PropNameView::BigInt(_) => 0,
    }
}

/// The highest syntax context of an identifier in a [`KeyValueProp`].
pub open spec fn top_ctxt_key_value_prop(node: KeyValuePropView) -> u32
    decreases node,
{
    higher(
        top_ctxt_prop_name(node.key),
        top_ctxt_expr(*node.value),
    )
}

/// The highest syntax context of an identifier in a [`MethodProp`].
pub open spec fn top_ctxt_method_prop(node: MethodPropView) -> u32
    decreases node,
{
    higher(
        top_ctxt_prop_name(node.key),
        top_ctxt_function(*node.function),
    )
}

/// The highest syntax context of an identifier in a [`Prop`].
pub open spec fn top_ctxt_prop(node: PropView) -> u32
    decreases node,
{
    match node {
        PropView::KeyValue(x) => top_ctxt_key_value_prop(x),
        PropView::Method(x) => top_ctxt_method_prop(x),
        PropView::Other(x) => top_ctxt_composite(x),
    }
}

/// The highest syntax context of an identifier in a [`ObjectLit`].
pub open spec fn top_ctxt_object_lit(node: ObjectLitView) -> u32
    decreases node,
{
    top_ctxt_props(node.props)
}

/// The highest syntax context of an identifier in a [`Expr`].
pub open spec fn top_ctxt_expr(node: ExprView) -> u32
    decreases node,
{
    match node {
        ExprView::Ident(x) => x.ctxt,
        ExprView::Lit(_) => 0,
        ExprView::Member(x) => top_ctxt_member_expr(x),
        ExprView::Call(x) => top_ctxt_call_expr(x),
        ExprView::Fn(x) => top_ctxt_fn_expr(x),
        ExprView::Arrow(x) => top_ctxt_arrow_expr(x),
        ExprView::Assign(x) => top_ctxt_assign_expr(x),
        ExprView::Object(x) => top_ctxt_object_lit(x),
        ExprView::Paren(x) => top_ctxt_paren_expr(x),
        ExprView::JsxElement(x) => top_ctxt_composite(x),
        ExprView::JsxFragment(x) => top_ctxt_composite(x),
        ExprView::Other(x) => top_ctxt_composite(x),
    }
}

/// The highest syntax context of an identifier in a [`VarDeclarator`].
pub open spec fn top_ctxt_var_declarator(node: VarDeclaratorView) -> u32
    decreases node,
{
    higher(
        top_ctxt_pat(node.name),
        match node.init {
            Some(x) => top_ctxt_expr(*x),
            None => 0,
        },
    )
}

/// The highest syntax context of an identifier in a [`VarDecl`].
pub open spec fn top_ctxt_var_decl(node: VarDeclView) -> u32
    decreases node,
{
    top_ctxt_declarators(node.decls)
}

/// The highest syntax context of an identifier in a [`FnDecl`].
pub open spec fn top_ctxt_fn_decl(node: FnDeclView) -> u32
    decreases node,
{
    higher(
        node.ident.ctxt,
        top_ctxt_function(*node.function),
    )
}

/// The highest syntax context of an identifier in a [`Decl`].
pub open spec fn top_ctxt_decl(node: DeclView) -> u32
    decreases node,
{
    match node {
        DeclView::Var(x) => top_ctxt_var_decl(*x),
        DeclView::Fn(x) => top_ctxt_fn_decl(x),
        DeclView::Other(x) => top_ctxt_composite(x),
    }
}

/// The highest syntax context of an identifier in a [`TryStmt`].
pub open spec fn top_ctxt_try_stmt(node: TryStmtView) -> u32
    decreases node,
{
    higher(
        higher(
        top_ctxt_block_stmt(node.block),
        match node.handler {
            Some(x) => top_ctxt_block_stmt(x),
            None => 0,
        },
    ),
        match node.finalizer {
            Some(x) => top_ctxt_block_stmt(x),
            None => 0,
        },
    )
}

/// The highest syntax context of an identifier in a [`ExprStmt`].
pub open spec fn top_ctxt_expr_stmt(node: ExprStmtView) -> u32
    decreases node,
{
    top_ctxt_expr(*node.expr)
}

/// The highest syntax context of an identifier in a [`ReturnStmt`].
pub open spec fn top_ctxt_return_stmt(node: ReturnStmtView) -> u32
    decreases node,
{
    match node.arg {
            Some(x) => top_ctxt_expr(*x),
            None => 0,
        }
}

/// The highest syntax context of an identifier in a [`OtherStmt`].
pub open spec fn top_ctxt_other_stmt(node: OtherStmtView) -> u32
    decreases node,
{
    higher(
        top_ctxt_exprs(node.exprs),
        top_ctxt_stmts(node.stmts),
    )
}

/// The highest syntax context of an identifier in a [`Stmt`].
pub open spec fn top_ctxt_stmt(node: StmtView) -> u32
    decreases node,
{
    match node {
        StmtView::Expr(x) => top_ctxt_expr_stmt(x),
        StmtView::Decl(x) => top_ctxt_decl(x),
        StmtView::Return(x) => top_ctxt_return_stmt(x),
        StmtView::Try(x) => top_ctxt_try_stmt(*x),
        StmtView::Block(x) => top_ctxt_block_stmt(x),
        StmtView::Other(x) => top_ctxt_other_stmt(x),
    }
}

/// The highest syntax context of an identifier in a [`ExportDecl`].
pub open spec fn top_ctxt_export_decl(node: ExportDeclView) -> u32
{
    top_ctxt_decl(node.decl)
}

/// The highest syntax context of an identifier in a [`DefaultDecl`].
pub open spec fn top_ctxt_default_decl(node: DefaultDeclView) -> u32
{
    match node {
        DefaultDeclView::Fn(x) => top_ctxt_fn_expr(x),
        DefaultDeclView::Other(x) => top_ctxt_composite(x),
    }
}

/// The highest syntax context of an identifier in a [`ExportDefaultDecl`].
pub open spec fn top_ctxt_export_default_decl(node: ExportDefaultDeclView) -> u32
{
    top_ctxt_default_decl(node.decl)
}

/// The highest syntax context of an identifier in a [`ExportDefaultExpr`].
pub open spec fn top_ctxt_export_default_expr(node: ExportDefaultExprView) -> u32
{
    top_ctxt_expr(*node.expr)
}

/// The highest syntax context of an identifier in a [`ModuleDecl`].
pub open spec fn top_ctxt_module_decl(node: ModuleDeclView) -> u32
{
    match node {
        ModuleDeclView::Import(x) => top_ctxt_import(x),
        ModuleDeclView::ExportDecl(x) => top_ctxt_export_decl(x),
        ModuleDeclView::ExportDefaultDecl(x) => top_ctxt_export_default_decl(x),
        ModuleDeclView::ExportDefaultExpr(x) => top_ctxt_export_default_expr(x),
        ModuleDeclView::Other(_) => 0,
    }
}

/// The highest syntax context of an identifier in a [`ModuleItem`].
pub open spec fn top_ctxt_module_item(node: ModuleItemView) -> u32
{
    match node {
        ModuleItemView::ModuleDecl(x) => top_ctxt_module_decl(x),
        ModuleItemView::Stmt(x) => top_ctxt_stmt(x),
    }
}

/// The highest syntax context of an identifier in a [`Module`].
pub open spec fn top_ctxt_module(node: ModuleView) -> u32
{
    top_ctxt_module_items(node.body)
}

/// The highest syntax context of an identifier in a [`Script`].
pub open spec fn top_ctxt_script(node: ScriptView) -> u32
{
    top_ctxt_stmts(node.body)
}

/// The highest syntax context of an identifier in a [`Program`].
pub open spec fn top_ctxt_program(node: ProgramView) -> u32
{
    match node {
        ProgramView::Module(x) => top_ctxt_module(x),
        ProgramView::Script(x) => top_ctxt_script(x),
    }
}

/// The highest syntax context of an identifier in the first `k` nodes.
pub open spec fn top_ctxt_exprs_upto(nodes: Seq<ExprView>, k: nat) -> u32
    decreases nodes, k,
{
    if 0 < k <= nodes.len() {
        higher(top_ctxt_exprs_upto(nodes, (k - 1) as nat), top_ctxt_expr(nodes[k - 1]))
    } else {
        0
    }
}

/// The highest syntax context of an identifier in a list of nodes.
pub open spec fn top_ctxt_exprs(nodes: Seq<ExprView>) -> u32
    decreases nodes, nodes.len() + 1,
{
    top_ctxt_exprs_upto(nodes, nodes.len())
}

/// The highest syntax context of an identifier in the first `k` nodes.
pub open spec fn top_ctxt_args_upto(nodes: Seq<ExprOrSpreadView>, k: nat) -> u32
    decreases nodes, k,
{
    if 0 < k <= nodes.len() {
        higher(top_ctxt_args_upto(nodes, (k - 1) as nat), top_ctxt_expr_or_spread(nodes[k - 1]))
    } else {
        0
    }
}

/// The highest syntax context of an identifier in a list of nodes.
pub open spec fn top_ctxt_args(nodes: Seq<ExprOrSpreadView>) -> u32
    decreases nodes, nodes.len() + 1,
{
    top_ctxt_args_upto(nodes, nodes.len())
}

/// The highest syntax context of an identifier in the first `k` nodes.
pub open spec fn top_ctxt_pats_upto(nodes: Seq<PatView>, k: nat) -> u32
    decreases nodes, k,
{
    if 0 < k <= nodes.len() {
        higher(top_ctxt_pats_upto(nodes, (k - 1) as nat), top_ctxt_pat(nodes[k - 1]))
    } else {
        0
    }
}

/// The highest syntax context of an identifier in a list of nodes.
pub open spec fn top_ctxt_pats(nodes: Seq<PatView>) -> u32
    decreases nodes, nodes.len() + 1,
{
    top_ctxt_pats_upto(nodes, nodes.len())
}

/// The highest syntax context of an identifier in the first `k` nodes.
pub open spec fn top_ctxt_props_upto(nodes: Seq<PropView>, k: nat) -> u32
    decreases nodes, k,
{
    if 0 < k <= nodes.len() {
        higher(top_ctxt_props_upto(nodes, (k - 1) as nat), top_ctxt_prop(nodes[k - 1]))
    } else {
        0
    }
}

/// The highest syntax context of an identifier in a list of nodes.
pub open spec fn top_ctxt_props(nodes: Seq<PropView>) -> u32
    decreases nodes, nodes.len() + 1,
{
    top_ctxt_props_upto(nodes, nodes.len())
}

/// The highest syntax context of an identifier in the first `k` nodes.
pub open spec fn top_ctxt_declarators_upto(nodes: Seq<VarDeclaratorView>, k: nat) -> u32
    decreases nodes, k,
{
    if 0 < k <= nodes.len() {
        higher(top_ctxt_declarators_upto(nodes, (k - 1) as nat), top_ctxt_var_declarator(nodes[k - 1]))
    } else {
        0
    }
}

/// The highest syntax context of an identifier in a list of nodes.
pub open spec fn top_ctxt_declarators(nodes: Seq<VarDeclaratorView>) -> u32
    decreases nodes, nodes.len() + 1,
{
    top_ctxt_declarators_upto(nodes, nodes.len())
}

/// The highest syntax context of an identifier in the first `k` nodes.
pub open spec fn top_ctxt_stmts_upto(nodes: Seq<StmtView>, k: nat) -> u32
    decreases nodes, k,
{
    if 0 < k <= nodes.len() {
        higher(top_ctxt_stmts_upto(nodes, (k - 1) as nat), top_ctxt_stmt(nodes[k - 1]))
    } else {
        0
    }
}

/// The highest syntax context of an identifier in a list of nodes.
pub open spec fn top_ctxt_stmts(nodes: Seq<StmtView>) -> u32
    decreases nodes, nodes.len() + 1,
{
    top_ctxt_stmts_upto(nodes, nodes.len())
}

/// The highest syntax context of an identifier in the first `k` nodes.
pub open spec fn top_ctxt_module_items_upto(nodes: Seq<ModuleItemView>, k: nat) -> u32
    decreases k,
{
    if 0 < k <= nodes.len() {
        higher(top_ctxt_module_items_upto(nodes, (k - 1) as nat), top_ctxt_module_item(nodes[k - 1]))
    } else {
        0
    }
}

/// The highest syntax context of an identifier in a list of nodes.
pub open spec fn top_ctxt_module_items(nodes: Seq<ModuleItemView>) -> u32
{
    top_ctxt_module_items_upto(nodes, nodes.len())
}

/// The highest syntax context of an identifier in a [`Composite`].
pub fn highest_ctxt_composite(node: &Composite) -> (top: u32)
    ensures
        top == top_ctxt_composite(node@),
    decreases node,
{
    let part0 = highest_ctxt_exprs(&node.children);
    part0
}

/// The highest syntax context of an identifier in a [`ComputedPropName`].
pub fn highest_ctxt_computed_prop_name(node: &ComputedPropName) -> (top: u32)
    ensures
        top == top_ctxt_computed_prop_name(node@),
    decreases node,
{
    let part0 = highest_ctxt_expr(&node.expr);
    part0
}

/// The highest syntax context of an identifier in a [`MemberProp`].
pub fn highest_ctxt_member_prop(node: &MemberProp) -> (top: u32)
    ensures
        top == top_ctxt_member_prop(node@),
    decreases node,
{
    match node {
        MemberProp::Ident(x) => x.ctxt,
        MemberProp::PrivateName(x) => x.ctxt,
        MemberProp::Computed(x) => highest_ctxt_computed_prop_name(x),
    }
}

/// The highest syntax context of an identifier in a [`MemberExpr`].
pub fn highest_ctxt_member_expr(node: &MemberExpr) -> (top: u32)
    ensures
        top == top_ctxt_member_expr(node@),
    decreases node,
{
    let part0 = highest_ctxt_expr(&node.obj);
    let part1 = highest_ctxt_member_prop(&node.prop);
    max_ctxt(part0, part1)
}

/// The highest syntax context of an identifier in a [`ExprOrSpread`].
pub fn highest_ctxt_expr_or_spread(node: &ExprOrSpread) -> (top: u32)
    ensures
        top == top_ctxt_expr_or_spread(node@),
    decreases node,
{
    let part0 = highest_ctxt_expr(&node.expr);
    part0
}

/// The highest syntax context of an identifier in a [`CallExpr`].
pub fn highest_ctxt_call_expr(node: &CallExpr) -> (top: u32)
    ensures
        top == top_ctxt_call_expr(node@),
    decreases node,
{
    let part0 = highest_ctxt_expr(&node.callee);
    let part1 = highest_ctxt_args(&node.args);
    max_ctxt(part0, part1)
}

/// The highest syntax context of an identifier in a [`Pat`].
pub fn highest_ctxt_pat(node: &Pat) -> (top: u32)
    ensures
        top == top_ctxt_pat(node@),
    decreases node,
{
    match node {
        Pat::Ident(x) => x.ctxt,
        Pat::Other(x) => highest_ctxt_composite(x),
    }
}

/// The highest syntax context of an identifier in a [`BlockStmt`].
pub fn highest_ctxt_block_stmt(node: &BlockStmt) -> (top: u32)
    ensures
        top == top_ctxt_block_stmt(node@),
    decreases node,
{
    let part0 = highest_ctxt_stmts(&node.stmts);
    part0
}

/// The highest syntax context of an identifier in a [`Function`].
pub fn highest_ctxt_function(node: &Function) -> (top: u32)
    ensures
        top == top_ctxt_function(node@),
    decreases node,
{
    let part0 = highest_ctxt_pats(&node.params);
    let part1 = match &node.body {
            Some(x) => highest_ctxt_block_stmt(x),
            None => 0,
        };
    max_ctxt(part0, part1)
}

/// The highest syntax context of an identifier in a [`FnExpr`].
pub fn highest_ctxt_fn_expr(node: &FnExpr) -> (top: u32)
    ensures
        top == top_ctxt_fn_expr(node@),
    decreases node,
{
    let part0 = match &node.ident {
            Some(ident) => ident.ctxt,
            None => 0,
        };
    let part1 = highest_ctxt_function(&node.function);
    max_ctxt(part0, part1)
}

/// The highest syntax context of an identifier in a [`BlockStmtOrExpr`].
pub fn highest_ctxt_block_stmt_or_expr(node: &BlockStmtOrExpr) -> (top: u32)
    ensures
        top == top_ctxt_block_stmt_or_expr(node@),
    decreases node,
{
    match node {
        BlockStmtOrExpr::BlockStmt(x) => highest_ctxt_block_stmt(x),
        BlockStmtOrExpr::Expr(x) => highest_ctxt_expr(x),
    }
}

/// The highest syntax context of an identifier in a [`ArrowExpr`].
pub fn highest_ctxt_arrow_expr(node: &ArrowExpr) -> (top: u32)
    ensures
        top == top_ctxt_arrow_expr(node@),
    decreases node,
{
    let part0 = highest_ctxt_pats(&node.params);
    let part1 = highest_ctxt_block_stmt_or_expr(&node.body);
    max_ctxt(part0, part1)
}

/// The highest syntax context of an identifier in a [`ParenExpr`].
pub fn highest_ctxt_paren_expr(node: &ParenExpr) -> (top: u32)
    ensures
        top == top_ctxt_paren_expr(node@),
    decreases node,
{
    let part0 = highest_ctxt_expr(&node.expr);
    part0
}

/// The highest syntax context of an identifier in a [`AssignTarget`].
pub fn highest_ctxt_assign_target(node: &AssignTarget) -> (top: u32)
    ensures
        top == top_ctxt_assign_target(node@),
    decreases node,
{
    match node {
        AssignTarget::Ident(x) => x.ctxt,
        AssignTarget::Member(x) => highest_ctxt_member_expr(x),
        AssignTarget::Paren(x) => highest_ctxt_paren_expr(x),
        AssignTarget::Other(x) => highest_ctxt_composite(x),
    }
}

/// The highest syntax context of an identifier in a [`AssignExpr`].
pub fn highest_ctxt_assign_expr(node: &AssignExpr) -> (top: u32)
    ensures
        top == top_ctxt_assign_expr(node@),
    decreases node,
{
    let part0 = highest_ctxt_assign_target(&node.left);
    let part1 = highest_ctxt_expr(&node.right);
    max_ctxt(part0, part1)
}

/// The highest syntax context of an identifier in a [`PropName`].
pub fn highest_ctxt_prop_name(node: &PropName) -> (top: u32)
    ensures
        top == top_ctxt_prop_name(node@),
    decreases node,
{
    match node {
        PropName::Ident(x) => x.ctxt,
        PropName::Str(_) => 0,
        PropName::Num(_) => 0,
        PropName::Computed(x) => highest_ctxt_computed_prop_name(x),
        PropName::BigInt(_) => 0,
    }
}

/// The highest syntax context of an identifier in a [`KeyValueProp`].
pub fn highest_ctxt_key_value_prop(node: &KeyValueProp) -> (top: u32)
    ensures
        top == top_ctxt_key_value_prop(node@),
    decreases node,
{
    let part0 = highest_ctxt_prop_name(&node.key);
    let part1 = highest_ctxt_expr(&node.value);
    max_ctxt(part0, part1)
}

/// The highest syntax context of an identifier in a [`MethodProp`].
pub fn highest_ctxt_method_prop(node: &MethodProp) -> (top: u32)
    ensures
        top == top_ctxt_method_prop(node@),
    decreases node,
{
    let part0 = highest_ctxt_prop_name(&node.key);
    let part1 = highest_ctxt_function(&node.function);
    max_ctxt(part0, part1)
}

/// The highest syntax context of an identifier in a [`Prop`].
pub fn highest_ctxt_prop(node: &Prop) -> (top: u32)
    ensures
        top == top_ctxt_prop(node@),
    decreases node,
{
    match node {
        Prop::KeyValue(x) => highest_ctxt_key_value_prop(x),
        Prop::Method(x) => highest_ctxt_method_prop(x),
        Prop::Other(x) => highest_ctxt_composite(x),
    }
}

/// The highest syntax context of an identifier in a [`ObjectLit`].
pub fn highest_ctxt_object_lit(node: &ObjectLit) -> (top: u32)
    ensures
        top == top_ctxt_object_lit(node@),
    decreases node,
{
    let part0 = highest_ctxt_props(&node.props);
    part0
}

/// The highest syntax context of an identifier in a [`Expr`].
pub fn highest_ctxt_expr(node: &Expr) -> (top: u32)
    ensures
        top == top_ctxt_expr(node@),
    decreases node,
{
    match node {
        Expr::Ident(x) => x.ctxt,
        Expr::Lit(_) => 0,
        Expr::Member(x) => highest_ctxt_member_expr(x),
        Expr::Call(x) => highest_ctxt_call_expr(x),
        Expr::Fn(x) => highest_ctxt_fn_expr(x),
        Expr::Arrow(x) => highest_ctxt_arrow_expr(x),
        Expr::Assign(x) => highest_ctxt_assign_expr(x),
        Expr::Object(x) => highest_ctxt_object_lit(x),
        Expr::Paren(x) => highest_ctxt_paren_expr(x),
        Expr::JsxElement(x) => highest_ctxt_composite(x),
        Expr::JsxFragment(x) => highest_ctxt_composite(x),
        Expr::Other(x) => highest_ctxt_composite(x),
    }
}

/// The highest syntax context of an identifier in a [`VarDeclarator`].
pub fn highest_ctxt_var_declarator(node: &VarDeclarator) -> (top: u32)
    ensures
        top == top_ctxt_var_declarator(node@),
    decreases node,
{
    let part0 = highest_ctxt_pat(&node.name);
    let part1 = match &node.init {
            Some(x) => highest_ctxt_expr(x),
            None => 0,
        };
    max_ctxt(part0, part1)
}

/// The highest syntax context of an identifier in a [`VarDecl`].
pub fn highest_ctxt_var_decl(node: &VarDecl) -> (top: u32)
    ensures
        top == top_ctxt_var_decl(node@),
    decreases node,
{
    let part0 = highest_ctxt_declarators(&node.decls);
    part0
}

/// The highest syntax context of an identifier in a [`FnDecl`].
pub fn highest_ctxt_fn_decl(node: &FnDecl) -> (top: u32)
    ensures
        top == top_ctxt_fn_decl(node@),
    decreases node,
{
    let part0 = node.ident.ctxt;
    let part1 = highest_ctxt_function(&node.function);
    max_ctxt(part0, part1)
}

/// The highest syntax context of an identifier in a [`Decl`].
pub fn highest_ctxt_decl(node: &Decl) -> (top: u32)
    ensures
        top == top_ctxt_decl(node@),
    decreases node,
{
    match node {
        Decl::Var(x) => highest_ctxt_var_decl(x),
        Decl::Fn(x) => highest_ctxt_fn_decl(x),
        Decl::Other(x) => highest_ctxt_composite(x),
    }
}

/// The highest syntax context of an identifier in a [`TryStmt`].
pub fn highest_ctxt_try_stmt(node: &TryStmt) -> (top: u32)
    ensures
        top == top_ctxt_try_stmt(node@),
    decreases node,
{
    let part0 = highest_ctxt_block_stmt(&node.block);
    let part1 = match &node.handler {
            Some(x) => highest_ctxt_block_stmt(x),
            None => 0,
        };
    let part2 = match &node.finalizer {
            Some(x) => highest_ctxt_block_stmt(x),
            None => 0,
        };
    max_ctxt(max_ctxt(part0, part1), part2)
}

/// The highest syntax context of an identifier in a [`ExprStmt`].
pub fn highest_ctxt_expr_stmt(node: &ExprStmt) -> (top: u32)
    ensures
        top == top_ctxt_expr_stmt(node@),
    decreases node,
{
    let part0 = highest_ctxt_expr(&node.expr);
    part0
}

/// The highest syntax context of an identifier in a [`ReturnStmt`].
pub fn highest_ctxt_return_stmt(node: &ReturnStmt) -> (top: u32)
    ensures
        top == top_ctxt_return_stmt(node@),
    decreases node,
{
    let part0 = match &node.arg {
            Some(x) => highest_ctxt_expr(x),
            None => 0,
        };
    part0
}

/// The highest syntax context of an identifier in a [`OtherStmt`].
pub fn highest_ctxt_other_stmt(node: &OtherStmt) -> (top: u32)
    ensures
        top == top_ctxt_other_stmt(node@),
    decreases node,
{
    let part0 = highest_ctxt_exprs(&node.exprs);
    let part1 = highest_ctxt_stmts(&node.stmts);
    max_ctxt(part0, part1)
}

/// The highest syntax context of an identifier in a [`Stmt`].
pub fn highest_ctxt_stmt(node: &Stmt) -> (top: u32)
    ensures
        top == top_ctxt_stmt(node@),
    decreases node,
{
    match node {
        Stmt::Expr(x) => highest_ctxt_expr_stmt(x),
        Stmt::Decl(x) => highest_ctxt_decl(x),
        Stmt::Return(x) => highest_ctxt_return_stmt(x),
        Stmt::Try(x) => highest_ctxt_try_stmt(x),
        Stmt::Block(x) => highest_ctxt_block_stmt(x),
        Stmt::Other(x) => highest_ctxt_other_stmt(x),
    }
}

/// The highest syntax context of an identifier in a [`ExportDecl`].
pub fn highest_ctxt_export_decl(node: &ExportDecl) -> (top: u32)
    ensures
        top == top_ctxt_export_decl(node@),
{
    let part0 = highest_ctxt_decl(&node.decl);
    part0
}

/// The highest syntax context of an identifier in a [`DefaultDecl`].
pub fn highest_ctxt_default_decl(node: &DefaultDecl) -> (top: u32)
    ensures
        top == top_ctxt_default_decl(node@),
{
    match node {
        DefaultDecl::Fn(x) => highest_ctxt_fn_expr(x),
        DefaultDecl::Other(x) => highest_ctxt_composite(x),
    }
}

/// The highest syntax context of an identifier in a [`ExportDefaultDecl`].
pub fn highest_ctxt_export_default_decl(node: &ExportDefaultDecl) -> (top: u32)
    ensures
        top == top_ctxt_export_default_decl(node@),
{
    let part0 = highest_ctxt_default_decl(&node.decl);
    part0
}

/// The highest syntax context of an identifier in a [`ExportDefaultExpr`].
pub fn highest_ctxt_export_default_expr(node: &ExportDefaultExpr) -> (top: u32)
    ensures
        top == top_ctxt_export_default_expr(node@),
{
    let part0 = highest_ctxt_expr(&node.expr);
    part0
}

/// The highest syntax context of an identifier in a [`ModuleDecl`].
pub fn highest_ctxt_module_decl(node: &ModuleDecl) -> (top: u32)
    ensures
        top == top_ctxt_module_decl(node@),
{
    match node {
        ModuleDecl::Import(x) => highest_ctxt_import(x),
        ModuleDecl::ExportDecl(x) => highest_ctxt_export_decl(x),
        ModuleDecl::ExportDefaultDecl(x) => highest_ctxt_export_default_decl(x),
        ModuleDecl::ExportDefaultExpr(x) => highest_ctxt_export_default_expr(x),
        ModuleDecl::Other(_) => 0,
    }
}

/// The highest syntax context of an identifier in a [`ModuleItem`].
pub fn highest_ctxt_module_item(node: &ModuleItem) -> (top: u32)
    ensures
        top == top_ctxt_module_item(node@),
{
    match node {
        ModuleItem::ModuleDecl(x) => highest_ctxt_module_decl(x),
        ModuleItem::Stmt(x) => highest_ctxt_stmt(x),
    }
}

/// The highest syntax context of an identifier in a [`Module`].
pub fn highest_ctxt_module(node: &Module) -> (top: u32)
    ensures
        top == top_ctxt_module(node@),
{
    let part0 = highest_ctxt_module_items(&node.body);
    part0
}

/// The highest syntax context of an identifier in a [`Script`].
pub fn highest_ctxt_script(node: &Script) -> (top: u32)
    ensures
        top == top_ctxt_script(node@),
{
    let part0 = highest_ctxt_stmts(&node.body);
    part0
}

/// The highest syntax context of an identifier in a [`Program`].
pub fn highest_ctxt_program(node: &Program) -> (top: u32)
    ensures
        top == top_ctxt_program(node@),
{
    match node {
        Program::Module(x) => highest_ctxt_module(x),
        Program::Script(x) => highest_ctxt_script(x),
    }
}

/// The highest syntax context of an identifier in a list of nodes.
pub fn highest_ctxt_exprs(nodes: &Vec<Expr>) -> (top: u32)
    ensures
        top == top_ctxt_exprs(exprs_view(*nodes)),
    decreases nodes,
{
    let mut top: u32 = 0;
    let mut i: usize = 0;
    while i < nodes.len()
        invariant
            i <= nodes.len(),
            top == top_ctxt_exprs_upto(exprs_view(*nodes), i as nat),
        decreases nodes.len() - i,
    {
        assert(exprs_view(*nodes)[i as int] == nodes[i as int]@);
        top = max_ctxt(top, highest_ctxt_expr(&nodes[i]));
        i += 1;
    }
    top
}

/// The highest syntax context of an identifier in a list of nodes.
pub fn highest_ctxt_args(nodes: &Vec<ExprOrSpread>) -> (top: u32)
    ensures
        top == top_ctxt_args(args_view(*nodes)),
    decreases nodes,
{
    let mut top: u32 = 0;
    let mut i: usize = 0;
    while i < nodes.len()
        invariant
            i <= nodes.len(),
            top == top_ctxt_args_upto(args_view(*nodes), i as nat),
        decreases nodes.len() - i,
    {
        assert(args_view(*nodes)[i as int] == nodes[i as int]@);
        top = max_ctxt(top, highest_ctxt_expr_or_spread(&nodes[i]));
        i += 1;
    }
    top
}

/// The highest syntax context of an identifier in a list of nodes.
pub fn highest_ctxt_pats(nodes: &Vec<Pat>) -> (top: u32)
    ensures
        top == top_ctxt_pats(pats_view(*nodes)),
    decreases nodes,
{
    let mut top: u32 = 0;
    let mut i: usize = 0;
    while i < nodes.len()
        invariant
            i <= nodes.len(),
            top == top_ctxt_pats_upto(pats_view(*nodes), i as nat),
        decreases nodes.len() - i,
    {
        assert(pats_view(*nodes)[i as int] == nodes[i as int]@);
        top = max_ctxt(top, highest_ctxt_pat(&nodes[i]));
        i += 1;
    }
    top
}

/// The highest syntax context of an identifier in a list of nodes.
pub fn highest_ctxt_props(nodes: &Vec<Prop>) -> (top: u32)
    ensures
        top == top_ctxt_props(props_view(*nodes)),
    decreases nodes,
{
    let mut top: u32 = 0;
    let mut i: usize = 0;
    while i < nodes.len()
        invariant
            i <= nodes.len(),
            top == top_ctxt_props_upto(props_view(*nodes), i as nat),
        decreases nodes.len() - i,
    {
        assert(props_view(*nodes)[i as int] == nodes[i as int]@);
        top = max_ctxt(top, highest_ctxt_prop(&nodes[i]));
        i += 1;
    }
    top
}

/// The highest syntax context of an identifier in a list of nodes.
pub fn highest_ctxt_declarators(nodes: &Vec<VarDeclarator>) -> (top: u32)
    ensures
        top == top_ctxt_declarators(declarators_view(*nodes)),
    decreases nodes,
{
    let mut top: u32 = 0;
    let mut i: usize = 0;
    while i < nodes.len()
        invariant
            i <= nodes.len(),
            top == top_ctxt_declarators_upto(declarators_view(*nodes), i as nat),
        decreases nodes.len() - i,
    {
        assert(declarators_view(*nodes)[i as int] == nodes[i as int]@);
        top = max_ctxt(top, highest_ctxt_var_declarator(&nodes[i]));
        i += 1;
    }
    top
}

/// The highest syntax context of an identifier in a list of nodes.
pub fn highest_ctxt_stmts(nodes: &Vec<Stmt>) -> (top: u32)
    ensures
        top == top_ctxt_stmts(stmts_view(*nodes)),
    decreases nodes,
{
    let mut top: u32 = 0;
    let mut i: usize = 0;
    while i < nodes.len()
        invariant
            i <= nodes.len(),
            top == top_ctxt_stmts_upto(stmts_view(*nodes), i as nat),
        decreases nodes.len() - i,
    {
        assert(stmts_view(*nodes)[i as int] == nodes[i as int]@);
        top = max_ctxt(top, highest_ctxt_stmt(&nodes[i]));
        i += 1;
    }
    top
}

/// The highest syntax context of an identifier in a list of nodes.
pub fn highest_ctxt_module_items(nodes: &Vec<ModuleItem>) -> (top: u32)
    ensures
        top == top_ctxt_module_items(module_items_view(*nodes)),
{
    let mut top: u32 = 0;
    let mut i: usize = 0;
    while i < nodes.len()
        invariant
            i <= nodes.len(),
            top == top_ctxt_module_items_upto(module_items_view(*nodes), i as nat),
        decreases nodes.len() - i,
    {
        assert(module_items_view(*nodes)[i as int] == nodes[i as int]@);
        top = max_ctxt(top, highest_ctxt_module_item(&nodes[i]));
        i += 1;
    }
    top
}

} // verus!
