//! What a function holds: whether markup or a read of `.value` occurs
//! anywhere in it, however deeply nested.

use crate::ast::{
    ArrowExpr, AssignTarget, BlockStmtOrExpr, Decl, Expr, ExprOrSpread, FnDecl, FnExpr,
    Function, Lit, MemberExpr, MemberProp, Pat, Prop, PropName, Stmt, VarDeclarator,
};
use crate::extract::{FunctionLike, FunctionLikeView};
use crate::utils::strip_parens;
use crate::view::{
    ArrowExprView, AssignTargetView, BlockStmtOrExprView, DeclView, ExprOrSpreadView, ExprView,
    FunctionView, LitView, MemberExprView, MemberPropView, PatView, PropNameView, PropView,
    StmtView, VarDeclaratorView, args_view, declarators_view, exprs_view, pats_view, props_view,
    stmts_view,
};
use vstd::prelude::*;

verus! {

/// What a scan looks for.
#[derive(Clone, Copy, Debug, PartialEq, Eq, Structural)]
pub enum Probe {
    /// A markup element or fragment.
    Jsx,
    /// A member access whose property is named `value`.
    DotValue,
}

/// The property is named `value`: as an identifier, or as a string literal
/// in brackets.
pub open spec fn names_value(prop: MemberPropView) -> bool {
    match prop {
        MemberPropView::Ident(ident) => ident.sym == "value"@,
        MemberPropView::Computed(computed) => match strip_parens(*computed.expr) {
            ExprView::Lit(LitView::Str(s)) => s.value == "value"@,
            _ => false,
        },
        MemberPropView::PrivateName(_) => false,
    }
}

/// What is looked for occurs in the expression.
pub open spec fn found_in_expr(e: ExprView, probe: Probe) -> bool
    decreases e,
{
    match e {
        ExprView::Ident(_) => false,
        ExprView::Lit(_) => false,
        ExprView::Member(m) => found_in_member(m, probe),
        ExprView::Call(c) => found_in_expr(*c.callee, probe) || found_in_args(c.args, probe),
        ExprView::Fn(f) => found_in_function(*f.function, probe),
        ExprView::Arrow(a) => found_in_arrow(a, probe),
        ExprView::Assign(a) => found_in_target(a.left, probe) || found_in_expr(*a.right, probe),
        ExprView::Object(o) => found_in_props(o.props, probe),
        ExprView::Paren(p) => found_in_expr(*p.expr, probe),
        ExprView::JsxElement(c) => probe == Probe::Jsx || found_in_exprs(c.children, probe),
        ExprView::JsxFragment(c) => probe == Probe::Jsx || found_in_exprs(c.children, probe),
        ExprView::Other(c) => found_in_exprs(c.children, probe),
    }
}

/// What is looked for occurs in one of the expressions.
pub open spec fn found_in_exprs(exprs: Seq<ExprView>, probe: Probe) -> bool
    decreases exprs,
{
    exists|i: int| 0 <= i < exprs.len() && found_in_expr(#[trigger] exprs[i], probe)
}

/// What is looked for occurs in one of the arguments.
pub open spec fn found_in_args(args: Seq<ExprOrSpreadView>, probe: Probe) -> bool
    decreases args,
{
    exists|i: int| 0 <= i < args.len() && found_in_expr(*(#[trigger] args[i]).expr, probe)
}

/// What is looked for occurs in the member access: the access itself where
/// a read of `value` is looked for and the property is named so, or
/// something in its object or in its computed property.
pub open spec fn found_in_member(m: MemberExprView, probe: Probe) -> bool
    decreases m,
{
    ||| probe == Probe::DotValue && names_value(m.prop)
    ||| found_in_expr(*m.obj, probe)
    ||| match m.prop {
        MemberPropView::Computed(computed) => found_in_expr(*computed.expr, probe),
        _ => false,
    }
}

/// What is looked for occurs in the left side of an assignment.
pub open spec fn found_in_target(target: AssignTargetView, probe: Probe) -> bool
    decreases target,
{
    match target {
        AssignTargetView::Ident(_) => false,
        AssignTargetView::Member(m) => found_in_member(m, probe),
        AssignTargetView::Paren(p) => found_in_expr(*p.expr, probe),
        AssignTargetView::Other(c) => found_in_exprs(c.children, probe),
    }
}

/// What is looked for occurs in one of the patterns.
pub open spec fn found_in_pats(pats: Seq<PatView>, probe: Probe) -> bool
    decreases pats,
{
    exists|i: int| 0 <= i < pats.len() && found_in_pat(#[trigger] pats[i], probe)
}

/// What is looked for occurs in the pattern.
pub open spec fn found_in_pat(pat: PatView, probe: Probe) -> bool
    decreases pat,
{
    match pat {
        PatView::Ident(_) => false,
        PatView::Other(c) => found_in_exprs(c.children, probe),
    }
}

/// What is looked for occurs in the key of a property.
pub open spec fn found_in_key(key: PropNameView, probe: Probe) -> bool
    decreases key,
{
    match key {
        PropNameView::Computed(computed) => found_in_expr(*computed.expr, probe),
        _ => false,
    }
}

/// What is looked for occurs in one of the members of an object literal.
pub open spec fn found_in_props(props: Seq<PropView>, probe: Probe) -> bool
    decreases props,
{
    exists|i: int| 0 <= i < props.len() && found_in_prop(#[trigger] props[i], probe)
}

/// What is looked for occurs in the member of an object literal.
pub open spec fn found_in_prop(prop: PropView, probe: Probe) -> bool
    decreases prop,
{
    match prop {
        PropView::KeyValue(kv) => found_in_key(kv.key, probe) || found_in_expr(*kv.value, probe),
        PropView::Method(m) => found_in_key(m.key, probe) || found_in_function(
            *m.function,
            probe,
        ),
        PropView::Other(c) => found_in_exprs(c.children, probe),
    }
}

/// What is looked for occurs in the parameters or in the body of the
/// function.
pub open spec fn found_in_function(f: FunctionView, probe: Probe) -> bool
    decreases f,
{
    found_in_pats(f.params, probe) || match f.body {
        Some(body) => found_in_stmts(body.stmts, probe),
        None => false,
    }
}

/// What is looked for occurs in the parameters or in the body of the arrow
/// function.
pub open spec fn found_in_arrow(a: ArrowExprView, probe: Probe) -> bool
    decreases a,
{
    found_in_pats(a.params, probe) || match *a.body {
        BlockStmtOrExprView::BlockStmt(block) => found_in_stmts(block.stmts, probe),
        BlockStmtOrExprView::Expr(e) => found_in_expr(*e, probe),
    }
}

/// What is looked for occurs in one of the statements.
pub open spec fn found_in_stmts(stmts: Seq<StmtView>, probe: Probe) -> bool
    decreases stmts,
{
    exists|i: int| 0 <= i < stmts.len() && found_in_stmt(#[trigger] stmts[i], probe)
}

/// What is looked for occurs in one of the bindings.
pub open spec fn found_in_declarators(decls: Seq<VarDeclaratorView>, probe: Probe) -> bool
    decreases decls,
{
    exists|i: int| 0 <= i < decls.len() && found_in_declarator(#[trigger] decls[i], probe)
}

/// What is looked for occurs in the binding.
pub open spec fn found_in_declarator(decl: VarDeclaratorView, probe: Probe) -> bool
    decreases decl,
{
    found_in_pat(decl.name, probe) || match decl.init {
        Some(init) => found_in_expr(*init, probe),
        None => false,
    }
}

/// What is looked for occurs in the declaration.
pub open spec fn found_in_decl(decl: DeclView, probe: Probe) -> bool
    decreases decl,
{
    match decl {
        DeclView::Var(var) => found_in_declarators(var.decls, probe),
        DeclView::Fn(f) => found_in_function(*f.function, probe),
        DeclView::Other(c) => found_in_exprs(c.children, probe),
    }
}

/// What is looked for occurs in the statement.
pub open spec fn found_in_stmt(stmt: StmtView, probe: Probe) -> bool
    decreases stmt,
{
    match stmt {
        StmtView::Expr(s) => found_in_expr(*s.expr, probe),
        StmtView::Decl(decl) => found_in_decl(decl, probe),
        StmtView::Return(r) => match r.arg {
            Some(arg) => found_in_expr(*arg, probe),
            None => false,
        },
        StmtView::Try(t) => {
            ||| found_in_stmts(t.block.stmts, probe)
            ||| match t.handler {
                Some(handler) => found_in_stmts(handler.stmts, probe),
                None => false,
            }
            ||| match t.finalizer {
                Some(finalizer) => found_in_stmts(finalizer.stmts, probe),
                None => false,
            }
        },
        StmtView::Block(block) => found_in_stmts(block.stmts, probe),
        StmtView::Other(o) => found_in_exprs(o.exprs, probe) || found_in_stmts(o.stmts, probe),
    }
}

/// What is looked for occurs in the function, whichever way it is written.
pub open spec fn found_in_function_like(f: FunctionLikeView, probe: Probe) -> bool {
    match f {
        FunctionLikeView::Arrow(arrow) => found_in_arrow(arrow, probe),
        FunctionLikeView::Fn(fn_expr) => found_in_function(*fn_expr.function, probe),
    }
}

/// What can be scanned for markup and for reads of `.value`.
pub trait Detectable {
    /// Markup occurs in it.
    spec fn holds_jsx(&self) -> bool;

    /// A read of `.value` occurs in it.
    spec fn holds_dot_value(&self) -> bool;

    fn has_jsx(&self) -> (found: bool)
        ensures
            found == self.holds_jsx(),
    ;

    fn has_dot_value(&self) -> (found: bool)
        ensures
            found == self.holds_dot_value(),
    ;
}

impl<'a> Detectable for FunctionLike<'a> {
    open spec fn holds_jsx(&self) -> bool {
        found_in_function_like(self@, Probe::Jsx)
    }

    open spec fn holds_dot_value(&self) -> bool {
        found_in_function_like(self@, Probe::DotValue)
    }

    fn has_jsx(&self) -> (found: bool) {
        match self {
            FunctionLike::Arrow(arrow_expr) => scan_arrow(arrow_expr, Probe::Jsx),
            FunctionLike::Fn(fn_expr) => scan_function(&fn_expr.function, Probe::Jsx),
        }
    }

    fn has_dot_value(&self) -> (found: bool) {
        match self {
            FunctionLike::Arrow(arrow_expr) => scan_arrow(arrow_expr, Probe::DotValue),
            FunctionLike::Fn(fn_expr) => scan_function(&fn_expr.function, Probe::DotValue),
        }
    }
}

impl Detectable for FnDecl {
    open spec fn holds_jsx(&self) -> bool {
        found_in_function(self.function@, Probe::Jsx)
    }

    open spec fn holds_dot_value(&self) -> bool {
        found_in_function(self.function@, Probe::DotValue)
    }

    fn has_jsx(&self) -> (found: bool) {
        scan_function(&self.function, Probe::Jsx)
    }

    fn has_dot_value(&self) -> (found: bool) {
        scan_function(&self.function, Probe::DotValue)
    }
}

impl Detectable for FnExpr {
    open spec fn holds_jsx(&self) -> bool {
        found_in_function(self.function@, Probe::Jsx)
    }

    open spec fn holds_dot_value(&self) -> bool {
        found_in_function(self.function@, Probe::DotValue)
    }

    fn has_jsx(&self) -> (found: bool) {
        scan_function(&self.function, Probe::Jsx)
    }

    fn has_dot_value(&self) -> (found: bool) {
        scan_function(&self.function, Probe::DotValue)
    }
}

impl Detectable for Function {
    open spec fn holds_jsx(&self) -> bool {
        found_in_function(self@, Probe::Jsx)
    }

    open spec fn holds_dot_value(&self) -> bool {
        found_in_function(self@, Probe::DotValue)
    }

    fn has_jsx(&self) -> (found: bool) {
        scan_function(self, Probe::Jsx)
    }

    fn has_dot_value(&self) -> (found: bool) {
        scan_function(self, Probe::DotValue)
    }
}

/// Whether a name is `value`.
fn is_value(name: &String) -> (r: bool)
    ensures
        r == (name@ == "value"@),
{
    let value = "value".to_string();
    *name == value
}

/// Whether the property is named `value`.
fn prop_names_value(prop: &MemberProp) -> (r: bool)
    ensures
        r == names_value(prop@),
{
    match prop {
        MemberProp::Ident(ident) => is_value(&ident.sym),
        MemberProp::Computed(computed) => match computed.expr.unwrap_parens() {
            Expr::Lit(Lit::Str(s)) => is_value(&s.value),
            _ => false,
        },
        MemberProp::PrivateName(_) => false,
    }
}

/// Scans an expression, and stops at the first occurrence.
pub fn scan_expr(e: &Expr, probe: Probe) -> (found: bool)
    ensures
        found == found_in_expr(e@, probe),
    decreases e,
{
    match e {
        Expr::Ident(_) => false,
        Expr::Lit(_) => false,
        Expr::Member(m) => scan_member(m, probe),
        Expr::Call(c) => scan_expr(&c.callee, probe) || scan_args(&c.args, probe),
        Expr::Fn(f) => scan_function(&f.function, probe),
        Expr::Arrow(a) => scan_arrow(a, probe),
        Expr::Assign(a) => scan_target(&a.left, probe) || scan_expr(&a.right, probe),
        Expr::Object(o) => scan_props(&o.props, probe),
        Expr::Paren(p) => scan_expr(&p.expr, probe),
        Expr::JsxElement(c) => probe == Probe::Jsx || scan_exprs(&c.children, probe),
        Expr::JsxFragment(c) => probe == Probe::Jsx || scan_exprs(&c.children, probe),
        Expr::Other(c) => scan_exprs(&c.children, probe),
    }
}

fn scan_exprs(exprs: &Vec<Expr>, probe: Probe) -> (found: bool)
    ensures
        found == found_in_exprs(exprs_view(*exprs), probe),
    decreases exprs,
{
    let mut i: usize = 0;
    while i < exprs.len()
        invariant
            i <= exprs.len(),
            forall|j: int| 0 <= j < i ==> !found_in_expr(#[trigger] exprs_view(*exprs)[j], probe),
        decreases exprs.len() - i,
    {
        if scan_expr(&exprs[i], probe) {
            assert(found_in_expr(exprs_view(*exprs)[i as int], probe));
            return true;
        }
        i += 1;
    }
    false
}

fn scan_args(args: &Vec<ExprOrSpread>, probe: Probe) -> (found: bool)
    ensures
        found == found_in_args(args_view(*args), probe),
    decreases args,
{
    let mut i: usize = 0;
    while i < args.len()
        invariant
            i <= args.len(),
            forall|j: int|
                0 <= j < i ==> !found_in_expr(*(#[trigger] args_view(*args)[j]).expr, probe),
        decreases args.len() - i,
    {
        if scan_expr(&args[i].expr, probe) {
            assert(found_in_expr(*args_view(*args)[i as int].expr, probe));
            return true;
        }
        i += 1;
    }
    false
}

fn scan_member(m: &MemberExpr, probe: Probe) -> (found: bool)
    ensures
        found == found_in_member(m@, probe),
    decreases m,
{
    if probe == Probe::DotValue && prop_names_value(&m.prop) {
        return true;
    }
    if scan_expr(&m.obj, probe) {
        return true;
    }
    assert(m@.prop == m.prop@);
    match &m.prop {
        MemberProp::Computed(computed) => {
            assert(m.prop@ == MemberPropView::Computed(computed@));
            scan_expr(&computed.expr, probe)
        },
        _ => false,
    }
}

fn scan_target(target: &AssignTarget, probe: Probe) -> (found: bool)
    ensures
        found == found_in_target(target@, probe),
    decreases target,
{
    match target {
        AssignTarget::Ident(_) => false,
        AssignTarget::Member(m) => scan_member(m, probe),
        AssignTarget::Paren(p) => scan_expr(&p.expr, probe),
        AssignTarget::Other(c) => scan_exprs(&c.children, probe),
    }
}

fn scan_pat(pat: &Pat, probe: Probe) -> (found: bool)
    ensures
        found == found_in_pat(pat@, probe),
    decreases pat,
{
    match pat {
        Pat::Ident(_) => false,
        Pat::Other(c) => scan_exprs(&c.children, probe),
    }
}

fn scan_pats(pats: &Vec<Pat>, probe: Probe) -> (found: bool)
    ensures
        found == found_in_pats(pats_view(*pats), probe),
    decreases pats,
{
    let mut i: usize = 0;
    while i < pats.len()
        invariant
            i <= pats.len(),
            forall|j: int| 0 <= j < i ==> !found_in_pat(#[trigger] pats_view(*pats)[j], probe),
        decreases pats.len() - i,
    {
        if scan_pat(&pats[i], probe) {
            assert(found_in_pat(pats_view(*pats)[i as int], probe));
            return true;
        }
        i += 1;
    }
    false
}

fn scan_key(key: &PropName, probe: Probe) -> (found: bool)
    ensures
        found == found_in_key(key@, probe),
    decreases key,
{
    match key {
        PropName::Computed(computed) => scan_expr(&computed.expr, probe),
        _ => false,
    }
}

fn scan_prop(prop: &Prop, probe: Probe) -> (found: bool)
    ensures
        found == found_in_prop(prop@, probe),
    decreases prop,
{
    match prop {
        Prop::KeyValue(kv) => scan_key(&kv.key, probe) || scan_expr(&kv.value, probe),
        Prop::Method(m) => scan_key(&m.key, probe) || scan_function(&m.function, probe),
        Prop::Other(c) => scan_exprs(&c.children, probe),
    }
}

fn scan_props(props: &Vec<Prop>, probe: Probe) -> (found: bool)
    ensures
        found == found_in_props(props_view(*props), probe),
    decreases props,
{
    let mut i: usize = 0;
    while i < props.len()
        invariant
            i <= props.len(),
            forall|j: int| 0 <= j < i ==> !found_in_prop(#[trigger] props_view(*props)[j], probe),
        decreases props.len() - i,
    {
        if scan_prop(&props[i], probe) {
            assert(found_in_prop(props_view(*props)[i as int], probe));
            return true;
        }
        i += 1;
    }
    false
}

/// Scans the parameters and the body of a function, and stops at the first
/// occurrence.
pub fn scan_function(f: &Function, probe: Probe) -> (found: bool)
    ensures
        found == found_in_function(f@, probe),
    decreases f,
{
    if scan_pats(&f.params, probe) {
        return true;
    }
    match &f.body {
        Some(body) => scan_stmts(&body.stmts, probe),
        None => false,
    }
}

/// Scans the parameters and the body of an arrow function, and stops at the
/// first occurrence.
pub fn scan_arrow(a: &ArrowExpr, probe: Probe) -> (found: bool)
    ensures
        found == found_in_arrow(a@, probe),
    decreases a,
{
    if scan_pats(&a.params, probe) {
        return true;
    }
    match &*a.body {
        BlockStmtOrExpr::BlockStmt(block) => scan_stmts(&block.stmts, probe),
        BlockStmtOrExpr::Expr(e) => scan_expr(e, probe),
    }
}

fn scan_stmts(stmts: &Vec<Stmt>, probe: Probe) -> (found: bool)
    ensures
        found == found_in_stmts(stmts_view(*stmts), probe),
    decreases stmts,
{
    let mut i: usize = 0;
    while i < stmts.len()
        invariant
            i <= stmts.len(),
            forall|j: int| 0 <= j < i ==> !found_in_stmt(#[trigger] stmts_view(*stmts)[j], probe),
        decreases stmts.len() - i,
    {
        if scan_stmt(&stmts[i], probe) {
            assert(found_in_stmt(stmts_view(*stmts)[i as int], probe));
            return true;
        }
        i += 1;
    }
    false
}

fn scan_declarator(decl: &VarDeclarator, probe: Probe) -> (found: bool)
    ensures
        found == found_in_declarator(decl@, probe),
    decreases decl,
{
    if scan_pat(&decl.name, probe) {
        return true;
    }
    match &decl.init {
        Some(init) => scan_expr(init, probe),
        None => false,
    }
}

fn scan_declarators(decls: &Vec<VarDeclarator>, probe: Probe) -> (found: bool)
    ensures
        found == found_in_declarators(declarators_view(*decls), probe),
    decreases decls,
{
    let mut i: usize = 0;
    while i < decls.len()
        invariant
            i <= decls.len(),
            forall|j: int|
                0 <= j < i ==> !found_in_declarator(
                    #[trigger] declarators_view(*decls)[j],
                    probe,
                ),
        decreases decls.len() - i,
    {
        if scan_declarator(&decls[i], probe) {
            assert(found_in_declarator(declarators_view(*decls)[i as int], probe));
            return true;
        }
        i += 1;
    }
    false
}

fn scan_decl(decl: &Decl, probe: Probe) -> (found: bool)
    ensures
        found == found_in_decl(decl@, probe),
    decreases decl,
{
    match decl {
        Decl::Var(var) => scan_declarators(&var.decls, probe),
        Decl::Fn(f) => scan_function(&f.function, probe),
        Decl::Other(c) => scan_exprs(&c.children, probe),
    }
}

fn scan_stmt(stmt: &Stmt, probe: Probe) -> (found: bool)
    ensures
        found == found_in_stmt(stmt@, probe),
    decreases stmt,
{
    match stmt {
        Stmt::Expr(s) => scan_expr(&s.expr, probe),
        Stmt::Decl(decl) => scan_decl(decl, probe),
        Stmt::Return(r) => match &r.arg {
            Some(arg) => scan_expr(arg, probe),
            None => false,
        },
        Stmt::Try(t) => {
            if scan_stmts(&t.block.stmts, probe) {
                return true;
            }
            let in_handler = match &t.handler {
                Some(handler) => scan_stmts(&handler.stmts, probe),
                None => false,
            };
            if in_handler {
                return true;
            }
            match &t.finalizer {
                Some(finalizer) => scan_stmts(&finalizer.stmts, probe),
                None => false,
            }
        },
        Stmt::Block(block) => scan_stmts(&block.stmts, probe),
        Stmt::Other(o) => scan_exprs(&o.exprs, probe) || scan_stmts(&o.stmts, probe),
    }
}

} // verus!
