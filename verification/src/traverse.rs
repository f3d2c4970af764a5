//! The walk over a tree: every declaration that can bind a component or a
//! hook is judged where the walk comes to it, the walk goes on into it, and
//! its body is wrapped where the verdict says so.
//!
//! The verdict on a declaration is reached on the declaration as it was
//! written, before anything inside it is wrapped. The tracking scope is put
//! around a body when the walk is through with the body, so the walk never
//! comes to the statements that the pass itself wrote.

use crate::ast::{
    ArrowExpr, AssignExpr, AssignTarget, BlockStmt, BlockStmtOrExpr, Composite,
    ComputedPropName, Decl, DefaultDecl, ExportDecl, ExportDefaultDecl, ExportDefaultExpr, Expr,
    ExprOrSpread, FnDecl, Function, KeyValueProp, MemberExpr, MemberProp, MethodProp, Module,
    ModuleDecl, ModuleItem, Pat, Program, Prop, PropName, Script, Span, Stmt, TryStmt, VarDecl,
    VarDeclarator,
};
use crate::shape::{lemma_extract_under_parens, lemma_in_parens_same, lemma_replace_under_parens};
use crate::contexts::{
    highest_ctxt_module, highest_ctxt_script, top_ctxt_module, top_ctxt_program,
    top_ctxt_script,
};
use crate::unchanged::{lemma_steady_module_items, lemma_steady_stmts};
use crate::extract::{
    bodied, extract_fn_from_expr, extracted_from, wrap_fn_in_expr, wrapped_function_like,
};
use crate::rewrite::{
    add_import, add_require, clone_ident, clone_str, new_private_ident, prepend_item,
    prepend_stmt, tracker_ident,
};
use crate::utils::{Spanned, Trackable};
use crate::view::{
    ProgramView, args_view, declarators_view, exprs_view, module_items_view, pats_view,
    props_view, stmts_view,
};
use crate::visitor::{SignalsTransformVisitor, scope_for};
use crate::walk::{
    Walked, assign_verdict, default_expr_verdict, default_fn_verdict, fn_decl_verdict, kept,
    key_value_verdict, marks_after_program, method_verdict, pending_of, plain_fn_decl_verdict,
    plain_var_decl_verdict, transformed_module, transformed_program, transformed_script,
    var_decl_verdict, visited_arg, visited_args, visited_args_upto, visited_arrow,
    visited_assign, visited_block, visited_block_opt, visited_composite, visited_computed,
    visited_decl, visited_declarator, visited_declarators, visited_declarators_upto,
    visited_export_decl, visited_export_default_decl, visited_export_default_expr, visited_expr,
    visited_exprs, visited_exprs_upto, visited_fn_decl, visited_function, visited_function_with,
    visited_key, visited_key_value, visited_member, visited_method, visited_module_decl,
    visited_module_item, visited_module_items, visited_module_items_upto, visited_pat,
    visited_pats, visited_pats_upto, visited_prop, visited_props, visited_props_upto,
    visited_stmt, visited_stmts, visited_stmts_upto, visited_target, visited_try,
    visited_var_decl, wrap_walked_expr, wrap_walked_var_decl,
};
use vstd::prelude::*;

verus! {

impl SignalsTransformVisitor {

    /// Walks an expression.
    pub fn visit_mut_expr(&mut self, e: &mut Expr)
        ensures
            old(self).walked(final(self), final(e)@, visited_expr(old(e)@, old(self).context(), old(self).marks())),
        decreases *old(e),
    {
        match e {
            Expr::Ident(_) => {},
            Expr::Lit(_) => {},
            Expr::Member(m) => {
                self.visit_mut_member_expr(m);
            },
            Expr::Call(c) => {
                self.visit_mut_expr(&mut c.callee);
                self.visit_mut_expr_or_spreads(&mut c.args);
            },
            Expr::Fn(f) => {
                self.visit_mut_function(&mut f.function);
            },
            Expr::Arrow(a) => {
                self.visit_mut_arrow_expr(a);
            },
            Expr::Assign(a) => {
                self.visit_mut_assign_expr(a);
            },
            Expr::Object(o) => {
                self.visit_mut_props(&mut o.props);
            },
            Expr::Paren(p) => {
                self.visit_mut_expr(&mut p.expr);
            },
            Expr::JsxElement(c) => {
                self.visit_mut_composite(c);
            },
            Expr::JsxFragment(c) => {
                self.visit_mut_composite(c);
            },
            Expr::Other(c) => {
                self.visit_mut_composite(c);
            },
        }
    }

    /// Walks an argument of a call.
    pub fn visit_mut_expr_or_spread(&mut self, arg: &mut ExprOrSpread)
        ensures
            old(self).walked(final(self), final(arg)@, visited_arg(old(arg)@, old(self).context(), old(self).marks())),
        decreases *old(arg),
    {
        self.visit_mut_expr(&mut arg.expr);
    }

    /// Walks a construct that has no rule of its own.
    pub fn visit_mut_composite(&mut self, c: &mut Composite)
        ensures
            old(self).walked(
                final(self),
                final(c)@,
                visited_composite(old(c)@, old(self).context(), old(self).marks()),
            ),
        decreases *old(c),
    {
        self.visit_mut_exprs(&mut c.children);
    }

    /// Walks a property in brackets.
    pub fn visit_mut_computed_prop_name(&mut self, computed: &mut ComputedPropName)
        ensures
            old(self).walked(
                final(self),
                final(computed)@,
                visited_computed(old(computed)@, old(self).context(), old(self).marks()),
            ),
        decreases *old(computed),
    {
        self.visit_mut_expr(&mut computed.expr);
    }

    /// Walks a member access.
    pub fn visit_mut_member_expr(&mut self, m: &mut MemberExpr)
        ensures
            old(self).walked(final(self), final(m)@, visited_member(old(m)@, old(self).context(), old(self).marks())),
        decreases *old(m),
    {
        self.visit_mut_expr(&mut m.obj);
        match &mut m.prop {
            MemberProp::Computed(computed) => {
                self.visit_mut_computed_prop_name(computed);
            },
            _ => {},
        }
    }

    /// Walks the left side of an assignment.
    pub fn visit_mut_assign_target(&mut self, target: &mut AssignTarget)
        ensures
            old(self).walked(
                final(self),
                final(target)@,
                visited_target(old(target)@, old(self).context(), old(self).marks()),
            ),
        decreases *old(target),
    {
        match target {
            AssignTarget::Ident(_) => {},
            AssignTarget::Member(m) => {
                self.visit_mut_member_expr(m);
            },
            AssignTarget::Paren(p) => {
                self.visit_mut_expr(&mut p.expr);
            },
            AssignTarget::Other(c) => {
                self.visit_mut_composite(c);
            },
        }
    }

    /// Wraps the function that `expr` stands for as a declaration of kind
    /// `trackable`, in a tracking scope with an identifier of its own, and
    /// sees to it that the unit has a name for the tracking entry point. An
    /// expression that stands for no function, or for one without a body, is
    /// left alone, and nothing is handed out for it.
    pub fn track_in_expr(&mut self, trackable: Trackable, expr: &mut Expr)
        ensures
            old(self).walked(
                final(self),
                final(expr)@,
                wrap_walked_expr(
                    kept(old(expr)@, old(self).marks()),
                    Some(trackable.arg(old(self).add_context_to_hooks)),
                    false,
                ),
            ),
    {
        let with_body = match extract_fn_from_expr(expr) {
            Some(component) => component.has_body(),
            None => false,
        };
        if with_body {
            let (ident, free) = self.open_scope();
            wrap_fn_in_expr(expr, ident, trackable.to_arg(self.add_context_to_hooks), free);
        }
    }

    /// Judges an assignment by the function that its right side stands for,
    /// walks on into both sides, and wraps that function where the verdict
    /// says so.
    pub fn visit_mut_assign_expr(&mut self, n: &mut AssignExpr)
        ensures
            old(self).walked(final(self), final(n)@, visited_assign(old(n)@, old(self).context(), old(self).marks())),
        decreases *old(n),
    {
        let ghost before = n@;
        let ghost cx = self.context();
        let spans = [n.span];
        assert(spans@ =~= seq![n.span]);
        let decided = match extract_fn_from_expr(&n.right) {
            Some(component) => match component.get_fn_ident() {
                None => self.should_track_option_ident(&spans, Some(&n.left), &component, false),
                Some(ident) => self.should_track_option_ident(
                    &spans,
                    Some(&ident),
                    &component,
                    false,
                ),
            },
            None => None,
        };
        assert(decided == assign_verdict(before, cx.rules));
        self.visit_mut_assign_target(&mut n.left);
        self.visit_mut_expr(&mut n.right);
        match decided {
            Some(trackable) => {
                self.track_in_expr(trackable, &mut n.right);
            },
            None => {},
        }
    }

    /// Walks a pattern.
    pub fn visit_mut_pat(&mut self, pat: &mut Pat)
        ensures
            old(self).walked(final(self), final(pat)@, visited_pat(old(pat)@, old(self).context(), old(self).marks())),
        decreases *old(pat),
    {
        match pat {
            Pat::Ident(_) => {},
            Pat::Other(c) => {
                self.visit_mut_composite(c);
            },
        }
    }

    /// Walks the key of a property.
    pub fn visit_mut_prop_name(&mut self, key: &mut PropName)
        ensures
            old(self).walked(final(self), final(key)@, visited_key(old(key)@, old(self).context(), old(self).marks())),
        decreases *old(key),
    {
        match key {
            PropName::Computed(computed) => {
                self.visit_mut_computed_prop_name(computed);
            },
            _ => {},
        }
    }

    /// Judges a property `key: value` by the function that the value stands
    /// for, walks on into the key and the value, and wraps that function
    /// where the verdict says so.
    pub fn visit_mut_key_value_prop(&mut self, n: &mut KeyValueProp)
        ensures
            old(self).walked(
                final(self),
                final(n)@,
                visited_key_value(old(n)@, old(self).context(), old(self).marks()),
            ),
        decreases *old(n),
    {
        let ghost before = n@;
        let ghost cx = self.context();
        let spans = [*n.key.get_span()];
        assert(spans@ =~= seq![n.key.span_of()]);
        let decided = match extract_fn_from_expr(&n.value) {
            Some(component) => match component.get_fn_ident() {
                None => self.should_track_option_ident(&spans, Some(&n.key), &component, false),
                Some(ident) => self.should_track_option_ident(
                    &spans,
                    Some(&ident),
                    &component,
                    false,
                ),
            },
            None => None,
        };
        assert(decided == key_value_verdict(before, cx.rules));
        self.visit_mut_prop_name(&mut n.key);
        self.visit_mut_expr(&mut n.value);
        match decided {
            Some(trackable) => {
                self.track_in_expr(trackable, &mut n.value);
            },
            None => {},
        }
    }

    /// Walks the parameters and the body of a function, and wraps the body
    /// where `verdict` says so.
    pub fn visit_mut_function_judged(&mut self, function: &mut Function, verdict: Option<Trackable>)
        ensures
            old(self).walked(
                final(self),
                final(function)@,
                visited_function_with(
                    old(function)@,
                    old(self).context(),
                    old(self).marks(),
                    pending_of(old(self).rules(), verdict),
                ),
            ),
        decreases *old(function), 1nat,
    {
        self.visit_mut_function(function);
        match verdict {
            Some(trackable) => {
                self.track(trackable, function);
            },
            None => {},
        }
    }

    /// Judges a method of an object literal by its key, walks on into the
    /// key and the function, and wraps the body where the verdict says so.
    pub fn visit_mut_method_prop(&mut self, n: &mut MethodProp)
        ensures
            old(self).walked(final(self), final(n)@, visited_method(old(n)@, old(self).context(), old(self).marks())),
        decreases *old(n),
    {
        let spans = [n.function.span, *n.key.get_span()];
        assert(spans@ =~= seq![n.function.span, n.key.span_of()]);
        assert(n@.function.span == n.function.span);
        let decided = self.should_track_option_ident(&spans, Some(&n.key), &*n.function, false);
        assert(decided == method_verdict(n@, self.rules()));
        self.visit_mut_prop_name(&mut n.key);
        self.visit_mut_function_judged(&mut n.function, decided);
    }

    /// Walks a member of an object literal.
    pub fn visit_mut_prop(&mut self, prop: &mut Prop)
        ensures
            old(self).walked(final(self), final(prop)@, visited_prop(old(prop)@, old(self).context(), old(self).marks())),
        decreases *old(prop),
    {
        match prop {
            Prop::KeyValue(kv) => {
                self.visit_mut_key_value_prop(kv);
            },
            Prop::Method(m) => {
                self.visit_mut_method_prop(m);
            },
            Prop::Other(c) => {
                self.visit_mut_composite(c);
            },
        }
    }

    /// Walks the statements of a block.
    pub fn visit_mut_block_stmt(&mut self, block: &mut BlockStmt)
        ensures
            old(self).walked(
                final(self),
                final(block)@,
                visited_block(old(block)@, old(self).context(), old(self).marks()),
            ),
        decreases *old(block),
    {
        self.visit_mut_stmts(&mut block.stmts);
    }

    /// Walks the statements of a block that may be absent.
    pub fn visit_mut_opt_block_stmt(&mut self, block: &mut Option<BlockStmt>)
        ensures
            old(self).walked(
                final(self),
                match *final(block) {
                    Some(block) => Some(block@),
                    None => None,
                },
                visited_block_opt(
                    match *old(block) {
                        Some(block) => Some(block@),
                        None => None,
                    },
                    old(self).context(),
                    old(self).marks(),
                ),
            ),
        decreases *old(block),
    {
        match block {
            Some(block) => {
                self.visit_mut_block_stmt(block);
            },
            None => {},
        }
    }

    /// Walks the parameters and the body of a function.
    pub fn visit_mut_function(&mut self, f: &mut Function)
        ensures
            old(self).walked(final(self), final(f)@, visited_function(old(f)@, old(self).context(), old(self).marks())),
        decreases *old(f), 0nat,
    {
        self.visit_mut_pats(&mut f.params);
        self.visit_mut_opt_block_stmt(&mut f.body);
    }

    /// Walks the parameters and the body of an arrow function.
    pub fn visit_mut_arrow_expr(&mut self, a: &mut ArrowExpr)
        ensures
            old(self).walked(final(self), final(a)@, visited_arrow(old(a)@, old(self).context(), old(self).marks())),
        decreases *old(a),
    {
        self.visit_mut_pats(&mut a.params);
        match &mut *a.body {
            BlockStmtOrExpr::BlockStmt(block) => {
                self.visit_mut_block_stmt(block);
            },
            BlockStmtOrExpr::Expr(e) => {
                self.visit_mut_expr(e);
            },
        }
    }

    /// Walks a binding of a variable declaration, without judging it.
    pub fn visit_mut_var_declarator(&mut self, d: &mut VarDeclarator)
        ensures
            old(self).walked(
                final(self),
                final(d)@,
                visited_declarator(old(d)@, old(self).context(), old(self).marks()),
            ),
        decreases *old(d),
    {
        self.visit_mut_pat(&mut d.name);
        match &mut d.init {
            Some(init) => {
                self.visit_mut_expr(init);
            },
            None => {},
        }
    }

    /// The verdict on a variable declaration: on the function that its
    /// first binding is initialised with. The comments are looked up at the
    /// initialiser, at the declaration and at `additional_spans`. Bindings
    /// after the first are not judged.
    pub fn judge_var_decl(&self, n: &VarDecl, additional_spans: Option<&[Span]>) -> (verdict:
        Option<Trackable>)
        ensures
            verdict == var_decl_verdict(
                n@,
                self.rules(),
                match additional_spans {
                    Some(spans) => spans@,
                    None => seq![],
                },
            ),
    {
        if n.decls.len() == 0 {
            return None;
        }
        let first = &n.decls[0];
        assert(declarators_view(n.decls)[0] == first@);
        match &first.init {
            Some(init) => {
                let inner = init.unwrap_parens();
                let child_span = *inner.get_span();
                proof {
                    lemma_extract_under_parens(init@);
                }
                match extract_fn_from_expr(inner) {
                    Some(component) => {
                        let mut spans: Vec<Span> = Vec::new();
                        spans.push(child_span);
                        spans.push(n.span);
                        match additional_spans {
                            Some(more) => {
                                let mut i: usize = 0;
                                while i < more.len()
                                    invariant
                                        i <= more.len(),
                                        spans@ == seq![child_span, n.span] + more@.take(i as int),
                                    decreases more.len() - i,
                                {
                                    spans.push(more[i]);
                                    assert(more@.take(i + 1) =~= more@.take(i as int).push(
                                        more@[i as int],
                                    ));
                                    i += 1;
                                }
                                assert(more@.take(i as int) =~= more@);
                            },
                            None => {
                                assert(spans@ =~= seq![child_span, n.span] + seq![]);
                            },
                        }
                        match component.get_fn_ident() {
                            None => self.should_track_option_ident(
                                spans.as_slice(),
                                Some(&first.name),
                                &component,
                                false,
                            ),
                            Some(ident) => self.should_track_option_ident(
                                spans.as_slice(),
                                Some(&ident),
                                &component,
                                false,
                            ),
                        }
                    },
                    None => None,
                }
            },
            None => None,
        }
    }

    /// Wraps the function that the first binding of a variable declaration
    /// is initialised with, under any parentheses, as a declaration of kind
    /// `trackable`. A declaration whose first binding is initialised with no
    /// function, or with one without a body, is left alone.
    pub fn track_var_decl(&mut self, trackable: Trackable, n: &mut VarDecl)
        ensures
            old(self).walked(
                final(self),
                final(n)@,
                wrap_walked_var_decl(
                    kept(old(n)@, old(self).marks()),
                    Some(trackable.arg(old(self).add_context_to_hooks)),
                ),
            ),
    {
        if n.decls.len() == 0 {
            return ;
        }
        let ghost held = n.decls;
        let ghost marks = self.marks();
        let ghost arg = trackable.arg(self.add_context_to_hooks);
        let decls = &mut n.decls;
        let ghost decls_after = *final(decls);
        let first = &mut decls[0];
        let ghost first_after = *final(first);
        assert(declarators_view(held)[0] == first@);
        match &mut first.init {
            Some(init) => {
                let ghost init_before = init@;
                proof {
                    lemma_extract_under_parens(init_before);
                    lemma_in_parens_same(init_before);
                    if extracted_from(init_before, true) is Some {
                        lemma_replace_under_parens(
                            init_before,
                            wrapped_function_like(
                                extracted_from(init_before, true)->Some_0,
                                scope_for(marks).0,
                                scope_for(marks).1,
                                arg,
                            ),
                        );
                    }
                }
                self.track_in_expr(trackable, init.unwrap_parens_mut());
            },
            None => {},
        }
        proof {
            assert(declarators_view(decls_after) =~= declarators_view(held).update(0, first_after@));
            assert(declarators_view(held).update(0, declarators_view(held)[0]) =~= declarators_view(
                held,
            ));
        }
    }

    /// Judges a variable declaration by the function that its first binding
    /// is initialised with, walks on into its bindings, and wraps that
    /// function where the verdict says so. The comments are looked up at the
    /// initialiser, at the declaration and at `additional_spans`.
    pub fn process_var_decl(&mut self, n: &mut VarDecl, additional_spans: Option<&[Span]>)
        ensures
            old(self).walked(
                final(self),
                final(n)@,
                visited_var_decl(
                    old(n)@,
                    old(self).context(),
                    old(self).marks(),
                    var_decl_verdict(
                        old(n)@,
                        old(self).rules(),
                        match additional_spans {
                            Some(spans) => spans@,
                            None => seq![],
                        },
                    ),
                ),
            ),
        decreases *old(n), 0nat,
    {
        let decided = self.judge_var_decl(n, additional_spans);
        self.visit_mut_var_declarators(&mut n.decls);
        match decided {
            Some(trackable) => {
                self.track_var_decl(trackable, n);
            },
            None => {},
        }
    }

    /// Judges a variable declaration, unless it is the exported one that
    /// was judged already, and walks on into its bindings.
    pub fn visit_mut_var_decl(&mut self, n: &mut VarDecl)
        ensures
            old(self).walked(
                final(self),
                final(n)@,
                visited_var_decl(
                    old(n)@,
                    old(self).context(),
                    old(self).marks(),
                    plain_var_decl_verdict(old(n)@, old(self).context()),
                ),
            ),
        decreases *old(n), 1nat,
    {
        let should_process = match self.ignore_span {
            Some(span) => !(span == n.span),
            None => true,
        };
        if should_process {
            self.process_var_decl(n, None);
        } else {
            self.visit_mut_var_declarators(&mut n.decls);
        }
    }

    /// Judges a function declaration by its name, unless it is the exported
    /// one that was judged already, walks on into the function, and wraps its
    /// body where the verdict says so.
    pub fn visit_mut_fn_decl(&mut self, n: &mut FnDecl)
        ensures
            old(self).walked(
                final(self),
                final(n)@,
                visited_fn_decl(
                    old(n)@,
                    old(self).context(),
                    old(self).marks(),
                    plain_fn_decl_verdict(old(n)@, old(self).context()),
                ),
            ),
        decreases *old(n),
    {
        let should_process = match self.ignore_span {
            Some(span) => !(span == n.function.span),
            None => true,
        };
        let spans = [n.function.span];
        assert(spans@ =~= seq![n.function.span]);
        assert(n@.function.span == n.function.span);
        let decided = if should_process {
            self.should_track_option_ident(&spans, Some(&n.ident), &*n, false)
        } else {
            None
        };
        assert(decided == plain_fn_decl_verdict(n@, self.context()));
        self.visit_mut_function_judged(&mut n.function, decided);
    }

    /// Walks a declaration.
    pub fn visit_mut_decl(&mut self, decl: &mut Decl)
        ensures
            old(self).walked(final(self), final(decl)@, visited_decl(old(decl)@, old(self).context(), old(self).marks())),
        decreases *old(decl),
    {
        match decl {
            Decl::Var(v) => {
                self.visit_mut_var_decl(v);
            },
            Decl::Fn(fd) => {
                self.visit_mut_fn_decl(fd);
            },
            Decl::Other(c) => {
                self.visit_mut_composite(c);
            },
        }
    }

    /// Walks a `try` statement.
    pub fn visit_mut_try_stmt(&mut self, t: &mut TryStmt)
        ensures
            old(self).walked(final(self), final(t)@, visited_try(old(t)@, old(self).context(), old(self).marks())),
        decreases *old(t),
    {
        self.visit_mut_block_stmt(&mut t.block);
        self.visit_mut_opt_block_stmt(&mut t.handler);
        self.visit_mut_opt_block_stmt(&mut t.finalizer);
    }

    /// Walks a statement.
    pub fn visit_mut_stmt(&mut self, stmt: &mut Stmt)
        ensures
            old(self).walked(final(self), final(stmt)@, visited_stmt(old(stmt)@, old(self).context(), old(self).marks())),
        decreases *old(stmt),
    {
        match stmt {
            Stmt::Expr(s) => {
                self.visit_mut_expr(&mut s.expr);
            },
            Stmt::Decl(decl) => {
                self.visit_mut_decl(decl);
            },
            Stmt::Return(r) => {
                match &mut r.arg {
                    Some(arg) => {
                        self.visit_mut_expr(arg);
                    },
                    None => {},
                }
            },
            Stmt::Try(t) => {
                self.visit_mut_try_stmt(t);
            },
            Stmt::Block(block) => {
                self.visit_mut_block_stmt(block);
            },
            Stmt::Other(o) => {
                self.visit_mut_exprs(&mut o.exprs);
                self.visit_mut_stmts(&mut o.stmts);
            },
        }
    }

    /// Walks the expressions of a list, one after the other.
    pub fn visit_mut_exprs(&mut self, nodes: &mut Vec<Expr>)
        ensures
            old(self).walked(
                final(self),
                exprs_view(*final(nodes)),
                visited_exprs(exprs_view(*old(nodes)), old(self).context(), old(self).marks()),
            ),
        decreases *old(nodes),
    {
        let ghost before = *nodes;
        let ghost start = *self;
        let ghost cx = self.context();
        let ghost marks = self.marks();
        let ghost views = exprs_view(before);
        let n = nodes.len();
        let mut i: usize = 0;
        assert(exprs_view(*nodes).take(0) =~= visited_exprs_upto(views, cx, marks, 0).node);
        while i < n
            invariant
                i <= n,
                nodes.len() == n,
                before.len() == n,
                *old(nodes) == before,
                views == exprs_view(before),
                cx == start.context(),
                marks == start.marks(),
                self.context() == cx,
                start.settled(self),
                exprs_view(*nodes).take(i as int) == visited_exprs_upto(views, cx, marks, i as nat).node,
                self.marks() == visited_exprs_upto(views, cx, marks, i as nat).marks,
                forall|j: int| i <= j < n ==> #[trigger] nodes[j] == before[j],
            decreases n - i,
        {
            assert(nodes[i as int] == before[i as int]);
            assert(views[i as int] == before[i as int]@);
            assert(decreases_to!(before => before[i as int]));
            let ghost prev = exprs_view(*nodes);
            self.visit_mut_expr(&mut nodes[i]);
            proof {
                let now = exprs_view(*nodes);
                assert(now.take(i + 1) =~= prev.take(i as int).push(nodes[i as int]@)) by {
                    assert forall|j: int| 0 <= j < i implies now[j] == prev[j] by {}
                    assert(now[i as int] == nodes[i as int]@);
                }
            }
            i += 1;
        }
        assert(exprs_view(*nodes).take(n as int) =~= exprs_view(*nodes));
    }

    /// Walks the arguments of a call, one after the other.
    pub fn visit_mut_expr_or_spreads(&mut self, nodes: &mut Vec<ExprOrSpread>)
        ensures
            old(self).walked(
                final(self),
                args_view(*final(nodes)),
                visited_args(args_view(*old(nodes)), old(self).context(), old(self).marks()),
            ),
        decreases *old(nodes),
    {
        let ghost before = *nodes;
        let ghost start = *self;
        let ghost cx = self.context();
        let ghost marks = self.marks();
        let ghost views = args_view(before);
        let n = nodes.len();
        let mut i: usize = 0;
        assert(args_view(*nodes).take(0) =~= visited_args_upto(views, cx, marks, 0).node);
        while i < n
            invariant
                i <= n,
                nodes.len() == n,
                before.len() == n,
                *old(nodes) == before,
                views == args_view(before),
                cx == start.context(),
                marks == start.marks(),
                self.context() == cx,
                start.settled(self),
                args_view(*nodes).take(i as int) == visited_args_upto(views, cx, marks, i as nat).node,
                self.marks() == visited_args_upto(views, cx, marks, i as nat).marks,
                forall|j: int| i <= j < n ==> #[trigger] nodes[j] == before[j],
            decreases n - i,
        {
            assert(nodes[i as int] == before[i as int]);
            assert(views[i as int] == before[i as int]@);
            assert(decreases_to!(before => before[i as int]));
            let ghost prev = args_view(*nodes);
            self.visit_mut_expr_or_spread(&mut nodes[i]);
            proof {
                let now = args_view(*nodes);
                assert(now.take(i + 1) =~= prev.take(i as int).push(nodes[i as int]@)) by {
                    assert forall|j: int| 0 <= j < i implies now[j] == prev[j] by {}
                    assert(now[i as int] == nodes[i as int]@);
                }
            }
            i += 1;
        }
        assert(args_view(*nodes).take(n as int) =~= args_view(*nodes));
    }

    /// Walks the patterns of a list, one after the other.
    pub fn visit_mut_pats(&mut self, nodes: &mut Vec<Pat>)
        ensures
            old(self).walked(
                final(self),
                pats_view(*final(nodes)),
                visited_pats(pats_view(*old(nodes)), old(self).context(), old(self).marks()),
            ),
        decreases *old(nodes),
    {
        let ghost before = *nodes;
        let ghost start = *self;
        let ghost cx = self.context();
        let ghost marks = self.marks();
        let ghost views = pats_view(before);
        let n = nodes.len();
        let mut i: usize = 0;
        assert(pats_view(*nodes).take(0) =~= visited_pats_upto(views, cx, marks, 0).node);
        while i < n
            invariant
                i <= n,
                nodes.len() == n,
                before.len() == n,
                *old(nodes) == before,
                views == pats_view(before),
                cx == start.context(),
                marks == start.marks(),
                self.context() == cx,
                start.settled(self),
                pats_view(*nodes).take(i as int) == visited_pats_upto(views, cx, marks, i as nat).node,
                self.marks() == visited_pats_upto(views, cx, marks, i as nat).marks,
                forall|j: int| i <= j < n ==> #[trigger] nodes[j] == before[j],
            decreases n - i,
        {
            assert(nodes[i as int] == before[i as int]);
            assert(views[i as int] == before[i as int]@);
            assert(decreases_to!(before => before[i as int]));
            let ghost prev = pats_view(*nodes);
            self.visit_mut_pat(&mut nodes[i]);
            proof {
                let now = pats_view(*nodes);
                assert(now.take(i + 1) =~= prev.take(i as int).push(nodes[i as int]@)) by {
                    assert forall|j: int| 0 <= j < i implies now[j] == prev[j] by {}
                    assert(now[i as int] == nodes[i as int]@);
                }
            }
            i += 1;
        }
        assert(pats_view(*nodes).take(n as int) =~= pats_view(*nodes));
    }

    /// Walks the members of an object literal, one after the other.
    pub fn visit_mut_props(&mut self, nodes: &mut Vec<Prop>)
        ensures
            old(self).walked(
                final(self),
                props_view(*final(nodes)),
                visited_props(props_view(*old(nodes)), old(self).context(), old(self).marks()),
            ),
        decreases *old(nodes),
    {
        let ghost before = *nodes;
        let ghost start = *self;
        let ghost cx = self.context();
        let ghost marks = self.marks();
        let ghost views = props_view(before);
        let n = nodes.len();
        let mut i: usize = 0;
        assert(props_view(*nodes).take(0) =~= visited_props_upto(views, cx, marks, 0).node);
        while i < n
            invariant
                i <= n,
                nodes.len() == n,
                before.len() == n,
                *old(nodes) == before,
                views == props_view(before),
                cx == start.context(),
                marks == start.marks(),
                self.context() == cx,
                start.settled(self),
                props_view(*nodes).take(i as int) == visited_props_upto(views, cx, marks, i as nat).node,
                self.marks() == visited_props_upto(views, cx, marks, i as nat).marks,
                forall|j: int| i <= j < n ==> #[trigger] nodes[j] == before[j],
            decreases n - i,
        {
            assert(nodes[i as int] == before[i as int]);
            assert(views[i as int] == before[i as int]@);
            assert(decreases_to!(before => before[i as int]));
            let ghost prev = props_view(*nodes);
            self.visit_mut_prop(&mut nodes[i]);
            proof {
                let now = props_view(*nodes);
                assert(now.take(i + 1) =~= prev.take(i as int).push(nodes[i as int]@)) by {
                    assert forall|j: int| 0 <= j < i implies now[j] == prev[j] by {}
                    assert(now[i as int] == nodes[i as int]@);
                }
            }
            i += 1;
        }
        assert(props_view(*nodes).take(n as int) =~= props_view(*nodes));
    }

    /// Walks the statements of a list, one after the other.
    pub fn visit_mut_stmts(&mut self, nodes: &mut Vec<Stmt>)
        ensures
            old(self).walked(
                final(self),
                stmts_view(*final(nodes)),
                visited_stmts(stmts_view(*old(nodes)), old(self).context(), old(self).marks()),
            ),
        decreases *old(nodes),
    {
        let ghost before = *nodes;
        let ghost start = *self;
        let ghost cx = self.context();
        let ghost marks = self.marks();
        let ghost views = stmts_view(before);
        let n = nodes.len();
        let mut i: usize = 0;
        assert(stmts_view(*nodes).take(0) =~= visited_stmts_upto(views, cx, marks, 0).node);
        while i < n
            invariant
                i <= n,
                nodes.len() == n,
                before.len() == n,
                *old(nodes) == before,
                views == stmts_view(before),
                cx == start.context(),
                marks == start.marks(),
                self.context() == cx,
                start.settled(self),
                stmts_view(*nodes).take(i as int) == visited_stmts_upto(views, cx, marks, i as nat).node,
                self.marks() == visited_stmts_upto(views, cx, marks, i as nat).marks,
                forall|j: int| i <= j < n ==> #[trigger] nodes[j] == before[j],
            decreases n - i,
        {
            assert(nodes[i as int] == before[i as int]);
            assert(views[i as int] == before[i as int]@);
            assert(decreases_to!(before => before[i as int]));
            let ghost prev = stmts_view(*nodes);
            self.visit_mut_stmt(&mut nodes[i]);
            proof {
                let now = stmts_view(*nodes);
                assert(now.take(i + 1) =~= prev.take(i as int).push(nodes[i as int]@)) by {
                    assert forall|j: int| 0 <= j < i implies now[j] == prev[j] by {}
                    assert(now[i as int] == nodes[i as int]@);
                }
            }
            i += 1;
        }
        assert(stmts_view(*nodes).take(n as int) =~= stmts_view(*nodes));
    }

    /// Walks the bindings of a variable declaration, none of which is judged here, one after the other.
    pub fn visit_mut_var_declarators(&mut self, nodes: &mut Vec<VarDeclarator>)
        ensures
            old(self).walked(
                final(self),
                declarators_view(*final(nodes)),
                visited_declarators(declarators_view(*old(nodes)), old(self).context(), old(self).marks()),
            ),
        decreases *old(nodes),
    {
        let ghost before = *nodes;
        let ghost start = *self;
        let ghost cx = self.context();
        let ghost marks = self.marks();
        let ghost views = declarators_view(before);
        let n = nodes.len();
        let mut i: usize = 0;
        assert(declarators_view(*nodes).take(0) =~= visited_declarators_upto(views, cx, marks, 0).node);
        while i < n
            invariant
                i <= n,
                nodes.len() == n,
                before.len() == n,
                *old(nodes) == before,
                views == declarators_view(before),
                cx == start.context(),
                marks == start.marks(),
                self.context() == cx,
                start.settled(self),
                declarators_view(*nodes).take(i as int) == visited_declarators_upto(views, cx, marks, i as nat).node,
                self.marks() == visited_declarators_upto(views, cx, marks, i as nat).marks,
                forall|j: int| i <= j < n ==> #[trigger] nodes[j] == before[j],
            decreases n - i,
        {
            assert(nodes[i as int] == before[i as int]);
            assert(views[i as int] == before[i as int]@);
            assert(decreases_to!(before => before[i as int]));
            let ghost prev = declarators_view(*nodes);
            self.visit_mut_var_declarator(&mut nodes[i]);
            proof {
                let now = declarators_view(*nodes);
                assert(now.take(i + 1) =~= prev.take(i as int).push(nodes[i as int]@)) by {
                    assert forall|j: int| 0 <= j < i implies now[j] == prev[j] by {}
                    assert(now[i as int] == nodes[i as int]@);
                }
            }
            i += 1;
        }
        assert(declarators_view(*nodes).take(n as int) =~= declarators_view(*nodes));
    }

    /// Walks the top-level items of a module, one after the other.
    pub fn visit_mut_module_items(&mut self, nodes: &mut Vec<ModuleItem>)
        ensures
            old(self).walked(
                final(self),
                module_items_view(*final(nodes)),
                visited_module_items(module_items_view(*old(nodes)), old(self).context(), old(self).marks()),
            ),
        decreases *old(nodes),
    {
        let ghost before = *nodes;
        let ghost start = *self;
        let ghost cx = self.context();
        let ghost marks = self.marks();
        let ghost views = module_items_view(before);
        let n = nodes.len();
        let mut i: usize = 0;
        assert(module_items_view(*nodes).take(0) =~= visited_module_items_upto(views, cx, marks, 0).node);
        while i < n
            invariant
                i <= n,
                nodes.len() == n,
                before.len() == n,
                *old(nodes) == before,
                views == module_items_view(before),
                cx == start.context(),
                marks == start.marks(),
                self.context() == cx,
                start.settled(self),
                module_items_view(*nodes).take(i as int) == visited_module_items_upto(views, cx, marks, i as nat).node,
                self.marks() == visited_module_items_upto(views, cx, marks, i as nat).marks,
                forall|j: int| i <= j < n ==> #[trigger] nodes[j] == before[j],
            decreases n - i,
        {
            assert(nodes[i as int] == before[i as int]);
            assert(views[i as int] == before[i as int]@);
            assert(decreases_to!(before => before[i as int]));
            let ghost prev = module_items_view(*nodes);
            self.visit_mut_module_item(&mut nodes[i]);
            proof {
                let now = module_items_view(*nodes);
                assert(now.take(i + 1) =~= prev.take(i as int).push(nodes[i as int]@)) by {
                    assert forall|j: int| 0 <= j < i implies now[j] == prev[j] by {}
                    assert(now[i as int] == nodes[i as int]@);
                }
            }
            i += 1;
        }
        assert(module_items_view(*nodes).take(n as int) =~= module_items_view(*nodes));
    }

    /// Judges an exported declaration with the comments of the export
    /// counted in, walks on into the declaration, which is not judged a second
    /// time on the way, and wraps where the verdict says so.
    pub fn visit_mut_export_decl(&mut self, n: &mut ExportDecl)
        ensures
            old(self).walked(
                final(self),
                final(n)@,
                visited_export_decl(old(n)@, old(self).context(), old(self).marks()),
            ),
    {
        let span = n.span;
        match &mut n.decl {
            Decl::Var(var_decl) => {
                let extra = [span];
                assert(extra@ =~= seq![span]);
                let old_span = self.ignore_span;
                self.ignore_span = Some(var_decl.span);
                self.process_var_decl(var_decl, Some(&extra));
                self.ignore_span = old_span;
            },
            Decl::Fn(fn_declr) => {
                let spans = [span, fn_declr.function.span];
                assert(spans@ =~= seq![span, fn_declr.function.span]);
                assert(fn_declr@.function.span == fn_declr.function.span);
                let decided = self.should_track_option_ident(
                    &spans,
                    Some(&fn_declr.ident),
                    &*fn_declr,
                    false,
                );
                assert(decided == fn_decl_verdict(
                    fn_declr@,
                    self.rules(),
                    seq![span, fn_declr@.function.span],
                ));
                let old_span = self.ignore_span;
                self.ignore_span = Some(fn_declr.function.span);
                self.visit_mut_function_judged(&mut fn_declr.function, decided);
                self.ignore_span = old_span;
            },
            Decl::Other(c) => {
                self.visit_mut_composite(c);
            },
        }
    }

    /// Judges a function that is exported as the default, by its own name
    /// or else by the name of the file, walks on into the function, and wraps
    /// its body where the verdict says so.
    pub fn visit_mut_export_default_decl(&mut self, n: &mut ExportDefaultDecl)
        ensures
            old(self).walked(
                final(self),
                final(n)@,
                visited_export_default_decl(old(n)@, old(self).context(), old(self).marks()),
            ),
    {
        let span = n.span;
        match &mut n.decl {
            DefaultDecl::Fn(fn_expr) => {
                let spans = [span, fn_expr.function.span];
                assert(spans@ =~= seq![span, fn_expr.function.span]);
                assert(fn_expr@.function.span == fn_expr.function.span);
                let decided = self.should_track_option_ident(
                    &spans,
                    fn_expr.ident.as_ref(),
                    &*fn_expr,
                    true,
                );
                assert(decided == default_fn_verdict(fn_expr@, self.rules(), span));
                let old_span = self.ignore_span;
                self.ignore_span = Some(fn_expr.function.span);
                self.visit_mut_function_judged(&mut fn_expr.function, decided);
                self.ignore_span = old_span;
            },
            DefaultDecl::Other(c) => {
                self.visit_mut_composite(c);
            },
        }
    }

    /// Judges an expression that is exported as the default by the function
    /// that it stands for, under any parentheses, walks on into the
    /// expression, and wraps that function where the verdict says so.
    pub fn visit_mut_export_default_expr(&mut self, n: &mut ExportDefaultExpr)
        ensures
            old(self).walked(
                final(self),
                final(n)@,
                visited_export_default_expr(old(n)@, old(self).context(), old(self).marks()),
            ),
    {
        let ghost before = n@;
        let ghost cx = self.context();
        let inner = n.expr.unwrap_parens();
        let child_span = *inner.get_span();
        proof {
            lemma_extract_under_parens(*before.expr);
        }
        let spans = [n.span, child_span];
        assert(spans@ =~= seq![n.span, child_span]);
        let decided = match extract_fn_from_expr(inner) {
            Some(component) => {
                let own = component.get_fn_ident();
                self.should_track_option_ident(&spans, own.as_ref(), &component, true)
            },
            None => None,
        };
        assert(decided == default_expr_verdict(before, cx.rules));
        self.visit_mut_expr(&mut n.expr);
        match decided {
            Some(trackable) => {
                let ghost walked = n.expr@;
                let ghost marks = self.marks();
                let ghost arg = trackable.arg(cx.rules.add_context_to_hooks);
                proof {
                    lemma_extract_under_parens(walked);
                    lemma_in_parens_same(walked);
                    if extracted_from(walked, true) is Some {
                        lemma_replace_under_parens(
                            walked,
                            wrapped_function_like(
                                extracted_from(walked, true)->Some_0,
                                scope_for(marks).0,
                                scope_for(marks).1,
                                arg,
                            ),
                        );
                    }
                }
                self.track_in_expr(trackable, n.expr.unwrap_parens_mut());
            },
            None => {},
        }
    }

    /// Walks a module declaration.
    pub fn visit_mut_module_decl(&mut self, decl: &mut ModuleDecl)
        ensures
            old(self).walked(
                final(self),
                final(decl)@,
                visited_module_decl(old(decl)@, old(self).context(), old(self).marks()),
            ),
    {
        match decl {
            ModuleDecl::Import(_) => {},
            ModuleDecl::ExportDecl(e) => {
                self.visit_mut_export_decl(e);
            },
            ModuleDecl::ExportDefaultDecl(e) => {
                self.visit_mut_export_default_decl(e);
            },
            ModuleDecl::ExportDefaultExpr(e) => {
                self.visit_mut_export_default_expr(e);
            },
            ModuleDecl::Other(_) => {},
        }
    }

    /// Walks a top-level item of a module.
    pub fn visit_mut_module_item(&mut self, item: &mut ModuleItem)
        ensures
            old(self).walked(
                final(self),
                final(item)@,
                visited_module_item(old(item)@, old(self).context(), old(self).marks()),
            ),
    {
        match item {
            ModuleItem::ModuleDecl(decl) => {
                self.visit_mut_module_decl(decl);
            },
            ModuleItem::Stmt(stmt) => {
                self.visit_mut_stmt(stmt);
            },
        }
    }

    /// Instruments a module: walks its items, and where a body asked for the
    /// tracking entry point, puts the import that binds it behind the
    /// directives at the head of the module. The unit starts without a name
    /// for the tracking entry point, whatever the unit before it had, and what
    /// the pass makes for it is made in syntax contexts above those that the
    /// unit holds.
    pub fn visit_mut_module(&mut self, n: &mut Module)
        ensures
            final(n)@ == transformed_module(
                old(n)@,
                old(self).rules(),
                old(self).ignore_span,
                old(self).use_signals_import_source@,
                old(self).next_ctxt,
            ),
            final(self).marks() == marks_after_program(
                ProgramView::Module(old(n)@),
                old(self).rules(),
                old(self).ignore_span,
                old(self).next_ctxt,
            ),
            final(self).import_use_signals matches Some(tracker) ==> tracker@ == tracker_ident(
                tracker.ctxt,
            ) && (top_ctxt_module(old(n)@) < u32::MAX ==> tracker.ctxt > top_ctxt_module(
                old(n)@,
            )),
            old(self).settled(final(self)),
    {
        self.import_use_signals = None;
        self.make_room_above(highest_ctxt_module(n));
        proof {
            lemma_steady_module_items(n@.body, self.context(), self.marks());
        }
        self.visit_mut_module_items(&mut n.body);
        match &self.import_use_signals {
            Some(ident) => {
                let import = add_import(
                    clone_ident(ident),
                    clone_str(&self.use_signals_import_source),
                    Some(new_private_ident("useSignals", ident.ctxt)),
                );
                prepend_item(&mut n.body, ModuleItem::ModuleDecl(ModuleDecl::Import(import)));
            },
            None => {},
        }
    }

    /// Instruments a script: walks its statements, and where a body asked
    /// for the tracking entry point, puts the statement that loads it behind
    /// the directives at the head of the script.
    pub fn visit_mut_script(&mut self, n: &mut Script)
        ensures
            final(n)@ == transformed_script(
                old(n)@,
                old(self).rules(),
                old(self).ignore_span,
                old(self).use_signals_import_source@,
                old(self).next_ctxt,
            ),
            final(self).marks() == marks_after_program(
                ProgramView::Script(old(n)@),
                old(self).rules(),
                old(self).ignore_span,
                old(self).next_ctxt,
            ),
            final(self).import_use_signals matches Some(tracker) ==> tracker@ == tracker_ident(
                tracker.ctxt,
            ) && (top_ctxt_script(old(n)@) < u32::MAX ==> tracker.ctxt > top_ctxt_script(old(n)@)),
            old(self).settled(final(self)),
    {
        self.import_use_signals = None;
        self.make_room_above(highest_ctxt_script(n));
        proof {
            lemma_steady_stmts(n@.body, self.context(), self.marks());
        }
        self.visit_mut_stmts(&mut n.body);
        match &self.import_use_signals {
            Some(ident) => {
                let binding = add_require(
                    clone_ident(ident),
                    clone_str(&self.use_signals_import_source),
                    Some(new_private_ident("useSignals", ident.ctxt)),
                );
                prepend_stmt(&mut n.body, binding);
            },
            None => {},
        }
    }

    /// Instruments a compilation unit. The local name that the unit gets
    /// for the tracking entry point is made in a syntax context above every
    /// one that the unit holds, so it is no identifier of the unit.
    pub fn visit_mut_program(&mut self, program: &mut Program)
        ensures
            final(program)@ == transformed_program(
                old(program)@,
                old(self).rules(),
                old(self).ignore_span,
                old(self).use_signals_import_source@,
                old(self).next_ctxt,
            ),
            final(self).marks() == marks_after_program(
                old(program)@,
                old(self).rules(),
                old(self).ignore_span,
                old(self).next_ctxt,
            ),
            final(self).import_use_signals matches Some(tracker) ==> tracker@ == tracker_ident(
                tracker.ctxt,
            ) && (top_ctxt_program(old(program)@) < u32::MAX ==> tracker.ctxt > top_ctxt_program(
                old(program)@,
            )),
            old(self).settled(final(self)),
    {
        match program {
            Program::Module(module) => {
                self.visit_mut_module(module);
            },
            Program::Script(script) => {
                self.visit_mut_script(script);
            },
        }
    }
}

} // verus!
