//! The function that a declaration binds, and how its body is wrapped
//! whatever its form.

use crate::ast::{
    ArrowExpr, BlockStmt, BlockStmtOrExpr, Expr, FnExpr, Function, Ident, ReturnStmt, Span,
    Stmt,
};
use crate::rewrite::{clone_ident, scope_ident, wrap_with_use_signals, wrapped_statements};
use crate::utils::FunctionLikeExpr;
use crate::view::{
    ArrowExprView, BlockStmtOrExprView, BlockStmtView, CallExprView, ExprOrSpreadView, ExprView,
    FnExprView, FunctionView, IdentView, ParenExprView, ReturnStmtView, StmtView, args_view,
    expr_or_spread_view, stmts_view,
};
use vstd::prelude::*;

verus! {

/// A function in expression position that the pass treats as one kind of
/// thing, whichever way it is written: a look at a node of the tree, for as
/// long as the node is judged.
pub enum FunctionLike<'a> {
    Arrow(&'a ArrowExpr),
    Fn(&'a FnExpr),
}

/// What a [`FunctionLike`] refers to.
pub ghost enum FunctionLikeView {
    Arrow(ArrowExprView),
    Fn(FnExprView),
}

impl<'a> View for FunctionLike<'a> {
    type V = FunctionLikeView;

    open spec fn view(&self) -> FunctionLikeView {
        match self {
            FunctionLike::Arrow(arrow) => FunctionLikeView::Arrow(arrow@),
            FunctionLike::Fn(fn_expr) => FunctionLikeView::Fn(fn_expr@),
        }
    }
}

/// A function that is neither asynchronous nor a generator.
pub open spec fn regular_function(f: FunctionView) -> bool {
    !f.is_async && !f.is_generator
}

/// An arrow function that is neither asynchronous nor a generator.
pub open spec fn regular_arrow(a: ArrowExprView) -> bool {
    !a.is_async && !a.is_generator
}

/// The function that an expression stands for: the expression itself where
/// it is a regular function or arrow function, or what the first argument of
/// a call stands for, under any parentheses, where that argument is not
/// spread. With `through_parens` the expression itself may stand in
/// parentheses too.
pub open spec fn extracted_from(e: ExprView, through_parens: bool) -> Option<FunctionLikeView>
    decreases e,
{
    match e {
        ExprView::Fn(f) => if regular_function(*f.function) {
            Some(FunctionLikeView::Fn(f))
        } else {
            None
        },
        ExprView::Arrow(a) => if regular_arrow(a) {
            Some(FunctionLikeView::Arrow(a))
        } else {
            None
        },
        ExprView::Call(c) => if c.args.len() > 0 && c.args[0].spread is None {
            extracted_from(*c.args[0].expr, true)
        } else {
            None
        },
        ExprView::Paren(p) => if through_parens {
            extracted_from(*p.expr, true)
        } else {
            None
        },
        _ => None,
    }
}

/// The function that an expression stands for.
pub open spec fn extracted(e: ExprView) -> Option<FunctionLikeView> {
    extracted_from(e, false)
}

/// The expression with `f` in the place of the function that it stands for.
pub open spec fn replaced_in(e: ExprView, f: FunctionLikeView, through_parens: bool) -> ExprView
    decreases e,
{
    match e {
        ExprView::Fn(g) => match f {
            FunctionLikeView::Fn(new) if regular_function(*g.function) => ExprView::Fn(new),
            _ => e,
        },
        ExprView::Arrow(a) => match f {
            FunctionLikeView::Arrow(new) if regular_arrow(a) => ExprView::Arrow(new),
            _ => e,
        },
        ExprView::Call(c) => if c.args.len() > 0 && c.args[0].spread is None {
            ExprView::Call(
                CallExprView {
                    span: c.span,
                    callee: c.callee,
                    args: c.args.update(
                        0,
                        ExprOrSpreadView {
                            spread: None,
                            expr: Box::new(replaced_in(*c.args[0].expr, f, true)),
                        },
                    ),
                },
            )
        } else {
            e
        },
        ExprView::Paren(p) => if through_parens {
            ExprView::Paren(
                ParenExprView { span: p.span, expr: Box::new(replaced_in(*p.expr, f, true)) },
            )
        } else {
            e
        },
        _ => e,
    }
}

/// The expression with `f` in the place of the function that it stands for.
pub open spec fn replaced(e: ExprView, f: FunctionLikeView) -> ExprView {
    replaced_in(e, f, false)
}

/// The name that a function carries itself: that of a named function
/// expression.
pub open spec fn own_ident(f: FunctionLikeView) -> Option<IdentView> {
    match f {
        FunctionLikeView::Fn(fn_expr) => fn_expr.ident,
        FunctionLikeView::Arrow(_) => None,
    }
}

/// Whether a function has a body that a tracking scope can go around.
pub open spec fn bodied(f: FunctionLikeView) -> bool {
    match f {
        FunctionLikeView::Arrow(_) => true,
        FunctionLikeView::Fn(fn_expr) => fn_expr.function.body is Some,
    }
}

impl<'a> FunctionLike<'a> {
    /// Whether the function has a body.
    pub fn has_body(&self) -> (r: bool)
        ensures
            r == bodied(self@),
    {
        match self {
            FunctionLike::Fn(fn_expr) => fn_expr.has_body(),
            FunctionLike::Arrow(arrow_expr) => arrow_expr.has_body(),
        }
    }

    /// The name that the function carries itself, if it has one.
    pub fn get_fn_ident(&self) -> (ident: Option<Ident>)
        ensures
            match ident {
                Some(name) => own_ident(self@) == Some(name@),
                None => own_ident(self@) is None,
            },
    {
        match self {
            FunctionLike::Fn(fn_expr) => match &fn_expr.ident {
                Some(function_ident) => Some(clone_ident(function_ident)),
                None => None,
            },
            FunctionLike::Arrow(_) => None,
        }
    }
}

fn extract_from<'a>(expr: &'a Expr, through_parens: bool) -> (found: Option<FunctionLike<'a>>)
    ensures
        match found {
            Some(f) => extracted_from(expr@, through_parens) == Some(f@),
            None => extracted_from(expr@, through_parens) is None,
        },
    decreases expr,
{
    match expr {
        Expr::Fn(fn_expr) => {
            assert(*fn_expr@.function == fn_expr.function@);
            if fn_expr.is_regular() {
                Some(FunctionLike::Fn(fn_expr))
            } else {
                None
            }
        },
        Expr::Arrow(arrow_expr) => {
            if arrow_expr.is_regular() {
                Some(FunctionLike::Arrow(arrow_expr))
            } else {
                None
            }
        },
        Expr::Call(call) => {
            if call.args.len() > 0 {
                assert(args_view(call.args)[0] == expr_or_spread_view(call.args[0]));
                if call.args[0].spread.is_none() {
                    extract_from(&call.args[0].expr, true)
                } else {
                    None
                }
            } else {
                None
            }
        },
        Expr::Paren(paren) => {
            if through_parens {
                extract_from(&paren.expr, true)
            } else {
                None
            }
        },
        _ => None,
    }
}

/// Finds the function that an expression stands for: the expression itself
/// where it is a regular function or arrow function, or what the first
/// argument of a call stands for, under any parentheses, where that argument
/// is not spread.
pub fn extract_fn_from_expr<'a>(expr: &'a Expr) -> (found: Option<FunctionLike<'a>>)
    ensures
        match found {
            Some(f) => extracted(expr@) == Some(f@),
            None => extracted(expr@) is None,
        },
{
    extract_from(expr, false)
}

/// The block that stands for the body of an arrow function: the body itself
/// where it is a block, else a block that returns the expression.
pub open spec fn as_block(body: BlockStmtOrExprView) -> BlockStmtView {
    match body {
        BlockStmtOrExprView::BlockStmt(block) => block,
        BlockStmtOrExprView::Expr(expr) => BlockStmtView {
            span: Span::dummy_spec(),
            stmts: seq![
                StmtView::Return(ReturnStmtView { span: Span::dummy_spec(), arg: Some(expr) }),
            ],
        },
    }
}

/// What can be turned into a block of statements.
pub trait Blockable {
    /// The block that stands for this body.
    spec fn block(&self) -> BlockStmtView;

    fn to_block(self) -> (block: BlockStmt)
        ensures
            block@ == self.block(),
    ;
}

impl Blockable for BlockStmtOrExpr {
    open spec fn block(&self) -> BlockStmtView {
        as_block(self@)
    }

    fn to_block(self) -> (block: BlockStmt) {
        match self {
            BlockStmtOrExpr::BlockStmt(block) => block,
            BlockStmtOrExpr::Expr(expr) => {
                let mut stmts: Vec<Stmt> = Vec::new();
                stmts.push(Stmt::Return(ReturnStmt { span: Span::dummy(), arg: Some(expr) }));
                assert(stmts_view(stmts) =~= seq![
                    StmtView::Return(
                        ReturnStmtView { span: Span::dummy_spec(), arg: Some(Box::new(expr@)) },
                    ),
                ]);
                BlockStmt { span: Span::dummy(), stmts }
            },
        }
    }
}

/// A function with the statements of its body wrapped in a tracking scope.
/// A function without a body stays as it is.
pub open spec fn wrapped_function(
    f: FunctionView,
    tracker: IdentView,
    effect: IdentView,
    arg: Option<u8>,
) -> FunctionView {
    match f.body {
        Some(body) => FunctionView {
            body: Some(
                BlockStmtView {
                    span: body.span,
                    stmts: wrapped_statements(body.stmts, tracker, effect, arg),
                },
            ),
            ..f
        },
        None => f,
    }
}

/// An arrow function with its body, as a block, wrapped in a tracking scope.
pub open spec fn wrapped_arrow(
    a: ArrowExprView,
    tracker: IdentView,
    effect: IdentView,
    arg: Option<u8>,
) -> ArrowExprView {
    let block = as_block(*a.body);
    ArrowExprView {
        body: Box::new(
            BlockStmtOrExprView::BlockStmt(
                BlockStmtView {
                    span: block.span,
                    stmts: wrapped_statements(block.stmts, tracker, effect, arg),
                },
            ),
        ),
        ..a
    }
}

/// A function of either form with its body wrapped in a tracking scope.
pub open spec fn wrapped_function_like(
    f: FunctionLikeView,
    tracker: IdentView,
    effect: IdentView,
    arg: Option<u8>,
) -> FunctionLikeView {
    match f {
        FunctionLikeView::Arrow(arrow) => FunctionLikeView::Arrow(
            wrapped_arrow(arrow, tracker, effect, arg),
        ),
        FunctionLikeView::Fn(fn_expr) => FunctionLikeView::Fn(
            FnExprView {
                function: Box::new(wrapped_function(*fn_expr.function, tracker, effect, arg)),
                ..fn_expr
            },
        ),
    }
}

/// What has a body that can be wrapped in a tracking scope.
pub trait SignalWrappable {
    /// `after` is `before` with its body wrapped in a tracking scope that
    /// calls `tracker` with `arg` and is bound to `effect`.
    spec fn wrapped_into(
        before: &Self,
        after: &Self,
        tracker: IdentView,
        effect: IdentView,
        arg: Option<u8>,
    ) -> bool;

    /// There is a body to wrap.
    spec fn bodied(&self) -> bool;

    fn has_body(&self) -> (r: bool)
        ensures
            r == self.bodied(),
    ;

    fn wrap_with_use_signals(&mut self, import_use_signals: Ident, arg: Option<u8>, free_ctxt: u32)
        ensures
            Self::wrapped_into(
                old(self),
                final(self),
                import_use_signals@,
                scope_ident(free_ctxt, import_use_signals@),
                arg,
            ),
    ;
}

impl SignalWrappable for Function {
    open spec fn wrapped_into(
        before: &Self,
        after: &Self,
        tracker: IdentView,
        effect: IdentView,
        arg: Option<u8>,
    ) -> bool {
        after@ == wrapped_function(before@, tracker, effect, arg)
    }

    open spec fn bodied(&self) -> bool {
        self@.body is Some
    }

    fn has_body(&self) -> (r: bool) {
        self.body.is_some()
    }

    fn wrap_with_use_signals(&mut self, import_use_signals: Ident, arg: Option<u8>, free_ctxt: u32) {
        if let Some(body) = &mut self.body {
            let mut stmts: Vec<Stmt> = Vec::new();
            std::mem::swap(&mut body.stmts, &mut stmts);
            body.stmts = wrap_with_use_signals(stmts, import_use_signals, arg, free_ctxt);
        }
    }
}

impl SignalWrappable for FnExpr {
    open spec fn wrapped_into(
        before: &Self,
        after: &Self,
        tracker: IdentView,
        effect: IdentView,
        arg: Option<u8>,
    ) -> bool {
        FunctionLikeView::Fn(after@) == wrapped_function_like(
            FunctionLikeView::Fn(before@),
            tracker,
            effect,
            arg,
        )
    }

    open spec fn bodied(&self) -> bool {
        self@.function.body is Some
    }

    fn has_body(&self) -> (r: bool) {
        self.function.body.is_some()
    }

    fn wrap_with_use_signals(&mut self, import_use_signals: Ident, arg: Option<u8>, free_ctxt: u32) {
        self.function.wrap_with_use_signals(import_use_signals, arg, free_ctxt);
    }
}

impl SignalWrappable for ArrowExpr {
    open spec fn wrapped_into(
        before: &Self,
        after: &Self,
        tracker: IdentView,
        effect: IdentView,
        arg: Option<u8>,
    ) -> bool {
        after@ == wrapped_arrow(before@, tracker, effect, arg)
    }

    open spec fn bodied(&self) -> bool {
        true
    }

    fn has_body(&self) -> (r: bool) {
        true
    }

    fn wrap_with_use_signals(&mut self, import_use_signals: Ident, arg: Option<u8>, free_ctxt: u32) {
        let mut body = Box::new(
            BlockStmtOrExpr::BlockStmt(BlockStmt { span: Span::dummy(), stmts: Vec::new() }),
        );
        std::mem::swap(&mut self.body, &mut body);
        let block = (*body).to_block();
        let wrapped_body = wrap_with_use_signals(block.stmts, import_use_signals, arg, free_ctxt);
        self.body = Box::new(
            BlockStmtOrExpr::BlockStmt(BlockStmt { span: block.span, stmts: wrapped_body }),
        );
    }
}

fn wrap_in<'a>(
    expr: &'a mut Expr,
    through_parens: bool,
    import_use_signals: Ident,
    arg: Option<u8>,
    free_ctxt: u32,
)
    ensures
        final(expr)@ == match extracted_from(old(expr)@, through_parens) {
            Some(f) => replaced_in(
                old(expr)@,
                wrapped_function_like(
                    f,
                    import_use_signals@,
                    scope_ident(free_ctxt, import_use_signals@),
                    arg,
                ),
                through_parens,
            ),
            None => old(expr)@,
        },
    decreases *old(expr),
{
    match expr {
        Expr::Fn(fn_expr) => {
            assert(*fn_expr@.function == fn_expr.function@);
            if fn_expr.is_regular() {
                fn_expr.wrap_with_use_signals(import_use_signals, arg, free_ctxt);
            }
        },
        Expr::Arrow(arrow_expr) => {
            if arrow_expr.is_regular() {
                arrow_expr.wrap_with_use_signals(import_use_signals, arg, free_ctxt);
            }
        },
        Expr::Call(call) => {
            if call.args.len() > 0 {
                assert(args_view(call.args)[0] == expr_or_spread_view(call.args[0]));
                if call.args[0].spread.is_none() {
                    let ghost before = call.args;
                    let args = &mut call.args;
                    let ghost after = *final(args);
                    let first = &mut args[0];
                    let ghost first_after = *final(first);
                    wrap_in(&mut first.expr, true, import_use_signals, arg, free_ctxt);
                    proof {
                        let changed = expr_or_spread_view(first_after);
                        assert(after@ == before@.update(0, first_after));
                        assert(args_view(after) =~= args_view(before).update(0, changed));
                        assert(changed.spread == before[0].spread);
                        if extracted_from(*args_view(before)[0].expr, true) is None {
                            assert(args_view(before).update(0, changed) =~= args_view(before));
                        }
                    }
                }
            }
        },
        Expr::Paren(paren) => {
            if through_parens {
                wrap_in(&mut paren.expr, true, import_use_signals, arg, free_ctxt);
            }
        },
        _ => {},
    }
}

/// Wraps the body of the function that an expression stands for in a
/// tracking scope, in its place in the expression. An expression that stands
/// for no function is left as it is.
pub fn wrap_fn_in_expr(
    expr: &mut Expr,
    import_use_signals: Ident,
    arg: Option<u8>,
    free_ctxt: u32,
)
    ensures
        final(expr)@ == match extracted(old(expr)@) {
            Some(f) => replaced(
                old(expr)@,
                wrapped_function_like(
                    f,
                    import_use_signals@,
                    scope_ident(free_ctxt, import_use_signals@),
                    arg,
                ),
            ),
            None => old(expr)@,
        },
{
    wrap_in(expr, false, import_use_signals, arg, free_ctxt)
}

} // verus!
