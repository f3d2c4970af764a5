//! The building blocks of the pass: how a name is classified, how the
//! function that a declaration binds is found, and how a body is wrapped.

use crate::ast::{
    ArrowExpr, AssignTarget, Expr, FnDecl, FnExpr, Function, Ident, Lit, MemberProp, Pat,
    PropName, Span, Str,
};
use crate::pattern::{
    is_component_name, is_hook_name, starts_like_component, starts_like_hook,
};
use crate::view::{
    AssignTargetView, ExprView, LitView, MemberPropView, ParenExprView, PatView, PropNameView,
};
use vstd::prelude::*;

pub use crate::detect::Detectable;
pub use crate::extract::{
    extract_fn_from_expr, Blockable, FunctionLike, SignalWrappable,
};
pub use crate::rewrite::{add_import, add_require, wrap_with_use_signals};

verus! {

/// A function without `async` and without `*`.
pub trait FunctionLikeExpr {
    /// Neither asynchronous nor a generator.
    spec fn regular(&self) -> bool;

    fn is_regular(&self) -> (r: bool)
        ensures
            r == self.regular(),
    ;
}

impl FunctionLikeExpr for ArrowExpr {
    open spec fn regular(&self) -> bool {
        !self.is_async && !self.is_generator
    }

    fn is_regular(&self) -> (r: bool) {
        !self.is_async && !self.is_generator
    }
}

impl FunctionLikeExpr for Function {
    open spec fn regular(&self) -> bool {
        !self.is_async && !self.is_generator
    }

    fn is_regular(&self) -> (r: bool) {
        !self.is_async && !self.is_generator
    }
}

impl FunctionLikeExpr for FnExpr {
    open spec fn regular(&self) -> bool {
        self.function.regular()
    }

    fn is_regular(&self) -> (r: bool) {
        self.function.is_regular()
    }
}

impl FunctionLikeExpr for FnDecl {
    open spec fn regular(&self) -> bool {
        self.function.regular()
    }

    fn is_regular(&self) -> (r: bool) {
        self.function.is_regular()
    }
}

/// What kind of declaration the pass instruments. `Unknown` comes only from
/// an explicit opt-in on a name that is spelled like neither of the others.
#[derive(Clone, Copy, Debug, PartialEq, Eq, Structural)]
pub enum Trackable {
    Hook,
    Component,
    Unknown,
}

impl Trackable {
    /// The number that tells the tracking entry point the kind: 0 for
    /// `Unknown`, 1 for `Component`, 2 for `Hook`; nothing where the flag is
    /// off.
    pub open spec fn arg(self, add_hook_usage_flag: bool) -> Option<u8> {
        if !add_hook_usage_flag {
            None
        } else {
            match self {
                Trackable::Unknown => Some(0u8),
                Trackable::Component => Some(1u8),
                Trackable::Hook => Some(2u8),
            }
        }
    }

    /// The argument with which a body of this kind calls the tracking entry
    /// point.
    pub fn to_arg(&self, add_hook_usage_flag: bool) -> (arg: Option<u8>)
        ensures
            arg == self.arg(add_hook_usage_flag),
    {
        match (add_hook_usage_flag, self) {
            (false, _) => None,
            (true, Trackable::Component) => Some(1),
            (true, Trackable::Hook) => Some(2),
            (true, Trackable::Unknown) => Some(0),
        }
    }
}

/// The kind that a name stands for: a component where it starts with a
/// capital letter, a hook where it starts with `use` and a capital letter.
pub open spec fn name_kind(name: Seq<char>) -> Option<Trackable> {
    if starts_like_component(name) {
        Some(Trackable::Component)
    } else if starts_like_hook(name) {
        Some(Trackable::Hook)
    } else {
        None
    }
}

/// The expression inside any number of parentheses.
pub open spec fn strip_parens(e: ExprView) -> ExprView
    decreases e,
{
    match e {
        ExprView::Paren(p) => strip_parens(*p.expr),
        _ => e,
    }
}

/// `e` with `inner` in the place of the expression inside its parentheses.
pub open spec fn in_parens(e: ExprView, inner: ExprView) -> ExprView
    decreases e,
{
    match e {
        ExprView::Paren(p) => ExprView::Paren(
            ParenExprView { span: p.span, expr: Box::new(in_parens(*p.expr, inner)) },
        ),
        _ => inner,
    }
}

/// The kind named by the property of a member access. A computed property
/// names something only where it is a string literal.
pub open spec fn member_prop_kind(prop: MemberPropView) -> Option<Trackable> {
    match prop {
        MemberPropView::Ident(ident) => name_kind(ident.sym),
        MemberPropView::PrivateName(_) => None,
        MemberPropView::Computed(computed) => match strip_parens(*computed.expr) {
            ExprView::Lit(LitView::Str(s)) => name_kind(s.value),
            _ => None,
        },
    }
}

/// The kind named by an expression: by an identifier, by the property of a
/// member access, or by a string literal, all under any parentheses.
pub open spec fn expr_kind(e: ExprView) -> Option<Trackable> {
    match strip_parens(e) {
        ExprView::Ident(ident) => name_kind(ident.sym),
        ExprView::Member(member) => member_prop_kind(member.prop),
        ExprView::Lit(LitView::Str(s)) => name_kind(s.value),
        _ => None,
    }
}

/// The kind named by a binding pattern: only a plain identifier names one.
pub open spec fn pat_kind(pat: PatView) -> Option<Trackable> {
    match pat {
        PatView::Ident(ident) => name_kind(ident.sym),
        PatView::Other(_) => None,
    }
}

/// The kind named by the key of an object property.
pub open spec fn prop_name_kind(key: PropNameView) -> Option<Trackable> {
    match key {
        PropNameView::Computed(computed) => expr_kind(*computed.expr),
        PropNameView::Str(s) => name_kind(s.value),
        PropNameView::Ident(ident) => name_kind(ident.sym),
        _ => None,
    }
}

/// The kind named by the left side of an assignment.
pub open spec fn assign_target_kind(target: AssignTargetView) -> Option<Trackable> {
    match target {
        AssignTargetView::Ident(ident) => name_kind(ident.sym),
        AssignTargetView::Member(member) => member_prop_kind(member.prop),
        AssignTargetView::Paren(paren) => expr_kind(*paren.expr),
        AssignTargetView::Other(_) => None,
    }
}

impl Expr {
    /// The expression inside any number of parentheses.
    pub fn unwrap_parens(&self) -> (inner: &Expr)
        ensures
            inner@ == strip_parens(self@),
            !(inner is Paren),
        decreases self,
    {
        match self {
            Expr::Paren(p) => p.expr.unwrap_parens(),
            _ => self,
        }
    }

    /// The expression inside any number of parentheses, to be changed in
    /// place: whatever is written through the result stands inside the same
    /// parentheses afterwards.
    pub fn unwrap_parens_mut(&mut self) -> (inner: &mut Expr)
        ensures
            inner@ == strip_parens(old(self)@),
            !(*inner is Paren),
            final(self)@ == in_parens(old(self)@, final(inner)@),
        decreases *old(self),
    {
        match self {
            Expr::Paren(p) => p.expr.unwrap_parens_mut(),
            _ => self,
        }
    }
}

/// What can name a component or a hook.
pub trait MaybeComponentName {
    /// The kind that this name stands for, if any.
    spec fn named_kind(&self) -> Option<Trackable>;

    fn is_trackable(&self) -> (kind: Option<Trackable>)
        ensures
            kind == self.named_kind(),
    ;
}

impl MaybeComponentName for str {
    open spec fn named_kind(&self) -> Option<Trackable> {
        name_kind(self@)
    }

    fn is_trackable(&self) -> (kind: Option<Trackable>) {
        if is_component_name(self) {
            Some(Trackable::Component)
        } else if is_hook_name(self) {
            Some(Trackable::Hook)
        } else {
            None
        }
    }
}

impl MaybeComponentName for Str {
    open spec fn named_kind(&self) -> Option<Trackable> {
        name_kind(self.value@)
    }

    fn is_trackable(&self) -> (kind: Option<Trackable>) {
        self.value.as_str().is_trackable()
    }
}

impl MaybeComponentName for Ident {
    open spec fn named_kind(&self) -> Option<Trackable> {
        name_kind(self.sym@)
    }

    fn is_trackable(&self) -> (kind: Option<Trackable>) {
        self.sym.as_str().is_trackable()
    }
}

impl MaybeComponentName for Pat {
    open spec fn named_kind(&self) -> Option<Trackable> {
        pat_kind(self@)
    }

    fn is_trackable(&self) -> (kind: Option<Trackable>) {
        if let Pat::Ident(id) = self {
            id.is_trackable()
        } else {
            None
        }
    }
}

impl MaybeComponentName for MemberProp {
    open spec fn named_kind(&self) -> Option<Trackable> {
        member_prop_kind(self@)
    }

    fn is_trackable(&self) -> (kind: Option<Trackable>) {
        match self {
            MemberProp::Ident(ident) => ident.is_trackable(),
            MemberProp::PrivateName(_) => None,
            MemberProp::Computed(computed) => match computed.expr.unwrap_parens() {
                Expr::Lit(Lit::Str(s)) => s.is_trackable(),
                _ => None,
            },
        }
    }
}

impl MaybeComponentName for Expr {
    open spec fn named_kind(&self) -> Option<Trackable> {
        expr_kind(self@)
    }

    fn is_trackable(&self) -> (kind: Option<Trackable>) {
        match self.unwrap_parens() {
            Expr::Ident(ident) => ident.is_trackable(),
            Expr::Member(member_expr) => member_expr.prop.is_trackable(),
            Expr::Lit(Lit::Str(s)) => s.is_trackable(),
            _ => None,
        }
    }
}

impl MaybeComponentName for PropName {
    open spec fn named_kind(&self) -> Option<Trackable> {
        prop_name_kind(self@)
    }

    fn is_trackable(&self) -> (kind: Option<Trackable>) {
        match self {
            PropName::Computed(computed) => computed.expr.is_trackable(),
            PropName::Str(s) => s.is_trackable(),
            PropName::Ident(ident) => ident.is_trackable(),
            _ => None,
        }
    }
}

impl MaybeComponentName for AssignTarget {
    open spec fn named_kind(&self) -> Option<Trackable> {
        assign_target_kind(self@)
    }

    fn is_trackable(&self) -> (kind: Option<Trackable>) {
        match self {
            AssignTarget::Ident(ident) => ident.is_trackable(),
            AssignTarget::Member(member) => member.prop.is_trackable(),
            AssignTarget::Paren(paren) => paren.expr.is_trackable(),
            AssignTarget::Other(_) => None,
        }
    }
}

/// The span of a literal.
pub open spec fn lit_span(lit: LitView) -> Span {
    match lit {
        LitView::Str(s) => s.span,
        LitView::Num(n) => n.span,
        LitView::Other(span) => span,
    }
}

/// The span of the key of an object property.
pub open spec fn prop_name_span(key: PropNameView) -> Span {
    match key {
        PropNameView::Ident(ident) => ident.span,
        PropNameView::Str(s) => s.span,
        PropNameView::Num(n) => n.span,
        PropNameView::Computed(computed) => computed.span,
        PropNameView::BigInt(span) => span,
    }
}

/// The span of an expression. A function expression has the span of its
/// function.
pub open spec fn expr_span(e: ExprView) -> Span {
    match e {
        ExprView::Ident(ident) => ident.span,
        ExprView::Lit(lit) => lit_span(lit),
        ExprView::Member(member) => member.span,
        ExprView::Call(call) => call.span,
        ExprView::Fn(f) => f.function.span,
        ExprView::Arrow(arrow) => arrow.span,
        ExprView::Assign(assign) => assign.span,
        ExprView::Object(object) => object.span,
        ExprView::Paren(paren) => paren.span,
        ExprView::JsxElement(element) => element.span,
        ExprView::JsxFragment(fragment) => fragment.span,
        ExprView::Other(other) => other.span,
    }
}

/// What has a place in the source text.
pub trait Spanned {
    /// The place of this node.
    spec fn span_of(&self) -> Span;

    fn get_span(&self) -> (span: &Span)
        ensures
            *span == self.span_of(),
    ;
}

impl Spanned for Lit {
    open spec fn span_of(&self) -> Span {
        lit_span(self@)
    }

    fn get_span(&self) -> (span: &Span) {
        match self {
            Lit::Str(lit) => &lit.span,
            Lit::Num(lit) => &lit.span,
            Lit::Other(span) => span,
        }
    }
}

impl Spanned for PropName {
    open spec fn span_of(&self) -> Span {
        prop_name_span(self@)
    }

    fn get_span(&self) -> (span: &Span) {
        match self {
            PropName::BigInt(it) => it,
            PropName::Computed(it) => &it.span,
            PropName::Ident(it) => &it.span,
            PropName::Num(it) => &it.span,
            PropName::Str(it) => &it.span,
        }
    }
}

impl Spanned for Expr {
    open spec fn span_of(&self) -> Span {
        expr_span(self@)
    }

    fn get_span(&self) -> (span: &Span) {
        match self {
            Expr::Arrow(it) => &it.span,
            Expr::Assign(it) => &it.span,
            Expr::Call(it) => &it.span,
            Expr::Fn(it) => {
                assert(it@.function.span == it.function.span);
                &it.function.span
            },
            Expr::Ident(it) => &it.span,
            Expr::Lit(it) => it.get_span(),
            Expr::Member(it) => &it.span,
            Expr::Object(it) => &it.span,
            Expr::Paren(it) => &it.span,
            Expr::JsxElement(it) => &it.span,
            Expr::JsxFragment(it) => &it.span,
            Expr::Other(it) => &it.span,
        }
    }
}

} // verus!
