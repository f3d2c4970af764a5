//! What holds of the pass whatever the unit: which declarations are
//! tracked, what an opt-out and an opt-in do, which identifiers the tracking
//! scopes are bound to, and where the import goes.

use crate::ast::Span;
use crate::comments::{ShouldTrack, directive_at, directive_over, marked_at};
use crate::contexts::{top_ctxt_module, top_ctxt_script};
use crate::detect::{
    Probe, found_in_arrow, found_in_function, found_in_function_like, found_in_stmts,
};
use crate::extract::{extracted_from, own_ident, regular_arrow, wrapped_arrow, wrapped_function};
use crate::options::TransformMode;
use crate::pattern::{opt_in_marker, opt_out_marker, starts_like_component};
use crate::rewrite::{
    guarded, is_directive, is_directive_item, lemma_prologue_len, prologue_len, tracker_ident,
    tracking_binding, wrapped_statements,
};
use crate::unchanged::{
    lemma_steady_module_item,
    lemma_steady_decl, lemma_steady_declarators, lemma_steady_module_items, lemma_steady_stmts,
};
use crate::utils::{Trackable, expr_span, name_kind, pat_kind, strip_parens};
use crate::view::{
    ArrowExprView, DeclView, ExprView, FnDeclView, FunctionView, IdentView, ModuleItemView,
    ModuleView, PatView, ScriptView, StmtView, StrView, VarDeclView,
};
use crate::visitor::{Marks, Rules, decision, kind_for, scope_for, with_tracker};
use crate::walk::{
    Context, module_marks, plain_var_decl_verdict, script_marks, tracker_import,
    tracker_require, transformed_module, transformed_script, unit_context, var_decl_verdict,
    visited_module_items_upto, visited_arrow,
    visited_decl, visited_declarators, visited_function, visited_function_with,
    visited_module_items, visited_pats, visited_stmts,
};
use vstd::prelude::*;

verus! {

/// No comment at any of the spans carries a directive.
pub open spec fn undirected(rules: Rules, spans: Seq<Span>) -> bool {
    forall|i: int|
        0 <= i < spans.len() ==> directive_at(rules.comments, #[trigger] spans[i])
            == ShouldTrack::Auto
}

/// In mode `all`, without a directive, a declaration with a capitalised
/// name whose body holds markup is tracked as a component.
pub proof fn law_component_with_markup_is_tracked(
    rules: Rules,
    spans: Seq<Span>,
    name: Seq<char>,
    has_dot_value: bool,
    is_default_export: bool,
)
    requires
        rules.mode == TransformMode::All,
        undirected(rules, spans),
        starts_like_component(name),
    ensures
        decision(rules, spans, Some(name_kind(name)), true, has_dot_value, is_default_export)
            == Some(Trackable::Component),
{
}

/// In mode `all`, without a directive, the walk wraps the body of a function
/// declaration with a capitalised name whose body holds markup: the body
/// becomes the tracking scope around its statements as the walk leaves them,
/// bound to an identifier that is handed out when the walk is through with
/// the function.
pub proof fn law_component_declaration_is_wrapped(fd: FnDeclView, cx: Context, marks: Marks)
    requires
        cx.rules.mode == TransformMode::All,
        directive_at(cx.rules.comments, fd.function.span) == ShouldTrack::Auto,
        cx.ignore_span != Some(fd.function.span),
        starts_like_component(fd.ident.sym),
        fd.function.body matches Some(body) && found_in_stmts(body.stmts, Probe::Jsx),
    ensures
        ({
            let walked = visited_function(*fd.function, cx, marks);
            let (tracker, effect, after) = scope_for(walked.marks);
            let arg = Trackable::Component.arg(cx.rules.add_context_to_hooks);
            let out = visited_decl(DeclView::Fn(fd), cx, marks);
            &&& out.node == DeclView::Fn(
                FnDeclView {
                    ident: fd.ident,
                    function: Box::new(wrapped_function(walked.node, tracker, effect, arg)),
                },
            )
            &&& out.marks == after
            &&& out.wraps == walked.wraps + 1
            &&& wrapped_function(walked.node, tracker, effect, arg).body->Some_0.stmts
                == wrapped_statements(
                visited_stmts(
                    fd.function.body->Some_0.stmts,
                    cx,
                    visited_pats(fd.function.params, cx, marks).marks,
                ).node,
                tracker,
                effect,
                arg,
            )
        }),
{
    let spans = seq![fd.function.span];
    assert(undirected(cx.rules, spans));
    law_component_with_markup_is_tracked(cx.rules, spans, fd.ident.sym, found_in_function(
        *fd.function,
        Probe::DotValue,
    ), false);
}

/// In mode `all`, without a directive, the walk wraps the body of an arrow
/// function that is bound to a capitalised name and holds markup.
pub proof fn law_component_binding_is_wrapped(
    v: VarDeclView,
    a: ArrowExprView,
    cx: Context,
    marks: Marks,
)
    requires
        cx.rules.mode == TransformMode::All,
        cx.ignore_span != Some(v.span),
        v.decls.len() > 0,
        v.decls[0].name matches PatView::Ident(name) && starts_like_component(name.sym),
        v.decls[0].init == Some(Box::new(ExprView::Arrow(a))),
        regular_arrow(a),
        found_in_arrow(a, Probe::Jsx),
        directive_at(cx.rules.comments, a.span) == ShouldTrack::Auto,
        directive_at(cx.rules.comments, v.span) == ShouldTrack::Auto,
    ensures
        ({
            let walked = visited_declarators(v.decls, cx, marks);
            let (tracker, effect, after) = scope_for(walked.marks);
            let arg = Trackable::Component.arg(cx.rules.add_context_to_hooks);
            let out = visited_decl(DeclView::Var(Box::new(v)), cx, marks);
            &&& out.marks == after
            &&& out.wraps == walked.wraps + 1
            &&& out.node matches DeclView::Var(var) && var.decls.len() == v.decls.len()
                && var.decls[0].init == Some(
                Box::new(
                    ExprView::Arrow(
                        wrapped_arrow(
                            visited_arrow(a, cx, marks).node,
                            tracker,
                            effect,
                            arg,
                        ),
                    ),
                ),
            )
        }),
{
    let spans = seq![a.span, v.span] + seq![];
    assert(undirected(cx.rules, spans));
    let name = v.decls[0].name->Ident_0;
    law_component_with_markup_is_tracked(cx.rules, spans, name.sym, found_in_arrow(
        a,
        Probe::DotValue,
    ), false);
    assert(var_decl_verdict(v, cx.rules, seq![]) == Some(Trackable::Component));
    lemma_first_binding_walked(v, a, cx, marks);
}

/// The first binding of a variable declaration that is initialised with an
/// arrow function comes out of the walk over the bindings initialised with
/// that arrow function after the walk.
proof fn lemma_first_binding_walked(v: VarDeclView, a: ArrowExprView, cx: Context, marks: Marks)
    requires
        v.decls.len() > 0,
        v.decls[0].name is Ident,
        v.decls[0].init == Some(Box::new(ExprView::Arrow(a))),
    ensures
        visited_declarators(v.decls, cx, marks).node.len() == v.decls.len(),
        visited_declarators(v.decls, cx, marks).node[0].init == Some(
            Box::new(ExprView::Arrow(visited_arrow(a, cx, marks).node)),
        ),
{
    lemma_walked_bindings(v.decls, cx, marks, v.decls.len());
}

/// The walk over the first `k` bindings gives `k` bindings, the first of
/// which is the first binding after the walk.
proof fn lemma_walked_bindings(
    decls: Seq<crate::view::VarDeclaratorView>,
    cx: Context,
    marks: Marks,
    k: nat,
)
    requires
        k <= decls.len(),
    ensures
        crate::walk::visited_declarators_upto(decls, cx, marks, k).node.len() == k,
        k > 0 ==> crate::walk::visited_declarators_upto(decls, cx, marks, k).node[0]
            == crate::walk::visited_declarator(decls[0], cx, marks).node,
    decreases k,
{
    if k > 0 {
        lemma_walked_bindings(decls, cx, marks, (k - 1) as nat);
    }
}

/// An opt-out at any of the spans decides alone: the declaration is left
/// untracked, whatever its name and whatever its body holds.
pub proof fn law_opt_out_wins(
    rules: Rules,
    spans: Seq<Span>,
    at: int,
    named: Option<Option<Trackable>>,
    has_jsx: bool,
    has_dot_value: bool,
    is_default_export: bool,
)
    requires
        0 <= at < spans.len(),
        marked_at(rules.comments, spans[at].lo, opt_out_marker()),
    ensures
        decision(rules, spans, named, has_jsx, has_dot_value, is_default_export) is None,
{
    assert(directive_at(rules.comments, spans[at]) == ShouldTrack::OptOut);
}

/// A function declaration with an opt-out gets no tracking scope: the walk
/// only goes on into it.
pub proof fn law_opted_out_declaration_is_kept(fd: FnDeclView, cx: Context, marks: Marks)
    requires
        marked_at(cx.rules.comments, fd.function.span.lo, opt_out_marker()),
    ensures
        ({
            let walked = visited_function(*fd.function, cx, marks);
            let out = visited_decl(DeclView::Fn(fd), cx, marks);
            &&& out.node == DeclView::Fn(
                FnDeclView { ident: fd.ident, function: Box::new(walked.node) },
            )
            &&& out.marks == walked.marks
            &&& out.wraps == walked.wraps
        }),
{
    let spans = seq![fd.function.span];
    law_opt_out_wins(
        cx.rules,
        spans,
        0,
        Some(name_kind(fd.ident.sym)),
        found_in_function(*fd.function, Probe::Jsx),
        found_in_function(*fd.function, Probe::DotValue),
        false,
    );
}

/// A function declaration with an opt-out comes out of the walk as it went
/// in, whatever its name and whatever its body holds, unless a body nested in
/// it is wrapped.
pub proof fn law_opted_out_declaration_is_unchanged(fd: FnDeclView, cx: Context, marks: Marks)
    requires
        marked_at(cx.rules.comments, fd.function.span.lo, opt_out_marker()),
        visited_function(*fd.function, cx, marks).wraps == 0,
    ensures
        visited_decl(DeclView::Fn(fd), cx, marks).node == DeclView::Fn(fd),
        visited_decl(DeclView::Fn(fd), cx, marks).marks == marks,
{
    law_opted_out_declaration_is_kept(fd, cx, marks);
    lemma_steady_decl(DeclView::Fn(fd), cx, marks);
}

/// A variable declaration with an opt-out at the declaration or at its
/// initialiser comes out of the walk as it went in, unless a body nested in it
/// is wrapped.
pub proof fn law_opted_out_binding_is_unchanged(v: VarDeclView, cx: Context, marks: Marks)
    requires
        v.decls.len() > 0,
        v.decls[0].init is Some,
        marked_at(cx.rules.comments, v.span.lo, opt_out_marker()) || marked_at(
            cx.rules.comments,
            expr_span(strip_parens(*v.decls[0].init->Some_0)).lo,
            opt_out_marker(),
        ),
        visited_declarators(v.decls, cx, marks).wraps == 0,
    ensures
        visited_decl(DeclView::Var(Box::new(v)), cx, marks).node == DeclView::Var(Box::new(v)),
        visited_decl(DeclView::Var(Box::new(v)), cx, marks).marks == marks,
{
    let init = *v.decls[0].init->Some_0;
    let spans = seq![expr_span(strip_parens(init)), v.span] + seq![];
    assert(spans[0] == expr_span(strip_parens(init)));
    assert(spans[1] == v.span);
    if extracted_from(init, true) is Some {
        let f = extracted_from(init, true)->Some_0;
        let at: int = if marked_at(cx.rules.comments, v.span.lo, opt_out_marker()) {
            1
        } else {
            0
        };
        law_opt_out_wins(
            cx.rules,
            spans,
            at,
            match own_ident(f) {
                Some(ident) => Some(name_kind(ident.sym)),
                None => Some(pat_kind(v.decls[0].name)),
            },
            found_in_function_like(f, Probe::Jsx),
            found_in_function_like(f, Probe::DotValue),
            false,
        );
    }
    assert(plain_var_decl_verdict(v, cx) is None);
    lemma_steady_declarators(v.decls, cx, marks);
}

/// A unit in which the walk wraps no body comes out of the pass as it went
/// in: nothing is rewritten and nothing is imported.
pub proof fn law_untracked_module_is_unchanged(
    m: ModuleView,
    rules: Rules,
    ignore_span: Option<Span>,
    source: StrView,
    next: u32,
)
    requires
        visited_module_items(m.body, unit_context(rules, ignore_span), module_marks(m, next)).wraps
            == 0,
    ensures
        transformed_module(m, rules, ignore_span, source, next) == m,
{
    lemma_steady_module_items(m.body, unit_context(rules, ignore_span), module_marks(m, next));
}

/// The kind that an opted-in declaration is tracked as: the kind that it is
/// judged by, or `Unknown` where it has none.
pub open spec fn kind_or_unknown(kind: Option<Trackable>) -> Trackable {
    match kind {
        Some(kind) => kind,
        None => Trackable::Unknown,
    }
}

/// An opt-in at one of the spans, with no opt-out at any of them, has the
/// declaration tracked whatever its body holds: as the kind that it is
/// judged by, or as `Unknown` where it has none.
pub proof fn law_opt_in_tracks(
    rules: Rules,
    spans: Seq<Span>,
    at: int,
    named: Option<Option<Trackable>>,
    has_jsx: bool,
    has_dot_value: bool,
    is_default_export: bool,
)
    requires
        0 <= at < spans.len(),
        marked_at(rules.comments, spans[at].lo, opt_in_marker()),
        forall|i: int|
            0 <= i < spans.len() ==> !marked_at(
                rules.comments,
                (#[trigger] spans[i]).lo,
                opt_out_marker(),
            ),
    ensures
        decision(rules, spans, named, has_jsx, has_dot_value, is_default_export) == Some(
            kind_or_unknown(kind_for(rules, named, is_default_export)),
        ),
{
    assert(directive_at(rules.comments, spans[at]) == ShouldTrack::OptIn);
    assert(directive_over(rules.comments, spans) == ShouldTrack::OptIn);
}

/// The walk wraps the body of a function declaration with an opt-in and no
/// opt-out, whatever the body holds and whatever the mode.
pub proof fn law_opted_in_declaration_is_wrapped(fd: FnDeclView, cx: Context, marks: Marks)
    requires
        marked_at(cx.rules.comments, fd.function.span.lo, opt_in_marker()),
        !marked_at(cx.rules.comments, fd.function.span.lo, opt_out_marker()),
        cx.ignore_span != Some(fd.function.span),
        fd.function.body is Some,
    ensures
        ({
            let walked = visited_function(*fd.function, cx, marks);
            let (tracker, effect, after) = scope_for(walked.marks);
            let arg = kind_or_unknown(name_kind(fd.ident.sym)).arg(cx.rules.add_context_to_hooks);
            let out = visited_decl(DeclView::Fn(fd), cx, marks);
            &&& out.node == DeclView::Fn(
                FnDeclView {
                    ident: fd.ident,
                    function: Box::new(wrapped_function(walked.node, tracker, effect, arg)),
                },
            )
            &&& out.marks == after
            &&& out.wraps == walked.wraps + 1
        }),
{
    let spans = seq![fd.function.span];
    law_opt_in_tracks(
        cx.rules,
        spans,
        0,
        Some(name_kind(fd.ident.sym)),
        found_in_function(*fd.function, Probe::Jsx),
        found_in_function(*fd.function, Probe::DotValue),
        false,
    );
}

/// The walk wraps the body of an arrow function that is bound by a variable
/// declaration with an opt-in at the declaration or at the arrow function, and
/// with no opt-out at either, whatever the name, the body and the mode.
pub proof fn law_opted_in_binding_is_wrapped(
    v: VarDeclView,
    a: ArrowExprView,
    cx: Context,
    marks: Marks,
)
    requires
        cx.ignore_span != Some(v.span),
        v.decls.len() > 0,
        v.decls[0].name is Ident,
        v.decls[0].init == Some(Box::new(ExprView::Arrow(a))),
        regular_arrow(a),
        marked_at(cx.rules.comments, v.span.lo, opt_in_marker()) || marked_at(
            cx.rules.comments,
            a.span.lo,
            opt_in_marker(),
        ),
        !marked_at(cx.rules.comments, v.span.lo, opt_out_marker()),
        !marked_at(cx.rules.comments, a.span.lo, opt_out_marker()),
    ensures
        ({
            let walked = visited_declarators(v.decls, cx, marks);
            let (tracker, effect, after) = scope_for(walked.marks);
            let arg = kind_or_unknown(pat_kind(v.decls[0].name)).arg(
                cx.rules.add_context_to_hooks,
            );
            let out = visited_decl(DeclView::Var(Box::new(v)), cx, marks);
            &&& out.marks == after
            &&& out.wraps == walked.wraps + 1
            &&& out.node matches DeclView::Var(var) && var.decls.len() == v.decls.len()
                && var.decls[0].init == Some(
                Box::new(
                    ExprView::Arrow(
                        wrapped_arrow(
                            visited_arrow(a, cx, marks).node,
                            tracker,
                            effect,
                            arg,
                        ),
                    ),
                ),
            )
        }),
{
    let spans = seq![a.span, v.span] + seq![];
    assert(spans[0] == a.span);
    assert(spans[1] == v.span);
    let named = Some(pat_kind(v.decls[0].name));
    let at: int = if marked_at(cx.rules.comments, v.span.lo, opt_in_marker()) {
        1
    } else {
        0
    };
    law_opt_in_tracks(
        cx.rules,
        spans,
        at,
        named,
        found_in_arrow(a, Probe::Jsx),
        found_in_arrow(a, Probe::DotValue),
        false,
    );
    assert(var_decl_verdict(v, cx.rules, seq![]) == Some(
        kind_or_unknown(kind_for(cx.rules, named, false)),
    ));
    lemma_first_binding_walked(v, a, cx, marks);
}

/// The statements nested in a function are judged alike whether the
/// function is wrapped or not: either way the body holds them as the walk
/// leaves them, in the one case inside a tracking scope. And a function is
/// never wrapped twice: the wrap puts one scope around the walked statements
/// and counts as one.
pub proof fn law_one_scope_around_the_walked_statements(
    f: FunctionView,
    cx: Context,
    marks: Marks,
    arg: Option<u8>,
)
    requires
        f.body is Some,
    ensures
        ({
            let inner = visited_stmts(
                f.body->Some_0.stmts,
                cx,
                visited_pats(f.params, cx, marks).marks,
            );
            let walked = visited_function(f, cx, marks);
            let (tracker, effect, after) = scope_for(walked.marks);
            let plain = visited_function_with(f, cx, marks, None);
            let wrapped = visited_function_with(f, cx, marks, Some(arg));
            &&& plain == walked
            &&& plain.node.body->Some_0.stmts == inner.node
            &&& wrapped.node.body->Some_0.stmts == seq![
                tracking_binding(tracker, effect, arg),
                guarded(inner.node, effect),
            ]
            &&& wrapped.wraps == walked.wraps + 1
            &&& wrapped.marks == after
        }),
{
}

/// A tracking scope is bound to an identifier of its own: it is not the
/// local name of the tracking entry point that the scope calls, the scope
/// that is opened next is bound to another one, and the local name of the
/// tracking entry point is the same for both.
pub proof fn law_scope_identifier_is_its_own(marks: Marks)
    ensures
        ({
            let (tracker, effect, after) = scope_for(marks);
            let (next_tracker, next_effect, _) = scope_for(after);
            &&& effect != tracker
            &&& after.tracker == Some(tracker)
            &&& after.next != effect.ctxt
            &&& next_tracker == tracker
            &&& next_effect != effect
            &&& next_effect != tracker
        }),
{
}

/// Two tracking scopes of a unit are bound to two identifiers, whatever the
/// walk does between the one and the other, as long as the syntax contexts
/// have not started again: the later scope is bound in a higher context.
pub proof fn law_scopes_are_bound_apart(stmts: Seq<StmtView>, cx: Context, marks: Marks)
    requires
        marks.next + 3 * (visited_stmts(stmts, cx, scope_for(marks).2).wraps + 2) <= u32::MAX,
    ensures
        ({
            let (_, earlier, after) = scope_for(marks);
            let between = visited_stmts(stmts, cx, after);
            let (_, later, _) = scope_for(between.marks);
            &&& later.ctxt > earlier.ctxt
            &&& later != earlier
        }),
{
    lemma_steady_stmts(stmts, cx, scope_for(marks).2);
}

/// Every tracking scope of a module calls the local name that the import
/// binds: the name that the unit has after any number of its items is the
/// name that it has at its end.
pub proof fn law_scopes_call_the_imported_name(
    items: Seq<ModuleItemView>,
    cx: Context,
    marks: Marks,
    k: nat,
)
    requires
        k <= items.len(),
        visited_module_items_upto(items, cx, marks, k).marks.tracker is Some,
    ensures
        visited_module_items(items, cx, marks).marks.tracker == visited_module_items_upto(
            items,
            cx,
            marks,
            k,
        ).marks.tracker,
    decreases items.len() - k,
{
    if k < items.len() {
        let before = visited_module_items_upto(items, cx, marks, k);
        lemma_steady_module_item(items[k as int], cx, before.marks);
        law_scopes_call_the_imported_name(items, cx, marks, k + 1);
    }
}

/// The local name of the tracking entry point that a unit gets is made in
/// the syntax context that is next to hand out at that time, so it is no
/// identifier of a context that was handed out before or that the unit was
/// built below.
pub proof fn law_tracker_is_new(marks: Marks, other: IdentView)
    requires
        marks.tracker is None,
        other.ctxt != marks.next,
    ensures
        with_tracker(marks).0 == tracker_ident(marks.next),
        with_tracker(marks).0 != other,
        scope_for(marks).0 != other,
{
}

/// Every tracking scope of a unit calls the one local name of the tracking
/// entry point: once the unit has that name, no step of the walk changes it,
/// and every scope that is opened afterwards calls it.
pub proof fn law_scopes_call_the_one_tracker(
    stmts: Seq<StmtView>,
    cx: Context,
    marks: Marks,
    tracker: IdentView,
)
    requires
        marks.tracker == Some(tracker),
    ensures
        visited_stmts(stmts, cx, marks).marks.tracker == Some(tracker),
        scope_for(marks).0 == tracker,
        scope_for(visited_stmts(stmts, cx, marks).marks).0 == tracker,
{
    lemma_steady_stmts(stmts, cx, marks);
}

/// Where the walk wraps a body of a module, the module gains one item, the
/// import that binds the tracking entry point to the local name that the
/// scopes of the module call. That name is made in a syntax context above
/// every one that the module holds, so it is no identifier of the module. The
/// import stands behind the directives at the head of
/// the module, at the very start where there is none, and the other items are
/// the items after the walk, in their order. Where the walk wraps nothing, no
/// item is added.
pub proof fn law_one_import_behind_the_prologue(
    m: ModuleView,
    rules: Rules,
    ignore_span: Option<Span>,
    source: StrView,
    next: u32,
)
    ensures
        ({
            let w = visited_module_items(
                m.body,
                unit_context(rules, ignore_span),
                module_marks(m, next),
            );
            let out = transformed_module(m, rules, ignore_span, source, next).body;
            let at = prologue_len(w.node.map_values(|i: ModuleItemView| is_directive_item(i)));
            &&& w.wraps == 0 <==> w.marks.tracker is None
            &&& w.wraps == 0 ==> out == m.body
            &&& w.marks.tracker matches Some(tracker) ==> {
                &&& tracker == tracker_ident(module_marks(m, next).next)
                &&& top_ctxt_module(m) < u32::MAX ==> tracker.ctxt > top_ctxt_module(m)
                &&& out.len() == w.node.len() + 1
                &&& at <= w.node.len()
                &&& out[at as int] == tracker_import(tracker, source)
                &&& out.remove(at as int) == w.node
                &&& forall|j: int| 0 <= j < at ==> is_directive_item(#[trigger] out[j])
                &&& at < w.node.len() ==> !is_directive_item(out[at as int + 1])
                &&& at == 0 <==> (w.node.len() == 0 || !is_directive_item(w.node[0]))
            }
        }),
{
    let w = visited_module_items(m.body, unit_context(rules, ignore_span), module_marks(m, next));
    lemma_steady_module_items(m.body, unit_context(rules, ignore_span), module_marks(m, next));
    let flags = w.node.map_values(|i: ModuleItemView| is_directive_item(i));
    lemma_prologue_len(flags);
    let at = prologue_len(flags);
    if w.marks.tracker is Some {
        let tracker = w.marks.tracker->Some_0;
        let out = transformed_module(m, rules, ignore_span, source, next).body;
        assert(out == w.node.insert(at as int, tracker_import(tracker, source)));
        assert(out.remove(at as int) =~= w.node);
        assert forall|j: int| 0 <= j < at implies is_directive_item(#[trigger] out[j]) by {
            assert(flags[j]);
        }
        if at < w.node.len() {
            assert(!flags[at as int]);
        }
        if w.node.len() > 0 {
            if is_directive_item(w.node[0]) {
                assert(flags[0]);
            } else {
                assert(!flags[0]);
            }
        }
    }
}

/// Where the walk wraps a body of a script, the script gains one statement,
/// the one that loads the tracking entry point into the local name that the
/// scopes of the script call: it stands behind the directives at the head of
/// the script, at the very start where there is none, and the other
/// statements are the statements after the walk, in their order. Where the
/// walk wraps nothing, no statement is added.
pub proof fn law_one_require_behind_the_prologue(
    s: ScriptView,
    rules: Rules,
    ignore_span: Option<Span>,
    source: StrView,
    next: u32,
)
    ensures
        ({
            let w = visited_stmts(s.body, unit_context(rules, ignore_span), script_marks(s, next));
            let out = transformed_script(s, rules, ignore_span, source, next).body;
            let at = prologue_len(w.node.map_values(|s: StmtView| is_directive(s)));
            &&& w.wraps == 0 <==> w.marks.tracker is None
            &&& w.wraps == 0 ==> out == s.body
            &&& w.marks.tracker matches Some(tracker) ==> {
                &&& tracker == tracker_ident(script_marks(s, next).next)
                &&& top_ctxt_script(s) < u32::MAX ==> tracker.ctxt > top_ctxt_script(s)
                &&& out.len() == w.node.len() + 1
                &&& at <= w.node.len()
                &&& out[at as int] == tracker_require(tracker, source)
                &&& out.remove(at as int) == w.node
                &&& forall|j: int| 0 <= j < at ==> is_directive(#[trigger] out[j])
                &&& at < w.node.len() ==> !is_directive(out[at as int + 1])
                &&& at == 0 <==> (w.node.len() == 0 || !is_directive(w.node[0]))
            }
        }),
{
    let w = visited_stmts(s.body, unit_context(rules, ignore_span), script_marks(s, next));
    lemma_steady_stmts(s.body, unit_context(rules, ignore_span), script_marks(s, next));
    let flags = w.node.map_values(|s: StmtView| is_directive(s));
    lemma_prologue_len(flags);
    let at = prologue_len(flags);
    if w.marks.tracker is Some {
        let tracker = w.marks.tracker->Some_0;
        let out = transformed_script(s, rules, ignore_span, source, next).body;
        assert(out == w.node.insert(at as int, tracker_require(tracker, source)));
        assert(out.remove(at as int) =~= w.node);
        assert forall|j: int| 0 <= j < at implies is_directive(#[trigger] out[j]) by {
            assert(flags[j]);
        }
        if at < w.node.len() {
            assert(!flags[at as int]);
        }
        if w.node.len() > 0 {
            if is_directive(w.node[0]) {
                assert(flags[0]);
            } else {
                assert(!flags[0]);
            }
        }
    }
}

} // verus!
