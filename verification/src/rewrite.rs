//! The statements that the pass writes: the tracking scope around a body and
//! the statement that brings the tracking entry point into a unit.

use crate::ast::{
    BlockStmt, CallExpr, Decl, Expr, ExprOrSpread, ExprStmt, Ident, ImportDecl,
    ImportSpecifier, Lit, MemberExpr, MemberProp, ModuleItem, Number, Pat, Span, Stmt, Str,
    TryStmt, VarDecl, VarDeclKind, VarDeclarator,
};
use crate::view::{
    BlockStmtView, CallExprView, DeclView, ExprOrSpreadView, ExprStmtView, ExprView, IdentView,
    ImportDeclView, ImportSpecifierView, LitView, MemberExprView, MemberPropView, PatView,
    ModuleItemView, StmtView, StrView, TryStmtView, VarDeclView, VarDeclaratorView, args_view,
    declarators_view, module_items_view, stmts_view,
};
use vstd::prelude::*;

verus! {

/// The syntax context after `ctxt` in the order in which contexts are
/// handed out. After the last one the numbers start again.
pub open spec fn next_ctxt(ctxt: u32) -> u32 {
    if ctxt == u32::MAX {
        0
    } else {
        (ctxt + 1) as u32
    }
}

/// An identifier that the pass introduces, in the syntax context `ctxt`.
pub open spec fn private_ident(sym: Seq<char>, ctxt: u32) -> IdentView {
    IdentView { span: Span::dummy_spec(), sym, ctxt }
}

/// An identifier that is meant by its spelling: the name of a property or of
/// a global.
pub open spec fn plain_ident(sym: Seq<char>) -> IdentView {
    IdentView { span: Span::dummy_spec(), sym, ctxt: 0 }
}

/// The local name under which a unit binds the tracking entry point.
pub open spec fn tracker_ident(ctxt: u32) -> IdentView {
    private_ident("_useSignals"@, ctxt)
}

/// The local name under which a wrapped body holds its tracking scope.
pub open spec fn effect_ident(ctxt: u32) -> IdentView {
    private_ident("_effect"@, ctxt)
}

/// The syntax context that the identifier of a tracking scope takes where
/// `free` is the next one to hand out: `free`, or the one after it where the
/// tracking entry point is bound in `free` itself.
pub open spec fn scope_ctxt(free: u32, tracker: IdentView) -> u32 {
    if free == tracker.ctxt {
        next_ctxt(free)
    } else {
        free
    }
}

/// `callee(arg)`, or `callee()` where there is no argument.
pub open spec fn call_of(callee: ExprView, arg: Option<ExprView>) -> ExprView {
    ExprView::Call(
        CallExprView {
            span: Span::dummy_spec(),
            callee: Box::new(callee),
            args: match arg {
                Some(value) => seq![ExprOrSpreadView { spread: None, expr: Box::new(value) }],
                None => seq![],
            },
        },
    )
}

/// The literal of a small number.
pub open spec fn number_lit(value: u8) -> ExprView {
    ExprView::Lit(LitView::Num(Number { span: Span::dummy_spec(), value: value as u32 }))
}

/// `var name = init;`
pub open spec fn var_binding(name: IdentView, init: ExprView) -> StmtView {
    StmtView::Decl(
        DeclView::Var(
            Box::new(
                VarDeclView {
                    span: Span::dummy_spec(),
                    kind: VarDeclKind::Var,
                    decls: seq![
                        VarDeclaratorView {
                            span: Span::dummy_spec(),
                            name: PatView::Ident(name),
                            init: Some(Box::new(init)),
                        },
                    ],
                },
            ),
        ),
    )
}

/// `var effect = tracker(arg);`: the statement that opens a tracking scope.
pub open spec fn tracking_binding(tracker: IdentView, effect: IdentView, arg: Option<u8>)
    -> StmtView {
    var_binding(
        effect,
        call_of(
            ExprView::Ident(tracker),
            match arg {
                Some(value) => Some(number_lit(value)),
                None => None,
            },
        ),
    )
}

/// `effect.f();`: the statement that closes a tracking scope.
pub open spec fn finalize_stmt(effect: IdentView) -> StmtView {
    StmtView::Expr(
        ExprStmtView {
            span: Span::dummy_spec(),
            expr: Box::new(
                call_of(
                    ExprView::Member(
                        MemberExprView {
                            span: Span::dummy_spec(),
                            obj: Box::new(ExprView::Ident(effect)),
                            prop: MemberPropView::Ident(plain_ident("f"@)),
                        },
                    ),
                    None,
                ),
            ),
        },
    )
}

/// `try { stmts } finally { effect.f(); }`: the statements of a body, as
/// they were and in their order, with the closing call on every way out.
pub open spec fn guarded(stmts: Seq<StmtView>, effect: IdentView) -> StmtView {
    StmtView::Try(
        Box::new(
            TryStmtView {
                span: Span::dummy_spec(),
                block: BlockStmtView { span: Span::dummy_spec(), stmts },
                handler: None,
                finalizer: Some(
                    BlockStmtView { span: Span::dummy_spec(), stmts: seq![finalize_stmt(effect)] },
                ),
            },
        ),
    )
}

/// The two statements that take the place of the statements of a body:
/// the first binds `effect` to what the call of `tracker` gives, the second
/// holds the statements and closes the scope through `effect`.
pub open spec fn wrapped_statements(
    stmts: Seq<StmtView>,
    tracker: IdentView,
    effect: IdentView,
    arg: Option<u8>,
) -> Seq<StmtView> {
    seq![tracking_binding(tracker, effect, arg), guarded(stmts, effect)]
}

/// The identifier that the tracking scope around a body binds and closes
/// through, where `free` is the next syntax context to hand out.
pub open spec fn scope_ident(free: u32, tracker: IdentView) -> IdentView {
    effect_ident(scope_ctxt(free, tracker))
}

/// A copy of an identifier.
pub fn clone_ident(ident: &Ident) -> (copy: Ident)
    ensures
        copy@ == ident@,
{
    Ident { span: ident.span, sym: ident.sym.clone(), ctxt: ident.ctxt }
}

/// A copy of a string literal.
pub fn clone_str(s: &Str) -> (copy: Str)
    ensures
        copy@ == s@,
{
    Str { span: s.span, value: s.value.clone() }
}

/// The syntax context that is handed out after `ctxt`.
pub fn ctxt_after(ctxt: u32) -> (next: u32)
    ensures
        next == next_ctxt(ctxt),
        next != ctxt,
{
    if ctxt == u32::MAX {
        0
    } else {
        ctxt + 1
    }
}

/// An identifier that the pass introduces, spelled `sym`, in the syntax
/// context `ctxt`.
pub fn new_private_ident(sym: &str, ctxt: u32) -> (ident: Ident)
    ensures
        ident@ == private_ident(sym@, ctxt),
{
    Ident { span: Span::dummy(), sym: sym.to_string(), ctxt }
}

/// An identifier that is meant by its spelling `sym`.
pub fn new_plain_ident(sym: &str) -> (ident: Ident)
    ensures
        ident@ == plain_ident(sym@),
{
    Ident { span: Span::dummy(), sym: sym.to_string(), ctxt: 0 }
}

/// `callee(arg)`, or `callee()`.
fn new_call(callee: Expr, arg: Option<Expr>) -> (call: Expr)
    ensures
        call@ == call_of(
            callee@,
            match arg {
                Some(value) => Some(value@),
                None => None,
            },
        ),
{
    let mut args: Vec<ExprOrSpread> = Vec::new();
    match arg {
        Some(value) => {
            args.push(ExprOrSpread { spread: None, expr: Box::new(value) });
            assert(args_view(args) =~= seq![
                ExprOrSpreadView { spread: None, expr: Box::new(value@) },
            ]);
        },
        None => {
            assert(args_view(args) =~= seq![]);
        },
    }
    Expr::Call(CallExpr { span: Span::dummy(), callee: Box::new(callee), args })
}

/// `obj.prop`
fn new_member(obj: Expr, prop: Ident) -> (member: Expr)
    ensures
        member@ == ExprView::Member(
            MemberExprView {
                span: Span::dummy_spec(),
                obj: Box::new(obj@),
                prop: MemberPropView::Ident(prop@),
            },
        ),
{
    let member = MemberExpr {
        span: Span::dummy(),
        obj: Box::new(obj),
        prop: MemberProp::Ident(prop),
    };
    assert(member@.prop == MemberPropView::Ident(prop@));
    Expr::Member(member)
}

/// `expr;`
fn new_expr_stmt(expr: Expr) -> (stmt: Stmt)
    ensures
        stmt@ == StmtView::Expr(ExprStmtView { span: Span::dummy_spec(), expr: Box::new(expr@) }),
{
    Stmt::Expr(ExprStmt { span: Span::dummy(), expr: Box::new(expr) })
}

/// `var name = init;`
fn new_var_binding(name: Ident, init: Expr) -> (stmt: Stmt)
    ensures
        stmt@ == var_binding(name@, init@),
{
    let mut decls: Vec<VarDeclarator> = Vec::new();
    decls.push(
        VarDeclarator { span: Span::dummy(), name: Pat::Ident(name), init: Some(Box::new(init)) },
    );
    assert(declarators_view(decls) =~= seq![
        VarDeclaratorView {
            span: Span::dummy_spec(),
            name: PatView::Ident(name@),
            init: Some(Box::new(init@)),
        },
    ]);
    Stmt::Decl(
        Decl::Var(Box::new(VarDecl { span: Span::dummy(), kind: VarDeclKind::Var, decls })),
    )
}

/// Wraps the statements of a body in a tracking scope: a binding that calls
/// the tracking entry point `use_signals_ident`, with `arg` where there is
/// one, and a `try` statement that holds the statements as they were and
/// closes the scope in its `finally` block.
///
/// The scope is bound to an identifier of its own, in the syntax context
/// `free_ctxt`, which the caller hands out for it; where the tracking entry
/// point is bound in that very context, the scope takes the one after it. So
/// the identifier of the scope is never the tracking entry point.
pub fn wrap_with_use_signals(
    n: Vec<Stmt>,
    use_signals_ident: Ident,
    arg: Option<u8>,
    free_ctxt: u32,
) -> (wrapped: Vec<Stmt>)
    ensures
        stmts_view(wrapped) == wrapped_statements(
            stmts_view(n),
            use_signals_ident@,
            scope_ident(free_ctxt, use_signals_ident@),
            arg,
        ),
        scope_ident(free_ctxt, use_signals_ident@) != use_signals_ident@,
{
    let tag = match arg {
        Some(value) => Some(
            Expr::Lit(Lit::Num(Number { span: Span::dummy(), value: value as u32 })),
        ),
        None => None,
    };
    let ctxt = if free_ctxt == use_signals_ident.ctxt {
        ctxt_after(free_ctxt)
    } else {
        free_ctxt
    };
    let ghost effect = scope_ident(free_ctxt, use_signals_ident@);
    let opening = new_var_binding(
        new_private_ident("_effect", ctxt),
        new_call(Expr::Ident(use_signals_ident), tag),
    );
    let closing = new_expr_stmt(
        new_call(
            new_member(Expr::Ident(new_private_ident("_effect", ctxt)), new_plain_ident("f")),
            None,
        ),
    );
    let mut finalizer: Vec<Stmt> = Vec::new();
    finalizer.push(closing);
    assert(stmts_view(finalizer) =~= seq![finalize_stmt(effect)]);
    let guard = Stmt::Try(
        Box::new(
            TryStmt {
                span: Span::dummy(),
                block: BlockStmt { span: Span::dummy(), stmts: n },
                handler: None,
                finalizer: Some(BlockStmt { span: Span::dummy(), stmts: finalizer }),
            },
        ),
    );
    assert(guard@ == guarded(stmts_view(n), effect));
    let mut new_stmts: Vec<Stmt> = Vec::new();
    new_stmts.push(opening);
    new_stmts.push(guard);
    assert(stmts_view(new_stmts) =~= wrapped_statements(
        stmts_view(n),
        use_signals_ident@,
        effect,
        arg,
    ));
    new_stmts
}

/// `import { member as local } from source;`, or `import local from source;`
/// where no member is named.
pub open spec fn import_of(local: IdentView, source: StrView, member: Option<IdentView>)
    -> ImportDeclView {
    ImportDeclView {
        span: Span::dummy_spec(),
        specifiers: seq![
            match member {
                Some(name) => ImportSpecifierView::Named {
                    span: Span::dummy_spec(),
                    local,
                    imported: Some(name),
                },
                None => ImportSpecifierView::Default { span: Span::dummy_spec(), local },
            },
        ],
        src: source,
    }
}

/// `var local = require(source).member;`, or `var local = require(source);`
/// where no member is named.
pub open spec fn require_of(local: IdentView, source: StrView, member: Option<IdentView>)
    -> StmtView {
    let loaded = call_of(
        ExprView::Ident(plain_ident("require"@)),
        Some(ExprView::Lit(LitView::Str(source))),
    );
    var_binding(
        local,
        match member {
            Some(name) => ExprView::Member(
                MemberExprView {
                    span: Span::dummy_spec(),
                    obj: Box::new(loaded),
                    prop: MemberPropView::Ident(name),
                },
            ),
            None => loaded,
        },
    )
}

/// The import declaration that binds `ident` to the member
/// `source_member_ident` of the module `source`, or to its default export
/// where no member is named.
pub fn add_import(ident: Ident, source: Str, source_member_ident: Option<Ident>) -> (import:
    ImportDecl)
    ensures
        import@ == import_of(
            ident@,
            source@,
            match source_member_ident {
                Some(name) => Some(name@),
                None => None,
            },
        ),
{
    let specifier = match source_member_ident {
        Some(name) => ImportSpecifier::Named {
            span: Span::dummy(),
            local: ident,
            imported: Some(name),
        },
        None => ImportSpecifier::Default { span: Span::dummy(), local: ident },
    };
    let mut specifiers: Vec<ImportSpecifier> = Vec::new();
    specifiers.push(specifier);
    let import = ImportDecl { span: Span::dummy(), specifiers, src: source };
    assert(import@.specifiers =~= seq![specifier@]);
    import
}

/// The statement that binds `ident` to the member `source_member_ident` of
/// what `require(source)` loads, or to all of it where no member is named.
pub fn add_require(ident: Ident, source: Str, source_member_ident: Option<Ident>) -> (binding:
    Stmt)
    ensures
        binding@ == require_of(
            ident@,
            source@,
            match source_member_ident {
                Some(name) => Some(name@),
                None => None,
            },
        ),
{
    let import_call = new_call(
        Expr::Ident(new_plain_ident("require")),
        Some(Expr::Lit(Lit::Str(source))),
    );
    let init = match source_member_ident {
        Some(name) => new_member(import_call, name),
        None => import_call,
    };
    new_var_binding(ident, init)
}

/// A statement that may be a directive such as `"use strict";`: an
/// expression statement that is a string literal and nothing else.
pub open spec fn is_directive(stmt: StmtView) -> bool {
    stmt matches StmtView::Expr(s) && *s.expr matches ExprView::Lit(LitView::Str(_))
}

/// A module item that may be a directive.
pub open spec fn is_directive_item(item: ModuleItemView) -> bool {
    item matches ModuleItemView::Stmt(stmt) && is_directive(stmt)
}

/// How many directives stand at the head of a list, given which of its
/// entries may be one.
pub open spec fn prologue_len(directive: Seq<bool>) -> nat
    decreases directive.len(),
{
    if directive.len() > 0 && directive[0] {
        1 + prologue_len(directive.drop_first())
    } else {
        0
    }
}

/// The prologue is a run of directives from the start, and it ends at the
/// end of the list or before an entry that is no directive.
pub proof fn lemma_prologue_len(directive: Seq<bool>)
    ensures
        prologue_len(directive) <= directive.len(),
        forall|i: int| 0 <= i < prologue_len(directive) ==> directive[i],
        prologue_len(directive) < directive.len() ==> !directive[prologue_len(directive) as int],
    decreases directive.len(),
{
    if directive.len() > 0 && directive[0] {
        let rest = directive.drop_first();
        lemma_prologue_len(rest);
        assert forall|i: int| 0 <= i < prologue_len(directive) implies directive[i] by {
            if i > 0 {
                assert(directive[i] == rest[i - 1]);
            }
        }
        if prologue_len(directive) < directive.len() {
            assert(directive[prologue_len(directive) as int] == rest[prologue_len(rest) as int]);
        }
    }
}

/// Whether a statement may be a directive.
pub fn is_maybe_directive(stmt: &Stmt) -> (r: bool)
    ensures
        r == is_directive(stmt@),
{
    match stmt {
        Stmt::Expr(s) => match &*s.expr {
            Expr::Lit(Lit::Str(_)) => true,
            _ => false,
        },
        _ => false,
    }
}

/// Whether a module item may be a directive.
pub fn is_maybe_directive_item(item: &ModuleItem) -> (r: bool)
    ensures
        r == is_directive_item(item@),
{
    match item {
        ModuleItem::Stmt(stmt) => is_maybe_directive(stmt),
        ModuleItem::ModuleDecl(_) => false,
    }
}

/// Puts `stmt` into a list of statements behind the directives at its head.
pub fn prepend_stmt(stmts: &mut Vec<Stmt>, stmt: Stmt)
    ensures
        stmts_view(*final(stmts)) == stmts_view(*old(stmts)).insert(
            prologue_len(stmts_view(*old(stmts)).map_values(|s: StmtView| is_directive(s))) as int,
            stmt@,
        ),
{
    let ghost flags = stmts_view(*stmts).map_values(|s: StmtView| is_directive(s));
    let mut at: usize = 0;
    assert(flags.skip(0) =~= flags);
    while at < stmts.len() && is_maybe_directive(&stmts[at])
        invariant
            at <= stmts.len(),
            flags == stmts_view(*stmts).map_values(|s: StmtView| is_directive(s)),
            prologue_len(flags) == at + prologue_len(flags.skip(at as int)),
        decreases stmts.len() - at,
    {
        proof {
            let rest = flags.skip(at as int);
            assert(rest[0] == flags[at as int]);
            assert(rest.drop_first() =~= flags.skip(at + 1));
        }
        at += 1;
    }
    proof {
        let rest = flags.skip(at as int);
        if at < stmts.len() {
            assert(rest[0] == flags[at as int]);
        }
        assert(prologue_len(rest) == 0);
    }
    let ghost before = *stmts;
    stmts.insert(at, stmt);
    assert(stmts_view(*stmts) =~= stmts_view(before).insert(at as int, stmt@));
}

/// Puts `item` into the body of a module behind the directives at its head.
pub fn prepend_item(items: &mut Vec<ModuleItem>, item: ModuleItem)
    ensures
        module_items_view(*final(items)) == module_items_view(*old(items)).insert(
            prologue_len(
                module_items_view(*old(items)).map_values(
                    |i: ModuleItemView| is_directive_item(i),
                ),
            ) as int,
            item@,
        ),
{
    let ghost flags = module_items_view(*items).map_values(
        |i: ModuleItemView| is_directive_item(i),
    );
    let mut at: usize = 0;
    assert(flags.skip(0) =~= flags);
    while at < items.len() && is_maybe_directive_item(&items[at])
        invariant
            at <= items.len(),
            flags == module_items_view(*items).map_values(
                |i: ModuleItemView| is_directive_item(i),
            ),
            prologue_len(flags) == at + prologue_len(flags.skip(at as int)),
        decreases items.len() - at,
    {
        proof {
            let rest = flags.skip(at as int);
            assert(rest[0] == flags[at as int]);
            assert(rest.drop_first() =~= flags.skip(at + 1));
        }
        at += 1;
    }
    proof {
        let rest = flags.skip(at as int);
        if at < items.len() {
            assert(rest[0] == flags[at as int]);
        }
        assert(prologue_len(rest) == 0);
    }
    let ghost before = *items;
    items.insert(at, item);
    assert(module_items_view(*items) =~= module_items_view(before).insert(at as int, item@));
}

} // verus!
