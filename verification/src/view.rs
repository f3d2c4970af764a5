//! The tree as the contracts see it: every node of [`crate::ast`] has a
//! mathematical counterpart here, with sequences in the place of vectors and
//! strings, and a view (`@`) that maps the one to the other.

use crate::ast::{
    ArrowExpr, AssignExpr, AssignTarget, BlockStmt, BlockStmtOrExpr, CallExpr, Composite,
    ComputedPropName, Decl, DefaultDecl, ExportDecl, ExportDefaultDecl, ExportDefaultExpr,
    Expr, ExprOrSpread, ExprStmt, FnDecl, FnExpr, Function, Ident, ImportDecl,
    ImportSpecifier, KeyValueProp, Lit, MemberExpr, MemberProp, MethodProp, Module,
    ModuleDecl, ModuleItem, Number, ObjectLit, OtherStmt, ParenExpr, Pat, Program, Prop,
    PropName, ReturnStmt, Script, Span, Stmt, Str, TryStmt, VarDecl, VarDeclKind,
    VarDeclarator,
};
use vstd::prelude::*;

verus! {

/// What a [`Ident`] holds.
pub ghost struct IdentView {
    pub span: Span,
    pub sym: Seq<char>,
    pub ctxt: u32,
}

/// What a [`Str`] holds.
pub ghost struct StrView {
    pub span: Span,
    pub value: Seq<char>,
}

/// What a [`Lit`] holds.
pub ghost enum LitView {
    Str(StrView),
    Num(Number),
    Other(Span),
}

/// What a [`Composite`] holds.
pub ghost struct CompositeView {
    pub span: Span,
    pub children: Seq<ExprView>,
}

/// What a [`ComputedPropName`] holds.
pub ghost struct ComputedPropNameView {
    pub span: Span,
    pub expr: Box<ExprView>,
}

/// What a [`MemberProp`] holds.
pub ghost enum MemberPropView {
    Ident(IdentView),
    PrivateName(IdentView),
    Computed(ComputedPropNameView),
}

/// What a [`MemberExpr`] holds.
pub ghost struct MemberExprView {
    pub span: Span,
    pub obj: Box<ExprView>,
    pub prop: MemberPropView,
}

/// What a [`ExprOrSpread`] holds.
pub ghost struct ExprOrSpreadView {
    pub spread: Option<Span>,
    pub expr: Box<ExprView>,
}

/// What a [`CallExpr`] holds.
pub ghost struct CallExprView {
    pub span: Span,
    pub callee: Box<ExprView>,
    pub args: Seq<ExprOrSpreadView>,
}

/// What a [`Pat`] holds.
pub ghost enum PatView {
    Ident(IdentView),
    Other(CompositeView),
}

/// What a [`BlockStmt`] holds.
pub ghost struct BlockStmtView {
    pub span: Span,
    pub stmts: Seq<StmtView>,
}

/// What a [`Function`] holds.
pub ghost struct FunctionView {
    pub span: Span,
    pub params: Seq<PatView>,
    pub body: Option<BlockStmtView>,
    pub is_async: bool,
    pub is_generator: bool,
}

/// What a [`FnExpr`] holds.
pub ghost struct FnExprView {
    pub ident: Option<IdentView>,
    pub function: Box<FunctionView>,
}

/// What a [`BlockStmtOrExpr`] holds.
pub ghost enum BlockStmtOrExprView {
    BlockStmt(BlockStmtView),
    Expr(Box<ExprView>),
}

/// What a [`ArrowExpr`] holds.
pub ghost struct ArrowExprView {
    pub span: Span,
    pub params: Seq<PatView>,
    pub body: Box<BlockStmtOrExprView>,
    pub is_async: bool,
    pub is_generator: bool,
}

/// What a [`ParenExpr`] holds.
pub ghost struct ParenExprView {
    pub span: Span,
    pub expr: Box<ExprView>,
}

/// What a [`AssignTarget`] holds.
pub ghost enum AssignTargetView {
    Ident(IdentView),
    Member(MemberExprView),
    Paren(ParenExprView),
    Other(CompositeView),
}

/// What a [`AssignExpr`] holds.
pub ghost struct AssignExprView {
    pub span: Span,
    pub left: AssignTargetView,
    pub right: Box<ExprView>,
}

/// What a [`PropName`] holds.
pub ghost enum PropNameView {
    Ident(IdentView),
    Str(StrView),
    Num(Number),
    Computed(ComputedPropNameView),
    BigInt(Span),
}

/// What a [`KeyValueProp`] holds.
pub ghost struct KeyValuePropView {
    pub key: PropNameView,
    pub value: Box<ExprView>,
}

/// What a [`MethodProp`] holds.
pub ghost struct MethodPropView {
    pub key: PropNameView,
    pub function: Box<FunctionView>,
}

/// What a [`Prop`] holds.
pub ghost enum PropView {
    KeyValue(KeyValuePropView),
    Method(MethodPropView),
    Other(CompositeView),
}

/// What a [`ObjectLit`] holds.
pub ghost struct ObjectLitView {
    pub span: Span,
    pub props: Seq<PropView>,
}

/// What a [`Expr`] holds.
pub ghost enum ExprView {
    Ident(IdentView),
    Lit(LitView),
    Member(MemberExprView),
    Call(CallExprView),
    Fn(FnExprView),
    Arrow(ArrowExprView),
    Assign(AssignExprView),
    Object(ObjectLitView),
    Paren(ParenExprView),
    JsxElement(CompositeView),
    JsxFragment(CompositeView),
    Other(CompositeView),
}

/// What a [`VarDeclarator`] holds.
pub ghost struct VarDeclaratorView {
    pub span: Span,
    pub name: PatView,
    pub init: Option<Box<ExprView>>,
}

/// What a [`VarDecl`] holds.
pub ghost struct VarDeclView {
    pub span: Span,
    pub kind: VarDeclKind,
    pub decls: Seq<VarDeclaratorView>,
}

/// What a [`FnDecl`] holds.
pub ghost struct FnDeclView {
    pub ident: IdentView,
    pub function: Box<FunctionView>,
}

/// What a [`Decl`] holds.
pub ghost enum DeclView {
    Var(Box<VarDeclView>),
    Fn(FnDeclView),
    Other(CompositeView),
}

/// What a [`TryStmt`] holds.
pub ghost struct TryStmtView {
    pub span: Span,
    pub block: BlockStmtView,
    pub handler: Option<BlockStmtView>,
    pub finalizer: Option<BlockStmtView>,
}

/// What a [`ExprStmt`] holds.
pub ghost struct ExprStmtView {
    pub span: Span,
    pub expr: Box<ExprView>,
}

/// What a [`ReturnStmt`] holds.
pub ghost struct ReturnStmtView {
    pub span: Span,
    pub arg: Option<Box<ExprView>>,
}

/// What a [`OtherStmt`] holds.
pub ghost struct OtherStmtView {
    pub span: Span,
    pub exprs: Seq<ExprView>,
    pub stmts: Seq<StmtView>,
}

/// What a [`Stmt`] holds.
pub ghost enum StmtView {
    Expr(ExprStmtView),
    Decl(DeclView),
    Return(ReturnStmtView),
    Try(Box<TryStmtView>),
    Block(BlockStmtView),
    Other(OtherStmtView),
}

/// What a [`ExportDecl`] holds.
pub ghost struct ExportDeclView {
    pub span: Span,
    pub decl: DeclView,
}

/// What a [`DefaultDecl`] holds.
pub ghost enum DefaultDeclView {
    Fn(FnExprView),
    Other(CompositeView),
}

/// What a [`ExportDefaultDecl`] holds.
pub ghost struct ExportDefaultDeclView {
    pub span: Span,
    pub decl: DefaultDeclView,
}

/// What a [`ExportDefaultExpr`] holds.
pub ghost struct ExportDefaultExprView {
    pub span: Span,
    pub expr: Box<ExprView>,
}

/// What a [`ModuleDecl`] holds.
pub ghost enum ModuleDeclView {
    Import(ImportDeclView),
    ExportDecl(ExportDeclView),
    ExportDefaultDecl(ExportDefaultDeclView),
    ExportDefaultExpr(ExportDefaultExprView),
    Other(Span),
}

/// What a [`ModuleItem`] holds.
pub ghost enum ModuleItemView {
    ModuleDecl(ModuleDeclView),
    Stmt(StmtView),
}

/// What a [`Module`] holds.
pub ghost struct ModuleView {
    pub span: Span,
    pub body: Seq<ModuleItemView>,
}

/// What a [`Script`] holds.
pub ghost struct ScriptView {
    pub span: Span,
    pub body: Seq<StmtView>,
}

/// What a [`Program`] holds.
pub ghost enum ProgramView {
    Module(ModuleView),
    Script(ScriptView),
}

/// What an [`ImportSpecifier`] holds.
pub ghost enum ImportSpecifierView {
    Named { span: Span, local: IdentView, imported: Option<IdentView> },
    Default { span: Span, local: IdentView },
    Namespace { span: Span, local: IdentView },
}

/// What an [`ImportDecl`] holds.
pub ghost struct ImportDeclView {
    pub span: Span,
    pub specifiers: Seq<ImportSpecifierView>,
    pub src: StrView,
}

impl View for Ident {
    type V = IdentView;

    open spec fn view(&self) -> IdentView {
        IdentView { span: self.span, sym: self.sym@, ctxt: self.ctxt }
    }
}

impl View for Str {
    type V = StrView;

    open spec fn view(&self) -> StrView {
        StrView { span: self.span, value: self.value@ }
    }
}

impl View for Lit {
    type V = LitView;

    open spec fn view(&self) -> LitView {
        match self {
            Lit::Str(s) => LitView::Str(s@),
            Lit::Num(n) => LitView::Num(*n),
            Lit::Other(span) => LitView::Other(*span),
        }
    }
}

impl View for ImportSpecifier {
    type V = ImportSpecifierView;

    open spec fn view(&self) -> ImportSpecifierView {
        match self {
            ImportSpecifier::Named { span, local, imported } => ImportSpecifierView::Named {
                span: *span,
                local: local@,
                imported: match imported {
                    Some(name) => Some(name@),
                    None => None,
                },
            },
            ImportSpecifier::Default { span, local } => ImportSpecifierView::Default {
                span: *span,
                local: local@,
            },
            ImportSpecifier::Namespace { span, local } => ImportSpecifierView::Namespace {
                span: *span,
                local: local@,
            },
        }
    }
}

impl View for ImportDecl {
    type V = ImportDeclView;

    open spec fn view(&self) -> ImportDeclView {
        ImportDeclView {
            span: self.span,
            specifiers: Seq::new(self.specifiers.len() as nat, |i: int| self.specifiers[i]@),
            src: self.src@,
        }
    }
}

/// The view of a [`Composite`].
pub open spec fn composite_view(node: Composite) -> CompositeView
    decreases node,
{
    CompositeView {
        span: node.span,
        children: exprs_view(node.children),
    }
}

/// The view of a [`ComputedPropName`].
pub open spec fn computed_prop_name_view(node: ComputedPropName) -> ComputedPropNameView
    decreases node,
{
    ComputedPropNameView {
        span: node.span,
        expr: Box::new(expr_view(*node.expr)),
    }
}

/// The view of a [`MemberProp`].
pub open spec fn member_prop_view(node: MemberProp) -> MemberPropView
    decreases node,
{
    match node {
        MemberProp::Ident(x) => MemberPropView::Ident(x@),
        MemberProp::PrivateName(x) => MemberPropView::PrivateName(x@),
        MemberProp::Computed(x) => MemberPropView::Computed(computed_prop_name_view(x)),
    }
}

/// The view of a [`MemberExpr`].
pub open spec fn member_expr_view(node: MemberExpr) -> MemberExprView
    decreases node,
{
    MemberExprView {
        span: node.span,
        obj: Box::new(expr_view(*node.obj)),
        prop: member_prop_view(node.prop),
    }
}

/// The view of a [`ExprOrSpread`].
pub open spec fn expr_or_spread_view(node: ExprOrSpread) -> ExprOrSpreadView
    decreases node,
{
    ExprOrSpreadView {
        spread: node.spread,
        expr: Box::new(expr_view(*node.expr)),
    }
}

/// The view of a [`CallExpr`].
pub open spec fn call_expr_view(node: CallExpr) -> CallExprView
    decreases node,
{
    CallExprView {
        span: node.span,
        callee: Box::new(expr_view(*node.callee)),
        args: args_view(node.args),
    }
}

/// The view of a [`Pat`].
pub open spec fn pat_view(node: Pat) -> PatView
    decreases node,
{
    match node {
        Pat::Ident(x) => PatView::Ident(x@),
        Pat::Other(x) => PatView::Other(composite_view(x)),
    }
}

/// The view of a [`BlockStmt`].
pub open spec fn block_stmt_view(node: BlockStmt) -> BlockStmtView
    decreases node,
{
    BlockStmtView {
        span: node.span,
        stmts: stmts_view(node.stmts),
    }
}

/// The view of a [`Function`].
pub open spec fn function_view(node: Function) -> FunctionView
    decreases node,
{
    FunctionView {
        span: node.span,
        params: pats_view(node.params),
        body: match node.body { Some(x) => Some(block_stmt_view(x)), None => None },
        is_async: node.is_async,
        is_generator: node.is_generator,
    }
}

/// The view of a [`FnExpr`].
pub open spec fn fn_expr_view(node: FnExpr) -> FnExprView
    decreases node,
{
    FnExprView {
        ident: match node.ident { Some(x) => Some(x@), None => None },
        function: Box::new(function_view(*node.function)),
    }
}

/// The view of a [`BlockStmtOrExpr`].
pub open spec fn block_stmt_or_expr_view(node: BlockStmtOrExpr) -> BlockStmtOrExprView
    decreases node,
{
    match node {
        BlockStmtOrExpr::BlockStmt(x) => BlockStmtOrExprView::BlockStmt(block_stmt_view(x)),
        BlockStmtOrExpr::Expr(x) => BlockStmtOrExprView::Expr(Box::new(expr_view(*x))),
    }
}

/// The view of a [`ArrowExpr`].
pub open spec fn arrow_expr_view(node: ArrowExpr) -> ArrowExprView
    decreases node,
{
    ArrowExprView {
        span: node.span,
        params: pats_view(node.params),
        body: Box::new(block_stmt_or_expr_view(*node.body)),
        is_async: node.is_async,
        is_generator: node.is_generator,
    }
}

/// The view of a [`ParenExpr`].
pub open spec fn paren_expr_view(node: ParenExpr) -> ParenExprView
    decreases node,
{
    ParenExprView {
        span: node.span,
        expr: Box::new(expr_view(*node.expr)),
    }
}

/// The view of a [`AssignTarget`].
pub open spec fn assign_target_view(node: AssignTarget) -> AssignTargetView
    decreases node,
{
    match node {
        AssignTarget::Ident(x) => AssignTargetView::Ident(x@),
        AssignTarget::Member(x) => AssignTargetView::Member(member_expr_view(x)),
        AssignTarget::Paren(x) => AssignTargetView::Paren(paren_expr_view(x)),
        AssignTarget::Other(x) => AssignTargetView::Other(composite_view(x)),
    }
}

/// The view of a [`AssignExpr`].
pub open spec fn assign_expr_view(node: AssignExpr) -> AssignExprView
    decreases node,
{
    AssignExprView {
        span: node.span,
        left: assign_target_view(node.left),
        right: Box::new(expr_view(*node.right)),
    }
}

/// The view of a [`PropName`].
pub open spec fn prop_name_view(node: PropName) -> PropNameView
    decreases node,
{
    match node {
        PropName::Ident(x) => PropNameView::Ident(x@),
        PropName::Str(x) => PropNameView::Str(x@),
        PropName::Num(x) => PropNameView::Num(x),
        PropName::Computed(x) => PropNameView::Computed(computed_prop_name_view(x)),
        PropName::BigInt(x) => PropNameView::BigInt(x),
    }
}

/// The view of a [`KeyValueProp`].
pub open spec fn key_value_prop_view(node: KeyValueProp) -> KeyValuePropView
    decreases node,
{
    KeyValuePropView {
        key: prop_name_view(node.key),
        value: Box::new(expr_view(*node.value)),
    }
}

/// The view of a [`MethodProp`].
pub open spec fn method_prop_view(node: MethodProp) -> MethodPropView
    decreases node,
{
    MethodPropView {
        key: prop_name_view(node.key),
        function: Box::new(function_view(*node.function)),
    }
}

/// The view of a [`Prop`].
pub open spec fn prop_view(node: Prop) -> PropView
    decreases node,
{
    match node {
        Prop::KeyValue(x) => PropView::KeyValue(key_value_prop_view(x)),
        Prop::Method(x) => PropView::Method(method_prop_view(x)),
        Prop::Other(x) => PropView::Other(composite_view(x)),
    }
}

/// The view of a [`ObjectLit`].
pub open spec fn object_lit_view(node: ObjectLit) -> ObjectLitView
    decreases node,
{
    ObjectLitView {
        span: node.span,
        props: props_view(node.props),
    }
}

/// The view of a [`Expr`].
pub open spec fn expr_view(node: Expr) -> ExprView
    decreases node,
{
    match node {
        Expr::Ident(x) => ExprView::Ident(x@),
        Expr::Lit(x) => ExprView::Lit(x@),
        Expr::Member(x) => ExprView::Member(member_expr_view(x)),
        Expr::Call(x) => ExprView::Call(call_expr_view(x)),
        Expr::Fn(x) => ExprView::Fn(fn_expr_view(x)),
        Expr::Arrow(x) => ExprView::Arrow(arrow_expr_view(x)),
        Expr::Assign(x) => ExprView::Assign(assign_expr_view(x)),
        Expr::Object(x) => ExprView::Object(object_lit_view(x)),
        Expr::Paren(x) => ExprView::Paren(paren_expr_view(x)),
        Expr::JsxElement(x) => ExprView::JsxElement(composite_view(x)),
        Expr::JsxFragment(x) => ExprView::JsxFragment(composite_view(x)),
        Expr::Other(x) => ExprView::Other(composite_view(x)),
    }
}

/// The view of a [`VarDeclarator`].
pub open spec fn var_declarator_view(node: VarDeclarator) -> VarDeclaratorView
    decreases node,
{
    VarDeclaratorView {
        span: node.span,
        name: pat_view(node.name),
        init: match node.init { Some(x) => Some(Box::new(expr_view(*x))), None => None },
    }
}

/// The view of a [`VarDecl`].
pub open spec fn var_decl_view(node: VarDecl) -> VarDeclView
    decreases node,
{
    VarDeclView {
        span: node.span,
        kind: node.kind,
        decls: declarators_view(node.decls),
    }
}

/// The view of a [`FnDecl`].
pub open spec fn fn_decl_view(node: FnDecl) -> FnDeclView
    decreases node,
{
    FnDeclView {
        ident: node.ident@,
        function: Box::new(function_view(*node.function)),
    }
}

/// The view of a [`Decl`].
pub open spec fn decl_view(node: Decl) -> DeclView
    decreases node,
{
    match node {
        Decl::Var(x) => DeclView::Var(Box::new(var_decl_view(*x))),
        Decl::Fn(x) => DeclView::Fn(fn_decl_view(x)),
        Decl::Other(x) => DeclView::Other(composite_view(x)),
    }
}

/// The view of a [`TryStmt`].
pub open spec fn try_stmt_view(node: TryStmt) -> TryStmtView
    decreases node,
{
    TryStmtView {
        span: node.span,
        block: block_stmt_view(node.block),
        handler: match node.handler { Some(x) => Some(block_stmt_view(x)), None => None },
        finalizer: match node.finalizer { Some(x) => Some(block_stmt_view(x)), None => None },
    }
}

/// The view of a [`ExprStmt`].
pub open spec fn expr_stmt_view(node: ExprStmt) -> ExprStmtView
    decreases node,
{
    ExprStmtView {
        span: node.span,
        expr: Box::new(expr_view(*node.expr)),
    }
}

/// The view of a [`ReturnStmt`].
pub open spec fn return_stmt_view(node: ReturnStmt) -> ReturnStmtView
    decreases node,
{
    ReturnStmtView {
        span: node.span,
        arg: match node.arg { Some(x) => Some(Box::new(expr_view(*x))), None => None },
    }
}

/// The view of a [`OtherStmt`].
pub open spec fn other_stmt_view(node: OtherStmt) -> OtherStmtView
    decreases node,
{
    OtherStmtView {
        span: node.span,
        exprs: exprs_view(node.exprs),
        stmts: stmts_view(node.stmts),
    }
}

/// The view of a [`Stmt`].
pub open spec fn stmt_view(node: Stmt) -> StmtView
    decreases node,
{
    match node {
        Stmt::Expr(x) => StmtView::Expr(expr_stmt_view(x)),
        Stmt::Decl(x) => StmtView::Decl(decl_view(x)),
        Stmt::Return(x) => StmtView::Return(return_stmt_view(x)),
        Stmt::Try(x) => StmtView::Try(Box::new(try_stmt_view(*x))),
        Stmt::Block(x) => StmtView::Block(block_stmt_view(x)),
        Stmt::Other(x) => StmtView::Other(other_stmt_view(x)),
    }
}

/// The view of a [`ExportDecl`].
pub open spec fn export_decl_view(node: ExportDecl) -> ExportDeclView
    decreases node,
{
    ExportDeclView {
        span: node.span,
        decl: decl_view(node.decl),
    }
}

/// The view of a [`DefaultDecl`].
pub open spec fn default_decl_view(node: DefaultDecl) -> DefaultDeclView
    decreases node,
{
    match node {
        DefaultDecl::Fn(x) => DefaultDeclView::Fn(fn_expr_view(x)),
        DefaultDecl::Other(x) => DefaultDeclView::Other(composite_view(x)),
    }
}

/// The view of a [`ExportDefaultDecl`].
pub open spec fn export_default_decl_view(node: ExportDefaultDecl) -> ExportDefaultDeclView
    decreases node,
{
    ExportDefaultDeclView {
        span: node.span,
        decl: default_decl_view(node.decl),
    }
}

/// The view of a [`ExportDefaultExpr`].
pub open spec fn export_default_expr_view(node: ExportDefaultExpr) -> ExportDefaultExprView
    decreases node,
{
    ExportDefaultExprView {
        span: node.span,
        expr: Box::new(expr_view(*node.expr)),
    }
}

/// The view of a [`ModuleDecl`].
pub open spec fn module_decl_view(node: ModuleDecl) -> ModuleDeclView
    decreases node,
{
    match node {
        ModuleDecl::Import(x) => ModuleDeclView::Import(x@),
        ModuleDecl::ExportDecl(x) => ModuleDeclView::ExportDecl(export_decl_view(x)),
        ModuleDecl::ExportDefaultDecl(x) => ModuleDeclView::ExportDefaultDecl(export_default_decl_view(x)),
        ModuleDecl::ExportDefaultExpr(x) => ModuleDeclView::ExportDefaultExpr(export_default_expr_view(x)),
        ModuleDecl::Other(x) => ModuleDeclView::Other(x),
    }
}

/// The view of a [`ModuleItem`].
pub open spec fn module_item_view(node: ModuleItem) -> ModuleItemView
    decreases node,
{
    match node {
        ModuleItem::ModuleDecl(x) => ModuleItemView::ModuleDecl(module_decl_view(x)),
        ModuleItem::Stmt(x) => ModuleItemView::Stmt(stmt_view(x)),
    }
}

/// The view of a [`Module`].
pub open spec fn module_view(node: Module) -> ModuleView
    decreases node,
{
    ModuleView {
        span: node.span,
        body: module_items_view(node.body),
    }
}

/// The view of a [`Script`].
pub open spec fn script_view(node: Script) -> ScriptView
    decreases node,
{
    ScriptView {
        span: node.span,
        body: stmts_view(node.body),
    }
}

/// The view of a [`Program`].
pub open spec fn program_view(node: Program) -> ProgramView
    decreases node,
{
    match node {
        Program::Module(x) => ProgramView::Module(module_view(x)),
        Program::Script(x) => ProgramView::Script(script_view(x)),
    }
}

/// The views of the elements of a vector, in order.
pub open spec fn exprs_view(nodes: Vec<Expr>) -> Seq<ExprView>
    decreases nodes,
{
    Seq::new(
        nodes.len() as nat,
        |i: int|
            if 0 <= i < nodes.len() {
                expr_view(nodes[i])
            } else {
                arbitrary()
            },
    )
}

/// The views of the elements of a vector, in order.
pub open spec fn args_view(nodes: Vec<ExprOrSpread>) -> Seq<ExprOrSpreadView>
    decreases nodes,
{
    Seq::new(
        nodes.len() as nat,
        |i: int|
            if 0 <= i < nodes.len() {
                expr_or_spread_view(nodes[i])
            } else {
                arbitrary()
            },
    )
}

/// The views of the elements of a vector, in order.
pub open spec fn stmts_view(nodes: Vec<Stmt>) -> Seq<StmtView>
    decreases nodes,
{
    Seq::new(
        nodes.len() as nat,
        |i: int|
            if 0 <= i < nodes.len() {
                stmt_view(nodes[i])
            } else {
                arbitrary()
            },
    )
}

/// The views of the elements of a vector, in order.
pub open spec fn pats_view(nodes: Vec<Pat>) -> Seq<PatView>
    decreases nodes,
{
    Seq::new(
        nodes.len() as nat,
        |i: int|
            if 0 <= i < nodes.len() {
                pat_view(nodes[i])
            } else {
                arbitrary()
            },
    )
}

/// The views of the elements of a vector, in order.
pub open spec fn props_view(nodes: Vec<Prop>) -> Seq<PropView>
    decreases nodes,
{
    Seq::new(
        nodes.len() as nat,
        |i: int|
            if 0 <= i < nodes.len() {
                prop_view(nodes[i])
            } else {
                arbitrary()
            },
    )
}

/// The views of the elements of a vector, in order.
pub open spec fn declarators_view(nodes: Vec<VarDeclarator>) -> Seq<VarDeclaratorView>
    decreases nodes,
{
    Seq::new(
        nodes.len() as nat,
        |i: int|
            if 0 <= i < nodes.len() {
                var_declarator_view(nodes[i])
            } else {
                arbitrary()
            },
    )
}

/// The views of the elements of a vector, in order.
pub open spec fn module_items_view(nodes: Vec<ModuleItem>) -> Seq<ModuleItemView>
    decreases nodes,
{
    Seq::new(
        nodes.len() as nat,
        |i: int|
            if 0 <= i < nodes.len() {
                module_item_view(nodes[i])
            } else {
                arbitrary()
            },
    )
}

impl View for Composite {
    type V = CompositeView;

    open spec fn view(&self) -> CompositeView {
        composite_view(*self)
    }
}

impl View for ComputedPropName {
    type V = ComputedPropNameView;

    open spec fn view(&self) -> ComputedPropNameView {
        computed_prop_name_view(*self)
    }
}

impl View for MemberProp {
    type V = MemberPropView;

    open spec fn view(&self) -> MemberPropView {
        member_prop_view(*self)
    }
}

impl View for MemberExpr {
    type V = MemberExprView;

    open spec fn view(&self) -> MemberExprView {
        member_expr_view(*self)
    }
}

impl View for ExprOrSpread {
    type V = ExprOrSpreadView;

    open spec fn view(&self) -> ExprOrSpreadView {
        expr_or_spread_view(*self)
    }
}

impl View for CallExpr {
    type V = CallExprView;

    open spec fn view(&self) -> CallExprView {
        call_expr_view(*self)
    }
}

impl View for Pat {
    type V = PatView;

    open spec fn view(&self) -> PatView {
        pat_view(*self)
    }
}

impl View for BlockStmt {
    type V = BlockStmtView;

    open spec fn view(&self) -> BlockStmtView {
        block_stmt_view(*self)
    }
}

impl View for Function {
    type V = FunctionView;

    open spec fn view(&self) -> FunctionView {
        function_view(*self)
    }
}

impl View for FnExpr {
    type V = FnExprView;

    open spec fn view(&self) -> FnExprView {
        fn_expr_view(*self)
    }
}

impl View for BlockStmtOrExpr {
    type V = BlockStmtOrExprView;

    open spec fn view(&self) -> BlockStmtOrExprView {
        block_stmt_or_expr_view(*self)
    }
}

impl View for ArrowExpr {
    type V = ArrowExprView;

    open spec fn view(&self) -> ArrowExprView {
        arrow_expr_view(*self)
    }
}

impl View for ParenExpr {
    type V = ParenExprView;

    open spec fn view(&self) -> ParenExprView {
        paren_expr_view(*self)
    }
}

impl View for AssignTarget {
    type V = AssignTargetView;

    open spec fn view(&self) -> AssignTargetView {
        assign_target_view(*self)
    }
}

impl View for AssignExpr {
    type V = AssignExprView;

    open spec fn view(&self) -> AssignExprView {
        assign_expr_view(*self)
    }
}

impl View for PropName {
    type V = PropNameView;

    open spec fn view(&self) -> PropNameView {
        prop_name_view(*self)
    }
}

impl View for KeyValueProp {
    type V = KeyValuePropView;

    open spec fn view(&self) -> KeyValuePropView {
        key_value_prop_view(*self)
    }
}

impl View for MethodProp {
    type V = MethodPropView;

    open spec fn view(&self) -> MethodPropView {
        method_prop_view(*self)
    }
}

impl View for Prop {
    type V = PropView;

    open spec fn view(&self) -> PropView {
        prop_view(*self)
    }
}

impl View for ObjectLit {
    type V = ObjectLitView;

    open spec fn view(&self) -> ObjectLitView {
        object_lit_view(*self)
    }
}

impl View for Expr {
    type V = ExprView;

    open spec fn view(&self) -> ExprView {
        expr_view(*self)
    }
}

impl View for VarDeclarator {
    type V = VarDeclaratorView;

    open spec fn view(&self) -> VarDeclaratorView {
        var_declarator_view(*self)
    }
}

impl View for VarDecl {
    type V = VarDeclView;

    open spec fn view(&self) -> VarDeclView {
        var_decl_view(*self)
    }
}

impl View for FnDecl {
    type V = FnDeclView;

    open spec fn view(&self) -> FnDeclView {
        fn_decl_view(*self)
    }
}

impl View for Decl {
    type V = DeclView;

    open spec fn view(&self) -> DeclView {
        decl_view(*self)
    }
}

impl View for TryStmt {
    type V = TryStmtView;

    open spec fn view(&self) -> TryStmtView {
        try_stmt_view(*self)
    }
}

impl View for ExprStmt {
    type V = ExprStmtView;

    open spec fn view(&self) -> ExprStmtView {
        expr_stmt_view(*self)
    }
}

impl View for ReturnStmt {
    type V = ReturnStmtView;

    open spec fn view(&self) -> ReturnStmtView {
        return_stmt_view(*self)
    }
}

impl View for OtherStmt {
    type V = OtherStmtView;

    open spec fn view(&self) -> OtherStmtView {
        other_stmt_view(*self)
    }
}

impl View for Stmt {
    type V = StmtView;

    open spec fn view(&self) -> StmtView {
        stmt_view(*self)
    }
}

impl View for ExportDecl {
    type V = ExportDeclView;

    open spec fn view(&self) -> ExportDeclView {
        export_decl_view(*self)
    }
}

impl View for DefaultDecl {
    type V = DefaultDeclView;

    open spec fn view(&self) -> DefaultDeclView {
        default_decl_view(*self)
    }
}

impl View for ExportDefaultDecl {
    type V = ExportDefaultDeclView;

    open spec fn view(&self) -> ExportDefaultDeclView {
        export_default_decl_view(*self)
    }
}

impl View for ExportDefaultExpr {
    type V = ExportDefaultExprView;

    open spec fn view(&self) -> ExportDefaultExprView {
        export_default_expr_view(*self)
    }
}

impl View for ModuleDecl {
    type V = ModuleDeclView;

    open spec fn view(&self) -> ModuleDeclView {
        module_decl_view(*self)
    }
}

impl View for ModuleItem {
    type V = ModuleItemView;

    open spec fn view(&self) -> ModuleItemView {
        module_item_view(*self)
    }
}

impl View for Module {
    type V = ModuleView;

    open spec fn view(&self) -> ModuleView {
        module_view(*self)
    }
}

impl View for Script {
    type V = ScriptView;

    open spec fn view(&self) -> ScriptView {
        script_view(*self)
    }
}

impl View for Program {
    type V = ProgramView;

    open spec fn view(&self) -> ProgramView {
        program_view(*self)
    }
}

} // verus!
