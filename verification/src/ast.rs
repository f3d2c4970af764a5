//! The syntax tree that the pass reads and rewrites.
//!
//! The tree keeps the shapes that the pass has rules for (declarations,
//! functions, calls, member accesses, object properties, module items) and
//! folds every other construct into a node that only lists what is nested in
//! it, so that a traversal still reaches every function of a unit.

use vstd::prelude::*;

verus! {

/// A range of byte positions in the source text.
#[derive(Clone, Copy, Debug, PartialEq, Eq, Structural)]
pub struct Span {
    pub lo: u32,
    pub hi: u32,
}

impl Span {
    /// The span `[0, 0)` that nodes made by the pass carry.
    pub open spec fn dummy_spec() -> Span {
        Span { lo: 0, hi: 0 }
    }

    /// The span of a node that has no place in the source text.
    #[verifier::when_used_as_spec(dummy_spec)]
    pub fn dummy() -> (span: Span)
        ensures
            span == Span::dummy_spec(),
    {
        Span { lo: 0, hi: 0 }
    }
}

/// An identifier: a spelling in a syntax context. Two identifiers are one
/// and the same where both agree; identifiers with one spelling in two
/// contexts are two, and the printer spells them apart where they meet.
/// Context `0` is that of a name which is meant by its spelling alone.
#[derive(Clone, Debug, PartialEq, Eq)]
pub struct Ident {
    pub span: Span,
    pub sym: String,
    pub ctxt: u32,
}

/// A string literal.
#[derive(Clone, Debug, PartialEq, Eq)]
pub struct Str {
    pub span: Span,
    pub value: String,
}

/// A numeric literal with a small non-negative integer value.
#[derive(Clone, Copy, Debug, PartialEq, Eq, Structural)]
pub struct Number {
    pub span: Span,
    pub value: u32,
}

/// A literal. `Other` stands for the literals that the pass never looks into
/// (booleans, `null`, big integers, regular expressions, markup text).
#[derive(Clone, Debug, PartialEq, Eq)]
pub enum Lit {
    Str(Str),
    Num(Number),
    Other(Span),
}

/// A construct that the pass has no rule for: its span and the expressions
/// directly nested in it, in source order.
#[derive(Debug, PartialEq, Eq)]
pub struct Composite {
    pub span: Span,
    pub children: Vec<Expr>,
}

/// `[expr]` in the place of a property name.
#[derive(Debug, PartialEq, Eq)]
pub struct ComputedPropName {
    pub span: Span,
    pub expr: Box<Expr>,
}

/// The property of a member access.
#[derive(Debug, PartialEq, Eq)]
pub enum MemberProp {
    Ident(Ident),
    PrivateName(Ident),
    Computed(ComputedPropName),
}

/// `obj.prop` or `obj[prop]`.
#[derive(Debug, PartialEq, Eq)]
pub struct MemberExpr {
    pub span: Span,
    pub obj: Box<Expr>,
    pub prop: MemberProp,
}

/// An argument of a call; `spread` is the span of `...` where it is written.
#[derive(Debug, PartialEq, Eq)]
pub struct ExprOrSpread {
    pub spread: Option<Span>,
    pub expr: Box<Expr>,
}

/// `callee(args)`.
#[derive(Debug, PartialEq, Eq)]
pub struct CallExpr {
    pub span: Span,
    pub callee: Box<Expr>,
    pub args: Vec<ExprOrSpread>,
}

/// A binding pattern: a plain identifier, or a destructuring pattern with the
/// expressions nested in it.
#[derive(Debug, PartialEq, Eq)]
pub enum Pat {
    Ident(Ident),
    Other(Composite),
}

/// `{ stmts }`.
#[derive(Debug, PartialEq, Eq)]
pub struct BlockStmt {
    pub span: Span,
    pub stmts: Vec<Stmt>,
}

/// The parameters and body that function declarations, function expressions
/// and methods share. A signature-only form has no body.
#[derive(Debug, PartialEq, Eq)]
pub struct Function {
    pub span: Span,
    pub params: Vec<Pat>,
    pub body: Option<BlockStmt>,
    pub is_async: bool,
    pub is_generator: bool,
}

/// `function name(params) { body }` in expression position.
#[derive(Debug, PartialEq, Eq)]
pub struct FnExpr {
    pub ident: Option<Ident>,
    pub function: Box<Function>,
}

/// The body of an arrow function.
#[derive(Debug, PartialEq, Eq)]
pub enum BlockStmtOrExpr {
    BlockStmt(BlockStmt),
    Expr(Box<Expr>),
}

/// `(params) => body`.
#[derive(Debug, PartialEq, Eq)]
pub struct ArrowExpr {
    pub span: Span,
    pub params: Vec<Pat>,
    pub body: Box<BlockStmtOrExpr>,
    pub is_async: bool,
    pub is_generator: bool,
}

/// `(expr)`.
#[derive(Debug, PartialEq, Eq)]
pub struct ParenExpr {
    pub span: Span,
    pub expr: Box<Expr>,
}

/// The left side of an assignment.
#[derive(Debug, PartialEq, Eq)]
pub enum AssignTarget {
    Ident(Ident),
    Member(MemberExpr),
    Paren(ParenExpr),
    Other(Composite),
}

/// `left = right` (with any assignment operator).
#[derive(Debug, PartialEq, Eq)]
pub struct AssignExpr {
    pub span: Span,
    pub left: AssignTarget,
    pub right: Box<Expr>,
}

/// The key of an object property.
#[derive(Debug, PartialEq, Eq)]
pub enum PropName {
    Ident(Ident),
    Str(Str),
    Num(Number),
    Computed(ComputedPropName),
    BigInt(Span),
}

/// `key: value` in an object literal.
#[derive(Debug, PartialEq, Eq)]
pub struct KeyValueProp {
    pub key: PropName,
    pub value: Box<Expr>,
}

/// `key(params) { body }` in an object literal.
#[derive(Debug, PartialEq, Eq)]
pub struct MethodProp {
    pub key: PropName,
    pub function: Box<Function>,
}

/// A member of an object literal. `Other` stands for shorthands, spreads,
/// getters and setters.
#[derive(Debug, PartialEq, Eq)]
pub enum Prop {
    KeyValue(KeyValueProp),
    Method(MethodProp),
    Other(Composite),
}

/// `{ props }`.
#[derive(Debug, PartialEq, Eq)]
pub struct ObjectLit {
    pub span: Span,
    pub props: Vec<Prop>,
}

/// An expression.
#[derive(Debug, PartialEq, Eq)]
pub enum Expr {
    Ident(Ident),
    Lit(Lit),
    Member(MemberExpr),
    Call(CallExpr),
    Fn(FnExpr),
    Arrow(ArrowExpr),
    Assign(AssignExpr),
    Object(ObjectLit),
    Paren(ParenExpr),
    /// A markup element, with the expressions embedded in it.
    JsxElement(Composite),
    /// A markup fragment, with the expressions embedded in it.
    JsxFragment(Composite),
    Other(Composite),
}

/// The keyword of a variable declaration.
#[derive(Clone, Copy, Debug, PartialEq, Eq, Structural)]
pub enum VarDeclKind {
    Var,
    Let,
    Const,
}

/// One binding of a variable declaration.
#[derive(Debug, PartialEq, Eq)]
pub struct VarDeclarator {
    pub span: Span,
    pub name: Pat,
    pub init: Option<Box<Expr>>,
}

/// `var a = .., b = ..;`
#[derive(Debug, PartialEq, Eq)]
pub struct VarDecl {
    pub span: Span,
    pub kind: VarDeclKind,
    pub decls: Vec<VarDeclarator>,
}

/// `function ident(params) { body }` in statement position.
#[derive(Debug, PartialEq, Eq)]
pub struct FnDecl {
    pub ident: Ident,
    pub function: Box<Function>,
}

/// A declaration. `Other` stands for class and type declarations.
#[derive(Debug, PartialEq, Eq)]
pub enum Decl {
    Var(Box<VarDecl>),
    Fn(FnDecl),
    Other(Composite),
}

/// `try { block } catch { handler } finally { finalizer }`.
#[derive(Debug, PartialEq, Eq)]
pub struct TryStmt {
    pub span: Span,
    pub block: BlockStmt,
    pub handler: Option<BlockStmt>,
    pub finalizer: Option<BlockStmt>,
}

/// `expr;`
#[derive(Debug, PartialEq, Eq)]
pub struct ExprStmt {
    pub span: Span,
    pub expr: Box<Expr>,
}

/// `return arg;`
#[derive(Debug, PartialEq, Eq)]
pub struct ReturnStmt {
    pub span: Span,
    pub arg: Option<Box<Expr>>,
}

/// A statement that the pass has no rule for (a conditional, a loop, ..):
/// its span and the expressions and statements directly nested in it.
#[derive(Debug, PartialEq, Eq)]
pub struct OtherStmt {
    pub span: Span,
    pub exprs: Vec<Expr>,
    pub stmts: Vec<Stmt>,
}

/// A statement.
#[derive(Debug, PartialEq, Eq)]
pub enum Stmt {
    Expr(ExprStmt),
    Decl(Decl),
    Return(ReturnStmt),
    Try(Box<TryStmt>),
    Block(BlockStmt),
    Other(OtherStmt),
}

/// One binding of an import declaration.
#[derive(Clone, Debug, PartialEq, Eq)]
pub enum ImportSpecifier {
    /// `{ imported as local }`, or `{ local }` where `imported` is absent.
    Named { span: Span, local: Ident, imported: Option<Ident> },
    /// `local`
    Default { span: Span, local: Ident },
    /// `* as local`
    Namespace { span: Span, local: Ident },
}

/// `import specifiers from src;`
#[derive(Clone, Debug, PartialEq, Eq)]
pub struct ImportDecl {
    pub span: Span,
    pub specifiers: Vec<ImportSpecifier>,
    pub src: Str,
}

/// `export decl`
#[derive(Debug, PartialEq, Eq)]
pub struct ExportDecl {
    pub span: Span,
    pub decl: Decl,
}

/// What a default export declares. `Other` stands for classes and
/// interfaces.
#[derive(Debug, PartialEq, Eq)]
pub enum DefaultDecl {
    Fn(FnExpr),
    Other(Composite),
}

/// `export default function ..`
#[derive(Debug, PartialEq, Eq)]
pub struct ExportDefaultDecl {
    pub span: Span,
    pub decl: DefaultDecl,
}

/// `export default expr;`
#[derive(Debug, PartialEq, Eq)]
pub struct ExportDefaultExpr {
    pub span: Span,
    pub expr: Box<Expr>,
}

/// A declaration that only a module can hold. `Other` stands for the forms
/// that hold no expression (re-exports, export lists).
#[derive(Debug, PartialEq, Eq)]
pub enum ModuleDecl {
    Import(ImportDecl),
    ExportDecl(ExportDecl),
    ExportDefaultDecl(ExportDefaultDecl),
    ExportDefaultExpr(ExportDefaultExpr),
    Other(Span),
}

/// A top-level item of a module.
#[derive(Debug, PartialEq, Eq)]
pub enum ModuleItem {
    ModuleDecl(ModuleDecl),
    Stmt(Stmt),
}

/// A compilation unit with imports and exports.
#[derive(Debug, PartialEq, Eq)]
pub struct Module {
    pub span: Span,
    pub body: Vec<ModuleItem>,
}

/// A compilation unit without imports and exports.
#[derive(Debug, PartialEq, Eq)]
pub struct Script {
    pub span: Span,
    pub body: Vec<Stmt>,
}

/// A compilation unit.
#[derive(Debug, PartialEq, Eq)]
pub enum Program {
    Module(Module),
    Script(Script),
}

} // verus!
