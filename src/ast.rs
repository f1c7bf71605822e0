//! The program tree that the pass reads and rewrites: the subset of a
//! JavaScript module with JSX that the pass has to tell apart.
use vstd::prelude::*;

verus! {

/// A literal.
#[derive(Debug, PartialEq, Eq)]
pub enum Lit {
    Str(String),
    /// A numeric literal, kept as written.
    Num(String),
    Bool(bool),
    Null,
}

/// The property part of a member access.
#[derive(Debug, PartialEq, Eq)]
pub enum MemberProp {
    /// `obj.name`
    Ident(String),
    /// `obj[expr]`
    Computed(Box<Expr>),
    /// `obj.#name`
    Private(String),
}

/// The key of a property in a destructuring pattern.
#[derive(Debug, PartialEq, Eq)]
pub enum PropName {
    Ident(String),
    Str(String),
    Num(String),
    /// A computed key, `[expr]`; its expression is not kept.
    Computed,
}

/// A binding pattern.
#[derive(Debug, PartialEq, Eq)]
pub enum Pat {
    Ident(String),
    Object(ObjectPat),
    Array(Vec<Pat>),
}

/// `{ ... }` in a binding position.
#[derive(Debug, PartialEq, Eq)]
pub struct ObjectPat {
    pub props: Vec<ObjectPatProp>,
}

/// One entry of an object pattern.
#[derive(Debug, PartialEq, Eq)]
pub enum ObjectPatProp {
    /// `key: pattern`
    KeyValue { key: PropName, value: Box<Pat> },
    /// `name`
    Shorthand(String),
    /// `...name`
    Rest(String),
}

/// A `key: value` pair of an object literal, or an attribute of a JSX element.
#[derive(Debug, PartialEq, Eq)]
pub struct Prop {
    pub key: String,
    pub value: Expr,
}

/// An expression.
#[derive(Debug, PartialEq, Eq)]
pub enum Expr {
    Ident(String),
    Lit(Lit),
    Member { obj: Box<Expr>, prop: MemberProp },
    Call { callee: Box<Expr>, args: Vec<Expr> },
    Arrow(ArrowExpr),
    /// A function expression.
    Fn(Function),
    Object(Vec<Prop>),
    Array(Vec<Expr>),
    Bin { op: String, left: Box<Expr>, right: Box<Expr> },
    /// `test ? cons : alt`
    Cond { test: Box<Expr>, cons: Box<Expr>, alt: Box<Expr> },
    Unary { op: String, arg: Box<Expr> },
    /// `target op value`, with `op` one of `=`, `+=`, ...
    Assign { op: String, target: Box<Expr>, value: Box<Expr> },
    New { callee: Box<Expr>, args: Vec<Expr> },
    /// A template literal: its text parts and the expressions between them.
    Template { quasis: Vec<String>, exprs: Vec<Expr> },
    /// Any other expression (`await`, `yield`, a sequence, a spread, a class
    /// expression, ...), named by `kind`, with its child expressions in order.
    Other { kind: String, children: Vec<Expr> },
    JsxElement { name: String, attrs: Vec<Prop>, children: Vec<Expr> },
    JsxFragment(Vec<Expr>),
    JsxText(String),
}

/// The body of an arrow function.
#[derive(Debug, PartialEq, Eq)]
pub enum ArrowBody {
    Block(Vec<Stmt>),
    Expr(Box<Expr>),
}

/// An arrow function; `lo` is the position where it starts in the source.
#[derive(Debug, PartialEq, Eq)]
pub struct ArrowExpr {
    pub lo: u32,
    pub params: Vec<Pat>,
    pub body: ArrowBody,
}

/// A function; `lo` is the position where it starts in the source.
#[derive(Debug, PartialEq, Eq)]
pub struct Function {
    pub lo: u32,
    pub params: Vec<Pat>,
    pub body: Option<Vec<Stmt>>,
}

/// `function ident(...) { ... }`
#[derive(Debug, PartialEq, Eq)]
pub struct FnDecl {
    pub ident: String,
    pub function: Function,
}

#[derive(Clone, Copy, Debug, PartialEq, Eq)]
pub enum VarDeclKind {
    Var,
    Let,
    Const,
}

/// One `name = init` of a variable declaration.
#[derive(Debug, PartialEq, Eq)]
pub struct VarDeclarator {
    pub name: Pat,
    pub init: Option<Expr>,
}

#[derive(Debug, PartialEq, Eq)]
pub struct VarDecl {
    pub kind: VarDeclKind,
    pub decls: Vec<VarDeclarator>,
}

/// A statement.
#[derive(Debug, PartialEq, Eq)]
pub enum Stmt {
    Expr(Expr),
    Return(Option<Expr>),
    Var(VarDecl),
    FnDecl(FnDecl),
    Block(Vec<Stmt>),
    If { test: Expr, cons: Box<Stmt>, alt: Option<Box<Stmt>> },
    Try { block: Vec<Stmt>, handler: Option<CatchClause>, finalizer: Option<Vec<Stmt>> },
    Throw(Expr),
    /// Any other statement (a loop, `switch`, a class declaration, a labeled
    /// statement, ...), named by `kind`, with its child expressions and its
    /// nested statements in order.
    Other { kind: String, exprs: Vec<Expr>, body: Vec<Stmt> },
}

/// `catch (param) { body }`
#[derive(Debug, PartialEq, Eq)]
pub struct CatchClause {
    pub param: Option<Pat>,
    pub body: Vec<Stmt>,
}

/// One binding of an import declaration.
#[derive(Debug, PartialEq, Eq)]
pub enum ImportSpecifier {
    /// `import { imported as local }`; `imported` is absent when it equals `local`.
    Named { local: String, imported: Option<String> },
    /// `import local from ...`
    Default(String),
    /// `import * as local from ...`
    Namespace(String),
}

#[derive(Debug, PartialEq, Eq)]
pub struct ImportDecl {
    pub specifiers: Vec<ImportSpecifier>,
    pub src: String,
}

/// A top-level item of a module.
#[derive(Debug, PartialEq, Eq)]
pub enum ModuleItem {
    Import(ImportDecl),
    /// `export <declaration>`
    Export(Stmt),
    Stmt(Stmt),
}

#[derive(Debug, PartialEq, Eq)]
pub struct Module {
    pub body: Vec<ModuleItem>,
}

} // verus!
