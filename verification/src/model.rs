//! Syntax trees as mathematical values.
//!
//! Each type of `ast` that owns text or a list has a counterpart here, in which
//! the text is a `Seq<char>` and the list a `Seq`. Contracts speak of these.

use vstd::prelude::*;

use crate::ast::{Ctxt, Origin, Span, VarKind};

verus! {

/// An identifier.
pub ghost struct IdentView {
    pub sym: Seq<char>,
    pub span: Span,
    pub optional: bool,
}

/// What tells two bindings apart: the text and the hygiene context.
pub ghost struct IdView {
    pub sym: Seq<char>,
    pub ctxt: Ctxt,
}

impl IdentView {
    /// The binding that the identifier refers to.
    pub open spec fn id(self) -> IdView {
        IdView { sym: self.sym, ctxt: self.span.ctxt }
    }
}

/// What a pattern binds, without the expressions in it.
pub ghost enum PatFormView {
    Ident(IdentView),
    Array(Seq<Option<PatFormView>>),
    Object(Seq<PatPropView>),
    Rest(Box<PatFormView>),
    Other,
}

/// What a property of an object pattern binds.
pub ghost enum PatPropView {
    KeyValue(Option<IdentView>, Box<PatFormView>),
    Assign(IdentView),
    Rest(Box<PatFormView>),
}

/// A pattern: what it binds, and the expressions in it.
pub ghost struct PatView {
    pub origin: Origin,
    pub form: PatFormView,
    pub exprs: Seq<ExprView>,
}

/// A member access by a plain name.
pub ghost struct MemberView {
    pub origin: Origin,
    pub obj: Box<ExprView>,
    pub prop: IdentView,
}

/// An expression.
pub ghost enum ExprView {
    Ident(IdentView),
    Str(Origin, Seq<char>),
    Member(MemberView),
    OptMember(MemberView),
    Fn(FnExprView),
    Arrow(ArrowView),
    Call(Box<ExprView>, Seq<ExprView>),
    Assign(Box<ExprView>, Box<ExprView>),
    Define(IdentView, Box<ExprView>),
    Paren(Box<ExprView>),
    Array(Seq<ExprView>),
    Index(Box<ExprView>, nat),
    Other(OtherView),
}

/// A function expression.
pub ghost struct FnExprView {
    pub ident: Option<IdentView>,
    pub function: FunctionView,
}

/// A function declaration.
pub ghost struct FnDeclView {
    pub origin: Origin,
    pub ident: IdentView,
    pub function: FunctionView,
}

/// The part that function expressions and declarations share.
pub ghost struct FunctionView {
    pub origin: Origin,
    pub span: Span,
    pub params: Seq<ParamView>,
    pub decorators: Seq<DecoratorView>,
    pub body: Option<BlockView>,
    pub is_async: bool,
    pub is_generator: bool,
}

/// A parameter of a function.
pub ghost struct ParamView {
    pub origin: Origin,
    pub decorators: Seq<DecoratorView>,
    pub pat: PatView,
}

/// A decorator.
pub ghost struct DecoratorView {
    pub origin: Origin,
    pub expr: ExprView,
}

/// An arrow function.
pub ghost struct ArrowView {
    pub origin: Origin,
    pub span: Span,
    pub params: Seq<PatView>,
    pub body: ArrowBodyView,
    pub is_async: bool,
    pub is_generator: bool,
}

/// The body of an arrow function.
pub ghost enum ArrowBodyView {
    Block(BlockView),
    Expr(Box<ExprView>),
}

/// A block of statements.
pub ghost struct BlockView {
    pub origin: Origin,
    pub stmts: Seq<StmtView>,
}

/// A statement.
pub ghost enum StmtView {
    Expr(Origin, Box<ExprView>),
    Decl(DeclView),
    Return(Box<ExprView>),
    Other(OtherView),
}

/// A declaration.
pub ghost enum DeclView {
    Fn(FnDeclView),
    Var(VarDeclView),
    Other(OtherView),
}

/// A variable declaration.
pub ghost struct VarDeclView {
    pub origin: Origin,
    pub kind: VarKind,
    pub decls: Seq<DeclaratorView>,
}

/// One variable of a variable declaration.
pub ghost struct DeclaratorView {
    pub origin: Origin,
    pub name: PatView,
    pub init: Option<Box<ExprView>>,
}

/// A property of an object literal.
pub ghost enum PropView {
    Shorthand(IdentView),
    KeyValue(IdentView, Box<ExprView>),
    Other(OtherView),
}

/// A construct that the pass only looks through.
pub ghost struct OtherView {
    pub source: u64,
    pub kids: Seq<NodeView>,
}

/// What can be met inside such a construct.
pub ghost enum NodeView {
    Expr(ExprView),
    Stmt(StmtView),
    Stmts(Seq<StmtView>),
    Param(ParamView),
    Prop(PropView),
    Items(Seq<ModuleItemView>),
}

/// An item at the top level of a module.
pub ghost enum ModuleItemView {
    Stmt(StmtView),
    ExportDecl(Span, DeclView),
    ExportNamed(NamedExportView),
    ExportDefaultDecl(Span, DefaultDeclView),
    ExportDefaultExpr(Span, Box<ExprView>),
    ExportAll(Span, OtherView),
    Other(OtherView),
}

/// `export { a, b as c }`, with or without a `from`.
pub ghost struct NamedExportView {
    pub span: Span,
    pub specifiers: Seq<ExportSpecifierView>,
    pub has_src: bool,
    pub rest: OtherView,
}

/// One entry of a named export.
pub ghost enum ExportSpecifierView {
    Named(ExportNameView, Option<ExportNameView>),
    Other,
}

/// A name in a named export.
pub ghost enum ExportNameView {
    Ident(IdentView),
    Str(Seq<char>),
}

/// What is declared by `export default` with a declaration.
pub ghost enum DefaultDeclView {
    Fn(FnExprView),
    Other(OtherView),
}

/// A module.
pub ghost struct ModuleView {
    pub span: Span,
    pub body: Seq<ModuleItemView>,
}

} // verus!
