//! The syntax trees that the pass reads and writes.
//!
//! A tree shows what the pass looks at. What a source construct holds besides
//! (type annotations, operators, quoting) stays with whoever built the tree,
//! under the number in `Origin::Source` or `Other::source`.

use vstd::prelude::*;

use crate::model::{
    ArrowBodyView, ArrowView, BlockView, DeclView, DeclaratorView, DecoratorView, DefaultDeclView,
    ExportNameView, ExportSpecifierView, ExprView, FnDeclView, FnExprView, FunctionView, IdentView,
    MemberView, ModuleItemView, ModuleView, NamedExportView, NodeView, OtherView, ParamView,
    PatFormView, PatPropView, PatView, PropView, StmtView, VarDeclView,
};

verus! {

/// The hygiene context of an identifier.
#[derive(Clone, Copy, PartialEq, Eq, Structural, Debug)]
pub enum Ctxt {
    /// A context of the source. Number 0 is the empty context.
    Source(u32),
    /// The private context of the generated identifier with that number.
    Action(u32),
    /// The private context of the `closure` parameter of the action whose
    /// generated identifier has that number.
    Closure(u32),
}

/// A range of the source, with the hygiene context that goes with it.
#[derive(Clone, Copy, PartialEq, Eq, Structural, Debug)]
pub struct Span {
    pub lo: u32,
    pub hi: u32,
    pub ctxt: Ctxt,
}

impl Span {
    /// The span of what has no place in the source.
    pub open spec fn dummy_spec() -> Span {
        Span { lo: 0, hi: 0, ctxt: Ctxt::Source(0) }
    }

    /// The span of what has no place in the source.
    #[verifier::when_used_as_spec(dummy_spec)]
    pub fn dummy() -> (r: Span)
        ensures
            r == Span::dummy_spec(),
    {
        Span { lo: 0, hi: 0, ctxt: Ctxt::Source(0) }
    }

    /// A span without a place in the source, in the given context.
    pub open spec fn with_ctxt_spec(ctxt: Ctxt) -> Span {
        Span { lo: 0, hi: 0, ctxt }
    }

    /// A span without a place in the source, in the given context.
    #[verifier::when_used_as_spec(with_ctxt_spec)]
    pub fn with_ctxt(ctxt: Ctxt) -> (r: Span)
        ensures
            r == Span::with_ctxt_spec(ctxt),
    {
        Span { lo: 0, hi: 0, ctxt }
    }
}

/// Where a node comes from.
#[derive(Clone, Copy, PartialEq, Eq, Structural, Debug)]
pub enum Origin {
    /// The source construct with that number.
    Source(u64),
    /// The pass made it.
    Synthetic,
}

/// The keyword of a variable declaration.
#[derive(Clone, Copy, PartialEq, Eq, Structural, Debug)]
pub enum VarKind {
    Var,
    Let,
    Const,
}

/// An identifier.
#[derive(PartialEq, Eq, Debug)]
pub struct Ident {
    pub sym: String,
    pub span: Span,
    pub optional: bool,
}

/// What a pattern binds, without the expressions in it.
#[derive(PartialEq, Eq, Debug)]
pub enum PatForm {
    Ident(Ident),
    Array(Vec<Option<PatForm>>),
    Object(Vec<PatProp>),
    Rest(Box<PatForm>),
    /// Any other pattern, such as one with a default value.
    Other,
}

/// What a property of an object pattern binds.
#[derive(PartialEq, Eq, Debug)]
pub enum PatProp {
    /// `{ key: value }`; the key is shown where it is a plain name.
    KeyValue(Option<Ident>, Box<PatForm>),
    /// `{ key }` or `{ key = default }`.
    Assign(Ident),
    /// `{ ...rest }`.
    Rest(Box<PatForm>),
}

/// A pattern: what it binds, and the expressions in it (default values and
/// computed keys) from left to right.
#[derive(PartialEq, Eq, Debug)]
pub struct Pat {
    pub origin: Origin,
    pub form: PatForm,
    pub exprs: Vec<Expr>,
}

/// A member access by a plain name.
#[derive(PartialEq, Eq, Debug)]
pub struct Member {
    pub origin: Origin,
    pub obj: Box<Expr>,
    pub prop: Ident,
}

/// An expression.
#[derive(PartialEq, Eq, Debug)]
pub enum Expr {
    Ident(Ident),
    /// A string literal.
    Str(Origin, String),
    /// `obj.prop`.
    Member(Member),
    /// `obj?.prop`.
    OptMember(Member),
    Fn(FnExpr),
    Arrow(ArrowExpr),
    /// A call that the pass made.
    Call(Box<Expr>, Vec<Expr>),
    /// `target = value`, made by the pass.
    Assign(Box<Expr>, Box<Expr>),
    /// `name = value` with a plain name as the pattern, made by the pass.
    Define(Ident, Box<Expr>),
    /// A parenthesised expression that the pass made.
    Paren(Box<Expr>),
    /// An array literal that the pass made.
    Array(Vec<Expr>),
    /// `obj[index]`, made by the pass.
    Index(Box<Expr>, usize),
    /// Any other expression of the source.
    Other(Other),
}

/// A function expression.
#[derive(PartialEq, Eq, Debug)]
pub struct FnExpr {
    pub ident: Option<Ident>,
    pub function: Function,
}

/// A function declaration.
#[derive(PartialEq, Eq, Debug)]
pub struct FnDecl {
    pub origin: Origin,
    pub ident: Ident,
    pub function: Function,
}

/// The part that function expressions and declarations share.
#[derive(PartialEq, Eq, Debug)]
pub struct Function {
    pub origin: Origin,
    pub span: Span,
    pub params: Vec<Param>,
    pub decorators: Vec<Decorator>,
    pub body: Option<Block>,
    pub is_async: bool,
    pub is_generator: bool,
}

/// A parameter of a function.
#[derive(PartialEq, Eq, Debug)]
pub struct Param {
    pub origin: Origin,
    pub decorators: Vec<Decorator>,
    pub pat: Pat,
}

/// A decorator.
#[derive(PartialEq, Eq, Debug)]
pub struct Decorator {
    pub origin: Origin,
    pub expr: Expr,
}

/// An arrow function.
#[derive(PartialEq, Eq, Debug)]
pub struct ArrowExpr {
    pub origin: Origin,
    pub span: Span,
    pub params: Vec<Pat>,
    pub body: ArrowBody,
    pub is_async: bool,
    pub is_generator: bool,
}

/// The body of an arrow function.
#[derive(PartialEq, Eq, Debug)]
pub enum ArrowBody {
    Block(Block),
    Expr(Box<Expr>),
}

/// A block of statements.
#[derive(PartialEq, Eq, Debug)]
pub struct Block {
    pub origin: Origin,
    pub stmts: Vec<Stmt>,
}

/// A statement.
#[derive(PartialEq, Eq, Debug)]
pub enum Stmt {
    Expr(Origin, Box<Expr>),
    Decl(Decl),
    /// A `return` that the pass made.
    Return(Box<Expr>),
    /// Any other statement of the source.
    Other(Other),
}

/// A declaration.
#[derive(PartialEq, Eq, Debug)]
pub enum Decl {
    Fn(FnDecl),
    Var(VarDecl),
    /// A class, or a declaration of the type system.
    Other(Other),
}

/// A variable declaration.
#[derive(PartialEq, Eq, Debug)]
pub struct VarDecl {
    pub origin: Origin,
    pub kind: VarKind,
    pub decls: Vec<Declarator>,
}

/// One variable of a variable declaration.
#[derive(PartialEq, Eq, Debug)]
pub struct Declarator {
    pub origin: Origin,
    pub name: Pat,
    pub init: Option<Box<Expr>>,
}

/// A property of an object literal.
#[derive(PartialEq, Eq, Debug)]
pub enum Prop {
    /// `{ a }`.
    Shorthand(Ident),
    /// `{ a: value }`, made by the pass.
    KeyValue(Ident, Box<Expr>),
    /// Any other property of the source.
    Other(Other),
}

/// A construct of the source that the pass only looks through.
#[derive(PartialEq, Eq, Debug)]
pub struct Other {
    /// The number of the source construct.
    pub source: u64,
    /// What is inside it, in the order in which it is visited.
    pub kids: Vec<Node>,
}

/// What can be met inside a construct that the pass only looks through.
#[derive(PartialEq, Eq, Debug)]
pub enum Node {
    Expr(Expr),
    Stmt(Stmt),
    /// A list of statements.
    Stmts(Vec<Stmt>),
    Param(Param),
    Prop(Prop),
    /// The items of a namespace.
    Items(Vec<ModuleItem>),
}

/// An item at the top level of a module.
#[derive(PartialEq, Eq, Debug)]
pub enum ModuleItem {
    Stmt(Stmt),
    ExportDecl(Span, Decl),
    ExportNamed(NamedExport),
    ExportDefaultDecl(Span, DefaultDecl),
    ExportDefaultExpr(Span, Box<Expr>),
    ExportAll(Span, Other),
    /// An import, or an item of the type system.
    Other(Other),
}

/// `export { a, b as c }`, with or without a `from`.
#[derive(PartialEq, Eq, Debug)]
pub struct NamedExport {
    pub span: Span,
    pub specifiers: Vec<ExportSpecifier>,
    pub has_src: bool,
    pub rest: Other,
}

/// One entry of a named export.
#[derive(PartialEq, Eq, Debug)]
pub enum ExportSpecifier {
    /// `a`, or `a as b`.
    Named(ExportName, Option<ExportName>),
    /// A namespace or a default entry.
    Other,
}

/// A name in a named export.
#[derive(PartialEq, Eq, Debug)]
pub enum ExportName {
    Ident(Ident),
    Str(String),
}

/// What is declared by `export default` with a declaration.
#[derive(PartialEq, Eq, Debug)]
pub enum DefaultDecl {
    Fn(FnExpr),
    /// A class or an interface.
    Other(Other),
}

/// A module.
#[derive(PartialEq, Eq, Debug)]
pub struct Module {
    pub span: Span,
    pub body: Vec<ModuleItem>,
}

impl Ident {
    pub open spec fn view(&self) -> IdentView {
        IdentView { sym: self.sym@, span: self.span, optional: self.optional }
    }
}

/// The view of an optional identifier.
pub open spec fn opt_ident_view(v: Option<Ident>) -> Option<IdentView> {
    match v {
        Some(i) => Some(i@),
        None => None,
    }
}

impl PatForm {
    pub open spec fn view(&self) -> PatFormView
        decreases self,
    {
        match self {
            PatForm::Ident(i) => PatFormView::Ident(i@),
            PatForm::Array(elems) => PatFormView::Array(pat_forms_view(elems@)),
            PatForm::Object(props) => PatFormView::Object(pat_props_view(props@)),
            PatForm::Rest(arg) => PatFormView::Rest(Box::new((**arg).view())),
            PatForm::Other => PatFormView::Other,
        }
    }
}

impl PatProp {
    pub open spec fn view(&self) -> PatPropView
        decreases self,
    {
        match self {
            PatProp::KeyValue(key, value) => PatPropView::KeyValue(
                opt_ident_view(*key),
                Box::new((**value).view()),
            ),
            PatProp::Assign(key) => PatPropView::Assign(key@),
            PatProp::Rest(arg) => PatPropView::Rest(Box::new((**arg).view())),
        }
    }
}

/// The views of the elements of an array pattern.
pub open spec fn pat_forms_view(v: Seq<Option<PatForm>>) -> Seq<Option<PatFormView>>
    decreases v,
{
    Seq::new(
        v.len(),
        |i: int|
            if 0 <= i < v.len() {
                match v[i] {
                    Some(p) => Some(p.view()),
                    None => None,
                }
            } else {
                None
            },
    )
}

/// The views of the properties of an object pattern.
pub open spec fn pat_props_view(v: Seq<PatProp>) -> Seq<PatPropView>
    decreases v,
{
    Seq::new(
        v.len(),
        |i: int|
            if 0 <= i < v.len() {
                v[i].view()
            } else {
                arbitrary()
            },
    )
}

impl Expr {
    pub open spec fn view(&self) -> ExprView
        decreases self,
    {
        match self {
            Expr::Ident(i) => ExprView::Ident(i@),
            Expr::Str(origin, value) => ExprView::Str(*origin, value@),
            Expr::Member(m) => ExprView::Member(m.view()),
            Expr::OptMember(m) => ExprView::OptMember(m.view()),
            Expr::Fn(f) => ExprView::Fn(f.view()),
            Expr::Arrow(a) => ExprView::Arrow(a.view()),
            Expr::Call(callee, args) => ExprView::Call(
                Box::new((**callee).view()),
                exprs_view(args@),
            ),
            Expr::Assign(target, value) => ExprView::Assign(
                Box::new((**target).view()),
                Box::new((**value).view()),
            ),
            Expr::Define(i, value) => ExprView::Define(i@, Box::new((**value).view())),
            Expr::Paren(e) => ExprView::Paren(Box::new((**e).view())),
            Expr::Array(elems) => ExprView::Array(exprs_view(elems@)),
            Expr::Index(obj, index) => ExprView::Index(Box::new((**obj).view()), *index as nat),
            Expr::Other(o) => ExprView::Other(o.view()),
        }
    }
}

/// The views of a list of expressions.
pub open spec fn exprs_view(v: Seq<Expr>) -> Seq<ExprView>
    decreases v,
{
    Seq::new(
        v.len(),
        |i: int|
            if 0 <= i < v.len() {
                v[i].view()
            } else {
                arbitrary()
            },
    )
}

/// The view of an optional expression.
pub open spec fn opt_expr_view(v: Option<Box<Expr>>) -> Option<Box<ExprView>>
    decreases v,
{
    match v {
        Some(e) => Some(Box::new((*e).view())),
        None => None,
    }
}

impl Member {
    pub open spec fn view(&self) -> MemberView
        decreases self,
    {
        MemberView {
            origin: self.origin,
            obj: Box::new((*self.obj).view()),
            prop: self.prop@,
        }
    }
}

impl Pat {
    pub open spec fn view(&self) -> PatView
        decreases self,
    {
        PatView { origin: self.origin, form: self.form.view(), exprs: exprs_view(self.exprs@) }
    }
}

/// The views of a list of patterns.
pub open spec fn pats_view(v: Seq<Pat>) -> Seq<PatView>
    decreases v,
{
    Seq::new(
        v.len(),
        |i: int|
            if 0 <= i < v.len() {
                v[i].view()
            } else {
                arbitrary()
            },
    )
}

impl FnExpr {
    pub open spec fn view(&self) -> FnExprView
        decreases self,
    {
        FnExprView { ident: opt_ident_view(self.ident), function: self.function.view() }
    }
}

impl FnDecl {
    pub open spec fn view(&self) -> FnDeclView
        decreases self,
    {
        FnDeclView { origin: self.origin, ident: self.ident@, function: self.function.view() }
    }
}

impl Function {
    pub open spec fn view(&self) -> FunctionView
        decreases self,
    {
        FunctionView {
            origin: self.origin,
            span: self.span,
            params: params_view(self.params@),
            decorators: decorators_view(self.decorators@),
            body: opt_block_view(self.body),
            is_async: self.is_async,
            is_generator: self.is_generator,
        }
    }
}

impl Param {
    pub open spec fn view(&self) -> ParamView
        decreases self,
    {
        ParamView {
            origin: self.origin,
            decorators: decorators_view(self.decorators@),
            pat: self.pat.view(),
        }
    }
}

/// The views of a list of parameters.
pub open spec fn params_view(v: Seq<Param>) -> Seq<ParamView>
    decreases v,
{
    Seq::new(
        v.len(),
        |i: int|
            if 0 <= i < v.len() {
                v[i].view()
            } else {
                arbitrary()
            },
    )
}

impl Decorator {
    pub open spec fn view(&self) -> DecoratorView
        decreases self,
    {
        DecoratorView { origin: self.origin, expr: self.expr.view() }
    }
}

/// The views of a list of decorators.
pub open spec fn decorators_view(v: Seq<Decorator>) -> Seq<DecoratorView>
    decreases v,
{
    Seq::new(
        v.len(),
        |i: int|
            if 0 <= i < v.len() {
                v[i].view()
            } else {
                arbitrary()
            },
    )
}

impl ArrowExpr {
    pub open spec fn view(&self) -> ArrowView
        decreases self,
    {
        ArrowView {
            origin: self.origin,
            span: self.span,
            params: pats_view(self.params@),
            body: self.body.view(),
            is_async: self.is_async,
            is_generator: self.is_generator,
        }
    }
}

impl ArrowBody {
    pub open spec fn view(&self) -> ArrowBodyView
        decreases self,
    {
        match self {
            ArrowBody::Block(b) => ArrowBodyView::Block(b.view()),
            ArrowBody::Expr(e) => ArrowBodyView::Expr(Box::new((**e).view())),
        }
    }
}

impl Block {
    pub open spec fn view(&self) -> BlockView
        decreases self,
    {
        BlockView { origin: self.origin, stmts: stmts_view(self.stmts@) }
    }
}

/// The view of an optional block.
pub open spec fn opt_block_view(v: Option<Block>) -> Option<BlockView>
    decreases v,
{
    match v {
        Some(b) => Some(b.view()),
        None => None,
    }
}

impl Stmt {
    pub open spec fn view(&self) -> StmtView
        decreases self,
    {
        match self {
            Stmt::Expr(origin, e) => StmtView::Expr(*origin, Box::new((**e).view())),
            Stmt::Decl(d) => StmtView::Decl(d.view()),
            Stmt::Return(e) => StmtView::Return(Box::new((**e).view())),
            Stmt::Other(o) => StmtView::Other(o.view()),
        }
    }
}

/// The views of a list of statements.
pub open spec fn stmts_view(v: Seq<Stmt>) -> Seq<StmtView>
    decreases v,
{
    Seq::new(
        v.len(),
        |i: int|
            if 0 <= i < v.len() {
                v[i].view()
            } else {
                arbitrary()
            },
    )
}

impl Decl {
    pub open spec fn view(&self) -> DeclView
        decreases self,
    {
        match self {
            Decl::Fn(f) => DeclView::Fn(f.view()),
            Decl::Var(v) => DeclView::Var(v.view()),
            Decl::Other(o) => DeclView::Other(o.view()),
        }
    }
}

impl VarDecl {
    pub open spec fn view(&self) -> VarDeclView
        decreases self,
    {
        VarDeclView { origin: self.origin, kind: self.kind, decls: declarators_view(self.decls@) }
    }
}

impl Declarator {
    pub open spec fn view(&self) -> DeclaratorView
        decreases self,
    {
        DeclaratorView {
            origin: self.origin,
            name: self.name.view(),
            init: opt_expr_view(self.init),
        }
    }
}

/// The views of the variables of a declaration.
pub open spec fn declarators_view(v: Seq<Declarator>) -> Seq<DeclaratorView>
    decreases v,
{
    Seq::new(
        v.len(),
        |i: int|
            if 0 <= i < v.len() {
                v[i].view()
            } else {
                arbitrary()
            },
    )
}

impl Prop {
    pub open spec fn view(&self) -> PropView
        decreases self,
    {
        match self {
            Prop::Shorthand(i) => PropView::Shorthand(i@),
            Prop::KeyValue(key, value) => PropView::KeyValue(key@, Box::new((**value).view())),
            Prop::Other(o) => PropView::Other(o.view()),
        }
    }
}

impl Other {
    pub open spec fn view(&self) -> OtherView
        decreases self,
    {
        OtherView { source: self.source, kids: nodes_view(self.kids@) }
    }
}

impl Node {
    pub open spec fn view(&self) -> NodeView
        decreases self,
    {
        match self {
            Node::Expr(e) => NodeView::Expr(e.view()),
            Node::Stmt(s) => NodeView::Stmt(s.view()),
            Node::Stmts(v) => NodeView::Stmts(stmts_view(v@)),
            Node::Param(p) => NodeView::Param(p.view()),
            Node::Prop(p) => NodeView::Prop(p.view()),
            Node::Items(v) => NodeView::Items(items_view(v@)),
        }
    }
}

/// The views of a list of nodes.
pub open spec fn nodes_view(v: Seq<Node>) -> Seq<NodeView>
    decreases v,
{
    Seq::new(
        v.len(),
        |i: int|
            if 0 <= i < v.len() {
                v[i].view()
            } else {
                arbitrary()
            },
    )
}

impl ModuleItem {
    pub open spec fn view(&self) -> ModuleItemView
        decreases self,
    {
        match self {
            ModuleItem::Stmt(s) => ModuleItemView::Stmt(s.view()),
            ModuleItem::ExportDecl(span, d) => ModuleItemView::ExportDecl(*span, d.view()),
            ModuleItem::ExportNamed(n) => ModuleItemView::ExportNamed(n.view()),
            ModuleItem::ExportDefaultDecl(span, d) => ModuleItemView::ExportDefaultDecl(
                *span,
                d.view(),
            ),
            ModuleItem::ExportDefaultExpr(span, e) => ModuleItemView::ExportDefaultExpr(
                *span,
                Box::new((**e).view()),
            ),
            ModuleItem::ExportAll(span, o) => ModuleItemView::ExportAll(*span, o.view()),
            ModuleItem::Other(o) => ModuleItemView::Other(o.view()),
        }
    }
}

/// The views of a list of module items.
pub open spec fn items_view(v: Seq<ModuleItem>) -> Seq<ModuleItemView>
    decreases v,
{
    Seq::new(
        v.len(),
        |i: int|
            if 0 <= i < v.len() {
                v[i].view()
            } else {
                arbitrary()
            },
    )
}

impl NamedExport {
    pub open spec fn view(&self) -> NamedExportView
        decreases self,
    {
        NamedExportView {
            span: self.span,
            specifiers: specifiers_view(self.specifiers@),
            has_src: self.has_src,
            rest: self.rest.view(),
        }
    }
}

impl ExportSpecifier {
    pub open spec fn view(&self) -> ExportSpecifierView {
        match self {
            ExportSpecifier::Named(orig, exported) => ExportSpecifierView::Named(
                orig@,
                match exported {
                    Some(name) => Some(name@),
                    None => None,
                },
            ),
            ExportSpecifier::Other => ExportSpecifierView::Other,
        }
    }
}

/// The views of the entries of a named export.
pub open spec fn specifiers_view(v: Seq<ExportSpecifier>) -> Seq<ExportSpecifierView> {
    Seq::new(v.len(), |i: int| v[i]@)
}

impl ExportName {
    pub open spec fn view(&self) -> ExportNameView {
        match self {
            ExportName::Ident(i) => ExportNameView::Ident(i@),
            ExportName::Str(s) => ExportNameView::Str(s@),
        }
    }
}

impl DefaultDecl {
    pub open spec fn view(&self) -> DefaultDeclView
        decreases self,
    {
        match self {
            DefaultDecl::Fn(f) => DefaultDeclView::Fn(f.view()),
            DefaultDecl::Other(o) => DefaultDeclView::Other(o.view()),
        }
    }
}

impl Module {
    pub open spec fn view(&self) -> ModuleView {
        ModuleView { span: self.span, body: items_view(self.body@) }
    }
}

} // verus!
