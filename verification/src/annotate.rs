//! The statements and items that the pass adds for an action.

use vstd::prelude::*;

use crate::ast::{
    exprs_view, items_view, stmts_view, ArrowExpr, Decl, Declarator, Expr, Ident, ModuleItem,
    Origin, Pat, PatForm, Span, Stmt, VarDecl, VarKind,
};
use crate::digest::{action_id, compute_action_id};
use crate::model::{
    DeclView, DeclaratorView, ExprView, IdentView, ModuleItemView, PatFormView, PatView, StmtView,
    VarDeclView,
};
use crate::names::{access, new_ident};

verus! {

/// `name.field = value;`
pub open spec fn annotation(name: IdentView, field: Seq<char>, value: ExprView) -> StmtView {
    StmtView::Expr(
        Origin::Synthetic,
        Box::new(
            ExprView::Assign(
                Box::new(access(ExprView::Ident(name), field, true)),
                Box::new(value),
            ),
        ),
    )
}

/// A string literal that the pass makes.
pub open spec fn text_literal(value: Seq<char>) -> ExprView {
    ExprView::Str(Origin::Synthetic, value)
}

/// `Symbol.for("react.server.reference")`.
pub open spec fn reference_symbol() -> ExprView {
    ExprView::Call(
        Box::new(access(ExprView::Ident(new_ident("Symbol"@, Span::dummy())), "for"@, true)),
        seq![text_literal("react.server.reference"@)],
    )
}

/// The three statements that make an identifier a reference to an action:
/// `$$typeof`, `$$id` and `$$bound`.
pub open spec fn reference_annotations(
    name: IdentView,
    bound: Seq<ExprView>,
    id: Seq<char>,
) -> Seq<StmtView> {
    seq![
        annotation(name, "$$typeof"@, reference_symbol()),
        annotation(name, "$$id"@, text_literal(id)),
        annotation(name, "$$bound"@, ExprView::Array(bound)),
    ]
}

/// The annotations of an action that a file exports under a name.
pub open spec fn action_annotations(
    name: IdentView,
    bound: Seq<ExprView>,
    file_name: Seq<char>,
    export_name: Seq<char>,
) -> Seq<StmtView> {
    reference_annotations(name, bound, action_id(file_name, export_name))
}

/// A pattern that is a plain name.
pub open spec fn ident_pat(i: IdentView) -> PatView {
    PatView { origin: Origin::Synthetic, form: PatFormView::Ident(i), exprs: Seq::empty() }
}

/// A declaration of one variable that the pass makes.
pub open spec fn var_decl(kind: VarKind, i: IdentView, init: Option<Box<ExprView>>) -> DeclView {
    DeclView::Var(
        VarDeclView {
            origin: Origin::Synthetic,
            kind,
            decls: seq![DeclaratorView { origin: Origin::Synthetic, name: ident_pat(i), init }],
        },
    )
}

/// `var name;`
pub open spec fn name_declaration(i: IdentView) -> ModuleItemView {
    ModuleItemView::Stmt(StmtView::Decl(var_decl(VarKind::Var, i, None)))
}

/// `(name = value)`.
pub open spec fn name_assignment(i: IdentView, value: ExprView) -> ExprView {
    ExprView::Paren(Box::new(ExprView::Define(i, Box::new(value))))
}

/// Makes `name.field = value;`.
pub fn annotate(fn_name: &Ident, field_name: &str, value: Expr) -> (r: Stmt)
    ensures
        r@ == annotation(fn_name@, field_name@, value@),
{
    let target = Expr::access(Expr::Ident(fn_name.clone()), field_name.to_string(), true);
    let assign = Expr::Assign(Box::new(target), Box::new(value));
    assert(assign@ == ExprView::Assign(Box::new(target@), Box::new(value@)));
    Stmt::Expr(Origin::Synthetic, Box::new(assign))
}

/// Makes `Symbol.for("react.server.reference")`.
fn make_reference_symbol() -> (r: Expr)
    ensures
        r@ == reference_symbol(),
{
    let symbol = Expr::Ident(Ident::new("Symbol".to_string(), Span::dummy()));
    let callee = Expr::access(symbol, "for".to_string(), true);
    let arg = Expr::Str(Origin::Synthetic, "react.server.reference".to_string());
    let args = vec![arg];
    assert(exprs_view(args@) =~= seq![text_literal("react.server.reference"@)]);
    Expr::Call(Box::new(callee), args)
}

/// Appends the three statements that make an identifier a reference to the
/// action with the given identity.
pub fn push_reference_annotations(
    annotations: &mut Vec<Stmt>,
    ident: &Ident,
    bound: Vec<Expr>,
    id: String,
)
    ensures
        stmts_view(final(annotations)@) == stmts_view(old(annotations)@) + reference_annotations(
            ident@,
            exprs_view(bound@),
            id@,
        ),
{
    annotations.push(annotate(ident, "$$typeof", make_reference_symbol()));
    annotations.push(annotate(ident, "$$id", Expr::Str(Origin::Synthetic, id)));
    let array = Expr::Array(bound);
    assert(array@ == ExprView::Array(exprs_view(bound@)));
    annotations.push(annotate(ident, "$$bound", array));
    assert(stmts_view(annotations@) =~= stmts_view(old(annotations)@) + reference_annotations(
        ident@,
        exprs_view(bound@),
        id@,
    ));
}

/// Appends the annotations of an action that a file exports under a name.
pub fn annotate_ident_as_action(
    annotations: &mut Vec<Stmt>,
    ident: &Ident,
    bound: Vec<Expr>,
    file_name: &str,
    export_name: &str,
)
    ensures
        stmts_view(final(annotations)@) == stmts_view(old(annotations)@) + action_annotations(
            ident@,
            exprs_view(bound@),
            file_name@,
            export_name@,
        ),
{
    let id = compute_action_id(file_name, export_name);
    push_reference_annotations(annotations, ident, bound, id);
}

impl Pat {
    /// A pattern that is a plain name.
    pub fn from_ident(ident: Ident) -> (r: Pat)
        ensures
            r@ == ident_pat(ident@),
    {
        let exprs: Vec<Expr> = Vec::new();
        assert(exprs_view(exprs@) =~= Seq::empty());
        Pat { origin: Origin::Synthetic, form: PatForm::Ident(ident), exprs }
    }
}

/// Makes a declaration of one variable.
pub fn make_var_decl(kind: VarKind, ident: Ident, init: Option<Box<Expr>>) -> (r: Decl)
    ensures
        r@ == var_decl(
            kind,
            ident@,
            match init {
                Some(e) => Some(Box::new(e@)),
                None => None,
            },
        ),
{
    let decl = Declarator { origin: Origin::Synthetic, name: Pat::from_ident(ident), init };
    let ghost view = decl@;
    let decls = vec![decl];
    assert(crate::ast::declarators_view(decls@) =~= seq![view]);
    let var = VarDecl { origin: Origin::Synthetic, kind, decls };
    assert(var@.decls == seq![view]);
    Decl::Var(var)
}

/// Appends `var name;`.
pub fn declare_name(ident: Ident, extra_items: &mut Vec<ModuleItem>)
    ensures
        items_view(final(extra_items)@) == items_view(old(extra_items)@).push(
            name_declaration(ident@),
        ),
{
    let stmt = Stmt::Decl(make_var_decl(VarKind::Var, ident, None));
    assert(stmt@ == StmtView::Decl(var_decl(VarKind::Var, ident@, None)));
    extra_items.push(ModuleItem::Stmt(stmt));
    assert(items_view(extra_items@) =~= items_view(old(extra_items)@).push(
        name_declaration(ident@),
    ));
}

/// Makes `(name = value)`.
pub fn assign_name(ident: Ident, value: Expr) -> (r: Expr)
    ensures
        r@ == name_assignment(ident@, value@),
{
    let define = Expr::Define(ident, Box::new(value));
    assert(define@ == ExprView::Define(ident@, Box::new(value@)));
    Expr::Paren(Box::new(define))
}

/// Gives an arrow function a name: declares the variable, and returns the
/// assignment of the arrow function to it.
pub fn attach_name_to_arrow(
    ident: Ident,
    arrow: ArrowExpr,
    extra_items: &mut Vec<ModuleItem>,
) -> (r: Expr)
    ensures
        r@ == name_assignment(ident@, ExprView::Arrow(arrow@)),
        items_view(final(extra_items)@) == items_view(old(extra_items)@).push(
            name_declaration(ident@),
        ),
{
    declare_name(ident.clone(), extra_items);
    assign_name(ident, Expr::Arrow(arrow))
}

} // verus!
