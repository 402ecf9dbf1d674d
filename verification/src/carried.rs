//! The walk carries the whole source over, and adds what it writes for actions.

use vstd::prelude::*;

use crate::actions::{arrow_stays_marked, marked_arrow, marked_body, nowhere};
use crate::annotate::action_annotations;
use crate::ast::{Origin, Span};
use crate::closure::exprs_of;
use crate::directive::module_directive;
use crate::file_exports::lacks_name;
use crate::frame::visit_function_extends;
use crate::model::{
    ArrowBodyView, ArrowView, BlockView, DeclView, DeclaratorView, DecoratorView, DefaultDeclView,
    ExprView, FnDeclView, FunctionView, IdView, IdentView, MemberView, ModuleItemView, ModuleView,
    NamedExportView, NodeView, OtherView, ParamView, PatView, PropView, StmtView,
};
use crate::names::{ident_of_id, name_of};
use crate::state::{action_ident, initial_state, Config, Scope, State};
use crate::transform::{
    action_directive, add_action, arrow_block, as_items, captures, collects_names, default_name,
    default_scope, enter_function, enter_items, export_annotations, export_name, export_scope,
    finish_arrow, finish_expr, finish_function, is_action, leave_items, name_action, note_exports,
    take_ident, use_name, visit_arrow, visit_arrow_body, visit_decl, visit_declarator,
    visit_declarators, visit_decorator, visit_decorators, visit_default_decl, visit_default_expr,
    visit_default_fn, visit_export_decl, visit_exported_item, visit_expr, visit_expr_children,
    visit_exprs, visit_fn_body, visit_fn_decl, visit_fn_expr, visit_function, visit_item,
    visit_items, visit_items_in_turn, visit_member, visit_module, visit_node, visit_nodes,
    visit_opt_expr, visit_other, visit_param, visit_params, visit_pat, visit_pats, visit_prop,
    visit_stmt, visit_stmt_children, visit_stmts, visit_stmts_in_turn, visit_top_item, without,
    without_decreases, without_directive, CallableView,
};
use crate::vocabulary::{
    directive_is_where_marked, file_directive_is_where_marked, file_marked_at, marked, marked_at,
};

verus! {

// ---- What is written for actions ----

/// A statement that the pass writes: an assignment to a field.
pub open spec fn written_stmt(stmt: StmtView) -> bool {
    match stmt {
        StmtView::Expr(origin, e) => origin == Origin::Synthetic && *e is Assign,
        _ => false,
    }
}

/// An item that the pass writes: such a statement, the declaration of a variable,
/// or an exported declaration.
pub open spec fn written_item(item: ModuleItemView) -> bool {
    match item {
        ModuleItemView::Stmt(StmtView::Decl(DeclView::Var(v))) => v.origin == Origin::Synthetic,
        ModuleItemView::Stmt(stmt) => written_stmt(stmt),
        ModuleItemView::ExportDecl(span, DeclView::Var(v)) => span == nowhere() && v.origin
            == Origin::Synthetic,
        ModuleItemView::ExportDecl(span, DeclView::Fn(f)) => span == nowhere() && f.origin
            == Origin::Synthetic,
        _ => false,
    }
}

#[verifier::opaque]
pub open spec fn written_stmts(v: Seq<StmtView>) -> bool {
    forall|i: int| 0 <= i < v.len() ==> written_stmt(#[trigger] v[i])
}

#[verifier::opaque]
pub open spec fn written_items(v: Seq<ModuleItemView>) -> bool {
    forall|i: int| 0 <= i < v.len() ==> written_item(#[trigger] v[i])
}

/// Nothing waits to be put into the module but what the pass wrote.
pub open spec fn tidy(s: State) -> bool {
    written_stmts(s.annotations) && written_items(s.extra_items)
}

/// Where the entries of a list have gone to in another one: in the same order,
/// and nowhere for a negative place.
pub open spec fn places(at: Seq<int>, from: nat, to: nat) -> bool {
    &&& at.len() == from
    &&& forall|i: int| 0 <= i < from ==> #[trigger] at[i] < to
    &&& forall|i: int, j: int|
        0 <= i < j < from && #[trigger] at[i] >= 0 && #[trigger] at[j] >= 0 ==> at[i] < at[j]
}

// ---- A tree and what it is carried over to ----

/// An expression is carried over: it stays what it is but for its parts, or it
/// is an arrow function with the directive and becomes the reference to it, with
/// the same parameters.
pub open spec fn carried_expr(
    x: ExprView,
    y: ExprView,
) -> bool
    decreases x, 1int,
{
    carried_parts(x, y) || match (x, y) {
        (ExprView::Arrow(a), ExprView::Paren(p)) => marked_arrow(a) && match *p {
            ExprView::Define(_, v) => match *v {
                ExprView::Arrow(b) => a.is_async == b.is_async && a.is_generator == b.is_generator
                    && carried_pats(a.params, b.params),
                _ => false,
            },
            _ => false,
        },
        _ => false,
    }
}

/// An expression stays what it is but for its parts.
pub open spec fn carried_parts(
    x: ExprView,
    y: ExprView,
) -> bool
    decreases x, 0int,
{
    match (x, y) {
        (ExprView::Ident(i), ExprView::Ident(j)) => i == j,
        (ExprView::Str(o, a), ExprView::Str(p, b)) => o == p && a == b,
        (ExprView::Member(m), ExprView::Member(n)) => m.origin == n.origin && m.prop == n.prop
            && carried_expr(*m.obj, *n.obj),
        (ExprView::OptMember(m), ExprView::OptMember(n)) => m.origin == n.origin
            && m.prop == n.prop && carried_expr(*m.obj, *n.obj),
        (ExprView::Fn(f), ExprView::Fn(g)) => (f.ident == g.ident || f.ident is None)
            && carried_function(f.function, g.function),
        (ExprView::Arrow(a), ExprView::Arrow(b)) => carried_arrow(a, b),
        (ExprView::Call(f, v), ExprView::Call(g, w)) => carried_expr(*f, *g) && carried_exprs(v, w),
        (ExprView::Assign(a, b), ExprView::Assign(p, q)) => carried_expr(*a, *p)
            && carried_expr(*b, *q),
        (ExprView::Define(i, a), ExprView::Define(j, b)) => i == j && carried_expr(*a, *b),
        (ExprView::Paren(a), ExprView::Paren(b)) => carried_expr(*a, *b),
        (ExprView::Array(v), ExprView::Array(w)) => carried_exprs(v, w),
        (ExprView::Index(a, i), ExprView::Index(b, j)) => i == j && carried_expr(*a, *b),
        (ExprView::Other(a), ExprView::Other(b)) => carried_other(a, b),
        _ => false,
    }
}

/// A function is carried over: it stays what it is but for its parts, or it has
/// the directive and its body is replaced by a call.
pub open spec fn carried_function(x: FunctionView, y: FunctionView) -> bool
    decreases x, 1int,
{
    &&& x.span == y.span
    &&& x.is_async == y.is_async
    &&& x.is_generator == y.is_generator
    &&& carried_params(x.params, y.params)
    &&& carried_decorators(x.decorators, y.decorators)
    &&& match (x.body, y.body) {
        (Some(a), Some(b)) => {
            ||| x.origin == y.origin && carried_block(a, b)
            ||| marked(a.stmts) && y.origin == Origin::Synthetic && b.stmts.len() == 1
                && b.stmts[0] is Return
        },
        (None, None) => x.origin == y.origin,
        _ => false,
    }
}

pub open spec fn carried_block(
    x: BlockView,
    y: BlockView,
) -> bool
    decreases x, 1int,
{
    x.origin == y.origin && carried_stmts(x.stmts, y.stmts)
}

pub open spec fn carried_arrow(x: ArrowView, y: ArrowView) -> bool
    decreases x, 1int,
{
    &&& x.origin == y.origin
    &&& x.span == y.span
    &&& x.is_async == y.is_async
    &&& x.is_generator == y.is_generator
    &&& carried_pats(x.params, y.params)
    &&& carried_arrow_body(x.body, y.body)
}

pub open spec fn carried_arrow_body(x: ArrowBodyView, y: ArrowBodyView) -> bool
    decreases x, 1int,
{
    match (x, y) {
        (ArrowBodyView::Block(a), ArrowBodyView::Block(b)) => carried_block(a, b),
        (ArrowBodyView::Expr(a), ArrowBodyView::Expr(b)) => carried_expr(*a, *b),
        _ => false,
    }
}

pub open spec fn carried_param(
    x: ParamView,
    y: ParamView,
) -> bool
    decreases x, 1int,
{
    &&& x.origin == y.origin
    &&& carried_decorators(x.decorators, y.decorators)
    &&& carried_pat(x.pat, y.pat)
}

pub open spec fn carried_pat(
    x: PatView,
    y: PatView,
) -> bool
    decreases x, 1int,
{
    x.origin == y.origin && x.form == y.form && carried_exprs(x.exprs, y.exprs)
}

pub open spec fn carried_decorator(
    x: DecoratorView,
    y: DecoratorView,
) -> bool
    decreases x, 1int,
{
    x.origin == y.origin && carried_expr(x.expr, y.expr)
}

pub open spec fn carried_stmt(
    x: StmtView,
    y: StmtView,
) -> bool
    decreases x, 1int,
{
    match (x, y) {
        (StmtView::Expr(o, a), StmtView::Expr(p, b)) => o == p && carried_expr(*a, *b),
        (StmtView::Decl(a), StmtView::Decl(b)) => carried_decl(a, b),
        (StmtView::Return(a), StmtView::Return(b)) => carried_expr(*a, *b),
        (StmtView::Other(a), StmtView::Other(b)) => carried_other(a, b),
        _ => false,
    }
}

pub open spec fn carried_decl(
    x: DeclView,
    y: DeclView,
) -> bool
    decreases x, 1int,
{
    match (x, y) {
        (DeclView::Fn(f), DeclView::Fn(g)) => f.origin == g.origin && f.ident == g.ident
            && carried_function(f.function, g.function),
        (DeclView::Var(v), DeclView::Var(w)) => v.origin == w.origin && v.kind == w.kind
            && carried_declarators(v.decls, w.decls),
        (DeclView::Other(a), DeclView::Other(b)) => carried_other(a, b),
        _ => false,
    }
}

pub open spec fn carried_declarator(
    x: DeclaratorView,
    y: DeclaratorView,
) -> bool
    decreases x, 1int,
{
    &&& x.origin == y.origin
    &&& carried_pat(x.name, y.name)
    &&& match (x.init, y.init) {
        (Some(a), Some(b)) => carried_expr(*a, *b),
        (None, None) => true,
        _ => false,
    }
}

pub open spec fn carried_prop(
    x: PropView,
    y: PropView,
) -> bool
    decreases x, 4int,
{
    match (x, y) {
        (PropView::Shorthand(i), PropView::Shorthand(j)) => i == j,
        (PropView::KeyValue(i, a), PropView::KeyValue(j, b)) => i == j && carried_expr(*a, *b),
        (PropView::Other(a), PropView::Other(b)) => carried_other(a, b),
        _ => false,
    }
}

pub open spec fn carried_other(
    x: OtherView,
    y: OtherView,
) -> bool
    decreases x, 1int,
{
    x.source == y.source && carried_nodes(x.kids, y.kids)
}

pub open spec fn carried_node(
    x: NodeView,
    y: NodeView,
) -> bool
    decreases x, 5int,
{
    match (x, y) {
        (NodeView::Expr(a), NodeView::Expr(b)) => carried_expr(a, b),
        (NodeView::Stmt(a), NodeView::Stmt(b)) => carried_stmt(a, b),
        (NodeView::Stmts(a), NodeView::Stmts(b)) => carried_stmts(a, b),
        (NodeView::Param(a), NodeView::Param(b)) => carried_param(a, b),
        (NodeView::Prop(a), NodeView::Prop(b)) => carried_prop(a, b),
        (NodeView::Items(a), NodeView::Items(b)) => carried_items(a, b),
        _ => false,
    }
}

pub open spec fn carried_item(
    x: ModuleItemView,
    y: ModuleItemView,
) -> bool
    decreases x, 1int,
{
    match (x, y) {
        (ModuleItemView::Stmt(a), ModuleItemView::Stmt(b)) => carried_stmt(a, b),
        (ModuleItemView::ExportDecl(s, a), ModuleItemView::ExportDecl(t, b)) => s == t
            && carried_decl(a, b),
        (ModuleItemView::ExportNamed(m), ModuleItemView::ExportNamed(n)) =>
            n == (NamedExportView { rest: n.rest, ..m }) && carried_other(m.rest, n.rest),
        (
            ModuleItemView::ExportDefaultDecl(s, DefaultDeclView::Fn(f)),
            ModuleItemView::ExportDefaultDecl(t, DefaultDeclView::Fn(g)),
        ) => s == t && (f.ident == g.ident || f.ident is None)
            && carried_function(f.function, g.function),
        (
            ModuleItemView::ExportDefaultDecl(s, DefaultDeclView::Other(a)),
            ModuleItemView::ExportDefaultDecl(t, DefaultDeclView::Other(b)),
        ) => s == t && carried_other(a, b),
        (ModuleItemView::ExportDefaultExpr(s, a), ModuleItemView::ExportDefaultExpr(t, b)) => s == t
            && (carried_expr(*a, *b) || (lacks_name(x) && match *b {
            ExprView::Paren(p) => match *p {
                ExprView::Define(_, c) => carried_expr(*a, *c),
                _ => false,
            },
            _ => false,
        })),
        (ModuleItemView::ExportAll(s, a), ModuleItemView::ExportAll(t, b)) => s == t
            && carried_other(a, b),
        (ModuleItemView::Other(a), ModuleItemView::Other(b)) => carried_other(a, b),
        _ => false,
    }
}

pub open spec fn carried_exprs(
    x: Seq<ExprView>,
    y: Seq<ExprView>,
) -> bool
    decreases x, 6int,
{
    x.len() == y.len() && forall|i: int|
        0 <= i < x.len() ==> carried_expr(#[trigger] x[i], y[i])
}

pub open spec fn carried_params(
    x: Seq<ParamView>,
    y: Seq<ParamView>,
) -> bool
    decreases x, 6int,
{
    x.len() == y.len() && forall|i: int|
        0 <= i < x.len() ==> carried_param(#[trigger] x[i], y[i])
}

pub open spec fn carried_decorators(
    x: Seq<DecoratorView>,
    y: Seq<DecoratorView>,
) -> bool
    decreases x, 6int,
{
    x.len() == y.len() && forall|i: int|
        0 <= i < x.len() ==> carried_decorator(#[trigger] x[i], y[i])
}

pub open spec fn carried_pats(
    x: Seq<PatView>,
    y: Seq<PatView>,
) -> bool
    decreases x, 6int,
{
    x.len() == y.len() && forall|i: int|
        0 <= i < x.len() ==> carried_pat(#[trigger] x[i], y[i])
}

pub open spec fn carried_declarators(
    x: Seq<DeclaratorView>,
    y: Seq<DeclaratorView>,
) -> bool
    decreases x, 6int,
{
    x.len() == y.len() && forall|i: int|
        0 <= i < x.len() ==> carried_declarator(#[trigger] x[i], y[i])
}

pub open spec fn carried_nodes(
    x: Seq<NodeView>,
    y: Seq<NodeView>,
) -> bool
    decreases x, 6int,
{
    x.len() == y.len() && forall|i: int|
        0 <= i < x.len() ==> carried_node(#[trigger] x[i], y[i])
}

/// A list of statements is carried over: all of them but the directive stand in the
/// new list in the same order, and what else stands there was written for
/// actions.
pub open spec fn carried_stmts(x: Seq<StmtView>, y: Seq<StmtView>) -> bool
    decreases x, 7int,
{
    exists|at: Seq<int>|
        #[trigger] places(at, x.len(), y.len()) && carried_stmts_at(x, y, at)
}

/// A list is carried over to the given places, where a negative one stands for
/// the directive.
pub open spec fn carried_stmts_at(x: Seq<StmtView>, y: Seq<StmtView>, at: Seq<int>) -> bool
    decreases x, 6int,
{
    &&& places(at, x.len(), y.len())
    &&& forall|i: int|
        #![trigger x[i]]
        0 <= i < x.len() ==> if at[i] < 0 {
            marked_at(x, i)
        } else {
            carried_stmt(x[i], y[at[i]])
        }
    &&& forall|j: int|
        0 <= j < y.len() ==> at.contains(j) || written_stmt(#[trigger] y[j])
}

/// A list of items is carried over: all of them but the directive stand in the
/// new list in the same order, and what else stands there was written for
/// actions.
pub open spec fn carried_items(x: Seq<ModuleItemView>, y: Seq<ModuleItemView>) -> bool
    decreases x, 7int,
{
    exists|at: Seq<int>|
        #[trigger] places(at, x.len(), y.len()) && carried_items_at(x, y, at)
}

/// A list is carried over to the given places, where a negative one stands for
/// the directive.
pub open spec fn carried_items_at(
    x: Seq<ModuleItemView>,
    y: Seq<ModuleItemView>,
    at: Seq<int>,
) -> bool
    decreases x, 6int,
{
    &&& places(at, x.len(), y.len())
    &&& forall|i: int|
        #![trigger x[i]]
        0 <= i < x.len() ==> if at[i] < 0 {
            file_marked_at(x, i)
        } else {
            carried_item(x[i], y[at[i]])
        }
    &&& forall|j: int|
        0 <= j < y.len() ==> at.contains(j) || written_item(#[trigger] y[j])
}

// ---- Lists ----

proof fn no_stmts_written()
    ensures
        written_stmts(Seq::<StmtView>::empty()),
        written_items(Seq::<ModuleItemView>::empty()),
{
    reveal(written_stmts);
    reveal(written_items);
}

proof fn stmt_added(
    x: Seq<StmtView>,
    y: Seq<StmtView>,
    at: Seq<int>,
    a: StmtView,
    b: StmtView,
    more: Seq<StmtView>,
)
    requires
        carried_stmts_at(x, y, at),
        forall|i: int| 0 <= i < at.len() ==> #[trigger] at[i] >= 0,
        carried_stmt(a, b),
        written_stmts(more),
    ensures
        carried_stmts_at(x.push(a), y.push(b) + more, at.push(y.len() as int)),
{
    reveal(written_stmts);
    let x1 = x.push(a);
    let y1 = y.push(b) + more;
    let at1 = at.push(y.len() as int);
    assert forall|i: int|
        #![trigger x1[i]]
        0 <= i < x1.len() implies if at1[i] < 0 {
        marked_at(x1, i)
    } else {
        carried_stmt(x1[i], y1[at1[i]])
    } by {
        if i < x.len() {
            assert(x1[i] == x[i]);
            assert(at[i] >= 0);
            assert(y1[at1[i]] == y[at[i]]);
        }
    }
    assert forall|j: int| 0 <= j < y1.len() implies at1.contains(j) || written_stmt(
        #[trigger] y1[j],
    ) by {
        if j < y.len() {
            assert(y1[j] == y[j]);
            if at.contains(j) {
                let i = choose|i: int| 0 <= i < at.len() && at[i] == j;
                assert(at1[i] == j);
            }
        } else if j == y.len() {
            assert(at1[x.len() as int] == j);
        } else {
            assert(y1[j] == more[j - y.len() - 1]);
        }
    }
}

proof fn item_added(
    x: Seq<ModuleItemView>,
    y: Seq<ModuleItemView>,
    at: Seq<int>,
    a: ModuleItemView,
    b: ModuleItemView,
    more: Seq<ModuleItemView>,
)
    requires
        carried_items_at(x, y, at),
        forall|i: int| 0 <= i < at.len() ==> #[trigger] at[i] >= 0,
        carried_item(a, b),
        written_items(more),
    ensures
        carried_items_at(x.push(a), y.push(b) + more, at.push(y.len() as int)),
{
    reveal(written_items);
    let x1 = x.push(a);
    let y1 = y.push(b) + more;
    let at1 = at.push(y.len() as int);
    assert forall|i: int|
        #![trigger x1[i]]
        0 <= i < x1.len() implies if at1[i] < 0 {
        file_marked_at(x1, i)
    } else {
        carried_item(x1[i], y1[at1[i]])
    } by {
        if i < x.len() {
            assert(x1[i] == x[i]);
            assert(at[i] >= 0);
            assert(y1[at1[i]] == y[at[i]]);
        }
    }
    assert forall|j: int| 0 <= j < y1.len() implies at1.contains(j) || written_item(
        #[trigger] y1[j],
    ) by {
        if j < y.len() {
            assert(y1[j] == y[j]);
            if at.contains(j) {
                let i = choose|i: int| 0 <= i < at.len() && at[i] == j;
                assert(at1[i] == j);
            }
        } else if j == y.len() {
            assert(at1[x.len() as int] == j);
        } else {
            assert(y1[j] == more[j - y.len() - 1]);
        }
    }
}

proof fn items_written_behind(
    x: Seq<ModuleItemView>,
    y: Seq<ModuleItemView>,
    at: Seq<int>,
    more: Seq<ModuleItemView>,
)
    requires
        carried_items_at(x, y, at),
        written_items(more),
    ensures
        carried_items_at(x, y + more, at),
{
    reveal(written_items);
    let y1 = y + more;
    assert forall|i: int|
        #![trigger x[i]]
        0 <= i < x.len() implies if at[i] < 0 {
        file_marked_at(x, i)
    } else {
        carried_item(x[i], y1[at[i]])
    } by {
        if at[i] >= 0 {
            assert(y1[at[i]] == y[at[i]]);
        }
    }
    assert forall|j: int| 0 <= j < y1.len() implies at.contains(j) || written_item(
        #[trigger] y1[j],
    ) by {
        if j < y.len() {
            assert(y1[j] == y[j]);
        } else {
            assert(y1[j] == more[j - y.len()]);
        }
    }
}

proof fn stmt_dropped(x: Seq<StmtView>, k: int, y: Seq<StmtView>, at: Seq<int>)
    requires
        marked_at(x, k),
        0 <= k < x.len(),
        carried_stmts_at(x.remove(k), y, at),
        forall|i: int| 0 <= i < at.len() ==> #[trigger] at[i] >= 0,
    ensures
        carried_stmts(x, y),
{
    let x0 = x.remove(k);
    let at1 = at.insert(k, -1);
    assert forall|i: int|
        #![trigger x[i]]
        0 <= i < x.len() implies if at1[i] < 0 {
        marked_at(x, i)
    } else {
        carried_stmt(x[i], y[at1[i]])
    } by {
        if i < k {
            assert(x0[i] == x[i]);
            assert(at1[i] == at[i]);
        } else if i > k {
            assert(x0[i - 1] == x[i]);
            assert(at1[i] == at[i - 1]);
        }
    }
    assert forall|j: int| 0 <= j < y.len() implies at1.contains(j) || written_stmt(
        #[trigger] y[j],
    ) by {
        if at.contains(j) {
            let i = choose|i: int| 0 <= i < at.len() && at[i] == j;
            if i < k {
                assert(at1[i] == j);
            } else {
                assert(at1[i + 1] == j);
            }
        }
    }
    assert(carried_stmts_at(x, y, at1));
    assert(places(at1, x.len(), y.len()));
}

proof fn item_dropped(
    x: Seq<ModuleItemView>,
    k: int,
    y: Seq<ModuleItemView>,
    at: Seq<int>,
)
    requires
        file_marked_at(x, k),
        0 <= k < x.len(),
        carried_items_at(x.remove(k), y, at),
        forall|i: int| 0 <= i < at.len() ==> #[trigger] at[i] >= 0,
    ensures
        carried_items(x, y),
{
    let x0 = x.remove(k);
    let at1 = at.insert(k, -1);
    assert forall|i: int|
        #![trigger x[i]]
        0 <= i < x.len() implies if at1[i] < 0 {
        file_marked_at(x, i)
    } else {
        carried_item(x[i], y[at1[i]])
    } by {
        if i < k {
            assert(x0[i] == x[i]);
            assert(at1[i] == at[i]);
        } else if i > k {
            assert(x0[i - 1] == x[i]);
            assert(at1[i] == at[i - 1]);
        }
    }
    assert forall|j: int| 0 <= j < y.len() implies at1.contains(j) || written_item(
        #[trigger] y[j],
    ) by {
        if at.contains(j) {
            let i = choose|i: int| 0 <= i < at.len() && at[i] == j;
            if i < k {
                assert(at1[i] == j);
            } else {
                assert(at1[i + 1] == j);
            }
        }
    }
    assert(carried_items_at(x, y, at1));
    assert(places(at1, x.len(), y.len()));
}

proof fn flushed_is_written(s: State)
    requires
        tidy(s),
    ensures
        written_items(as_items(s.annotations) + s.extra_items),
{
    reveal(written_items);
    reveal(written_stmts);
    let more = as_items(s.annotations) + s.extra_items;
    assert forall|i: int| 0 <= i < more.len() implies written_item(#[trigger] more[i]) by {
        if i < s.annotations.len() {
            assert(more[i] == ModuleItemView::Stmt(s.annotations[i]));
            assert(written_stmt(s.annotations[i]));
        } else {
            assert(more[i] == s.extra_items[i - s.annotations.len()]);
        }
    }
}

// ---- Actions ----

proof fn annotations_are_written(
    v: Seq<StmtView>,
    name: IdentView,
    bound: Seq<ExprView>,
    file_name: Seq<char>,
    export_name: Seq<char>,
)
    requires
        written_stmts(v),
    ensures
        written_stmts(v + action_annotations(name, bound, file_name, export_name)),
{
    reveal(written_stmts);
}

proof fn add_action_carry(s: State, ident: IdentView, c: CallableView)
    requires
        tidy(s),
    ensures
        tidy(add_action(s, ident, c).0),
{
    reveal(add_action);
    reveal(written_items);
    let name = export_name(s);
    annotations_are_written(s.annotations, ident, Seq::empty(), s.file_name, name);
    annotations_are_written(s.annotations, ident, exprs_of(captures(s)), s.file_name, name);
}

proof fn action_is_marked(s: State, body: Option<BlockView>)
    requires
        is_action(s, body),
        !s.in_action_file || action_directive(s, body) is Some,
    ensures
        marked_body(body),
{
    if let Some(b) = body {
        directive_is_where_marked(b.stmts, 0);
    }
}

proof fn finish_function_carry(
    x: FunctionView,
    s: State,
    span: Span,
    ident: IdentView,
    f: FunctionView,
)
    requires
        tidy(s),
        carried_function(x, f),
        s.in_action_file || marked_body(x.body),
    ensures
        tidy(finish_function(s, span, ident, f).0),
        carried_function(x, finish_function(s, span, ident, f).1),
{
    reveal(finish_function);
    if f.is_async && !s.in_action_file {
        add_action_carry(s, ident, CallableView::Function(f));
        reveal(add_action);
    }
}

proof fn finish_expr_carry(s: State, e: ExprView)
    requires
        tidy(visit_expr_children(s, e).0),
        carried_parts(e, visit_expr_children(s, e).1),
    ensures
        ({
            let (s1, e1) = visit_expr_children(s, e);
            let (t, e2) = finish_expr(s1, e1);
            tidy(t) && carried_expr(e, e2)
        }),
{
    let (s1, e1) = visit_expr_children(s, e);
    reveal(finish_expr);
    if let ExprView::Arrow(a) = e {
        let a1 = visit_arrow(s, a).1;
        assert(e1 == ExprView::Arrow(a1));
        arrow_stays_marked(s, a);
        if !s1.in_action_file && is_action(s1, arrow_block(a1)) {
            action_is_marked(s1, arrow_block(a1));
            reveal(finish_arrow);
            let s2 = take_ident(s1);
            let ident = action_ident(s1.ident_cnt);
            let c = CallableView::Arrow(without_directive(a1));
            add_action_carry(s2, ident, c);
            reveal(add_action);
            reveal(written_items);
        }
    }
}

proof fn note_exports_carry(s: State, item: ModuleItemView)
    requires
        tidy(s),
    ensures
        tidy(note_exports(s, item)),
        default_name(s, item) is Some ==> lacks_name(item),
{
    reveal(note_exports);
    reveal(written_items);
}

proof fn export_annotations_are_written(file_name: Seq<char>, exports: Seq<(IdView, Seq<char>)>)
    ensures
        written_stmts(export_annotations(file_name, exports)),
    decreases exports.len(),
{
    no_stmts_written();
    if exports.len() != 0 {
        export_annotations_are_written(file_name, exports.drop_last());
        annotations_are_written(
            export_annotations(file_name, exports.drop_last()),
            ident_of_id(exports.last().0),
            Seq::empty(),
            file_name,
            exports.last().1,
        );
    }
}

proof fn leave_items_carry(
    s: State,
    outer: Seq<StmtView>,
    x: Seq<ModuleItemView>,
    y: Seq<ModuleItemView>,
    at: Seq<int>,
)
    requires
        tidy(s),
        written_stmts(outer),
        carried_items_at(x, y, at),
    ensures
        tidy(leave_items(s, outer, y).0),
        carried_items_at(x, leave_items(s, outer, y).1, at),
{
    reveal(leave_items);
    no_stmts_written();
    if s.in_action_file {
        let notes = export_annotations(s.file_name, s.exported_idents);
        let s1 = State { annotations: s.annotations + notes, ..s };
        export_annotations_are_written(s.file_name, s.exported_idents);
        assert(written_stmts(s1.annotations)) by {
            reveal(written_stmts);
        }
        flushed_is_written(s1);
        let more = as_items(s1.annotations) + s1.extra_items;
        items_written_behind(x, y, at, more);
        assert(y + as_items(s1.annotations) + s1.extra_items =~= y + more);
    }
}

// ---- The walk ----

proof fn carry_expr(s: State, e: ExprView)
    requires
        tidy(s),
    ensures
        tidy(visit_expr(s, e).0),
        carried_expr(e, visit_expr(s, e).1),
    decreases e, 2int,
{
    if collects_names(s) && name_of(e) is Some {
        let s1 = State {
            scope: Scope { in_action_closure: false, ..s.scope },
            ..use_name(s, name_of(e)->0)
        };
        carry_expr_children(s1, e);
    } else {
        carry_expr_children(s, e);
        finish_expr_carry(s, e);
    }
}

proof fn carry_expr_children(s: State, e: ExprView)
    requires
        tidy(s),
    ensures
        tidy(visit_expr_children(s, e).0),
        carried_parts(e, visit_expr_children(s, e).1),
    decreases e, 1int,
{
    match e {
        ExprView::Ident(_) => {},
        ExprView::Str(_, _) => {},
        ExprView::Member(m) => {
            carry_member(s, m);
        },
        ExprView::OptMember(m) => {
            carry_member(s, m);
        },
        ExprView::Fn(f) => {
            carry_fn_expr(s, f.ident, f.function);
        },
        ExprView::Arrow(a) => {
            carry_arrow(s, a);
        },
        ExprView::Call(callee, args) => {
            carry_expr(s, *callee);
            let s1 = visit_expr(s, *callee).0;
            carry_exprs(s1, args);
        },
        ExprView::Assign(target, value) => {
            carry_expr(s, *target);
            let s1 = visit_expr(s, *target).0;
            carry_expr(s1, *value);
        },
        ExprView::Define(_, value) => {
            carry_expr(s, *value);
        },
        ExprView::Paren(inner) => {
            carry_expr(s, *inner);
        },
        ExprView::Array(elems) => {
            carry_exprs(s, elems);
        },
        ExprView::Index(obj, _) => {
            carry_expr(s, *obj);
        },
        ExprView::Other(o) => {
            carry_other(s, o);
        },
    }
}

proof fn carry_member(s: State, m: MemberView)
    requires
        tidy(s),
    ensures
        tidy(visit_member(s, m).0),
        visit_member(s, m).1.origin == m.origin && visit_member(s, m).1.prop == m.prop
            && carried_expr(*m.obj, *visit_member(s, m).1.obj),
    decreases m, 0int,
{
    carry_expr(s, *m.obj);
}

proof fn carry_opt_expr(s: State, e: Option<Box<ExprView>>)
    requires
        tidy(s),
    ensures
        tidy(visit_opt_expr(s, e).0),
        match (e, visit_opt_expr(s, e).1) {
            (Some(a), Some(b)) => carried_expr(*a, *b),
            (None, None) => true,
            _ => false,
        },
    decreases e, 3int,
{
    if let Some(inner) = e {
        carry_expr(s, *inner);
    }
}

proof fn carry_fn_expr(s: State, ident: Option<IdentView>, f: FunctionView)
    requires
        tidy(s),
    ensures
        tidy(visit_fn_expr(s, ident, f).0),
        carried_function(f, visit_fn_expr(s, ident, f).1.function)
            && (visit_fn_expr(s, ident, f).1.ident == ident || ident is None),
    decreases f, 2int,
{
    carry_function(s, f);
    let (s1, f1) = visit_function(s, f);
    visit_function_extends(s, f);
    if is_action(s, f.body) {
        let (s2, ident2) = name_action(s1, ident, f1);
        if !s1.in_action_file {
            action_is_marked(s, f.body);
        }
        finish_function_carry(f, s2, f1.span, ident2->0, f1);
    }
}

proof fn carry_fn_decl(s: State, d: FnDeclView)
    requires
        tidy(s),
    ensures
        tidy(visit_fn_decl(s, d).0),
        carried_function(d.function, visit_fn_decl(s, d).1.function)
            && visit_fn_decl(s, d).1.ident == d.ident && visit_fn_decl(s, d).1.origin == d.origin,
    decreases d, 0int,
{
    carry_function(s, d.function);
    let (s1, f1) = visit_function(s, d.function);
    visit_function_extends(s, d.function);
    if is_action(s, d.function.body) {
        if !s1.in_action_file {
            action_is_marked(s, d.function.body);
        }
        finish_function_carry(d.function, s1, d.ident.span, d.ident, f1);
    }
}

proof fn carry_function(s: State, f: FunctionView)
    requires
        tidy(s),
    ensures
        tidy(visit_function(s, f).0),
        carried_function(f, visit_function(s, f).1) && visit_function(s, f).1.origin == f.origin,
    decreases f, 1int,
{
    let s0 = enter_function(s, is_action(s, f.body));
    if action_directive(s, f.body) is Some {
        action_is_marked(s, f.body);
        directive_is_where_marked(f.body->0.stmts, action_directive(s, f.body)->0);
    }
    carry_function_parts(s0, f, action_directive(s, f.body));
}

proof fn carry_function_parts(s: State, f: FunctionView, directive: Option<int>)
    requires
        tidy(s),
        directive matches Some(k) ==> (f.body is Some && marked_at(f.body->0.stmts, k)),
    ensures
        ({
            let (s1, params) = visit_params(s, f.params);
            let (s2, decorators) = visit_decorators(s1, f.decorators);
            let (s3, body) = visit_fn_body(s2, f.body, directive);
            tidy(s3) && carried_params(f.params, params)
                && carried_decorators(f.decorators, decorators) && (match (f.body, body) {
                (Some(a), Some(b)) => carried_block(a, b),
                (None, None) => true,
                _ => false,
            })
        }),
    decreases f, 0int,
{
    carry_params(s, f.params);
    let s1 = visit_params(s, f.params).0;
    carry_decorators(s1, f.decorators);
    let s2 = visit_decorators(s1, f.decorators).0;
    carry_fn_body(s2, f.body, directive);
}

proof fn carry_fn_body(s: State, body: Option<BlockView>, directive: Option<int>)
    requires
        tidy(s),
        directive matches Some(k) ==> (body is Some && marked_at(body->0.stmts, k)),
    ensures
        tidy(visit_fn_body(s, body, directive).0),
        match (body, visit_fn_body(s, body, directive).1) {
            (Some(a), Some(b)) => carried_block(a, b),
            (None, None) => true,
            _ => false,
        },
    decreases body, 0int,
{
    if let Some(b) = body {
        without_decreases(b.stmts, directive);
        let w = without(b.stmts, directive);
        carry_stmts(s, w);
        let out = visit_stmts(s, w).1;
        if let Some(k) = directive {
            no_stmts_written();
            let at = carry_stmts_in_turn(State { annotations: Seq::empty(), ..s }, w);
            stmt_dropped(b.stmts, k, out, at);
        }
    }
}

proof fn carry_arrow(s: State, a: ArrowView)
    requires
        tidy(s),
    ensures
        tidy(visit_arrow(s, a).0),
        carried_arrow(a, visit_arrow(s, a).1),
    decreases a, 1int,
{
    let s0 = enter_function(s, is_action(s, arrow_block(a)));
    carry_arrow_parts(s0, a);
}

proof fn carry_arrow_parts(s: State, a: ArrowView)
    requires
        tidy(s),
    ensures
        ({
            let (s1, params) = visit_pats(s, a.params);
            let (s2, body) = visit_arrow_body(s1, a.body);
            tidy(s2) && carried_pats(a.params, params) && carried_arrow_body(a.body, body)
        }),
    decreases a, 0int,
{
    carry_pats(s, a.params);
    let s1 = visit_pats(s, a.params).0;
    carry_arrow_body(s1, a.body);
}

proof fn carry_arrow_body(s: State, body: ArrowBodyView)
    requires
        tidy(s),
    ensures
        tidy(visit_arrow_body(s, body).0),
        carried_arrow_body(body, visit_arrow_body(s, body).1),
    decreases body, 0int,
{
    match body {
        ArrowBodyView::Block(b) => {
            carry_stmts(s, b.stmts);
        },
        ArrowBodyView::Expr(e) => {
            carry_expr(s, *e);
        },
    }
}

proof fn carry_param(s: State, p: ParamView)
    requires
        tidy(s),
    ensures
        tidy(visit_param(s, p).0),
        carried_param(p, visit_param(s, p).1),
    decreases p, 1int,
{
    carry_decorators(s, p.decorators);
    let s1 = visit_decorators(s, p.decorators).0;
    carry_pat(s1, p.pat);
}

proof fn carry_pat(s: State, p: PatView)
    requires
        tidy(s),
    ensures
        tidy(visit_pat(s, p).0),
        carried_pat(p, visit_pat(s, p).1),
    decreases p, 1int,
{
    carry_exprs(s, p.exprs);
}

proof fn carry_decorator(s: State, d: DecoratorView)
    requires
        tidy(s),
    ensures
        tidy(visit_decorator(s, d).0),
        carried_decorator(d, visit_decorator(s, d).1),
    decreases d, 1int,
{
    carry_expr(s, d.expr);
}

proof fn carry_stmt(s: State, stmt: StmtView)
    requires
        tidy(s),
    ensures
        tidy(visit_stmt(s, stmt).0),
        carried_stmt(stmt, visit_stmt(s, stmt).1),
    decreases stmt, 2int,
{
    carry_stmt_children(s, stmt);
}

proof fn carry_stmt_children(s: State, stmt: StmtView)
    requires
        tidy(s),
    ensures
        tidy(visit_stmt_children(s, stmt).0),
        carried_stmt(stmt, visit_stmt_children(s, stmt).1),
    decreases stmt, 1int,
{
    match stmt {
        StmtView::Expr(_, e) => {
            carry_expr(s, *e);
        },
        StmtView::Decl(d) => {
            carry_decl(s, d);
        },
        StmtView::Return(e) => {
            carry_expr(s, *e);
        },
        StmtView::Other(o) => {
            carry_other(s, o);
        },
    }
}

proof fn carry_decl(s: State, d: DeclView)
    requires
        tidy(s),
    ensures
        tidy(visit_decl(s, d).0),
        carried_decl(d, visit_decl(s, d).1),
    decreases d, 1int,
{
    match d {
        DeclView::Fn(f) => {
            carry_fn_decl(s, f);
        },
        DeclView::Var(v) => {
            carry_declarators(s, v.decls);
        },
        DeclView::Other(o) => {
            carry_other(s, o);
        },
    }
}

proof fn carry_declarator(s: State, d: DeclaratorView)
    requires
        tidy(s),
    ensures
        tidy(visit_declarator(s, d).0),
        carried_declarator(d, visit_declarator(s, d).1),
    decreases d, 1int,
{
    carry_pat(s, d.name);
    let s1 = visit_pat(s, d.name).0;
    carry_opt_expr(s1, d.init);
}

proof fn carry_prop(s: State, p: PropView)
    requires
        tidy(s),
    ensures
        tidy(visit_prop(s, p).0),
        carried_prop(p, visit_prop(s, p).1),
    decreases p, 1int,
{
    match p {
        PropView::Shorthand(_) => {},
        PropView::KeyValue(_, value) => {
            carry_expr(s, *value);
        },
        PropView::Other(o) => {
            carry_other(s, o);
        },
    }
}

proof fn carry_other(s: State, o: OtherView)
    requires
        tidy(s),
    ensures
        tidy(visit_other(s, o).0),
        carried_other(o, visit_other(s, o).1),
    decreases o, 1int,
{
    carry_nodes(s, o.kids);
}

proof fn carry_node(s: State, n: NodeView)
    requires
        tidy(s),
    ensures
        tidy(visit_node(s, n).0),
        carried_node(n, visit_node(s, n).1),
    decreases n, 1int,
{
    match n {
        NodeView::Expr(e) => {
            carry_expr(s, e);
        },
        NodeView::Stmt(stmt) => {
            carry_stmt(s, stmt);
        },
        NodeView::Stmts(v) => {
            carry_stmts(s, v);
        },
        NodeView::Param(p) => {
            carry_param(s, p);
        },
        NodeView::Prop(p) => {
            carry_prop(s, p);
        },
        NodeView::Items(v) => {
            carry_items(s, v);
        },
    }
}

proof fn carry_stmts(s: State, v: Seq<StmtView>)
    requires
        tidy(s),
    ensures
        tidy(visit_stmts(s, v).0),
        carried_stmts(v, visit_stmts(s, v).1),
    decreases v, 5int,
{
    let s0 = State { annotations: Seq::empty(), ..s };
    no_stmts_written();
    let at = carry_stmts_in_turn(s0, v);
    assert(carried_stmts_at(v, visit_stmts(s, v).1, at));
}

proof fn carry_stmts_in_turn(s: State, v: Seq<StmtView>) -> (at: Seq<int>)
    requires
        tidy(s),
    ensures
        tidy(visit_stmts_in_turn(s, v).0),
        carried_stmts_at(v, visit_stmts_in_turn(s, v).1, at),
        forall|i: int| 0 <= i < at.len() ==> #[trigger] at[i] >= 0,
    decreases v, 4int,
{
    no_stmts_written();
    if v.len() != 0 {
        let at0 = carry_stmts_in_turn(s, v.drop_last());
        let (s1, init) = visit_stmts_in_turn(s, v.drop_last());
        let t = State { top_level: false, ..s1 };
        carry_stmt(t, v.last());
        let (s2, stmt) = visit_stmt(t, v.last());
        stmt_added(v.drop_last(), init, at0, v.last(), stmt, s2.annotations);
        assert(v.drop_last().push(v.last()) =~= v);
        at0.push(init.len() as int)
    } else {
        let at = Seq::<int>::empty();
        assert(carried_stmts_at(v, Seq::<StmtView>::empty(), at));
        at
    }
}

proof fn carry_items(s: State, v: Seq<ModuleItemView>)
    requires
        tidy(s),
    ensures
        tidy(visit_items(s, v).0),
        carried_items(v, visit_items(s, v).1),
    decreases v, 5int,
{
    without_decreases(v, module_directive(v));
    let s1 = State { annotations: Seq::empty(), ..enter_items(s, v) };
    let w = without(v, module_directive(v));
    no_stmts_written();
    let at = carry_items_in_turn(s1, w);
    let (s2, v2) = visit_items_in_turn(s1, w);
    leave_items_carry(s2, s.annotations, w, v2, at);
    let out = leave_items(s2, s.annotations, v2).1;
    if module_directive(v) is Some {
        let k = module_directive(v)->0;
        file_directive_is_where_marked(v, 0);
        file_directive_is_where_marked(v, k);
        item_dropped(v, k, out, at);
    } else {
        assert(carried_items_at(v, out, at));
    }
}

#[verifier::rlimit(40)]
proof fn carry_items_in_turn(s: State, v: Seq<ModuleItemView>) -> (at: Seq<int>)
    requires
        tidy(s),
    ensures
        tidy(visit_items_in_turn(s, v).0),
        carried_items_at(v, visit_items_in_turn(s, v).1, at),
        forall|i: int| 0 <= i < at.len() ==> #[trigger] at[i] >= 0,
    decreases v, 4int,
{
    no_stmts_written();
    if v.len() != 0 {
        let at0 = carry_items_in_turn(s, v.drop_last());
        let (s1, init) = visit_items_in_turn(s, v.drop_last());
        let t = State { top_level: true, ..s1 };
        carry_top_item(t, v.last());
        let (s2, item) = visit_top_item(t, v.last());
        let more = as_items(s2.annotations) + s2.extra_items;
        flushed_is_written(s2);
        item_added(v.drop_last(), init, at0, v.last(), item, more);
        assert(v.drop_last().push(v.last()) =~= v);
        assert(visit_items_in_turn(s, v).1 =~= init.push(item) + more);
        at0.push(init.len() as int)
    } else {
        let at = Seq::<int>::empty();
        assert(carried_items_at(v, Seq::<ModuleItemView>::empty(), at));
        at
    }
}

proof fn carry_top_item(s: State, item: ModuleItemView)
    requires
        tidy(s),
    ensures
        tidy(visit_top_item(s, item).0),
        carried_item(item, visit_top_item(s, item).1),
    decreases item, 3int,
{
    if s.in_action_file {
        note_exports_carry(s, item);
        let s1 = note_exports(s, item);
        carry_exported_item(s1, default_name(s, item), item);
    } else {
        carry_item(s, item);
    }
}

proof fn carry_exported_item(s: State, name: Option<IdentView>, item: ModuleItemView)
    requires
        tidy(s),
        name is Some ==> lacks_name(item),
    ensures
        tidy(visit_exported_item(s, name, item).0),
        carried_item(item, visit_exported_item(s, name, item).1),
    decreases item, 2int,
{
    match item {
        ModuleItemView::ExportDefaultDecl(span, DefaultDeclView::Fn(f)) => {
            let ident = if f.ident is Some {
                f.ident
            } else {
                name
            };
            carry_default_fn(s, ident, f.function);
        },
        ModuleItemView::ExportDefaultExpr(span, e) => {
            carry_default_expr(s, *e);
        },
        _ => {
            carry_item(s, item);
        },
    }
}

proof fn carry_export_decl(s: State, d: DeclView)
    requires
        tidy(s),
    ensures
        tidy(visit_export_decl(s, d).0),
        carried_decl(d, visit_export_decl(s, d).1),
    decreases d, 2int,
{
    carry_decl(export_scope(s), d);
}

proof fn carry_default_fn(s: State, ident: Option<IdentView>, f: FunctionView)
    requires
        tidy(s),
    ensures
        tidy(visit_default_fn(s, ident, f).0),
        carried_function(f, visit_default_fn(s, ident, f).1.function)
            && (visit_default_fn(s, ident, f).1.ident == ident || ident is None),
    decreases f, 3int,
{
    carry_fn_expr(default_scope(s), ident, f);
}

proof fn carry_default_decl(s: State, d: DefaultDeclView)
    requires
        tidy(s),
    ensures
        tidy(visit_default_decl(s, d).0),
        match (d, visit_default_decl(s, d).1) {
            (DefaultDeclView::Fn(f), DefaultDeclView::Fn(g)) =>
                (f.ident == g.ident || f.ident is None)
                && carried_function(f.function, g.function),
            (DefaultDeclView::Other(a), DefaultDeclView::Other(b)) => carried_other(a, b),
            _ => false,
        },
    decreases d, 2int,
{
    match d {
        DefaultDeclView::Fn(f) => {
            carry_default_fn(s, f.ident, f.function);
        },
        DefaultDeclView::Other(o) => {
            carry_other(default_scope(s), o);
        },
    }
}

proof fn carry_default_expr(s: State, e: ExprView)
    requires
        tidy(s),
    ensures
        tidy(visit_default_expr(s, e).0),
        carried_expr(e, visit_default_expr(s, e).1),
    decreases e, 3int,
{
    carry_expr(default_scope(s), e);
}

proof fn carry_item(s: State, item: ModuleItemView)
    requires
        tidy(s),
    ensures
        tidy(visit_item(s, item).0),
        carried_item(item, visit_item(s, item).1),
    decreases item, 1int,
{
    match item {
        ModuleItemView::Stmt(stmt) => {
            carry_stmt(s, stmt);
        },
        ModuleItemView::ExportDecl(span, d) => {
            carry_export_decl(s, d);
        },
        ModuleItemView::ExportNamed(n) => {
            carry_other(s, n.rest);
        },
        ModuleItemView::ExportDefaultDecl(span, d) => {
            carry_default_decl(s, d);
        },
        ModuleItemView::ExportDefaultExpr(span, e) => {
            carry_default_expr(s, *e);
        },
        ModuleItemView::ExportAll(span, o) => {
            carry_other(s, o);
        },
        ModuleItemView::Other(o) => {
            carry_other(s, o);
        },
    }
}

proof fn carry_exprs(s: State, v: Seq<ExprView>)
    requires
        tidy(s),
    ensures
        tidy(visit_exprs(s, v).0),
        carried_exprs(v, visit_exprs(s, v).1),
    decreases v, 4int,
{
    if v.len() != 0 {
        carry_exprs(s, v.drop_last());
        let s1 = visit_exprs(s, v.drop_last()).0;
        carry_expr(s1, v.last());
        let w = visit_exprs(s, v).1;
        assert forall|i: int| 0 <= i < v.len() implies carried_expr(#[trigger] v[i], w[i]) by {
            if i < v.len() - 1 {
                assert(carried_expr(v.drop_last()[i], visit_exprs(s, v.drop_last()).1[i]));
            }
        }
    }
}

proof fn carry_params(s: State, v: Seq<ParamView>)
    requires
        tidy(s),
    ensures
        tidy(visit_params(s, v).0),
        carried_params(v, visit_params(s, v).1),
    decreases v, 4int,
{
    if v.len() != 0 {
        carry_params(s, v.drop_last());
        let s1 = visit_params(s, v.drop_last()).0;
        carry_param(s1, v.last());
        let w = visit_params(s, v).1;
        assert forall|i: int| 0 <= i < v.len() implies carried_param(#[trigger] v[i], w[i]) by {
            if i < v.len() - 1 {
                assert(carried_param(v.drop_last()[i], visit_params(s, v.drop_last()).1[i]));
            }
        }
    }
}

proof fn carry_decorators(s: State, v: Seq<DecoratorView>)
    requires
        tidy(s),
    ensures
        tidy(visit_decorators(s, v).0),
        carried_decorators(v, visit_decorators(s, v).1),
    decreases v, 4int,
{
    if v.len() != 0 {
        carry_decorators(s, v.drop_last());
        let s1 = visit_decorators(s, v.drop_last()).0;
        carry_decorator(s1, v.last());
        let w = visit_decorators(s, v).1;
        assert forall|i: int| 0 <= i < v.len() implies carried_decorator(#[trigger] v[i], w[i]) by {
            if i < v.len() - 1 {
                assert(carried_decorator(v.drop_last()[i], visit_decorators(s, v.drop_last()).1[i]));
            }
        }
    }
}

proof fn carry_pats(s: State, v: Seq<PatView>)
    requires
        tidy(s),
    ensures
        tidy(visit_pats(s, v).0),
        carried_pats(v, visit_pats(s, v).1),
    decreases v, 4int,
{
    if v.len() != 0 {
        carry_pats(s, v.drop_last());
        let s1 = visit_pats(s, v.drop_last()).0;
        carry_pat(s1, v.last());
        let w = visit_pats(s, v).1;
        assert forall|i: int| 0 <= i < v.len() implies carried_pat(#[trigger] v[i], w[i]) by {
            if i < v.len() - 1 {
                assert(carried_pat(v.drop_last()[i], visit_pats(s, v.drop_last()).1[i]));
            }
        }
    }
}

proof fn carry_declarators(s: State, v: Seq<DeclaratorView>)
    requires
        tidy(s),
    ensures
        tidy(visit_declarators(s, v).0),
        carried_declarators(v, visit_declarators(s, v).1),
    decreases v, 4int,
{
    if v.len() != 0 {
        carry_declarators(s, v.drop_last());
        let s1 = visit_declarators(s, v.drop_last()).0;
        carry_declarator(s1, v.last());
        let w = visit_declarators(s, v).1;
        assert forall|i: int| 0 <= i < v.len() implies carried_declarator(#[trigger] v[i], w[i]) by {
            if i < v.len() - 1 {
                assert(carried_declarator(v.drop_last()[i], visit_declarators(s, v.drop_last()).1[i]));
            }
        }
    }
}

proof fn carry_nodes(s: State, v: Seq<NodeView>)
    requires
        tidy(s),
    ensures
        tidy(visit_nodes(s, v).0),
        carried_nodes(v, visit_nodes(s, v).1),
    decreases v, 4int,
{
    if v.len() != 0 {
        carry_nodes(s, v.drop_last());
        let s1 = visit_nodes(s, v.drop_last()).0;
        carry_node(s1, v.last());
        let w = visit_nodes(s, v).1;
        assert forall|i: int| 0 <= i < v.len() implies carried_node(#[trigger] v[i], w[i]) by {
            if i < v.len() - 1 {
                assert(carried_node(v.drop_last()[i], visit_nodes(s, v.drop_last()).1[i]));
            }
        }
    }
}

/// Every part of a module is carried over by the walk, in its order: the same
/// expressions, statements and items, with the same names, literals, operators
/// and places. Only directives, the bodies of actions and the values that become
/// references are replaced, and what is added is what is written for actions.
pub proof fn module_is_carried_over(file_name: Seq<char>, config: Config, m: ModuleView)
    ensures
        ({
            let m1 = visit_module(initial_state(file_name, config), m).1;
            m1.span == m.span && carried_items(m.body, m1.body)
        }),
{
    let s = State { start_pos: m.span.lo, ..initial_state(file_name, config) };
    no_stmts_written();
    carry_items(s, m.body);
}

/// An expression is carried over wherever it stands.
pub proof fn expression_is_carried_over(s: State, e: ExprView)
    requires
        tidy(s),
    ensures
        carried_expr(e, visit_expr(s, e).1),
{
    carry_expr(s, e);
}

/// A statement is carried over wherever it stands.
pub proof fn statement_is_carried_over(s: State, stmt: StmtView)
    requires
        tidy(s),
    ensures
        carried_stmt(stmt, visit_stmt(s, stmt).1),
{
    carry_stmt(s, stmt);
}

} // verus!
