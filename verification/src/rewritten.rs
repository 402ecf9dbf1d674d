//! The replacement changes captured names and nothing else.

use vstd::prelude::*;

use crate::model::{
    ArrowBodyView, ArrowView, BlockView, DeclView, DeclaratorView, DecoratorView, DefaultDeclView,
    ExprView, FunctionView, IdentView, ModuleItemView, NamedExportView, NodeView, OtherView,
    ParamView, PatView, PropView, StmtView,
};
use crate::names::{ident_name, name_of, NameView};
use crate::replace::{first_at, position, Replacement};
use crate::vocabulary::{name_is_spelled, spells};

verus! {

// ---- A tree and what it is rewritten to ----

/// An expression is a captured name, and the other is the element of the
/// closure that holds it.
pub open spec fn element_for(
    arg: IdentView,
    names: Seq<NameView>,
    x: ExprView,
    y: ExprView,
) -> bool {
    exists|i: int|
        0 <= i < names.len() && spells(x, (#[trigger] names[i]).id, names[i].props) && y
            == ExprView::Index(Box::new(ExprView::Ident(arg)), i as nat)
}

/// An expression is rewritten: it is a captured name and becomes the element of
/// the closure that holds it, or it stays what it is but for its parts.
pub open spec fn rewritten_expr(
    arg: IdentView,
    names: Seq<NameView>,
    x: ExprView,
    y: ExprView,
) -> bool
    decreases x, 1int,
{
    element_for(arg, names, x, y) || rewritten_parts(arg, names, x, y)
}

/// An expression stays what it is but for its parts.
pub open spec fn rewritten_parts(
    arg: IdentView,
    names: Seq<NameView>,
    x: ExprView,
    y: ExprView,
) -> bool
    decreases x, 0int,
{
    match (x, y) {
        (ExprView::Ident(i), ExprView::Ident(j)) => i == j,
        (ExprView::Str(o, a), ExprView::Str(p, b)) => o == p && a == b,
        (ExprView::Member(m), ExprView::Member(n)) => m.origin == n.origin && m.prop == n.prop
            && rewritten_expr(arg, names, *m.obj, *n.obj),
        (ExprView::OptMember(m), ExprView::OptMember(n)) => m.origin == n.origin
            && m.prop == n.prop && rewritten_expr(arg, names, *m.obj, *n.obj),
        (ExprView::Fn(f), ExprView::Fn(g)) => f.ident == g.ident
            && rewritten_function(arg, names, f.function, g.function),
        (ExprView::Arrow(a), ExprView::Arrow(b)) => rewritten_arrow(arg, names, a, b),
        (ExprView::Call(f, v), ExprView::Call(g, w)) => rewritten_expr(arg, names, *f, *g)
            && rewritten_exprs(arg, names, v, w),
        (ExprView::Assign(a, b), ExprView::Assign(p, q)) => rewritten_expr(arg, names, *a, *p)
            && rewritten_expr(arg, names, *b, *q),
        (ExprView::Define(i, a), ExprView::Define(j, b)) => i == j
            && rewritten_expr(arg, names, *a, *b),
        (ExprView::Paren(a), ExprView::Paren(b)) => rewritten_expr(arg, names, *a, *b),
        (ExprView::Array(v), ExprView::Array(w)) => rewritten_exprs(arg, names, v, w),
        (ExprView::Index(a, i), ExprView::Index(b, j)) => i == j
            && rewritten_expr(arg, names, *a, *b),
        (ExprView::Other(a), ExprView::Other(b)) => rewritten_other(arg, names, a, b),
        _ => false,
    }
}

pub open spec fn rewritten_function(
    arg: IdentView,
    names: Seq<NameView>,
    x: FunctionView,
    y: FunctionView,
) -> bool
    decreases x, 1int,
{
    &&& y == (FunctionView {
        params: y.params,
        decorators: y.decorators,
        body: y.body,
        ..x
    })
    &&& rewritten_params(arg, names, x.params, y.params)
    &&& rewritten_decorators(arg, names, x.decorators, y.decorators)
    &&& match (x.body, y.body) {
        (Some(a), Some(b)) => rewritten_block(arg, names, a, b),
        (None, None) => true,
        _ => false,
    }
}

pub open spec fn rewritten_block(
    arg: IdentView,
    names: Seq<NameView>,
    x: BlockView,
    y: BlockView,
) -> bool
    decreases x, 1int,
{
    x.origin == y.origin && rewritten_stmts(arg, names, x.stmts, y.stmts)
}

pub open spec fn rewritten_arrow(
    arg: IdentView,
    names: Seq<NameView>,
    x: ArrowView,
    y: ArrowView,
) -> bool
    decreases x, 1int,
{
    &&& y == (ArrowView { params: y.params, body: y.body, ..x })
    &&& rewritten_pats(arg, names, x.params, y.params)
    &&& match (x.body, y.body) {
        (ArrowBodyView::Block(a), ArrowBodyView::Block(b)) => rewritten_block(arg, names, a, b),
        (ArrowBodyView::Expr(a), ArrowBodyView::Expr(b)) => rewritten_expr(arg, names, *a, *b),
        _ => false,
    }
}

pub open spec fn rewritten_param(
    arg: IdentView,
    names: Seq<NameView>,
    x: ParamView,
    y: ParamView,
) -> bool
    decreases x, 1int,
{
    &&& x.origin == y.origin
    &&& rewritten_decorators(arg, names, x.decorators, y.decorators)
    &&& rewritten_pat(arg, names, x.pat, y.pat)
}

pub open spec fn rewritten_pat(
    arg: IdentView,
    names: Seq<NameView>,
    x: PatView,
    y: PatView,
) -> bool
    decreases x, 1int,
{
    x.origin == y.origin && x.form == y.form && rewritten_exprs(arg, names, x.exprs, y.exprs)
}

pub open spec fn rewritten_decorator(
    arg: IdentView,
    names: Seq<NameView>,
    x: DecoratorView,
    y: DecoratorView,
) -> bool
    decreases x, 1int,
{
    x.origin == y.origin && rewritten_expr(arg, names, x.expr, y.expr)
}

pub open spec fn rewritten_stmt(
    arg: IdentView,
    names: Seq<NameView>,
    x: StmtView,
    y: StmtView,
) -> bool
    decreases x, 1int,
{
    match (x, y) {
        (StmtView::Expr(o, a), StmtView::Expr(p, b)) => o == p
            && rewritten_expr(arg, names, *a, *b),
        (StmtView::Decl(a), StmtView::Decl(b)) => rewritten_decl(arg, names, a, b),
        (StmtView::Return(a), StmtView::Return(b)) => rewritten_expr(arg, names, *a, *b),
        (StmtView::Other(a), StmtView::Other(b)) => rewritten_other(arg, names, a, b),
        _ => false,
    }
}

pub open spec fn rewritten_decl(
    arg: IdentView,
    names: Seq<NameView>,
    x: DeclView,
    y: DeclView,
) -> bool
    decreases x, 1int,
{
    match (x, y) {
        (DeclView::Fn(f), DeclView::Fn(g)) => f.origin == g.origin && f.ident == g.ident
            && rewritten_function(arg, names, f.function, g.function),
        (DeclView::Var(v), DeclView::Var(w)) => v.origin == w.origin && v.kind == w.kind
            && rewritten_declarators(arg, names, v.decls, w.decls),
        (DeclView::Other(a), DeclView::Other(b)) => rewritten_other(arg, names, a, b),
        _ => false,
    }
}

pub open spec fn rewritten_declarator(
    arg: IdentView,
    names: Seq<NameView>,
    x: DeclaratorView,
    y: DeclaratorView,
) -> bool
    decreases x, 1int,
{
    &&& x.origin == y.origin
    &&& rewritten_pat(arg, names, x.name, y.name)
    &&& match (x.init, y.init) {
        (Some(a), Some(b)) => rewritten_expr(arg, names, *a, *b),
        (None, None) => true,
        _ => false,
    }
}

/// A shorthand property of a captured name gets the element of the closure as
/// its value.
pub open spec fn rewritten_prop(
    arg: IdentView,
    names: Seq<NameView>,
    x: PropView,
    y: PropView,
) -> bool
    decreases x, 4int,
{
    match (x, y) {
        (PropView::Shorthand(i), PropView::Shorthand(j)) => i == j,
        (PropView::Shorthand(i), PropView::KeyValue(key, value)) => key == i
            && element_for(arg, names, ExprView::Ident(i), *value),
        (PropView::KeyValue(i, a), PropView::KeyValue(j, b)) => i == j
            && rewritten_expr(arg, names, *a, *b),
        (PropView::Other(a), PropView::Other(b)) => rewritten_other(arg, names, a, b),
        _ => false,
    }
}

pub open spec fn rewritten_other(
    arg: IdentView,
    names: Seq<NameView>,
    x: OtherView,
    y: OtherView,
) -> bool
    decreases x, 1int,
{
    x.source == y.source && rewritten_nodes(arg, names, x.kids, y.kids)
}

pub open spec fn rewritten_node(
    arg: IdentView,
    names: Seq<NameView>,
    x: NodeView,
    y: NodeView,
) -> bool
    decreases x, 5int,
{
    match (x, y) {
        (NodeView::Expr(a), NodeView::Expr(b)) => rewritten_expr(arg, names, a, b),
        (NodeView::Stmt(a), NodeView::Stmt(b)) => rewritten_stmt(arg, names, a, b),
        (NodeView::Stmts(a), NodeView::Stmts(b)) => rewritten_stmts(arg, names, a, b),
        (NodeView::Param(a), NodeView::Param(b)) => rewritten_param(arg, names, a, b),
        (NodeView::Prop(a), NodeView::Prop(b)) => rewritten_prop(arg, names, a, b),
        (NodeView::Items(a), NodeView::Items(b)) => rewritten_items(arg, names, a, b),
        _ => false,
    }
}

pub open spec fn rewritten_item(
    arg: IdentView,
    names: Seq<NameView>,
    x: ModuleItemView,
    y: ModuleItemView,
) -> bool
    decreases x, 1int,
{
    match (x, y) {
        (ModuleItemView::Stmt(a), ModuleItemView::Stmt(b)) => rewritten_stmt(arg, names, a, b),
        (ModuleItemView::ExportDecl(s, a), ModuleItemView::ExportDecl(t, b)) => s == t
            && rewritten_decl(arg, names, a, b),
        (ModuleItemView::ExportNamed(m), ModuleItemView::ExportNamed(n)) =>
            n == (NamedExportView { rest: n.rest, ..m })
            && rewritten_other(arg, names, m.rest, n.rest),
        (
            ModuleItemView::ExportDefaultDecl(s, DefaultDeclView::Fn(f)),
            ModuleItemView::ExportDefaultDecl(t, DefaultDeclView::Fn(g)),
        ) => s == t && f.ident == g.ident
            && rewritten_function(arg, names, f.function, g.function),
        (
            ModuleItemView::ExportDefaultDecl(s, DefaultDeclView::Other(a)),
            ModuleItemView::ExportDefaultDecl(t, DefaultDeclView::Other(b)),
        ) => s == t && rewritten_other(arg, names, a, b),
        (ModuleItemView::ExportDefaultExpr(s, a), ModuleItemView::ExportDefaultExpr(t, b)) =>
            s == t && rewritten_expr(arg, names, *a, *b),
        (ModuleItemView::ExportAll(s, a), ModuleItemView::ExportAll(t, b)) => s == t
            && rewritten_other(arg, names, a, b),
        (ModuleItemView::Other(a), ModuleItemView::Other(b)) => rewritten_other(arg, names, a, b),
        _ => false,
    }
}

pub open spec fn rewritten_exprs(
    arg: IdentView,
    names: Seq<NameView>,
    x: Seq<ExprView>,
    y: Seq<ExprView>,
) -> bool
    decreases x, 6int,
{
    x.len() == y.len() && forall|i: int|
        0 <= i < x.len() ==> rewritten_expr(arg, names, #[trigger] x[i], y[i])
}

pub open spec fn rewritten_params(
    arg: IdentView,
    names: Seq<NameView>,
    x: Seq<ParamView>,
    y: Seq<ParamView>,
) -> bool
    decreases x, 6int,
{
    x.len() == y.len() && forall|i: int|
        0 <= i < x.len() ==> rewritten_param(arg, names, #[trigger] x[i], y[i])
}

pub open spec fn rewritten_decorators(
    arg: IdentView,
    names: Seq<NameView>,
    x: Seq<DecoratorView>,
    y: Seq<DecoratorView>,
) -> bool
    decreases x, 6int,
{
    x.len() == y.len() && forall|i: int|
        0 <= i < x.len() ==> rewritten_decorator(arg, names, #[trigger] x[i], y[i])
}

pub open spec fn rewritten_pats(
    arg: IdentView,
    names: Seq<NameView>,
    x: Seq<PatView>,
    y: Seq<PatView>,
) -> bool
    decreases x, 6int,
{
    x.len() == y.len() && forall|i: int|
        0 <= i < x.len() ==> rewritten_pat(arg, names, #[trigger] x[i], y[i])
}

pub open spec fn rewritten_declarators(
    arg: IdentView,
    names: Seq<NameView>,
    x: Seq<DeclaratorView>,
    y: Seq<DeclaratorView>,
) -> bool
    decreases x, 6int,
{
    x.len() == y.len() && forall|i: int|
        0 <= i < x.len() ==> rewritten_declarator(arg, names, #[trigger] x[i], y[i])
}

pub open spec fn rewritten_nodes(
    arg: IdentView,
    names: Seq<NameView>,
    x: Seq<NodeView>,
    y: Seq<NodeView>,
) -> bool
    decreases x, 6int,
{
    x.len() == y.len() && forall|i: int|
        0 <= i < x.len() ==> rewritten_node(arg, names, #[trigger] x[i], y[i])
}

pub open spec fn rewritten_stmts(
    arg: IdentView,
    names: Seq<NameView>,
    x: Seq<StmtView>,
    y: Seq<StmtView>,
) -> bool
    decreases x, 6int,
{
    x.len() == y.len() && forall|i: int|
        0 <= i < x.len() ==> rewritten_stmt(arg, names, #[trigger] x[i], y[i])
}

pub open spec fn rewritten_items(
    arg: IdentView,
    names: Seq<NameView>,
    x: Seq<ModuleItemView>,
    y: Seq<ModuleItemView>,
) -> bool
    decreases x, 6int,
{
    x.len() == y.len() && forall|i: int|
        0 <= i < x.len() ==> rewritten_item(arg, names, #[trigger] x[i], y[i])
}

// ---- The replacement does that ----

/// If an expression has a name after its parts were replaced, none was.
proof fn name_untouched(r: Replacement, e: ExprView)
    requires
        name_of(r.expr_children(e)) is Some,
    ensures
        r.expr_children(e) == e,
    decreases e,
{
    match e {
        ExprView::Member(m) => {
            let obj = r.expr(*m.obj);
            assert(name_of(obj) is Some);
            assert(obj == r.expr_children(*m.obj));
            name_untouched(r, *m.obj);
        },
        ExprView::OptMember(m) => {
            let obj = r.expr(*m.obj);
            assert(name_of(obj) is Some);
            assert(obj == r.expr_children(*m.obj));
            name_untouched(r, *m.obj);
        },
        _ => {},
    }
}

proof fn found_there(names: Seq<NameView>, n: NameView)
    requires
        position(names, n) is Some,
    ensures
        0 <= position(names, n)->0 < names.len(),
        names[position(names, n)->0] == n,
{
    reveal(position);
    let i = choose|i: int| first_at(names, n, i);
    assert(first_at(names, n, i));
}

proof fn rewrites_expr(r: Replacement, x: ExprView)
    ensures
        rewritten_expr(r.closure_arg, r.used_ids, x, r.expr(x)),
    decreases x, 1int,
{
    let c = r.expr_children(x);
    if let Some(n) = name_of(c) {
        if position(r.used_ids, n) is Some {
            name_untouched(r, x);
            found_there(r.used_ids, n);
            name_is_spelled(x, n);
        }
    }
    rewrites_parts(r, x);
}

proof fn rewrites_parts(r: Replacement, x: ExprView)
    ensures
        rewritten_parts(r.closure_arg, r.used_ids, x, r.expr_children(x)),
    decreases x, 0int,
{
    match x {
        ExprView::Ident(_) => {},
        ExprView::Str(_, _) => {},
        ExprView::Member(m) => {
            rewrites_expr(r, *m.obj);
        },
        ExprView::OptMember(m) => {
            rewrites_expr(r, *m.obj);
        },
        ExprView::Fn(f) => {
            rewrites_function(r, f.function);
        },
        ExprView::Arrow(a) => {
            rewrites_arrow(r, a);
        },
        ExprView::Call(f, v) => {
            rewrites_expr(r, *f);
            rewrites_exprs(r, v);
        },
        ExprView::Assign(a, b) => {
            rewrites_expr(r, *a);
            rewrites_expr(r, *b);
        },
        ExprView::Define(_, a) => {
            rewrites_expr(r, *a);
        },
        ExprView::Paren(a) => {
            rewrites_expr(r, *a);
        },
        ExprView::Array(v) => {
            rewrites_exprs(r, v);
        },
        ExprView::Index(a, _) => {
            rewrites_expr(r, *a);
        },
        ExprView::Other(o) => {
            rewrites_other(r, o);
        },
    }
}

proof fn rewrites_function(r: Replacement, x: FunctionView)
    ensures
        rewritten_function(r.closure_arg, r.used_ids, x, r.function(x)),
    decreases x, 1int,
{
    rewrites_params(r, x.params);
    rewrites_decorators(r, x.decorators);
    if let Some(b) = x.body {
        rewrites_block(r, b);
    }
}

proof fn rewrites_block(r: Replacement, x: BlockView)
    ensures
        rewritten_block(r.closure_arg, r.used_ids, x, r.block(x)),
    decreases x, 1int,
{
    rewrites_stmts(r, x.stmts);
}

proof fn rewrites_arrow(r: Replacement, x: ArrowView)
    ensures
        rewritten_arrow(r.closure_arg, r.used_ids, x, r.arrow(x)),
    decreases x, 1int,
{
    rewrites_pats(r, x.params);
    match x.body {
        ArrowBodyView::Block(b) => {
            rewrites_block(r, b);
        },
        ArrowBodyView::Expr(e) => {
            rewrites_expr(r, *e);
        },
    }
}

proof fn rewrites_param(r: Replacement, x: ParamView)
    ensures
        rewritten_param(r.closure_arg, r.used_ids, x, r.param(x)),
    decreases x, 1int,
{
    rewrites_decorators(r, x.decorators);
    rewrites_pat(r, x.pat);
}

proof fn rewrites_pat(r: Replacement, x: PatView)
    ensures
        rewritten_pat(r.closure_arg, r.used_ids, x, r.pat(x)),
    decreases x, 1int,
{
    rewrites_exprs(r, x.exprs);
}

proof fn rewrites_decorator(r: Replacement, x: DecoratorView)
    ensures
        rewritten_decorator(r.closure_arg, r.used_ids, x, r.decorator(x)),
    decreases x, 1int,
{
    rewrites_expr(r, x.expr);
}

proof fn rewrites_stmt(r: Replacement, x: StmtView)
    ensures
        rewritten_stmt(r.closure_arg, r.used_ids, x, r.stmt(x)),
    decreases x, 1int,
{
    match x {
        StmtView::Expr(_, e) => {
            rewrites_expr(r, *e);
        },
        StmtView::Decl(d) => {
            rewrites_decl(r, d);
        },
        StmtView::Return(e) => {
            rewrites_expr(r, *e);
        },
        StmtView::Other(o) => {
            rewrites_other(r, o);
        },
    }
}

proof fn rewrites_decl(r: Replacement, x: DeclView)
    ensures
        rewritten_decl(r.closure_arg, r.used_ids, x, r.decl(x)),
    decreases x, 1int,
{
    match x {
        DeclView::Fn(f) => {
            rewrites_function(r, f.function);
        },
        DeclView::Var(v) => {
            rewrites_declarators(r, v.decls);
        },
        DeclView::Other(o) => {
            rewrites_other(r, o);
        },
    }
}

proof fn rewrites_declarator(r: Replacement, x: DeclaratorView)
    ensures
        rewritten_declarator(r.closure_arg, r.used_ids, x, r.declarator(x)),
    decreases x, 1int,
{
    rewrites_pat(r, x.name);
    if let Some(e) = x.init {
        rewrites_expr(r, *e);
    }
}

proof fn rewrites_prop(r: Replacement, x: PropView)
    ensures
        rewritten_prop(r.closure_arg, r.used_ids, x, r.prop(x)),
    decreases x, 4int,
{
    match x {
        PropView::Shorthand(i) => {
            let n = ident_name(i);
            if position(r.used_ids, n) is Some {
                found_there(r.used_ids, n);
                let k = position(r.used_ids, n)->0;
                assert(spells(ExprView::Ident(i), r.used_ids[k].id, r.used_ids[k].props));
                assert(r.prop(x) == PropView::KeyValue(i, Box::new(r.element(k))));
                assert(element_for(
                    r.closure_arg,
                    r.used_ids,
                    ExprView::Ident(i),
                    r.element(k),
                ));
            }
        },
        PropView::KeyValue(_, e) => {
            rewrites_expr(r, *e);
        },
        PropView::Other(o) => {
            rewrites_other(r, o);
        },
    }
}

proof fn rewrites_other(r: Replacement, x: OtherView)
    ensures
        rewritten_other(r.closure_arg, r.used_ids, x, r.other(x)),
    decreases x, 1int,
{
    rewrites_nodes(r, x.kids);
}

proof fn rewrites_node(r: Replacement, x: NodeView)
    ensures
        rewritten_node(r.closure_arg, r.used_ids, x, r.node(x)),
    decreases x, 5int,
{
    match x {
        NodeView::Expr(a) => {
            rewrites_expr(r, a);
        },
        NodeView::Stmt(a) => {
            rewrites_stmt(r, a);
        },
        NodeView::Stmts(a) => {
            rewrites_stmts(r, a);
        },
        NodeView::Param(a) => {
            rewrites_param(r, a);
        },
        NodeView::Prop(a) => {
            rewrites_prop(r, a);
        },
        NodeView::Items(a) => {
            rewrites_items(r, a);
        },
    }
}

proof fn rewrites_item(r: Replacement, x: ModuleItemView)
    ensures
        rewritten_item(r.closure_arg, r.used_ids, x, r.item(x)),
    decreases x, 1int,
{
    match x {
        ModuleItemView::Stmt(a) => {
            rewrites_stmt(r, a);
        },
        ModuleItemView::ExportDecl(_, a) => {
            rewrites_decl(r, a);
        },
        ModuleItemView::ExportNamed(n) => {
            rewrites_other(r, n.rest);
        },
        ModuleItemView::ExportDefaultDecl(_, DefaultDeclView::Fn(f)) => {
            rewrites_function(r, f.function);
        },
        ModuleItemView::ExportDefaultDecl(_, DefaultDeclView::Other(o)) => {
            rewrites_other(r, o);
        },
        ModuleItemView::ExportDefaultExpr(_, e) => {
            rewrites_expr(r, *e);
        },
        ModuleItemView::ExportAll(_, o) => {
            rewrites_other(r, o);
        },
        ModuleItemView::Other(o) => {
            rewrites_other(r, o);
        },
    }
}

proof fn rewrites_exprs(r: Replacement, x: Seq<ExprView>)
    ensures
        rewritten_exprs(r.closure_arg, r.used_ids, x, r.exprs(x)),
    decreases x, 6int,
{
    let y = r.exprs(x);
    assert forall|i: int| 0 <= i < x.len() implies rewritten_expr(
        r.closure_arg,
        r.used_ids,
        #[trigger] x[i],
        y[i],
    ) by {
        rewrites_expr(r, x[i]);
    }
}

proof fn rewrites_params(r: Replacement, x: Seq<ParamView>)
    ensures
        rewritten_params(r.closure_arg, r.used_ids, x, r.params(x)),
    decreases x, 6int,
{
    let y = r.params(x);
    assert forall|i: int| 0 <= i < x.len() implies rewritten_param(
        r.closure_arg,
        r.used_ids,
        #[trigger] x[i],
        y[i],
    ) by {
        rewrites_param(r, x[i]);
    }
}

proof fn rewrites_decorators(r: Replacement, x: Seq<DecoratorView>)
    ensures
        rewritten_decorators(r.closure_arg, r.used_ids, x, r.decorators(x)),
    decreases x, 6int,
{
    let y = r.decorators(x);
    assert forall|i: int| 0 <= i < x.len() implies rewritten_decorator(
        r.closure_arg,
        r.used_ids,
        #[trigger] x[i],
        y[i],
    ) by {
        rewrites_decorator(r, x[i]);
    }
}

proof fn rewrites_pats(r: Replacement, x: Seq<PatView>)
    ensures
        rewritten_pats(r.closure_arg, r.used_ids, x, r.pats(x)),
    decreases x, 6int,
{
    let y = r.pats(x);
    assert forall|i: int| 0 <= i < x.len() implies rewritten_pat(
        r.closure_arg,
        r.used_ids,
        #[trigger] x[i],
        y[i],
    ) by {
        rewrites_pat(r, x[i]);
    }
}

proof fn rewrites_declarators(r: Replacement, x: Seq<DeclaratorView>)
    ensures
        rewritten_declarators(r.closure_arg, r.used_ids, x, r.declarators(x)),
    decreases x, 6int,
{
    let y = r.declarators(x);
    assert forall|i: int| 0 <= i < x.len() implies rewritten_declarator(
        r.closure_arg,
        r.used_ids,
        #[trigger] x[i],
        y[i],
    ) by {
        rewrites_declarator(r, x[i]);
    }
}

proof fn rewrites_nodes(r: Replacement, x: Seq<NodeView>)
    ensures
        rewritten_nodes(r.closure_arg, r.used_ids, x, r.nodes(x)),
    decreases x, 6int,
{
    let y = r.nodes(x);
    assert forall|i: int| 0 <= i < x.len() implies rewritten_node(
        r.closure_arg,
        r.used_ids,
        #[trigger] x[i],
        y[i],
    ) by {
        rewrites_node(r, x[i]);
    }
}

proof fn rewrites_stmts(r: Replacement, x: Seq<StmtView>)
    ensures
        rewritten_stmts(r.closure_arg, r.used_ids, x, r.stmts(x)),
    decreases x, 6int,
{
    let y = r.stmts(x);
    assert forall|i: int| 0 <= i < x.len() implies rewritten_stmt(
        r.closure_arg,
        r.used_ids,
        #[trigger] x[i],
        y[i],
    ) by {
        rewrites_stmt(r, x[i]);
    }
}

proof fn rewrites_items(r: Replacement, x: Seq<ModuleItemView>)
    ensures
        rewritten_items(r.closure_arg, r.used_ids, x, r.items(x)),
    decreases x, 6int,
{
    let y = r.items(x);
    assert forall|i: int| 0 <= i < x.len() implies rewritten_item(
        r.closure_arg,
        r.used_ids,
        #[trigger] x[i],
        y[i],
    ) by {
        rewrites_item(r, x[i]);
    }
}

/// The replacement rewrites a block: each part of it is as before, but that
/// captured names have become elements of the closure. An element has the index
/// of the name that it stands for.
pub proof fn block_is_rewritten(r: Replacement, b: BlockView)
    ensures
        rewritten_block(r.closure_arg, r.used_ids, b, r.block(b)),
{
    rewrites_block(r, b);
}

/// The replacement rewrites an expression.
pub proof fn expr_is_rewritten(r: Replacement, e: ExprView)
    ensures
        rewritten_expr(r.closure_arg, r.used_ids, e, r.expr(e)),
{
    rewrites_expr(r, e);
}

/// An expression that does not become an element of the closure stays of its
/// kind: a plain access stays plain, and an optional one optional.
pub proof fn kind_is_kept(r: Replacement, e: ExprView)
    ensures
        r.expr(e) is Index || (e is Member <==> r.expr(e) is Member),
        r.expr(e) is Index || (e is OptMember <==> r.expr(e) is OptMember),
        r.expr(e) is Index || (e is Str <==> r.expr(e) is Str),
{
    rewrites_expr(r, e);
}

/// The replacement rewrites a property.
pub proof fn prop_is_rewritten(r: Replacement, p: PropView)
    ensures
        rewritten_prop(r.closure_arg, r.used_ids, p, r.prop(p)),
{
    rewrites_prop(r, p);
}

} // verus!
