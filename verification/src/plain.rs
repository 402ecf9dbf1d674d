//! Modules without the directive are left alone.

use vstd::prelude::*;

use crate::directive::{fn_directive, module_directive};
use crate::model::{
    ArrowBodyView, ArrowView, BlockView, DeclView, DeclaratorView, DecoratorView, DefaultDeclView,
    ExprView, FunctionView, IdentView, ModuleItemView, ModuleView, NodeView, OtherView, ParamView,
    PatView, PropView, StmtView,
};
use crate::names::name_of;
use crate::state::{initial_state, Config, Scope, State};
use crate::transform::{
    as_items, collects_names, default_scope, enter_function, export_scope, finish_expr, leave_items,
    use_name, visit_arrow, visit_arrow_body, visit_decl, visit_declarator, visit_declarators,
    visit_decorator, visit_decorators, visit_default_decl, visit_default_expr, visit_default_fn,
    visit_export_decl, visit_expr, visit_expr_children, visit_exprs, visit_fn_decl, visit_fn_expr,
    visit_function, visit_item, visit_items, visit_items_in_turn, visit_module, visit_node,
    visit_nodes, visit_other, visit_param, visit_params, visit_pat, visit_pats, visit_prop,
    visit_stmt, visit_stmt_children, visit_stmts, visit_stmts_in_turn, visit_top_item,
};

verus! {

// ---- Trees in which no function and no list of items has the directive ----

pub open spec fn plain_expr(e: ExprView) -> bool
    decreases e, 1int,
{
    match e {
        ExprView::Ident(_) => true,
        ExprView::Str(_, _) => true,
        ExprView::Member(m) => plain_expr(*m.obj),
        ExprView::OptMember(m) => plain_expr(*m.obj),
        ExprView::Fn(f) => plain_function(f.function),
        ExprView::Arrow(a) => plain_arrow(a),
        ExprView::Call(callee, args) => plain_expr(*callee) && plain_exprs(args),
        ExprView::Assign(target, value) => plain_expr(*target) && plain_expr(*value),
        ExprView::Define(_, value) => plain_expr(*value),
        ExprView::Paren(inner) => plain_expr(*inner),
        ExprView::Array(elems) => plain_exprs(elems),
        ExprView::Index(obj, _) => plain_expr(*obj),
        ExprView::Other(o) => plain_other(o),
    }
}

pub open spec fn plain_function(f: FunctionView) -> bool
    decreases f, 1int,
{
    &&& plain_params(f.params)
    &&& plain_decorators(f.decorators)
    &&& match f.body {
        Some(b) => plain_body(b),
        None => true,
    }
}

/// The body of a function that is no action.
pub open spec fn plain_body(b: BlockView) -> bool
    decreases b, 1int,
{
    fn_directive(b.stmts) is None && plain_stmts(b.stmts)
}

pub open spec fn plain_arrow(a: ArrowView) -> bool
    decreases a, 1int,
{
    plain_pats(a.params) && plain_arrow_body(a.body)
}

pub open spec fn plain_arrow_body(body: ArrowBodyView) -> bool
    decreases body, 1int,
{
    match body {
        ArrowBodyView::Block(b) => plain_body(b),
        ArrowBodyView::Expr(e) => plain_expr(*e),
    }
}

pub open spec fn plain_param(p: ParamView) -> bool
    decreases p, 1int,
{
    plain_decorators(p.decorators) && plain_pat(p.pat)
}

pub open spec fn plain_pat(p: PatView) -> bool
    decreases p, 1int,
{
    plain_exprs(p.exprs)
}

pub open spec fn plain_decorator(d: DecoratorView) -> bool
    decreases d, 1int,
{
    plain_expr(d.expr)
}

pub open spec fn plain_stmt(s: StmtView) -> bool
    decreases s, 1int,
{
    match s {
        StmtView::Expr(_, e) => plain_expr(*e),
        StmtView::Decl(d) => plain_decl(d),
        StmtView::Return(e) => plain_expr(*e),
        StmtView::Other(o) => plain_other(o),
    }
}

pub open spec fn plain_decl(d: DeclView) -> bool
    decreases d, 1int,
{
    match d {
        DeclView::Fn(f) => plain_function(f.function),
        DeclView::Var(v) => plain_declarators(v.decls),
        DeclView::Other(o) => plain_other(o),
    }
}

pub open spec fn plain_declarator(d: DeclaratorView) -> bool
    decreases d, 1int,
{
    plain_pat(d.name) && match d.init {
        Some(e) => plain_expr(*e),
        None => true,
    }
}

pub open spec fn plain_prop(p: PropView) -> bool
    decreases p, 1int,
{
    match p {
        PropView::Shorthand(_) => true,
        PropView::KeyValue(_, value) => plain_expr(*value),
        PropView::Other(o) => plain_other(o),
    }
}

pub open spec fn plain_other(o: OtherView) -> bool
    decreases o, 1int,
{
    plain_nodes(o.kids)
}

pub open spec fn plain_node(n: NodeView) -> bool
    decreases n, 1int,
{
    match n {
        NodeView::Expr(e) => plain_expr(e),
        NodeView::Stmt(s) => plain_stmt(s),
        NodeView::Stmts(v) => plain_stmts(v),
        NodeView::Param(p) => plain_param(p),
        NodeView::Prop(p) => plain_prop(p),
        NodeView::Items(v) => plain_module(v),
    }
}

pub open spec fn plain_item(item: ModuleItemView) -> bool
    decreases item, 1int,
{
    match item {
        ModuleItemView::Stmt(s) => plain_stmt(s),
        ModuleItemView::ExportDecl(_, d) => plain_decl(d),
        ModuleItemView::ExportNamed(n) => plain_other(n.rest),
        ModuleItemView::ExportDefaultDecl(_, d) => plain_default_decl(d),
        ModuleItemView::ExportDefaultExpr(_, e) => plain_expr(*e),
        ModuleItemView::ExportAll(_, o) => plain_other(o),
        ModuleItemView::Other(o) => plain_other(o),
    }
}

pub open spec fn plain_default_decl(d: DefaultDeclView) -> bool
    decreases d, 1int,
{
    match d {
        DefaultDeclView::Fn(f) => plain_function(f.function),
        DefaultDeclView::Other(o) => plain_other(o),
    }
}

/// The items of a module without any directive.
pub open spec fn plain_module(v: Seq<ModuleItemView>) -> bool
    decreases v, 4int,
{
    module_directive(v) is None && plain_items(v)
}

pub open spec fn plain_exprs(v: Seq<ExprView>) -> bool
    decreases v, 3int,
{
    forall|i: int| 0 <= i < v.len() ==> plain_expr(#[trigger] v[i])
}

pub open spec fn plain_params(v: Seq<ParamView>) -> bool
    decreases v, 3int,
{
    forall|i: int| 0 <= i < v.len() ==> plain_param(#[trigger] v[i])
}

pub open spec fn plain_decorators(v: Seq<DecoratorView>) -> bool
    decreases v, 3int,
{
    forall|i: int| 0 <= i < v.len() ==> plain_decorator(#[trigger] v[i])
}

pub open spec fn plain_pats(v: Seq<PatView>) -> bool
    decreases v, 3int,
{
    forall|i: int| 0 <= i < v.len() ==> plain_pat(#[trigger] v[i])
}

pub open spec fn plain_declarators(v: Seq<DeclaratorView>) -> bool
    decreases v, 3int,
{
    forall|i: int| 0 <= i < v.len() ==> plain_declarator(#[trigger] v[i])
}

pub open spec fn plain_nodes(v: Seq<NodeView>) -> bool
    decreases v, 3int,
{
    forall|i: int| 0 <= i < v.len() ==> plain_node(#[trigger] v[i])
}

pub open spec fn plain_stmts(v: Seq<StmtView>) -> bool
    decreases v, 3int,
{
    forall|i: int| 0 <= i < v.len() ==> plain_stmt(#[trigger] v[i])
}

pub open spec fn plain_items(v: Seq<ModuleItemView>) -> bool
    decreases v, 3int,
{
    forall|i: int| 0 <= i < v.len() ==> plain_item(#[trigger] v[i])
}

// ---- The walk over such trees ----

/// The walk is outside of a `"use server"` file, and no item is pending.
pub open spec fn idle(s: State) -> bool {
    &&& !s.in_action_file
    &&& s.extra_items == Seq::<ModuleItemView>::empty()
}

/// Nothing changed but the record of what the functions around bind and use,
/// and the comments of a module that has an action elsewhere.
pub open spec fn quiet(s: State, t: State) -> bool {
    &&& t == (State {
        closure_idents: t.closure_idents,
        action_locals: t.action_locals,
        action_idents: t.action_idents,
        top_level: t.top_level,
        comments: t.comments,
        ..s
    })
    &&& !s.has_action ==> t.comments == s.comments
}

proof fn keep_expr(s: State, e: ExprView)
    requires
        idle(s),
        plain_expr(e),
    ensures
        visit_expr(s, e).1 == e,
        quiet(s, visit_expr(s, e).0),
    decreases e, 2int,
{
    if collects_names(s) && name_of(e) is Some {
        let s1 = State {
            scope: Scope { in_action_closure: false, ..s.scope },
            ..use_name(s, name_of(e)->0)
        };
        keep_expr_children(s1, e);
    } else {
        keep_expr_children(s, e);
        reveal(finish_expr);
        if let ExprView::Arrow(a) = e {
            assert(plain_arrow(a));
            assert(plain_arrow_body(a.body));
            if let ArrowBodyView::Block(b) = a.body {
                assert(plain_body(b));
            }
        }
    }
}

proof fn keep_expr_children(s: State, e: ExprView)
    requires
        idle(s),
        plain_expr(e),
    ensures
        visit_expr_children(s, e).1 == e,
        quiet(s, visit_expr_children(s, e).0),
    decreases e, 1int,
{
    match e {
        ExprView::Ident(_) => {},
        ExprView::Str(_, _) => {},
        ExprView::Member(m) => {
            keep_expr(s, *m.obj);
        },
        ExprView::OptMember(m) => {
            keep_expr(s, *m.obj);
        },
        ExprView::Fn(f) => {
            keep_fn_expr(s, f.ident, f.function);
        },
        ExprView::Arrow(a) => {
            keep_arrow(s, a);
        },
        ExprView::Call(callee, args) => {
            keep_expr(s, *callee);
            keep_exprs(visit_expr(s, *callee).0, args);
        },
        ExprView::Assign(target, value) => {
            keep_expr(s, *target);
            keep_expr(visit_expr(s, *target).0, *value);
        },
        ExprView::Define(_, value) => {
            keep_expr(s, *value);
        },
        ExprView::Paren(inner) => {
            keep_expr(s, *inner);
        },
        ExprView::Array(elems) => {
            keep_exprs(s, elems);
        },
        ExprView::Index(obj, _) => {
            keep_expr(s, *obj);
        },
        ExprView::Other(o) => {
            keep_other(s, o);
        },
    }
}

proof fn keep_fn_expr(s: State, ident: Option<IdentView>, f: FunctionView)
    requires
        idle(s),
        plain_function(f),
    ensures
        visit_fn_expr(s, ident, f).1.ident == ident,
        visit_fn_expr(s, ident, f).1.function == f,
        quiet(s, visit_fn_expr(s, ident, f).0),
    decreases f, 2int,
{
    keep_function(s, f);
}

proof fn keep_function(s: State, f: FunctionView)
    requires
        idle(s),
        plain_function(f),
    ensures
        visit_function(s, f).1 == f,
        quiet(s, visit_function(s, f).0),
    decreases f, 1int,
{
    let s0 = enter_function(s, false);
    keep_params(s0, f.params);
    let s1 = visit_params(s0, f.params).0;
    keep_decorators(s1, f.decorators);
    let s2 = visit_decorators(s1, f.decorators).0;
    if let Some(b) = f.body {
        keep_stmts(s2, b.stmts);
    }
}

proof fn keep_arrow(s: State, a: ArrowView)
    requires
        idle(s),
        plain_arrow(a),
    ensures
        visit_arrow(s, a).1 == a,
        quiet(s, visit_arrow(s, a).0),
    decreases a, 2int,
{
    let s0 = enter_function(s, false);
    keep_pats(s0, a.params);
    keep_arrow_body(visit_pats(s0, a.params).0, a.body);
}

proof fn keep_arrow_body(s: State, body: ArrowBodyView)
    requires
        idle(s),
        plain_arrow_body(body),
    ensures
        visit_arrow_body(s, body).1 == body,
        quiet(s, visit_arrow_body(s, body).0),
    decreases body, 1int,
{
    match body {
        ArrowBodyView::Block(b) => {
            keep_stmts(s, b.stmts);
        },
        ArrowBodyView::Expr(e) => {
            keep_expr(s, *e);
        },
    }
}

proof fn keep_param(s: State, p: ParamView)
    requires
        idle(s),
        plain_param(p),
    ensures
        visit_param(s, p).1 == p,
        quiet(s, visit_param(s, p).0),
    decreases p, 1int,
{
    keep_decorators(s, p.decorators);
    keep_pat(visit_decorators(s, p.decorators).0, p.pat);
}

proof fn keep_pat(s: State, p: PatView)
    requires
        idle(s),
        plain_pat(p),
    ensures
        visit_pat(s, p).1 == p,
        quiet(s, visit_pat(s, p).0),
    decreases p, 1int,
{
    keep_exprs(s, p.exprs);
}

proof fn keep_decorator(s: State, d: DecoratorView)
    requires
        idle(s),
        plain_decorator(d),
    ensures
        visit_decorator(s, d).1 == d,
        quiet(s, visit_decorator(s, d).0),
    decreases d, 1int,
{
    keep_expr(s, d.expr);
}

proof fn keep_stmt(s: State, stmt: StmtView)
    requires
        idle(s),
        plain_stmt(stmt),
    ensures
        visit_stmt(s, stmt).1 == stmt,
        quiet(s, visit_stmt(s, stmt).0),
    decreases stmt, 2int,
{
    match stmt {
        StmtView::Expr(_, e) => {
            keep_expr(s, *e);
        },
        StmtView::Decl(d) => {
            keep_decl(s, d);
        },
        StmtView::Return(e) => {
            keep_expr(s, *e);
        },
        StmtView::Other(o) => {
            keep_other(s, o);
        },
    }
    assert(visit_stmt_children(s, stmt).1 == stmt);
}

proof fn keep_decl(s: State, d: DeclView)
    requires
        idle(s),
        plain_decl(d),
    ensures
        visit_decl(s, d).1 == d,
        quiet(s, visit_decl(s, d).0),
    decreases d, 1int,
{
    match d {
        DeclView::Fn(f) => {
            keep_function(s, f.function);
            assert(visit_fn_decl(s, f).1 == f);
        },
        DeclView::Var(v) => {
            keep_declarators(s, v.decls);
        },
        DeclView::Other(o) => {
            keep_other(s, o);
        },
    }
}

proof fn keep_declarator(s: State, d: DeclaratorView)
    requires
        idle(s),
        plain_declarator(d),
    ensures
        visit_declarator(s, d).1 == d,
        quiet(s, visit_declarator(s, d).0),
    decreases d, 1int,
{
    keep_pat(s, d.name);
    if let Some(e) = d.init {
        keep_expr(visit_pat(s, d.name).0, *e);
    }
}

proof fn keep_prop(s: State, p: PropView)
    requires
        idle(s),
        plain_prop(p),
    ensures
        visit_prop(s, p).1 == p,
        quiet(s, visit_prop(s, p).0),
    decreases p, 1int,
{
    match p {
        PropView::Shorthand(_) => {},
        PropView::KeyValue(_, value) => {
            keep_expr(s, *value);
        },
        PropView::Other(o) => {
            keep_other(s, o);
        },
    }
}

proof fn keep_other(s: State, o: OtherView)
    requires
        idle(s),
        plain_other(o),
    ensures
        visit_other(s, o).1 == o,
        quiet(s, visit_other(s, o).0),
    decreases o, 1int,
{
    keep_nodes(s, o.kids);
}

proof fn keep_node(s: State, n: NodeView)
    requires
        idle(s),
        plain_node(n),
    ensures
        visit_node(s, n).1 == n,
        quiet(s, visit_node(s, n).0),
    decreases n, 1int,
{
    match n {
        NodeView::Expr(e) => {
            keep_expr(s, e);
        },
        NodeView::Stmt(stmt) => {
            keep_stmt(s, stmt);
        },
        NodeView::Stmts(v) => {
            keep_stmts(s, v);
        },
        NodeView::Param(p) => {
            keep_param(s, p);
        },
        NodeView::Prop(p) => {
            keep_prop(s, p);
        },
        NodeView::Items(v) => {
            keep_items(s, v);
        },
    }
}

proof fn keep_stmts(s: State, v: Seq<StmtView>)
    requires
        idle(s),
        plain_stmts(v),
    ensures
        visit_stmts(s, v).1 == v,
        quiet(s, visit_stmts(s, v).0),
    decreases v, 5int,
{
    keep_stmts_in_turn(State { annotations: Seq::empty(), ..s }, v);
}

proof fn keep_stmts_in_turn(s: State, v: Seq<StmtView>)
    requires
        idle(s),
        s.annotations == Seq::<StmtView>::empty(),
        plain_stmts(v),
    ensures
        visit_stmts_in_turn(s, v).1 == v,
        quiet(s, visit_stmts_in_turn(s, v).0),
    decreases v, 4int,
{
    if v.len() != 0 {
        keep_stmts_in_turn(s, v.drop_last());
        let s1 = visit_stmts_in_turn(s, v.drop_last()).0;
        keep_stmt(State { top_level: false, ..s1 }, v.last());
        assert(v.drop_last().push(v.last()) + Seq::<StmtView>::empty() =~= v);
    } else {
        assert(v =~= Seq::empty());
    }
}

proof fn keep_items(s: State, v: Seq<ModuleItemView>)
    requires
        idle(s),
        plain_module(v),
    ensures
        visit_items(s, v).1 == v,
        quiet(s, visit_items(s, v).0),
    decreases v, 5int,
{
    keep_items_in_turn(State { annotations: Seq::empty(), ..s }, v);
    reveal(leave_items);
}

proof fn keep_items_in_turn(s: State, v: Seq<ModuleItemView>)
    requires
        idle(s),
        s.annotations == Seq::<StmtView>::empty(),
        plain_items(v),
    ensures
        visit_items_in_turn(s, v).1 == v,
        quiet(s, visit_items_in_turn(s, v).0),
    decreases v, 4int,
{
    if v.len() != 0 {
        keep_items_in_turn(s, v.drop_last());
        let s1 = visit_items_in_turn(s, v.drop_last()).0;
        let t = State { top_level: true, ..s1 };
        keep_item(t, v.last());
        assert(visit_top_item(t, v.last()) == visit_item(t, v.last()));
        assert(v.drop_last().push(v.last()) + as_items(Seq::empty()) + Seq::<
            ModuleItemView,
        >::empty() =~= v);
    } else {
        assert(v =~= Seq::empty());
    }
}

/// An item without the directive is left as it is.
pub proof fn keep_item(s: State, item: ModuleItemView)
    requires
        idle(s),
        plain_item(item),
    ensures
        visit_item(s, item).1 == item,
        quiet(s, visit_item(s, item).0),
    decreases item, 1int,
{
    match item {
        ModuleItemView::Stmt(stmt) => {
            keep_stmt(s, stmt);
        },
        ModuleItemView::ExportDecl(_, d) => {
            keep_decl(export_scope(s), d);
            assert(visit_export_decl(s, d).1 == d);
        },
        ModuleItemView::ExportNamed(n) => {
            keep_other(s, n.rest);
        },
        ModuleItemView::ExportDefaultDecl(_, d) => {
            match d {
                DefaultDeclView::Fn(f) => {
                    keep_fn_expr(default_scope(s), f.ident, f.function);
                    assert(visit_default_fn(s, f.ident, f.function).1 == f);
                },
                DefaultDeclView::Other(o) => {
                    keep_other(default_scope(s), o);
                },
            }
            assert(visit_default_decl(s, d).1 == d);
        },
        ModuleItemView::ExportDefaultExpr(_, e) => {
            keep_expr(default_scope(s), *e);
            assert(visit_default_expr(s, *e).1 == *e);
        },
        ModuleItemView::ExportAll(_, o) => {
            keep_other(s, o);
        },
        ModuleItemView::Other(o) => {
            keep_other(s, o);
        },
    }
}

proof fn keep_exprs(s: State, v: Seq<ExprView>)
    requires
        idle(s),
        plain_exprs(v),
    ensures
        visit_exprs(s, v).1 == v,
        quiet(s, visit_exprs(s, v).0),
    decreases v, 4int,
{
    if v.len() != 0 {
        keep_exprs(s, v.drop_last());
        keep_expr(visit_exprs(s, v.drop_last()).0, v.last());
        assert(v.drop_last().push(v.last()) =~= v);
    } else {
        assert(v =~= Seq::empty());
    }
}

proof fn keep_params(s: State, v: Seq<ParamView>)
    requires
        idle(s),
        plain_params(v),
    ensures
        visit_params(s, v).1 == v,
        quiet(s, visit_params(s, v).0),
    decreases v, 4int,
{
    if v.len() != 0 {
        keep_params(s, v.drop_last());
        keep_param(visit_params(s, v.drop_last()).0, v.last());
        assert(v.drop_last().push(v.last()) =~= v);
    } else {
        assert(v =~= Seq::empty());
    }
}

proof fn keep_decorators(s: State, v: Seq<DecoratorView>)
    requires
        idle(s),
        plain_decorators(v),
    ensures
        visit_decorators(s, v).1 == v,
        quiet(s, visit_decorators(s, v).0),
    decreases v, 4int,
{
    if v.len() != 0 {
        keep_decorators(s, v.drop_last());
        keep_decorator(visit_decorators(s, v.drop_last()).0, v.last());
        assert(v.drop_last().push(v.last()) =~= v);
    } else {
        assert(v =~= Seq::empty());
    }
}

proof fn keep_pats(s: State, v: Seq<PatView>)
    requires
        idle(s),
        plain_pats(v),
    ensures
        visit_pats(s, v).1 == v,
        quiet(s, visit_pats(s, v).0),
    decreases v, 4int,
{
    if v.len() != 0 {
        keep_pats(s, v.drop_last());
        keep_pat(visit_pats(s, v.drop_last()).0, v.last());
        assert(v.drop_last().push(v.last()) =~= v);
    } else {
        assert(v =~= Seq::empty());
    }
}

proof fn keep_declarators(s: State, v: Seq<DeclaratorView>)
    requires
        idle(s),
        plain_declarators(v),
    ensures
        visit_declarators(s, v).1 == v,
        quiet(s, visit_declarators(s, v).0),
    decreases v, 4int,
{
    if v.len() != 0 {
        keep_declarators(s, v.drop_last());
        keep_declarator(visit_declarators(s, v.drop_last()).0, v.last());
        assert(v.drop_last().push(v.last()) =~= v);
    } else {
        assert(v =~= Seq::empty());
    }
}

proof fn keep_nodes(s: State, v: Seq<NodeView>)
    requires
        idle(s),
        plain_nodes(v),
    ensures
        visit_nodes(s, v).1 == v,
        quiet(s, visit_nodes(s, v).0),
    decreases v, 4int,
{
    if v.len() != 0 {
        keep_nodes(s, v.drop_last());
        keep_node(visit_nodes(s, v.drop_last()).0, v.last());
        assert(v.drop_last().push(v.last()) =~= v);
    } else {
        assert(v =~= Seq::empty());
    }
}

/// A module in which neither the module nor any function has the directive is
/// left as it is: no action is found, nothing is reported, and no comment is
/// added.
pub proof fn plain_module_unchanged(file_name: Seq<char>, config: Config, m: ModuleView)
    requires
        plain_module(m.body),
    ensures
        ({
            let s = initial_state(file_name, config);
            let (t, m1) = visit_module(s, m);
            &&& m1 == m
            &&& t.ident_cnt == 0
            &&& !t.has_action
            &&& t.export_actions == s.export_actions
            &&& t.exported_idents == s.exported_idents
            &&& t.errors == s.errors
            &&& t.comments == s.comments
        }),
{
    keep_items(State { start_pos: m.span.lo, ..initial_state(file_name, config) }, m.body);
}

} // verus!
