//! What has no directive in it is left as it is, wherever it stands.

use vstd::prelude::*;

use crate::actions::{marked_arrow, marked_body};
use crate::mentioned::without_is_part;
use crate::model::{
    ArrowBodyView, ArrowView, BlockView, DeclView, DeclaratorView, DecoratorView, ExprView,
    FnDeclView, FnExprView, FunctionView, IdentView, MemberView, NodeView, OtherView, ParamView,
    PatView, PropView, StmtView,
};
use crate::names::name_of;
use crate::state::{Diagnostic, Problem, Scope, State};
use crate::transform::{
    action_directive, arrow_block, collects_names, end_action, enter_function, finish_expr,
    is_action, leave_function, use_name, visit_arrow, visit_arrow_body, visit_decl,
    visit_declarator, visit_declarators, visit_decorator, visit_decorators, visit_expr,
    visit_expr_children, visit_exprs, visit_fn_body, visit_fn_decl, visit_fn_expr, visit_function,
    visit_member, visit_node, visit_nodes, visit_opt_expr, visit_other, visit_param, visit_params,
    visit_pat, visit_pats, visit_prop, visit_stmt, visit_stmt_children, visit_stmts,
    visit_stmts_in_turn, without, without_decreases,
};
use crate::vocabulary::{directive_is_where_marked, marked, marked_at};

verus! {

// ---- Trees without directives ----

pub open spec fn bare_expr(e: ExprView) -> bool
    decreases e, 1int,
{
    bare_children(e)
}

pub open spec fn bare_children(e: ExprView) -> bool
    decreases e, 0int,
{
    match e {
        ExprView::Ident(_) => true,
        ExprView::Str(_, _) => true,
        ExprView::Member(m) => bare_expr(*m.obj),
        ExprView::OptMember(m) => bare_expr(*m.obj),
        ExprView::Fn(f) => !marked_body(f.function.body) && bare_function(f.function),
        ExprView::Arrow(a) => !marked_arrow(a) && bare_arrow(a),
        ExprView::Call(callee, args) => bare_expr(*callee) && bare_exprs(args),
        ExprView::Assign(target, value) => bare_expr(*target) && bare_expr(*value),
        ExprView::Define(_, value) => bare_expr(*value),
        ExprView::Paren(inner) => bare_expr(*inner),
        ExprView::Array(elems) => bare_exprs(elems),
        ExprView::Index(obj, _) => bare_expr(*obj),
        ExprView::Other(o) => bare_other(o),
    }
}

pub open spec fn bare_function(f: FunctionView) -> bool
    decreases f, 1int,
{
    bare_params(f.params) && bare_decorators(f.decorators) && bare_opt_block(f.body)
}

pub open spec fn bare_opt_block(b: Option<BlockView>) -> bool
    decreases b, 1int,
{
    match b {
        Some(block) => bare_block(block),
        None => true,
    }
}

pub open spec fn bare_block(b: BlockView) -> bool
    decreases b, 1int,
{
    bare_stmts(b.stmts)
}

pub open spec fn bare_arrow(a: ArrowView) -> bool
    decreases a, 1int,
{
    bare_pats(a.params) && match a.body {
        ArrowBodyView::Block(b) => bare_block(b),
        ArrowBodyView::Expr(e) => bare_expr(*e),
    }
}

pub open spec fn bare_param(p: ParamView) -> bool
    decreases p, 1int,
{
    bare_decorators(p.decorators) && bare_pat(p.pat)
}

pub open spec fn bare_pat(p: PatView) -> bool
    decreases p, 1int,
{
    bare_exprs(p.exprs)
}

pub open spec fn bare_decorator(d: DecoratorView) -> bool
    decreases d, 1int,
{
    bare_expr(d.expr)
}

pub open spec fn bare_stmt(s: StmtView) -> bool
    decreases s, 1int,
{
    match s {
        StmtView::Expr(_, e) => bare_expr(*e),
        StmtView::Decl(d) => bare_decl(d),
        StmtView::Return(e) => bare_expr(*e),
        StmtView::Other(o) => bare_other(o),
    }
}

pub open spec fn bare_decl(d: DeclView) -> bool
    decreases d, 1int,
{
    match d {
        DeclView::Fn(f) => !marked_body(f.function.body) && bare_function(f.function),
        DeclView::Var(v) => bare_declarators(v.decls),
        DeclView::Other(o) => bare_other(o),
    }
}

pub open spec fn bare_declarator(d: DeclaratorView) -> bool
    decreases d, 1int,
{
    bare_pat(d.name) && match d.init {
        Some(e) => bare_expr(*e),
        None => true,
    }
}

pub open spec fn bare_prop(p: PropView) -> bool
    decreases p, 1int,
{
    match p {
        PropView::Shorthand(_) => true,
        PropView::KeyValue(_, value) => bare_expr(*value),
        PropView::Other(o) => bare_other(o),
    }
}

pub open spec fn bare_other(o: OtherView) -> bool
    decreases o, 1int,
{
    bare_nodes(o.kids)
}

pub open spec fn bare_node(n: NodeView) -> bool
    decreases n, 1int,
{
    match n {
        NodeView::Expr(e) => bare_expr(e),
        NodeView::Stmt(s) => bare_stmt(s),
        NodeView::Stmts(v) => bare_stmts(v),
        NodeView::Param(p) => bare_param(p),
        NodeView::Prop(p) => bare_prop(p),
        NodeView::Items(_) => false,
    }
}

pub open spec fn bare_exprs(v: Seq<ExprView>) -> bool
    decreases v, 3int,
{
    forall|i: int| 0 <= i < v.len() ==> bare_expr(#[trigger] v[i])
}

pub open spec fn bare_params(v: Seq<ParamView>) -> bool
    decreases v, 3int,
{
    forall|i: int| 0 <= i < v.len() ==> bare_param(#[trigger] v[i])
}

pub open spec fn bare_decorators(v: Seq<DecoratorView>) -> bool
    decreases v, 3int,
{
    forall|i: int| 0 <= i < v.len() ==> bare_decorator(#[trigger] v[i])
}

pub open spec fn bare_pats(v: Seq<PatView>) -> bool
    decreases v, 3int,
{
    forall|i: int| 0 <= i < v.len() ==> bare_pat(#[trigger] v[i])
}

pub open spec fn bare_declarators(v: Seq<DeclaratorView>) -> bool
    decreases v, 3int,
{
    forall|i: int| 0 <= i < v.len() ==> bare_declarator(#[trigger] v[i])
}

pub open spec fn bare_nodes(v: Seq<NodeView>) -> bool
    decreases v, 3int,
{
    forall|i: int| 0 <= i < v.len() ==> bare_node(#[trigger] v[i])
}

pub open spec fn bare_stmts(v: Seq<StmtView>) -> bool
    decreases v, 3int,
{
    forall|i: int| 0 <= i < v.len() ==> bare_stmt(#[trigger] v[i])
}

// ---- The walk over such trees ----

/// What is met is not itself exported by a `"use server"` file.
pub open spec fn unexported(s: State) -> bool {
    !(s.in_action_file && s.scope.in_export_decl)
}

/// Nothing changed but the record of what the functions around bind and use.
pub open spec fn calm(s: State, t: State) -> bool {
    t == (State {
        closure_idents: t.closure_idents,
        action_locals: t.action_locals,
        action_idents: t.action_idents,
        top_level: t.top_level,
        ..s
    })
}

/// A body without the statement at an index.
pub open spec fn bare_of(body: Option<BlockView>, directive: Option<int>) -> Option<BlockView> {
    match body {
        Some(b) => Some(BlockView { stmts: without(b.stmts, directive), ..b }),
        None => None,
    }
}

proof fn not_an_action(s: State, body: Option<BlockView>)
    requires
        unexported(s),
        !marked_body(body),
    ensures
        !is_action(s, body),
        action_directive(s, body) is None,
{
    if let Some(b) = body {
        directive_is_where_marked(b.stmts, 0);
    }
}

proof fn end_is_calm(s: State, s0: State, t: State)
    requires
        calm(s0, t),
        s0 == enter_function(s, true) || s0 == enter_function(s, false),
    ensures
        calm(s, end_action(s, leave_function(s, t))),
{
}

proof fn untouched_expr(s: State, e: ExprView)
    requires
        bare_expr(e),
        unexported(s),
    ensures
        visit_expr(s, e).1 == e,
        calm(s, visit_expr(s, e).0),
        visit_expr(s, e).0.top_level == s.top_level,
    decreases e, 2int,
{
    if collects_names(s) && name_of(e) is Some {
        let s1 = State {
            scope: Scope { in_action_closure: false, ..s.scope },
            ..use_name(s, name_of(e)->0)
        };
        untouched_expr_children(s1, e);
    } else {
        untouched_expr_children(s, e);
        let (s1, e1) = visit_expr_children(s, e);
        if let ExprView::Arrow(a) = e {
            not_an_action(s1, arrow_block(a));
        }
        reveal(finish_expr);
    }
}

proof fn untouched_expr_children(s: State, e: ExprView)
    requires
        bare_children(e),
        unexported(s),
    ensures
        visit_expr_children(s, e).1 == e,
        calm(s, visit_expr_children(s, e).0),
        visit_expr_children(s, e).0.top_level == s.top_level,
    decreases e, 1int,
{
    match e {
        ExprView::Ident(_) => {},
        ExprView::Str(_, _) => {},
        ExprView::Member(m) => {
            untouched_member(s, m);
        },
        ExprView::OptMember(m) => {
            untouched_member(s, m);
        },
        ExprView::Fn(f) => {
            untouched_fn_expr(s, f.ident, f.function);
        },
        ExprView::Arrow(a) => {
            untouched_arrow(s, a);
        },
        ExprView::Call(callee, args) => {
            untouched_expr(s, *callee);
            let s1 = visit_expr(s, *callee).0;
            untouched_exprs(s1, args);
        },
        ExprView::Assign(target, value) => {
            untouched_expr(s, *target);
            let s1 = visit_expr(s, *target).0;
            untouched_expr(s1, *value);
        },
        ExprView::Define(_, value) => {
            untouched_expr(s, *value);
        },
        ExprView::Paren(inner) => {
            untouched_expr(s, *inner);
        },
        ExprView::Array(elems) => {
            untouched_exprs(s, elems);
        },
        ExprView::Index(obj, _) => {
            untouched_expr(s, *obj);
        },
        ExprView::Other(o) => {
            untouched_other(s, o);
        },
    }
}

proof fn untouched_member(s: State, m: MemberView)
    requires
        bare_expr(*m.obj),
        unexported(s),
    ensures
        visit_member(s, m).1 == m,
        calm(s, visit_member(s, m).0),
        visit_member(s, m).0.top_level == s.top_level,
    decreases m, 0int,
{
    untouched_expr(s, *m.obj);
}

proof fn untouched_opt_expr(s: State, e: Option<Box<ExprView>>)
    requires
        e is Some ==> bare_expr(*e->0),
        unexported(s),
    ensures
        visit_opt_expr(s, e).1 == e,
        calm(s, visit_opt_expr(s, e).0),
        visit_opt_expr(s, e).0.top_level == s.top_level,
    decreases e, 3int,
{
    if let Some(inner) = e {
        untouched_expr(s, *inner);
    }
}

proof fn untouched_fn_expr(s: State, ident: Option<IdentView>, f: FunctionView)
    requires
        bare_function(f),
        unexported(s),
        !marked_body(f.body),
    ensures
        visit_fn_expr(s, ident, f).1 == (FnExprView { ident, function: f }),
        calm(s, visit_fn_expr(s, ident, f).0),
        visit_fn_expr(s, ident, f).0.top_level == s.top_level,
    decreases f, 2int,
{
    not_an_action(s, f.body);
    untouched_function(s, f);
}

proof fn untouched_fn_decl(s: State, d: FnDeclView)
    requires
        bare_function(d.function),
        unexported(s),
        !marked_body(d.function.body),
    ensures
        visit_fn_decl(s, d).1 == d,
        calm(s, visit_fn_decl(s, d).0),
        visit_fn_decl(s, d).0.top_level == s.top_level,
    decreases d, 0int,
{
    not_an_action(s, d.function.body);
    untouched_function(s, d.function);
}

proof fn untouched_function(s: State, f: FunctionView)
    requires
        bare_function(f),
    ensures
        visit_function(s, f).1 == (FunctionView {
            body: bare_of(f.body, action_directive(s, f.body)),
            ..f
        }),
        calm(s, end_action(s, visit_function(s, f).0)),
        visit_function(s, f).0.top_level == s.top_level,
    decreases f, 1int,
{
    let s0 = enter_function(s, is_action(s, f.body));
    untouched_function_parts(s0, f, action_directive(s, f.body));
    let (s1, params) = visit_params(s0, f.params);
    let (s2, decorators) = visit_decorators(s1, f.decorators);
    let (s3, body) = visit_fn_body(s2, f.body, action_directive(s, f.body));
    assert(calm(s0, s3));
    assert(visit_function(s, f).0 == leave_function(s, s3));
    assert(visit_function(s, f).1 == (FunctionView { params, decorators, body, ..f }));
    end_is_calm(s, s0, s3);
}

proof fn untouched_function_parts(s: State, f: FunctionView, directive: Option<int>)
    requires
        bare_function(f),
        unexported(s),
    ensures
        ({
            let (s1, params) = visit_params(s, f.params);
            let (s2, decorators) = visit_decorators(s1, f.decorators);
            let (s3, body) = visit_fn_body(s2, f.body, directive);
            calm(s, s3) && s3.top_level == s.top_level && params == f.params
                && decorators == f.decorators && body == bare_of(f.body, directive)
        }),
    decreases f, 0int,
{
    untouched_params(s, f.params);
    let s1 = visit_params(s, f.params).0;
    untouched_decorators(s1, f.decorators);
    let s2 = visit_decorators(s1, f.decorators).0;
    untouched_fn_body(s2, f.body, directive);
}

proof fn untouched_fn_body(s: State, body: Option<BlockView>, directive: Option<int>)
    requires
        bare_opt_block(body),
        unexported(s),
    ensures
        calm(s, visit_fn_body(s, body, directive).0),
        visit_fn_body(s, body, directive).0.top_level == s.top_level,
        visit_fn_body(s, body, directive).1 == bare_of(body, directive),
    decreases body, 0int,
{
    if let Some(b) = body {
        without_decreases(b.stmts, directive);
        without_is_part(b.stmts, directive);
        untouched_stmts(s, without(b.stmts, directive));
    }
}

proof fn untouched_arrow(s: State, a: ArrowView)
    requires
        bare_arrow(a),
        unexported(s),
        !marked_arrow(a),
    ensures
        visit_arrow(s, a).1 == a,
        calm(s, visit_arrow(s, a).0),
        visit_arrow(s, a).0.top_level == s.top_level,
    decreases a, 1int,
{
    not_an_action(s, arrow_block(a));
    let s0 = enter_function(s, false);
    untouched_arrow_parts(s0, a);
}

proof fn untouched_arrow_parts(s: State, a: ArrowView)
    requires
        bare_arrow(a),
        unexported(s),
    ensures
        ({
            let (s1, params) = visit_pats(s, a.params);
            let (s2, body) = visit_arrow_body(s1, a.body);
            calm(s, s2) && s2.top_level == s.top_level && params == a.params && body == a.body
        }),
    decreases a, 0int,
{
    untouched_pats(s, a.params);
    let s1 = visit_pats(s, a.params).0;
    untouched_arrow_body(s1, a.body);
}

proof fn untouched_arrow_body(s: State, body: ArrowBodyView)
    requires
        match body {
            ArrowBodyView::Block(b) => bare_block(b),
            ArrowBodyView::Expr(e) => bare_expr(*e),
        },
        unexported(s),
    ensures
        visit_arrow_body(s, body).1 == body,
        calm(s, visit_arrow_body(s, body).0),
        visit_arrow_body(s, body).0.top_level == s.top_level,
    decreases body, 0int,
{
    match body {
        ArrowBodyView::Block(b) => {
            untouched_stmts(s, b.stmts);
        },
        ArrowBodyView::Expr(e) => {
            untouched_expr(s, *e);
        },
    }
}

proof fn untouched_param(s: State, p: ParamView)
    requires
        bare_param(p),
        unexported(s),
    ensures
        visit_param(s, p).1 == p,
        calm(s, visit_param(s, p).0),
        visit_param(s, p).0.top_level == s.top_level,
    decreases p, 1int,
{
    untouched_decorators(s, p.decorators);
    let s1 = visit_decorators(s, p.decorators).0;
    untouched_pat(s1, p.pat);
}

proof fn untouched_pat(s: State, p: PatView)
    requires
        bare_pat(p),
        unexported(s),
    ensures
        visit_pat(s, p).1 == p,
        calm(s, visit_pat(s, p).0),
        visit_pat(s, p).0.top_level == s.top_level,
    decreases p, 1int,
{
    untouched_exprs(s, p.exprs);
}

proof fn untouched_decorator(s: State, d: DecoratorView)
    requires
        bare_decorator(d),
        unexported(s),
    ensures
        visit_decorator(s, d).1 == d,
        calm(s, visit_decorator(s, d).0),
        visit_decorator(s, d).0.top_level == s.top_level,
    decreases d, 1int,
{
    untouched_expr(s, d.expr);
}

proof fn untouched_stmt(s: State, stmt: StmtView)
    requires
        bare_stmt(stmt),
        unexported(s),
    ensures
        visit_stmt(s, stmt).1 == stmt,
        calm(s, visit_stmt(s, stmt).0),
        visit_stmt(s, stmt).0.top_level == s.top_level,
    decreases stmt, 2int,
{
    untouched_stmt_children(s, stmt);
}

proof fn untouched_stmt_children(s: State, stmt: StmtView)
    requires
        bare_stmt(stmt),
        unexported(s),
    ensures
        visit_stmt_children(s, stmt).1 == stmt,
        calm(s, visit_stmt_children(s, stmt).0),
        visit_stmt_children(s, stmt).0.top_level == s.top_level,
    decreases stmt, 1int,
{
    match stmt {
        StmtView::Expr(_, e) => {
            untouched_expr(s, *e);
        },
        StmtView::Decl(d) => {
            untouched_decl(s, d);
        },
        StmtView::Return(e) => {
            untouched_expr(s, *e);
        },
        StmtView::Other(o) => {
            untouched_other(s, o);
        },
    }
}

proof fn untouched_decl(s: State, d: DeclView)
    requires
        bare_decl(d),
        unexported(s),
    ensures
        visit_decl(s, d).1 == d,
        calm(s, visit_decl(s, d).0),
        visit_decl(s, d).0.top_level == s.top_level,
    decreases d, 1int,
{
    match d {
        DeclView::Fn(f) => {
            untouched_fn_decl(s, f);
        },
        DeclView::Var(v) => {
            untouched_declarators(s, v.decls);
        },
        DeclView::Other(o) => {
            untouched_other(s, o);
        },
    }
}

proof fn untouched_declarator(s: State, d: DeclaratorView)
    requires
        bare_declarator(d),
        unexported(s),
    ensures
        visit_declarator(s, d).1 == d,
        calm(s, visit_declarator(s, d).0),
        visit_declarator(s, d).0.top_level == s.top_level,
    decreases d, 1int,
{
    untouched_pat(s, d.name);
    let s1 = visit_pat(s, d.name).0;
    untouched_opt_expr(s1, d.init);
}

proof fn untouched_prop(s: State, p: PropView)
    requires
        bare_prop(p),
        unexported(s),
    ensures
        visit_prop(s, p).1 == p,
        calm(s, visit_prop(s, p).0),
        visit_prop(s, p).0.top_level == s.top_level,
    decreases p, 1int,
{
    match p {
        PropView::Shorthand(_) => {},
        PropView::KeyValue(_, value) => {
            untouched_expr(s, *value);
        },
        PropView::Other(o) => {
            untouched_other(s, o);
        },
    }
}

proof fn untouched_other(s: State, o: OtherView)
    requires
        bare_other(o),
        unexported(s),
    ensures
        visit_other(s, o).1 == o,
        calm(s, visit_other(s, o).0),
        visit_other(s, o).0.top_level == s.top_level,
    decreases o, 1int,
{
    untouched_nodes(s, o.kids);
}

proof fn untouched_node(s: State, n: NodeView)
    requires
        bare_node(n),
        unexported(s),
    ensures
        visit_node(s, n).1 == n,
        calm(s, visit_node(s, n).0),
        visit_node(s, n).0.top_level == s.top_level,
    decreases n, 1int,
{
    match n {
        NodeView::Expr(e) => {
            untouched_expr(s, e);
        },
        NodeView::Stmt(stmt) => {
            untouched_stmt(s, stmt);
        },
        NodeView::Stmts(v) => {
            untouched_stmts(s, v);
        },
        NodeView::Param(p) => {
            untouched_param(s, p);
        },
        NodeView::Prop(p) => {
            untouched_prop(s, p);
        },
        NodeView::Items(_) => {},
    }
}

proof fn untouched_stmts(s: State, v: Seq<StmtView>)
    requires
        bare_stmts(v),
        unexported(s),
    ensures
        visit_stmts(s, v).1 == v,
        calm(s, visit_stmts(s, v).0),
        visit_stmts(s, v).0.top_level == s.top_level,
    decreases v, 5int,
{
    untouched_stmts_in_turn(State { annotations: Seq::empty(), ..s }, v);
}

proof fn untouched_stmts_in_turn(s: State, v: Seq<StmtView>)
    requires
        bare_stmts(v),
        unexported(s),
        s.annotations == Seq::<StmtView>::empty(),
    ensures
        visit_stmts_in_turn(s, v).1 == v,
        calm(s, visit_stmts_in_turn(s, v).0),
    decreases v, 4int,
{
    if v.len() != 0 {
        untouched_stmts_in_turn(s, v.drop_last());
        let s1 = visit_stmts_in_turn(s, v.drop_last()).0;
        let t = State { top_level: false, ..s1 };
        untouched_stmt(t, v.last());
        assert(visit_stmts_in_turn(s, v).1 =~= v.drop_last().push(v.last()));
        assert(v.drop_last().push(v.last()) =~= v);
    } else {
        assert(v =~= Seq::empty());
    }
}

proof fn untouched_exprs(s: State, v: Seq<ExprView>)
    requires
        bare_exprs(v),
        unexported(s),
    ensures
        visit_exprs(s, v).1 == v,
        calm(s, visit_exprs(s, v).0),
        visit_exprs(s, v).0.top_level == s.top_level,
    decreases v, 4int,
{
    if v.len() != 0 {
        untouched_exprs(s, v.drop_last());
        let s1 = visit_exprs(s, v.drop_last()).0;
        untouched_expr(s1, v.last());
        assert(v.drop_last().push(v.last()) =~= v);
    } else {
        assert(v =~= Seq::empty());
    }
}

proof fn untouched_params(s: State, v: Seq<ParamView>)
    requires
        bare_params(v),
        unexported(s),
    ensures
        visit_params(s, v).1 == v,
        calm(s, visit_params(s, v).0),
        visit_params(s, v).0.top_level == s.top_level,
    decreases v, 4int,
{
    if v.len() != 0 {
        untouched_params(s, v.drop_last());
        let s1 = visit_params(s, v.drop_last()).0;
        untouched_param(s1, v.last());
        assert(v.drop_last().push(v.last()) =~= v);
    } else {
        assert(v =~= Seq::empty());
    }
}

proof fn untouched_decorators(s: State, v: Seq<DecoratorView>)
    requires
        bare_decorators(v),
        unexported(s),
    ensures
        visit_decorators(s, v).1 == v,
        calm(s, visit_decorators(s, v).0),
        visit_decorators(s, v).0.top_level == s.top_level,
    decreases v, 4int,
{
    if v.len() != 0 {
        untouched_decorators(s, v.drop_last());
        let s1 = visit_decorators(s, v.drop_last()).0;
        untouched_decorator(s1, v.last());
        assert(v.drop_last().push(v.last()) =~= v);
    } else {
        assert(v =~= Seq::empty());
    }
}

proof fn untouched_pats(s: State, v: Seq<PatView>)
    requires
        bare_pats(v),
        unexported(s),
    ensures
        visit_pats(s, v).1 == v,
        calm(s, visit_pats(s, v).0),
        visit_pats(s, v).0.top_level == s.top_level,
    decreases v, 4int,
{
    if v.len() != 0 {
        untouched_pats(s, v.drop_last());
        let s1 = visit_pats(s, v.drop_last()).0;
        untouched_pat(s1, v.last());
        assert(v.drop_last().push(v.last()) =~= v);
    } else {
        assert(v =~= Seq::empty());
    }
}

proof fn untouched_declarators(s: State, v: Seq<DeclaratorView>)
    requires
        bare_declarators(v),
        unexported(s),
    ensures
        visit_declarators(s, v).1 == v,
        calm(s, visit_declarators(s, v).0),
        visit_declarators(s, v).0.top_level == s.top_level,
    decreases v, 4int,
{
    if v.len() != 0 {
        untouched_declarators(s, v.drop_last());
        let s1 = visit_declarators(s, v.drop_last()).0;
        untouched_declarator(s1, v.last());
        assert(v.drop_last().push(v.last()) =~= v);
    } else {
        assert(v =~= Seq::empty());
    }
}

proof fn untouched_nodes(s: State, v: Seq<NodeView>)
    requires
        bare_nodes(v),
        unexported(s),
    ensures
        visit_nodes(s, v).1 == v,
        calm(s, visit_nodes(s, v).0),
        visit_nodes(s, v).0.top_level == s.top_level,
    decreases v, 4int,
{
    if v.len() != 0 {
        untouched_nodes(s, v.drop_last());
        let s1 = visit_nodes(s, v.drop_last()).0;
        untouched_node(s1, v.last());
        assert(v.drop_last().push(v.last()) =~= v);
    } else {
        assert(v =~= Seq::empty());
    }
}

/// The walk over a function in which no directive stands but its own changes
/// nothing but the record of names.
pub proof fn bare_function_is_calm(s: State, f: FunctionView)
    requires
        bare_function(f),
    ensures
        calm(s, (State { action_start: s.action_start, ..visit_function(s, f).0 })),
        visit_function(s, f).0.top_level == s.top_level,
{
    untouched_function(s, f);
}

/// The walk over an arrow function in which no directive stands but its own
/// leaves it as it is. It is reported just if it has the directive and is not
/// async, outside of `"use server"` files.
pub proof fn bare_arrow_keeps_directive(s: State, a: ArrowView)
    requires
        bare_arrow(a),
    ensures
        ({
            let (t, a1) = visit_arrow(s, a);
            &&& a1 == a
            &&& t.errors == if marked_arrow(a) && !a.is_async && !s.in_action_file {
                s.errors.push(Diagnostic { span: a.span, problem: Problem::NotAsync })
            } else {
                s.errors
            }
            &&& t.ident_cnt == s.ident_cnt
            &&& t.export_actions == s.export_actions
            &&& t.annotations == s.annotations
            &&& t.extra_items == s.extra_items
            &&& t.has_action == s.has_action
        }),
{
    let action = is_action(s, arrow_block(a));
    let s0 = enter_function(s, action);
    untouched_arrow_parts(s0, a);
    if let ArrowBodyView::Block(b) = a.body {
        directive_is_where_marked(b.stmts, 0);
    }
}

/// An expression without directives in it is left as it is, in every file, in
/// every function and in every scope. Nothing but names is recorded.
pub proof fn bare_expression(s: State, e: ExprView)
    requires
        bare_expr(e),
        !(s.in_action_file && s.scope.in_export_decl),
    ensures
        visit_expr(s, e).1 == e,
        visit_expr(s, e).0.ident_cnt == s.ident_cnt,
        visit_expr(s, e).0.export_actions == s.export_actions,
        visit_expr(s, e).0.annotations == s.annotations,
        visit_expr(s, e).0.extra_items == s.extra_items,
        visit_expr(s, e).0.errors == s.errors,
        visit_expr(s, e).0.has_action == s.has_action,
{
    untouched_expr(s, e);
}

/// A statement without directives in it is left as it is.
pub proof fn bare_statement(s: State, stmt: StmtView)
    requires
        bare_stmt(stmt),
        !(s.in_action_file && s.scope.in_export_decl),
    ensures
        visit_stmt(s, stmt).1 == stmt,
        visit_stmt(s, stmt).0.ident_cnt == s.ident_cnt,
        visit_stmt(s, stmt).0.export_actions == s.export_actions,
        visit_stmt(s, stmt).0.annotations == s.annotations,
        visit_stmt(s, stmt).0.extra_items == s.extra_items,
        visit_stmt(s, stmt).0.errors == s.errors,
        visit_stmt(s, stmt).0.has_action == s.has_action,
{
    untouched_stmt(s, stmt);
}

/// The walk over a function in which no directive stands but its own takes out
/// that directive and nothing else. In a `"use server"` file an exported
/// function keeps it, as it is an action for being exported.
pub proof fn bare_function_loses_directive(s: State, f: FunctionView, k: int)
    requires
        bare_function(f),
    ensures
        ({
            let (t, f1) = visit_function(s, f);
            &&& t.ident_cnt == s.ident_cnt
            &&& t.export_actions == s.export_actions
            &&& t.annotations == s.annotations
            &&& t.extra_items == s.extra_items
            &&& t.errors == s.errors
            &&& t.has_action == s.has_action
            &&& f1.origin == f.origin
            &&& f1.span == f.span
            &&& f1.params == f.params
            &&& f1.decorators == f.decorators
            &&& f1.is_async == f.is_async
            &&& f1.is_generator == f.is_generator
            &&& match f.body {
                Some(b) => {
                    &&& f1.body is Some
                    &&& f1.body->0.origin == b.origin
                    &&& unexported(s) && marked_at(b.stmts, k) ==> f1.body->0.stmts
                        == b.stmts.remove(k)
                    &&& !unexported(s) || !marked(b.stmts) ==> f1.body->0.stmts == b.stmts
                },
                None => f1.body is None,
            }
        }),
{
    untouched_function(s, f);
    if let Some(b) = f.body {
        directive_is_where_marked(b.stmts, k);
    }
}

} // verus!
