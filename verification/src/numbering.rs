//! Which actions are exported as `default`, and which under numbers.

use vstd::prelude::*;

use crate::actions::{
    arrow_action, arrow_stays_marked, counted, declared_action, exported_under, expressed_action,
    marked_arrow, marked_body,
};
use crate::ast::Span;
use crate::directive::module_directive;
use crate::frame::{
    finish_expr_extends, finish_function_extends, numbered, visit_arrow_extends, visit_expr_extends,
    visit_fn_decl_extends, visit_fn_expr_extends, visit_function_extends,
};
use crate::laws::module_walk_keeps_count;
use crate::mentioned::without_is_part;
use crate::model::{
    ArrowBodyView, ArrowView, BlockView, DeclView, DeclaratorView, DecoratorView, DefaultDeclView,
    ExprView, FnDeclView, FnExprView, FunctionView, IdentView, MemberView, ModuleItemView,
    ModuleView, NodeView, OtherView, ParamView, PatView, PropView, StmtView,
};
use crate::names::name_of;
use crate::state::{action_ident, initial_state, Config, Scope, State};
use crate::text::action_name;
use crate::transform::{
    action_directive, add_action, arrow_block, collects_names, default_name, default_scope,
    enter_function, enter_items, export_scope, finish_arrow, finish_expr, finish_function,
    is_action, leave_items, name_action, note_exports, take_ident, use_name, visit_arrow,
    visit_arrow_body, visit_decl, visit_declarator, visit_declarators, visit_decorator,
    visit_decorators, visit_export_decl, visit_exported_item, visit_expr, visit_expr_children,
    visit_exprs, visit_fn_body, visit_fn_decl, visit_fn_expr, visit_function, visit_item,
    visit_items, visit_items_in_turn, visit_member, visit_module, visit_node, visit_nodes,
    visit_opt_expr, visit_other, visit_param, visit_params, visit_pat, visit_pats, visit_prop,
    visit_stmt, visit_stmt_children, visit_stmts, visit_stmts_in_turn, visit_top_item, without,
    without_decreases, without_directive, CallableView,
};
use crate::vocabulary::{action_name_is_not_default, directive_is_where_marked, marked_at};

verus! {

/// From an index on no name is `default`.
#[verifier::opaque]
pub open spec fn generated_from(names: Seq<Seq<char>>, k: int) -> bool {
    forall|i: int| 0 <= i && k <= i < names.len() ==> #[trigger] names[i] != "default"@
}

proof fn generated_push(names: Seq<Seq<char>>, k: int, n: nat)
    requires
        generated_from(names, k),
    ensures
        generated_from(names.push(action_name(n)), k),
{
    reveal(generated_from);
    action_name_is_not_default(n);
}

// ---- Without a default export ----

pub open spec fn no_default_expr(e: ExprView) -> bool
    decreases e, 1int,
{
    no_default_children(e)
}

pub open spec fn no_default_children(e: ExprView) -> bool
    decreases e, 0int,
{
    match e {
        ExprView::Ident(_) => true,
        ExprView::Str(_, _) => true,
        ExprView::Member(m) => no_default_expr(*m.obj),
        ExprView::OptMember(m) => no_default_expr(*m.obj),
        ExprView::Fn(f) => no_default_function(f.function),
        ExprView::Arrow(a) => no_default_arrow(a),
        ExprView::Call(callee, args) => no_default_expr(*callee) && no_default_exprs(args),
        ExprView::Assign(target, value) => no_default_expr(*target) && no_default_expr(*value),
        ExprView::Define(_, value) => no_default_expr(*value),
        ExprView::Paren(inner) => no_default_expr(*inner),
        ExprView::Array(elems) => no_default_exprs(elems),
        ExprView::Index(obj, _) => no_default_expr(*obj),
        ExprView::Other(o) => no_default_other(o),
    }
}

pub open spec fn no_default_function(f: FunctionView) -> bool
    decreases f, 1int,
{
    no_default_params(f.params) && no_default_decorators(f.decorators)
        && no_default_opt_block(f.body)
}

pub open spec fn no_default_opt_block(b: Option<BlockView>) -> bool
    decreases b, 1int,
{
    match b {
        Some(block) => no_default_block(block),
        None => true,
    }
}

pub open spec fn no_default_block(b: BlockView) -> bool
    decreases b, 1int,
{
    no_default_stmts(b.stmts)
}

pub open spec fn no_default_arrow(a: ArrowView) -> bool
    decreases a, 1int,
{
    no_default_pats(a.params) && match a.body {
        ArrowBodyView::Block(b) => no_default_block(b),
        ArrowBodyView::Expr(e) => no_default_expr(*e),
    }
}

pub open spec fn no_default_param(p: ParamView) -> bool
    decreases p, 1int,
{
    no_default_decorators(p.decorators) && no_default_pat(p.pat)
}

pub open spec fn no_default_pat(p: PatView) -> bool
    decreases p, 1int,
{
    no_default_exprs(p.exprs)
}

pub open spec fn no_default_decorator(d: DecoratorView) -> bool
    decreases d, 1int,
{
    no_default_expr(d.expr)
}

pub open spec fn no_default_stmt(s: StmtView) -> bool
    decreases s, 1int,
{
    match s {
        StmtView::Expr(_, e) => no_default_expr(*e),
        StmtView::Decl(d) => no_default_decl(d),
        StmtView::Return(e) => no_default_expr(*e),
        StmtView::Other(o) => no_default_other(o),
    }
}

pub open spec fn no_default_decl(d: DeclView) -> bool
    decreases d, 1int,
{
    match d {
        DeclView::Fn(f) => no_default_function(f.function),
        DeclView::Var(v) => no_default_declarators(v.decls),
        DeclView::Other(o) => no_default_other(o),
    }
}

pub open spec fn no_default_declarator(d: DeclaratorView) -> bool
    decreases d, 1int,
{
    no_default_pat(d.name) && match d.init {
        Some(e) => no_default_expr(*e),
        None => true,
    }
}

pub open spec fn no_default_prop(p: PropView) -> bool
    decreases p, 1int,
{
    match p {
        PropView::Shorthand(_) => true,
        PropView::KeyValue(_, value) => no_default_expr(*value),
        PropView::Other(o) => no_default_other(o),
    }
}

pub open spec fn no_default_other(o: OtherView) -> bool
    decreases o, 1int,
{
    no_default_nodes(o.kids)
}

pub open spec fn no_default_node(n: NodeView) -> bool
    decreases n, 1int,
{
    match n {
        NodeView::Expr(e) => no_default_expr(e),
        NodeView::Stmt(s) => no_default_stmt(s),
        NodeView::Stmts(v) => no_default_stmts(v),
        NodeView::Param(p) => no_default_param(p),
        NodeView::Prop(p) => no_default_prop(p),
        NodeView::Items(v) => no_default_items(v),
    }
}

pub open spec fn no_default_item(item: ModuleItemView) -> bool
    decreases item, 1int,
{
    match item {
        ModuleItemView::Stmt(s) => no_default_stmt(s),
        ModuleItemView::ExportDecl(_, d) => no_default_decl(d),
        ModuleItemView::ExportNamed(n) => no_default_other(n.rest),
        ModuleItemView::ExportDefaultDecl(_, _) => false,
        ModuleItemView::ExportDefaultExpr(_, _) => false,
        ModuleItemView::ExportAll(_, o) => no_default_other(o),
        ModuleItemView::Other(o) => no_default_other(o),
    }
}

pub open spec fn no_default_exprs(v: Seq<ExprView>) -> bool
    decreases v, 3int,
{
    forall|i: int| 0 <= i < v.len() ==> no_default_expr(#[trigger] v[i])
}

pub open spec fn no_default_params(v: Seq<ParamView>) -> bool
    decreases v, 3int,
{
    forall|i: int| 0 <= i < v.len() ==> no_default_param(#[trigger] v[i])
}

pub open spec fn no_default_decorators(v: Seq<DecoratorView>) -> bool
    decreases v, 3int,
{
    forall|i: int| 0 <= i < v.len() ==> no_default_decorator(#[trigger] v[i])
}

pub open spec fn no_default_pats(v: Seq<PatView>) -> bool
    decreases v, 3int,
{
    forall|i: int| 0 <= i < v.len() ==> no_default_pat(#[trigger] v[i])
}

pub open spec fn no_default_declarators(v: Seq<DeclaratorView>) -> bool
    decreases v, 3int,
{
    forall|i: int| 0 <= i < v.len() ==> no_default_declarator(#[trigger] v[i])
}

pub open spec fn no_default_nodes(v: Seq<NodeView>) -> bool
    decreases v, 3int,
{
    forall|i: int| 0 <= i < v.len() ==> no_default_node(#[trigger] v[i])
}

pub open spec fn no_default_stmts(v: Seq<StmtView>) -> bool
    decreases v, 3int,
{
    forall|i: int| 0 <= i < v.len() ==> no_default_stmt(#[trigger] v[i])
}

pub open spec fn no_default_items(v: Seq<ModuleItemView>) -> bool
    decreases v, 3int,
{
    forall|i: int| 0 <= i < v.len() ==> no_default_item(#[trigger] v[i])
}

proof fn add_action_number(k: int, s: State, ident: IdentView, c: CallableView)
    requires
        !s.scope.in_default_export_decl,
        generated_from(s.export_actions, k),
    ensures
        add_action(s, ident, c).0.scope == s.scope,
        generated_from(add_action(s, ident, c).0.export_actions, k),
{
    reveal(add_action);
    generated_push(s.export_actions, k, s.ident_cnt);
}

proof fn finish_function_number(
    k: int,
    s: State,
    span: Span,
    ident: IdentView,
    f: FunctionView,
)
    requires
        !s.scope.in_default_export_decl,
        generated_from(s.export_actions, k),
    ensures
        finish_function(s, span, ident, f).0.scope == s.scope,
        generated_from(finish_function(s, span, ident, f).0.export_actions, k),
{
    reveal(finish_function);
    add_action_number(k, s, ident, CallableView::Function(f));
}

proof fn finish_expr_number(k: int, s: State, e: ExprView)
    requires
        !s.scope.in_default_export_decl,
        generated_from(s.export_actions, k),
    ensures
        finish_expr(s, e).0.scope == s.scope,
        generated_from(finish_expr(s, e).0.export_actions, k),
{
    reveal(finish_expr);
    if let ExprView::Arrow(a) = e {
        reveal(finish_arrow);
        add_action_number(
            k,
            take_ident(s),
            action_ident(s.ident_cnt),
            CallableView::Arrow(without_directive(a)),
        );
    }
}

proof fn note_exports_number(k: int, s: State, item: ModuleItemView)
    ensures
        note_exports(s, item).scope == s.scope,
        note_exports(s, item).export_actions == s.export_actions,
{
    reveal(note_exports);
}

proof fn leave_items_number(
    k: int,
    s: State,
    outer_annotations: Seq<StmtView>,
    items: Seq<ModuleItemView>,
)
    ensures
        leave_items(s, outer_annotations, items).0.scope == s.scope,
        leave_items(s, outer_annotations, items).0.export_actions == s.export_actions,
{
    reveal(leave_items);
}

proof fn number_expr(k: int, s: State, e: ExprView)
    requires
        no_default_expr(e),
        !s.scope.in_default_export_decl,
        generated_from(s.export_actions, k),
    ensures
        visit_expr(s, e).0.scope == s.scope,
        generated_from(visit_expr(s, e).0.export_actions, k),
    decreases e, 2int,
{
    if collects_names(s) && name_of(e) is Some {
        let s1 = State {
            scope: Scope { in_action_closure: false, ..s.scope },
            ..use_name(s, name_of(e)->0)
        };
        number_expr_children(k, s1, e);
    } else {
        number_expr_children(k, s, e);
        let (s1, e1) = visit_expr_children(s, e);
        finish_expr_number(k, s1, e1);
    }
}

proof fn number_expr_children(k: int, s: State, e: ExprView)
    requires
        no_default_children(e),
        !s.scope.in_default_export_decl,
        generated_from(s.export_actions, k),
    ensures
        visit_expr_children(s, e).0.scope == s.scope,
        generated_from(visit_expr_children(s, e).0.export_actions, k),
    decreases e, 1int,
{
    match e {
        ExprView::Ident(_) => {},
        ExprView::Str(_, _) => {},
        ExprView::Member(m) => {
            number_member(k, s, m);
        },
        ExprView::OptMember(m) => {
            number_member(k, s, m);
        },
        ExprView::Fn(f) => {
            number_fn_expr(k, s, f.ident, f.function);
        },
        ExprView::Arrow(a) => {
            number_arrow(k, s, a);
        },
        ExprView::Call(callee, args) => {
            number_expr(k, s, *callee);
            let s1 = visit_expr(s, *callee).0;
            number_exprs(k, s1, args);
        },
        ExprView::Assign(target, value) => {
            number_expr(k, s, *target);
            let s1 = visit_expr(s, *target).0;
            number_expr(k, s1, *value);
        },
        ExprView::Define(_, value) => {
            number_expr(k, s, *value);
        },
        ExprView::Paren(inner) => {
            number_expr(k, s, *inner);
        },
        ExprView::Array(elems) => {
            number_exprs(k, s, elems);
        },
        ExprView::Index(obj, _) => {
            number_expr(k, s, *obj);
        },
        ExprView::Other(o) => {
            number_other(k, s, o);
        },
    }
}

proof fn number_member(k: int, s: State, m: MemberView)
    requires
        no_default_expr(*m.obj),
        !s.scope.in_default_export_decl,
        generated_from(s.export_actions, k),
    ensures
        visit_member(s, m).0.scope == s.scope,
        generated_from(visit_member(s, m).0.export_actions, k),
    decreases m, 0int,
{
    number_expr(k, s, *m.obj);
}

proof fn number_opt_expr(k: int, s: State, e: Option<Box<ExprView>>)
    requires
        e is Some ==> no_default_expr(*e->0),
        !s.scope.in_default_export_decl,
        generated_from(s.export_actions, k),
    ensures
        visit_opt_expr(s, e).0.scope == s.scope,
        generated_from(visit_opt_expr(s, e).0.export_actions, k),
    decreases e, 3int,
{
    if let Some(inner) = e {
        number_expr(k, s, *inner);
    }
}

proof fn number_fn_expr(k: int, s: State, ident: Option<IdentView>, f: FunctionView)
    requires
        no_default_function(f),
        !s.scope.in_default_export_decl,
        generated_from(s.export_actions, k),
    ensures
        visit_fn_expr(s, ident, f).0.scope == s.scope,
        generated_from(visit_fn_expr(s, ident, f).0.export_actions, k),
    decreases f, 2int,
{
    number_function(k, s, f);
    let (s1, f1) = visit_function(s, f);
    if is_action(s, f.body) {
        let (s2, ident2) = name_action(s1, ident, f1);
        finish_function_number(k, s2, f1.span, ident2->0, f1);
    }
}

proof fn number_fn_decl(k: int, s: State, d: FnDeclView)
    requires
        no_default_function(d.function),
        !s.scope.in_default_export_decl,
        generated_from(s.export_actions, k),
    ensures
        visit_fn_decl(s, d).0.scope == s.scope,
        generated_from(visit_fn_decl(s, d).0.export_actions, k),
    decreases d, 0int,
{
    number_function(k, s, d.function);
    let (s1, f1) = visit_function(s, d.function);
    finish_function_number(k, s1, d.ident.span, d.ident, f1);
}

proof fn number_function(k: int, s: State, f: FunctionView)
    requires
        no_default_function(f),
        generated_from(s.export_actions, k),
    ensures
        visit_function(s, f).0.scope == s.scope,
        generated_from(visit_function(s, f).0.export_actions, k),
    decreases f, 1int,
{
    let s0 = enter_function(s, is_action(s, f.body));
    number_function_parts(k, s0, f, action_directive(s, f.body));
}

proof fn number_function_parts(k: int, s: State, f: FunctionView, directive: Option<int>)
    requires
        no_default_function(f),
        !s.scope.in_default_export_decl,
        generated_from(s.export_actions, k),
    ensures
        ({
            let (s1, params) = visit_params(s, f.params);
            let (s2, decorators) = visit_decorators(s1, f.decorators);
            let (s3, body) = visit_fn_body(s2, f.body, directive);
            s3.scope == s.scope && generated_from(s3.export_actions, k)
        }),
    decreases f, 0int,
{
    number_params(k, s, f.params);
    let s1 = visit_params(s, f.params).0;
    number_decorators(k, s1, f.decorators);
    let s2 = visit_decorators(s1, f.decorators).0;
    number_fn_body(k, s2, f.body, directive);
}

proof fn number_fn_body(k: int, s: State, body: Option<BlockView>, directive: Option<int>)
    requires
        no_default_opt_block(body),
        !s.scope.in_default_export_decl,
        generated_from(s.export_actions, k),
    ensures
        visit_fn_body(s, body, directive).0.scope == s.scope,
        generated_from(visit_fn_body(s, body, directive).0.export_actions, k),
    decreases body, 0int,
{
    if let Some(b) = body {
        without_decreases(b.stmts, directive);
        without_is_part(b.stmts, directive);
        number_stmts(k, s, without(b.stmts, directive));
    }
}

proof fn number_arrow(k: int, s: State, a: ArrowView)
    requires
        no_default_arrow(a),
        generated_from(s.export_actions, k),
    ensures
        visit_arrow(s, a).0.scope == s.scope,
        generated_from(visit_arrow(s, a).0.export_actions, k),
    decreases a, 1int,
{
    let s0 = enter_function(s, is_action(s, arrow_block(a)));
    number_arrow_parts(k, s0, a);
}

proof fn number_arrow_parts(k: int, s: State, a: ArrowView)
    requires
        no_default_arrow(a),
        !s.scope.in_default_export_decl,
        generated_from(s.export_actions, k),
    ensures
        ({
            let (s1, params) = visit_pats(s, a.params);
            let (s2, body) = visit_arrow_body(s1, a.body);
            s2.scope == s.scope && generated_from(s2.export_actions, k)
        }),
    decreases a, 0int,
{
    number_pats(k, s, a.params);
    let s1 = visit_pats(s, a.params).0;
    number_arrow_body(k, s1, a.body);
}

proof fn number_arrow_body(k: int, s: State, body: ArrowBodyView)
    requires
        match body {
            ArrowBodyView::Block(b) => no_default_block(b),
            ArrowBodyView::Expr(e) => no_default_expr(*e),
        },
        !s.scope.in_default_export_decl,
        generated_from(s.export_actions, k),
    ensures
        visit_arrow_body(s, body).0.scope == s.scope,
        generated_from(visit_arrow_body(s, body).0.export_actions, k),
    decreases body, 0int,
{
    match body {
        ArrowBodyView::Block(b) => {
            number_stmts(k, s, b.stmts);
        },
        ArrowBodyView::Expr(e) => {
            number_expr(k, s, *e);
        },
    }
}

proof fn number_param(k: int, s: State, p: ParamView)
    requires
        no_default_param(p),
        !s.scope.in_default_export_decl,
        generated_from(s.export_actions, k),
    ensures
        visit_param(s, p).0.scope == s.scope,
        generated_from(visit_param(s, p).0.export_actions, k),
    decreases p, 1int,
{
    number_decorators(k, s, p.decorators);
    let s1 = visit_decorators(s, p.decorators).0;
    number_pat(k, s1, p.pat);
}

proof fn number_pat(k: int, s: State, p: PatView)
    requires
        no_default_pat(p),
        !s.scope.in_default_export_decl,
        generated_from(s.export_actions, k),
    ensures
        visit_pat(s, p).0.scope == s.scope,
        generated_from(visit_pat(s, p).0.export_actions, k),
    decreases p, 1int,
{
    number_exprs(k, s, p.exprs);
}

proof fn number_decorator(k: int, s: State, d: DecoratorView)
    requires
        no_default_decorator(d),
        !s.scope.in_default_export_decl,
        generated_from(s.export_actions, k),
    ensures
        visit_decorator(s, d).0.scope == s.scope,
        generated_from(visit_decorator(s, d).0.export_actions, k),
    decreases d, 1int,
{
    number_expr(k, s, d.expr);
}

proof fn number_stmt(k: int, s: State, stmt: StmtView)
    requires
        no_default_stmt(stmt),
        !s.scope.in_default_export_decl,
        generated_from(s.export_actions, k),
    ensures
        visit_stmt(s, stmt).0.scope == s.scope,
        generated_from(visit_stmt(s, stmt).0.export_actions, k),
    decreases stmt, 2int,
{
    number_stmt_children(k, s, stmt);
}

proof fn number_stmt_children(k: int, s: State, stmt: StmtView)
    requires
        no_default_stmt(stmt),
        !s.scope.in_default_export_decl,
        generated_from(s.export_actions, k),
    ensures
        visit_stmt_children(s, stmt).0.scope == s.scope,
        generated_from(visit_stmt_children(s, stmt).0.export_actions, k),
    decreases stmt, 1int,
{
    match stmt {
        StmtView::Expr(_, e) => {
            number_expr(k, s, *e);
        },
        StmtView::Decl(d) => {
            number_decl(k, s, d);
        },
        StmtView::Return(e) => {
            number_expr(k, s, *e);
        },
        StmtView::Other(o) => {
            number_other(k, s, o);
        },
    }
}

proof fn number_decl(k: int, s: State, d: DeclView)
    requires
        no_default_decl(d),
        !s.scope.in_default_export_decl,
        generated_from(s.export_actions, k),
    ensures
        visit_decl(s, d).0.scope == s.scope,
        generated_from(visit_decl(s, d).0.export_actions, k),
    decreases d, 1int,
{
    match d {
        DeclView::Fn(f) => {
            number_fn_decl(k, s, f);
        },
        DeclView::Var(v) => {
            number_declarators(k, s, v.decls);
        },
        DeclView::Other(o) => {
            number_other(k, s, o);
        },
    }
}

proof fn number_declarator(k: int, s: State, d: DeclaratorView)
    requires
        no_default_declarator(d),
        !s.scope.in_default_export_decl,
        generated_from(s.export_actions, k),
    ensures
        visit_declarator(s, d).0.scope == s.scope,
        generated_from(visit_declarator(s, d).0.export_actions, k),
    decreases d, 1int,
{
    number_pat(k, s, d.name);
    let s1 = visit_pat(s, d.name).0;
    number_opt_expr(k, s1, d.init);
}

proof fn number_prop(k: int, s: State, p: PropView)
    requires
        no_default_prop(p),
        !s.scope.in_default_export_decl,
        generated_from(s.export_actions, k),
    ensures
        visit_prop(s, p).0.scope == s.scope,
        generated_from(visit_prop(s, p).0.export_actions, k),
    decreases p, 1int,
{
    match p {
        PropView::Shorthand(_) => {},
        PropView::KeyValue(_, value) => {
            number_expr(k, s, *value);
        },
        PropView::Other(o) => {
            number_other(k, s, o);
        },
    }
}

proof fn number_other(k: int, s: State, o: OtherView)
    requires
        no_default_other(o),
        !s.scope.in_default_export_decl,
        generated_from(s.export_actions, k),
    ensures
        visit_other(s, o).0.scope == s.scope,
        generated_from(visit_other(s, o).0.export_actions, k),
    decreases o, 1int,
{
    number_nodes(k, s, o.kids);
}

proof fn number_node(k: int, s: State, n: NodeView)
    requires
        no_default_node(n),
        !s.scope.in_default_export_decl,
        generated_from(s.export_actions, k),
    ensures
        visit_node(s, n).0.scope == s.scope,
        generated_from(visit_node(s, n).0.export_actions, k),
    decreases n, 1int,
{
    match n {
        NodeView::Expr(e) => {
            number_expr(k, s, e);
        },
        NodeView::Stmt(stmt) => {
            number_stmt(k, s, stmt);
        },
        NodeView::Stmts(v) => {
            number_stmts(k, s, v);
        },
        NodeView::Param(p) => {
            number_param(k, s, p);
        },
        NodeView::Prop(p) => {
            number_prop(k, s, p);
        },
        NodeView::Items(v) => {
            number_items(k, s, v);
        },
    }
}

proof fn number_stmts(k: int, s: State, v: Seq<StmtView>)
    requires
        no_default_stmts(v),
        !s.scope.in_default_export_decl,
        generated_from(s.export_actions, k),
    ensures
        visit_stmts(s, v).0.scope == s.scope,
        generated_from(visit_stmts(s, v).0.export_actions, k),
    decreases v, 5int,
{
    number_stmts_in_turn(k, State { annotations: Seq::empty(), ..s }, v);
}

proof fn number_stmts_in_turn(k: int, s: State, v: Seq<StmtView>)
    requires
        no_default_stmts(v),
        !s.scope.in_default_export_decl,
        generated_from(s.export_actions, k),
    ensures
        visit_stmts_in_turn(s, v).0.scope == s.scope,
        generated_from(visit_stmts_in_turn(s, v).0.export_actions, k),
    decreases v, 4int,
{
    if v.len() != 0 {
        number_stmts_in_turn(k, s, v.drop_last());
        let s1 = visit_stmts_in_turn(s, v.drop_last()).0;
        let t = State { top_level: false, ..s1 };
        number_stmt(k, t, v.last());
    }
}

proof fn number_items(k: int, s: State, v: Seq<ModuleItemView>)
    requires
        no_default_items(v),
        !s.scope.in_default_export_decl,
        generated_from(s.export_actions, k),
    ensures
        visit_items(s, v).0.scope == s.scope,
        generated_from(visit_items(s, v).0.export_actions, k),
    decreases v, 5int,
{
    without_decreases(v, module_directive(v));
    without_is_part(v, module_directive(v));
    let s1 = State { annotations: Seq::empty(), ..enter_items(s, v) };
    let w = without(v, module_directive(v));
    number_items_in_turn(k, s1, w);
    let (s2, v2) = visit_items_in_turn(s1, w);
    leave_items_number(k, s2, s.annotations, v2);
}

proof fn number_items_in_turn(k: int, s: State, v: Seq<ModuleItemView>)
    requires
        no_default_items(v),
        !s.scope.in_default_export_decl,
        generated_from(s.export_actions, k),
    ensures
        visit_items_in_turn(s, v).0.scope == s.scope,
        generated_from(visit_items_in_turn(s, v).0.export_actions, k),
    decreases v, 4int,
{
    if v.len() != 0 {
        number_items_in_turn(k, s, v.drop_last());
        let s1 = visit_items_in_turn(s, v.drop_last()).0;
        let t = State { top_level: true, ..s1 };
        number_top_item(k, t, v.last());
    }
}

proof fn number_top_item(k: int, s: State, item: ModuleItemView)
    requires
        no_default_item(item),
        !s.scope.in_default_export_decl,
        generated_from(s.export_actions, k),
    ensures
        visit_top_item(s, item).0.scope == s.scope,
        generated_from(visit_top_item(s, item).0.export_actions, k),
    decreases item, 3int,
{
    if s.in_action_file {
        note_exports_number(k, s, item);
        let s1 = note_exports(s, item);
        number_exported_item(k, s1, default_name(s, item), item);
    } else {
        number_item(k, s, item);
    }
}

proof fn number_exported_item(k: int, s: State, name: Option<IdentView>, item: ModuleItemView)
    requires
        no_default_item(item),
        !s.scope.in_default_export_decl,
        generated_from(s.export_actions, k),
    ensures
        visit_exported_item(s, name, item).0.scope == s.scope,
        generated_from(visit_exported_item(s, name, item).0.export_actions, k),
    decreases item, 2int,
{
    number_item(k, s, item);
}

proof fn number_export_decl(k: int, s: State, d: DeclView)
    requires
        no_default_decl(d),
        !s.scope.in_default_export_decl,
        generated_from(s.export_actions, k),
    ensures
        visit_export_decl(s, d).0.scope == s.scope,
        generated_from(visit_export_decl(s, d).0.export_actions, k),
    decreases d, 2int,
{
    number_decl(k, export_scope(s), d);
}

proof fn number_item(k: int, s: State, item: ModuleItemView)
    requires
        no_default_item(item),
        !s.scope.in_default_export_decl,
        generated_from(s.export_actions, k),
    ensures
        visit_item(s, item).0.scope == s.scope,
        generated_from(visit_item(s, item).0.export_actions, k),
    decreases item, 1int,
{
    match item {
        ModuleItemView::Stmt(stmt) => {
            number_stmt(k, s, stmt);
        },
        ModuleItemView::ExportDecl(span, d) => {
            number_export_decl(k, s, d);
        },
        ModuleItemView::ExportNamed(n) => {
            number_other(k, s, n.rest);
        },
        ModuleItemView::ExportDefaultDecl(_, _) => {},
        ModuleItemView::ExportDefaultExpr(_, _) => {},
        ModuleItemView::ExportAll(span, o) => {
            number_other(k, s, o);
        },
        ModuleItemView::Other(o) => {
            number_other(k, s, o);
        },
    }
}

proof fn number_exprs(k: int, s: State, v: Seq<ExprView>)
    requires
        no_default_exprs(v),
        !s.scope.in_default_export_decl,
        generated_from(s.export_actions, k),
    ensures
        visit_exprs(s, v).0.scope == s.scope,
        generated_from(visit_exprs(s, v).0.export_actions, k),
    decreases v, 4int,
{
    if v.len() != 0 {
        number_exprs(k, s, v.drop_last());
        let s1 = visit_exprs(s, v.drop_last()).0;
        number_expr(k, s1, v.last());
    }
}

proof fn number_params(k: int, s: State, v: Seq<ParamView>)
    requires
        no_default_params(v),
        !s.scope.in_default_export_decl,
        generated_from(s.export_actions, k),
    ensures
        visit_params(s, v).0.scope == s.scope,
        generated_from(visit_params(s, v).0.export_actions, k),
    decreases v, 4int,
{
    if v.len() != 0 {
        number_params(k, s, v.drop_last());
        let s1 = visit_params(s, v.drop_last()).0;
        number_param(k, s1, v.last());
    }
}

proof fn number_decorators(k: int, s: State, v: Seq<DecoratorView>)
    requires
        no_default_decorators(v),
        !s.scope.in_default_export_decl,
        generated_from(s.export_actions, k),
    ensures
        visit_decorators(s, v).0.scope == s.scope,
        generated_from(visit_decorators(s, v).0.export_actions, k),
    decreases v, 4int,
{
    if v.len() != 0 {
        number_decorators(k, s, v.drop_last());
        let s1 = visit_decorators(s, v.drop_last()).0;
        number_decorator(k, s1, v.last());
    }
}

proof fn number_pats(k: int, s: State, v: Seq<PatView>)
    requires
        no_default_pats(v),
        !s.scope.in_default_export_decl,
        generated_from(s.export_actions, k),
    ensures
        visit_pats(s, v).0.scope == s.scope,
        generated_from(visit_pats(s, v).0.export_actions, k),
    decreases v, 4int,
{
    if v.len() != 0 {
        number_pats(k, s, v.drop_last());
        let s1 = visit_pats(s, v.drop_last()).0;
        number_pat(k, s1, v.last());
    }
}

proof fn number_declarators(k: int, s: State, v: Seq<DeclaratorView>)
    requires
        no_default_declarators(v),
        !s.scope.in_default_export_decl,
        generated_from(s.export_actions, k),
    ensures
        visit_declarators(s, v).0.scope == s.scope,
        generated_from(visit_declarators(s, v).0.export_actions, k),
    decreases v, 4int,
{
    if v.len() != 0 {
        number_declarators(k, s, v.drop_last());
        let s1 = visit_declarators(s, v.drop_last()).0;
        number_declarator(k, s1, v.last());
    }
}

proof fn number_nodes(k: int, s: State, v: Seq<NodeView>)
    requires
        no_default_nodes(v),
        !s.scope.in_default_export_decl,
        generated_from(s.export_actions, k),
    ensures
        visit_nodes(s, v).0.scope == s.scope,
        generated_from(visit_nodes(s, v).0.export_actions, k),
    decreases v, 4int,
{
    if v.len() != 0 {
        number_nodes(k, s, v.drop_last());
        let s1 = visit_nodes(s, v.drop_last()).0;
        number_node(k, s1, v.last());
    }
}

/// In a module without a default export no action is exported as `default`, and
/// no two actions are exported under the same name.
pub proof fn actions_are_numbered(file_name: Seq<char>, config: Config, m: ModuleView)
    requires
        no_default_items(m.body),
    ensures
        ({
            let names = visit_module(initial_state(file_name, config), m).0.export_actions;
            &&& forall|i: int| 0 <= i < names.len() ==> #[trigger] names[i] != "default"@
            &&& forall|i: int, j: int|
                0 <= i < j < names.len() ==> #[trigger] names[i] != #[trigger] names[j]
        }),
{
    let s = State { start_pos: m.span.lo, ..initial_state(file_name, config) };
    reveal(generated_from);
    reveal(numbered);
    number_items(0, s, m.body);
    module_walk_keeps_count(file_name, config, m);
}

/// No action inside of a function is exported as `default`, even if the function
/// is the default export.
pub proof fn actions_in_function_are_numbered(s: State, f: FunctionView, i: int)
    requires
        no_default_function(f),
        s.export_actions.len() <= i < visit_function(s, f).0.export_actions.len(),
    ensures
        visit_function(s, f).0.export_actions[i] != "default"@,
{
    reveal(generated_from);
    number_function(s.export_actions.len() as int, s, f);
}

/// No action inside of an arrow function is exported as `default`, even if the
/// arrow function is the default export.
pub proof fn actions_in_arrow_are_numbered(s: State, a: ArrowView, i: int)
    requires
        no_default_arrow(a),
        s.export_actions.len() <= i < visit_arrow(s, a).0.export_actions.len(),
    ensures
        visit_arrow(s, a).0.export_actions[i] != "default"@,
{
    reveal(generated_from);
    number_arrow(s.export_actions.len() as int, s, a);
}

// ---- Exported declarations ----

/// The last name under which an action was exported.
pub open spec fn last_exported(t: State, name: Seq<char>) -> bool {
    t.export_actions.len() > 0 && t.export_actions.last() == name
}

proof fn numbered_declaration(s: State, d: FnDeclView)
    requires
        marked_body(d.function.body),
        d.function.is_async,
        !visit_function(s, d.function).0.in_action_file,
    ensures
        ({
            let s1 = visit_function(s, d.function).0;
            let t = visit_fn_decl(s, d).0;
            &&& t.ident_cnt == s1.ident_cnt + 1
            &&& t.export_actions == s1.export_actions.push(exported_under(s1, s1.ident_cnt))
        }),
{
    declared_action(s, d);
    let s1 = visit_function(s, d.function).0;
    assert(counted(s, s1, visit_fn_decl(s, d).0, s1.ident_cnt));
}

/// An action whose declaration is exported by name is exported under its number
/// and not as `default`.
pub proof fn named_export_is_numbered(s: State, span: Span, d: FnDeclView)
    requires
        marked_body(d.function.body),
        d.function.is_async,
        !s.scope.in_default_export_decl,
        !visit_item(s, ModuleItemView::ExportDecl(span, DeclView::Fn(d))).0.in_action_file,
    ensures
        ({
            let t = visit_item(s, ModuleItemView::ExportDecl(span, DeclView::Fn(d))).0;
            t.ident_cnt > 0 && last_exported(t, action_name((t.ident_cnt - 1) as nat))
        }),
{
    let s0 = export_scope(s);
    visit_fn_decl_extends(s0, d);
    visit_function_extends(s0, d.function);
    let (s1, f1) = visit_function(s0, d.function);
    finish_function_extends(s1, d.ident.span, d.ident, f1);
    let t = visit_item(s, ModuleItemView::ExportDecl(span, DeclView::Fn(d))).0;
    directive_is_where_marked(d.function.body->0.stmts, 0);
    assert(t.in_action_file == visit_fn_decl(s0, d).0.in_action_file);
    numbered_declaration(s0, d);
}

/// An action that is declared without an export is exported under its number
/// and not as `default`.
pub proof fn plain_declaration_is_numbered(s: State, d: FnDeclView)
    requires
        marked_body(d.function.body),
        d.function.is_async,
        !s.scope.in_default_export_decl,
        !visit_function(s, d.function).0.in_action_file,
    ensures
        ({
            let t = visit_fn_decl(s, d).0;
            t.ident_cnt > 0 && last_exported(t, action_name((t.ident_cnt - 1) as nat))
        }),
{
    visit_function_extends(s, d.function);
    numbered_declaration(s, d);
}

/// An action that is the default export is exported as `default`, whether it is
/// declared, a function expression or an arrow function.
pub proof fn default_export_is_default(s: State, span: Span, f: FnExprView, a: ArrowView, k: int)
    ensures
        ({
            let t = visit_item(
                s,
                ModuleItemView::ExportDefaultDecl(span, DefaultDeclView::Fn(f)),
            ).0;
            marked_body(f.function.body) && f.function.is_async && !t.in_action_file
                ==> last_exported(t, "default"@)
        }),
        ({
            let t = visit_item(
                s,
                ModuleItemView::ExportDefaultExpr(span, Box::new(ExprView::Fn(f))),
            ).0;
            marked_body(f.function.body) && f.function.is_async && !t.in_action_file
                ==> last_exported(t, "default"@)
        }),
        ({
            let t = visit_item(
                s,
                ModuleItemView::ExportDefaultExpr(span, Box::new(ExprView::Arrow(a))),
            ).0;
            marked_arrow(a) && !t.in_action_file ==> last_exported(t, "default"@)
        }),
{
    let s0 = default_scope(s);
    visit_fn_expr_extends(s0, f.ident, f.function);
    visit_function_extends(s0, f.function);
    let t = visit_fn_expr(s0, f.ident, f.function).0;
    let e = ExprView::Fn(f);
    let x = ExprView::Arrow(a);
    reveal(finish_expr);
    assert(visit_expr(s0, e).0.in_action_file == t.in_action_file);
    assert(visit_expr(s0, e).0.export_actions == t.export_actions);
    if marked_body(f.function.body) && f.function.is_async && !t.in_action_file {
        directive_is_where_marked(f.function.body->0.stmts, 0);
        let (s1, f1) = visit_function(s0, f.function);
        let (s2, ident2) = name_action(s1, f.ident, f1);
        finish_function_extends(s2, f1.span, ident2->0, f1);
        assert(!s1.in_action_file);
        expressed_action(s0, f.ident, f.function);
    }
    visit_arrow_extends(s0, a);
    visit_expr_extends(s0, x);
    let (s1, a1) = visit_arrow(s0, a);
    finish_expr_extends(s1, ExprView::Arrow(a1));
    if marked_arrow(a) && !visit_expr(s0, x).0.in_action_file {
        arrow_stays_marked(s0, a);
        assert(visit_expr_children(s0, x) == (s1, ExprView::Arrow(a1)));
        let w = a1.body->Block_0.stmts;
        let j = choose|j: int| marked_at(w, j);
        arrow_action(s0, a, j);
    }
}

} // verus!
