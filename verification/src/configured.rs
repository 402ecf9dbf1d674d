//! The configuration has no influence.

use vstd::prelude::*;

use crate::bindings::idents_in_var_decls;
use crate::directive::module_directive;
use crate::model::{
    ArrowBodyView, ArrowView, BlockView, DeclView, DeclaratorView, DecoratorView, DefaultDeclView,
    ExprView, FnDeclView, FunctionView, IdentView, MemberView, ModuleItemView, ModuleView, NodeView,
    OtherView, ParamView, PatView, PropView, StmtView,
};
use crate::names::name_of;
use crate::state::{action_ident, initial_state, Config, Scope, State};
use crate::transform::{
    action_directive, add_action, arrow_block, captures, collects_names, default_name,
    default_scope, disallow, enter_function, enter_items, export_scope, finish_arrow, finish_expr,
    finish_function, is_action, leave_items, name_action, note_exports, own_names,
    specifier_exports, take_ident, use_name, visit_arrow, visit_arrow_body, visit_decl,
    visit_declarator, visit_declarators, visit_decorator, visit_decorators, visit_default_decl,
    visit_default_expr, visit_default_fn, visit_export_decl, visit_exported_item, visit_expr,
    visit_expr_children, visit_exprs, visit_fn_body, visit_fn_decl, visit_fn_expr, visit_function,
    visit_item, visit_items, visit_items_in_turn, visit_member, visit_module, visit_node,
    visit_nodes, visit_opt_expr, visit_other, visit_param, visit_params, visit_pat, visit_pats,
    visit_prop, visit_stmt, visit_stmt_children, visit_stmts, visit_stmts_in_turn, visit_top_item,
    without, without_decreases, without_directive, CallableView,
};

verus! {

/// The state with another configuration.
pub open spec fn with_config(s: State, c: Config) -> State {
    State { config: c, ..s }
}

proof fn same_add_action(s: State, c: Config, ident: IdentView, callable: CallableView)
    ensures
        add_action(with_config(s, c), ident, callable) == (
            with_config(add_action(s, ident, callable).0, c),
            add_action(s, ident, callable).1,
        ),
{
    reveal(add_action);
    assert(captures(with_config(s, c)) == captures(s));
}

proof fn same_finish_function(
    s: State,
    c: Config,
    span: crate::ast::Span,
    ident: IdentView,
    f: FunctionView,
)
    ensures
        finish_function(with_config(s, c), span, ident, f) == (
            with_config(finish_function(s, span, ident, f).0, c),
            finish_function(s, span, ident, f).1,
        ),
{
    reveal(finish_function);
    same_add_action(s, c, ident, CallableView::Function(f));
}

proof fn same_finish_expr(s: State, c: Config, e: ExprView)
    ensures
        finish_expr(with_config(s, c), e) == (
            with_config(finish_expr(s, e).0, c),
            finish_expr(s, e).1,
        ),
{
    reveal(finish_expr);
    if let ExprView::Arrow(a) = e {
        reveal(finish_arrow);
        same_add_action(
            take_ident(s),
            c,
            action_ident(s.ident_cnt),
            CallableView::Arrow(without_directive(a)),
        );
        assert(take_ident(with_config(s, c)) == with_config(take_ident(s), c));
    }
}

proof fn same_disallow(s: State, c: Config, span: crate::ast::Span)
    ensures
        disallow(with_config(s, c), span) == with_config(disallow(s, span), c),
{
}

#[verifier::rlimit(60)]
proof fn same_note_exports(s: State, c: Config, item: ModuleItemView)
    ensures
        note_exports(with_config(s, c), item) == with_config(note_exports(s, item), c),
{
    reveal(note_exports);
    match item {
        ModuleItemView::ExportDecl(span, DeclView::Var(v)) => {
            let s1 = State {
                exported_idents: s.exported_idents + own_names(idents_in_var_decls(v.decls)),
                ..s
            };
            same_disallow(s1, c, span);
        },
        ModuleItemView::ExportDecl(span, _) => {
            same_disallow(s, c, span);
        },
        ModuleItemView::ExportNamed(n) => {
            let s1 = State {
                exported_idents: s.exported_idents + specifier_exports(n.specifiers),
                ..s
            };
            same_disallow(s, c, n.span);
            same_disallow(s1, c, n.span);
        },
        ModuleItemView::ExportDefaultDecl(span, _) => {
            same_disallow(s, c, span);
        },
        ModuleItemView::ExportDefaultExpr(span, _) => {
            same_disallow(s, c, span);
        },
        ModuleItemView::ExportAll(span, _) => {
            same_disallow(s, c, span);
        },
        _ => {},
    }
}

proof fn same_leave_items(
    s: State,
    c: Config,
    outer_annotations: Seq<StmtView>,
    items: Seq<ModuleItemView>,
)
    ensures
        leave_items(with_config(s, c), outer_annotations, items) == (
            with_config(leave_items(s, outer_annotations, items).0, c),
            leave_items(s, outer_annotations, items).1,
        ),
{
    reveal(leave_items);
}

proof fn same_expr(s: State, c: Config, e: ExprView)
    ensures
        visit_expr(with_config(s, c), e) == (
            with_config(visit_expr(s, e).0, c),
            visit_expr(s, e).1,
        ),
    decreases e, 2int,
{
    if collects_names(s) && name_of(e) is Some {
        let s1 = State {
            scope: Scope { in_action_closure: false, ..s.scope },
            ..use_name(s, name_of(e)->0)
        };
        same_expr_children(s1, c, e);
    } else {
        same_expr_children(s, c, e);
        let (s1, e1) = visit_expr_children(s, e);
        same_finish_expr(s1, c, e1);
    }
}

proof fn same_expr_children(s: State, c: Config, e: ExprView)
    ensures
        visit_expr_children(with_config(s, c), e) == (
            with_config(visit_expr_children(s, e).0, c),
            visit_expr_children(s, e).1,
        ),
    decreases e, 1int,
{
    match e {
        ExprView::Ident(_) => {},
        ExprView::Str(_, _) => {},
        ExprView::Member(m) => {
            same_member(s, c, m);
        },
        ExprView::OptMember(m) => {
            same_member(s, c, m);
        },
        ExprView::Fn(f) => {
            same_fn_expr(s, c, f.ident, f.function);
        },
        ExprView::Arrow(a) => {
            same_arrow(s, c, a);
        },
        ExprView::Call(callee, args) => {
            same_expr(s, c, *callee);
            let s1 = visit_expr(s, *callee).0;
            same_exprs(s1, c, args);
        },
        ExprView::Assign(target, value) => {
            same_expr(s, c, *target);
            let s1 = visit_expr(s, *target).0;
            same_expr(s1, c, *value);
        },
        ExprView::Define(_, value) => {
            same_expr(s, c, *value);
        },
        ExprView::Paren(inner) => {
            same_expr(s, c, *inner);
        },
        ExprView::Array(elems) => {
            same_exprs(s, c, elems);
        },
        ExprView::Index(obj, _) => {
            same_expr(s, c, *obj);
        },
        ExprView::Other(o) => {
            same_other(s, c, o);
        },
    }
}

proof fn same_member(s: State, c: Config, m: MemberView)
    ensures
        visit_member(with_config(s, c), m) == (
            with_config(visit_member(s, m).0, c),
            visit_member(s, m).1,
        ),
    decreases m, 0int,
{
    same_expr(s, c, *m.obj);
}

proof fn same_opt_expr(s: State, c: Config, e: Option<Box<ExprView>>)
    ensures
        visit_opt_expr(with_config(s, c), e) == (
            with_config(visit_opt_expr(s, e).0, c),
            visit_opt_expr(s, e).1,
        ),
    decreases e, 3int,
{
    if let Some(inner) = e {
        same_expr(s, c, *inner);
    }
}

proof fn same_fn_expr(s: State, c: Config, ident: Option<IdentView>, f: FunctionView)
    ensures
        visit_fn_expr(with_config(s, c), ident, f) == (
            with_config(visit_fn_expr(s, ident, f).0, c),
            visit_fn_expr(s, ident, f).1,
        ),
    decreases f, 2int,
{
    same_function(s, c, f);
    let (s1, f1) = visit_function(s, f);
    if is_action(s, f.body) {
        let (s2, ident2) = name_action(s1, ident, f1);
        same_finish_function(s2, c, f1.span, ident2->0, f1);
    }
}

proof fn same_fn_decl(s: State, c: Config, d: FnDeclView)
    ensures
        visit_fn_decl(with_config(s, c), d) == (
            with_config(visit_fn_decl(s, d).0, c),
            visit_fn_decl(s, d).1,
        ),
    decreases d, 0int,
{
    same_function(s, c, d.function);
    let (s1, f1) = visit_function(s, d.function);
    same_finish_function(s1, c, d.ident.span, d.ident, f1);
}

proof fn same_function(s: State, c: Config, f: FunctionView)
    ensures
        visit_function(with_config(s, c), f) == (
            with_config(visit_function(s, f).0, c),
            visit_function(s, f).1,
        ),
    decreases f, 1int,
{
    let s0 = enter_function(s, is_action(s, f.body));
    same_function_parts(s0, c, f, action_directive(s, f.body));
}

proof fn same_function_parts(s: State, c: Config, f: FunctionView, directive: Option<int>)
    ensures
        ({
            let (s1, params) = visit_params(s, f.params);
            let (s2, decorators) = visit_decorators(s1, f.decorators);
            let (s3, body) = visit_fn_body(s2, f.body, directive);
            &&& visit_params(with_config(s, c), f.params) == (with_config(s1, c), params)
            &&& visit_decorators(with_config(s1, c), f.decorators) == (
                with_config(s2, c),
                decorators,
            )
            &&& visit_fn_body(with_config(s2, c), f.body, directive) == (with_config(s3, c), body)
        }),
    decreases f, 0int,
{
    same_params(s, c, f.params);
    let s1 = visit_params(s, f.params).0;
    same_decorators(s1, c, f.decorators);
    let s2 = visit_decorators(s1, f.decorators).0;
    same_fn_body(s2, c, f.body, directive);
}

proof fn same_fn_body(s: State, c: Config, body: Option<BlockView>, directive: Option<int>)
    ensures
        visit_fn_body(with_config(s, c), body, directive) == (
            with_config(visit_fn_body(s, body, directive).0, c),
            visit_fn_body(s, body, directive).1,
        ),
    decreases body, 0int,
{
    if let Some(b) = body {
        without_decreases(b.stmts, directive);
        same_stmts(s, c, without(b.stmts, directive));
    }
}

proof fn same_arrow(s: State, c: Config, a: ArrowView)
    ensures
        visit_arrow(with_config(s, c), a) == (
            with_config(visit_arrow(s, a).0, c),
            visit_arrow(s, a).1,
        ),
    decreases a, 1int,
{
    let s0 = enter_function(s, is_action(s, arrow_block(a)));
    same_arrow_parts(s0, c, a);
}

proof fn same_arrow_parts(s: State, c: Config, a: ArrowView)
    ensures
        ({
            let (s1, params) = visit_pats(s, a.params);
            let (s2, body) = visit_arrow_body(s1, a.body);
            &&& visit_pats(with_config(s, c), a.params) == (with_config(s1, c), params)
            &&& visit_arrow_body(with_config(s1, c), a.body) == (with_config(s2, c), body)
        }),
    decreases a, 0int,
{
    same_pats(s, c, a.params);
    let s1 = visit_pats(s, a.params).0;
    same_arrow_body(s1, c, a.body);
}

proof fn same_arrow_body(s: State, c: Config, body: ArrowBodyView)
    ensures
        visit_arrow_body(with_config(s, c), body) == (
            with_config(visit_arrow_body(s, body).0, c),
            visit_arrow_body(s, body).1,
        ),
    decreases body, 0int,
{
    match body {
        ArrowBodyView::Block(b) => {
            same_stmts(s, c, b.stmts);
        },
        ArrowBodyView::Expr(e) => {
            same_expr(s, c, *e);
        },
    }
}

proof fn same_param(s: State, c: Config, p: ParamView)
    ensures
        visit_param(with_config(s, c), p) == (
            with_config(visit_param(s, p).0, c),
            visit_param(s, p).1,
        ),
    decreases p, 1int,
{
    same_decorators(s, c, p.decorators);
    let s1 = visit_decorators(s, p.decorators).0;
    same_pat(s1, c, p.pat);
}

proof fn same_pat(s: State, c: Config, p: PatView)
    ensures
        visit_pat(with_config(s, c), p) == (
            with_config(visit_pat(s, p).0, c),
            visit_pat(s, p).1,
        ),
    decreases p, 1int,
{
    same_exprs(s, c, p.exprs);
}

proof fn same_decorator(s: State, c: Config, d: DecoratorView)
    ensures
        visit_decorator(with_config(s, c), d) == (
            with_config(visit_decorator(s, d).0, c),
            visit_decorator(s, d).1,
        ),
    decreases d, 1int,
{
    same_expr(s, c, d.expr);
}

proof fn same_stmt(s: State, c: Config, stmt: StmtView)
    ensures
        visit_stmt(with_config(s, c), stmt) == (
            with_config(visit_stmt(s, stmt).0, c),
            visit_stmt(s, stmt).1,
        ),
    decreases stmt, 2int,
{
    same_stmt_children(s, c, stmt);
}

proof fn same_stmt_children(s: State, c: Config, stmt: StmtView)
    ensures
        visit_stmt_children(with_config(s, c), stmt) == (
            with_config(visit_stmt_children(s, stmt).0, c),
            visit_stmt_children(s, stmt).1,
        ),
    decreases stmt, 1int,
{
    match stmt {
        StmtView::Expr(_, e) => {
            same_expr(s, c, *e);
        },
        StmtView::Decl(d) => {
            same_decl(s, c, d);
        },
        StmtView::Return(e) => {
            same_expr(s, c, *e);
        },
        StmtView::Other(o) => {
            same_other(s, c, o);
        },
    }
}

proof fn same_decl(s: State, c: Config, d: DeclView)
    ensures
        visit_decl(with_config(s, c), d) == (
            with_config(visit_decl(s, d).0, c),
            visit_decl(s, d).1,
        ),
    decreases d, 1int,
{
    match d {
        DeclView::Fn(f) => {
            same_fn_decl(s, c, f);
        },
        DeclView::Var(v) => {
            same_declarators(s, c, v.decls);
        },
        DeclView::Other(o) => {
            same_other(s, c, o);
        },
    }
}

proof fn same_declarator(s: State, c: Config, d: DeclaratorView)
    ensures
        visit_declarator(with_config(s, c), d) == (
            with_config(visit_declarator(s, d).0, c),
            visit_declarator(s, d).1,
        ),
    decreases d, 1int,
{
    same_pat(s, c, d.name);
    let s1 = visit_pat(s, d.name).0;
    same_opt_expr(s1, c, d.init);
}

proof fn same_prop(s: State, c: Config, p: PropView)
    ensures
        visit_prop(with_config(s, c), p) == (
            with_config(visit_prop(s, p).0, c),
            visit_prop(s, p).1,
        ),
    decreases p, 1int,
{
    match p {
        PropView::Shorthand(_) => {},
        PropView::KeyValue(_, value) => {
            same_expr(s, c, *value);
        },
        PropView::Other(o) => {
            same_other(s, c, o);
        },
    }
}

proof fn same_other(s: State, c: Config, o: OtherView)
    ensures
        visit_other(with_config(s, c), o) == (
            with_config(visit_other(s, o).0, c),
            visit_other(s, o).1,
        ),
    decreases o, 1int,
{
    same_nodes(s, c, o.kids);
}

proof fn same_node(s: State, c: Config, n: NodeView)
    ensures
        visit_node(with_config(s, c), n) == (
            with_config(visit_node(s, n).0, c),
            visit_node(s, n).1,
        ),
    decreases n, 1int,
{
    match n {
        NodeView::Expr(e) => {
            same_expr(s, c, e);
        },
        NodeView::Stmt(stmt) => {
            same_stmt(s, c, stmt);
        },
        NodeView::Stmts(v) => {
            same_stmts(s, c, v);
        },
        NodeView::Param(p) => {
            same_param(s, c, p);
        },
        NodeView::Prop(p) => {
            same_prop(s, c, p);
        },
        NodeView::Items(v) => {
            same_items(s, c, v);
        },
    }
}

proof fn same_stmts(s: State, c: Config, v: Seq<StmtView>)
    ensures
        visit_stmts(with_config(s, c), v) == (
            with_config(visit_stmts(s, v).0, c),
            visit_stmts(s, v).1,
        ),
    decreases v, 5int,
{
    same_stmts_in_turn(State { annotations: Seq::empty(), ..s }, c, v);
}

proof fn same_stmts_in_turn(s: State, c: Config, v: Seq<StmtView>)
    ensures
        visit_stmts_in_turn(with_config(s, c), v) == (
            with_config(visit_stmts_in_turn(s, v).0, c),
            visit_stmts_in_turn(s, v).1,
        ),
    decreases v, 4int,
{
    if v.len() != 0 {
        same_stmts_in_turn(s, c, v.drop_last());
        let s1 = visit_stmts_in_turn(s, v.drop_last()).0;
        let t = State { top_level: false, ..s1 };
        same_stmt(t, c, v.last());
    }
}

proof fn same_items(s: State, c: Config, v: Seq<ModuleItemView>)
    ensures
        visit_items(with_config(s, c), v) == (
            with_config(visit_items(s, v).0, c),
            visit_items(s, v).1,
        ),
    decreases v, 5int,
{
    without_decreases(v, module_directive(v));
    let s1 = State { annotations: Seq::empty(), ..enter_items(s, v) };
    let w = without(v, module_directive(v));
    same_items_in_turn(s1, c, w);
    let (s2, v2) = visit_items_in_turn(s1, w);
    same_leave_items(s2, c, s.annotations, v2);
}

proof fn same_items_in_turn(s: State, c: Config, v: Seq<ModuleItemView>)
    ensures
        visit_items_in_turn(with_config(s, c), v) == (
            with_config(visit_items_in_turn(s, v).0, c),
            visit_items_in_turn(s, v).1,
        ),
    decreases v, 4int,
{
    if v.len() != 0 {
        same_items_in_turn(s, c, v.drop_last());
        let s1 = visit_items_in_turn(s, v.drop_last()).0;
        let t = State { top_level: true, ..s1 };
        same_top_item(t, c, v.last());
    }
}

proof fn same_top_item(s: State, c: Config, item: ModuleItemView)
    ensures
        visit_top_item(with_config(s, c), item) == (
            with_config(visit_top_item(s, item).0, c),
            visit_top_item(s, item).1,
        ),
    decreases item, 3int,
{
    if s.in_action_file {
        same_note_exports(s, c, item);
        let s1 = note_exports(s, item);
        same_exported_item(s1, c, default_name(s, item), item);
    } else {
        same_item(s, c, item);
    }
}

proof fn same_exported_item(s: State, c: Config, name: Option<IdentView>, item: ModuleItemView)
    ensures
        visit_exported_item(with_config(s, c), name, item) == (
            with_config(visit_exported_item(s, name, item).0, c),
            visit_exported_item(s, name, item).1,
        ),
    decreases item, 2int,
{
    match item {
        ModuleItemView::ExportDefaultDecl(span, DefaultDeclView::Fn(f)) => {
            let ident = if f.ident is Some {
                f.ident
            } else {
                name
            };
            same_default_fn(s, c, ident, f.function);
        },
        ModuleItemView::ExportDefaultExpr(span, e) => {
            same_default_expr(s, c, *e);
        },
        _ => {
            same_item(s, c, item);
        },
    }
}

proof fn same_export_decl(s: State, c: Config, d: DeclView)
    ensures
        visit_export_decl(with_config(s, c), d) == (
            with_config(visit_export_decl(s, d).0, c),
            visit_export_decl(s, d).1,
        ),
    decreases d, 2int,
{
    same_decl(export_scope(s), c, d);
}

proof fn same_default_fn(s: State, c: Config, ident: Option<IdentView>, f: FunctionView)
    ensures
        visit_default_fn(with_config(s, c), ident, f) == (
            with_config(visit_default_fn(s, ident, f).0, c),
            visit_default_fn(s, ident, f).1,
        ),
    decreases f, 3int,
{
    same_fn_expr(default_scope(s), c, ident, f);
}

proof fn same_default_decl(s: State, c: Config, d: DefaultDeclView)
    ensures
        visit_default_decl(with_config(s, c), d) == (
            with_config(visit_default_decl(s, d).0, c),
            visit_default_decl(s, d).1,
        ),
    decreases d, 2int,
{
    match d {
        DefaultDeclView::Fn(f) => {
            same_default_fn(s, c, f.ident, f.function);
        },
        DefaultDeclView::Other(o) => {
            same_other(default_scope(s), c, o);
        },
    }
}

proof fn same_default_expr(s: State, c: Config, e: ExprView)
    ensures
        visit_default_expr(with_config(s, c), e) == (
            with_config(visit_default_expr(s, e).0, c),
            visit_default_expr(s, e).1,
        ),
    decreases e, 3int,
{
    same_expr(default_scope(s), c, e);
}

proof fn same_item(s: State, c: Config, item: ModuleItemView)
    ensures
        visit_item(with_config(s, c), item) == (
            with_config(visit_item(s, item).0, c),
            visit_item(s, item).1,
        ),
    decreases item, 1int,
{
    match item {
        ModuleItemView::Stmt(stmt) => {
            same_stmt(s, c, stmt);
        },
        ModuleItemView::ExportDecl(span, d) => {
            same_export_decl(s, c, d);
        },
        ModuleItemView::ExportNamed(n) => {
            same_other(s, c, n.rest);
        },
        ModuleItemView::ExportDefaultDecl(span, d) => {
            same_default_decl(s, c, d);
        },
        ModuleItemView::ExportDefaultExpr(span, e) => {
            same_default_expr(s, c, *e);
        },
        ModuleItemView::ExportAll(span, o) => {
            same_other(s, c, o);
        },
        ModuleItemView::Other(o) => {
            same_other(s, c, o);
        },
    }
}

proof fn same_exprs(s: State, c: Config, v: Seq<ExprView>)
    ensures
        visit_exprs(with_config(s, c), v) == (
            with_config(visit_exprs(s, v).0, c),
            visit_exprs(s, v).1,
        ),
    decreases v, 4int,
{
    if v.len() != 0 {
        same_exprs(s, c, v.drop_last());
        let s1 = visit_exprs(s, v.drop_last()).0;
        same_expr(s1, c, v.last());
    }
}

proof fn same_params(s: State, c: Config, v: Seq<ParamView>)
    ensures
        visit_params(with_config(s, c), v) == (
            with_config(visit_params(s, v).0, c),
            visit_params(s, v).1,
        ),
    decreases v, 4int,
{
    if v.len() != 0 {
        same_params(s, c, v.drop_last());
        let s1 = visit_params(s, v.drop_last()).0;
        same_param(s1, c, v.last());
    }
}

proof fn same_decorators(s: State, c: Config, v: Seq<DecoratorView>)
    ensures
        visit_decorators(with_config(s, c), v) == (
            with_config(visit_decorators(s, v).0, c),
            visit_decorators(s, v).1,
        ),
    decreases v, 4int,
{
    if v.len() != 0 {
        same_decorators(s, c, v.drop_last());
        let s1 = visit_decorators(s, v.drop_last()).0;
        same_decorator(s1, c, v.last());
    }
}

proof fn same_pats(s: State, c: Config, v: Seq<PatView>)
    ensures
        visit_pats(with_config(s, c), v) == (
            with_config(visit_pats(s, v).0, c),
            visit_pats(s, v).1,
        ),
    decreases v, 4int,
{
    if v.len() != 0 {
        same_pats(s, c, v.drop_last());
        let s1 = visit_pats(s, v.drop_last()).0;
        same_pat(s1, c, v.last());
    }
}

proof fn same_declarators(s: State, c: Config, v: Seq<DeclaratorView>)
    ensures
        visit_declarators(with_config(s, c), v) == (
            with_config(visit_declarators(s, v).0, c),
            visit_declarators(s, v).1,
        ),
    decreases v, 4int,
{
    if v.len() != 0 {
        same_declarators(s, c, v.drop_last());
        let s1 = visit_declarators(s, v.drop_last()).0;
        same_declarator(s1, c, v.last());
    }
}

proof fn same_nodes(s: State, c: Config, v: Seq<NodeView>)
    ensures
        visit_nodes(with_config(s, c), v) == (
            with_config(visit_nodes(s, v).0, c),
            visit_nodes(s, v).1,
        ),
    decreases v, 4int,
{
    if v.len() != 0 {
        same_nodes(s, c, v.drop_last());
        let s1 = visit_nodes(s, v.drop_last()).0;
        same_node(s1, c, v.last());
    }
}

/// The configuration has no influence: two passes that differ in it alone turn
/// a module into the same module, and give the same comments and errors.
pub proof fn configuration_has_no_influence(
    file_name: Seq<char>,
    c1: Config,
    c2: Config,
    m: ModuleView,
)
    ensures
        ({
            let (t1, m1) = visit_module(initial_state(file_name, c1), m);
            let (t2, m2) = visit_module(initial_state(file_name, c2), m);
            &&& m1 == m2
            &&& t1.comments == t2.comments
            &&& t1.errors == t2.errors
            &&& t2 == with_config(t1, c2)
        }),
{
    let s = State { start_pos: m.span.lo, ..initial_state(file_name, c1) };
    same_items(s, c2, m.body);
}

} // verus!
