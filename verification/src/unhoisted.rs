//! In a `"use server"` file nothing is hoisted.

use vstd::prelude::*;

use crate::annotate::name_declaration;
use crate::ast::Span;
use crate::directive::module_directive;
use crate::exported::{action_exports, action_exports_push};
use crate::model::{
    ArrowBodyView, ArrowView, BlockView, DeclView, DeclaratorView, DecoratorView, DefaultDeclView,
    ExprView, FnDeclView, FunctionView, IdentView, MemberView, ModuleItemView, NodeView, OtherView,
    ParamView, PatView, PropView, StmtView,
};
use crate::names::name_of;
use crate::state::{Scope, State};
use crate::transform::{
    action_directive, arrow_block, collects_names, default_name, default_scope, enter_function,
    enter_items, export_scope, finish_expr, finish_function, is_action, leave_items, name_action,
    note_exports, plain_action_ident, use_name, visit_arrow, visit_arrow_body, visit_decl,
    visit_declarator, visit_declarators, visit_decorator, visit_decorators, visit_default_decl,
    visit_default_expr, visit_default_fn, visit_export_decl, visit_exported_item, visit_expr,
    visit_expr_children, visit_exprs, visit_fn_body, visit_fn_decl, visit_fn_expr, visit_function,
    visit_item, visit_items, visit_items_in_turn, visit_member, visit_node, visit_nodes,
    visit_opt_expr, visit_other, visit_param, visit_params, visit_pat, visit_pats, visit_prop,
    visit_stmt, visit_stmt_children, visit_stmts, visit_stmts_in_turn, visit_top_item, without,
    without_decreases,
};

verus! {

/// The file has the directive, and no action is among the pending items.
pub open spec fn unhoisted(s: State) -> bool {
    s.in_action_file && action_exports(s.extra_items).len() == 0
}

proof fn still_after_finish_function(s: State, span: Span, ident: IdentView, f: FunctionView)
    requires
        unhoisted(s),
    ensures
        unhoisted(finish_function(s, span, ident, f).0),
{
    reveal(finish_function);
}

proof fn still_after_finish_expr(s: State, e: ExprView)
    requires
        unhoisted(s),
    ensures
        unhoisted(finish_expr(s, e).0),
{
    reveal(finish_expr);
}

proof fn still_after_note_exports(s: State, item: ModuleItemView)
    requires
        unhoisted(s),
    ensures
        unhoisted(note_exports(s, item)),
{
    reveal(note_exports);
    action_exports_push(s.extra_items, name_declaration(plain_action_ident(s)));
}

proof fn still_after_leave_items(
    s: State,
    outer_annotations: Seq<StmtView>,
    items: Seq<ModuleItemView>,
)
    requires
        unhoisted(s),
    ensures
        unhoisted(leave_items(s, outer_annotations, items).0),
{
    reveal(leave_items);
}

proof fn still_expr(s: State, e: ExprView)
    requires
        unhoisted(s),
    ensures
        unhoisted(visit_expr(s, e).0),
    decreases e, 2int,
{
    if collects_names(s) && name_of(e) is Some {
        let s1 = State {
            scope: Scope { in_action_closure: false, ..s.scope },
            ..use_name(s, name_of(e)->0)
        };
        still_expr_children(s1, e);
    } else {
        still_expr_children(s, e);
        let (s1, e1) = visit_expr_children(s, e);
        still_after_finish_expr(s1, e1);
    }
}

proof fn still_expr_children(s: State, e: ExprView)
    requires
        unhoisted(s),
    ensures
        unhoisted(visit_expr_children(s, e).0),
    decreases e, 1int,
{
    match e {
        ExprView::Ident(_) => {},
        ExprView::Str(_, _) => {},
        ExprView::Member(m) => {
            still_member(s, m);
        },
        ExprView::OptMember(m) => {
            still_member(s, m);
        },
        ExprView::Fn(f) => {
            still_fn_expr(s, f.ident, f.function);
        },
        ExprView::Arrow(a) => {
            still_arrow(s, a);
        },
        ExprView::Call(callee, args) => {
            still_expr(s, *callee);
            let s1 = visit_expr(s, *callee).0;
            still_exprs(s1, args);
        },
        ExprView::Assign(target, value) => {
            still_expr(s, *target);
            let s1 = visit_expr(s, *target).0;
            still_expr(s1, *value);
        },
        ExprView::Define(_, value) => {
            still_expr(s, *value);
        },
        ExprView::Paren(inner) => {
            still_expr(s, *inner);
        },
        ExprView::Array(elems) => {
            still_exprs(s, elems);
        },
        ExprView::Index(obj, _) => {
            still_expr(s, *obj);
        },
        ExprView::Other(o) => {
            still_other(s, o);
        },
    }
}

proof fn still_member(s: State, m: MemberView)
    requires
        unhoisted(s),
    ensures
        unhoisted(visit_member(s, m).0),
    decreases m, 0int,
{
    still_expr(s, *m.obj);
}

proof fn still_opt_expr(s: State, e: Option<Box<ExprView>>)
    requires
        unhoisted(s),
    ensures
        unhoisted(visit_opt_expr(s, e).0),
    decreases e, 3int,
{
    if let Some(inner) = e {
        still_expr(s, *inner);
    }
}

proof fn still_fn_expr(s: State, ident: Option<IdentView>, f: FunctionView)
    requires
        unhoisted(s),
    ensures
        unhoisted(visit_fn_expr(s, ident, f).0),
    decreases f, 2int,
{
    still_function(s, f);
    let (s1, f1) = visit_function(s, f);
    if is_action(s, f.body) {
        let (s2, ident2) = name_action(s1, ident, f1);
        still_after_finish_function(s2, f1.span, ident2->0, f1);
    }
}

proof fn still_fn_decl(s: State, d: FnDeclView)
    requires
        unhoisted(s),
    ensures
        unhoisted(visit_fn_decl(s, d).0),
    decreases d, 0int,
{
    still_function(s, d.function);
    let (s1, f1) = visit_function(s, d.function);
    still_after_finish_function(s1, d.ident.span, d.ident, f1);
}

proof fn still_function(s: State, f: FunctionView)
    requires
        unhoisted(s),
    ensures
        unhoisted(visit_function(s, f).0),
    decreases f, 1int,
{
    let s0 = enter_function(s, is_action(s, f.body));
    still_function_parts(s0, f, action_directive(s, f.body));
}

proof fn still_function_parts(s: State, f: FunctionView, directive: Option<int>)
    requires
        unhoisted(s),
    ensures
        ({
            let s1 = visit_params(s, f.params).0;
            let s2 = visit_decorators(s1, f.decorators).0;
            unhoisted(visit_fn_body(s2, f.body, directive).0)
        }),
    decreases f, 0int,
{
    still_params(s, f.params);
    let s1 = visit_params(s, f.params).0;
    still_decorators(s1, f.decorators);
    let s2 = visit_decorators(s1, f.decorators).0;
    still_fn_body(s2, f.body, directive);
}

proof fn still_fn_body(s: State, body: Option<BlockView>, directive: Option<int>)
    requires
        unhoisted(s),
    ensures
        unhoisted(visit_fn_body(s, body, directive).0),
    decreases body, 0int,
{
    if let Some(b) = body {
        without_decreases(b.stmts, directive);
        still_stmts(s, without(b.stmts, directive));
    }
}

proof fn still_arrow(s: State, a: ArrowView)
    requires
        unhoisted(s),
    ensures
        unhoisted(visit_arrow(s, a).0),
    decreases a, 1int,
{
    let s0 = enter_function(s, is_action(s, arrow_block(a)));
    still_arrow_parts(s0, a);
}

proof fn still_arrow_parts(s: State, a: ArrowView)
    requires
        unhoisted(s),
    ensures
        unhoisted(visit_arrow_body(visit_pats(s, a.params).0, a.body).0),
    decreases a, 0int,
{
    still_pats(s, a.params);
    let s1 = visit_pats(s, a.params).0;
    still_arrow_body(s1, a.body);
}

proof fn still_arrow_body(s: State, body: ArrowBodyView)
    requires
        unhoisted(s),
    ensures
        unhoisted(visit_arrow_body(s, body).0),
    decreases body, 0int,
{
    match body {
        ArrowBodyView::Block(b) => {
            still_stmts(s, b.stmts);
        },
        ArrowBodyView::Expr(e) => {
            still_expr(s, *e);
        },
    }
}

proof fn still_param(s: State, p: ParamView)
    requires
        unhoisted(s),
    ensures
        unhoisted(visit_param(s, p).0),
    decreases p, 1int,
{
    still_decorators(s, p.decorators);
    let s1 = visit_decorators(s, p.decorators).0;
    still_pat(s1, p.pat);
}

proof fn still_pat(s: State, p: PatView)
    requires
        unhoisted(s),
    ensures
        unhoisted(visit_pat(s, p).0),
    decreases p, 1int,
{
    still_exprs(s, p.exprs);
}

proof fn still_decorator(s: State, d: DecoratorView)
    requires
        unhoisted(s),
    ensures
        unhoisted(visit_decorator(s, d).0),
    decreases d, 1int,
{
    still_expr(s, d.expr);
}

proof fn still_stmt(s: State, stmt: StmtView)
    requires
        unhoisted(s),
    ensures
        unhoisted(visit_stmt(s, stmt).0),
    decreases stmt, 2int,
{
    still_stmt_children(s, stmt);
}

proof fn still_stmt_children(s: State, stmt: StmtView)
    requires
        unhoisted(s),
    ensures
        unhoisted(visit_stmt_children(s, stmt).0),
    decreases stmt, 1int,
{
    match stmt {
        StmtView::Expr(_, e) => {
            still_expr(s, *e);
        },
        StmtView::Decl(d) => {
            still_decl(s, d);
        },
        StmtView::Return(e) => {
            still_expr(s, *e);
        },
        StmtView::Other(o) => {
            still_other(s, o);
        },
    }
}

proof fn still_decl(s: State, d: DeclView)
    requires
        unhoisted(s),
    ensures
        unhoisted(visit_decl(s, d).0),
    decreases d, 1int,
{
    match d {
        DeclView::Fn(f) => {
            still_fn_decl(s, f);
        },
        DeclView::Var(v) => {
            still_declarators(s, v.decls);
        },
        DeclView::Other(o) => {
            still_other(s, o);
        },
    }
}

proof fn still_declarator(s: State, d: DeclaratorView)
    requires
        unhoisted(s),
    ensures
        unhoisted(visit_declarator(s, d).0),
    decreases d, 1int,
{
    still_pat(s, d.name);
    let s1 = visit_pat(s, d.name).0;
    still_opt_expr(s1, d.init);
}

proof fn still_prop(s: State, p: PropView)
    requires
        unhoisted(s),
    ensures
        unhoisted(visit_prop(s, p).0),
    decreases p, 1int,
{
    match p {
        PropView::Shorthand(_) => {},
        PropView::KeyValue(_, value) => {
            still_expr(s, *value);
        },
        PropView::Other(o) => {
            still_other(s, o);
        },
    }
}

proof fn still_other(s: State, o: OtherView)
    requires
        unhoisted(s),
    ensures
        unhoisted(visit_other(s, o).0),
    decreases o, 1int,
{
    still_nodes(s, o.kids);
}

proof fn still_node(s: State, n: NodeView)
    requires
        unhoisted(s),
    ensures
        unhoisted(visit_node(s, n).0),
    decreases n, 1int,
{
    match n {
        NodeView::Expr(e) => {
            still_expr(s, e);
        },
        NodeView::Stmt(stmt) => {
            still_stmt(s, stmt);
        },
        NodeView::Stmts(v) => {
            still_stmts(s, v);
        },
        NodeView::Param(p) => {
            still_param(s, p);
        },
        NodeView::Prop(p) => {
            still_prop(s, p);
        },
        NodeView::Items(v) => {
            still_items(s, v);
        },
    }
}

proof fn still_stmts(s: State, v: Seq<StmtView>)
    requires
        unhoisted(s),
    ensures
        unhoisted(visit_stmts(s, v).0),
    decreases v, 5int,
{
    still_stmts_in_turn(State { annotations: Seq::empty(), ..s }, v);
}

proof fn still_stmts_in_turn(s: State, v: Seq<StmtView>)
    requires
        unhoisted(s),
    ensures
        unhoisted(visit_stmts_in_turn(s, v).0),
    decreases v, 4int,
{
    if v.len() != 0 {
        still_stmts_in_turn(s, v.drop_last());
        let s1 = visit_stmts_in_turn(s, v.drop_last()).0;
        let t = State { top_level: false, ..s1 };
        still_stmt(t, v.last());
    }
}

proof fn still_items(s: State, v: Seq<ModuleItemView>)
    requires
        unhoisted(s),
    ensures
        unhoisted(visit_items(s, v).0),
    decreases v, 5int,
{
    without_decreases(v, module_directive(v));
    let s1 = State { annotations: Seq::empty(), ..enter_items(s, v) };
    let w = without(v, module_directive(v));
    still_items_in_turn(s1, w);
    let (s2, v2) = visit_items_in_turn(s1, w);
    still_after_leave_items(s2, s.annotations, v2);
}

proof fn still_items_in_turn(s: State, v: Seq<ModuleItemView>)
    requires
        unhoisted(s),
    ensures
        unhoisted(visit_items_in_turn(s, v).0),
    decreases v, 4int,
{
    if v.len() != 0 {
        still_items_in_turn(s, v.drop_last());
        let s1 = visit_items_in_turn(s, v.drop_last()).0;
        let t = State { top_level: true, ..s1 };
        still_top_item(t, v.last());
    }
}

/// The walk over an item of a `"use server"` file hoists nothing.
pub proof fn still_top_item(s: State, item: ModuleItemView)
    requires
        unhoisted(s),
    ensures
        unhoisted(visit_top_item(s, item).0),
    decreases item, 3int,
{
    if s.in_action_file {
        still_after_note_exports(s, item);
        let s1 = note_exports(s, item);
        still_exported_item(s1, default_name(s, item), item);
    } else {
        still_item(s, item);
    }
}

proof fn still_exported_item(s: State, name: Option<IdentView>, item: ModuleItemView)
    requires
        unhoisted(s),
    ensures
        unhoisted(visit_exported_item(s, name, item).0),
    decreases item, 2int,
{
    match item {
        ModuleItemView::ExportDefaultDecl(span, DefaultDeclView::Fn(f)) => {
            let ident = if f.ident is Some {
                f.ident
            } else {
                name
            };
            still_default_fn(s, ident, f.function);
        },
        ModuleItemView::ExportDefaultExpr(span, e) => {
            still_default_expr(s, *e);
        },
        _ => {
            still_item(s, item);
        },
    }
}

proof fn still_export_decl(s: State, d: DeclView)
    requires
        unhoisted(s),
    ensures
        unhoisted(visit_export_decl(s, d).0),
    decreases d, 2int,
{
    still_decl(export_scope(s), d);
}

proof fn still_default_fn(s: State, ident: Option<IdentView>, f: FunctionView)
    requires
        unhoisted(s),
    ensures
        unhoisted(visit_default_fn(s, ident, f).0),
    decreases f, 3int,
{
    still_fn_expr(default_scope(s), ident, f);
}

proof fn still_default_decl(s: State, d: DefaultDeclView)
    requires
        unhoisted(s),
    ensures
        unhoisted(visit_default_decl(s, d).0),
    decreases d, 2int,
{
    match d {
        DefaultDeclView::Fn(f) => {
            still_default_fn(s, f.ident, f.function);
        },
        DefaultDeclView::Other(o) => {
            still_other(default_scope(s), o);
        },
    }
}

proof fn still_default_expr(s: State, e: ExprView)
    requires
        unhoisted(s),
    ensures
        unhoisted(visit_default_expr(s, e).0),
    decreases e, 3int,
{
    still_expr(default_scope(s), e);
}

proof fn still_item(s: State, item: ModuleItemView)
    requires
        unhoisted(s),
    ensures
        unhoisted(visit_item(s, item).0),
    decreases item, 1int,
{
    match item {
        ModuleItemView::Stmt(stmt) => {
            still_stmt(s, stmt);
        },
        ModuleItemView::ExportDecl(span, d) => {
            still_export_decl(s, d);
        },
        ModuleItemView::ExportNamed(n) => {
            still_other(s, n.rest);
        },
        ModuleItemView::ExportDefaultDecl(span, d) => {
            still_default_decl(s, d);
        },
        ModuleItemView::ExportDefaultExpr(span, e) => {
            still_default_expr(s, *e);
        },
        ModuleItemView::ExportAll(span, o) => {
            still_other(s, o);
        },
        ModuleItemView::Other(o) => {
            still_other(s, o);
        },
    }
}

proof fn still_exprs(s: State, v: Seq<ExprView>)
    requires
        unhoisted(s),
    ensures
        unhoisted(visit_exprs(s, v).0),
    decreases v, 4int,
{
    if v.len() != 0 {
        still_exprs(s, v.drop_last());
        let s1 = visit_exprs(s, v.drop_last()).0;
        still_expr(s1, v.last());
    }
}

proof fn still_params(s: State, v: Seq<ParamView>)
    requires
        unhoisted(s),
    ensures
        unhoisted(visit_params(s, v).0),
    decreases v, 4int,
{
    if v.len() != 0 {
        still_params(s, v.drop_last());
        let s1 = visit_params(s, v.drop_last()).0;
        still_param(s1, v.last());
    }
}

proof fn still_decorators(s: State, v: Seq<DecoratorView>)
    requires
        unhoisted(s),
    ensures
        unhoisted(visit_decorators(s, v).0),
    decreases v, 4int,
{
    if v.len() != 0 {
        still_decorators(s, v.drop_last());
        let s1 = visit_decorators(s, v.drop_last()).0;
        still_decorator(s1, v.last());
    }
}

proof fn still_pats(s: State, v: Seq<PatView>)
    requires
        unhoisted(s),
    ensures
        unhoisted(visit_pats(s, v).0),
    decreases v, 4int,
{
    if v.len() != 0 {
        still_pats(s, v.drop_last());
        let s1 = visit_pats(s, v.drop_last()).0;
        still_pat(s1, v.last());
    }
}

proof fn still_declarators(s: State, v: Seq<DeclaratorView>)
    requires
        unhoisted(s),
    ensures
        unhoisted(visit_declarators(s, v).0),
    decreases v, 4int,
{
    if v.len() != 0 {
        still_declarators(s, v.drop_last());
        let s1 = visit_declarators(s, v.drop_last()).0;
        still_declarator(s1, v.last());
    }
}

proof fn still_nodes(s: State, v: Seq<NodeView>)
    requires
        unhoisted(s),
    ensures
        unhoisted(visit_nodes(s, v).0),
    decreases v, 4int,
{
    if v.len() != 0 {
        still_nodes(s, v.drop_last());
        let s1 = visit_nodes(s, v.drop_last()).0;
        still_node(s1, v.last());
    }
}

} // verus!
