//! The walk records no names but those that the source mentions.

use vstd::prelude::*;

use crate::ast::Span;
use crate::directive::module_directive;
use crate::free::{
    free_arrow, free_block, free_children, free_decl, free_declarator, free_declarators,
    free_decorator, free_decorators, free_expr, free_exprs, free_function, free_item, free_items,
    free_node, free_nodes, free_opt_block, free_other, free_param, free_params, free_pat, free_pats,
    free_prop, free_stmt, free_stmts,
};
use crate::model::{
    ArrowBodyView, ArrowView, BlockView, DeclView, DeclaratorView, DecoratorView, DefaultDeclView,
    ExprView, FnDeclView, FunctionView, IdentView, MemberView, ModuleItemView, ModuleView, NodeView,
    OtherView, ParamView, PatView, PropView, StmtView,
};
use crate::names::{name_of, NameView};
use crate::state::{action_ident, initial_state, Config, Scope, State};
use crate::transform::{
    action_directive, add_action, arrow_block, collects_names, default_name, default_scope,
    enter_function, enter_items, export_scope, finish_arrow, finish_expr, finish_function,
    is_action, leave_items, name_action, note_exports, take_ident, use_name, visit_arrow,
    visit_arrow_body, visit_decl, visit_declarator, visit_declarators, visit_decorator,
    visit_decorators, visit_default_decl, visit_default_expr, visit_default_fn, visit_export_decl,
    visit_exported_item, visit_expr, visit_expr_children, visit_exprs, visit_fn_body, visit_fn_decl,
    visit_fn_expr, visit_function, visit_item, visit_items, visit_items_in_turn, visit_member,
    visit_module, visit_node, visit_nodes, visit_opt_expr, visit_other, visit_param, visit_params,
    visit_pat, visit_pats, visit_prop, visit_stmt, visit_stmt_children, visit_stmts,
    visit_stmts_in_turn, visit_top_item, without, without_decreases, without_directive,
    CallableView,
};

verus! {

/// None of the names is used.
pub open spec fn avoids(names: Seq<NameView>, used: Seq<NameView>) -> bool {
    forall|i: int| 0 <= i < used.len() ==> !names.contains(#[trigger] used[i])
}

/// What is left of a list was in it.
pub proof fn without_is_part<A>(v: Seq<A>, index: Option<int>)
    ensures
        forall|j: int|
            0 <= j < without(v, index).len() ==> v.contains(#[trigger] without(v, index)[j]),
{
    let w = without(v, index);
    assert forall|j: int| 0 <= j < w.len() implies v.contains(#[trigger] w[j]) by {
        if w.len() == v.len() || j < index->0 {
            assert(v[j] == w[j]);
        } else {
            assert(v[j + 1] == w[j]);
        }
    }
}

proof fn add_action_uses_none(s: State, ident: IdentView, c: CallableView)
    ensures
        add_action(s, ident, c).0.action_idents == s.action_idents,
{
    reveal(add_action);
}

proof fn finish_function_uses_none(s: State, span: Span, ident: IdentView, f: FunctionView)
    ensures
        finish_function(s, span, ident, f).0.action_idents == s.action_idents,
{
    reveal(finish_function);
    add_action_uses_none(s, ident, CallableView::Function(f));
}

proof fn finish_expr_uses_none(s: State, e: ExprView)
    ensures
        finish_expr(s, e).0.action_idents == s.action_idents,
{
    reveal(finish_expr);
    if let ExprView::Arrow(a) = e {
        reveal(finish_arrow);
        add_action_uses_none(
            take_ident(s),
            action_ident(s.ident_cnt),
            CallableView::Arrow(without_directive(a)),
        );
    }
}

proof fn note_exports_uses_none(s: State, item: ModuleItemView)
    ensures
        note_exports(s, item).action_idents == s.action_idents,
{
    reveal(note_exports);
}

proof fn leave_items_uses_none(
    s: State,
    outer_annotations: Seq<StmtView>,
    items: Seq<ModuleItemView>,
)
    ensures
        leave_items(s, outer_annotations, items).0.action_idents == s.action_idents,
{
    reveal(leave_items);
}

proof fn mention_expr(names: Seq<NameView>, s: State, e: ExprView)
    requires
        free_expr(names, e),
        avoids(names, s.action_idents),
    ensures
        avoids(names, visit_expr(s, e).0.action_idents),
    decreases e, 2int,
{
    if collects_names(s) && name_of(e) is Some {
        let s1 = State {
            scope: Scope { in_action_closure: false, ..s.scope },
            ..use_name(s, name_of(e)->0)
        };
        mention_expr_children(names, s1, e);
    } else {
        mention_expr_children(names, s, e);
        let (s1, e1) = visit_expr_children(s, e);
        finish_expr_uses_none(s1, e1);
    }
}

proof fn mention_expr_children(names: Seq<NameView>, s: State, e: ExprView)
    requires
        free_children(names, e),
        avoids(names, s.action_idents),
    ensures
        avoids(names, visit_expr_children(s, e).0.action_idents),
    decreases e, 1int,
{
    match e {
        ExprView::Ident(_) => {},
        ExprView::Str(_, _) => {},
        ExprView::Member(m) => {
            mention_member(names, s, m);
        },
        ExprView::OptMember(m) => {
            mention_member(names, s, m);
        },
        ExprView::Fn(f) => {
            mention_fn_expr(names, s, f.ident, f.function);
        },
        ExprView::Arrow(a) => {
            mention_arrow(names, s, a);
        },
        ExprView::Call(callee, args) => {
            mention_expr(names, s, *callee);
            let s1 = visit_expr(s, *callee).0;
            mention_exprs(names, s1, args);
        },
        ExprView::Assign(target, value) => {
            mention_expr(names, s, *target);
            let s1 = visit_expr(s, *target).0;
            mention_expr(names, s1, *value);
        },
        ExprView::Define(_, value) => {
            mention_expr(names, s, *value);
        },
        ExprView::Paren(inner) => {
            mention_expr(names, s, *inner);
        },
        ExprView::Array(elems) => {
            mention_exprs(names, s, elems);
        },
        ExprView::Index(obj, _) => {
            mention_expr(names, s, *obj);
        },
        ExprView::Other(o) => {
            mention_other(names, s, o);
        },
    }
}

proof fn mention_member(names: Seq<NameView>, s: State, m: MemberView)
    requires
        free_expr(names, *m.obj),
        avoids(names, s.action_idents),
    ensures
        avoids(names, visit_member(s, m).0.action_idents),
    decreases m, 0int,
{
    mention_expr(names, s, *m.obj);
}

proof fn mention_opt_expr(names: Seq<NameView>, s: State, e: Option<Box<ExprView>>)
    requires
        e is Some ==> free_expr(names, *e->0),
        avoids(names, s.action_idents),
    ensures
        avoids(names, visit_opt_expr(s, e).0.action_idents),
    decreases e, 3int,
{
    if let Some(inner) = e {
        mention_expr(names, s, *inner);
    }
}

proof fn mention_fn_expr(names: Seq<NameView>, s: State, ident: Option<IdentView>, f: FunctionView)
    requires
        free_function(names, f),
        avoids(names, s.action_idents),
    ensures
        avoids(names, visit_fn_expr(s, ident, f).0.action_idents),
    decreases f, 2int,
{
    mention_function(names, s, f);
    let (s1, f1) = visit_function(s, f);
    if is_action(s, f.body) {
        let (s2, ident2) = name_action(s1, ident, f1);
        finish_function_uses_none(s2, f1.span, ident2->0, f1);
    }
}

proof fn mention_fn_decl(names: Seq<NameView>, s: State, d: FnDeclView)
    requires
        free_function(names, d.function),
        avoids(names, s.action_idents),
    ensures
        avoids(names, visit_fn_decl(s, d).0.action_idents),
    decreases d, 0int,
{
    mention_function(names, s, d.function);
    let (s1, f1) = visit_function(s, d.function);
    finish_function_uses_none(s1, d.ident.span, d.ident, f1);
}

proof fn mention_function(names: Seq<NameView>, s: State, f: FunctionView)
    requires
        free_function(names, f),
        avoids(names, s.action_idents),
    ensures
        avoids(names, visit_function(s, f).0.action_idents),
    decreases f, 1int,
{
    let s0 = enter_function(s, is_action(s, f.body));
    mention_function_parts(names, s0, f, action_directive(s, f.body));
}

proof fn mention_function_parts(
    names: Seq<NameView>,
    s: State,
    f: FunctionView,
    directive: Option<int>,
)
    requires
        free_function(names, f),
        avoids(names, s.action_idents),
    ensures
        ({
            let s1 = visit_params(s, f.params).0;
            let s2 = visit_decorators(s1, f.decorators).0;
            avoids(names, visit_fn_body(s2, f.body, directive).0.action_idents)
        }),
    decreases f, 0int,
{
    mention_params(names, s, f.params);
    let s1 = visit_params(s, f.params).0;
    mention_decorators(names, s1, f.decorators);
    let s2 = visit_decorators(s1, f.decorators).0;
    mention_fn_body(names, s2, f.body, directive);
}

proof fn mention_fn_body(
    names: Seq<NameView>,
    s: State,
    body: Option<BlockView>,
    directive: Option<int>,
)
    requires
        free_opt_block(names, body),
        avoids(names, s.action_idents),
    ensures
        avoids(names, visit_fn_body(s, body, directive).0.action_idents),
    decreases body, 0int,
{
    if let Some(b) = body {
        without_decreases(b.stmts, directive);
        without_is_part(b.stmts, directive);
        mention_stmts(names, s, without(b.stmts, directive));
    }
}

proof fn mention_arrow(names: Seq<NameView>, s: State, a: ArrowView)
    requires
        free_arrow(names, a),
        avoids(names, s.action_idents),
    ensures
        avoids(names, visit_arrow(s, a).0.action_idents),
    decreases a, 1int,
{
    let s0 = enter_function(s, is_action(s, arrow_block(a)));
    mention_arrow_parts(names, s0, a);
}

proof fn mention_arrow_parts(names: Seq<NameView>, s: State, a: ArrowView)
    requires
        free_arrow(names, a),
        avoids(names, s.action_idents),
    ensures
        avoids(names, visit_arrow_body(visit_pats(s, a.params).0, a.body).0.action_idents),
    decreases a, 0int,
{
    mention_pats(names, s, a.params);
    let s1 = visit_pats(s, a.params).0;
    mention_arrow_body(names, s1, a.body);
}

proof fn mention_arrow_body(names: Seq<NameView>, s: State, body: ArrowBodyView)
    requires
        match body {
            ArrowBodyView::Block(b) => free_block(names, b),
            ArrowBodyView::Expr(e) => free_expr(names, *e),
        },
        avoids(names, s.action_idents),
    ensures
        avoids(names, visit_arrow_body(s, body).0.action_idents),
    decreases body, 0int,
{
    match body {
        ArrowBodyView::Block(b) => {
            mention_stmts(names, s, b.stmts);
        },
        ArrowBodyView::Expr(e) => {
            mention_expr(names, s, *e);
        },
    }
}

proof fn mention_param(names: Seq<NameView>, s: State, p: ParamView)
    requires
        free_param(names, p),
        avoids(names, s.action_idents),
    ensures
        avoids(names, visit_param(s, p).0.action_idents),
    decreases p, 1int,
{
    mention_decorators(names, s, p.decorators);
    let s1 = visit_decorators(s, p.decorators).0;
    mention_pat(names, s1, p.pat);
}

proof fn mention_pat(names: Seq<NameView>, s: State, p: PatView)
    requires
        free_pat(names, p),
        avoids(names, s.action_idents),
    ensures
        avoids(names, visit_pat(s, p).0.action_idents),
    decreases p, 1int,
{
    mention_exprs(names, s, p.exprs);
}

proof fn mention_decorator(names: Seq<NameView>, s: State, d: DecoratorView)
    requires
        free_decorator(names, d),
        avoids(names, s.action_idents),
    ensures
        avoids(names, visit_decorator(s, d).0.action_idents),
    decreases d, 1int,
{
    mention_expr(names, s, d.expr);
}

proof fn mention_stmt(names: Seq<NameView>, s: State, stmt: StmtView)
    requires
        free_stmt(names, stmt),
        avoids(names, s.action_idents),
    ensures
        avoids(names, visit_stmt(s, stmt).0.action_idents),
    decreases stmt, 2int,
{
    mention_stmt_children(names, s, stmt);
}

proof fn mention_stmt_children(names: Seq<NameView>, s: State, stmt: StmtView)
    requires
        free_stmt(names, stmt),
        avoids(names, s.action_idents),
    ensures
        avoids(names, visit_stmt_children(s, stmt).0.action_idents),
    decreases stmt, 1int,
{
    match stmt {
        StmtView::Expr(_, e) => {
            mention_expr(names, s, *e);
        },
        StmtView::Decl(d) => {
            mention_decl(names, s, d);
        },
        StmtView::Return(e) => {
            mention_expr(names, s, *e);
        },
        StmtView::Other(o) => {
            mention_other(names, s, o);
        },
    }
}

proof fn mention_decl(names: Seq<NameView>, s: State, d: DeclView)
    requires
        free_decl(names, d),
        avoids(names, s.action_idents),
    ensures
        avoids(names, visit_decl(s, d).0.action_idents),
    decreases d, 1int,
{
    match d {
        DeclView::Fn(f) => {
            mention_fn_decl(names, s, f);
        },
        DeclView::Var(v) => {
            mention_declarators(names, s, v.decls);
        },
        DeclView::Other(o) => {
            mention_other(names, s, o);
        },
    }
}

proof fn mention_declarator(names: Seq<NameView>, s: State, d: DeclaratorView)
    requires
        free_declarator(names, d),
        avoids(names, s.action_idents),
    ensures
        avoids(names, visit_declarator(s, d).0.action_idents),
    decreases d, 1int,
{
    mention_pat(names, s, d.name);
    let s1 = visit_pat(s, d.name).0;
    mention_opt_expr(names, s1, d.init);
}

proof fn mention_prop(names: Seq<NameView>, s: State, p: PropView)
    requires
        free_prop(names, p),
        avoids(names, s.action_idents),
    ensures
        avoids(names, visit_prop(s, p).0.action_idents),
    decreases p, 1int,
{
    match p {
        PropView::Shorthand(_) => {},
        PropView::KeyValue(_, value) => {
            mention_expr(names, s, *value);
        },
        PropView::Other(o) => {
            mention_other(names, s, o);
        },
    }
}

proof fn mention_other(names: Seq<NameView>, s: State, o: OtherView)
    requires
        free_other(names, o),
        avoids(names, s.action_idents),
    ensures
        avoids(names, visit_other(s, o).0.action_idents),
    decreases o, 1int,
{
    mention_nodes(names, s, o.kids);
}

proof fn mention_node(names: Seq<NameView>, s: State, n: NodeView)
    requires
        free_node(names, n),
        avoids(names, s.action_idents),
    ensures
        avoids(names, visit_node(s, n).0.action_idents),
    decreases n, 1int,
{
    match n {
        NodeView::Expr(e) => {
            mention_expr(names, s, e);
        },
        NodeView::Stmt(stmt) => {
            mention_stmt(names, s, stmt);
        },
        NodeView::Stmts(v) => {
            mention_stmts(names, s, v);
        },
        NodeView::Param(p) => {
            mention_param(names, s, p);
        },
        NodeView::Prop(p) => {
            mention_prop(names, s, p);
        },
        NodeView::Items(v) => {
            mention_items(names, s, v);
        },
    }
}

proof fn mention_stmts(names: Seq<NameView>, s: State, v: Seq<StmtView>)
    requires
        free_stmts(names, v),
        avoids(names, s.action_idents),
    ensures
        avoids(names, visit_stmts(s, v).0.action_idents),
    decreases v, 5int,
{
    mention_stmts_in_turn(names, State { annotations: Seq::empty(), ..s }, v);
}

proof fn mention_stmts_in_turn(names: Seq<NameView>, s: State, v: Seq<StmtView>)
    requires
        free_stmts(names, v),
        avoids(names, s.action_idents),
    ensures
        avoids(names, visit_stmts_in_turn(s, v).0.action_idents),
    decreases v, 4int,
{
    if v.len() != 0 {
        mention_stmts_in_turn(names, s, v.drop_last());
        let s1 = visit_stmts_in_turn(s, v.drop_last()).0;
        let t = State { top_level: false, ..s1 };
        mention_stmt(names, t, v.last());
    }
}

proof fn mention_items(names: Seq<NameView>, s: State, v: Seq<ModuleItemView>)
    requires
        free_items(names, v),
        avoids(names, s.action_idents),
    ensures
        avoids(names, visit_items(s, v).0.action_idents),
    decreases v, 5int,
{
    without_decreases(v, module_directive(v));
    without_is_part(v, module_directive(v));
    let s1 = State { annotations: Seq::empty(), ..enter_items(s, v) };
    let w = without(v, module_directive(v));
    mention_items_in_turn(names, s1, w);
    let (s2, v2) = visit_items_in_turn(s1, w);
    leave_items_uses_none(s2, s.annotations, v2);
}

proof fn mention_items_in_turn(names: Seq<NameView>, s: State, v: Seq<ModuleItemView>)
    requires
        free_items(names, v),
        avoids(names, s.action_idents),
    ensures
        avoids(names, visit_items_in_turn(s, v).0.action_idents),
    decreases v, 4int,
{
    if v.len() != 0 {
        mention_items_in_turn(names, s, v.drop_last());
        let s1 = visit_items_in_turn(s, v.drop_last()).0;
        let t = State { top_level: true, ..s1 };
        mention_top_item(names, t, v.last());
    }
}

proof fn mention_top_item(names: Seq<NameView>, s: State, item: ModuleItemView)
    requires
        free_item(names, item),
        avoids(names, s.action_idents),
    ensures
        avoids(names, visit_top_item(s, item).0.action_idents),
    decreases item, 3int,
{
    if s.in_action_file {
        note_exports_uses_none(s, item);
        let s1 = note_exports(s, item);
        mention_exported_item(names, s1, default_name(s, item), item);
    } else {
        mention_item(names, s, item);
    }
}

proof fn mention_exported_item(
    names: Seq<NameView>,
    s: State,
    name: Option<IdentView>,
    item: ModuleItemView,
)
    requires
        free_item(names, item),
        avoids(names, s.action_idents),
    ensures
        avoids(names, visit_exported_item(s, name, item).0.action_idents),
    decreases item, 2int,
{
    match item {
        ModuleItemView::ExportDefaultDecl(span, DefaultDeclView::Fn(f)) => {
            let ident = if f.ident is Some {
                f.ident
            } else {
                name
            };
            mention_default_fn(names, s, ident, f.function);
        },
        ModuleItemView::ExportDefaultExpr(span, e) => {
            mention_default_expr(names, s, *e);
        },
        _ => {
            mention_item(names, s, item);
        },
    }
}

proof fn mention_export_decl(names: Seq<NameView>, s: State, d: DeclView)
    requires
        free_decl(names, d),
        avoids(names, s.action_idents),
    ensures
        avoids(names, visit_export_decl(s, d).0.action_idents),
    decreases d, 2int,
{
    mention_decl(names, export_scope(s), d);
}

proof fn mention_default_fn(
    names: Seq<NameView>,
    s: State,
    ident: Option<IdentView>,
    f: FunctionView,
)
    requires
        free_function(names, f),
        avoids(names, s.action_idents),
    ensures
        avoids(names, visit_default_fn(s, ident, f).0.action_idents),
    decreases f, 3int,
{
    mention_fn_expr(names, default_scope(s), ident, f);
}

proof fn mention_default_decl(names: Seq<NameView>, s: State, d: DefaultDeclView)
    requires
        match d {
            DefaultDeclView::Fn(f) => free_function(names, f.function),
            DefaultDeclView::Other(o) => free_other(names, o),
        },
        avoids(names, s.action_idents),
    ensures
        avoids(names, visit_default_decl(s, d).0.action_idents),
    decreases d, 2int,
{
    match d {
        DefaultDeclView::Fn(f) => {
            mention_default_fn(names, s, f.ident, f.function);
        },
        DefaultDeclView::Other(o) => {
            mention_other(names, default_scope(s), o);
        },
    }
}

proof fn mention_default_expr(names: Seq<NameView>, s: State, e: ExprView)
    requires
        free_expr(names, e),
        avoids(names, s.action_idents),
    ensures
        avoids(names, visit_default_expr(s, e).0.action_idents),
    decreases e, 3int,
{
    mention_expr(names, default_scope(s), e);
}

proof fn mention_item(names: Seq<NameView>, s: State, item: ModuleItemView)
    requires
        free_item(names, item),
        avoids(names, s.action_idents),
    ensures
        avoids(names, visit_item(s, item).0.action_idents),
    decreases item, 1int,
{
    match item {
        ModuleItemView::Stmt(stmt) => {
            mention_stmt(names, s, stmt);
        },
        ModuleItemView::ExportDecl(span, d) => {
            mention_export_decl(names, s, d);
        },
        ModuleItemView::ExportNamed(n) => {
            mention_other(names, s, n.rest);
        },
        ModuleItemView::ExportDefaultDecl(span, d) => {
            mention_default_decl(names, s, d);
        },
        ModuleItemView::ExportDefaultExpr(span, e) => {
            mention_default_expr(names, s, *e);
        },
        ModuleItemView::ExportAll(span, o) => {
            mention_other(names, s, o);
        },
        ModuleItemView::Other(o) => {
            mention_other(names, s, o);
        },
    }
}

proof fn mention_exprs(names: Seq<NameView>, s: State, v: Seq<ExprView>)
    requires
        free_exprs(names, v),
        avoids(names, s.action_idents),
    ensures
        avoids(names, visit_exprs(s, v).0.action_idents),
    decreases v, 4int,
{
    if v.len() != 0 {
        mention_exprs(names, s, v.drop_last());
        let s1 = visit_exprs(s, v.drop_last()).0;
        mention_expr(names, s1, v.last());
    }
}

proof fn mention_params(names: Seq<NameView>, s: State, v: Seq<ParamView>)
    requires
        free_params(names, v),
        avoids(names, s.action_idents),
    ensures
        avoids(names, visit_params(s, v).0.action_idents),
    decreases v, 4int,
{
    if v.len() != 0 {
        mention_params(names, s, v.drop_last());
        let s1 = visit_params(s, v.drop_last()).0;
        mention_param(names, s1, v.last());
    }
}

proof fn mention_decorators(names: Seq<NameView>, s: State, v: Seq<DecoratorView>)
    requires
        free_decorators(names, v),
        avoids(names, s.action_idents),
    ensures
        avoids(names, visit_decorators(s, v).0.action_idents),
    decreases v, 4int,
{
    if v.len() != 0 {
        mention_decorators(names, s, v.drop_last());
        let s1 = visit_decorators(s, v.drop_last()).0;
        mention_decorator(names, s1, v.last());
    }
}

proof fn mention_pats(names: Seq<NameView>, s: State, v: Seq<PatView>)
    requires
        free_pats(names, v),
        avoids(names, s.action_idents),
    ensures
        avoids(names, visit_pats(s, v).0.action_idents),
    decreases v, 4int,
{
    if v.len() != 0 {
        mention_pats(names, s, v.drop_last());
        let s1 = visit_pats(s, v.drop_last()).0;
        mention_pat(names, s1, v.last());
    }
}

proof fn mention_declarators(names: Seq<NameView>, s: State, v: Seq<DeclaratorView>)
    requires
        free_declarators(names, v),
        avoids(names, s.action_idents),
    ensures
        avoids(names, visit_declarators(s, v).0.action_idents),
    decreases v, 4int,
{
    if v.len() != 0 {
        mention_declarators(names, s, v.drop_last());
        let s1 = visit_declarators(s, v.drop_last()).0;
        mention_declarator(names, s1, v.last());
    }
}

proof fn mention_nodes(names: Seq<NameView>, s: State, v: Seq<NodeView>)
    requires
        free_nodes(names, v),
        avoids(names, s.action_idents),
    ensures
        avoids(names, visit_nodes(s, v).0.action_idents),
    decreases v, 4int,
{
    if v.len() != 0 {
        mention_nodes(names, s, v.drop_last());
        let s1 = visit_nodes(s, v.drop_last()).0;
        mention_node(names, s1, v.last());
    }
}

/// A name that a module does not mention is never recorded as used by an
/// action.
pub proof fn records_mentioned_names(
    file_name: Seq<char>,
    config: Config,
    m: ModuleView,
    names: Seq<NameView>,
)
    requires
        free_items(names, m.body),
    ensures
        avoids(names, visit_module(initial_state(file_name, config), m).0.action_idents),
{
    let s = State { start_pos: m.span.lo, ..initial_state(file_name, config) };
    mention_items(names, s, m.body);
}

} // verus!
