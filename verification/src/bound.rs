//! What is recorded as bound is what the source declares.

use vstd::prelude::*;

use crate::actions::{arrow_stays_marked, marked_arrow, marked_body};
use crate::ast::Span;
use crate::bindings::{idents_in_element, idents_in_stmt};
use crate::closed::{
    alone, distinct_arrow, distinct_function, hoisted_arrow_is_closed, hoisted_function_is_closed,
    reserved,
};
use crate::directive::module_directive;
use crate::exported::same_names;
use crate::file_exports::{function_stays_at_level, unnested_function};
use crate::frame::{
    finish_function_extends, grows, visit_arrow_extends, visit_decorators_extends,
    visit_fn_body_extends, visit_fn_decl_extends, visit_function_extends, visit_param_extends,
    visit_params_extends, visit_pat_extends, visit_pats_extends, visit_stmt_children_extends,
    visit_stmt_extends, visit_stmts_extends, visit_stmts_in_turn_extends,
};
use crate::free::free_block;
use crate::mentioned::without_is_part;
use crate::model::{
    ArrowBodyView, ArrowView, BlockView, DeclView, DeclaratorView, DecoratorView, DefaultDeclView,
    ExprView, FnDeclView, FunctionView, IdView, IdentView, MemberView, ModuleItemView, ModuleView,
    NodeView, OtherView, ParamView, PatView, PropView, StmtView, VarDeclView,
};
use crate::names::name_of;
use crate::prefix::prefix;
use crate::state::{action_ident, initial_state, Config, Scope, State};
use crate::transform::{
    action_directive, add_action, arrow_block, bind, captures, collects_names, const_export,
    default_name, default_scope, enter_function, enter_items, export_scope, finish_arrow,
    finish_expr, finish_function, hoisted_arrow, is_action, leave_items, name_action, note_exports,
    take_ident, use_name, visit_arrow, visit_arrow_body, visit_decl, visit_declarator,
    visit_declarators, visit_decorator, visit_decorators, visit_default_decl, visit_default_expr,
    visit_default_fn, visit_export_decl, visit_exported_item, visit_expr, visit_expr_children,
    visit_exprs, visit_fn_body, visit_fn_decl, visit_fn_expr, visit_function, visit_item,
    visit_items, visit_items_in_turn, visit_member, visit_module, visit_node, visit_nodes,
    visit_opt_expr, visit_other, visit_param, visit_params, visit_pat, visit_pats, visit_prop,
    visit_stmt, visit_stmt_children, visit_stmts, visit_stmts_in_turn, visit_top_item, without,
    without_decreases, without_directive, CallableView,
};
use crate::vocabulary::{
    binds, contains_sum, directive_is_where_marked, element_binds, element_collected, marked,
    vars_bind, vars_collected,
};

verus! {

// ---- What declarations bind is recorded ----

/// An identifier is recorded as bound around what comes next.
pub open spec fn known(s: State, id: IdView) -> bool {
    s.closure_idents.contains(id) || s.action_locals.contains(id)
}

proof fn still_in(a: Seq<IdView>, b: Seq<IdView>, id: IdView)
    requires
        prefix(a, b),
        a.contains(id),
    ensures
        b.contains(id),
{
    reveal(prefix);
    let i = choose|i: int| 0 <= i < a.len() && a[i] == id;
    assert(b[i] == id);
}

/// What was recorded stays recorded.
proof fn still_known(s: State, t: State, id: IdView)
    requires
        grows(s, t),
        known(s, id),
    ensures
        known(t, id),
{
    if s.closure_idents.contains(id) {
        still_in(s.closure_idents, t.closure_idents, id);
    } else {
        still_in(s.action_locals, t.action_locals, id);
    }
}

proof fn binding_records(s: State, ids: Seq<IdView>, id: IdView)
    requires
        !s.in_action_file,
        ids.contains(id),
    ensures
        s.scope.in_action_fn ==> bind(s, ids).action_locals.contains(id),
        !s.scope.in_action_fn ==> bind(s, ids).closure_idents.contains(id),
{
    contains_sum(s.closure_idents, ids, id);
    contains_sum(s.action_locals, ids, id);
}

/// Declarations with the same patterns bind the same.
pub proof fn same_forms_bind(v: Seq<DeclaratorView>, w: Seq<DeclaratorView>, id: IdView)
    requires
        v.len() == w.len(),
        forall|i: int| 0 <= i < v.len() ==> (#[trigger] w[i]).name.form == v[i].name.form,
    ensures
        vars_bind(v, id) <==> vars_bind(w, id),
{
    if vars_bind(v, id) {
        let k = choose|k: int| 0 <= k < v.len() && binds((#[trigger] v[k]).name.form, id);
        assert(binds(w[k].name.form, id));
    }
    if vars_bind(w, id) {
        let k = choose|k: int| 0 <= k < w.len() && binds((#[trigger] w[k]).name.form, id);
        assert(binds(v[k].name.form, id));
    }
}

/// Every variable that a statement in a function declares is recorded, whether
/// it is declared by `const`, `let` or `var`: outside of actions for good, and
/// inside of an action until the function ends.
pub proof fn variables_are_recorded(s: State, v: VarDeclView, id: IdView)
    requires
        !s.scope.in_module,
        !visit_stmt(s, StmtView::Decl(DeclView::Var(v))).0.in_action_file,
        vars_bind(v.decls, id),
    ensures
        ({
            let t = visit_stmt(s, StmtView::Decl(DeclView::Var(v))).0;
            &&& s.scope.in_action_fn ==> t.action_locals.contains(id)
            &&& !s.scope.in_action_fn ==> t.closure_idents.contains(id)
        }),
{
    let stmt = StmtView::Decl(DeclView::Var(v));
    visit_stmt_children_extends(s, stmt);
    let (s1, stmt1) = visit_stmt_children(s, stmt);
    same_names(s, v.decls);
    let w = visit_declarators(s, v.decls).1;
    assert(visit_decl(s, DeclView::Var(v)).1 == DeclView::Var(VarDeclView { decls: w, ..v }));
    assert(stmt1 == StmtView::Decl(DeclView::Var(VarDeclView { decls: w, ..v })));
    same_forms_bind(v.decls, w, id);
    vars_collected(w, id);
    binding_records(s1, idents_in_stmt(stmt1), id);
}

/// Every name that a parameter binds is recorded.
pub proof fn parameter_is_recorded(s: State, p: ParamView, id: IdView)
    requires
        !visit_param(s, p).0.in_action_file,
        element_binds(p.pat.form, id),
    ensures
        s.scope.in_action_fn ==> visit_param(s, p).0.action_locals.contains(id),
        !s.scope.in_action_fn ==> visit_param(s, p).0.closure_idents.contains(id),
{
    let s1 = visit_decorators(s, p.decorators).0;
    visit_decorators_extends(s, p.decorators);
    visit_pat_extends(s1, p.pat);
    let s2 = visit_pat(s1, p.pat).0;
    element_collected(p.pat.form, id);
    binding_records(s2, idents_in_element(p.pat.form), id);
}

/// Every name that one of several parameters binds is recorded.
pub proof fn parameters_are_recorded(s: State, v: Seq<ParamView>, i: int, id: IdView)
    requires
        0 <= i < v.len(),
        !visit_params(s, v).0.in_action_file,
        element_binds(v[i].pat.form, id),
    ensures
        known(visit_params(s, v).0, id),
        !s.scope.in_action_fn ==> visit_params(s, v).0.closure_idents.contains(id),
    decreases v.len(),
{
    let s1 = visit_params(s, v.drop_last()).0;
    visit_params_extends(s, v.drop_last());
    visit_param_extends(s1, v.last());
    let t = visit_param(s1, v.last()).0;
    if i == v.len() - 1 {
        parameter_is_recorded(s1, v.last(), id);
    } else {
        parameters_are_recorded(s, v.drop_last(), i, id);
        still_known(s1, t, id);
        if !s.scope.in_action_fn {
            still_in(s1.closure_idents, t.closure_idents, id);
        }
    }
}

/// Every name that a parameter of an arrow function binds is recorded.
pub proof fn arrow_parameters_are_recorded(s: State, v: Seq<PatView>, i: int, id: IdView)
    requires
        0 <= i < v.len(),
        !visit_pats(s, v).0.in_action_file,
        element_binds(v[i].form, id),
    ensures
        known(visit_pats(s, v).0, id),
        !s.scope.in_action_fn ==> visit_pats(s, v).0.closure_idents.contains(id),
    decreases v.len(),
{
    let s1 = visit_pats(s, v.drop_last()).0;
    visit_pats_extends(s, v.drop_last());
    visit_pat_extends(s1, v.last());
    let s2 = visit_pat(s1, v.last()).0;
    let ids = idents_in_element(v.last().form);
    let t = bind(s2, ids);
    assert(visit_pats(s, v).0 == t);
    if i == v.len() - 1 {
        element_collected(v.last().form, id);
        binding_records(s2, ids, id);
    } else {
        arrow_parameters_are_recorded(s, v.drop_last(), i, id);
        still_known(s1, s2, id);
        contains_sum(s2.closure_idents, ids, id);
        contains_sum(s2.action_locals, ids, id);
        if !s.scope.in_action_fn {
            still_in(s1.closure_idents, s2.closure_idents, id);
        }
    }
}

/// A statement declares variables that bind an identifier, in whatever way.
pub open spec fn declares(stmt: StmtView, id: IdView) -> bool {
    match stmt {
        StmtView::Decl(DeclView::Var(v)) => vars_bind(v.decls, id),
        _ => false,
    }
}

/// After the walk over statements of a function every variable that one of them
/// declares is recorded.
pub proof fn declared_variables_are_recorded(s: State, v: Seq<StmtView>, i: int, id: IdView)
    requires
        0 <= i < v.len(),
        !s.scope.in_module,
        !visit_stmts_in_turn(s, v).0.in_action_file,
        declares(v[i], id),
    ensures
        known(visit_stmts_in_turn(s, v).0, id),
        !s.scope.in_action_fn ==> visit_stmts_in_turn(s, v).0.closure_idents.contains(id),
    decreases v.len(),
{
    let s1 = visit_stmts_in_turn(s, v.drop_last()).0;
    let t1 = State { top_level: false, ..s1 };
    visit_stmts_in_turn_extends(s, v.drop_last());
    visit_stmt_extends(t1, v.last());
    let t = visit_stmt(t1, v.last()).0;
    if i == v.len() - 1 {
        variables_are_recorded(t1, v.last()->Decl_0->Var_0, id);
    } else {
        declared_variables_are_recorded(s, v.drop_last(), i, id);
        still_known(t1, t, id);
        if !s.scope.in_action_fn {
            still_in(t1.closure_idents, t.closure_idents, id);
        }
    }
}

/// A parameter of a function, or a statement of its body, binds an identifier.
pub open spec fn binds_in_function(f: FunctionView, id: IdView) -> bool {
    ||| exists|i: int|
        0 <= i < f.params.len() && element_binds((#[trigger] f.params[i]).pat.form, id)
    ||| f.body is Some && exists|i: int|
        0 <= i < f.body->0.stmts.len() && declares(#[trigger] f.body->0.stmts[i], id)
}

/// After the walk over a function that is no action, outside of actions, what
/// its parameters bind and what its statements declare is recorded.
pub proof fn function_bindings_are_recorded(s: State, f: FunctionView, id: IdView)
    requires
        !s.scope.in_action_fn,
        !visit_function(s, f).0.in_action_file,
        f.body is None || !marked(f.body->0.stmts),
        binds_in_function(f, id),
    ensures
        visit_function(s, f).0.closure_idents.contains(id),
{
    visit_function_extends(s, f);
    let directive = action_directive(s, f.body);
    if let Some(b) = f.body {
        directive_is_where_marked(b.stmts, 0);
        assert(without(b.stmts, directive) == b.stmts);
    }
    let s0 = enter_function(s, is_action(s, f.body));
    let s1 = visit_params(s0, f.params).0;
    let s2 = visit_decorators(s1, f.decorators).0;
    let s3 = visit_fn_body(s2, f.body, directive).0;
    visit_params_extends(s0, f.params);
    visit_decorators_extends(s1, f.decorators);
    visit_fn_body_extends(s2, f.body, directive);
    if exists|i: int|
        0 <= i < f.params.len() && element_binds((#[trigger] f.params[i]).pat.form, id) {
        let i = choose|i: int|
            0 <= i < f.params.len() && element_binds((#[trigger] f.params[i]).pat.form, id);
        parameters_are_recorded(s0, f.params, i, id);
        still_in(s1.closure_idents, s2.closure_idents, id);
        still_in(s2.closure_idents, s3.closure_idents, id);
    } else {
        let b = f.body->0;
        let i = choose|i: int| 0 <= i < b.stmts.len() && declares(#[trigger] b.stmts[i], id);
        let t2 = State { annotations: Seq::empty(), ..s2 };
        declared_variables_are_recorded(t2, b.stmts, i, id);
    }
}

/// An item exports a function in whose body an identifier does not occur.
pub open spec fn exports_free(item: ModuleItemView, id: IdView) -> bool {
    match item {
        ModuleItemView::ExportDecl(_, DeclView::Fn(d)) => match d.function.body {
            Some(b) => free_block(alone(id), b),
            None => true,
        },
        ModuleItemView::ExportDecl(_, DeclView::Var(v)) => {
            &&& v.decls.len() == 1
            &&& v.decls[0].init is Some
            &&& *v.decls[0].init->0 is Arrow
            &&& v.decls[0].init->0->Arrow_0.body is Block
            &&& free_block(alone(id), v.decls[0].init->0->Arrow_0.body->Block_0)
        },
        _ => false,
    }
}

/// An action that is declared inside of a function is hoisted, and mentions
/// nothing there that was recorded as bound.
pub proof fn hoisted_declaration_mentions_nothing_bound(s: State, d: FnDeclView, id: IdView)
    requires
        known(s, id),
        marked_body(d.function.body),
        d.function.is_async,
        !visit_function(s, d.function).0.in_action_file,
        !visit_function(s, d.function).0.top_level,
        !reserved(id),
        distinct_function(id, d.function),
    ensures
        ({
            let items = visit_fn_decl(s, d).0.extra_items;
            items.len() > 0 && exports_free(items.last(), id)
        }),
{
    contains_sum(s.closure_idents, s.action_locals, id);
    directive_is_where_marked(d.function.body->0.stmts, 0);
    visit_function_extends(s, d.function);
    let (s2, f2) = visit_function(s, d.function);
    hoisted_function_is_closed(s, d.function, id, s2.ident_cnt);
    assert(f2.is_async);
    reveal(finish_function);
    reveal(add_action);
}

/// An action that is a function expression inside of a function is hoisted, and
/// mentions nothing there that was recorded as bound.
pub proof fn hoisted_expression_mentions_nothing_bound(
    s: State,
    ident: Option<IdentView>,
    f: FunctionView,
    id: IdView,
)
    requires
        known(s, id),
        marked_body(f.body),
        f.is_async,
        !visit_function(s, f).0.in_action_file,
        !visit_function(s, f).0.top_level,
        !reserved(id),
        distinct_function(id, f),
    ensures
        ({
            let items = visit_fn_expr(s, ident, f).0.extra_items;
            items.len() > 0 && exports_free(items.last(), id)
        }),
{
    contains_sum(s.closure_idents, s.action_locals, id);
    directive_is_where_marked(f.body->0.stmts, 0);
    visit_function_extends(s, f);
    let (s1, f1) = visit_function(s, f);
    let (s2, ident2) = name_action(s1, ident, f1);
    hoisted_function_is_closed(s, f, id, s2.ident_cnt);
    assert(f1.is_async);
    assert(captures(s2) == captures(s1));
    reveal(finish_function);
    reveal(add_action);
}

/// An action that is an arrow function is hoisted, and mentions nothing there
/// that was recorded as bound.
pub proof fn hoisted_arrow_mentions_nothing_bound(s: State, a: ArrowView, id: IdView)
    requires
        known(s, id),
        marked_arrow(a),
        !visit_arrow(s, a).0.in_action_file,
        !reserved(id),
        distinct_arrow(id, a),
    ensures
        ({
            let items = visit_expr(s, ExprView::Arrow(a)).0.extra_items;
            items.len() > 1 && exports_free(items[items.len() - 2], id)
        }),
{
    contains_sum(s.closure_idents, s.action_locals, id);
    directive_is_where_marked(a.body->Block_0.stmts, 0);
    arrow_stays_marked(s, a);
    let (s1, a1) = visit_arrow(s, a);
    directive_is_where_marked(a1.body->Block_0.stmts, 0);
    visit_arrow_extends(s, a);
    hoisted_arrow_is_closed(s, a, id, s1.ident_cnt + 1);
    assert(captures(take_ident(s1)) == captures(s1));
    reveal(finish_expr);
    reveal(finish_arrow);
    reveal(add_action);
    assert(visit_expr_children(s, ExprView::Arrow(a)) == (s1, ExprView::Arrow(a1)));
    let h = hoisted_arrow(s1.ident_cnt + 1, captures(s1), without_directive(a1));
    let t = finish_arrow(s1, a1).0;
    assert(t.extra_items[t.extra_items.len() - 2] == const_export(
        action_ident(s1.ident_cnt + 1),
        ExprView::Arrow(h),
    ));
}

/// The state for the next statement of a list.
pub open spec fn in_list(s: State) -> State {
    State { top_level: false, ..s }
}

/// An action that is declared among the statements of a function is hoisted,
/// and mentions no variable there that a statement before it declares.
pub proof fn hoisted_action_mentions_no_variable(
    s: State,
    v: Seq<StmtView>,
    d: FnDeclView,
    i: int,
    id: IdView,
)
    requires
        0 <= i < v.len(),
        !s.scope.in_module,
        declares(v[i], id),
        marked_body(d.function.body),
        d.function.is_async,
        !visit_stmts_in_turn(s, v.push(StmtView::Decl(DeclView::Fn(d)))).0.in_action_file,
        unnested_function(d.function),
        !reserved(id),
        distinct_function(id, d.function),
    ensures
        ({
            let t = visit_stmts_in_turn(s, v.push(StmtView::Decl(DeclView::Fn(d)))).0;
            t.extra_items.len() > 0 && exports_free(t.extra_items.last(), id)
        }),
{
    let last = StmtView::Decl(DeclView::Fn(d));
    let w = v.push(last);
    assert(w.drop_last() =~= v);
    let s1 = visit_stmts_in_turn(s, v).0;
    let t1 = in_list(s1);
    visit_stmts_in_turn_extends(s, v);
    visit_stmt_extends(t1, last);
    declared_variables_are_recorded(s, v, i, id);
    visit_fn_decl_extends(t1, d);
    let (s2, f2) = visit_function(t1, d.function);
    finish_function_extends(s2, d.ident.span, d.ident, f2);
    function_stays_at_level(t1, d.function);
    hoisted_declaration_mentions_nothing_bound(t1, d, id);
    let t = visit_fn_decl(t1, d).0;
    assert(visit_stmt(t1, last).0.extra_items == t.extra_items);
    assert(visit_stmts_in_turn(s, w).0.extra_items == t.extra_items);
}

/// An action that is a variable's value among the statements of a function, as
/// an arrow function, is hoisted, and mentions no variable there that a
/// statement before it declares.
pub proof fn hoisted_arrow_mentions_no_variable(
    s: State,
    v: Seq<StmtView>,
    a: ArrowView,
    i: int,
    id: IdView,
)
    requires
        0 <= i < v.len(),
        !s.scope.in_module,
        declares(v[i], id),
        marked_arrow(a),
        !visit_arrow(in_list(visit_stmts_in_turn(s, v).0), a).0.in_action_file,
        !reserved(id),
        distinct_arrow(id, a),
    ensures
        ({
            let t = visit_expr(in_list(visit_stmts_in_turn(s, v).0), ExprView::Arrow(a)).0;
            t.extra_items.len() > 1 && exports_free(t.extra_items[t.extra_items.len() - 2], id)
        }),
{
    let s1 = visit_stmts_in_turn(s, v).0;
    visit_stmts_in_turn_extends(s, v);
    visit_arrow_extends(in_list(s1), a);
    declared_variables_are_recorded(s, v, i, id);
    hoisted_arrow_mentions_nothing_bound(in_list(s1), a, id);
}

/// The statements of a function's body end with the declaration of an action,
/// an async function with the directive that holds no namespace.
pub open spec fn ends_with_action(stmts: Seq<StmtView>, d: FnDeclView) -> bool {
    &&& stmts.len() > 0
    &&& stmts.last() == StmtView::Decl(DeclView::Fn(d))
    &&& marked_body(d.function.body)
    &&& d.function.is_async
    &&& unnested_function(d.function)
}

proof fn last_action_mentions_nothing_bound(
    s: State,
    v: Seq<StmtView>,
    d: FnDeclView,
    id: IdView,
)
    requires
        ends_with_action(v, d),
        known(s, id),
        !visit_stmts(s, v).0.in_action_file,
        !reserved(id),
        distinct_function(id, d.function),
    ensures
        ({
            let t = visit_stmts(s, v).0;
            t.extra_items.len() > 0 && exports_free(t.extra_items.last(), id)
        }),
{
    let s0 = State { annotations: Seq::empty(), ..s };
    let s1 = visit_stmts_in_turn(s0, v.drop_last()).0;
    let t1 = in_list(s1);
    visit_stmts_in_turn_extends(s0, v.drop_last());
    visit_stmt_extends(t1, v.last());
    still_known(s0, s1, id);
    visit_fn_decl_extends(t1, d);
    let (s2, f2) = visit_function(t1, d.function);
    finish_function_extends(s2, d.ident.span, d.ident, f2);
    function_stays_at_level(t1, d.function);
    let t = visit_fn_decl(t1, d).0;
    assert(visit_stmt(t1, v.last()).0.in_action_file == t.in_action_file);
    assert(visit_stmt(t1, v.last()).0.extra_items == t.extra_items);
    assert(visit_stmts_in_turn(s0, v).0.extra_items == t.extra_items);
    directive_is_where_marked(d.function.body->0.stmts, 0);
    hoisted_declaration_mentions_nothing_bound(t1, d, id);
}

/// An action at the end of a function that is no action itself mentions no
/// parameter of that function.
pub proof fn hoisted_action_mentions_no_parameter(
    s: State,
    f: FunctionView,
    d: FnDeclView,
    i: int,
    id: IdView,
)
    requires
        f.body is Some,
        !marked(f.body->0.stmts),
        ends_with_action(f.body->0.stmts, d),
        0 <= i < f.params.len(),
        element_binds(f.params[i].pat.form, id),
        !visit_function(s, f).0.in_action_file,
        !reserved(id),
        distinct_function(id, d.function),
    ensures
        ({
            let t = visit_function(s, f).0;
            t.extra_items.len() > 0 && exports_free(t.extra_items.last(), id)
        }),
{
    let b = f.body->0;
    visit_function_extends(s, f);
    directive_is_where_marked(b.stmts, 0);
    assert(without(b.stmts, action_directive(s, f.body)) == b.stmts);
    let s0 = enter_function(s, is_action(s, f.body));
    let s1 = visit_params(s0, f.params).0;
    let s2 = visit_decorators(s1, f.decorators).0;
    visit_params_extends(s0, f.params);
    visit_decorators_extends(s1, f.decorators);
    visit_stmts_extends(s2, b.stmts);
    parameters_are_recorded(s0, f.params, i, id);
    still_known(s1, s2, id);
    assert(visit_fn_body(s2, f.body, action_directive(s, f.body)).0 == visit_stmts(
        s2,
        b.stmts,
    ).0);
    last_action_mentions_nothing_bound(s2, b.stmts, d, id);
}

/// An action at the end of an arrow function mentions no parameter of it.
pub proof fn hoisted_action_mentions_no_arrow_parameter(
    s: State,
    a: ArrowView,
    d: FnDeclView,
    i: int,
    id: IdView,
)
    requires
        a.body is Block,
        ends_with_action(a.body->Block_0.stmts, d),
        0 <= i < a.params.len(),
        element_binds(a.params[i].form, id),
        !visit_arrow(s, a).0.in_action_file,
        !reserved(id),
        distinct_function(id, d.function),
    ensures
        ({
            let t = visit_arrow(s, a).0;
            t.extra_items.len() > 0 && exports_free(t.extra_items.last(), id)
        }),
{
    let b = a.body->Block_0;
    visit_arrow_extends(s, a);
    let s0 = enter_function(s, is_action(s, arrow_block(a)));
    let s1 = visit_pats(s0, a.params).0;
    visit_pats_extends(s0, a.params);
    visit_stmts_extends(s1, b.stmts);
    arrow_parameters_are_recorded(s0, a.params, i, id);
    assert(visit_arrow_body(s1, a.body).0 == visit_stmts(s1, b.stmts).0);
    last_action_mentions_nothing_bound(s1, b.stmts, d, id);
}

// ---- Nothing else is recorded ----

/// An identifier is not recorded as bound.
pub open spec fn unbound(id: IdView, s: State) -> bool {
    !s.closure_idents.contains(id) && !s.action_locals.contains(id)
}

proof fn binding_others(id: IdView, s: State, ids: Seq<IdView>)
    requires
        unbound(id, s),
        !ids.contains(id),
    ensures
        unbound(id, bind(s, ids)),
{
    contains_sum(s.closure_idents, ids, id);
    contains_sum(s.action_locals, ids, id);
}

pub open spec fn undeclared_expr(id: IdView, e: ExprView) -> bool
    decreases e, 1int,
{
    undeclared_children(id, e)
}

pub open spec fn undeclared_children(id: IdView, e: ExprView) -> bool
    decreases e, 0int,
{
    match e {
        ExprView::Ident(_) => true,
        ExprView::Str(_, _) => true,
        ExprView::Member(m) => undeclared_expr(id, *m.obj),
        ExprView::OptMember(m) => undeclared_expr(id, *m.obj),
        ExprView::Fn(f) => undeclared_function(id, f.function),
        ExprView::Arrow(a) => undeclared_arrow(id, a),
        ExprView::Call(callee, args) => undeclared_expr(id, *callee) && undeclared_exprs(id, args),
        ExprView::Assign(target, value) => undeclared_expr(id, *target)
            && undeclared_expr(id, *value),
        ExprView::Define(_, value) => undeclared_expr(id, *value),
        ExprView::Paren(inner) => undeclared_expr(id, *inner),
        ExprView::Array(elems) => undeclared_exprs(id, elems),
        ExprView::Index(obj, _) => undeclared_expr(id, *obj),
        ExprView::Other(o) => undeclared_other(id, o),
    }
}

pub open spec fn undeclared_function(id: IdView, f: FunctionView) -> bool
    decreases f, 1int,
{
    undeclared_params(id, f.params) && undeclared_decorators(id, f.decorators)
        && undeclared_opt_block(
        id,
        f.body,
    )
}

pub open spec fn undeclared_opt_block(id: IdView, b: Option<BlockView>) -> bool
    decreases b, 1int,
{
    match b {
        Some(block) => undeclared_block(id, block),
        None => true,
    }
}

pub open spec fn undeclared_block(id: IdView, b: BlockView) -> bool
    decreases b, 1int,
{
    undeclared_stmts(id, b.stmts)
}

pub open spec fn undeclared_arrow(id: IdView, a: ArrowView) -> bool
    decreases a, 1int,
{
    undeclared_pats(id, a.params) && match a.body {
        ArrowBodyView::Block(b) => undeclared_block(id, b),
        ArrowBodyView::Expr(e) => undeclared_expr(id, *e),
    }
}

pub open spec fn undeclared_param(id: IdView, p: ParamView) -> bool
    decreases p, 1int,
{
    &&& !element_binds(p.pat.form, id)
    &&& undeclared_decorators(id, p.decorators)
    &&& undeclared_pat(id, p.pat)
}

pub open spec fn undeclared_pat(id: IdView, p: PatView) -> bool
    decreases p, 1int,
{
    undeclared_exprs(id, p.exprs)
}

pub open spec fn undeclared_decorator(id: IdView, d: DecoratorView) -> bool
    decreases d, 1int,
{
    undeclared_expr(id, d.expr)
}

pub open spec fn undeclared_stmt(id: IdView, s: StmtView) -> bool
    decreases s, 1int,
{
    match s {
        StmtView::Expr(_, e) => undeclared_expr(id, *e),
        StmtView::Decl(d) => undeclared_decl(id, d),
        StmtView::Return(e) => undeclared_expr(id, *e),
        StmtView::Other(o) => undeclared_other(id, o),
    }
}

pub open spec fn undeclared_decl(id: IdView, d: DeclView) -> bool
    decreases d, 1int,
{
    match d {
        DeclView::Fn(f) => undeclared_function(id, f.function),
        DeclView::Var(v) => !vars_bind(v.decls, id) && undeclared_declarators(id, v.decls),
        DeclView::Other(o) => undeclared_other(id, o),
    }
}

pub open spec fn undeclared_declarator(id: IdView, d: DeclaratorView) -> bool
    decreases d, 1int,
{
    undeclared_pat(id, d.name) && match d.init {
        Some(e) => undeclared_expr(id, *e),
        None => true,
    }
}

pub open spec fn undeclared_prop(id: IdView, p: PropView) -> bool
    decreases p, 1int,
{
    match p {
        PropView::Shorthand(_) => true,
        PropView::KeyValue(_, value) => undeclared_expr(id, *value),
        PropView::Other(o) => undeclared_other(id, o),
    }
}

pub open spec fn undeclared_other(id: IdView, o: OtherView) -> bool
    decreases o, 1int,
{
    undeclared_nodes(id, o.kids)
}

pub open spec fn undeclared_node(id: IdView, n: NodeView) -> bool
    decreases n, 1int,
{
    match n {
        NodeView::Expr(e) => undeclared_expr(id, e),
        NodeView::Stmt(s) => undeclared_stmt(id, s),
        NodeView::Stmts(v) => undeclared_stmts(id, v),
        NodeView::Param(p) => undeclared_param(id, p),
        NodeView::Prop(p) => undeclared_prop(id, p),
        NodeView::Items(v) => undeclared_items(id, v),
    }
}

pub open spec fn undeclared_item(id: IdView, item: ModuleItemView) -> bool
    decreases item, 1int,
{
    match item {
        ModuleItemView::Stmt(s) => undeclared_stmt(id, s),
        ModuleItemView::ExportDecl(_, d) => undeclared_decl(id, d),
        ModuleItemView::ExportNamed(n) => undeclared_other(id, n.rest),
        ModuleItemView::ExportDefaultDecl(_, DefaultDeclView::Fn(f)) => undeclared_function(
            id,
            f.function,
        ),
        ModuleItemView::ExportDefaultDecl(_, DefaultDeclView::Other(o)) => undeclared_other(id, o),
        ModuleItemView::ExportDefaultExpr(_, e) => undeclared_expr(id, *e),
        ModuleItemView::ExportAll(_, o) => undeclared_other(id, o),
        ModuleItemView::Other(o) => undeclared_other(id, o),
    }
}

pub open spec fn undeclared_exprs(id: IdView, v: Seq<ExprView>) -> bool
    decreases v, 3int,
{
    forall|i: int| 0 <= i < v.len() ==> undeclared_expr(id, #[trigger] v[i])
}

pub open spec fn undeclared_params(id: IdView, v: Seq<ParamView>) -> bool
    decreases v, 3int,
{
    forall|i: int| 0 <= i < v.len() ==> undeclared_param(id, #[trigger] v[i])
}

pub open spec fn undeclared_decorators(id: IdView, v: Seq<DecoratorView>) -> bool
    decreases v, 3int,
{
    forall|i: int| 0 <= i < v.len() ==> undeclared_decorator(id, #[trigger] v[i])
}

pub open spec fn undeclared_pats(id: IdView, v: Seq<PatView>) -> bool
    decreases v, 3int,
{
    forall|i: int|
        0 <= i < v.len() ==> !element_binds((#[trigger] v[i]).form, id) && undeclared_pat(id, v[i])
}

pub open spec fn undeclared_declarators(id: IdView, v: Seq<DeclaratorView>) -> bool
    decreases v, 3int,
{
    forall|i: int| 0 <= i < v.len() ==> undeclared_declarator(id, #[trigger] v[i])
}

pub open spec fn undeclared_nodes(id: IdView, v: Seq<NodeView>) -> bool
    decreases v, 3int,
{
    forall|i: int| 0 <= i < v.len() ==> undeclared_node(id, #[trigger] v[i])
}

pub open spec fn undeclared_stmts(id: IdView, v: Seq<StmtView>) -> bool
    decreases v, 3int,
{
    forall|i: int| 0 <= i < v.len() ==> undeclared_stmt(id, #[trigger] v[i])
}

pub open spec fn undeclared_items(id: IdView, v: Seq<ModuleItemView>) -> bool
    decreases v, 3int,
{
    forall|i: int| 0 <= i < v.len() ==> undeclared_item(id, #[trigger] v[i])
}

proof fn add_action_binds_none(s: State, ident: IdentView, c: CallableView)
    ensures
        add_action(s, ident, c).0.closure_idents == s.closure_idents,
        add_action(s, ident, c).0.action_locals == s.action_locals,
{
    reveal(add_action);
}

proof fn finish_function_binds_none(s: State, span: Span, ident: IdentView, f: FunctionView)
    ensures
        finish_function(s, span, ident, f).0.closure_idents == s.closure_idents,
        finish_function(s, span, ident, f).0.action_locals == s.action_locals,
{
    reveal(finish_function);
    add_action_binds_none(s, ident, CallableView::Function(f));
}

proof fn finish_expr_binds_none(s: State, e: ExprView)
    ensures
        finish_expr(s, e).0.closure_idents == s.closure_idents,
        finish_expr(s, e).0.action_locals == s.action_locals,
{
    reveal(finish_expr);
    if let ExprView::Arrow(a) = e {
        reveal(finish_arrow);
        add_action_binds_none(
            take_ident(s),
            action_ident(s.ident_cnt),
            CallableView::Arrow(without_directive(a)),
        );
    }
}

proof fn note_exports_binds_none(s: State, item: ModuleItemView)
    ensures
        note_exports(s, item).closure_idents == s.closure_idents,
        note_exports(s, item).action_locals == s.action_locals,
{
    reveal(note_exports);
}

proof fn leave_items_binds_none(
    s: State,
    outer_annotations: Seq<StmtView>,
    items: Seq<ModuleItemView>,
)
    ensures
        leave_items(s, outer_annotations, items).0.closure_idents == s.closure_idents,
        leave_items(s, outer_annotations, items).0.action_locals == s.action_locals,
{
    reveal(leave_items);
}

proof fn unbound_expr(id: IdView, s: State, e: ExprView)
    requires
        undeclared_expr(id, e),
        unbound(id, s),
    ensures
        unbound(id, visit_expr(s, e).0),
    decreases e, 2int,
{
    if collects_names(s) && name_of(e) is Some {
        let s1 = State {
            scope: Scope { in_action_closure: false, ..s.scope },
            ..use_name(s, name_of(e)->0)
        };
        unbound_expr_children(id, s1, e);
    } else {
        unbound_expr_children(id, s, e);
        let (s1, e1) = visit_expr_children(s, e);
        finish_expr_binds_none(s1, e1);
    }
}

proof fn unbound_expr_children(id: IdView, s: State, e: ExprView)
    requires
        undeclared_children(id, e),
        unbound(id, s),
    ensures
        unbound(id, visit_expr_children(s, e).0),
    decreases e, 1int,
{
    match e {
        ExprView::Ident(_) => {},
        ExprView::Str(_, _) => {},
        ExprView::Member(m) => {
            unbound_member(id, s, m);
        },
        ExprView::OptMember(m) => {
            unbound_member(id, s, m);
        },
        ExprView::Fn(f) => {
            unbound_fn_expr(id, s, f.ident, f.function);
        },
        ExprView::Arrow(a) => {
            unbound_arrow(id, s, a);
        },
        ExprView::Call(callee, args) => {
            unbound_expr(id, s, *callee);
            let s1 = visit_expr(s, *callee).0;
            unbound_exprs(id, s1, args);
        },
        ExprView::Assign(target, value) => {
            unbound_expr(id, s, *target);
            let s1 = visit_expr(s, *target).0;
            unbound_expr(id, s1, *value);
        },
        ExprView::Define(_, value) => {
            unbound_expr(id, s, *value);
        },
        ExprView::Paren(inner) => {
            unbound_expr(id, s, *inner);
        },
        ExprView::Array(elems) => {
            unbound_exprs(id, s, elems);
        },
        ExprView::Index(obj, _) => {
            unbound_expr(id, s, *obj);
        },
        ExprView::Other(o) => {
            unbound_other(id, s, o);
        },
    }
}

proof fn unbound_member(id: IdView, s: State, m: MemberView)
    requires
        undeclared_expr(id, *m.obj),
        unbound(id, s),
    ensures
        unbound(id, visit_member(s, m).0),
    decreases m, 0int,
{
    unbound_expr(id, s, *m.obj);
}

proof fn unbound_opt_expr(id: IdView, s: State, e: Option<Box<ExprView>>)
    requires
        e is Some ==> undeclared_expr(id, *e->0),
        unbound(id, s),
    ensures
        unbound(id, visit_opt_expr(s, e).0),
    decreases e, 3int,
{
    if let Some(inner) = e {
        unbound_expr(id, s, *inner);
    }
}

proof fn unbound_fn_expr(id: IdView, s: State, ident: Option<IdentView>, f: FunctionView)
    requires
        undeclared_function(id, f),
        unbound(id, s),
    ensures
        unbound(id, visit_fn_expr(s, ident, f).0),
    decreases f, 2int,
{
    unbound_function(id, s, f);
    let (s1, f1) = visit_function(s, f);
    if is_action(s, f.body) {
        let (s2, ident2) = name_action(s1, ident, f1);
        finish_function_binds_none(s2, f1.span, ident2->0, f1);
    }
}

proof fn unbound_fn_decl(id: IdView, s: State, d: FnDeclView)
    requires
        undeclared_function(id, d.function),
        unbound(id, s),
    ensures
        unbound(id, visit_fn_decl(s, d).0),
    decreases d, 0int,
{
    unbound_function(id, s, d.function);
    let (s1, f1) = visit_function(s, d.function);
    finish_function_binds_none(s1, d.ident.span, d.ident, f1);
}

proof fn unbound_function(id: IdView, s: State, f: FunctionView)
    requires
        undeclared_function(id, f),
        unbound(id, s),
    ensures
        unbound(id, visit_function(s, f).0),
    decreases f, 1int,
{
    let s0 = enter_function(s, is_action(s, f.body));
    unbound_function_parts(id, s0, f, action_directive(s, f.body));
}

proof fn unbound_function_parts(id: IdView, s: State, f: FunctionView, directive: Option<int>)
    requires
        undeclared_function(id, f),
        unbound(id, s),
    ensures
        ({
            let (s1, params) = visit_params(s, f.params);
            let (s2, decorators) = visit_decorators(s1, f.decorators);
            let (s3, body) = visit_fn_body(s2, f.body, directive);
            unbound(id, s3)
        }),
    decreases f, 0int,
{
    unbound_params(id, s, f.params);
    let s1 = visit_params(s, f.params).0;
    unbound_decorators(id, s1, f.decorators);
    let s2 = visit_decorators(s1, f.decorators).0;
    unbound_fn_body(id, s2, f.body, directive);
}

proof fn unbound_fn_body(id: IdView, s: State, body: Option<BlockView>, directive: Option<int>)
    requires
        undeclared_opt_block(id, body),
        unbound(id, s),
    ensures
        unbound(id, visit_fn_body(s, body, directive).0),
    decreases body, 0int,
{
    if let Some(b) = body {
        without_decreases(b.stmts, directive);
        without_is_part(b.stmts, directive);
        unbound_stmts(id, s, without(b.stmts, directive));
    }
}

proof fn unbound_arrow(id: IdView, s: State, a: ArrowView)
    requires
        undeclared_arrow(id, a),
        unbound(id, s),
    ensures
        unbound(id, visit_arrow(s, a).0),
    decreases a, 1int,
{
    let s0 = enter_function(s, is_action(s, arrow_block(a)));
    unbound_arrow_parts(id, s0, a);
}

proof fn unbound_arrow_parts(id: IdView, s: State, a: ArrowView)
    requires
        undeclared_arrow(id, a),
        unbound(id, s),
    ensures
        ({
            let (s1, params) = visit_pats(s, a.params);
            let (s2, body) = visit_arrow_body(s1, a.body);
            unbound(id, s2)
        }),
    decreases a, 0int,
{
    unbound_pats(id, s, a.params);
    let s1 = visit_pats(s, a.params).0;
    unbound_arrow_body(id, s1, a.body);
}

proof fn unbound_arrow_body(id: IdView, s: State, body: ArrowBodyView)
    requires
        match body {
            ArrowBodyView::Block(b) => undeclared_block(id, b),
            ArrowBodyView::Expr(e) => undeclared_expr(id, *e),
        },
        unbound(id, s),
    ensures
        unbound(id, visit_arrow_body(s, body).0),
    decreases body, 0int,
{
    match body {
        ArrowBodyView::Block(b) => {
            unbound_stmts(id, s, b.stmts);
        },
        ArrowBodyView::Expr(e) => {
            unbound_expr(id, s, *e);
        },
    }
}

proof fn unbound_param(id: IdView, s: State, p: ParamView)
    requires
        undeclared_param(id, p),
        unbound(id, s),
    ensures
        unbound(id, visit_param(s, p).0),
    decreases p, 1int,
{
    unbound_decorators(id, s, p.decorators);
    let s1 = visit_decorators(s, p.decorators).0;
    unbound_pat(id, s1, p.pat);
    let s2 = visit_pat(s1, p.pat).0;
    element_collected(p.pat.form, id);
    binding_others(id, s2, idents_in_element(p.pat.form));
}

proof fn unbound_pat(id: IdView, s: State, p: PatView)
    requires
        undeclared_pat(id, p),
        unbound(id, s),
    ensures
        unbound(id, visit_pat(s, p).0),
    decreases p, 1int,
{
    unbound_exprs(id, s, p.exprs);
}

proof fn unbound_decorator(id: IdView, s: State, d: DecoratorView)
    requires
        undeclared_decorator(id, d),
        unbound(id, s),
    ensures
        unbound(id, visit_decorator(s, d).0),
    decreases d, 1int,
{
    unbound_expr(id, s, d.expr);
}

proof fn unbound_stmt(id: IdView, s: State, stmt: StmtView)
    requires
        undeclared_stmt(id, stmt),
        unbound(id, s),
    ensures
        unbound(id, visit_stmt(s, stmt).0),
    decreases stmt, 2int,
{
    unbound_stmt_children(id, s, stmt);
    let (s1, stmt1) = visit_stmt_children(s, stmt);
    if let StmtView::Decl(DeclView::Var(v)) = stmt {
        same_names(s, v.decls);
        let w = visit_declarators(s, v.decls).1;
        assert(stmt1 == StmtView::Decl(DeclView::Var(VarDeclView { decls: w, ..v })));
        same_forms_bind(v.decls, w, id);
        vars_collected(w, id);
    }
    binding_others(id, s1, idents_in_stmt(stmt1));
}

proof fn unbound_stmt_children(id: IdView, s: State, stmt: StmtView)
    requires
        undeclared_stmt(id, stmt),
        unbound(id, s),
    ensures
        unbound(id, visit_stmt_children(s, stmt).0),
    decreases stmt, 1int,
{
    match stmt {
        StmtView::Expr(_, e) => {
            unbound_expr(id, s, *e);
        },
        StmtView::Decl(d) => {
            unbound_decl(id, s, d);
        },
        StmtView::Return(e) => {
            unbound_expr(id, s, *e);
        },
        StmtView::Other(o) => {
            unbound_other(id, s, o);
        },
    }
}

proof fn unbound_decl(id: IdView, s: State, d: DeclView)
    requires
        undeclared_decl(id, d),
        unbound(id, s),
    ensures
        unbound(id, visit_decl(s, d).0),
    decreases d, 1int,
{
    match d {
        DeclView::Fn(f) => {
            unbound_fn_decl(id, s, f);
        },
        DeclView::Var(v) => {
            unbound_declarators(id, s, v.decls);
        },
        DeclView::Other(o) => {
            unbound_other(id, s, o);
        },
    }
}

proof fn unbound_declarator(id: IdView, s: State, d: DeclaratorView)
    requires
        undeclared_declarator(id, d),
        unbound(id, s),
    ensures
        unbound(id, visit_declarator(s, d).0),
    decreases d, 1int,
{
    unbound_pat(id, s, d.name);
    let s1 = visit_pat(s, d.name).0;
    unbound_opt_expr(id, s1, d.init);
}

proof fn unbound_prop(id: IdView, s: State, p: PropView)
    requires
        undeclared_prop(id, p),
        unbound(id, s),
    ensures
        unbound(id, visit_prop(s, p).0),
    decreases p, 1int,
{
    match p {
        PropView::Shorthand(_) => {},
        PropView::KeyValue(_, value) => {
            unbound_expr(id, s, *value);
        },
        PropView::Other(o) => {
            unbound_other(id, s, o);
        },
    }
}

proof fn unbound_other(id: IdView, s: State, o: OtherView)
    requires
        undeclared_other(id, o),
        unbound(id, s),
    ensures
        unbound(id, visit_other(s, o).0),
    decreases o, 1int,
{
    unbound_nodes(id, s, o.kids);
}

proof fn unbound_node(id: IdView, s: State, n: NodeView)
    requires
        undeclared_node(id, n),
        unbound(id, s),
    ensures
        unbound(id, visit_node(s, n).0),
    decreases n, 1int,
{
    match n {
        NodeView::Expr(e) => {
            unbound_expr(id, s, e);
        },
        NodeView::Stmt(stmt) => {
            unbound_stmt(id, s, stmt);
        },
        NodeView::Stmts(v) => {
            unbound_stmts(id, s, v);
        },
        NodeView::Param(p) => {
            unbound_param(id, s, p);
        },
        NodeView::Prop(p) => {
            unbound_prop(id, s, p);
        },
        NodeView::Items(v) => {
            unbound_items(id, s, v);
        },
    }
}

proof fn unbound_stmts(id: IdView, s: State, v: Seq<StmtView>)
    requires
        undeclared_stmts(id, v),
        unbound(id, s),
    ensures
        unbound(id, visit_stmts(s, v).0),
    decreases v, 5int,
{
    unbound_stmts_in_turn(id, State { annotations: Seq::empty(), ..s }, v);
}

proof fn unbound_stmts_in_turn(id: IdView, s: State, v: Seq<StmtView>)
    requires
        undeclared_stmts(id, v),
        unbound(id, s),
    ensures
        unbound(id, visit_stmts_in_turn(s, v).0),
    decreases v, 4int,
{
    if v.len() != 0 {
        unbound_stmts_in_turn(id, s, v.drop_last());
        let s1 = visit_stmts_in_turn(s, v.drop_last()).0;
        let t = State { top_level: false, ..s1 };
        unbound_stmt(id, t, v.last());
    }
}

proof fn unbound_items(id: IdView, s: State, v: Seq<ModuleItemView>)
    requires
        undeclared_items(id, v),
        unbound(id, s),
    ensures
        unbound(id, visit_items(s, v).0),
    decreases v, 5int,
{
    without_decreases(v, module_directive(v));
    without_is_part(v, module_directive(v));
    let s1 = State { annotations: Seq::empty(), ..enter_items(s, v) };
    let w = without(v, module_directive(v));
    unbound_items_in_turn(id, s1, w);
    let (s2, v2) = visit_items_in_turn(s1, w);
    leave_items_binds_none(s2, s.annotations, v2);
}

proof fn unbound_items_in_turn(id: IdView, s: State, v: Seq<ModuleItemView>)
    requires
        undeclared_items(id, v),
        unbound(id, s),
    ensures
        unbound(id, visit_items_in_turn(s, v).0),
    decreases v, 4int,
{
    if v.len() != 0 {
        unbound_items_in_turn(id, s, v.drop_last());
        let s1 = visit_items_in_turn(s, v.drop_last()).0;
        let t = State { top_level: true, ..s1 };
        unbound_top_item(id, t, v.last());
    }
}

proof fn unbound_top_item(id: IdView, s: State, item: ModuleItemView)
    requires
        undeclared_item(id, item),
        unbound(id, s),
    ensures
        unbound(id, visit_top_item(s, item).0),
    decreases item, 3int,
{
    if s.in_action_file {
        note_exports_binds_none(s, item);
        let s1 = note_exports(s, item);
        unbound_exported_item(id, s1, default_name(s, item), item);
    } else {
        unbound_item(id, s, item);
    }
}

proof fn unbound_exported_item(id: IdView, s: State, name: Option<IdentView>, item: ModuleItemView)
    requires
        undeclared_item(id, item),
        unbound(id, s),
    ensures
        unbound(id, visit_exported_item(s, name, item).0),
    decreases item, 2int,
{
    match item {
        ModuleItemView::ExportDefaultDecl(span, DefaultDeclView::Fn(f)) => {
            let ident = if f.ident is Some {
                f.ident
            } else {
                name
            };
            unbound_default_fn(id, s, ident, f.function);
        },
        ModuleItemView::ExportDefaultExpr(span, e) => {
            unbound_default_expr(id, s, *e);
        },
        _ => {
            unbound_item(id, s, item);
        },
    }
}

proof fn unbound_export_decl(id: IdView, s: State, d: DeclView)
    requires
        undeclared_decl(id, d),
        unbound(id, s),
    ensures
        unbound(id, visit_export_decl(s, d).0),
    decreases d, 2int,
{
    unbound_decl(id, export_scope(s), d);
}

proof fn unbound_default_fn(id: IdView, s: State, ident: Option<IdentView>, f: FunctionView)
    requires
        undeclared_function(id, f),
        unbound(id, s),
    ensures
        unbound(id, visit_default_fn(s, ident, f).0),
    decreases f, 3int,
{
    unbound_fn_expr(id, default_scope(s), ident, f);
}

proof fn unbound_default_decl(id: IdView, s: State, d: DefaultDeclView)
    requires
        match d {
            DefaultDeclView::Fn(f) => undeclared_function(id, f.function),
            DefaultDeclView::Other(o) => undeclared_other(id, o),
        },
        unbound(id, s),
    ensures
        unbound(id, visit_default_decl(s, d).0),
    decreases d, 2int,
{
    match d {
        DefaultDeclView::Fn(f) => {
            unbound_default_fn(id, s, f.ident, f.function);
        },
        DefaultDeclView::Other(o) => {
            unbound_other(id, default_scope(s), o);
        },
    }
}

proof fn unbound_default_expr(id: IdView, s: State, e: ExprView)
    requires
        undeclared_expr(id, e),
        unbound(id, s),
    ensures
        unbound(id, visit_default_expr(s, e).0),
    decreases e, 3int,
{
    unbound_expr(id, default_scope(s), e);
}

proof fn unbound_item(id: IdView, s: State, item: ModuleItemView)
    requires
        undeclared_item(id, item),
        unbound(id, s),
    ensures
        unbound(id, visit_item(s, item).0),
    decreases item, 1int,
{
    match item {
        ModuleItemView::Stmt(stmt) => {
            unbound_stmt(id, s, stmt);
        },
        ModuleItemView::ExportDecl(span, d) => {
            unbound_export_decl(id, s, d);
        },
        ModuleItemView::ExportNamed(n) => {
            unbound_other(id, s, n.rest);
        },
        ModuleItemView::ExportDefaultDecl(span, d) => {
            unbound_default_decl(id, s, d);
        },
        ModuleItemView::ExportDefaultExpr(span, e) => {
            unbound_default_expr(id, s, *e);
        },
        ModuleItemView::ExportAll(span, o) => {
            unbound_other(id, s, o);
        },
        ModuleItemView::Other(o) => {
            unbound_other(id, s, o);
        },
    }
}

proof fn unbound_exprs(id: IdView, s: State, v: Seq<ExprView>)
    requires
        undeclared_exprs(id, v),
        unbound(id, s),
    ensures
        unbound(id, visit_exprs(s, v).0),
    decreases v, 4int,
{
    if v.len() != 0 {
        unbound_exprs(id, s, v.drop_last());
        let s1 = visit_exprs(s, v.drop_last()).0;
        unbound_expr(id, s1, v.last());
    }
}

proof fn unbound_params(id: IdView, s: State, v: Seq<ParamView>)
    requires
        undeclared_params(id, v),
        unbound(id, s),
    ensures
        unbound(id, visit_params(s, v).0),
    decreases v, 4int,
{
    if v.len() != 0 {
        unbound_params(id, s, v.drop_last());
        let s1 = visit_params(s, v.drop_last()).0;
        unbound_param(id, s1, v.last());
    }
}

proof fn unbound_decorators(id: IdView, s: State, v: Seq<DecoratorView>)
    requires
        undeclared_decorators(id, v),
        unbound(id, s),
    ensures
        unbound(id, visit_decorators(s, v).0),
    decreases v, 4int,
{
    if v.len() != 0 {
        unbound_decorators(id, s, v.drop_last());
        let s1 = visit_decorators(s, v.drop_last()).0;
        unbound_decorator(id, s1, v.last());
    }
}

proof fn unbound_pats(id: IdView, s: State, v: Seq<PatView>)
    requires
        undeclared_pats(id, v),
        unbound(id, s),
    ensures
        unbound(id, visit_pats(s, v).0),
    decreases v, 4int,
{
    if v.len() != 0 {
        unbound_pats(id, s, v.drop_last());
        let s1 = visit_pats(s, v.drop_last()).0;
        unbound_pat(id, s1, v.last());
        let s2 = visit_pat(s1, v.last()).0;
        element_collected(v.last().form, id);
        binding_others(id, s2, idents_in_element(v.last().form));
    }
}

proof fn unbound_declarators(id: IdView, s: State, v: Seq<DeclaratorView>)
    requires
        undeclared_declarators(id, v),
        unbound(id, s),
    ensures
        unbound(id, visit_declarators(s, v).0),
    decreases v, 4int,
{
    if v.len() != 0 {
        unbound_declarators(id, s, v.drop_last());
        let s1 = visit_declarators(s, v.drop_last()).0;
        unbound_declarator(id, s1, v.last());
    }
}

proof fn unbound_nodes(id: IdView, s: State, v: Seq<NodeView>)
    requires
        undeclared_nodes(id, v),
        unbound(id, s),
    ensures
        unbound(id, visit_nodes(s, v).0),
    decreases v, 4int,
{
    if v.len() != 0 {
        unbound_nodes(id, s, v.drop_last());
        let s1 = visit_nodes(s, v.drop_last()).0;
        unbound_node(id, s1, v.last());
    }
}

/// An identifier that no parameter and no variable of a module binds is never
/// recorded as bound, so no action captures it.
pub proof fn only_declarations_are_recorded(
    file_name: Seq<char>,
    config: Config,
    m: ModuleView,
    id: IdView,
)
    requires
        undeclared_items(id, m.body),
    ensures
        !visit_module(initial_state(file_name, config), m).0.closure_idents.contains(id),
        !visit_module(initial_state(file_name, config), m).0.action_locals.contains(id),
{
    let s = State { start_pos: m.span.lo, ..initial_state(file_name, config) };
    unbound_items(id, s, m.body);
}

} // verus!
