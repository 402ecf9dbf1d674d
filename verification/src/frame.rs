//! What the walk never takes back.

use vstd::prelude::*;

use crate::ast::Span;
use crate::bindings::{idents_in_element, idents_in_stmt};
use crate::directive::module_directive;
use crate::model::{
    ArrowBodyView, ArrowView, BlockView, DeclView, DeclaratorView, DecoratorView, DefaultDeclView,
    ExprView, FnDeclView, FunctionView, IdentView, MemberView, ModuleItemView, NodeView, OtherView,
    ParamView, PatView, PropView, StmtView,
};
use crate::names::name_of;
use crate::prefix::{group_prefix, prefix, prefix_trans};
use crate::state::{action_ident, Diagnostic, Problem, Scope, State};
use crate::text::{action_name, action_names_differ};
use crate::transform::{
    action_directive, add_action, arrow_block, bind, collects_names, default_name, default_scope,
    enter_function, enter_items, export_name, export_scope, finish_arrow, finish_expr,
    finish_function, is_action, leave_function, leave_items, name_action, note_exports, report,
    take_ident, use_name, visit_arrow, visit_arrow_body, visit_decl, visit_declarator,
    visit_declarators, visit_decorator, visit_decorators, visit_default_decl, visit_default_expr,
    visit_default_fn, visit_export_decl, visit_exported_item, visit_expr, visit_expr_children,
    visit_exprs, visit_fn_body, visit_fn_decl, visit_fn_expr, visit_function, visit_item,
    visit_items, visit_items_in_turn, visit_member, visit_node, visit_nodes, visit_opt_expr,
    visit_other, visit_param, visit_params, visit_pat, visit_pats, visit_prop, visit_stmt,
    visit_stmt_children, visit_stmts, visit_stmts_in_turn, visit_top_item, without,
    without_decreases, without_directive, CallableView,
};

verus! {

broadcast use group_prefix;

/// What the walk over any part of a tree keeps: the place in the module is as
/// before, the same action is current, nothing that was found or reported is
/// lost, and generated names are not used twice.
pub open spec fn extends(s: State, t: State) -> bool {
    t.scope == s.scope && t.action_start == s.action_start && grows(s, t)
}

/// What the walk over a function keeps. If the function is an action, that
/// action is current afterwards, and its names are those that were recorded in
/// it. Around it the same is bound as before.
pub open spec fn extends_into(s: State, t: State, is_action: bool) -> bool {
    &&& t.scope == s.scope
    &&& grows(s, t)
    &&& t.action_locals == s.action_locals
    &&& t.action_start == if is_action {
        s.action_idents.len()
    } else {
        s.action_start
    }
    &&& is_action ==> t.closure_idents == s.closure_idents
}

/// Whether an expression is an arrow function that is an action.
pub open spec fn is_arrow_action(s: State, e: ExprView) -> bool {
    match e {
        ExprView::Arrow(a) => is_action(s, arrow_block(a)),
        _ => false,
    }
}

/// The names under which actions are exported come from numbers below the
/// count, and only `default` occurs more than once.
#[verifier::opaque]
pub open spec fn numbered(names: Seq<Seq<char>>, count: nat) -> bool {
    &&& forall|i: int|
        #![trigger names[i]]
        0 <= i < names.len() ==> names[i] == "default"@ || exists|k: nat|
            k < count && names[i] == #[trigger] action_name(k)
    &&& forall|i: int, j: int|
        0 <= i < j < names.len() && #[trigger] names[i] == #[trigger] names[j] ==> names[i]
            == "default"@
}

/// No error is about an export.
#[verifier::opaque]
pub open spec fn no_export_errors(errors: Seq<Diagnostic>) -> bool {
    forall|i: int|
        0 <= i < errors.len() ==> (#[trigger] errors[i]).problem != Problem::DisallowedExport
}

/// A module has an action if it is a `"use server"` file or an action was
/// exported.
pub open spec fn counts_actions(s: State) -> bool {
    s.has_action == (s.in_action_file || s.export_actions.len() > 0)
}

/// Nothing that was found or reported is lost. Inside of an action nothing is
/// bound that could be captured by it. Actions are hoisted outside of
/// `"use server"` files only, and exports are recorded inside of them only.
pub open spec fn grows(s: State, t: State) -> bool {
    &&& t.scope.in_action_fn == s.scope.in_action_fn
    &&& s.scope.in_action_fn ==> t.closure_idents == s.closure_idents
    &&& counts_actions(s) ==> counts_actions(t)
    &&& numbered(s.export_actions, s.ident_cnt) ==> numbered(t.export_actions, t.ident_cnt)
    &&& s.in_action_file ==> t.export_actions == s.export_actions && t.closure_idents
        == s.closure_idents && t.action_locals == s.action_locals
    &&& !t.in_action_file ==> t.exported_idents == s.exported_idents
    &&& !t.in_action_file && no_export_errors(s.errors) ==> no_export_errors(t.errors)
    &&& t.config == s.config
    &&& t.file_name == s.file_name
    &&& t.start_pos == s.start_pos
    &&& s.in_action_file ==> t.in_action_file
    &&& s.has_action ==> t.has_action
    &&& s.ident_cnt <= t.ident_cnt
    &&& prefix(s.closure_idents, t.closure_idents)
    &&& prefix(s.action_locals, t.action_locals)
    &&& prefix(s.action_idents, t.action_idents)
    &&& prefix(s.exported_idents, t.exported_idents)
    &&& prefix(s.export_actions, t.export_actions)
    &&& prefix(s.errors, t.errors)
    &&& prefix(s.comments, t.comments)
}

/// One after the other.
pub proof fn grows_trans(a: State, b: State, c: State)
    requires
        grows(a, b),
        grows(b, c),
    ensures
        grows(a, c),
{
    prefix_trans(a.closure_idents, b.closure_idents, c.closure_idents);
    prefix_trans(a.action_locals, b.action_locals, c.action_locals);
    prefix_trans(a.action_idents, b.action_idents, c.action_idents);
    prefix_trans(a.exported_idents, b.exported_idents, c.exported_idents);
    prefix_trans(a.export_actions, b.export_actions, c.export_actions);
    prefix_trans(a.errors, b.errors, c.errors);
    prefix_trans(a.comments, b.comments, c.comments);
}

/// Counting on keeps the names.
proof fn numbered_later(names: Seq<Seq<char>>, count: nat, later: nat)
    requires
        numbered(names, count),
        count <= later,
    ensures
        numbered(names, later),
{
    reveal(numbered);
    assert forall|i: int| #![trigger names[i]] 0 <= i < names.len() implies names[i]
        == "default"@ || exists|k: nat| k < later && names[i] == #[trigger] action_name(k) by {
        if names[i] != "default"@ {
            let k = choose|k: nat| k < count && names[i] == #[trigger] action_name(k);
            assert(k < later && names[i] == action_name(k));
        }
    }
}

/// The next name can be added.
proof fn numbered_push(names: Seq<Seq<char>>, count: nat, name: Seq<char>)
    requires
        numbered(names, count),
        name == "default"@ || name == action_name(count),
    ensures
        numbered(names.push(name), count + 1),
{
    numbered_later(names, count, count + 1);
    reveal(numbered);
    let all = names.push(name);
    assert forall|i: int| #![trigger all[i]] 0 <= i < all.len() implies all[i] == "default"@
        || exists|k: nat| k < count + 1 && all[i] == #[trigger] action_name(k) by {
        if i < names.len() {
            assert(all[i] == names[i]);
        } else if name != "default"@ {
            assert(count < count + 1 && all[i] == action_name(count));
        }
    }
    assert forall|i: int, j: int|
        0 <= i < j < all.len() && #[trigger] all[i] == #[trigger] all[j] implies all[i]
        == "default"@ by {
        assert(all[i] == names[i]);
        if j < names.len() {
            assert(all[j] == names[j]);
        } else if name != "default"@ && names[i] != "default"@ {
            let k = choose|k: nat| k < count && names[i] == #[trigger] action_name(k);
            action_names_differ(k, count);
        }
    }
}

/// An error that is not about an export can be added.
proof fn no_export_errors_push(errors: Seq<Diagnostic>, error: Diagnostic)
    requires
        no_export_errors(errors),
        error.problem != Problem::DisallowedExport,
    ensures
        no_export_errors(errors.push(error)),
{
    reveal(no_export_errors);
}

/// A generated name can be taken.
pub proof fn take_ident_grows(s: State)
    ensures
        extends(s, take_ident(s)),
{
    if numbered(s.export_actions, s.ident_cnt) {
        numbered_later(s.export_actions, s.ident_cnt, s.ident_cnt + 1);
    }
}

/// That an action is not async can be reported.
proof fn report_grows(s: State, span: Span)
    ensures
        extends(s, report(s, span, Problem::NotAsync)),
{
    if no_export_errors(s.errors) {
        no_export_errors_push(s.errors, Diagnostic { span, problem: Problem::NotAsync });
    }
}

pub proof fn add_action_extends(s: State, ident: IdentView, c: CallableView)
    requires
        !s.in_action_file,
    ensures
        extends(s, add_action(s, ident, c).0),
        !add_action(s, ident, c).0.in_action_file,
{
    reveal(add_action);
    if numbered(s.export_actions, s.ident_cnt) {
        numbered_push(s.export_actions, s.ident_cnt, export_name(s));
    }
}

pub proof fn finish_function_extends(s: State, span: Span, ident: IdentView, f: FunctionView)
    ensures
        extends(s, finish_function(s, span, ident, f).0),
{
    reveal(finish_function);
    if !f.is_async {
        report_grows(s, span);
    } else if !s.in_action_file {
        add_action_extends(s, ident, CallableView::Function(f));
    }
}

pub proof fn finish_arrow_extends(s: State, a: ArrowView)
    requires
        !s.in_action_file,
    ensures
        extends(s, finish_arrow(s, a).0),
{
    reveal(finish_arrow);
    let ident = action_ident(s.ident_cnt);
    let stripped = without_directive(a);
    let s1 = take_ident(s);
    take_ident_grows(s);
    add_action_extends(s1, ident, CallableView::Arrow(stripped));
    grows_trans(s, s1, add_action(s1, ident, CallableView::Arrow(stripped)).0);
}

pub proof fn finish_expr_extends(s: State, e: ExprView)
    ensures
        extends(s, finish_expr(s, e).0),
{
    reveal(finish_expr);
    if let ExprView::Arrow(a) = e {
        if !s.in_action_file {
            finish_arrow_extends(s, a);
        }
    }
}

pub proof fn note_exports_extends(s: State, item: ModuleItemView)
    requires
        s.in_action_file,
    ensures
        extends(s, note_exports(s, item)),
{
    reveal(note_exports);
    take_ident_grows(s);
}

pub proof fn leave_items_extends(
    s: State,
    outer_annotations: Seq<StmtView>,
    items: Seq<ModuleItemView>,
)
    ensures
        extends(s, leave_items(s, outer_annotations, items).0),
{
    reveal(leave_items);
}

pub proof fn visit_expr_extends(s: State, e: ExprView)
    ensures
        extends(s, visit_expr(s, e).0),
    decreases e, 2int,
{
    if collects_names(s) && name_of(e) is Some {
        let s1 = State {
            scope: Scope { in_action_closure: false, ..s.scope },
            ..use_name(s, name_of(e)->0)
        };
        visit_expr_children_extends(s1, e);
        grows_trans(s, s1, visit_expr_children(s1, e).0);
    } else {
        visit_expr_children_extends(s, e);
        let (s1, e1) = visit_expr_children(s, e);
        finish_expr_extends(s1, e1);
        grows_trans(s, s1, finish_expr(s1, e1).0);
    }
}

pub proof fn visit_expr_children_extends(s: State, e: ExprView)
    ensures
        visit_expr_children(s, e).0.scope == s.scope,
        grows(s, visit_expr_children(s, e).0),
        !(e is Arrow) ==> extends(s, visit_expr_children(s, e).0),
        e is Arrow ==> extends_into(s, visit_expr_children(s, e).0, is_arrow_action(s, e)),
    decreases e, 1int,
{
    match e {
        ExprView::Ident(_) => {},
        ExprView::Str(_, _) => {},
        ExprView::Member(m) => {
            visit_member_extends(s, m);
        },
        ExprView::OptMember(m) => {
            visit_member_extends(s, m);
        },
        ExprView::Fn(f) => {
            visit_fn_expr_extends(s, f.ident, f.function);
        },
        ExprView::Arrow(a) => {
            visit_arrow_extends(s, a);
        },
        ExprView::Call(callee, args) => {
            visit_expr_extends(s, *callee);
            let s1 = visit_expr(s, *callee).0;
            visit_exprs_extends(s1, args);
            grows_trans(s, s1, visit_exprs(s1, args).0);
        },
        ExprView::Assign(target, value) => {
            visit_expr_extends(s, *target);
            let s1 = visit_expr(s, *target).0;
            visit_expr_extends(s1, *value);
            grows_trans(s, s1, visit_expr(s1, *value).0);
        },
        ExprView::Define(_, value) => {
            visit_expr_extends(s, *value);
        },
        ExprView::Paren(inner) => {
            visit_expr_extends(s, *inner);
        },
        ExprView::Array(elems) => {
            visit_exprs_extends(s, elems);
        },
        ExprView::Index(obj, _) => {
            visit_expr_extends(s, *obj);
        },
        ExprView::Other(o) => {
            visit_other_extends(s, o);
        },
    }
}

pub proof fn visit_member_extends(s: State, m: MemberView)
    ensures
        extends(s, visit_member(s, m).0),
    decreases m, 0int,
{
    visit_expr_extends(s, *m.obj);
}

pub proof fn visit_opt_expr_extends(s: State, e: Option<Box<ExprView>>)
    ensures
        extends(s, visit_opt_expr(s, e).0),
    decreases e, 3int,
{
    if let Some(inner) = e {
        visit_expr_extends(s, *inner);
    }
}

pub proof fn visit_fn_expr_extends(s: State, ident: Option<IdentView>, f: FunctionView)
    ensures
        extends(s, visit_fn_expr(s, ident, f).0),
    decreases f, 2int,
{
    visit_function_extends(s, f);
    let (s1, f1) = visit_function(s, f);
    if is_action(s, f.body) {
        let (s2, ident2) = name_action(s1, ident, f1);
        finish_function_extends(s2, f1.span, ident2->0, f1);
        take_ident_grows(s1);
        grows_trans(s, s1, s2);
        grows_trans(s, s2, finish_function(s2, f1.span, ident2->0, f1).0);
    }
}

pub proof fn visit_fn_decl_extends(s: State, d: FnDeclView)
    ensures
        extends(s, visit_fn_decl(s, d).0),
    decreases d, 0int,
{
    visit_function_extends(s, d.function);
    let (s1, f1) = visit_function(s, d.function);
    finish_function_extends(s1, d.ident.span, d.ident, f1);
    grows_trans(s, s1, finish_function(s1, d.ident.span, d.ident, f1).0);
}

pub proof fn visit_function_extends(s: State, f: FunctionView)
    ensures
        extends_into(s, visit_function(s, f).0, is_action(s, f.body)),
    decreases f, 1int,
{
    let s0 = enter_function(s, is_action(s, f.body));
    function_parts_extend(s0, f, action_directive(s, f.body));
}

/// The walk over the parts of a function, one after the other.
pub proof fn function_parts_extend(s: State, f: FunctionView, directive: Option<int>)
    ensures
        ({
            let s1 = visit_params(s, f.params).0;
            let s2 = visit_decorators(s1, f.decorators).0;
            extends(s, visit_fn_body(s2, f.body, directive).0)
        }),
    decreases f, 0int,
{
    visit_params_extends(s, f.params);
    let s1 = visit_params(s, f.params).0;
    visit_decorators_extends(s1, f.decorators);
    let s2 = visit_decorators(s1, f.decorators).0;
    grows_trans(s, s1, s2);
    visit_fn_body_extends(s2, f.body, directive);
    grows_trans(s, s2, visit_fn_body(s2, f.body, directive).0);
}

pub proof fn visit_fn_body_extends(s: State, body: Option<BlockView>, directive: Option<int>)
    ensures
        extends(s, visit_fn_body(s, body, directive).0),
    decreases body, 0int,
{
    if let Some(b) = body {
        without_decreases(b.stmts, directive);
        visit_stmts_extends(s, without(b.stmts, directive));
    }
}

pub proof fn visit_arrow_extends(s: State, a: ArrowView)
    ensures
        extends_into(s, visit_arrow(s, a).0, is_action(s, arrow_block(a))),
    decreases a, 1int,
{
    let s0 = enter_function(s, is_action(s, arrow_block(a)));
    arrow_parts_extend(s0, a);
    let s1 = visit_pats(s0, a.params).0;
    let s2 = visit_arrow_body(s1, a.body).0;
    let s3 = leave_function(s, s2);
    report_grows(s3, a.span);
    grows_trans(s, s3, report(s3, a.span, Problem::NotAsync));
}

/// The walk over the parts of an arrow function, one after the other.
pub proof fn arrow_parts_extend(s: State, a: ArrowView)
    ensures
        extends(s, visit_arrow_body(visit_pats(s, a.params).0, a.body).0),
    decreases a, 0int,
{
    visit_pats_extends(s, a.params);
    let s1 = visit_pats(s, a.params).0;
    visit_arrow_body_extends(s1, a.body);
    grows_trans(s, s1, visit_arrow_body(s1, a.body).0);
}

pub proof fn visit_arrow_body_extends(s: State, body: ArrowBodyView)
    ensures
        extends(s, visit_arrow_body(s, body).0),
    decreases body, 0int,
{
    match body {
        ArrowBodyView::Block(b) => {
            visit_stmts_extends(s, b.stmts);
        },
        ArrowBodyView::Expr(e) => {
            visit_expr_extends(s, *e);
        },
    }
}

pub proof fn visit_param_extends(s: State, p: ParamView)
    ensures
        extends(s, visit_param(s, p).0),
    decreases p, 1int,
{
    visit_decorators_extends(s, p.decorators);
    let s1 = visit_decorators(s, p.decorators).0;
    visit_pat_extends(s1, p.pat);
    let s2 = visit_pat(s1, p.pat).0;
    let ids = idents_in_element(p.pat.form);
    grows_trans(s, s1, s2);
    grows_trans(s, s2, bind(s2, ids));
}

pub proof fn visit_pat_extends(s: State, p: PatView)
    ensures
        extends(s, visit_pat(s, p).0),
    decreases p, 1int,
{
    visit_exprs_extends(s, p.exprs);
}

pub proof fn visit_decorator_extends(s: State, d: DecoratorView)
    ensures
        extends(s, visit_decorator(s, d).0),
    decreases d, 1int,
{
    visit_expr_extends(s, d.expr);
}

pub proof fn visit_stmt_extends(s: State, stmt: StmtView)
    ensures
        extends(s, visit_stmt(s, stmt).0),
    decreases stmt, 2int,
{
    visit_stmt_children_extends(s, stmt);
    let (s1, stmt1) = visit_stmt_children(s, stmt);
    grows_trans(s, s1, bind(s1, idents_in_stmt(stmt1)));
}

pub proof fn visit_stmt_children_extends(s: State, stmt: StmtView)
    ensures
        extends(s, visit_stmt_children(s, stmt).0),
    decreases stmt, 1int,
{
    match stmt {
        StmtView::Expr(_, e) => {
            visit_expr_extends(s, *e);
        },
        StmtView::Decl(d) => {
            visit_decl_extends(s, d);
        },
        StmtView::Return(e) => {
            visit_expr_extends(s, *e);
        },
        StmtView::Other(o) => {
            visit_other_extends(s, o);
        },
    }
}

pub proof fn visit_decl_extends(s: State, d: DeclView)
    ensures
        extends(s, visit_decl(s, d).0),
    decreases d, 1int,
{
    match d {
        DeclView::Fn(f) => {
            visit_fn_decl_extends(s, f);
        },
        DeclView::Var(v) => {
            visit_declarators_extends(s, v.decls);
        },
        DeclView::Other(o) => {
            visit_other_extends(s, o);
        },
    }
}

pub proof fn visit_declarator_extends(s: State, d: DeclaratorView)
    ensures
        extends(s, visit_declarator(s, d).0),
    decreases d, 1int,
{
    visit_pat_extends(s, d.name);
    let s1 = visit_pat(s, d.name).0;
    visit_opt_expr_extends(s1, d.init);
    grows_trans(s, s1, visit_opt_expr(s1, d.init).0);
}

pub proof fn visit_prop_extends(s: State, p: PropView)
    ensures
        extends(s, visit_prop(s, p).0),
    decreases p, 1int,
{
    match p {
        PropView::Shorthand(_) => {},
        PropView::KeyValue(_, value) => {
            visit_expr_extends(s, *value);
        },
        PropView::Other(o) => {
            visit_other_extends(s, o);
        },
    }
}

pub proof fn visit_other_extends(s: State, o: OtherView)
    ensures
        extends(s, visit_other(s, o).0),
    decreases o, 1int,
{
    visit_nodes_extends(s, o.kids);
}

pub proof fn visit_node_extends(s: State, n: NodeView)
    ensures
        extends(s, visit_node(s, n).0),
    decreases n, 1int,
{
    match n {
        NodeView::Expr(e) => {
            visit_expr_extends(s, e);
        },
        NodeView::Stmt(stmt) => {
            visit_stmt_extends(s, stmt);
        },
        NodeView::Stmts(v) => {
            visit_stmts_extends(s, v);
        },
        NodeView::Param(p) => {
            visit_param_extends(s, p);
        },
        NodeView::Prop(p) => {
            visit_prop_extends(s, p);
        },
        NodeView::Items(v) => {
            visit_items_extends(s, v);
        },
    }
}

pub proof fn visit_stmts_extends(s: State, v: Seq<StmtView>)
    ensures
        extends(s, visit_stmts(s, v).0),
    decreases v, 5int,
{
    visit_stmts_in_turn_extends(State { annotations: Seq::empty(), ..s }, v);
}

pub proof fn visit_stmts_in_turn_extends(s: State, v: Seq<StmtView>)
    ensures
        extends(s, visit_stmts_in_turn(s, v).0),
    decreases v, 4int,
{
    if v.len() != 0 {
        visit_stmts_in_turn_extends(s, v.drop_last());
        let s1 = visit_stmts_in_turn(s, v.drop_last()).0;
        let t = State { top_level: false, ..s1 };
        visit_stmt_extends(t, v.last());
        grows_trans(s, t, visit_stmt(t, v.last()).0);
    }
}

pub proof fn visit_items_extends(s: State, v: Seq<ModuleItemView>)
    ensures
        extends(s, visit_items(s, v).0),
    decreases v, 5int,
{
    without_decreases(v, module_directive(v));
    let s1 = State { annotations: Seq::empty(), ..enter_items(s, v) };
    let w = without(v, module_directive(v));
    visit_items_in_turn_extends(s1, w);
    let (s2, v2) = visit_items_in_turn(s1, w);
    leave_items_extends(s2, s.annotations, v2);
    grows_trans(s, s1, s2);
    grows_trans(s, s2, leave_items(s2, s.annotations, v2).0);
}

pub proof fn visit_items_in_turn_extends(s: State, v: Seq<ModuleItemView>)
    ensures
        extends(s, visit_items_in_turn(s, v).0),
    decreases v, 4int,
{
    if v.len() != 0 {
        visit_items_in_turn_extends(s, v.drop_last());
        let s1 = visit_items_in_turn(s, v.drop_last()).0;
        let t = State { top_level: true, ..s1 };
        visit_top_item_extends(t, v.last());
        grows_trans(s, t, visit_top_item(t, v.last()).0);
    }
}

pub proof fn visit_top_item_extends(s: State, item: ModuleItemView)
    ensures
        extends(s, visit_top_item(s, item).0),
    decreases item, 3int,
{
    if s.in_action_file {
        note_exports_extends(s, item);
        let s1 = note_exports(s, item);
        visit_exported_item_extends(s1, default_name(s, item), item);
        grows_trans(s, s1, visit_exported_item(s1, default_name(s, item), item).0);
    } else {
        visit_item_extends(s, item);
    }
}

pub proof fn visit_exported_item_extends(s: State, name: Option<IdentView>, item: ModuleItemView)
    ensures
        extends(s, visit_exported_item(s, name, item).0),
    decreases item, 2int,
{
    match item {
        ModuleItemView::ExportDefaultDecl(span, DefaultDeclView::Fn(f)) => {
            let ident = if f.ident is Some {
                f.ident
            } else {
                name
            };
            visit_default_fn_extends(s, ident, f.function);
        },
        ModuleItemView::ExportDefaultExpr(span, e) => {
            visit_default_expr_extends(s, *e);
        },
        _ => {
            visit_item_extends(s, item);
        },
    }
}

pub proof fn visit_export_decl_extends(s: State, d: DeclView)
    ensures
        extends(s, visit_export_decl(s, d).0),
    decreases d, 2int,
{
    visit_decl_extends(export_scope(s), d);
}

pub proof fn visit_default_fn_extends(s: State, ident: Option<IdentView>, f: FunctionView)
    ensures
        extends(s, visit_default_fn(s, ident, f).0),
    decreases f, 3int,
{
    visit_fn_expr_extends(default_scope(s), ident, f);
}

pub proof fn visit_default_decl_extends(s: State, d: DefaultDeclView)
    ensures
        extends(s, visit_default_decl(s, d).0),
    decreases d, 2int,
{
    match d {
        DefaultDeclView::Fn(f) => {
            visit_default_fn_extends(s, f.ident, f.function);
        },
        DefaultDeclView::Other(o) => {
            visit_other_extends(default_scope(s), o);
        },
    }
}

pub proof fn visit_default_expr_extends(s: State, e: ExprView)
    ensures
        extends(s, visit_default_expr(s, e).0),
    decreases e, 3int,
{
    visit_expr_extends(default_scope(s), e);
}

pub proof fn visit_item_extends(s: State, item: ModuleItemView)
    ensures
        extends(s, visit_item(s, item).0),
    decreases item, 1int,
{
    match item {
        ModuleItemView::Stmt(stmt) => {
            visit_stmt_extends(s, stmt);
        },
        ModuleItemView::ExportDecl(span, d) => {
            visit_export_decl_extends(s, d);
        },
        ModuleItemView::ExportNamed(n) => {
            visit_other_extends(s, n.rest);
        },
        ModuleItemView::ExportDefaultDecl(span, d) => {
            visit_default_decl_extends(s, d);
        },
        ModuleItemView::ExportDefaultExpr(span, e) => {
            visit_default_expr_extends(s, *e);
        },
        ModuleItemView::ExportAll(span, o) => {
            visit_other_extends(s, o);
        },
        ModuleItemView::Other(o) => {
            visit_other_extends(s, o);
        },
    }
}

pub proof fn visit_exprs_extends(s: State, v: Seq<ExprView>)
    ensures
        extends(s, visit_exprs(s, v).0),
    decreases v, 4int,
{
    if v.len() != 0 {
        visit_exprs_extends(s, v.drop_last());
        let s1 = visit_exprs(s, v.drop_last()).0;
        visit_expr_extends(s1, v.last());
        grows_trans(s, s1, visit_expr(s1, v.last()).0);
    }
}

pub proof fn visit_params_extends(s: State, v: Seq<ParamView>)
    ensures
        extends(s, visit_params(s, v).0),
    decreases v, 4int,
{
    if v.len() != 0 {
        visit_params_extends(s, v.drop_last());
        let s1 = visit_params(s, v.drop_last()).0;
        visit_param_extends(s1, v.last());
        grows_trans(s, s1, visit_param(s1, v.last()).0);
    }
}

pub proof fn visit_decorators_extends(s: State, v: Seq<DecoratorView>)
    ensures
        extends(s, visit_decorators(s, v).0),
    decreases v, 4int,
{
    if v.len() != 0 {
        visit_decorators_extends(s, v.drop_last());
        let s1 = visit_decorators(s, v.drop_last()).0;
        visit_decorator_extends(s1, v.last());
        grows_trans(s, s1, visit_decorator(s1, v.last()).0);
    }
}

pub proof fn visit_pats_extends(s: State, v: Seq<PatView>)
    ensures
        extends(s, visit_pats(s, v).0),
    decreases v, 4int,
{
    if v.len() != 0 {
        visit_pats_extends(s, v.drop_last());
        let s1 = visit_pats(s, v.drop_last()).0;
        visit_pat_extends(s1, v.last());
        let s2 = visit_pat(s1, v.last()).0;
        grows_trans(s, s1, s2);
        grows_trans(s, s2, bind(s2, idents_in_element(v.last().form)));
    }
}

pub proof fn visit_declarators_extends(s: State, v: Seq<DeclaratorView>)
    ensures
        extends(s, visit_declarators(s, v).0),
    decreases v, 4int,
{
    if v.len() != 0 {
        visit_declarators_extends(s, v.drop_last());
        let s1 = visit_declarators(s, v.drop_last()).0;
        visit_declarator_extends(s1, v.last());
        grows_trans(s, s1, visit_declarator(s1, v.last()).0);
    }
}

pub proof fn visit_nodes_extends(s: State, v: Seq<NodeView>)
    ensures
        extends(s, visit_nodes(s, v).0),
    decreases v, 4int,
{
    if v.len() != 0 {
        visit_nodes_extends(s, v.drop_last());
        let s1 = visit_nodes(s, v.drop_last()).0;
        visit_node_extends(s1, v.last());
        grows_trans(s, s1, visit_node(s1, v.last()).0);
    }
}

/// The walk over the first entries of a list comes before the walk over all.
pub proof fn visit_exprs_take_extends(s: State, v: Seq<ExprView>, n: int)
    requires
        0 <= n <= v.len(),
    ensures
        extends(visit_exprs(s, v.take(n)).0, visit_exprs(s, v).0),
    decreases v.len(),
{
    if n == v.len() {
        assert(v.take(n) =~= v);
    } else {
        visit_exprs_take_extends(s, v.drop_last(), n);
        assert(v.drop_last().take(n) =~= v.take(n));
        let s1 = visit_exprs(s, v.drop_last()).0;
        visit_expr_extends(s1, v.last());
        grows_trans(visit_exprs(s, v.take(n)).0, s1, visit_expr(s1, v.last()).0);
    }
}

/// The walk over the first entries of a list comes before the walk over all.
pub proof fn visit_params_take_extends(s: State, v: Seq<ParamView>, n: int)
    requires
        0 <= n <= v.len(),
    ensures
        extends(visit_params(s, v.take(n)).0, visit_params(s, v).0),
    decreases v.len(),
{
    if n == v.len() {
        assert(v.take(n) =~= v);
    } else {
        visit_params_take_extends(s, v.drop_last(), n);
        assert(v.drop_last().take(n) =~= v.take(n));
        let s1 = visit_params(s, v.drop_last()).0;
        visit_param_extends(s1, v.last());
        grows_trans(visit_params(s, v.take(n)).0, s1, visit_param(s1, v.last()).0);
    }
}

/// The walk over the first entries of a list comes before the walk over all.
pub proof fn visit_decorators_take_extends(s: State, v: Seq<DecoratorView>, n: int)
    requires
        0 <= n <= v.len(),
    ensures
        extends(visit_decorators(s, v.take(n)).0, visit_decorators(s, v).0),
    decreases v.len(),
{
    if n == v.len() {
        assert(v.take(n) =~= v);
    } else {
        visit_decorators_take_extends(s, v.drop_last(), n);
        assert(v.drop_last().take(n) =~= v.take(n));
        let s1 = visit_decorators(s, v.drop_last()).0;
        visit_decorator_extends(s1, v.last());
        grows_trans(visit_decorators(s, v.take(n)).0, s1, visit_decorator(s1, v.last()).0);
    }
}

/// The walk over the first entries of a list comes before the walk over all.
pub proof fn visit_pats_take_extends(s: State, v: Seq<PatView>, n: int)
    requires
        0 <= n <= v.len(),
    ensures
        extends(visit_pats(s, v.take(n)).0, visit_pats(s, v).0),
    decreases v.len(),
{
    if n == v.len() {
        assert(v.take(n) =~= v);
    } else {
        visit_pats_take_extends(s, v.drop_last(), n);
        assert(v.drop_last().take(n) =~= v.take(n));
        let s1 = visit_pats(s, v.drop_last()).0;
        visit_pat_extends(s1, v.last());
        let s2 = visit_pat(s1, v.last()).0;
        grows_trans(visit_pats(s, v.take(n)).0, s1, s2);
        grows_trans(
            visit_pats(s, v.take(n)).0,
            s2,
            bind(s2, idents_in_element(v.last().form)),
        );
    }
}

/// The walk over the first entries of a list comes before the walk over all.
pub proof fn visit_declarators_take_extends(s: State, v: Seq<DeclaratorView>, n: int)
    requires
        0 <= n <= v.len(),
    ensures
        extends(visit_declarators(s, v.take(n)).0, visit_declarators(s, v).0),
    decreases v.len(),
{
    if n == v.len() {
        assert(v.take(n) =~= v);
    } else {
        visit_declarators_take_extends(s, v.drop_last(), n);
        assert(v.drop_last().take(n) =~= v.take(n));
        let s1 = visit_declarators(s, v.drop_last()).0;
        visit_declarator_extends(s1, v.last());
        grows_trans(visit_declarators(s, v.take(n)).0, s1, visit_declarator(s1, v.last()).0);
    }
}

/// The walk over the first entries of a list comes before the walk over all.
pub proof fn visit_nodes_take_extends(s: State, v: Seq<NodeView>, n: int)
    requires
        0 <= n <= v.len(),
    ensures
        extends(visit_nodes(s, v.take(n)).0, visit_nodes(s, v).0),
    decreases v.len(),
{
    if n == v.len() {
        assert(v.take(n) =~= v);
    } else {
        visit_nodes_take_extends(s, v.drop_last(), n);
        assert(v.drop_last().take(n) =~= v.take(n));
        let s1 = visit_nodes(s, v.drop_last()).0;
        visit_node_extends(s1, v.last());
        grows_trans(visit_nodes(s, v.take(n)).0, s1, visit_node(s1, v.last()).0);
    }
}

/// The walk over the first entries of a list comes before the walk over all.
pub proof fn visit_stmts_in_turn_take_extends(s: State, v: Seq<StmtView>, n: int)
    requires
        0 <= n <= v.len(),
    ensures
        extends(visit_stmts_in_turn(s, v.take(n)).0, visit_stmts_in_turn(s, v).0),
    decreases v.len(),
{
    if n == v.len() {
        assert(v.take(n) =~= v);
    } else {
        visit_stmts_in_turn_take_extends(s, v.drop_last(), n);
        assert(v.drop_last().take(n) =~= v.take(n));
        let s1 = visit_stmts_in_turn(s, v.drop_last()).0;
        let t = State { top_level: false, ..s1 };
        visit_stmt_extends(t, v.last());
        grows_trans(visit_stmts_in_turn(s, v.take(n)).0, t, visit_stmt(t, v.last()).0);
    }
}

/// The walk over the first entries of a list comes before the walk over all.
pub proof fn visit_items_in_turn_take_extends(s: State, v: Seq<ModuleItemView>, n: int)
    requires
        0 <= n <= v.len(),
    ensures
        extends(visit_items_in_turn(s, v.take(n)).0, visit_items_in_turn(s, v).0),
    decreases v.len(),
{
    if n == v.len() {
        assert(v.take(n) =~= v);
    } else {
        visit_items_in_turn_take_extends(s, v.drop_last(), n);
        assert(v.drop_last().take(n) =~= v.take(n));
        let s1 = visit_items_in_turn(s, v.drop_last()).0;
        let t = State { top_level: true, ..s1 };
        visit_top_item_extends(t, v.last());
        grows_trans(visit_items_in_turn(s, v.take(n)).0, t, visit_top_item(t, v.last()).0);
    }
}

} // verus!
