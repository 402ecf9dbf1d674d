//! In which order the walk goes, and where what it writes is put.

use vstd::prelude::*;

use crate::actions::{
    adds_item, captured_since, declared_action, exported_under, exports_const, left_for,
    marked_body, numbered_ident, referenced,
};
use crate::ast::Span;
use crate::bindings::idents_in_var_decls;
use crate::bound::in_list;
use crate::exported::same_names;
use crate::file_exports::{lacks_name, plain_ident};
use crate::frame::{note_exports_extends, visit_declarators_extends, visit_function_extends};
use crate::laws::nothing_pending;
use crate::model::{
    ArrowBodyView, ArrowView, DeclView, DeclaratorView, DecoratorView, DefaultDeclView, ExprView,
    FnDeclView, FnExprView, FunctionView, IdView, IdentView, ModuleItemView, NodeView, ParamView,
    PatView, StmtView, VarDeclView,
};
use crate::names::NameView;
use crate::state::{Scope, State};
use crate::transform::{
    action_directive, as_items, default_name, default_scope, is_action, leave_items, note_exports,
    visit_arrow, visit_decl, visit_declarator, visit_declarators, visit_decorators,
    visit_default_expr, visit_default_fn, visit_expr, visit_expr_children, visit_exprs,
    visit_fn_decl, visit_fn_expr, visit_function, visit_item, visit_items, visit_items_in_turn,
    visit_nodes, visit_param, visit_params, visit_pat, visit_pats, visit_stmt, visit_stmt_children,
    visit_stmts, visit_stmts_in_turn, visit_top_item, without,
};
use crate::untouched::{bare_function, bare_function_is_calm, bare_function_loses_directive};
use crate::vocabulary::{
    directive_is_where_marked, identity, marked, refers_to_action, vars_bind, vars_collected,
};

verus! {

// ---- From left to right ----

/// Walking over expressions goes from left to right.
pub proof fn exprs_in_order(s: State, a: Seq<ExprView>, b: Seq<ExprView>)
    ensures
        ({
            let (s1, first) = visit_exprs(s, a);
            let (s2, second) = visit_exprs(s1, b);
            visit_exprs(s, a + b) == (s2, first + second)
        }),
    decreases b.len(),
{
    let (s1, first) = visit_exprs(s, a);
    if b.len() == 0 {
        assert(a + b =~= a);
        assert(first + Seq::empty() =~= first);
    } else {
        exprs_in_order(s, a, b.drop_last());
        assert((a + b).drop_last() =~= a + b.drop_last());
        assert((a + b).last() == b.last());
        assert(visit_exprs(s, a + b).1 =~= first + visit_exprs(s1, b).1);
    }
}

/// Walking over parameters goes from left to right.
pub proof fn params_in_order(s: State, a: Seq<ParamView>, b: Seq<ParamView>)
    ensures
        ({
            let (s1, first) = visit_params(s, a);
            let (s2, second) = visit_params(s1, b);
            visit_params(s, a + b) == (s2, first + second)
        }),
    decreases b.len(),
{
    let (s1, first) = visit_params(s, a);
    if b.len() == 0 {
        assert(a + b =~= a);
        assert(first + Seq::empty() =~= first);
    } else {
        params_in_order(s, a, b.drop_last());
        assert((a + b).drop_last() =~= a + b.drop_last());
        assert((a + b).last() == b.last());
        assert(visit_params(s, a + b).1 =~= first + visit_params(s1, b).1);
    }
}

/// Walking over decorators goes from left to right.
pub proof fn decorators_in_order(s: State, a: Seq<DecoratorView>, b: Seq<DecoratorView>)
    ensures
        ({
            let (s1, first) = visit_decorators(s, a);
            let (s2, second) = visit_decorators(s1, b);
            visit_decorators(s, a + b) == (s2, first + second)
        }),
    decreases b.len(),
{
    let (s1, first) = visit_decorators(s, a);
    if b.len() == 0 {
        assert(a + b =~= a);
        assert(first + Seq::empty() =~= first);
    } else {
        decorators_in_order(s, a, b.drop_last());
        assert((a + b).drop_last() =~= a + b.drop_last());
        assert((a + b).last() == b.last());
        assert(visit_decorators(s, a + b).1 =~= first + visit_decorators(s1, b).1);
    }
}

/// Walking over parameters of arrow functions goes from left to right.
pub proof fn pats_in_order(s: State, a: Seq<PatView>, b: Seq<PatView>)
    ensures
        ({
            let (s1, first) = visit_pats(s, a);
            let (s2, second) = visit_pats(s1, b);
            visit_pats(s, a + b) == (s2, first + second)
        }),
    decreases b.len(),
{
    let (s1, first) = visit_pats(s, a);
    if b.len() == 0 {
        assert(a + b =~= a);
        assert(first + Seq::empty() =~= first);
    } else {
        pats_in_order(s, a, b.drop_last());
        assert((a + b).drop_last() =~= a + b.drop_last());
        assert((a + b).last() == b.last());
        assert(visit_pats(s, a + b).1 =~= first + visit_pats(s1, b).1);
    }
}

/// Walking over variables goes from left to right.
pub proof fn declarators_in_order(s: State, a: Seq<DeclaratorView>, b: Seq<DeclaratorView>)
    ensures
        ({
            let (s1, first) = visit_declarators(s, a);
            let (s2, second) = visit_declarators(s1, b);
            visit_declarators(s, a + b) == (s2, first + second)
        }),
    decreases b.len(),
{
    let (s1, first) = visit_declarators(s, a);
    if b.len() == 0 {
        assert(a + b =~= a);
        assert(first + Seq::empty() =~= first);
    } else {
        declarators_in_order(s, a, b.drop_last());
        assert((a + b).drop_last() =~= a + b.drop_last());
        assert((a + b).last() == b.last());
        assert(visit_declarators(s, a + b).1 =~= first + visit_declarators(s1, b).1);
    }
}

/// Walking over other parts goes from left to right.
pub proof fn nodes_in_order(s: State, a: Seq<NodeView>, b: Seq<NodeView>)
    ensures
        ({
            let (s1, first) = visit_nodes(s, a);
            let (s2, second) = visit_nodes(s1, b);
            visit_nodes(s, a + b) == (s2, first + second)
        }),
    decreases b.len(),
{
    let (s1, first) = visit_nodes(s, a);
    if b.len() == 0 {
        assert(a + b =~= a);
        assert(first + Seq::empty() =~= first);
    } else {
        nodes_in_order(s, a, b.drop_last());
        assert((a + b).drop_last() =~= a + b.drop_last());
        assert((a + b).last() == b.last());
        assert(visit_nodes(s, a + b).1 =~= first + visit_nodes(s1, b).1);
    }
}

/// Walking over statements goes from left to right.
pub proof fn stmts_in_turn_in_order(s: State, a: Seq<StmtView>, b: Seq<StmtView>)
    ensures
        ({
            let (s1, first) = visit_stmts_in_turn(s, a);
            let (s2, second) = visit_stmts_in_turn(s1, b);
            visit_stmts_in_turn(s, a + b) == (s2, first + second)
        }),
    decreases b.len(),
{
    let (s1, first) = visit_stmts_in_turn(s, a);
    if b.len() == 0 {
        assert(a + b =~= a);
        assert(first + Seq::empty() =~= first);
    } else {
        stmts_in_turn_in_order(s, a, b.drop_last());
        assert((a + b).drop_last() =~= a + b.drop_last());
        assert((a + b).last() == b.last());
        assert(visit_stmts_in_turn(s, a + b).1 =~= first + visit_stmts_in_turn(s1, b).1);
    }
}

/// Walking over items goes from left to right.
pub proof fn items_in_turn_in_order(s: State, a: Seq<ModuleItemView>, b: Seq<ModuleItemView>)
    ensures
        ({
            let (s1, first) = visit_items_in_turn(s, a);
            let (s2, second) = visit_items_in_turn(s1, b);
            visit_items_in_turn(s, a + b) == (s2, first + second)
        }),
    decreases b.len(),
{
    let (s1, first) = visit_items_in_turn(s, a);
    if b.len() == 0 {
        assert(a + b =~= a);
        assert(first + Seq::empty() =~= first);
    } else {
        items_in_turn_in_order(s, a, b.drop_last());
        assert((a + b).drop_last() =~= a + b.drop_last());
        assert((a + b).last() == b.last());
        assert(visit_items_in_turn(s, a + b).1 =~= first + visit_items_in_turn(s1, b).1);
    }
}

/// A function is walked over from its parameters to its body, so that what its
/// parameters bind is bound in the body. So is an arrow function.
pub proof fn parameters_come_first(s: State, f: FunctionView, a: ArrowView)
    ensures
        ({
            let s0 = inside_function(s, is_action(s, f.body));
            let s1 = visit_params(s0, f.params).0;
            let s2 = visit_decorators(s1, f.decorators).0;
            let t = visit_function(s, f).0;
            f.body is None ==> t.ident_cnt == s2.ident_cnt && t.export_actions
                == s2.export_actions && t.closure_idents == s2.closure_idents
        }),
        f.body is Some && !marked(f.body->0.stmts) ==> ({
            let s0 = inside_function(s, is_action(s, f.body));
            let s1 = visit_params(s0, f.params).0;
            let s2 = visit_decorators(s1, f.decorators).0;
            let s3 = visit_stmts(s2, f.body->0.stmts).0;
            visit_function(s, f).0 == (State {
                scope: s.scope,
                action_locals: s.action_locals,
                ..s3
            })
        }),
        a.body is Block && !marked(a.body->Block_0.stmts) && !(s.in_action_file
            && s.scope.in_export_decl) ==> ({
            let s0 = inside_function(s, false);
            let s1 = visit_pats(s0, a.params).0;
            let s3 = visit_stmts(s1, a.body->Block_0.stmts).0;
            visit_arrow(s, a).0 == (State {
                scope: s.scope,
                action_locals: s.action_locals,
                ..s3
            })
        }),
{
    if let Some(b) = f.body {
        directive_is_where_marked(b.stmts, 0);
        assert(without(b.stmts, action_directive(s, f.body)) == b.stmts || marked(b.stmts));
    }
    if let ArrowBodyView::Block(b) = a.body {
        directive_is_where_marked(b.stmts, 0);
    }
}

/// The state at the beginning of a function: it is neither in the module itself
/// nor in an export, what it mentions counts again, and it is inside of an
/// action if it is one or was inside of one before. The names that an action
/// uses are those from here on.
pub open spec fn inside_function(s: State, action: bool) -> State {
    State {
        scope: Scope {
            in_export_decl: false,
            in_default_export_decl: false,
            in_module: false,
            in_action_fn: action || s.scope.in_action_fn,
            in_action_closure: true,
        },
        action_start: if action {
            s.action_idents.len()
        } else {
            s.action_start
        },
        ..s
    }
}

/// What is called comes before the arguments, the target of an assignment before
/// the value, the pattern of a variable before its value, and the decorators of
/// a parameter before its pattern.
pub proof fn parts_come_in_order(
    s: State,
    x: Box<ExprView>,
    y: Box<ExprView>,
    v: Seq<ExprView>,
    d: DeclaratorView,
    p: ParamView,
)
    ensures
        visit_expr_children(s, ExprView::Call(x, v)).0 == visit_exprs(visit_expr(s, *x).0, v).0,
        visit_expr_children(s, ExprView::Assign(x, y)).0 == visit_expr(visit_expr(s, *x).0, *y).0,
        d.init is Some ==> visit_declarator(s, d).0 == visit_expr(
            visit_exprs(s, d.name.exprs).0,
            *d.init->0,
        ).0,
        visit_param(s, p).0.ident_cnt == visit_exprs(
            visit_decorators(s, p.decorators).0,
            p.pat.exprs,
        ).0.ident_cnt,
        visit_param(s, p).0.export_actions == visit_exprs(
            visit_decorators(s, p.decorators).0,
            p.pat.exprs,
        ).0.export_actions,
{
    assert(visit_pat(s, d.name).0 == visit_exprs(s, d.name.exprs).0);
    let s1 = visit_decorators(s, p.decorators).0;
    assert(visit_pat(s1, p.pat).0 == visit_exprs(s1, p.pat.exprs).0);
}

/// What variables bind is bound behind their declaration, not in it: their
/// values are walked over in the state before, and what is recorded behind them
/// is what was recorded there and then the variables, each once.
pub proof fn variables_are_bound_behind(s: State, v: VarDeclView, id: IdView)
    requires
        !s.scope.in_module,
        !s.in_action_file,
        !visit_declarators(s, v.decls).0.in_action_file,
    ensures
        ({
            let s1 = visit_declarators(s, v.decls).0;
            let t = visit_stmt(s, StmtView::Decl(DeclView::Var(v))).0;
            let ids = idents_in_var_decls(v.decls);
            &&& t == (State {
                closure_idents: t.closure_idents,
                action_locals: t.action_locals,
                ..s1
            })
            &&& ids.contains(id) <==> vars_bind(v.decls, id)
            &&& if s.scope.in_action_fn {
                t.closure_idents == s1.closure_idents && t.action_locals == s1.action_locals + ids
            } else {
                t.closure_idents == s1.closure_idents + ids && t.action_locals == s1.action_locals
            }
        }),
{
    visit_declarators_extends(s, v.decls);
    let (s1, w) = visit_declarators(s, v.decls);
    same_names(s, v.decls);
    vars_collected(v.decls, id);
    same_forms_collect(v.decls, w);
    let stmt = StmtView::Decl(DeclView::Var(v));
    assert(visit_decl(s, DeclView::Var(v)) == (
        s1,
        DeclView::Var(VarDeclView { decls: w, ..v }),
    ));
    assert(visit_stmt_children(s, stmt) == (
        s1,
        StmtView::Decl(DeclView::Var(VarDeclView { decls: w, ..v })),
    ));
}

proof fn same_forms_collect(v: Seq<DeclaratorView>, w: Seq<DeclaratorView>)
    requires
        v.len() == w.len(),
        forall|i: int| 0 <= i < v.len() ==> (#[trigger] w[i]).name.form == v[i].name.form,
    ensures
        idents_in_var_decls(v) == idents_in_var_decls(w),
    decreases v.len(),
{
    if v.len() != 0 {
        let a = v.drop_last();
        let b = w.drop_last();
        assert forall|i: int| 0 <= i < a.len() implies (#[trigger] b[i]).name.form
            == a[i].name.form by {
            assert(w[i].name.form == v[i].name.form);
        }
        same_forms_collect(a, b);
        assert(w[v.len() - 1].name.form == v[v.len() - 1].name.form);
    }
}

// ---- Where references are put ----

/// The walk over a list of statements or of items gives back the references and
/// the level that it found.
pub proof fn lists_give_back(s: State, v: Seq<StmtView>, w: Seq<ModuleItemView>)
    ensures
        visit_stmts(s, v).0.annotations == s.annotations,
        visit_stmts(s, v).0.top_level == s.top_level,
        visit_items(s, w).0.annotations == s.annotations,
{
    reveal(leave_items);
}

/// What the walk over a declared action makes, if no other directive stands in
/// it and no reference is waiting.
#[verifier::spinoff_prover]
proof fn bare_declared_action(s: State, d: FnDeclView)
    requires
        s.annotations == Seq::<StmtView>::empty(),
        s.extra_items == Seq::<ModuleItemView>::empty() || !s.top_level,
        marked_body(d.function.body),
        d.function.is_async,
        bare_function(d.function),
        !s.in_action_file,
    ensures
        ({
            let f1 = visit_function(s, d.function).1;
            let (t, d2) = visit_fn_decl(s, d);
            let n = s.ident_cnt;
            let id = identity(s.file_name, exported_under(s, n));
            &&& d2.ident == d.ident
            &&& d2.origin == d.origin
            &&& t.annotations.len() == 3
            &&& if s.top_level {
                &&& d2.function == f1
                &&& refers_to_action(t.annotations, d.ident, Seq::empty(), id)
                &&& t.extra_items.len() == 1
                &&& exports_const(t.extra_items[0], numbered_ident(n), ExprView::Ident(d.ident))
            } else {
                &&& left_for(d2.function, f1, n, d.ident)
                &&& refers_to_some(t.annotations, d.ident, id)
            }
        }),
{
    function_walk_stays(s, d.function);
    bare_function_loses_directive(s, d.function, 0);
    declared_action(s, d);
    let (s1, f1) = visit_function(s, d.function);
    let (t, d2) = visit_fn_decl(s, d);
    let n = s1.ident_cnt;
    let names = if s1.top_level {
        Seq::<NameView>::empty()
    } else {
        captured_since(s, s1)
    };
    assert(referenced(s1, t, n, d.ident, names));
    let stmts = choose|stmts: Seq<StmtView>|
        t.annotations == s1.annotations + stmts && #[trigger] refers_to_action(
            stmts,
            d.ident,
            names,
            identity(s1.file_name, exported_under(s1, n)),
        );
    assert(t.annotations =~= stmts);
    if s1.top_level {
        let added = choose|x: ModuleItemView|
            #[trigger] adds_item(s1, t, x) && exports_const(
                x,
                numbered_ident(n),
                ExprView::Ident(d.ident),
            );
        assert(t.extra_items =~= seq![added]);
    }
}

/// Statements make a name the reference to an action, whatever it captures.
pub open spec fn refers_to_some(stmts: Seq<StmtView>, name: IdentView, id: Seq<char>) -> bool {
    exists|names: Seq<NameView>| #[trigger] refers_to_action(stmts, name, names, id)
}

proof fn one_more_statement(s: State, v: Seq<StmtView>, d: FnDeclView)
    ensures
        ({
            let (s1, before) = visit_stmts_in_turn(s, v);
            let (u, d2) = visit_fn_decl(in_list(s1), d);
            visit_stmts_in_turn(s, v.push(StmtView::Decl(DeclView::Fn(d)))).1 == before.push(
                StmtView::Decl(DeclView::Fn(d2)),
            ) + u.annotations
        }),
{
    let last = StmtView::Decl(DeclView::Fn(d));
    assert(v.push(last).drop_last() =~= v);
    let t1 = in_list(visit_stmts_in_turn(s, v).0);
    assert(visit_decl(t1, DeclView::Fn(d)).0 == visit_fn_decl(t1, d).0);
    assert(visit_stmt(t1, last).0.annotations == visit_fn_decl(t1, d).0.annotations);
    assert(visit_stmt(t1, last).1 == StmtView::Decl(DeclView::Fn(visit_fn_decl(t1, d).1)));
}

proof fn one_more_item(s: State, v: Seq<ModuleItemView>, d: FnDeclView)
    requires
        !visit_items_in_turn(s, v).0.in_action_file,
    ensures
        ({
            let (s1, before) = visit_items_in_turn(s, v);
            let (u, d2) = visit_fn_decl(at_top(s1), d);
            let item = ModuleItemView::Stmt(StmtView::Decl(DeclView::Fn(d)));
            visit_items_in_turn(s, v.push(item)).1 == before.push(
                ModuleItemView::Stmt(StmtView::Decl(DeclView::Fn(d2))),
            ) + as_items(u.annotations) + u.extra_items
        }),
{
    let last = StmtView::Decl(DeclView::Fn(d));
    let item = ModuleItemView::Stmt(last);
    assert(v.push(item).drop_last() =~= v);
    let t1 = at_top(visit_items_in_turn(s, v).0);
    let u = visit_stmt(t1, last).0;
    assert(visit_decl(t1, DeclView::Fn(d)).0 == visit_fn_decl(t1, d).0);
    assert(u.annotations == visit_fn_decl(t1, d).0.annotations);
    assert(u.extra_items == visit_fn_decl(t1, d).0.extra_items);
    assert(visit_stmt(t1, last).1 == StmtView::Decl(DeclView::Fn(visit_fn_decl(t1, d).1)));
    assert(visit_item(t1, item) == (u, ModuleItemView::Stmt(visit_stmt(t1, last).1)));
    assert(visit_top_item(t1, item) == visit_item(t1, item));
}

proof fn nothing_waits(s: State, v: Seq<StmtView>)
    requires
        s.annotations == Seq::<StmtView>::empty(),
    ensures
        visit_stmts_in_turn(s, v).0.annotations == Seq::<StmtView>::empty(),
{
}

/// The reference to an action that is declared among statements follows its
/// declaration directly.
pub proof fn reference_follows_declaration(s: State, v: Seq<StmtView>, d: FnDeclView)
    requires
        s.annotations == Seq::<StmtView>::empty(),
        marked_body(d.function.body),
        d.function.is_async,
        bare_function(d.function),
        !visit_stmts_in_turn(s, v).0.in_action_file,
    ensures
        ({
            let (s1, before) = visit_stmts_in_turn(s, v);
            let after = visit_stmts_in_turn(s, v.push(StmtView::Decl(DeclView::Fn(d)))).1;
            let n = before.len() as int;
            &&& after.len() == n + 4
            &&& after.take(n) == before
            &&& after[n] is Decl
            &&& after[n]->Decl_0 is Fn
            &&& after[n]->Decl_0->Fn_0.ident == d.ident
            &&& left_for(
                after[n]->Decl_0->Fn_0.function,
                visit_function(in_list(s1), d.function).1,
                s1.ident_cnt,
                d.ident,
            )
            &&& refers_to_some(
                after.skip(n + 1),
                d.ident,
                identity(s1.file_name, exported_under(s1, s1.ident_cnt)),
            )
        }),
{
    let (s1, before) = visit_stmts_in_turn(s, v);
    let t1 = in_list(s1);
    nothing_waits(s, v);
    one_more_statement(s, v, d);
    bare_declared_action(t1, d);
    let (u, d2) = visit_fn_decl(t1, d);
    let after = visit_stmts_in_turn(s, v.push(StmtView::Decl(DeclView::Fn(d)))).1;
    let n = before.len() as int;
    assert(after.take(n) =~= before);
    assert(after.skip(n + 1) =~= u.annotations);
}

proof fn one_after_the_other(
    before: Seq<ModuleItemView>,
    own: ModuleItemView,
    stmts: Seq<StmtView>,
    more: Seq<ModuleItemView>,
)
    requires
        stmts.len() == 3,
        more.len() == 1,
    ensures
        ({
            let after = before.push(own) + as_items(stmts) + more;
            let n = before.len() as int;
            &&& after.len() == n + 5
            &&& after.take(n) == before
            &&& after[n] == own
            &&& stand_at(after, n + 1, stmts)
            &&& after[n + 4] == more[0]
        }),
{
    let after = before.push(own) + as_items(stmts) + more;
    let n = before.len() as int;
    assert(after.take(n) =~= before);
}

/// Statements stand among items, from an index on.
pub open spec fn stand_at(items: Seq<ModuleItemView>, k: int, stmts: Seq<StmtView>) -> bool {
    forall|j: int|
        0 <= j < stmts.len() ==> items[k + j] == ModuleItemView::Stmt(#[trigger] stmts[j])
}

/// An action that is declared at the top level of a module stays in its place.
/// The reference to it follows directly, and then the export under its number.
#[verifier::spinoff_prover]
#[verifier::rlimit(40)]
pub proof fn reference_follows_item(s: State, v: Seq<ModuleItemView>, d: FnDeclView)
    requires
        s.annotations == Seq::<StmtView>::empty(),
        s.extra_items == Seq::<ModuleItemView>::empty(),
        marked_body(d.function.body),
        d.function.is_async,
        bare_function(d.function),
        !visit_items_in_turn(s, v).0.in_action_file,
    ensures
        ({
            let (s1, before) = visit_items_in_turn(s, v);
            let item = ModuleItemView::Stmt(StmtView::Decl(DeclView::Fn(d)));
            let after = visit_items_in_turn(s, v.push(item)).1;
            let n = before.len() as int;
            &&& after.len() == n + 5
            &&& after.take(n) == before
            &&& after[n] == ModuleItemView::Stmt(
                StmtView::Decl(
                    DeclView::Fn(
                        FnDeclView { function: visit_function(at_top(s1), d.function).1, ..d },
                    ),
                ),
            )
            &&& exists|stmts: Seq<StmtView>|
                #[trigger] refers_to_action(
                    stmts,
                    d.ident,
                    Seq::empty(),
                    identity(s1.file_name, exported_under(s1, s1.ident_cnt)),
                ) && stand_at(after, n + 1, stmts)
            &&& exports_const(after[n + 4], numbered_ident(s1.ident_cnt), ExprView::Ident(d.ident))
        }),
{
    let (s1, before) = visit_items_in_turn(s, v);
    let item = ModuleItemView::Stmt(StmtView::Decl(DeclView::Fn(d)));
    nothing_pending(s, v);
    let t1 = at_top(s1);
    one_more_item(s, v, d);
    bare_declared_action(t1, d);
    let (u, d2) = visit_fn_decl(t1, d);
    let own = ModuleItemView::Stmt(StmtView::Decl(DeclView::Fn(d2)));
    one_after_the_other(before, own, u.annotations, u.extra_items);
    assert(d2 == (FnDeclView { function: visit_function(t1, d.function).1, ..d }));
    assert(refers_to_action(
        u.annotations,
        d.ident,
        Seq::empty(),
        identity(s1.file_name, exported_under(s1, s1.ident_cnt)),
    ));
    let after = visit_items_in_turn(s, v.push(item)).1;
    assert(after == before.push(own) + as_items(u.annotations) + u.extra_items);
}

/// The state for the next item of a module.
pub open spec fn at_top(s: State) -> State {
    State { top_level: true, ..s }
}

proof fn function_walk_stays(s: State, f: FunctionView)
    requires
        bare_function(f),
    ensures
        visit_function(s, f).0.top_level == s.top_level,
        visit_function(s, f).0.in_action_file == s.in_action_file,
        visit_function(s, f).0.scope == s.scope,
        visit_function(s, f).0.file_name == s.file_name,
{
    bare_function_is_calm(s, f);
}

// ---- Default exports of a `"use server"` file ----

/// A default export of a `"use server"` file that lacks a name gets the next
/// generated one: a declared function as its own name, a function or an arrow
/// function by an assignment around it. Any other keeps what it has.
pub proof fn default_exports_get_names(s: State, span: Span, f: FnExprView, e: ExprView)
    requires
        s.in_action_file,
    ensures
        ({
            let item = ModuleItemView::ExportDefaultDecl(span, DefaultDeclView::Fn(f));
            let (t, out) = visit_top_item(s, item);
            &&& out is ExportDefaultDecl
            &&& out->ExportDefaultDecl_0 == span
            &&& out->ExportDefaultDecl_1 is Fn
            &&& out->ExportDefaultDecl_1->Fn_0.ident == if f.ident is Some {
                f.ident
            } else {
                Some(plain_ident(s.ident_cnt))
            }
        }),
        ({
            let item = ModuleItemView::ExportDefaultExpr(span, Box::new(e));
            let (t, out) = visit_top_item(s, item);
            &&& out is ExportDefaultExpr
            &&& out->ExportDefaultExpr_0 == span
            &&& lacks_name(item) ==> {
                let inner = *out->ExportDefaultExpr_1;
                &&& inner is Paren
                &&& *inner->Paren_0 is Define
                &&& inner->Paren_0->Define_0 == plain_ident(s.ident_cnt)
                &&& *inner->Paren_0->Define_1 == visit_default_expr(note_exports(s, item), e).1
            }
            &&& !lacks_name(item) ==> *out->ExportDefaultExpr_1 == visit_default_expr(
                note_exports(s, item),
                e,
            ).1
        }),
{
    let item = ModuleItemView::ExportDefaultDecl(span, DefaultDeclView::Fn(f));
    note_exports_extends(s, item);
    let s1 = note_exports(s, item);
    let name = default_name(s, item);
    let ident = if f.ident is Some {
        f.ident
    } else {
        name
    };
    visit_function_extends(default_scope(s1), f.function);
    assert(visit_fn_expr(default_scope(s1), ident, f.function).1.ident == ident);
    assert(visit_default_fn(s1, ident, f.function).1.ident == ident);
}

} // verus!
