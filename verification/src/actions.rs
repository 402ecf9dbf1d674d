//! What becomes of each action: its reference, its export and its place.

use vstd::prelude::*;

use crate::annotate::name_declaration;
use crate::ast::{Ctxt, Origin, Span, VarKind};
use crate::closed::{arrow_captures_own_names, function_captures_own_names};
use crate::closure::{captured, exprs_of};
use crate::directive::directive_texts;
use crate::frame::{visit_arrow_extends, visit_function_extends};
use crate::model::{
    ArrowBodyView, ArrowView, BlockView, DeclView, DeclaratorView, ExprView, FnDeclView,
    FunctionView, IdView, IdentView, ModuleItemView, ParamView, PatFormView, PatView, PropView,
    StmtView, VarDeclView,
};
use crate::names::NameView;
use crate::prologue::{prologue_kept, same_prologue_same_directive};
use crate::rewritten::{block_is_rewritten, rewritten_block};
use crate::state::{action_ident, Diagnostic, Problem, Scope, State};
use crate::text::action_name;
use crate::transform::{
    add_action, arrow_block, captures, const_export, end_action, enter_function, finish_arrow,
    finish_expr, finish_function, function_export, hoisted_arrow, hoisted_function, is_action,
    name_action, replacement, take_ident, use_name, visit_arrow, visit_expr, visit_expr_children,
    visit_fn_decl, visit_fn_expr, visit_function, visit_member, visit_pats, visit_prop, visit_stmts,
    without_directive,
};
use crate::vocabulary::{
    annotations_refer, directive_is_where_marked, field, identity, marked, marked_at,
    name_is_spelled, refers, refers_to_action, spells,
};

verus! {

// ---- What the pass writes ----

/// The span of what has no place in the source.
pub open spec fn nowhere() -> Span {
    Span { lo: 0, hi: 0, ctxt: Ctxt::Source(0) }
}

/// The generated identifier with a number, in its own context.
pub open spec fn numbered_ident(n: nat) -> IdentView {
    IdentView {
        sym: action_name(n),
        span: Span { lo: 0, hi: 0, ctxt: Ctxt::Action(n as u32) },
        optional: false,
    }
}

/// The pattern of the one parameter of the hoisted action with a number.
pub open spec fn closure_pat(n: nat) -> PatView {
    PatView {
        origin: Origin::Synthetic,
        form: PatFormView::Ident(closure_parameter(n)),
        exprs: Seq::empty(),
    }
}

/// The one parameter of the hoisted action with a number.
pub open spec fn closure_parameter(n: nat) -> IdentView {
    IdentView {
        sym: "closure"@,
        span: Span { lo: 0, hi: 0, ctxt: Ctxt::Closure(n as u32) },
        optional: false,
    }
}

/// The declaration of one variable that the pass makes.
pub open spec fn declares_one(
    d: DeclView,
    kind: VarKind,
    name: IdentView,
    init: Option<Box<ExprView>>,
) -> bool {
    d == DeclView::Var(
        VarDeclView {
            origin: Origin::Synthetic,
            kind,
            decls: seq![
                DeclaratorView {
                    origin: Origin::Synthetic,
                    name: PatView {
                        origin: Origin::Synthetic,
                        form: PatFormView::Ident(name),
                        exprs: Seq::empty(),
                    },
                    init,
                },
            ],
        },
    )
}

/// `export const name = value;`
pub open spec fn exports_const(item: ModuleItemView, name: IdentView, value: ExprView) -> bool {
    &&& item is ExportDecl
    &&& item->ExportDecl_0 == nowhere()
    &&& declares_one(item->ExportDecl_1, VarKind::Const, name, Some(Box::new(value)))
}

/// `export function name(..) { .. }`
pub open spec fn exports_function(item: ModuleItemView, name: IdentView, h: FunctionView) -> bool {
    item == ModuleItemView::ExportDecl(
        nowhere(),
        DeclView::Fn(FnDeclView { origin: Origin::Synthetic, ident: name, function: h }),
    )
}

/// `var name;`
pub open spec fn declares_name(item: ModuleItemView, name: IdentView) -> bool {
    &&& item is Stmt
    &&& item->Stmt_0 is Decl
    &&& declares_one(item->Stmt_0->Decl_0, VarKind::Var, name, None)
}

/// `$$ACTION_n(name.$$bound)`: the action with the number is called with what
/// the reference holds.
pub open spec fn calls_action(e: ExprView, n: nat, name: IdentView) -> bool {
    e == ExprView::Call(
        Box::new(ExprView::Ident(numbered_ident(n))),
        seq![field(name, "$$bound"@)],
    )
}

/// A function as it is hoisted: it takes the closure, and reads what it
/// captures out of it.
pub open spec fn hoisted_from(
    h: FunctionView,
    f: FunctionView,
    n: nat,
    names: Seq<NameView>,
) -> bool {
    &&& h.origin == f.origin
    &&& h.span == f.span
    &&& h.is_async == f.is_async
    &&& h.is_generator == f.is_generator
    &&& h.decorators.len() == 0
    &&& h.params.len() == 1
    &&& h.params[0] == (ParamView {
        origin: Origin::Synthetic,
        decorators: Seq::empty(),
        pat: closure_pat(n),
    })
    &&& match f.body {
        Some(b) => h.body is Some && rewritten_block(closure_parameter(n), names, b, h.body->0),
        None => h.body is None,
    }
}

/// What is left in the place of a hoisted function: it takes the same and calls
/// the action.
pub open spec fn left_for(stub: FunctionView, f: FunctionView, n: nat, name: IdentView) -> bool {
    &&& stub.origin == Origin::Synthetic
    &&& stub.span == f.span
    &&& stub.params == f.params
    &&& stub.decorators == f.decorators
    &&& stub.is_async == f.is_async
    &&& stub.is_generator == f.is_generator
    &&& stub.body is Some
    &&& stub.body->0.origin == Origin::Synthetic
    &&& stub.body->0.stmts.len() == 1
    &&& stub.body->0.stmts[0] is Return
    &&& calls_action(*stub.body->0.stmts[0]->Return_0, n, name)
}

/// An arrow function as it is hoisted, without its directive at `k`.
pub open spec fn hoisted_arrow_from(
    h: ArrowView,
    a: ArrowView,
    k: int,
    n: nat,
    names: Seq<NameView>,
) -> bool {
    &&& h.origin == a.origin
    &&& h.span == a.span
    &&& h.is_async == a.is_async
    &&& h.is_generator == a.is_generator
    &&& h.params.len() == 1
    &&& h.params[0] == closure_pat(n)
    &&& a.body is Block
    &&& h.body is Block
    &&& 0 <= k < a.body->Block_0.stmts.len()
    &&& rewritten_block(
        closure_parameter(n),
        names,
        (BlockView { stmts: a.body->Block_0.stmts.remove(k), ..a.body->Block_0 }),
        h.body->Block_0,
    )
}

/// What is left in the place of a hoisted arrow function.
pub open spec fn left_for_arrow(stub: ArrowView, a: ArrowView, n: nat, name: IdentView) -> bool {
    &&& stub.origin == Origin::Synthetic
    &&& stub.span == nowhere()
    &&& stub.params == a.params
    &&& stub.is_async == a.is_async
    &&& stub.is_generator == a.is_generator
    &&& stub.body is Expr
    &&& calls_action(*stub.body->Expr_0, n, name)
}

// ---- What is recorded of an action ----

/// A function has the directive in its body.
pub open spec fn marked_body(body: Option<BlockView>) -> bool {
    body is Some && marked(body->0.stmts)
}

/// An arrow function has the directive in its block.
pub open spec fn marked_arrow(a: ArrowView) -> bool {
    a.body is Block && marked(a.body->Block_0.stmts)
}

/// The name under which the action with a number is exported: `default` if it
/// is the default export itself.
pub open spec fn exported_under(s: State, n: nat) -> Seq<char> {
    if s.scope.in_default_export_decl {
        "default"@
    } else {
        action_name(n)
    }
}

/// The action with the number `n` has been counted and exported between two
/// states, and the action that was current in the state `s` is current again.
/// Annotations and items are spoken of elsewhere.
pub open spec fn counted(s: State, s1: State, t: State, n: nat) -> bool {
    t == (State {
        ident_cnt: n + 1,
        has_action: true,
        action_start: s.action_start,
        export_actions: s1.export_actions.push(exported_under(s1, n)),
        annotations: t.annotations,
        extra_items: t.extra_items,
        ..s1
    })
}

/// Between two states a name was made the reference to the action with the
/// number.
pub open spec fn referenced(
    s1: State,
    t: State,
    n: nat,
    name: IdentView,
    bound: Seq<NameView>,
) -> bool {
    exists|stmts: Seq<StmtView>|
        t.annotations == s1.annotations + stmts && #[trigger] refers_to_action(
            stmts,
            name,
            bound,
            identity(s1.file_name, exported_under(s1, n)),
        )
}

/// Between two states one item was added.
pub open spec fn adds_item(s1: State, t: State, item: ModuleItemView) -> bool {
    t.extra_items == s1.extra_items.push(item)
}

/// The names that were met since a state, as far as they were bound around it.
pub open spec fn captured_since(s: State, s1: State) -> Seq<NameView> {
    captured(
        s1.action_idents.skip(s.action_idents.len() as int),
        s.closure_idents + s.action_locals,
    )
}

/// What becomes of an action that is a function: `s` is the state before it and
/// `s1` the one after the walk over it, `f` is what the walk made of it, and
/// `f1` what stands in its place at the end, in the state `t`.
///
/// At the top level it stays, is exported under its number, and captures
/// nothing. Elsewhere it is hoisted.
pub open spec fn function_becomes_action(
    s: State,
    s1: State,
    t: State,
    n: nat,
    name: IdentView,
    f: FunctionView,
    f1: FunctionView,
) -> bool {
    &&& counted(s, s1, t, n)
    &&& if s1.top_level {
        &&& referenced(s1, t, n, name, Seq::empty())
        &&& f1 == f
        &&& exists|item: ModuleItemView|
            #[trigger] adds_item(s1, t, item) && exports_const(
                item,
                numbered_ident(n),
                ExprView::Ident(name),
            )
    } else {
        let names = captured_since(s, s1);
        &&& referenced(s1, t, n, name, names)
        &&& left_for(f1, f, n, name)
        &&& exists|item: ModuleItemView, h: FunctionView|
            #[trigger] adds_item(s1, t, item) && #[trigger] exports_function(
                item,
                numbered_ident(n),
                h,
            ) && hoisted_from(h, f, n, names)
    }
}

proof fn hoisting_a_function(n: nat, names: Seq<NameView>, f: FunctionView)
    ensures
        hoisted_from(hoisted_function(n, names, f), f, n, names),
{
    if let Some(b) = f.body {
        block_is_rewritten(replacement(n, names), b);
    }
}

#[verifier::spinoff_prover]
proof fn finishing_a_function(
    s: State,
    s1: State,
    s2: State,
    span: Span,
    name: IdentView,
    f: FunctionView,
)
    requires
        f.is_async,
        !s1.in_action_file,
        s2 == (State { ident_cnt: s2.ident_cnt, ..s1 }),
        captures(s1) == captured_since(s, s1),
    ensures
        ({
            let (t, f1) = finish_function(s2, span, name, f);
            function_becomes_action(s, s1, end_action(s, t), s2.ident_cnt, name, f, f1)
        }),
{
    reveal(finish_function);
    reveal(add_action);
    let n = s2.ident_cnt;
    let (t, f1) = finish_function(s2, span, name, f);
    let names = captures(s1);
    assert(captures(s2) == names);
    let u = end_action(s, t);
    let no_names = Seq::<NameView>::empty();
    if s1.top_level {
        annotations_refer(name, no_names, s1.file_name, exported_under(s1, n));
        assert(exprs_of(no_names) =~= Seq::<ExprView>::empty());
        let item = const_export(action_ident(n), ExprView::Ident(name));
        assert(exports_const(item, numbered_ident(n), ExprView::Ident(name)));
        assert(adds_item(s1, u, item));
    } else {
        annotations_refer(name, names, s1.file_name, exported_under(s1, n));
        hoisting_a_function(n, names, f);
        let h = hoisted_function(n, names, f);
        let item = function_export(action_ident(n), h);
        assert(exports_function(item, numbered_ident(n), h));
        assert(adds_item(s1, u, item));
    }
}

proof fn captures_since(s: State, f: FunctionView)
    requires
        is_action(s, f.body),
    ensures
        captures(visit_function(s, f).0) == captured_since(s, visit_function(s, f).0),
{
    function_captures_own_names(s, f);
}

/// An async function with the directive that is declared outside of a
/// `"use server"` file becomes an action under its own name.
pub proof fn declared_action(s: State, d: FnDeclView)
    requires
        marked_body(d.function.body),
        d.function.is_async,
        !visit_function(s, d.function).0.in_action_file,
    ensures
        ({
            let (s1, f1) = visit_function(s, d.function);
            let (t, d2) = visit_fn_decl(s, d);
            &&& d2.ident == d.ident
            &&& d2.origin == d.origin
            &&& function_becomes_action(s, s1, t, s1.ident_cnt, d.ident, f1, d2.function)
        }),
{
    visit_function_extends(s, d.function);
    directive_is_where_marked(d.function.body->0.stmts, 0);
    let (s1, f1) = visit_function(s, d.function);
    captures_since(s, d.function);
    finishing_a_function(s, s1, s1, d.ident.span, d.ident, f1);
}

/// An async function expression with the directive becomes an action outside of
/// a `"use server"` file. It keeps the name that it has, wherever it stands, and
/// gets a generated name if it has none.
pub proof fn expressed_action(s: State, ident: Option<IdentView>, f: FunctionView)
    requires
        marked_body(f.body),
        f.is_async,
        !visit_function(s, f).0.in_action_file,
    ensures
        ({
            let (s1, f1) = visit_function(s, f);
            let (t, e) = visit_fn_expr(s, ident, f);
            match ident {
                Some(i) => {
                    &&& e.ident == Some(i)
                    &&& function_becomes_action(s, s1, t, s1.ident_cnt, i, f1, e.function)
                },
                None => {
                    let i = IdentView {
                        sym: action_name(s1.ident_cnt),
                        span: nowhere(),
                        optional: false,
                    };
                    &&& e.ident == Some(i)
                    &&& function_becomes_action(s, s1, t, s1.ident_cnt + 1, i, f1, e.function)
                },
            }
        }),
{
    visit_function_extends(s, f);
    directive_is_where_marked(f.body->0.stmts, 0);
    let (s1, f1) = visit_function(s, f);
    captures_since(s, f);
    let (s2, ident2) = name_action(s1, ident, f1);
    finishing_a_function(s, s1, s2, f1.span, ident2->0, f1);
}

/// The name of a function expression is never changed.
pub proof fn named_expression_keeps_name(s: State, i: IdentView, f: FunctionView)
    ensures
        visit_fn_expr(s, Some(i), f).1.ident == Some(i),
{
}

/// A function expression gets a name only where it becomes an action.
pub proof fn other_expression_gets_no_name(s: State, f: FunctionView)
    requires
        !f.is_async || visit_function(s, f).0.in_action_file || !marked_body(f.body),
        !(s.in_action_file && s.scope.in_export_decl && !visit_function(s, f).0.in_action_file),
    ensures
        visit_fn_expr(s, None, f).1.ident is None,
{
    visit_function_extends(s, f);
    if let Some(b) = f.body {
        directive_is_where_marked(b.stmts, 0);
    }
}

/// The walk over a function declaration keeps what is declared.
pub proof fn declaration_keeps_name(s: State, d: FnDeclView)
    ensures
        visit_fn_decl(s, d).1.ident == d.ident,
        visit_fn_decl(s, d).1.origin == d.origin,
{
}

/// A function without the directive that no `"use server"` file exports is only
/// walked over.
pub proof fn ordinary_function(s: State, d: FnDeclView)
    requires
        !marked_body(d.function.body),
        !s.in_action_file || !s.scope.in_export_decl,
    ensures
        visit_fn_decl(s, d).0 == visit_function(s, d.function).0,
        visit_fn_decl(s, d).1.function == visit_function(s, d.function).1,
        visit_fn_expr(s, Some(d.ident), d.function).0 == visit_function(s, d.function).0,
        visit_fn_expr(s, Some(d.ident), d.function).1.function == visit_function(
            s,
            d.function,
        ).1,
{
    visit_function_extends(s, d.function);
    if let Some(b) = d.function.body {
        directive_is_where_marked(b.stmts, 0);
    }
}

/// A function that has to be an action and is not async is reported, at its
/// name if it is declared, and stays as the walk left it. Nothing else happens.
pub proof fn synchronous_action(s: State, d: FnDeclView, ident: Option<IdentView>)
    requires
        marked_body(d.function.body) || (s.in_action_file && s.scope.in_export_decl),
        !d.function.is_async,
    ensures
        ({
            let (s1, f1) = visit_function(s, d.function);
            let (t, d2) = visit_fn_decl(s, d);
            let (u, e) = visit_fn_expr(s, ident, d.function);
            &&& d2.function == f1
            &&& e.function == f1
            &&& e.ident == ident
            &&& t == (State {
                errors: s1.errors.push(
                    Diagnostic { span: d.ident.span, problem: Problem::NotAsync },
                ),
                action_start: s.action_start,
                ..s1
            })
            &&& u == (State {
                errors: s1.errors.push(
                    Diagnostic { span: d.function.span, problem: Problem::NotAsync },
                ),
                action_start: s.action_start,
                ..s1
            })
        }),
{
    reveal(finish_function);
    if let Some(b) = d.function.body {
        directive_is_where_marked(b.stmts, 0);
    }
}

/// In a `"use server"` file an async function is only walked over: its exports
/// are annotated at the end.
pub proof fn function_of_action_file(s: State, d: FnDeclView, ident: Option<IdentView>)
    requires
        d.function.is_async,
        visit_function(s, d.function).0.in_action_file,
    ensures
        ({
            let (s1, f1) = visit_function(s, d.function);
            let (t, d2) = visit_fn_decl(s, d);
            let (u, e) = visit_fn_expr(s, ident, d.function);
            &&& d2.function == f1
            &&& e.function == f1
            &&& e.ident == ident
            &&& t == (State { action_start: s.action_start, ..s1 })
            &&& u == (State { action_start: s.action_start, ..s1 })
        }),
{
    reveal(finish_function);
}

// ---- Arrow functions ----

/// What becomes of an action that is an arrow function: it is assigned to a
/// variable of its own, which is declared in the module and is the reference,
/// and hoisted under the next number.
pub open spec fn arrow_becomes_action(
    s: State,
    s1: State,
    t: State,
    k: int,
    a: ArrowView,
    e: ExprView,
) -> bool {
    let n = s1.ident_cnt + 1;
    let name = numbered_ident(s1.ident_cnt);
    let names = captured_since(s, s1);
    &&& counted(s, s1, t, n)
    &&& referenced(s1, t, n, name, names)
    &&& e is Paren
    &&& *e->Paren_0 is Define
    &&& e->Paren_0->Define_0 == name
    &&& *e->Paren_0->Define_1 is Arrow
    &&& left_for_arrow(e->Paren_0->Define_1->Arrow_0, a, n, name)
    &&& exists|item: ModuleItemView, var: ModuleItemView, h: ArrowView|
        t.extra_items == s1.extra_items.push(item).push(var) && #[trigger] declares_name(var, name)
            && #[trigger] exports_const(item, numbered_ident(n), ExprView::Arrow(h))
            && hoisted_arrow_from(h, a, k, n, names)
}

proof fn hoisting_an_arrow(n: nat, names: Seq<NameView>, a: ArrowView, k: int)
    requires
        a.body is Block,
        marked_at(a.body->Block_0.stmts, k),
    ensures
        hoisted_arrow_from(hoisted_arrow(n, names, without_directive(a)), a, k, n, names),
{
    let b = a.body->Block_0;
    directive_is_where_marked(b.stmts, k);
    let b1 = BlockView { stmts: b.stmts.remove(k), ..b };
    assert(without_directive(a).body == ArrowBodyView::Block(b1));
    block_is_rewritten(replacement(n, names), b1);
}

#[verifier::spinoff_prover]
proof fn finishing_an_arrow(s: State, s1: State, a: ArrowView, k: int)
    requires
        a.body is Block,
        marked_at(a.body->Block_0.stmts, k),
        captures(s1) == captured_since(s, s1),
    ensures
        ({
            let (t, e) = finish_arrow(s1, a);
            arrow_becomes_action(s, s1, end_action(s, t), k, a, e)
        }),
{
    reveal(finish_arrow);
    reveal(add_action);
    let n = s1.ident_cnt + 1;
    let name = numbered_ident(s1.ident_cnt);
    assert(name == action_ident(s1.ident_cnt));
    let names = captures(s1);
    let s2 = take_ident(s1);
    assert(captures(s2) == names);
    let (t, e) = finish_arrow(s1, a);
    annotations_refer(name, names, s1.file_name, exported_under(s1, n));
    hoisting_an_arrow(n, names, a, k);
    let h = hoisted_arrow(n, names, without_directive(a));
    let item = const_export(action_ident(n), ExprView::Arrow(h));
    let var = name_declaration(name);
    assert(exports_const(item, numbered_ident(n), ExprView::Arrow(h)));
    assert(declares_name(var, name));
    assert(t.extra_items == s1.extra_items.push(item).push(var));
}

/// The walk over an arrow function keeps whether it has the directive.
pub proof fn arrow_stays_marked(s: State, a: ArrowView)
    ensures
        marked_arrow(a) <==> marked_arrow(visit_arrow(s, a).1),
{
    if let ArrowBodyView::Block(b) = a.body {
        let s0 = enter_function(s, is_action(s, arrow_block(a)));
        let s1 = visit_pats(s0, a.params).0;
        let w = visit_stmts(s1, b.stmts).1;
        prologue_kept(s1, b.stmts);
        same_prologue_same_directive(directive_texts(b.stmts), directive_texts(w));
        directive_is_where_marked(b.stmts, 0);
        directive_is_where_marked(w, 0);
    }
}

/// An arrow function with the directive becomes an action outside of a
/// `"use server"` file.
pub proof fn arrow_action(s: State, a: ArrowView, k: int)
    requires
        marked_arrow(a),
        !visit_arrow(s, a).0.in_action_file,
        marked_at(visit_arrow(s, a).1.body->Block_0.stmts, k),
    ensures
        ({
            let (s1, a1) = visit_arrow(s, a);
            let (t, e) = visit_expr(s, ExprView::Arrow(a));
            arrow_becomes_action(s, s1, t, k, a1, e)
        }),
{
    visit_arrow_extends(s, a);
    arrow_stays_marked(s, a);
    directive_is_where_marked(a.body->Block_0.stmts, 0);
    let (s1, a1) = visit_arrow(s, a);
    directive_is_where_marked(a1.body->Block_0.stmts, k);
    arrow_captures_own_names(s, a);
    finishing_an_arrow(s, s1, a1, k);
    reveal(finish_expr);
    assert(visit_expr_children(s, ExprView::Arrow(a)) == (s1, ExprView::Arrow(a1)));
}

/// An arrow function without the directive, or in a `"use server"` file, is only
/// walked over.
pub proof fn ordinary_arrow(s: State, a: ArrowView)
    requires
        !marked_arrow(a) || visit_arrow(s, a).0.in_action_file,
    ensures
        ({
            let (s1, a1) = visit_arrow(s, a);
            visit_expr(s, ExprView::Arrow(a)) == (
                State { action_start: s.action_start, ..s1 },
                ExprView::Arrow(a1),
            )
        }),
{
    visit_arrow_extends(s, a);
    arrow_stays_marked(s, a);
    let (s1, a1) = visit_arrow(s, a);
    if let ArrowBodyView::Block(b) = a1.body {
        directive_is_where_marked(b.stmts, 0);
    }
    reveal(finish_expr);
    assert(visit_expr_children(s, ExprView::Arrow(a)) == (s1, ExprView::Arrow(a1)));
}

// ---- What an action mentions ----

proof fn path_elsewhere(s: State, e: ExprView, id: IdView, props: Seq<(Seq<char>, bool)>)
    requires
        spells(e, id, props),
        !(s.scope.in_action_fn && s.scope.in_action_closure),
    ensures
        visit_expr_children(s, e) == (s, e),
        visit_expr(s, e) == (s, e),
    decreases e,
{
    reveal(finish_expr);
    match e {
        ExprView::Member(m) => {
            path_elsewhere(s, *m.obj, id, props.drop_last());
            assert(visit_member(s, m) == (s, m));
        },
        ExprView::OptMember(m) => {
            path_elsewhere(s, *m.obj, id, props.drop_last());
            assert(visit_member(s, m) == (s, m));
        },
        _ => {},
    }
}

/// A path of names that is met in an action, such as `a.b?.c`, counts as a
/// whole, and none of its parts counts by itself. Elsewhere it does not count.
pub proof fn path_counts_as_a_whole(
    s: State,
    e: ExprView,
    id: IdView,
    props: Seq<(Seq<char>, bool)>,
)
    requires
        spells(e, id, props),
    ensures
        visit_expr(s, e).1 == e,
        s.scope.in_action_fn && s.scope.in_action_closure ==> visit_expr(s, e).0 == (State {
            action_idents: s.action_idents.push(NameView { id, props }),
            ..s
        }),
        !(s.scope.in_action_fn && s.scope.in_action_closure) ==> visit_expr(s, e).0 == s,
{
    name_is_spelled(e, NameView { id, props });
    if s.scope.in_action_fn && s.scope.in_action_closure {
        let s1 = State {
            scope: Scope { in_action_closure: false, ..s.scope },
            ..use_name(s, NameView { id, props })
        };
        path_elsewhere(s1, e, id, props);
    } else {
        path_elsewhere(s, e, id, props);
    }
}

/// A shorthand property that is met in an action counts as its name.
pub proof fn shorthand_counts(s: State, i: IdentView, id: IdView)
    requires
        refers(i, id),
    ensures
        visit_prop(s, PropView::Shorthand(i)).1 == PropView::Shorthand(i),
        s.scope.in_action_fn && s.scope.in_action_closure ==> visit_prop(
            s,
            PropView::Shorthand(i),
        ).0 == (State {
            action_idents: s.action_idents.push(NameView { id, props: Seq::empty() }),
            ..s
        }),
        !(s.scope.in_action_fn && s.scope.in_action_closure) ==> visit_prop(
            s,
            PropView::Shorthand(i),
        ).0 == s,
{
}

} // verus!
