//! A hoisted action mentions nothing that is bound around it.

use vstd::prelude::*;
use crate::annotate::{action_annotations, annotation, reference_symbol, text_literal};
use crate::ast::{Ctxt, Span};
use crate::closure::{captured, captured_exactly, exprs_of};
use crate::digest::action_id;
use crate::directive::{directive_texts, fn_directive};
use crate::frame::{
    finish_expr_extends, finish_function_extends, grows, grows_trans, is_arrow_action,
    take_ident_grows, visit_arrow_body_extends, visit_arrow_extends, visit_declarator_extends,
    visit_declarators_extends, visit_decorator_extends, visit_decorators_extends,
    visit_expr_children_extends, visit_expr_extends, visit_exprs_extends, visit_fn_body_extends,
    visit_function_extends, visit_node_extends, visit_nodes_extends, visit_opt_expr_extends,
    visit_param_extends, visit_params_extends, visit_pat_extends, visit_pats_extends,
    visit_stmt_extends, visit_stmts_in_turn_extends,
};
use crate::free::{
    free_arrow, free_block, free_children, free_decl, free_declarator, free_declarators,
    free_decorator, free_decorators, free_expr, free_exprs, free_function, free_node, free_nodes,
    free_other, free_param, free_params, free_pat, free_pats, free_prop, free_stmt, free_stmts,
    position_none,
};
use crate::mentioned::without_is_part;
use crate::model::{
    ArrowBodyView, ArrowView, BlockView, DeclView, DeclaratorView, DecoratorView, ExprView,
    FnDeclView, FunctionView, IdView, IdentView, MemberView, NodeView, OtherView, ParamView,
    PatView, PropView, StmtView,
};
use crate::names::{access, expr_of, ident_name, name_of, name_of_expr_of, new_ident, NameView};
use crate::prefix::prefix;
use crate::prologue::{prologue_kept, same_prologue_same_directive};
use crate::replace::{position_found, Replacement};
use crate::state::{action_ident, Scope, State};
use crate::text::action_name;
use crate::transform::{
    action_directive, add_action, arrow_block, bound_around, bound_call, captures, collects_names,
    enter_function, export_name, finish_arrow, finish_expr, finish_function, hoisted_arrow,
    hoisted_function, is_action, name_action, replacement, stub_arrow, stub_function, take_ident,
    use_name, used_names, visit_arrow, visit_arrow_body, visit_decl, visit_declarator,
    visit_declarators, visit_decorator, visit_decorators, visit_expr, visit_expr_children,
    visit_exprs, visit_fn_body, visit_fn_decl, visit_fn_expr, visit_function, visit_member,
    visit_node, visit_nodes, visit_opt_expr, visit_other, visit_param, visit_params, visit_pat,
    visit_pats, visit_prop, visit_stmt, visit_stmt_children, visit_stmts, visit_stmts_in_turn,
    without, without_decreases, without_directive, CallableView,
};

verus! {

// ---- Identifiers of the source ----

/// The identifiers that the pass writes itself: the generated ones, the closure
/// parameters, and the global `Symbol`.
pub open spec fn reserved(id: IdView) -> bool {
    ||| !(id.ctxt is Source)
    ||| id.ctxt == Ctxt::Source(0) && (id.sym == "Symbol"@ || exists|k: nat|
        id.sym == #[trigger] action_name(k))
}

/// The name of a plain identifier, as a list.
pub open spec fn alone(id: IdView) -> Seq<NameView> {
    seq![NameView { id, props: Seq::empty() }]
}

// ---- Trees without namespaces in which no function has a given name ----

/// The name, if there is one, is another.
pub open spec fn other_name(id: IdView, name: Option<IdentView>) -> bool {
    name is Some ==> name->0.id() != id
}

pub open spec fn distinct_expr(id: IdView, e: ExprView) -> bool
    decreases e, 1int,
{
    distinct_children(id, e)
}

pub open spec fn distinct_children(id: IdView, e: ExprView) -> bool
    decreases e, 0int,
{
    match e {
        ExprView::Ident(_) => true,
        ExprView::Str(_, _) => true,
        ExprView::Member(m) => distinct_expr(id, *m.obj),
        ExprView::OptMember(m) => distinct_expr(id, *m.obj),
        ExprView::Fn(f) => other_name(id, f.ident) && distinct_function(id, f.function),
        ExprView::Arrow(a) => distinct_arrow(id, a),
        ExprView::Call(callee, args) => distinct_expr(id, *callee) && distinct_exprs(id, args),
        ExprView::Assign(target, value) => distinct_expr(id, *target) && distinct_expr(id, *value),
        ExprView::Define(_, value) => distinct_expr(id, *value),
        ExprView::Paren(inner) => distinct_expr(id, *inner),
        ExprView::Array(elems) => distinct_exprs(id, elems),
        ExprView::Index(obj, _) => distinct_expr(id, *obj),
        ExprView::Other(o) => distinct_other(id, o),
    }
}

pub open spec fn distinct_function(id: IdView, f: FunctionView) -> bool
    decreases f, 1int,
{
    distinct_params(id, f.params) && distinct_decorators(id, f.decorators) && distinct_opt_block(
        id,
        f.body,
    )
}

pub open spec fn distinct_opt_block(id: IdView, b: Option<BlockView>) -> bool
    decreases b, 1int,
{
    match b {
        Some(block) => distinct_block(id, block),
        None => true,
    }
}

pub open spec fn distinct_block(id: IdView, b: BlockView) -> bool
    decreases b, 1int,
{
    distinct_stmts(id, b.stmts)
}

pub open spec fn distinct_arrow(id: IdView, a: ArrowView) -> bool
    decreases a, 1int,
{
    distinct_pats(id, a.params) && match a.body {
        ArrowBodyView::Block(b) => distinct_block(id, b),
        ArrowBodyView::Expr(e) => distinct_expr(id, *e),
    }
}

pub open spec fn distinct_param(id: IdView, p: ParamView) -> bool
    decreases p, 1int,
{
    distinct_decorators(id, p.decorators) && distinct_pat(id, p.pat)
}

pub open spec fn distinct_pat(id: IdView, p: PatView) -> bool
    decreases p, 1int,
{
    distinct_exprs(id, p.exprs)
}

pub open spec fn distinct_decorator(id: IdView, d: DecoratorView) -> bool
    decreases d, 1int,
{
    distinct_expr(id, d.expr)
}

pub open spec fn distinct_stmt(id: IdView, s: StmtView) -> bool
    decreases s, 1int,
{
    match s {
        StmtView::Expr(_, e) => distinct_expr(id, *e),
        StmtView::Decl(d) => distinct_decl(id, d),
        StmtView::Return(e) => distinct_expr(id, *e),
        StmtView::Other(o) => distinct_other(id, o),
    }
}

pub open spec fn distinct_decl(id: IdView, d: DeclView) -> bool
    decreases d, 1int,
{
    match d {
        DeclView::Fn(f) => f.ident.id() != id && distinct_function(id, f.function),
        DeclView::Var(v) => distinct_declarators(id, v.decls),
        DeclView::Other(o) => distinct_other(id, o),
    }
}

pub open spec fn distinct_declarator(id: IdView, d: DeclaratorView) -> bool
    decreases d, 1int,
{
    distinct_pat(id, d.name) && match d.init {
        Some(e) => distinct_expr(id, *e),
        None => true,
    }
}

pub open spec fn distinct_prop(id: IdView, p: PropView) -> bool
    decreases p, 1int,
{
    match p {
        PropView::Shorthand(_) => true,
        PropView::KeyValue(_, value) => distinct_expr(id, *value),
        PropView::Other(o) => distinct_other(id, o),
    }
}

pub open spec fn distinct_other(id: IdView, o: OtherView) -> bool
    decreases o, 1int,
{
    distinct_nodes(id, o.kids)
}

pub open spec fn distinct_node(id: IdView, n: NodeView) -> bool
    decreases n, 1int,
{
    match n {
        NodeView::Expr(e) => distinct_expr(id, e),
        NodeView::Stmt(s) => distinct_stmt(id, s),
        NodeView::Stmts(v) => distinct_stmts(id, v),
        NodeView::Param(p) => distinct_param(id, p),
        NodeView::Prop(p) => distinct_prop(id, p),
        NodeView::Items(_) => false,
    }
}

pub open spec fn distinct_exprs(id: IdView, v: Seq<ExprView>) -> bool
    decreases v, 3int,
{
    forall|i: int| 0 <= i < v.len() ==> distinct_expr(id, #[trigger] v[i])
}

pub open spec fn distinct_params(id: IdView, v: Seq<ParamView>) -> bool
    decreases v, 3int,
{
    forall|i: int| 0 <= i < v.len() ==> distinct_param(id, #[trigger] v[i])
}

pub open spec fn distinct_decorators(id: IdView, v: Seq<DecoratorView>) -> bool
    decreases v, 3int,
{
    forall|i: int| 0 <= i < v.len() ==> distinct_decorator(id, #[trigger] v[i])
}

pub open spec fn distinct_pats(id: IdView, v: Seq<PatView>) -> bool
    decreases v, 3int,
{
    forall|i: int| 0 <= i < v.len() ==> distinct_pat(id, #[trigger] v[i])
}

pub open spec fn distinct_declarators(id: IdView, v: Seq<DeclaratorView>) -> bool
    decreases v, 3int,
{
    forall|i: int| 0 <= i < v.len() ==> distinct_declarator(id, #[trigger] v[i])
}

pub open spec fn distinct_nodes(id: IdView, v: Seq<NodeView>) -> bool
    decreases v, 3int,
{
    forall|i: int| 0 <= i < v.len() ==> distinct_node(id, #[trigger] v[i])
}

pub open spec fn distinct_stmts(id: IdView, v: Seq<StmtView>) -> bool
    decreases v, 3int,
{
    forall|i: int| 0 <= i < v.len() ==> distinct_stmt(id, #[trigger] v[i])
}

// ---- Trees in which an identifier is only the root of recorded names ----

pub open spec fn covered_expr(used: Seq<NameView>, id: IdView, e: ExprView) -> bool
    decreases e, 1int,
{
    match name_of(e) {
        Some(n) => n.id == id ==> used.contains(n),
        None => covered_children(used, id, e),
    }
}

pub open spec fn covered_children(used: Seq<NameView>, id: IdView, e: ExprView) -> bool
    decreases e, 0int,
{
    match e {
        ExprView::Ident(_) => true,
        ExprView::Str(_, _) => true,
        ExprView::Member(m) => covered_expr(used, id, *m.obj),
        ExprView::OptMember(m) => covered_expr(used, id, *m.obj),
        ExprView::Fn(f) => covered_function(used, id, f.function),
        ExprView::Arrow(a) => covered_arrow(used, id, a),
        ExprView::Call(callee, args) => covered_expr(used, id, *callee) && covered_exprs(
            used,
            id,
            args,
        ),
        ExprView::Assign(target, value) => covered_expr(used, id, *target) && covered_expr(
            used,
            id,
            *value,
        ),
        ExprView::Define(_, value) => covered_expr(used, id, *value),
        ExprView::Paren(inner) => covered_expr(used, id, *inner),
        ExprView::Array(elems) => covered_exprs(used, id, elems),
        ExprView::Index(obj, _) => covered_expr(used, id, *obj),
        ExprView::Other(o) => covered_other(used, id, o),
    }
}

pub open spec fn covered_function(used: Seq<NameView>, id: IdView, f: FunctionView) -> bool
    decreases f, 1int,
{
    &&& covered_params(used, id, f.params)
    &&& covered_decorators(used, id, f.decorators)
    &&& covered_opt_block(used, id, f.body)
}

pub open spec fn covered_opt_block(used: Seq<NameView>, id: IdView, b: Option<BlockView>) -> bool
    decreases b, 1int,
{
    match b {
        Some(block) => covered_block(used, id, block),
        None => true,
    }
}

pub open spec fn covered_block(used: Seq<NameView>, id: IdView, b: BlockView) -> bool
    decreases b, 1int,
{
    covered_stmts(used, id, b.stmts)
}

pub open spec fn covered_arrow(used: Seq<NameView>, id: IdView, a: ArrowView) -> bool
    decreases a, 1int,
{
    covered_pats(used, id, a.params) && match a.body {
        ArrowBodyView::Block(b) => covered_block(used, id, b),
        ArrowBodyView::Expr(e) => covered_expr(used, id, *e),
    }
}

pub open spec fn covered_param(used: Seq<NameView>, id: IdView, p: ParamView) -> bool
    decreases p, 1int,
{
    covered_decorators(used, id, p.decorators) && covered_pat(used, id, p.pat)
}

pub open spec fn covered_pat(used: Seq<NameView>, id: IdView, p: PatView) -> bool
    decreases p, 1int,
{
    covered_exprs(used, id, p.exprs)
}

pub open spec fn covered_decorator(used: Seq<NameView>, id: IdView, d: DecoratorView) -> bool
    decreases d, 1int,
{
    covered_expr(used, id, d.expr)
}

pub open spec fn covered_stmt(used: Seq<NameView>, id: IdView, s: StmtView) -> bool
    decreases s, 1int,
{
    match s {
        StmtView::Expr(_, e) => covered_expr(used, id, *e),
        StmtView::Decl(d) => covered_decl(used, id, d),
        StmtView::Return(e) => covered_expr(used, id, *e),
        StmtView::Other(o) => covered_other(used, id, o),
    }
}

pub open spec fn covered_decl(used: Seq<NameView>, id: IdView, d: DeclView) -> bool
    decreases d, 1int,
{
    match d {
        DeclView::Fn(f) => covered_function(used, id, f.function),
        DeclView::Var(v) => covered_declarators(used, id, v.decls),
        DeclView::Other(o) => covered_other(used, id, o),
    }
}

pub open spec fn covered_declarator(used: Seq<NameView>, id: IdView, d: DeclaratorView) -> bool
    decreases d, 1int,
{
    covered_pat(used, id, d.name) && match d.init {
        Some(e) => covered_expr(used, id, *e),
        None => true,
    }
}

pub open spec fn covered_prop(used: Seq<NameView>, id: IdView, p: PropView) -> bool
    decreases p, 1int,
{
    match p {
        PropView::Shorthand(i) => i.id() == id ==> used.contains(ident_name(i)),
        PropView::KeyValue(_, value) => covered_expr(used, id, *value),
        PropView::Other(o) => covered_other(used, id, o),
    }
}

pub open spec fn covered_other(used: Seq<NameView>, id: IdView, o: OtherView) -> bool
    decreases o, 1int,
{
    covered_nodes(used, id, o.kids)
}

pub open spec fn covered_node(used: Seq<NameView>, id: IdView, n: NodeView) -> bool
    decreases n, 1int,
{
    match n {
        NodeView::Expr(e) => covered_expr(used, id, e),
        NodeView::Stmt(s) => covered_stmt(used, id, s),
        NodeView::Stmts(v) => covered_stmts(used, id, v),
        NodeView::Param(p) => covered_param(used, id, p),
        NodeView::Prop(p) => covered_prop(used, id, p),
        NodeView::Items(_) => false,
    }
}

pub open spec fn covered_exprs(used: Seq<NameView>, id: IdView, v: Seq<ExprView>) -> bool
    decreases v, 3int,
{
    forall|i: int| 0 <= i < v.len() ==> covered_expr(used, id, #[trigger] v[i])
}

pub open spec fn covered_params(used: Seq<NameView>, id: IdView, v: Seq<ParamView>) -> bool
    decreases v, 3int,
{
    forall|i: int| 0 <= i < v.len() ==> covered_param(used, id, #[trigger] v[i])
}

pub open spec fn covered_decorators(used: Seq<NameView>, id: IdView, v: Seq<DecoratorView>) -> bool
    decreases v, 3int,
{
    forall|i: int| 0 <= i < v.len() ==> covered_decorator(used, id, #[trigger] v[i])
}

pub open spec fn covered_pats(used: Seq<NameView>, id: IdView, v: Seq<PatView>) -> bool
    decreases v, 3int,
{
    forall|i: int| 0 <= i < v.len() ==> covered_pat(used, id, #[trigger] v[i])
}

pub open spec fn covered_declarators(
    used: Seq<NameView>,
    id: IdView,
    v: Seq<DeclaratorView>,
) -> bool
    decreases v, 3int,
{
    forall|i: int| 0 <= i < v.len() ==> covered_declarator(used, id, #[trigger] v[i])
}

pub open spec fn covered_nodes(used: Seq<NameView>, id: IdView, v: Seq<NodeView>) -> bool
    decreases v, 3int,
{
    forall|i: int| 0 <= i < v.len() ==> covered_node(used, id, #[trigger] v[i])
}

pub open spec fn covered_stmts(used: Seq<NameView>, id: IdView, v: Seq<StmtView>) -> bool
    decreases v, 3int,
{
    forall|i: int| 0 <= i < v.len() ==> covered_stmt(used, id, #[trigger] v[i])
}

// ---- Names are kept by the walk ----

/// The walk keeps what an expression spells.
proof fn name_kept(s: State, e: ExprView)
    ensures
        name_of(visit_expr(s, e).1) == name_of(e),
    decreases e,
{
    reveal(finish_expr);
    reveal(finish_arrow);
    let s0 = if collects_names(s) && name_of(e) is Some {
        State {
            scope: Scope { in_action_closure: false, ..s.scope },
            ..use_name(s, name_of(e)->0)
        }
    } else {
        s
    };
    match e {
        ExprView::Member(m) => {
            name_kept(s0, *m.obj);
            assert(visit_expr_children(s0, e).1 == ExprView::Member(visit_member(s0, m).1));
            assert(*visit_member(s0, m).1.obj == visit_expr(s0, *m.obj).1);
        },
        ExprView::OptMember(m) => {
            name_kept(s0, *m.obj);
            assert(visit_expr_children(s0, e).1 == ExprView::OptMember(visit_member(s0, m).1));
            assert(*visit_member(s0, m).1.obj == visit_expr(s0, *m.obj).1);
        },
        ExprView::Arrow(a) => {
            assert(visit_expr_children(s0, e).1 == ExprView::Arrow(visit_arrow(s0, a).1));
        },
        _ => {
            assert(name_of(visit_expr_children(s0, e).1) == name_of(e));
        },
    }
}

// ---- The walk inside of an action ----

/// The names by which a list has grown are among the given ones.
#[verifier::opaque]
pub open spec fn recorded(
    used: Seq<NameView>,
    before: Seq<NameView>,
    after: Seq<NameView>,
) -> bool {
    forall|i: int| before.len() <= i < after.len() ==> used.contains(#[trigger] after[i])
}

proof fn recorded_split(used: Seq<NameView>, a: State, b: State, c: State)
    requires
        grows(a, b),
        grows(b, c),
        recorded(used, a.action_idents, c.action_idents),
    ensures
        recorded(used, a.action_idents, b.action_idents),
        recorded(used, b.action_idents, c.action_idents),
{
    reveal(prefix);
    reveal(recorded);
    assert forall|i: int| a.action_idents.len() <= i < b.action_idents.len() implies used.contains(
        #[trigger] b.action_idents[i],
    ) by {
        assert(b.action_idents[i] == c.action_idents[i]);
    }
}

proof fn recorded_last(used: Seq<NameView>, before: Seq<NameView>, n: NameView)
    requires
        recorded(used, before, before.push(n)),
    ensures
        used.contains(n),
{
    reveal(recorded);
    assert(before.push(n)[before.len() as int] == n);
}

/// The walk is still inside of an action, and what it added to what it has to
/// put behind the current statement is covered.
pub open spec fn inside(used: Seq<NameView>, id: IdView, s: State, t: State) -> bool {
    &&& collects_names(t)
    &&& covered_stmts(used, id, s.annotations) ==> covered_stmts(used, id, t.annotations)
}

proof fn covered_spelling(used: Seq<NameView>, id: IdView, n: NameView)
    requires
        n.id == id ==> used.contains(n),
    ensures
        covered_expr(used, id, expr_of(n)),
{
    name_of_expr_of(n);
}

proof fn covered_access(used: Seq<NameView>, id: IdView, i: IdentView, field: Seq<char>)
    requires
        i.id() != id,
    ensures
        covered_expr(used, id, access(ExprView::Ident(i), field, true)),
        covered_expr(used, id, ExprView::Ident(i)),
{
    assert(name_of(ExprView::Ident(i)) == Some(ident_name(i)));
}

proof fn covered_annotation(
    used: Seq<NameView>,
    id: IdView,
    i: IdentView,
    field: Seq<char>,
    value: ExprView,
)
    requires
        i.id() != id,
        covered_expr(used, id, value),
    ensures
        covered_stmt(used, id, annotation(i, field, value)),
{
    covered_access(used, id, i, field);
    let e = ExprView::Assign(
        Box::new(access(ExprView::Ident(i), field, true)),
        Box::new(value),
    );
    assert(covered_expr(used, id, e));
}

proof fn covered_reference(
    used: Seq<NameView>,
    id: IdView,
    i: IdentView,
    names: Seq<NameView>,
    file_name: Seq<char>,
    export_name: Seq<char>,
)
    requires
        !reserved(id),
        i.id() != id,
        forall|k: int| 0 <= k < names.len() ==> used.contains(#[trigger] names[k]),
    ensures
        covered_stmts(
            used,
            id,
            action_annotations(i, exprs_of(names), file_name, export_name),
        ),
{
    let bound = exprs_of(names);
    assert forall|k: int| 0 <= k < bound.len() implies covered_expr(
        used,
        id,
        #[trigger] bound[k],
    ) by {
        assert(used.contains(names[k]));
        covered_spelling(used, id, names[k]);
    }
    let array = ExprView::Array(bound);
    assert(covered_exprs(used, id, bound));
    assert(covered_children(used, id, array));
    assert(covered_expr(used, id, array));
    let text = text_literal(action_id(file_name, export_name));
    assert(covered_expr(used, id, text));
    let symbol = new_ident("Symbol"@, Span::dummy());
    covered_access(used, id, symbol, "for"@);
    let arg = text_literal("react.server.reference"@);
    assert(covered_expr(used, id, arg));
    assert(covered_exprs(used, id, seq![arg]));
    assert(covered_expr(used, id, reference_symbol()));
    covered_annotation(used, id, i, "$$typeof"@, reference_symbol());
    covered_annotation(used, id, i, "$$id"@, text);
    covered_annotation(used, id, i, "$$bound"@, array);
}

proof fn covered_call(used: Seq<NameView>, id: IdView, n: nat, i: IdentView)
    requires
        !reserved(id),
        i.id() != id,
    ensures
        covered_expr(used, id, bound_call(n, i)),
{
    covered_access(used, id, i, "$$bound"@);
    covered_access(used, id, action_ident(n), "$$bound"@);
    let arg = access(ExprView::Ident(i), "$$bound"@, true);
    assert(covered_exprs(used, id, seq![arg]));
}

/// What the current action captures was recorded since it began.
proof fn captures_recorded(used: Seq<NameView>, s: State, t: State)
    requires
        s.action_idents.len() <= t.action_start,
        recorded(used, s.action_idents, t.action_idents),
    ensures
        forall|k: int| 0 <= k < captures(t).len() ==> used.contains(#[trigger] captures(t)[k]),
{
    reveal(recorded);
    captured_exactly(used_names(t), bound_around(t));
    assert forall|k: int| 0 <= k < captures(t).len() implies used.contains(
        #[trigger] captures(t)[k],
    ) by {
        let n = captures(t)[k];
        assert(captures(t).contains(n));
        assert(used_names(t).contains(n));
        let j = choose|j: int| 0 <= j < used_names(t).len() && used_names(t)[j] == n;
        assert(t.action_idents[j + t.action_start] == n);
    }
}

proof fn cover_add_action(
    used: Seq<NameView>,
    id: IdView,
    s: State,
    ident: IdentView,
    c: CallableView,
)
    requires
        !reserved(id),
        ident.id() != id,
        collects_names(s),
        forall|k: int| 0 <= k < captures(s).len() ==> used.contains(#[trigger] captures(s)[k]),
        match c {
            CallableView::Function(f) => covered_function(used, id, f),
            CallableView::Arrow(a) => covered_pats(used, id, a.params),
        },
    ensures
        inside(used, id, s, add_action(s, ident, c).0),
        match add_action(s, ident, c).1 {
            CallableView::Function(f) => c is Function && covered_function(used, id, f),
            CallableView::Arrow(a) => c is Arrow && covered_arrow(used, id, a),
        },
{
    reveal(add_action);
    let n = s.ident_cnt;
    let names = captures(s);
    let none = Seq::<NameView>::empty();
    assert(exprs_of(none) =~= Seq::<ExprView>::empty());
    covered_reference(used, id, ident, names, s.file_name, export_name(s));
    covered_reference(used, id, ident, none, s.file_name, export_name(s));
    covered_call(used, id, n, ident);
    let back = StmtView::Return(Box::new(bound_call(n, ident)));
    assert(covered_stmt(used, id, back));
    assert(covered_stmts(used, id, seq![back]));
    match c {
        CallableView::Function(f) => {
            let stub = stub_function(n, ident, f);
            assert(covered_block(used, id, stub.body->0));
            assert(covered_function(used, id, stub));
        },
        CallableView::Arrow(a) => {
            assert(covered_arrow(used, id, stub_arrow(n, ident, a)));
        },
    }
}

proof fn cover_finish_function(
    used: Seq<NameView>,
    id: IdView,
    base: State,
    s: State,
    span: Span,
    ident: IdentView,
    f: FunctionView,
)
    requires
        !reserved(id),
        f.is_async && !s.in_action_file ==> ident.id() != id,
        collects_names(s),
        base.action_idents.len() <= s.action_start,
        recorded(used, base.action_idents, s.action_idents),
        covered_function(used, id, f),
    ensures
        inside(used, id, s, finish_function(s, span, ident, f).0),
        covered_function(used, id, finish_function(s, span, ident, f).1),
{
    reveal(finish_function);
    captures_recorded(used, base, s);
    if f.is_async && !s.in_action_file {
        cover_add_action(used, id, s, ident, CallableView::Function(f));
    }
}

proof fn cover_finish_expr(
    used: Seq<NameView>,
    id: IdView,
    base: State,
    s: State,
    e: ExprView,
)
    requires
        !reserved(id),
        collects_names(s),
        recorded(used, base.action_idents, s.action_idents),
        e is Arrow && is_arrow_action(s, e) && !s.in_action_file ==> base.action_idents.len()
            <= s.action_start,
        covered_expr(used, id, e),
    ensures
        inside(used, id, s, finish_expr(s, e).0),
        covered_expr(used, id, finish_expr(s, e).1),
{
    reveal(finish_expr);
    if let ExprView::Arrow(a) = e {
        if !s.in_action_file && is_action(s, arrow_block(a)) {
            reveal(finish_arrow);
            let ident = action_ident(s.ident_cnt);
            let s1 = take_ident(s);
            let c = CallableView::Arrow(without_directive(a));
            captures_recorded(used, base, s1);
            assert(covered_arrow(used, id, a));
            cover_add_action(used, id, s1, ident, c);
            let stub = ExprView::Arrow(add_action(s1, ident, c).1->Arrow_0);
            assert(covered_expr(used, id, stub));
            let define = ExprView::Define(ident, Box::new(stub));
            assert(covered_expr(used, id, define));
        }
    }
}

proof fn cover_expr(used: Seq<NameView>, id: IdView, s: State, e: ExprView)
    requires
        !reserved(id),
        distinct_expr(id, e),
        collects_names(s),
        recorded(used, s.action_idents, visit_expr(s, e).0.action_idents),
    ensures
        inside(used, id, s, visit_expr(s, e).0),
        covered_expr(used, id, visit_expr(s, e).1),
    decreases e, 2int,
{
    name_kept(s, e);
    if name_of(e) is Some {
        let s1 = State {
            scope: Scope { in_action_closure: false, ..s.scope },
            ..use_name(s, name_of(e)->0)
        };
        quiet_name(s1, e);
        let t = visit_expr(s, e).0;
        assert(t.action_idents == s.action_idents.push(name_of(e)->0));
        recorded_last(used, s.action_idents, name_of(e)->0);
    } else {
        visit_expr_children_extends(s, e);
        let (s1, e1) = visit_expr_children(s, e);
        finish_expr_extends(s1, e1);
        recorded_split(used, s, s1, finish_expr(s1, e1).0);
        cover_expr_children(used, id, s, e);
        assert(name_of(e1) is None) by {
            reveal(finish_expr);
            if e1 is Arrow {
            } else {
                assert(finish_expr(s1, e1).1 == e1);
            }
        }
        if let ExprView::Arrow(a) = e {
            assert(e1 == ExprView::Arrow(visit_arrow(s, a).1));
            if !s1.in_action_file && is_arrow_action(s1, e1) {
                arrow_stays_action(s, a);
            }
        }
        cover_finish_expr(used, id, s, s1, e1);
    }
}

/// The walk over a name records nothing but the name.
proof fn quiet_name(s: State, e: ExprView)
    requires
        name_of(e) is Some,
        !collects_names(s),
    ensures
        visit_expr_children(s, e).0 == s,
    decreases e,
{
    reveal(finish_expr);
    match e {
        ExprView::Member(m) => {
            quiet_name(s, *m.obj);
            assert(visit_expr(s, *m.obj).0 == s) by {
                quiet_kind(s, *m.obj);
            }
            assert(visit_expr_children(s, e).0 == visit_member(s, m).0);
        },
        ExprView::OptMember(m) => {
            quiet_name(s, *m.obj);
            assert(visit_expr(s, *m.obj).0 == s) by {
                quiet_kind(s, *m.obj);
            }
            assert(visit_expr_children(s, e).0 == visit_member(s, m).0);
        },
        _ => {},
    }
}

/// The walk over the parts of a name gives no arrow function.
proof fn quiet_kind(s: State, e: ExprView)
    requires
        name_of(e) is Some,
    ensures
        !(visit_expr_children(s, e).1 is Arrow),
{
    match e {
        ExprView::Member(m) => {
            assert(visit_expr_children(s, e).1 == ExprView::Member(visit_member(s, m).1));
        },
        ExprView::OptMember(m) => {
            assert(visit_expr_children(s, e).1 == ExprView::OptMember(visit_member(s, m).1));
        },
        _ => {},
    }
}

proof fn cover_expr_children(used: Seq<NameView>, id: IdView, s: State, e: ExprView)
    requires
        !reserved(id),
        name_of(e) is None,
        distinct_children(id, e),
        collects_names(s),
        recorded(used, s.action_idents, visit_expr_children(s, e).0.action_idents),
    ensures
        inside(used, id, s, visit_expr_children(s, e).0),
        covered_children(used, id, visit_expr_children(s, e).1),
    decreases e, 1int,
{
    match e {
        ExprView::Ident(_) => {},
        ExprView::Str(_, _) => {},
        ExprView::Member(m) => {
            cover_expr(used, id, s, *m.obj);
        },
        ExprView::OptMember(m) => {
            cover_expr(used, id, s, *m.obj);
        },
        ExprView::Fn(f) => {
            cover_fn_expr(used, id, s, f.ident, f.function);
        },
        ExprView::Arrow(a) => {
            cover_arrow(used, id, s, a);
        },
        ExprView::Call(callee, args) => {
            let s1 = visit_expr(s, *callee).0;
            let s2 = visit_exprs(s1, args).0;
            visit_expr_extends(s, *callee);
            visit_exprs_extends(s1, args);
            recorded_split(used, s, s1, s2);
            cover_expr(used, id, s, *callee);
            cover_exprs(used, id, s1, args);
        },
        ExprView::Assign(target, value) => {
            let s1 = visit_expr(s, *target).0;
            let s2 = visit_expr(s1, *value).0;
            visit_expr_extends(s, *target);
            visit_expr_extends(s1, *value);
            recorded_split(used, s, s1, s2);
            cover_expr(used, id, s, *target);
            cover_expr(used, id, s1, *value);
        },
        ExprView::Define(_, value) => {
            cover_expr(used, id, s, *value);
        },
        ExprView::Paren(inner) => {
            cover_expr(used, id, s, *inner);
        },
        ExprView::Array(elems) => {
            cover_exprs(used, id, s, elems);
        },
        ExprView::Index(obj, _) => {
            cover_expr(used, id, s, *obj);
        },
        ExprView::Other(o) => {
            cover_other(used, id, s, o);
        },
    }
}

proof fn cover_opt_expr(used: Seq<NameView>, id: IdView, s: State, e: Option<Box<ExprView>>)
    requires
        !reserved(id),
        e is Some ==> distinct_expr(id, *e->0),
        collects_names(s),
        recorded(used, s.action_idents, visit_opt_expr(s, e).0.action_idents),
    ensures
        inside(used, id, s, visit_opt_expr(s, e).0),
        visit_opt_expr(s, e).1 is Some ==> covered_expr(used, id, *visit_opt_expr(s, e).1->0),
    decreases e, 3int,
{
    if let Some(inner) = e {
        cover_expr(used, id, s, *inner);
    }
}

proof fn cover_fn_expr(
    used: Seq<NameView>,
    id: IdView,
    s: State,
    ident: Option<IdentView>,
    f: FunctionView,
)
    requires
        !reserved(id),
        other_name(id, ident),
        distinct_function(id, f),
        collects_names(s),
        recorded(used, s.action_idents, visit_fn_expr(s, ident, f).0.action_idents),
    ensures
        inside(used, id, s, visit_fn_expr(s, ident, f).0),
        covered_function(used, id, visit_fn_expr(s, ident, f).1.function),
    decreases f, 2int,
{
    visit_function_extends(s, f);
    let (s1, f1) = visit_function(s, f);
    let (s2, ident2) = name_action(s1, ident, f1);
    finish_function_extends(s2, f1.span, ident2->0, f1);
    let s3 = finish_function(s2, f1.span, ident2->0, f1).0;
    if is_action(s, f.body) {
        take_ident_grows(s1);
        grows_trans(s1, s2, s3);
        recorded_split(used, s, s1, s3);
        cover_function(used, id, s, f);
        cover_finish_function(used, id, s, s2, f1.span, ident2->0, f1);
    } else {
        cover_function(used, id, s, f);
    }
}

proof fn cover_fn_decl(used: Seq<NameView>, id: IdView, s: State, d: FnDeclView)
    requires
        !reserved(id),
        d.ident.id() != id,
        distinct_function(id, d.function),
        collects_names(s),
        recorded(used, s.action_idents, visit_fn_decl(s, d).0.action_idents),
    ensures
        inside(used, id, s, visit_fn_decl(s, d).0),
        covered_function(used, id, visit_fn_decl(s, d).1.function),
    decreases d, 0int,
{
    let f = d.function;
    visit_function_extends(s, f);
    let (s1, f1) = visit_function(s, f);
    finish_function_extends(s1, d.ident.span, d.ident, f1);
    let s2 = finish_function(s1, d.ident.span, d.ident, f1).0;
    if is_action(s, f.body) {
        recorded_split(used, s, s1, s2);
        cover_function(used, id, s, f);
        cover_finish_function(used, id, s, s1, d.ident.span, d.ident, f1);
    } else {
        cover_function(used, id, s, f);
    }
}

proof fn cover_function(used: Seq<NameView>, id: IdView, s: State, f: FunctionView)
    requires
        !reserved(id),
        distinct_function(id, f),
        collects_names(enter_function(s, is_action(s, f.body))),
        recorded(used, s.action_idents, visit_function(s, f).0.action_idents),
    ensures
        covered_stmts(used, id, s.annotations) ==> covered_stmts(
            used,
            id,
            visit_function(s, f).0.annotations,
        ),
        covered_function(used, id, visit_function(s, f).1),
    decreases f, 1int,
{
    let s0 = enter_function(s, is_action(s, f.body));
    let directive = action_directive(s, f.body);
    let s1 = visit_params(s0, f.params).0;
    let s2 = visit_decorators(s1, f.decorators).0;
    let s3 = visit_fn_body(s2, f.body, directive).0;
    visit_params_extends(s0, f.params);
    visit_decorators_extends(s1, f.decorators);
    visit_fn_body_extends(s2, f.body, directive);
    grows_trans(s0, s1, s2);
    recorded_split(used, s0, s2, s3);
    recorded_split(used, s0, s1, s2);
    cover_params(used, id, s0, f.params);
    cover_decorators(used, id, s1, f.decorators);
    cover_fn_body(used, id, s2, f.body, directive);
}

proof fn cover_fn_body(
    used: Seq<NameView>,
    id: IdView,
    s: State,
    body: Option<BlockView>,
    directive: Option<int>,
)
    requires
        !reserved(id),
        distinct_opt_block(id, body),
        collects_names(s),
        recorded(used, s.action_idents, visit_fn_body(s, body, directive).0.action_idents),
    ensures
        inside(used, id, s, visit_fn_body(s, body, directive).0),
        covered_opt_block(used, id, visit_fn_body(s, body, directive).1),
    decreases body, 0int,
{
    if let Some(b) = body {
        without_decreases(b.stmts, directive);
        without_is_part(b.stmts, directive);
        let stmts = without(b.stmts, directive);
        assert forall|i: int| 0 <= i < stmts.len() implies distinct_stmt(
            id,
            #[trigger] stmts[i],
        ) by {
            assert(b.stmts.contains(stmts[i]));
        }
        cover_stmts(used, id, s, stmts);
    }
}

proof fn cover_arrow(used: Seq<NameView>, id: IdView, s: State, a: ArrowView)
    requires
        !reserved(id),
        distinct_arrow(id, a),
        collects_names(enter_function(s, is_action(s, arrow_block(a)))),
        recorded(used, s.action_idents, visit_arrow(s, a).0.action_idents),
    ensures
        covered_stmts(used, id, s.annotations) ==> covered_stmts(
            used,
            id,
            visit_arrow(s, a).0.annotations,
        ),
        covered_arrow(used, id, visit_arrow(s, a).1),
    decreases a, 1int,
{
    let s0 = enter_function(s, is_action(s, arrow_block(a)));
    let s1 = visit_pats(s0, a.params).0;
    let s2 = visit_arrow_body(s1, a.body).0;
    visit_pats_extends(s0, a.params);
    visit_arrow_body_extends(s1, a.body);
    recorded_split(used, s0, s1, s2);
    cover_pats(used, id, s0, a.params);
    cover_arrow_body(used, id, s1, a.body);
}

proof fn cover_arrow_body(used: Seq<NameView>, id: IdView, s: State, body: ArrowBodyView)
    requires
        !reserved(id),
        match body {
            ArrowBodyView::Block(b) => distinct_block(id, b),
            ArrowBodyView::Expr(e) => distinct_expr(id, *e),
        },
        collects_names(s),
        recorded(used, s.action_idents, visit_arrow_body(s, body).0.action_idents),
    ensures
        inside(used, id, s, visit_arrow_body(s, body).0),
        match visit_arrow_body(s, body).1 {
            ArrowBodyView::Block(b) => covered_block(used, id, b),
            ArrowBodyView::Expr(e) => covered_expr(used, id, *e),
        },
    decreases body, 0int,
{
    match body {
        ArrowBodyView::Block(b) => {
            cover_stmts(used, id, s, b.stmts);
        },
        ArrowBodyView::Expr(e) => {
            cover_expr(used, id, s, *e);
        },
    }
}

proof fn cover_param(used: Seq<NameView>, id: IdView, s: State, p: ParamView)
    requires
        !reserved(id),
        distinct_param(id, p),
        collects_names(s),
        recorded(used, s.action_idents, visit_param(s, p).0.action_idents),
    ensures
        inside(used, id, s, visit_param(s, p).0),
        covered_param(used, id, visit_param(s, p).1),
    decreases p, 1int,
{
    let s1 = visit_decorators(s, p.decorators).0;
    let s2 = visit_pat(s1, p.pat).0;
    visit_decorators_extends(s, p.decorators);
    visit_pat_extends(s1, p.pat);
    recorded_split(used, s, s1, s2);
    cover_decorators(used, id, s, p.decorators);
    cover_pat(used, id, s1, p.pat);
}

proof fn cover_pat(used: Seq<NameView>, id: IdView, s: State, p: PatView)
    requires
        !reserved(id),
        distinct_pat(id, p),
        collects_names(s),
        recorded(used, s.action_idents, visit_pat(s, p).0.action_idents),
    ensures
        inside(used, id, s, visit_pat(s, p).0),
        covered_pat(used, id, visit_pat(s, p).1),
    decreases p, 1int,
{
    cover_exprs(used, id, s, p.exprs);
}

proof fn cover_decorator(used: Seq<NameView>, id: IdView, s: State, d: DecoratorView)
    requires
        !reserved(id),
        distinct_decorator(id, d),
        collects_names(s),
        recorded(used, s.action_idents, visit_decorator(s, d).0.action_idents),
    ensures
        inside(used, id, s, visit_decorator(s, d).0),
        covered_decorator(used, id, visit_decorator(s, d).1),
    decreases d, 1int,
{
    cover_expr(used, id, s, d.expr);
}

proof fn cover_stmt(used: Seq<NameView>, id: IdView, s: State, stmt: StmtView)
    requires
        !reserved(id),
        distinct_stmt(id, stmt),
        collects_names(s),
        recorded(used, s.action_idents, visit_stmt(s, stmt).0.action_idents),
    ensures
        inside(used, id, s, visit_stmt(s, stmt).0),
        covered_stmt(used, id, visit_stmt(s, stmt).1),
    decreases stmt, 2int,
{
    match stmt {
        StmtView::Expr(_, e) => {
            cover_expr(used, id, s, *e);
        },
        StmtView::Decl(d) => {
            cover_decl(used, id, s, d);
        },
        StmtView::Return(e) => {
            cover_expr(used, id, s, *e);
        },
        StmtView::Other(o) => {
            cover_other(used, id, s, o);
        },
    }
    assert(covered_stmt(used, id, visit_stmt_children(s, stmt).1));
}

proof fn cover_decl(used: Seq<NameView>, id: IdView, s: State, d: DeclView)
    requires
        !reserved(id),
        distinct_decl(id, d),
        collects_names(s),
        recorded(used, s.action_idents, visit_decl(s, d).0.action_idents),
    ensures
        inside(used, id, s, visit_decl(s, d).0),
        covered_decl(used, id, visit_decl(s, d).1),
    decreases d, 1int,
{
    match d {
        DeclView::Fn(f) => {
            cover_fn_decl(used, id, s, f);
        },
        DeclView::Var(v) => {
            cover_declarators(used, id, s, v.decls);
        },
        DeclView::Other(o) => {
            cover_other(used, id, s, o);
        },
    }
}

proof fn cover_declarator(used: Seq<NameView>, id: IdView, s: State, d: DeclaratorView)
    requires
        !reserved(id),
        distinct_declarator(id, d),
        collects_names(s),
        recorded(used, s.action_idents, visit_declarator(s, d).0.action_idents),
    ensures
        inside(used, id, s, visit_declarator(s, d).0),
        covered_declarator(used, id, visit_declarator(s, d).1),
    decreases d, 1int,
{
    let s1 = visit_pat(s, d.name).0;
    let s2 = visit_opt_expr(s1, d.init).0;
    visit_pat_extends(s, d.name);
    visit_opt_expr_extends(s1, d.init);
    recorded_split(used, s, s1, s2);
    cover_pat(used, id, s, d.name);
    cover_opt_expr(used, id, s1, d.init);
}

proof fn cover_prop(used: Seq<NameView>, id: IdView, s: State, p: PropView)
    requires
        !reserved(id),
        distinct_prop(id, p),
        collects_names(s),
        recorded(used, s.action_idents, visit_prop(s, p).0.action_idents),
    ensures
        inside(used, id, s, visit_prop(s, p).0),
        covered_prop(used, id, visit_prop(s, p).1),
    decreases p, 1int,
{
    match p {
        PropView::Shorthand(i) => {
            assert(visit_prop(s, p).0 == use_name(s, ident_name(i)));
            recorded_last(used, s.action_idents, ident_name(i));
        },
        PropView::KeyValue(_, value) => {
            cover_expr(used, id, s, *value);
        },
        PropView::Other(o) => {
            cover_other(used, id, s, o);
        },
    }
}

proof fn cover_other(used: Seq<NameView>, id: IdView, s: State, o: OtherView)
    requires
        !reserved(id),
        distinct_other(id, o),
        collects_names(s),
        recorded(used, s.action_idents, visit_other(s, o).0.action_idents),
    ensures
        inside(used, id, s, visit_other(s, o).0),
        covered_other(used, id, visit_other(s, o).1),
    decreases o, 1int,
{
    cover_nodes(used, id, s, o.kids);
}

proof fn cover_node(used: Seq<NameView>, id: IdView, s: State, n: NodeView)
    requires
        !reserved(id),
        distinct_node(id, n),
        collects_names(s),
        recorded(used, s.action_idents, visit_node(s, n).0.action_idents),
    ensures
        inside(used, id, s, visit_node(s, n).0),
        covered_node(used, id, visit_node(s, n).1),
    decreases n, 1int,
{
    match n {
        NodeView::Expr(e) => {
            cover_expr(used, id, s, e);
        },
        NodeView::Stmt(stmt) => {
            cover_stmt(used, id, s, stmt);
        },
        NodeView::Stmts(v) => {
            cover_stmts(used, id, s, v);
        },
        NodeView::Param(p) => {
            cover_param(used, id, s, p);
        },
        NodeView::Prop(p) => {
            cover_prop(used, id, s, p);
        },
        NodeView::Items(_) => {},
    }
}

proof fn cover_stmts(used: Seq<NameView>, id: IdView, s: State, v: Seq<StmtView>)
    requires
        !reserved(id),
        distinct_stmts(id, v),
        collects_names(s),
        recorded(used, s.action_idents, visit_stmts(s, v).0.action_idents),
    ensures
        inside(used, id, s, visit_stmts(s, v).0),
        covered_stmts(used, id, visit_stmts(s, v).1),
    decreases v, 5int,
{
    let s1 = State { annotations: Seq::empty(), ..s };
    visit_stmts_in_turn_extends(s1, v);
    cover_stmts_in_turn(used, id, s1, v);
}

proof fn cover_stmts_in_turn(used: Seq<NameView>, id: IdView, s: State, v: Seq<StmtView>)
    requires
        !reserved(id),
        covered_stmts(used, id, s.annotations),
        distinct_stmts(id, v),
        collects_names(s),
        recorded(used, s.action_idents, visit_stmts_in_turn(s, v).0.action_idents),
    ensures
        inside(used, id, s, visit_stmts_in_turn(s, v).0),
        covered_stmts(used, id, visit_stmts_in_turn(s, v).1),
    decreases v, 4int,
{
    if v.len() != 0 {
        let (s1, init) = visit_stmts_in_turn(s, v.drop_last());
        let t1 = State { top_level: false, ..s1 };
        let (s2, last) = visit_stmt(t1, v.last());
        visit_stmts_in_turn_extends(s, v.drop_last());
        visit_stmt_extends(t1, v.last());
        recorded_split(used, s, t1, s2);
        cover_stmts_in_turn(used, id, s, v.drop_last());
        cover_stmt(used, id, t1, v.last());
        let all = visit_stmts_in_turn(s, v).1;
        assert(all == init.push(last) + s2.annotations);
        assert forall|i: int| 0 <= i < all.len() implies covered_stmt(
            used,
            id,
            #[trigger] all[i],
        ) by {
            if i < init.len() {
                assert(all[i] == init[i]);
            } else if i > init.len() {
                assert(all[i] == s2.annotations[i - init.len() - 1]);
            }
        }
    }
}

proof fn cover_exprs(used: Seq<NameView>, id: IdView, s: State, v: Seq<ExprView>)
    requires
        !reserved(id),
        distinct_exprs(id, v),
        collects_names(s),
        recorded(used, s.action_idents, visit_exprs(s, v).0.action_idents),
    ensures
        inside(used, id, s, visit_exprs(s, v).0),
        covered_exprs(used, id, visit_exprs(s, v).1),
    decreases v, 4int,
{
    if v.len() != 0 {
        let (s1, init) = visit_exprs(s, v.drop_last());
        let (s2, last) = visit_expr(s1, v.last());
        visit_exprs_extends(s, v.drop_last());
        visit_expr_extends(s1, v.last());
        recorded_split(used, s, s1, s2);
        cover_exprs(used, id, s, v.drop_last());
        cover_expr(used, id, s1, v.last());
        let all = visit_exprs(s, v).1;
        assert(all == init.push(last));
        assert forall|i: int| 0 <= i < all.len() implies covered_expr(
            used,
            id,
            #[trigger] all[i],
        ) by {
            if i < init.len() {
                assert(all[i] == init[i]);
            }
        }
    }
}

proof fn cover_params(used: Seq<NameView>, id: IdView, s: State, v: Seq<ParamView>)
    requires
        !reserved(id),
        distinct_params(id, v),
        collects_names(s),
        recorded(used, s.action_idents, visit_params(s, v).0.action_idents),
    ensures
        inside(used, id, s, visit_params(s, v).0),
        covered_params(used, id, visit_params(s, v).1),
    decreases v, 4int,
{
    if v.len() != 0 {
        let (s1, init) = visit_params(s, v.drop_last());
        let (s2, last) = visit_param(s1, v.last());
        visit_params_extends(s, v.drop_last());
        visit_param_extends(s1, v.last());
        recorded_split(used, s, s1, s2);
        cover_params(used, id, s, v.drop_last());
        cover_param(used, id, s1, v.last());
        let all = visit_params(s, v).1;
        assert(all == init.push(last));
        assert forall|i: int| 0 <= i < all.len() implies covered_param(
            used,
            id,
            #[trigger] all[i],
        ) by {
            if i < init.len() {
                assert(all[i] == init[i]);
            }
        }
    }
}

proof fn cover_decorators(used: Seq<NameView>, id: IdView, s: State, v: Seq<DecoratorView>)
    requires
        !reserved(id),
        distinct_decorators(id, v),
        collects_names(s),
        recorded(used, s.action_idents, visit_decorators(s, v).0.action_idents),
    ensures
        inside(used, id, s, visit_decorators(s, v).0),
        covered_decorators(used, id, visit_decorators(s, v).1),
    decreases v, 4int,
{
    if v.len() != 0 {
        let (s1, init) = visit_decorators(s, v.drop_last());
        let (s2, last) = visit_decorator(s1, v.last());
        visit_decorators_extends(s, v.drop_last());
        visit_decorator_extends(s1, v.last());
        recorded_split(used, s, s1, s2);
        cover_decorators(used, id, s, v.drop_last());
        cover_decorator(used, id, s1, v.last());
        let all = visit_decorators(s, v).1;
        assert(all == init.push(last));
        assert forall|i: int| 0 <= i < all.len() implies covered_decorator(
            used,
            id,
            #[trigger] all[i],
        ) by {
            if i < init.len() {
                assert(all[i] == init[i]);
            }
        }
    }
}

proof fn cover_pats(used: Seq<NameView>, id: IdView, s: State, v: Seq<PatView>)
    requires
        !reserved(id),
        distinct_pats(id, v),
        collects_names(s),
        recorded(used, s.action_idents, visit_pats(s, v).0.action_idents),
    ensures
        inside(used, id, s, visit_pats(s, v).0),
        covered_pats(used, id, visit_pats(s, v).1),
    decreases v, 4int,
{
    if v.len() != 0 {
        let (s1, init) = visit_pats(s, v.drop_last());
        let (s2, last) = visit_pat(s1, v.last());
        visit_pats_extends(s, v.drop_last());
        visit_pat_extends(s1, v.last());
        recorded_split(used, s, s1, s2);
        cover_pats(used, id, s, v.drop_last());
        cover_pat(used, id, s1, v.last());
        let all = visit_pats(s, v).1;
        assert(all == init.push(last));
        assert forall|i: int| 0 <= i < all.len() implies covered_pat(
            used,
            id,
            #[trigger] all[i],
        ) by {
            if i < init.len() {
                assert(all[i] == init[i]);
            }
        }
    }
}

proof fn cover_declarators(used: Seq<NameView>, id: IdView, s: State, v: Seq<DeclaratorView>)
    requires
        !reserved(id),
        distinct_declarators(id, v),
        collects_names(s),
        recorded(used, s.action_idents, visit_declarators(s, v).0.action_idents),
    ensures
        inside(used, id, s, visit_declarators(s, v).0),
        covered_declarators(used, id, visit_declarators(s, v).1),
    decreases v, 4int,
{
    if v.len() != 0 {
        let (s1, init) = visit_declarators(s, v.drop_last());
        let (s2, last) = visit_declarator(s1, v.last());
        visit_declarators_extends(s, v.drop_last());
        visit_declarator_extends(s1, v.last());
        recorded_split(used, s, s1, s2);
        cover_declarators(used, id, s, v.drop_last());
        cover_declarator(used, id, s1, v.last());
        let all = visit_declarators(s, v).1;
        assert(all == init.push(last));
        assert forall|i: int| 0 <= i < all.len() implies covered_declarator(
            used,
            id,
            #[trigger] all[i],
        ) by {
            if i < init.len() {
                assert(all[i] == init[i]);
            }
        }
    }
}

proof fn cover_nodes(used: Seq<NameView>, id: IdView, s: State, v: Seq<NodeView>)
    requires
        !reserved(id),
        distinct_nodes(id, v),
        collects_names(s),
        recorded(used, s.action_idents, visit_nodes(s, v).0.action_idents),
    ensures
        inside(used, id, s, visit_nodes(s, v).0),
        covered_nodes(used, id, visit_nodes(s, v).1),
    decreases v, 4int,
{
    if v.len() != 0 {
        let (s1, init) = visit_nodes(s, v.drop_last());
        let (s2, last) = visit_node(s1, v.last());
        visit_nodes_extends(s, v.drop_last());
        visit_node_extends(s1, v.last());
        recorded_split(used, s, s1, s2);
        cover_nodes(used, id, s, v.drop_last());
        cover_node(used, id, s1, v.last());
        let all = visit_nodes(s, v).1;
        assert(all == init.push(last));
        assert forall|i: int| 0 <= i < all.len() implies covered_node(
            used,
            id,
            #[trigger] all[i],
        ) by {
            if i < init.len() {
                assert(all[i] == init[i]);
            }
        }
    }
}

/// An arrow function that is an action after the walk was one before.
proof fn arrow_stays_action(s: State, a: ArrowView)
    requires
        !visit_arrow(s, a).0.in_action_file,
        is_action(visit_arrow(s, a).0, arrow_block(visit_arrow(s, a).1)),
    ensures
        is_action(s, arrow_block(a)),
{
    let s0 = enter_function(s, is_action(s, arrow_block(a)));
    let s1 = visit_pats(s0, a.params).0;
    if let ArrowBodyView::Block(b) = a.body {
        assert(visit_arrow(s, a).1.body == visit_arrow_body(s1, a.body).1);
        prologue_kept(s1, b.stmts);
        same_prologue_same_directive(
            directive_texts(b.stmts),
            directive_texts(visit_stmts(s1, b.stmts).1),
        );
    }
}

// ---- Replacing what is covered ----

/// What is replaced holds all the given names with the given root.
pub open spec fn replaces(r: Replacement, used: Seq<NameView>, id: IdView) -> bool {
    &&& r.closure_arg.id() != id
    &&& forall|n: NameView| #[trigger] used.contains(n) && n.id == id ==> r.used_ids.contains(n)
}

proof fn free_closure(r: Replacement, used: Seq<NameView>, id: IdView, i: int)
    requires
        replaces(r, used, id),
    ensures
        free_expr(alone(id), r.element(i)),
{
    let inner = ExprView::Ident(r.closure_arg);
    assert(name_of(inner) == Some(ident_name(r.closure_arg)));
    assert(free_expr(alone(id), inner));
}

proof fn alone_has_one(id: IdView, n: NameView)
    ensures
        alone(id).contains(n) <==> n == (NameView { id, props: Seq::empty() }),
{
    assert(alone(id)[0] == (NameView { id, props: Seq::empty() }));
}

/// A name that is replaced, or whose part is replaced, is gone.
proof fn vanish_name(r: Replacement, used: Seq<NameView>, id: IdView, e: ExprView)
    requires
        replaces(r, used, id),
        name_of(e) is Some,
    ensures
        ({
            let n = name_of(e)->0;
            let e1 = r.expr(e);
            ||| name_of(e1) == Some(n) && !r.used_ids.contains(n) && (n.id != id ==> free_expr(
                alone(id),
                e1,
            ))
            ||| name_of(e1) is None && free_expr(alone(id), e1)
        }),
    decreases e,
{
    let n = name_of(e)->0;
    let c = r.expr_children(e);
    alone_has_one(id, n);
    match e {
        ExprView::Member(m) => {
            vanish_name(r, used, id, *m.obj);
            assert(c == ExprView::Member(MemberView { obj: Box::new(r.expr(*m.obj)), ..m }));
        },
        ExprView::OptMember(m) => {
            vanish_name(r, used, id, *m.obj);
            assert(c == ExprView::OptMember(MemberView { obj: Box::new(r.expr(*m.obj)), ..m }));
        },
        _ => {
            assert(c == e);
        },
    }
    match r.index(c) {
        Some(i) => {
            free_closure(r, used, id, i);
            assert(name_of(r.element(i)) is None);
        },
        None => {
            if let Some(k) = name_of(c) {
                if r.used_ids.contains(k) {
                    let i = choose|i: int| 0 <= i < r.used_ids.len() && r.used_ids[i] == k;
                    position_found(r.used_ids, k, i);
                }
            }
        },
    }
}

/// What spells no name spells none after the replacement.
proof fn still_no_name(r: Replacement, e: ExprView)
    requires
        name_of(e) is None,
    ensures
        name_of(r.expr_children(e)) is None,
        r.expr(e) == r.expr_children(e),
    decreases e,
{
    match e {
        ExprView::Member(m) => {
            still_no_name(r, *m.obj);
            assert(r.expr_children(e) == ExprView::Member(
                MemberView { obj: Box::new(r.expr(*m.obj)), ..m },
            ));
        },
        ExprView::OptMember(m) => {
            still_no_name(r, *m.obj);
            assert(r.expr_children(e) == ExprView::OptMember(
                MemberView { obj: Box::new(r.expr(*m.obj)), ..m },
            ));
        },
        _ => {},
    }
}

proof fn vanish_expr(r: Replacement, used: Seq<NameView>, id: IdView, e: ExprView)
    requires
        replaces(r, used, id),
        covered_expr(used, id, e),
    ensures
        free_expr(alone(id), r.expr(e)),
    decreases e, 1int,
{
    if name_of(e) is Some {
        vanish_name(r, used, id, e);
    } else {
        still_no_name(r, e);
        vanish_children(r, used, id, e);
    }
}

proof fn vanish_children(r: Replacement, used: Seq<NameView>, id: IdView, e: ExprView)
    requires
        replaces(r, used, id),
        name_of(e) is None,
        covered_children(used, id, e),
    ensures
        free_children(alone(id), r.expr_children(e)),
    decreases e, 0int,
{
    match e {
        ExprView::Ident(_) => {},
        ExprView::Str(_, _) => {},
        ExprView::Member(m) => {
            vanish_expr(r, used, id, *m.obj);
        },
        ExprView::OptMember(m) => {
            vanish_expr(r, used, id, *m.obj);
        },
        ExprView::Fn(f) => {
            vanish_function(r, used, id, f.function);
        },
        ExprView::Arrow(a) => {
            vanish_arrow(r, used, id, a);
        },
        ExprView::Call(callee, args) => {
            vanish_expr(r, used, id, *callee);
            vanish_exprs(r, used, id, args);
        },
        ExprView::Assign(target, value) => {
            vanish_expr(r, used, id, *target);
            vanish_expr(r, used, id, *value);
        },
        ExprView::Define(_, value) => {
            vanish_expr(r, used, id, *value);
        },
        ExprView::Paren(inner) => {
            vanish_expr(r, used, id, *inner);
        },
        ExprView::Array(elems) => {
            vanish_exprs(r, used, id, elems);
        },
        ExprView::Index(obj, _) => {
            vanish_expr(r, used, id, *obj);
        },
        ExprView::Other(o) => {
            vanish_other(r, used, id, o);
        },
    }
}

proof fn vanish_function(r: Replacement, used: Seq<NameView>, id: IdView, f: FunctionView)
    requires
        replaces(r, used, id),
        covered_function(used, id, f),
    ensures
        free_function(alone(id), r.function(f)),
    decreases f, 1int,
{
    vanish_params(r, used, id, f.params);
    vanish_decorators(r, used, id, f.decorators);
    if let Some(b) = f.body {
        vanish_block(r, used, id, b);
    }
}

proof fn vanish_block(r: Replacement, used: Seq<NameView>, id: IdView, b: BlockView)
    requires
        replaces(r, used, id),
        covered_block(used, id, b),
    ensures
        free_block(alone(id), r.block(b)),
    decreases b, 1int,
{
    vanish_stmts(r, used, id, b.stmts);
}

proof fn vanish_arrow(r: Replacement, used: Seq<NameView>, id: IdView, a: ArrowView)
    requires
        replaces(r, used, id),
        covered_arrow(used, id, a),
    ensures
        free_arrow(alone(id), r.arrow(a)),
    decreases a, 1int,
{
    vanish_pats(r, used, id, a.params);
    match a.body {
        ArrowBodyView::Block(b) => {
            vanish_block(r, used, id, b);
        },
        ArrowBodyView::Expr(e) => {
            vanish_expr(r, used, id, *e);
        },
    }
}

proof fn vanish_param(r: Replacement, used: Seq<NameView>, id: IdView, p: ParamView)
    requires
        replaces(r, used, id),
        covered_param(used, id, p),
    ensures
        free_param(alone(id), r.param(p)),
    decreases p, 1int,
{
    vanish_decorators(r, used, id, p.decorators);
    vanish_pat(r, used, id, p.pat);
}

proof fn vanish_pat(r: Replacement, used: Seq<NameView>, id: IdView, p: PatView)
    requires
        replaces(r, used, id),
        covered_pat(used, id, p),
    ensures
        free_pat(alone(id), r.pat(p)),
    decreases p, 1int,
{
    vanish_exprs(r, used, id, p.exprs);
}

proof fn vanish_decorator(r: Replacement, used: Seq<NameView>, id: IdView, d: DecoratorView)
    requires
        replaces(r, used, id),
        covered_decorator(used, id, d),
    ensures
        free_decorator(alone(id), r.decorator(d)),
    decreases d, 1int,
{
    vanish_expr(r, used, id, d.expr);
}

proof fn vanish_stmt(r: Replacement, used: Seq<NameView>, id: IdView, s: StmtView)
    requires
        replaces(r, used, id),
        covered_stmt(used, id, s),
    ensures
        free_stmt(alone(id), r.stmt(s)),
    decreases s, 1int,
{
    match s {
        StmtView::Expr(_, e) => {
            vanish_expr(r, used, id, *e);
        },
        StmtView::Decl(d) => {
            vanish_decl(r, used, id, d);
        },
        StmtView::Return(e) => {
            vanish_expr(r, used, id, *e);
        },
        StmtView::Other(o) => {
            vanish_other(r, used, id, o);
        },
    }
}

proof fn vanish_decl(r: Replacement, used: Seq<NameView>, id: IdView, d: DeclView)
    requires
        replaces(r, used, id),
        covered_decl(used, id, d),
    ensures
        free_decl(alone(id), r.decl(d)),
    decreases d, 1int,
{
    match d {
        DeclView::Fn(f) => {
            vanish_function(r, used, id, f.function);
        },
        DeclView::Var(v) => {
            vanish_declarators(r, used, id, v.decls);
        },
        DeclView::Other(o) => {
            vanish_other(r, used, id, o);
        },
    }
}

proof fn vanish_declarator(r: Replacement, used: Seq<NameView>, id: IdView, d: DeclaratorView)
    requires
        replaces(r, used, id),
        covered_declarator(used, id, d),
    ensures
        free_declarator(alone(id), r.declarator(d)),
    decreases d, 1int,
{
    vanish_pat(r, used, id, d.name);
    if let Some(e) = d.init {
        vanish_expr(r, used, id, *e);
    }
}

proof fn vanish_prop(r: Replacement, used: Seq<NameView>, id: IdView, p: PropView)
    requires
        replaces(r, used, id),
        covered_prop(used, id, p),
    ensures
        free_prop(alone(id), r.prop(p)),
    decreases p, 1int,
{
    match p {
        PropView::Shorthand(i) => {
            alone_has_one(id, ident_name(i));
            match r.index_of_id(i) {
                Some(k) => {
                    free_closure(r, used, id, k);
                },
                None => {
                    position_none(r.used_ids, ident_name(i));
                },
            }
        },
        PropView::KeyValue(_, value) => {
            vanish_expr(r, used, id, *value);
        },
        PropView::Other(o) => {
            vanish_other(r, used, id, o);
        },
    }
}

proof fn vanish_other(r: Replacement, used: Seq<NameView>, id: IdView, o: OtherView)
    requires
        replaces(r, used, id),
        covered_other(used, id, o),
    ensures
        free_other(alone(id), r.other(o)),
    decreases o, 1int,
{
    vanish_nodes(r, used, id, o.kids);
}

proof fn vanish_node(r: Replacement, used: Seq<NameView>, id: IdView, n: NodeView)
    requires
        replaces(r, used, id),
        covered_node(used, id, n),
    ensures
        free_node(alone(id), r.node(n)),
    decreases n, 1int,
{
    match n {
        NodeView::Expr(e) => {
            vanish_expr(r, used, id, e);
        },
        NodeView::Stmt(s) => {
            vanish_stmt(r, used, id, s);
        },
        NodeView::Stmts(v) => {
            vanish_stmts(r, used, id, v);
        },
        NodeView::Param(p) => {
            vanish_param(r, used, id, p);
        },
        NodeView::Prop(p) => {
            vanish_prop(r, used, id, p);
        },
        NodeView::Items(_) => {},
    }
}

proof fn vanish_exprs(r: Replacement, used: Seq<NameView>, id: IdView, v: Seq<ExprView>)
    requires
        replaces(r, used, id),
        covered_exprs(used, id, v),
    ensures
        free_exprs(alone(id), r.exprs(v)),
    decreases v, 3int,
{
    let w = r.exprs(v);
    assert forall|i: int| 0 <= i < w.len() implies free_expr(alone(id), #[trigger] w[i]) by {
        vanish_expr(r, used, id, v[i]);
        assert(w[i] == r.expr(v[i]));
    }
}

proof fn vanish_params(r: Replacement, used: Seq<NameView>, id: IdView, v: Seq<ParamView>)
    requires
        replaces(r, used, id),
        covered_params(used, id, v),
    ensures
        free_params(alone(id), r.params(v)),
    decreases v, 3int,
{
    let w = r.params(v);
    assert forall|i: int| 0 <= i < w.len() implies free_param(alone(id), #[trigger] w[i]) by {
        vanish_param(r, used, id, v[i]);
        assert(w[i] == r.param(v[i]));
    }
}

proof fn vanish_decorators(r: Replacement, used: Seq<NameView>, id: IdView, v: Seq<DecoratorView>)
    requires
        replaces(r, used, id),
        covered_decorators(used, id, v),
    ensures
        free_decorators(alone(id), r.decorators(v)),
    decreases v, 3int,
{
    let w = r.decorators(v);
    assert forall|i: int| 0 <= i < w.len() implies free_decorator(alone(id), #[trigger] w[i]) by {
        vanish_decorator(r, used, id, v[i]);
        assert(w[i] == r.decorator(v[i]));
    }
}

proof fn vanish_pats(r: Replacement, used: Seq<NameView>, id: IdView, v: Seq<PatView>)
    requires
        replaces(r, used, id),
        covered_pats(used, id, v),
    ensures
        free_pats(alone(id), r.pats(v)),
    decreases v, 3int,
{
    let w = r.pats(v);
    assert forall|i: int| 0 <= i < w.len() implies free_pat(alone(id), #[trigger] w[i]) by {
        vanish_pat(r, used, id, v[i]);
        assert(w[i] == r.pat(v[i]));
    }
}

proof fn vanish_declarators(r: Replacement, used: Seq<NameView>, id: IdView, v: Seq<DeclaratorView>)
    requires
        replaces(r, used, id),
        covered_declarators(used, id, v),
    ensures
        free_declarators(alone(id), r.declarators(v)),
    decreases v, 3int,
{
    let w = r.declarators(v);
    assert forall|i: int| 0 <= i < w.len() implies free_declarator(alone(id), #[trigger] w[i]) by {
        vanish_declarator(r, used, id, v[i]);
        assert(w[i] == r.declarator(v[i]));
    }
}

proof fn vanish_nodes(r: Replacement, used: Seq<NameView>, id: IdView, v: Seq<NodeView>)
    requires
        replaces(r, used, id),
        covered_nodes(used, id, v),
    ensures
        free_nodes(alone(id), r.nodes(v)),
    decreases v, 3int,
{
    let w = r.nodes(v);
    assert forall|i: int| 0 <= i < w.len() implies free_node(alone(id), #[trigger] w[i]) by {
        vanish_node(r, used, id, v[i]);
        assert(w[i] == r.node(v[i]));
    }
}

proof fn vanish_stmts(r: Replacement, used: Seq<NameView>, id: IdView, v: Seq<StmtView>)
    requires
        replaces(r, used, id),
        covered_stmts(used, id, v),
    ensures
        free_stmts(alone(id), r.stmts(v)),
    decreases v, 3int,
{
    let w = r.stmts(v);
    assert forall|i: int| 0 <= i < w.len() implies free_stmt(alone(id), #[trigger] w[i]) by {
        vanish_stmt(r, used, id, v[i]);
        assert(w[i] == r.stmt(v[i]));
    }
}

// ---- What is hoisted ----

/// What an action function captures: the names that are met in the walk over
/// it, as far as they are bound around it.
pub proof fn function_captures_own_names(s: State, f: FunctionView)
    requires
        is_action(s, f.body),
    ensures
        ({
            let t = visit_function(s, f).0;
            &&& prefix(s.action_idents, t.action_idents)
            &&& captures(t) == captured(
                t.action_idents.skip(s.action_idents.len() as int),
                bound_around(s),
            )
        }),
{
    visit_function_extends(s, f);
    reveal(prefix);
}

/// What an arrow function that is an action captures: the names that are met in
/// the walk over it, as far as they are bound around it.
pub proof fn arrow_captures_own_names(s: State, a: ArrowView)
    requires
        is_action(s, arrow_block(a)),
    ensures
        ({
            let t = visit_arrow(s, a).0;
            &&& prefix(s.action_idents, t.action_idents)
            &&& captures(t) == captured(
                t.action_idents.skip(s.action_idents.len() as int),
                bound_around(s),
            )
        }),
{
    visit_arrow_extends(s, a);
    reveal(prefix);
}

/// The `$$bound` of an action that is declared inside of a function spells the
/// names that are met in the walk over it, as far as they are bound around it.
pub proof fn declaration_binds_own_names(s: State, d: FnDeclView)
    requires
        is_action(s, d.function.body),
        d.function.is_async,
        !visit_function(s, d.function).0.in_action_file,
        !visit_function(s, d.function).0.top_level,
    ensures
        ({
            let s1 = visit_function(s, d.function).0;
            visit_fn_decl(s, d).0.annotations == s1.annotations + action_annotations(
                d.ident,
                exprs_of(
                    captured(
                        s1.action_idents.skip(s.action_idents.len() as int),
                        bound_around(s),
                    ),
                ),
                s1.file_name,
                export_name(s1),
            )
        }),
{
    function_captures_own_names(s, d.function);
    reveal(finish_function);
    reveal(add_action);
}

proof fn all_are_captured(id: IdView, t: State, n: nat)
    requires
        !reserved(id),
        bound_around(t).contains(id),
    ensures
        replaces(replacement(n, captures(t)), used_names(t), id),
{
    captured_exactly(used_names(t), bound_around(t));
}

/// The `$$bound` of an action that is a function expression inside of a function
/// spells the names that are met in the walk over it, as far as they are bound
/// around it.
pub proof fn expression_binds_own_names(s: State, i: IdentView, f: FunctionView)
    requires
        is_action(s, f.body),
        f.is_async,
        !visit_function(s, f).0.in_action_file,
        !visit_function(s, f).0.top_level,
    ensures
        ({
            let s1 = visit_function(s, f).0;
            visit_fn_expr(s, Some(i), f).0.annotations == s1.annotations + action_annotations(
                i,
                exprs_of(
                    captured(
                        s1.action_idents.skip(s.action_idents.len() as int),
                        bound_around(s),
                    ),
                ),
                s1.file_name,
                export_name(s1),
            )
        }),
{
    function_captures_own_names(s, f);
    reveal(finish_function);
    reveal(add_action);
}

/// A function that is hoisted mentions nothing that is bound around it: no
/// expression and no shorthand property in its body is such an identifier. Left
/// out are identifiers that the pass writes itself, and actions in which a
/// function has the identifier as its name or in which there is a namespace.
pub proof fn hoisted_function_is_closed(s: State, f: FunctionView, id: IdView, n: nat)
    requires
        is_action(s, f.body),
        bound_around(s).contains(id),
        !reserved(id),
        distinct_function(id, f),
    ensures
        ({
            let (t, f1) = visit_function(s, f);
            hoisted_function(n, captures(t), f1).body matches Some(b) ==> free_block(alone(id), b)
        }),
{
    let (t, f1) = visit_function(s, f);
    visit_function_extends(s, f);
    let used = used_names(t);
    assert(recorded(used, s.action_idents, t.action_idents)) by {
        reveal(prefix);
        reveal(recorded);
        assert forall|i: int| s.action_idents.len() <= i < t.action_idents.len() implies
            used.contains(#[trigger] t.action_idents[i]) by {
            assert(used[i - s.action_idents.len()] == t.action_idents[i]);
        }
    }
    cover_function(used, id, s, f);
    all_are_captured(id, t, n);
    if let Some(b) = f1.body {
        vanish_block(replacement(n, captures(t)), used, id, b);
    }
}

/// An arrow function that is hoisted mentions nothing that is bound around it,
/// with the same exceptions.
pub proof fn hoisted_arrow_is_closed(s: State, a: ArrowView, id: IdView, n: nat)
    requires
        is_action(s, arrow_block(a)),
        bound_around(s).contains(id),
        !reserved(id),
        distinct_arrow(id, a),
    ensures
        ({
            let (t, a1) = visit_arrow(s, a);
            hoisted_arrow(n, captures(t), without_directive(a1)).body matches ArrowBodyView::Block(
                b,
            ) ==> free_block(alone(id), b)
        }),
{
    let (t, a1) = visit_arrow(s, a);
    visit_arrow_extends(s, a);
    let used = used_names(t);
    assert(recorded(used, s.action_idents, t.action_idents)) by {
        reveal(prefix);
        reveal(recorded);
        assert forall|i: int| s.action_idents.len() <= i < t.action_idents.len() implies
            used.contains(#[trigger] t.action_idents[i]) by {
            assert(used[i - s.action_idents.len()] == t.action_idents[i]);
        }
    }
    cover_arrow(used, id, s, a);
    all_are_captured(id, t, n);
    if let ArrowBodyView::Block(b) = a1.body {
        let index = fn_directive(b.stmts);
        let stmts = without(b.stmts, index);
        without_is_part(b.stmts, index);
        assert forall|i: int| 0 <= i < stmts.len() implies covered_stmt(
            used,
            id,
            #[trigger] stmts[i],
        ) by {
            assert(b.stmts.contains(stmts[i]));
        }
        vanish_block(replacement(n, captures(t)), used, id, BlockView { stmts, ..b });
    }
}

} // verus!
