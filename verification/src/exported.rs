//! Every action is exported.

use vstd::prelude::*;

use crate::annotate::name_declaration;
use crate::directive::module_directive;
use crate::frame::{visit_items_in_turn_extends, visit_top_item_extends};
use crate::mentioned::without_is_part;
use crate::model::{
    ArrowBodyView, ArrowView, BlockView, DeclView, DeclaratorView, DecoratorView, DefaultDeclView,
    ExprView, FnDeclView, FunctionView, IdentView, ModuleItemView, ModuleView, NodeView, OtherView,
    ParamView, PatFormView, PatView, PropView, StmtView,
};
use crate::names::name_of;
use crate::plain::{keep_item, plain_item};
use crate::state::{action_ident, initial_state, CommentView, Config, Scope, State};
use crate::transform::{
    action_directive, add_action, arrow_block, as_items, collects_names, default_name,
    default_scope, enter_function, enter_items, entry_comment, export_name, export_scope,
    finish_arrow, finish_expr, finish_function, is_action, leave_items, note_exports,
    plain_action_ident, take_ident, use_name, visit_arrow, visit_arrow_body, visit_decl,
    visit_declarator, visit_declarators, visit_decorator, visit_decorators, visit_default_decl,
    visit_default_expr, visit_default_fn, visit_export_decl, visit_exported_item, visit_expr,
    visit_expr_children, visit_exprs, visit_fn_body, visit_fn_decl, visit_fn_expr, visit_function,
    visit_item, visit_items, visit_items_in_turn, visit_member, visit_module, visit_node,
    visit_nodes, visit_other, visit_param, visit_params, visit_pat, visit_pats, visit_prop,
    visit_stmt, visit_stmt_children, visit_stmts, visit_stmts_in_turn, visit_top_item, without,
    without_decreases, without_directive, CallableView,
};
use crate::unhoisted::still_top_item;

verus! {

// ---- The exports that the pass makes ----

/// The identifier of an item that exports an action.
pub open spec fn action_export(item: ModuleItemView) -> Option<IdentView> {
    match item {
        ModuleItemView::ExportDecl(_, DeclView::Fn(f)) => if f.ident.span.ctxt is Action {
            Some(f.ident)
        } else {
            None
        },
        ModuleItemView::ExportDecl(_, DeclView::Var(v)) => if v.decls.len() == 1 {
            match v.decls[0].name.form {
                PatFormView::Ident(i) => if i.span.ctxt is Action {
                    Some(i)
                } else {
                    None
                },
                _ => None,
            }
        } else {
            None
        },
        _ => None,
    }
}

/// The identifiers of the items that export actions, in their order.
pub open spec fn action_exports(items: Seq<ModuleItemView>) -> Seq<IdentView>
    decreases items.len(),
{
    if items.len() == 0 {
        Seq::empty()
    } else {
        let init = action_exports(items.drop_last());
        match action_export(items.last()) {
            Some(i) => init.push(i),
            None => init,
        }
    }
}

/// An action is exported under its own name or as `default`.
pub open spec fn exported_as(name: Seq<char>, ident: IdentView) -> bool {
    name == ident.sym || name == "default"@
}

/// The actions exported since then: one identifier for one name.
#[verifier::opaque]
pub open spec fn paired(
    names: Seq<Seq<char>>,
    idents: Seq<IdentView>,
    names1: Seq<Seq<char>>,
    idents1: Seq<IdentView>,
) -> bool {
    &&& names.len() <= names1.len()
    &&& idents.len() <= idents1.len()
    &&& names1.len() - names.len() == idents1.len() - idents.len()
    &&& idents1.take(idents.len() as int) == idents
    &&& forall|i: int|
        names.len() <= i < names1.len() ==> exported_as(
            #[trigger] names1[i],
            idents1[i - names.len() + idents.len()],
        )
    &&& names1.take(names.len() as int) == names
}

/// What was exported between two states stands among the pending items.
pub open spec fn pending(s: State, t: State) -> bool {
    paired(
        s.export_actions,
        action_exports(s.extra_items),
        t.export_actions,
        action_exports(t.extra_items),
    )
}

proof fn paired_refl(names: Seq<Seq<char>>, idents: Seq<IdentView>)
    ensures
        paired(names, idents, names, idents),
{
    reveal(paired);
    assert(names.take(names.len() as int) =~= names);
    assert(idents.take(idents.len() as int) =~= idents);
}

proof fn paired_push(
    names: Seq<Seq<char>>,
    idents: Seq<IdentView>,
    name: Seq<char>,
    ident: IdentView,
)
    requires
        exported_as(name, ident),
    ensures
        paired(names, idents, names.push(name), idents.push(ident)),
{
    reveal(paired);
    assert(names.push(name).take(names.len() as int) =~= names);
    assert(idents.push(ident).take(idents.len() as int) =~= idents);
}

proof fn paired_trans(
    n0: Seq<Seq<char>>,
    i0: Seq<IdentView>,
    n1: Seq<Seq<char>>,
    i1: Seq<IdentView>,
    n2: Seq<Seq<char>>,
    i2: Seq<IdentView>,
)
    requires
        paired(n0, i0, n1, i1),
        paired(n1, i1, n2, i2),
    ensures
        paired(n0, i0, n2, i2),
{
    reveal(paired);
    assert forall|i: int| n0.len() <= i < n2.len() implies exported_as(
        #[trigger] n2[i],
        i2[i - n0.len() + i0.len()],
    ) by {
        if i < n1.len() {
            let k = i - n0.len() + i0.len();
            assert(n2.take(n1.len() as int)[i] == n2[i]);
            assert(i2.take(i1.len() as int)[k] == i2[k]);
            assert(exported_as(n1[i], i1[k]));
        }
    }
    assert(i2.take(i0.len() as int) =~= i2.take(i1.len() as int).take(i0.len() as int));
    assert(n2.take(n0.len() as int) =~= n2.take(n1.len() as int).take(n0.len() as int));
}

proof fn pending_trans(a: State, b: State, c: State)
    requires
        pending(a, b),
        pending(b, c),
    ensures
        pending(a, c),
{
    paired_trans(
        a.export_actions,
        action_exports(a.extra_items),
        b.export_actions,
        action_exports(b.extra_items),
        c.export_actions,
        action_exports(c.extra_items),
    );
}

proof fn pending_same(s: State, t: State)
    requires
        t.export_actions == s.export_actions,
        action_exports(t.extra_items) == action_exports(s.extra_items),
    ensures
        pending(s, t),
{
    paired_refl(s.export_actions, action_exports(s.extra_items));
}

pub proof fn action_exports_push(items: Seq<ModuleItemView>, item: ModuleItemView)
    ensures
        action_exports(items.push(item)) == match action_export(item) {
            Some(i) => action_exports(items).push(i),
            None => action_exports(items),
        },
{
    assert(items.push(item).drop_last() =~= items);
}

proof fn action_exports_add(a: Seq<ModuleItemView>, b: Seq<ModuleItemView>)
    ensures
        action_exports(a + b) == action_exports(a) + action_exports(b),
    decreases b.len(),
{
    if b.len() == 0 {
        assert(a + b =~= a);
        assert(action_exports(a) + action_exports(b) =~= action_exports(a));
    } else {
        assert((a + b).drop_last() =~= a + b.drop_last());
        action_exports_add(a, b.drop_last());
        if let Some(i) = action_export(b.last()) {
            assert(action_exports(a) + action_exports(b.drop_last()).push(i) =~= (action_exports(a)
                + action_exports(b.drop_last())).push(i));
        }
    }
}

proof fn action_exports_of_stmts(stmts: Seq<StmtView>)
    ensures
        action_exports(as_items(stmts)) == Seq::<IdentView>::empty(),
    decreases stmts.len(),
{
    if stmts.len() != 0 {
        action_exports_of_stmts(stmts.drop_last());
        assert(as_items(stmts).drop_last() =~= as_items(stmts.drop_last()));
    }
}

// ---- Trees without namespaces ----

pub open spec fn flat_expr(e: ExprView) -> bool
    decreases e, 1int,
{
    match e {
        ExprView::Ident(_) => true,
        ExprView::Str(_, _) => true,
        ExprView::Member(m) => flat_expr(*m.obj),
        ExprView::OptMember(m) => flat_expr(*m.obj),
        ExprView::Fn(f) => flat_function(f.function),
        ExprView::Arrow(a) => flat_arrow(a),
        ExprView::Call(callee, args) => flat_expr(*callee) && flat_exprs(args),
        ExprView::Assign(target, value) => flat_expr(*target) && flat_expr(*value),
        ExprView::Define(_, value) => flat_expr(*value),
        ExprView::Paren(inner) => flat_expr(*inner),
        ExprView::Array(elems) => flat_exprs(elems),
        ExprView::Index(obj, _) => flat_expr(*obj),
        ExprView::Other(o) => flat_other(o),
    }
}

pub open spec fn flat_function(f: FunctionView) -> bool
    decreases f, 1int,
{
    &&& flat_params(f.params)
    &&& flat_decorators(f.decorators)
    &&& match f.body {
        Some(b) => flat_body(b),
        None => true,
    }
}

pub open spec fn flat_body(b: BlockView) -> bool
    decreases b, 1int,
{
    flat_stmts(b.stmts)
}

pub open spec fn flat_arrow(a: ArrowView) -> bool
    decreases a, 1int,
{
    flat_pats(a.params) && flat_arrow_body(a.body)
}

pub open spec fn flat_arrow_body(body: ArrowBodyView) -> bool
    decreases body, 1int,
{
    match body {
        ArrowBodyView::Block(b) => flat_body(b),
        ArrowBodyView::Expr(e) => flat_expr(*e),
    }
}

pub open spec fn flat_param(p: ParamView) -> bool
    decreases p, 1int,
{
    flat_decorators(p.decorators) && flat_pat(p.pat)
}

pub open spec fn flat_pat(p: PatView) -> bool
    decreases p, 1int,
{
    flat_exprs(p.exprs)
}

pub open spec fn flat_decorator(d: DecoratorView) -> bool
    decreases d, 1int,
{
    flat_expr(d.expr)
}

pub open spec fn flat_stmt(s: StmtView) -> bool
    decreases s, 1int,
{
    match s {
        StmtView::Expr(_, e) => flat_expr(*e),
        StmtView::Decl(d) => flat_decl(d),
        StmtView::Return(e) => flat_expr(*e),
        StmtView::Other(o) => flat_other(o),
    }
}

pub open spec fn flat_decl(d: DeclView) -> bool
    decreases d, 1int,
{
    match d {
        DeclView::Fn(f) => flat_function(f.function),
        DeclView::Var(v) => flat_declarators(v.decls),
        DeclView::Other(o) => flat_other(o),
    }
}

pub open spec fn flat_declarator(d: DeclaratorView) -> bool
    decreases d, 1int,
{
    flat_pat(d.name) && match d.init {
        Some(e) => flat_expr(*e),
        None => true,
    }
}

pub open spec fn flat_prop(p: PropView) -> bool
    decreases p, 1int,
{
    match p {
        PropView::Shorthand(_) => true,
        PropView::KeyValue(_, value) => flat_expr(*value),
        PropView::Other(o) => flat_other(o),
    }
}

pub open spec fn flat_other(o: OtherView) -> bool
    decreases o, 1int,
{
    flat_nodes(o.kids)
}

pub open spec fn flat_node(n: NodeView) -> bool
    decreases n, 1int,
{
    match n {
        NodeView::Expr(e) => flat_expr(e),
        NodeView::Stmt(s) => flat_stmt(s),
        NodeView::Stmts(v) => flat_stmts(v),
        NodeView::Param(p) => flat_param(p),
        NodeView::Prop(p) => flat_prop(p),
        NodeView::Items(_) => false,
    }
}

pub open spec fn flat_item(item: ModuleItemView) -> bool
    decreases item, 1int,
{
    match item {
        ModuleItemView::Stmt(s) => flat_stmt(s),
        ModuleItemView::ExportDecl(_, d) => flat_decl(d),
        ModuleItemView::ExportNamed(n) => flat_other(n.rest),
        ModuleItemView::ExportDefaultDecl(_, d) => flat_default_decl(d),
        ModuleItemView::ExportDefaultExpr(_, e) => flat_expr(*e),
        ModuleItemView::ExportAll(_, o) => flat_other(o),
        ModuleItemView::Other(o) => flat_other(o),
    }
}

pub open spec fn flat_default_decl(d: DefaultDeclView) -> bool
    decreases d, 1int,
{
    match d {
        DefaultDeclView::Fn(f) => flat_function(f.function),
        DefaultDeclView::Other(o) => flat_other(o),
    }
}

pub open spec fn flat_exprs(v: Seq<ExprView>) -> bool
    decreases v, 3int,
{
    forall|i: int| 0 <= i < v.len() ==> flat_expr(#[trigger] v[i])
}

pub open spec fn flat_params(v: Seq<ParamView>) -> bool
    decreases v, 3int,
{
    forall|i: int| 0 <= i < v.len() ==> flat_param(#[trigger] v[i])
}

pub open spec fn flat_decorators(v: Seq<DecoratorView>) -> bool
    decreases v, 3int,
{
    forall|i: int| 0 <= i < v.len() ==> flat_decorator(#[trigger] v[i])
}

pub open spec fn flat_pats(v: Seq<PatView>) -> bool
    decreases v, 3int,
{
    forall|i: int| 0 <= i < v.len() ==> flat_pat(#[trigger] v[i])
}

pub open spec fn flat_declarators(v: Seq<DeclaratorView>) -> bool
    decreases v, 3int,
{
    forall|i: int| 0 <= i < v.len() ==> flat_declarator(#[trigger] v[i])
}

pub open spec fn flat_nodes(v: Seq<NodeView>) -> bool
    decreases v, 3int,
{
    forall|i: int| 0 <= i < v.len() ==> flat_node(#[trigger] v[i])
}

pub open spec fn flat_stmts(v: Seq<StmtView>) -> bool
    decreases v, 3int,
{
    forall|i: int| 0 <= i < v.len() ==> flat_stmt(#[trigger] v[i])
}

/// Items without namespaces.
pub open spec fn flat_items(v: Seq<ModuleItemView>) -> bool {
    forall|i: int| 0 <= i < v.len() ==> flat_item(#[trigger] v[i])
}

// ---- The walk over such trees ----

proof fn pair_add_action(s: State, ident: IdentView, c: CallableView)
    ensures
        pending(s, add_action(s, ident, c).0),
        add_action(s, ident, c).0.comments == s.comments,
{
    reveal(add_action);
    let t = add_action(s, ident, c).0;
    let n = action_ident(s.ident_cnt);
    let item = t.extra_items.last();
    action_exports_push(s.extra_items, item);
    assert(t.extra_items =~= s.extra_items.push(item));
    assert(action_export(item) == Some(n));
    paired_push(s.export_actions, action_exports(s.extra_items), export_name(s), n);
}

proof fn pair_finish_function(
    s: State,
    span: crate::ast::Span,
    ident: IdentView,
    f: FunctionView,
)
    ensures
        pending(s, finish_function(s, span, ident, f).0),
        finish_function(s, span, ident, f).0.comments == s.comments,
{
    reveal(finish_function);
    if f.is_async && !s.in_action_file {
        pair_add_action(s, ident, CallableView::Function(f));
    } else {
        pending_same(s, finish_function(s, span, ident, f).0);
    }
}

proof fn pair_finish_expr(s: State, e: ExprView)
    ensures
        pending(s, finish_expr(s, e).0),
        finish_expr(s, e).0.comments == s.comments,
{
    reveal(finish_expr);
    reveal(finish_arrow);
    let t = finish_expr(s, e).0;
    match e {
        ExprView::Arrow(a) => {
            if !s.in_action_file && is_action(s, arrow_block(a)) {
                let ident = action_ident(s.ident_cnt);
                let s1 = take_ident(s);
                let c = CallableView::Arrow(without_directive(a));
                pending_same(s, s1);
                pair_add_action(s1, ident, c);
                let s2 = add_action(s1, ident, c).0;
                pending_trans(s, s1, s2);
                action_exports_push(s2.extra_items, name_declaration(ident));
                pending_same(s2, t);
                pending_trans(s, s2, t);
            } else {
                pending_same(s, t);
            }
        },
        _ => {
            pending_same(s, t);
        },
    }
}

proof fn pair_note_exports(s: State, item: ModuleItemView)
    ensures
        pending(s, note_exports(s, item)),
        note_exports(s, item).comments == s.comments,
{
    reveal(note_exports);
    action_exports_push(s.extra_items, name_declaration(plain_action_ident(s)));
    pending_same(s, note_exports(s, item));
}

proof fn pair_expr(s: State, e: ExprView)
    requires
        flat_expr(e),
    ensures
        pending(s, visit_expr(s, e).0),
        visit_expr(s, e).0.comments == s.comments,
    decreases e, 2int,
{
    if collects_names(s) && name_of(e) is Some {
        let s1 = State {
            scope: Scope { in_action_closure: false, ..s.scope },
            ..use_name(s, name_of(e)->0)
        };
        pair_expr_children(s1, e);
    } else {
        pair_expr_children(s, e);
        let (s1, e1) = visit_expr_children(s, e);
        pair_finish_expr(s1, e1);
        pending_trans(s, s1, finish_expr(s1, e1).0);
    }
}

proof fn pair_expr_children(s: State, e: ExprView)
    requires
        flat_expr(e),
    ensures
        pending(s, visit_expr_children(s, e).0),
        visit_expr_children(s, e).0.comments == s.comments,
    decreases e, 1int,
{
    match e {
        ExprView::Ident(_) => {
            pending_same(s, s);
        },
        ExprView::Str(_, _) => {
            pending_same(s, s);
        },
        ExprView::Member(m) => {
            pair_expr(s, *m.obj);
            assert(visit_member(s, m).0 == visit_expr(s, *m.obj).0);
        },
        ExprView::OptMember(m) => {
            pair_expr(s, *m.obj);
            assert(visit_member(s, m).0 == visit_expr(s, *m.obj).0);
        },
        ExprView::Fn(f) => {
            pair_fn_expr(s, f.ident, f.function);
        },
        ExprView::Arrow(a) => {
            pair_arrow(s, a);
        },
        ExprView::Call(callee, args) => {
            pair_expr(s, *callee);
            let s1 = visit_expr(s, *callee).0;
            pair_exprs(s1, args);
            pending_trans(s, s1, visit_exprs(s1, args).0);
        },
        ExprView::Assign(target, value) => {
            pair_expr(s, *target);
            let s1 = visit_expr(s, *target).0;
            pair_expr(s1, *value);
            pending_trans(s, s1, visit_expr(s1, *value).0);
        },
        ExprView::Define(_, value) => {
            pair_expr(s, *value);
        },
        ExprView::Paren(inner) => {
            pair_expr(s, *inner);
        },
        ExprView::Array(elems) => {
            pair_exprs(s, elems);
        },
        ExprView::Index(obj, _) => {
            pair_expr(s, *obj);
        },
        ExprView::Other(o) => {
            pair_other(s, o);
        },
    }
}

proof fn pair_fn_expr(s: State, ident: Option<IdentView>, f: FunctionView)
    requires
        flat_function(f),
    ensures
        pending(s, visit_fn_expr(s, ident, f).0),
        visit_fn_expr(s, ident, f).0.comments == s.comments,
    decreases f, 2int,
{
    pair_function(s, f);
    let (s1, f1) = visit_function(s, f);
    if is_action(s, f.body) {
        let (s2, ident2) = if f1.is_async && !s1.in_action_file && ident is None {
            (take_ident(s1), Some(plain_action_ident(s1)))
        } else {
            (s1, ident)
        };
        pending_same(s1, s2);
        pair_finish_function(s2, f1.span, ident2->0, f1);
        pending_trans(s, s1, s2);
        pending_trans(s, s2, finish_function(s2, f1.span, ident2->0, f1).0);
    }
}

proof fn pair_fn_decl(s: State, d: FnDeclView)
    requires
        flat_function(d.function),
    ensures
        pending(s, visit_fn_decl(s, d).0),
        visit_fn_decl(s, d).0.comments == s.comments,
    decreases d, 0int,
{
    pair_function(s, d.function);
    let (s1, f1) = visit_function(s, d.function);
    pair_finish_function(s1, d.ident.span, d.ident, f1);
    pending_trans(s, s1, finish_function(s1, d.ident.span, d.ident, f1).0);
}

proof fn pair_function(s: State, f: FunctionView)
    requires
        flat_function(f),
    ensures
        pending(s, visit_function(s, f).0),
        visit_function(s, f).0.comments == s.comments,
    decreases f, 1int,
{
    let s0 = enter_function(s, is_action(s, f.body));
    pair_params(s0, f.params);
    let s1 = visit_params(s0, f.params).0;
    pair_decorators(s1, f.decorators);
    let s2 = visit_decorators(s1, f.decorators).0;
    pending_trans(s0, s1, s2);
    let directive = action_directive(s, f.body);
    pair_fn_body(s2, f.body, directive);
    pending_trans(s0, s2, visit_fn_body(s2, f.body, directive).0);
}

proof fn pair_fn_body(s: State, body: Option<BlockView>, directive: Option<int>)
    requires
        body matches Some(b) ==> flat_body(b),
    ensures
        pending(s, visit_fn_body(s, body, directive).0),
        visit_fn_body(s, body, directive).0.comments == s.comments,
    decreases body, 0int,
{
    match body {
        Some(b) => {
            without_decreases(b.stmts, directive);
            assert(flat_stmts(without(b.stmts, directive)));
            pair_stmts(s, without(b.stmts, directive));
        },
        None => {
            pending_same(s, s);
        },
    }
}

proof fn pair_arrow(s: State, a: ArrowView)
    requires
        flat_arrow(a),
    ensures
        pending(s, visit_arrow(s, a).0),
        visit_arrow(s, a).0.comments == s.comments,
    decreases a, 2int,
{
    let s0 = enter_function(s, is_action(s, arrow_block(a)));
    pair_pats(s0, a.params);
    let s1 = visit_pats(s0, a.params).0;
    pair_arrow_body(s1, a.body);
    pending_trans(s0, s1, visit_arrow_body(s1, a.body).0);
}

proof fn pair_arrow_body(s: State, body: ArrowBodyView)
    requires
        flat_arrow_body(body),
    ensures
        pending(s, visit_arrow_body(s, body).0),
        visit_arrow_body(s, body).0.comments == s.comments,
    decreases body, 1int,
{
    match body {
        ArrowBodyView::Block(b) => {
            pair_stmts(s, b.stmts);
        },
        ArrowBodyView::Expr(e) => {
            pair_expr(s, *e);
        },
    }
}

proof fn pair_param(s: State, p: ParamView)
    requires
        flat_param(p),
    ensures
        pending(s, visit_param(s, p).0),
        visit_param(s, p).0.comments == s.comments,
    decreases p, 1int,
{
    pair_decorators(s, p.decorators);
    let s1 = visit_decorators(s, p.decorators).0;
    pair_pat(s1, p.pat);
    pending_trans(s, s1, visit_pat(s1, p.pat).0);
}

proof fn pair_pat(s: State, p: PatView)
    requires
        flat_pat(p),
    ensures
        pending(s, visit_pat(s, p).0),
        visit_pat(s, p).0.comments == s.comments,
    decreases p, 1int,
{
    pair_exprs(s, p.exprs);
}

proof fn pair_decorator(s: State, d: DecoratorView)
    requires
        flat_decorator(d),
    ensures
        pending(s, visit_decorator(s, d).0),
        visit_decorator(s, d).0.comments == s.comments,
    decreases d, 1int,
{
    pair_expr(s, d.expr);
}

proof fn pair_stmt(s: State, stmt: StmtView)
    requires
        flat_stmt(stmt),
    ensures
        pending(s, visit_stmt(s, stmt).0),
        visit_stmt(s, stmt).0.comments == s.comments,
    decreases stmt, 2int,
{
    match stmt {
        StmtView::Expr(_, e) => {
            pair_expr(s, *e);
        },
        StmtView::Decl(d) => {
            pair_decl(s, d);
        },
        StmtView::Return(e) => {
            pair_expr(s, *e);
        },
        StmtView::Other(o) => {
            pair_other(s, o);
        },
    }
    assert(pending(s, visit_stmt_children(s, stmt).0));
}

proof fn pair_decl(s: State, d: DeclView)
    requires
        flat_decl(d),
    ensures
        pending(s, visit_decl(s, d).0),
        visit_decl(s, d).0.comments == s.comments,
    decreases d, 1int,
{
    match d {
        DeclView::Fn(f) => {
            pair_fn_decl(s, f);
        },
        DeclView::Var(v) => {
            pair_declarators(s, v.decls);
        },
        DeclView::Other(o) => {
            pair_other(s, o);
        },
    }
}

proof fn pair_declarator(s: State, d: DeclaratorView)
    requires
        flat_declarator(d),
    ensures
        pending(s, visit_declarator(s, d).0),
        visit_declarator(s, d).0.comments == s.comments,
    decreases d, 1int,
{
    pair_pat(s, d.name);
    let s1 = visit_pat(s, d.name).0;
    match d.init {
        Some(e) => {
            pair_expr(s1, *e);
            pending_trans(s, s1, visit_expr(s1, *e).0);
        },
        None => {},
    }
}

proof fn pair_prop(s: State, p: PropView)
    requires
        flat_prop(p),
    ensures
        pending(s, visit_prop(s, p).0),
        visit_prop(s, p).0.comments == s.comments,
    decreases p, 1int,
{
    match p {
        PropView::Shorthand(_) => {
            pending_same(s, s);
        },
        PropView::KeyValue(_, value) => {
            pair_expr(s, *value);
        },
        PropView::Other(o) => {
            pair_other(s, o);
        },
    }
}

proof fn pair_other(s: State, o: OtherView)
    requires
        flat_other(o),
    ensures
        pending(s, visit_other(s, o).0),
        visit_other(s, o).0.comments == s.comments,
    decreases o, 1int,
{
    pair_nodes(s, o.kids);
}

proof fn pair_node(s: State, n: NodeView)
    requires
        flat_node(n),
    ensures
        pending(s, visit_node(s, n).0),
        visit_node(s, n).0.comments == s.comments,
    decreases n, 1int,
{
    match n {
        NodeView::Expr(e) => {
            pair_expr(s, e);
        },
        NodeView::Stmt(stmt) => {
            pair_stmt(s, stmt);
        },
        NodeView::Stmts(v) => {
            pair_stmts(s, v);
        },
        NodeView::Param(p) => {
            pair_param(s, p);
        },
        NodeView::Prop(p) => {
            pair_prop(s, p);
        },
        NodeView::Items(_) => {},
    }
}

proof fn pair_stmts(s: State, v: Seq<StmtView>)
    requires
        flat_stmts(v),
    ensures
        pending(s, visit_stmts(s, v).0),
        visit_stmts(s, v).0.comments == s.comments,
    decreases v, 5int,
{
    pair_stmts_in_turn(State { annotations: Seq::empty(), ..s }, v);
}

proof fn pair_stmts_in_turn(s: State, v: Seq<StmtView>)
    requires
        flat_stmts(v),
    ensures
        pending(s, visit_stmts_in_turn(s, v).0),
        visit_stmts_in_turn(s, v).0.comments == s.comments,
    decreases v, 4int,
{
    if v.len() != 0 {
        pair_stmts_in_turn(s, v.drop_last());
        let s1 = visit_stmts_in_turn(s, v.drop_last()).0;
        let t = State { top_level: false, ..s1 };
        pair_stmt(t, v.last());
        pending_trans(s, t, visit_stmt(t, v.last()).0);
    } else {
        pending_same(s, s);
    }
}

proof fn pair_exprs(s: State, v: Seq<ExprView>)
    requires
        flat_exprs(v),
    ensures
        pending(s, visit_exprs(s, v).0),
        visit_exprs(s, v).0.comments == s.comments,
    decreases v, 4int,
{
    if v.len() != 0 {
        pair_exprs(s, v.drop_last());
        let s1 = visit_exprs(s, v.drop_last()).0;
        pair_expr(s1, v.last());
        pending_trans(s, s1, visit_expr(s1, v.last()).0);
    } else {
        pending_same(s, s);
    }
}

proof fn pair_params(s: State, v: Seq<ParamView>)
    requires
        flat_params(v),
    ensures
        pending(s, visit_params(s, v).0),
        visit_params(s, v).0.comments == s.comments,
    decreases v, 4int,
{
    if v.len() != 0 {
        pair_params(s, v.drop_last());
        let s1 = visit_params(s, v.drop_last()).0;
        pair_param(s1, v.last());
        pending_trans(s, s1, visit_param(s1, v.last()).0);
    } else {
        pending_same(s, s);
    }
}

proof fn pair_decorators(s: State, v: Seq<DecoratorView>)
    requires
        flat_decorators(v),
    ensures
        pending(s, visit_decorators(s, v).0),
        visit_decorators(s, v).0.comments == s.comments,
    decreases v, 4int,
{
    if v.len() != 0 {
        pair_decorators(s, v.drop_last());
        let s1 = visit_decorators(s, v.drop_last()).0;
        pair_decorator(s1, v.last());
        pending_trans(s, s1, visit_decorator(s1, v.last()).0);
    } else {
        pending_same(s, s);
    }
}

proof fn pair_pats(s: State, v: Seq<PatView>)
    requires
        flat_pats(v),
    ensures
        pending(s, visit_pats(s, v).0),
        visit_pats(s, v).0.comments == s.comments,
    decreases v, 4int,
{
    if v.len() != 0 {
        pair_pats(s, v.drop_last());
        let s1 = visit_pats(s, v.drop_last()).0;
        pair_pat(s1, v.last());
        pending_trans(s, s1, visit_pat(s1, v.last()).0);
    } else {
        pending_same(s, s);
    }
}

proof fn pair_declarators(s: State, v: Seq<DeclaratorView>)
    requires
        flat_declarators(v),
    ensures
        pending(s, visit_declarators(s, v).0),
        visit_declarators(s, v).0.comments == s.comments,
    decreases v, 4int,
{
    if v.len() != 0 {
        pair_declarators(s, v.drop_last());
        let s1 = visit_declarators(s, v.drop_last()).0;
        pair_declarator(s1, v.last());
        pending_trans(s, s1, visit_declarator(s1, v.last()).0);
    } else {
        pending_same(s, s);
    }
}

proof fn pair_nodes(s: State, v: Seq<NodeView>)
    requires
        flat_nodes(v),
    ensures
        pending(s, visit_nodes(s, v).0),
        visit_nodes(s, v).0.comments == s.comments,
    decreases v, 4int,
{
    if v.len() != 0 {
        pair_nodes(s, v.drop_last());
        let s1 = visit_nodes(s, v.drop_last()).0;
        pair_node(s1, v.last());
        pending_trans(s, s1, visit_node(s1, v.last()).0);
    } else {
        pending_same(s, s);
    }
}

proof fn pair_item(s: State, item: ModuleItemView)
    requires
        flat_item(item),
    ensures
        pending(s, visit_item(s, item).0),
        visit_item(s, item).0.comments == s.comments,
    decreases item, 1int,
{
    match item {
        ModuleItemView::Stmt(stmt) => {
            pair_stmt(s, stmt);
        },
        ModuleItemView::ExportDecl(_, d) => {
            pair_decl(export_scope(s), d);
            assert(pending(s, visit_export_decl(s, d).0));
        },
        ModuleItemView::ExportNamed(n) => {
            pair_other(s, n.rest);
        },
        ModuleItemView::ExportDefaultDecl(_, d) => {
            match d {
                DefaultDeclView::Fn(f) => {
                    pair_default_fn(s, f.ident, f.function);
                },
                DefaultDeclView::Other(o) => {
                    pair_other(default_scope(s), o);
                },
            }
            assert(pending(s, visit_default_decl(s, d).0));
        },
        ModuleItemView::ExportDefaultExpr(_, e) => {
            pair_default_expr(s, *e);
        },
        ModuleItemView::ExportAll(_, o) => {
            pair_other(s, o);
        },
        ModuleItemView::Other(o) => {
            pair_other(s, o);
        },
    }
}

proof fn pair_default_fn(s: State, ident: Option<IdentView>, f: FunctionView)
    requires
        flat_function(f),
    ensures
        pending(s, visit_default_fn(s, ident, f).0),
        visit_default_fn(s, ident, f).0.comments == s.comments,
    decreases f, 3int,
{
    pair_fn_expr(default_scope(s), ident, f);
}

proof fn pair_default_expr(s: State, e: ExprView)
    requires
        flat_expr(e),
    ensures
        pending(s, visit_default_expr(s, e).0),
        visit_default_expr(s, e).0.comments == s.comments,
    decreases e, 3int,
{
    pair_expr(default_scope(s), e);
}

proof fn pair_top_item(s: State, item: ModuleItemView)
    requires
        flat_item(item),
    ensures
        pending(s, visit_top_item(s, item).0),
        visit_top_item(s, item).0.comments == s.comments,
{
    if s.in_action_file {
        let s1 = note_exports(s, item);
        let name = default_name(s, item);
        pair_note_exports(s, item);
        match item {
            ModuleItemView::ExportDefaultDecl(_, DefaultDeclView::Fn(f)) => {
                let ident = if f.ident is Some {
                    f.ident
                } else {
                    name
                };
                assert(flat_default_decl(DefaultDeclView::Fn(f)));
                pair_default_fn(s1, ident, f.function);
            },
            ModuleItemView::ExportDefaultExpr(_, e) => {
                pair_default_expr(s1, *e);
            },
            _ => {
                pair_item(s1, item);
            },
        }
        assert(pending(s1, visit_exported_item(s1, name, item).0));
        pending_trans(s, s1, visit_exported_item(s1, name, item).0);
    } else {
        pair_item(s, item);
    }
}

/// Source items are not taken for exports of actions after the walk either.
proof fn still_no_action_export(s: State, item: ModuleItemView)
    requires
        action_export(item) is None,
    ensures
        action_export(visit_top_item(s, item).1) is None,
{
    let t = if s.in_action_file {
        note_exports(s, item)
    } else {
        s
    };
    if let ModuleItemView::ExportDecl(span, d) = item {
        let s1 = export_scope(t);
        assert(visit_top_item(s, item) == visit_item(t, item));
        assert(visit_item(t, item).1 == ModuleItemView::ExportDecl(
            span,
            visit_export_decl(t, d).1,
        ));
        assert(visit_export_decl(t, d).1 == visit_decl(s1, d).1);
        match d {
            DeclView::Fn(f) => {
                assert(visit_decl(s1, d).1 == DeclView::Fn(visit_fn_decl(s1, f).1));
                assert(visit_fn_decl(s1, f).1.ident == f.ident);
            },
            DeclView::Var(v) => {
                same_names(s1, v.decls);
            },
            DeclView::Other(_) => {},
        }
    }
}

/// The walk keeps what variables are declared.
pub proof fn same_names(s: State, v: Seq<DeclaratorView>)
    ensures
        visit_declarators(s, v).1.len() == v.len(),
        forall|i: int|
            0 <= i < v.len() ==> (#[trigger] visit_declarators(s, v).1[i]).name.form
                == v[i].name.form,
    decreases v.len(),
{
    if v.len() != 0 {
        same_names(s, v.drop_last());
        let (s1, init) = visit_declarators(s, v.drop_last());
        assert(visit_declarator(s1, v.last()).1.name.form == v.last().name.form) by {
            assert(visit_pat(s1, v.last().name).1.form == v.last().name.form);
        }
        let all = visit_declarators(s, v).1;
        assert forall|i: int| 0 <= i < v.len() implies (#[trigger] all[i]).name.form
            == v[i].name.form by {
            if i < init.len() {
                assert(all[i] == init[i]);
                assert(v.drop_last()[i] == v[i]);
            }
        }
    }
}

/// The walk over an item without namespaces, without the directive, or of a
/// `"use server"` file.
proof fn pair_any_item(s: State, item: ModuleItemView)
    requires
        s.extra_items == Seq::<ModuleItemView>::empty(),
        s.in_action_file || flat_item(item) || plain_item(item),
    ensures
        pending(s, visit_top_item(s, item).0),
        s.in_action_file ==> visit_top_item(s, item).0.in_action_file,
{
    let t = visit_top_item(s, item).0;
    visit_top_item_extends(s, item);
    if flat_item(item) {
        pair_top_item(s, item);
    } else if s.in_action_file {
        still_top_item(s, item);
        assert(action_exports(t.extra_items) =~= action_exports(s.extra_items));
        pending_same(s, t);
    } else {
        keep_item(s, item);
        pending_same(s, t);
    }
}

proof fn pair_items_in_turn(s: State, v: Seq<ModuleItemView>)
    requires
        s.extra_items == Seq::<ModuleItemView>::empty(),
        s.in_action_file || forall|i: int|
            0 <= i < v.len() ==> flat_item(#[trigger] v[i]) || plain_item(v[i]),
        forall|i: int| 0 <= i < v.len() ==> action_export(#[trigger] v[i]) is None,
    ensures
        ({
            let (t, w) = visit_items_in_turn(s, v);
            &&& s.in_action_file ==> t.in_action_file
            &&& t.extra_items == Seq::<ModuleItemView>::empty()
            &&& paired(s.export_actions, Seq::empty(), t.export_actions, action_exports(w))
        }),
    decreases v.len(),
{
    if v.len() == 0 {
        paired_refl(s.export_actions, Seq::empty());
    } else {
        let init = v.drop_last();
        pair_items_in_turn(s, init);
        let (s1, w1) = visit_items_in_turn(s, init);
        let t1 = State { top_level: true, ..s1 };
        pair_any_item(t1, v.last());
        still_no_action_export(t1, v.last());
        let (s2, item) = visit_top_item(t1, v.last());
        let w2 = w1.push(item);
        let w3 = w2 + as_items(s2.annotations);
        action_exports_push(w1, item);
        action_exports_add(w2, as_items(s2.annotations));
        action_exports_of_stmts(s2.annotations);
        action_exports_add(w3, s2.extra_items);
        let before = action_exports(w1);
        let added = action_exports(s2.extra_items);
        assert(action_exports(w3) =~= before);
        paired_shift(t1.export_actions, s2.export_actions, before, added);
        paired_trans(
            s.export_actions,
            Seq::empty(),
            s1.export_actions,
            before,
            s2.export_actions,
            before + added,
        );
    }
}

proof fn paired_shift(
    names: Seq<Seq<char>>,
    names1: Seq<Seq<char>>,
    before: Seq<IdentView>,
    added: Seq<IdentView>,
)
    requires
        paired(names, Seq::empty(), names1, added),
    ensures
        paired(names, before, names1, before + added),
{
    reveal(paired);
    assert((before + added).take(before.len() as int) =~= before);
    assert forall|i: int| names.len() <= i < names1.len() implies exported_as(
        #[trigger] names1[i],
        (before + added)[i - names.len() + before.len()],
    ) by {
        assert((before + added)[i - names.len() + before.len()] == added[i - names.len()]);
    }
}

/// Every action is exported: a module in whose namespaces there are no actions
/// has afterwards, for each name in the list of exported actions, an item that
/// exports the generated identifier of that name, or one that is listed as
/// `default`. The items are in the order of the list.
pub proof fn every_action_is_exported(file_name: Seq<char>, config: Config, m: ModuleView)
    requires
        module_directive(m.body) is Some || forall|i: int|
            0 <= i < m.body.len() ==> flat_item(#[trigger] m.body[i]) || plain_item(m.body[i]),
        forall|i: int| 0 <= i < m.body.len() ==> action_export(#[trigger] m.body[i]) is None,
    ensures
        ({
            let (t, m1) = visit_module(initial_state(file_name, config), m);
            let idents = action_exports(m1.body);
            &&& idents.len() == t.export_actions.len()
            &&& forall|i: int|
                0 <= i < idents.len() ==> exported_as(t.export_actions[i], #[trigger] idents[i])
        }),
{
    let s = State { start_pos: m.span.lo, ..initial_state(file_name, config) };
    let v = m.body;
    let w = without(v, module_directive(v));
    let s1 = State { annotations: Seq::empty(), ..enter_items(s, v) };
    assert forall|i: int| 0 <= i < w.len() implies (s1.in_action_file || flat_item(
        #[trigger] w[i],
    ) || plain_item(w[i])) && action_export(w[i]) is None by {
        assert(exists|k: int| 0 <= k < v.len() && v[k] == w[i]) by {
            if let Some(d) = module_directive(v) {
                if 0 <= d < v.len() {
                    if i < d {
                        assert(v[i] == w[i]);
                    } else {
                        assert(v[i + 1] == w[i]);
                    }
                } else {
                    assert(v[i] == w[i]);
                }
            } else {
                assert(v[i] == w[i]);
            }
        }
    }
    pair_items_in_turn(s1, w);
    let (s2, v2) = visit_items_in_turn(s1, w);
    reveal(leave_items);
    let (t, out) = leave_items(s2, s.annotations, v2);
    if s2.in_action_file {
        let notes = s2.annotations + crate::transform::export_annotations(
            s2.file_name,
            s2.exported_idents,
        );
        action_exports_add(v2, as_items(notes));
        action_exports_of_stmts(notes);
        assert(out =~= v2 + as_items(notes));
        assert(action_exports(v2) + Seq::<IdentView>::empty() =~= action_exports(v2));
    }
    assert(visit_items(s, v) == (t, out));
    reveal(paired);
    let idents = action_exports(out);
    assert forall|i: int| 0 <= i < idents.len() implies exported_as(
        t.export_actions[i],
        #[trigger] idents[i],
    ) by {
        let name = t.export_actions[i];
        assert(exported_as(name, idents[i]));
    }
}

/// The walk over items without namespaces adds no comment.
proof fn no_comment_in_turn(s: State, v: Seq<ModuleItemView>)
    requires
        flat_items(v),
    ensures
        visit_items_in_turn(s, v).0.comments == s.comments,
    decreases v.len(),
{
    if v.len() != 0 {
        no_comment_in_turn(s, v.drop_last());
        let s1 = visit_items_in_turn(s, v.drop_last()).0;
        pair_top_item(State { top_level: true, ..s1 }, v.last());
    }
}

/// A module without namespaces gets one comment if it has an action, and none
/// otherwise.
pub proof fn at_most_one_comment(file_name: Seq<char>, config: Config, m: ModuleView)
    requires
        flat_items(m.body),
    ensures
        ({
            let t = visit_module(initial_state(file_name, config), m).0;
            t.comments == if t.has_action {
                seq![CommentView { pos: m.span.lo, text: entry_comment(t) }]
            } else {
                Seq::empty()
            }
        }),
{
    let s = State { start_pos: m.span.lo, ..initial_state(file_name, config) };
    let v = m.body;
    let w = without(v, module_directive(v));
    let s1 = State { annotations: Seq::empty(), ..enter_items(s, v) };
    without_is_part(v, module_directive(v));
    assert forall|i: int| 0 <= i < w.len() implies flat_item(#[trigger] w[i]) by {
        assert(v.contains(w[i]));
    }
    no_comment_in_turn(s1, w);
    visit_items_in_turn_extends(s1, w);
    let (s2, v2) = visit_items_in_turn(s1, w);
    reveal(leave_items);
    assert(visit_items(s, v) == leave_items(s2, s.annotations, v2));
    assert(s2.comments == Seq::<CommentView>::empty());
    let t = visit_items(s, v).0;
    assert(t.comments =~= if t.has_action {
        seq![CommentView { pos: m.span.lo, text: entry_comment(t) }]
    } else {
        Seq::empty()
    });
}

} // verus!
