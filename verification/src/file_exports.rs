//! What a `"use server"` file may export, and what becomes of its exports.

use vstd::prelude::*;

use crate::actions::{declares_name, nowhere, synchronous_action};
use crate::annotate::action_annotations;
use crate::ast::{Ctxt, Origin, Span};
use crate::bindings::idents_in_var_decls;
use crate::closure::exprs_of;
use crate::directive::module_directive;
use crate::frame::{note_exports_extends, visit_exported_item_extends, visit_items_in_turn_extends};
use crate::laws::{each_export_is_annotated, use_server_file};
use crate::mentioned::without_is_part;
use crate::model::{
    ArrowBodyView, ArrowView, BlockView, DeclView, DeclaratorView, DecoratorView, DefaultDeclView,
    ExportNameView, ExportSpecifierView, ExprView, FnDeclView, FnExprView, FunctionView, IdView,
    IdentView, MemberView, ModuleItemView, ModuleView, NodeView, OtherView, ParamView, PatView,
    PropView, StmtView,
};
use crate::names::{ident_of_id, name_of, NameView};
use crate::prefix::prefix;
use crate::state::{action_ident, initial_state, Config, Diagnostic, Problem, Scope, State};
use crate::text::{action_name, join_texts};
use crate::transform::{
    action_directive, add_action, arrow_block, as_items, collects_names, default_name,
    default_scope, enter_function, enter_items, export_annotations, export_scope, exportable_decls,
    exportable_init, exported_names, finish_arrow, finish_expr, finish_function, is_action,
    leave_function, leave_items, name_action, note_exports, own_names, plain_action_ident, report,
    specifier_export, specifier_exports, take_ident, use_name, visit_arrow, visit_arrow_body,
    visit_decl, visit_declarator, visit_declarators, visit_decorator, visit_decorators,
    visit_default_decl, visit_default_expr, visit_default_fn, visit_export_decl,
    visit_exported_item, visit_expr, visit_expr_children, visit_exprs, visit_fn_body, visit_fn_decl,
    visit_fn_expr, visit_function, visit_item, visit_items_in_turn, visit_member, visit_module,
    visit_node, visit_nodes, visit_opt_expr, visit_other, visit_param, visit_params, visit_pat,
    visit_pats, visit_prop, visit_stmt, visit_stmt_children, visit_stmts, visit_stmts_in_turn,
    visit_top_item, without, without_decreases, without_directive, CallableView,
};
use crate::vocabulary::{
    annotations_refer, file_directive_is_where_marked, file_marked, identity, refers,
    refers_to_action, vars_bind, vars_collected,
};

verus! {

// ---- What may be exported ----

/// The value of a variable is a function: a function expression, which is
/// reported elsewhere if it is not async, or an async arrow function.
pub open spec fn holds_function(init: Option<Box<ExprView>>) -> bool {
    match init {
        Some(e) => match *e {
            ExprView::Fn(_) => true,
            ExprView::Arrow(a) => a.is_async,
            _ => false,
        },
        None => false,
    }
}

/// An item exports what is no async function, or what cannot be seen to be one.
pub open spec fn refused(item: ModuleItemView) -> bool {
    match item {
        ModuleItemView::ExportDecl(_, DeclView::Fn(_)) => false,
        ModuleItemView::ExportDecl(_, DeclView::Var(v)) => exists|i: int|
            0 <= i < v.decls.len() && !holds_function((#[trigger] v.decls[i]).init),
        ModuleItemView::ExportDecl(_, DeclView::Other(_)) => true,
        ModuleItemView::ExportNamed(n) => n.has_src || exists|i: int|
            0 <= i < n.specifiers.len() && !names_local(#[trigger] n.specifiers[i]),
        ModuleItemView::ExportDefaultDecl(_, DefaultDeclView::Fn(_)) => false,
        ModuleItemView::ExportDefaultDecl(_, DefaultDeclView::Other(_)) => true,
        ModuleItemView::ExportDefaultExpr(_, e) => match *e {
            ExprView::Fn(_) => false,
            ExprView::Arrow(a) => !a.is_async,
            ExprView::Ident(_) => false,
            _ => true,
        },
        ModuleItemView::ExportAll(_, _) => true,
        ModuleItemView::Stmt(_) => false,
        ModuleItemView::Other(_) => false,
    }
}

/// An entry of a named export names something of the module.
pub open spec fn names_local(spec: ExportSpecifierView) -> bool {
    match spec {
        ExportSpecifierView::Named(ExportNameView::Ident(_), _) => true,
        ExportSpecifierView::Named(ExportNameView::Str(_), _) => false,
        ExportSpecifierView::Other => false,
    }
}

/// Where an export is reported.
pub open spec fn place(item: ModuleItemView) -> Span {
    match item {
        ModuleItemView::ExportDecl(span, _) => span,
        ModuleItemView::ExportNamed(n) => n.span,
        ModuleItemView::ExportDefaultDecl(span, _) => span,
        ModuleItemView::ExportDefaultExpr(span, _) => span,
        ModuleItemView::ExportAll(span, _) => span,
        ModuleItemView::Stmt(_) => nowhere(),
        ModuleItemView::Other(_) => nowhere(),
    }
}

/// The report about an export.
pub open spec fn refusal(item: ModuleItemView) -> Diagnostic {
    Diagnostic { span: place(item), problem: Problem::DisallowedExport }
}

/// Of an item of a `"use server"` file an error is reported just if it exports
/// what may not be exported, and has a place in the source.
pub proof fn refused_exports_are_reported(s: State, item: ModuleItemView)
    ensures
        refused(item) && place(item) != nowhere() ==> note_exports(s, item).errors
            == s.errors.push(refusal(item)),
        !(refused(item) && place(item) != nowhere()) ==> note_exports(s, item).errors == s.errors,
{
    reveal(note_exports);
    assert(nowhere() == Span::dummy());
    match item {
        ModuleItemView::ExportDecl(_, DeclView::Var(v)) => {
            if refused(item) {
                let i = choose|i: int|
                    0 <= i < v.decls.len() && !holds_function((#[trigger] v.decls[i]).init);
                assert(!exportable_init(v.decls[i].init));
                assert(!exportable_decls(v.decls));
            } else {
                assert forall|i: int| 0 <= i < v.decls.len() implies exportable_init(
                    #[trigger] v.decls[i].init,
                ) by {
                    assert(holds_function(v.decls[i].init));
                }
            }
        },
        ModuleItemView::ExportNamed(n) => {
            if !n.has_src {
                if refused(item) {
                    let i = choose|i: int|
                        0 <= i < n.specifiers.len() && !names_local(#[trigger] n.specifiers[i]);
                    assert(specifier_export(n.specifiers[i]) is None);
                } else {
                    assert forall|i: int|
                        0 <= i < n.specifiers.len() implies specifier_export(
                        #[trigger] n.specifiers[i],
                    ) is Some by {
                        assert(names_local(n.specifiers[i]));
                    }
                }
            }
        },
        _ => {},
    }
}

// ---- What is recorded ----

/// An entry of a named export exports an identifier under a name.
pub open spec fn specifier_exports_as(
    spec: ExportSpecifierView,
    id: IdView,
    name: Seq<char>,
) -> bool {
    match spec {
        ExportSpecifierView::Named(ExportNameView::Ident(i), exported) => refers(i, id)
            && match exported {
            None => name == i.sym,
            Some(ExportNameView::Ident(j)) => name == j.sym,
            Some(ExportNameView::Str(text)) => name == text,
        },
        _ => false,
    }
}

/// An item exports an identifier of the module under a name.
pub open spec fn exports_as(item: ModuleItemView, id: IdView, name: Seq<char>) -> bool {
    match item {
        ModuleItemView::ExportDecl(_, DeclView::Fn(f)) => refers(f.ident, id) && name
            == f.ident.sym,
        ModuleItemView::ExportDecl(_, DeclView::Var(v)) => vars_bind(v.decls, id) && name
            == id.sym,
        ModuleItemView::ExportNamed(n) => !n.has_src && exists|i: int|
            0 <= i < n.specifiers.len() && specifier_exports_as(
                #[trigger] n.specifiers[i],
                id,
                name,
            ),
        ModuleItemView::ExportDefaultDecl(_, DefaultDeclView::Fn(f)) => f.ident is Some && refers(
            f.ident->0,
            id,
        ) && name == "default"@,
        ModuleItemView::ExportDefaultExpr(_, e) => match *e {
            ExprView::Ident(i) => refers(i, id) && name == "default"@,
            _ => false,
        },
        _ => false,
    }
}

/// An item exports a function by default that the module has no name for.
pub open spec fn lacks_name(item: ModuleItemView) -> bool {
    match item {
        ModuleItemView::ExportDefaultDecl(_, DefaultDeclView::Fn(f)) => f.ident is None,
        ModuleItemView::ExportDefaultExpr(_, e) => match *e {
            ExprView::Fn(_) => true,
            ExprView::Arrow(a) => a.is_async,
            _ => false,
        },
        _ => false,
    }
}

/// A generated name in the empty context.
pub open spec fn plain_ident(n: nat) -> IdentView {
    IdentView { sym: action_name(n), span: nowhere(), optional: false }
}

/// The identifier that a default export without a name gets.
pub open spec fn given_id(n: nat) -> IdView {
    IdView { sym: action_name(n), ctxt: Ctxt::Source(0) }
}

/// The exports of the entries of a named export come from left to right.
pub proof fn specifiers_in_order(a: Seq<ExportSpecifierView>, b: Seq<ExportSpecifierView>)
    ensures
        specifier_exports(a + b) == specifier_exports(a) + specifier_exports(b),
    decreases b.len(),
{
    if b.len() == 0 {
        assert(a + b =~= a);
        assert(specifier_exports(a) + specifier_exports(b) =~= specifier_exports(a));
    } else {
        specifiers_in_order(a, b.drop_last());
        assert((a + b).drop_last() =~= a + b.drop_last());
        assert((a + b).last() == b.last());
        assert(specifier_exports(a + b) =~= specifier_exports(a) + specifier_exports(b));
    }
}

/// Two lists together hold what one of them holds.
proof fn in_either(
    a: Seq<(IdView, Seq<char>)>,
    b: Seq<(IdView, Seq<char>)>,
    x: (IdView, Seq<char>),
)
    ensures
        (a + b).contains(x) <==> a.contains(x) || b.contains(x),
{
    if a.contains(x) {
        let i = choose|i: int| 0 <= i < a.len() && a[i] == x;
        assert((a + b)[i] == x);
    }
    if b.contains(x) {
        let i = choose|i: int| 0 <= i < b.len() && b[i] == x;
        assert((a + b)[a.len() + i] == x);
    }
    if (a + b).contains(x) {
        let i = choose|i: int| 0 <= i < (a + b).len() && (a + b)[i] == x;
        if i < a.len() {
            assert(a[i] == x);
        } else {
            assert(b[i - a.len()] == x);
        }
    }
}

proof fn in_push(a: Seq<(IdView, Seq<char>)>, y: (IdView, Seq<char>), x: (IdView, Seq<char>))
    ensures
        a.push(y).contains(x) <==> a.contains(x) || y == x,
{
    in_either(a, seq![y], x);
    assert(a.push(y) =~= a + seq![y]);
    if y == x {
        assert(seq![y][0] == x);
    }
}

/// The entries of a named export are recorded, and nothing else.
pub proof fn specifiers_are_recorded(v: Seq<ExportSpecifierView>, id: IdView, name: Seq<char>)
    ensures
        specifier_exports(v).contains((id, name)) <==> exists|i: int|
            0 <= i < v.len() && specifier_exports_as(#[trigger] v[i], id, name),
    decreases v.len(),
{
    if v.len() != 0 {
        let init = v.drop_last();
        specifiers_are_recorded(init, id, name);
        if let Some(e) = specifier_export(v.last()) {
            in_push(specifier_exports(init), e, (id, name));
        }
        if exists|i: int| 0 <= i < init.len()
            && specifier_exports_as(#[trigger] init[i], id, name) {
            let i = choose|i: int|
                0 <= i < init.len() && specifier_exports_as(#[trigger] init[i], id, name);
            assert(specifier_exports_as(v[i], id, name));
        }
        if exists|i: int| 0 <= i < v.len() && specifier_exports_as(#[trigger] v[i], id, name) {
            let i = choose|i: int|
                0 <= i < v.len() && specifier_exports_as(#[trigger] v[i], id, name);
            if i < init.len() {
                assert(specifier_exports_as(init[i], id, name));
            }
        }
        assert(specifier_exports_as(v[v.len() - 1], id, name) <==> specifier_export(v.last())
            == Some((id, name)));
    }
}

proof fn own_names_hold(ids: Seq<IdView>, id: IdView, name: Seq<char>)
    ensures
        own_names(ids).contains((id, name)) <==> ids.contains(id) && name == id.sym,
{
    let all = own_names(ids);
    if all.contains((id, name)) {
        let i = choose|i: int| 0 <= i < all.len() && all[i] == (id, name);
        assert(ids[i] == id);
    }
    if ids.contains(id) && name == id.sym {
        let i = choose|i: int| 0 <= i < ids.len() && ids[i] == id;
        assert(all[i] == (id, name));
    }
}

/// The exports of an item of a `"use server"` file are recorded under the names
/// that they have outside, behind what was recorded before. A default export
/// that lacks a name is recorded under the next generated one. Nothing else is
/// recorded.
pub proof fn exports_are_recorded(s: State, item: ModuleItemView, id: IdView, name: Seq<char>)
    requires
        s.in_action_file,
    ensures
        prefix(s.exported_idents, note_exports(s, item).exported_idents),
        note_exports(s, item).exported_idents.contains((id, name))
            <==> s.exported_idents.contains((id, name)) || exports_as(item, id, name) || (
        lacks_name(item) && id == given_id(s.ident_cnt) && name == "default"@),
{
    note_exports_extends(s, item);
    reveal(note_exports);
    let before = s.exported_idents;
    match item {
        ModuleItemView::ExportDecl(_, DeclView::Fn(f)) => {
            in_push(before, (f.ident.id(), f.ident.sym), (id, name));
        },
        ModuleItemView::ExportDecl(_, DeclView::Var(v)) => {
            let ids = idents_in_var_decls(v.decls);
            vars_collected(v.decls, id);
            own_names_hold(ids, id, name);
            in_either(before, own_names(ids), (id, name));
        },
        ModuleItemView::ExportNamed(n) => {
            specifiers_are_recorded(n.specifiers, id, name);
            in_either(before, specifier_exports(n.specifiers), (id, name));
        },
        ModuleItemView::ExportDefaultDecl(_, DefaultDeclView::Fn(f)) => {
            let x = match f.ident {
                Some(i) => i.id(),
                None => plain_action_ident(s).id(),
            };
            in_push(before, (x, "default"@), (id, name));
        },
        ModuleItemView::ExportDefaultExpr(_, e) => {
            in_push(before, (plain_action_ident(s).id(), "default"@), (id, name));
            if let ExprView::Ident(i) = *e {
                in_push(before, (i.id(), "default"@), (id, name));
            }
        },
        _ => {},
    }
}

/// Recording the exports of an item changes nothing but what is recorded and
/// reported, except that a default export that lacks a name takes the next
/// number. If it is an expression, a variable of that name is declared.
pub proof fn recording_changes_nothing_else(s: State, item: ModuleItemView)
    ensures
        ({
            let t = note_exports(s, item);
            &&& t == (State {
                errors: t.errors,
                exported_idents: t.exported_idents,
                ident_cnt: s.ident_cnt + if lacks_name(item) {
                    1nat
                } else {
                    0nat
                },
                extra_items: t.extra_items,
                ..s
            })
            &&& if lacks_name(item) && item is ExportDefaultExpr {
                &&& t.extra_items.len() == s.extra_items.len() + 1
                &&& t.extra_items.drop_last() == s.extra_items
                &&& declares_name(t.extra_items.last(), plain_ident(s.ident_cnt))
            } else {
                t.extra_items == s.extra_items
            }
        }),
{
    reveal(note_exports);
    assert(note_exports(s, item).extra_items.drop_last() =~= s.extra_items
        || note_exports(s, item).extra_items == s.extra_items);
}

// ---- The whole file ----

/// The walk over an item of a `"use server"` file begins with its exports, and
/// loses nothing of them.
proof fn item_begins_with_exports(s: State, item: ModuleItemView)
    requires
        s.in_action_file,
    ensures
        ({
            let s2 = note_exports(s, item);
            let t = visit_top_item(s, item).0;
            &&& prefix(s.errors, s2.errors)
            &&& prefix(s2.errors, t.errors)
            &&& prefix(s.exported_idents, s2.exported_idents)
            &&& prefix(s2.exported_idents, t.exported_idents)
        }),
{
    let s2 = note_exports(s, item);
    note_exports_extends(s, item);
    visit_exported_item_extends(s2, default_name(s, item), item);
}

/// The walk over the items before the last one, and over the last one.
proof fn last_of_items(s: State, v: Seq<ModuleItemView>)
    requires
        s.in_action_file,
        v.len() > 0,
    ensures
        ({
            let s1 = State { top_level: true, ..visit_items_in_turn(s, v.drop_last()).0 };
            let u = visit_top_item(s1, v.last()).0;
            let t = visit_items_in_turn(s, v).0;
            &&& s1.in_action_file
            &&& t.errors == u.errors
            &&& t.exported_idents == u.exported_idents
        }),
{
    visit_items_in_turn_extends(s, v.drop_last());
}

/// The walk over a list of items of a `"use server"` file reports each of them
/// that exports what may not be exported.
proof fn items_are_reported(s: State, v: Seq<ModuleItemView>, i: int)
    requires
        s.in_action_file,
        0 <= i < v.len(),
        refused(v[i]),
        place(v[i]) != nowhere(),
    ensures
        visit_items_in_turn(s, v).0.errors.contains(refusal(v[i])),
    decreases v.len(),
{
    let s1 = State { top_level: true, ..visit_items_in_turn(s, v.drop_last()).0 };
    let s2 = note_exports(s1, v.last());
    let t = visit_items_in_turn(s, v).0;
    last_of_items(s, v);
    item_begins_with_exports(s1, v.last());
    if i == v.len() - 1 {
        refused_exports_are_reported(s1, v.last());
        assert(s2.errors.last() == refusal(v[i]));
    } else {
        items_are_reported(s, v.drop_last(), i);
        still_reported(s1.errors, s2.errors, refusal(v[i]));
    }
    still_reported(s2.errors, t.errors, refusal(v[i]));
}

/// The walk over a list of items of a `"use server"` file records the exports of
/// each of them.
proof fn items_are_recorded(
    s: State,
    v: Seq<ModuleItemView>,
    i: int,
    id: IdView,
    name: Seq<char>,
)
    requires
        s.in_action_file,
        0 <= i < v.len(),
        exports_as(v[i], id, name),
    ensures
        visit_items_in_turn(s, v).0.exported_idents.contains((id, name)),
    decreases v.len(),
{
    let s1 = State { top_level: true, ..visit_items_in_turn(s, v.drop_last()).0 };
    let s2 = note_exports(s1, v.last());
    let t = visit_items_in_turn(s, v).0;
    last_of_items(s, v);
    item_begins_with_exports(s1, v.last());
    if i == v.len() - 1 {
        exports_are_recorded(s1, v.last(), id, name);
    } else {
        items_are_recorded(s, v.drop_last(), i, id, name);
        still_exported(s1.exported_idents, s2.exported_idents, (id, name));
    }
    still_exported(s2.exported_idents, t.exported_idents, (id, name));
}

/// The walk over a list of items of a `"use server"` file records each default
/// export that lacks a name under a generated one.
proof fn items_are_named(s: State, v: Seq<ModuleItemView>, i: int) -> (n: nat)
    requires
        s.in_action_file,
        0 <= i < v.len(),
        lacks_name(v[i]),
    ensures
        visit_items_in_turn(s, v).0.exported_idents.contains((given_id(n), "default"@)),
    decreases v.len(),
{
    let s1 = State { top_level: true, ..visit_items_in_turn(s, v.drop_last()).0 };
    let s2 = note_exports(s1, v.last());
    let t = visit_items_in_turn(s, v).0;
    last_of_items(s, v);
    item_begins_with_exports(s1, v.last());
    let n = if i == v.len() - 1 {
        exports_are_recorded(s1, v.last(), given_id(s1.ident_cnt), "default"@);
        s1.ident_cnt
    } else {
        let n = items_are_named(s, v.drop_last(), i);
        still_exported(s1.exported_idents, s2.exported_idents, (given_id(n), "default"@));
        n
    };
    still_exported(s2.exported_idents, t.exported_idents, (given_id(n), "default"@));
    n
}

proof fn still_reported(a: Seq<Diagnostic>, b: Seq<Diagnostic>, x: Diagnostic)
    requires
        prefix(a, b),
        a.contains(x),
    ensures
        b.contains(x),
{
    reveal(prefix);
    let i = choose|i: int| 0 <= i < a.len() && a[i] == x;
    assert(b[i] == x);
}

proof fn still_exported(
    a: Seq<(IdView, Seq<char>)>,
    b: Seq<(IdView, Seq<char>)>,
    x: (IdView, Seq<char>),
)
    requires
        prefix(a, b),
        a.contains(x),
    ensures
        b.contains(x),
{
    reveal(prefix);
    let i = choose|i: int| 0 <= i < a.len() && a[i] == x;
    assert(b[i] == x);
}

/// A `"use server"` file reports each item that exports what may not be
/// exported, and records each export.
pub proof fn file_reports_and_records(
    file_name: Seq<char>,
    config: Config,
    m: ModuleView,
    i: int,
)
    requires
        file_marked(m.body),
        0 <= i < m.body.len(),
    ensures
        ({
            let t = visit_module(initial_state(file_name, config), m).0;
            let item = m.body[i];
            &&& refused(item) && place(item) != nowhere() ==> t.errors.contains(refusal(item))
            &&& forall|id: IdView, name: Seq<char>| #[trigger]
                exports_as(item, id, name) ==> t.exported_idents.contains((id, name))
            &&& lacks_name(item) ==> exists|n: nat|
                t.exported_idents.contains((#[trigger] given_id(n), "default"@))
        }),
{
    let s = State { start_pos: m.span.lo, ..initial_state(file_name, config) };
    let v = m.body;
    file_directive_is_where_marked(v, i);
    let k = module_directive(v)->0;
    file_directive_is_where_marked(v, k);
    let s1 = State { annotations: Seq::empty(), ..enter_items(s, v) };
    let w = without(v, module_directive(v));
    assert(w == v.remove(k));
    let s2 = visit_items_in_turn(s1, w).0;
    let t = visit_module(initial_state(file_name, config), m).0;
    assert(t.errors == s2.errors && t.exported_idents == s2.exported_idents) by {
        reveal(leave_items);
    }
    if i != k {
        let j = if i < k {
            i
        } else {
            i - 1
        };
        assert(w[j] == v[i]);
        if refused(v[i]) && place(v[i]) != nowhere() {
            items_are_reported(s1, w, j);
        }
        assert forall|id: IdView, name: Seq<char>| #[trigger]
            exports_as(v[i], id, name) implies t.exported_idents.contains((id, name)) by {
            items_are_recorded(s1, w, j, id, name);
        }
        if lacks_name(v[i]) {
            let n = items_are_named(s1, w, j);
            assert(t.exported_idents.contains((given_id(n), "default"@)));
        }
    }
}

// ---- Nothing else is reported or recorded ----

/// From an index on every error is about an action that is not async.
#[verifier::opaque]
pub open spec fn not_async_from(errors: Seq<Diagnostic>, k: int) -> bool {
    forall|i: int|
        0 <= i && k <= i < errors.len() ==> (#[trigger] errors[i]).problem == Problem::NotAsync
}

proof fn report_silent(k: int, s: State, span: Span)
    requires
        not_async_from(s.errors, k),
    ensures
        not_async_from(report(s, span, Problem::NotAsync).errors, k),
{
    reveal(not_async_from);
}

pub open spec fn unnested_expr(e: ExprView) -> bool
    decreases e, 1int,
{
    unnested_children(e)
}

pub open spec fn unnested_children(e: ExprView) -> bool
    decreases e, 0int,
{
    match e {
        ExprView::Ident(_) => true,
        ExprView::Str(_, _) => true,
        ExprView::Member(m) => unnested_expr(*m.obj),
        ExprView::OptMember(m) => unnested_expr(*m.obj),
        ExprView::Fn(f) => unnested_function(f.function),
        ExprView::Arrow(a) => unnested_arrow(a),
        ExprView::Call(callee, args) => unnested_expr(*callee) && unnested_exprs(args),
        ExprView::Assign(target, value) => unnested_expr(*target) && unnested_expr(*value),
        ExprView::Define(_, value) => unnested_expr(*value),
        ExprView::Paren(inner) => unnested_expr(*inner),
        ExprView::Array(elems) => unnested_exprs(elems),
        ExprView::Index(obj, _) => unnested_expr(*obj),
        ExprView::Other(o) => unnested_other(o),
    }
}

pub open spec fn unnested_function(f: FunctionView) -> bool
    decreases f, 1int,
{
    unnested_params(f.params) && unnested_decorators(f.decorators) && unnested_opt_block(f.body)
}

pub open spec fn unnested_opt_block(b: Option<BlockView>) -> bool
    decreases b, 1int,
{
    match b {
        Some(block) => unnested_block(block),
        None => true,
    }
}

pub open spec fn unnested_block(b: BlockView) -> bool
    decreases b, 1int,
{
    unnested_stmts(b.stmts)
}

pub open spec fn unnested_arrow(a: ArrowView) -> bool
    decreases a, 1int,
{
    unnested_pats(a.params) && match a.body {
        ArrowBodyView::Block(b) => unnested_block(b),
        ArrowBodyView::Expr(e) => unnested_expr(*e),
    }
}

pub open spec fn unnested_param(p: ParamView) -> bool
    decreases p, 1int,
{
    unnested_decorators(p.decorators) && unnested_pat(p.pat)
}

pub open spec fn unnested_pat(p: PatView) -> bool
    decreases p, 1int,
{
    unnested_exprs(p.exprs)
}

pub open spec fn unnested_decorator(d: DecoratorView) -> bool
    decreases d, 1int,
{
    unnested_expr(d.expr)
}

pub open spec fn unnested_stmt(s: StmtView) -> bool
    decreases s, 1int,
{
    match s {
        StmtView::Expr(_, e) => unnested_expr(*e),
        StmtView::Decl(d) => unnested_decl(d),
        StmtView::Return(e) => unnested_expr(*e),
        StmtView::Other(o) => unnested_other(o),
    }
}

pub open spec fn unnested_decl(d: DeclView) -> bool
    decreases d, 1int,
{
    match d {
        DeclView::Fn(f) => unnested_function(f.function),
        DeclView::Var(v) => unnested_declarators(v.decls),
        DeclView::Other(o) => unnested_other(o),
    }
}

pub open spec fn unnested_declarator(d: DeclaratorView) -> bool
    decreases d, 1int,
{
    unnested_pat(d.name) && match d.init {
        Some(e) => unnested_expr(*e),
        None => true,
    }
}

pub open spec fn unnested_prop(p: PropView) -> bool
    decreases p, 1int,
{
    match p {
        PropView::Shorthand(_) => true,
        PropView::KeyValue(_, value) => unnested_expr(*value),
        PropView::Other(o) => unnested_other(o),
    }
}

pub open spec fn unnested_other(o: OtherView) -> bool
    decreases o, 1int,
{
    unnested_nodes(o.kids)
}

pub open spec fn unnested_node(n: NodeView) -> bool
    decreases n, 1int,
{
    match n {
        NodeView::Expr(e) => unnested_expr(e),
        NodeView::Stmt(s) => unnested_stmt(s),
        NodeView::Stmts(v) => unnested_stmts(v),
        NodeView::Param(p) => unnested_param(p),
        NodeView::Prop(p) => unnested_prop(p),
        NodeView::Items(_) => false,
    }
}

pub open spec fn unnested_item(item: ModuleItemView) -> bool
    decreases item, 1int,
{
    match item {
        ModuleItemView::Stmt(s) => unnested_stmt(s),
        ModuleItemView::ExportDecl(_, d) => unnested_decl(d),
        ModuleItemView::ExportNamed(n) => unnested_other(n.rest),
        ModuleItemView::ExportDefaultDecl(_, DefaultDeclView::Fn(f)) =>
            unnested_function(f.function),
        ModuleItemView::ExportDefaultDecl(_, DefaultDeclView::Other(o)) => unnested_other(o),
        ModuleItemView::ExportDefaultExpr(_, e) => unnested_expr(*e),
        ModuleItemView::ExportAll(_, o) => unnested_other(o),
        ModuleItemView::Other(o) => unnested_other(o),
    }
}

pub open spec fn unnested_exprs(v: Seq<ExprView>) -> bool
    decreases v, 3int,
{
    forall|i: int| 0 <= i < v.len() ==> unnested_expr(#[trigger] v[i])
}

pub open spec fn unnested_params(v: Seq<ParamView>) -> bool
    decreases v, 3int,
{
    forall|i: int| 0 <= i < v.len() ==> unnested_param(#[trigger] v[i])
}

pub open spec fn unnested_decorators(v: Seq<DecoratorView>) -> bool
    decreases v, 3int,
{
    forall|i: int| 0 <= i < v.len() ==> unnested_decorator(#[trigger] v[i])
}

pub open spec fn unnested_pats(v: Seq<PatView>) -> bool
    decreases v, 3int,
{
    forall|i: int| 0 <= i < v.len() ==> unnested_pat(#[trigger] v[i])
}

pub open spec fn unnested_declarators(v: Seq<DeclaratorView>) -> bool
    decreases v, 3int,
{
    forall|i: int| 0 <= i < v.len() ==> unnested_declarator(#[trigger] v[i])
}

pub open spec fn unnested_nodes(v: Seq<NodeView>) -> bool
    decreases v, 3int,
{
    forall|i: int| 0 <= i < v.len() ==> unnested_node(#[trigger] v[i])
}

pub open spec fn unnested_stmts(v: Seq<StmtView>) -> bool
    decreases v, 3int,
{
    forall|i: int| 0 <= i < v.len() ==> unnested_stmt(#[trigger] v[i])
}

pub open spec fn unnested_items(v: Seq<ModuleItemView>) -> bool
    decreases v, 3int,
{
    forall|i: int| 0 <= i < v.len() ==> unnested_item(#[trigger] v[i])
}

proof fn add_action_silent(s: State, ident: IdentView, c: CallableView)
    ensures
        add_action(s, ident, c).0.top_level == s.top_level,
        add_action(s, ident, c).0.in_action_file == s.in_action_file,
        add_action(s, ident, c).0.exported_idents == s.exported_idents,
        add_action(s, ident, c).0.errors == s.errors,
{
    reveal(add_action);
}

proof fn finish_function_silent(
    k: int,
    s: State,
    span: Span,
    ident: IdentView,
    f: FunctionView,
)
    requires
        not_async_from(s.errors, k),
    ensures
        finish_function(s, span, ident, f).0.top_level == s.top_level,
        finish_function(s, span, ident, f).0.in_action_file == s.in_action_file,
        finish_function(s, span, ident, f).0.exported_idents == s.exported_idents,
        not_async_from(finish_function(s, span, ident, f).0.errors, k),
{
    reveal(finish_function);
    report_silent(k, s, span);
    add_action_silent(s, ident, CallableView::Function(f));
}

proof fn finish_expr_silent(k: int, s: State, e: ExprView)
    ensures
        finish_expr(s, e).0.top_level == s.top_level,
        finish_expr(s, e).0.in_action_file == s.in_action_file,
        finish_expr(s, e).0.exported_idents == s.exported_idents,
        finish_expr(s, e).0.errors == s.errors,
{
    reveal(finish_expr);
    if let ExprView::Arrow(a) = e {
        reveal(finish_arrow);
        add_action_silent(
            take_ident(s),
            action_ident(s.ident_cnt),
            CallableView::Arrow(without_directive(a)),
        );
    }
}

proof fn silent_expr(k: int, s: State, e: ExprView)
    requires
        unnested_expr(e),
        not_async_from(s.errors, k),
    ensures
        visit_expr(s, e).0.top_level == s.top_level,
        visit_expr(s, e).0.in_action_file == s.in_action_file,
        visit_expr(s, e).0.exported_idents == s.exported_idents,
        not_async_from(visit_expr(s, e).0.errors, k),
    decreases e, 2int,
{
    if collects_names(s) && name_of(e) is Some {
        let s1 = State {
            scope: Scope { in_action_closure: false, ..s.scope },
            ..use_name(s, name_of(e)->0)
        };
        silent_expr_children(k, s1, e);
    } else {
        silent_expr_children(k, s, e);
        let (s1, e1) = visit_expr_children(s, e);
        finish_expr_silent(k, s1, e1);
    }
}

proof fn silent_expr_children(k: int, s: State, e: ExprView)
    requires
        unnested_children(e),
        not_async_from(s.errors, k),
    ensures
        visit_expr_children(s, e).0.top_level == s.top_level,
        visit_expr_children(s, e).0.in_action_file == s.in_action_file,
        visit_expr_children(s, e).0.exported_idents == s.exported_idents,
        not_async_from(visit_expr_children(s, e).0.errors, k),
    decreases e, 1int,
{
    match e {
        ExprView::Ident(_) => {},
        ExprView::Str(_, _) => {},
        ExprView::Member(m) => {
            silent_member(k, s, m);
        },
        ExprView::OptMember(m) => {
            silent_member(k, s, m);
        },
        ExprView::Fn(f) => {
            silent_fn_expr(k, s, f.ident, f.function);
        },
        ExprView::Arrow(a) => {
            silent_arrow(k, s, a);
        },
        ExprView::Call(callee, args) => {
            silent_expr(k, s, *callee);
            let s1 = visit_expr(s, *callee).0;
            silent_exprs(k, s1, args);
        },
        ExprView::Assign(target, value) => {
            silent_expr(k, s, *target);
            let s1 = visit_expr(s, *target).0;
            silent_expr(k, s1, *value);
        },
        ExprView::Define(_, value) => {
            silent_expr(k, s, *value);
        },
        ExprView::Paren(inner) => {
            silent_expr(k, s, *inner);
        },
        ExprView::Array(elems) => {
            silent_exprs(k, s, elems);
        },
        ExprView::Index(obj, _) => {
            silent_expr(k, s, *obj);
        },
        ExprView::Other(o) => {
            silent_other(k, s, o);
        },
    }
}

proof fn silent_member(k: int, s: State, m: MemberView)
    requires
        unnested_expr(*m.obj),
        not_async_from(s.errors, k),
    ensures
        visit_member(s, m).0.top_level == s.top_level,
        visit_member(s, m).0.in_action_file == s.in_action_file,
        visit_member(s, m).0.exported_idents == s.exported_idents,
        not_async_from(visit_member(s, m).0.errors, k),
    decreases m, 0int,
{
    silent_expr(k, s, *m.obj);
}

proof fn silent_opt_expr(k: int, s: State, e: Option<Box<ExprView>>)
    requires
        e is Some ==> unnested_expr(*e->0),
        not_async_from(s.errors, k),
    ensures
        visit_opt_expr(s, e).0.top_level == s.top_level,
        visit_opt_expr(s, e).0.in_action_file == s.in_action_file,
        visit_opt_expr(s, e).0.exported_idents == s.exported_idents,
        not_async_from(visit_opt_expr(s, e).0.errors, k),
    decreases e, 3int,
{
    if let Some(inner) = e {
        silent_expr(k, s, *inner);
    }
}

proof fn silent_fn_expr(k: int, s: State, ident: Option<IdentView>, f: FunctionView)
    requires
        unnested_function(f),
        not_async_from(s.errors, k),
    ensures
        visit_fn_expr(s, ident, f).0.top_level == s.top_level,
        visit_fn_expr(s, ident, f).0.in_action_file == s.in_action_file,
        visit_fn_expr(s, ident, f).0.exported_idents == s.exported_idents,
        not_async_from(visit_fn_expr(s, ident, f).0.errors, k),
    decreases f, 2int,
{
    silent_function(k, s, f);
    let (s1, f1) = visit_function(s, f);
    if is_action(s, f.body) {
        let (s2, ident2) = name_action(s1, ident, f1);
        finish_function_silent(k, s2, f1.span, ident2->0, f1);
    }
}

proof fn silent_fn_decl(k: int, s: State, d: FnDeclView)
    requires
        unnested_function(d.function),
        not_async_from(s.errors, k),
    ensures
        visit_fn_decl(s, d).0.top_level == s.top_level,
        visit_fn_decl(s, d).0.in_action_file == s.in_action_file,
        visit_fn_decl(s, d).0.exported_idents == s.exported_idents,
        not_async_from(visit_fn_decl(s, d).0.errors, k),
    decreases d, 0int,
{
    silent_function(k, s, d.function);
    let (s1, f1) = visit_function(s, d.function);
    finish_function_silent(k, s1, d.ident.span, d.ident, f1);
}

proof fn silent_function(k: int, s: State, f: FunctionView)
    requires
        unnested_function(f),
        not_async_from(s.errors, k),
    ensures
        visit_function(s, f).0.top_level == s.top_level,
        visit_function(s, f).0.in_action_file == s.in_action_file,
        visit_function(s, f).0.exported_idents == s.exported_idents,
        not_async_from(visit_function(s, f).0.errors, k),
    decreases f, 1int,
{
    let s0 = enter_function(s, is_action(s, f.body));
    silent_function_parts(k, s0, f, action_directive(s, f.body));
}

proof fn silent_function_parts(k: int, s: State, f: FunctionView, directive: Option<int>)
    requires
        unnested_function(f),
        not_async_from(s.errors, k),
    ensures
        ({
            let (s1, params) = visit_params(s, f.params);
            let (s2, decorators) = visit_decorators(s1, f.decorators);
            let (s3, body) = visit_fn_body(s2, f.body, directive);
            s3.top_level == s.top_level && s3.in_action_file == s.in_action_file
                && s3.exported_idents == s.exported_idents && not_async_from(s3.errors, k)
        }),
    decreases f, 0int,
{
    silent_params(k, s, f.params);
    let s1 = visit_params(s, f.params).0;
    silent_decorators(k, s1, f.decorators);
    let s2 = visit_decorators(s1, f.decorators).0;
    silent_fn_body(k, s2, f.body, directive);
}

proof fn silent_fn_body(k: int, s: State, body: Option<BlockView>, directive: Option<int>)
    requires
        unnested_opt_block(body),
        not_async_from(s.errors, k),
    ensures
        visit_fn_body(s, body, directive).0.top_level == s.top_level,
        visit_fn_body(s, body, directive).0.in_action_file == s.in_action_file,
        visit_fn_body(s, body, directive).0.exported_idents == s.exported_idents,
        not_async_from(visit_fn_body(s, body, directive).0.errors, k),
    decreases body, 0int,
{
    if let Some(b) = body {
        without_decreases(b.stmts, directive);
        without_is_part(b.stmts, directive);
        silent_stmts(k, s, without(b.stmts, directive));
    }
}

proof fn silent_arrow(k: int, s: State, a: ArrowView)
    requires
        unnested_arrow(a),
        not_async_from(s.errors, k),
    ensures
        visit_arrow(s, a).0.top_level == s.top_level,
        visit_arrow(s, a).0.in_action_file == s.in_action_file,
        visit_arrow(s, a).0.exported_idents == s.exported_idents,
        not_async_from(visit_arrow(s, a).0.errors, k),
    decreases a, 1int,
{
    let s0 = enter_function(s, is_action(s, arrow_block(a)));
    silent_arrow_parts(k, s0, a);
    let s1 = visit_pats(s0, a.params).0;
    let s2 = visit_arrow_body(s1, a.body).0;
    report_silent(k, leave_function(s, s2), a.span);
}

proof fn silent_arrow_parts(k: int, s: State, a: ArrowView)
    requires
        unnested_arrow(a),
        not_async_from(s.errors, k),
    ensures
        ({
            let (s1, params) = visit_pats(s, a.params);
            let (s2, body) = visit_arrow_body(s1, a.body);
            s2.top_level == s.top_level && s2.in_action_file == s.in_action_file
                && s2.exported_idents == s.exported_idents && not_async_from(s2.errors, k)
        }),
    decreases a, 0int,
{
    silent_pats(k, s, a.params);
    let s1 = visit_pats(s, a.params).0;
    silent_arrow_body(k, s1, a.body);
}

proof fn silent_arrow_body(k: int, s: State, body: ArrowBodyView)
    requires
        match body {
            ArrowBodyView::Block(b) => unnested_block(b),
            ArrowBodyView::Expr(e) => unnested_expr(*e),
        },
        not_async_from(s.errors, k),
    ensures
        visit_arrow_body(s, body).0.top_level == s.top_level,
        visit_arrow_body(s, body).0.in_action_file == s.in_action_file,
        visit_arrow_body(s, body).0.exported_idents == s.exported_idents,
        not_async_from(visit_arrow_body(s, body).0.errors, k),
    decreases body, 0int,
{
    match body {
        ArrowBodyView::Block(b) => {
            silent_stmts(k, s, b.stmts);
        },
        ArrowBodyView::Expr(e) => {
            silent_expr(k, s, *e);
        },
    }
}

proof fn silent_param(k: int, s: State, p: ParamView)
    requires
        unnested_param(p),
        not_async_from(s.errors, k),
    ensures
        visit_param(s, p).0.top_level == s.top_level,
        visit_param(s, p).0.in_action_file == s.in_action_file,
        visit_param(s, p).0.exported_idents == s.exported_idents,
        not_async_from(visit_param(s, p).0.errors, k),
    decreases p, 1int,
{
    silent_decorators(k, s, p.decorators);
    let s1 = visit_decorators(s, p.decorators).0;
    silent_pat(k, s1, p.pat);
}

proof fn silent_pat(k: int, s: State, p: PatView)
    requires
        unnested_pat(p),
        not_async_from(s.errors, k),
    ensures
        visit_pat(s, p).0.top_level == s.top_level,
        visit_pat(s, p).0.in_action_file == s.in_action_file,
        visit_pat(s, p).0.exported_idents == s.exported_idents,
        not_async_from(visit_pat(s, p).0.errors, k),
    decreases p, 1int,
{
    silent_exprs(k, s, p.exprs);
}

proof fn silent_decorator(k: int, s: State, d: DecoratorView)
    requires
        unnested_decorator(d),
        not_async_from(s.errors, k),
    ensures
        visit_decorator(s, d).0.top_level == s.top_level,
        visit_decorator(s, d).0.in_action_file == s.in_action_file,
        visit_decorator(s, d).0.exported_idents == s.exported_idents,
        not_async_from(visit_decorator(s, d).0.errors, k),
    decreases d, 1int,
{
    silent_expr(k, s, d.expr);
}

proof fn silent_stmt(k: int, s: State, stmt: StmtView)
    requires
        unnested_stmt(stmt),
        not_async_from(s.errors, k),
    ensures
        visit_stmt(s, stmt).0.top_level == s.top_level,
        visit_stmt(s, stmt).0.in_action_file == s.in_action_file,
        visit_stmt(s, stmt).0.exported_idents == s.exported_idents,
        not_async_from(visit_stmt(s, stmt).0.errors, k),
    decreases stmt, 2int,
{
    silent_stmt_children(k, s, stmt);
}

proof fn silent_stmt_children(k: int, s: State, stmt: StmtView)
    requires
        unnested_stmt(stmt),
        not_async_from(s.errors, k),
    ensures
        visit_stmt_children(s, stmt).0.top_level == s.top_level,
        visit_stmt_children(s, stmt).0.in_action_file == s.in_action_file,
        visit_stmt_children(s, stmt).0.exported_idents == s.exported_idents,
        not_async_from(visit_stmt_children(s, stmt).0.errors, k),
    decreases stmt, 1int,
{
    match stmt {
        StmtView::Expr(_, e) => {
            silent_expr(k, s, *e);
        },
        StmtView::Decl(d) => {
            silent_decl(k, s, d);
        },
        StmtView::Return(e) => {
            silent_expr(k, s, *e);
        },
        StmtView::Other(o) => {
            silent_other(k, s, o);
        },
    }
}

proof fn silent_decl(k: int, s: State, d: DeclView)
    requires
        unnested_decl(d),
        not_async_from(s.errors, k),
    ensures
        visit_decl(s, d).0.top_level == s.top_level,
        visit_decl(s, d).0.in_action_file == s.in_action_file,
        visit_decl(s, d).0.exported_idents == s.exported_idents,
        not_async_from(visit_decl(s, d).0.errors, k),
    decreases d, 1int,
{
    match d {
        DeclView::Fn(f) => {
            silent_fn_decl(k, s, f);
        },
        DeclView::Var(v) => {
            silent_declarators(k, s, v.decls);
        },
        DeclView::Other(o) => {
            silent_other(k, s, o);
        },
    }
}

proof fn silent_declarator(k: int, s: State, d: DeclaratorView)
    requires
        unnested_declarator(d),
        not_async_from(s.errors, k),
    ensures
        visit_declarator(s, d).0.top_level == s.top_level,
        visit_declarator(s, d).0.in_action_file == s.in_action_file,
        visit_declarator(s, d).0.exported_idents == s.exported_idents,
        not_async_from(visit_declarator(s, d).0.errors, k),
    decreases d, 1int,
{
    silent_pat(k, s, d.name);
    let s1 = visit_pat(s, d.name).0;
    silent_opt_expr(k, s1, d.init);
}

proof fn silent_prop(k: int, s: State, p: PropView)
    requires
        unnested_prop(p),
        not_async_from(s.errors, k),
    ensures
        visit_prop(s, p).0.top_level == s.top_level,
        visit_prop(s, p).0.in_action_file == s.in_action_file,
        visit_prop(s, p).0.exported_idents == s.exported_idents,
        not_async_from(visit_prop(s, p).0.errors, k),
    decreases p, 1int,
{
    match p {
        PropView::Shorthand(_) => {},
        PropView::KeyValue(_, value) => {
            silent_expr(k, s, *value);
        },
        PropView::Other(o) => {
            silent_other(k, s, o);
        },
    }
}

proof fn silent_other(k: int, s: State, o: OtherView)
    requires
        unnested_other(o),
        not_async_from(s.errors, k),
    ensures
        visit_other(s, o).0.top_level == s.top_level,
        visit_other(s, o).0.in_action_file == s.in_action_file,
        visit_other(s, o).0.exported_idents == s.exported_idents,
        not_async_from(visit_other(s, o).0.errors, k),
    decreases o, 1int,
{
    silent_nodes(k, s, o.kids);
}

proof fn silent_node(k: int, s: State, n: NodeView)
    requires
        unnested_node(n),
        not_async_from(s.errors, k),
    ensures
        visit_node(s, n).0.top_level == s.top_level,
        visit_node(s, n).0.in_action_file == s.in_action_file,
        visit_node(s, n).0.exported_idents == s.exported_idents,
        not_async_from(visit_node(s, n).0.errors, k),
    decreases n, 1int,
{
    match n {
        NodeView::Expr(e) => {
            silent_expr(k, s, e);
        },
        NodeView::Stmt(stmt) => {
            silent_stmt(k, s, stmt);
        },
        NodeView::Stmts(v) => {
            silent_stmts(k, s, v);
        },
        NodeView::Param(p) => {
            silent_param(k, s, p);
        },
        NodeView::Prop(p) => {
            silent_prop(k, s, p);
        },
        NodeView::Items(_) => {},
    }
}

proof fn silent_stmts(k: int, s: State, v: Seq<StmtView>)
    requires
        unnested_stmts(v),
        not_async_from(s.errors, k),
    ensures
        visit_stmts(s, v).0.top_level == s.top_level,
        visit_stmts(s, v).0.in_action_file == s.in_action_file,
        visit_stmts(s, v).0.exported_idents == s.exported_idents,
        not_async_from(visit_stmts(s, v).0.errors, k),
    decreases v, 5int,
{
    silent_stmts_in_turn(k, State { annotations: Seq::empty(), ..s }, v);
}

proof fn silent_stmts_in_turn(k: int, s: State, v: Seq<StmtView>)
    requires
        unnested_stmts(v),
        not_async_from(s.errors, k),
    ensures
        visit_stmts_in_turn(s, v).0.in_action_file == s.in_action_file,
        visit_stmts_in_turn(s, v).0.exported_idents == s.exported_idents,
        not_async_from(visit_stmts_in_turn(s, v).0.errors, k),
    decreases v, 4int,
{
    if v.len() != 0 {
        silent_stmts_in_turn(k, s, v.drop_last());
        let s1 = visit_stmts_in_turn(s, v.drop_last()).0;
        let t = State { top_level: false, ..s1 };
        silent_stmt(k, t, v.last());
    }
}

proof fn silent_exported_item(k: int, s: State, name: Option<IdentView>, item: ModuleItemView)
    requires
        unnested_item(item),
        not_async_from(s.errors, k),
    ensures
        visit_exported_item(s, name, item).0.top_level == s.top_level,
        visit_exported_item(s, name, item).0.in_action_file == s.in_action_file,
        visit_exported_item(s, name, item).0.exported_idents == s.exported_idents,
        not_async_from(visit_exported_item(s, name, item).0.errors, k),
    decreases item, 2int,
{
    match item {
        ModuleItemView::ExportDefaultDecl(span, DefaultDeclView::Fn(f)) => {
            let ident = if f.ident is Some {
                f.ident
            } else {
                name
            };
            silent_default_fn(k, s, ident, f.function);
        },
        ModuleItemView::ExportDefaultExpr(span, e) => {
            silent_default_expr(k, s, *e);
        },
        _ => {
            silent_item(k, s, item);
        },
    }
}

proof fn silent_export_decl(k: int, s: State, d: DeclView)
    requires
        unnested_decl(d),
        not_async_from(s.errors, k),
    ensures
        visit_export_decl(s, d).0.top_level == s.top_level,
        visit_export_decl(s, d).0.in_action_file == s.in_action_file,
        visit_export_decl(s, d).0.exported_idents == s.exported_idents,
        not_async_from(visit_export_decl(s, d).0.errors, k),
    decreases d, 2int,
{
    silent_decl(k, export_scope(s), d);
}

proof fn silent_default_fn(k: int, s: State, ident: Option<IdentView>, f: FunctionView)
    requires
        unnested_function(f),
        not_async_from(s.errors, k),
    ensures
        visit_default_fn(s, ident, f).0.top_level == s.top_level,
        visit_default_fn(s, ident, f).0.in_action_file == s.in_action_file,
        visit_default_fn(s, ident, f).0.exported_idents == s.exported_idents,
        not_async_from(visit_default_fn(s, ident, f).0.errors, k),
    decreases f, 3int,
{
    silent_fn_expr(k, default_scope(s), ident, f);
}

proof fn silent_default_decl(k: int, s: State, d: DefaultDeclView)
    requires
        match d {
            DefaultDeclView::Fn(f) => unnested_function(f.function),
            DefaultDeclView::Other(o) => unnested_other(o),
        },
        not_async_from(s.errors, k),
    ensures
        visit_default_decl(s, d).0.top_level == s.top_level,
        visit_default_decl(s, d).0.in_action_file == s.in_action_file,
        visit_default_decl(s, d).0.exported_idents == s.exported_idents,
        not_async_from(visit_default_decl(s, d).0.errors, k),
    decreases d, 2int,
{
    match d {
        DefaultDeclView::Fn(f) => {
            silent_default_fn(k, s, f.ident, f.function);
        },
        DefaultDeclView::Other(o) => {
            silent_other(k, default_scope(s), o);
        },
    }
}

proof fn silent_default_expr(k: int, s: State, e: ExprView)
    requires
        unnested_expr(e),
        not_async_from(s.errors, k),
    ensures
        visit_default_expr(s, e).0.top_level == s.top_level,
        visit_default_expr(s, e).0.in_action_file == s.in_action_file,
        visit_default_expr(s, e).0.exported_idents == s.exported_idents,
        not_async_from(visit_default_expr(s, e).0.errors, k),
    decreases e, 3int,
{
    silent_expr(k, default_scope(s), e);
}

proof fn silent_item(k: int, s: State, item: ModuleItemView)
    requires
        unnested_item(item),
        not_async_from(s.errors, k),
    ensures
        visit_item(s, item).0.top_level == s.top_level,
        visit_item(s, item).0.in_action_file == s.in_action_file,
        visit_item(s, item).0.exported_idents == s.exported_idents,
        not_async_from(visit_item(s, item).0.errors, k),
    decreases item, 1int,
{
    match item {
        ModuleItemView::Stmt(stmt) => {
            silent_stmt(k, s, stmt);
        },
        ModuleItemView::ExportDecl(span, d) => {
            silent_export_decl(k, s, d);
        },
        ModuleItemView::ExportNamed(n) => {
            silent_other(k, s, n.rest);
        },
        ModuleItemView::ExportDefaultDecl(span, d) => {
            silent_default_decl(k, s, d);
        },
        ModuleItemView::ExportDefaultExpr(span, e) => {
            silent_default_expr(k, s, *e);
        },
        ModuleItemView::ExportAll(span, o) => {
            silent_other(k, s, o);
        },
        ModuleItemView::Other(o) => {
            silent_other(k, s, o);
        },
    }
}

proof fn silent_exprs(k: int, s: State, v: Seq<ExprView>)
    requires
        unnested_exprs(v),
        not_async_from(s.errors, k),
    ensures
        visit_exprs(s, v).0.top_level == s.top_level,
        visit_exprs(s, v).0.in_action_file == s.in_action_file,
        visit_exprs(s, v).0.exported_idents == s.exported_idents,
        not_async_from(visit_exprs(s, v).0.errors, k),
    decreases v, 4int,
{
    if v.len() != 0 {
        silent_exprs(k, s, v.drop_last());
        let s1 = visit_exprs(s, v.drop_last()).0;
        silent_expr(k, s1, v.last());
    }
}

proof fn silent_params(k: int, s: State, v: Seq<ParamView>)
    requires
        unnested_params(v),
        not_async_from(s.errors, k),
    ensures
        visit_params(s, v).0.top_level == s.top_level,
        visit_params(s, v).0.in_action_file == s.in_action_file,
        visit_params(s, v).0.exported_idents == s.exported_idents,
        not_async_from(visit_params(s, v).0.errors, k),
    decreases v, 4int,
{
    if v.len() != 0 {
        silent_params(k, s, v.drop_last());
        let s1 = visit_params(s, v.drop_last()).0;
        silent_param(k, s1, v.last());
    }
}

proof fn silent_decorators(k: int, s: State, v: Seq<DecoratorView>)
    requires
        unnested_decorators(v),
        not_async_from(s.errors, k),
    ensures
        visit_decorators(s, v).0.top_level == s.top_level,
        visit_decorators(s, v).0.in_action_file == s.in_action_file,
        visit_decorators(s, v).0.exported_idents == s.exported_idents,
        not_async_from(visit_decorators(s, v).0.errors, k),
    decreases v, 4int,
{
    if v.len() != 0 {
        silent_decorators(k, s, v.drop_last());
        let s1 = visit_decorators(s, v.drop_last()).0;
        silent_decorator(k, s1, v.last());
    }
}

proof fn silent_pats(k: int, s: State, v: Seq<PatView>)
    requires
        unnested_pats(v),
        not_async_from(s.errors, k),
    ensures
        visit_pats(s, v).0.top_level == s.top_level,
        visit_pats(s, v).0.in_action_file == s.in_action_file,
        visit_pats(s, v).0.exported_idents == s.exported_idents,
        not_async_from(visit_pats(s, v).0.errors, k),
    decreases v, 4int,
{
    if v.len() != 0 {
        silent_pats(k, s, v.drop_last());
        let s1 = visit_pats(s, v.drop_last()).0;
        silent_pat(k, s1, v.last());
    }
}

proof fn silent_declarators(k: int, s: State, v: Seq<DeclaratorView>)
    requires
        unnested_declarators(v),
        not_async_from(s.errors, k),
    ensures
        visit_declarators(s, v).0.top_level == s.top_level,
        visit_declarators(s, v).0.in_action_file == s.in_action_file,
        visit_declarators(s, v).0.exported_idents == s.exported_idents,
        not_async_from(visit_declarators(s, v).0.errors, k),
    decreases v, 4int,
{
    if v.len() != 0 {
        silent_declarators(k, s, v.drop_last());
        let s1 = visit_declarators(s, v.drop_last()).0;
        silent_declarator(k, s1, v.last());
    }
}

proof fn silent_nodes(k: int, s: State, v: Seq<NodeView>)
    requires
        unnested_nodes(v),
        not_async_from(s.errors, k),
    ensures
        visit_nodes(s, v).0.top_level == s.top_level,
        visit_nodes(s, v).0.in_action_file == s.in_action_file,
        visit_nodes(s, v).0.exported_idents == s.exported_idents,
        not_async_from(visit_nodes(s, v).0.errors, k),
    decreases v, 4int,
{
    if v.len() != 0 {
        silent_nodes(k, s, v.drop_last());
        let s1 = visit_nodes(s, v.drop_last()).0;
        silent_node(k, s1, v.last());
    }
}

/// The walk over a function without namespaces stays at the level at which it
/// began.
pub proof fn function_stays_at_level(s: State, f: FunctionView)
    requires
        unnested_function(f),
    ensures
        visit_function(s, f).0.top_level == s.top_level,
{
    assert(not_async_from(s.errors, s.errors.len() as int)) by {
        reveal(not_async_from);
    }
    silent_function(s.errors.len() as int, s, f);
}

/// The walk over an item of a `"use server"` file without namespaces records
/// and reports nothing but its exports.
proof fn item_is_silent(s: State, item: ModuleItemView)
    requires
        s.in_action_file,
        unnested_item(item),
    ensures
        ({
            let s2 = note_exports(s, item);
            let t = visit_top_item(s, item).0;
            &&& t.exported_idents == s2.exported_idents
            &&& not_async_from(t.errors, s2.errors.len() as int)
        }),
{
    let s2 = note_exports(s, item);
    let k = s2.errors.len() as int;
    assert(not_async_from(s2.errors, k)) by {
        reveal(not_async_from);
    }
    silent_exported_item(k, s2, default_name(s, item), item);
}

/// The walk over the last of several items of a `"use server"` file.
proof fn last_item(s: State, v: Seq<ModuleItemView>)
    requires
        s.in_action_file,
        unnested_items(v),
        v.len() > 0,
    ensures
        ({
            let s1 = State { top_level: true, ..visit_items_in_turn(s, v.drop_last()).0 };
            let s2 = note_exports(s1, v.last());
            let t = visit_items_in_turn(s, v).0;
            &&& s1.in_action_file
            &&& t.exported_idents == s2.exported_idents
            &&& prefix(s2.errors, t.errors)
            &&& not_async_from(t.errors, s2.errors.len() as int)
        }),
{
    let s1 = State { top_level: true, ..visit_items_in_turn(s, v.drop_last()).0 };
    last_of_items(s, v);
    item_begins_with_exports(s1, v.last());
    item_is_silent(s1, v.last());
}

/// Each export that was recorded is an export of an item.
proof fn export_comes_from_item(s: State, v: Seq<ModuleItemView>, x: (IdView, Seq<char>))
    requires
        s.in_action_file,
        unnested_items(v),
        visit_items_in_turn(s, v).0.exported_idents.contains(x),
    ensures
        s.exported_idents.contains(x) || exported_by_some(v, x.0, x.1),
    decreases v.len(),
{
    if v.len() != 0 {
        let init = v.drop_last();
        let t1 = State { top_level: true, ..visit_items_in_turn(s, init).0 };
        last_item(s, v);
        exports_are_recorded(t1, v.last(), x.0, x.1);
        if t1.exported_idents.contains(x) {
            export_comes_from_item(s, init, x);
            if exported_by_some(init, x.0, x.1) {
                let i = choose|i: int|
                    0 <= i < init.len() && exported_by(#[trigger] init[i], x.0, x.1);
                assert(exported_by(v[i], x.0, x.1));
            }
        } else {
            assert(exported_by(v[v.len() - 1], x.0, x.1));
        }
    }
}

/// Each error about an export reports an item.
proof fn error_comes_from_item(s: State, v: Seq<ModuleItemView>, d: Diagnostic)
    requires
        s.in_action_file,
        unnested_items(v),
        visit_items_in_turn(s, v).0.errors.contains(d),
        d.problem == Problem::DisallowedExport,
    ensures
        s.errors.contains(d) || refused_by_some(v, d),
    decreases v.len(),
{
    if v.len() != 0 {
        let init = v.drop_last();
        let t1 = State { top_level: true, ..visit_items_in_turn(s, init).0 };
        let s2 = note_exports(t1, v.last());
        last_item(s, v);
        reveal(not_async_from);
        reveal(prefix);
        let t = visit_items_in_turn(s, v).0;
        let j = choose|j: int| 0 <= j < t.errors.len() && t.errors[j] == d;
        assert(j < s2.errors.len());
        assert(s2.errors[j] == d);
        refused_exports_are_reported(t1, v.last());
        if j < t1.errors.len() {
            assert(t1.errors[j] == d);
            assert(t1.errors.contains(d));
            error_comes_from_item(s, init, d);
            if refused_by_some(init, d) {
                let i = choose|i: int|
                    0 <= i < init.len() && refused(#[trigger] init[i]) && d == refusal(init[i]);
                assert(refused(v[i]) && d == refusal(v[i]));
            }
        } else {
            assert(refused(v[v.len() - 1]) && d == refusal(v[v.len() - 1]));
        }
    }
}

/// An item exports an identifier under a name, or gets that identifier as the
/// name that it lacks.
pub open spec fn exported_by(item: ModuleItemView, id: IdView, name: Seq<char>) -> bool {
    ||| exports_as(item, id, name)
    ||| lacks_name(item) && name == "default"@ && exists|n: nat| id == #[trigger] given_id(n)
}

/// One of several items exports an identifier under a name.
pub open spec fn exported_by_some(
    v: Seq<ModuleItemView>,
    id: IdView,
    name: Seq<char>,
) -> bool {
    exists|i: int| 0 <= i < v.len() && exported_by(#[trigger] v[i], id, name)
}

/// An error reports one of several items.
pub open spec fn refused_by_some(v: Seq<ModuleItemView>, d: Diagnostic) -> bool {
    exists|i: int| 0 <= i < v.len() && refused(#[trigger] v[i]) && d == refusal(v[i])
}

/// A `"use server"` file without namespaces records nothing but exports of its
/// items, and reports no export but those that may not be exported.
pub proof fn file_records_nothing_else(file_name: Seq<char>, config: Config, m: ModuleView)
    requires
        file_marked(m.body),
        unnested_items(m.body),
    ensures
        ({
            let t = visit_module(initial_state(file_name, config), m).0;
            &&& forall|i: int|
                0 <= i < t.exported_idents.len() ==> exported_by_some(
                    m.body,
                    (#[trigger] t.exported_idents[i]).0,
                    t.exported_idents[i].1,
                )
            &&& forall|i: int|
                0 <= i < t.errors.len() && (#[trigger] t.errors[i]).problem
                    == Problem::DisallowedExport ==> refused_by_some(m.body, t.errors[i])
        }),
{
    let s = State { start_pos: m.span.lo, ..initial_state(file_name, config) };
    let v = m.body;
    file_directive_is_where_marked(v, 0);
    let s1 = State { annotations: Seq::empty(), ..enter_items(s, v) };
    let w = without(v, module_directive(v));
    without_is_part(v, module_directive(v));
    let s2 = visit_items_in_turn(s1, w).0;
    let t = visit_module(initial_state(file_name, config), m).0;
    assert(t.errors == s2.errors && t.exported_idents == s2.exported_idents) by {
        reveal(leave_items);
    }
    assert forall|i: int| 0 <= i < t.exported_idents.len() implies exported_by_some(
        m.body,
        (#[trigger] t.exported_idents[i]).0,
        t.exported_idents[i].1,
    ) by {
        let x = t.exported_idents[i];
        assert(t.exported_idents.contains(x));
        export_comes_from_item(s1, w, x);
        let j = choose|j: int| 0 <= j < w.len() && exported_by(#[trigger] w[j], x.0, x.1);
        assert(v.contains(w[j]));
        let l = choose|l: int| 0 <= l < v.len() && v[l] == w[j];
        assert(exported_by(v[l], x.0, x.1));
    }
    assert forall|i: int|
        0 <= i < t.errors.len() && (#[trigger] t.errors[i]).problem
            == Problem::DisallowedExport implies refused_by_some(m.body, t.errors[i]) by {
        let d = t.errors[i];
        assert(t.errors.contains(d));
        error_comes_from_item(s1, w, d);
        let j = choose|j: int| 0 <= j < w.len() && refused(#[trigger] w[j]) && d == refusal(w[j]);
        assert(v.contains(w[j]));
        let l = choose|l: int| 0 <= l < v.len() && v[l] == w[j];
        assert(refused(v[l]) && d == refusal(v[l]));
    }
}

/// The walk over items without namespaces outside of a `"use server"` file stays
/// outside of it.
proof fn items_stay_outside(s: State, v: Seq<ModuleItemView>)
    requires
        !s.in_action_file,
        unnested_items(v),
    ensures
        !visit_items_in_turn(s, v).0.in_action_file,
    decreases v.len(),
{
    if v.len() != 0 {
        items_stay_outside(s, v.drop_last());
        let s1 = State { top_level: true, ..visit_items_in_turn(s, v.drop_last()).0 };
        let k = s1.errors.len() as int;
        assert(not_async_from(s1.errors, k)) by {
            reveal(not_async_from);
        }
        silent_item(k, s1, v.last());
        assert(visit_top_item(s1, v.last()) == visit_item(s1, v.last()));
    }
}

/// A module without namespaces is a `"use server"` file just if it begins with
/// the directive.
pub proof fn file_is_what_it_is_marked(file_name: Seq<char>, config: Config, m: ModuleView)
    requires
        unnested_items(m.body),
    ensures
        visit_module(initial_state(file_name, config), m).0.in_action_file <==> file_marked(m.body),
{
    let s = State { start_pos: m.span.lo, ..initial_state(file_name, config) };
    let v = m.body;
    file_directive_is_where_marked(v, 0);
    let s1 = State { annotations: Seq::empty(), ..enter_items(s, v) };
    let w = without(v, module_directive(v));
    visit_items_in_turn_extends(s1, w);
    if !file_marked(v) {
        items_stay_outside(s1, w);
    }
    assert(visit_module(initial_state(file_name, config), m).0.in_action_file
        == visit_items_in_turn(s1, w).0.in_action_file) by {
        reveal(leave_items);
    }
}

/// What is reported of an exported function that is not async.
pub open spec fn not_async_at(t: State, span: Span) -> bool {
    t.errors.len() > 0 && t.errors.last() == (Diagnostic { span, problem: Problem::NotAsync })
}

/// A function that a `"use server"` file exports by name and that is not async is
/// reported at its name. It needs no directive for that.
pub proof fn synchronous_export_is_reported(s: State, span: Span, d: FnDeclView)
    requires
        s.in_action_file,
        !d.function.is_async,
    ensures
        not_async_at(
            visit_top_item(s, ModuleItemView::ExportDecl(span, DeclView::Fn(d))).0,
            d.ident.span,
        ),
{
    let item = ModuleItemView::ExportDecl(span, DeclView::Fn(d));
    note_exports_extends(s, item);
    let s1 = note_exports(s, item);
    synchronous_action(export_scope(s1), d, None);
    assert(visit_export_decl(s1, DeclView::Fn(d)).0.errors == visit_fn_decl(
        export_scope(s1),
        d,
    ).0.errors);
}

/// A declared function that is the default export of a `"use server"` file and
/// not async is reported.
pub proof fn synchronous_default_is_reported(s: State, span: Span, f: FnExprView)
    requires
        s.in_action_file,
        !f.function.is_async,
    ensures
        not_async_at(
            visit_top_item(
                s,
                ModuleItemView::ExportDefaultDecl(span, DefaultDeclView::Fn(f)),
            ).0,
            f.function.span,
        ),
{
    let item = ModuleItemView::ExportDefaultDecl(span, DefaultDeclView::Fn(f));
    note_exports_extends(s, item);
    let s1 = note_exports(s, item);
    let ident = if f.ident is Some {
        f.ident
    } else {
        default_name(s, item)
    };
    let d = FnDeclView {
        origin: Origin::Synthetic,
        ident: plain_ident(0),
        function: f.function,
    };
    synchronous_action(default_scope(s1), d, ident);
}

/// A function expression that is the default export of a `"use server"` file and
/// not async is reported.
pub proof fn synchronous_default_expression_is_reported(s: State, span: Span, f: FnExprView)
    requires
        s.in_action_file,
        !f.function.is_async,
    ensures
        not_async_at(
            visit_top_item(
                s,
                ModuleItemView::ExportDefaultExpr(span, Box::new(ExprView::Fn(f))),
            ).0,
            f.function.span,
        ),
{
    let e = ExprView::Fn(f);
    let item = ModuleItemView::ExportDefaultExpr(span, Box::new(e));
    note_exports_extends(s, item);
    let s1 = default_scope(note_exports(s, item));
    let d = FnDeclView {
        origin: Origin::Synthetic,
        ident: plain_ident(0),
        function: f.function,
    };
    synchronous_action(s1, d, f.ident);
    reveal(finish_expr);
    assert(visit_expr_children(s1, e).0 == visit_fn_expr(s1, f.ident, f.function).0);
}

// ---- How the file ends ----

/// The identifier that an export is annotated under.
pub open spec fn annotated_ident(id: IdView) -> IdentView {
    IdentView {
        sym: id.sym,
        span: Span { lo: 0, hi: 0, ctxt: id.ctxt },
        optional: false,
    }
}

/// At the end of a `"use server"` file three statements for each export, in the
/// order of the exports, make it the reference to an action that captures
/// nothing.
pub proof fn exports_are_referred(
    file_name: Seq<char>,
    config: Config,
    m: ModuleView,
    i: int,
    stmts: Seq<StmtView>,
)
    requires
        file_marked(m.body),
        0 <= i < visit_module(initial_state(file_name, config), m).0.exported_idents.len(),
        stmts.len() == 3,
    ensures
        ({
            let (t, m1) = visit_module(initial_state(file_name, config), m);
            let start = m1.body.len() - 3 * t.exported_idents.len() + 3 * i;
            &&& start >= 0
            &&& (forall|j: int|
                0 <= j < 3 ==> m1.body[start + j] == ModuleItemView::Stmt(#[trigger] stmts[j]))
                ==> refers_to_action(
                stmts,
                annotated_ident(t.exported_idents[i].0),
                Seq::empty(),
                identity(file_name, t.exported_idents[i].1),
            )
            &&& forall|j: int|
                start <= j < start + 3 ==> (#[trigger] m1.body[j]) is Stmt
        }),
{
    let (t, m1) = visit_module(initial_state(file_name, config), m);
    let (id, name) = t.exported_idents[i];
    file_directive_is_where_marked(m.body, 0);
    use_server_file(file_name, config, m);
    each_export_is_annotated(file_name, t.exported_idents, i);
    let notes = export_annotations(file_name, t.exported_idents);
    let added = as_items(notes);
    let no_names = Seq::<NameView>::empty();
    let own = action_annotations(ident_of_id(id), Seq::empty(), file_name, name);
    assert(exprs_of(no_names) =~= Seq::<ExprView>::empty());
    annotations_refer(ident_of_id(id), no_names, file_name, name);
    let start = m1.body.len() - 3 * t.exported_idents.len() + 3 * i;
    assert forall|j: int| 0 <= j < 3 implies m1.body[start + j] == ModuleItemView::Stmt(
        #[trigger] own[j],
    ) by {
        let tail = m1.body.skip(m1.body.len() - added.len());
        assert(tail[3 * i + j] == added[3 * i + j]);
        assert(notes.subrange(3 * i, 3 * i + 3)[j] == notes[3 * i + j]);
    }
    if forall|j: int|
        0 <= j < 3 ==> m1.body[start + j] == ModuleItemView::Stmt(#[trigger] stmts[j]) {
        assert forall|j: int| 0 <= j < 3 implies stmts[j] == own[j] by {
            assert(m1.body[start + j] == ModuleItemView::Stmt(stmts[j]));
        }
        assert(stmts =~= own);
    }
    assert forall|j: int| start <= j < start + 3 implies (#[trigger] m1.body[j]) is Stmt by {
        assert(m1.body[start + (j - start)] == ModuleItemView::Stmt(own[j - start]));
    }
}

/// The comment at the end of the walk lists names, separated by commas: in a
/// `"use server"` file those of the exports, elsewhere those of the actions.
pub proof fn comment_lists_names(
    file_name: Seq<char>,
    config: Config,
    m: ModuleView,
    names: Seq<Seq<char>>,
)
    requires
        visit_module(initial_state(file_name, config), m).0.has_action,
        listed(visit_module(initial_state(file_name, config), m).0, names),
    ensures
        ({
            let t = visit_module(initial_state(file_name, config), m).0;
            &&& t.comments.len() > 0
            &&& t.comments.last().pos == m.span.lo
            &&& t.comments.last().text == " __next_internal_action_entry_do_not_use__ "@
                + join_texts(names, ","@) + " "@
        }),
{
    let s = State { start_pos: m.span.lo, ..initial_state(file_name, config) };
    let v = m.body;
    let s1 = State { annotations: Seq::empty(), ..enter_items(s, v) };
    let w = without(v, module_directive(v));
    visit_items_in_turn_extends(s1, w);
    let t = visit_module(initial_state(file_name, config), m).0;
    reveal(leave_items);
    if t.in_action_file {
        assert(names =~= exported_names(t.exported_idents));
    }
}

/// The names that a comment lists.
pub open spec fn listed(t: State, names: Seq<Seq<char>>) -> bool {
    if t.in_action_file {
        names.len() == t.exported_idents.len() && forall|i: int|
            0 <= i < names.len() ==> #[trigger] names[i] == t.exported_idents[i].1
    } else {
        names == t.export_actions
    }
}

} // verus!
