//! What the pass does, as a function of the state and the tree.
//!
//! Each `visit_..` function gives the state after the walk over a part of the
//! tree, and what that part has become.

use vstd::prelude::*;

use crate::annotate::{action_annotations, ident_pat, name_assignment, name_declaration, var_decl};
use crate::ast::{Origin, Span, VarKind};
use crate::bindings::{idents_in_element, idents_in_stmt, idents_in_var_decls};
use crate::closure::{captured, exprs_of};
use crate::directive::{fn_directive, module_directive};
use crate::model::{
    ArrowBodyView, ArrowView, BlockView, DeclView, DeclaratorView, DecoratorView, DefaultDeclView,
    ExportNameView, ExportSpecifierView, ExprView, FnDeclView, FnExprView, FunctionView, IdView,
    IdentView, MemberView, ModuleItemView, ModuleView, NamedExportView, NodeView, OtherView,
    ParamView, PatView, PropView, StmtView, VarDeclView,
};
use crate::names::{access, ident_name, ident_of_id, name_of, new_ident, NameView};
use crate::replace::Replacement;
use crate::state::{
    action_ident, closure_ident, function_scope, CommentView, Diagnostic, Problem, Scope, State,
};
use crate::text::{action_name, join_texts};

verus! {

/// A function or an arrow function.
pub ghost enum CallableView {
    Function(FunctionView),
    Arrow(ArrowView),
}

/// A list without the entry at an index.
pub open spec fn without<A>(v: Seq<A>, index: Option<int>) -> Seq<A> {
    match index {
        Some(i) => if 0 <= i < v.len() {
            v.remove(i)
        } else {
            v
        },
        None => v,
    }
}

/// A list without an entry is smaller.
pub proof fn without_decreases<A>(v: Seq<A>, index: Option<int>)
    ensures
        without(v, index) == v || decreases_to!(v => without(v, index)),
{
    if let Some(i) = index {
        if 0 <= i < v.len() {
            let w = v.remove(i);
            assert forall|j: int| 0 <= j < w.len() && vstd::pervasive::trigger(
                w[j],
            ) implies exists|k: int| 0 <= k < v.len() && v[k] == w[j] by {
                if j < i {
                    assert(v[j] == w[j]);
                } else {
                    assert(v[j + 1] == w[j]);
                }
            }
            vstd::seq::axiom_seq_len_decreases(v, w);
        }
    }
}

// ---- Deciding what is an action ----

/// Where the directive stands that makes a function an action.
pub open spec fn action_directive(s: State, body: Option<BlockView>) -> Option<int> {
    if s.in_action_file && s.scope.in_export_decl {
        None
    } else {
        match body {
            Some(b) => fn_directive(b.stmts),
            None => None,
        }
    }
}

/// Whether a function with the given body is an action: what a `"use server"`
/// file exports is one, and so is what has the directive itself.
pub open spec fn is_action(s: State, body: Option<BlockView>) -> bool {
    (s.in_action_file && s.scope.in_export_decl) || action_directive(s, body) is Some
}

/// The block of an arrow function, if it has one.
pub open spec fn arrow_block(a: ArrowView) -> Option<BlockView> {
    match a.body {
        ArrowBodyView::Block(b) => Some(b),
        ArrowBodyView::Expr(_) => None,
    }
}

// ---- Reporting and recording ----

/// The state with one more error.
pub open spec fn report(s: State, span: Span, problem: Problem) -> State {
    State { errors: s.errors.push(Diagnostic { span, problem }), ..s }
}

/// The state after something was exported that may not be. Nothing is reported
/// without a place in the source.
pub open spec fn disallow(s: State, span: Span) -> State {
    if span != Span::dummy() {
        report(s, span, Problem::DisallowedExport)
    } else {
        s
    }
}

/// The state with one more export.
pub open spec fn export(s: State, id: IdView, name: Seq<char>) -> State {
    State { exported_idents: s.exported_idents.push((id, name)), ..s }
}

/// The state after a generated name was taken.
pub open spec fn take_ident(s: State) -> State {
    State { ident_cnt: s.ident_cnt + 1, ..s }
}

/// The generated identifier that is next, in the empty context.
pub open spec fn plain_action_ident(s: State) -> IdentView {
    new_ident(action_name(s.ident_cnt), Span::dummy())
}

/// The state with more bindings of the functions around. Those inside of an
/// action are kept apart, and in a `"use server"` file none are recorded.
pub open spec fn bind(s: State, ids: Seq<IdView>) -> State {
    if s.in_action_file {
        s
    } else if s.scope.in_action_fn {
        State { action_locals: s.action_locals + ids, ..s }
    } else {
        State { closure_idents: s.closure_idents + ids, ..s }
    }
}

/// Whether names that are met count as used by an action.
pub open spec fn collects_names(s: State) -> bool {
    s.scope.in_action_fn && s.scope.in_action_closure
}

/// The state with one more name that an action uses.
pub open spec fn use_name(s: State, name: NameView) -> State {
    State { action_idents: s.action_idents.push(name), ..s }
}

/// The state at the beginning of a function. The names that an action uses are
/// those from here on.
pub open spec fn enter_function(s: State, is_action: bool) -> State {
    State {
        scope: function_scope(s.scope, is_action),
        action_start: if is_action {
            s.action_idents.len()
        } else {
            s.action_start
        },
        ..s
    }
}

/// The state at the end of a function that began in the state `s`. What it
/// binds inside of an action is not bound any more.
pub open spec fn leave_function(s: State, t: State) -> State {
    State { scope: s.scope, action_locals: s.action_locals, ..t }
}

/// The state after a function was dealt with: the action that was current
/// before is current again. It uses what the actions in it use.
pub open spec fn end_action(s: State, t: State) -> State {
    State { action_start: s.action_start, ..t }
}

/// The names that the current action uses.
pub open spec fn used_names(s: State) -> Seq<NameView> {
    if s.action_start <= s.action_idents.len() {
        s.action_idents.skip(s.action_start as int)
    } else {
        Seq::empty()
    }
}

/// What the functions around the current action bind.
pub open spec fn bound_around(s: State) -> Seq<IdView> {
    s.closure_idents + s.action_locals
}

/// What the current action captures: the names that it uses and that are bound
/// around it.
pub open spec fn captures(s: State) -> Seq<NameView> {
    captured(used_names(s), bound_around(s))
}

// ---- Hoisting ----

/// The name under which the next action is exported.
pub open spec fn export_name(s: State) -> Seq<char> {
    if s.scope.in_default_export_decl {
        "default"@
    } else {
        action_name(s.ident_cnt)
    }
}

/// The state after the next action was annotated and an item for it added.
pub open spec fn add_reference(
    s: State,
    ident: IdentView,
    bound: Seq<ExprView>,
    item: ModuleItemView,
) -> State {
    State {
        ident_cnt: s.ident_cnt + 1,
        has_action: true,
        export_actions: s.export_actions.push(export_name(s)),
        annotations: s.annotations + action_annotations(
            ident,
            bound,
            s.file_name,
            export_name(s),
        ),
        extra_items: s.extra_items.push(item),
        ..s
    }
}

/// `export const name = value;`
pub open spec fn const_export(name: IdentView, value: ExprView) -> ModuleItemView {
    ModuleItemView::ExportDecl(
        Span::dummy(),
        var_decl(VarKind::Const, name, Some(Box::new(value))),
    )
}

/// `$$ACTION_n(ident.$$bound)`.
pub open spec fn bound_call(n: nat, ident: IdentView) -> ExprView {
    ExprView::Call(
        Box::new(ExprView::Ident(action_ident(n))),
        seq![access(ExprView::Ident(ident), "$$bound"@, true)],
    )
}

/// What the captured names are replaced by in the action with the number.
pub open spec fn replacement(n: nat, names: Seq<NameView>) -> Replacement {
    Replacement { closure_arg: closure_ident(n), used_ids: names }
}

/// The hoisted function: its one parameter is the closure.
pub open spec fn hoisted_function(n: nat, names: Seq<NameView>, f: FunctionView) -> FunctionView {
    FunctionView {
        params: seq![
            ParamView {
                origin: Origin::Synthetic,
                decorators: Seq::empty(),
                pat: ident_pat(closure_ident(n)),
            },
        ],
        decorators: Seq::empty(),
        body: replacement(n, names).opt_block(f.body),
        ..f
    }
}

/// What is left in place of a hoisted function: a call with what was captured.
pub open spec fn stub_function(n: nat, ident: IdentView, f: FunctionView) -> FunctionView {
    FunctionView {
        origin: Origin::Synthetic,
        body: Some(
            BlockView {
                origin: Origin::Synthetic,
                stmts: seq![StmtView::Return(Box::new(bound_call(n, ident)))],
            },
        ),
        ..f
    }
}

/// `export async function name(closure) { .. }`
pub open spec fn function_export(name: IdentView, function: FunctionView) -> ModuleItemView {
    ModuleItemView::ExportDecl(
        Span::dummy(),
        DeclView::Fn(FnDeclView { origin: Origin::Synthetic, ident: name, function }),
    )
}

/// The hoisted arrow function: its one parameter is the closure.
pub open spec fn hoisted_arrow(n: nat, names: Seq<NameView>, a: ArrowView) -> ArrowView {
    ArrowView {
        params: seq![ident_pat(closure_ident(n))],
        body: match a.body {
            ArrowBodyView::Block(b) => ArrowBodyView::Block(replacement(n, names).block(b)),
            ArrowBodyView::Expr(e) => ArrowBodyView::Expr(e),
        },
        ..a
    }
}

/// What is left in place of a hoisted arrow function.
pub open spec fn stub_arrow(n: nat, ident: IdentView, a: ArrowView) -> ArrowView {
    ArrowView {
        origin: Origin::Synthetic,
        span: Span::dummy(),
        body: ArrowBodyView::Expr(Box::new(bound_call(n, ident))),
        ..a
    }
}

/// Annotates an action, exports it, and hoists it unless it is a function at
/// the top level. Gives what stays in its place.
#[verifier::opaque]
pub open spec fn add_action(s: State, ident: IdentView, c: CallableView) -> (State, CallableView) {
    let n = s.ident_cnt;
    let names = captures(s);
    match c {
        CallableView::Function(f) => if s.top_level {
            (
                add_reference(
                    s,
                    ident,
                    Seq::empty(),
                    const_export(action_ident(n), ExprView::Ident(ident)),
                ),
                c,
            )
        } else {
            (
                add_reference(
                    s,
                    ident,
                    exprs_of(names),
                    function_export(action_ident(n), hoisted_function(n, names, f)),
                ),
                CallableView::Function(stub_function(n, ident, f)),
            )
        },
        CallableView::Arrow(a) => (
            add_reference(
                s,
                ident,
                exprs_of(names),
                const_export(action_ident(n), ExprView::Arrow(hoisted_arrow(n, names, a))),
            ),
            CallableView::Arrow(stub_arrow(n, ident, a)),
        ),
    }
}

/// A function after the walk over it, if it is to be an action: an action has
/// to be async, and one that is not exported by a `"use server"` file is
/// hoisted.
#[verifier::opaque]
pub open spec fn finish_function(
    s: State,
    span: Span,
    ident: IdentView,
    f: FunctionView,
) -> (State, FunctionView) {
    if !f.is_async {
        (report(s, span, Problem::NotAsync), f)
    } else if !s.in_action_file {
        let (s1, c) = add_action(s, ident, CallableView::Function(f));
        (s1, c->Function_0)
    } else {
        (s, f)
    }
}

/// An arrow function without its directive.
pub open spec fn without_directive(a: ArrowView) -> ArrowView {
    match a.body {
        ArrowBodyView::Block(b) => ArrowView {
            body: ArrowBodyView::Block(
                BlockView { stmts: without(b.stmts, fn_directive(b.stmts)), ..b },
            ),
            ..a
        },
        ArrowBodyView::Expr(_) => a,
    }
}

/// An arrow function with the directive, at the place of an expression: it gets
/// a name, and is hoisted.
#[verifier::opaque]
pub open spec fn finish_arrow(s: State, a: ArrowView) -> (State, ExprView) {
    let ident = action_ident(s.ident_cnt);
    let (s1, c) = add_action(take_ident(s), ident, CallableView::Arrow(without_directive(a)));
    (
        State { extra_items: s1.extra_items.push(name_declaration(ident)), ..s1 },
        name_assignment(ident, ExprView::Arrow(c->Arrow_0)),
    )
}

/// An expression after the walk over its parts: an arrow function with the
/// directive becomes an action, outside of a `"use server"` file.
#[verifier::opaque]
pub open spec fn finish_expr(s: State, e: ExprView) -> (State, ExprView) {
    match e {
        ExprView::Arrow(a) => if !s.in_action_file && is_action(s, arrow_block(a)) {
            finish_arrow(s, a)
        } else {
            (s, e)
        },
        _ => (s, e),
    }
}

/// A function expression that is to be hoisted gets a name if it has none.
pub open spec fn name_action(s: State, ident: Option<IdentView>, f: FunctionView) -> (
    State,
    Option<IdentView>,
) {
    if f.is_async && !s.in_action_file && ident is None {
        (take_ident(s), Some(plain_action_ident(s)))
    } else {
        (s, ident)
    }
}

// ---- The exports of a `"use server"` file ----

/// What a variable has to be initialised with if it is exported: a function, of
/// which the walk checks that it is async, or an async arrow function.
pub open spec fn exportable_init(init: Option<Box<ExprView>>) -> bool {
    match init {
        Some(e) => *e is Fn || (*e is Arrow && e->Arrow_0.is_async),
        None => false,
    }
}

/// Whether all variables may be exported.
pub open spec fn exportable_decls(decls: Seq<DeclaratorView>) -> bool {
    forall|i: int| 0 <= i < decls.len() ==> exportable_init(#[trigger] decls[i].init)
}

/// The exports of bindings under their own names.
pub open spec fn own_names(ids: Seq<IdView>) -> Seq<(IdView, Seq<char>)> {
    Seq::new(ids.len(), |i: int| (ids[i], ids[i].sym))
}

/// The export that an entry of a named export makes, if it may be exported.
pub open spec fn specifier_export(spec: ExportSpecifierView) -> Option<(IdView, Seq<char>)> {
    match spec {
        ExportSpecifierView::Named(ExportNameView::Ident(i), exported) => Some(
            match exported {
                Some(ExportNameView::Ident(name)) => (i.id(), name.sym),
                Some(ExportNameView::Str(name)) => (i.id(), name),
                None => (i.id(), i.sym),
            },
        ),
        _ => None,
    }
}

/// Whether all entries of a named export may be exported.
pub open spec fn exportable_specifiers(specs: Seq<ExportSpecifierView>) -> bool {
    forall|i: int| 0 <= i < specs.len() ==> specifier_export(#[trigger] specs[i]) is Some
}

/// The exports that the entries of a named export make.
pub open spec fn specifier_exports(specs: Seq<ExportSpecifierView>) -> Seq<(IdView, Seq<char>)>
    decreases specs.len(),
{
    if specs.len() == 0 {
        Seq::empty()
    } else {
        let init = specifier_exports(specs.drop_last());
        match specifier_export(specs.last()) {
            Some(e) => init.push(e),
            None => init,
        }
    }
}

/// The state after a default export was recorded that is assigned to a variable
/// of its own, and after that variable was declared.
pub open spec fn export_named_default(s: State) -> State {
    let s1 = export(take_ident(s), plain_action_ident(s).id(), "default"@);
    State { extra_items: s1.extra_items.push(name_declaration(plain_action_ident(s))), ..s1 }
}

/// The state after the exports of an item of a `"use server"` file were
/// recorded, and what may not be exported reported.
#[verifier::opaque]
pub open spec fn note_exports(s: State, item: ModuleItemView) -> State {
    match item {
        ModuleItemView::ExportDecl(span, d) => match d {
            DeclView::Fn(f) => export(s, f.ident.id(), f.ident.sym),
            DeclView::Var(v) => {
                let s1 = State {
                    exported_idents: s.exported_idents + own_names(idents_in_var_decls(v.decls)),
                    ..s
                };
                if exportable_decls(v.decls) {
                    s1
                } else {
                    disallow(s1, span)
                }
            },
            DeclView::Other(_) => disallow(s, span),
        },
        ModuleItemView::ExportNamed(n) => if n.has_src {
            disallow(s, n.span)
        } else {
            let s1 = State {
                exported_idents: s.exported_idents + specifier_exports(n.specifiers),
                ..s
            };
            if exportable_specifiers(n.specifiers) {
                s1
            } else {
                disallow(s1, n.span)
            }
        },
        ModuleItemView::ExportDefaultDecl(span, d) => match d {
            DefaultDeclView::Fn(f) => match f.ident {
                Some(i) => export(s, i.id(), "default"@),
                None => export(take_ident(s), plain_action_ident(s).id(), "default"@),
            },
            DefaultDeclView::Other(_) => disallow(s, span),
        },
        ModuleItemView::ExportDefaultExpr(span, e) => match *e {
            ExprView::Fn(_) => export_named_default(s),
            ExprView::Arrow(a) => if a.is_async {
                export_named_default(s)
            } else {
                disallow(s, span)
            },
            ExprView::Ident(i) => export(s, i.id(), "default"@),
            _ => disallow(s, span),
        },
        ModuleItemView::ExportAll(span, _) => disallow(s, span),
        ModuleItemView::Stmt(_) => s,
        ModuleItemView::Other(_) => s,
    }
}

/// The annotations of all exports of a `"use server"` file.
pub open spec fn export_annotations(
    file_name: Seq<char>,
    exports: Seq<(IdView, Seq<char>)>,
) -> Seq<StmtView>
    decreases exports.len(),
{
    if exports.len() == 0 {
        Seq::empty()
    } else {
        export_annotations(file_name, exports.drop_last()) + action_annotations(
            ident_of_id(exports.last().0),
            Seq::empty(),
            file_name,
            exports.last().1,
        )
    }
}

/// Statements as items of a module.
pub open spec fn as_items(stmts: Seq<StmtView>) -> Seq<ModuleItemView> {
    Seq::new(stmts.len(), |i: int| ModuleItemView::Stmt(stmts[i]))
}

/// The names under which things are exported.
pub open spec fn exported_names(exports: Seq<(IdView, Seq<char>)>) -> Seq<Seq<char>> {
    Seq::new(exports.len(), |i: int| exports[i].1)
}

/// The text of the comment that lists the actions of a module.
pub open spec fn entry_comment(s: State) -> Seq<char> {
    " __next_internal_action_entry_do_not_use__ "@ + join_texts(
        if s.in_action_file {
            exported_names(s.exported_idents)
        } else {
            s.export_actions
        },
        ","@,
    ) + " "@
}

// ---- The walk ----

pub open spec fn visit_expr(s: State, e: ExprView) -> (State, ExprView)
    decreases e, 2int,
{
    if collects_names(s) && name_of(e) is Some {
        let s1 = State {
            scope: Scope { in_action_closure: false, ..s.scope },
            ..use_name(s, name_of(e)->0)
        };
        let (s2, e2) = visit_expr_children(s1, e);
        (State { scope: s.scope, ..s2 }, e2)
    } else {
        let (s1, e1) = visit_expr_children(s, e);
        let (s2, e2) = finish_expr(s1, e1);
        (end_action(s, s2), e2)
    }
}

pub open spec fn visit_expr_children(s: State, e: ExprView) -> (State, ExprView)
    decreases e, 1int,
{
    match e {
        ExprView::Ident(_) => (s, e),
        ExprView::Str(_, _) => (s, e),
        ExprView::Member(m) => {
            let (s1, m1) = visit_member(s, m);
            (s1, ExprView::Member(m1))
        },
        ExprView::OptMember(m) => {
            let (s1, m1) = visit_member(s, m);
            (s1, ExprView::OptMember(m1))
        },
        ExprView::Fn(f) => {
            let (s1, f1) = visit_fn_expr(s, f.ident, f.function);
            (s1, ExprView::Fn(f1))
        },
        ExprView::Arrow(a) => {
            let (s1, a1) = visit_arrow(s, a);
            (s1, ExprView::Arrow(a1))
        },
        ExprView::Call(callee, args) => {
            let (s1, callee1) = visit_expr(s, *callee);
            let (s2, args1) = visit_exprs(s1, args);
            (s2, ExprView::Call(Box::new(callee1), args1))
        },
        ExprView::Assign(target, value) => {
            let (s1, target1) = visit_expr(s, *target);
            let (s2, value1) = visit_expr(s1, *value);
            (s2, ExprView::Assign(Box::new(target1), Box::new(value1)))
        },
        ExprView::Define(i, value) => {
            let (s1, value1) = visit_expr(s, *value);
            (s1, ExprView::Define(i, Box::new(value1)))
        },
        ExprView::Paren(inner) => {
            let (s1, inner1) = visit_expr(s, *inner);
            (s1, ExprView::Paren(Box::new(inner1)))
        },
        ExprView::Array(elems) => {
            let (s1, elems1) = visit_exprs(s, elems);
            (s1, ExprView::Array(elems1))
        },
        ExprView::Index(obj, i) => {
            let (s1, obj1) = visit_expr(s, *obj);
            (s1, ExprView::Index(Box::new(obj1), i))
        },
        ExprView::Other(o) => {
            let (s1, o1) = visit_other(s, o);
            (s1, ExprView::Other(o1))
        },
    }
}

pub open spec fn visit_member(s: State, m: MemberView) -> (State, MemberView)
    decreases m, 0int,
{
    let (s1, obj1) = visit_expr(s, *m.obj);
    (s1, MemberView { obj: Box::new(obj1), ..m })
}

pub open spec fn visit_opt_expr(s: State, e: Option<Box<ExprView>>) -> (State, Option<
    Box<ExprView>,
>)
    decreases e, 3int,
{
    match e {
        Some(inner) => {
            let (s1, inner1) = visit_expr(s, *inner);
            (s1, Some(Box::new(inner1)))
        },
        None => (s, None),
    }
}

/// The walk over a function expression.
pub open spec fn visit_fn_expr(s: State, ident: Option<IdentView>, f: FunctionView) -> (
    State,
    FnExprView,
)
    decreases f, 2int,
{
    let (s1, f1) = visit_function(s, f);
    if !is_action(s, f.body) {
        (end_action(s, s1), FnExprView { ident, function: f1 })
    } else {
        let (s2, ident2) = name_action(s1, ident, f1);
        let (s3, f3) = finish_function(s2, f1.span, ident2->0, f1);
        (end_action(s, s3), FnExprView { ident: ident2, function: f3 })
    }
}

/// The walk over a function declaration.
pub open spec fn visit_fn_decl(s: State, d: FnDeclView) -> (State, FnDeclView)
    decreases d, 0int,
{
    let (s1, f1) = visit_function(s, d.function);
    if !is_action(s, d.function.body) {
        (end_action(s, s1), FnDeclView { function: f1, ..d })
    } else {
        let (s2, f2) = finish_function(s1, d.ident.span, d.ident, f1);
        (end_action(s, s2), FnDeclView { function: f2, ..d })
    }
}

/// The walk over the parts of a function, without the directive that makes it
/// an action.
pub open spec fn visit_function(s: State, f: FunctionView) -> (State, FunctionView)
    decreases f, 1int,
{
    let s0 = enter_function(s, is_action(s, f.body));
    let (s1, params) = visit_params(s0, f.params);
    let (s2, decorators) = visit_decorators(s1, f.decorators);
    let (s3, body) = visit_fn_body(s2, f.body, action_directive(s, f.body));
    (leave_function(s, s3), FunctionView { params, decorators, body, ..f })
}

/// The walk over the body of a function, without the directive.
pub open spec fn visit_fn_body(s: State, body: Option<BlockView>, directive: Option<int>) -> (
    State,
    Option<BlockView>,
)
    decreases body, 0int,
{
    match body {
        Some(b) => {
            proof {
                without_decreases(b.stmts, directive);
            }
            let (s1, stmts) = visit_stmts(s, without(b.stmts, directive));
            (s1, Some(BlockView { stmts, ..b }))
        },
        None => (s, None),
    }
}

/// The walk over an arrow function. The directive stays for now, and an action
/// stays the current one.
pub open spec fn visit_arrow(s: State, a: ArrowView) -> (State, ArrowView)
    decreases a, 0int,
{
    let action = is_action(s, arrow_block(a));
    let s0 = enter_function(s, action);
    let (s1, params) = visit_pats(s0, a.params);
    let (s2, body) = visit_arrow_body(s1, a.body);
    let s3 = leave_function(s, s2);
    (
        if action && !a.is_async && !s3.in_action_file {
            report(s3, a.span, Problem::NotAsync)
        } else {
            s3
        },
        ArrowView { params, body, ..a },
    )
}

pub open spec fn visit_arrow_body(s: State, body: ArrowBodyView) -> (State, ArrowBodyView)
    decreases body, 0int,
{
    match body {
        ArrowBodyView::Block(b) => {
            let (s1, stmts) = visit_stmts(s, b.stmts);
            (s1, ArrowBodyView::Block(BlockView { stmts, ..b }))
        },
        ArrowBodyView::Expr(e) => {
            let (s1, e1) = visit_expr(s, *e);
            (s1, ArrowBodyView::Expr(Box::new(e1)))
        },
    }
}

/// The walk over a parameter. What it binds can be captured.
pub open spec fn visit_param(s: State, p: ParamView) -> (State, ParamView)
    decreases p, 1int,
{
    let (s1, decorators) = visit_decorators(s, p.decorators);
    let (s2, pat) = visit_pat(s1, p.pat);
    (bind(s2, idents_in_element(p.pat.form)), ParamView { decorators, pat, ..p })
}

pub open spec fn visit_pat(s: State, p: PatView) -> (State, PatView)
    decreases p, 1int,
{
    let (s1, exprs) = visit_exprs(s, p.exprs);
    (s1, PatView { exprs, ..p })
}

pub open spec fn visit_decorator(s: State, d: DecoratorView) -> (State, DecoratorView)
    decreases d, 1int,
{
    let (s1, expr) = visit_expr(s, d.expr);
    (s1, DecoratorView { expr, ..d })
}

/// The walk over a statement. What it declares can be captured if it is inside
/// a function.
pub open spec fn visit_stmt(s: State, stmt: StmtView) -> (State, StmtView)
    decreases stmt, 2int,
{
    let (s1, stmt1) = visit_stmt_children(s, stmt);
    if s1.scope.in_module {
        (s1, stmt1)
    } else {
        (bind(s1, idents_in_stmt(stmt1)), stmt1)
    }
}

pub open spec fn visit_stmt_children(s: State, stmt: StmtView) -> (State, StmtView)
    decreases stmt, 1int,
{
    match stmt {
        StmtView::Expr(origin, e) => {
            let (s1, e1) = visit_expr(s, *e);
            (s1, StmtView::Expr(origin, Box::new(e1)))
        },
        StmtView::Decl(d) => {
            let (s1, d1) = visit_decl(s, d);
            (s1, StmtView::Decl(d1))
        },
        StmtView::Return(e) => {
            let (s1, e1) = visit_expr(s, *e);
            (s1, StmtView::Return(Box::new(e1)))
        },
        StmtView::Other(o) => {
            let (s1, o1) = visit_other(s, o);
            (s1, StmtView::Other(o1))
        },
    }
}

pub open spec fn visit_decl(s: State, d: DeclView) -> (State, DeclView)
    decreases d, 1int,
{
    match d {
        DeclView::Fn(f) => {
            let (s1, f1) = visit_fn_decl(s, f);
            (s1, DeclView::Fn(f1))
        },
        DeclView::Var(v) => {
            let (s1, decls) = visit_declarators(s, v.decls);
            (s1, DeclView::Var(VarDeclView { decls, ..v }))
        },
        DeclView::Other(o) => {
            let (s1, o1) = visit_other(s, o);
            (s1, DeclView::Other(o1))
        },
    }
}

pub open spec fn visit_declarator(s: State, d: DeclaratorView) -> (State, DeclaratorView)
    decreases d, 1int,
{
    let (s1, name) = visit_pat(s, d.name);
    let (s2, init) = visit_opt_expr(s1, d.init);
    (s2, DeclaratorView { name, init, ..d })
}

pub open spec fn visit_prop(s: State, p: PropView) -> (State, PropView)
    decreases p, 1int,
{
    match p {
        PropView::Shorthand(i) => (
            if collects_names(s) {
                use_name(s, ident_name(i))
            } else {
                s
            },
            p,
        ),
        PropView::KeyValue(key, value) => {
            let (s1, value1) = visit_expr(s, *value);
            (s1, PropView::KeyValue(key, Box::new(value1)))
        },
        PropView::Other(o) => {
            let (s1, o1) = visit_other(s, o);
            (s1, PropView::Other(o1))
        },
    }
}

pub open spec fn visit_other(s: State, o: OtherView) -> (State, OtherView)
    decreases o, 1int,
{
    let (s1, kids) = visit_nodes(s, o.kids);
    (s1, OtherView { kids, ..o })
}

pub open spec fn visit_node(s: State, n: NodeView) -> (State, NodeView)
    decreases n, 1int,
{
    match n {
        NodeView::Expr(e) => {
            let (s1, e1) = visit_expr(s, e);
            (s1, NodeView::Expr(e1))
        },
        NodeView::Stmt(stmt) => {
            let (s1, stmt1) = visit_stmt(s, stmt);
            (s1, NodeView::Stmt(stmt1))
        },
        NodeView::Stmts(v) => {
            let (s1, v1) = visit_stmts(s, v);
            (s1, NodeView::Stmts(v1))
        },
        NodeView::Param(p) => {
            let (s1, p1) = visit_param(s, p);
            (s1, NodeView::Param(p1))
        },
        NodeView::Prop(p) => {
            let (s1, p1) = visit_prop(s, p);
            (s1, NodeView::Prop(p1))
        },
        NodeView::Items(v) => {
            let (s1, v1) = visit_items(s, v);
            (s1, NodeView::Items(v1))
        },
    }
}

/// The walk over a list of statements. The annotations of a statement come
/// right behind it.
pub open spec fn visit_stmts(s: State, v: Seq<StmtView>) -> (State, Seq<StmtView>)
    decreases v, 5int,
{
    let (s1, v1) = visit_stmts_in_turn(State { annotations: Seq::empty(), ..s }, v);
    (State { annotations: s.annotations, top_level: s.top_level, ..s1 }, v1)
}

pub open spec fn visit_stmts_in_turn(s: State, v: Seq<StmtView>) -> (State, Seq<StmtView>)
    decreases v, 4int,
{
    if v.len() == 0 {
        (s, Seq::empty())
    } else {
        let (s1, init) = visit_stmts_in_turn(s, v.drop_last());
        let (s2, stmt) = visit_stmt(State { top_level: false, ..s1 }, v.last());
        (State { annotations: Seq::empty(), ..s2 }, init.push(stmt) + s2.annotations)
    }
}

/// Everything that belongs behind the current item is put there.
pub open spec fn flush(s: State, items: Seq<ModuleItemView>) -> (State, Seq<ModuleItemView>) {
    (
        State { annotations: Seq::empty(), extra_items: Seq::empty(), ..s },
        items + as_items(s.annotations) + s.extra_items,
    )
}

/// The state after the directive of a module was looked for.
pub open spec fn enter_items(s: State, items: Seq<ModuleItemView>) -> State {
    if module_directive(items) is Some {
        State { in_action_file: true, has_action: true, ..s }
    } else {
        s
    }
}

/// The end of the walk over the items of a module: in a `"use server"` file
/// the exports are annotated, and a comment lists the actions.
#[verifier::opaque]
pub open spec fn leave_items(
    s: State,
    outer_annotations: Seq<StmtView>,
    items: Seq<ModuleItemView>,
) -> (State, Seq<ModuleItemView>) {
    let (s1, items1) = if s.in_action_file {
        flush(
            State {
                annotations: s.annotations + export_annotations(s.file_name, s.exported_idents),
                ..s
            },
            items,
        )
    } else {
        (s, items)
    };
    let s2 = State { annotations: outer_annotations, ..s1 };
    (
        if s2.has_action {
            State {
                comments: s2.comments.push(
                    CommentView { pos: s2.start_pos, text: entry_comment(s2) },
                ),
                ..s2
            }
        } else {
            s2
        },
        items1,
    )
}

/// The walk over the items of a module or a namespace.
pub open spec fn visit_items(s: State, v: Seq<ModuleItemView>) -> (State, Seq<ModuleItemView>)
    decreases v, 5int,
{
    proof {
        without_decreases(v, module_directive(v));
    }
    let s1 = State { annotations: Seq::empty(), ..enter_items(s, v) };
    let (s2, v2) = visit_items_in_turn(s1, without(v, module_directive(v)));
    leave_items(s2, s.annotations, v2)
}

pub open spec fn visit_items_in_turn(s: State, v: Seq<ModuleItemView>) -> (
    State,
    Seq<ModuleItemView>,
)
    decreases v, 4int,
{
    if v.len() == 0 {
        (s, Seq::empty())
    } else {
        let (s1, init) = visit_items_in_turn(s, v.drop_last());
        let (s2, item) = visit_top_item(State { top_level: true, ..s1 }, v.last());
        flush(s2, init.push(item))
    }
}

/// Whether a default export of a `"use server"` file has to be given a name: a
/// declared function without one, a function expression, whose own name is not
/// bound in the module, or an async arrow function.
pub open spec fn needs_default_name(item: ModuleItemView) -> bool {
    match item {
        ModuleItemView::ExportDefaultDecl(_, DefaultDeclView::Fn(f)) => f.ident is None,
        ModuleItemView::ExportDefaultExpr(_, e) => match *e {
            ExprView::Fn(_) => true,
            ExprView::Arrow(a) => a.is_async,
            _ => false,
        },
        _ => false,
    }
}

/// The name that a default export of a `"use server"` file is given.
pub open spec fn default_name(s: State, item: ModuleItemView) -> Option<IdentView> {
    if needs_default_name(item) {
        Some(plain_action_ident(s))
    } else {
        None
    }
}

/// The walk over an item of a module, whose exports are recorded first if the
/// module is a `"use server"` file.
pub open spec fn visit_top_item(s: State, item: ModuleItemView) -> (State, ModuleItemView)
    decreases item, 3int,
{
    if s.in_action_file {
        visit_exported_item(note_exports(s, item), default_name(s, item), item)
    } else {
        visit_item(s, item)
    }
}

/// The walk over an item of a `"use server"` file. A default export that needs
/// a name gets the given one.
pub open spec fn visit_exported_item(s: State, name: Option<IdentView>, item: ModuleItemView) -> (
    State,
    ModuleItemView,
)
    decreases item, 2int,
{
    match item {
        ModuleItemView::ExportDefaultDecl(span, DefaultDeclView::Fn(f)) => {
            let ident = if f.ident is Some {
                f.ident
            } else {
                name
            };
            let (s1, f1) = visit_default_fn(s, ident, f.function);
            (s1, ModuleItemView::ExportDefaultDecl(span, DefaultDeclView::Fn(f1)))
        },
        ModuleItemView::ExportDefaultExpr(span, e) => {
            let (s1, e1) = visit_default_expr(s, *e);
            let e2 = match name {
                Some(i) => name_assignment(i, e1),
                None => e1,
            };
            (s1, ModuleItemView::ExportDefaultExpr(span, Box::new(e2)))
        },
        _ => visit_item(s, item),
    }
}

/// The scope in an exported declaration.
pub open spec fn export_scope(s: State) -> State {
    State { scope: Scope { in_export_decl: true, ..s.scope }, ..s }
}

/// The scope in the default export.
pub open spec fn default_scope(s: State) -> State {
    State {
        scope: Scope { in_export_decl: true, in_default_export_decl: true, ..s.scope },
        ..s
    }
}

/// The walk over an exported declaration.
pub open spec fn visit_export_decl(s: State, d: DeclView) -> (State, DeclView)
    decreases d, 2int,
{
    let (s1, d1) = visit_decl(export_scope(s), d);
    (State { scope: s.scope, ..s1 }, d1)
}

/// The walk over a function that is the default export.
pub open spec fn visit_default_fn(s: State, ident: Option<IdentView>, f: FunctionView) -> (
    State,
    FnExprView,
)
    decreases f, 3int,
{
    let (s1, f1) = visit_fn_expr(default_scope(s), ident, f);
    (State { scope: s.scope, ..s1 }, f1)
}

/// The walk over a declaration that is the default export.
pub open spec fn visit_default_decl(s: State, d: DefaultDeclView) -> (State, DefaultDeclView)
    decreases d, 2int,
{
    match d {
        DefaultDeclView::Fn(f) => {
            let (s1, f1) = visit_default_fn(s, f.ident, f.function);
            (s1, DefaultDeclView::Fn(f1))
        },
        DefaultDeclView::Other(o) => {
            let (s1, o1) = visit_other(default_scope(s), o);
            (State { scope: s.scope, ..s1 }, DefaultDeclView::Other(o1))
        },
    }
}

/// The walk over an expression that is the default export.
pub open spec fn visit_default_expr(s: State, e: ExprView) -> (State, ExprView)
    decreases e, 3int,
{
    let (s1, e1) = visit_expr(default_scope(s), e);
    (State { scope: s.scope, ..s1 }, e1)
}

pub open spec fn visit_item(s: State, item: ModuleItemView) -> (State, ModuleItemView)
    decreases item, 1int,
{
    match item {
        ModuleItemView::Stmt(stmt) => {
            let (s1, stmt1) = visit_stmt(s, stmt);
            (s1, ModuleItemView::Stmt(stmt1))
        },
        ModuleItemView::ExportDecl(span, d) => {
            let (s1, d1) = visit_export_decl(s, d);
            (s1, ModuleItemView::ExportDecl(span, d1))
        },
        ModuleItemView::ExportNamed(n) => {
            let (s1, rest) = visit_other(s, n.rest);
            (s1, ModuleItemView::ExportNamed(NamedExportView { rest, ..n }))
        },
        ModuleItemView::ExportDefaultDecl(span, d) => {
            let (s1, d1) = visit_default_decl(s, d);
            (s1, ModuleItemView::ExportDefaultDecl(span, d1))
        },
        ModuleItemView::ExportDefaultExpr(span, e) => {
            let (s1, e1) = visit_default_expr(s, *e);
            (s1, ModuleItemView::ExportDefaultExpr(span, Box::new(e1)))
        },
        ModuleItemView::ExportAll(span, o) => {
            let (s1, o1) = visit_other(s, o);
            (s1, ModuleItemView::ExportAll(span, o1))
        },
        ModuleItemView::Other(o) => {
            let (s1, o1) = visit_other(s, o);
            (s1, ModuleItemView::Other(o1))
        },
    }
}

/// The walk over a module.
pub open spec fn visit_module(s: State, m: ModuleView) -> (State, ModuleView) {
    let (s1, body) = visit_items(State { start_pos: m.span.lo, ..s }, m.body);
    (s1, ModuleView { body, ..m })
}

pub open spec fn visit_exprs(s: State, v: Seq<ExprView>) -> (State, Seq<ExprView>)
    decreases v, 4int,
{
    if v.len() == 0 {
        (s, Seq::empty())
    } else {
        let (s1, init) = visit_exprs(s, v.drop_last());
        let (s2, last) = visit_expr(s1, v.last());
        (s2, init.push(last))
    }
}

pub open spec fn visit_params(s: State, v: Seq<ParamView>) -> (State, Seq<ParamView>)
    decreases v, 4int,
{
    if v.len() == 0 {
        (s, Seq::empty())
    } else {
        let (s1, init) = visit_params(s, v.drop_last());
        let (s2, last) = visit_param(s1, v.last());
        (s2, init.push(last))
    }
}

pub open spec fn visit_decorators(s: State, v: Seq<DecoratorView>) -> (State, Seq<DecoratorView>)
    decreases v, 4int,
{
    if v.len() == 0 {
        (s, Seq::empty())
    } else {
        let (s1, init) = visit_decorators(s, v.drop_last());
        let (s2, last) = visit_decorator(s1, v.last());
        (s2, init.push(last))
    }
}

/// The walk over the parameters of an arrow function. What they bind can be
/// captured.
pub open spec fn visit_pats(s: State, v: Seq<PatView>) -> (State, Seq<PatView>)
    decreases v, 4int,
{
    if v.len() == 0 {
        (s, Seq::empty())
    } else {
        let (s1, init) = visit_pats(s, v.drop_last());
        let (s2, last) = visit_pat(s1, v.last());
        (bind(s2, idents_in_element(v.last().form)), init.push(last))
    }
}

pub open spec fn visit_declarators(s: State, v: Seq<DeclaratorView>) -> (State, Seq<DeclaratorView>)
    decreases v, 4int,
{
    if v.len() == 0 {
        (s, Seq::empty())
    } else {
        let (s1, init) = visit_declarators(s, v.drop_last());
        let (s2, last) = visit_declarator(s1, v.last());
        (s2, init.push(last))
    }
}

pub open spec fn visit_nodes(s: State, v: Seq<NodeView>) -> (State, Seq<NodeView>)
    decreases v, 4int,
{
    if v.len() == 0 {
        (s, Seq::empty())
    } else {
        let (s1, init) = visit_nodes(s, v.drop_last());
        let (s2, last) = visit_node(s1, v.last());
        (s2, init.push(last))
    }
}

} // verus!
