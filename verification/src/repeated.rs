//! A second pass changes nothing.

use vstd::prelude::*;
use crate::annotate::{
    action_annotations, annotation, ident_pat, name_declaration, reference_symbol, text_literal,
    var_decl,
};
use crate::ast::{Origin, Span, VarKind};
use crate::closure::exprs_of;
use crate::digest::action_id;
use crate::directive::{
    directive_at, directive_index, directive_text, directive_texts, fn_directive,
    item_directive_text, item_directive_texts, module_directive,
};
use crate::mentioned::without_is_part;
use crate::model::{
    ArrowBodyView, ArrowView, BlockView, DeclView, DeclaratorView, DecoratorView, DefaultDeclView,
    ExprView, FnDeclView, FnExprView, FunctionView, IdentView, ModuleItemView, ModuleView, NodeView,
    OtherView, ParamView, PatView, PropView, StmtView,
};
use crate::names::{access, accesses, ident_of_id, name_of, new_ident, NameView};
use crate::plain::{
    plain_arrow, plain_arrow_body, plain_body, plain_decl, plain_declarator, plain_declarators,
    plain_decorator, plain_decorators, plain_default_decl, plain_expr, plain_exprs, plain_function,
    plain_item, plain_items, plain_module, plain_module_unchanged, plain_node, plain_nodes,
    plain_other, plain_param, plain_params, plain_pat, plain_pats, plain_prop, plain_stmt,
    plain_stmts,
};
use crate::prologue::{
    item_text_kept, prologue_kept, prologue_without, same_prologue, same_prologue_same_directive,
};
use crate::replace::Replacement;
use crate::state::{action_ident, closure_ident, initial_state, Config, Scope, State};
use crate::transform::{
    action_directive, add_action, arrow_block, as_items, bound_call, captures, collects_names,
    const_export, default_scope, enter_function, enter_items, export_name, export_scope,
    finish_arrow, finish_expr, finish_function, flush, function_export, hoisted_arrow,
    hoisted_function, is_action, leave_items, name_action, replacement, stub_arrow, stub_function,
    take_ident, use_name, visit_arrow, visit_arrow_body, visit_decl, visit_declarator,
    visit_declarators, visit_decorator, visit_decorators, visit_default_decl, visit_default_expr,
    visit_default_fn, visit_export_decl, visit_expr, visit_expr_children, visit_exprs,
    visit_fn_body, visit_fn_decl, visit_fn_expr, visit_function, visit_item, visit_items,
    visit_items_in_turn, visit_module, visit_node, visit_nodes, visit_other, visit_param,
    visit_params, visit_pat, visit_pats, visit_prop, visit_stmt, visit_stmt_children, visit_stmts,
    visit_stmts_in_turn, visit_top_item, without, without_decreases, without_directive,
    CallableView,
};

verus! {

// ---- Trees in which no body has the directive twice ----

/// Without its directive a body has no directive.
pub open spec fn one_directive(v: Seq<StmtView>) -> bool {
    fn_directive(without(v, fn_directive(v))) is None
}

pub open spec fn single_expr(e: ExprView) -> bool
    decreases e, 1int,
{
    match e {
        ExprView::Ident(_) => true,
        ExprView::Str(_, _) => true,
        ExprView::Member(m) => single_expr(*m.obj),
        ExprView::OptMember(m) => single_expr(*m.obj),
        ExprView::Fn(f) => single_function(f.function),
        ExprView::Arrow(a) => single_arrow(a),
        ExprView::Call(callee, args) => single_expr(*callee) && single_exprs(args),
        ExprView::Assign(target, value) => single_expr(*target) && single_expr(*value),
        ExprView::Define(_, value) => single_expr(*value),
        ExprView::Paren(inner) => single_expr(*inner),
        ExprView::Array(elems) => single_exprs(elems),
        ExprView::Index(obj, _) => single_expr(*obj),
        ExprView::Other(o) => single_other(o),
    }
}

pub open spec fn single_function(f: FunctionView) -> bool
    decreases f, 1int,
{
    &&& single_params(f.params)
    &&& single_decorators(f.decorators)
    &&& match f.body {
        Some(b) => single_body(b),
        None => true,
    }
}

/// The body of a function that has the directive at most once.
pub open spec fn single_body(b: BlockView) -> bool
    decreases b, 1int,
{
    one_directive(b.stmts) && single_stmts(b.stmts)
}

pub open spec fn single_arrow(a: ArrowView) -> bool
    decreases a, 1int,
{
    single_pats(a.params) && single_arrow_body(a.body)
}

pub open spec fn single_arrow_body(body: ArrowBodyView) -> bool
    decreases body, 1int,
{
    match body {
        ArrowBodyView::Block(b) => single_body(b),
        ArrowBodyView::Expr(e) => single_expr(*e),
    }
}

pub open spec fn single_param(p: ParamView) -> bool
    decreases p, 1int,
{
    single_decorators(p.decorators) && single_pat(p.pat)
}

pub open spec fn single_pat(p: PatView) -> bool
    decreases p, 1int,
{
    single_exprs(p.exprs)
}

pub open spec fn single_decorator(d: DecoratorView) -> bool
    decreases d, 1int,
{
    single_expr(d.expr)
}

pub open spec fn single_stmt(s: StmtView) -> bool
    decreases s, 1int,
{
    match s {
        StmtView::Expr(_, e) => single_expr(*e),
        StmtView::Decl(d) => single_decl(d),
        StmtView::Return(e) => single_expr(*e),
        StmtView::Other(o) => single_other(o),
    }
}

pub open spec fn single_decl(d: DeclView) -> bool
    decreases d, 1int,
{
    match d {
        DeclView::Fn(f) => single_function(f.function),
        DeclView::Var(v) => single_declarators(v.decls),
        DeclView::Other(o) => single_other(o),
    }
}

pub open spec fn single_declarator(d: DeclaratorView) -> bool
    decreases d, 1int,
{
    single_pat(d.name) && match d.init {
        Some(e) => single_expr(*e),
        None => true,
    }
}

pub open spec fn single_prop(p: PropView) -> bool
    decreases p, 1int,
{
    match p {
        PropView::Shorthand(_) => true,
        PropView::KeyValue(_, value) => single_expr(*value),
        PropView::Other(o) => single_other(o),
    }
}

pub open spec fn single_other(o: OtherView) -> bool
    decreases o, 1int,
{
    single_nodes(o.kids)
}

pub open spec fn single_node(n: NodeView) -> bool
    decreases n, 1int,
{
    match n {
        NodeView::Expr(e) => single_expr(e),
        NodeView::Stmt(s) => single_stmt(s),
        NodeView::Stmts(v) => single_stmts(v),
        NodeView::Param(p) => single_param(p),
        NodeView::Prop(p) => single_prop(p),
        NodeView::Items(v) => single_module(v),
    }
}

pub open spec fn single_item(item: ModuleItemView) -> bool
    decreases item, 1int,
{
    match item {
        ModuleItemView::Stmt(s) => single_stmt(s),
        ModuleItemView::ExportDecl(_, d) => single_decl(d),
        ModuleItemView::ExportNamed(n) => single_other(n.rest),
        ModuleItemView::ExportDefaultDecl(_, d) => single_default_decl(d),
        ModuleItemView::ExportDefaultExpr(_, e) => single_expr(*e),
        ModuleItemView::ExportAll(_, o) => single_other(o),
        ModuleItemView::Other(o) => single_other(o),
    }
}

pub open spec fn single_default_decl(d: DefaultDeclView) -> bool
    decreases d, 1int,
{
    match d {
        DefaultDeclView::Fn(f) => single_function(f.function),
        DefaultDeclView::Other(o) => single_other(o),
    }
}

/// The items of a module without the directive.
pub open spec fn single_module(v: Seq<ModuleItemView>) -> bool
    decreases v, 4int,
{
    module_directive(v) is None && single_items(v)
}

pub open spec fn single_exprs(v: Seq<ExprView>) -> bool
    decreases v, 3int,
{
    forall|i: int| 0 <= i < v.len() ==> single_expr(#[trigger] v[i])
}

pub open spec fn single_params(v: Seq<ParamView>) -> bool
    decreases v, 3int,
{
    forall|i: int| 0 <= i < v.len() ==> single_param(#[trigger] v[i])
}

pub open spec fn single_decorators(v: Seq<DecoratorView>) -> bool
    decreases v, 3int,
{
    forall|i: int| 0 <= i < v.len() ==> single_decorator(#[trigger] v[i])
}

pub open spec fn single_pats(v: Seq<PatView>) -> bool
    decreases v, 3int,
{
    forall|i: int| 0 <= i < v.len() ==> single_pat(#[trigger] v[i])
}

pub open spec fn single_declarators(v: Seq<DeclaratorView>) -> bool
    decreases v, 3int,
{
    forall|i: int| 0 <= i < v.len() ==> single_declarator(#[trigger] v[i])
}

pub open spec fn single_nodes(v: Seq<NodeView>) -> bool
    decreases v, 3int,
{
    forall|i: int| 0 <= i < v.len() ==> single_node(#[trigger] v[i])
}

pub open spec fn single_stmts(v: Seq<StmtView>) -> bool
    decreases v, 3int,
{
    forall|i: int| 0 <= i < v.len() ==> single_stmt(#[trigger] v[i])
}

pub open spec fn single_items(v: Seq<ModuleItemView>) -> bool
    decreases v, 3int,
{
    forall|i: int| 0 <= i < v.len() ==> single_item(#[trigger] v[i])
}

// ---- What the pass writes ----

/// Statements without the directive that are no string literals.
#[verifier::opaque]
pub open spec fn calm_stmts(v: Seq<StmtView>) -> bool {
    forall|i: int|
        0 <= i < v.len() ==> plain_stmt(#[trigger] v[i]) && directive_text(v[i]) is None
}

/// Items without the directive that are no string literals.
#[verifier::opaque]
pub open spec fn calm_items(v: Seq<ModuleItemView>) -> bool {
    forall|i: int|
        0 <= i < v.len() ==> plain_item(#[trigger] v[i]) && item_directive_text(v[i]) is None
}

/// What is to be put into the module does not have the directive.
pub open spec fn settled(s: State) -> bool {
    !s.in_action_file && calm_stmts(s.annotations) && calm_items(s.extra_items)
}

proof fn calm_empty()
    ensures
        calm_stmts(Seq::empty()),
        calm_items(Seq::empty()),
{
    reveal(calm_stmts);
    reveal(calm_items);
}

proof fn calm_add(a: Seq<StmtView>, b: Seq<StmtView>)
    requires
        calm_stmts(a),
        calm_stmts(b),
    ensures
        calm_stmts(a + b),
{
    reveal(calm_stmts);
}

proof fn calm_push(a: Seq<ModuleItemView>, item: ModuleItemView)
    requires
        calm_items(a),
        plain_item(item),
        item_directive_text(item) is None,
    ensures
        calm_items(a.push(item)),
{
    reveal(calm_items);
}

proof fn plain_accesses(obj: ExprView, props: Seq<(Seq<char>, bool)>)
    requires
        plain_expr(obj),
    ensures
        plain_expr(accesses(obj, props)),
    decreases props.len(),
{
    if props.len() != 0 {
        plain_accesses(obj, props.drop_last());
    }
}

proof fn plain_reference(
    i: IdentView,
    names: Seq<NameView>,
    file_name: Seq<char>,
    export_name: Seq<char>,
)
    ensures
        calm_stmts(action_annotations(i, exprs_of(names), file_name, export_name)),
{
    reveal(calm_stmts);
    let bound = exprs_of(names);
    assert forall|k: int| 0 <= k < bound.len() implies plain_expr(#[trigger] bound[k]) by {
        plain_accesses(ExprView::Ident(ident_of_id(names[k].id)), names[k].props);
    }
    let array = ExprView::Array(bound);
    assert(plain_exprs(bound));
    assert(plain_expr(array));
    let text = text_literal(action_id(file_name, export_name));
    let arg = text_literal("react.server.reference"@);
    let symbol = ExprView::Ident(new_ident("Symbol"@, Span::dummy()));
    assert(plain_expr(symbol));
    assert(plain_expr(access(symbol, "for"@, true)));
    assert(plain_exprs(seq![arg]));
    assert(plain_expr(reference_symbol()));
    plain_annotation(i, "$$typeof"@, reference_symbol());
    plain_annotation(i, "$$id"@, text);
    plain_annotation(i, "$$bound"@, array);
}

proof fn plain_annotation(i: IdentView, field: Seq<char>, value: ExprView)
    requires
        plain_expr(value),
    ensures
        plain_stmt(annotation(i, field, value)),
        directive_text(annotation(i, field, value)) is None,
{
    let target = access(ExprView::Ident(i), field, true);
    assert(plain_expr(ExprView::Ident(i)));
    assert(plain_expr(target));
    let e = ExprView::Assign(Box::new(target), Box::new(value));
    assert(plain_expr(e));
}

proof fn plain_call(n: nat, i: IdentView)
    ensures
        plain_expr(bound_call(n, i)),
{
    let arg = access(ExprView::Ident(i), "$$bound"@, true);
    assert(plain_expr(ExprView::Ident(i)));
    assert(plain_expr(arg));
    assert(plain_exprs(seq![arg]));
    assert(plain_expr(ExprView::Ident(action_ident(n))));
}

/// A list whose first text is missing has no directive.
proof fn no_text_no_directive(v: Seq<StmtView>)
    requires
        v.len() == 0 || directive_text(v[0]) is None,
    ensures
        fn_directive(v) is None,
{
    reveal(directive_index);
    let texts = directive_texts(v);
    assert forall|i: int| !directive_at(texts, i) by {
        if directive_at(texts, i) {
            assert(texts[i] is Some);
            assert(texts[0] is Some);
        }
    }
}

// ---- The replacement adds no directive ----

proof fn plain_element(r: Replacement, i: int)
    ensures
        plain_expr(r.element(i)),
{
    assert(plain_expr(ExprView::Ident(r.closure_arg)));
}

/// The replacement keeps the texts of a body.
proof fn replaced_texts(r: Replacement, v: Seq<StmtView>)
    ensures
        directive_texts(r.stmts(v)) == directive_texts(v),
{
    assert forall|i: int| 0 <= i < v.len() implies directive_text(#[trigger] r.stmts(v)[i])
        == directive_text(v[i]) by {
        replaced_text(r, v[i]);
    }
    assert(directive_texts(r.stmts(v)) =~= directive_texts(v));
}

proof fn replaced_text(r: Replacement, s: StmtView)
    ensures
        directive_text(r.stmt(s)) == directive_text(s),
{
    if let StmtView::Expr(_, e) = s {
        let c = r.expr_children(*e);
        assert(c is Str <==> *e is Str);
        assert(*e is Str ==> c == *e);
    }
}

proof fn replaced_module(r: Replacement, v: Seq<ModuleItemView>)
    requires
        plain_module(v),
    ensures
        plain_module(r.items(v)),
    decreases v, 4int,
{
    replaced_items(r, v);
    assert forall|i: int| 0 <= i < v.len() implies item_directive_text(
        #[trigger] r.items(v)[i],
    ) == item_directive_text(v[i]) by {
        if let ModuleItemView::Stmt(s) = v[i] {
            replaced_text(r, s);
        }
    }
    assert(item_directive_texts(r.items(v)) =~= item_directive_texts(v));
}

proof fn replaced_expr(r: Replacement, e: ExprView)
    requires
        plain_expr(e),
    ensures
        plain_expr(r.expr(e)),
    decreases e, 1int,
{
    replaced_children(r, e);
    if let Some(i) = r.index(r.expr_children(e)) {
        plain_element(r, i);
    }
}

proof fn replaced_children(r: Replacement, e: ExprView)
    requires
        plain_expr(e),
    ensures
        plain_expr(r.expr_children(e)),
    decreases e, 0int,
{
    match e {
        ExprView::Ident(_) => {},
        ExprView::Str(_, _) => {},
        ExprView::Member(m) => {
            replaced_expr(r, *m.obj);
        },
        ExprView::OptMember(m) => {
            replaced_expr(r, *m.obj);
        },
        ExprView::Fn(f) => {
            replaced_function(r, f.function);
        },
        ExprView::Arrow(a) => {
            replaced_arrow(r, a);
        },
        ExprView::Call(callee, args) => {
            replaced_expr(r, *callee);
            replaced_exprs(r, args);
        },
        ExprView::Assign(target, value) => {
            replaced_expr(r, *target);
            replaced_expr(r, *value);
        },
        ExprView::Define(_, value) => {
            replaced_expr(r, *value);
        },
        ExprView::Paren(inner) => {
            replaced_expr(r, *inner);
        },
        ExprView::Array(elems) => {
            replaced_exprs(r, elems);
        },
        ExprView::Index(obj, _) => {
            replaced_expr(r, *obj);
        },
        ExprView::Other(o) => {
            replaced_other(r, o);
        },
    }
}

proof fn replaced_function(r: Replacement, f: FunctionView)
    requires
        plain_function(f),
    ensures
        plain_function(r.function(f)),
    decreases f, 1int,
{
    replaced_params(r, f.params);
    replaced_decorators(r, f.decorators);
    if let Some(b) = f.body {
        replaced_block(r, b);
    }
}

proof fn replaced_block(r: Replacement, b: BlockView)
    requires
        plain_body(b),
    ensures
        plain_body(r.block(b)),
    decreases b, 1int,
{
    replaced_stmts(r, b.stmts);
    replaced_texts(r, b.stmts);
}

proof fn replaced_arrow(r: Replacement, a: ArrowView)
    requires
        plain_arrow(a),
    ensures
        plain_arrow(r.arrow(a)),
    decreases a, 1int,
{
    replaced_pats(r, a.params);
    assert(plain_arrow_body(a.body));
    match a.body {
        ArrowBodyView::Block(b) => {
            replaced_block(r, b);
        },
        ArrowBodyView::Expr(e) => {
            replaced_expr(r, *e);
        },
    }
    assert(plain_arrow_body(r.arrow(a).body));
}

proof fn replaced_param(r: Replacement, p: ParamView)
    requires
        plain_param(p),
    ensures
        plain_param(r.param(p)),
    decreases p, 1int,
{
    replaced_decorators(r, p.decorators);
    replaced_pat(r, p.pat);
}

proof fn replaced_pat(r: Replacement, p: PatView)
    requires
        plain_pat(p),
    ensures
        plain_pat(r.pat(p)),
    decreases p, 1int,
{
    replaced_exprs(r, p.exprs);
}

proof fn replaced_decorator(r: Replacement, d: DecoratorView)
    requires
        plain_decorator(d),
    ensures
        plain_decorator(r.decorator(d)),
    decreases d, 1int,
{
    replaced_expr(r, d.expr);
}

proof fn replaced_stmt(r: Replacement, s: StmtView)
    requires
        plain_stmt(s),
    ensures
        plain_stmt(r.stmt(s)),
    decreases s, 1int,
{
    match s {
        StmtView::Expr(_, e) => {
            replaced_expr(r, *e);
        },
        StmtView::Decl(d) => {
            replaced_decl(r, d);
        },
        StmtView::Return(e) => {
            replaced_expr(r, *e);
        },
        StmtView::Other(o) => {
            replaced_other(r, o);
        },
    }
}

proof fn replaced_decl(r: Replacement, d: DeclView)
    requires
        plain_decl(d),
    ensures
        plain_decl(r.decl(d)),
    decreases d, 1int,
{
    match d {
        DeclView::Fn(f) => {
            replaced_function(r, f.function);
        },
        DeclView::Var(v) => {
            replaced_declarators(r, v.decls);
        },
        DeclView::Other(o) => {
            replaced_other(r, o);
        },
    }
}

proof fn replaced_declarator(r: Replacement, d: DeclaratorView)
    requires
        plain_declarator(d),
    ensures
        plain_declarator(r.declarator(d)),
    decreases d, 1int,
{
    replaced_pat(r, d.name);
    if let Some(e) = d.init {
        replaced_expr(r, *e);
    }
}

proof fn replaced_prop(r: Replacement, p: PropView)
    requires
        plain_prop(p),
    ensures
        plain_prop(r.prop(p)),
    decreases p, 1int,
{
    match p {
        PropView::Shorthand(i) => {
            if let Some(k) = r.index_of_id(i) {
                plain_element(r, k);
            }
        },
        PropView::KeyValue(_, value) => {
            replaced_expr(r, *value);
        },
        PropView::Other(o) => {
            replaced_other(r, o);
        },
    }
}

proof fn replaced_other(r: Replacement, o: OtherView)
    requires
        plain_other(o),
    ensures
        plain_other(r.other(o)),
    decreases o, 1int,
{
    replaced_nodes(r, o.kids);
}

proof fn replaced_node(r: Replacement, n: NodeView)
    requires
        plain_node(n),
    ensures
        plain_node(r.node(n)),
    decreases n, 1int,
{
    match n {
        NodeView::Expr(e) => {
            replaced_expr(r, e);
        },
        NodeView::Stmt(s) => {
            replaced_stmt(r, s);
        },
        NodeView::Stmts(v) => {
            replaced_stmts(r, v);
        },
        NodeView::Param(p) => {
            replaced_param(r, p);
        },
        NodeView::Prop(p) => {
            replaced_prop(r, p);
        },
        NodeView::Items(v) => {
            replaced_module(r, v);
        },
    }
}

proof fn replaced_item(r: Replacement, item: ModuleItemView)
    requires
        plain_item(item),
    ensures
        plain_item(r.item(item)),
    decreases item, 1int,
{
    match item {
        ModuleItemView::Stmt(s) => {
            replaced_stmt(r, s);
        },
        ModuleItemView::ExportDecl(_, d) => {
            replaced_decl(r, d);
        },
        ModuleItemView::ExportNamed(n) => {
            replaced_other(r, n.rest);
        },
        ModuleItemView::ExportDefaultDecl(_, d) => {
            assert(plain_default_decl(d));
            match d {
                DefaultDeclView::Fn(f) => {
                    replaced_function(r, f.function);
                    assert(plain_default_decl(
                        DefaultDeclView::Fn(
                            FnExprView { function: r.function(f.function), ..f },
                        ),
                    ));
                },
                DefaultDeclView::Other(o) => {
                    replaced_other(r, o);
                    assert(plain_default_decl(DefaultDeclView::Other(r.other(o))));
                },
            }
        },
        ModuleItemView::ExportDefaultExpr(_, e) => {
            replaced_expr(r, *e);
        },
        ModuleItemView::ExportAll(_, o) => {
            replaced_other(r, o);
        },
        ModuleItemView::Other(o) => {
            replaced_other(r, o);
        },
    }
}

proof fn replaced_exprs(r: Replacement, v: Seq<ExprView>)
    requires
        plain_exprs(v),
    ensures
        plain_exprs(r.exprs(v)),
    decreases v, 3int,
{
    let w = r.exprs(v);
    assert forall|i: int| 0 <= i < w.len() implies plain_expr(#[trigger] w[i]) by {
        replaced_expr(r, v[i]);
        assert(w[i] == r.expr(v[i]));
    }
}

proof fn replaced_params(r: Replacement, v: Seq<ParamView>)
    requires
        plain_params(v),
    ensures
        plain_params(r.params(v)),
    decreases v, 3int,
{
    let w = r.params(v);
    assert forall|i: int| 0 <= i < w.len() implies plain_param(#[trigger] w[i]) by {
        replaced_param(r, v[i]);
        assert(w[i] == r.param(v[i]));
    }
}

proof fn replaced_decorators(r: Replacement, v: Seq<DecoratorView>)
    requires
        plain_decorators(v),
    ensures
        plain_decorators(r.decorators(v)),
    decreases v, 3int,
{
    let w = r.decorators(v);
    assert forall|i: int| 0 <= i < w.len() implies plain_decorator(#[trigger] w[i]) by {
        replaced_decorator(r, v[i]);
        assert(w[i] == r.decorator(v[i]));
    }
}

proof fn replaced_pats(r: Replacement, v: Seq<PatView>)
    requires
        plain_pats(v),
    ensures
        plain_pats(r.pats(v)),
    decreases v, 3int,
{
    let w = r.pats(v);
    assert forall|i: int| 0 <= i < w.len() implies plain_pat(#[trigger] w[i]) by {
        replaced_pat(r, v[i]);
        assert(w[i] == r.pat(v[i]));
    }
}

proof fn replaced_declarators(r: Replacement, v: Seq<DeclaratorView>)
    requires
        plain_declarators(v),
    ensures
        plain_declarators(r.declarators(v)),
    decreases v, 3int,
{
    let w = r.declarators(v);
    assert forall|i: int| 0 <= i < w.len() implies plain_declarator(#[trigger] w[i]) by {
        replaced_declarator(r, v[i]);
        assert(w[i] == r.declarator(v[i]));
    }
}

proof fn replaced_nodes(r: Replacement, v: Seq<NodeView>)
    requires
        plain_nodes(v),
    ensures
        plain_nodes(r.nodes(v)),
    decreases v, 3int,
{
    let w = r.nodes(v);
    assert forall|i: int| 0 <= i < w.len() implies plain_node(#[trigger] w[i]) by {
        replaced_node(r, v[i]);
        assert(w[i] == r.node(v[i]));
    }
}

proof fn replaced_stmts(r: Replacement, v: Seq<StmtView>)
    requires
        plain_stmts(v),
    ensures
        plain_stmts(r.stmts(v)),
    decreases v, 3int,
{
    let w = r.stmts(v);
    assert forall|i: int| 0 <= i < w.len() implies plain_stmt(#[trigger] w[i]) by {
        replaced_stmt(r, v[i]);
        assert(w[i] == r.stmt(v[i]));
    }
}

proof fn replaced_items(r: Replacement, v: Seq<ModuleItemView>)
    requires
        plain_items(v),
    ensures
        plain_items(r.items(v)),
    decreases v, 3int,
{
    let w = r.items(v);
    assert forall|i: int| 0 <= i < w.len() implies plain_item(#[trigger] w[i]) by {
        replaced_item(r, v[i]);
        assert(w[i] == r.item(v[i]));
    }
}

// ---- The walk leaves no directive ----

proof fn settle_add_action(s: State, ident: IdentView, c: CallableView)
    requires
        settled(s),
        match c {
            CallableView::Function(f) => plain_function(f),
            CallableView::Arrow(a) => plain_arrow(a),
        },
    ensures
        settled(add_action(s, ident, c).0),
        match add_action(s, ident, c).1 {
            CallableView::Function(f) => c is Function && plain_function(f),
            CallableView::Arrow(a) => c is Arrow && plain_arrow(a),
        },
{
    reveal(add_action);
    let n = s.ident_cnt;
    let names = captures(s);
    let none = Seq::<NameView>::empty();
    assert(exprs_of(none) =~= Seq::<ExprView>::empty());
    plain_reference(ident, names, s.file_name, export_name(s));
    plain_reference(ident, none, s.file_name, export_name(s));
    calm_add(
        s.annotations,
        action_annotations(ident, exprs_of(names), s.file_name, export_name(s)),
    );
    calm_add(
        s.annotations,
        action_annotations(ident, exprs_of(none), s.file_name, export_name(s)),
    );
    plain_call(n, ident);
    match c {
        CallableView::Function(f) => {
            plain_const_export(action_ident(n), ExprView::Ident(ident));
            calm_push(
                s.extra_items,
                const_export(action_ident(n), ExprView::Ident(ident)),
            );
            let hoisted = hoisted_function(n, names, f);
            plain_hoisted_function(n, names, f);
            let item = function_export(action_ident(n), hoisted);
            assert(plain_decl(
                DeclView::Fn(
                    FnDeclView {
                        origin: Origin::Synthetic,
                        ident: action_ident(n),
                        function: hoisted,
                    },
                ),
            ));
            calm_push(s.extra_items, item);
            plain_stub_function(n, ident, f);
        },
        CallableView::Arrow(a) => {
            let hoisted = hoisted_arrow(n, names, a);
            plain_hoisted_arrow(n, names, a);
            assert(plain_expr(ExprView::Arrow(hoisted)));
            plain_const_export(action_ident(n), ExprView::Arrow(hoisted));
            calm_push(
                s.extra_items,
                const_export(action_ident(n), ExprView::Arrow(hoisted)),
            );
            let stub = stub_arrow(n, ident, a);
            assert(plain_arrow_body(stub.body));
        },
    }
}

proof fn plain_closure_pat(n: nat)
    ensures
        plain_pat(ident_pat(closure_ident(n))),
{
}

proof fn plain_hoisted_function(n: nat, names: Seq<NameView>, f: FunctionView)
    requires
        plain_function(f),
    ensures
        plain_function(hoisted_function(n, names, f)),
{
    let hoisted = hoisted_function(n, names, f);
    let param = ParamView {
        origin: Origin::Synthetic,
        decorators: Seq::empty(),
        pat: ident_pat(closure_ident(n)),
    };
    plain_closure_pat(n);
    assert(plain_decorators(Seq::empty()));
    assert(plain_param(param));
    assert(plain_params(hoisted.params));
    assert(plain_decorators(hoisted.decorators));
    if let Some(b) = f.body {
        replaced_block(replacement(n, names), b);
    }
}

proof fn plain_stub_function(n: nat, ident: IdentView, f: FunctionView)
    requires
        plain_function(f),
    ensures
        plain_function(stub_function(n, ident, f)),
{
    plain_call(n, ident);
    let stub = stub_function(n, ident, f);
    let b = stub.body->0;
    no_text_no_directive(b.stmts);
    assert(plain_stmt(b.stmts[0]));
    assert(plain_stmts(b.stmts));
    assert(plain_body(b));
}

proof fn plain_hoisted_arrow(n: nat, names: Seq<NameView>, a: ArrowView)
    requires
        plain_arrow(a),
    ensures
        plain_arrow(hoisted_arrow(n, names, a)),
{
    let hoisted = hoisted_arrow(n, names, a);
    plain_closure_pat(n);
    assert(plain_pats(hoisted.params));
    assert(plain_arrow_body(a.body));
    if let ArrowBodyView::Block(b) = a.body {
        replaced_block(replacement(n, names), b);
    }
    assert(plain_arrow_body(hoisted.body));
}

proof fn plain_const_export(name: IdentView, value: ExprView)
    requires
        plain_expr(value),
    ensures
        plain_item(const_export(name, value)),
        item_directive_text(const_export(name, value)) is None,
{
    let d = DeclaratorView {
        origin: Origin::Synthetic,
        name: ident_pat(name),
        init: Some(Box::new(value)),
    };
    assert(plain_pat(d.name));
    assert(plain_declarator(d));
    assert(plain_declarators(seq![d]));
    assert(plain_decl(var_decl(VarKind::Const, name, Some(Box::new(value)))));
}

proof fn plain_name_declaration(name: IdentView)
    ensures
        plain_item(name_declaration(name)),
        item_directive_text(name_declaration(name)) is None,
{
    let d = DeclaratorView { origin: Origin::Synthetic, name: ident_pat(name), init: None };
    assert(plain_pat(d.name));
    assert(plain_declarator(d));
    assert(plain_declarators(seq![d]));
    let decl = var_decl(VarKind::Var, name, None);
    assert(plain_decl(decl));
    assert(plain_stmt(StmtView::Decl(decl)));
}

proof fn settle_finish_function(s: State, span: Span, ident: IdentView, f: FunctionView)
    requires
        settled(s),
        plain_function(f),
    ensures
        settled(finish_function(s, span, ident, f).0),
        plain_function(finish_function(s, span, ident, f).1),
{
    reveal(finish_function);
    settle_add_action(s, ident, CallableView::Function(f));
}

/// An arrow function that has no directive once its own is removed.
pub open spec fn nearly_plain(a: ArrowView) -> bool {
    plain_pats(a.params) && match a.body {
        ArrowBodyView::Block(b) => plain_stmts(b.stmts) && one_directive(b.stmts),
        ArrowBodyView::Expr(e) => plain_expr(*e),
    }
}

proof fn settle_finish_arrow(s: State, a: ArrowView)
    requires
        settled(s),
        nearly_plain(a),
    ensures
        settled(finish_expr(s, ExprView::Arrow(a)).0),
        plain_expr(finish_expr(s, ExprView::Arrow(a)).1),
{
    reveal(finish_expr);
    if is_action(s, arrow_block(a)) {
        reveal(finish_arrow);
        let ident = action_ident(s.ident_cnt);
        let s1 = take_ident(s);
        let stripped = without_directive(a);
        if let ArrowBodyView::Block(b) = a.body {
            let index = fn_directive(b.stmts);
            let stmts = without(b.stmts, index);
            without_is_part(b.stmts, index);
            assert forall|i: int| 0 <= i < stmts.len() implies plain_stmt(#[trigger] stmts[i]) by {
                assert(b.stmts.contains(stmts[i]));
            }
            assert(plain_body(BlockView { stmts, ..b }));
        }
        assert(plain_arrow_body(stripped.body));
        assert(plain_arrow(stripped));
        settle_add_action(s1, ident, CallableView::Arrow(stripped));
        let (s2, c) = add_action(s1, ident, CallableView::Arrow(stripped));
        plain_name_declaration(ident);
        calm_push(s2.extra_items, name_declaration(ident));
        let stub = ExprView::Arrow(c->Arrow_0);
        assert(plain_expr(stub));
        assert(plain_expr(ExprView::Define(ident, Box::new(stub))));
    } else {
        if let ArrowBodyView::Block(b) = a.body {
            assert(without(b.stmts, None) == b.stmts);
            assert(plain_body(b));
        }
        assert(plain_arrow_body(a.body));
        assert(plain_arrow(a));
    }
}

proof fn settle_expr(s: State, e: ExprView)
    requires
        settled(s),
        single_expr(e),
    ensures
        settled(visit_expr(s, e).0),
        plain_expr(visit_expr(s, e).1),
    decreases e, 2int,
{
    if collects_names(s) && name_of(e) is Some {
        let s1 = State {
            scope: Scope { in_action_closure: false, ..s.scope },
            ..use_name(s, name_of(e)->0)
        };
        settle_expr_children(s1, e);
    } else {
        settle_expr_children(s, e);
        let (s1, e1) = visit_expr_children(s, e);
        match e {
            ExprView::Arrow(a) => {
                assert(e1 == ExprView::Arrow(visit_arrow(s, a).1));
                settle_finish_arrow(s1, visit_arrow(s, a).1);
            },
            _ => {
                reveal(finish_expr);
                assert(!(e1 is Arrow));
            },
        }
    }
}

proof fn settle_expr_children(s: State, e: ExprView)
    requires
        settled(s),
        single_expr(e),
    ensures
        settled(visit_expr_children(s, e).0),
        match e {
            ExprView::Arrow(a) => nearly_plain(visit_arrow(s, a).1),
            _ => plain_expr(visit_expr_children(s, e).1),
        },
    decreases e, 1int,
{
    match e {
        ExprView::Ident(_) => {},
        ExprView::Str(_, _) => {},
        ExprView::Member(m) => {
            settle_expr(s, *m.obj);
        },
        ExprView::OptMember(m) => {
            settle_expr(s, *m.obj);
        },
        ExprView::Fn(f) => {
            settle_fn_expr(s, f.ident, f.function);
        },
        ExprView::Arrow(a) => {
            settle_arrow(s, a);
        },
        ExprView::Call(callee, args) => {
            settle_expr(s, *callee);
            settle_exprs(visit_expr(s, *callee).0, args);
        },
        ExprView::Assign(target, value) => {
            settle_expr(s, *target);
            settle_expr(visit_expr(s, *target).0, *value);
        },
        ExprView::Define(_, value) => {
            settle_expr(s, *value);
        },
        ExprView::Paren(inner) => {
            settle_expr(s, *inner);
        },
        ExprView::Array(elems) => {
            settle_exprs(s, elems);
        },
        ExprView::Index(obj, _) => {
            settle_expr(s, *obj);
        },
        ExprView::Other(o) => {
            settle_other(s, o);
        },
    }
}

proof fn settle_fn_expr(s: State, ident: Option<IdentView>, f: FunctionView)
    requires
        settled(s),
        single_function(f),
    ensures
        settled(visit_fn_expr(s, ident, f).0),
        plain_function(visit_fn_expr(s, ident, f).1.function),
    decreases f, 2int,
{
    settle_function(s, f);
    let (s1, f1) = visit_function(s, f);
    let (s2, ident2) = name_action(s1, ident, f1);
    settle_finish_function(s2, f1.span, ident2->0, f1);
}

proof fn settle_fn_decl(s: State, d: FnDeclView)
    requires
        settled(s),
        single_function(d.function),
    ensures
        settled(visit_fn_decl(s, d).0),
        plain_function(visit_fn_decl(s, d).1.function),
    decreases d, 0int,
{
    settle_function(s, d.function);
    let (s1, f1) = visit_function(s, d.function);
    settle_finish_function(s1, d.ident.span, d.ident, f1);
}

proof fn settle_function(s: State, f: FunctionView)
    requires
        settled(s),
        single_function(f),
    ensures
        settled(visit_function(s, f).0),
        plain_function(visit_function(s, f).1),
    decreases f, 1int,
{
    let s0 = enter_function(s, is_action(s, f.body));
    let directive = action_directive(s, f.body);
    settle_params(s0, f.params);
    let s1 = visit_params(s0, f.params).0;
    settle_decorators(s1, f.decorators);
    let s2 = visit_decorators(s1, f.decorators).0;
    settle_fn_body(s2, f.body, directive);
}

proof fn settle_fn_body(s: State, body: Option<BlockView>, directive: Option<int>)
    requires
        settled(s),
        match body {
            Some(b) => single_body(b) && directive == fn_directive(b.stmts),
            None => true,
        },
    ensures
        settled(visit_fn_body(s, body, directive).0),
        match visit_fn_body(s, body, directive).1 {
            Some(b) => plain_body(b),
            None => true,
        },
    decreases body, 0int,
{
    if let Some(b) = body {
        without_decreases(b.stmts, directive);
        without_is_part(b.stmts, directive);
        let stmts = without(b.stmts, directive);
        assert forall|i: int| 0 <= i < stmts.len() implies single_stmt(#[trigger] stmts[i]) by {
            assert(b.stmts.contains(stmts[i]));
        }
        settle_stmts(s, stmts);
        prologue_kept(s, stmts);
        same_prologue_same_directive(
            directive_texts(stmts),
            directive_texts(visit_stmts(s, stmts).1),
        );
    }
}

proof fn settle_arrow(s: State, a: ArrowView)
    requires
        settled(s),
        single_arrow(a),
    ensures
        settled(visit_arrow(s, a).0),
        nearly_plain(visit_arrow(s, a).1),
    decreases a, 1int,
{
    let s0 = enter_function(s, is_action(s, arrow_block(a)));
    settle_pats(s0, a.params);
    let s1 = visit_pats(s0, a.params).0;
    assert(single_arrow_body(a.body));
    settle_arrow_body(s1, a.body);
}

proof fn settle_arrow_body(s: State, body: ArrowBodyView)
    requires
        settled(s),
        single_arrow_body(body),
    ensures
        settled(visit_arrow_body(s, body).0),
        match visit_arrow_body(s, body).1 {
            ArrowBodyView::Block(b) => plain_stmts(b.stmts) && one_directive(b.stmts),
            ArrowBodyView::Expr(e) => plain_expr(*e),
        },
    decreases body, 0int,
{
    match body {
        ArrowBodyView::Block(b) => {
            assert(single_body(b));
            settle_stmts(s, b.stmts);
            prologue_kept(s, b.stmts);
            one_directive_kept(b.stmts, visit_stmts(s, b.stmts).1);
        },
        ArrowBodyView::Expr(e) => {
            settle_expr(s, *e);
        },
    }
}

/// Lists that begin alike have the directive equally often, as far as it
/// counts.
proof fn one_directive_kept(v: Seq<StmtView>, w: Seq<StmtView>)
    requires
        one_directive(v),
        same_prologue(directive_texts(v), directive_texts(w)),
    ensures
        one_directive(w),
{
    let a = directive_texts(v);
    let b = directive_texts(w);
    same_prologue_same_directive(a, b);
    if let Some(i) = fn_directive(v) {
        prologue_without(a, b);
        assert(directive_texts(without(v, Some(i))) =~= a.remove(i));
        assert(directive_texts(without(w, Some(i))) =~= b.remove(i));
        same_prologue_same_directive(a.remove(i), b.remove(i));
    } else {
        assert(without(w, None) == w);
    }
}

proof fn settle_param(s: State, p: ParamView)
    requires
        settled(s),
        single_param(p),
    ensures
        settled(visit_param(s, p).0),
        plain_param(visit_param(s, p).1),
    decreases p, 1int,
{
    settle_decorators(s, p.decorators);
    let s1 = visit_decorators(s, p.decorators).0;
    settle_pat(s1, p.pat);
}

proof fn settle_pat(s: State, p: PatView)
    requires
        settled(s),
        single_pat(p),
    ensures
        settled(visit_pat(s, p).0),
        plain_pat(visit_pat(s, p).1),
    decreases p, 1int,
{
    settle_exprs(s, p.exprs);
}

proof fn settle_decorator(s: State, d: DecoratorView)
    requires
        settled(s),
        single_decorator(d),
    ensures
        settled(visit_decorator(s, d).0),
        plain_decorator(visit_decorator(s, d).1),
    decreases d, 1int,
{
    settle_expr(s, d.expr);
}

proof fn settle_stmt(s: State, stmt: StmtView)
    requires
        settled(s),
        single_stmt(stmt),
    ensures
        settled(visit_stmt(s, stmt).0),
        plain_stmt(visit_stmt(s, stmt).1),
    decreases stmt, 2int,
{
    match stmt {
        StmtView::Expr(_, e) => {
            settle_expr(s, *e);
        },
        StmtView::Decl(d) => {
            settle_decl(s, d);
        },
        StmtView::Return(e) => {
            settle_expr(s, *e);
        },
        StmtView::Other(o) => {
            settle_other(s, o);
        },
    }
    assert(plain_stmt(visit_stmt_children(s, stmt).1));
}

proof fn settle_decl(s: State, d: DeclView)
    requires
        settled(s),
        single_decl(d),
    ensures
        settled(visit_decl(s, d).0),
        plain_decl(visit_decl(s, d).1),
    decreases d, 1int,
{
    match d {
        DeclView::Fn(f) => {
            settle_fn_decl(s, f);
        },
        DeclView::Var(v) => {
            settle_declarators(s, v.decls);
        },
        DeclView::Other(o) => {
            settle_other(s, o);
        },
    }
}

proof fn settle_declarator(s: State, d: DeclaratorView)
    requires
        settled(s),
        single_declarator(d),
    ensures
        settled(visit_declarator(s, d).0),
        plain_declarator(visit_declarator(s, d).1),
    decreases d, 1int,
{
    settle_pat(s, d.name);
    let s1 = visit_pat(s, d.name).0;
    if let Some(e) = d.init {
        settle_expr(s1, *e);
    }
}

proof fn settle_prop(s: State, p: PropView)
    requires
        settled(s),
        single_prop(p),
    ensures
        settled(visit_prop(s, p).0),
        plain_prop(visit_prop(s, p).1),
    decreases p, 1int,
{
    match p {
        PropView::Shorthand(_) => {},
        PropView::KeyValue(_, value) => {
            settle_expr(s, *value);
        },
        PropView::Other(o) => {
            settle_other(s, o);
        },
    }
}

proof fn settle_other(s: State, o: OtherView)
    requires
        settled(s),
        single_other(o),
    ensures
        settled(visit_other(s, o).0),
        plain_other(visit_other(s, o).1),
    decreases o, 1int,
{
    settle_nodes(s, o.kids);
}

proof fn settle_node(s: State, n: NodeView)
    requires
        settled(s),
        single_node(n),
    ensures
        settled(visit_node(s, n).0),
        plain_node(visit_node(s, n).1),
    decreases n, 1int,
{
    match n {
        NodeView::Expr(e) => {
            settle_expr(s, e);
        },
        NodeView::Stmt(stmt) => {
            settle_stmt(s, stmt);
        },
        NodeView::Stmts(v) => {
            settle_stmts(s, v);
        },
        NodeView::Param(p) => {
            settle_param(s, p);
        },
        NodeView::Prop(p) => {
            settle_prop(s, p);
        },
        NodeView::Items(v) => {
            settle_items(s, v);
        },
    }
}

proof fn settle_stmts(s: State, v: Seq<StmtView>)
    requires
        settled(s),
        single_stmts(v),
    ensures
        settled(visit_stmts(s, v).0),
        plain_stmts(visit_stmts(s, v).1),
    decreases v, 5int,
{
    calm_empty();
    settle_stmts_in_turn(State { annotations: Seq::empty(), ..s }, v);
}

proof fn settle_stmts_in_turn(s: State, v: Seq<StmtView>)
    requires
        settled(s),
        single_stmts(v),
    ensures
        settled(visit_stmts_in_turn(s, v).0),
        plain_stmts(visit_stmts_in_turn(s, v).1),
    decreases v, 4int,
{
    calm_empty();
    if v.len() != 0 {
        settle_stmts_in_turn(s, v.drop_last());
        let (s1, init) = visit_stmts_in_turn(s, v.drop_last());
        let t1 = State { top_level: false, ..s1 };
        settle_stmt(t1, v.last());
        let (s2, stmt) = visit_stmt(t1, v.last());
        let all = visit_stmts_in_turn(s, v).1;
        assert(all == init.push(stmt) + s2.annotations);
        reveal(calm_stmts);
        assert forall|i: int| 0 <= i < all.len() implies plain_stmt(#[trigger] all[i]) by {
            if i < init.len() {
                assert(all[i] == init[i]);
            } else if i > init.len() {
                assert(all[i] == s2.annotations[i - init.len() - 1]);
            }
        }
    }
}

proof fn settle_items(s: State, v: Seq<ModuleItemView>)
    requires
        settled(s),
        single_module(v),
    ensures
        settled(visit_items(s, v).0),
        plain_module(visit_items(s, v).1),
    decreases v, 5int,
{
    calm_empty();
    let s1 = State { annotations: Seq::empty(), ..s };
    assert(enter_items(s, v) == s);
    assert(without(v, module_directive(v)) == v);
    settle_items_in_turn(s1, v);
    let (s2, v2) = visit_items_in_turn(s1, v);
    reveal(leave_items);
    assert(visit_items(s, v) == leave_items(s2, s.annotations, v2));
    let k = choose|k: int| begins_with(item_directive_texts(v), item_directive_texts(v2), k);
    no_directive_begins(item_directive_texts(v), item_directive_texts(v2), k);
}

/// A list begins with the first `k` texts of another, and does not go on with
/// a text.
pub open spec fn begins_with(
    a: Seq<Option<Seq<char>>>,
    b: Seq<Option<Seq<char>>>,
    k: int,
) -> bool {
    &&& 0 <= k <= a.len()
    &&& k <= b.len()
    &&& k < b.len() ==> b[k] is None
    &&& k == b.len() ==> k == a.len()
    &&& forall|j: int| #![trigger b[j]] 0 <= j < k ==> a[j] == b[j] && b[j] is Some
}

proof fn no_directive_begins(
    a: Seq<Option<Seq<char>>>,
    b: Seq<Option<Seq<char>>>,
    k: int,
)
    requires
        begins_with(a, b, k),
        directive_index(a) is None,
    ensures
        directive_index(b) is None,
{
    reveal(directive_index);
    assert forall|i: int| !directive_at(b, i) by {
        if directive_at(b, i) {
            assert(b[i] is Some);
            if k <= i {
                assert(b[k] is Some);
            }
            assert(directive_at(a, i)) by {
                assert forall|j: int| 0 <= j < i implies #[trigger] a[j] is Some && a[j] != Some(
                    "use server"@,
                ) by {
                    assert(b[j] is Some && b[j] != Some("use server"@));
                }
                assert(a[i] == b[i]);
            }
        }
    }
}

proof fn settle_items_in_turn(s: State, v: Seq<ModuleItemView>)
    requires
        settled(s),
        single_items(v),
    ensures
        settled(visit_items_in_turn(s, v).0),
        plain_items(visit_items_in_turn(s, v).1),
        exists|k: int|
            begins_with(
                item_directive_texts(v),
                item_directive_texts(visit_items_in_turn(s, v).1),
                k,
            ),
    decreases v, 4int,
{
    calm_empty();
    if v.len() == 0 {
        assert(begins_with(
            item_directive_texts(v),
            item_directive_texts(visit_items_in_turn(s, v).1),
            0,
        ));
    } else {
        settle_items_in_turn(s, v.drop_last());
        let (s1, init) = visit_items_in_turn(s, v.drop_last());
        let t1 = State { top_level: true, ..s1 };
        assert(visit_top_item(t1, v.last()) == visit_item(t1, v.last()));
        settle_item(t1, v.last());
        item_text_kept(t1, v.last());
        let (s2, item) = visit_item(t1, v.last());
        assert(visit_items_in_turn(s, v) == flush(s2, init.push(item)));
        one_more_item(s2, v.drop_last(), init, v.last(), item);
        assert(v.drop_last().push(v.last()) =~= v);
    }
}

proof fn calm_more(s: State)
    requires
        settled(s),
    ensures
        ({
            let more = as_items(s.annotations) + s.extra_items;
            forall|i: int|
                0 <= i < more.len() ==> plain_item(#[trigger] more[i]) && item_directive_text(
                    more[i],
                ) is None
        }),
{
    reveal(calm_stmts);
    reveal(calm_items);
    let more = as_items(s.annotations) + s.extra_items;
    assert forall|i: int| 0 <= i < more.len() implies plain_item(#[trigger] more[i])
        && item_directive_text(more[i]) is None by {
        if i < s.annotations.len() {
            assert(more[i] == ModuleItemView::Stmt(s.annotations[i]));
        } else {
            assert(more[i] == s.extra_items[i - s.annotations.len()]);
        }
    }
}

/// An item and what belongs behind it.
proof fn one_more_item(
    s: State,
    init: Seq<ModuleItemView>,
    out: Seq<ModuleItemView>,
    last: ModuleItemView,
    item: ModuleItemView,
)
    requires
        settled(s),
        plain_items(out),
        plain_item(item),
        item_directive_text(item) == item_directive_text(last),
        exists|k: int| begins_with(item_directive_texts(init), item_directive_texts(out), k),
    ensures
        plain_items(flush(s, out.push(item)).1),
        exists|k: int|
            begins_with(
                item_directive_texts(init.push(last)),
                item_directive_texts(flush(s, out.push(item)).1),
                k,
            ),
{
    let more = as_items(s.annotations) + s.extra_items;
    let all = flush(s, out.push(item)).1;
    assert(all =~= out.push(item) + more);
    calm_more(s);
    assert forall|i: int| 0 <= i < all.len() implies plain_item(#[trigger] all[i]) by {
        if i < out.len() {
            assert(all[i] == out[i]);
        } else if i > out.len() {
            assert(all[i] == more[i - out.len() - 1]);
        }
    }
    begins_grows(init, out, last, item, more);
}

proof fn begins_grows(
    init: Seq<ModuleItemView>,
    out: Seq<ModuleItemView>,
    last: ModuleItemView,
    item: ModuleItemView,
    more: Seq<ModuleItemView>,
)
    requires
        exists|k: int| begins_with(item_directive_texts(init), item_directive_texts(out), k),
        item_directive_text(item) == item_directive_text(last),
        forall|i: int| 0 <= i < more.len() ==> item_directive_text(#[trigger] more[i]) is None,
    ensures
        exists|k: int|
            begins_with(
                item_directive_texts(init.push(last)),
                item_directive_texts(out.push(item) + more),
                k,
            ),
{
    let a = item_directive_texts(init);
    let b = item_directive_texts(out);
    let k = choose|k: int| begins_with(a, b, k);
    let a1 = item_directive_texts(init.push(last));
    let b1 = item_directive_texts(out.push(item) + more);
    assert forall|j: int| 0 <= j < a.len() implies a1[j] == #[trigger] a[j] by {}
    assert forall|j: int| 0 <= j < b.len() implies b1[j] == #[trigger] b[j] by {}
    if k < b.len() {
        assert(b1[k] == b[k]);
        assert(begins_with(a1, b1, k)) by {
            assert forall|j: int| 0 <= j < k implies a1[j] == #[trigger] b1[j] && b1[j] is Some by {
                assert(b[j] == a[j]);
            }
        }
    } else {
        assert(a1[k] == item_directive_text(last));
        assert(b1[k] == item_directive_text(item));
        let k1 = if item_directive_text(item) is Some {
            k + 1
        } else {
            k
        };
        assert(begins_with(a1, b1, k1)) by {
            assert forall|j: int| 0 <= j < k1 implies a1[j] == #[trigger] b1[j]
                && b1[j] is Some by {
                if j < k {
                    assert(b[j] == a[j]);
                }
            }
            if k1 == k + 1 && k1 < b1.len() {
                assert(b1[k1] == item_directive_text(more[0]));
            }
        }
    }
}

proof fn settle_item(s: State, item: ModuleItemView)
    requires
        settled(s),
        single_item(item),
    ensures
        settled(visit_item(s, item).0),
        plain_item(visit_item(s, item).1),
    decreases item, 1int,
{
    match item {
        ModuleItemView::Stmt(stmt) => {
            settle_stmt(s, stmt);
        },
        ModuleItemView::ExportDecl(_, d) => {
            settle_decl(export_scope(s), d);
            assert(plain_decl(visit_export_decl(s, d).1));
        },
        ModuleItemView::ExportNamed(n) => {
            settle_other(s, n.rest);
        },
        ModuleItemView::ExportDefaultDecl(_, d) => {
            assert(single_default_decl(d));
            match d {
                DefaultDeclView::Fn(f) => {
                    settle_fn_expr(default_scope(s), f.ident, f.function);
                    assert(visit_default_decl(s, d).1 == DefaultDeclView::Fn(
                        visit_default_fn(s, f.ident, f.function).1,
                    ));
                },
                DefaultDeclView::Other(o) => {
                    settle_other(default_scope(s), o);
                },
            }
            assert(plain_default_decl(visit_default_decl(s, d).1));
        },
        ModuleItemView::ExportDefaultExpr(_, e) => {
            settle_expr(default_scope(s), *e);
            assert(plain_expr(visit_default_expr(s, *e).1));
        },
        ModuleItemView::ExportAll(_, o) => {
            settle_other(s, o);
        },
        ModuleItemView::Other(o) => {
            settle_other(s, o);
        },
    }
}

proof fn settle_exprs(s: State, v: Seq<ExprView>)
    requires
        settled(s),
        single_exprs(v),
    ensures
        settled(visit_exprs(s, v).0),
        plain_exprs(visit_exprs(s, v).1),
    decreases v, 4int,
{
    if v.len() != 0 {
        settle_exprs(s, v.drop_last());
        let (s1, init) = visit_exprs(s, v.drop_last());
        settle_expr(s1, v.last());
        let all = visit_exprs(s, v).1;
        assert(all == init.push(visit_expr(s1, v.last()).1));
        assert forall|i: int| 0 <= i < all.len() implies plain_expr(#[trigger] all[i]) by {
            if i < init.len() {
                assert(all[i] == init[i]);
            }
        }
    }
}

proof fn settle_params(s: State, v: Seq<ParamView>)
    requires
        settled(s),
        single_params(v),
    ensures
        settled(visit_params(s, v).0),
        plain_params(visit_params(s, v).1),
    decreases v, 4int,
{
    if v.len() != 0 {
        settle_params(s, v.drop_last());
        let (s1, init) = visit_params(s, v.drop_last());
        settle_param(s1, v.last());
        let all = visit_params(s, v).1;
        assert(all == init.push(visit_param(s1, v.last()).1));
        assert forall|i: int| 0 <= i < all.len() implies plain_param(#[trigger] all[i]) by {
            if i < init.len() {
                assert(all[i] == init[i]);
            }
        }
    }
}

proof fn settle_decorators(s: State, v: Seq<DecoratorView>)
    requires
        settled(s),
        single_decorators(v),
    ensures
        settled(visit_decorators(s, v).0),
        plain_decorators(visit_decorators(s, v).1),
    decreases v, 4int,
{
    if v.len() != 0 {
        settle_decorators(s, v.drop_last());
        let (s1, init) = visit_decorators(s, v.drop_last());
        settle_decorator(s1, v.last());
        let all = visit_decorators(s, v).1;
        assert(all == init.push(visit_decorator(s1, v.last()).1));
        assert forall|i: int| 0 <= i < all.len() implies plain_decorator(#[trigger] all[i]) by {
            if i < init.len() {
                assert(all[i] == init[i]);
            }
        }
    }
}

proof fn settle_pats(s: State, v: Seq<PatView>)
    requires
        settled(s),
        single_pats(v),
    ensures
        settled(visit_pats(s, v).0),
        plain_pats(visit_pats(s, v).1),
    decreases v, 4int,
{
    if v.len() != 0 {
        settle_pats(s, v.drop_last());
        let (s1, init) = visit_pats(s, v.drop_last());
        settle_pat(s1, v.last());
        let all = visit_pats(s, v).1;
        assert(all == init.push(visit_pat(s1, v.last()).1));
        assert forall|i: int| 0 <= i < all.len() implies plain_pat(#[trigger] all[i]) by {
            if i < init.len() {
                assert(all[i] == init[i]);
            }
        }
    }
}

proof fn settle_declarators(s: State, v: Seq<DeclaratorView>)
    requires
        settled(s),
        single_declarators(v),
    ensures
        settled(visit_declarators(s, v).0),
        plain_declarators(visit_declarators(s, v).1),
    decreases v, 4int,
{
    if v.len() != 0 {
        settle_declarators(s, v.drop_last());
        let (s1, init) = visit_declarators(s, v.drop_last());
        settle_declarator(s1, v.last());
        let all = visit_declarators(s, v).1;
        assert(all == init.push(visit_declarator(s1, v.last()).1));
        assert forall|i: int| 0 <= i < all.len() implies plain_declarator(#[trigger] all[i]) by {
            if i < init.len() {
                assert(all[i] == init[i]);
            }
        }
    }
}

proof fn settle_nodes(s: State, v: Seq<NodeView>)
    requires
        settled(s),
        single_nodes(v),
    ensures
        settled(visit_nodes(s, v).0),
        plain_nodes(visit_nodes(s, v).1),
    decreases v, 4int,
{
    if v.len() != 0 {
        settle_nodes(s, v.drop_last());
        let (s1, init) = visit_nodes(s, v.drop_last());
        settle_node(s1, v.last());
        let all = visit_nodes(s, v).1;
        assert(all == init.push(visit_node(s1, v.last()).1));
        assert forall|i: int| 0 <= i < all.len() implies plain_node(#[trigger] all[i]) by {
            if i < init.len() {
                assert(all[i] == init[i]);
            }
        }
    }
}

/// A second pass over the result of a first one changes nothing, generates no
/// identifier, adds no comment and reports nothing. The module has no directive of its own, nor has
/// a namespace in it, and no body has the directive twice.
pub proof fn second_pass_changes_nothing(
    file_name: Seq<char>,
    config: Config,
    m: ModuleView,
    second_file_name: Seq<char>,
    second_config: Config,
)
    requires
        single_module(m.body),
    ensures
        ({
            let m1 = visit_module(initial_state(file_name, config), m).1;
            let (t, m2) = visit_module(initial_state(second_file_name, second_config), m1);
            &&& m2 == m1
            &&& t.ident_cnt == 0
            &&& t.comments.len() == 0
            &&& t.errors.len() == 0
            &&& !t.has_action
        }),
{
    calm_empty();
    let s = State { start_pos: m.span.lo, ..initial_state(file_name, config) };
    settle_items(s, m.body);
    let m1 = visit_module(initial_state(file_name, config), m).1;
    plain_module_unchanged(second_file_name, second_config, m1);
}

} // verus!
