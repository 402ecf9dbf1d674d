//! A hoisted action does not mention what it captured.

use vstd::prelude::*;

use crate::closure::exprs_of;
use crate::model::{
    ArrowBodyView, ArrowView, BlockView, DeclView, DeclaratorView, DecoratorView, DefaultDeclView,
    ExprView, FunctionView, ModuleItemView, NodeView, OtherView, ParamView, PatView, PropView,
    StmtView,
};
use crate::names::{ident_name, name_of, name_of_expr_of, NameView};
use crate::replace::{first_at, position, position_found, Replacement};

verus! {

// ---- Trees that do not mention any of some names ----

/// The expression itself is none of the names.
pub open spec fn unnamed(names: Seq<NameView>, e: ExprView) -> bool {
    match name_of(e) {
        Some(n) => !names.contains(n),
        None => true,
    }
}

pub open spec fn free_expr(names: Seq<NameView>, e: ExprView) -> bool
    decreases e, 1int,
{
    unnamed(names, e) && free_children(names, e)
}

pub open spec fn free_children(names: Seq<NameView>, e: ExprView) -> bool
    decreases e, 0int,
{
    match e {
        ExprView::Ident(_) => true,
        ExprView::Str(_, _) => true,
        ExprView::Member(m) => free_expr(names, *m.obj),
        ExprView::OptMember(m) => free_expr(names, *m.obj),
        ExprView::Fn(f) => free_function(names, f.function),
        ExprView::Arrow(a) => free_arrow(names, a),
        ExprView::Call(callee, args) => free_expr(names, *callee) && free_exprs(names, args),
        ExprView::Assign(target, value) => free_expr(names, *target) && free_expr(names, *value),
        ExprView::Define(_, value) => free_expr(names, *value),
        ExprView::Paren(inner) => free_expr(names, *inner),
        ExprView::Array(elems) => free_exprs(names, elems),
        ExprView::Index(obj, _) => free_expr(names, *obj),
        ExprView::Other(o) => free_other(names, o),
    }
}

pub open spec fn free_function(names: Seq<NameView>, f: FunctionView) -> bool
    decreases f, 1int,
{
    free_params(names, f.params) && free_decorators(names, f.decorators) && free_opt_block(
        names,
        f.body,
    )
}

pub open spec fn free_opt_block(names: Seq<NameView>, b: Option<BlockView>) -> bool
    decreases b, 1int,
{
    match b {
        Some(block) => free_block(names, block),
        None => true,
    }
}

pub open spec fn free_block(names: Seq<NameView>, b: BlockView) -> bool
    decreases b, 1int,
{
    free_stmts(names, b.stmts)
}

pub open spec fn free_arrow(names: Seq<NameView>, a: ArrowView) -> bool
    decreases a, 1int,
{
    free_pats(names, a.params) && match a.body {
        ArrowBodyView::Block(b) => free_block(names, b),
        ArrowBodyView::Expr(e) => free_expr(names, *e),
    }
}

pub open spec fn free_param(names: Seq<NameView>, p: ParamView) -> bool
    decreases p, 1int,
{
    free_decorators(names, p.decorators) && free_pat(names, p.pat)
}

pub open spec fn free_pat(names: Seq<NameView>, p: PatView) -> bool
    decreases p, 1int,
{
    free_exprs(names, p.exprs)
}

pub open spec fn free_decorator(names: Seq<NameView>, d: DecoratorView) -> bool
    decreases d, 1int,
{
    free_expr(names, d.expr)
}

pub open spec fn free_stmt(names: Seq<NameView>, s: StmtView) -> bool
    decreases s, 1int,
{
    match s {
        StmtView::Expr(_, e) => free_expr(names, *e),
        StmtView::Decl(d) => free_decl(names, d),
        StmtView::Return(e) => free_expr(names, *e),
        StmtView::Other(o) => free_other(names, o),
    }
}

pub open spec fn free_decl(names: Seq<NameView>, d: DeclView) -> bool
    decreases d, 1int,
{
    match d {
        DeclView::Fn(f) => free_function(names, f.function),
        DeclView::Var(v) => free_declarators(names, v.decls),
        DeclView::Other(o) => free_other(names, o),
    }
}

pub open spec fn free_declarator(names: Seq<NameView>, d: DeclaratorView) -> bool
    decreases d, 1int,
{
    free_pat(names, d.name) && match d.init {
        Some(e) => free_expr(names, *e),
        None => true,
    }
}

pub open spec fn free_prop(names: Seq<NameView>, p: PropView) -> bool
    decreases p, 1int,
{
    match p {
        PropView::Shorthand(i) => !names.contains(ident_name(i)),
        PropView::KeyValue(_, value) => free_expr(names, *value),
        PropView::Other(o) => free_other(names, o),
    }
}

pub open spec fn free_other(names: Seq<NameView>, o: OtherView) -> bool
    decreases o, 1int,
{
    free_nodes(names, o.kids)
}

pub open spec fn free_node(names: Seq<NameView>, n: NodeView) -> bool
    decreases n, 1int,
{
    match n {
        NodeView::Expr(e) => free_expr(names, e),
        NodeView::Stmt(s) => free_stmt(names, s),
        NodeView::Stmts(v) => free_stmts(names, v),
        NodeView::Param(p) => free_param(names, p),
        NodeView::Prop(p) => free_prop(names, p),
        NodeView::Items(v) => free_items(names, v),
    }
}

pub open spec fn free_item(names: Seq<NameView>, item: ModuleItemView) -> bool
    decreases item, 1int,
{
    match item {
        ModuleItemView::Stmt(s) => free_stmt(names, s),
        ModuleItemView::ExportDecl(_, d) => free_decl(names, d),
        ModuleItemView::ExportNamed(n) => free_other(names, n.rest),
        ModuleItemView::ExportDefaultDecl(_, DefaultDeclView::Fn(f)) => free_function(
            names,
            f.function,
        ),
        ModuleItemView::ExportDefaultDecl(_, DefaultDeclView::Other(o)) => free_other(names, o),
        ModuleItemView::ExportDefaultExpr(_, e) => free_expr(names, *e),
        ModuleItemView::ExportAll(_, o) => free_other(names, o),
        ModuleItemView::Other(o) => free_other(names, o),
    }
}

pub open spec fn free_exprs(names: Seq<NameView>, v: Seq<ExprView>) -> bool
    decreases v, 3int,
{
    forall|i: int| 0 <= i < v.len() ==> free_expr(names, #[trigger] v[i])
}

pub open spec fn free_params(names: Seq<NameView>, v: Seq<ParamView>) -> bool
    decreases v, 3int,
{
    forall|i: int| 0 <= i < v.len() ==> free_param(names, #[trigger] v[i])
}

pub open spec fn free_decorators(names: Seq<NameView>, v: Seq<DecoratorView>) -> bool
    decreases v, 3int,
{
    forall|i: int| 0 <= i < v.len() ==> free_decorator(names, #[trigger] v[i])
}

pub open spec fn free_pats(names: Seq<NameView>, v: Seq<PatView>) -> bool
    decreases v, 3int,
{
    forall|i: int| 0 <= i < v.len() ==> free_pat(names, #[trigger] v[i])
}

pub open spec fn free_declarators(names: Seq<NameView>, v: Seq<DeclaratorView>) -> bool
    decreases v, 3int,
{
    forall|i: int| 0 <= i < v.len() ==> free_declarator(names, #[trigger] v[i])
}

pub open spec fn free_nodes(names: Seq<NameView>, v: Seq<NodeView>) -> bool
    decreases v, 3int,
{
    forall|i: int| 0 <= i < v.len() ==> free_node(names, #[trigger] v[i])
}

pub open spec fn free_stmts(names: Seq<NameView>, v: Seq<StmtView>) -> bool
    decreases v, 3int,
{
    forall|i: int| 0 <= i < v.len() ==> free_stmt(names, #[trigger] v[i])
}

pub open spec fn free_items(names: Seq<NameView>, v: Seq<ModuleItemView>) -> bool
    decreases v, 3int,
{
    forall|i: int| 0 <= i < v.len() ==> free_item(names, #[trigger] v[i])
}

// ---- Replacing leaves no mention ----

/// The closure parameter is none of the captured names.
pub open spec fn fresh(r: Replacement) -> bool {
    !r.used_ids.contains(ident_name(r.closure_arg))
}

/// A name without a position is not in the list.
pub proof fn position_none(names: Seq<NameView>, name: NameView)
    requires
        position(names, name) is None,
    ensures
        !names.contains(name),
{
    if names.contains(name) {
        let i = choose|i: int| 0 <= i < names.len() && names[i] == name;
        position_found(names, name, i);
    }
}

proof fn free_element(r: Replacement, i: int)
    requires
        fresh(r),
    ensures
        free_expr(r.used_ids, r.element(i)),
{
    let inner = ExprView::Ident(r.closure_arg);
    assert(free_expr(r.used_ids, inner));
}

proof fn clear_expr(r: Replacement, e: ExprView)
    requires
        fresh(r),
    ensures
        free_expr(r.used_ids, r.expr(e)),
    decreases e, 1int,
{
    clear_children(r, e);
    let c = r.expr_children(e);
    match r.index(c) {
        Some(i) => {
            free_element(r, i);
        },
        None => {
            if let Some(n) = name_of(c) {
                position_none(r.used_ids, n);
            }
        },
    }
}

proof fn clear_children(r: Replacement, e: ExprView)
    requires
        fresh(r),
    ensures
        free_children(r.used_ids, r.expr_children(e)),
    decreases e, 0int,
{
    match e {
        ExprView::Ident(_) => {},
        ExprView::Str(_, _) => {},
        ExprView::Member(m) => {
            clear_expr(r, *m.obj);
        },
        ExprView::OptMember(m) => {
            clear_expr(r, *m.obj);
        },
        ExprView::Fn(f) => {
            clear_function(r, f.function);
        },
        ExprView::Arrow(a) => {
            clear_arrow(r, a);
        },
        ExprView::Call(callee, args) => {
            clear_expr(r, *callee);
            clear_exprs(r, args);
        },
        ExprView::Assign(target, value) => {
            clear_expr(r, *target);
            clear_expr(r, *value);
        },
        ExprView::Define(_, value) => {
            clear_expr(r, *value);
        },
        ExprView::Paren(inner) => {
            clear_expr(r, *inner);
        },
        ExprView::Array(elems) => {
            clear_exprs(r, elems);
        },
        ExprView::Index(obj, _) => {
            clear_expr(r, *obj);
        },
        ExprView::Other(o) => {
            clear_other(r, o);
        },
    }
}

proof fn clear_function(r: Replacement, f: FunctionView)
    requires
        fresh(r),
    ensures
        free_function(r.used_ids, r.function(f)),
    decreases f, 1int,
{
    clear_params(r, f.params);
    clear_decorators(r, f.decorators);
    if let Some(b) = f.body {
        clear_block(r, b);
    }
}

proof fn clear_block(r: Replacement, b: BlockView)
    requires
        fresh(r),
    ensures
        free_block(r.used_ids, r.block(b)),
    decreases b, 1int,
{
    clear_stmts(r, b.stmts);
}

proof fn clear_arrow(r: Replacement, a: ArrowView)
    requires
        fresh(r),
    ensures
        free_arrow(r.used_ids, r.arrow(a)),
    decreases a, 1int,
{
    clear_pats(r, a.params);
    match a.body {
        ArrowBodyView::Block(b) => {
            clear_block(r, b);
        },
        ArrowBodyView::Expr(e) => {
            clear_expr(r, *e);
        },
    }
}

proof fn clear_param(r: Replacement, p: ParamView)
    requires
        fresh(r),
    ensures
        free_param(r.used_ids, r.param(p)),
    decreases p, 1int,
{
    clear_decorators(r, p.decorators);
    clear_pat(r, p.pat);
}

proof fn clear_pat(r: Replacement, p: PatView)
    requires
        fresh(r),
    ensures
        free_pat(r.used_ids, r.pat(p)),
    decreases p, 1int,
{
    clear_exprs(r, p.exprs);
}

proof fn clear_decorator(r: Replacement, d: DecoratorView)
    requires
        fresh(r),
    ensures
        free_decorator(r.used_ids, r.decorator(d)),
    decreases d, 1int,
{
    clear_expr(r, d.expr);
}

proof fn clear_stmt(r: Replacement, s: StmtView)
    requires
        fresh(r),
    ensures
        free_stmt(r.used_ids, r.stmt(s)),
    decreases s, 1int,
{
    match s {
        StmtView::Expr(_, e) => {
            clear_expr(r, *e);
        },
        StmtView::Decl(d) => {
            clear_decl(r, d);
        },
        StmtView::Return(e) => {
            clear_expr(r, *e);
        },
        StmtView::Other(o) => {
            clear_other(r, o);
        },
    }
}

proof fn clear_decl(r: Replacement, d: DeclView)
    requires
        fresh(r),
    ensures
        free_decl(r.used_ids, r.decl(d)),
    decreases d, 1int,
{
    match d {
        DeclView::Fn(f) => {
            clear_function(r, f.function);
        },
        DeclView::Var(v) => {
            clear_declarators(r, v.decls);
        },
        DeclView::Other(o) => {
            clear_other(r, o);
        },
    }
}

proof fn clear_declarator(r: Replacement, d: DeclaratorView)
    requires
        fresh(r),
    ensures
        free_declarator(r.used_ids, r.declarator(d)),
    decreases d, 1int,
{
    clear_pat(r, d.name);
    if let Some(e) = d.init {
        clear_expr(r, *e);
    }
}

proof fn clear_prop(r: Replacement, p: PropView)
    requires
        fresh(r),
    ensures
        free_prop(r.used_ids, r.prop(p)),
    decreases p, 1int,
{
    match p {
        PropView::Shorthand(i) => {
            match r.index_of_id(i) {
                Some(k) => {
                    free_element(r, k);
                },
                None => {
                    position_none(r.used_ids, ident_name(i));
                },
            }
        },
        PropView::KeyValue(_, value) => {
            clear_expr(r, *value);
        },
        PropView::Other(o) => {
            clear_other(r, o);
        },
    }
}

proof fn clear_other(r: Replacement, o: OtherView)
    requires
        fresh(r),
    ensures
        free_other(r.used_ids, r.other(o)),
    decreases o, 1int,
{
    clear_nodes(r, o.kids);
}

proof fn clear_node(r: Replacement, n: NodeView)
    requires
        fresh(r),
    ensures
        free_node(r.used_ids, r.node(n)),
    decreases n, 1int,
{
    match n {
        NodeView::Expr(e) => {
            clear_expr(r, e);
        },
        NodeView::Stmt(s) => {
            clear_stmt(r, s);
        },
        NodeView::Stmts(v) => {
            clear_stmts(r, v);
        },
        NodeView::Param(p) => {
            clear_param(r, p);
        },
        NodeView::Prop(p) => {
            clear_prop(r, p);
        },
        NodeView::Items(v) => {
            clear_items(r, v);
        },
    }
}

proof fn clear_item(r: Replacement, item: ModuleItemView)
    requires
        fresh(r),
    ensures
        free_item(r.used_ids, r.item(item)),
    decreases item, 1int,
{
    match item {
        ModuleItemView::Stmt(s) => {
            clear_stmt(r, s);
        },
        ModuleItemView::ExportDecl(_, d) => {
            clear_decl(r, d);
        },
        ModuleItemView::ExportNamed(n) => {
            clear_other(r, n.rest);
        },
        ModuleItemView::ExportDefaultDecl(_, d) => {
            match d {
                DefaultDeclView::Fn(f) => {
                    clear_function(r, f.function);
                },
                DefaultDeclView::Other(o) => {
                    clear_other(r, o);
                },
            }
        },
        ModuleItemView::ExportDefaultExpr(_, e) => {
            clear_expr(r, *e);
        },
        ModuleItemView::ExportAll(_, o) => {
            clear_other(r, o);
        },
        ModuleItemView::Other(o) => {
            clear_other(r, o);
        },
    }
}

proof fn clear_exprs(r: Replacement, v: Seq<ExprView>)
    requires
        fresh(r),
    ensures
        free_exprs(r.used_ids, r.exprs(v)),
    decreases v, 3int,
{
    let w = r.exprs(v);
    assert forall|i: int| 0 <= i < w.len() implies free_expr(r.used_ids, #[trigger] w[i]) by {
        clear_expr(r, v[i]);
        assert(w[i] == r.expr(v[i]));
    }
}

proof fn clear_params(r: Replacement, v: Seq<ParamView>)
    requires
        fresh(r),
    ensures
        free_params(r.used_ids, r.params(v)),
    decreases v, 3int,
{
    let w = r.params(v);
    assert forall|i: int| 0 <= i < w.len() implies free_param(r.used_ids, #[trigger] w[i]) by {
        clear_param(r, v[i]);
        assert(w[i] == r.param(v[i]));
    }
}

proof fn clear_decorators(r: Replacement, v: Seq<DecoratorView>)
    requires
        fresh(r),
    ensures
        free_decorators(r.used_ids, r.decorators(v)),
    decreases v, 3int,
{
    let w = r.decorators(v);
    assert forall|i: int| 0 <= i < w.len() implies free_decorator(r.used_ids, #[trigger] w[i]) by {
        clear_decorator(r, v[i]);
        assert(w[i] == r.decorator(v[i]));
    }
}

proof fn clear_pats(r: Replacement, v: Seq<PatView>)
    requires
        fresh(r),
    ensures
        free_pats(r.used_ids, r.pats(v)),
    decreases v, 3int,
{
    let w = r.pats(v);
    assert forall|i: int| 0 <= i < w.len() implies free_pat(r.used_ids, #[trigger] w[i]) by {
        clear_pat(r, v[i]);
        assert(w[i] == r.pat(v[i]));
    }
}

proof fn clear_declarators(r: Replacement, v: Seq<DeclaratorView>)
    requires
        fresh(r),
    ensures
        free_declarators(r.used_ids, r.declarators(v)),
    decreases v, 3int,
{
    let w = r.declarators(v);
    assert forall|i: int| 0 <= i < w.len() implies free_declarator(r.used_ids, #[trigger] w[i]) by {
        clear_declarator(r, v[i]);
        assert(w[i] == r.declarator(v[i]));
    }
}

proof fn clear_nodes(r: Replacement, v: Seq<NodeView>)
    requires
        fresh(r),
    ensures
        free_nodes(r.used_ids, r.nodes(v)),
    decreases v, 3int,
{
    let w = r.nodes(v);
    assert forall|i: int| 0 <= i < w.len() implies free_node(r.used_ids, #[trigger] w[i]) by {
        clear_node(r, v[i]);
        assert(w[i] == r.node(v[i]));
    }
}

proof fn clear_stmts(r: Replacement, v: Seq<StmtView>)
    requires
        fresh(r),
    ensures
        free_stmts(r.used_ids, r.stmts(v)),
    decreases v, 3int,
{
    let w = r.stmts(v);
    assert forall|i: int| 0 <= i < w.len() implies free_stmt(r.used_ids, #[trigger] w[i]) by {
        clear_stmt(r, v[i]);
        assert(w[i] == r.stmt(v[i]));
    }
}

proof fn clear_items(r: Replacement, v: Seq<ModuleItemView>)
    requires
        fresh(r),
    ensures
        free_items(r.used_ids, r.items(v)),
    decreases v, 3int,
{
    let w = r.items(v);
    assert forall|i: int| 0 <= i < w.len() implies free_item(r.used_ids, #[trigger] w[i]) by {
        clear_item(r, v[i]);
        assert(w[i] == r.item(v[i]));
    }
}

// ---- What does not mention the names stays as it is ----

proof fn position_some(names: Seq<NameView>, name: NameView)
    requires
        position(names, name) is Some,
    ensures
        names.contains(name),
{
    reveal(position);
    let i = choose|i: int| first_at(names, name, i);
    assert(first_at(names, name, i));
}

proof fn same_expr(r: Replacement, e: ExprView)
    requires
        free_expr(r.used_ids, e),
    ensures
        r.expr(e) == e,
    decreases e, 1int,
{
    same_children(r, e);
    if r.index(e) is Some {
        position_some(r.used_ids, name_of(e)->0);
    }
}

proof fn same_children(r: Replacement, e: ExprView)
    requires
        free_children(r.used_ids, e),
    ensures
        r.expr_children(e) == e,
    decreases e, 0int,
{
    match e {
        ExprView::Ident(_) => {},
        ExprView::Str(_, _) => {},
        ExprView::Member(m) => {
            same_expr(r, *m.obj);
        },
        ExprView::OptMember(m) => {
            same_expr(r, *m.obj);
        },
        ExprView::Fn(f) => {
            same_function(r, f.function);
        },
        ExprView::Arrow(a) => {
            same_arrow(r, a);
        },
        ExprView::Call(callee, args) => {
            same_expr(r, *callee);
            same_exprs(r, args);
        },
        ExprView::Assign(target, value) => {
            same_expr(r, *target);
            same_expr(r, *value);
        },
        ExprView::Define(_, value) => {
            same_expr(r, *value);
        },
        ExprView::Paren(inner) => {
            same_expr(r, *inner);
        },
        ExprView::Array(elems) => {
            same_exprs(r, elems);
        },
        ExprView::Index(obj, _) => {
            same_expr(r, *obj);
        },
        ExprView::Other(o) => {
            same_other(r, o);
        },
    }
}

proof fn same_function(r: Replacement, f: FunctionView)
    requires
        free_function(r.used_ids, f),
    ensures
        r.function(f) == f,
    decreases f, 1int,
{
    same_params(r, f.params);
    same_decorators(r, f.decorators);
    if let Some(b) = f.body {
        same_block(r, b);
    }
}

proof fn same_block(r: Replacement, b: BlockView)
    requires
        free_block(r.used_ids, b),
    ensures
        r.block(b) == b,
    decreases b, 1int,
{
    same_stmts(r, b.stmts);
}

proof fn same_arrow(r: Replacement, a: ArrowView)
    requires
        free_arrow(r.used_ids, a),
    ensures
        r.arrow(a) == a,
    decreases a, 1int,
{
    same_pats(r, a.params);
    match a.body {
        ArrowBodyView::Block(b) => {
            same_block(r, b);
        },
        ArrowBodyView::Expr(e) => {
            same_expr(r, *e);
        },
    }
}

proof fn same_param(r: Replacement, p: ParamView)
    requires
        free_param(r.used_ids, p),
    ensures
        r.param(p) == p,
    decreases p, 1int,
{
    same_decorators(r, p.decorators);
    same_pat(r, p.pat);
}

proof fn same_pat(r: Replacement, p: PatView)
    requires
        free_pat(r.used_ids, p),
    ensures
        r.pat(p) == p,
    decreases p, 1int,
{
    same_exprs(r, p.exprs);
}

proof fn same_decorator(r: Replacement, d: DecoratorView)
    requires
        free_decorator(r.used_ids, d),
    ensures
        r.decorator(d) == d,
    decreases d, 1int,
{
    same_expr(r, d.expr);
}

proof fn same_stmt(r: Replacement, s: StmtView)
    requires
        free_stmt(r.used_ids, s),
    ensures
        r.stmt(s) == s,
    decreases s, 1int,
{
    match s {
        StmtView::Expr(_, e) => {
            same_expr(r, *e);
        },
        StmtView::Decl(d) => {
            same_decl(r, d);
        },
        StmtView::Return(e) => {
            same_expr(r, *e);
        },
        StmtView::Other(o) => {
            same_other(r, o);
        },
    }
}

proof fn same_decl(r: Replacement, d: DeclView)
    requires
        free_decl(r.used_ids, d),
    ensures
        r.decl(d) == d,
    decreases d, 1int,
{
    match d {
        DeclView::Fn(f) => {
            same_function(r, f.function);
        },
        DeclView::Var(v) => {
            same_declarators(r, v.decls);
        },
        DeclView::Other(o) => {
            same_other(r, o);
        },
    }
}

proof fn same_declarator(r: Replacement, d: DeclaratorView)
    requires
        free_declarator(r.used_ids, d),
    ensures
        r.declarator(d) == d,
    decreases d, 1int,
{
    same_pat(r, d.name);
    if let Some(e) = d.init {
        same_expr(r, *e);
    }
}

proof fn same_other(r: Replacement, o: OtherView)
    requires
        free_other(r.used_ids, o),
    ensures
        r.other(o) == o,
    decreases o, 1int,
{
    same_nodes(r, o.kids);
}

proof fn same_node(r: Replacement, n: NodeView)
    requires
        free_node(r.used_ids, n),
    ensures
        r.node(n) == n,
    decreases n, 1int,
{
    match n {
        NodeView::Expr(e) => {
            same_expr(r, e);
        },
        NodeView::Stmt(s) => {
            same_stmt(r, s);
        },
        NodeView::Stmts(v) => {
            same_stmts(r, v);
        },
        NodeView::Param(p) => {
            same_param(r, p);
        },
        NodeView::Prop(p) => {
            same_prop(r, p);
        },
        NodeView::Items(v) => {
            same_items(r, v);
        },
    }
}

proof fn same_item(r: Replacement, item: ModuleItemView)
    requires
        free_item(r.used_ids, item),
    ensures
        r.item(item) == item,
    decreases item, 1int,
{
    match item {
        ModuleItemView::Stmt(s) => {
            same_stmt(r, s);
        },
        ModuleItemView::ExportDecl(_, d) => {
            same_decl(r, d);
        },
        ModuleItemView::ExportNamed(n) => {
            same_other(r, n.rest);
        },
        ModuleItemView::ExportDefaultDecl(_, d) => {
            match d {
                DefaultDeclView::Fn(f) => {
                    same_function(r, f.function);
                },
                DefaultDeclView::Other(o) => {
                    same_other(r, o);
                },
            }
        },
        ModuleItemView::ExportDefaultExpr(_, e) => {
            same_expr(r, *e);
        },
        ModuleItemView::ExportAll(_, o) => {
            same_other(r, o);
        },
        ModuleItemView::Other(o) => {
            same_other(r, o);
        },
    }
}

proof fn same_prop(r: Replacement, p: PropView)
    requires
        free_prop(r.used_ids, p),
    ensures
        r.prop(p) == p,
    decreases p, 1int,
{
    match p {
        PropView::Shorthand(i) => {
            if r.index_of_id(i) is Some {
                position_some(r.used_ids, ident_name(i));
            }
        },
        PropView::KeyValue(_, value) => {
            same_expr(r, *value);
        },
        PropView::Other(o) => {
            same_other(r, o);
        },
    }
}

proof fn same_exprs(r: Replacement, v: Seq<ExprView>)
    requires
        free_exprs(r.used_ids, v),
    ensures
        r.exprs(v) == v,
    decreases v, 3int,
{
    let w = r.exprs(v);
    assert forall|i: int| 0 <= i < v.len() implies #[trigger] w[i] == v[i] by {
        same_expr(r, v[i]);
    }
    assert(w =~= v);
}

proof fn same_params(r: Replacement, v: Seq<ParamView>)
    requires
        free_params(r.used_ids, v),
    ensures
        r.params(v) == v,
    decreases v, 3int,
{
    let w = r.params(v);
    assert forall|i: int| 0 <= i < v.len() implies #[trigger] w[i] == v[i] by {
        same_param(r, v[i]);
    }
    assert(w =~= v);
}

proof fn same_decorators(r: Replacement, v: Seq<DecoratorView>)
    requires
        free_decorators(r.used_ids, v),
    ensures
        r.decorators(v) == v,
    decreases v, 3int,
{
    let w = r.decorators(v);
    assert forall|i: int| 0 <= i < v.len() implies #[trigger] w[i] == v[i] by {
        same_decorator(r, v[i]);
    }
    assert(w =~= v);
}

proof fn same_pats(r: Replacement, v: Seq<PatView>)
    requires
        free_pats(r.used_ids, v),
    ensures
        r.pats(v) == v,
    decreases v, 3int,
{
    let w = r.pats(v);
    assert forall|i: int| 0 <= i < v.len() implies #[trigger] w[i] == v[i] by {
        same_pat(r, v[i]);
    }
    assert(w =~= v);
}

proof fn same_declarators(r: Replacement, v: Seq<DeclaratorView>)
    requires
        free_declarators(r.used_ids, v),
    ensures
        r.declarators(v) == v,
    decreases v, 3int,
{
    let w = r.declarators(v);
    assert forall|i: int| 0 <= i < v.len() implies #[trigger] w[i] == v[i] by {
        same_declarator(r, v[i]);
    }
    assert(w =~= v);
}

proof fn same_nodes(r: Replacement, v: Seq<NodeView>)
    requires
        free_nodes(r.used_ids, v),
    ensures
        r.nodes(v) == v,
    decreases v, 3int,
{
    let w = r.nodes(v);
    assert forall|i: int| 0 <= i < v.len() implies #[trigger] w[i] == v[i] by {
        same_node(r, v[i]);
    }
    assert(w =~= v);
}

proof fn same_stmts(r: Replacement, v: Seq<StmtView>)
    requires
        free_stmts(r.used_ids, v),
    ensures
        r.stmts(v) == v,
    decreases v, 3int,
{
    let w = r.stmts(v);
    assert forall|i: int| 0 <= i < v.len() implies #[trigger] w[i] == v[i] by {
        same_stmt(r, v[i]);
    }
    assert(w =~= v);
}

proof fn same_items(r: Replacement, v: Seq<ModuleItemView>)
    requires
        free_items(r.used_ids, v),
    ensures
        r.items(v) == v,
    decreases v, 3int,
{
    let w = r.items(v);
    assert forall|i: int| 0 <= i < v.len() implies #[trigger] w[i] == v[i] by {
        same_item(r, v[i]);
    }
    assert(w =~= v);
}

/// A block that does not mention a captured name is not changed.
pub proof fn free_block_unchanged(r: Replacement, b: BlockView)
    requires
        free_block(r.used_ids, b),
    ensures
        r.block(b) == b,
{
    same_block(r, b);
}

/// After the replacement no expression and no shorthand property in a block is
/// one of the captured names, provided that the closure parameter is none of
/// them.
pub proof fn replaced_block_is_free(r: Replacement, b: BlockView)
    requires
        fresh(r),
    ensures
        free_block(r.used_ids, r.block(b)),
{
    clear_block(r, b);
}

/// The element by which an expression is replaced is the one that holds its
/// value: `$$bound` spells the same name at that index.
pub proof fn replaced_by_own_value(r: Replacement, e: ExprView)
    requires
        r.index(e) is Some,
    ensures
        0 <= r.index(e)->0 < r.used_ids.len(),
        name_of(exprs_of(r.used_ids)[r.index(e)->0]) == name_of(e),
{
    let n = name_of(e)->0;
    reveal(position);
    let i = choose|i: int| first_at(r.used_ids, n, i);
    assert(first_at(r.used_ids, n, i));
    name_of_expr_of(n);
}

} // verus!
