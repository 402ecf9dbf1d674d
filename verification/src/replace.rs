//! Replacing what a hoisted action captured by accesses to its `closure`
//! parameter.

use vstd::prelude::*;

use crate::ast::{
    declarators_view, decorators_view, exprs_view, items_view, nodes_view, opt_block_view,
    opt_expr_view, params_view, pats_view, stmts_view, ArrowBody, ArrowExpr, Block, Decl,
    Declarator, Decorator, DefaultDecl, Expr, FnDecl, FnExpr, Function, Ident, Member, ModuleItem,
    NamedExport, Node, Other, Param, Pat, Prop, Stmt, VarDecl,
};
use crate::model::{
    ArrowBodyView, ArrowView, BlockView, DeclView, DeclaratorView, DecoratorView, DefaultDeclView,
    ExprView, FnDeclView, FnExprView, FunctionView, IdentView, MemberView, ModuleItemView,
    NamedExportView, NodeView, OtherView, ParamView, PatView, PropView, StmtView, VarDeclView,
};
use crate::names::{name_of, names_view, Name, NameView};

verus! {

/// Replaces the captured names in the body of a hoisted action.
pub struct ClosureReplacer<'a> {
    pub closure_arg: &'a Ident,
    pub used_ids: &'a Vec<Name>,
}

/// What is replaced, and the parameter by whose elements it is replaced.
pub ghost struct Replacement {
    pub closure_arg: IdentView,
    pub used_ids: Seq<NameView>,
}

/// The name stands first at index `i`.
pub open spec fn first_at(names: Seq<NameView>, name: NameView, i: int) -> bool {
    &&& 0 <= i < names.len()
    &&& names[i] == name
    &&& forall|j: int| #![trigger names[j]] 0 <= j < i ==> names[j] != name
}

/// Where a name stands first in a list, if it is in it.
#[verifier::opaque]
pub open spec fn position(names: Seq<NameView>, name: NameView) -> Option<int> {
    if exists|i: int| first_at(names, name, i) {
        Some(choose|i: int| first_at(names, name, i))
    } else {
        None
    }
}

proof fn position_unique(names: Seq<NameView>, name: NameView, i: int)
    requires
        first_at(names, name, i),
    ensures
        position(names, name) == Some(i),
{
    reveal(position);
    let k = choose|k: int| first_at(names, name, k);
    assert(first_at(names, name, k));
    if k < i {
        assert(names[k] != name);
    } else if i < k {
        assert(names[i] != name);
    }
}

/// A name that is in a list has a first position in it.
pub proof fn position_found(names: Seq<NameView>, name: NameView, i: int)
    requires
        0 <= i < names.len(),
        names[i] == name,
    ensures
        position(names, name) is Some,
        0 <= position(names, name)->0 <= i,
        names[position(names, name)->0] == name,
    decreases i,
{
    if exists|j: int| 0 <= j < i && names[j] == name {
        let j = choose|j: int| 0 <= j < i && names[j] == name;
        position_found(names, name, j);
    } else {
        assert(first_at(names, name, i));
        position_unique(names, name, i);
    }
}

/// Where a name stands first in a list.
fn find_name(names: &Vec<Name>, name: &Name) -> (r: Option<usize>)
    ensures
        match r {
            Some(i) => position(names_view(names@), name@) == Some(i as int),
            None => position(names_view(names@), name@) is None,
        },
{
    proof {
        reveal(position);
    }
    let ghost views = names_view(names@);
    for i in 0..names.len()
        invariant
            views == names_view(names@),
            forall|j: int| #![trigger views[j]] 0 <= j < i ==> views[j] != name@,
    {
        if names[i].equals(name) {
            assert(views[i as int] == name@);
            proof {
                position_unique(views, name@, i as int);
            }
            return Some(i);
        }
    }
    None
}

impl Replacement {
    /// The index of an expression among the captured names.
    pub open spec fn index(self, e: ExprView) -> Option<int> {
        match name_of(e) {
            Some(n) => position(self.used_ids, n),
            None => None,
        }
    }

    /// The index of an identifier among the captured names.
    pub open spec fn index_of_id(self, i: IdentView) -> Option<int> {
        position(self.used_ids, NameView { id: i.id(), props: Seq::empty() })
    }

    /// `closure[i]`.
    pub open spec fn element(self, i: int) -> ExprView {
        ExprView::Index(Box::new(ExprView::Ident(self.closure_arg)), i as nat)
    }

    /// The expression itself replaced, if it is a captured name.
    pub open spec fn settle(self, e: ExprView) -> ExprView {
        match self.index(e) {
            Some(i) => self.element(i),
            None => e,
        }
    }

    /// An expression, after its parts, is replaced if it is a captured name.
    pub open spec fn expr(self, e: ExprView) -> ExprView
        decreases e, 1int,
    {
        self.settle(self.expr_children(e))
    }

    pub open spec fn expr_children(self, e: ExprView) -> ExprView
        decreases e, 0int,
    {
        match e {
            ExprView::Ident(_) => e,
            ExprView::Str(_, _) => e,
            ExprView::Member(m) => ExprView::Member(
                MemberView { obj: Box::new(self.expr(*m.obj)), ..m },
            ),
            ExprView::OptMember(m) => ExprView::OptMember(
                MemberView { obj: Box::new(self.expr(*m.obj)), ..m },
            ),
            ExprView::Fn(f) => ExprView::Fn(
                FnExprView { function: self.function(f.function), ..f },
            ),
            ExprView::Arrow(a) => ExprView::Arrow(self.arrow(a)),
            ExprView::Call(callee, args) => ExprView::Call(
                Box::new(self.expr(*callee)),
                self.exprs(args),
            ),
            ExprView::Assign(target, value) => ExprView::Assign(
                Box::new(self.expr(*target)),
                Box::new(self.expr(*value)),
            ),
            ExprView::Define(i, value) => ExprView::Define(i, Box::new(self.expr(*value))),
            ExprView::Paren(inner) => ExprView::Paren(Box::new(self.expr(*inner))),
            ExprView::Array(elems) => ExprView::Array(self.exprs(elems)),
            ExprView::Index(obj, i) => ExprView::Index(Box::new(self.expr(*obj)), i),
            ExprView::Other(o) => ExprView::Other(self.other(o)),
        }
    }

    pub open spec fn opt_expr(self, e: Option<Box<ExprView>>) -> Option<Box<ExprView>>
        decreases e, 2int,
    {
        match e {
            Some(inner) => Some(Box::new(self.expr(*inner))),
            None => None,
        }
    }

    pub open spec fn function(self, f: FunctionView) -> FunctionView
        decreases f, 1int,
    {
        FunctionView {
            params: self.params(f.params),
            decorators: self.decorators(f.decorators),
            body: self.opt_block(f.body),
            ..f
        }
    }

    pub open spec fn arrow(self, a: ArrowView) -> ArrowView
        decreases a, 1int,
    {
        ArrowView {
            params: self.pats(a.params),
            body: match a.body {
                ArrowBodyView::Block(b) => ArrowBodyView::Block(self.block(b)),
                ArrowBodyView::Expr(e) => ArrowBodyView::Expr(Box::new(self.expr(*e))),
            },
            ..a
        }
    }

    pub open spec fn block(self, b: BlockView) -> BlockView
        decreases b, 1int,
    {
        BlockView { stmts: self.stmts(b.stmts), ..b }
    }

    pub open spec fn opt_block(self, b: Option<BlockView>) -> Option<BlockView>
        decreases b, 2int,
    {
        match b {
            Some(block) => Some(self.block(block)),
            None => None,
        }
    }

    pub open spec fn param(self, p: ParamView) -> ParamView
        decreases p, 1int,
    {
        ParamView {
            decorators: self.decorators(p.decorators),
            pat: self.pat(p.pat),
            ..p
        }
    }

    pub open spec fn pat(self, p: PatView) -> PatView
        decreases p, 1int,
    {
        PatView { exprs: self.exprs(p.exprs), ..p }
    }

    pub open spec fn decorator(self, d: DecoratorView) -> DecoratorView
        decreases d, 1int,
    {
        DecoratorView { expr: self.expr(d.expr), ..d }
    }

    pub open spec fn stmt(self, s: StmtView) -> StmtView
        decreases s, 1int,
    {
        match s {
            StmtView::Expr(origin, e) => StmtView::Expr(origin, Box::new(self.expr(*e))),
            StmtView::Decl(d) => StmtView::Decl(self.decl(d)),
            StmtView::Return(e) => StmtView::Return(Box::new(self.expr(*e))),
            StmtView::Other(o) => StmtView::Other(self.other(o)),
        }
    }

    pub open spec fn decl(self, d: DeclView) -> DeclView
        decreases d, 1int,
    {
        match d {
            DeclView::Fn(f) => DeclView::Fn(
                FnDeclView { function: self.function(f.function), ..f },
            ),
            DeclView::Var(v) => DeclView::Var(
                VarDeclView { decls: self.declarators(v.decls), ..v },
            ),
            DeclView::Other(o) => DeclView::Other(self.other(o)),
        }
    }

    pub open spec fn declarator(self, d: DeclaratorView) -> DeclaratorView
        decreases d, 1int,
    {
        DeclaratorView { name: self.pat(d.name), init: self.opt_expr(d.init), ..d }
    }

    /// A shorthand property of a captured name gets an explicit value.
    pub open spec fn prop(self, p: PropView) -> PropView
        decreases p, 1int,
    {
        match p {
            PropView::Shorthand(i) => match self.index_of_id(i) {
                Some(k) => PropView::KeyValue(i, Box::new(self.element(k))),
                None => p,
            },
            PropView::KeyValue(key, value) => PropView::KeyValue(
                key,
                Box::new(self.expr(*value)),
            ),
            PropView::Other(o) => PropView::Other(self.other(o)),
        }
    }

    pub open spec fn other(self, o: OtherView) -> OtherView
        decreases o, 1int,
    {
        OtherView { kids: self.nodes(o.kids), ..o }
    }

    pub open spec fn node(self, n: NodeView) -> NodeView
        decreases n, 1int,
    {
        match n {
            NodeView::Expr(e) => NodeView::Expr(self.expr(e)),
            NodeView::Stmt(s) => NodeView::Stmt(self.stmt(s)),
            NodeView::Stmts(v) => NodeView::Stmts(self.stmts(v)),
            NodeView::Param(p) => NodeView::Param(self.param(p)),
            NodeView::Prop(p) => NodeView::Prop(self.prop(p)),
            NodeView::Items(v) => NodeView::Items(self.items(v)),
        }
    }

    pub open spec fn item(self, item: ModuleItemView) -> ModuleItemView
        decreases item, 1int,
    {
        match item {
            ModuleItemView::Stmt(s) => ModuleItemView::Stmt(self.stmt(s)),
            ModuleItemView::ExportDecl(span, d) => ModuleItemView::ExportDecl(span, self.decl(d)),
            ModuleItemView::ExportNamed(n) => ModuleItemView::ExportNamed(
                NamedExportView { rest: self.other(n.rest), ..n },
            ),
            ModuleItemView::ExportDefaultDecl(span, d) => ModuleItemView::ExportDefaultDecl(
                span,
                match d {
                    DefaultDeclView::Fn(f) => DefaultDeclView::Fn(
                        FnExprView { function: self.function(f.function), ..f },
                    ),
                    DefaultDeclView::Other(o) => DefaultDeclView::Other(self.other(o)),
                },
            ),
            ModuleItemView::ExportDefaultExpr(span, e) => ModuleItemView::ExportDefaultExpr(
                span,
                Box::new(self.expr(*e)),
            ),
            ModuleItemView::ExportAll(span, o) => ModuleItemView::ExportAll(span, self.other(o)),
            ModuleItemView::Other(o) => ModuleItemView::Other(self.other(o)),
        }
    }

    pub open spec fn exprs(self, v: Seq<ExprView>) -> Seq<ExprView>
        decreases v, 3int,
    {
        Seq::new(
            v.len(),
            |i: int|
                if 0 <= i < v.len() {
                    self.expr(v[i])
                } else {
                    arbitrary()
                },
        )
    }

    pub open spec fn params(self, v: Seq<ParamView>) -> Seq<ParamView>
        decreases v, 3int,
    {
        Seq::new(
            v.len(),
            |i: int|
                if 0 <= i < v.len() {
                    self.param(v[i])
                } else {
                    arbitrary()
                },
        )
    }

    pub open spec fn decorators(self, v: Seq<DecoratorView>) -> Seq<DecoratorView>
        decreases v, 3int,
    {
        Seq::new(
            v.len(),
            |i: int|
                if 0 <= i < v.len() {
                    self.decorator(v[i])
                } else {
                    arbitrary()
                },
        )
    }

    pub open spec fn pats(self, v: Seq<PatView>) -> Seq<PatView>
        decreases v, 3int,
    {
        Seq::new(
            v.len(),
            |i: int|
                if 0 <= i < v.len() {
                    self.pat(v[i])
                } else {
                    arbitrary()
                },
        )
    }

    pub open spec fn stmts(self, v: Seq<StmtView>) -> Seq<StmtView>
        decreases v, 3int,
    {
        Seq::new(
            v.len(),
            |i: int|
                if 0 <= i < v.len() {
                    self.stmt(v[i])
                } else {
                    arbitrary()
                },
        )
    }

    pub open spec fn declarators(self, v: Seq<DeclaratorView>) -> Seq<DeclaratorView>
        decreases v, 3int,
    {
        Seq::new(
            v.len(),
            |i: int|
                if 0 <= i < v.len() {
                    self.declarator(v[i])
                } else {
                    arbitrary()
                },
        )
    }

    pub open spec fn nodes(self, v: Seq<NodeView>) -> Seq<NodeView>
        decreases v, 3int,
    {
        Seq::new(
            v.len(),
            |i: int|
                if 0 <= i < v.len() {
                    self.node(v[i])
                } else {
                    arbitrary()
                },
        )
    }

    pub open spec fn items(self, v: Seq<ModuleItemView>) -> Seq<ModuleItemView>
        decreases v, 3int,
    {
        Seq::new(
            v.len(),
            |i: int|
                if 0 <= i < v.len() {
                    self.item(v[i])
                } else {
                    arbitrary()
                },
        )
    }
}

impl<'a> ClosureReplacer<'a> {
    pub open spec fn view(&self) -> Replacement {
        Replacement { closure_arg: self.closure_arg@, used_ids: names_view(self.used_ids@) }
    }

    /// The index of an identifier among the captured names.
    pub fn index_of_id(&self, i: &Ident) -> (r: Option<usize>)
        ensures
            match r {
                Some(k) => self@.index_of_id(i@) == Some(k as int),
                None => self@.index_of_id(i@) is None,
            },
    {
        find_name(self.used_ids, &Name::of_ident(i))
    }

    /// The index of an expression among the captured names.
    pub fn index(&self, e: &Expr) -> (r: Option<usize>)
        ensures
            match r {
                Some(k) => self@.index(e@) == Some(k as int),
                None => self@.index(e@) is None,
            },
    {
        match Name::try_from(e) {
            Ok(name) => find_name(self.used_ids, &name),
            Err(_) => None,
        }
    }

    /// `closure[index]`.
    fn element(&self, index: usize) -> (r: Expr)
        ensures
            r@ == self@.element(index as int),
    {
        let obj = Expr::Ident(self.closure_arg.clone());
        assert(obj@ == ExprView::Ident(self.closure_arg@));
        Expr::Index(Box::new(obj), index)
    }

    pub fn visit_mut_expr(&self, e: Expr) -> (r: Expr)
        ensures
            r@ == self@.expr(e@),
        decreases e, 1int,
    {
        let e1 = self.visit_expr_children(e);
        match self.index(&e1) {
            Some(index) => self.element(index),
            None => e1,
        }
    }

    fn visit_member(&self, m: Member) -> (r: Member)
        ensures
            r@ == (MemberView { obj: Box::new(self@.expr(*m@.obj)), ..m@ }),
        decreases m, 1int,
    {
        Member { origin: m.origin, obj: Box::new(self.visit_mut_expr(*m.obj)), prop: m.prop }
    }

    fn visit_expr_children(&self, e: Expr) -> (r: Expr)
        ensures
            r@ == self@.expr_children(e@),
        decreases e, 0int,
    {
        match e {
            Expr::Ident(i) => Expr::Ident(i),
            Expr::Str(origin, value) => Expr::Str(origin, value),
            Expr::Member(m) => Expr::Member(self.visit_member(m)),
            Expr::OptMember(m) => Expr::OptMember(self.visit_member(m)),
            Expr::Fn(f) => Expr::Fn(self.visit_fn_expr(f)),
            Expr::Arrow(a) => Expr::Arrow(self.visit_arrow(a)),
            Expr::Call(callee, args) => Expr::Call(
                Box::new(self.visit_mut_expr(*callee)),
                self.visit_exprs(args),
            ),
            Expr::Assign(target, value) => Expr::Assign(
                Box::new(self.visit_mut_expr(*target)),
                Box::new(self.visit_mut_expr(*value)),
            ),
            Expr::Define(i, value) => Expr::Define(i, Box::new(self.visit_mut_expr(*value))),
            Expr::Paren(inner) => Expr::Paren(Box::new(self.visit_mut_expr(*inner))),
            Expr::Array(elems) => Expr::Array(self.visit_exprs(elems)),
            Expr::Index(obj, i) => Expr::Index(Box::new(self.visit_mut_expr(*obj)), i),
            Expr::Other(o) => Expr::Other(self.visit_other(o)),
        }
    }

    fn visit_opt_expr(&self, e: Option<Box<Expr>>) -> (r: Option<Box<Expr>>)
        ensures
            opt_expr_view(r) == self@.opt_expr(opt_expr_view(e)),
        decreases e, 2int,
    {
        match e {
            Some(inner) => Some(Box::new(self.visit_mut_expr(*inner))),
            None => None,
        }
    }

    fn visit_fn_expr(&self, f: FnExpr) -> (r: FnExpr)
        ensures
            r@ == (FnExprView { function: self@.function(f@.function), ..f@ }),
        decreases f, 1int,
    {
        FnExpr { ident: f.ident, function: self.visit_function(f.function) }
    }

    fn visit_function(&self, f: Function) -> (r: Function)
        ensures
            r@ == self@.function(f@),
        decreases f, 1int,
    {
        Function {
            origin: f.origin,
            span: f.span,
            params: self.visit_params(f.params),
            decorators: self.visit_decorators(f.decorators),
            body: self.visit_opt_block(f.body),
            is_async: f.is_async,
            is_generator: f.is_generator,
        }
    }

    fn visit_arrow(&self, a: ArrowExpr) -> (r: ArrowExpr)
        ensures
            r@ == self@.arrow(a@),
        decreases a, 1int,
    {
        let body = match a.body {
            ArrowBody::Block(b) => {
                assert(a@.body == ArrowBodyView::Block(b@));
                ArrowBody::Block(self.visit_block(b))
            },
            ArrowBody::Expr(e) => {
                assert(a@.body == ArrowBodyView::Expr(Box::new(e@)));
                ArrowBody::Expr(Box::new(self.visit_mut_expr(*e)))
            },
        };
        ArrowExpr {
            origin: a.origin,
            span: a.span,
            params: self.visit_pats(a.params),
            body,
            is_async: a.is_async,
            is_generator: a.is_generator,
        }
    }

    pub fn visit_block(&self, b: Block) -> (r: Block)
        ensures
            r@ == self@.block(b@),
        decreases b, 1int,
    {
        Block { origin: b.origin, stmts: self.visit_stmts(b.stmts) }
    }

    pub fn visit_opt_block(&self, b: Option<Block>) -> (r: Option<Block>)
        ensures
            opt_block_view(r) == self@.opt_block(opt_block_view(b)),
        decreases b, 2int,
    {
        match b {
            Some(block) => Some(self.visit_block(block)),
            None => None,
        }
    }

    fn visit_param(&self, p: Param) -> (r: Param)
        ensures
            r@ == self@.param(p@),
        decreases p, 1int,
    {
        Param {
            origin: p.origin,
            decorators: self.visit_decorators(p.decorators),
            pat: self.visit_pat(p.pat),
        }
    }

    fn visit_pat(&self, p: Pat) -> (r: Pat)
        ensures
            r@ == self@.pat(p@),
        decreases p, 1int,
    {
        Pat { origin: p.origin, form: p.form, exprs: self.visit_exprs(p.exprs) }
    }

    fn visit_decorator(&self, d: Decorator) -> (r: Decorator)
        ensures
            r@ == self@.decorator(d@),
        decreases d, 1int,
    {
        Decorator { origin: d.origin, expr: self.visit_mut_expr(d.expr) }
    }

    fn visit_stmt(&self, s: Stmt) -> (r: Stmt)
        ensures
            r@ == self@.stmt(s@),
        decreases s, 1int,
    {
        match s {
            Stmt::Expr(origin, e) => Stmt::Expr(origin, Box::new(self.visit_mut_expr(*e))),
            Stmt::Decl(d) => Stmt::Decl(self.visit_decl(d)),
            Stmt::Return(e) => Stmt::Return(Box::new(self.visit_mut_expr(*e))),
            Stmt::Other(o) => Stmt::Other(self.visit_other(o)),
        }
    }

    fn visit_decl(&self, d: Decl) -> (r: Decl)
        ensures
            r@ == self@.decl(d@),
        decreases d, 1int,
    {
        match d {
            Decl::Fn(f) => {
                assert(f@.function == f.function@);
                let g = FnDecl {
                    origin: f.origin,
                    ident: f.ident,
                    function: self.visit_function(f.function),
                };
                assert(g@.function == g.function@);
                Decl::Fn(g)
            },
            Decl::Var(v) => {
                assert(v@.decls == declarators_view(v.decls@));
                let w = VarDecl {
                    origin: v.origin,
                    kind: v.kind,
                    decls: self.visit_declarators(v.decls),
                };
                assert(w@.decls == declarators_view(w.decls@));
                Decl::Var(w)
            },
            Decl::Other(o) => Decl::Other(self.visit_other(o)),
        }
    }

    fn visit_declarator(&self, d: Declarator) -> (r: Declarator)
        ensures
            r@ == self@.declarator(d@),
        decreases d, 1int,
    {
        Declarator {
            origin: d.origin,
            name: self.visit_pat(d.name),
            init: self.visit_opt_expr(d.init),
        }
    }

    pub fn visit_mut_prop(&self, p: Prop) -> (r: Prop)
        ensures
            r@ == self@.prop(p@),
        decreases p, 1int,
    {
        match p {
            Prop::Shorthand(i) => {
                match self.index_of_id(&i) {
                    Some(index) => Prop::KeyValue(i, Box::new(self.element(index))),
                    None => Prop::Shorthand(i),
                }
            },
            Prop::KeyValue(key, value) => Prop::KeyValue(
                key,
                Box::new(self.visit_mut_expr(*value)),
            ),
            Prop::Other(o) => Prop::Other(self.visit_other(o)),
        }
    }

    fn visit_other(&self, o: Other) -> (r: Other)
        ensures
            r@ == self@.other(o@),
        decreases o, 1int,
    {
        Other { source: o.source, kids: self.visit_nodes(o.kids) }
    }

    fn visit_node(&self, n: Node) -> (r: Node)
        ensures
            r@ == self@.node(n@),
        decreases n, 1int,
    {
        match n {
            Node::Expr(e) => Node::Expr(self.visit_mut_expr(e)),
            Node::Stmt(s) => Node::Stmt(self.visit_stmt(s)),
            Node::Stmts(v) => Node::Stmts(self.visit_stmts(v)),
            Node::Param(p) => Node::Param(self.visit_param(p)),
            Node::Prop(p) => Node::Prop(self.visit_mut_prop(p)),
            Node::Items(v) => Node::Items(self.visit_items(v)),
        }
    }

    fn visit_item(&self, item: ModuleItem) -> (r: ModuleItem)
        ensures
            r@ == self@.item(item@),
        decreases item, 1int,
    {
        match item {
            ModuleItem::Stmt(s) => ModuleItem::Stmt(self.visit_stmt(s)),
            ModuleItem::ExportDecl(span, d) => ModuleItem::ExportDecl(span, self.visit_decl(d)),
            ModuleItem::ExportNamed(n) => {
                assert(n@.rest == n.rest@);
                let m = NamedExport {
                    span: n.span,
                    specifiers: n.specifiers,
                    has_src: n.has_src,
                    rest: self.visit_other(n.rest),
                };
                assert(m@.rest == m.rest@);
                ModuleItem::ExportNamed(m)
            },
            ModuleItem::ExportDefaultDecl(span, d) => {
                let d1 = match d {
                    DefaultDecl::Fn(f) => {
                        assert(d@ == DefaultDeclView::Fn(f@));
                        DefaultDecl::Fn(self.visit_fn_expr(f))
                    },
                    DefaultDecl::Other(o) => {
                        assert(d@ == DefaultDeclView::Other(o@));
                        DefaultDecl::Other(self.visit_other(o))
                    },
                };
                ModuleItem::ExportDefaultDecl(span, d1)
            },
            ModuleItem::ExportDefaultExpr(span, e) => ModuleItem::ExportDefaultExpr(
                span,
                Box::new(self.visit_mut_expr(*e)),
            ),
            ModuleItem::ExportAll(span, o) => ModuleItem::ExportAll(span, self.visit_other(o)),
            ModuleItem::Other(o) => ModuleItem::Other(self.visit_other(o)),
        }
    }

    fn visit_exprs(&self, v: Vec<Expr>) -> (r: Vec<Expr>)
        ensures
            exprs_view(r@) == self@.exprs(exprs_view(v@)),
        decreases v@, 3int,
    {
        let ghost v0 = v@;
        let mut out: Vec<Expr> = Vec::new();
        for x in it: v
            invariant
                it.seq() == v0,
                v0 == v@,
                out.len() == it.index(),
                forall|j: int| 0 <= j < out.len() ==> (#[trigger] out[j])@ == self@.expr(v0[j]@),
        {
            out.push(self.visit_mut_expr(x));
        }
        assert(exprs_view(out@) =~= self@.exprs(exprs_view(v0)));
        out
    }

    fn visit_params(&self, v: Vec<Param>) -> (r: Vec<Param>)
        ensures
            params_view(r@) == self@.params(params_view(v@)),
        decreases v@, 3int,
    {
        let ghost v0 = v@;
        let mut out: Vec<Param> = Vec::new();
        for x in it: v
            invariant
                it.seq() == v0,
                v0 == v@,
                out.len() == it.index(),
                forall|j: int| 0 <= j < out.len() ==> (#[trigger] out[j])@ == self@.param(v0[j]@),
        {
            out.push(self.visit_param(x));
        }
        assert(params_view(out@) =~= self@.params(params_view(v0)));
        out
    }

    fn visit_decorators(&self, v: Vec<Decorator>) -> (r: Vec<Decorator>)
        ensures
            decorators_view(r@) == self@.decorators(decorators_view(v@)),
        decreases v@, 3int,
    {
        let ghost v0 = v@;
        let mut out: Vec<Decorator> = Vec::new();
        for x in it: v
            invariant
                it.seq() == v0,
                v0 == v@,
                out.len() == it.index(),
                forall|j: int| 0 <= j < out.len() ==> (#[trigger] out[j])@ == self@.decorator(v0[j]@),
        {
            out.push(self.visit_decorator(x));
        }
        assert(decorators_view(out@) =~= self@.decorators(decorators_view(v0)));
        out
    }

    fn visit_pats(&self, v: Vec<Pat>) -> (r: Vec<Pat>)
        ensures
            pats_view(r@) == self@.pats(pats_view(v@)),
        decreases v@, 3int,
    {
        let ghost v0 = v@;
        let mut out: Vec<Pat> = Vec::new();
        for x in it: v
            invariant
                it.seq() == v0,
                v0 == v@,
                out.len() == it.index(),
                forall|j: int| 0 <= j < out.len() ==> (#[trigger] out[j])@ == self@.pat(v0[j]@),
        {
            out.push(self.visit_pat(x));
        }
        assert(pats_view(out@) =~= self@.pats(pats_view(v0)));
        out
    }

    fn visit_stmts(&self, v: Vec<Stmt>) -> (r: Vec<Stmt>)
        ensures
            stmts_view(r@) == self@.stmts(stmts_view(v@)),
        decreases v@, 3int,
    {
        let ghost v0 = v@;
        let mut out: Vec<Stmt> = Vec::new();
        for x in it: v
            invariant
                it.seq() == v0,
                v0 == v@,
                out.len() == it.index(),
                forall|j: int| 0 <= j < out.len() ==> (#[trigger] out[j])@ == self@.stmt(v0[j]@),
        {
            out.push(self.visit_stmt(x));
        }
        assert(stmts_view(out@) =~= self@.stmts(stmts_view(v0)));
        out
    }

    fn visit_declarators(&self, v: Vec<Declarator>) -> (r: Vec<Declarator>)
        ensures
            declarators_view(r@) == self@.declarators(declarators_view(v@)),
        decreases v@, 3int,
    {
        let ghost v0 = v@;
        let mut out: Vec<Declarator> = Vec::new();
        for x in it: v
            invariant
                it.seq() == v0,
                v0 == v@,
                out.len() == it.index(),
                forall|j: int| 0 <= j < out.len() ==> (#[trigger] out[j])@ == self@.declarator(v0[j]@),
        {
            out.push(self.visit_declarator(x));
        }
        assert(declarators_view(out@) =~= self@.declarators(declarators_view(v0)));
        out
    }

    fn visit_nodes(&self, v: Vec<Node>) -> (r: Vec<Node>)
        ensures
            nodes_view(r@) == self@.nodes(nodes_view(v@)),
        decreases v@, 3int,
    {
        let ghost v0 = v@;
        let mut out: Vec<Node> = Vec::new();
        for x in it: v
            invariant
                it.seq() == v0,
                v0 == v@,
                out.len() == it.index(),
                forall|j: int| 0 <= j < out.len() ==> (#[trigger] out[j])@ == self@.node(v0[j]@),
        {
            out.push(self.visit_node(x));
        }
        assert(nodes_view(out@) =~= self@.nodes(nodes_view(v0)));
        out
    }

    fn visit_items(&self, v: Vec<ModuleItem>) -> (r: Vec<ModuleItem>)
        ensures
            items_view(r@) == self@.items(items_view(v@)),
        decreases v@, 3int,
    {
        let ghost v0 = v@;
        let mut out: Vec<ModuleItem> = Vec::new();
        for x in it: v
            invariant
                it.seq() == v0,
                v0 == v@,
                out.len() == it.index(),
                forall|j: int| 0 <= j < out.len() ==> (#[trigger] out[j])@ == self@.item(v0[j]@),
        {
            out.push(self.visit_item(x));
        }
        assert(items_view(out@) =~= self@.items(items_view(v0)));
        out
    }
}

} // verus!
