//! The walk over a module.
//!
//! The functions take a part of the tree and return what it has become. They
//! fail only where more generated identifiers are needed than can be numbered.

use vstd::prelude::*;

use crate::annotate::{assign_name, name_assignment};
use crate::ast::{
    declarators_view, decorators_view, exprs_view, items_view, nodes_view, opt_block_view,
    opt_expr_view, opt_ident_view, params_view, pats_view, stmts_view, ArrowBody, ArrowExpr, Block,
    Decl, Declarator, Decorator, DefaultDecl, Expr, FnDecl, FnExpr, Function, Ident, Member, Module,
    ModuleItem, NamedExport, Node, Other, Param, Pat, Prop, Span, Stmt, VarDecl,
};
use crate::bindings::{append_ids, collect_idents_in_element, collect_idents_in_stmt, keep_ids};
use crate::directive::{get_server_directive_index_in_module, module_directive};
use crate::frame::{
    arrow_parts_extend, finish_expr_extends, finish_function_extends, function_parts_extend,
    leave_items_extends, visit_arrow_body_extends, visit_declarators_take_extends,
    visit_decorators_extends, visit_decorators_take_extends, visit_exported_item_extends,
    visit_expr_extends, visit_exprs_extends, visit_exprs_take_extends, visit_fn_body_extends,
    visit_items_in_turn_take_extends, visit_nodes_take_extends, visit_opt_expr_extends,
    visit_params_take_extends, visit_pat_extends, visit_pats_take_extends,
    visit_stmts_in_turn_take_extends,
};
use crate::hoist::{index_view, remove_stmt, ActionInfo};
use crate::model::{ArrowBodyView, DefaultDeclView, FnExprView, ModuleItemView};
use crate::names::{ids_view, Id, Name};
use crate::prefix::prefix;
use crate::state::{function_scope, IdentOverflow, Problem, Scope, ServerActions, State};
use crate::transform::{
    action_directive, bind, default_name, default_scope, end_action, enter_function, enter_items,
    export_scope, finish_expr, finish_function, flush, is_action, leave_function, leave_items,
    name_action, note_exports, report, visit_arrow, visit_arrow_body, visit_decl, visit_declarator,
    visit_declarators, visit_decorator, visit_decorators, visit_default_decl, visit_default_expr,
    visit_default_fn, visit_export_decl, visit_exported_item, visit_expr, visit_expr_children,
    visit_exprs, visit_fn_body, visit_fn_decl, visit_fn_expr, visit_function, visit_item,
    visit_items, visit_items_in_turn, visit_member, visit_module, visit_node, visit_nodes,
    visit_opt_expr, visit_other, visit_param, visit_params, visit_pat, visit_pats, visit_prop,
    visit_stmt, visit_stmt_children, visit_stmts, visit_stmts_in_turn, visit_top_item, without,
    without_decreases,
};

verus! {

/// Removes an item of a module.
fn remove_item(items: Vec<ModuleItem>, index: Option<usize>) -> (r: Vec<ModuleItem>)
    requires
        index is Some ==> index->0 < items@.len(),
    ensures
        r@ == without(items@, index_view(index)),
        items_view(r@) == without(items_view(items@), index_view(index)),
{
    let ghost before = items@;
    let mut items = items;
    if let Some(i) = index {
        items.remove(i);
        assert(items_view(items@) =~= items_view(before).remove(i as int));
    }
    items
}

/// Makes a default export of a function.
fn default_fn_item(span: Span, f: FnExpr) -> (r: ModuleItem)
    ensures
        r@ == ModuleItemView::ExportDefaultDecl(span, DefaultDeclView::Fn(f@)),
{
    let d = DefaultDecl::Fn(f);
    assert(d@ == DefaultDeclView::Fn(f@));
    ModuleItem::ExportDefaultDecl(span, d)
}

/// Gives an expression a name, if there is one for it.
fn with_name(name: Option<Ident>, e: Expr) -> (r: Expr)
    ensures
        r@ == match opt_ident_view(name) {
            Some(i) => name_assignment(i, e@),
            None => e@,
        },
{
    match name {
        Some(ident) => assign_name(ident, e),
        None => e,
    }
}

/// The block of an arrow function, if it has one.
fn block_of(body: &ArrowBody) -> (r: Option<&Block>)
    ensures
        match r {
            Some(b) => body@ == ArrowBodyView::Block(b@),
            None => body@ is Expr,
        },
{
    match body {
        ArrowBody::Block(b) => Some(b),
        ArrowBody::Expr(_) => None,
    }
}

/// The scope inside a function.
fn make_function_scope(outer: Scope, is_action: bool) -> (r: Scope)
    ensures
        r == function_scope(outer, is_action),
{
    Scope {
        in_export_decl: false,
        in_default_export_decl: false,
        in_module: false,
        in_action_fn: is_action || outer.in_action_fn,
        in_action_closure: true,
    }
}

impl ServerActions {
    /// Records what the functions around bind.
    fn bind(&mut self, ids: Vec<Id>)
        ensures
            final(self)@ == bind(old(self)@, ids_view(ids@)),
    {
        if self.in_action_file {
        } else if self.scope.in_action_fn {
            append_ids(&mut self.action_locals, ids);
        } else {
            append_ids(&mut self.closure_idents, ids);
        }
    }

    /// Moves the walk into a function. Returns where it was, and how much was
    /// bound inside of actions there.
    fn enter_function(&mut self, is_action: bool) -> (r: (Scope, usize))
        ensures
            r.0 == old(self)@.scope,
            r.1 == old(self)@.action_locals.len(),
            final(self)@ == enter_function(old(self)@, is_action),
    {
        let scope = self.scope;
        self.scope = make_function_scope(scope, is_action);
        if is_action {
            self.action_start = self.action_idents.len();
        }
        (scope, self.action_locals.len())
    }

    /// Moves the walk out of a function.
    fn leave_function(&mut self, outer: (Scope, usize), Ghost(s): Ghost<State>)
        requires
            outer.0 == s.scope,
            outer.1 == s.action_locals.len(),
            prefix(s.action_locals, old(self)@.action_locals),
        ensures
            final(self)@ == leave_function(s, old(self)@),
    {
        assert(s.action_locals.len() <= self@.action_locals.len() && self@.action_locals.take(
            s.action_locals.len() as int,
        ) == s.action_locals) by {
            reveal(prefix);
            assert(self@.action_locals.take(s.action_locals.len() as int) =~= s.action_locals);
        }
        self.scope = outer.0;
        keep_ids(&mut self.action_locals, outer.1);
    }

    /// Makes the action the current one that was current before.
    fn end_action(&mut self, action_start: usize, Ghost(s): Ghost<State>)
        requires
            action_start == s.action_start,
        ensures
            final(self)@ == end_action(s, old(self)@),
    {
        self.action_start = action_start;
    }

    /// Moves the walk into an export. Returns where it was.
    fn enter_export(&mut self, is_default: bool) -> (r: Scope)
        ensures
            r == old(self)@.scope,
            final(self)@ == if is_default {
                default_scope(old(self)@)
            } else {
                export_scope(old(self)@)
            },
    {
        let scope = self.current_scope();
        self.enter(
            Scope {
                in_export_decl: true,
                in_default_export_decl: scope.in_default_export_decl || is_default,
                in_module: scope.in_module,
                in_action_fn: scope.in_action_fn,
                in_action_closure: scope.in_action_closure,
            },
        )
    }

    /// Walks over an expression. Names that an action uses are recorded, and
    /// arrow functions with the directive become actions.
    pub fn visit_mut_expr(&mut self, e: Expr) -> (r: Result<Expr, IdentOverflow>)
        ensures
            match r {
                Ok(x) => (final(self)@, x@) == visit_expr(old(self)@, e@),
                Err(_) => visit_expr(old(self)@, e@).0.ident_cnt > u32::MAX,
            },
        decreases e, 2int,
    {
        let ghost s = self@;
        let scope = self.current_scope();
        if scope.in_action_fn && scope.in_action_closure {
            if let Ok(name) = Name::try_from(&e) {
                self.enter(
                    Scope {
                        in_export_decl: scope.in_export_decl,
                        in_default_export_decl: scope.in_default_export_decl,
                        in_module: scope.in_module,
                        in_action_fn: true,
                        in_action_closure: false,
                    },
                );
                self.use_name(name);
                let e1 = self.visit_expr_children(e)?;
                self.enter(scope);
                return Ok(e1);
            }
        }
        proof {
            let (s1, e1) = visit_expr_children(s, e@);
            finish_expr_extends(s1, e1);
        }
        let start = self.action_start;
        let e1 = self.visit_expr_children(e)?;
        let e2 = self.finish_expr(e1)?;
        self.end_action(start, Ghost(s));
        Ok(e2)
    }

    /// Makes an arrow function with the directive an action, outside of a
    /// `"use server"` file.
    fn finish_expr(&mut self, e: Expr) -> (r: Result<Expr, IdentOverflow>)
        ensures
            match r {
                Ok(x) => (final(self)@, x@) == finish_expr(old(self)@, e@),
                Err(_) => finish_expr(old(self)@, e@).0.ident_cnt > u32::MAX,
            },
    {
        proof {
            reveal(finish_expr);
        }
        if self.is_action_file() {
            return Ok(e);
        }
        match e {
            Expr::Arrow(a) => {
                assert(a@.body == a.body@);
                let info = self.get_action_info(block_of(&a.body));
                if info.is_action {
                    self.finish_arrow(a, info.directive)
                } else {
                    Ok(Expr::Arrow(a))
                }
            },
            _ => Ok(e),
        }
    }

    fn visit_expr_children(&mut self, e: Expr) -> (r: Result<Expr, IdentOverflow>)
        ensures
            match r {
                Ok(x) => (final(self)@, x@) == visit_expr_children(old(self)@, e@),
                Err(_) => visit_expr_children(old(self)@, e@).0.ident_cnt > u32::MAX,
            },
        decreases e, 1int,
    {
        let ghost s = self@;
        match e {
            Expr::Ident(i) => Ok(Expr::Ident(i)),
            Expr::Str(origin, value) => Ok(Expr::Str(origin, value)),
            Expr::Member(m) => {
                let m1 = self.visit_member(m)?;
                Ok(Expr::Member(m1))
            },
            Expr::OptMember(m) => {
                let m1 = self.visit_member(m)?;
                Ok(Expr::OptMember(m1))
            },
            Expr::Fn(f) => {
                let f1 = self.visit_mut_fn_expr(f)?;
                Ok(Expr::Fn(f1))
            },
            Expr::Arrow(a) => {
                let a1 = self.visit_mut_arrow_expr(a)?;
                Ok(Expr::Arrow(a1))
            },
            Expr::Call(callee, args) => {
                proof {
                    visit_exprs_extends(visit_expr(s, (*callee)@).0, exprs_view(args@));
                }
                let callee1 = self.visit_mut_expr(*callee)?;
                let args1 = self.visit_exprs(args)?;
                Ok(Expr::Call(Box::new(callee1), args1))
            },
            Expr::Assign(target, value) => {
                proof {
                    visit_expr_extends(visit_expr(s, (*target)@).0, (*value)@);
                }
                let target1 = self.visit_mut_expr(*target)?;
                let value1 = self.visit_mut_expr(*value)?;
                Ok(Expr::Assign(Box::new(target1), Box::new(value1)))
            },
            Expr::Define(i, value) => {
                let value1 = self.visit_mut_expr(*value)?;
                Ok(Expr::Define(i, Box::new(value1)))
            },
            Expr::Paren(inner) => {
                let inner1 = self.visit_mut_expr(*inner)?;
                Ok(Expr::Paren(Box::new(inner1)))
            },
            Expr::Array(elems) => {
                let elems1 = self.visit_exprs(elems)?;
                Ok(Expr::Array(elems1))
            },
            Expr::Index(obj, i) => {
                let obj1 = self.visit_mut_expr(*obj)?;
                Ok(Expr::Index(Box::new(obj1), i))
            },
            Expr::Other(o) => {
                let o1 = self.visit_other(o)?;
                Ok(Expr::Other(o1))
            },
        }
    }

    fn visit_member(&mut self, m: Member) -> (r: Result<Member, IdentOverflow>)
        ensures
            match r {
                Ok(x) => (final(self)@, x@) == visit_member(old(self)@, m@),
                Err(_) => visit_member(old(self)@, m@).0.ident_cnt > u32::MAX,
            },
        decreases m, 0int,
    {
        let obj = self.visit_mut_expr(*m.obj)?;
        Ok(Member { origin: m.origin, obj: Box::new(obj), prop: m.prop })
    }

    fn visit_opt_expr(&mut self, e: Option<Box<Expr>>) -> (r: Result<
        Option<Box<Expr>>,
        IdentOverflow,
    >)
        ensures
            match r {
                Ok(x) => (final(self)@, opt_expr_view(x)) == visit_opt_expr(old(self)@, opt_expr_view(e)),
                Err(_) => visit_opt_expr(old(self)@, opt_expr_view(e)).0.ident_cnt > u32::MAX,
            },
        decreases e, 3int,
    {
        match e {
            Some(inner) => {
                let inner1 = self.visit_mut_expr(*inner)?;
                Ok(Some(Box::new(inner1)))
            },
            None => Ok(None),
        }
    }

    /// Walks over a function expression. If it is an action it is hoisted.
    pub fn visit_mut_fn_expr(&mut self, f: FnExpr) -> (r: Result<FnExpr, IdentOverflow>)
        ensures
            match r {
                Ok(x) => (final(self)@, x@) == visit_fn_expr(old(self)@, f@.ident, f@.function),
                Err(_) => visit_fn_expr(old(self)@, f@.ident, f@.function).0.ident_cnt > u32::MAX,
            },
        decreases f, 0int,
    {
        assert(f@.function == f.function@);
        self.visit_fn_parts(f.ident, f.function)
    }

    fn visit_fn_parts(&mut self, ident: Option<Ident>, function: Function) -> (r: Result<
        FnExpr,
        IdentOverflow,
    >)
        ensures
            match r {
                Ok(x) => (final(self)@, x@) == visit_fn_expr(old(self)@, opt_ident_view(ident), function@),
                Err(_) => visit_fn_expr(old(self)@, opt_ident_view(ident), function@).0.ident_cnt > u32::MAX,
            },
        decreases function, 2int,
    {
        let ghost s = self@;
        let ghost view = function@;
        assert(view.body == opt_block_view(function.body));
        let info = self.get_action_info(function.body.as_ref());
        let is_action_fn = info.is_action;
        proof {
            let (s1, f1) = visit_function(s, view);
            let (s2, ident2) = name_action(s1, opt_ident_view(ident), f1);
            finish_function_extends(s2, f1.span, ident2->0, f1);
        }
        let start = self.action_start;
        let f1 = self.visit_function(function, info)?;
        let f2 = if is_action_fn {
            self.finish_fn_expr(ident, f1)?
        } else {
            FnExpr { ident, function: f1 }
        };
        self.end_action(start, Ghost(s));
        Ok(f2)
    }

    /// Finishes a function expression that is an action, after the walk over
    /// it. One without a name gets one.
    fn finish_fn_expr(&mut self, ident: Option<Ident>, f: Function) -> (r: Result<
        FnExpr,
        IdentOverflow,
    >)
        ensures
            ({
                let (s2, ident2) = name_action(old(self)@, opt_ident_view(ident), f@);
                let (s3, f3) = finish_function(s2, f@.span, ident2->0, f@);
                match r {
                    Ok(x) => {
                        &&& final(self)@ == s3
                        &&& x@ == FnExprView { ident: ident2, function: f3 }
                    },
                    Err(_) => s3.ident_cnt > u32::MAX,
                }
            }),
    {
        proof {
            reveal(finish_function);
            let (s2, ident2) = name_action(self@, opt_ident_view(ident), f@);
            finish_function_extends(s2, f@.span, ident2->0, f@);
        }
        assert(f@.is_async == f.is_async && f@.span == f.span);
        match ident {
            Some(i) => {
                let f2 = self.finish_function(f.span, &i, f)?;
                Ok(FnExpr { ident: Some(i), function: f2 })
            },
            None => {
                if f.is_async && !self.is_action_file() {
                    let i = Ident::new(self.next_name()?, Span::dummy());
                    let f2 = self.finish_function(f.span, &i, f)?;
                    Ok(FnExpr { ident: Some(i), function: f2 })
                } else {
                    if !f.is_async {
                        self.report(f.span, Problem::NotAsync);
                    }
                    Ok(FnExpr { ident: None, function: f })
                }
            },
        }
    }

    /// Walks over a function declaration. If it is an action it is hoisted.
    pub fn visit_mut_fn_decl(&mut self, f: FnDecl) -> (r: Result<FnDecl, IdentOverflow>)
        ensures
            match r {
                Ok(x) => (final(self)@, x@) == visit_fn_decl(old(self)@, f@),
                Err(_) => visit_fn_decl(old(self)@, f@).0.ident_cnt > u32::MAX,
            },
        decreases f, 0int,
    {
        let ghost s = self@;
        let ghost view = f@;
        assert(view.function == f.function@ && view.ident == f.ident@);
        assert(view.function.body == opt_block_view(f.function.body));
        let info = self.get_action_info(f.function.body.as_ref());
        let is_action_fn = info.is_action;
        proof {
            let (s1, f1) = visit_function(s, view.function);
            finish_function_extends(s1, view.ident.span, view.ident, f1);
        }
        let start = self.action_start;
        let f1 = self.visit_function(f.function, info)?;
        let f2 = if is_action_fn {
            self.finish_function(f.ident.span, &f.ident, f1)?
        } else {
            f1
        };
        self.end_action(start, Ghost(s));
        Ok(FnDecl { origin: f.origin, ident: f.ident, function: f2 })
    }

    /// Walks over the parts of a function, without the directive that makes it
    /// an action.
    fn visit_function(&mut self, f: Function, info: ActionInfo) -> (r: Result<
        Function,
        IdentOverflow,
    >)
        requires
            info.is_action == is_action(old(self)@, f@.body),
            index_view(info.directive) == action_directive(old(self)@, f@.body),
            info.directive is Some ==> f.body is Some && info.directive->0
                < f.body->0.stmts@.len(),
        ensures
            match r {
                Ok(x) => (final(self)@, x@) == visit_function(old(self)@, f@),
                Err(_) => visit_function(old(self)@, f@).0.ident_cnt > u32::MAX,
            },
        decreases f, 1int,
    {
        let ghost s = self@;
        let ghost view = f@;
        assert(view.params == params_view(f.params@));
        assert(view.decorators == decorators_view(f.decorators@));
        assert(view.body == opt_block_view(f.body));
        let outer = self.enter_function(info.is_action);
        proof {
            let s0 = enter_function(s, is_action(s, view.body));
            function_parts_extend(s0, view, action_directive(s, view.body));
            let s1 = visit_params(s0, view.params).0;
            visit_decorators_extends(s1, view.decorators);
            let s2 = visit_decorators(s1, view.decorators).0;
            visit_fn_body_extends(s2, view.body, action_directive(s, view.body));
        }
        let params = self.visit_params(f.params)?;
        let decorators = self.visit_decorators(f.decorators)?;
        let body = self.visit_fn_body(f.body, info.directive)?;
        self.leave_function(outer, Ghost(s));
        Ok(
            Function {
                origin: f.origin,
                span: f.span,
                params,
                decorators,
                body,
                is_async: f.is_async,
                is_generator: f.is_generator,
            },
        )
    }

    fn visit_fn_body(&mut self, body: Option<Block>, directive: Option<usize>) -> (r: Result<
        Option<Block>,
        IdentOverflow,
    >)
        requires
            directive is Some ==> body is Some && directive->0 < body->0.stmts@.len(),
        ensures
            match r {
                Ok(x) => (final(self)@, opt_block_view(x)) == visit_fn_body(old(self)@, opt_block_view(body), index_view(directive)),
                Err(_) => visit_fn_body(old(self)@, opt_block_view(body), index_view(directive)).0.ident_cnt > u32::MAX,
            },
        decreases body, 0int,
    {
        match body {
            Some(b) => {
                assert(b@.stmts == stmts_view(b.stmts@));
                proof {
                    without_decreases(b.stmts@, index_view(directive));
                }
                let stmts = self.visit_mut_stmts(remove_stmt(b.stmts, directive))?;
                let block = Block { origin: b.origin, stmts };
                assert(block@.stmts == stmts_view(stmts@));
                Ok(Some(block))
            },
            None => Ok(None),
        }
    }

    /// Walks over an arrow function. One that is an action has to be async.
    pub fn visit_mut_arrow_expr(&mut self, a: ArrowExpr) -> (r: Result<ArrowExpr, IdentOverflow>)
        ensures
            match r {
                Ok(x) => (final(self)@, x@) == visit_arrow(old(self)@, a@),
                Err(_) => visit_arrow(old(self)@, a@).0.ident_cnt > u32::MAX,
            },
        decreases a, 0int,
    {
        let ghost s = self@;
        let ghost view = a@;
        assert(view.params == pats_view(a.params@));
        assert(view.body == a.body@);
        let info = self.get_action_info(block_of(&a.body));
        let outer = self.enter_function(info.is_action);
        proof {
            let s0 = enter_function(s, info.is_action);
            arrow_parts_extend(s0, view);
            visit_arrow_body_extends(visit_pats(s0, view.params).0, view.body);
        }
        let params = self.visit_pats(a.params)?;
        let body = self.visit_arrow_body(a.body)?;
        self.leave_function(outer, Ghost(s));
        if info.is_action && !a.is_async && !self.is_action_file() {
            self.report(a.span, Problem::NotAsync);
        }
        Ok(
            ArrowExpr {
                origin: a.origin,
                span: a.span,
                params,
                body,
                is_async: a.is_async,
                is_generator: a.is_generator,
            },
        )
    }

    fn visit_arrow_body(&mut self, body: ArrowBody) -> (r: Result<ArrowBody, IdentOverflow>)
        ensures
            match r {
                Ok(x) => (final(self)@, x@) == visit_arrow_body(old(self)@, body@),
                Err(_) => visit_arrow_body(old(self)@, body@).0.ident_cnt > u32::MAX,
            },
        decreases body, 0int,
    {
        match body {
            ArrowBody::Block(b) => {
                assert(b@.stmts == stmts_view(b.stmts@));
                let stmts = self.visit_mut_stmts(b.stmts)?;
                let block = Block { origin: b.origin, stmts };
                assert(block@.stmts == stmts_view(stmts@));
                Ok(ArrowBody::Block(block))
            },
            ArrowBody::Expr(e) => {
                let e1 = self.visit_mut_expr(*e)?;
                Ok(ArrowBody::Expr(Box::new(e1)))
            },
        }
    }

    /// Walks over a parameter, and records what it binds.
    pub fn visit_mut_param(&mut self, p: Param) -> (r: Result<Param, IdentOverflow>)
        ensures
            match r {
                Ok(x) => (final(self)@, x@) == visit_param(old(self)@, p@),
                Err(_) => visit_param(old(self)@, p@).0.ident_cnt > u32::MAX,
            },
        decreases p, 1int,
    {
        let ghost s = self@;
        assert(p@.decorators == decorators_view(p.decorators@));
        assert(p@.pat == p.pat@ && p@.pat.form == p.pat.form@);
        proof {
            visit_pat_extends(visit_decorators(s, p@.decorators).0, p@.pat);
        }
        let ids = collect_idents_in_element(&p.pat.form);
        let decorators = self.visit_decorators(p.decorators)?;
        let pat = self.visit_pat(p.pat)?;
        self.bind(ids);
        Ok(Param { origin: p.origin, decorators, pat })
    }

    fn visit_pat(&mut self, p: Pat) -> (r: Result<Pat, IdentOverflow>)
        ensures
            match r {
                Ok(x) => (final(self)@, x@) == visit_pat(old(self)@, p@),
                Err(_) => visit_pat(old(self)@, p@).0.ident_cnt > u32::MAX,
            },
        decreases p, 1int,
    {
        let exprs = self.visit_exprs(p.exprs)?;
        Ok(Pat { origin: p.origin, form: p.form, exprs })
    }

    fn visit_decorator(&mut self, d: Decorator) -> (r: Result<Decorator, IdentOverflow>)
        ensures
            match r {
                Ok(x) => (final(self)@, x@) == visit_decorator(old(self)@, d@),
                Err(_) => visit_decorator(old(self)@, d@).0.ident_cnt > u32::MAX,
            },
        decreases d, 1int,
    {
        let expr = self.visit_mut_expr(d.expr)?;
        Ok(Decorator { origin: d.origin, expr })
    }

    /// Walks over a statement, and records what it declares.
    pub fn visit_mut_stmt(&mut self, n: Stmt) -> (r: Result<Stmt, IdentOverflow>)
        ensures
            match r {
                Ok(x) => (final(self)@, x@) == visit_stmt(old(self)@, n@),
                Err(_) => visit_stmt(old(self)@, n@).0.ident_cnt > u32::MAX,
            },
        decreases n, 2int,
    {
        let n1 = self.visit_stmt_children(n)?;
        if self.current_scope().in_module {
            return Ok(n1);
        }
        let ids = collect_idents_in_stmt(&n1);
        self.bind(ids);
        Ok(n1)
    }

    fn visit_stmt_children(&mut self, n: Stmt) -> (r: Result<Stmt, IdentOverflow>)
        ensures
            match r {
                Ok(x) => (final(self)@, x@) == visit_stmt_children(old(self)@, n@),
                Err(_) => visit_stmt_children(old(self)@, n@).0.ident_cnt > u32::MAX,
            },
        decreases n, 1int,
    {
        match n {
            Stmt::Expr(origin, e) => {
                let e1 = self.visit_mut_expr(*e)?;
                Ok(Stmt::Expr(origin, Box::new(e1)))
            },
            Stmt::Decl(d) => {
                let d1 = self.visit_decl(d)?;
                Ok(Stmt::Decl(d1))
            },
            Stmt::Return(e) => {
                let e1 = self.visit_mut_expr(*e)?;
                Ok(Stmt::Return(Box::new(e1)))
            },
            Stmt::Other(o) => {
                let o1 = self.visit_other(o)?;
                Ok(Stmt::Other(o1))
            },
        }
    }

    fn visit_decl(&mut self, d: Decl) -> (r: Result<Decl, IdentOverflow>)
        ensures
            match r {
                Ok(x) => (final(self)@, x@) == visit_decl(old(self)@, d@),
                Err(_) => visit_decl(old(self)@, d@).0.ident_cnt > u32::MAX,
            },
        decreases d, 1int,
    {
        match d {
            Decl::Fn(f) => {
                let f1 = self.visit_mut_fn_decl(f)?;
                Ok(Decl::Fn(f1))
            },
            Decl::Var(v) => {
                assert(v@.decls == declarators_view(v.decls@));
                let decls = self.visit_declarators(v.decls)?;
                let w = VarDecl { origin: v.origin, kind: v.kind, decls };
                assert(w@.decls == declarators_view(decls@));
                Ok(Decl::Var(w))
            },
            Decl::Other(o) => {
                let o1 = self.visit_other(o)?;
                Ok(Decl::Other(o1))
            },
        }
    }

    fn visit_declarator(&mut self, d: Declarator) -> (r: Result<Declarator, IdentOverflow>)
        ensures
            match r {
                Ok(x) => (final(self)@, x@) == visit_declarator(old(self)@, d@),
                Err(_) => visit_declarator(old(self)@, d@).0.ident_cnt > u32::MAX,
            },
        decreases d, 1int,
    {
        proof {
            visit_opt_expr_extends(visit_pat(self@, d@.name).0, d@.init);
        }
        let name = self.visit_pat(d.name)?;
        let init = self.visit_opt_expr(d.init)?;
        Ok(Declarator { origin: d.origin, name, init })
    }

    fn visit_prop(&mut self, p: Prop) -> (r: Result<Prop, IdentOverflow>)
        ensures
            match r {
                Ok(x) => (final(self)@, x@) == visit_prop(old(self)@, p@),
                Err(_) => visit_prop(old(self)@, p@).0.ident_cnt > u32::MAX,
            },
        decreases p, 1int,
    {
        match p {
            Prop::Shorthand(i) => {
                let scope = self.current_scope();
                if scope.in_action_fn && scope.in_action_closure {
                    self.use_name(Name::of_ident(&i));
                }
                Ok(Prop::Shorthand(i))
            },
            Prop::KeyValue(key, value) => {
                let value1 = self.visit_mut_expr(*value)?;
                Ok(Prop::KeyValue(key, Box::new(value1)))
            },
            Prop::Other(o) => {
                let o1 = self.visit_other(o)?;
                Ok(Prop::Other(o1))
            },
        }
    }

    fn visit_other(&mut self, o: Other) -> (r: Result<Other, IdentOverflow>)
        ensures
            match r {
                Ok(x) => (final(self)@, x@) == visit_other(old(self)@, o@),
                Err(_) => visit_other(old(self)@, o@).0.ident_cnt > u32::MAX,
            },
        decreases o, 1int,
    {
        let kids = self.visit_nodes(o.kids)?;
        Ok(Other { source: o.source, kids })
    }

    fn visit_node(&mut self, n: Node) -> (r: Result<Node, IdentOverflow>)
        ensures
            match r {
                Ok(x) => (final(self)@, x@) == visit_node(old(self)@, n@),
                Err(_) => visit_node(old(self)@, n@).0.ident_cnt > u32::MAX,
            },
        decreases n, 1int,
    {
        match n {
            Node::Expr(e) => {
                let e1 = self.visit_mut_expr(e)?;
                Ok(Node::Expr(e1))
            },
            Node::Stmt(stmt) => {
                let stmt1 = self.visit_mut_stmt(stmt)?;
                Ok(Node::Stmt(stmt1))
            },
            Node::Stmts(v) => {
                let v1 = self.visit_mut_stmts(v)?;
                Ok(Node::Stmts(v1))
            },
            Node::Param(p) => {
                let p1 = self.visit_mut_param(p)?;
                Ok(Node::Param(p1))
            },
            Node::Prop(p) => {
                let p1 = self.visit_prop(p)?;
                Ok(Node::Prop(p1))
            },
            Node::Items(v) => {
                let v1 = self.visit_mut_module_items(v)?;
                Ok(Node::Items(v1))
            },
        }
    }

    /// Walks over a list of statements. The annotations of a statement are put
    /// right behind it.
    pub fn visit_mut_stmts(&mut self, stmts: Vec<Stmt>) -> (r: Result<Vec<Stmt>, IdentOverflow>)
        ensures
            match r {
                Ok(x) => (final(self)@, stmts_view(x@)) == visit_stmts(old(self)@, stmts_view(stmts@)),
                Err(_) => visit_stmts(old(self)@, stmts_view(stmts@)).0.ident_cnt > u32::MAX,
            },
        decreases stmts@, 5int,
    {
        let ghost s = self@;
        let old_annotations = self.take_annotations();
        let old_top_level = self.is_top_level();
        let new = self.visit_stmts_in_turn(stmts)?;
        self.put_annotations(old_annotations);
        self.set_top_level(old_top_level);
        Ok(new)
    }

    fn visit_stmts_in_turn(&mut self, v: Vec<Stmt>) -> (r: Result<Vec<Stmt>, IdentOverflow>)
        ensures
            match r {
                Ok(x) => (final(self)@, stmts_view(x@)) == visit_stmts_in_turn(old(self)@, stmts_view(v@)),
                Err(_) => visit_stmts_in_turn(old(self)@, stmts_view(v@)).0.ident_cnt > u32::MAX,
            },
        decreases v@, 4int,
    {
        let ghost s = self@;
        let ghost v0 = v@;
        let ghost views = stmts_view(v@);
        let mut out: Vec<Stmt> = Vec::new();
        assert(views.take(0) =~= Seq::empty());
        assert(stmts_view(out@) =~= Seq::empty());
        for x in it: v
            invariant
                views == stmts_view(v0),
                it.seq() == v0,
                v0 == v@,
                s == old(self)@,
                (self@, stmts_view(out@)) == visit_stmts_in_turn(s, views.take(it.index())),
        {
            let ghost i = it.index();
            assert(views.take(i + 1).drop_last() =~= views.take(i));
            assert(views.take(i + 1).last() == x@);
            proof {
                visit_stmts_in_turn_take_extends(s, views, i + 1);
            }
            self.set_top_level(false);
            let stmt = self.visit_mut_stmt(x)?;
            let ghost prev = out@;
            out.push(stmt);
            let mut added = self.take_annotations();
            let ghost more = added@;
            out.append(&mut added);
            assert(stmts_view(out@) =~= stmts_view(prev).push(stmt@) + stmts_view(more));
        }
        assert(views.take(views.len() as int) =~= views);
        Ok(out)
    }

    /// Walks over the items of a module or a namespace.
    pub fn visit_mut_module_items(&mut self, stmts: Vec<ModuleItem>) -> (r: Result<
        Vec<ModuleItem>,
        IdentOverflow,
    >)
        ensures
            match r {
                Ok(x) => (final(self)@, items_view(x@)) == visit_items(old(self)@, items_view(stmts@)),
                Err(_) => visit_items(old(self)@, items_view(stmts@)).0.ident_cnt > u32::MAX,
            },
        decreases stmts@, 5int,
    {
        let ghost s = self@;
        let ghost views = items_view(stmts@);
        let directive = get_server_directive_index_in_module(&stmts);
        if directive.is_some() {
            self.set_action_file();
        }
        proof {
            without_decreases(stmts@, index_view(directive));
        }
        let stmts = remove_item(stmts, directive);
        let old_annotations = self.take_annotations();
        proof {
            let s1 = State { annotations: Seq::empty(), ..enter_items(s, views) };
            let (s2, v2) = visit_items_in_turn(s1, without(views, module_directive(views)));
            leave_items_extends(s2, s.annotations, v2);
        }
        let new = self.visit_items_in_turn(stmts)?;
        Ok(self.leave_items(old_annotations, new))
    }

    fn visit_items_in_turn(&mut self, v: Vec<ModuleItem>) -> (r: Result<
        Vec<ModuleItem>,
        IdentOverflow,
    >)
        ensures
            match r {
                Ok(x) => (final(self)@, items_view(x@)) == visit_items_in_turn(old(self)@, items_view(v@)),
                Err(_) => visit_items_in_turn(old(self)@, items_view(v@)).0.ident_cnt > u32::MAX,
            },
        decreases v@, 4int,
    {
        let ghost s = self@;
        let ghost v0 = v@;
        let ghost views = items_view(v@);
        let mut out: Vec<ModuleItem> = Vec::new();
        assert(views.take(0) =~= Seq::empty());
        assert(items_view(out@) =~= Seq::empty());
        for x in it: v
            invariant
                views == items_view(v0),
                it.seq() == v0,
                v0 == v@,
                s == old(self)@,
                (self@, items_view(out@)) == visit_items_in_turn(s, views.take(it.index())),
        {
            let ghost i = it.index();
            assert(views.take(i + 1).drop_last() =~= views.take(i));
            assert(views.take(i + 1).last() == x@);
            proof {
                visit_items_in_turn_take_extends(s, views, i + 1);
            }
            self.set_top_level(true);
            let item = self.visit_top_item(x)?;
            let ghost prev = out@;
            out.push(item);
            assert(items_view(out@) =~= items_view(prev).push(item@));
            self.flush(&mut out);
        }
        assert(views.take(views.len() as int) =~= views);
        Ok(out)
    }

    /// Walks over an item of a module. In a `"use server"` file its exports are
    /// recorded first.
    fn visit_top_item(&mut self, item: ModuleItem) -> (r: Result<ModuleItem, IdentOverflow>)
        ensures
            match r {
                Ok(x) => (final(self)@, x@) == visit_top_item(old(self)@, item@),
                Err(_) => visit_top_item(old(self)@, item@).0.ident_cnt > u32::MAX,
            },
        decreases item, 3int,
    {
        if !self.is_action_file() {
            return self.visit_module_item(item);
        }
        proof {
            visit_exported_item_extends(
                note_exports(self@, item@),
                default_name(self@, item@),
                item@,
            );
        }
        let name = self.note_exports(&item)?;
        self.visit_exported_item(name, item)
    }

    fn visit_exported_item(&mut self, name: Option<Ident>, item: ModuleItem) -> (r: Result<
        ModuleItem,
        IdentOverflow,
    >)
        ensures
            match r {
                Ok(x) => (final(self)@, x@) == visit_exported_item(old(self)@, opt_ident_view(name), item@),
                Err(_) => visit_exported_item(old(self)@, opt_ident_view(name), item@).0.ident_cnt > u32::MAX,
            },
        decreases item, 2int,
    {
        let ghost view = item@;
        match item {
            ModuleItem::ExportDefaultDecl(span, DefaultDecl::Fn(f)) => {
                assert(view == ModuleItemView::ExportDefaultDecl(span, DefaultDeclView::Fn(f@)));
                assert(f@.ident == opt_ident_view(f.ident) && f@.function == f.function@);
                let ident = match f.ident {
                    Some(i) => Some(i),
                    None => name,
                };
                let f1 = self.visit_default_fn(ident, f.function)?;
                Ok(default_fn_item(span, f1))
            },
            ModuleItem::ExportDefaultExpr(span, expr) => {
                let e1 = self.visit_mut_export_default_expr(*expr)?;
                Ok(ModuleItem::ExportDefaultExpr(span, Box::new(with_name(name, e1))))
            },
            ModuleItem::ExportDefaultDecl(span, DefaultDecl::Other(o)) => {
                let d = DefaultDecl::Other(o);
                assert(view == ModuleItemView::ExportDefaultDecl(span, d@));
                assert(d@ == DefaultDeclView::Other(o@));
                self.visit_module_item(ModuleItem::ExportDefaultDecl(span, d))
            },
            _ => self.visit_module_item(item),
        }
    }

    fn visit_module_item(&mut self, item: ModuleItem) -> (r: Result<ModuleItem, IdentOverflow>)
        ensures
            match r {
                Ok(x) => (final(self)@, x@) == visit_item(old(self)@, item@),
                Err(_) => visit_item(old(self)@, item@).0.ident_cnt > u32::MAX,
            },
        decreases item, 1int,
    {
        match item {
            ModuleItem::Stmt(stmt) => {
                let stmt1 = self.visit_mut_stmt(stmt)?;
                Ok(ModuleItem::Stmt(stmt1))
            },
            ModuleItem::ExportDecl(span, d) => {
                let d1 = self.visit_mut_export_decl(d)?;
                Ok(ModuleItem::ExportDecl(span, d1))
            },
            ModuleItem::ExportNamed(n) => {
                assert(n@.rest == n.rest@);
                let rest = self.visit_other(n.rest)?;
                let m = NamedExport {
                    span: n.span,
                    specifiers: n.specifiers,
                    has_src: n.has_src,
                    rest,
                };
                assert(m@.rest == rest@);
                Ok(ModuleItem::ExportNamed(m))
            },
            ModuleItem::ExportDefaultDecl(span, d) => {
                let d1 = self.visit_mut_export_default_decl(d)?;
                Ok(ModuleItem::ExportDefaultDecl(span, d1))
            },
            ModuleItem::ExportDefaultExpr(span, e) => {
                let e1 = self.visit_mut_export_default_expr(*e)?;
                Ok(ModuleItem::ExportDefaultExpr(span, Box::new(e1)))
            },
            ModuleItem::ExportAll(span, o) => {
                let o1 = self.visit_other(o)?;
                Ok(ModuleItem::ExportAll(span, o1))
            },
            ModuleItem::Other(o) => {
                let o1 = self.visit_other(o)?;
                Ok(ModuleItem::Other(o1))
            },
        }
    }

    /// Walks over an exported declaration.
    pub fn visit_mut_export_decl(&mut self, decl: Decl) -> (r: Result<Decl, IdentOverflow>)
        ensures
            match r {
                Ok(x) => (final(self)@, x@) == visit_export_decl(old(self)@, decl@),
                Err(_) => visit_export_decl(old(self)@, decl@).0.ident_cnt > u32::MAX,
            },
        decreases decl, 2int,
    {
        let scope = self.enter_export(false);
        let d1 = self.visit_decl(decl)?;
        self.enter(scope);
        Ok(d1)
    }

    fn visit_default_fn(&mut self, ident: Option<Ident>, function: Function) -> (r: Result<
        FnExpr,
        IdentOverflow,
    >)
        ensures
            match r {
                Ok(x) => (final(self)@, x@) == visit_default_fn(old(self)@, opt_ident_view(ident), function@),
                Err(_) => visit_default_fn(old(self)@, opt_ident_view(ident), function@).0.ident_cnt > u32::MAX,
            },
        decreases function, 3int,
    {
        let scope = self.enter_export(true);
        let f1 = self.visit_fn_parts(ident, function)?;
        self.enter(scope);
        Ok(f1)
    }

    /// Walks over a declaration that is the default export.
    pub fn visit_mut_export_default_decl(&mut self, decl: DefaultDecl) -> (r: Result<
        DefaultDecl,
        IdentOverflow,
    >)
        ensures
            match r {
                Ok(x) => (final(self)@, x@) == visit_default_decl(old(self)@, decl@),
                Err(_) => visit_default_decl(old(self)@, decl@).0.ident_cnt > u32::MAX,
            },
        decreases decl, 2int,
    {
        match decl {
            DefaultDecl::Fn(f) => {
                assert(f@.ident == opt_ident_view(f.ident) && f@.function == f.function@);
                let f1 = self.visit_default_fn(f.ident, f.function)?;
                Ok(DefaultDecl::Fn(f1))
            },
            DefaultDecl::Other(o) => {
                let scope = self.enter_export(true);
                let o1 = self.visit_other(o)?;
                self.enter(scope);
                Ok(DefaultDecl::Other(o1))
            },
        }
    }

    /// Walks over an expression that is the default export.
    pub fn visit_mut_export_default_expr(&mut self, expr: Expr) -> (r: Result<
        Expr,
        IdentOverflow,
    >)
        ensures
            match r {
                Ok(x) => (final(self)@, x@) == visit_default_expr(old(self)@, expr@),
                Err(_) => visit_default_expr(old(self)@, expr@).0.ident_cnt > u32::MAX,
            },
        decreases expr, 3int,
    {
        let scope = self.enter_export(true);
        let e1 = self.visit_mut_expr(expr)?;
        self.enter(scope);
        Ok(e1)
    }

    /// Walks over a module.
    pub fn visit_mut_module(&mut self, m: Module) -> (r: Result<Module, IdentOverflow>)
        ensures
            match r {
                Ok(x) => (final(self)@, x@) == visit_module(old(self)@, m@),
                Err(_) => visit_module(old(self)@, m@).0.ident_cnt > u32::MAX,
            },
    {
        self.set_start(m.span.lo);
        let body = self.visit_mut_module_items(m.body)?;
        Ok(Module { span: m.span, body })
    }

    fn visit_exprs(&mut self, v: Vec<Expr>) -> (r: Result<Vec<Expr>, IdentOverflow>)
        ensures
            match r {
                Ok(x) => (final(self)@, exprs_view(x@)) == visit_exprs(old(self)@, exprs_view(v@)),
                Err(_) => visit_exprs(old(self)@, exprs_view(v@)).0.ident_cnt > u32::MAX,
            },
        decreases v@, 4int,
    {
        let ghost s = self@;
        let ghost v0 = v@;
        let ghost views = exprs_view(v@);
        let mut out: Vec<Expr> = Vec::new();
        assert(views.take(0) =~= Seq::empty());
        assert(exprs_view(out@) =~= Seq::empty());
        for x in it: v
            invariant
                views == exprs_view(v0),
                it.seq() == v0,
                v0 == v@,
                s == old(self)@,
                (self@, exprs_view(out@)) == visit_exprs(s, views.take(it.index())),
        {
            let ghost i = it.index();
            assert(views.take(i + 1).drop_last() =~= views.take(i));
            assert(views.take(i + 1).last() == x@);
            proof {
                visit_exprs_take_extends(s, views, i + 1);
            }
            let y = self.visit_mut_expr(x)?;
            let ghost prev = out@;
            out.push(y);
            assert(exprs_view(out@) =~= exprs_view(prev).push(y@));
        }
        assert(views.take(views.len() as int) =~= views);
        Ok(out)
    }

    fn visit_params(&mut self, v: Vec<Param>) -> (r: Result<Vec<Param>, IdentOverflow>)
        ensures
            match r {
                Ok(x) => (final(self)@, params_view(x@)) == visit_params(old(self)@, params_view(v@)),
                Err(_) => visit_params(old(self)@, params_view(v@)).0.ident_cnt > u32::MAX,
            },
        decreases v@, 4int,
    {
        let ghost s = self@;
        let ghost v0 = v@;
        let ghost views = params_view(v@);
        let mut out: Vec<Param> = Vec::new();
        assert(views.take(0) =~= Seq::empty());
        assert(params_view(out@) =~= Seq::empty());
        for x in it: v
            invariant
                views == params_view(v0),
                it.seq() == v0,
                v0 == v@,
                s == old(self)@,
                (self@, params_view(out@)) == visit_params(s, views.take(it.index())),
        {
            let ghost i = it.index();
            assert(views.take(i + 1).drop_last() =~= views.take(i));
            assert(views.take(i + 1).last() == x@);
            proof {
                visit_params_take_extends(s, views, i + 1);
            }
            let y = self.visit_mut_param(x)?;
            let ghost prev = out@;
            out.push(y);
            assert(params_view(out@) =~= params_view(prev).push(y@));
        }
        assert(views.take(views.len() as int) =~= views);
        Ok(out)
    }

    fn visit_decorators(&mut self, v: Vec<Decorator>) -> (r: Result<Vec<Decorator>, IdentOverflow>)
        ensures
            match r {
                Ok(x) => (final(self)@, decorators_view(x@)) == visit_decorators(old(self)@, decorators_view(v@)),
                Err(_) => visit_decorators(old(self)@, decorators_view(v@)).0.ident_cnt > u32::MAX,
            },
        decreases v@, 4int,
    {
        let ghost s = self@;
        let ghost v0 = v@;
        let ghost views = decorators_view(v@);
        let mut out: Vec<Decorator> = Vec::new();
        assert(views.take(0) =~= Seq::empty());
        assert(decorators_view(out@) =~= Seq::empty());
        for x in it: v
            invariant
                views == decorators_view(v0),
                it.seq() == v0,
                v0 == v@,
                s == old(self)@,
                (self@, decorators_view(out@)) == visit_decorators(s, views.take(it.index())),
        {
            let ghost i = it.index();
            assert(views.take(i + 1).drop_last() =~= views.take(i));
            assert(views.take(i + 1).last() == x@);
            proof {
                visit_decorators_take_extends(s, views, i + 1);
            }
            let y = self.visit_decorator(x)?;
            let ghost prev = out@;
            out.push(y);
            assert(decorators_view(out@) =~= decorators_view(prev).push(y@));
        }
        assert(views.take(views.len() as int) =~= views);
        Ok(out)
    }

    fn visit_pats(&mut self, v: Vec<Pat>) -> (r: Result<Vec<Pat>, IdentOverflow>)
        ensures
            match r {
                Ok(x) => (final(self)@, pats_view(x@)) == visit_pats(old(self)@, pats_view(v@)),
                Err(_) => visit_pats(old(self)@, pats_view(v@)).0.ident_cnt > u32::MAX,
            },
        decreases v@, 4int,
    {
        let ghost s = self@;
        let ghost v0 = v@;
        let ghost views = pats_view(v@);
        let mut out: Vec<Pat> = Vec::new();
        assert(views.take(0) =~= Seq::empty());
        assert(pats_view(out@) =~= Seq::empty());
        for x in it: v
            invariant
                views == pats_view(v0),
                it.seq() == v0,
                v0 == v@,
                s == old(self)@,
                (self@, pats_view(out@)) == visit_pats(s, views.take(it.index())),
        {
            let ghost i = it.index();
            assert(views.take(i + 1).drop_last() =~= views.take(i));
            assert(views.take(i + 1).last() == x@);
            proof {
                visit_pats_take_extends(s, views, i + 1);
            }
            assert(x@.form == x.form@);
            let ids = collect_idents_in_element(&x.form);
            let y = self.visit_pat(x)?;
            self.bind(ids);
            let ghost prev = out@;
            out.push(y);
            assert(pats_view(out@) =~= pats_view(prev).push(y@));
        }
        assert(views.take(views.len() as int) =~= views);
        Ok(out)
    }

    fn visit_declarators(&mut self, v: Vec<Declarator>) -> (r: Result<Vec<Declarator>, IdentOverflow>)
        ensures
            match r {
                Ok(x) => (final(self)@, declarators_view(x@)) == visit_declarators(old(self)@, declarators_view(v@)),
                Err(_) => visit_declarators(old(self)@, declarators_view(v@)).0.ident_cnt > u32::MAX,
            },
        decreases v@, 4int,
    {
        let ghost s = self@;
        let ghost v0 = v@;
        let ghost views = declarators_view(v@);
        let mut out: Vec<Declarator> = Vec::new();
        assert(views.take(0) =~= Seq::empty());
        assert(declarators_view(out@) =~= Seq::empty());
        for x in it: v
            invariant
                views == declarators_view(v0),
                it.seq() == v0,
                v0 == v@,
                s == old(self)@,
                (self@, declarators_view(out@)) == visit_declarators(s, views.take(it.index())),
        {
            let ghost i = it.index();
            assert(views.take(i + 1).drop_last() =~= views.take(i));
            assert(views.take(i + 1).last() == x@);
            proof {
                visit_declarators_take_extends(s, views, i + 1);
            }
            let y = self.visit_declarator(x)?;
            let ghost prev = out@;
            out.push(y);
            assert(declarators_view(out@) =~= declarators_view(prev).push(y@));
        }
        assert(views.take(views.len() as int) =~= views);
        Ok(out)
    }

    fn visit_nodes(&mut self, v: Vec<Node>) -> (r: Result<Vec<Node>, IdentOverflow>)
        ensures
            match r {
                Ok(x) => (final(self)@, nodes_view(x@)) == visit_nodes(old(self)@, nodes_view(v@)),
                Err(_) => visit_nodes(old(self)@, nodes_view(v@)).0.ident_cnt > u32::MAX,
            },
        decreases v@, 4int,
    {
        let ghost s = self@;
        let ghost v0 = v@;
        let ghost views = nodes_view(v@);
        let mut out: Vec<Node> = Vec::new();
        assert(views.take(0) =~= Seq::empty());
        assert(nodes_view(out@) =~= Seq::empty());
        for x in it: v
            invariant
                views == nodes_view(v0),
                it.seq() == v0,
                v0 == v@,
                s == old(self)@,
                (self@, nodes_view(out@)) == visit_nodes(s, views.take(it.index())),
        {
            let ghost i = it.index();
            assert(views.take(i + 1).drop_last() =~= views.take(i));
            assert(views.take(i + 1).last() == x@);
            proof {
                visit_nodes_take_extends(s, views, i + 1);
            }
            let y = self.visit_node(x)?;
            let ghost prev = out@;
            out.push(y);
            assert(nodes_view(out@) =~= nodes_view(prev).push(y@));
        }
        assert(views.take(views.len() as int) =~= views);
        Ok(out)
    }
}

} // verus!
