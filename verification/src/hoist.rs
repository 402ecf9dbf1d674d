//! Hoisting actions to the top level of the module.

use vstd::prelude::*;

use crate::annotate::{annotate_ident_as_action, make_var_decl};
use crate::ast::{
    exprs_view, params_view, pats_view, stmts_view, ArrowBody, ArrowExpr, Block, Ctxt, Decl,
    Decorator, Expr, FnDecl, Function, Ident, ModuleItem, Origin, Param, Pat, Span, Stmt, VarKind,
};
use crate::closure::{captured_names, join_ids, names_since, spell_names};
use crate::directive::get_server_directive_index_in_fn;
use crate::model::{ArrowBodyView, BlockView, DeclView, ExprView, FnDeclView, StmtView};
use crate::names::{access, names_view, Name};
use crate::replace::ClosureReplacer;
use crate::state::{action_ident, closure_ident, Diagnostic, IdentOverflow, Problem, ServerActions};
use crate::text::{action_name, gen_ident};
use crate::transform::{
    action_directive, add_action, bound_call, captures, const_export, export_name, finish_arrow,
    finish_function, function_export, hoisted_arrow, hoisted_function, is_action, report,
    stub_arrow, stub_function, take_ident, without, CallableView,
};

verus! {

/// A function or an arrow function.
pub enum Callable {
    Function(Function),
    Arrow(ArrowExpr),
}

impl Callable {
    pub open spec fn view(&self) -> CallableView {
        match self {
            Callable::Function(f) => CallableView::Function(f@),
            Callable::Arrow(a) => CallableView::Arrow(a@),
        }
    }
}

/// Whether a function is an action, and where the directive stands that makes
/// it one.
pub struct ActionInfo {
    pub is_action: bool,
    pub directive: Option<usize>,
}

/// An index as a mathematical value.
pub open spec fn index_view(i: Option<usize>) -> Option<int> {
    match i {
        Some(k) => Some(k as int),
        None => None,
    }
}

/// The view of a borrowed block.
pub open spec fn block_ref_view(b: Option<&Block>) -> Option<BlockView> {
    match b {
        Some(block) => Some(block@),
        None => None,
    }
}

/// Makes `$$ACTION_n(ident.$$bound)`.
fn make_bound_call(n: u32, callee: &Ident, ident: &Ident) -> (r: Expr)
    requires
        callee@ == action_ident(n as nat),
    ensures
        r@ == bound_call(n as nat, ident@),
{
    let arg = Expr::access(Expr::Ident(ident.clone()), "$$bound".to_string(), true);
    let ghost arg_view = arg@;
    let args = vec![arg];
    assert(exprs_view(args@) =~= seq![arg_view]);
    let name = Expr::Ident(callee.clone());
    assert(name@ == ExprView::Ident(action_ident(n as nat)));
    Expr::Call(Box::new(name), args)
}

/// Makes the parameter through which an action gets what it captured.
fn make_closure_arg(n: u32) -> (r: Ident)
    ensures
        r@ == closure_ident(n as nat),
{
    Ident::new("closure".to_string(), Span::with_ctxt(Ctxt::Closure(n)))
}

/// Makes `export const name = value;`.
fn make_const_export(name: Ident, value: Expr) -> (r: ModuleItem)
    ensures
        r@ == const_export(name@, value@),
{
    let decl = make_var_decl(VarKind::Const, name, Some(Box::new(value)));
    ModuleItem::ExportDecl(Span::dummy(), decl)
}

/// Makes `export function name(closure) { .. }`.
fn make_function_export(name: Ident, function: Function) -> (r: ModuleItem)
    ensures
        r@ == function_export(name@, function@),
{
    let f = FnDecl { origin: Origin::Synthetic, ident: name, function };
    assert(f@ == (FnDeclView { origin: Origin::Synthetic, ident: name@, function: function@ }));
    let decl = Decl::Fn(f);
    assert(decl@ == DeclView::Fn(f@));
    ModuleItem::ExportDecl(Span::dummy(), decl)
}

/// Takes a function apart: the function to hoist, and what stays in its place.
fn split_function(
    n: u32,
    callee: &Ident,
    ident: &Ident,
    names: &Vec<Name>,
    f: Function,
) -> (r: (Function, Function))
    requires
        callee@ == action_ident(n as nat),
    ensures
        r.0@ == hoisted_function(n as nat, names_view(names@), f@),
        r.1@ == stub_function(n as nat, ident@, f@),
{
    let closure_arg = make_closure_arg(n);
    let replacer = ClosureReplacer { closure_arg: &closure_arg, used_ids: names };
    let body = replacer.visit_opt_block(f.body);
    let no_decorators: Vec<Decorator> = Vec::new();
    assert(crate::ast::decorators_view(no_decorators@) =~= Seq::empty());
    let param = Param {
        origin: Origin::Synthetic,
        decorators: no_decorators,
        pat: Pat::from_ident(closure_arg.clone()),
    };
    let ghost param_view = param@;
    let params = vec![param];
    assert(params_view(params@) =~= seq![param_view]);
    let decorators: Vec<Decorator> = Vec::new();
    assert(crate::ast::decorators_view(decorators@) =~= Seq::empty());
    let hoisted = Function {
        origin: f.origin,
        span: f.span,
        params,
        decorators,
        body,
        is_async: f.is_async,
        is_generator: f.is_generator,
    };
    let call = make_bound_call(n, callee, ident);
    let stmt = Stmt::Return(Box::new(call));
    let ghost stmt_view = stmt@;
    assert(stmt_view == StmtView::Return(Box::new(call@)));
    let stmts = vec![stmt];
    assert(stmts_view(stmts@) =~= seq![stmt_view]);
    let block = Block { origin: Origin::Synthetic, stmts };
    assert(block@ == (BlockView { origin: Origin::Synthetic, stmts: seq![stmt_view] }));
    let stub = Function {
        origin: Origin::Synthetic,
        span: f.span,
        params: f.params,
        decorators: f.decorators,
        body: Some(block),
        is_async: f.is_async,
        is_generator: f.is_generator,
    };
    (hoisted, stub)
}

/// Takes an arrow function apart: the function to hoist, and what stays in its
/// place.
fn split_arrow(
    n: u32,
    callee: &Ident,
    ident: &Ident,
    names: &Vec<Name>,
    a: ArrowExpr,
) -> (r: (ArrowExpr, ArrowExpr))
    requires
        callee@ == action_ident(n as nat),
    ensures
        r.0@ == hoisted_arrow(n as nat, names_view(names@), a@),
        r.1@ == stub_arrow(n as nat, ident@, a@),
{
    let closure_arg = make_closure_arg(n);
    let replacer = ClosureReplacer { closure_arg: &closure_arg, used_ids: names };
    let body = match a.body {
        ArrowBody::Block(b) => {
            assert(a@.body == ArrowBodyView::Block(b@));
            ArrowBody::Block(replacer.visit_block(b))
        },
        ArrowBody::Expr(e) => {
            assert(a@.body == ArrowBodyView::Expr(Box::new(e@)));
            ArrowBody::Expr(e)
        },
    };
    let pat = Pat::from_ident(closure_arg.clone());
    let ghost pat_view = pat@;
    let params = vec![pat];
    assert(pats_view(params@) =~= seq![pat_view]);
    let hoisted = ArrowExpr {
        origin: a.origin,
        span: a.span,
        params,
        body,
        is_async: a.is_async,
        is_generator: a.is_generator,
    };
    let call = make_bound_call(n, callee, ident);
    let stub_body = ArrowBody::Expr(Box::new(call));
    assert(stub_body@ == ArrowBodyView::Expr(Box::new(call@)));
    let stub = ArrowExpr {
        origin: Origin::Synthetic,
        span: Span::dummy(),
        params: a.params,
        body: stub_body,
        is_async: a.is_async,
        is_generator: a.is_generator,
    };
    (hoisted, stub)
}

/// Removes a statement of a function body.
pub fn remove_stmt(stmts: Vec<Stmt>, index: Option<usize>) -> (r: Vec<Stmt>)
    requires
        index is Some ==> index->0 < stmts@.len(),
    ensures
        r@ == without(stmts@, index_view(index)),
        stmts_view(r@) == without(stmts_view(stmts@), index_view(index)),
{
    let ghost before = stmts@;
    let mut stmts = stmts;
    if let Some(i) = index {
        stmts.remove(i);
        assert(stmts_view(stmts@) =~= stmts_view(before).remove(i as int));
    }
    stmts
}

impl ServerActions {
    /// Takes the next generated name.
    pub fn next_name(&mut self) -> (r: Result<String, IdentOverflow>)
        ensures
            match r {
                Ok(name) => name@ == action_name(old(self)@.ident_cnt) && final(self)@
                    == take_ident(old(self)@),
                Err(_) => old(self)@.ident_cnt == u32::MAX,
            },
    {
        if self.ident_cnt == u32::MAX {
            return Err(IdentOverflow);
        }
        Ok(gen_ident(&mut self.ident_cnt))
    }

    /// Reports an error.
    pub fn report(&mut self, span: Span, problem: Problem)
        ensures
            final(self)@ == report(old(self)@, span, problem),
    {
        self.errors.push(Diagnostic { span, problem });
    }

    /// Whether a function with the given body is an action, and where the
    /// directive stands that makes it one.
    pub fn get_action_info(&self, maybe_body: Option<&Block>) -> (r: ActionInfo)
        ensures
            r.is_action == is_action(self@, block_ref_view(maybe_body)),
            index_view(r.directive) == action_directive(self@, block_ref_view(maybe_body)),
            r.directive is Some ==> maybe_body is Some && r.directive->0
                < maybe_body->0.stmts@.len(),
    {
        if self.in_action_file && self.scope.in_export_decl {
            // All exported functions of a `"use server"` file are actions.
            return ActionInfo { is_action: true, directive: None };
        }
        match maybe_body {
            Some(body) => {
                let directive = get_server_directive_index_in_fn(&body.stmts);
                ActionInfo { is_action: directive.is_some(), directive }
            },
            None => ActionInfo { is_action: false, directive: None },
        }
    }

    /// What the current action captures.
    pub fn captures(&self) -> (r: Vec<Name>)
        ensures
            names_view(r@) == captures(self@),
    {
        let used = names_since(&self.action_idents, self.action_start);
        let bound = join_ids(&self.closure_idents, &self.action_locals);
        captured_names(&used, &bound)
    }

    /// Annotates an action, exports it, and hoists it unless it is a function
    /// at the top level. Returns what stays in its place.
    pub fn add_action_annotations_and_maybe_hoist(
        &mut self,
        ident: &Ident,
        callable: Callable,
    ) -> (r: Result<Callable, IdentOverflow>)
        ensures
            match r {
                Ok(c) => (final(self)@, c@) == add_action(old(self)@, ident@, callable@),
                Err(_) => add_action(old(self)@, ident@, callable@).0.ident_cnt > u32::MAX,
            },
    {
        proof {
            reveal(add_action);
        }
        let ghost s = self@;
        let n = self.ident_cnt;
        let name = self.next_name()?;
        let action = Ident::new(name.clone(), Span::with_ctxt(Ctxt::Action(n)));
        let export = if self.scope.in_default_export_decl {
            "default".to_string()
        } else {
            name
        };
        assert(export@ == export_name(s));
        self.has_action = true;
        self.export_actions.push(export.clone());
        assert(self@.export_actions =~= s.export_actions.push(export@));
        match callable {
            Callable::Function(f) => {
                if self.top_level {
                    let bound: Vec<Expr> = Vec::new();
                    assert(exprs_view(bound@) =~= Seq::empty());
                    annotate_ident_as_action(
                        &mut self.annotations,
                        ident,
                        bound,
                        self.file_name.as_str(),
                        export.as_str(),
                    );
                    let value = Expr::Ident(ident.clone());
                    assert(value@ == ExprView::Ident(ident@));
                    let item = make_const_export(action, value);
                    self.extra_items.push(item);
                    assert(self@.extra_items =~= s.extra_items.push(item@));
                    Ok(Callable::Function(f))
                } else {
                    let names = self.captures();
                    let bound = spell_names(&names);
                    annotate_ident_as_action(
                        &mut self.annotations,
                        ident,
                        bound,
                        self.file_name.as_str(),
                        export.as_str(),
                    );
                    let (hoisted, stub) = split_function(n, &action, ident, &names, f);
                    let item = make_function_export(action, hoisted);
                    self.extra_items.push(item);
                    assert(self@.extra_items =~= s.extra_items.push(item@));
                    Ok(Callable::Function(stub))
                }
            },
            Callable::Arrow(a) => {
                let names = self.captures();
                let bound = spell_names(&names);
                annotate_ident_as_action(
                    &mut self.annotations,
                    ident,
                    bound,
                    self.file_name.as_str(),
                    export.as_str(),
                );
                let (hoisted, stub) = split_arrow(n, &action, ident, &names, a);
                let value = Expr::Arrow(hoisted);
                assert(value@ == ExprView::Arrow(hoisted@));
                let item = make_const_export(action, value);
                self.extra_items.push(item);
                assert(self@.extra_items =~= s.extra_items.push(item@));
                Ok(Callable::Arrow(stub))
            },
        }
    }

    /// Finishes a function that is to be an action, after the walk over it.
    pub fn finish_function(&mut self, span: Span, ident: &Ident, f: Function) -> (r: Result<
        Function,
        IdentOverflow,
    >)
        ensures
            match r {
                Ok(g) => (final(self)@, g@) == finish_function(old(self)@, span, ident@, f@),
                Err(_) => finish_function(old(self)@, span, ident@, f@).0.ident_cnt > u32::MAX,
            },
    {
        proof {
            reveal(finish_function);
            reveal(add_action);
        }
        if !f.is_async {
            self.report(span, Problem::NotAsync);
            Ok(f)
        } else if !self.in_action_file {
            let ghost f_view = f@;
            let c = self.add_action_annotations_and_maybe_hoist(ident, Callable::Function(f))?;
            match c {
                Callable::Function(g) => Ok(g),
                Callable::Arrow(_) => {
                    assert(false);
                    Err(IdentOverflow)
                },
            }
        } else {
            Ok(f)
        }
    }

    /// Finishes an arrow function with the directive, after the walk over it.
    pub fn finish_arrow(&mut self, a: ArrowExpr, directive: Option<usize>) -> (r: Result<
        Expr,
        IdentOverflow,
    >)
        requires
            match a.body {
                ArrowBody::Block(b) => {
                    &&& index_view(directive) == crate::directive::fn_directive(b@.stmts)
                    &&& directive is Some ==> directive->0 < b.stmts@.len()
                },
                ArrowBody::Expr(_) => true,
            },
        ensures
            match r {
                Ok(e) => (final(self)@, e@) == finish_arrow(old(self)@, a@),
                Err(_) => finish_arrow(old(self)@, a@).0.ident_cnt > u32::MAX,
            },
    {
        proof {
            reveal(finish_arrow);
            reveal(add_action);
        }
        let ghost s = self@;
        let n = self.ident_cnt;
        let name = self.next_name()?;
        let ident = Ident::new(name, Span::with_ctxt(Ctxt::Action(n)));
        let body = match a.body {
            ArrowBody::Block(b) => {
                assert(a@.body == ArrowBodyView::Block(b@));
                let block = Block { origin: b.origin, stmts: remove_stmt(b.stmts, directive) };
                assert(block@.stmts == without(
                    b@.stmts,
                    crate::directive::fn_directive(b@.stmts),
                ));
                ArrowBody::Block(block)
            },
            ArrowBody::Expr(e) => {
                assert(a@.body == ArrowBodyView::Expr(Box::new(e@)));
                ArrowBody::Expr(e)
            },
        };
        let stripped = ArrowExpr {
            origin: a.origin,
            span: a.span,
            params: a.params,
            body,
            is_async: a.is_async,
            is_generator: a.is_generator,
        };
        let c = self.add_action_annotations_and_maybe_hoist(&ident, Callable::Arrow(stripped))?;
        match c {
            Callable::Arrow(arrow) => Ok(
                crate::annotate::attach_name_to_arrow(ident, arrow, &mut self.extra_items),
            ),
            Callable::Function(_) => {
                assert(false);
                Err(IdentOverflow)
            },
        }
    }
}

} // verus!
