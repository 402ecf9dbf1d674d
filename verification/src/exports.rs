//! The exports of a `"use server"` file.

use vstd::prelude::*;

use crate::annotate::{annotate_ident_as_action, declare_name};
use crate::ast::{
    declarators_view, exprs_view, items_view, opt_ident_view, specifiers_view, stmts_view, Decl,
    Declarator, DefaultDecl, ExportName, ExportSpecifier, Expr, Ident, ModuleItem, Span, Stmt,
};
use crate::bindings::collect_idents_in_var_decls;
use crate::model::{DeclView, DefaultDeclView, ModuleItemView};
use crate::names::{ids_view, Id};
use crate::state::{
    exports_view, Comment, CommentView, IdentOverflow, Problem, ServerActions, State,
};
use crate::text::{join, texts_view};
use crate::transform::{
    as_items, default_name, disallow, entry_comment, export, export_annotations,
    export_named_default, exportable_init, exported_names, flush, leave_items, note_exports,
    own_names, plain_action_ident, specifier_export, specifier_exports, take_ident,
};

verus! {

/// Whether all variables may be exported.
fn all_exportable(decls: &Vec<Declarator>) -> (r: bool)
    ensures
        r == (forall|i: int|
            0 <= i < decls@.len() ==> exportable_init(
                #[trigger] declarators_view(decls@)[i].init,
            )),
{
    let ghost views = declarators_view(decls@);
    for i in 0..decls.len()
        invariant
            views == declarators_view(decls@),
            forall|j: int| 0 <= j < i ==> exportable_init(#[trigger] views[j].init),
    {
        assert(views[i as int] == decls[i as int]@);
        let exportable = match &decls[i].init {
            Some(init) => match &**init {
                Expr::Fn(_) => true,
                Expr::Arrow(a) => {
                    assert(a@.is_async == a.is_async);
                    a.is_async
                },
                _ => false,
            },
            None => false,
        };
        assert(exportable == exportable_init(views[i as int].init));
        if !exportable {
            return false;
        }
    }
    true
}

/// The export that an entry of a named export makes, if it may be exported.
fn export_of_specifier(spec: &ExportSpecifier) -> (r: Option<(Id, String)>)
    ensures
        match r {
            Some(e) => specifier_export(spec@) == Some((e.0@, e.1@)),
            None => specifier_export(spec@) is None,
        },
{
    match spec {
        ExportSpecifier::Named(ExportName::Ident(ident), exported) => {
            match exported {
                // export { foo as bar }
                Some(ExportName::Ident(name)) => Some((ident.to_id(), name.sym.clone())),
                // export { foo as "bar" }
                Some(ExportName::Str(name)) => Some((ident.to_id(), name.clone())),
                // export { foo }
                None => Some((ident.to_id(), ident.sym.clone())),
            }
        },
        _ => None,
    }
}

/// Appends the annotations of exports.
fn push_export_annotations(
    annotations: &mut Vec<Stmt>,
    file_name: &str,
    exports: &Vec<(Id, String)>,
)
    ensures
        stmts_view(final(annotations)@) == stmts_view(old(annotations)@) + export_annotations(
            file_name@,
            exports_view(exports@),
        ),
{
    let ghost before = stmts_view(annotations@);
    let ghost views = exports_view(exports@);
    assert(before =~= before + export_annotations(file_name@, views.take(0)));
    for i in 0..exports.len()
        invariant
            views == exports_view(exports@),
            stmts_view(annotations@) == before + export_annotations(
                file_name@,
                views.take(i as int),
            ),
    {
        assert(views.take(i + 1).drop_last() =~= views.take(i as int));
        let ident = Ident::from_id(&exports[i].0);
        let bound: Vec<Expr> = Vec::new();
        assert(exprs_view(bound@) =~= Seq::empty());
        annotate_ident_as_action(annotations, &ident, bound, file_name, exports[i].1.as_str());
        assert(stmts_view(annotations@) =~= before + export_annotations(
            file_name@,
            views.take(i + 1),
        ));
    }
    assert(views.take(views.len() as int) =~= views);
}

impl ServerActions {
    /// Records an export.
    fn export(&mut self, id: Id, name: String)
        ensures
            final(self)@ == export(old(self)@, id@, name@),
    {
        self.exported_idents.push((id, name));
        assert(self@.exported_idents =~= old(self)@.exported_idents.push((id@, name@)));
    }

    /// Reports an export that is not allowed.
    fn disallow(&mut self, span: Span)
        ensures
            final(self)@ == disallow(old(self)@, span),
    {
        if span != Span::dummy() {
            self.report(span, Problem::DisallowedExport);
        }
    }

    /// Records exports of bindings under their own names.
    fn export_own_names(&mut self, ids: Vec<Id>)
        ensures
            final(self)@ == (State {
                exported_idents: old(self)@.exported_idents + own_names(ids_view(ids@)),
                ..old(self)@
            }),
    {
        let ghost s = self@;
        let ghost all = own_names(ids_view(ids@));
        assert(s.exported_idents =~= s.exported_idents + all.take(0));
        for i in 0..ids.len()
            invariant
                all == own_names(ids_view(ids@)),
                self@ == (State { exported_idents: s.exported_idents + all.take(i as int), ..s }),
        {
            let ghost before = self@;
            self.export(ids[i].clone(), ids[i].sym.clone());
            assert(self@.exported_idents =~= s.exported_idents + all.take(i + 1));
        }
        assert(all.take(all.len() as int) =~= all);
    }

    /// Records the exports of the entries of a named export, and says whether
    /// all of them are allowed.
    fn export_specifiers(&mut self, specs: &Vec<ExportSpecifier>) -> (allowed: bool)
        ensures
            final(self)@ == (State {
                exported_idents: old(self)@.exported_idents + specifier_exports(
                    specifiers_view(specs@),
                ),
                ..old(self)@
            }),
            allowed == (forall|i: int|
                0 <= i < specs@.len() ==> specifier_export(
                    #[trigger] specifiers_view(specs@)[i],
                ) is Some),
    {
        let ghost s = self@;
        let ghost views = specifiers_view(specs@);
        let mut allowed = true;
        assert(s.exported_idents =~= s.exported_idents + specifier_exports(views.take(0)));
        for i in 0..specs.len()
            invariant
                views == specifiers_view(specs@),
                self@ == (State {
                    exported_idents: s.exported_idents + specifier_exports(views.take(i as int)),
                    ..s
                }),
                allowed == (forall|j: int|
                    0 <= j < i ==> specifier_export(#[trigger] views[j]) is Some),
        {
            assert(views.take(i + 1).drop_last() =~= views.take(i as int));
            assert(views[i as int] == specs[i as int]@);
            match export_of_specifier(&specs[i]) {
                Some((id, name)) => {
                    self.export(id, name);
                    assert(self@.exported_idents =~= s.exported_idents + specifier_exports(
                        views.take(i + 1),
                    ));
                },
                None => {
                    allowed = false;
                },
            }
        }
        assert(views.take(views.len() as int) =~= views);
        allowed
    }

    /// Records the default export of a function. Returns the identifier that
    /// one without a name is given.
    fn export_default_name(&mut self, ident: &Option<Ident>) -> (r: Result<
        Option<Ident>,
        IdentOverflow,
    >)
        ensures
            match (r, opt_ident_view(*ident)) {
                (Ok(name), Some(i)) => name is None && final(self)@ == export(
                    old(self)@,
                    i.id(),
                    "default"@,
                ),
                (Ok(name), None) => {
                    &&& opt_ident_view(name) == Some(plain_action_ident(old(self)@))
                    &&& final(self)@ == export(
                        take_ident(old(self)@),
                        plain_action_ident(old(self)@).id(),
                        "default"@,
                    )
                },
                (Err(_), i) => i is None && old(self)@.ident_cnt == u32::MAX,
            },
    {
        match ident {
            Some(i) => {
                self.export(i.to_id(), "default".to_string());
                Ok(None)
            },
            None => {
                let new_ident = Ident::new(self.next_name()?, Span::dummy());
                self.export(new_ident.to_id(), "default".to_string());
                Ok(Some(new_ident))
            },
        }
    }

    /// Records a default export that is assigned to a variable of its own, and
    /// declares that variable. Returns its identifier.
    fn export_named_default(&mut self) -> (r: Result<Option<Ident>, IdentOverflow>)
        ensures
            match r {
                Ok(name) => {
                    &&& opt_ident_view(name) == Some(plain_action_ident(old(self)@))
                    &&& final(self)@ == export_named_default(old(self)@)
                },
                Err(_) => old(self)@.ident_cnt == u32::MAX,
            },
    {
        let new_ident = Ident::new(self.next_name()?, Span::dummy());
        self.export(new_ident.to_id(), "default".to_string());
        declare_name(new_ident.clone(), &mut self.extra_items);
        Ok(Some(new_ident))
    }

    /// Records the exports of an item of a `"use server"` file, and reports
    /// what may not be exported. Returns the identifier that a default export
    /// without a name is given.
    pub fn note_exports(&mut self, item: &ModuleItem) -> (r: Result<Option<Ident>, IdentOverflow>)
        ensures
            match r {
                Ok(ident) => {
                    &&& final(self)@ == note_exports(old(self)@, item@)
                    &&& opt_ident_view(ident) == default_name(old(self)@, item@)
                },
                Err(_) => note_exports(old(self)@, item@).ident_cnt > u32::MAX,
            },
    {
        proof {
            reveal(note_exports);
        }
        match item {
            ModuleItem::ExportDecl(span, decl) => {
                match decl {
                    Decl::Fn(f) => {
                        assert(item@ == ModuleItemView::ExportDecl(*span, decl@));
                        assert(decl@ == DeclView::Fn(f@));
                        // export function foo() {}
                        self.export(f.ident.to_id(), f.ident.sym.clone());
                    },
                    Decl::Var(var) => {
                        assert(decl@ == DeclView::Var(var@));
                        assert(var@.decls == declarators_view(var.decls@));
                        // export const foo = 1
                        self.export_own_names(collect_idents_in_var_decls(&var.decls));
                        if !all_exportable(&var.decls) {
                            self.disallow(*span);
                        }
                    },
                    Decl::Other(o) => {
                        assert(decl@ == DeclView::Other(o@));
                        self.disallow(*span);
                    },
                }
                Ok(None)
            },
            ModuleItem::ExportNamed(named) => {
                assert(named@.specifiers == specifiers_view(named.specifiers@));
                if named.has_src {
                    self.disallow(named.span);
                } else if !self.export_specifiers(&named.specifiers) {
                    self.disallow(named.span);
                }
                Ok(None)
            },
            ModuleItem::ExportDefaultDecl(span, decl) => {
                match decl {
                    DefaultDecl::Fn(f) => {
                        assert(decl@ == DefaultDeclView::Fn(f@));
                        assert(f@.ident == opt_ident_view(f.ident));
                        // export default function foo() {}
                        self.export_default_name(&f.ident)
                    },
                    DefaultDecl::Other(o) => {
                        assert(decl@ == DefaultDeclView::Other(o@));
                        self.disallow(*span);
                        Ok(None)
                    },
                }
            },
            ModuleItem::ExportDefaultExpr(span, expr) => {
                match &**expr {
                    // A function expression. Its own name is not bound here.
                    Expr::Fn(_) => self.export_named_default(),
                    Expr::Arrow(arrow) => {
                        assert(arrow@.is_async == arrow.is_async);
                        if !arrow.is_async {
                            self.disallow(*span);
                            Ok(None)
                        } else {
                            // export default async () => {}
                            self.export_named_default()
                        }
                    },
                    Expr::Ident(ident) => {
                        // export default foo
                        self.export(ident.to_id(), "default".to_string());
                        Ok(None)
                    },
                    _ => {
                        self.disallow(*span);
                        Ok(None)
                    },
                }
            },
            ModuleItem::ExportAll(span, _) => {
                self.disallow(*span);
                Ok(None)
            },
            ModuleItem::Stmt(_) => Ok(None),
            ModuleItem::Other(_) => Ok(None),
        }
    }

    /// Puts everything that belongs behind the current item there.
    pub fn flush(&mut self, items: &mut Vec<ModuleItem>)
        ensures
            (final(self)@, items_view(final(items)@)) == flush(old(self)@, items_view(old(items)@)),
    {
        let ghost s = self@;
        let ghost before = items_view(items@);
        let mut annotations: Vec<Stmt> = Vec::new();
        annotations.append(&mut self.annotations);
        let ghost stmts = annotations@;
        assert(stmts_view(stmts) =~= s.annotations);
        assert(before =~= before + as_items(s.annotations).take(0));
        for stmt in it: annotations
            invariant
                it.seq() == stmts,
                stmts_view(stmts) == s.annotations,
                items_view(items@) == before + as_items(s.annotations).take(it.index()),
        {
            let ghost i = it.index();
            let ghost prev = items_view(items@);
            items.push(ModuleItem::Stmt(stmt));
            assert(items_view(items@) =~= prev.push(ModuleItemView::Stmt(stmt@)));
            assert(as_items(s.annotations)[i] == ModuleItemView::Stmt(stmt@));
            assert(items_view(items@) =~= before + as_items(s.annotations).take(i + 1));
        }
        assert(as_items(s.annotations).take(s.annotations.len() as int) =~= as_items(
            s.annotations,
        ));
        let ghost prev = items@;
        let ghost extra = self.extra_items@;
        items.append(&mut self.extra_items);
        assert(items_view(items@) =~= items_view(prev) + items_view(extra));
        assert(self@.annotations =~= Seq::empty());
        assert(self@.extra_items =~= Seq::empty());
    }

    /// Annotates all exports of a `"use server"` file.
    fn annotate_exports(&mut self)
        ensures
            final(self)@ == (State {
                annotations: old(self)@.annotations + export_annotations(
                    old(self)@.file_name,
                    old(self)@.exported_idents,
                ),
                ..old(self)@
            }),
    {
        push_export_annotations(
            &mut self.annotations,
            self.file_name.as_str(),
            &self.exported_idents,
        );
    }

    /// The text of the comment that lists the actions of the module.
    fn make_entry_comment(&self) -> (text: String)
        ensures
            text@ == entry_comment(self@),
    {
        let list = if self.in_action_file {
            let mut names: Vec<String> = Vec::new();
            for i in 0..self.exported_idents.len()
                invariant
                    names.len() == i,
                    forall|j: int|
                        0 <= j < i ==> (#[trigger] names[j])@ == self@.exported_idents[j].1,
            {
                names.push(self.exported_idents[i].1.clone());
            }
            assert(texts_view(names@) =~= exported_names(self@.exported_idents));
            join(&names, ",")
        } else {
            join(&self.export_actions, ",")
        };
        " __next_internal_action_entry_do_not_use__ ".to_string().concat(list.as_str()).concat(" ")
    }

    /// Ends the walk over the items of a module.
    pub fn leave_items(&mut self, outer_annotations: Vec<Stmt>, items: Vec<ModuleItem>) -> (r: Vec<
        ModuleItem,
    >)
        ensures
            (final(self)@, items_view(r@)) == leave_items(
                old(self)@,
                stmts_view(outer_annotations@),
                items_view(items@),
            ),
    {
        proof {
            reveal(leave_items);
        }
        let mut items = items;
        if self.in_action_file {
            self.annotate_exports();
            self.flush(&mut items);
        }
        self.annotations = outer_annotations;
        if self.has_action {
            let ghost s = self@;
            let text = self.make_entry_comment();
            self.comments.push(Comment { pos: self.start_pos, text });
            assert(self@.comments =~= s.comments.push(
                CommentView { pos: s.start_pos, text: entry_comment(s) },
            ));
        }
        items
    }
}

} // verus!
