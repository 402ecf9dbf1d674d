//! The names that patterns and declarations bind.

use vstd::prelude::*;

use crate::ast::{
    declarators_view, pat_forms_view, pat_props_view, Decl, Declarator, PatForm, PatProp, Stmt,
};
use crate::model::{DeclView, DeclaratorView, IdView, PatFormView, PatPropView, StmtView};
use crate::names::{ids_view, Id};

verus! {

/// What an identifier, array or object pattern binds.
pub open spec fn idents_in_pat(p: PatFormView) -> Seq<IdView>
    decreases p, 0int,
{
    match p {
        PatFormView::Ident(i) => seq![i.id()],
        PatFormView::Array(elems) => idents_in_array_pat(elems),
        PatFormView::Object(props) => idents_in_object_pat(props),
        _ => Seq::empty(),
    }
}

/// What a rest element binds; only a plain name counts.
pub open spec fn idents_in_rest(arg: PatFormView) -> Seq<IdView> {
    match arg {
        PatFormView::Ident(i) => seq![i.id()],
        _ => Seq::empty(),
    }
}

/// What an element of an array pattern or a parameter binds.
pub open spec fn idents_in_element(p: PatFormView) -> Seq<IdView>
    decreases p, 1int,
{
    match p {
        PatFormView::Rest(arg) => idents_in_rest(*arg),
        _ => idents_in_pat(p),
    }
}

/// What the elements of an array pattern bind, from left to right.
pub open spec fn idents_in_array_pat(elems: Seq<Option<PatFormView>>) -> Seq<IdView>
    decreases elems, 2int,
{
    if elems.len() == 0 {
        Seq::empty()
    } else {
        idents_in_array_pat(elems.drop_last()) + match elems.last() {
            Some(p) => idents_in_element(p),
            None => Seq::empty(),
        }
    }
}

/// What a property of an object pattern binds. A plain key counts as well.
pub open spec fn idents_in_pat_prop(prop: PatPropView) -> Seq<IdView>
    decreases prop, 1int,
{
    match prop {
        PatPropView::KeyValue(Some(key), value) => seq![key.id()] + idents_in_pat(*value),
        PatPropView::KeyValue(None, value) => idents_in_pat(*value),
        PatPropView::Assign(key) => seq![key.id()],
        PatPropView::Rest(arg) => idents_in_rest(*arg),
    }
}

/// What the properties of an object pattern bind, from left to right.
pub open spec fn idents_in_object_pat(props: Seq<PatPropView>) -> Seq<IdView>
    decreases props, 2int,
{
    if props.len() == 0 {
        Seq::empty()
    } else {
        idents_in_object_pat(props.drop_last()) + idents_in_pat_prop(props.last())
    }
}

/// What the variables of a declaration bind, from left to right.
pub open spec fn idents_in_var_decls(decls: Seq<DeclaratorView>) -> Seq<IdView>
    decreases decls.len(),
{
    if decls.len() == 0 {
        Seq::empty()
    } else {
        idents_in_var_decls(decls.drop_last()) + idents_in_pat(decls.last().name.form)
    }
}

/// What a statement binds if it is a variable declaration.
pub open spec fn idents_in_stmt(stmt: StmtView) -> Seq<IdView> {
    match stmt {
        StmtView::Decl(DeclView::Var(var)) => idents_in_var_decls(var.decls),
        _ => Seq::empty(),
    }
}

/// Appends a binding.
fn push_id(ids: &mut Vec<Id>, id: Id)
    ensures
        ids_view(final(ids)@) == ids_view(old(ids)@) + seq![id@],
{
    ids.push(id);
    assert(ids_view(ids@) =~= ids_view(old(ids)@) + seq![id@]);
}

/// Appends bindings.
pub fn append_ids(ids: &mut Vec<Id>, more: Vec<Id>)
    ensures
        ids_view(final(ids)@) == ids_view(old(ids)@) + ids_view(more@),
{
    let ghost added = more@;
    let mut more = more;
    ids.append(&mut more);
    assert(ids_view(ids@) =~= ids_view(old(ids)@) + ids_view(added));
}

/// Keeps the first bindings.
pub fn keep_ids(ids: &mut Vec<Id>, count: usize)
    requires
        count <= old(ids)@.len(),
    ensures
        ids_view(final(ids)@) == ids_view(old(ids)@).take(count as int),
{
    ids.truncate(count);
    assert(ids_view(ids@) =~= ids_view(old(ids)@).take(count as int));
}

/// Collects what an identifier, array or object pattern binds.
fn collect_idents_in_pat(pat: &PatForm) -> (ids: Vec<Id>)
    ensures
        ids_view(ids@) == idents_in_pat(pat@),
    decreases pat, 0int,
{
    match pat {
        PatForm::Ident(ident) => {
            let mut ids: Vec<Id> = Vec::new();
            push_id(&mut ids, ident.to_id());
            assert(ids_view(ids@) =~= seq![ident@.id()]);
            ids
        },
        PatForm::Array(elems) => collect_idents_in_array_pat(elems),
        PatForm::Object(props) => collect_idents_in_object_pat(props),
        _ => {
            let ids: Vec<Id> = Vec::new();
            assert(ids_view(ids@) =~= Seq::empty());
            ids
        },
    }
}

/// Collects what a rest element binds.
fn collect_idents_in_rest(arg: &PatForm) -> (ids: Vec<Id>)
    ensures
        ids_view(ids@) == idents_in_rest(arg@),
{
    let mut ids: Vec<Id> = Vec::new();
    assert(ids_view(ids@) =~= Seq::empty());
    if let PatForm::Ident(ident) = arg {
        push_id(&mut ids, ident.to_id());
        assert(ids_view(ids@) =~= seq![ident@.id()]);
    }
    ids
}

/// Collects what an element of an array pattern or a parameter binds.
pub fn collect_idents_in_element(pat: &PatForm) -> (ids: Vec<Id>)
    ensures
        ids_view(ids@) == idents_in_element(pat@),
    decreases pat, 1int,
{
    match pat {
        PatForm::Rest(arg) => collect_idents_in_rest(arg),
        _ => collect_idents_in_pat(pat),
    }
}

/// Collects what the elements of an array pattern bind.
pub fn collect_idents_in_array_pat(elems: &Vec<Option<PatForm>>) -> (ids: Vec<Id>)
    ensures
        ids_view(ids@) == idents_in_array_pat(pat_forms_view(elems@)),
    decreases elems, 2int,
{
    let ghost views = pat_forms_view(elems@);
    let mut ids: Vec<Id> = Vec::new();
    assert(ids_view(ids@) =~= Seq::empty());
    for i in 0..elems.len()
        invariant
            views == pat_forms_view(elems@),
            ids_view(ids@) == idents_in_array_pat(views.take(i as int)),
    {
        assert(views.take(i + 1).drop_last() =~= views.take(i as int));
        match &elems[i] {
            Some(p) => {
                append_ids(&mut ids, collect_idents_in_element(p));
            },
            None => {
                assert(ids_view(ids@) =~= ids_view(ids@) + Seq::empty());
            },
        }
    }
    assert(views.take(views.len() as int) =~= views);
    ids
}

/// Collects what a property of an object pattern binds.
fn collect_idents_in_pat_prop(prop: &PatProp) -> (ids: Vec<Id>)
    ensures
        ids_view(ids@) == idents_in_pat_prop(prop@),
    decreases prop, 1int,
{
    match prop {
        PatProp::KeyValue(key, value) => {
            let mut ids: Vec<Id> = Vec::new();
            assert(ids_view(ids@) =~= Seq::empty());
            if let Some(ident) = key {
                push_id(&mut ids, ident.to_id());
                assert(ids_view(ids@) =~= seq![ident@.id()]);
            }
            append_ids(&mut ids, collect_idents_in_pat(value));
            assert(Seq::empty() + idents_in_pat(value@) =~= idents_in_pat(value@));
            ids
        },
        PatProp::Assign(key) => {
            let mut ids: Vec<Id> = Vec::new();
            push_id(&mut ids, key.to_id());
            assert(ids_view(ids@) =~= seq![key@.id()]);
            ids
        },
        PatProp::Rest(arg) => collect_idents_in_rest(arg),
    }
}

/// Collects what the properties of an object pattern bind.
pub fn collect_idents_in_object_pat(props: &Vec<PatProp>) -> (ids: Vec<Id>)
    ensures
        ids_view(ids@) == idents_in_object_pat(pat_props_view(props@)),
    decreases props, 2int,
{
    let ghost views = pat_props_view(props@);
    let mut ids: Vec<Id> = Vec::new();
    assert(ids_view(ids@) =~= Seq::empty());
    for i in 0..props.len()
        invariant
            views == pat_props_view(props@),
            ids_view(ids@) == idents_in_object_pat(views.take(i as int)),
    {
        assert(views.take(i + 1).drop_last() =~= views.take(i as int));
        append_ids(&mut ids, collect_idents_in_pat_prop(&props[i]));
    }
    assert(views.take(views.len() as int) =~= views);
    ids
}

/// Collects what the variables of a declaration bind.
pub fn collect_idents_in_var_decls(decls: &Vec<Declarator>) -> (ids: Vec<Id>)
    ensures
        ids_view(ids@) == idents_in_var_decls(declarators_view(decls@)),
{
    let ghost views = declarators_view(decls@);
    let mut ids: Vec<Id> = Vec::new();
    assert(ids_view(ids@) =~= Seq::empty());
    for i in 0..decls.len()
        invariant
            views == declarators_view(decls@),
            ids_view(ids@) == idents_in_var_decls(views.take(i as int)),
    {
        assert(views.take(i + 1).drop_last() =~= views.take(i as int));
        append_ids(&mut ids, collect_idents_in_pat(&decls[i].name.form));
    }
    assert(views.take(views.len() as int) =~= views);
    ids
}

/// Collects what a statement binds if it is a variable declaration.
pub fn collect_idents_in_stmt(stmt: &Stmt) -> (ids: Vec<Id>)
    ensures
        ids_view(ids@) == idents_in_stmt(stmt@),
{
    if let Stmt::Decl(Decl::Var(var)) = stmt {
        collect_idents_in_var_decls(&var.decls)
    } else {
        let ids: Vec<Id> = Vec::new();
        assert(ids_view(ids@) =~= Seq::empty());
        ids
    }
}

} // verus!
