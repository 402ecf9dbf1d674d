//! What an action captures from the functions around it.

use vstd::prelude::*;

use crate::ast::{exprs_view, Expr};
use crate::model::{ExprView, IdView};
use crate::names::{expr_of, ids_view, names_view, Id, Name, NameView};

verus! {

/// The names that an action uses and whose root is bound in a function around
/// it, each once, in the order of first use.
pub open spec fn captured(used: Seq<NameView>, bound: Seq<IdView>) -> Seq<NameView>
    decreases used.len(),
{
    if used.len() == 0 {
        Seq::empty()
    } else {
        let earlier = captured(used.drop_last(), bound);
        if earlier.contains(used.last()) || !bound.contains(used.last().id) {
            earlier
        } else {
            earlier.push(used.last())
        }
    }
}

/// The expressions that spell a list of names.
pub open spec fn exprs_of(names: Seq<NameView>) -> Seq<ExprView> {
    Seq::new(names.len(), |i: int| expr_of(names[i]))
}

/// Whether a binding is in a list.
fn contains_id(ids: &Vec<Id>, id: &Id) -> (r: bool)
    ensures
        r == ids_view(ids@).contains(id@),
{
    for i in 0..ids.len()
        invariant
            forall|j: int| 0 <= j < i ==> ids_view(ids@)[j] != id@,
    {
        if ids[i].equals(id) {
            assert(ids_view(ids@)[i as int] == id@);
            return true;
        }
    }
    false
}

/// Whether a name is in a list.
fn contains_name(names: &Vec<Name>, name: &Name) -> (r: bool)
    ensures
        r == names_view(names@).contains(name@),
{
    for i in 0..names.len()
        invariant
            forall|j: int| 0 <= j < i ==> names_view(names@)[j] != name@,
    {
        if names[i].equals(name) {
            assert(names_view(names@)[i as int] == name@);
            return true;
        }
    }
    false
}

/// The names from an index on.
pub fn names_since(names: &Vec<Name>, start: usize) -> (r: Vec<Name>)
    ensures
        names_view(r@) == if start <= names@.len() {
            names_view(names@).skip(start as int)
        } else {
            Seq::empty()
        },
{
    let mut out: Vec<Name> = Vec::new();
    if start > names.len() {
        assert(names_view(out@) =~= Seq::empty());
        return out;
    }
    for i in start..names.len()
        invariant
            start <= i <= names.len(),
            out.len() == i - start,
            forall|j: int| 0 <= j < i - start ==> (#[trigger] out[j])@ == names[start + j]@,
    {
        out.push(names[i].clone());
    }
    assert(names_view(out@) =~= names_view(names@).skip(start as int));
    out
}

/// Two lists of bindings, one behind the other.
pub fn join_ids(first: &Vec<Id>, second: &Vec<Id>) -> (r: Vec<Id>)
    ensures
        ids_view(r@) == ids_view(first@) + ids_view(second@),
{
    let mut out: Vec<Id> = Vec::new();
    for i in 0..first.len()
        invariant
            out.len() == i,
            forall|j: int| 0 <= j < i ==> (#[trigger] out[j])@ == first[j]@,
    {
        out.push(first[i].clone());
    }
    for i in 0..second.len()
        invariant
            out.len() == first.len() + i,
            forall|j: int| 0 <= j < first.len() ==> (#[trigger] out[j])@ == first[j]@,
            forall|j: int|
                first.len() <= j < first.len() + i ==> (#[trigger] out[j])@ == second[j
                    - first.len()]@,
    {
        out.push(second[i].clone());
    }
    assert(ids_view(out@) =~= ids_view(first@) + ids_view(second@));
    out
}

/// The names that an action captures.
pub fn captured_names(action_idents: &Vec<Name>, closure_idents: &Vec<Id>) -> (r: Vec<Name>)
    ensures
        names_view(r@) == captured(names_view(action_idents@), ids_view(closure_idents@)),
{
    let ghost used = names_view(action_idents@);
    let mut ids: Vec<Name> = Vec::new();
    assert(names_view(ids@) =~= Seq::empty());
    for i in 0..action_idents.len()
        invariant
            used == names_view(action_idents@),
            names_view(ids@) == captured(used.take(i as int), ids_view(closure_idents@)),
    {
        let name = &action_idents[i];
        assert(used.take(i + 1).drop_last() =~= used.take(i as int));
        if !contains_name(&ids, name) && contains_id(closure_idents, &name.id) {
            let ghost before = names_view(ids@);
            ids.push(name.clone());
            assert(names_view(ids@) =~= before.push(name@));
        }
    }
    assert(used.take(used.len() as int) =~= used);
    ids
}

/// The expressions that spell a list of names.
pub fn spell_names(names: &Vec<Name>) -> (r: Vec<Expr>)
    ensures
        exprs_view(r@) == exprs_of(names_view(names@)),
{
    let mut exprs: Vec<Expr> = Vec::new();
    for i in 0..names.len()
        invariant
            exprs.len() == i,
            forall|j: int| 0 <= j < i ==> (#[trigger] exprs[j])@ == expr_of(names[j]@),
    {
        exprs.push(Expr::from(&names[i]));
    }
    assert(exprs_view(exprs@) =~= exprs_of(names_view(names@)));
    exprs
}

/// A name is captured just if the action uses it and a function around it
/// binds its root, and it is captured once.
pub proof fn captured_exactly(used: Seq<NameView>, bound: Seq<IdView>)
    ensures
        forall|n: NameView|
            #![trigger captured(used, bound).contains(n)]
            captured(used, bound).contains(n) <==> used.contains(n) && bound.contains(n.id),
        captured(used, bound).no_duplicates(),
    decreases used.len(),
{
    if used.len() != 0 {
        let init = used.drop_last();
        let last = used.last();
        captured_exactly(init, bound);
        let earlier = captured(init, bound);
        let all = captured(used, bound);
        assert forall|n: NameView| #![trigger all.contains(n)] all.contains(n) <==> used.contains(
            n,
        ) && bound.contains(n.id) by {
            assert(used =~= init.push(last));
            if used.contains(n) {
                let i = choose|i: int| 0 <= i < used.len() && used[i] == n;
                if i < init.len() {
                    assert(init[i] == n);
                    assert(init.contains(n));
                }
            }
            if init.contains(n) {
                let i = choose|i: int| 0 <= i < init.len() && init[i] == n;
                assert(used[i] == n);
            }
            assert(used[used.len() - 1] == last);
            assert(earlier.contains(n) <==> init.contains(n) && bound.contains(n.id));
            assert(earlier.contains(last) <==> init.contains(last) && bound.contains(last.id));
            if all.len() > earlier.len() {
                assert(all[earlier.len() as int] == last);
                if all.contains(n) {
                    let i = choose|i: int| 0 <= i < all.len() && all[i] == n;
                    if i < earlier.len() {
                        assert(earlier[i] == n);
                    }
                }
                if earlier.contains(n) {
                    let i = choose|i: int| 0 <= i < earlier.len() && earlier[i] == n;
                    assert(all[i] == n);
                }
            }
        }
    }
}

} // verus!
