//! Identifiers, and the dotted names that expressions spell.

use vstd::prelude::*;

use crate::ast::{Ctxt, Expr, Ident, Member, Origin, Span};
use crate::model::{ExprView, IdView, IdentView, MemberView};

verus! {

/// What tells two bindings apart: the text and the hygiene context.
#[derive(PartialEq, Eq, Debug)]
pub struct Id {
    pub sym: String,
    pub ctxt: Ctxt,
}

/// A dotted name such as `a.b?.c`: the binding of `a`, then for each further
/// part its text and whether it follows a plain dot (and not `?.`).
#[derive(PartialEq, Eq, Debug)]
pub struct Name {
    pub id: Id,
    pub props: Vec<(String, bool)>,
}

/// A dotted name.
pub ghost struct NameView {
    pub id: IdView,
    pub props: Seq<(Seq<char>, bool)>,
}

impl NameView {
    /// The name with one more part.
    pub open spec fn dot(self, prop: Seq<char>, is_member: bool) -> NameView {
        NameView { id: self.id, props: self.props.push((prop, is_member)) }
    }
}

impl Id {
    pub open spec fn view(&self) -> IdView {
        IdView { sym: self.sym@, ctxt: self.ctxt }
    }

    /// Whether two bindings are the same.
    pub fn equals(&self, other: &Id) -> (r: bool)
        ensures
            r == (self@ == other@),
    {
        self.sym == other.sym && self.ctxt == other.ctxt
    }
}

impl Clone for Id {
    fn clone(&self) -> (r: Self)
        ensures
            r@ == self@,
    {
        Id { sym: self.sym.clone(), ctxt: self.ctxt }
    }
}

/// The views of a list of bindings.
pub open spec fn ids_view(v: Seq<Id>) -> Seq<IdView> {
    Seq::new(v.len(), |i: int| v[i]@)
}

/// The views of the parts of a name.
pub open spec fn props_view(v: Seq<(String, bool)>) -> Seq<(Seq<char>, bool)> {
    Seq::new(v.len(), |i: int| (v[i].0@, v[i].1))
}

/// The views of a list of names.
pub open spec fn names_view(v: Seq<Name>) -> Seq<NameView> {
    Seq::new(v.len(), |i: int| v[i]@)
}

/// A new identifier.
pub open spec fn new_ident(sym: Seq<char>, span: Span) -> IdentView {
    IdentView { sym, span, optional: false }
}

/// A new identifier for a known binding.
pub open spec fn ident_of_id(id: IdView) -> IdentView {
    new_ident(id.sym, Span::with_ctxt(id.ctxt))
}

impl Ident {
    /// A new identifier.
    pub fn new(sym: String, span: Span) -> (r: Ident)
        ensures
            r@ == new_ident(sym@, span),
    {
        Ident { sym, span, optional: false }
    }

    /// A new identifier for a known binding.
    pub fn from_id(id: &Id) -> (r: Ident)
        ensures
            r@ == ident_of_id(id@),
    {
        Ident::new(id.sym.clone(), Span::with_ctxt(id.ctxt))
    }

    /// The binding that the identifier refers to.
    pub fn to_id(&self) -> (r: Id)
        ensures
            r@ == self@.id(),
    {
        Id { sym: self.sym.clone(), ctxt: self.span.ctxt }
    }
}

impl Clone for Ident {
    fn clone(&self) -> (r: Self)
        ensures
            r@ == self@,
    {
        Ident { sym: self.sym.clone(), span: self.span, optional: self.optional }
    }
}

/// The dotted name that an expression spells, if it spells one.
pub open spec fn name_of(e: ExprView) -> Option<NameView>
    decreases e,
{
    match e {
        ExprView::Ident(i) => Some(NameView { id: i.id(), props: Seq::empty() }),
        ExprView::Member(m) => match name_of(*m.obj) {
            Some(n) => Some(n.dot(m.prop.sym, true)),
            None => None,
        },
        ExprView::OptMember(m) => match name_of(*m.obj) {
            Some(n) => Some(n.dot(m.prop.sym, false)),
            None => None,
        },
        _ => None,
    }
}

/// An access to a part of a value, made by the pass.
pub open spec fn access(obj: ExprView, prop: Seq<char>, is_member: bool) -> ExprView {
    let m = MemberView {
        origin: Origin::Synthetic,
        obj: Box::new(obj),
        prop: new_ident(prop, Span::dummy()),
    };
    if is_member {
        ExprView::Member(m)
    } else {
        ExprView::OptMember(m)
    }
}

/// The accesses to the given parts, one after the other.
pub open spec fn accesses(obj: ExprView, props: Seq<(Seq<char>, bool)>) -> ExprView
    decreases props.len(),
{
    if props.len() == 0 {
        obj
    } else {
        access(accesses(obj, props.drop_last()), props.last().0, props.last().1)
    }
}

/// The expression that spells a name.
pub open spec fn expr_of(n: NameView) -> ExprView {
    accesses(ExprView::Ident(ident_of_id(n.id)), n.props)
}

impl Name {
    pub open spec fn view(&self) -> NameView {
        NameView { id: self.id@, props: props_view(self.props@) }
    }

    /// The name of a plain identifier.
    pub fn of_ident(ident: &Ident) -> (r: Name)
        ensures
            r@ == (NameView { id: ident@.id(), props: Seq::empty() }),
    {
        let r = Name { id: ident.to_id(), props: Vec::new() };
        assert(r@.props =~= Seq::empty());
        r
    }

    /// The name with one more part.
    fn dot(self, prop: String, is_member: bool) -> (r: Name)
        ensures
            r@ == self@.dot(prop@, is_member),
    {
        let ghost old_props = props_view(self.props@);
        let mut props = self.props;
        props.push((prop, is_member));
        assert(props_view(props@) =~= old_props.push((prop@, is_member)));
        Name { id: self.id, props }
    }

    /// The dotted name that an expression spells. Anything but identifiers and
    /// accesses by a plain name is refused.
    pub fn try_from(value: &Expr) -> (r: Result<Name, ()>)
        ensures
            match r {
                Ok(n) => name_of(value@) == Some(n@),
                Err(_) => name_of(value@) is None,
            },
        decreases value,
    {
        match value {
            Expr::Ident(i) => Ok(Name::of_ident(i)),
            Expr::Member(m) => {
                assert(m@.prop == m.prop@);
                match Name::try_from(&m.obj) {
                    Ok(n) => Ok(n.dot(m.prop.sym.clone(), true)),
                    Err(e) => Err(e),
                }
            },
            Expr::OptMember(m) => {
                assert(m@.prop == m.prop@);
                match Name::try_from(&m.obj) {
                    Ok(n) => Ok(n.dot(m.prop.sym.clone(), false)),
                    Err(e) => Err(e),
                }
            },
            _ => Err(()),
        }
    }

    /// Whether two names are the same, part by part.
    pub fn equals(&self, other: &Name) -> (r: bool)
        ensures
            r == (self@ == other@),
    {
        if !self.id.equals(&other.id) || self.props.len() != other.props.len() {
            assert(self@.props.len() == self.props.len() && other@.props.len()
                == other.props.len());
            return false;
        }
        for i in 0..self.props.len()
            invariant
                self.props.len() == other.props.len(),
                forall|j: int| 0 <= j < i ==> self@.props[j] == other@.props[j],
        {
            if self.props[i].0 != other.props[i].0 || self.props[i].1 != other.props[i].1 {
                assert(self@.props[i as int] != other@.props[i as int]);
                return false;
            }
        }
        assert(self@.props =~= other@.props);
        true
    }
}

impl Clone for Name {
    fn clone(&self) -> (r: Self)
        ensures
            r@ == self@,
    {
        let mut props: Vec<(String, bool)> = Vec::new();
        for i in 0..self.props.len()
            invariant
                props.len() == i,
                forall|j: int|
                    0 <= j < i ==> props_view(props@)[j] == props_view(self.props@)[j],
        {
            let ghost before = props@;
            props.push((self.props[i].0.clone(), self.props[i].1));
            assert forall|j: int| 0 <= j < i + 1 implies props_view(props@)[j] == props_view(
                self.props@,
            )[j] by {
                if j < i {
                    assert(props_view(before)[j] == props_view(self.props@)[j]);
                }
            }
        }
        assert(props_view(props@) =~= props_view(self.props@));
        Name { id: self.id.clone(), props }
    }
}

impl Expr {
    /// An access to a part of a value.
    pub fn access(obj: Expr, prop: String, is_member: bool) -> (r: Expr)
        ensures
            r@ == access(obj@, prop@, is_member),
    {
        let m = Member {
            origin: Origin::Synthetic,
            obj: Box::new(obj),
            prop: Ident::new(prop, Span::dummy()),
        };
        assert(m@.prop == m.prop@);
        if is_member {
            Expr::Member(m)
        } else {
            Expr::OptMember(m)
        }
    }

    /// The expression that spells a name.
    pub fn from(value: &Name) -> (r: Expr)
        ensures
            r@ == expr_of(value@),
    {
        let mut expr = Expr::Ident(Ident::from_id(&value.id));
        let ghost root = expr@;
        for i in 0..value.props.len()
            invariant
                expr@ == accesses(root, value@.props.take(i as int)),
        {
            assert(value@.props.take(i + 1).drop_last() =~= value@.props.take(i as int));
            expr = Expr::access(expr, value.props[i].0.clone(), value.props[i].1);
        }
        assert(value@.props.take(value.props.len() as int) =~= value@.props);
        expr
    }
}

/// The expression that spells a name spells just that name.
pub proof fn name_of_expr_of(n: NameView)
    ensures
        name_of(expr_of(n)) == Some(n),
{
    name_of_accesses(ident_of_id(n.id), n.props);
}

proof fn name_of_accesses(i: IdentView, props: Seq<(Seq<char>, bool)>)
    ensures
        name_of(accesses(ExprView::Ident(i), props)) == Some(NameView { id: i.id(), props }),
    decreases props.len(),
{
    if props.len() != 0 {
        name_of_accesses(i, props.drop_last());
        assert(props.drop_last().push(props.last()) =~= props);
    } else {
        assert(props =~= Seq::empty());
    }
}

/// The name of a plain identifier.
pub open spec fn ident_name(i: IdentView) -> NameView {
    NameView { id: i.id(), props: Seq::empty() }
}

} // verus!
