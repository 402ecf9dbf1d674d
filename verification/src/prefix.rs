//! Lists of which one is the beginning of the other.

use vstd::prelude::*;

verus! {

/// The first list is the beginning of the second.
#[verifier::opaque]
pub open spec fn prefix<A>(a: Seq<A>, b: Seq<A>) -> bool {
    &&& a.len() <= b.len()
    &&& forall|i: int| 0 <= i < a.len() ==> a[i] == #[trigger] b[i]
}

pub broadcast proof fn prefix_refl<A>(a: Seq<A>)
    ensures
        #[trigger] prefix(a, a),
{
    reveal(prefix);
}

pub broadcast proof fn prefix_push<A>(a: Seq<A>, x: A)
    ensures
        #[trigger] prefix(a, a.push(x)),
{
    reveal(prefix);
}

pub broadcast proof fn prefix_add<A>(a: Seq<A>, b: Seq<A>)
    ensures
        #[trigger] prefix(a, a + b),
{
    reveal(prefix);
}

pub proof fn prefix_trans<A>(a: Seq<A>, b: Seq<A>, c: Seq<A>)
    requires
        prefix(a, b),
        prefix(b, c),
    ensures
        prefix(a, c),
{
    reveal(prefix);
    assert forall|i: int| 0 <= i < a.len() implies a[i] == #[trigger] c[i] by {
        assert(b[i] == a[i]);
    }
}

pub broadcast group group_prefix {
    prefix_refl,
    prefix_push,
    prefix_add,
}

} // verus!
