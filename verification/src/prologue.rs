//! The string literals at the beginning of a body or a module.

use vstd::prelude::*;
use crate::directive::{
    directive_at, directive_index, directive_index_unique, directive_text, directive_texts,
    item_directive_text,
};
use crate::model::{ExprView, ModuleItemView, StmtView};
use crate::names::name_of;
use crate::state::{Scope, State};
use crate::transform::{
    collects_names, finish_arrow, finish_expr, use_name, visit_arrow, visit_expr,
    visit_expr_children, visit_item, visit_stmt, visit_stmt_children, visit_stmts,
    visit_stmts_in_turn,
};

verus! {

/// Two lists begin with the same `k` texts, and neither goes on with another
/// one.
pub open spec fn prologue_at(
    a: Seq<Option<Seq<char>>>,
    b: Seq<Option<Seq<char>>>,
    k: int,
) -> bool {
    &&& 0 <= k <= a.len()
    &&& k <= b.len()
    &&& k == a.len() <==> k == b.len()
    &&& k < a.len() ==> a[k] is None
    &&& k < b.len() ==> b[k] is None
    &&& forall|j: int| #![trigger a[j]] #![trigger b[j]] 0 <= j < k ==> a[j] == b[j] && a[j] is Some
}

/// Two lists begin with the same texts.
pub open spec fn same_prologue(a: Seq<Option<Seq<char>>>, b: Seq<Option<Seq<char>>>) -> bool {
    exists|k: int| prologue_at(a, b, k)
}

proof fn directive_moves(a: Seq<Option<Seq<char>>>, b: Seq<Option<Seq<char>>>, k: int, i: int)
    requires
        prologue_at(a, b, k) || prologue_at(b, a, k),
        directive_at(a, i),
    ensures
        directive_at(b, i),
{
    assert(a[i] is Some);
    if k <= i {
        assert(k < a.len());
        assert(a[k] is None);
    }
    assert forall|j: int| 0 <= j < i implies #[trigger] b[j] is Some && b[j] != Some(
        "use server"@,
    ) by {
        assert(a[j] is Some && a[j] != Some("use server"@));
    }
}

/// Lists that begin with the same texts have the directive at the same place.
pub proof fn same_prologue_same_directive(
    a: Seq<Option<Seq<char>>>,
    b: Seq<Option<Seq<char>>>,
)
    requires
        same_prologue(a, b),
    ensures
        directive_index(a) == directive_index(b),
{
    let k = choose|k: int| prologue_at(a, b, k);
    reveal(directive_index);
    if directive_index(a) is Some {
        let i = choose|i: int| directive_at(a, i);
        directive_moves(a, b, k, i);
        directive_index_unique(b, i);
    } else if directive_index(b) is Some {
        let i = choose|i: int| directive_at(b, i);
        directive_moves(b, a, k, i);
    }
}

/// Without the directive the lists still begin alike.
pub proof fn prologue_without(a: Seq<Option<Seq<char>>>, b: Seq<Option<Seq<char>>>)
    requires
        same_prologue(a, b),
        directive_index(a) is Some,
    ensures
        ({
            let i = directive_index(a)->0;
            &&& 0 <= i < a.len()
            &&& i < b.len()
            &&& same_prologue(a.remove(i), b.remove(i))
        }),
{
    let k = choose|k: int| prologue_at(a, b, k);
    reveal(directive_index);
    let i = directive_index(a)->0;
    assert(directive_at(a, i));
    assert(a[i] is Some);
    if k <= i {
        assert(a[k] is Some);
    }
    let a1 = a.remove(i);
    let b1 = b.remove(i);
    assert(prologue_at(a1, b1, k - 1)) by {
        assert forall|j: int| 0 <= j < k - 1 implies #[trigger] a1[j] == b1[j] && a1[j] is Some by {
            if j < i {
                assert(a[j] == b[j] && a[j] is Some);
            } else {
                assert(a[j + 1] == b[j + 1] && a[j + 1] is Some);
            }
        }
    }
}

/// One more entry on both sides keeps that they begin alike.
proof fn prologue_grows(
    a: Seq<Option<Seq<char>>>,
    b: Seq<Option<Seq<char>>>,
    x: Option<Seq<char>>,
    more: Seq<Option<Seq<char>>>,
)
    requires
        same_prologue(a, b),
        more.len() >= 1,
        more[0] == x,
        x is Some ==> more.len() == 1,
    ensures
        same_prologue(a.push(x), b + more),
{
    let k = choose|k: int| prologue_at(a, b, k);
    let a1 = a.push(x);
    let b1 = b + more;
    if k < a.len() {
        assert(prologue_at(a1, b1, k)) by {
            assert(b1[k] == b[k]);
            assert forall|j: int| 0 <= j < k implies #[trigger] a1[j] == b1[j] && a1[j] is Some by {
                assert(a[j] == b[j]);
            }
        }
    } else {
        assert(b1[k] == more[0]);
        if x is Some {
            assert(prologue_at(a1, b1, k + 1)) by {
                assert forall|j: int| 0 <= j < k + 1 implies #[trigger] a1[j] == b1[j]
                    && a1[j] is Some by {
                    if j < k {
                        assert(a[j] == b[j]);
                    }
                }
            }
        } else {
            assert(prologue_at(a1, b1, k)) by {
                assert forall|j: int| 0 <= j < k implies #[trigger] a1[j] == b1[j]
                    && a1[j] is Some by {
                    assert(a[j] == b[j]);
                }
            }
        }
    }
}

/// The walk keeps the text of a string literal, adds nothing behind it, and
/// makes nothing else one.
proof fn text_kept(s: State, stmt: StmtView)
    ensures
        directive_text(visit_stmt(s, stmt).1) == directive_text(stmt),
        directive_text(stmt) is Some ==> visit_stmt(s, stmt).0.annotations == s.annotations,
        directive_text(stmt) is Some ==> visit_stmt(s, stmt).0.extra_items == s.extra_items,
{
    if let StmtView::Expr(origin, e) = stmt {
        let (s1, e1) = visit_expr(s, *e);
        assert(visit_stmt_children(s, stmt) == (s1, StmtView::Expr(origin, Box::new(e1))));
        reveal(finish_expr);
        reveal(finish_arrow);
        match *e {
            ExprView::Str(_, _) => {
                assert(visit_expr_children(s, *e) == (s, *e));
            },
            ExprView::Arrow(a) => {
                assert(visit_expr_children(s, *e).1 == ExprView::Arrow(visit_arrow(s, a).1));
            },
            _ => {
                assert(!(e1 is Str)) by {
                    kind_kept(s, *e);
                }
            },
        }
    }
}

proof fn kind_kept(s: State, e: ExprView)
    requires
        !(e is Arrow),
        !(e is Str),
    ensures
        !(visit_expr(s, e).1 is Str),
{
    reveal(finish_expr);
    let s0 = if collects_names(s) && name_of(e) is Some {
        State {
            scope: Scope { in_action_closure: false, ..s.scope },
            ..use_name(s, name_of(e)->0)
        }
    } else {
        s
    };
    let e1 = visit_expr_children(s0, e).1;
    assert(!(e1 is Str) && !(e1 is Arrow));
}

/// The walk over the statements of a body keeps how it begins.
proof fn prologue_kept_in_turn(s: State, v: Seq<StmtView>)
    requires
        s.annotations == Seq::<StmtView>::empty(),
    ensures
        same_prologue(directive_texts(v), directive_texts(visit_stmts_in_turn(s, v).1)),
        visit_stmts_in_turn(s, v).0.annotations == Seq::<StmtView>::empty(),
    decreases v.len(),
{
    if v.len() == 0 {
        assert(prologue_at(directive_texts(v), directive_texts(visit_stmts_in_turn(s, v).1), 0));
    } else {
        prologue_kept_in_turn(s, v.drop_last());
        let (s1, init) = visit_stmts_in_turn(s, v.drop_last());
        let t1 = State { top_level: false, ..s1 };
        let (s2, stmt) = visit_stmt(t1, v.last());
        text_kept(t1, v.last());
        let more = seq![stmt] + s2.annotations;
        prologue_grows(
            directive_texts(v.drop_last()),
            directive_texts(init),
            directive_text(v.last()),
            directive_texts(more),
        );
        assert(directive_texts(v) =~= directive_texts(v.drop_last()).push(
            directive_text(v.last()),
        ));
        assert(visit_stmts_in_turn(s, v).1 =~= init + more);
        assert(directive_texts(init + more) =~= directive_texts(init) + directive_texts(more));
    }
}

/// The walk over the statements of a body keeps how it begins.
pub proof fn prologue_kept(s: State, v: Seq<StmtView>)
    ensures
        same_prologue(directive_texts(v), directive_texts(visit_stmts(s, v).1)),
{
    prologue_kept_in_turn(State { annotations: Seq::empty(), ..s }, v);
}

/// The text of an item is kept, too.
pub proof fn item_text_kept(s: State, item: ModuleItemView)
    ensures
        item_directive_text(visit_item(s, item).1) == item_directive_text(item),
        item_directive_text(item) is Some ==> visit_item(s, item).0.annotations == s.annotations
            && visit_item(s, item).0.extra_items == s.extra_items,
{
    if let ModuleItemView::Stmt(stmt) = item {
        text_kept(s, stmt);
    }
}

} // verus!
