//! The `"use server"` directive.

use vstd::prelude::*;

use crate::ast::{items_view, stmts_view, Expr, ModuleItem, Stmt};
use crate::model::{ExprView, ModuleItemView, StmtView};

verus! {

/// The text of a statement that is a string literal.
pub open spec fn directive_text(s: StmtView) -> Option<Seq<char>> {
    match s {
        StmtView::Expr(_, e) => match *e {
            ExprView::Str(_, value) => Some(value),
            _ => None,
        },
        _ => None,
    }
}

/// The text of a module item that is a string literal.
pub open spec fn item_directive_text(item: ModuleItemView) -> Option<Seq<char>> {
    match item {
        ModuleItemView::Stmt(s) => directive_text(s),
        _ => None,
    }
}

/// The directive texts of a list of statements.
pub open spec fn directive_texts(stmts: Seq<StmtView>) -> Seq<Option<Seq<char>>> {
    Seq::new(stmts.len(), |i: int| directive_text(stmts[i]))
}

/// The directive texts of a list of module items.
pub open spec fn item_directive_texts(items: Seq<ModuleItemView>) -> Seq<Option<Seq<char>>> {
    Seq::new(items.len(), |i: int| item_directive_text(items[i]))
}

/// The `"use server"` directive stands at index `i`: only other string literals
/// come before it.
pub open spec fn directive_at(texts: Seq<Option<Seq<char>>>, i: int) -> bool {
    &&& 0 <= i < texts.len()
    &&& texts[i] == Some("use server"@)
    &&& forall|j: int|
        #![trigger texts[j]]
        0 <= j < i ==> texts[j] is Some && texts[j] != Some("use server"@)
}

/// Where the `"use server"` directive stands, if there is one.
#[verifier::opaque]
pub open spec fn directive_index(texts: Seq<Option<Seq<char>>>) -> Option<int> {
    if exists|i: int| directive_at(texts, i) {
        Some(choose|i: int| directive_at(texts, i))
    } else {
        None
    }
}

/// Where the directive of a list of statements stands.
pub open spec fn fn_directive(stmts: Seq<StmtView>) -> Option<int> {
    directive_index(directive_texts(stmts))
}

/// Where the directive of a list of module items stands.
pub open spec fn module_directive(items: Seq<ModuleItemView>) -> Option<int> {
    directive_index(item_directive_texts(items))
}

/// The directive can stand at one index only.
pub proof fn directive_index_unique(texts: Seq<Option<Seq<char>>>, i: int)
    requires
        directive_at(texts, i),
    ensures
        directive_index(texts) == Some(i),
{
    reveal(directive_index);
    let k = choose|k: int| directive_at(texts, k);
    assert(directive_at(texts, k));
    if k < i {
        assert(texts[k] != Some("use server"@));
    } else if i < k {
        assert(texts[i] != Some("use server"@));
    }
}

/// A list whose first entry that is not another string literal is no directive
/// has none.
proof fn no_directive(texts: Seq<Option<Seq<char>>>, n: int)
    requires
        0 <= n <= texts.len(),
        n < texts.len() ==> texts[n] is None,
        forall|j: int|
            #![trigger texts[j]]
            0 <= j < n ==> texts[j] is Some && texts[j] != Some("use server"@),
    ensures
        directive_index(texts) is None,
{
    reveal(directive_index);
    assert forall|i: int| !directive_at(texts, i) by {
        if directive_at(texts, i) {
            if i < n {
                assert(texts[i] != Some("use server"@));
            } else {
                assert(texts[n] is None);
            }
        }
    }
}

/// The text of a statement that is a string literal.
fn literal_text(stmt: &Stmt) -> (r: Option<&String>)
    ensures
        match r {
            Some(text) => directive_text(stmt@) == Some(text@),
            None => directive_text(stmt@) is None,
        },
{
    match stmt {
        Stmt::Expr(_, e) => match &**e {
            Expr::Str(_, value) => Some(value),
            _ => None,
        },
        _ => None,
    }
}

/// Where the `"use server"` directive of a module stands.
pub fn get_server_directive_index_in_module(items: &Vec<ModuleItem>) -> (r: Option<usize>)
    ensures
        match r {
            Some(i) => i < items@.len() && module_directive(items_view(items@)) == Some(i as int),
            None => module_directive(items_view(items@)) is None,
        },
{
    let use_server = "use server".to_string();
    let ghost texts = item_directive_texts(items_view(items@));
    for i in 0..items.len()
        invariant
            use_server@ == "use server"@,
            texts == item_directive_texts(items_view(items@)),
            forall|j: int|
                #![trigger texts[j]]
                0 <= j < i ==> texts[j] is Some && texts[j] != Some("use server"@),
    {
        assert(texts[i as int] == item_directive_text(items[i as int]@));
        match &items[i] {
            ModuleItem::Stmt(stmt) => {
                match literal_text(stmt) {
                    Some(value) => {
                        if *value == use_server {
                            proof {
                                directive_index_unique(texts, i as int);
                            }
                            return Some(i);
                        }
                    },
                    None => {
                        proof {
                            no_directive(texts, i as int);
                        }
                        return None;
                    },
                }
            },
            _ => {
                proof {
                    no_directive(texts, i as int);
                }
                return None;
            },
        }
    }
    proof {
        no_directive(texts, texts.len() as int);
    }
    None
}

/// Where the `"use server"` directive of a function body stands.
pub fn get_server_directive_index_in_fn(stmts: &Vec<Stmt>) -> (r: Option<usize>)
    ensures
        match r {
            Some(i) => i < stmts@.len() && fn_directive(stmts_view(stmts@)) == Some(i as int),
            None => fn_directive(stmts_view(stmts@)) is None,
        },
{
    let use_server = "use server".to_string();
    let ghost texts = directive_texts(stmts_view(stmts@));
    for i in 0..stmts.len()
        invariant
            use_server@ == "use server"@,
            texts == directive_texts(stmts_view(stmts@)),
            forall|j: int|
                #![trigger texts[j]]
                0 <= j < i ==> texts[j] is Some && texts[j] != Some("use server"@),
    {
        assert(texts[i as int] == directive_text(stmts[i as int]@));
        match literal_text(&stmts[i]) {
            Some(value) => {
                if *value == use_server {
                    proof {
                        directive_index_unique(texts, i as int);
                    }
                    return Some(i);
                }
            },
            None => {
                proof {
                    no_directive(texts, i as int);
                }
                return None;
            },
        }
    }
    proof {
        no_directive(texts, texts.len() as int);
    }
    None
}

} // verus!
