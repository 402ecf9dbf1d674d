//! What the words of the pass mean, said of the trees themselves.

use vstd::prelude::*;
use vstd::utf8::encode_utf8;
use crate::annotate::action_annotations;
use crate::ast::{Ctxt, Origin, Span};
use crate::bindings::{
    idents_in_array_pat, idents_in_element, idents_in_object_pat, idents_in_pat, idents_in_pat_prop,
    idents_in_rest, idents_in_var_decls,
};
use crate::closure::{captured, captured_exactly, exprs_of};
use crate::digest::{hex_text, sha1_digest};
use crate::directive::{
    directive_at, directive_index, directive_index_unique, directive_texts, fn_directive,
    item_directive_texts, module_directive,
};
use crate::model::{
    DeclaratorView, ExprView, IdView, IdentView, MemberView, ModuleItemView, PatFormView,
    PatPropView, StmtView,
};
use crate::names::{expr_of, name_of, name_of_expr_of, NameView};
use crate::state::{action_ident, closure_ident};
use crate::text::{action_name, decimal, digit, join_texts};

verus! {

// ---- Names ----

/// An expression is an identifier, or accesses to it one after the other: each
/// is plain (`true`) or optional (`false`).
pub open spec fn spells(e: ExprView, id: IdView, props: Seq<(Seq<char>, bool)>) -> bool
    decreases e,
{
    match e {
        ExprView::Ident(i) => i.sym == id.sym && i.span.ctxt == id.ctxt && props.len() == 0,
        ExprView::Member(m) => {
            &&& props.len() > 0
            &&& props.last().0 == m.prop.sym
            &&& props.last().1
            &&& spells(*m.obj, id, props.drop_last())
        },
        ExprView::OptMember(m) => {
            &&& props.len() > 0
            &&& props.last().0 == m.prop.sym
            &&& !props.last().1
            &&& spells(*m.obj, id, props.drop_last())
        },
        _ => false,
    }
}

/// An expression has the name that it spells, and none if it spells none.
pub proof fn name_is_spelled(e: ExprView, n: NameView)
    ensures
        name_of(e) == Some(n) <==> spells(e, n.id, n.props),
    decreases e, 2int,
{
    match e {
        ExprView::Ident(i) => {
            assert(n.props.len() == 0 ==> n.props =~= Seq::empty());
        },
        ExprView::Member(m) => {
            one_access(*m.obj, n, m.prop.sym, true);
        },
        ExprView::OptMember(m) => {
            one_access(*m.obj, n, m.prop.sym, false);
        },
        _ => {},
    }
}

proof fn one_access(obj: ExprView, n: NameView, prop: Seq<char>, is_member: bool)
    ensures
        (name_of(obj) is Some && name_of(obj)->0.dot(prop, is_member) == n) <==> {
            &&& n.props.len() > 0
            &&& n.props.last() == (prop, is_member)
            &&& spells(obj, n.id, n.props.drop_last())
        },
    decreases obj, 3int,
{
    let inner = NameView { id: n.id, props: n.props.drop_last() };
    name_is_spelled(obj, inner);
    if let Some(k) = name_of(obj) {
        if k.dot(prop, is_member) == n {
            assert(n.props.drop_last() =~= k.props);
            assert(k == inner);
        }
        if n.props.len() > 0 && n.props.last() == (prop, is_member) && k == inner {
            assert(k.props.push((prop, is_member)) =~= n.props);
        }
    }
}

/// The expression that is written for a name spells it.
pub proof fn written_name_spells(n: NameView)
    ensures
        spells(expr_of(n), n.id, n.props),
{
    name_of_expr_of(n);
    name_is_spelled(expr_of(n), n);
}

// ---- Generated names ----

/// The number that a row of decimal digits stands for.
pub open spec fn number(digits: Seq<char>) -> int
    decreases digits.len(),
{
    if digits.len() == 0 {
        0
    } else {
        10 * number(digits.drop_last()) + (digits.last() as int - '0' as int)
    }
}

proof fn decimal_reads_back(n: nat)
    ensures
        number(decimal(n)) == n,
        decimal(n).len() > 0,
        decimal(n).len() > 1 ==> decimal(n)[0] != '0',
        forall|i: int| 0 <= i < decimal(n).len() ==> '0' <= #[trigger] decimal(n)[i] <= '9',
    decreases n,
{
    reveal_with_fuel(number, 2);
    if n < 10 {
        assert(decimal(n).drop_last() =~= Seq::empty());
        assert(digit(n) as int - '0' as int == n);
    } else {
        decimal_reads_back(n / 10);
        let d = decimal(n / 10);
        assert(decimal(n) == d.push(digit(n % 10)));
        assert(decimal(n).drop_last() =~= d);
        assert(digit(n % 10) as int - '0' as int == n % 10);
        if d.len() == 1 && d[0] == '0' {
            assert(d.drop_last() =~= Seq::empty());
            assert(number(d) == 0);
        }
    }
}

/// A generated name is `$$ACTION_`, and behind it the number in decimal digits,
/// without leading zeros.
pub proof fn action_name_is_numbered(n: nat)
    ensures
        action_name(n).len() > "$$ACTION_"@.len(),
        action_name(n).take("$$ACTION_"@.len() as int) == "$$ACTION_"@,
        ({
            let digits = action_name(n).skip("$$ACTION_"@.len() as int);
            &&& number(digits) == n
            &&& digits.len() > 1 ==> digits[0] != '0'
            &&& forall|i: int| 0 <= i < digits.len() ==> '0' <= #[trigger] digits[i] <= '9'
        }),
{
    decimal_reads_back(n);
    assert(action_name(n).take("$$ACTION_"@.len() as int) =~= "$$ACTION_"@);
    assert(action_name(n).skip("$$ACTION_"@.len() as int) =~= decimal(n));
}

/// A generated name is not `default`.
pub proof fn action_name_is_not_default(n: nat)
    ensures
        action_name(n) != "default"@,
{
    reveal_strlit("$$ACTION_");
    reveal_strlit("default");
    assert(action_name(n)[0] == '$');
    assert("default"@[0] == 'd');
}

/// The generated identifiers, with the hygiene context that is theirs alone.
pub proof fn generated_idents_mean(n: u32)
    ensures
        action_ident(n as nat) == (IdentView {
            sym: action_name(n as nat),
            span: Span { lo: 0, hi: 0, ctxt: Ctxt::Action(n) },
            optional: false,
        }),
        closure_ident(n as nat) == (IdentView {
            sym: "closure"@,
            span: Span { lo: 0, hi: 0, ctxt: Ctxt::Closure(n) },
            optional: false,
        }),
{
}

/// Lists are joined with the separator between any two parts, and nowhere else.
pub proof fn joining_lists(a: Seq<Seq<char>>, b: Seq<Seq<char>>, separator: Seq<char>, x: Seq<char>)
    ensures
        join_texts(Seq::empty(), separator) == Seq::<char>::empty(),
        join_texts(seq![x], separator) == x,
        a.len() > 0 && b.len() > 0 ==> join_texts(a + b, separator) == join_texts(a, separator)
            + separator + join_texts(b, separator),
    decreases b.len(),
{
    if a.len() > 0 && b.len() > 0 {
        assert((a + b).drop_last() =~= a + b.drop_last());
        assert((a + b).last() == b.last());
        if b.len() == 1 {
            assert(b.drop_last() =~= Seq::empty());
            assert(a + b.drop_last() =~= a);
        } else {
            joining_lists(a, b.drop_last(), separator, x);
            assert(join_texts(a + b, separator) =~= join_texts(a, separator) + separator
                + join_texts(b, separator));
        }
    }
}

// ---- The directive ----

/// A statement is the string literal with the text.
pub open spec fn is_text(stmt: StmtView, text: Seq<char>) -> bool {
    match stmt {
        StmtView::Expr(_, e) => match *e {
            ExprView::Str(_, value) => value == text,
            _ => false,
        },
        _ => false,
    }
}

/// A statement is some string literal.
pub open spec fn is_some_text(stmt: StmtView) -> bool {
    match stmt {
        StmtView::Expr(_, e) => *e is Str,
        _ => false,
    }
}

/// A statement is the directive, and only other string literals come before it.
pub open spec fn marked_at(v: Seq<StmtView>, i: int) -> bool {
    &&& 0 <= i < v.len()
    &&& is_text(v[i], "use server"@)
    &&& forall|j: int|
        0 <= j < i ==> is_some_text(#[trigger] v[j]) && !is_text(v[j], "use server"@)
}

/// A body has the directive.
pub open spec fn marked(v: Seq<StmtView>) -> bool {
    exists|i: int| marked_at(v, i)
}

/// The directive of a body is found where it stands, and only there.
pub proof fn directive_is_where_marked(v: Seq<StmtView>, i: int)
    ensures
        fn_directive(v) == Some(i) <==> marked_at(v, i),
        fn_directive(v) is Some <==> marked(v),
{
    let texts = directive_texts(v);
    reveal(directive_index);
    assert forall|k: int| directive_at(texts, k) <==> #[trigger] marked_at(v, k) by {
        if marked_at(v, k) {
            assert forall|j: int| 0 <= j < k implies #[trigger] texts[j] is Some && texts[j]
                != Some("use server"@) by {
                assert(is_some_text(v[j]));
            }
        }
        if directive_at(texts, k) {
            assert forall|j: int| 0 <= j < k implies is_some_text(#[trigger] v[j]) && !is_text(
                v[j],
                "use server"@,
            ) by {
                assert(texts[j] is Some);
            }
        }
    }
    if marked_at(v, i) {
        directive_index_unique(texts, i);
    }
    if fn_directive(v) is Some {
        let k = choose|k: int| directive_at(texts, k);
        assert(marked_at(v, k));
    }
    if marked(v) {
        let k = choose|k: int| marked_at(v, k);
        assert(directive_at(texts, k));
    }
}

/// An item is the directive, and only other string literals come before it.
pub open spec fn file_marked_at(v: Seq<ModuleItemView>, i: int) -> bool {
    &&& 0 <= i < v.len()
    &&& v[i] is Stmt
    &&& is_text(v[i]->Stmt_0, "use server"@)
    &&& forall|j: int|
        0 <= j < i ==> (#[trigger] v[j]) is Stmt && is_some_text(v[j]->Stmt_0) && !is_text(
            v[j]->Stmt_0,
            "use server"@,
        )
}

/// A file has the directive.
pub open spec fn file_marked(v: Seq<ModuleItemView>) -> bool {
    exists|i: int| file_marked_at(v, i)
}

/// The directive of a file is found where it stands, and only there.
pub proof fn file_directive_is_where_marked(v: Seq<ModuleItemView>, i: int)
    ensures
        module_directive(v) == Some(i) <==> file_marked_at(v, i),
        module_directive(v) is Some <==> file_marked(v),
{
    let texts = item_directive_texts(v);
    reveal(directive_index);
    assert forall|k: int| directive_at(texts, k) <==> #[trigger] file_marked_at(v, k) by {
        if file_marked_at(v, k) {
            assert forall|j: int| 0 <= j < k implies #[trigger] texts[j] is Some && texts[j]
                != Some("use server"@) by {
                assert(v[j] is Stmt);
            }
        }
        if directive_at(texts, k) {
            assert forall|j: int| 0 <= j < k implies (#[trigger] v[j]) is Stmt && is_some_text(
                v[j]->Stmt_0,
            ) && !is_text(v[j]->Stmt_0, "use server"@) by {
                assert(texts[j] is Some);
            }
        }
    }
    if file_marked_at(v, i) {
        directive_index_unique(texts, i);
    }
    if module_directive(v) is Some {
        let k = choose|k: int| directive_at(texts, k);
        assert(file_marked_at(v, k));
    }
    if file_marked(v) {
        let k = choose|k: int| file_marked_at(v, k);
        assert(directive_at(texts, k));
    }
}

// ---- Bindings ----

/// An identifier refers to the binding.
pub open spec fn refers(i: IdentView, id: IdView) -> bool {
    i.sym == id.sym && i.span.ctxt == id.ctxt
}

/// A pattern that is a plain name binds it.
pub open spec fn names_it(p: PatFormView, id: IdView) -> bool {
    p is Ident && refers(p->Ident_0, id)
}

/// An identifier, array or object pattern binds an identifier.
pub open spec fn binds(p: PatFormView, id: IdView) -> bool
    decreases p, 0int,
{
    match p {
        PatFormView::Ident(i) => refers(i, id),
        PatFormView::Array(elems) => exists|k: int|
            0 <= k < elems.len() && (#[trigger] elems[k]) is Some && element_binds(
                elems[k]->0,
                id,
            ),
        PatFormView::Object(props) => exists|k: int|
            0 <= k < props.len() && prop_binds(#[trigger] props[k], id),
        _ => false,
    }
}

/// An element of an array pattern or a parameter binds an identifier.
pub open spec fn element_binds(p: PatFormView, id: IdView) -> bool
    decreases p, 1int,
{
    match p {
        PatFormView::Rest(arg) => names_it(*arg, id),
        _ => binds(p, id),
    }
}

/// A property of an object pattern binds an identifier.
pub open spec fn prop_binds(p: PatPropView, id: IdView) -> bool
    decreases p, 1int,
{
    match p {
        PatPropView::KeyValue(key, value) => (key is Some && refers(key->0, id)) || binds(
            *value,
            id,
        ),
        PatPropView::Assign(key) => refers(key, id),
        PatPropView::Rest(arg) => names_it(*arg, id),
    }
}

/// Some variable of a declaration binds an identifier.
pub open spec fn vars_bind(decls: Seq<DeclaratorView>, id: IdView) -> bool {
    exists|k: int| 0 <= k < decls.len() && binds((#[trigger] decls[k]).name.form, id)
}

/// What is collected from a pattern is what it binds.
pub proof fn pattern_collected(p: PatFormView, id: IdView)
    ensures
        idents_in_pat(p).contains(id) <==> binds(p, id),
    decreases p, 0int,
{
    match p {
        PatFormView::Ident(i) => {
            assert(seq![i.id()][0] == i.id());
        },
        PatFormView::Array(elems) => {
            array_collected(elems, id);
        },
        PatFormView::Object(props) => {
            object_collected(props, id);
        },
        _ => {},
    }
}

/// What is collected from an element or a parameter is what it binds.
pub proof fn element_collected(p: PatFormView, id: IdView)
    ensures
        idents_in_element(p).contains(id) <==> element_binds(p, id),
    decreases p, 1int,
{
    match p {
        PatFormView::Rest(arg) => {
            rest_collected(*arg, id);
        },
        _ => {
            pattern_collected(p, id);
        },
    }
}

proof fn rest_collected(arg: PatFormView, id: IdView)
    ensures
        idents_in_rest(arg).contains(id) <==> names_it(arg, id),
{
    if let PatFormView::Ident(i) = arg {
        assert(seq![i.id()][0] == i.id());
    }
}

pub proof fn contains_sum(a: Seq<IdView>, b: Seq<IdView>, id: IdView)
    ensures
        (a + b).contains(id) <==> a.contains(id) || b.contains(id),
{
    if a.contains(id) {
        let i = choose|i: int| 0 <= i < a.len() && a[i] == id;
        assert((a + b)[i] == id);
    }
    if b.contains(id) {
        let i = choose|i: int| 0 <= i < b.len() && b[i] == id;
        assert((a + b)[a.len() + i] == id);
    }
    if (a + b).contains(id) {
        let i = choose|i: int| 0 <= i < (a + b).len() && (a + b)[i] == id;
        if i < a.len() {
            assert(a[i] == id);
        } else {
            assert(b[i - a.len()] == id);
        }
    }
}

proof fn array_collected(elems: Seq<Option<PatFormView>>, id: IdView)
    ensures
        idents_in_array_pat(elems).contains(id) <==> exists|k: int|
            0 <= k < elems.len() && (#[trigger] elems[k]) is Some && element_binds(elems[k]->0, id),
    decreases elems, 2int,
{
    if elems.len() != 0 {
        let init = elems.drop_last();
        let last = elems.last();
        array_collected(init, id);
        let more = match last {
            Some(p) => idents_in_element(p),
            None => Seq::empty(),
        };
        if let Some(p) = last {
            element_collected(p, id);
        }
        contains_sum(idents_in_array_pat(init), more, id);
        assert forall|k: int| 0 <= k < init.len() implies init[k] == #[trigger] elems[k] by {}
        if exists|k: int|
            0 <= k < init.len() && (#[trigger] init[k]) is Some && element_binds(init[k]->0, id) {
            let k = choose|k: int|
                0 <= k < init.len() && (#[trigger] init[k]) is Some && element_binds(
                    init[k]->0,
                    id,
                );
            assert(elems[k] is Some);
        }
        if exists|k: int|
            0 <= k < elems.len() && (#[trigger] elems[k]) is Some && element_binds(
                elems[k]->0,
                id,
            ) {
            let k = choose|k: int|
                0 <= k < elems.len() && (#[trigger] elems[k]) is Some && element_binds(
                    elems[k]->0,
                    id,
                );
            if k < init.len() {
                assert(init[k] is Some);
            }
        }
        if last is Some && element_binds(last->0, id) {
            assert(elems[elems.len() - 1] is Some);
        }
    }
}

proof fn prop_collected(p: PatPropView, id: IdView)
    ensures
        idents_in_pat_prop(p).contains(id) <==> prop_binds(p, id),
    decreases p, 1int,
{
    match p {
        PatPropView::KeyValue(Some(key), value) => {
            pattern_collected(*value, id);
            contains_sum(seq![key.id()], idents_in_pat(*value), id);
            assert(seq![key.id()][0] == key.id());
        },
        PatPropView::KeyValue(None, value) => {
            pattern_collected(*value, id);
        },
        PatPropView::Assign(key) => {
            assert(seq![key.id()][0] == key.id());
        },
        PatPropView::Rest(arg) => {
            rest_collected(*arg, id);
        },
    }
}

proof fn object_collected(props: Seq<PatPropView>, id: IdView)
    ensures
        idents_in_object_pat(props).contains(id) <==> exists|k: int|
            0 <= k < props.len() && prop_binds(#[trigger] props[k], id),
    decreases props, 2int,
{
    if props.len() != 0 {
        let init = props.drop_last();
        object_collected(init, id);
        prop_collected(props.last(), id);
        contains_sum(idents_in_object_pat(init), idents_in_pat_prop(props.last()), id);
        if exists|k: int| 0 <= k < init.len() && prop_binds(#[trigger] init[k], id) {
            let k = choose|k: int| 0 <= k < init.len() && prop_binds(#[trigger] init[k], id);
            assert(prop_binds(props[k], id));
        }
        if exists|k: int| 0 <= k < props.len() && prop_binds(#[trigger] props[k], id) {
            let k = choose|k: int| 0 <= k < props.len() && prop_binds(#[trigger] props[k], id);
            if k < init.len() {
                assert(prop_binds(init[k], id));
            }
        }
        if prop_binds(props.last(), id) {
            assert(prop_binds(props[props.len() - 1], id));
        }
    }
}

/// What is collected from a declaration is what its variables bind.
pub proof fn vars_collected(decls: Seq<DeclaratorView>, id: IdView)
    ensures
        idents_in_var_decls(decls).contains(id) <==> vars_bind(decls, id),
    decreases decls.len(),
{
    if decls.len() != 0 {
        let init = decls.drop_last();
        vars_collected(init, id);
        pattern_collected(decls.last().name.form, id);
        contains_sum(idents_in_var_decls(init), idents_in_pat(decls.last().name.form), id);
        if vars_bind(init, id) {
            let k = choose|k: int|
                0 <= k < init.len() && binds((#[trigger] init[k]).name.form, id);
            assert(binds(decls[k].name.form, id));
        }
        if vars_bind(decls, id) {
            let k = choose|k: int|
                0 <= k < decls.len() && binds((#[trigger] decls[k]).name.form, id);
            if k < init.len() {
                assert(binds(init[k].name.form, id));
            }
        }
        if binds(decls.last().name.form, id) {
            assert(binds(decls[decls.len() - 1].name.form, id));
        }
    }
}

/// What is collected comes from left to right.
pub proof fn vars_collected_in_order(a: Seq<DeclaratorView>, b: Seq<DeclaratorView>)
    ensures
        idents_in_var_decls(a + b) == idents_in_var_decls(a) + idents_in_var_decls(b),
    decreases b.len(),
{
    if b.len() == 0 {
        assert(a + b =~= a);
        assert(idents_in_var_decls(a) + Seq::<IdView>::empty() =~= idents_in_var_decls(a));
    } else {
        vars_collected_in_order(a, b.drop_last());
        assert((a + b).drop_last() =~= a + b.drop_last());
        assert((a + b).last() == b.last());
        assert(idents_in_var_decls(a + b) =~= idents_in_var_decls(a) + idents_in_var_decls(b));
    }
}

/// What is collected from an array pattern comes from left to right.
pub proof fn array_collected_in_order(
    a: Seq<Option<PatFormView>>,
    b: Seq<Option<PatFormView>>,
)
    ensures
        idents_in_array_pat(a + b) == idents_in_array_pat(a) + idents_in_array_pat(b),
    decreases b.len(),
{
    if b.len() == 0 {
        assert(a + b =~= a);
        assert(idents_in_array_pat(a) + Seq::<IdView>::empty() =~= idents_in_array_pat(a));
    } else {
        array_collected_in_order(a, b.drop_last());
        assert((a + b).drop_last() =~= a + b.drop_last());
        assert((a + b).last() == b.last());
        assert(idents_in_array_pat(a + b) =~= idents_in_array_pat(a) + idents_in_array_pat(b));
    }
}

/// What is collected from an object pattern comes from left to right.
pub proof fn object_collected_in_order(a: Seq<PatPropView>, b: Seq<PatPropView>)
    ensures
        idents_in_object_pat(a + b) == idents_in_object_pat(a) + idents_in_object_pat(b),
    decreases b.len(),
{
    if b.len() == 0 {
        assert(a + b =~= a);
        assert(idents_in_object_pat(a) + Seq::<IdView>::empty() =~= idents_in_object_pat(a));
    } else {
        object_collected_in_order(a, b.drop_last());
        assert((a + b).drop_last() =~= a + b.drop_last());
        assert((a + b).last() == b.last());
        assert(idents_in_object_pat(a + b) =~= idents_in_object_pat(a) + idents_in_object_pat(b));
    }
}

// ---- What is captured ----

/// Captured names come in the order in which they are used first.
pub proof fn captured_in_order(used: Seq<NameView>, bound: Seq<IdView>, i: int, j: int)
    requires
        0 <= i < j < captured(used, bound).len(),
    ensures
        exists|a: int|
            0 <= a < used.len() && #[trigger] used[a] == captured(used, bound)[i] && forall|b: int|
                0 <= b <= a ==> #[trigger] used[b] != captured(used, bound)[j],
    decreases used.len(),
{
    let init = used.drop_last();
    let earlier = captured(init, bound);
    let all = captured(used, bound);
    captured_exactly(used, bound);
    captured_exactly(init, bound);
    if j < earlier.len() {
        captured_in_order(init, bound, i, j);
        let a = choose|a: int|
            0 <= a < init.len() && #[trigger] init[a] == earlier[i] && forall|b: int|
                0 <= b <= a ==> #[trigger] init[b] != earlier[j];
        assert(used[a] == all[i]);
        assert forall|b: int| 0 <= b <= a implies #[trigger] used[b] != all[j] by {
            assert(init[b] == used[b]);
        }
    } else {
        assert(earlier.contains(earlier[i]));
        assert(init.contains(earlier[i]));
        let a = choose|a: int| 0 <= a < init.len() && init[a] == earlier[i];
        assert(used[a] == all[i]);
        assert(all[j] == used.last());
        assert forall|b: int| 0 <= b <= a implies #[trigger] used[b] != all[j] by {
            if used[b] == all[j] {
                assert(init[b] == all[j]);
                assert(init.contains(all[j]));
                assert(all.contains(all[j]));
                assert(earlier.contains(all[j]));
            }
        }
    }
}

// ---- What is written for an action ----

/// `name.field`, as the pass writes it.
pub open spec fn field(name: IdentView, field: Seq<char>) -> ExprView {
    ExprView::Member(
        MemberView {
            origin: Origin::Synthetic,
            obj: Box::new(ExprView::Ident(name)),
            prop: IdentView {
                sym: field,
                span: Span { lo: 0, hi: 0, ctxt: Ctxt::Source(0) },
                optional: false,
            },
        },
    )
}

/// `name.field = value;`, as the pass writes it.
pub open spec fn sets_field(
    stmt: StmtView,
    name: IdentView,
    field_name: Seq<char>,
    value: ExprView,
) -> bool {
    stmt == StmtView::Expr(
        Origin::Synthetic,
        Box::new(ExprView::Assign(Box::new(field(name, field_name)), Box::new(value))),
    )
}

/// Three statements make a name the reference to an action:
/// `name.$$typeof = Symbol.for("react.server.reference");`, `name.$$id = id;`
/// and `name.$$bound = [..];`.
pub open spec fn refers_to_action(
    stmts: Seq<StmtView>,
    name: IdentView,
    bound: Seq<NameView>,
    id: Seq<char>,
) -> bool {
    let symbol = IdentView {
        sym: "Symbol"@,
        span: Span { lo: 0, hi: 0, ctxt: Ctxt::Source(0) },
        optional: false,
    };
    &&& stmts.len() == 3
    &&& sets_field(
        stmts[0],
        name,
        "$$typeof"@,
        ExprView::Call(
            Box::new(field(symbol, "for"@)),
            seq![ExprView::Str(Origin::Synthetic, "react.server.reference"@)],
        ),
    )
    &&& sets_field(stmts[1], name, "$$id"@, ExprView::Str(Origin::Synthetic, id))
    &&& exists|values: Seq<ExprView>|
        #[trigger] spells_all(values, bound) && sets_field(
            stmts[2],
            name,
            "$$bound"@,
            ExprView::Array(values),
        )
}

/// Expressions spell names, one by one.
pub open spec fn spells_all(values: Seq<ExprView>, names: Seq<NameView>) -> bool {
    values.len() == names.len() && forall|i: int|
        0 <= i < names.len() ==> spells(#[trigger] values[i], names[i].id, names[i].props)
}

/// The identity of an action: the SHA-1 digest of the file name, a colon and
/// the export name, in hexadecimal digits.
pub open spec fn identity(file_name: Seq<char>, export_name: Seq<char>) -> Seq<char> {
    hex_text(sha1_digest(encode_utf8(file_name) + seq![58u8] + encode_utf8(export_name)))
}

/// The annotations of an action refer to it under its identity.
pub proof fn annotations_refer(
    name: IdentView,
    bound: Seq<NameView>,
    file_name: Seq<char>,
    export_name: Seq<char>,
)
    ensures
        refers_to_action(
            action_annotations(name, exprs_of(bound), file_name, export_name),
            name,
            bound,
            identity(file_name, export_name),
        ),
{
    let stmts = action_annotations(name, exprs_of(bound), file_name, export_name);
    let values = exprs_of(bound);
    assert forall|i: int| 0 <= i < bound.len() implies spells(
        #[trigger] values[i],
        bound[i].id,
        bound[i].props,
    ) by {
        written_name_spells(bound[i]);
    }
    assert(sets_field(stmts[2], name, "$$bound"@, ExprView::Array(values)));
    assert(spells_all(values, bound));
}

} // verus!
