//! What holds of the pass as a whole.

use vstd::prelude::*;
use vstd::utf8::{encode_utf8, encode_utf8_decode_utf8};

use crate::annotate::{action_annotations, name_assignment};
use crate::closure::captured_exactly;
use crate::digest::action_location;
use crate::directive::module_directive;
use crate::exported::{at_most_one_comment, flat_items};
use crate::frame::{
    counts_actions, no_export_errors, numbered, visit_expr_extends, visit_items_extends,
    visit_items_in_turn_extends,
};
use crate::free::{free_block, free_items, replaced_block_is_free};
use crate::mentioned::records_mentioned_names;
use crate::model::{
    ArrowBodyView, ArrowView, ExprView, FunctionView, IdView, IdentView, ModuleItemView, ModuleView,
    StmtView,
};
use crate::names::{ident_name, ident_of_id, NameView};
use crate::prefix::prefix;
use crate::state::{action_ident, closure_ident, initial_state, CommentView, Config, State};
use crate::text::join_texts;
use crate::transform::{
    as_items, bound_around, captures, enter_items, export_annotations, exported_names, finish_expr,
    hoisted_arrow, hoisted_function, leave_items, replacement, used_names, visit_expr,
    visit_expr_children, visit_items_in_turn, visit_module, without,
};

verus! {

/// After the walk over a module the place is as before; the module has an
/// action just if it is a `"use server"` file or an action was exported; each
/// action was exported under a generated name of its own, or as `default`; and
/// without the directive no export was recorded or reported.
pub proof fn module_walk_keeps_count(file_name: Seq<char>, config: Config, m: ModuleView)
    ensures
        ({
            let s = initial_state(file_name, config);
            let t = visit_module(s, m).0;
            &&& t.scope == s.scope
            &&& t.file_name == file_name
            &&& t.start_pos == m.span.lo
            &&& counts_actions(t)
            &&& numbered(t.export_actions, t.ident_cnt)
            &&& !t.in_action_file ==> t.exported_idents.len() == 0
            &&& !t.in_action_file ==> no_export_errors(t.errors)
        }),
{
    let s = State { start_pos: m.span.lo, ..initial_state(file_name, config) };
    visit_items_extends(s, m.body);
    assert(numbered(s.export_actions, s.ident_cnt)) by {
        reveal(numbered);
    }
    assert(no_export_errors(s.errors)) by {
        reveal(no_export_errors);
    }
}

/// The walk over items leaves nothing behind that still has to be put into the
/// module.
pub proof fn nothing_pending(s: State, v: Seq<ModuleItemView>)
    requires
        s.annotations == Seq::<StmtView>::empty(),
        s.extra_items == Seq::<ModuleItemView>::empty(),
    ensures
        visit_items_in_turn(s, v).0.annotations == Seq::<StmtView>::empty(),
        visit_items_in_turn(s, v).0.extra_items == Seq::<ModuleItemView>::empty(),
{
}

/// A `"use server"` file ends with the annotations of its exports, gets a
/// comment that lists the names of its exports, and hoists nothing. Without
/// namespaces that comment is the only one.
pub proof fn use_server_file(file_name: Seq<char>, config: Config, m: ModuleView)
    requires
        module_directive(m.body) is Some,
    ensures
        ({
            let (t, m1) = visit_module(initial_state(file_name, config), m);
            let added = as_items(export_annotations(file_name, t.exported_idents));
            &&& t.in_action_file
            &&& t.has_action
            &&& t.export_actions.len() == 0
            &&& m1.body.len() >= added.len()
            &&& m1.body.skip(m1.body.len() - added.len()) == added
            &&& t.comments.len() > 0
            &&& flat_items(m.body) ==> t.comments.len() == 1
            &&& t.comments.last() == (CommentView {
                pos: m.span.lo,
                text: " __next_internal_action_entry_do_not_use__ "@ + join_texts(
                    exported_names(t.exported_idents),
                    ","@,
                ) + " "@,
            })
        }),
{
    let s = State { start_pos: m.span.lo, ..initial_state(file_name, config) };
    let v = m.body;
    let s1 = State { annotations: Seq::empty(), ..enter_items(s, v) };
    let w = without(v, module_directive(v));
    visit_items_in_turn_extends(s1, w);
    nothing_pending(s1, w);
    reveal(leave_items);
    let (s2, v2) = visit_items_in_turn(s1, w);
    let (t, out) = leave_items(s2, s.annotations, v2);
    let notes = export_annotations(s2.file_name, s2.exported_idents);
    let added = as_items(notes);
    assert(s2.annotations + notes =~= notes);
    assert(out =~= v2 + added);
    assert(out.skip(out.len() - added.len()) =~= added);
    if flat_items(m.body) {
        at_most_one_comment(file_name, config, m);
    }
}

/// Each export of a `"use server"` file is annotated: its three statements
/// stand one after the other, in the order of the exports.
pub proof fn each_export_is_annotated(
    file_name: Seq<char>,
    exports: Seq<(IdView, Seq<char>)>,
    i: int,
)
    requires
        0 <= i < exports.len(),
    ensures
        export_annotations(file_name, exports).len() == 3 * exports.len(),
        export_annotations(file_name, exports).subrange(3 * i, 3 * i + 3) == action_annotations(
            ident_of_id(exports[i].0),
            Seq::empty(),
            file_name,
            exports[i].1,
        ),
    decreases exports.len(),
{
    let init = exports.drop_last();
    let all = export_annotations(file_name, exports);
    let earlier = export_annotations(file_name, init);
    if init.len() == 0 {
        assert(earlier.len() == 0);
    } else {
        each_export_is_annotated(file_name, init, 0);
    }
    if i < init.len() {
        each_export_is_annotated(file_name, init, i);
        assert(all.subrange(3 * i, 3 * i + 3) =~= earlier.subrange(3 * i, 3 * i + 3));
    } else {
        let last = action_annotations(
            ident_of_id(exports.last().0),
            Seq::empty(),
            file_name,
            exports.last().1,
        );
        assert(all.subrange(3 * i, 3 * i + 3) =~= last);
    }
}

/// The generated identifiers are private: they differ from each other, from
/// every closure parameter, and from every identifier of the source.
pub proof fn generated_identifiers_are_private(m: u32, n: u32, source: IdView)
    requires
        source.ctxt is Source,
    ensures
        m != n ==> action_ident(m as nat).id() != action_ident(n as nat).id(),
        action_ident(m as nat).id() != closure_ident(n as nat).id(),
        action_ident(m as nat).id() != source,
        closure_ident(n as nat).id() != source,
{
}

/// What a hoisted function captured is not mentioned in its body any more.
pub proof fn hoisted_function_replaces_captures(n: nat, names: Seq<NameView>, f: FunctionView)
    requires
        !names.contains(ident_name(closure_ident(n))),
    ensures
        hoisted_function(n, names, f).body matches Some(b) ==> free_block(names, b),
{
    if let Some(b) = f.body {
        replaced_block_is_free(replacement(n, names), b);
    }
}

/// What a hoisted arrow function captured is not mentioned in its block any
/// more.
pub proof fn hoisted_arrow_replaces_captures(n: nat, names: Seq<NameView>, a: ArrowView)
    requires
        !names.contains(ident_name(closure_ident(n))),
    ensures
        hoisted_arrow(n, names, a).body matches ArrowBodyView::Block(b) ==> free_block(names, b),
{
    if let ArrowBodyView::Block(b) = a.body {
        replaced_block_is_free(replacement(n, names), b);
    }
}

/// In every state of the walk over a module that does not mention the closure
/// parameter of the next action, that parameter is not among what the next
/// action captures.
pub proof fn closure_is_never_captured(
    file_name: Seq<char>,
    config: Config,
    m: ModuleView,
    s: State,
)
    requires
        free_items(seq![ident_name(closure_ident(s.ident_cnt))], m.body),
        prefix(
            s.action_idents,
            visit_module(initial_state(file_name, config), m).0.action_idents,
        ),
    ensures
        !captures(s).contains(
            ident_name(closure_ident(s.ident_cnt)),
        ),
{
    let own = ident_name(closure_ident(s.ident_cnt));
    let t = visit_module(initial_state(file_name, config), m).0;
    records_mentioned_names(file_name, config, m, seq![own]);
    captured_exactly(used_names(s), bound_around(s));
    reveal(prefix);
    assert(seq![own][0] == own);
    if used_names(s).contains(own) {
        let i = choose|i: int| 0 <= i < used_names(s).len() && used_names(s)[i] == own;
        assert(t.action_idents[i + s.action_start] == own);
    }
}

/// It makes no difference whether an expression is given a name before or
/// after the walk over it.
pub proof fn naming_commutes_with_walk(s: State, i: IdentView, e: ExprView)
    ensures
        visit_expr(s, name_assignment(i, e)) == (
            visit_expr(s, e).0,
            name_assignment(i, visit_expr(s, e).1),
        ),
{
    reveal(finish_expr);
    visit_expr_extends(s, e);
    let define = ExprView::Define(i, Box::new(e));
    assert(visit_expr_children(s, define) == (
        visit_expr(s, e).0,
        ExprView::Define(i, Box::new(visit_expr(s, e).1)),
    ));
    assert(visit_expr(s, define) == visit_expr_children(s, define));
    let paren = ExprView::Paren(Box::new(define));
    assert(visit_expr_children(s, paren) == (
        visit_expr(s, define).0,
        ExprView::Paren(Box::new(visit_expr(s, define).1)),
    ));
}

/// Within a file, actions with different export names have identities that
/// are digests of different texts.
pub proof fn export_names_have_own_locations(file_name: Seq<char>, a: Seq<char>, b: Seq<char>)
    requires
        a != b,
    ensures
        action_location(file_name, a) != action_location(file_name, b),
{
    if action_location(file_name, a) == action_location(file_name, b) {
        let start = encode_utf8(file_name).len() + 1;
        assert(encode_utf8(a) =~= action_location(file_name, a).skip(start as int));
        assert(encode_utf8(b) =~= action_location(file_name, b).skip(start as int));
        encode_utf8_decode_utf8(a);
        encode_utf8_decode_utf8(b);
    }
}

} // verus!
