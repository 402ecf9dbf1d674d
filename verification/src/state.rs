//! What the pass keeps while it walks a module.

use vstd::prelude::*;

use crate::ast::{items_view, stmts_view, Ctxt, ModuleItem, Span, Stmt};
use crate::model::{IdView, IdentView, ModuleItemView, StmtView};
use crate::names::{ids_view, names_view, new_ident, Id, Name, NameView};
use crate::text::{action_name, texts_view};

verus! {

/// How the pass is configured.
#[derive(Clone, Copy, PartialEq, Eq, Structural, Debug)]
pub struct Config {
    pub is_server: bool,
}

/// Where in the module the walk is.
#[derive(Clone, Copy, PartialEq, Eq, Structural, Debug)]
pub struct Scope {
    /// Directly in an exported declaration.
    pub in_export_decl: bool,
    /// Directly in the default export.
    pub in_default_export_decl: bool,
    /// Outside of every function.
    pub in_module: bool,
    /// A function around is an action.
    pub in_action_fn: bool,
    /// Names that are met count as used by the action.
    pub in_action_closure: bool,
}

/// What can be wrong with an action.
#[derive(Clone, Copy, PartialEq, Eq, Structural, Debug)]
pub enum Problem {
    /// An action is not an async function.
    NotAsync,
    /// A `"use server"` file exports something that is not an async function.
    DisallowedExport,
}

/// An error that the pass reports.
#[derive(Clone, Copy, PartialEq, Eq, Structural, Debug)]
pub struct Diagnostic {
    pub span: Span,
    pub problem: Problem,
}

impl Diagnostic {
    /// The text of the error.
    pub open spec fn message_text(self) -> Seq<char> {
        match self.problem {
            Problem::NotAsync => "Server actions must be async functions"@,
            Problem::DisallowedExport =>
                "Only async functions are allowed to be exported in a \"use server\" file."@,
        }
    }

    /// The text of the error.
    pub fn message(&self) -> (text: &'static str)
        ensures
            text@ == self.message_text(),
    {
        match self.problem {
            Problem::NotAsync => "Server actions must be async functions",
            Problem::DisallowedExport =>
                "Only async functions are allowed to be exported in a \"use server\" file.",
        }
    }
}

/// A block comment that belongs in front of a position of the source.
#[derive(PartialEq, Eq, Debug)]
pub struct Comment {
    pub pos: u32,
    pub text: String,
}

/// A block comment that belongs in front of a position of the source.
pub ghost struct CommentView {
    pub pos: u32,
    pub text: Seq<char>,
}

/// More identifiers were needed than can be numbered.
#[derive(Clone, Copy, PartialEq, Eq, Structural, Debug)]
pub struct IdentOverflow;

/// The pass.
#[derive(PartialEq, Eq, Debug)]
pub struct ServerActions {
    pub config: Config,
    pub file_name: String,
    /// Where the module starts.
    pub start_pos: u32,
    pub scope: Scope,
    /// The file has the `"use server"` directive.
    pub in_action_file: bool,
    pub has_action: bool,
    /// Directly at the top level of the module.
    pub top_level: bool,
    /// The number of the next generated identifier.
    pub ident_cnt: u32,
    /// What functions bind outside of actions.
    pub closure_idents: Vec<Id>,
    /// What the functions around bind inside of the actions around.
    pub action_locals: Vec<Id>,
    /// The names that actions use.
    pub action_idents: Vec<Name>,
    /// Where among them the names of the current action start.
    pub action_start: usize,
    /// The exports of a `"use server"` file: the binding, and the name under
    /// which it is exported.
    pub exported_idents: Vec<(Id, String)>,
    /// Statements that belong behind the current one.
    pub annotations: Vec<Stmt>,
    /// Items that belong behind the current one.
    pub extra_items: Vec<ModuleItem>,
    /// The names under which hoisted actions are exported.
    pub export_actions: Vec<String>,
    pub errors: Vec<Diagnostic>,
    pub comments: Vec<Comment>,
}

/// The state of the pass as a mathematical value.
pub ghost struct State {
    pub config: Config,
    pub file_name: Seq<char>,
    pub start_pos: u32,
    pub scope: Scope,
    pub in_action_file: bool,
    pub has_action: bool,
    pub top_level: bool,
    pub ident_cnt: nat,
    pub closure_idents: Seq<IdView>,
    pub action_locals: Seq<IdView>,
    pub action_idents: Seq<NameView>,
    pub action_start: nat,
    pub exported_idents: Seq<(IdView, Seq<char>)>,
    pub annotations: Seq<StmtView>,
    pub extra_items: Seq<ModuleItemView>,
    pub export_actions: Seq<Seq<char>>,
    pub errors: Seq<Diagnostic>,
    pub comments: Seq<CommentView>,
}

/// The views of the exports of a file.
pub open spec fn exports_view(v: Seq<(Id, String)>) -> Seq<(IdView, Seq<char>)> {
    Seq::new(v.len(), |i: int| (v[i].0@, v[i].1@))
}

impl Comment {
    pub open spec fn view(&self) -> CommentView {
        CommentView { pos: self.pos, text: self.text@ }
    }
}

/// The views of a list of comments.
pub open spec fn comments_view(v: Seq<Comment>) -> Seq<CommentView> {
    Seq::new(v.len(), |i: int| v[i]@)
}

impl ServerActions {
    pub open spec fn view(&self) -> State {
        State {
            config: self.config,
            file_name: self.file_name@,
            start_pos: self.start_pos,
            scope: self.scope,
            in_action_file: self.in_action_file,
            has_action: self.has_action,
            top_level: self.top_level,
            ident_cnt: self.ident_cnt as nat,
            closure_idents: ids_view(self.closure_idents@),
            action_locals: ids_view(self.action_locals@),
            action_idents: names_view(self.action_idents@),
            action_start: self.action_start as nat,
            exported_idents: exports_view(self.exported_idents@),
            annotations: stmts_view(self.annotations@),
            extra_items: items_view(self.extra_items@),
            export_actions: texts_view(self.export_actions@),
            errors: self.errors@,
            comments: comments_view(self.comments@),
        }
    }
}

/// Small steps, each on one part of the state.
impl ServerActions {
    /// Where in the module the walk is.
    pub fn current_scope(&self) -> (r: Scope)
        ensures
            r == self@.scope,
    {
        self.scope
    }

    /// Moves the walk to another place. Returns where it was.
    pub fn enter(&mut self, scope: Scope) -> (r: Scope)
        ensures
            r == old(self)@.scope,
            final(self)@ == (State { scope, ..old(self)@ }),
    {
        let before = self.scope;
        self.scope = scope;
        before
    }

    /// Whether the file has the `"use server"` directive.
    pub fn is_action_file(&self) -> (r: bool)
        ensures
            r == self@.in_action_file,
    {
        self.in_action_file
    }

    /// Records that the file has the `"use server"` directive.
    pub fn set_action_file(&mut self)
        ensures
            final(self)@ == (State { in_action_file: true, has_action: true, ..old(self)@ }),
    {
        self.in_action_file = true;
        self.has_action = true;
    }

    /// Whether the walk is directly at the top level.
    pub fn is_top_level(&self) -> (r: bool)
        ensures
            r == self@.top_level,
    {
        self.top_level
    }

    /// Says whether the walk is directly at the top level.
    pub fn set_top_level(&mut self, top_level: bool)
        ensures
            final(self)@ == (State { top_level, ..old(self)@ }),
    {
        self.top_level = top_level;
    }

    /// Records where the module starts.
    pub fn set_start(&mut self, start_pos: u32)
        ensures
            final(self)@ == (State { start_pos, ..old(self)@ }),
    {
        self.start_pos = start_pos;
    }

    /// Takes out the statements that belong behind the current one.
    pub fn take_annotations(&mut self) -> (r: Vec<Stmt>)
        ensures
            stmts_view(r@) == old(self)@.annotations,
            final(self)@ == (State { annotations: Seq::empty(), ..old(self)@ }),
    {
        let mut taken: Vec<Stmt> = Vec::new();
        taken.append(&mut self.annotations);
        assert(stmts_view(taken@) =~= old(self)@.annotations);
        assert(self@.annotations =~= Seq::empty());
        taken
    }

    /// Puts statements back that were taken out.
    pub fn put_annotations(&mut self, annotations: Vec<Stmt>)
        ensures
            final(self)@ == (State { annotations: stmts_view(annotations@), ..old(self)@ }),
    {
        self.annotations = annotations;
    }

    /// Records a name that an action uses.
    pub fn use_name(&mut self, name: Name)
        ensures
            final(self)@ == (State {
                action_idents: old(self)@.action_idents.push(name@),
                ..old(self)@
            }),
    {
        self.action_idents.push(name);
        assert(self@.action_idents =~= old(self)@.action_idents.push(name@));
    }
}

/// The state before the walk.
pub open spec fn initial_state(file_name: Seq<char>, config: Config) -> State {
    State {
        config,
        file_name,
        start_pos: 0,
        scope: Scope {
            in_export_decl: false,
            in_default_export_decl: false,
            in_module: true,
            in_action_fn: false,
            in_action_closure: false,
        },
        in_action_file: false,
        has_action: false,
        top_level: false,
        ident_cnt: 0,
        closure_idents: Seq::empty(),
        action_locals: Seq::empty(),
        action_idents: Seq::empty(),
        action_start: 0,
        exported_idents: Seq::empty(),
        annotations: Seq::empty(),
        extra_items: Seq::empty(),
        export_actions: Seq::empty(),
        errors: Seq::empty(),
        comments: Seq::empty(),
    }
}

/// The scope inside a function. What is inside of an action stays inside of it.
pub open spec fn function_scope(outer: Scope, is_action: bool) -> Scope {
    Scope {
        in_export_decl: false,
        in_default_export_decl: false,
        in_module: false,
        in_action_fn: is_action || outer.in_action_fn,
        in_action_closure: true,
    }
}

/// The generated identifier with the given number, private to the pass.
pub open spec fn action_ident(n: nat) -> IdentView {
    new_ident(action_name(n), Span::with_ctxt(Ctxt::Action(n as u32)))
}

/// The parameter through which the action with the given number gets what it
/// captured, private to the pass.
pub open spec fn closure_ident(n: nat) -> IdentView {
    new_ident("closure"@, Span::with_ctxt(Ctxt::Closure(n as u32)))
}

/// The pass over a file.
pub fn server_actions(file_name: &str, config: Config) -> (r: ServerActions)
    ensures
        r@ == initial_state(file_name@, config),
{
    let r = ServerActions {
        config,
        file_name: file_name.to_string(),
        start_pos: 0,
        scope: Scope {
            in_export_decl: false,
            in_default_export_decl: false,
            in_module: true,
            in_action_fn: false,
            in_action_closure: false,
        },
        in_action_file: false,
        has_action: false,
        top_level: false,
        ident_cnt: 0,
        closure_idents: Vec::new(),
        action_locals: Vec::new(),
        action_idents: Vec::new(),
        action_start: 0,
        exported_idents: Vec::new(),
        annotations: Vec::new(),
        extra_items: Vec::new(),
        export_actions: Vec::new(),
        errors: Vec::new(),
        comments: Vec::new(),
    };
    assert(r@.closure_idents =~= Seq::empty());
    assert(r@.action_locals =~= Seq::empty());
    assert(r@.action_idents =~= Seq::empty());
    assert(r@.exported_idents =~= Seq::empty());
    assert(r@.annotations =~= Seq::empty());
    assert(r@.extra_items =~= Seq::empty());
    assert(r@.export_actions =~= Seq::empty());
    assert(r@.errors =~= Seq::empty());
    assert(r@.comments =~= Seq::empty());
    r
}

} // verus!
