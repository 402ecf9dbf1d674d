//! The server-actions pass: it finds the functions of a module that are marked
//! `"use server"`, hoists and exports them, and annotates them so that a
//! client can call them by reference.
//!
//! The trees:
//! * `ast`: the syntax trees that the pass reads and writes;
//! * `model`: the same trees as mathematical values;
//! * `names`: identifiers, and the dotted names that expressions spell.
//!
//! The parts of the pass:
//! * `directive`: where the directive stands;
//! * `bindings`: what patterns and declarations bind;
//! * `text`, `digest`: generated names, and the identity of an action;
//! * `closure`, `replace`: what an action captures, and its replacement by
//!   accesses to the closure parameter;
//! * `annotate`: the statements that are added for an action.
//!
//! The pass:
//! * `state`: what is kept during the walk;
//! * `transform`: what the pass does, as a function of state and tree;
//! * `hoist`, `exports`, `visitor`: the walk itself.
//!
//! What holds of it:
//! * `frame`: what the walk never takes back;
//! * `configured`: the configuration has no influence;
//! * `plain`: modules without the directive are left alone;
//! * `prologue`, `repeated`: a second pass changes nothing;
//! * `free`, `mentioned`, `closed`: a hoisted action mentions neither what it
//!   captured nor anything else that is bound around it, and captures nothing but
//!   what the source mentions;
//! * `exported`, `unhoisted`: every action is exported, and nothing is hoisted in
//!   a `"use server"` file;
//! * `vocabulary`: what the names, texts and lists that the pass reads and writes
//!   mean;
//! * `carried`, `untouched`, `placement`: the source is carried over in its order,
//!   and where what is added stands;
//! * `bound`: what is recorded as bound is what the source declares;
//! * `rewritten`, `actions`, `numbering`: what becomes of an action, and the name
//!   under which it is exported;
//! * `file_exports`: what a `"use server"` file may export, and what becomes of
//!   its exports;
//! * `laws`: what holds of the pass as a whole.

pub mod actions;
pub mod annotate;
pub mod ast;
pub mod bindings;
pub mod bound;
pub mod carried;
pub mod closed;
pub mod closure;
pub mod configured;
pub mod digest;
pub mod directive;
pub mod exported;
pub mod exports;
pub mod file_exports;
pub mod frame;
pub mod free;
pub mod hoist;
pub mod laws;
pub mod mentioned;
pub mod model;
pub mod names;
pub mod numbering;
pub mod placement;
pub mod plain;
pub mod prefix;
pub mod prologue;
pub mod repeated;
pub mod replace;
pub mod rewritten;
pub mod state;
pub mod text;
pub mod transform;
pub mod unhoisted;
pub mod untouched;
pub mod visitor;
pub mod vocabulary;

pub use ast::{
    ArrowBody, ArrowExpr, Block, Ctxt, Decl, Declarator, Decorator, DefaultDecl, ExportName,
    ExportSpecifier, Expr, FnDecl, FnExpr, Function, Ident, Member, Module, ModuleItem,
    NamedExport, Node, Origin, Other, Param, Pat, PatForm, PatProp, Prop, Span, Stmt, VarDecl,
    VarKind,
};
pub use names::{Id, Name};
pub use replace::ClosureReplacer;
pub use state::{
    server_actions, Comment, Config, Diagnostic, IdentOverflow, Problem, Scope, ServerActions,
};
