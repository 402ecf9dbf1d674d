use server_actions::annotate::{annotate_ident_as_action, make_var_decl};
use server_actions::{
    server_actions, ArrowBody, ArrowExpr, Block, Comment, Config, Ctxt, Decl, Declarator,
    DefaultDecl, Diagnostic, ExportName, ExportSpecifier, Expr, FnDecl, FnExpr, Function, Id,
    Ident, IdentOverflow, Module, ModuleItem, Name, NamedExport, Node, Origin, Other, Param, Pat,
    PatForm, PatProp, Problem, Prop, ServerActions, Span, Stmt, VarDecl, VarKind,
};

const FILE: &str = "app/page.js";

// ---- Trees ----

fn pass() -> ServerActions {
    server_actions(FILE, Config { is_server: true })
}

fn span(lo: u32) -> Span {
    Span {
        lo,
        hi: lo + 1,
        ctxt: Ctxt::Source(0),
    }
}

fn ident(sym: &str) -> Ident {
    Ident {
        sym: sym.to_string(),
        span: Span {
            lo: 20,
            hi: 21,
            ctxt: Ctxt::Source(1),
        },
        optional: false,
    }
}

fn var(sym: &str) -> Expr {
    Expr::Ident(ident(sym))
}

/// What stands for a binding where the pass writes it.
fn spelled(sym: &str) -> Expr {
    Expr::Ident(Ident::new(
        sym.to_string(),
        Span::with_ctxt(Ctxt::Source(1)),
    ))
}

/// A private generated identifier.
fn action(n: u32) -> Ident {
    Ident::new(
        format!("$$ACTION_{}", n),
        Span::with_ctxt(Ctxt::Action(n)),
    )
}

/// A generated identifier in the empty context.
fn plain_action(n: u32) -> Ident {
    Ident::new(format!("$$ACTION_{}", n), Span::dummy())
}

fn closure(n: u32) -> Ident {
    Ident::new("closure".to_string(), Span::with_ctxt(Ctxt::Closure(n)))
}

fn element(n: u32, i: usize) -> Expr {
    Expr::Index(Box::new(Expr::Ident(closure(n))), i)
}

fn directive() -> Stmt {
    Stmt::Expr(
        Origin::Source(1),
        Box::new(Expr::Str(Origin::Source(2), "use server".to_string())),
    )
}

fn block(stmts: Vec<Stmt>) -> Block {
    Block {
        origin: Origin::Source(3),
        stmts,
    }
}

fn ret(e: Expr) -> Stmt {
    Stmt::Return(Box::new(e))
}

fn function(is_async: bool, stmts: Vec<Stmt>) -> Function {
    Function {
        origin: Origin::Source(4),
        span: span(40),
        params: vec![],
        decorators: vec![],
        body: Some(block(stmts)),
        is_async,
        is_generator: false,
    }
}

fn fn_decl(name: &str, function: Function) -> Decl {
    Decl::Fn(FnDecl {
        origin: Origin::Source(5),
        ident: ident(name),
        function,
    })
}

fn arrow(is_async: bool, body: ArrowBody) -> ArrowExpr {
    ArrowExpr {
        origin: Origin::Source(6),
        span: span(60),
        params: vec![],
        body,
        is_async,
        is_generator: false,
    }
}

fn pat(form: PatForm) -> Pat {
    Pat {
        origin: Origin::Source(7),
        form,
        exprs: vec![],
    }
}

fn param(form: PatForm) -> Param {
    Param {
        origin: Origin::Source(8),
        decorators: vec![],
        pat: pat(form),
    }
}

fn const_decl(name: &str, init: Option<Expr>) -> Decl {
    Decl::Var(VarDecl {
        origin: Origin::Source(9),
        kind: VarKind::Const,
        decls: vec![Declarator {
            origin: Origin::Source(10),
            name: pat(PatForm::Ident(ident(name))),
            init: init.map(Box::new),
        }],
    })
}

fn other(kids: Vec<Node>) -> Other {
    Other { source: 11, kids }
}

fn stmt_item(s: Stmt) -> ModuleItem {
    ModuleItem::Stmt(s)
}

fn decl_item(d: Decl) -> ModuleItem {
    ModuleItem::Stmt(Stmt::Decl(d))
}

fn module(body: Vec<ModuleItem>) -> Module {
    Module {
        span: span(17),
        body,
    }
}

fn annotations(ident: &Ident, bound: Vec<Expr>, export_name: &str) -> Vec<ModuleItem> {
    let mut stmts = vec![];
    annotate_ident_as_action(&mut stmts, ident, bound, FILE, export_name);
    stmts.into_iter().map(ModuleItem::Stmt).collect()
}

fn export_const(name: Ident, value: Expr) -> ModuleItem {
    ModuleItem::ExportDecl(
        Span::dummy(),
        make_var_decl(VarKind::Const, name, Some(Box::new(value))),
    )
}

fn bound_call(n: u32, ident: Ident) -> Expr {
    Expr::Call(
        Box::new(Expr::Ident(action(n))),
        vec![Expr::access(
            Expr::Ident(ident),
            "$$bound".to_string(),
            true,
        )],
    )
}

fn comment(names: &str) -> Comment {
    Comment {
        pos: 17,
        text: format!(" __next_internal_action_entry_do_not_use__ {} ", names),
    }
}

fn error(span: Span, problem: Problem) -> Diagnostic {
    Diagnostic { span, problem }
}

/// Walks a `"use server"` file with one item.
fn walk_use_server(item: ModuleItem) -> (ServerActions, Module) {
    let mut p = pass();
    let m = p
        .visit_mut_module(module(vec![stmt_item(directive()), item]))
        .unwrap();
    (p, m)
}

// ---- Outside of `"use server"` files ----

#[test]
fn top_level_action_stays_in_place() {
    let mut p = pass();
    let save = function(true, vec![directive(), ret(var("x"))]);
    let m = p
        .visit_mut_module(module(vec![decl_item(fn_decl("save", save))]))
        .unwrap();

    let mut expected = vec![decl_item(fn_decl(
        "save",
        function(true, vec![ret(var("x"))]),
    ))];
    expected.extend(annotations(&ident("save"), vec![], "$$ACTION_0"));
    expected.push(export_const(action(0), var("save")));
    assert_eq!(m, module(expected));
    assert_eq!(p.comments, vec![comment("$$ACTION_0")]);
    assert_eq!(p.export_actions, vec!["$$ACTION_0".to_string()]);
    assert_eq!(p.errors, vec![]);
    assert_eq!(p.ident_cnt, 1);
}

#[test]
fn nested_function_is_hoisted() {
    // function Page({ a }) {
    //     const b;
    //     async function save() { "use server"; return [a, b.c, d]; }
    // }
    let mut page = function(
        false,
        vec![
            Stmt::Decl(const_decl("b", None)),
            Stmt::Decl(fn_decl(
                "save",
                function(
                    true,
                    vec![
                        directive(),
                        ret(Expr::Array(vec![
                            var("a"),
                            Expr::access(var("b"), "c".to_string(), true),
                            var("d"),
                        ])),
                    ],
                ),
            )),
        ],
    );
    page.params = vec![param(PatForm::Object(vec![PatProp::Assign(ident("a"))]))];
    let mut p = pass();
    let m = p
        .visit_mut_module(module(vec![decl_item(fn_decl("Page", page))]))
        .unwrap();

    let mut stub = function(true, vec![]);
    stub.origin = Origin::Synthetic;
    stub.body = Some(Block {
        origin: Origin::Synthetic,
        stmts: vec![ret(bound_call(0, ident("save")))],
    });
    let mut stmts = vec![
        Stmt::Decl(const_decl("b", None)),
        Stmt::Decl(fn_decl("save", stub)),
    ];
    let bound = vec![
        spelled("a"),
        Expr::access(spelled("b"), "c".to_string(), true),
    ];
    annotate_ident_as_action(&mut stmts, &ident("save"), bound, FILE, "$$ACTION_0");
    let mut page_after = function(false, stmts);
    page_after.params = vec![param(PatForm::Object(vec![PatProp::Assign(ident("a"))]))];

    let mut hoisted = function(
        true,
        vec![ret(Expr::Array(vec![
            element(0, 0),
            element(0, 1),
            var("d"),
        ]))],
    );
    hoisted.params = vec![Param {
        origin: Origin::Synthetic,
        decorators: vec![],
        pat: Pat::from_ident(closure(0)),
    }];
    let expected = vec![
        decl_item(fn_decl("Page", page_after)),
        ModuleItem::ExportDecl(
            Span::dummy(),
            Decl::Fn(FnDecl {
                origin: Origin::Synthetic,
                ident: action(0),
                function: hoisted,
            }),
        ),
    ];
    assert_eq!(m, module(expected));
    assert_eq!(p.comments, vec![comment("$$ACTION_0")]);
    assert!(p.scope.in_module);
}

#[test]
fn parameters_of_an_action_are_not_captured() {
    // function Page() { async function save(a) { "use server"; return a; } }
    let mut save = function(true, vec![directive(), ret(var("a"))]);
    save.params = vec![param(PatForm::Ident(ident("a")))];
    let page = function(false, vec![Stmt::Decl(fn_decl("save", save))]);
    let mut p = pass();
    p.visit_mut_module(module(vec![decl_item(fn_decl("Page", page))]))
        .unwrap();
    assert_eq!(p.closure_idents, vec![]);
    assert_eq!(
        p.action_idents,
        vec![Name {
            id: ident("a").to_id(),
            props: vec![]
        }]
    );
}

#[test]
fn arrow_function_is_named_and_hoisted() {
    // const f = async () => { "use server"; return x; };
    let mut p = pass();
    let body = ArrowBody::Block(block(vec![directive(), ret(var("x"))]));
    let m = p
        .visit_mut_module(module(vec![decl_item(const_decl(
            "f",
            Some(Expr::Arrow(arrow(true, body))),
        ))]))
        .unwrap();

    let mut stub = arrow(true, ArrowBody::Expr(Box::new(bound_call(1, action(0)))));
    stub.origin = Origin::Synthetic;
    stub.span = Span::dummy();
    let named = Expr::Paren(Box::new(Expr::Define(
        action(0),
        Box::new(Expr::Arrow(stub)),
    )));
    let mut hoisted = arrow(true, ArrowBody::Block(block(vec![ret(var("x"))])));
    hoisted.params = vec![Pat::from_ident(closure(1))];
    let mut expected = vec![decl_item(const_decl("f", Some(named)))];
    expected.extend(annotations(&action(0), vec![], "$$ACTION_1"));
    expected.push(export_const(action(1), Expr::Arrow(hoisted)));
    expected.push(decl_item(make_var_decl(VarKind::Var, action(0), None)));
    assert_eq!(m, module(expected));
    assert_eq!(p.export_actions, vec!["$$ACTION_1".to_string()]);
    assert_eq!(p.ident_cnt, 2);
}

#[test]
fn default_function_is_exported_as_default() {
    // export default async function () { "use server"; }
    let mut p = pass();
    let f = FnExpr {
        ident: None,
        function: function(true, vec![directive()]),
    };
    let m = p
        .visit_mut_module(module(vec![ModuleItem::ExportDefaultDecl(
            span(30),
            DefaultDecl::Fn(f),
        )]))
        .unwrap();
    let mut expected = vec![ModuleItem::ExportDefaultDecl(
        span(30),
        DefaultDecl::Fn(FnExpr {
            ident: Some(plain_action(0)),
            function: function(true, vec![]),
        }),
    )];
    expected.extend(annotations(&plain_action(0), vec![], "default"));
    expected.push(export_const(action(1), Expr::Ident(plain_action(0))));
    assert_eq!(m, module(expected));
    assert_eq!(p.comments, vec![comment("default")]);
}

#[test]
fn actions_are_listed_in_order() {
    let mut p = pass();
    p.visit_mut_module(module(vec![
        decl_item(fn_decl("a", function(true, vec![directive()]))),
        decl_item(fn_decl("b", function(true, vec![directive()]))),
    ]))
    .unwrap();
    assert_eq!(p.comments, vec![comment("$$ACTION_0,$$ACTION_1")]);
    assert!(p.has_action);
    assert!(!p.in_action_file);
    assert_eq!(p.exported_idents, vec![]);
}

#[test]
fn module_without_directive_is_unchanged() {
    let body = || {
        vec![
            decl_item(fn_decl(
                "a",
                function(false, vec![Stmt::Decl(const_decl("b", None)), ret(var("b"))]),
            )),
            ModuleItem::ExportDefaultExpr(span(30), Box::new(var("a"))),
            ModuleItem::ExportAll(span(31), other(vec![])),
            ModuleItem::Other(other(vec![Node::Expr(Expr::Arrow(arrow(
                true,
                ArrowBody::Expr(Box::new(var("x"))),
            )))])),
        ]
    };
    let mut p = pass();
    assert_eq!(p.visit_mut_module(module(body())), Ok(module(body())));
    assert_eq!(p.comments, vec![]);
    assert_eq!(p.errors, vec![]);
    assert_eq!(p.ident_cnt, 0);
}

#[test]
fn annotations_follow_their_statement() {
    // { async function save() { "use server"; } x; }
    let mut p = pass();
    let stmts = vec![
        Stmt::Decl(fn_decl("save", function(true, vec![directive()]))),
        ret(var("x")),
    ];
    let out = p.visit_mut_stmts(stmts).unwrap();
    assert_eq!(out.len(), 5);
    assert_eq!(out[4], ret(var("x")));
    let expected: Vec<Stmt> = annotations(&ident("save"), vec![], "$$ACTION_0")
        .into_iter()
        .map(|item| match item {
            ModuleItem::Stmt(s) => s,
            _ => panic!("a statement"),
        })
        .collect();
    assert_eq!(out[1..4], expected[..]);
}

// ---- `"use server"` files ----

#[test]
fn exports_are_annotated_at_the_end() {
    let mut p = pass();
    let named = || {
        ModuleItem::ExportNamed(NamedExport {
            span: span(31),
            specifiers: vec![
                ExportSpecifier::Named(ExportName::Ident(ident("c")), None),
                ExportSpecifier::Named(
                    ExportName::Ident(ident("d")),
                    Some(ExportName::Ident(ident("e"))),
                ),
                ExportSpecifier::Named(
                    ExportName::Ident(ident("f")),
                    Some(ExportName::Str("g h".to_string())),
                ),
            ],
            has_src: false,
            rest: other(vec![]),
        })
    };
    let init = || {
        Expr::Arrow(arrow(
            true,
            ArrowBody::Block(block(vec![ret(var("x"))])),
        ))
    };
    let m = p
        .visit_mut_module(module(vec![
            stmt_item(directive()),
            ModuleItem::ExportDecl(span(30), fn_decl("a", function(true, vec![]))),
            ModuleItem::ExportDecl(span(32), const_decl("b", Some(init()))),
            named(),
            decl_item(fn_decl("local", function(false, vec![]))),
        ]))
        .unwrap();

    let mut expected = vec![
        ModuleItem::ExportDecl(span(30), fn_decl("a", function(true, vec![]))),
        ModuleItem::ExportDecl(span(32), const_decl("b", Some(init()))),
        named(),
        decl_item(fn_decl("local", function(false, vec![]))),
    ];
    let at = |sym: &str| Ident::new(sym.to_string(), Span::with_ctxt(Ctxt::Source(1)));
    expected.extend(annotations(&at("a"), vec![], "a"));
    expected.extend(annotations(&at("b"), vec![], "b"));
    expected.extend(annotations(&at("c"), vec![], "c"));
    expected.extend(annotations(&at("d"), vec![], "e"));
    expected.extend(annotations(&at("f"), vec![], "g h"));
    assert_eq!(m, module(expected));
    assert_eq!(p.errors, vec![]);
    assert_eq!(p.comments, vec![comment("a,b,c,e,g h")]);
    assert_eq!(p.export_actions, Vec::<String>::new());
}

#[test]
fn default_arrow_is_named() {
    let expr = || Expr::Arrow(arrow(true, ArrowBody::Expr(Box::new(var("x")))));
    let (p, m) = walk_use_server(ModuleItem::ExportDefaultExpr(span(30), Box::new(expr())));
    let named = Expr::Paren(Box::new(Expr::Define(plain_action(0), Box::new(expr()))));
    let mut expected = vec![
        ModuleItem::ExportDefaultExpr(span(30), Box::new(named)),
        decl_item(make_var_decl(VarKind::Var, plain_action(0), None)),
    ];
    expected.extend(annotations(&plain_action(0), vec![], "default"));
    assert_eq!(m, module(expected));
    assert_eq!(p.comments, vec![comment("default")]);
}

#[test]
fn default_function_is_named() {
    let f = FnExpr {
        ident: None,
        function: function(true, vec![]),
    };
    let (p, m) = walk_use_server(ModuleItem::ExportDefaultDecl(
        span(30),
        DefaultDecl::Fn(f),
    ));
    assert_eq!(
        m.body[0],
        ModuleItem::ExportDefaultDecl(
            span(30),
            DefaultDecl::Fn(FnExpr {
                ident: Some(plain_action(0)),
                function: function(true, vec![]),
            })
        )
    );
    assert_eq!(m.body.len(), 4);
    assert_eq!(
        p.exported_idents,
        vec![(plain_action(0).to_id(), "default".to_string())]
    );
}

#[test]
fn default_binding_and_named_default_function() {
    let (p, m) = walk_use_server(ModuleItem::ExportDefaultExpr(
        span(30),
        Box::new(var("foo")),
    ));
    assert_eq!(
        p.exported_idents,
        vec![(ident("foo").to_id(), "default".to_string())]
    );
    assert_eq!(m.body.len(), 4);
    let f = FnExpr {
        ident: Some(ident("foo")),
        function: function(true, vec![]),
    };
    let (p, _) = walk_use_server(ModuleItem::ExportDefaultDecl(
        span(30),
        DefaultDecl::Fn(f),
    ));
    assert_eq!(
        p.exported_idents,
        vec![(ident("foo").to_id(), "default".to_string())]
    );
    assert_eq!(p.ident_cnt, 0);
}

#[test]
fn nothing_is_hoisted_in_a_use_server_file() {
    let inner = function(true, vec![directive()]);
    let (p, m) = walk_use_server(ModuleItem::ExportDecl(
        span(30),
        fn_decl(
            "a",
            function(true, vec![Stmt::Decl(fn_decl("inner", inner))]),
        ),
    ));
    // The directive of the inner function goes, and it stays where it is.
    let expected = fn_decl(
        "a",
        function(
            true,
            vec![Stmt::Decl(fn_decl("inner", function(true, vec![])))],
        ),
    );
    assert_eq!(m.body[0], ModuleItem::ExportDecl(span(30), expected));
    assert_eq!(m.body.len(), 4);
    assert_eq!(p.export_actions, Vec::<String>::new());
    assert_eq!(p.closure_idents, Vec::<Id>::new());
}

#[test]
fn patterns_are_exported_under_their_own_names() {
    let decl = Decl::Var(VarDecl {
        origin: Origin::Source(9),
        kind: VarKind::Const,
        decls: vec![Declarator {
            origin: Origin::Source(10),
            name: pat(PatForm::Array(vec![
                Some(PatForm::Ident(ident("a"))),
                Some(PatForm::Ident(ident("b"))),
            ])),
            init: Some(Box::new(Expr::Arrow(arrow(
                true,
                ArrowBody::Expr(Box::new(var("x"))),
            )))),
        }],
    });
    let (p, _) = walk_use_server(ModuleItem::ExportDecl(span(30), decl));
    assert_eq!(
        p.exported_idents,
        vec![
            (ident("a").to_id(), "a".to_string()),
            (ident("b").to_id(), "b".to_string())
        ]
    );
    assert_eq!(p.errors, vec![]);
}

// ---- Errors ----

#[test]
fn actions_have_to_be_async() {
    let mut p = pass();
    let body = ArrowBody::Block(block(vec![directive()]));
    p.visit_mut_module(module(vec![
        decl_item(fn_decl("a", function(false, vec![directive()]))),
        stmt_item(ret(Expr::Fn(FnExpr {
            ident: None,
            function: function(false, vec![directive()]),
        }))),
        stmt_item(ret(Expr::Arrow(arrow(false, body)))),
    ]))
    .unwrap();
    // A declaration is reported at its name, the others at the function.
    assert_eq!(
        p.errors,
        vec![
            error(ident("a").span, Problem::NotAsync),
            error(span(40), Problem::NotAsync),
            error(span(60), Problem::NotAsync),
        ]
    );
    assert_eq!(
        p.errors[0].message(),
        "Server actions must be async functions"
    );
    // Only the arrow function is hoisted all the same.
    assert_eq!(p.export_actions, vec!["$$ACTION_1".to_string()]);
}

#[test]
fn exported_functions_have_to_be_async() {
    let (p, _) = walk_use_server(ModuleItem::ExportDecl(
        span(30),
        fn_decl("a", function(false, vec![])),
    ));
    assert_eq!(p.errors, vec![error(ident("a").span, Problem::NotAsync)]);
}

#[test]
fn only_functions_are_exported() {
    let disallowed = || vec![error(span(30), Problem::DisallowedExport)];
    let errors = |item: ModuleItem| walk_use_server(item).0.errors;

    let one = Expr::Other(other(vec![]));
    let var_decl = const_decl("a", Some(one));
    assert_eq!(
        errors(ModuleItem::ExportDecl(span(30), var_decl)),
        disallowed()
    );
    let class = Decl::Other(other(vec![]));
    assert_eq!(errors(ModuleItem::ExportDecl(span(30), class)), disallowed());
    // export const a = () => x;
    let sync = Expr::Arrow(arrow(false, ArrowBody::Expr(Box::new(var("x")))));
    assert_eq!(
        errors(ModuleItem::ExportDecl(
            span(30),
            const_decl("a", Some(sync))
        )),
        disallowed()
    );
    // export let a;
    assert_eq!(
        errors(ModuleItem::ExportDecl(span(30), const_decl("a", None))),
        disallowed()
    );
    // export const a = function () {};
    let function_expr = Expr::Fn(FnExpr {
        ident: None,
        function: function(false, vec![]),
    });
    assert_eq!(
        errors(ModuleItem::ExportDecl(
            span(30),
            const_decl("a", Some(function_expr))
        )),
        vec![error(span(40), Problem::NotAsync)]
    );
    let named = |specifiers: Vec<ExportSpecifier>, has_src: bool| {
        ModuleItem::ExportNamed(NamedExport {
            span: span(30),
            specifiers,
            has_src,
            rest: other(vec![]),
        })
    };
    assert_eq!(errors(named(vec![], true)), disallowed());
    assert_eq!(
        errors(named(vec![ExportSpecifier::Other], false)),
        disallowed()
    );
    let text = ExportSpecifier::Named(ExportName::Str("a".to_string()), None);
    assert_eq!(errors(named(vec![text], false)), disallowed());
    assert_eq!(errors(named(vec![], false)), vec![]);
    let class = DefaultDecl::Other(other(vec![]));
    assert_eq!(
        errors(ModuleItem::ExportDefaultDecl(span(30), class)),
        disallowed()
    );
    let sync = Expr::Arrow(arrow(false, ArrowBody::Expr(Box::new(var("x")))));
    assert_eq!(
        errors(ModuleItem::ExportDefaultExpr(span(30), Box::new(sync))),
        disallowed()
    );
    let call = Expr::Call(Box::new(var("f")), vec![]);
    assert_eq!(
        errors(ModuleItem::ExportDefaultExpr(span(30), Box::new(call))),
        disallowed()
    );
    assert_eq!(
        errors(ModuleItem::ExportAll(span(30), other(vec![]))),
        disallowed()
    );
    assert_eq!(
        disallowed()[0].message(),
        "Only async functions are allowed to be exported in a \"use server\" file."
    );
}

#[test]
fn exports_without_a_place_are_not_reported() {
    let (p, _) = walk_use_server(ModuleItem::ExportAll(Span::dummy(), other(vec![])));
    assert_eq!(p.errors, vec![]);
}

#[test]
fn numbers_can_run_out() {
    let mut p = pass();
    p.ident_cnt = u32::MAX;
    let m = module(vec![decl_item(fn_decl(
        "a",
        function(true, vec![directive()]),
    ))]);
    assert_eq!(p.visit_mut_module(m), Err(IdentOverflow));
    let mut p = pass();
    p.ident_cnt = u32::MAX - 1;
    let m = module(vec![decl_item(fn_decl(
        "a",
        function(true, vec![directive()]),
    ))]);
    assert!(p.visit_mut_module(m).is_ok());
    assert_eq!(p.export_actions, vec!["$$ACTION_4294967294".to_string()]);
}

// ---- The pass as a whole ----

#[test]
fn pass_starts_in_the_module() {
    let p = pass();
    assert!(p.scope.in_module);
    assert!(!p.scope.in_export_decl && !p.scope.in_default_export_decl);
    assert!(!p.scope.in_action_fn && !p.scope.in_action_closure);
    assert_eq!(p.file_name, FILE);
    assert_eq!(p.config, Config { is_server: true });
    assert!(!p.has_action && !p.in_action_file && !p.top_level);
    assert_eq!((p.start_pos, p.ident_cnt), (0, 0));
}

#[test]
fn names_given_before_or_after_the_walk() {
    let value = || {
        let f = arrow(true, ArrowBody::Expr(Box::new(var("b"))));
        Expr::Array(vec![var("a"), Expr::Arrow(f)])
    };
    let named = |e: Expr| Expr::Paren(Box::new(Expr::Define(ident("n"), Box::new(e))));
    let mut p = pass();
    let mut q = pass();
    let before = p.visit_mut_expr(named(value())).unwrap();
    let after = named(q.visit_mut_expr(value()).unwrap());
    assert_eq!(before, after);
    assert_eq!(p, q);
}

#[test]
fn generated_identifiers_differ() {
    assert_ne!(action(0).to_id(), action(1).to_id());
    assert_ne!(action(0).to_id(), plain_action(0).to_id());
    assert_ne!(closure(0).to_id(), closure(1).to_id());
    assert_ne!(action(0).sym, action(1).sym);
}

#[test]
fn each_hoisted_action_is_exported_under_its_number() {
    // function Page() { async function a() { "use server"; } (async () => { "use server"; }); }
    let body = ArrowBody::Block(block(vec![directive()]));
    let page = function(
        false,
        vec![
            Stmt::Decl(fn_decl("a", function(true, vec![directive()]))),
            ret(Expr::Arrow(arrow(true, body))),
        ],
    );
    let mut p = pass();
    let m = p
        .visit_mut_module(module(vec![decl_item(fn_decl("Page", page))]))
        .unwrap();
    let mut exported = vec![];
    for item in &m.body {
        match item {
            ModuleItem::ExportDecl(_, Decl::Fn(f)) => exported.push(f.ident.sym.to_string()),
            ModuleItem::ExportDecl(_, Decl::Var(v)) => match &v.decls[0].name.form {
                PatForm::Ident(i) => exported.push(i.sym.to_string()),
                _ => panic!("a name"),
            },
            _ => {}
        }
    }
    assert_eq!(exported, vec!["$$ACTION_0", "$$ACTION_2"]);
    assert_eq!(p.export_actions, exported);
}

#[test]
fn namespaces_without_actions_are_kept() {
    let namespace = || {
        decl_item(Decl::Other(other(vec![Node::Items(vec![decl_item(
            fn_decl("f", function(false, vec![ret(var("x"))])),
        )])])))
    };
    let mut p = pass();
    let m = p
        .visit_mut_module(module(vec![
            decl_item(fn_decl("a", function(true, vec![directive()]))),
            namespace(),
        ]))
        .unwrap();
    assert_eq!(m.body.len(), 6);
    assert_eq!(m.body[4], export_const(action(0), var("a")));
    assert_eq!(m.body[5], namespace());
    assert_eq!(p.export_actions, vec!["$$ACTION_0".to_string()]);
    // The comment is added for the namespace, too.
    assert_eq!(
        p.comments,
        vec![comment("$$ACTION_0"), comment("$$ACTION_0")]
    );
}

#[test]
fn names_that_are_not_mentioned_are_not_recorded() {
    let page = function(
        false,
        vec![
            Stmt::Decl(const_decl("a", None)),
            Stmt::Decl(fn_decl(
                "save",
                function(true, vec![directive(), ret(var("a"))]),
            )),
        ],
    );
    let mut p = pass();
    p.visit_mut_module(module(vec![decl_item(fn_decl("Page", page))]))
        .unwrap();
    let names: Vec<String> = p.action_idents.iter().map(|n| n.id.sym.to_string()).collect();
    assert_eq!(names, vec!["a"]);
    assert!(p.action_idents.iter().all(|n| n.id != closure(0).to_id()));
}

#[test]
fn default_function_expression_is_named() {
    let f = |ident: Option<Ident>| {
        Expr::Fn(FnExpr {
            ident,
            function: function(true, vec![]),
        })
    };
    // The name of a function expression is not bound in the module.
    for own in [None, Some("foo")] {
        let (p, m) = walk_use_server(ModuleItem::ExportDefaultExpr(
            span(30),
            Box::new(f(own.map(ident))),
        ));
        let named = Expr::Paren(Box::new(Expr::Define(
            plain_action(0),
            Box::new(f(own.map(ident))),
        )));
        let mut expected = vec![
            ModuleItem::ExportDefaultExpr(span(30), Box::new(named)),
            decl_item(make_var_decl(VarKind::Var, plain_action(0), None)),
        ];
        expected.extend(annotations(&plain_action(0), vec![], "default"));
        assert_eq!(m, module(expected));
        assert_eq!(p.comments, vec![comment("default")]);
        assert_eq!(
            p.exported_idents,
            vec![(plain_action(0).to_id(), "default".to_string())]
        );
        assert_eq!(p.errors, vec![]);
    }
}

#[test]
fn default_function_expression_has_to_be_async() {
    let f = Expr::Fn(FnExpr {
        ident: None,
        function: function(false, vec![]),
    });
    let (p, _) = walk_use_server(ModuleItem::ExportDefaultExpr(span(30), Box::new(f)));
    assert_eq!(p.errors, vec![error(span(40), Problem::NotAsync)]);
}

// ---- What actions capture ----

fn action_decl(name: &str, stmts: Vec<Stmt>) -> Stmt {
    let mut all = vec![directive()];
    all.extend(stmts);
    Stmt::Decl(fn_decl(name, function(true, all)))
}

fn stub_decl(name: &str, n: u32) -> Stmt {
    let mut stub = function(true, vec![]);
    stub.origin = Origin::Synthetic;
    stub.body = Some(Block {
        origin: Origin::Synthetic,
        stmts: vec![ret(bound_call(n, ident(name)))],
    });
    Stmt::Decl(fn_decl(name, stub))
}

fn hoisted_decl(n: u32, stmts: Vec<Stmt>) -> ModuleItem {
    let mut hoisted = function(true, stmts);
    hoisted.params = vec![Param {
        origin: Origin::Synthetic,
        decorators: vec![],
        pat: Pat::from_ident(closure(n)),
    }];
    ModuleItem::ExportDecl(
        Span::dummy(),
        Decl::Fn(FnDecl {
            origin: Origin::Synthetic,
            ident: action(n),
            function: hoisted,
        }),
    )
}

fn call(callee: &str, arg: Expr) -> Expr {
    Expr::Call(Box::new(var(callee)), vec![arg])
}

/// Walks over a module that declares one function, and gives the statements of
/// its body and what follows it.
fn walk_function(params: &[&str], stmts: Vec<Stmt>) -> (Vec<Stmt>, Vec<ModuleItem>) {
    let mut f = function(false, stmts);
    f.params = params
        .iter()
        .map(|name| param(PatForm::Ident(ident(name))))
        .collect();
    let mut p = pass();
    let m = p
        .visit_mut_module(module(vec![decl_item(fn_decl("C", f))]))
        .unwrap();
    let mut items = m.body.into_iter();
    match items.next() {
        Some(ModuleItem::Stmt(Stmt::Decl(Decl::Fn(f)))) => {
            (f.function.body.unwrap().stmts, items.collect())
        }
        _ => panic!("a function"),
    }
}

fn push_bound(stmts: &mut Vec<Stmt>, name: &str, bound: Vec<Expr>, n: u32) {
    let export = format!("$$ACTION_{}", n);
    annotate_ident_as_action(stmts, &ident(name), bound, FILE, &export);
}

#[test]
fn each_action_binds_its_own_names() {
    // function C(a, b) {
    //     async function g() { "use server"; return db(a); }
    //     async function h() { "use server"; return db(b); }
    // }
    let (stmts, items) = walk_function(
        &["a", "b"],
        vec![
            action_decl("g", vec![ret(call("db", var("a")))]),
            action_decl("h", vec![ret(call("db", var("b")))]),
        ],
    );
    let mut expected = vec![stub_decl("g", 0)];
    push_bound(&mut expected, "g", vec![spelled("a")], 0);
    expected.push(stub_decl("h", 1));
    push_bound(&mut expected, "h", vec![spelled("b")], 1);
    assert_eq!(stmts, expected);
    assert_eq!(
        items,
        vec![
            hoisted_decl(0, vec![ret(call("db", element(0, 0)))]),
            hoisted_decl(1, vec![ret(call("db", element(1, 0)))]),
        ]
    );
}

#[test]
fn names_in_nested_functions_are_captured() {
    // function C(x) { async function g() { "use server"; return f(() => x); } }
    let lambda = |e: Expr| Expr::Arrow(arrow(false, ArrowBody::Expr(Box::new(e))));
    let (stmts, items) = walk_function(
        &["x"],
        vec![action_decl("g", vec![ret(call("f", lambda(var("x"))))])],
    );
    let mut expected = vec![stub_decl("g", 0)];
    push_bound(&mut expected, "g", vec![spelled("x")], 0);
    assert_eq!(stmts, expected);
    assert_eq!(
        items,
        vec![hoisted_decl(
            0,
            vec![ret(call("f", lambda(element(0, 0))))]
        )]
    );
}

#[test]
fn locals_of_nested_functions_are_not_captured() {
    // function C(x) { async function g() { "use server"; return f((y) => y); } }
    let lambda = || {
        let mut a = arrow(false, ArrowBody::Expr(Box::new(var("y"))));
        a.params = vec![pat(PatForm::Ident(ident("y")))];
        Expr::Arrow(a)
    };
    let (stmts, items) = walk_function(
        &["x"],
        vec![action_decl("g", vec![ret(call("f", lambda()))])],
    );
    let mut expected = vec![stub_decl("g", 0)];
    push_bound(&mut expected, "g", vec![], 0);
    assert_eq!(stmts, expected);
    assert_eq!(
        items,
        vec![hoisted_decl(0, vec![ret(call("f", lambda()))])]
    );
}

#[test]
fn names_are_handed_on_to_the_action_around() {
    // function C(x) {
    //     async function outer() {
    //         "use server";
    //         const y;
    //         async function inner() { "use server"; return f([x, y]); }
    //     }
    // }
    let (stmts, items) = walk_function(
        &["x"],
        vec![action_decl(
            "outer",
            vec![
                Stmt::Decl(const_decl("y", None)),
                action_decl(
                    "inner",
                    vec![ret(call("f", Expr::Array(vec![var("x"), var("y")])))],
                ),
            ],
        )],
    );
    let mut expected = vec![stub_decl("outer", 1)];
    push_bound(&mut expected, "outer", vec![spelled("x")], 1);
    assert_eq!(stmts, expected);
    let mut outer = vec![
        Stmt::Decl(const_decl("y", None)),
        stub_decl("inner", 0),
    ];
    // The captured `x` is an element of the closure in the hoisted body.
    push_bound(
        &mut outer,
        "inner",
        vec![element(1, 0), spelled("y")],
        0,
    );
    let elements = Expr::Array(vec![element(0, 0), element(0, 1)]);
    assert_eq!(
        items,
        vec![
            hoisted_decl(0, vec![ret(call("f", elements))]),
            hoisted_decl(1, outer),
        ]
    );
}

#[test]
fn parameters_of_arrow_functions_are_captured() {
    // const C = (x) => { async function g() { "use server"; return x; } };
    let mut c = arrow(
        false,
        ArrowBody::Block(block(vec![action_decl("g", vec![ret(var("x"))])])),
    );
    c.params = vec![pat(PatForm::Ident(ident("x")))];
    let mut p = pass();
    let m = p
        .visit_mut_module(module(vec![decl_item(const_decl(
            "C",
            Some(Expr::Arrow(c)),
        ))]))
        .unwrap();
    assert_eq!(m.body.len(), 2);
    assert_eq!(m.body[1], hoisted_decl(0, vec![ret(element(0, 0))]));
    assert_eq!(p.closure_idents, vec![ident("x").to_id()]);
}

#[test]
fn shorthand_properties_are_captured() {
    // function C(x) { async function g() { "use server"; return { x }; } }
    let object = |p: Prop| Expr::Other(other(vec![Node::Prop(p)]));
    let (stmts, items) = walk_function(
        &["x"],
        vec![action_decl(
            "g",
            vec![ret(object(Prop::Shorthand(ident("x"))))],
        )],
    );
    let mut expected = vec![stub_decl("g", 0)];
    push_bound(&mut expected, "g", vec![spelled("x")], 0);
    assert_eq!(stmts, expected);
    let written = Prop::KeyValue(ident("x"), Box::new(element(0, 0)));
    assert_eq!(
        items,
        vec![hoisted_decl(0, vec![ret(object(written))])]
    );
}

// ---- Several passes ----

fn sample() -> Module {
    let body = ArrowBody::Block(block(vec![directive(), ret(var("x"))]));
    let mut page = function(
        false,
        vec![
            action_decl("a", vec![ret(var("x"))]),
            ret(Expr::Arrow(arrow(true, body))),
            Stmt::Decl(fn_decl("b", function(false, vec![directive()]))),
        ],
    );
    page.params = vec![param(PatForm::Ident(ident("x")))];
    module(vec![decl_item(fn_decl("Page", page))])
}

#[test]
fn configuration_makes_no_difference() {
    let mut p = server_actions(FILE, Config { is_server: true });
    let mut q = server_actions(FILE, Config { is_server: false });
    assert_eq!(p.visit_mut_module(sample()), q.visit_mut_module(sample()));
    assert_eq!(p.comments, q.comments);
    assert_eq!(p.errors, q.errors);
    assert_eq!(p.errors.len(), 1);
}

#[test]
fn second_pass_makes_no_difference() {
    let first = pass().visit_mut_module(sample()).unwrap();
    let again = pass().visit_mut_module(sample()).unwrap();
    let mut p = pass();
    assert_eq!(p.visit_mut_module(again), Ok(first));
    assert_eq!(p.comments, vec![]);
    assert_eq!(p.errors, vec![]);
    assert_eq!(p.ident_cnt, 0);
}
