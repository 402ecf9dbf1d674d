use server_actions::annotate::{annotate, annotate_ident_as_action, attach_name_to_arrow};
use server_actions::bindings::{
    collect_idents_in_array_pat, collect_idents_in_object_pat, collect_idents_in_stmt,
    collect_idents_in_var_decls,
};
use server_actions::closure::{captured_names, spell_names};
use server_actions::digest::{compute_action_id, digest_text, location_bytes};
use server_actions::directive::{
    get_server_directive_index_in_fn, get_server_directive_index_in_module,
};
use server_actions::text::{gen_ident, join};
use server_actions::{
    ArrowBody, ArrowExpr, Block, ClosureReplacer, Ctxt, Decl, Declarator, Expr, FnExpr, Function,
    Id, Ident, Member, ModuleItem, Name, Node, Origin, Other, Pat, PatForm, PatProp, Prop, Span,
    Stmt, VarDecl, VarKind,
};

fn ident(sym: &str) -> Ident {
    Ident::new(sym.to_string(), Span::with_ctxt(Ctxt::Source(1)))
}

fn id(sym: &str) -> Id {
    Id {
        sym: sym.to_string(),
        ctxt: Ctxt::Source(1),
    }
}

fn var(sym: &str) -> Expr {
    Expr::Ident(ident(sym))
}

fn name(sym: &str, props: &[(&str, bool)]) -> Name {
    Name {
        id: id(sym),
        props: props.iter().map(|p| (p.0.to_string(), p.1)).collect(),
    }
}

fn text(value: &str) -> Stmt {
    Stmt::Expr(
        Origin::Source(9),
        Box::new(Expr::Str(Origin::Source(8), value.to_string())),
    )
}

fn call_stmt(callee: &str) -> Stmt {
    Stmt::Expr(
        Origin::Source(3),
        Box::new(Expr::Call(Box::new(var(callee)), vec![])),
    )
}

fn pat(form: PatForm) -> Pat {
    Pat {
        origin: Origin::Source(4),
        form,
        exprs: vec![],
    }
}

fn declarator(form: PatForm) -> Declarator {
    Declarator {
        origin: Origin::Source(5),
        name: pat(form),
        init: None,
    }
}

fn closure() -> Ident {
    Ident::new("closure".to_string(), Span::with_ctxt(Ctxt::Closure(0)))
}

fn element(i: usize) -> Expr {
    Expr::Index(Box::new(Expr::Ident(closure())), i)
}

// ---- Texts ----

#[test]
fn names_are_numbered() {
    let mut cnt: u32 = 7;
    assert_eq!(gen_ident(&mut cnt), "$$ACTION_7");
    assert_eq!(gen_ident(&mut cnt), "$$ACTION_8");
    assert_eq!(cnt, 9);
}

#[test]
fn numbers_have_all_their_digits() {
    let mut cnt: u32 = 0;
    assert_eq!(gen_ident(&mut cnt), "$$ACTION_0");
    cnt = 10;
    assert_eq!(gen_ident(&mut cnt), "$$ACTION_10");
    cnt = 4294967294;
    assert_eq!(gen_ident(&mut cnt), "$$ACTION_4294967294");
    assert_eq!(cnt, u32::MAX);
}

#[test]
fn texts_are_joined() {
    assert_eq!(join(&vec![], ","), "");
    assert_eq!(join(&vec!["a".to_string()], ","), "a");
    let three = vec!["a".to_string(), "b".to_string(), "".to_string()];
    assert_eq!(join(&three, ", "), "a, b, ");
}

// ---- Identities ----

#[test]
fn digests_are_written_in_hexadecimal() {
    assert_eq!(digest_text(&vec![0, 15, 16, 171, 255]), "000f10abff");
    assert_eq!(digest_text(&vec![]), "");
}

#[test]
fn locations_are_file_and_name() {
    assert_eq!(location_bytes("a.js", "save"), b"a.js:save".to_vec());
    assert_eq!(location_bytes("", ""), b":".to_vec());
    assert_eq!(location_bytes("\u{e4}", "b"), vec![0xc3, 0xa4, 58, 98]);
}

#[test]
fn identities_are_checksums() {
    assert_eq!(
        compute_action_id("app/page.js", "$$ACTION_0"),
        "48f7ffae3adc54450b9a03ff0c99fd842fc6732e"
    );
    assert_eq!(
        compute_action_id("app/page.js", "default"),
        "1cd782e9740a5fe76590807c28ca11ddb78d21e8"
    );
    assert_eq!(
        compute_action_id("app/page.js", ""),
        "428274d21301c0fd95d13102ba5f05e6c5b8ecae"
    );
}

#[test]
fn export_names_of_a_file_give_different_locations() {
    assert_ne!(location_bytes("a.js", "b"), location_bytes("a.js", "c"));
    assert_ne!(
        compute_action_id("a.js", "b"),
        compute_action_id("a.js", "c")
    );
}

// ---- The directive ----

#[test]
fn directive_is_found_behind_other_texts() {
    assert_eq!(
        get_server_directive_index_in_fn(&vec![text("use server")]),
        Some(0)
    );
    let stmts = vec![text("use strict"), text("use server"), text("use server")];
    assert_eq!(get_server_directive_index_in_fn(&stmts), Some(1));
}

#[test]
fn directive_has_to_come_first() {
    assert_eq!(get_server_directive_index_in_fn(&vec![]), None);
    assert_eq!(
        get_server_directive_index_in_fn(&vec![text("use client")]),
        None
    );
    let late = vec![call_stmt("f"), text("use server")];
    assert_eq!(get_server_directive_index_in_fn(&late), None);
    let behind_return = vec![Stmt::Return(Box::new(var("a"))), text("use server")];
    assert_eq!(get_server_directive_index_in_fn(&behind_return), None);
}

#[test]
fn directive_of_a_module() {
    let items = vec![
        ModuleItem::Stmt(text("use strict")),
        ModuleItem::Stmt(text("use server")),
    ];
    assert_eq!(get_server_directive_index_in_module(&items), Some(1));
    let late = vec![
        ModuleItem::Other(Other {
            source: 1,
            kids: vec![],
        }),
        ModuleItem::Stmt(text("use server")),
    ];
    assert_eq!(get_server_directive_index_in_module(&late), None);
    let call = vec![
        ModuleItem::Stmt(call_stmt("f")),
        ModuleItem::Stmt(text("use server")),
    ];
    assert_eq!(get_server_directive_index_in_module(&call), None);
}

// ---- Bindings ----

#[test]
fn array_patterns_bind() {
    // [a, , [b], { c }, ...d, ...[e], f = 1]
    let elems = vec![
        Some(PatForm::Ident(ident("a"))),
        None,
        Some(PatForm::Array(vec![Some(PatForm::Ident(ident("b")))])),
        Some(PatForm::Object(vec![PatProp::Assign(ident("c"))])),
        Some(PatForm::Rest(Box::new(PatForm::Ident(ident("d"))))),
        Some(PatForm::Rest(Box::new(PatForm::Array(vec![Some(
            PatForm::Ident(ident("e")),
        )])))),
        Some(PatForm::Other),
    ];
    assert_eq!(
        collect_idents_in_array_pat(&elems),
        vec![id("a"), id("b"), id("c"), id("d")]
    );
}

#[test]
fn object_patterns_bind_keys_and_values() {
    // { a: b, "c": [d], e: { f }, g, h: ...other, ...i, ...[j] }
    let props = vec![
        PatProp::KeyValue(Some(ident("a")), Box::new(PatForm::Ident(ident("b")))),
        PatProp::KeyValue(
            None,
            Box::new(PatForm::Array(vec![Some(PatForm::Ident(ident("d")))])),
        ),
        PatProp::KeyValue(
            Some(ident("e")),
            Box::new(PatForm::Object(vec![PatProp::Assign(ident("f"))])),
        ),
        PatProp::Assign(ident("g")),
        PatProp::KeyValue(Some(ident("h")), Box::new(PatForm::Other)),
        PatProp::Rest(Box::new(PatForm::Ident(ident("i")))),
        PatProp::Rest(Box::new(PatForm::Array(vec![Some(PatForm::Ident(ident(
            "j",
        )))]))),
    ];
    assert_eq!(
        collect_idents_in_object_pat(&props),
        vec![
            id("a"),
            id("b"),
            id("d"),
            id("e"),
            id("f"),
            id("g"),
            id("h"),
            id("i")
        ]
    );
}

#[test]
fn declarations_bind() {
    let decls = vec![
        declarator(PatForm::Ident(ident("a"))),
        declarator(PatForm::Array(vec![Some(PatForm::Ident(ident("b")))])),
        declarator(PatForm::Object(vec![PatProp::Assign(ident("c"))])),
        declarator(PatForm::Rest(Box::new(PatForm::Ident(ident("d"))))),
    ];
    assert_eq!(
        collect_idents_in_var_decls(&decls),
        vec![id("a"), id("b"), id("c")]
    );
    let stmt = Stmt::Decl(Decl::Var(VarDecl {
        origin: Origin::Source(6),
        kind: VarKind::Let,
        decls,
    }));
    assert_eq!(
        collect_idents_in_stmt(&stmt),
        vec![id("a"), id("b"), id("c")]
    );
    assert_eq!(collect_idents_in_stmt(&call_stmt("a")), vec![]);
}

// ---- Names ----

#[test]
fn accesses_spell_names() {
    let e = Expr::access(
        Expr::access(var("a"), "b".to_string(), true),
        "c".to_string(),
        false,
    );
    assert_eq!(
        Name::try_from(&e),
        Ok(name("a", &[("b", true), ("c", false)]))
    );
    assert_eq!(Name::try_from(&var("a")), Ok(name("a", &[])));
}

#[test]
fn other_expressions_spell_no_name() {
    let call = Expr::Call(Box::new(var("a")), vec![]);
    assert_eq!(Name::try_from(&call), Err(()));
    assert_eq!(
        Name::try_from(&Expr::access(call, "b".to_string(), true)),
        Err(())
    );
    assert_eq!(Name::try_from(&Expr::Index(Box::new(var("a")), 0)), Err(()));
}

#[test]
fn a_name_is_read_back_from_its_spelling() {
    let n = name("a", &[("b", false), ("c", true), ("c", true)]);
    let e = Expr::from(&n);
    assert_eq!(Name::try_from(&e), Ok(n));
    assert_eq!(
        Expr::from(&name("a", &[("b", false)])),
        Expr::OptMember(Member {
            origin: Origin::Synthetic,
            obj: Box::new(var("a")),
            prop: Ident::new("b".to_string(), Span::dummy()),
        })
    );
}

#[test]
fn identifiers_and_their_identities() {
    let i = Ident {
        sym: "a".to_string(),
        span: Span {
            lo: 3,
            hi: 4,
            ctxt: Ctxt::Source(1),
        },
        optional: true,
    };
    assert_eq!(i.to_id(), id("a"));
    assert_eq!(Ident::from_id(&id("a")), ident("a"));
}

// ---- What is captured ----

#[test]
fn captured_once_and_only_if_bound() {
    let used = vec![
        name("a", &[("x", true)]),
        name("b", &[]),
        name("a", &[("x", true)]),
        name("a", &[]),
        name("a", &[("x", false)]),
    ];
    let bound = vec![id("c"), id("a")];
    assert_eq!(
        captured_names(&used, &bound),
        vec![
            name("a", &[("x", true)]),
            name("a", &[]),
            name("a", &[("x", false)])
        ]
    );
    let other_context = vec![Id {
        sym: "a".to_string(),
        ctxt: Ctxt::Source(2),
    }];
    assert_eq!(captured_names(&used, &other_context), vec![]);
}

#[test]
fn captured_names_are_spelled() {
    let names = vec![name("a", &[]), name("b", &[("c", true)])];
    assert_eq!(
        spell_names(&names),
        vec![var("a"), Expr::access(var("b"), "c".to_string(), true)]
    );
}

// ---- Replacement ----

#[test]
fn longest_name_that_is_captured_is_replaced() {
    let arg = closure();
    let names = vec![name("a", &[]), name("b", &[("c", true)])];
    let r = ClosureReplacer {
        closure_arg: &arg,
        used_ids: &names,
    };
    assert_eq!(r.visit_mut_expr(var("a")), element(0));
    let bc = Expr::access(var("b"), "c".to_string(), true);
    assert_eq!(r.visit_mut_expr(bc), element(1));
    // `a` is replaced inside of `a.x`, and `b` alone was not captured.
    let ax = Expr::access(var("a"), "x".to_string(), true);
    assert_eq!(
        r.visit_mut_expr(ax),
        Expr::access(element(0), "x".to_string(), true)
    );
    assert_eq!(r.visit_mut_expr(var("b")), var("b"));
}

#[test]
fn replacement_reaches_parts() {
    let arg = closure();
    let names = vec![name("a", &[])];
    let r = ClosureReplacer {
        closure_arg: &arg,
        used_ids: &names,
    };
    let e = Expr::Call(
        Box::new(var("f")),
        vec![Expr::Array(vec![var("a"), var("b")])],
    );
    assert_eq!(
        r.visit_mut_expr(e),
        Expr::Call(
            Box::new(var("f")),
            vec![Expr::Array(vec![element(0), var("b")])]
        )
    );
    let other = Expr::Other(Other {
        source: 7,
        kids: vec![
            Node::Expr(var("a")),
            Node::Stmts(vec![Stmt::Return(Box::new(var("a")))]),
            Node::Prop(Prop::Shorthand(ident("a"))),
        ],
    });
    assert_eq!(
        r.visit_mut_expr(other),
        Expr::Other(Other {
            source: 7,
            kids: vec![
                Node::Expr(element(0)),
                Node::Stmts(vec![Stmt::Return(Box::new(element(0)))]),
                Node::Prop(Prop::KeyValue(ident("a"), Box::new(element(0)))),
            ],
        })
    );
}

#[test]
fn shorthand_properties_are_written_out() {
    let arg = closure();
    let names = vec![name("b", &[]), name("a", &[])];
    let r = ClosureReplacer {
        closure_arg: &arg,
        used_ids: &names,
    };
    assert_eq!(
        r.visit_mut_prop(Prop::Shorthand(ident("a"))),
        Prop::KeyValue(ident("a"), Box::new(element(1)))
    );
    assert_eq!(
        r.visit_mut_prop(Prop::Shorthand(ident("c"))),
        Prop::Shorthand(ident("c"))
    );
    assert_eq!(r.index_of_id(&ident("b")), Some(0));
    assert_eq!(r.index(&var("c")), None);
}

#[test]
fn replaced_block_mentions_nothing_captured() {
    let arg = closure();
    let names = vec![name("a", &[]), name("a", &[("x", true)])];
    let r = ClosureReplacer {
        closure_arg: &arg,
        used_ids: &names,
    };
    let ax = Expr::access(var("a"), "x".to_string(), true);
    let block = Block {
        origin: Origin::Source(1),
        stmts: vec![
            Stmt::Return(Box::new(var("a"))),
            Stmt::Return(Box::new(ax)),
            call_stmt("f"),
        ],
    };
    let replaced = r.visit_block(block);
    // The object is replaced first, so `a.x` turns into an access to `a`.
    let expected = Block {
        origin: Origin::Source(1),
        stmts: vec![
            Stmt::Return(Box::new(element(0))),
            Stmt::Return(Box::new(Expr::access(element(0), "x".to_string(), true))),
            call_stmt("f"),
        ],
    };
    assert_eq!(replaced, expected);
    // What mentions nothing captured stays as it is.
    assert_eq!(r.visit_block(replaced), expected);
}

// ---- Annotations ----

#[test]
fn annotation_assigns_a_field() {
    assert_eq!(
        annotate(&ident("save"), "$$id", var("x")),
        Stmt::Expr(
            Origin::Synthetic,
            Box::new(Expr::Assign(
                Box::new(Expr::access(var("save"), "$$id".to_string(), true)),
                Box::new(var("x"))
            ))
        )
    );
}

#[test]
fn reference_has_three_annotations() {
    let mut annotations = vec![call_stmt("before")];
    annotate_ident_as_action(
        &mut annotations,
        &ident("save"),
        vec![var("a")],
        "app/page.js",
        "save",
    );
    let symbol = Expr::Ident(Ident::new("Symbol".to_string(), Span::dummy()));
    let reference = Expr::Str(Origin::Synthetic, "react.server.reference".to_string());
    let symbol_for = Expr::access(symbol, "for".to_string(), true);
    let id_text = "8b47b99e2257764e47a96f07876b590ddaf00297";
    assert_eq!(
        annotations,
        vec![
            call_stmt("before"),
            annotate(
                &ident("save"),
                "$$typeof",
                Expr::Call(Box::new(symbol_for), vec![reference])
            ),
            annotate(
                &ident("save"),
                "$$id",
                Expr::Str(Origin::Synthetic, id_text.to_string())
            ),
            annotate(&ident("save"), "$$bound", Expr::Array(vec![var("a")])),
        ]
    );
}

fn arrow() -> ArrowExpr {
    ArrowExpr {
        origin: Origin::Source(2),
        span: Span::dummy(),
        params: vec![],
        body: ArrowBody::Expr(Box::new(var("x"))),
        is_async: true,
        is_generator: false,
    }
}

#[test]
fn arrow_functions_are_given_names() {
    let mut items = vec![];
    let e = attach_name_to_arrow(ident("f"), arrow(), &mut items);
    assert_eq!(
        e,
        Expr::Paren(Box::new(Expr::Define(
            ident("f"),
            Box::new(Expr::Arrow(arrow()))
        )))
    );
    assert_eq!(
        items,
        vec![ModuleItem::Stmt(Stmt::Decl(Decl::Var(VarDecl {
            origin: Origin::Synthetic,
            kind: VarKind::Var,
            decls: vec![Declarator {
                origin: Origin::Synthetic,
                name: Pat::from_ident(ident("f")),
                init: None,
            }],
        })))]
    );
}

#[test]
fn functions_are_no_names() {
    let f = Expr::Fn(FnExpr {
        ident: Some(ident("f")),
        function: Function {
            origin: Origin::Source(1),
            span: Span::dummy(),
            params: vec![],
            decorators: vec![],
            body: None,
            is_async: true,
            is_generator: false,
        },
    });
    assert_eq!(Name::try_from(&f), Err(()));
}
