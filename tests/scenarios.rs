use signals_transform::ast::{
    CatchClause, ArrowBody, ArrowExpr, Expr, FnDecl, Function, ImportDecl, ImportSpecifier, Lit, MemberProp,
    Module, ModuleItem, ObjectPat, ObjectPatProp, Pat, PropName, Stmt, VarDecl, VarDeclKind,
    VarDeclarator,
};
use signals_transform::{
    process_transform, signals_transform, Comment, Comments, ExperimentalOptions, FunctionInfo,
    PluginOptions, TransformVisitor, DEFAULT_IMPORT_SOURCE,
};

fn ident(s: &str) -> Expr {
    Expr::Ident(s.to_string())
}

fn read_value(obj: &str) -> Expr {
    Expr::Member { obj: Box::new(ident(obj)), prop: MemberProp::Ident("value".to_string()) }
}

fn div(children: Vec<Expr>) -> Expr {
    Expr::JsxElement { name: "div".to_string(), attrs: vec![], children }
}

fn ret_body(e: Expr) -> Vec<Stmt> {
    vec![Stmt::Return(Some(e))]
}

fn fn_decl(name: &str, lo: u32, params: Vec<Pat>, body: Vec<Stmt>) -> Stmt {
    Stmt::FnDecl(FnDecl {
        ident: name.to_string(),
        function: Function { lo, params, body: Some(body) },
    })
}

fn const_arrow(name: &str, lo: u32, body: ArrowBody) -> Stmt {
    Stmt::Var(VarDecl {
        kind: VarDeclKind::Const,
        decls: vec![VarDeclarator {
            name: Pat::Ident(name.to_string()),
            init: Some(Expr::Arrow(ArrowExpr { lo, params: vec![], body })),
        }],
    })
}

fn runtime_import(src: &str) -> ModuleItem {
    ModuleItem::Import(ImportDecl {
        specifiers: vec![ImportSpecifier::Named {
            local: "_useSignals".to_string(),
            imported: Some("useSignals".to_string()),
        }],
        src: src.to_string(),
    })
}

fn guarded(tag: &str, body: Vec<Stmt>) -> Vec<Stmt> {
    vec![
        Stmt::Var(VarDecl {
            kind: VarDeclKind::Var,
            decls: vec![VarDeclarator {
                name: Pat::Ident("_effect".to_string()),
                init: Some(Expr::Call {
                    callee: Box::new(ident("_useSignals")),
                    args: vec![Expr::Lit(Lit::Str(tag.to_string()))],
                }),
            }],
        }),
        Stmt::Try {
            block: body,
            handler: None,
            finalizer: Some(vec![Stmt::Expr(Expr::Call {
                callee: Box::new(Expr::Member {
                    obj: Box::new(ident("_effect")),
                    prop: MemberProp::Ident("f".to_string()),
                }),
                args: vec![],
            })]),
        },
    ]
}

fn bare(body: Vec<Stmt>) -> Vec<Stmt> {
    let mut out =
        vec![Stmt::Expr(Expr::Call { callee: Box::new(ident("_useSignals")), args: vec![] })];
    out.extend(body);
    out
}

fn my_component(lo: u32) -> Stmt {
    fn_decl("MyComponent", lo, vec![], ret_body(div(vec![read_value("signal")])))
}

fn module_of(stmts: Vec<Stmt>) -> Module {
    Module { body: stmts.into_iter().map(ModuleItem::Stmt).collect() }
}

fn count_imports(m: &Module) -> usize {
    m.body.iter().filter(|i| matches!(i, ModuleItem::Import(_))).count()
}

fn leading(pos: u32, text: &str) -> Comments {
    Comments { leading: vec![Comment { pos, text: text.to_string() }], trailing: vec![] }
}

#[test]
fn signals_transform_basic() {
    let out = process_transform(module_of(vec![my_component(1)]), PluginOptions::default());
    let expected = Module {
        body: vec![
            runtime_import(DEFAULT_IMPORT_SOURCE),
            ModuleItem::Stmt(fn_decl(
                "MyComponent",
                1,
                vec![],
                guarded("1", ret_body(div(vec![read_value("signal")]))),
            )),
        ],
    };
    assert_eq!(out, expected);
}

#[test]
fn signals_transform_no_try_finally() {
    let options = PluginOptions {
        experimental: Some(ExperimentalOptions { no_try_finally: Some(true) }),
        ..Default::default()
    };
    let out = process_transform(module_of(vec![my_component(1)]), options);
    let expected = Module {
        body: vec![
            runtime_import(DEFAULT_IMPORT_SOURCE),
            ModuleItem::Stmt(fn_decl(
                "MyComponent",
                1,
                vec![],
                bare(ret_body(div(vec![read_value("signal")]))),
            )),
        ],
    };
    assert_eq!(out, expected);
}

#[test]
fn signals_transform_arrow_function() {
    let input = module_of(vec![const_arrow(
        "MyComponent",
        20,
        ArrowBody::Block(ret_body(div(vec![read_value("signal")]))),
    )]);
    let out = process_transform(input, PluginOptions::default());
    let expected = Module {
        body: vec![
            runtime_import(DEFAULT_IMPORT_SOURCE),
            ModuleItem::Stmt(const_arrow(
                "MyComponent",
                20,
                ArrowBody::Block(guarded("1", ret_body(div(vec![read_value("signal")])))),
            )),
        ],
    };
    assert_eq!(out, expected);
}

#[test]
fn signals_transform_opt_out_comment() {
    let mut visitor =
        TransformVisitor::with_comments(PluginOptions::default(), leading(1, "* @noUseSignals "));
    let mut module = module_of(vec![my_component(1)]);
    visitor.visit_mut_module(&mut module);
    assert_eq!(module, module_of(vec![my_component(1)]));
    assert!(visitor.use_signals_ident.is_none());
}

#[test]
fn signals_transform_opt_in_comment() {
    let options = PluginOptions { mode: Some("manual".to_string()), ..Default::default() };
    let mut visitor = TransformVisitor::with_comments(options, leading(5, "* @useSignals "));
    let mut module = module_of(vec![fn_decl("myFunction", 5, vec![], ret_body(ident("regularValue")))]);
    visitor.visit_mut_module(&mut module);
    let expected = Module {
        body: vec![
            runtime_import(DEFAULT_IMPORT_SOURCE),
            ModuleItem::Stmt(fn_decl("myFunction", 5, vec![], guarded("1", ret_body(ident("regularValue"))))),
        ],
    };
    assert_eq!(module, expected);
}

#[test]
fn trailing_opt_out_comment_keeps_function() {
    let comments = Comments {
        leading: vec![],
        trailing: vec![Comment { pos: 1, text: " @noTrackSignals".to_string() }],
    };
    let mut visitor = TransformVisitor::with_comments(PluginOptions::default(), comments);
    let mut module = module_of(vec![my_component(1)]);
    visitor.visit_mut_module(&mut module);
    assert_eq!(module, module_of(vec![my_component(1)]));
}

#[test]
fn comment_at_other_position_is_ignored() {
    let mut visitor =
        TransformVisitor::with_comments(PluginOptions::default(), leading(99, "@noUseSignals"));
    let mut module = module_of(vec![my_component(1)]);
    visitor.visit_mut_module(&mut module);
    assert_eq!(module.body.len(), 2);
    assert_eq!(module.body[0], runtime_import(DEFAULT_IMPORT_SOURCE));
}

#[test]
fn hook_gets_tag_two() {
    let input = module_of(vec![fn_decl("useCounter", 3, vec![], ret_body(read_value("count")))]);
    let out = process_transform(input, PluginOptions::default());
    let expected = Module {
        body: vec![
            runtime_import(DEFAULT_IMPORT_SOURCE),
            ModuleItem::Stmt(fn_decl("useCounter", 3, vec![], guarded("2", ret_body(read_value("count"))))),
        ],
    };
    assert_eq!(out, expected);
}

#[test]
fn expression_arrow_becomes_block() {
    let input = module_of(vec![const_arrow(
        "useThing",
        7,
        ArrowBody::Expr(Box::new(read_value("s"))),
    )]);
    let out = process_transform(input, PluginOptions::default());
    let expected = Module {
        body: vec![
            runtime_import(DEFAULT_IMPORT_SOURCE),
            ModuleItem::Stmt(const_arrow(
                "useThing",
                7,
                ArrowBody::Block(guarded("2", ret_body(read_value("s")))),
            )),
        ],
    };
    assert_eq!(out, expected);
}

#[test]
fn component_without_signals_is_left_alone_in_auto_mode() {
    let input = || module_of(vec![fn_decl("Plain", 1, vec![], ret_body(div(vec![])))]);
    let out = process_transform(input(), PluginOptions::default());
    assert_eq!(out, input());
}

#[test]
fn inner_function_reads_do_not_reach_outer() {
    let input = || {
        module_of(vec![fn_decl(
            "Outer",
            1,
            vec![],
            vec![
                fn_decl("inner", 2, vec![], ret_body(read_value("s"))),
                Stmt::Return(Some(div(vec![]))),
            ],
        )])
    };
    let out = process_transform(input(), PluginOptions::default());
    assert_eq!(out, input());
    assert_eq!(count_imports(&out), 0);
}

#[test]
fn outer_reads_do_not_reach_inner() {
    let inner = || fn_decl("Inner", 2, vec![], ret_body(div(vec![])));
    let input = module_of(vec![fn_decl(
        "Outer",
        1,
        vec![],
        vec![
            Stmt::Var(VarDecl {
                kind: VarDeclKind::Const,
                decls: vec![VarDeclarator { name: Pat::Ident("x".to_string()), init: Some(read_value("s")) }],
            }),
            inner(),
        ],
    )]);
    let out = process_transform(input, PluginOptions::default());
    let expected_outer_body = guarded(
        "1",
        vec![
            Stmt::Var(VarDecl {
                kind: VarDeclKind::Const,
                decls: vec![VarDeclarator { name: Pat::Ident("x".to_string()), init: Some(read_value("s")) }],
            }),
            inner(),
        ],
    );
    let expected = Module {
        body: vec![
            runtime_import(DEFAULT_IMPORT_SOURCE),
            ModuleItem::Stmt(fn_decl("Outer", 1, vec![], expected_outer_body)),
        ],
    };
    assert_eq!(out, expected);
}

#[test]
fn callback_arrow_reads_count_for_enclosing_component() {
    let body = || {
        let callback = Expr::Arrow(ArrowExpr {
            lo: 4,
            params: vec![],
            body: ArrowBody::Expr(Box::new(read_value("s"))),
        });
        let call = Expr::Call { callee: Box::new(ident("useEffect")), args: vec![callback] };
        vec![Stmt::Expr(call), Stmt::Return(Some(div(vec![])))]
    };
    let out = process_transform(module_of(vec![fn_decl("Widget", 1, vec![], body())]), PluginOptions::default());
    let expected = Module {
        body: vec![
            runtime_import(DEFAULT_IMPORT_SOURCE),
            ModuleItem::Stmt(fn_decl("Widget", 1, vec![], guarded("1", body()))),
        ],
    };
    assert_eq!(out, expected);
}

#[test]
fn computed_value_key_counts_as_read() {
    let read = || Expr::Member {
        obj: Box::new(ident("s")),
        prop: MemberProp::Computed(Box::new(Expr::Lit(Lit::Str("value".to_string())))),
    };
    let out = process_transform(module_of(vec![fn_decl("Comp", 1, vec![], ret_body(read()))]), PluginOptions::default());
    assert_eq!(out.body[1], ModuleItem::Stmt(fn_decl("Comp", 1, vec![], guarded("1", ret_body(read())))));
}

#[test]
fn destructured_value_parameter_counts_as_read() {
    let param = || {
        Pat::Object(ObjectPat {
            props: vec![ObjectPatProp::KeyValue {
                key: PropName::Str("value".to_string()),
                value: Box::new(Pat::Ident("v".to_string())),
            }],
        })
    };
    let out = process_transform(
        module_of(vec![fn_decl("Comp", 1, vec![param()], ret_body(ident("v")))]),
        PluginOptions::default(),
    );
    assert_eq!(out.body[1], ModuleItem::Stmt(fn_decl("Comp", 1, vec![param()], guarded("1", ret_body(ident("v"))))));
}

#[test]
fn all_mode_takes_components_only() {
    let options = || PluginOptions { mode: Some("all".to_string()), ..Default::default() };
    let out = process_transform(module_of(vec![fn_decl("Plain", 1, vec![], ret_body(div(vec![])))]), options());
    assert_eq!(out.body[1], ModuleItem::Stmt(fn_decl("Plain", 1, vec![], guarded("1", ret_body(div(vec![]))))));
    let helper = || module_of(vec![fn_decl("helper", 1, vec![], ret_body(read_value("s")))]);
    assert_eq!(process_transform(helper(), options()), helper());
}

#[test]
fn unknown_mode_acts_as_manual() {
    let visitor = signals_transform(PluginOptions { mode: Some("bogus".to_string()), ..Default::default() });
    let info = FunctionInfo {
        name: Some("MyComponent".to_string()),
        is_component: true,
        is_hook: false,
        has_jsx: true,
        uses_signals: true,
        has_opt_in_comment: false,
        has_opt_out_comment: false,
    };
    assert!(!visitor.should_transform(&info));
    let absent = signals_transform(PluginOptions { mode: None, ..Default::default() });
    assert!(absent.should_transform(&info));
}

#[test]
fn existing_runtime_import_is_reused() {
    let existing = ModuleItem::Import(ImportDecl {
        specifiers: vec![ImportSpecifier::Named { local: "useSignals".to_string(), imported: None }],
        src: DEFAULT_IMPORT_SOURCE.to_string(),
    });
    let mut body = vec![existing];
    body.push(ModuleItem::Stmt(my_component(1)));
    let out = process_transform(Module { body }, PluginOptions::default());
    assert_eq!(out.body.len(), 2);
    assert_eq!(count_imports(&out), 1);
}

#[test]
fn second_run_adds_no_second_import() {
    let once = process_transform(module_of(vec![my_component(1)]), PluginOptions::default());
    assert_eq!(count_imports(&once), 1);
    let twice = process_transform(once, PluginOptions::default());
    assert_eq!(count_imports(&twice), 1);
}

#[test]
fn custom_import_source_is_used() {
    let options = PluginOptions { import_source: Some("custom-signals-runtime".to_string()), ..Default::default() };
    let out = process_transform(module_of(vec![my_component(1)]), options);
    assert_eq!(out.body[0], runtime_import("custom-signals-runtime"));
}

#[test]
fn jsx_factory_calls_count_as_markup_when_detected() {
    let import = Module {
        body: vec![
            ModuleItem::Import(ImportDecl {
                specifiers: vec![ImportSpecifier::Named { local: "_jsx".to_string(), imported: Some("jsx".to_string()) }],
                src: "react/jsx-runtime".to_string(),
            }),
            ModuleItem::Import(ImportDecl {
                specifiers: vec![ImportSpecifier::Default("React".to_string())],
                src: "react".to_string(),
            }),
        ],
    };
    let call = |callee: Expr| Expr::Call { callee: Box::new(callee), args: vec![] };
    let create = || Expr::Member { obj: Box::new(ident("React")), prop: MemberProp::Ident("createElement".to_string()) };

    let mut on = signals_transform(PluginOptions { detect_transformed_jsx: Some(true), ..Default::default() });
    on.detect_jsx_imports(&import);
    assert!(on.has_jsx_identifier("_jsx"));
    assert!(!on.has_jsx_identifier("jsx"));
    assert!(on.pass.walk_expr(call(ident("_jsx"))).1.has_jsx);
    assert!(on.pass.walk_expr(call(create())).1.has_jsx);
    assert!(!on.pass.walk_expr(call(ident("other"))).1.has_jsx);

    let mut off = signals_transform(PluginOptions::default());
    off.detect_jsx_imports(&import);
    assert!(!off.pass.walk_expr(call(ident("_jsx"))).1.has_jsx);
}

#[test]
fn markup_and_reads_are_reported() {
    let visitor = signals_transform(PluginOptions::default());
    let found = visitor.pass.walk_expr(div(vec![read_value("s")])).1;
    assert!(found.has_jsx);
    assert!(found.uses_signals);
    assert!(!found.instrumented);
    let plain = visitor.pass.walk_expr(ident("x")).1;
    assert!(!plain.has_jsx && !plain.uses_signals);
}

#[test]
fn unicode_uppercase_names_classify() {
    let visitor = signals_transform(PluginOptions::default());
    assert!(visitor.is_component_name("Élan"));
    assert!(!visitor.is_component_name("élan"));
    assert!(visitor.is_hook_name("useÉtat"));
    assert!(!visitor.is_hook_name("useétat"));
    assert!(!visitor.is_hook_name("UseState"));
}

#[test]
fn namespace_import_registers_factories() {
    let module = Module {
        body: vec![ModuleItem::Import(ImportDecl {
            specifiers: vec![ImportSpecifier::Namespace("R".to_string())],
            src: "react".to_string(),
        })],
    };
    let mut visitor =
        signals_transform(PluginOptions { detect_transformed_jsx: Some(true), ..Default::default() });
    visitor.detect_jsx_imports(&module);
    let call = |m: &str| Expr::Call {
        callee: Box::new(Expr::Member { obj: Box::new(ident("R")), prop: MemberProp::Ident(m.to_string()) }),
        args: vec![],
    };
    assert!(visitor.pass.walk_expr(call("createElement")).1.has_jsx);
    assert!(!visitor.pass.walk_expr(call("cloneElement")).1.has_jsx);
}

#[test]
fn unknown_source_registers_nothing() {
    let module = Module {
        body: vec![ModuleItem::Import(ImportDecl {
            specifiers: vec![ImportSpecifier::Named { local: "jsx".to_string(), imported: None }],
            src: "preact".to_string(),
        })],
    };
    let mut visitor =
        signals_transform(PluginOptions { detect_transformed_jsx: Some(true), ..Default::default() });
    visitor.detect_jsx_imports(&module);
    assert!(!visitor.has_jsx_identifier("jsx"));
}

#[test]
fn fragment_counts_as_markup() {
    let visitor = signals_transform(PluginOptions::default());
    let found = visitor.pass.walk_expr(Expr::JsxFragment(vec![Expr::JsxText("hi".to_string())])).1;
    assert!(found.has_jsx);
    assert!(!found.uses_signals);
}

fn transforms_in_auto(body: fn() -> Vec<Stmt>) -> bool {
    let out = process_transform(module_of(vec![fn_decl("Comp", 1, vec![], body())]), PluginOptions::default());
    let instrumented = out == Module {
        body: vec![
            runtime_import(DEFAULT_IMPORT_SOURCE),
            ModuleItem::Stmt(fn_decl("Comp", 1, vec![], guarded("1", body()))),
        ],
    };
    let untouched = out == module_of(vec![fn_decl("Comp", 1, vec![], body())]);
    assert!(instrumented || untouched);
    instrumented
}

#[test]
fn shorthand_value_destructuring_counts_as_read() {
    let visitor = signals_transform(PluginOptions::default());
    assert!(visitor.has_value_in_object_pattern(&ObjectPat {
        props: vec![ObjectPatProp::Shorthand("value".to_string())]
    }));
    assert!(!visitor.has_value_in_object_pattern(&ObjectPat {
        props: vec![ObjectPatProp::Rest("value".to_string())]
    }));
    assert!(transforms_in_auto(|| vec![
        Stmt::Var(VarDecl {
            kind: VarDeclKind::Const,
            decls: vec![VarDeclarator {
                name: Pat::Object(ObjectPat { props: vec![ObjectPatProp::Shorthand("value".to_string())] }),
                init: Some(ident("count")),
            }],
        }),
        Stmt::Return(Some(ident("value"))),
    ]));
    assert!(!transforms_in_auto(|| vec![
        Stmt::Var(VarDecl {
            kind: VarDeclKind::Const,
            decls: vec![VarDeclarator {
                name: Pat::Object(ObjectPat { props: vec![ObjectPatProp::Shorthand("other".to_string())] }),
                init: Some(ident("count")),
            }],
        }),
        Stmt::Return(Some(ident("other"))),
    ]));
}

#[test]
fn read_inside_ternary_counts() {
    assert!(transforms_in_auto(|| vec![Stmt::Return(Some(Expr::Cond {
        test: Box::new(ident("flag")),
        cons: Box::new(read_value("s")),
        alt: Box::new(Expr::Lit(Lit::Null)),
    }))]));
}

#[test]
fn read_inside_loop_counts() {
    assert!(transforms_in_auto(|| vec![Stmt::Other {
        kind: "while".to_string(),
        exprs: vec![ident("running")],
        body: vec![Stmt::Expr(Expr::Assign {
            op: "+=".to_string(),
            target: Box::new(ident("total")),
            value: Box::new(read_value("s")),
        })],
    }]));
}

#[test]
fn read_inside_catch_counts() {
    assert!(transforms_in_auto(|| vec![Stmt::Try {
        block: vec![Stmt::Throw(Expr::New { callee: Box::new(ident("Error")), args: vec![] })],
        handler: Some(CatchClause { param: None, body: ret_body(read_value("s")) }),
        finalizer: None,
    }]));
}

#[test]
fn read_inside_template_and_unary_counts() {
    assert!(transforms_in_auto(|| ret_body(Expr::Template {
        quasis: vec!["n = ".to_string(), "".to_string()],
        exprs: vec![Expr::Unary { op: "-".to_string(), arg: Box::new(read_value("s")) }],
    })));
    assert!(!transforms_in_auto(|| ret_body(Expr::Other {
        kind: "await".to_string(),
        children: vec![ident("s")],
    })));
}
