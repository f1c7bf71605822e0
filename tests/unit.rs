use signals_transform::ast::{
    Expr, ImportDecl, ImportSpecifier, Lit, MemberProp, Module, ModuleItem, ObjectPat,
    ObjectPatProp, Pat, PropName,
};
use signals_transform::{
    opt_in_comment_matches, opt_out_comment_matches, signals_transform, ExperimentalOptions,
    FunctionInfo, PluginOptions, DEFAULT_IMPORT_SOURCE, IMPORT_NAME,
};

fn info(
    name: &str,
    is_component: bool,
    is_hook: bool,
    has_jsx: bool,
    uses_signals: bool,
    has_opt_in_comment: bool,
    has_opt_out_comment: bool,
) -> FunctionInfo {
    FunctionInfo {
        name: Some(name.to_string()),
        is_component,
        is_hook,
        has_jsx,
        uses_signals,
        has_opt_in_comment,
        has_opt_out_comment,
    }
}

fn with_mode(mode: &str) -> PluginOptions {
    PluginOptions { mode: Some(mode.to_string()), ..Default::default() }
}

#[test]
fn test_plugin_creation() {
    let options = PluginOptions::default();
    let _visitor = signals_transform(options);
    assert!(true);
}

#[test]
fn test_component_name_detection() {
    let visitor = signals_transform(PluginOptions::default());
    assert!(visitor.is_component_name("MyComponent"));
    assert!(visitor.is_component_name("App"));
    assert!(visitor.is_component_name("Button"));
    assert!(!visitor.is_component_name("myFunction"));
    assert!(!visitor.is_component_name("helper"));
    assert!(!visitor.is_component_name(""));
}

#[test]
fn test_hook_name_detection() {
    let visitor = signals_transform(PluginOptions::default());
    assert!(visitor.is_hook_name("useEffect"));
    assert!(visitor.is_hook_name("useCustomHook"));
    assert!(visitor.is_hook_name("useState"));
    assert!(visitor.is_hook_name("useName"));
    assert!(visitor.is_hook_name("useGreeting"));
    assert!(!visitor.is_hook_name("use"));
    assert!(!visitor.is_hook_name("useless"));
    assert!(!visitor.is_hook_name("user"));
    assert!(!visitor.is_hook_name(""));
}

fn member(obj: &str, prop: MemberProp) -> Expr {
    Expr::Member { obj: Box::new(Expr::Ident(obj.to_string())), prop }
}

#[test]
fn test_value_member_access_detection() {
    let visitor = signals_transform(PluginOptions::default());

    let member_expr = member("signal", MemberProp::Ident("value".to_string()));
    assert!(visitor.is_value_member_access(&member_expr));

    let member_expr_non_value = member("signal", MemberProp::Ident("other".to_string()));
    assert!(!visitor.is_value_member_access(&member_expr_non_value));

    let member_expr_computed = member(
        "signal",
        MemberProp::Computed(Box::new(Expr::Lit(Lit::Str("value".to_string())))),
    );
    assert!(visitor.is_value_member_access(&member_expr_computed));
}

fn key_value(key: &str, binding: &str) -> ObjectPat {
    ObjectPat {
        props: vec![ObjectPatProp::KeyValue {
            key: PropName::Ident(key.to_string()),
            value: Box::new(Pat::Ident(binding.to_string())),
        }],
    }
}

#[test]
fn test_value_in_object_pattern_detection() {
    let visitor = signals_transform(PluginOptions::default());
    let object_pat = key_value("value", "val");
    assert!(visitor.has_value_in_object_pattern(&object_pat));
    let object_pat_no_value = key_value("other", "val");
    assert!(!visitor.has_value_in_object_pattern(&object_pat_no_value));
}

#[test]
fn test_should_transform_logic() {
    let visitor = signals_transform(PluginOptions::default());
    assert!(visitor.should_transform(&info("MyComponent", true, false, true, true, false, false)));
    assert!(!visitor.should_transform(&info("MyComponent", true, false, true, false, false, false)));
    assert!(visitor.should_transform(&info("useCustomHook", false, true, false, true, false, false)));
    assert!(!visitor.should_transform(&info("useCustomHook", false, true, false, false, false, false)));
    assert!(!visitor.should_transform(&info("MyComponent", true, false, true, true, false, true)));
    assert!(visitor.should_transform(&info("myFunction", false, false, false, false, true, false)));
}

#[test]
fn test_mode_all() {
    let visitor = signals_transform(with_mode("all"));
    assert!(visitor.should_transform(&info("MyComponent", true, false, true, false, false, false)));
    assert!(!visitor.should_transform(&info("myFunction", false, false, false, true, false, false)));
}

#[test]
fn test_mode_manual() {
    let visitor = signals_transform(with_mode("manual"));
    assert!(!visitor.should_transform(&info("MyComponent", true, false, true, true, false, false)));
    assert!(visitor.should_transform(&info("MyComponent", true, false, true, true, true, false)));
}

#[test]
fn test_jsx_identifiers_detection() {
    let mut visitor = signals_transform(PluginOptions {
        detect_transformed_jsx: Some(true),
        ..Default::default()
    });
    let module = Module {
        body: vec![ModuleItem::Import(ImportDecl {
            specifiers: vec![ImportSpecifier::Named {
                local: "jsx".to_string(),
                imported: Some("jsx".to_string()),
            }],
            src: "react/jsx-runtime".to_string(),
        })],
    };
    visitor.detect_jsx_imports(&module);
    assert!(visitor.has_jsx_identifier("jsx"));
}

#[test]
fn test_experimental_no_try_finally_option() {
    let visitor = signals_transform(PluginOptions {
        experimental: Some(ExperimentalOptions { no_try_finally: Some(true) }),
        ..Default::default()
    });
    assert_eq!(visitor.options().experimental.as_ref().unwrap().no_try_finally, Some(true));
}

#[test]
fn test_custom_import_source() {
    let custom_source = "custom-signals-runtime";
    let visitor = signals_transform(PluginOptions {
        import_source: Some(custom_source.to_string()),
        ..Default::default()
    });
    assert_eq!(visitor.options().import_source.as_deref(), Some(custom_source));
}

#[test]
fn test_function_info_initialization() {
    let info = info("TestComponent", true, false, false, false, false, false);
    assert_eq!(info.name, Some("TestComponent".to_string()));
    assert!(info.is_component);
    assert!(!info.is_hook);
    assert!(!info.has_jsx);
    assert!(!info.uses_signals);
    assert!(!info.has_opt_in_comment);
    assert!(!info.has_opt_out_comment);
}

#[test]
fn test_import_name_constant() {
    assert_eq!(IMPORT_NAME, "useSignals");
    assert_eq!(DEFAULT_IMPORT_SOURCE, "@preact/signals-react/runtime");
}

#[test]
fn test_opt_out_comment_regex() {
    assert!(opt_out_comment_matches("@noUseSignals"));
    assert!(opt_out_comment_matches("@noTrackSignals"));
    assert!(opt_out_comment_matches(" @noUseSignals "));
    assert!(opt_out_comment_matches(" @noTrackSignals "));
    assert!(opt_out_comment_matches("some text @noUseSignals"));
    assert!(opt_out_comment_matches("@noUseSignals and more text"));

    assert!(!opt_out_comment_matches("@noSignals"));
    assert!(!opt_out_comment_matches("@noUse"));
    assert!(!opt_out_comment_matches("noUseSignals"));
    assert!(!opt_out_comment_matches("@useSignals"));
}

#[test]
fn test_opt_in_comment_regex() {
    assert!(opt_in_comment_matches("@useSignals"));
    assert!(opt_in_comment_matches("@trackSignals"));
    assert!(opt_in_comment_matches(" @useSignals "));
    assert!(opt_in_comment_matches(" @trackSignals "));
    assert!(opt_in_comment_matches("some text @useSignals"));
    assert!(opt_in_comment_matches("@trackSignals and more text"));

    assert!(!opt_in_comment_matches("@signals"));
    assert!(!opt_in_comment_matches("@use"));
    assert!(!opt_in_comment_matches("useSignals"));
    assert!(!opt_in_comment_matches("@noUseSignals"));
}

#[test]
fn test_opt_out_comment_overrides_transform() {
    let visitor = signals_transform(PluginOptions::default());
    let info_with_opt_out = info("MyComponent", true, false, true, true, false, true);
    assert!(!visitor.should_transform(&info_with_opt_out));
    let visitor_all = signals_transform(with_mode("all"));
    assert!(!visitor_all.should_transform(&info_with_opt_out));
}

#[test]
fn test_opt_in_comment_enables_transform() {
    let visitor = signals_transform(PluginOptions::default());
    let info_with_opt_in = info("myFunction", false, false, false, false, true, false);
    assert!(visitor.should_transform(&info_with_opt_in));
    let visitor_manual = signals_transform(with_mode("manual"));
    assert!(visitor_manual.should_transform(&info_with_opt_in));
}

#[test]
fn test_opt_out_takes_precedence_over_opt_in() {
    let visitor = signals_transform(PluginOptions::default());
    let info_both_comments = info("MyComponent", true, false, true, true, true, true);
    assert!(!visitor.should_transform(&info_both_comments));
}

#[test]
fn test_comment_functionality_integration() {
    let visitor = signals_transform(PluginOptions::default());
    let info_with_opt_out = info("MyComponent", true, false, true, true, false, true);
    assert!(
        !visitor.should_transform(&info_with_opt_out),
        "Opt-out comment should prevent transformation"
    );

    let visitor_manual = signals_transform(with_mode("manual"));
    let info_with_opt_in = info("myFunction", false, false, false, false, true, false);
    assert!(
        visitor_manual.should_transform(&info_with_opt_in),
        "Opt-in comment should enable transformation"
    );

    let info_both_comments = info("MyComponent", true, false, true, true, true, true);
    assert!(
        !visitor.should_transform(&info_both_comments),
        "Opt-out should take precedence over opt-in"
    );
}

#[test]
fn test_comment_regex_patterns_advanced() {
    assert!(opt_out_comment_matches("@noUseSignals"));
    assert!(opt_out_comment_matches("@noTrackSignals"));
    assert!(opt_out_comment_matches(" @noUseSignals "));
    assert!(opt_out_comment_matches("/** @noUseSignals */"));
    assert!(opt_out_comment_matches("// @noTrackSignals"));
    assert!(opt_out_comment_matches("some text @noUseSignals more text"));
    assert!(!opt_out_comment_matches("@useSignals"));
    assert!(!opt_out_comment_matches("@noSignals"));
    assert!(!opt_out_comment_matches("noUseSignals"));

    assert!(opt_in_comment_matches("@useSignals"));
    assert!(opt_in_comment_matches("@trackSignals"));
    assert!(opt_in_comment_matches(" @useSignals "));
    assert!(opt_in_comment_matches("/** @useSignals */"));
    assert!(opt_in_comment_matches("// @trackSignals"));
    assert!(opt_in_comment_matches("some text @useSignals more text"));
    assert!(!opt_in_comment_matches("@noUseSignals"));
    assert!(!opt_in_comment_matches("@signals"));
    assert!(!opt_in_comment_matches("useSignals"));
}
