use lnav_rs_ext::compile::{
    compile_tree, compile_tree_int, options_try_from, CompileOptions, Severity,
    SourceTreeElement,
};

fn options(target: &str) -> CompileOptions {
    CompileOptions {
        format: false,
        target: target.to_string(),
        signature_comment: false,
    }
}

fn tree_of(content: &str) -> Vec<SourceTreeElement> {
    vec![SourceTreeElement {
        path: "q.prql".to_string(),
        content: content.to_string(),
    }]
}

#[test]
fn a_simple_query_compiles_to_sql() {
    let r = compile_tree(&tree_of("from albums | select {title}"), &options("sql.sqlite"));
    assert!(r.messages.is_empty(), "unexpected messages: {:?}", r.messages.len());
    assert!(r.output.to_uppercase().contains("SELECT"));
    assert!(r.output.contains("albums"));
}

#[test]
fn a_broken_query_reports_errors_and_no_sql() {
    let r = compile_tree(&tree_of("from albums | select {nope("), &options("sql.sqlite"));
    assert!(r.output.is_empty());
    assert!(!r.messages.is_empty());
    assert!(matches!(r.messages[0].kind, Severity::Error));
    assert!(!r.messages[0].reason.is_empty());
}

#[test]
fn an_unknown_target_is_reported() {
    let r = compile_tree(&tree_of("from albums"), &options("sql.not-a-dialect"));
    assert!(r.output.is_empty());
    assert!(!r.messages.is_empty());
}

#[test]
fn the_generic_target_is_accepted() {
    assert!(options_try_from(&options("sql.any")).is_ok());
    assert!(options_try_from(&options("sql.duckdb")).is_ok());
    assert!(options_try_from(&options("nonsense")).is_err());
}

#[test]
fn parse_errors_carry_locations_from_the_sources() {
    let r = compile_tree_int(&tree_of("let x = ("), &options("sql.any"));
    let errors = r.unwrap_err();
    assert!(!errors.inner.is_empty());
    // Composition against the sources fills the location in.
    assert!(errors.inner[0].location.is_some());
}

#[test]
fn success_and_messages_never_come_together() {
    let good = compile_tree(&tree_of("from albums"), &options("sql.any"));
    assert!(good.output.is_empty() || good.messages.is_empty());
    let bad = compile_tree(&tree_of("((("), &options("sql.any"));
    assert!(bad.output.is_empty() || bad.messages.is_empty());
    assert!(!bad.messages.is_empty());
}
