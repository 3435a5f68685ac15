use vfx_ocio::context::Context;

#[test]
fn resolve_simple_var() {
    let mut ctx = Context::without_env();
    ctx.set("SHOT", "sh010");

    assert_eq!(ctx.resolve("/path/$SHOT/file"), "/path/sh010/file");
}

#[test]
fn resolve_braced_var() {
    let mut ctx = Context::without_env();
    ctx.set("SEQ", "sq01");

    assert_eq!(ctx.resolve("/path/${SEQ}_data"), "/path/sq01_data");
}

#[test]
fn resolve_multiple_vars() {
    let mut ctx = Context::without_env();
    ctx.set("A", "alpha");
    ctx.set("B", "beta");

    assert_eq!(ctx.resolve("$A-${B}-$A"), "alpha-beta-alpha");
}

#[test]
fn unresolved_left_as_is() {
    let ctx = Context::without_env();
    assert_eq!(ctx.resolve("$UNKNOWN"), "$UNKNOWN");
    assert_eq!(ctx.resolve("${UNKNOWN}"), "${UNKNOWN}");
}

#[test]
fn dollar_at_end() {
    let ctx = Context::without_env();
    assert_eq!(ctx.resolve("test$"), "test$");
}

#[test]
fn context_variables() {
    let mut ctx = Context::new();
    ctx.set("SHOT", "sh010");

    let resolved = ctx.resolve("/shows/$SHOT/luts/grade.cube");
    assert_eq!(resolved, "/shows/sh010/luts/grade.cube");
}

#[test]
fn plain_text_is_unchanged() {
    let mut ctx = Context::without_env();
    ctx.set("X", "y");
    assert_eq!(ctx.resolve("/no/variables/here.cube"), "/no/variables/here.cube");
    assert_eq!(ctx.resolve(""), "");
}

#[test]
fn environment_values_follow_set_values() {
    let mut ctx = Context::new();
    ctx.set_env_var("SHOW", "from_env");
    ctx.set_env_var("SEQ", "env_seq");
    ctx.set("SEQ", "set_seq");
    assert_eq!(ctx.resolve("$SHOW/$SEQ"), "from_env/set_seq");
    assert_eq!(ctx.get("SHOW"), Some("from_env".to_string()));
    assert!(ctx.contains("SHOW"));

    let mut plain = Context::without_env();
    plain.set_env_var("SHOW", "from_env");
    assert_eq!(plain.resolve("$SHOW"), "$SHOW");
    assert_eq!(plain.get("SHOW"), None);
    assert!(!plain.contains("SHOW"));
}

#[test]
fn braced_name_runs_to_closing_brace_and_unclosed_brace() {
    let mut ctx = Context::without_env();
    ctx.set("A B", "space");
    assert_eq!(ctx.resolve("${A B}!"), "space!");
    assert_eq!(ctx.resolve("x${A"), "x${A");
    assert_eq!(ctx.resolve("x${A B"), "x${A B");
}

#[test]
fn clear_and_vars() {
    let mut ctx = Context::without_env();
    ctx.set("A", "1");
    ctx.set("B", "2");
    ctx.set("A", "3");
    assert_eq!(ctx.vars().len(), 2);
    assert_eq!(ctx.vars().get("A"), Some("3"));
    ctx.clear();
    assert_eq!(ctx.vars().len(), 0);
    assert_eq!(ctx.resolve("$A"), "$A");
}

#[test]
fn unclosed_reference_left_as_is() {
    let mut ctx = Context::without_env();
    assert_eq!(ctx.resolve("/path/${NAME"), "/path/${NAME");
    ctx.set("NAME", "x");
    assert_eq!(ctx.resolve("a ${NAME b"), "a ${NAME b");
    assert_eq!(ctx.resolve("${NAME}/${NAME"), "x/${NAME");
    assert_eq!(ctx.resolve("${"), "${");
}
