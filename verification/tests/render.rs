use coinmarketcap_top100_bot::Value;
use coinmarketcap_top100_bot::render_template;

fn text(s: &str) -> Value {
    Value::Text(s.to_string())
}

fn obj(pairs: Vec<(&str, Value)>) -> Value {
    Value::Obj(pairs.into_iter().map(|(k, v)| (k.to_string(), v)).collect())
}

fn sample_ctx() -> Value {
    obj(vec![
        ("name", text("Alice")),
        (
            "items",
            Value::Arr(vec![
                obj(vec![("name", text("BTC"))]),
                obj(vec![("name", text("ETH"))]),
            ]),
        ),
        ("empty", text("")),
    ])
}

#[test]
fn template_features_work() {
    let ctx = sample_ctx();
    let t = "hi %name|X% %% %missing|d% %IF name%ok%END_IF%%IF empty%bad%END_IF% %EACH items%[%name%]%END_EACH%";
    let out = render_template(t, &ctx);
    assert_eq!(out, "hi Alice % d ok [BTC][ETH]");
}

#[test]
fn escaping_emits_single_percent() {
    let empty = obj(vec![]);
    assert_eq!(render_template("100%%", &empty), "100%");
    assert_eq!(render_template("100%%", &sample_ctx()), "100%");
    assert_eq!(render_template("100%%", &Value::Null), "100%");
}

#[test]
fn substitution_with_present_value() {
    let root = obj(vec![("name", text("Alice"))]);
    assert_eq!(render_template("hi %name%", &root), "hi Alice");
}

#[test]
fn default_fallback_on_missing_or_empty() {
    let root = obj(vec![("empty", text(""))]);
    assert_eq!(render_template("%missing|d%", &root), "d");
    assert_eq!(render_template("%empty|d%", &root), "d");
}

#[test]
fn conditional_truthiness() {
    let root = obj(vec![("flag", Value::Bool(true)), ("blank", text(""))]);
    assert_eq!(
        render_template("%IF flag%yes%END_IF%%IF blank%no%END_IF%", &root),
        "yes"
    );
}

#[test]
fn iteration_preserves_order_and_binds_local_scope() {
    let root = obj(vec![(
        "items",
        Value::Arr(vec![
            obj(vec![("name", text("BTC"))]),
            obj(vec![("name", text("ETH"))]),
        ]),
    )]);
    assert_eq!(
        render_template("%EACH items%[%name%]%END_EACH%", &root),
        "[BTC][ETH]"
    );
}

#[test]
fn local_shadows_root() {
    let root = obj(vec![
        ("name", text("outer")),
        ("items", Value::Arr(vec![obj(vec![("name", text("inner"))])])),
    ]);
    assert_eq!(render_template("%EACH items%%name%%END_EACH%", &root), "inner");
}

#[test]
fn non_sequence_each_target_yields_empty_block() {
    let root = obj(vec![("items", text("not-a-list"))]);
    assert_eq!(render_template("%EACH items%X%END_EACH%", &root), "");
}

#[test]
fn plain_text_renders_as_itself() {
    let t = "no directives here, just text\nwith a newline";
    assert_eq!(render_template(t, &sample_ctx()), t);
    assert_eq!(render_template(t, &Value::Null), t);
    assert_eq!(render_template("", &sample_ctx()), "");
}

#[test]
fn combined_scenario() {
    let root = sample_ctx();
    let t = "hi %name|X% %% %missing|d% %IF name%ok%END_IF%%IF empty%bad%END_IF% %EACH items%[%name%]%END_EACH%";
    assert_eq!(render_template(t, &root), "hi Alice % d ok [BTC][ETH]");
}

#[test]
fn unterminated_directives_degrade_to_literal_text() {
    let root = sample_ctx();
    assert_eq!(render_template("50% off", &root), "50% off");
    assert_eq!(render_template("%EACH items", &root), "%EACH items");
    assert_eq!(render_template("%IF name", &root), "%IF name");
    assert_eq!(render_template("tail %", &root), "tail %");
}

#[test]
fn falsy_values_skip_conditional_blocks() {
    let root = obj(vec![
        ("null", Value::Null),
        ("zero", Value::Num("0".to_string())),
        ("off", Value::Bool(false)),
    ]);
    assert_eq!(render_template("%IF null%a%END_IF%", &root), "");
    assert_eq!(render_template("%IF missing%a%END_IF%", &root), "");
    // a number and even boolean false count as present, hence truthy
    assert_eq!(render_template("%IF zero%a%END_IF%", &root), "a");
    assert_eq!(render_template("%IF off%a%END_IF%", &root), "a");
}

#[test]
fn substitution_displays_numbers_and_booleans() {
    let root = obj(vec![
        ("n", Value::Num("42".to_string())),
        ("yes", Value::Bool(true)),
        ("no", Value::Bool(false)),
        ("gone", Value::Null),
    ]);
    assert_eq!(render_template("%n%", &root), "42");
    assert_eq!(render_template("%yes%/%no%", &root), "true/false");
    assert_eq!(render_template("%gone|absent%", &root), "absent");
}

#[test]
fn substitution_key_is_trimmed_but_default_is_not() {
    let root = obj(vec![("name", text("Alice"))]);
    assert_eq!(render_template("%  name %", &root), "Alice");
    assert_eq!(render_template("%missing| x %", &root), " x ");
}

#[test]
fn sequence_and_mapping_display_as_json_like_text() {
    let root = obj(vec![
        ("seq", Value::Arr(vec![Value::Num("1".to_string()), text("a")])),
        ("map", obj(vec![("k", Value::Num("7".to_string()))])),
    ]);
    assert_eq!(render_template("%seq%", &root), "[1,\"a\"]");
    assert_eq!(render_template("%map%", &root), "{\"k\":7}");
}

#[test]
fn conditional_inside_iteration_sees_the_element_scope() {
    let root = obj(vec![(
        "items",
        Value::Arr(vec![
            obj(vec![("name", text("BTC"))]),
            obj(vec![("other", text("x"))]),
        ]),
    )]);
    assert_eq!(
        render_template("%EACH items%%IF name%y%END_IF%%END_EACH%", &root),
        "y"
    );
}

#[test]
fn block_ends_at_the_first_closing_marker() {
    // closing markers are matched by first occurrence, not by nesting
    let root = sample_ctx();
    assert_eq!(
        render_template("%EACH items%a%END_EACH%b%END_EACH%", &root),
        "aab"
    );
}

#[test]
fn each_over_empty_sequence_renders_nothing() {
    let root = obj(vec![("items", Value::Arr(vec![]))]);
    assert_eq!(render_template("a%EACH items%X%END_EACH%b", &root), "ab");
}
