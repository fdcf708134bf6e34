use iced_themer::value::{Fixed, Value};
use iced_themer::variables::{evaluate, extract, is_expr, resolve, substitute, ResolveError};

fn convert(v: &toml::Value) -> Value {
    match v {
        toml::Value::String(s) => Value::String(s.clone()),
        toml::Value::Integer(n) => Value::Integer(*n),
        toml::Value::Float(f) => Value::Float(Fixed { milli: (f * 1000.0).round() as i64 }),
        toml::Value::Boolean(b) => Value::Boolean(*b),
        toml::Value::Datetime(d) => Value::Datetime(d.to_string()),
        toml::Value::Array(a) => Value::Array(a.iter().map(convert).collect()),
        toml::Value::Table(t) => Value::Table(t.iter().map(|(k, v)| (k.clone(), convert(v))).collect()),
    }
}

fn parse(s: &str) -> Value {
    convert(&toml::Value::Table(toml::from_str::<toml::Table>(s).unwrap()))
}

fn get<'a>(v: &'a Value, key: &str) -> Option<&'a Value> {
    match v {
        Value::Table(t) => t.iter().find(|(k, _)| k == key).map(|(_, v)| v),
        _ => None,
    }
}

fn text<'a>(v: &'a Value, path: &[&str]) -> Option<&'a str> {
    let mut cur = v;
    for k in path {
        cur = get(cur, k)?;
    }
    match cur {
        Value::String(s) => Some(s.as_str()),
        _ => None,
    }
}

fn vars(pairs: &[(&str, &str)]) -> Vec<(String, String)> {
    pairs.iter().map(|(k, v)| (k.to_string(), v.to_string())).collect()
}

fn value_of<'a>(table: &'a [(String, String)], key: &str) -> &'a str {
    table.iter().find(|(k, _)| k == key).map(|(_, v)| v.as_str()).unwrap()
}

#[test]
fn no_variables_section_is_a_noop() {
    let mut v = parse(
        r##"
[palette]
primary = "#FF0000"
"##,
    );
    resolve(&mut v).unwrap();
    assert_eq!(text(&v, &["palette", "primary"]), Some("#FF0000"));
}

#[test]
fn basic_substitution() {
    let mut v = parse(
        r##"
[variables]
primary = "#66C0F4"

[button]
background = "$primary"
"##,
    );
    resolve(&mut v).unwrap();
    assert!(get(&v, "variables").is_none());
    assert_eq!(text(&v, &["button", "background"]), Some("#66C0F4"));
}

#[test]
fn variable_to_variable_reference() {
    let mut v = parse(
        r##"
[variables]
primary = "#66C0F4"
muted   = "$primary"

[button]
background = "$muted"
"##,
    );
    resolve(&mut v).unwrap();
    assert_eq!(text(&v, &["button", "background"]), Some("#66C0F4"));
}

#[test]
fn substitution_inside_gradient_stops() {
    let mut v = parse(
        r##"
[variables]
start = "#1B2838"
end   = "#2A3F5F"

[progress-bar.background]
angle = 0
stops = [
  { offset = 0.0, color = "$start" },
  { offset = 1.0, color = "$end"   },
]
"##,
    );
    resolve(&mut v).unwrap();
    let stops = match get(get(get(&v, "progress-bar").unwrap(), "background").unwrap(), "stops") {
        Some(Value::Array(a)) => a,
        _ => panic!("expected an array of stops"),
    };
    assert_eq!(text(&stops[0], &["color"]), Some("#1B2838"));
    assert_eq!(text(&stops[1], &["color"]), Some("#2A3F5F"));
}

#[test]
fn variables_undefined_variable_returns_error() {
    let mut v = parse(
        r#"
[variables]
primary = "$missing"

[button]
background = "$primary"
"#,
    );
    let err = resolve(&mut v).unwrap_err().message();
    assert!(err.contains("undefined variable"), "got: {err}");
}

#[test]
fn undefined_variable_in_toml_body_returns_error() {
    let mut v = parse(
        r##"
[variables]
primary = "#FF0000"

[button]
background = "$undefined"
"##,
    );
    let err = resolve(&mut v).unwrap_err().message();
    assert!(err.contains("undefined variable"), "got: {err}");
}

#[test]
fn cycle_detection() {
    let mut v = parse(
        r#"
[variables]
a = "$b"
b = "$a"

[palette]
primary = "$a"
"#,
    );
    let err = resolve(&mut v).unwrap_err().message();
    assert!(err.contains("cyclic"), "got: {err}");
}

#[test]
fn non_dollar_strings_are_unchanged() {
    let mut v = parse(
        r##"
[variables]
primary = "#FF0000"

[font]
family = "Arial"
"##,
    );
    resolve(&mut v).unwrap();
    assert_eq!(text(&v, &["font", "family"]), Some("Arial"));
}

#[test]
fn chains_resolve_to_literals_without_dollar() {
    let table = vars(&[("a", "$b"), ("b", "$c"), ("c", "$d"), ("d", "#102030")]);
    let out = evaluate(table).unwrap();
    for (_, v) in &out {
        assert_eq!(v, "#102030");
        assert!(!v.contains('$'));
    }
}

#[test]
fn long_chain_in_reverse_order_resolves() {
    let mut table = Vec::new();
    for i in 0..20 {
        table.push((format!("v{i}"), format!("$v{}", i + 1)));
    }
    table.push(("v20".to_string(), "#ABCDEF".to_string()));
    let out = evaluate(table).unwrap();
    assert!(out.iter().all(|(_, v)| v == "#ABCDEF"));
}

#[test]
fn cycle_names_every_member() {
    let err = evaluate(vars(&[("a", "$b"), ("b", "$a"), ("c", "#000000")])).unwrap_err();
    assert_eq!(err, ResolveError::Cyclic(vec!["a".to_string(), "b".to_string()]));
    let msg = err.message();
    assert!(msg.contains("`$a`") && msg.contains("`$b`"), "got: {msg}");
    assert_eq!(msg, "cyclic variable references: `$a`, `$b`");
}

#[test]
fn variables_leading_into_a_cycle_are_reported() {
    let err = evaluate(vars(&[("x", "$a"), ("a", "$b"), ("b", "$a")])).unwrap_err();
    assert_eq!(err, ResolveError::Cyclic(vec!["x".to_string(), "a".to_string(), "b".to_string()]));
}

#[test]
fn self_reference_is_a_cycle() {
    let err = evaluate(vars(&[("a", "$a")])).unwrap_err();
    assert_eq!(err, ResolveError::Cyclic(vec!["a".to_string()]));
}

#[test]
fn undefined_reference_names_both_variables() {
    let err = evaluate(vars(&[("a", "$b")])).unwrap_err();
    assert_eq!(err, ResolveError::Undefined { name: "b".to_string(), from: Some("a".to_string()) });
    assert_eq!(err.message(), "undefined variable `$b` (referenced from `$a`)");
}

#[test]
fn expressions_in_variables_are_evaluated() {
    let out = evaluate(vars(&[("primary", "#66C0F4"), ("hover", "darken($primary, 20%)")])).unwrap();
    let direct = iced_themer::expr::evaluate("darken(#66C0F4, 20%)", &vec![]).unwrap();
    assert_eq!(value_of(&out, "hover"), direct);
    assert_eq!(value_of(&out, "primary"), "#66C0F4");
}

#[test]
fn expression_over_a_reference_chain() {
    let out = evaluate(vars(&[("base", "#66C0F4"), ("alias", "$base"), ("dark", "darken($alias, 20%)")])).unwrap();
    let direct = iced_themer::expr::evaluate("darken(#66C0F4, 20%)", &vec![]).unwrap();
    assert_eq!(value_of(&out, "dark"), direct);
}

#[test]
fn failing_expression_names_its_variable() {
    let err = evaluate(vars(&[("x", "bake(#000000)")])).unwrap_err();
    assert!(matches!(err, ResolveError::InVariable { ref name, .. } if name == "x"));
    assert!(err.message().starts_with("variable `x`: unknown color function"));
}

#[test]
fn non_string_variable_is_refused() {
    let mut v = parse("[variables]\nsize = 3\n");
    assert_eq!(resolve(&mut v), Err(ResolveError::NonString("size".to_string())));
}

#[test]
fn variables_must_be_a_table() {
    let mut v = parse("variables = 3\n");
    assert_eq!(resolve(&mut v), Err(ResolveError::NotATable));
}

#[test]
fn extract_removes_the_table() {
    let mut v = parse("[variables]\na = \"#000000\"\n[palette]\nx = 1\n");
    let table = extract(&mut v).unwrap();
    assert_eq!(table, vars(&[("a", "#000000")]));
    assert!(get(&v, "variables").is_none());
    assert!(get(&v, "palette").is_some());
}

#[test]
fn inline_expressions_in_the_body_are_evaluated() {
    let mut v = parse("[button]\nbackground = \"lighten(#66C0F4, 10%)\"\n");
    let table = vars(&[("unused", "#000000")]);
    substitute(&mut v, &table).unwrap();
    let direct = iced_themer::expr::evaluate("lighten(#66C0F4, 10%)", &vec![]).unwrap();
    assert_eq!(text(&v, &["button", "background"]), Some(direct.as_str()));
}

#[test]
fn failing_inline_expression_names_its_text() {
    let mut v = parse("[button]\nbackground = \"bake(#000000)\"\n");
    let err = substitute(&mut v, &vars(&[("a", "#000000")])).unwrap_err();
    assert!(matches!(err, ResolveError::InExpression { ref text, .. } if text == "bake(#000000)"));
}

#[test]
fn expression_heuristic() {
    assert!(is_expr("darken($a, 1%)"));
    assert!(!is_expr("#FF0000"));
    assert!(!is_expr("(not a call)"));
    assert!(!is_expr("Arial"));
    assert!(is_expr("Arial (bold)"));
}

#[test]
fn numbers_and_booleans_are_untouched() {
    let mut v = parse("[variables]\na = \"#000000\"\n[x]\nn = 3\nf = 1.5\nb = true\n");
    resolve(&mut v).unwrap();
    let x = get(&v, "x").unwrap();
    assert!(matches!(get(x, "n"), Some(Value::Integer(3))));
    assert!(matches!(get(x, "f"), Some(Value::Float(Fixed { milli: 1500 }))));
    assert!(matches!(get(x, "b"), Some(Value::Boolean(true))));
}
