use iced_themer::expr::{evaluate, expect_args, parse_call, ExprError};
use iced_themer::parse_color;

fn vars() -> Vec<(String, String)> {
    vec![
        ("primary".to_string(), "#66C0F4".to_string()),
        ("danger".to_string(), "#F44336".to_string()),
    ]
}

fn chars(s: &str) -> Vec<char> {
    s.chars().collect()
}

#[test]
fn darken_with_variable() {
    let result = evaluate("darken($primary, 20%)", &vars()).unwrap();
    assert!(result.starts_with('#'), "expected hex, got `{result}`");
    assert_eq!(result.len(), 7, "expected #rrggbb, got `{result}`");
}

#[test]
fn lighten_with_literal() {
    let result = evaluate("lighten(#66C0F4, 10%)", &vars()).unwrap();
    assert!(result.starts_with('#'));
}

#[test]
fn greyscale_takes_one_arg() {
    let result = evaluate("greyscale($primary)", &vars()).unwrap();
    assert!(result.starts_with('#'));
}

#[test]
fn grayscale_alias_works() {
    let a = evaluate("greyscale($primary)", &vars()).unwrap();
    let b = evaluate("grayscale($primary)", &vars()).unwrap();
    assert_eq!(a, b);
}

#[test]
fn spin_with_degrees() {
    let result = evaluate("spin($primary, 180deg)", &vars()).unwrap();
    assert!(result.starts_with('#'));
}

#[test]
fn mix_two_variables() {
    let result = evaluate("mix($primary, $danger, 50%)", &vars()).unwrap();
    assert!(result.starts_with('#'));
    assert!(result.len() == 7 || result.len() == 9, "got `{result}`");
}

#[test]
fn unknown_function_returns_error() {
    let err = evaluate("bake($primary, 10%)", &vars()).unwrap_err().message();
    assert!(err.contains("unknown color function"), "got: {err}");
}

#[test]
fn expr_undefined_variable_returns_error() {
    let err = evaluate("darken($missing, 10%)", &vars()).unwrap_err().message();
    assert!(err.contains("undefined variable"), "got: {err}");
}

#[test]
fn wrong_arg_count_returns_error() {
    let err = evaluate("darken($primary)", &vars()).unwrap_err().message();
    assert!(err.contains("expects"), "got: {err}");
}

#[test]
fn percent_out_of_range_returns_error() {
    let err = evaluate("darken($primary, 150%)", &vars()).unwrap_err().message();
    assert!(err.contains("percentage"), "got: {err}");
}

#[test]
fn mix_of_a_color_with_itself_is_that_color() {
    assert_eq!(evaluate("mix(#66C0F4, #66C0F4, 50%)", &vars()).unwrap(), "#66C0F4");
    assert_eq!(evaluate("mix($danger, $danger, 50%)", &vars()).unwrap(), "#F44336");
    assert_eq!(evaluate("mix(#010203, #010203, 50%)", &vars()).unwrap(), "#010203");
}

#[test]
fn greyscale_alias_on_literals() {
    for c in ["#66C0F4", "#F44336", "#123456", "black"] {
        let a = evaluate(&format!("greyscale({c})"), &vars()).unwrap();
        let b = evaluate(&format!("grayscale({c})"), &vars()).unwrap();
        assert_eq!(a, b);
    }
}

#[test]
fn every_operation_changes_a_saturated_color() {
    let base = "#66C0F4";
    for e in [
        "darken($primary, 20%)",
        "lighten($primary, 20%)",
        "desaturate($primary, 50%)",
        "tint($primary, 50%)",
        "shade($primary, 50%)",
        "greyscale($primary)",
        "spin($primary, 180deg)",
        "mix($primary, $danger, 50%)",
    ] {
        let r = evaluate(e, &vars()).unwrap();
        assert_ne!(r, base, "{e} gave its argument back");
        assert!(parse_color(&r).is_ok(), "{e} gave `{r}`");
    }
    let s = evaluate("saturate(#806060, 50%)", &vars()).unwrap();
    assert_ne!(s, "#806060");
}

#[test]
fn results_are_canonical_upper_case_hex() {
    let r = evaluate("darken($primary, 20%)", &vars()).unwrap();
    assert!(r[1..].chars().all(|c| c.is_ascii_digit() || ('A'..='F').contains(&c)), "got {r}");
}

#[test]
fn whitespace_around_the_call_and_arguments_is_ignored() {
    let a = evaluate("  darken( $primary ,  20% )  ", &vars()).unwrap();
    let b = evaluate("darken($primary, 20%)", &vars()).unwrap();
    assert_eq!(a, b);
}

#[test]
fn expression_errors_by_kind() {
    assert!(matches!(evaluate("darken", &vars()), Err(ExprError::NotACall(_))));
    assert!(matches!(evaluate("darken($primary, 20%", &vars()), Err(ExprError::MissingParen(_))));
    assert!(matches!(evaluate("bake($primary)", &vars()), Err(ExprError::UnknownFunction(_))));
    assert_eq!(
        evaluate("mix($primary)", &vars()),
        Err(ExprError::WrongArgCount { name: "mix".to_string(), expected: 3, got: 1 })
    );
    assert_eq!(
        evaluate("darken($nope, 1%)", &vars()),
        Err(ExprError::UndefinedVariable("nope".to_string()))
    );
    assert!(matches!(evaluate("darken(#12, 1%)", &vars()), Err(ExprError::InvalidColor { .. })));
    assert!(matches!(evaluate("darken($primary, 20)", &vars()), Err(ExprError::ExpectedPercent(_))));
    assert!(matches!(evaluate("darken($primary, x%)", &vars()), Err(ExprError::InvalidPercent(_))));
    assert_eq!(evaluate("darken($primary, 101%)", &vars()), Err(ExprError::PercentOutOfRange(101)));
    assert!(matches!(evaluate("spin($primary, 180)", &vars()), Err(ExprError::ExpectedAngle(_))));
    assert!(matches!(evaluate("spin($primary, xdeg)", &vars()), Err(ExprError::InvalidAngle(_))));
}

#[test]
fn percent_edges() {
    assert!(evaluate("darken($primary, 0%)", &vars()).is_ok());
    assert!(evaluate("darken($primary, 100%)", &vars()).is_ok());
    assert!(evaluate("darken($primary, +5%)", &vars()).is_ok());
    assert_eq!(evaluate("darken($primary, 256%)", &vars()), Err(ExprError::InvalidPercent("256".to_string())));
}

#[test]
fn negative_and_large_angles_are_accepted() {
    let a = evaluate("spin($primary, -180deg)", &vars()).unwrap();
    let b = evaluate("spin($primary, 180deg)", &vars()).unwrap();
    assert_eq!(a, b);
    assert!(evaluate("spin($primary, 2147483647deg)", &vars()).is_ok());
    assert!(evaluate("spin($primary, -2147483648deg)", &vars()).is_ok());
}

#[test]
fn call_parts_and_argument_count() {
    let (name, args) = parse_call(&chars("darken( a, b )")).unwrap();
    assert_eq!(name, chars("darken"));
    assert_eq!(args, chars(" a, b "));
    let args = vec![chars("a"), chars("b")];
    assert!(expect_args(&chars("darken"), &args, 2).is_ok());
    assert!(expect_args(&chars("darken"), &args, 1).is_err());
}

#[test]
fn expression_error_messages() {
    let e = ExprError::WrongArgCount { name: "darken".to_string(), expected: 2, got: 1 };
    assert_eq!(e.message(), "`darken` expects 2 argument(s), got 1");
    assert_eq!(ExprError::UndefinedVariable("x".to_string()).message(), "undefined variable `$x`");
    assert_eq!(ExprError::PercentOutOfRange(150).message(), "percentage must be 0-100, got `150`");
}
