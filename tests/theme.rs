use iced_themer::expr::evaluate;
use iced_themer::value::{Fixed, Value};
use iced_themer::{
    parse_color, Background, Error, FontFamily, FontStretch, FontStyle, FontWeight, HandleShapeKind,
    HexColor, ResolveError, TextInputStatus, ThemeConfig,
};

fn convert(v: &toml::Value) -> Value {
    match v {
        toml::Value::String(s) => Value::String(s.clone()),
        toml::Value::Integer(n) => Value::Integer(*n),
        toml::Value::Float(f) => Value::Float(Fixed { milli: (f * 1000.0).round() as i64 }),
        toml::Value::Boolean(b) => Value::Boolean(*b),
        toml::Value::Datetime(d) => Value::Datetime(d.to_string()),
        toml::Value::Array(a) => Value::Array(a.iter().map(convert).collect()),
        toml::Value::Table(t) => Value::Table(t.iter().map(|(k, v)| (k.clone(), convert(v))).collect()),
    }
}

fn theme(s: &str) -> Result<ThemeConfig, Error> {
    ThemeConfig::from_document(convert(&toml::Value::Table(toml::from_str::<toml::Table>(s).unwrap())))
}

const PALETTE: &str = r##"
[palette]
background = "#1B2838"
text = "#C7D5E0"
primary = "#66C0F4"
success = "#4CAF50"
warning = "#FF9800"
danger = "#F44336"
"##;

#[test]
fn palette_only_theme_has_no_widget_styles() {
    let t = theme(PALETTE).unwrap();
    assert_eq!(t.theme().primary, HexColor::from_rgba8(102, 192, 244, 255));
    assert_eq!(t.name(), "Custom");
    assert!(t.font().is_none());
    assert!(t.button().is_none());
    assert!(t.container().is_none());
    assert!(t.text_input().is_none());
    assert!(t.checkbox().is_none());
    assert!(t.toggler().is_none());
    assert!(t.slider().is_none());
    assert!(t.progress_bar().is_none());
    assert!(t.radio().is_none());
}

#[test]
fn button_background_from_an_expression_over_a_variable() {
    let doc = format!(
        "{PALETTE}\n[variables]\nprimary = \"#66C0F4\"\n\n[button]\nbackground = \"darken($primary, 20%)\"\n"
    );
    let t = theme(&doc).unwrap();
    let direct = parse_color(&evaluate("darken(#66C0F4, 20%)", &vec![]).unwrap()).unwrap();
    let active = t.button().unwrap().active();
    assert_eq!(active.background, Some(Background::Color(direct)));
    assert_ne!(direct, parse_color("#66C0F4").unwrap());
}

#[test]
fn undefined_variable_fails_construction() {
    let doc = format!("{PALETTE}\n[variables]\na = \"$b\"\n");
    let err = theme(&doc).unwrap_err();
    assert_eq!(
        err,
        Error::Variables(ResolveError::Undefined { name: "b".to_string(), from: Some("a".to_string()) })
    );
    assert!(err.message().contains("`$b`"), "got {}", err.message());
}

#[test]
fn name_and_font_are_read() {
    let doc = format!(
        "name = \"Steam\"\n{PALETTE}\n[font]\nfamily = \"Fira Sans\"\nweight = \"semibold\"\nstretch = \"condensed\"\n"
    );
    let t = theme(&doc).unwrap();
    assert_eq!(t.name(), "Steam");
    let f = t.font().unwrap();
    assert_eq!(f.family, FontFamily::Name("Fira Sans".to_string()));
    assert_eq!(f.weight, FontWeight::Semibold);
    assert_eq!(f.style, FontStyle::Normal);
    assert_eq!(f.stretch, FontStretch::Condensed);
}

#[test]
fn generic_font_families() {
    for (name, family) in [
        ("serif", FontFamily::Serif),
        ("sans-serif", FontFamily::SansSerif),
        ("monospace", FontFamily::Monospace),
        ("cursive", FontFamily::Cursive),
        ("fantasy", FontFamily::Fantasy),
    ] {
        let t = theme(&format!("{PALETTE}\n[font]\nfamily = \"{name}\"\n")).unwrap();
        assert_eq!(t.font().unwrap().family, family);
    }
    let t = theme(&format!("{PALETTE}\n[font]\n")).unwrap();
    assert_eq!(t.font().unwrap().family, FontFamily::SansSerif);
}

#[test]
fn unknown_font_weight_is_refused() {
    let err = theme(&format!("{PALETTE}\n[font]\nweight = \"heavy\"\n")).unwrap_err();
    assert!(err.message().contains("unknown value \"heavy\" for `weight`"), "got {}", err.message());
}

#[test]
fn missing_palette_color_is_refused() {
    let err = theme("[palette]\nbackground = \"#000000\"\n").unwrap_err();
    assert!(err.message().contains("missing field `text`"), "got {}", err.message());
    let err = theme("name = \"x\"\n").unwrap_err();
    assert!(err.message().contains("missing field `palette`"), "got {}", err.message());
}

#[test]
fn invalid_palette_color_names_field_and_value() {
    let doc = PALETTE.replace("#66C0F4", "#66C0F");
    let err = theme(&doc).unwrap_err();
    let msg = err.message();
    assert!(msg.contains("`primary`") && msg.contains("#66C0F"), "got {msg}");
}

#[test]
fn empty_sections_give_fully_defaulted_styles() {
    let doc = format!(
        "{PALETTE}\n[button]\n[container]\n[text-input]\n[checkbox]\n[toggler]\n[slider]\n[progress-bar]\n[radio]\n"
    );
    let t = theme(&doc).unwrap();
    let b = t.button().unwrap();
    assert_eq!(b.active().background, None);
    assert_eq!(b.pressed().text_color, HexColor::black());
    assert_eq!(b.disabled().shadow.color, HexColor::transparent());
    let c = t.container().unwrap().appearance();
    assert_eq!(c.text_color, None);
    assert_eq!(c.border.width, Fixed { milli: 0 });
    let ti = t.text_input().unwrap().style_fn(TextInputStatus::Focused { is_hovered: true });
    assert_eq!(ti.placeholder, HexColor::from_rgba8(0x80, 0x80, 0x80, 255));
    assert_eq!(ti.selection, HexColor::from_rgba8(0x33, 0x99, 0xFF, 77));
    assert_eq!(ti.background, Background::Color(HexColor::transparent()));
    let tg = t.toggler().unwrap().hovered(true);
    assert_eq!(tg.foreground, HexColor::black());
    assert_eq!(tg.border_radius, None);
    let s = t.slider().unwrap().dragged();
    assert_eq!(s.rail_width, Fixed { milli: 4000 });
    assert_eq!(s.handle_shape, HandleShapeKind::Circle { radius: Fixed { milli: 7000 } });
    let p = t.progress_bar().unwrap().appearance();
    assert_eq!(p.bar, Background::Color(HexColor::black()));
    let r = t.radio().unwrap().disabled(false);
    assert_eq!(r.border_width, Fixed { milli: 1000 });
    assert_eq!(r.dot_color, HexColor::black());
}

#[test]
fn status_layers_override_the_base() {
    let doc = format!(
        "{PALETTE}\n[button]\nbackground = \"#66C0F4\"\ntext-color = \"#FFFFFF\"\nborder-radius = 4.0\n[button.hovered]\nbackground = \"#77D0FF\"\n"
    );
    let t = theme(&doc).unwrap();
    let b = t.button().unwrap();
    let c = |s: &str| Some(Background::Color(parse_color(s).unwrap()));
    assert_eq!(b.active().background, c("#66C0F4"));
    assert_eq!(b.hovered().background, c("#77D0FF"));
    assert_eq!(b.hovered().text_color, HexColor::white());
    assert_eq!(b.pressed().background, c("#66C0F4"));
    assert_eq!(b.hovered().border.radius.bottom_left, Fixed { milli: 4000 });
}

#[test]
fn text_input_statuses() {
    let doc = format!(
        "{PALETTE}\n[text-input]\nvalue-color = \"#000001\"\n[text-input.focused]\nvalue-color = \"#000002\"\n[text-input.disabled]\nvalue-color = \"#000003\"\n"
    );
    let t = theme(&doc).unwrap();
    let s = t.text_input().unwrap();
    let v = |st| s.style_fn(st).value;
    assert_eq!(v(TextInputStatus::Active), HexColor::from_rgba8(0, 0, 1, 255));
    assert_eq!(v(TextInputStatus::Hovered), HexColor::from_rgba8(0, 0, 1, 255));
    assert_eq!(v(TextInputStatus::Focused { is_hovered: false }), HexColor::from_rgba8(0, 0, 2, 255));
    assert_eq!(v(TextInputStatus::Disabled), HexColor::from_rgba8(0, 0, 3, 255));
}

#[test]
fn slider_rectangle_handle() {
    let doc = format!(
        "{PALETTE}\n[slider]\nhandle-shape = \"rectangle\"\nhandle-width = 12.7\n[slider.hovered]\nhandle-shape = \"circle\"\n"
    );
    let t = theme(&doc).unwrap();
    let s = t.slider().unwrap();
    match s.active().handle_shape {
        HandleShapeKind::Rectangle { width, border_radius } => {
            assert_eq!(width, 12);
            assert_eq!(border_radius.top_left, Fixed { milli: 2000 });
        }
        _ => panic!("expected a rectangle"),
    }
    assert!(matches!(s.hovered().handle_shape, HandleShapeKind::Circle { .. }));
    let err = theme(&format!("{PALETTE}\n[slider]\nhandle-shape = \"star\"\n")).unwrap_err();
    assert!(err.message().contains("\"star\""));
}

#[test]
fn toggler_and_radio_states() {
    let doc = format!(
        "{PALETTE}\n[toggler]\nforeground = \"#000001\"\n[toggler.toggled]\nforeground = \"#000002\"\n[radio]\ndot-color = \"#000003\"\n[radio.selected]\ndot-color = \"#000004\"\n[radio.disabled-selected]\ndot-color = \"#000005\"\n"
    );
    let t = theme(&doc).unwrap();
    let tg = t.toggler().unwrap();
    assert_eq!(tg.active(false).foreground, HexColor::from_rgba8(0, 0, 1, 255));
    assert_eq!(tg.active(true).foreground, HexColor::from_rgba8(0, 0, 2, 255));
    assert_eq!(tg.disabled(true).foreground, HexColor::from_rgba8(0, 0, 2, 255));
    let r = t.radio().unwrap();
    assert_eq!(r.hovered(true).dot_color, HexColor::from_rgba8(0, 0, 4, 255));
    assert_eq!(r.disabled(true).dot_color, HexColor::from_rgba8(0, 0, 5, 255));
    assert_eq!(r.disabled(false).dot_color, HexColor::from_rgba8(0, 0, 3, 255));
}

#[test]
fn progress_bar_gradient_background_through_variables() {
    let doc = format!(
        "{PALETTE}\n[variables]\nstart = \"#1B2838\"\n\n[progress-bar.background]\nangle = 0\nstops = [ {{ offset = 0.0, color = \"$start\" }}, {{ offset = 1.0, color = \"white\" }} ]\n"
    );
    let t = theme(&doc).unwrap();
    match t.progress_bar().unwrap().appearance().background {
        Background::Gradient(g) => {
            assert_eq!(g.stops[0].unwrap().color, parse_color("#1B2838").unwrap());
            assert_eq!(g.stops[1].unwrap().color, HexColor::white());
            assert!(g.stops[2].is_none());
        }
        _ => panic!("expected a gradient"),
    }
}

#[test]
fn cyclic_variables_fail_construction() {
    let doc = format!("{PALETTE}\n[variables]\na = \"$b\"\nb = \"$a\"\n");
    let err = theme(&doc).unwrap_err();
    assert_eq!(err, Error::Variables(ResolveError::Cyclic(vec!["a".to_string(), "b".to_string()])));
}

#[test]
fn error_messages_say_what_failed() {
    assert_eq!(Error::Io("gone".to_string()).message(), "failed to read theme file: gone");
    assert_eq!(Error::Parse("bad".to_string()).message(), "failed to parse theme: bad");
}
