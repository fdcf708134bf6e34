use iced_themer::decode::{background_value, gradient_value, Background, BackgroundRaw, RadiusRaw};
use iced_themer::style::button::ButtonFieldsRaw;
use iced_themer::style::checkbox::{CheckboxFieldsRaw, CheckboxSection};
use iced_themer::style::Layer;
use iced_themer::value::{Fixed, Value};
use iced_themer::{CheckboxStatus, HexColor, Radius};

fn convert(v: &toml::Value) -> Value {
    match v {
        toml::Value::String(s) => Value::String(s.clone()),
        toml::Value::Integer(n) => Value::Integer(*n),
        toml::Value::Float(f) => Value::Float(Fixed { milli: (f * 1000.0).round() as i64 }),
        toml::Value::Boolean(b) => Value::Boolean(*b),
        toml::Value::Datetime(d) => Value::Datetime(d.to_string()),
        toml::Value::Array(a) => Value::Array(a.iter().map(convert).collect()),
        toml::Value::Table(t) => Value::Table(t.iter().map(|(k, v)| (k.clone(), convert(v))).collect()),
    }
}

fn table(s: &str) -> Vec<(String, Value)> {
    match convert(&toml::Value::Table(toml::from_str::<toml::Table>(s).unwrap())) {
        Value::Table(t) => t,
        _ => unreachable!(),
    }
}

fn parse_bg(s: &str) -> Result<BackgroundRaw, iced_themer::DecodeError> {
    let t = table(s);
    let v = &t.iter().find(|(k, _)| k == "bg").unwrap().1;
    background_value("bg", v)
}

fn rgb(r: u8, g: u8, b: u8) -> HexColor {
    HexColor::from_rgba8(r, g, b, 255)
}

#[test]
fn background_raw_parses_solid_color() {
    let raw = parse_bg(r##"bg = "#FF0000""##).unwrap();
    assert!(matches!(raw, BackgroundRaw::Color(_)));
}

#[test]
fn background_raw_parses_gradient() {
    let raw = parse_bg(
        r##"
            [bg]
            angle = 45.0
            stops = [
                { offset = 0.0, color = "#ff0000" },
                { offset = 1.0, color = "#0000ff" },
            ]
        "##,
    )
    .unwrap();
    match raw {
        BackgroundRaw::Gradient(g) => {
            assert_eq!(g.angle, Fixed { milli: 45000 });
            assert!(g.stops[0].is_some());
            assert!(g.stops[1].is_some());
            assert!(g.stops[2].is_none());
        }
        _ => panic!("expected Gradient variant"),
    }
}

#[test]
fn gradient_rejects_more_than_8_stops() {
    let result = gradient_value(
        "background",
        &table(
            r##"
            angle = 0.0
            stops = [
                { offset = 0.0, color = "#000000" },
                { offset = 0.1, color = "#111111" },
                { offset = 0.2, color = "#222222" },
                { offset = 0.3, color = "#333333" },
                { offset = 0.4, color = "#444444" },
                { offset = 0.5, color = "#555555" },
                { offset = 0.6, color = "#666666" },
                { offset = 0.7, color = "#777777" },
                { offset = 0.8, color = "#888888" },
            ]
        "##,
        ),
    );
    assert!(result.is_err());
    let err = result.unwrap_err().message();
    assert!(err.contains("at most 8"), "error was: {err}");
}

#[test]
fn gradient_rejects_offset_out_of_range() {
    let result = gradient_value(
        "background",
        &table(
            r##"
            angle = 0.0
            stops = [
                { offset = 0.0, color = "#000000" },
                { offset = 1.5, color = "#ffffff" },
            ]
        "##,
        ),
    );
    assert!(result.is_err());
    let err = result.unwrap_err().message();
    assert!(err.contains("0.0..=1.0"), "error was: {err}");
    assert!(err.ends_with("got 1.500"), "error was: {err}");
}

#[test]
fn gradient_accepts_8_stops() {
    let raw = gradient_value(
        "background",
        &table(
            r##"
            angle = 90.0
            stops = [
                { offset = 0.0,   color = "#000000" },
                { offset = 0.143, color = "#111111" },
                { offset = 0.286, color = "#222222" },
                { offset = 0.429, color = "#333333" },
                { offset = 0.571, color = "#444444" },
                { offset = 0.714, color = "#555555" },
                { offset = 0.857, color = "#666666" },
                { offset = 1.0,   color = "#777777" },
            ]
        "##,
        ),
    )
    .unwrap();
    assert!(raw.stops.iter().all(|s| s.is_some()));
}

#[test]
fn solid_color_converts_to_background_color() {
    let raw = parse_bg(r##"bg = "#ff0000""##).unwrap();
    let bg = raw.into_background();
    match bg {
        Background::Color(c) => {
            assert_eq!(c.r, 255);
            assert_eq!(c.g, 0);
            assert_eq!(c.b, 0);
        }
        _ => panic!("expected Background::Color"),
    }
}

#[test]
fn gradient_converts_to_background_gradient() {
    let raw = parse_bg(
        r##"
            [bg]
            angle = 90.0
            stops = [
                { offset = 0.0, color = "#ff0000" },
                { offset = 1.0, color = "#0000ff" },
            ]
        "##,
    )
    .unwrap();
    let bg = raw.into_background();
    match bg {
        Background::Gradient(g) => {
            assert!(g.stops[0].is_some());
            assert!(g.stops[1].is_some());
            let s0 = g.stops[0].unwrap();
            assert_eq!(s0.offset, Fixed { milli: 0 });
            assert_eq!(s0.color.r, 255);
        }
        _ => panic!("expected Background::Gradient"),
    }
}

#[test]
fn gradient_needs_angle_and_stops() {
    assert!(gradient_value("bg", &table("stops = []")).unwrap_err().message().contains("angle"));
    assert!(gradient_value("bg", &table("angle = 1")).unwrap_err().message().contains("stops"));
    assert!(gradient_value("bg", &table("angle = 1\nstops = 3")).is_err());
    assert!(gradient_value("bg", &table("angle = 1\nstops = []")).is_ok());
}

#[test]
fn radius_forms_give_four_corners() {
    let one = Fixed { milli: 4000 };
    assert_eq!(RadiusRaw::Uniform(one).into_radius(), Radius::uniform(one));
    let r = RadiusRaw::PerCorner(Fixed { milli: 1 }, Fixed { milli: 2 }, Fixed { milli: 3 }, Fixed { milli: 4 })
        .into_radius();
    assert_eq!(r.top_left.milli, 1);
    assert_eq!(r.top_right.milli, 2);
    assert_eq!(r.bottom_right.milli, 3);
    assert_eq!(r.bottom_left.milli, 4);
}

#[test]
fn three_layers_with_disjoint_fields_all_survive() {
    let mut base = ButtonFieldsRaw::from_table(&Vec::new()).unwrap();
    base.text_color = Some(rgb(1, 1, 1));
    let mut a = ButtonFieldsRaw::from_table(&Vec::new()).unwrap();
    a.border_color = Some(rgb(2, 2, 2));
    let mut b = ButtonFieldsRaw::from_table(&Vec::new()).unwrap();
    b.shadow_color = Some(rgb(3, 3, 3));
    let left = base.merge(&a).merge(&b);
    let right = base.merge(&a.merge(&b));
    assert_eq!(left, right);
    assert_eq!(left.text_color, Some(rgb(1, 1, 1)));
    assert_eq!(left.border_color, Some(rgb(2, 2, 2)));
    assert_eq!(left.shadow_color, Some(rgb(3, 3, 3)));
}

#[test]
fn later_layers_win_field_by_field() {
    let mut base = ButtonFieldsRaw::from_table(&Vec::new()).unwrap();
    base.text_color = Some(rgb(1, 1, 1));
    base.border_width = Some(Fixed { milli: 1000 });
    let mut over = ButtonFieldsRaw::from_table(&Vec::new()).unwrap();
    over.text_color = Some(rgb(9, 9, 9));
    let m = base.merge(&over);
    assert_eq!(m.text_color, Some(rgb(9, 9, 9)));
    assert_eq!(m.border_width, Some(Fixed { milli: 1000 }));
}

#[test]
fn checkbox_with_only_hovered_layer_resolves_hovered_checked() {
    let t = table(
        r##"
icon-color = "#111111"
text-color = "#222222"
[hovered]
icon-color = "#333333"
"##,
    );
    let section = CheckboxSection::from_table(&t).unwrap();
    assert!(section.checked.is_none());
    assert!(section.hovered_checked.is_none());
    let style = section.resolve();
    let a = style.style_fn(CheckboxStatus::Hovered { is_checked: true });
    assert_eq!(a.icon_color, rgb(0x33, 0x33, 0x33));
    assert_eq!(a.text_color, Some(rgb(0x22, 0x22, 0x22)));
    assert_eq!(a.background, Background::Color(HexColor::transparent()));
    assert_eq!(a, style.style_fn(CheckboxStatus::Hovered { is_checked: false }));
}

#[test]
fn checkbox_cascade_order() {
    let t = table(
        r##"
icon-color = "#000001"
[checked]
icon-color = "#000002"
text-color = "#000002"
[hovered]
icon-color = "#000003"
[hovered-checked]
text-color = "#000004"
"##,
    );
    let style = CheckboxSection::from_table(&t).unwrap().resolve();
    let hc = style.style_fn(CheckboxStatus::Hovered { is_checked: true });
    assert_eq!(hc.icon_color, rgb(0, 0, 3));
    assert_eq!(hc.text_color, Some(rgb(0, 0, 4)));
    let ac = style.style_fn(CheckboxStatus::Active { is_checked: true });
    assert_eq!(ac.icon_color, rgb(0, 0, 2));
    let dc = style.style_fn(CheckboxStatus::Disabled { is_checked: true });
    assert_eq!(dc.icon_color, rgb(0, 0, 2));
    assert_eq!(dc.text_color, Some(rgb(0, 0, 2)));
    let au = style.style_fn(CheckboxStatus::Active { is_checked: false });
    assert_eq!(au.icon_color, rgb(0, 0, 1));
    assert_eq!(au.text_color, None);
}

#[test]
fn empty_checkbox_section_is_fully_defaulted() {
    let style = CheckboxSection::from_table(&Vec::new()).unwrap().resolve();
    let a = style.style_fn(CheckboxStatus::Disabled { is_checked: true });
    assert_eq!(a.icon_color, HexColor::black());
    assert_eq!(a.border.width, Fixed { milli: 0 });
    assert_eq!(a.border.color, HexColor::transparent());
    assert_eq!(a.border.radius, Radius::uniform(Fixed { milli: 0 }));
}

#[test]
fn field_type_errors_are_reported() {
    let err = CheckboxFieldsRaw::from_table(&table("icon-color = 3")).unwrap_err();
    assert!(err.message().contains("`icon-color` must be a string"), "got {}", err.message());
    let err = CheckboxFieldsRaw::from_table(&table("border-width = \"wide\"")).unwrap_err();
    assert!(err.message().contains("`border-width` must be a number"));
    let err = CheckboxFieldsRaw::from_table(&table("icon-color = \"#12\"")).unwrap_err();
    assert_eq!(
        err.message(),
        "invalid color for `icon-color`: \"#12\" (expected 3, 6, or 8 hex digits after '#', got 2)"
    );
    let err = CheckboxSection::from_table(&table("hovered = 3")).unwrap_err();
    assert!(err.message().contains("`hovered` must be a table"));
    let err = CheckboxFieldsRaw::from_table(&table("border-radius = [1, 2, 3]")).unwrap_err();
    assert!(err.message().contains("`border-radius`"));
}

#[test]
fn unknown_keys_are_ignored() {
    assert!(CheckboxFieldsRaw::from_table(&table("unknown = 3")).is_ok());
}

#[test]
fn integer_fields_are_read_as_whole_units() {
    let f = CheckboxFieldsRaw::from_table(&table("border-width = 2\nborder-radius = [1, 2, 3.5, 4]")).unwrap();
    assert_eq!(f.border_width, Some(Fixed { milli: 2000 }));
    assert_eq!(
        f.border_radius,
        Some(RadiusRaw::PerCorner(Fixed { milli: 1000 }, Fixed { milli: 2000 }, Fixed { milli: 3500 }, Fixed { milli: 4000 }))
    );
}
