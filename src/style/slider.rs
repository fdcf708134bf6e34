//! The `[slider]` section: a base layer with `hovered` and `dragged`
//! overrides, each laid over the base alone.
use vstd::prelude::*;

use crate::color::{spec_black, spec_transparent, HexColor};
use crate::decode::{
    color_field,
    number_field,
    opt_color,
    opt_number,
    opt_radius,
    opt_table,
    radius_field,
    table_field,
    Background,
    DecodeError,
    DecodeFault,
    RadiusRaw,
};
use crate::style::{
    layered,
    lay,
    lemma_pick_associative,
    opt_ref,
    or_else,
    pick,
    value_or,
    Border,
    Layer,
};
use crate::decode::{entry, fault_of, lookup_entry, radius_spec, uniform, Expected, Radius};
use crate::text::{chars_equal, chars_of};
use crate::value::{entries_of, Doc, Fixed, Value};

verus! {

/// One layer of slider fields; each may be unset.
#[derive(Clone, Copy, Debug, PartialEq, Eq)]
pub struct SliderFieldsRaw {
    pub rail_color_1: Option<HexColor>,
    pub rail_color_2: Option<HexColor>,
    pub rail_width: Option<Fixed>,
    pub rail_border_radius: Option<RadiusRaw>,
    pub handle_shape: Option<HandleShapeKindRaw>,
    pub handle_radius: Option<Fixed>,
    pub handle_width: Option<Fixed>,
    pub handle_border_radius: Option<RadiusRaw>,
    pub handle_background: Option<HexColor>,
    pub handle_border_width: Option<Fixed>,
    pub handle_border_color: Option<HexColor>,
}

impl Layer for SliderFieldsRaw {
    open spec fn merged(self, over: Self) -> Self {
        SliderFieldsRaw {
            rail_color_1: pick(over.rail_color_1, self.rail_color_1),
            rail_color_2: pick(over.rail_color_2, self.rail_color_2),
            rail_width: pick(over.rail_width, self.rail_width),
            rail_border_radius: pick(over.rail_border_radius, self.rail_border_radius),
            handle_shape: pick(over.handle_shape, self.handle_shape),
            handle_radius: pick(over.handle_radius, self.handle_radius),
            handle_width: pick(over.handle_width, self.handle_width),
            handle_border_radius: pick(over.handle_border_radius, self.handle_border_radius),
            handle_background: pick(over.handle_background, self.handle_background),
            handle_border_width: pick(over.handle_border_width, self.handle_border_width),
            handle_border_color: pick(over.handle_border_color, self.handle_border_color),
        }
    }

    fn merge(self, over: &Self) -> (r: Self) {
        SliderFieldsRaw {
            rail_color_1: or_else(over.rail_color_1, self.rail_color_1),
            rail_color_2: or_else(over.rail_color_2, self.rail_color_2),
            rail_width: or_else(over.rail_width, self.rail_width),
            rail_border_radius: or_else(over.rail_border_radius, self.rail_border_radius),
            handle_shape: or_else(over.handle_shape, self.handle_shape),
            handle_radius: or_else(over.handle_radius, self.handle_radius),
            handle_width: or_else(over.handle_width, self.handle_width),
            handle_border_radius: or_else(over.handle_border_radius, self.handle_border_radius),
            handle_background: or_else(over.handle_background, self.handle_background),
            handle_border_width: or_else(over.handle_border_width, self.handle_border_width),
            handle_border_color: or_else(over.handle_border_color, self.handle_border_color),
        }
    }

    proof fn lemma_merge_associative(a: Self, b: Self, c: Self) {
        lemma_pick_associative(a.rail_color_1, b.rail_color_1, c.rail_color_1);
        lemma_pick_associative(a.rail_color_2, b.rail_color_2, c.rail_color_2);
        lemma_pick_associative(a.rail_width, b.rail_width, c.rail_width);
        lemma_pick_associative(a.rail_border_radius, b.rail_border_radius, c.rail_border_radius);
        lemma_pick_associative(a.handle_shape, b.handle_shape, c.handle_shape);
        lemma_pick_associative(a.handle_radius, b.handle_radius, c.handle_radius);
        lemma_pick_associative(a.handle_width, b.handle_width, c.handle_width);
        lemma_pick_associative(a.handle_border_radius, b.handle_border_radius, c.handle_border_radius);
        lemma_pick_associative(a.handle_background, b.handle_background, c.handle_background);
        lemma_pick_associative(a.handle_border_width, b.handle_border_width, c.handle_border_width);
        lemma_pick_associative(a.handle_border_color, b.handle_border_color, c.handle_border_color);
    }
}

/// Every field of the table has the right kind.
pub open spec fn slider_fields_ok(t: Seq<(Seq<char>, Doc)>) -> bool {
    &&& opt_color(t, "rail-color-1"@) is Ok
    &&& opt_color(t, "rail-color-2"@) is Ok
    &&& opt_number(t, "rail-width"@) is Ok
    &&& opt_radius(t, "rail-border-radius"@) is Ok
    &&& opt_shape(t, "handle-shape"@) is Ok
    &&& opt_number(t, "handle-radius"@) is Ok
    &&& opt_number(t, "handle-width"@) is Ok
    &&& opt_radius(t, "handle-border-radius"@) is Ok
    &&& opt_color(t, "handle-background"@) is Ok
    &&& opt_number(t, "handle-border-width"@) is Ok
    &&& opt_color(t, "handle-border-color"@) is Ok
}

/// `f` holds the fields of the table.
pub open spec fn slider_fields_match(f: SliderFieldsRaw, t: Seq<(Seq<char>, Doc)>) -> bool {
    &&& f.rail_color_1 == opt_color(t, "rail-color-1"@)->Ok_0
    &&& f.rail_color_2 == opt_color(t, "rail-color-2"@)->Ok_0
    &&& f.rail_width == opt_number(t, "rail-width"@)->Ok_0
    &&& f.rail_border_radius == opt_radius(t, "rail-border-radius"@)->Ok_0
    &&& f.handle_shape == opt_shape(t, "handle-shape"@)->Ok_0
    &&& f.handle_radius == opt_number(t, "handle-radius"@)->Ok_0
    &&& f.handle_width == opt_number(t, "handle-width"@)->Ok_0
    &&& f.handle_border_radius == opt_radius(t, "handle-border-radius"@)->Ok_0
    &&& f.handle_background == opt_color(t, "handle-background"@)->Ok_0
    &&& f.handle_border_width == opt_number(t, "handle-border-width"@)->Ok_0
    &&& f.handle_border_color == opt_color(t, "handle-border-color"@)->Ok_0
}

/// `e` is what one of the fields of the table gives.
pub open spec fn slider_fields_fault(t: Seq<(Seq<char>, Doc)>, e: DecodeFault) -> bool {
    ||| opt_color(t, "rail-color-1"@) == Err::<Option<HexColor>, DecodeFault>(e)
    ||| opt_color(t, "rail-color-2"@) == Err::<Option<HexColor>, DecodeFault>(e)
    ||| opt_number(t, "rail-width"@) == Err::<Option<Fixed>, DecodeFault>(e)
    ||| opt_radius(t, "rail-border-radius"@) == Err::<Option<RadiusRaw>, DecodeFault>(e)
    ||| opt_shape(t, "handle-shape"@) == Err::<Option<HandleShapeKindRaw>, DecodeFault>(e)
    ||| opt_number(t, "handle-radius"@) == Err::<Option<Fixed>, DecodeFault>(e)
    ||| opt_number(t, "handle-width"@) == Err::<Option<Fixed>, DecodeFault>(e)
    ||| opt_radius(t, "handle-border-radius"@) == Err::<Option<RadiusRaw>, DecodeFault>(e)
    ||| opt_color(t, "handle-background"@) == Err::<Option<HexColor>, DecodeFault>(e)
    ||| opt_number(t, "handle-border-width"@) == Err::<Option<Fixed>, DecodeFault>(e)
    ||| opt_color(t, "handle-border-color"@) == Err::<Option<HexColor>, DecodeFault>(e)
}

impl SliderFieldsRaw {
    /// Reads the fields of a layer from a table; other entries are ignored.
    pub fn from_table(t: &Vec<(String, Value)>) -> (r: Result<Self, DecodeError>)
        ensures
            r is Ok <==> slider_fields_ok(entries_of(t@)),
            r matches Ok(f) ==> slider_fields_match(f, entries_of(t@)),
            r matches Err(e) ==> slider_fields_fault(entries_of(t@), e@),
    {
        let rail_color_1 = color_field(t, "rail-color-1")?;
        let rail_color_2 = color_field(t, "rail-color-2")?;
        let rail_width = number_field(t, "rail-width")?;
        let rail_border_radius = radius_field(t, "rail-border-radius")?;
        let handle_shape = shape_field(t, "handle-shape")?;
        let handle_radius = number_field(t, "handle-radius")?;
        let handle_width = number_field(t, "handle-width")?;
        let handle_border_radius = radius_field(t, "handle-border-radius")?;
        let handle_background = color_field(t, "handle-background")?;
        let handle_border_width = number_field(t, "handle-border-width")?;
        let handle_border_color = color_field(t, "handle-border-color")?;
        Ok(SliderFieldsRaw { rail_color_1, rail_color_2, rail_width, rail_border_radius, handle_shape, handle_radius, handle_width, handle_border_radius, handle_background, handle_border_width, handle_border_color })
    }
}

pub open spec fn slider_sub_ok(t: Seq<(Seq<char>, Doc)>, name: Seq<char>) -> bool {
    match opt_table(t, name) {
        Err(_) => false,
        Ok(None) => true,
        Ok(Some(s)) => slider_fields_ok(s),
    }
}

pub open spec fn slider_sub_match(o: Option<SliderFieldsRaw>, t: Seq<(Seq<char>, Doc)>, name: Seq<char>) -> bool {
    match opt_table(t, name) {
        Ok(Some(s)) => o matches Some(f) && slider_fields_match(f, s),
        _ => o is None,
    }
}

pub open spec fn slider_sub_fault(t: Seq<(Seq<char>, Doc)>, name: Seq<char>, e: DecodeFault) -> bool {
    ||| opt_table(t, name) == Err::<Option<Seq<(Seq<char>, Doc)>>, DecodeFault>(e)
    ||| opt_table(t, name) matches Ok(Some(s)) && slider_fields_fault(s, e)
}

fn sub_layer(t: &Vec<(String, Value)>, name: &str) -> (r: Result<Option<SliderFieldsRaw>, DecodeError>)
    ensures
        r is Ok <==> slider_sub_ok(entries_of(t@), name@),
        r matches Ok(o) ==> slider_sub_match(o, entries_of(t@), name@),
        r matches Err(e) ==> slider_sub_fault(entries_of(t@), name@, e@),
{
    match table_field(t, name)? {
        None => Ok(None),
        Some(s) => Ok(Some(SliderFieldsRaw::from_table(s)?)),
    }
}

/// A `[slider]` section: the base layer and one optional layer per status.
#[derive(Clone, Copy, Debug, PartialEq, Eq)]
pub struct SliderSection {
    pub base: SliderFieldsRaw,
    pub hovered: Option<SliderFieldsRaw>,
    pub dragged: Option<SliderFieldsRaw>,
}

/// The section table `t` fits the schema.
pub open spec fn slider_section_ok(t: Seq<(Seq<char>, Doc)>) -> bool {
    &&& slider_fields_ok(t)
    &&& slider_sub_ok(t, "hovered"@)
    &&& slider_sub_ok(t, "dragged"@)
}

/// `s` holds the layers of the section table `t`.
pub open spec fn slider_section_match(s: SliderSection, t: Seq<(Seq<char>, Doc)>) -> bool {
    &&& slider_fields_match(s.base, t)
    &&& slider_sub_match(s.hovered, t, "hovered"@)
    &&& slider_sub_match(s.dragged, t, "dragged"@)
}

/// `e` is what one of the layers of the section table `t` gives.
pub open spec fn slider_section_fault(t: Seq<(Seq<char>, Doc)>, e: DecodeFault) -> bool {
    ||| slider_fields_fault(t, e)
    ||| slider_sub_fault(t, "hovered"@, e)
    ||| slider_sub_fault(t, "dragged"@, e)
}

impl SliderSection {
    /// Reads a section: its own fields form the base layer, and each
    /// override layer is a sub-table.
    pub fn from_table(t: &Vec<(String, Value)>) -> (r: Result<Self, DecodeError>)
        ensures
            r is Ok <==> slider_section_ok(entries_of(t@)),
            r matches Ok(s) ==> slider_section_match(s, entries_of(t@)),
            r matches Err(e) ==> slider_section_fault(entries_of(t@), e@),
    {
        let base = SliderFieldsRaw::from_table(t)?;
        let hovered = sub_layer(t, "hovered")?;
        let dragged = sub_layer(t, "dragged")?;
        Ok(SliderSection { base, hovered, dragged })
    }
}

/// The handle shape as written: `circle` or `rectangle`.
#[derive(Clone, Copy, Debug, PartialEq, Eq, Structural)]
pub enum HandleShapeKindRaw {
    Circle,
    Rectangle,
}

pub open spec fn shape_doc(name: Seq<char>, d: Doc) -> Result<HandleShapeKindRaw, DecodeFault> {
    match d {
        Doc::Str(s) => if s == "circle"@ {
            Ok(HandleShapeKindRaw::Circle)
        } else if s == "rectangle"@ {
            Ok(HandleShapeKindRaw::Rectangle)
        } else {
            Err(DecodeFault::UnknownName(name, s))
        },
        _ => Err(DecodeFault::WrongType(name, Expected::Text)),
    }
}

pub open spec fn opt_shape(t: Seq<(Seq<char>, Doc)>, name: Seq<char>) -> Result<
    Option<HandleShapeKindRaw>,
    DecodeFault,
> {
    match entry(t, name) {
        None => Ok(None),
        Some(d) => match shape_doc(name, d) {
            Ok(x) => Ok(Some(x)),
            Err(e) => Err(e),
        },
    }
}

fn shape_field(t: &Vec<(String, Value)>, name: &str) -> (r: Result<
    Option<HandleShapeKindRaw>,
    DecodeError,
>)
    ensures
        fault_of(r) == opt_shape(entries_of(t@), name@),
{
    let circle = chars_of("circle");
    let rectangle = chars_of("rectangle");
    match lookup_entry(t, name) {
        None => Ok(None),
        Some(Value::String(s)) => {
            let cs = chars_of(s.as_str());
            if chars_equal(&cs, &circle) {
                Ok(Some(HandleShapeKindRaw::Circle))
            } else if chars_equal(&cs, &rectangle) {
                Ok(Some(HandleShapeKindRaw::Rectangle))
            } else {
                Err(DecodeError::UnknownName { field: name.to_owned(), value: s.clone() })
            }
        },
        Some(_) => Err(DecodeError::WrongType { field: name.to_owned(), expected: Expected::Text }),
    }
}

/// The shape of a slider handle.
#[derive(Clone, Copy, Debug, PartialEq, Eq, Structural)]
pub enum HandleShapeKind {
    Circle { radius: Fixed },
    Rectangle { width: u16, border_radius: Radius },
}

/// A width in whole units, as a float converts to `u16`: truncated towards
/// zero and held within `0..=65535`.
pub open spec fn whole_units(x: Fixed) -> u16 {
    if x.milli <= 0 {
        0
    } else if x.milli / 1000 >= 65535 {
        65535
    } else {
        (x.milli / 1000) as u16
    }
}

fn to_whole_units(x: Fixed) -> (r: u16)
    ensures
        r == whole_units(x),
{
    if x.milli <= 0 {
        0
    } else if x.milli / 1000 >= 65535 {
        65535
    } else {
        (x.milli / 1000) as u16
    }
}

/// Visual properties of a slider, every one resolved.
#[derive(Clone, Copy, Debug, PartialEq, Eq)]
pub struct SliderAppearance {
    pub rail_color_1: HexColor,
    pub rail_color_2: HexColor,
    pub rail_width: Fixed,
    pub rail_border_radius: Radius,
    pub handle_shape: HandleShapeKind,
    pub handle_background: Background,
    pub handle_border: Border,
}

/// The slider defaults: a black and transparent rail four units wide with
/// square ends; a black circular handle of radius 7 (a rectangle is 8
/// wide with radius 2); a transparent, zero-width handle border.
pub open spec fn slider_appearance(f: SliderFieldsRaw) -> SliderAppearance {
    SliderAppearance {
        rail_color_1: match f.rail_color_1 {
            Some(c) => c,
            None => spec_black(),
        },
        rail_color_2: match f.rail_color_2 {
            Some(c) => c,
            None => spec_transparent(),
        },
        rail_width: match f.rail_width {
            Some(w) => w,
            None => Fixed { milli: 4000 },
        },
        rail_border_radius: match f.rail_border_radius {
            Some(r) => radius_spec(r),
            None => uniform(Fixed { milli: 0 }),
        },
        handle_shape: match f.handle_shape {
            Some(HandleShapeKindRaw::Rectangle) => HandleShapeKind::Rectangle {
                width: whole_units(
                    match f.handle_width {
                        Some(w) => w,
                        None => Fixed { milli: 8000 },
                    },
                ),
                border_radius: match f.handle_border_radius {
                    Some(r) => radius_spec(r),
                    None => uniform(Fixed { milli: 2000 }),
                },
            },
            _ => HandleShapeKind::Circle {
                radius: match f.handle_radius {
                    Some(r) => r,
                    None => Fixed { milli: 7000 },
                },
            },
        },
        handle_background: Background::Color(
            match f.handle_background {
                Some(c) => c,
                None => spec_black(),
            },
        ),
        handle_border: Border {
            color: match f.handle_border_color {
                Some(c) => c,
                None => spec_transparent(),
            },
            width: match f.handle_border_width {
                Some(w) => w,
                None => Fixed { milli: 0 },
            },
            radius: uniform(Fixed { milli: 0 }),
        },
    }
}

fn into_appearance(f: SliderFieldsRaw) -> (r: SliderAppearance)
    ensures
        r == slider_appearance(f),
{
    let zero = Fixed { milli: 0 };
    let rail_border_radius = match f.rail_border_radius {
        Some(r) => r.into_radius(),
        None => Radius::uniform(zero),
    };
    let handle_shape = match f.handle_shape {
        Some(HandleShapeKindRaw::Rectangle) => HandleShapeKind::Rectangle {
            width: to_whole_units(value_or(f.handle_width, Fixed { milli: 8000 })),
            border_radius: match f.handle_border_radius {
                Some(r) => r.into_radius(),
                None => Radius::uniform(Fixed { milli: 2000 }),
            },
        },
        _ => HandleShapeKind::Circle { radius: value_or(f.handle_radius, Fixed { milli: 7000 }) },
    };
    SliderAppearance {
        rail_color_1: value_or(f.rail_color_1, HexColor::black()),
        rail_color_2: value_or(f.rail_color_2, HexColor::transparent()),
        rail_width: value_or(f.rail_width, Fixed { milli: 4000 }),
        rail_border_radius,
        handle_shape,
        handle_background: Background::Color(value_or(f.handle_background, HexColor::black())),
        handle_border: Border {
            color: value_or(f.handle_border_color, HexColor::transparent()),
            width: value_or(f.handle_border_width, zero),
            radius: Radius::uniform(zero),
        },
    }
}

/// A slider's appearance for each status.
#[derive(Clone, Copy, Debug, PartialEq, Eq)]
pub struct SliderStyle {
    active: SliderAppearance,
    hovered: SliderAppearance,
    dragged: SliderAppearance,
}

impl SliderStyle {
    pub closed spec fn spec_active(&self) -> SliderAppearance {
        self.active
    }

    pub closed spec fn spec_hovered(&self) -> SliderAppearance {
        self.hovered
    }

    pub closed spec fn spec_dragged(&self) -> SliderAppearance {
        self.dragged
    }

}

/// The appearance of a status: the base with that status's layer over it.
fn resolve_status(base: SliderFieldsRaw, status: Option<&SliderFieldsRaw>) -> (r: SliderAppearance)
    ensures
        r == slider_appearance(layered(base, opt_ref(status))),
{
    into_appearance(lay(base, status))
}

impl SliderSection {
    /// Resolves every status: the base alone when active, otherwise the
    /// base with the status layer over it, then the defaults.
    /// The style this section resolves to.
    pub closed spec fn styled(self) -> SliderStyle {
        SliderStyle {
            active: slider_appearance(self.base),
            hovered: slider_appearance(layered(self.base, self.hovered)),
            dragged: slider_appearance(layered(self.base, self.dragged)),
        }
    }

    pub fn resolve(self) -> (r: SliderStyle)
        ensures
            r == self.styled(),
            r.spec_active() == slider_appearance(self.base),
            r.spec_hovered() == slider_appearance(layered(self.base, self.hovered)),
            r.spec_dragged() == slider_appearance(layered(self.base, self.dragged)),
    {
        let active = into_appearance(self.base);
        let hovered = resolve_status(self.base, self.hovered.as_ref());
        let dragged = resolve_status(self.base, self.dragged.as_ref());
        SliderStyle { active, hovered, dragged }
    }
}

impl SliderStyle {
    pub fn active(&self) -> (r: &SliderAppearance)
        ensures
            *r == self.spec_active(),
    {
        &self.active
    }

    pub fn hovered(&self) -> (r: &SliderAppearance)
        ensures
            *r == self.spec_hovered(),
    {
        &self.hovered
    }

    pub fn dragged(&self) -> (r: &SliderAppearance)
        ensures
            *r == self.spec_dragged(),
    {
        &self.dragged
    }
}

} // verus!
