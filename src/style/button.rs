//! The `[button]` section: a base layer with `hovered`, `pressed` and
//! `disabled` overrides, each laid over the base alone.
use vstd::prelude::*;

use crate::color::{spec_black, HexColor};
use crate::decode::{
    background_field, background_spec, color_field, holds_opt_background, number_field,
    opt_background, opt_color, opt_number, opt_radius, opt_table, radius_field, table_field,
    Background, BackgroundForm, BackgroundRaw, DecodeError, DecodeFault, RadiusRaw,
};
use crate::style::{
    border_of, layered, lay, lemma_pick_associative, or_else, pick, resolve_border, resolve_shadow, shadow_of, value_or,
    Border, Layer, Shadow,
};
use crate::value::{entries_of, Doc, Fixed, Value};

verus! {

/// One layer of button fields; each may be unset.
#[derive(Clone, Copy, Debug, PartialEq, Eq)]
pub struct ButtonFieldsRaw {
    pub background: Option<BackgroundRaw>,
    pub text_color: Option<HexColor>,
    pub border_width: Option<Fixed>,
    pub border_color: Option<HexColor>,
    pub border_radius: Option<RadiusRaw>,
    pub shadow_color: Option<HexColor>,
    pub shadow_offset_x: Option<Fixed>,
    pub shadow_offset_y: Option<Fixed>,
    pub shadow_blur_radius: Option<Fixed>,
}

impl Layer for ButtonFieldsRaw {
    open spec fn merged(self, over: Self) -> Self {
        ButtonFieldsRaw {
            background: pick(over.background, self.background),
            text_color: pick(over.text_color, self.text_color),
            border_width: pick(over.border_width, self.border_width),
            border_color: pick(over.border_color, self.border_color),
            border_radius: pick(over.border_radius, self.border_radius),
            shadow_color: pick(over.shadow_color, self.shadow_color),
            shadow_offset_x: pick(over.shadow_offset_x, self.shadow_offset_x),
            shadow_offset_y: pick(over.shadow_offset_y, self.shadow_offset_y),
            shadow_blur_radius: pick(over.shadow_blur_radius, self.shadow_blur_radius),
        }
    }

    fn merge(self, over: &Self) -> (r: Self) {
        ButtonFieldsRaw {
            background: or_else(over.background, self.background),
            text_color: or_else(over.text_color, self.text_color),
            border_width: or_else(over.border_width, self.border_width),
            border_color: or_else(over.border_color, self.border_color),
            border_radius: or_else(over.border_radius, self.border_radius),
            shadow_color: or_else(over.shadow_color, self.shadow_color),
            shadow_offset_x: or_else(over.shadow_offset_x, self.shadow_offset_x),
            shadow_offset_y: or_else(over.shadow_offset_y, self.shadow_offset_y),
            shadow_blur_radius: or_else(over.shadow_blur_radius, self.shadow_blur_radius),
        }
    }

    proof fn lemma_merge_associative(a: Self, b: Self, c: Self) {
        lemma_pick_associative(a.background, b.background, c.background);
        lemma_pick_associative(a.text_color, b.text_color, c.text_color);
        lemma_pick_associative(a.border_width, b.border_width, c.border_width);
        lemma_pick_associative(a.border_color, b.border_color, c.border_color);
        lemma_pick_associative(a.border_radius, b.border_radius, c.border_radius);
        lemma_pick_associative(a.shadow_color, b.shadow_color, c.shadow_color);
        lemma_pick_associative(a.shadow_offset_x, b.shadow_offset_x, c.shadow_offset_x);
        lemma_pick_associative(a.shadow_offset_y, b.shadow_offset_y, c.shadow_offset_y);
        lemma_pick_associative(a.shadow_blur_radius, b.shadow_blur_radius, c.shadow_blur_radius);
    }
}

/// Every field of the table has the right kind.
pub open spec fn button_fields_ok(t: Seq<(Seq<char>, Doc)>) -> bool {
    &&& opt_background(t, "background"@) is Ok
    &&& opt_color(t, "text-color"@) is Ok
    &&& opt_number(t, "border-width"@) is Ok
    &&& opt_color(t, "border-color"@) is Ok
    &&& opt_radius(t, "border-radius"@) is Ok
    &&& opt_color(t, "shadow-color"@) is Ok
    &&& opt_number(t, "shadow-offset-x"@) is Ok
    &&& opt_number(t, "shadow-offset-y"@) is Ok
    &&& opt_number(t, "shadow-blur-radius"@) is Ok
}

/// `f` holds the fields of the table.
pub open spec fn button_fields_match(f: ButtonFieldsRaw, t: Seq<(Seq<char>, Doc)>) -> bool {
    &&& holds_opt_background(f.background, opt_background(t, "background"@)->Ok_0)
    &&& f.text_color == opt_color(t, "text-color"@)->Ok_0
    &&& f.border_width == opt_number(t, "border-width"@)->Ok_0
    &&& f.border_color == opt_color(t, "border-color"@)->Ok_0
    &&& f.border_radius == opt_radius(t, "border-radius"@)->Ok_0
    &&& f.shadow_color == opt_color(t, "shadow-color"@)->Ok_0
    &&& f.shadow_offset_x == opt_number(t, "shadow-offset-x"@)->Ok_0
    &&& f.shadow_offset_y == opt_number(t, "shadow-offset-y"@)->Ok_0
    &&& f.shadow_blur_radius == opt_number(t, "shadow-blur-radius"@)->Ok_0
}

/// `e` is what one of the fields of the table gives.
pub open spec fn button_fields_fault(t: Seq<(Seq<char>, Doc)>, e: DecodeFault) -> bool {
    ||| opt_background(t, "background"@) == Err::<Option<BackgroundForm>, DecodeFault>(e)
    ||| opt_color(t, "text-color"@) == Err::<Option<HexColor>, DecodeFault>(e)
    ||| opt_number(t, "border-width"@) == Err::<Option<Fixed>, DecodeFault>(e)
    ||| opt_color(t, "border-color"@) == Err::<Option<HexColor>, DecodeFault>(e)
    ||| opt_radius(t, "border-radius"@) == Err::<Option<RadiusRaw>, DecodeFault>(e)
    ||| opt_color(t, "shadow-color"@) == Err::<Option<HexColor>, DecodeFault>(e)
    ||| opt_number(t, "shadow-offset-x"@) == Err::<Option<Fixed>, DecodeFault>(e)
    ||| opt_number(t, "shadow-offset-y"@) == Err::<Option<Fixed>, DecodeFault>(e)
    ||| opt_number(t, "shadow-blur-radius"@) == Err::<Option<Fixed>, DecodeFault>(e)
}

impl ButtonFieldsRaw {
    /// Reads the fields of a layer from a table; other entries are ignored.
    pub fn from_table(t: &Vec<(String, Value)>) -> (r: Result<Self, DecodeError>)
        ensures
            r is Ok <==> button_fields_ok(entries_of(t@)),
            r matches Ok(f) ==> button_fields_match(f, entries_of(t@)),
            r matches Err(e) ==> button_fields_fault(entries_of(t@), e@),
    {
        let background = background_field(t, "background")?;
        let text_color = color_field(t, "text-color")?;
        let border_width = number_field(t, "border-width")?;
        let border_color = color_field(t, "border-color")?;
        let border_radius = radius_field(t, "border-radius")?;
        let shadow_color = color_field(t, "shadow-color")?;
        let shadow_offset_x = number_field(t, "shadow-offset-x")?;
        let shadow_offset_y = number_field(t, "shadow-offset-y")?;
        let shadow_blur_radius = number_field(t, "shadow-blur-radius")?;
        Ok(ButtonFieldsRaw { background, text_color, border_width, border_color, border_radius, shadow_color, shadow_offset_x, shadow_offset_y, shadow_blur_radius })
    }
}

pub open spec fn button_sub_ok(t: Seq<(Seq<char>, Doc)>, name: Seq<char>) -> bool {
    match opt_table(t, name) {
        Err(_) => false,
        Ok(None) => true,
        Ok(Some(s)) => button_fields_ok(s),
    }
}

pub open spec fn button_sub_match(o: Option<ButtonFieldsRaw>, t: Seq<(Seq<char>, Doc)>, name: Seq<char>) -> bool {
    match opt_table(t, name) {
        Ok(Some(s)) => o matches Some(f) && button_fields_match(f, s),
        _ => o is None,
    }
}

pub open spec fn button_sub_fault(t: Seq<(Seq<char>, Doc)>, name: Seq<char>, e: DecodeFault) -> bool {
    ||| opt_table(t, name) == Err::<Option<Seq<(Seq<char>, Doc)>>, DecodeFault>(e)
    ||| opt_table(t, name) matches Ok(Some(s)) && button_fields_fault(s, e)
}

fn sub_layer(t: &Vec<(String, Value)>, name: &str) -> (r: Result<Option<ButtonFieldsRaw>, DecodeError>)
    ensures
        r is Ok <==> button_sub_ok(entries_of(t@), name@),
        r matches Ok(o) ==> button_sub_match(o, entries_of(t@), name@),
        r matches Err(e) ==> button_sub_fault(entries_of(t@), name@, e@),
{
    match table_field(t, name)? {
        None => Ok(None),
        Some(s) => Ok(Some(ButtonFieldsRaw::from_table(s)?)),
    }
}

/// A `[button]` section: the base layer and one optional layer per status.
#[derive(Clone, Copy, Debug, PartialEq, Eq)]
pub struct ButtonSection {
    pub base: ButtonFieldsRaw,
    pub hovered: Option<ButtonFieldsRaw>,
    pub pressed: Option<ButtonFieldsRaw>,
    pub disabled: Option<ButtonFieldsRaw>,
}

/// The section table `t` fits the schema.
pub open spec fn button_section_ok(t: Seq<(Seq<char>, Doc)>) -> bool {
    &&& button_fields_ok(t)
    &&& button_sub_ok(t, "hovered"@)
    &&& button_sub_ok(t, "pressed"@)
    &&& button_sub_ok(t, "disabled"@)
}

/// `s` holds the layers of the section table `t`.
pub open spec fn button_section_match(s: ButtonSection, t: Seq<(Seq<char>, Doc)>) -> bool {
    &&& button_fields_match(s.base, t)
    &&& button_sub_match(s.hovered, t, "hovered"@)
    &&& button_sub_match(s.pressed, t, "pressed"@)
    &&& button_sub_match(s.disabled, t, "disabled"@)
}

/// `e` is what one of the layers of the section table `t` gives.
pub open spec fn button_section_fault(t: Seq<(Seq<char>, Doc)>, e: DecodeFault) -> bool {
    ||| button_fields_fault(t, e)
    ||| button_sub_fault(t, "hovered"@, e)
    ||| button_sub_fault(t, "pressed"@, e)
    ||| button_sub_fault(t, "disabled"@, e)
}

impl ButtonSection {
    /// Reads a section: its own fields form the base layer, and each
    /// override layer is a sub-table.
    pub fn from_table(t: &Vec<(String, Value)>) -> (r: Result<Self, DecodeError>)
        ensures
            r is Ok <==> button_section_ok(entries_of(t@)),
            r matches Ok(s) ==> button_section_match(s, entries_of(t@)),
            r matches Err(e) ==> button_section_fault(entries_of(t@), e@),
    {
        let base = ButtonFieldsRaw::from_table(t)?;
        let hovered = sub_layer(t, "hovered")?;
        let pressed = sub_layer(t, "pressed")?;
        let disabled = sub_layer(t, "disabled")?;
        Ok(ButtonSection { base, hovered, pressed, disabled })
    }
}

/// Visual properties of a button, every one resolved.
#[derive(Clone, Copy, Debug, PartialEq, Eq)]
pub struct ButtonAppearance {
    pub background: Option<Background>,
    pub text_color: HexColor,
    pub border: Border,
    pub shadow: Shadow,
}

/// A layer with the button defaults filled in: no background, black text,
/// and the border and shadow defaults.
pub open spec fn button_appearance(f: ButtonFieldsRaw) -> ButtonAppearance {
    ButtonAppearance {
        background: match f.background {
            Some(b) => Some(background_spec(b)),
            None => None,
        },
        text_color: match f.text_color {
            Some(c) => c,
            None => spec_black(),
        },
        border: border_of(f.border_width, f.border_color, f.border_radius),
        shadow: shadow_of(f.shadow_color, f.shadow_offset_x, f.shadow_offset_y, f.shadow_blur_radius),
    }
}

fn into_appearance(f: ButtonFieldsRaw) -> (r: ButtonAppearance)
    ensures
        r == button_appearance(f),
{
    ButtonAppearance {
        background: match f.background {
            Some(b) => Some(b.into_background()),
            None => None,
        },
        text_color: value_or(f.text_color, HexColor::black()),
        border: resolve_border(f.border_width, f.border_color, f.border_radius),
        shadow: resolve_shadow(f.shadow_color, f.shadow_offset_x, f.shadow_offset_y, f.shadow_blur_radius),
    }
}

/// The appearance of a status: the base with that status's layer over it.
fn resolve_status(base: ButtonFieldsRaw, status: Option<&ButtonFieldsRaw>) -> (r: ButtonAppearance)
    ensures
        r == button_appearance(layered(base, crate::style::opt_ref(status))),
{
    into_appearance(lay(base, status))
}

/// A button's appearance for each status.
#[derive(Clone, Copy, Debug, PartialEq, Eq)]
pub struct ButtonStyle {
    active: ButtonAppearance,
    hovered: ButtonAppearance,
    pressed: ButtonAppearance,
    disabled: ButtonAppearance,
}

impl ButtonStyle {
    pub closed spec fn spec_active(&self) -> ButtonAppearance {
        self.active
    }

    pub closed spec fn spec_hovered(&self) -> ButtonAppearance {
        self.hovered
    }

    pub closed spec fn spec_pressed(&self) -> ButtonAppearance {
        self.pressed
    }

    pub closed spec fn spec_disabled(&self) -> ButtonAppearance {
        self.disabled
    }

    pub fn active(&self) -> (r: &ButtonAppearance)
        ensures
            *r == self.spec_active(),
    {
        &self.active
    }

    pub fn hovered(&self) -> (r: &ButtonAppearance)
        ensures
            *r == self.spec_hovered(),
    {
        &self.hovered
    }

    pub fn pressed(&self) -> (r: &ButtonAppearance)
        ensures
            *r == self.spec_pressed(),
    {
        &self.pressed
    }

    pub fn disabled(&self) -> (r: &ButtonAppearance)
        ensures
            *r == self.spec_disabled(),
    {
        &self.disabled
    }
}

impl ButtonSection {
    /// Resolves every status: the base alone when active, otherwise the
    /// base with the status layer over it, then the defaults.
    /// The style this section resolves to.
    pub closed spec fn styled(self) -> ButtonStyle {
        ButtonStyle {
            active: button_appearance(self.base),
            hovered: button_appearance(layered(self.base, self.hovered)),
            pressed: button_appearance(layered(self.base, self.pressed)),
            disabled: button_appearance(layered(self.base, self.disabled)),
        }
    }

    pub fn resolve(self) -> (r: ButtonStyle)
        ensures
            r == self.styled(),
            r.spec_active() == button_appearance(self.base),
            r.spec_hovered() == button_appearance(layered(self.base, self.hovered)),
            r.spec_pressed() == button_appearance(layered(self.base, self.pressed)),
            r.spec_disabled() == button_appearance(layered(self.base, self.disabled)),
    {
        let active = into_appearance(self.base);
        let hovered = resolve_status(self.base, self.hovered.as_ref());
        let pressed = resolve_status(self.base, self.pressed.as_ref());
        let disabled = resolve_status(self.base, self.disabled.as_ref());
        ButtonStyle { active, hovered, pressed, disabled }
    }
}

} // verus!
