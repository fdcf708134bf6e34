//! The `[container]` section: a single base layer, no overrides.
use vstd::prelude::*;

use crate::color::{HexColor};
use crate::decode::{
    background_field,
    background_spec,
    color_field,
    holds_opt_background,
    number_field,
    opt_background,
    opt_color,
    opt_number,
    opt_radius,
    radius_field,
    Background,
    BackgroundForm,
    BackgroundRaw,
    DecodeError,
    DecodeFault,
    RadiusRaw,
};
use crate::style::{
    border_of,
    lemma_pick_associative,
    or_else,
    pick,
    resolve_border,
    resolve_shadow,
    shadow_of,
    Border,
    Layer,
    Shadow,
};
use crate::value::{entries_of, Doc, Fixed, Value};

verus! {

/// One layer of container fields; each may be unset.
#[derive(Clone, Copy, Debug, PartialEq, Eq)]
pub struct ContainerFieldsRaw {
    pub background: Option<BackgroundRaw>,
    pub text_color: Option<HexColor>,
    pub border_width: Option<Fixed>,
    pub border_color: Option<HexColor>,
    pub border_radius: Option<RadiusRaw>,
    pub shadow_color: Option<HexColor>,
    pub shadow_offset_x: Option<Fixed>,
    pub shadow_offset_y: Option<Fixed>,
    pub shadow_blur_radius: Option<Fixed>,
}

impl Layer for ContainerFieldsRaw {
    open spec fn merged(self, over: Self) -> Self {
        ContainerFieldsRaw {
            background: pick(over.background, self.background),
            text_color: pick(over.text_color, self.text_color),
            border_width: pick(over.border_width, self.border_width),
            border_color: pick(over.border_color, self.border_color),
            border_radius: pick(over.border_radius, self.border_radius),
            shadow_color: pick(over.shadow_color, self.shadow_color),
            shadow_offset_x: pick(over.shadow_offset_x, self.shadow_offset_x),
            shadow_offset_y: pick(over.shadow_offset_y, self.shadow_offset_y),
            shadow_blur_radius: pick(over.shadow_blur_radius, self.shadow_blur_radius),
        }
    }

    fn merge(self, over: &Self) -> (r: Self) {
        ContainerFieldsRaw {
            background: or_else(over.background, self.background),
            text_color: or_else(over.text_color, self.text_color),
            border_width: or_else(over.border_width, self.border_width),
            border_color: or_else(over.border_color, self.border_color),
            border_radius: or_else(over.border_radius, self.border_radius),
            shadow_color: or_else(over.shadow_color, self.shadow_color),
            shadow_offset_x: or_else(over.shadow_offset_x, self.shadow_offset_x),
            shadow_offset_y: or_else(over.shadow_offset_y, self.shadow_offset_y),
            shadow_blur_radius: or_else(over.shadow_blur_radius, self.shadow_blur_radius),
        }
    }

    proof fn lemma_merge_associative(a: Self, b: Self, c: Self) {
        lemma_pick_associative(a.background, b.background, c.background);
        lemma_pick_associative(a.text_color, b.text_color, c.text_color);
        lemma_pick_associative(a.border_width, b.border_width, c.border_width);
        lemma_pick_associative(a.border_color, b.border_color, c.border_color);
        lemma_pick_associative(a.border_radius, b.border_radius, c.border_radius);
        lemma_pick_associative(a.shadow_color, b.shadow_color, c.shadow_color);
        lemma_pick_associative(a.shadow_offset_x, b.shadow_offset_x, c.shadow_offset_x);
        lemma_pick_associative(a.shadow_offset_y, b.shadow_offset_y, c.shadow_offset_y);
        lemma_pick_associative(a.shadow_blur_radius, b.shadow_blur_radius, c.shadow_blur_radius);
    }
}

/// Every field of the table has the right kind.
pub open spec fn container_fields_ok(t: Seq<(Seq<char>, Doc)>) -> bool {
    &&& opt_background(t, "background"@) is Ok
    &&& opt_color(t, "text-color"@) is Ok
    &&& opt_number(t, "border-width"@) is Ok
    &&& opt_color(t, "border-color"@) is Ok
    &&& opt_radius(t, "border-radius"@) is Ok
    &&& opt_color(t, "shadow-color"@) is Ok
    &&& opt_number(t, "shadow-offset-x"@) is Ok
    &&& opt_number(t, "shadow-offset-y"@) is Ok
    &&& opt_number(t, "shadow-blur-radius"@) is Ok
}

/// `f` holds the fields of the table.
pub open spec fn container_fields_match(f: ContainerFieldsRaw, t: Seq<(Seq<char>, Doc)>) -> bool {
    &&& holds_opt_background(f.background, opt_background(t, "background"@)->Ok_0)
    &&& f.text_color == opt_color(t, "text-color"@)->Ok_0
    &&& f.border_width == opt_number(t, "border-width"@)->Ok_0
    &&& f.border_color == opt_color(t, "border-color"@)->Ok_0
    &&& f.border_radius == opt_radius(t, "border-radius"@)->Ok_0
    &&& f.shadow_color == opt_color(t, "shadow-color"@)->Ok_0
    &&& f.shadow_offset_x == opt_number(t, "shadow-offset-x"@)->Ok_0
    &&& f.shadow_offset_y == opt_number(t, "shadow-offset-y"@)->Ok_0
    &&& f.shadow_blur_radius == opt_number(t, "shadow-blur-radius"@)->Ok_0
}

/// `e` is what one of the fields of the table gives.
pub open spec fn container_fields_fault(t: Seq<(Seq<char>, Doc)>, e: DecodeFault) -> bool {
    ||| opt_background(t, "background"@) == Err::<Option<BackgroundForm>, DecodeFault>(e)
    ||| opt_color(t, "text-color"@) == Err::<Option<HexColor>, DecodeFault>(e)
    ||| opt_number(t, "border-width"@) == Err::<Option<Fixed>, DecodeFault>(e)
    ||| opt_color(t, "border-color"@) == Err::<Option<HexColor>, DecodeFault>(e)
    ||| opt_radius(t, "border-radius"@) == Err::<Option<RadiusRaw>, DecodeFault>(e)
    ||| opt_color(t, "shadow-color"@) == Err::<Option<HexColor>, DecodeFault>(e)
    ||| opt_number(t, "shadow-offset-x"@) == Err::<Option<Fixed>, DecodeFault>(e)
    ||| opt_number(t, "shadow-offset-y"@) == Err::<Option<Fixed>, DecodeFault>(e)
    ||| opt_number(t, "shadow-blur-radius"@) == Err::<Option<Fixed>, DecodeFault>(e)
}

impl ContainerFieldsRaw {
    /// Reads the fields of a layer from a table; other entries are ignored.
    pub fn from_table(t: &Vec<(String, Value)>) -> (r: Result<Self, DecodeError>)
        ensures
            r is Ok <==> container_fields_ok(entries_of(t@)),
            r matches Ok(f) ==> container_fields_match(f, entries_of(t@)),
            r matches Err(e) ==> container_fields_fault(entries_of(t@), e@),
    {
        let background = background_field(t, "background")?;
        let text_color = color_field(t, "text-color")?;
        let border_width = number_field(t, "border-width")?;
        let border_color = color_field(t, "border-color")?;
        let border_radius = radius_field(t, "border-radius")?;
        let shadow_color = color_field(t, "shadow-color")?;
        let shadow_offset_x = number_field(t, "shadow-offset-x")?;
        let shadow_offset_y = number_field(t, "shadow-offset-y")?;
        let shadow_blur_radius = number_field(t, "shadow-blur-radius")?;
        Ok(ContainerFieldsRaw { background, text_color, border_width, border_color, border_radius, shadow_color, shadow_offset_x, shadow_offset_y, shadow_blur_radius })
    }
}

/// A `[container]` section: the base layer only.
#[derive(Clone, Copy, Debug, PartialEq, Eq)]
pub struct ContainerSection {
    pub base: ContainerFieldsRaw,
}

/// The section table `t` fits the schema.
pub open spec fn container_section_ok(t: Seq<(Seq<char>, Doc)>) -> bool {
    &&& container_fields_ok(t)
}

/// `s` holds the layers of the section table `t`.
pub open spec fn container_section_match(s: ContainerSection, t: Seq<(Seq<char>, Doc)>) -> bool {
    &&& container_fields_match(s.base, t)
}

/// `e` is what one of the layers of the section table `t` gives.
pub open spec fn container_section_fault(t: Seq<(Seq<char>, Doc)>, e: DecodeFault) -> bool {
    ||| container_fields_fault(t, e)
}

impl ContainerSection {
    /// Reads a section: its own fields form the base layer, and each
    /// override layer is a sub-table.
    pub fn from_table(t: &Vec<(String, Value)>) -> (r: Result<Self, DecodeError>)
        ensures
            r is Ok <==> container_section_ok(entries_of(t@)),
            r matches Ok(s) ==> container_section_match(s, entries_of(t@)),
            r matches Err(e) ==> container_section_fault(entries_of(t@), e@),
    {
        let base = ContainerFieldsRaw::from_table(t)?;
        Ok(ContainerSection { base })
    }
}

/// Visual properties of a container, every one resolved.
#[derive(Clone, Copy, Debug, PartialEq, Eq)]
pub struct ContainerAppearance {
    pub background: Option<Background>,
    pub text_color: Option<HexColor>,
    pub border: Border,
    pub shadow: Shadow,
}

/// The container defaults: no background, inherited text color, and the
/// border and shadow defaults.
pub open spec fn container_appearance(f: ContainerFieldsRaw) -> ContainerAppearance {
    ContainerAppearance {
        background: match f.background {
            Some(b) => Some(background_spec(b)),
            None => None,
        },
        text_color: f.text_color,
        border: border_of(f.border_width, f.border_color, f.border_radius),
        shadow: shadow_of(f.shadow_color, f.shadow_offset_x, f.shadow_offset_y, f.shadow_blur_radius),
    }
}

fn into_appearance(f: ContainerFieldsRaw) -> (r: ContainerAppearance)
    ensures
        r == container_appearance(f),
{
    ContainerAppearance {
        background: match f.background {
            Some(b) => Some(b.into_background()),
            None => None,
        },
        text_color: f.text_color,
        border: resolve_border(f.border_width, f.border_color, f.border_radius),
        shadow: resolve_shadow(f.shadow_color, f.shadow_offset_x, f.shadow_offset_y, f.shadow_blur_radius),
    }
}

/// A container's single appearance.
#[derive(Clone, Copy, Debug, PartialEq, Eq)]
pub struct ContainerStyle(ContainerAppearance);

impl ContainerStyle {
    pub closed spec fn spec_appearance(&self) -> ContainerAppearance {
        self.0
    }

    pub fn appearance(&self) -> (r: &ContainerAppearance)
        ensures
            *r == self.spec_appearance(),
    {
        &self.0
    }
}

impl ContainerSection {
    /// The base layer with the defaults filled in.
    /// The style this section resolves to.
    pub closed spec fn styled(self) -> ContainerStyle {
        ContainerStyle(container_appearance(self.base))
    }

    pub fn resolve(self) -> (r: ContainerStyle)
        ensures
            r == self.styled(),
            r.spec_appearance() == container_appearance(self.base),
    {
        ContainerStyle(into_appearance(self.base))
    }
}

} // verus!
