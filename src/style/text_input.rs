//! The `[text-input]` section: a base layer with `focused` and `disabled`
//! overrides, each laid over the base alone.
use vstd::prelude::*;

use crate::color::{rgba, spec_black, spec_transparent, HexColor};
use crate::decode::{
    background_field, background_spec, color_field, holds_opt_background, number_field,
    opt_background, opt_color, opt_number, opt_radius, opt_table, radius_field, table_field,
    Background, BackgroundForm, BackgroundRaw, DecodeError, DecodeFault, RadiusRaw,
};
use crate::style::{
    border_of,
    layered,
    lay,
    lemma_pick_associative,
    opt_ref,
    or_else,
    pick,
    resolve_border,
    value_or,
    Border,
    Layer,
};
use crate::value::{entries_of, Doc, Fixed, Value};

verus! {

/// One layer of text input fields; each may be unset.
#[derive(Clone, Copy, Debug, PartialEq, Eq)]
pub struct TextInputFieldsRaw {
    pub background: Option<BackgroundRaw>,
    pub border_width: Option<Fixed>,
    pub border_color: Option<HexColor>,
    pub border_radius: Option<RadiusRaw>,
    pub icon_color: Option<HexColor>,
    pub placeholder_color: Option<HexColor>,
    pub value_color: Option<HexColor>,
    pub selection_color: Option<HexColor>,
}

impl Layer for TextInputFieldsRaw {
    open spec fn merged(self, over: Self) -> Self {
        TextInputFieldsRaw {
            background: pick(over.background, self.background),
            border_width: pick(over.border_width, self.border_width),
            border_color: pick(over.border_color, self.border_color),
            border_radius: pick(over.border_radius, self.border_radius),
            icon_color: pick(over.icon_color, self.icon_color),
            placeholder_color: pick(over.placeholder_color, self.placeholder_color),
            value_color: pick(over.value_color, self.value_color),
            selection_color: pick(over.selection_color, self.selection_color),
        }
    }

    fn merge(self, over: &Self) -> (r: Self) {
        TextInputFieldsRaw {
            background: or_else(over.background, self.background),
            border_width: or_else(over.border_width, self.border_width),
            border_color: or_else(over.border_color, self.border_color),
            border_radius: or_else(over.border_radius, self.border_radius),
            icon_color: or_else(over.icon_color, self.icon_color),
            placeholder_color: or_else(over.placeholder_color, self.placeholder_color),
            value_color: or_else(over.value_color, self.value_color),
            selection_color: or_else(over.selection_color, self.selection_color),
        }
    }

    proof fn lemma_merge_associative(a: Self, b: Self, c: Self) {
        lemma_pick_associative(a.background, b.background, c.background);
        lemma_pick_associative(a.border_width, b.border_width, c.border_width);
        lemma_pick_associative(a.border_color, b.border_color, c.border_color);
        lemma_pick_associative(a.border_radius, b.border_radius, c.border_radius);
        lemma_pick_associative(a.icon_color, b.icon_color, c.icon_color);
        lemma_pick_associative(a.placeholder_color, b.placeholder_color, c.placeholder_color);
        lemma_pick_associative(a.value_color, b.value_color, c.value_color);
        lemma_pick_associative(a.selection_color, b.selection_color, c.selection_color);
    }
}

/// Every field of the table has the right kind.
pub open spec fn text_input_fields_ok(t: Seq<(Seq<char>, Doc)>) -> bool {
    &&& opt_background(t, "background"@) is Ok
    &&& opt_number(t, "border-width"@) is Ok
    &&& opt_color(t, "border-color"@) is Ok
    &&& opt_radius(t, "border-radius"@) is Ok
    &&& opt_color(t, "icon-color"@) is Ok
    &&& opt_color(t, "placeholder-color"@) is Ok
    &&& opt_color(t, "value-color"@) is Ok
    &&& opt_color(t, "selection-color"@) is Ok
}

/// `f` holds the fields of the table.
pub open spec fn text_input_fields_match(f: TextInputFieldsRaw, t: Seq<(Seq<char>, Doc)>) -> bool {
    &&& holds_opt_background(f.background, opt_background(t, "background"@)->Ok_0)
    &&& f.border_width == opt_number(t, "border-width"@)->Ok_0
    &&& f.border_color == opt_color(t, "border-color"@)->Ok_0
    &&& f.border_radius == opt_radius(t, "border-radius"@)->Ok_0
    &&& f.icon_color == opt_color(t, "icon-color"@)->Ok_0
    &&& f.placeholder_color == opt_color(t, "placeholder-color"@)->Ok_0
    &&& f.value_color == opt_color(t, "value-color"@)->Ok_0
    &&& f.selection_color == opt_color(t, "selection-color"@)->Ok_0
}

/// `e` is what one of the fields of the table gives.
pub open spec fn text_input_fields_fault(t: Seq<(Seq<char>, Doc)>, e: DecodeFault) -> bool {
    ||| opt_background(t, "background"@) == Err::<Option<BackgroundForm>, DecodeFault>(e)
    ||| opt_number(t, "border-width"@) == Err::<Option<Fixed>, DecodeFault>(e)
    ||| opt_color(t, "border-color"@) == Err::<Option<HexColor>, DecodeFault>(e)
    ||| opt_radius(t, "border-radius"@) == Err::<Option<RadiusRaw>, DecodeFault>(e)
    ||| opt_color(t, "icon-color"@) == Err::<Option<HexColor>, DecodeFault>(e)
    ||| opt_color(t, "placeholder-color"@) == Err::<Option<HexColor>, DecodeFault>(e)
    ||| opt_color(t, "value-color"@) == Err::<Option<HexColor>, DecodeFault>(e)
    ||| opt_color(t, "selection-color"@) == Err::<Option<HexColor>, DecodeFault>(e)
}

impl TextInputFieldsRaw {
    /// Reads the fields of a layer from a table; other entries are ignored.
    pub fn from_table(t: &Vec<(String, Value)>) -> (r: Result<Self, DecodeError>)
        ensures
            r is Ok <==> text_input_fields_ok(entries_of(t@)),
            r matches Ok(f) ==> text_input_fields_match(f, entries_of(t@)),
            r matches Err(e) ==> text_input_fields_fault(entries_of(t@), e@),
    {
        let background = background_field(t, "background")?;
        let border_width = number_field(t, "border-width")?;
        let border_color = color_field(t, "border-color")?;
        let border_radius = radius_field(t, "border-radius")?;
        let icon_color = color_field(t, "icon-color")?;
        let placeholder_color = color_field(t, "placeholder-color")?;
        let value_color = color_field(t, "value-color")?;
        let selection_color = color_field(t, "selection-color")?;
        Ok(TextInputFieldsRaw { background, border_width, border_color, border_radius, icon_color, placeholder_color, value_color, selection_color })
    }
}

pub open spec fn text_input_sub_ok(t: Seq<(Seq<char>, Doc)>, name: Seq<char>) -> bool {
    match opt_table(t, name) {
        Err(_) => false,
        Ok(None) => true,
        Ok(Some(s)) => text_input_fields_ok(s),
    }
}

pub open spec fn text_input_sub_match(o: Option<TextInputFieldsRaw>, t: Seq<(Seq<char>, Doc)>, name: Seq<char>) -> bool {
    match opt_table(t, name) {
        Ok(Some(s)) => o matches Some(f) && text_input_fields_match(f, s),
        _ => o is None,
    }
}

pub open spec fn text_input_sub_fault(t: Seq<(Seq<char>, Doc)>, name: Seq<char>, e: DecodeFault) -> bool {
    ||| opt_table(t, name) == Err::<Option<Seq<(Seq<char>, Doc)>>, DecodeFault>(e)
    ||| opt_table(t, name) matches Ok(Some(s)) && text_input_fields_fault(s, e)
}

fn sub_layer(t: &Vec<(String, Value)>, name: &str) -> (r: Result<Option<TextInputFieldsRaw>, DecodeError>)
    ensures
        r is Ok <==> text_input_sub_ok(entries_of(t@), name@),
        r matches Ok(o) ==> text_input_sub_match(o, entries_of(t@), name@),
        r matches Err(e) ==> text_input_sub_fault(entries_of(t@), name@, e@),
{
    match table_field(t, name)? {
        None => Ok(None),
        Some(s) => Ok(Some(TextInputFieldsRaw::from_table(s)?)),
    }
}

/// A `[text-input]` section: the base layer and one optional layer per status.
#[derive(Clone, Copy, Debug, PartialEq, Eq)]
pub struct TextInputSection {
    pub base: TextInputFieldsRaw,
    pub focused: Option<TextInputFieldsRaw>,
    pub disabled: Option<TextInputFieldsRaw>,
}

/// The section table `t` fits the schema.
pub open spec fn text_input_section_ok(t: Seq<(Seq<char>, Doc)>) -> bool {
    &&& text_input_fields_ok(t)
    &&& text_input_sub_ok(t, "focused"@)
    &&& text_input_sub_ok(t, "disabled"@)
}

/// `s` holds the layers of the section table `t`.
pub open spec fn text_input_section_match(s: TextInputSection, t: Seq<(Seq<char>, Doc)>) -> bool {
    &&& text_input_fields_match(s.base, t)
    &&& text_input_sub_match(s.focused, t, "focused"@)
    &&& text_input_sub_match(s.disabled, t, "disabled"@)
}

/// `e` is what one of the layers of the section table `t` gives.
pub open spec fn text_input_section_fault(t: Seq<(Seq<char>, Doc)>, e: DecodeFault) -> bool {
    ||| text_input_fields_fault(t, e)
    ||| text_input_sub_fault(t, "focused"@, e)
    ||| text_input_sub_fault(t, "disabled"@, e)
}

impl TextInputSection {
    /// Reads a section: its own fields form the base layer, and each
    /// override layer is a sub-table.
    pub fn from_table(t: &Vec<(String, Value)>) -> (r: Result<Self, DecodeError>)
        ensures
            r is Ok <==> text_input_section_ok(entries_of(t@)),
            r matches Ok(s) ==> text_input_section_match(s, entries_of(t@)),
            r matches Err(e) ==> text_input_section_fault(entries_of(t@), e@),
    {
        let base = TextInputFieldsRaw::from_table(t)?;
        let focused = sub_layer(t, "focused")?;
        let disabled = sub_layer(t, "disabled")?;
        Ok(TextInputSection { base, focused, disabled })
    }
}

/// Visual properties of a text input, every one resolved.
#[derive(Clone, Copy, Debug, PartialEq, Eq)]
pub struct TextInputAppearance {
    pub background: Background,
    pub border: Border,
    pub icon: HexColor,
    pub placeholder: HexColor,
    pub value: HexColor,
    pub selection: HexColor,
}

/// The placeholder default: mid gray.
pub open spec fn placeholder_gray() -> HexColor {
    rgba(0x80, 0x80, 0x80, 255)
}

/// The selection default: a translucent blue (alpha 77 of 255, about 0.3).
pub open spec fn selection_blue() -> HexColor {
    rgba(0x33, 0x99, 0xff, 77)
}

/// The text input defaults: transparent background, black icon and value,
/// gray placeholder, translucent blue selection, and the border defaults.
pub open spec fn text_input_appearance(f: TextInputFieldsRaw) -> TextInputAppearance {
    TextInputAppearance {
        background: match f.background {
            Some(b) => background_spec(b),
            None => Background::Color(spec_transparent()),
        },
        border: border_of(f.border_width, f.border_color, f.border_radius),
        icon: match f.icon_color {
            Some(c) => c,
            None => spec_black(),
        },
        placeholder: match f.placeholder_color {
            Some(c) => c,
            None => placeholder_gray(),
        },
        value: match f.value_color {
            Some(c) => c,
            None => spec_black(),
        },
        selection: match f.selection_color {
            Some(c) => c,
            None => selection_blue(),
        },
    }
}

fn into_appearance(f: TextInputFieldsRaw) -> (r: TextInputAppearance)
    ensures
        r == text_input_appearance(f),
{
    TextInputAppearance {
        background: match f.background {
            Some(b) => b.into_background(),
            None => Background::Color(HexColor::transparent()),
        },
        border: resolve_border(f.border_width, f.border_color, f.border_radius),
        icon: value_or(f.icon_color, HexColor::black()),
        placeholder: value_or(f.placeholder_color, HexColor::from_rgba8(0x80, 0x80, 0x80, 255)),
        value: value_or(f.value_color, HexColor::black()),
        selection: value_or(f.selection_color, HexColor::from_rgba8(0x33, 0x99, 0xff, 77)),
    }
}

/// The statuses a text input can be in.
#[derive(Clone, Copy, Debug, PartialEq, Eq, Structural)]
pub enum TextInputStatus {
    Active,
    Hovered,
    Focused { is_hovered: bool },
    Disabled,
}

/// A text input's appearance for each status.
#[derive(Clone, Copy, Debug, PartialEq, Eq)]
pub struct TextInputStyle {
    active: TextInputAppearance,
    focused: TextInputAppearance,
    disabled: TextInputAppearance,
}

impl TextInputStyle {
    pub closed spec fn spec_active(&self) -> TextInputAppearance {
        self.active
    }

    pub closed spec fn spec_focused(&self) -> TextInputAppearance {
        self.focused
    }

    pub closed spec fn spec_disabled(&self) -> TextInputAppearance {
        self.disabled
    }

}

/// The appearance of a status: the base with that status's layer over it.
fn resolve_status(base: TextInputFieldsRaw, status: Option<&TextInputFieldsRaw>) -> (r: TextInputAppearance)
    ensures
        r == text_input_appearance(layered(base, opt_ref(status))),
{
    into_appearance(lay(base, status))
}

impl TextInputSection {
    /// Resolves every status: the base alone when active, otherwise the
    /// base with the status layer over it, then the defaults.
    /// The style this section resolves to.
    pub closed spec fn styled(self) -> TextInputStyle {
        TextInputStyle {
            active: text_input_appearance(self.base),
            focused: text_input_appearance(layered(self.base, self.focused)),
            disabled: text_input_appearance(layered(self.base, self.disabled)),
        }
    }

    pub fn resolve(self) -> (r: TextInputStyle)
        ensures
            r == self.styled(),
            r.spec_active() == text_input_appearance(self.base),
            r.spec_focused() == text_input_appearance(layered(self.base, self.focused)),
            r.spec_disabled() == text_input_appearance(layered(self.base, self.disabled)),
    {
        let active = into_appearance(self.base);
        let focused = resolve_status(self.base, self.focused.as_ref());
        let disabled = resolve_status(self.base, self.disabled.as_ref());
        TextInputStyle { active, focused, disabled }
    }
}

impl TextInputStyle {
    /// The appearance for a status: hovering shows the active appearance,
    /// and focus shows the focused one whether hovered or not.
    pub fn style_fn(&self, status: TextInputStatus) -> (r: TextInputAppearance)
        ensures
            r == (match status {
                TextInputStatus::Active | TextInputStatus::Hovered => self.spec_active(),
                TextInputStatus::Focused { .. } => self.spec_focused(),
                TextInputStatus::Disabled => self.spec_disabled(),
            }),
    {
        match status {
            TextInputStatus::Active => self.active,
            TextInputStatus::Hovered => self.active,
            TextInputStatus::Focused { .. } => self.focused,
            TextInputStatus::Disabled => self.disabled,
        }
    }
}

} // verus!
