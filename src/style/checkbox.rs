//! The `[checkbox]` section: a base layer, a `checked` state layer,
//! `hovered` and `disabled` status layers, and `hovered-checked` and
//! `disabled-checked` layers for a status and the state together.
use vstd::prelude::*;

use crate::color::{spec_black, spec_transparent, HexColor};
use crate::decode::{
    background_field, background_spec, color_field, holds_opt_background, number_field,
    opt_background, opt_color, opt_number, opt_radius, opt_table, radius_field, table_field,
    Background, BackgroundForm, BackgroundRaw, DecodeError, DecodeFault, RadiusRaw,
};
use crate::style::{
    border_of,
    cascade,
    cascade_layers,
    layered,
    lemma_pick_associative,
    or_else,
    pick,
    resolve_border,
    value_or,
    Border,
    Layer,
};
use crate::value::{entries_of, Doc, Fixed, Value};

verus! {

/// One layer of checkbox fields; each may be unset.
#[derive(Clone, Copy, Debug, PartialEq, Eq)]
pub struct CheckboxFieldsRaw {
    pub background: Option<BackgroundRaw>,
    pub icon_color: Option<HexColor>,
    pub border_width: Option<Fixed>,
    pub border_color: Option<HexColor>,
    pub border_radius: Option<RadiusRaw>,
    pub text_color: Option<HexColor>,
}

impl Layer for CheckboxFieldsRaw {
    open spec fn merged(self, over: Self) -> Self {
        CheckboxFieldsRaw {
            background: pick(over.background, self.background),
            icon_color: pick(over.icon_color, self.icon_color),
            border_width: pick(over.border_width, self.border_width),
            border_color: pick(over.border_color, self.border_color),
            border_radius: pick(over.border_radius, self.border_radius),
            text_color: pick(over.text_color, self.text_color),
        }
    }

    fn merge(self, over: &Self) -> (r: Self) {
        CheckboxFieldsRaw {
            background: or_else(over.background, self.background),
            icon_color: or_else(over.icon_color, self.icon_color),
            border_width: or_else(over.border_width, self.border_width),
            border_color: or_else(over.border_color, self.border_color),
            border_radius: or_else(over.border_radius, self.border_radius),
            text_color: or_else(over.text_color, self.text_color),
        }
    }

    proof fn lemma_merge_associative(a: Self, b: Self, c: Self) {
        lemma_pick_associative(a.background, b.background, c.background);
        lemma_pick_associative(a.icon_color, b.icon_color, c.icon_color);
        lemma_pick_associative(a.border_width, b.border_width, c.border_width);
        lemma_pick_associative(a.border_color, b.border_color, c.border_color);
        lemma_pick_associative(a.border_radius, b.border_radius, c.border_radius);
        lemma_pick_associative(a.text_color, b.text_color, c.text_color);
    }
}

/// Every field of the table has the right kind.
pub open spec fn checkbox_fields_ok(t: Seq<(Seq<char>, Doc)>) -> bool {
    &&& opt_background(t, "background"@) is Ok
    &&& opt_color(t, "icon-color"@) is Ok
    &&& opt_number(t, "border-width"@) is Ok
    &&& opt_color(t, "border-color"@) is Ok
    &&& opt_radius(t, "border-radius"@) is Ok
    &&& opt_color(t, "text-color"@) is Ok
}

/// `f` holds the fields of the table.
pub open spec fn checkbox_fields_match(f: CheckboxFieldsRaw, t: Seq<(Seq<char>, Doc)>) -> bool {
    &&& holds_opt_background(f.background, opt_background(t, "background"@)->Ok_0)
    &&& f.icon_color == opt_color(t, "icon-color"@)->Ok_0
    &&& f.border_width == opt_number(t, "border-width"@)->Ok_0
    &&& f.border_color == opt_color(t, "border-color"@)->Ok_0
    &&& f.border_radius == opt_radius(t, "border-radius"@)->Ok_0
    &&& f.text_color == opt_color(t, "text-color"@)->Ok_0
}

/// `e` is what one of the fields of the table gives.
pub open spec fn checkbox_fields_fault(t: Seq<(Seq<char>, Doc)>, e: DecodeFault) -> bool {
    ||| opt_background(t, "background"@) == Err::<Option<BackgroundForm>, DecodeFault>(e)
    ||| opt_color(t, "icon-color"@) == Err::<Option<HexColor>, DecodeFault>(e)
    ||| opt_number(t, "border-width"@) == Err::<Option<Fixed>, DecodeFault>(e)
    ||| opt_color(t, "border-color"@) == Err::<Option<HexColor>, DecodeFault>(e)
    ||| opt_radius(t, "border-radius"@) == Err::<Option<RadiusRaw>, DecodeFault>(e)
    ||| opt_color(t, "text-color"@) == Err::<Option<HexColor>, DecodeFault>(e)
}

impl CheckboxFieldsRaw {
    /// Reads the fields of a layer from a table; other entries are ignored.
    pub fn from_table(t: &Vec<(String, Value)>) -> (r: Result<Self, DecodeError>)
        ensures
            r is Ok <==> checkbox_fields_ok(entries_of(t@)),
            r matches Ok(f) ==> checkbox_fields_match(f, entries_of(t@)),
            r matches Err(e) ==> checkbox_fields_fault(entries_of(t@), e@),
    {
        let background = background_field(t, "background")?;
        let icon_color = color_field(t, "icon-color")?;
        let border_width = number_field(t, "border-width")?;
        let border_color = color_field(t, "border-color")?;
        let border_radius = radius_field(t, "border-radius")?;
        let text_color = color_field(t, "text-color")?;
        Ok(CheckboxFieldsRaw { background, icon_color, border_width, border_color, border_radius, text_color })
    }
}

pub open spec fn checkbox_sub_ok(t: Seq<(Seq<char>, Doc)>, name: Seq<char>) -> bool {
    match opt_table(t, name) {
        Err(_) => false,
        Ok(None) => true,
        Ok(Some(s)) => checkbox_fields_ok(s),
    }
}

pub open spec fn checkbox_sub_match(o: Option<CheckboxFieldsRaw>, t: Seq<(Seq<char>, Doc)>, name: Seq<char>) -> bool {
    match opt_table(t, name) {
        Ok(Some(s)) => o matches Some(f) && checkbox_fields_match(f, s),
        _ => o is None,
    }
}

pub open spec fn checkbox_sub_fault(t: Seq<(Seq<char>, Doc)>, name: Seq<char>, e: DecodeFault) -> bool {
    ||| opt_table(t, name) == Err::<Option<Seq<(Seq<char>, Doc)>>, DecodeFault>(e)
    ||| opt_table(t, name) matches Ok(Some(s)) && checkbox_fields_fault(s, e)
}

fn sub_layer(t: &Vec<(String, Value)>, name: &str) -> (r: Result<Option<CheckboxFieldsRaw>, DecodeError>)
    ensures
        r is Ok <==> checkbox_sub_ok(entries_of(t@), name@),
        r matches Ok(o) ==> checkbox_sub_match(o, entries_of(t@), name@),
        r matches Err(e) ==> checkbox_sub_fault(entries_of(t@), name@, e@),
{
    match table_field(t, name)? {
        None => Ok(None),
        Some(s) => Ok(Some(CheckboxFieldsRaw::from_table(s)?)),
    }
}

/// A `[checkbox]` section: the base layer and the optional state and status layers.
#[derive(Clone, Copy, Debug, PartialEq, Eq)]
pub struct CheckboxSection {
    pub base: CheckboxFieldsRaw,
    pub checked: Option<CheckboxFieldsRaw>,
    pub hovered: Option<CheckboxFieldsRaw>,
    pub disabled: Option<CheckboxFieldsRaw>,
    pub hovered_checked: Option<CheckboxFieldsRaw>,
    pub disabled_checked: Option<CheckboxFieldsRaw>,
}

/// The section table `t` fits the schema.
pub open spec fn checkbox_section_ok(t: Seq<(Seq<char>, Doc)>) -> bool {
    &&& checkbox_fields_ok(t)
    &&& checkbox_sub_ok(t, "checked"@)
    &&& checkbox_sub_ok(t, "hovered"@)
    &&& checkbox_sub_ok(t, "disabled"@)
    &&& checkbox_sub_ok(t, "hovered-checked"@)
    &&& checkbox_sub_ok(t, "disabled-checked"@)
}

/// `s` holds the layers of the section table `t`.
pub open spec fn checkbox_section_match(s: CheckboxSection, t: Seq<(Seq<char>, Doc)>) -> bool {
    &&& checkbox_fields_match(s.base, t)
    &&& checkbox_sub_match(s.checked, t, "checked"@)
    &&& checkbox_sub_match(s.hovered, t, "hovered"@)
    &&& checkbox_sub_match(s.disabled, t, "disabled"@)
    &&& checkbox_sub_match(s.hovered_checked, t, "hovered-checked"@)
    &&& checkbox_sub_match(s.disabled_checked, t, "disabled-checked"@)
}

/// `e` is what one of the layers of the section table `t` gives.
pub open spec fn checkbox_section_fault(t: Seq<(Seq<char>, Doc)>, e: DecodeFault) -> bool {
    ||| checkbox_fields_fault(t, e)
    ||| checkbox_sub_fault(t, "checked"@, e)
    ||| checkbox_sub_fault(t, "hovered"@, e)
    ||| checkbox_sub_fault(t, "disabled"@, e)
    ||| checkbox_sub_fault(t, "hovered-checked"@, e)
    ||| checkbox_sub_fault(t, "disabled-checked"@, e)
}

impl CheckboxSection {
    /// Reads a section: its own fields form the base layer, and each
    /// override layer is a sub-table.
    pub fn from_table(t: &Vec<(String, Value)>) -> (r: Result<Self, DecodeError>)
        ensures
            r is Ok <==> checkbox_section_ok(entries_of(t@)),
            r matches Ok(s) ==> checkbox_section_match(s, entries_of(t@)),
            r matches Err(e) ==> checkbox_section_fault(entries_of(t@), e@),
    {
        let base = CheckboxFieldsRaw::from_table(t)?;
        let checked = sub_layer(t, "checked")?;
        let hovered = sub_layer(t, "hovered")?;
        let disabled = sub_layer(t, "disabled")?;
        let hovered_checked = sub_layer(t, "hovered-checked")?;
        let disabled_checked = sub_layer(t, "disabled-checked")?;
        Ok(CheckboxSection { base, checked, hovered, disabled, hovered_checked, disabled_checked })
    }
}

/// Visual properties of a checkbox, every one resolved.
#[derive(Clone, Copy, Debug, PartialEq, Eq)]
pub struct CheckboxAppearance {
    pub background: Background,
    pub icon_color: HexColor,
    pub border: Border,
    pub text_color: Option<HexColor>,
}

/// The checkbox defaults: transparent background, black icon, inherited
/// text color, and the border defaults.
pub open spec fn checkbox_appearance(f: CheckboxFieldsRaw) -> CheckboxAppearance {
    CheckboxAppearance {
        background: match f.background {
            Some(b) => background_spec(b),
            None => Background::Color(spec_transparent()),
        },
        icon_color: match f.icon_color {
            Some(c) => c,
            None => spec_black(),
        },
        border: border_of(f.border_width, f.border_color, f.border_radius),
        text_color: f.text_color,
    }
}

fn into_appearance(f: CheckboxFieldsRaw) -> (r: CheckboxAppearance)
    ensures
        r == checkbox_appearance(f),
{
    CheckboxAppearance {
        background: match f.background {
            Some(b) => b.into_background(),
            None => Background::Color(HexColor::transparent()),
        },
        icon_color: value_or(f.icon_color, HexColor::black()),
        border: resolve_border(f.border_width, f.border_color, f.border_radius),
        text_color: f.text_color,
    }
}

/// The statuses a checkbox can be in, each with its state.
#[derive(Clone, Copy, Debug, PartialEq, Eq, Structural)]
pub enum CheckboxStatus {
    Active { is_checked: bool },
    Hovered { is_checked: bool },
    Disabled { is_checked: bool },
}

/// A checkbox's appearance for each status, unchecked and checked.
#[derive(Clone, Copy, Debug, PartialEq, Eq)]
pub struct CheckboxStyle {
    active_unchecked: CheckboxAppearance,
    active_checked: CheckboxAppearance,
    hovered_unchecked: CheckboxAppearance,
    hovered_checked: CheckboxAppearance,
    disabled_unchecked: CheckboxAppearance,
    disabled_checked: CheckboxAppearance,
}

impl CheckboxStyle {
    pub closed spec fn spec_active_unchecked(&self) -> CheckboxAppearance {
        self.active_unchecked
    }

    pub closed spec fn spec_active_checked(&self) -> CheckboxAppearance {
        self.active_checked
    }

    pub closed spec fn spec_hovered_unchecked(&self) -> CheckboxAppearance {
        self.hovered_unchecked
    }

    pub closed spec fn spec_hovered_checked(&self) -> CheckboxAppearance {
        self.hovered_checked
    }

    pub closed spec fn spec_disabled_unchecked(&self) -> CheckboxAppearance {
        self.disabled_unchecked
    }

    pub closed spec fn spec_disabled_checked(&self) -> CheckboxAppearance {
        self.disabled_checked
    }

}

impl CheckboxStyle {
    /// The appearance for a status and state.
    pub fn style_fn(&self, status: CheckboxStatus) -> (r: CheckboxAppearance)
        ensures
            r == (match status {
                CheckboxStatus::Active { is_checked } => if is_checked {
                    self.spec_active_checked()
                } else {
                    self.spec_active_unchecked()
                },
                CheckboxStatus::Hovered { is_checked } => if is_checked {
                    self.spec_hovered_checked()
                } else {
                    self.spec_hovered_unchecked()
                },
                CheckboxStatus::Disabled { is_checked } => if is_checked {
                    self.spec_disabled_checked()
                } else {
                    self.spec_disabled_unchecked()
                },
            }),
    {
        match status {
            CheckboxStatus::Active { is_checked } => if is_checked {
                self.active_checked
            } else {
                self.active_unchecked
            },
            CheckboxStatus::Hovered { is_checked } => if is_checked {
                self.hovered_checked
            } else {
                self.hovered_unchecked
            },
            CheckboxStatus::Disabled { is_checked } => if is_checked {
                self.disabled_checked
            } else {
                self.disabled_unchecked
            },
        }
    }
}

impl CheckboxSection {
    /// Resolves every status in both states. The checked variant lays, in
    /// order, the `checked` layer, the status layer and the layer for that
    /// status and state together over the base; the unchecked variant skips
    /// the state layer. Absent layers are skipped.
    /// The style this section resolves to.
    pub closed spec fn styled(self) -> CheckboxStyle {
        CheckboxStyle {
            active_unchecked: checkbox_appearance(self.base),
            active_checked: checkbox_appearance(cascade(self.base, self.checked, None, None)),
            hovered_unchecked: checkbox_appearance(cascade(self.base, None, self.hovered, None)),
            hovered_checked: checkbox_appearance(
                cascade(self.base, self.checked, self.hovered, self.hovered_checked),
            ),
            disabled_unchecked: checkbox_appearance(cascade(self.base, None, self.disabled, None)),
            disabled_checked: checkbox_appearance(
                cascade(self.base, self.checked, self.disabled, self.disabled_checked),
            ),
        }
    }

    pub fn resolve(self) -> (r: CheckboxStyle)
        ensures
            r == self.styled(),
            r.spec_active_unchecked() == checkbox_appearance(self.base),
            r.spec_active_checked() == checkbox_appearance(cascade(self.base, self.checked, None, None)),
            r.spec_hovered_unchecked() == checkbox_appearance(cascade(self.base, None, self.hovered, None)),
            r.spec_hovered_checked() == checkbox_appearance(
                cascade(self.base, self.checked, self.hovered, self.hovered_checked),
            ),
            r.spec_disabled_unchecked() == checkbox_appearance(cascade(self.base, None, self.disabled, None)),
            r.spec_disabled_checked() == checkbox_appearance(
                cascade(self.base, self.checked, self.disabled, self.disabled_checked),
            ),
    {
        let active_unchecked = into_appearance(self.base);
        let active_checked = into_appearance(cascade_layers(self.base, self.checked.as_ref(), None, None));
        let hovered_unchecked = into_appearance(cascade_layers(self.base, None, self.hovered.as_ref(), None));
        let hovered_checked = into_appearance(
            cascade_layers(self.base, self.checked.as_ref(), self.hovered.as_ref(), self.hovered_checked.as_ref()),
        );
        let disabled_unchecked = into_appearance(cascade_layers(self.base, None, self.disabled.as_ref(), None));
        let disabled_checked = into_appearance(
            cascade_layers(self.base, self.checked.as_ref(), self.disabled.as_ref(), self.disabled_checked.as_ref()),
        );
        CheckboxStyle { active_unchecked, active_checked, hovered_unchecked, hovered_checked, disabled_unchecked, disabled_checked }
    }
}

/// With no `checked` layer and no `hovered-checked` layer, the hovered
/// checked appearance is the base with the hovered layer alone, and
/// every field still receives its default.
pub proof fn lemma_hovered_checked_without_state_layers(s: CheckboxSection)
    requires
        s.checked is None,
        s.hovered_checked is None,
    ensures
        checkbox_appearance(cascade(s.base, s.checked, s.hovered, s.hovered_checked)) == checkbox_appearance(
            layered(s.base, s.hovered),
        ),
{
}

} // verus!
