//! The `[toggler]` section: a base layer, a `toggled` state layer,
//! `hovered` and `disabled` status layers, and `hovered-toggled` and
//! `disabled-toggled` layers for a status and the state together.
use vstd::prelude::*;

use crate::color::{spec_black, spec_transparent, HexColor};
use crate::decode::{
    color_field,
    number_field,
    opt_color,
    opt_number,
    opt_table,
    table_field,
    DecodeError,
    DecodeFault,
};
use crate::style::{
    cascade,
    cascade_layers,
    layered,
    lemma_pick_associative,
    or_else,
    pick,
    value_or,
    Layer,
};
use crate::value::{entries_of, Doc, Fixed, Value};

verus! {

/// One layer of toggler fields; each may be unset.
#[derive(Clone, Copy, Debug, PartialEq, Eq)]
pub struct TogglerFieldsRaw {
    pub background: Option<HexColor>,
    pub foreground: Option<HexColor>,
    pub background_border_width: Option<Fixed>,
    pub background_border_color: Option<HexColor>,
    pub foreground_border_width: Option<Fixed>,
    pub foreground_border_color: Option<HexColor>,
    pub border_radius: Option<Fixed>,
    pub text_color: Option<HexColor>,
}

impl Layer for TogglerFieldsRaw {
    open spec fn merged(self, over: Self) -> Self {
        TogglerFieldsRaw {
            background: pick(over.background, self.background),
            foreground: pick(over.foreground, self.foreground),
            background_border_width: pick(over.background_border_width, self.background_border_width),
            background_border_color: pick(over.background_border_color, self.background_border_color),
            foreground_border_width: pick(over.foreground_border_width, self.foreground_border_width),
            foreground_border_color: pick(over.foreground_border_color, self.foreground_border_color),
            border_radius: pick(over.border_radius, self.border_radius),
            text_color: pick(over.text_color, self.text_color),
        }
    }

    fn merge(self, over: &Self) -> (r: Self) {
        TogglerFieldsRaw {
            background: or_else(over.background, self.background),
            foreground: or_else(over.foreground, self.foreground),
            background_border_width: or_else(over.background_border_width, self.background_border_width),
            background_border_color: or_else(over.background_border_color, self.background_border_color),
            foreground_border_width: or_else(over.foreground_border_width, self.foreground_border_width),
            foreground_border_color: or_else(over.foreground_border_color, self.foreground_border_color),
            border_radius: or_else(over.border_radius, self.border_radius),
            text_color: or_else(over.text_color, self.text_color),
        }
    }

    proof fn lemma_merge_associative(a: Self, b: Self, c: Self) {
        lemma_pick_associative(a.background, b.background, c.background);
        lemma_pick_associative(a.foreground, b.foreground, c.foreground);
        lemma_pick_associative(a.background_border_width, b.background_border_width, c.background_border_width);
        lemma_pick_associative(a.background_border_color, b.background_border_color, c.background_border_color);
        lemma_pick_associative(a.foreground_border_width, b.foreground_border_width, c.foreground_border_width);
        lemma_pick_associative(a.foreground_border_color, b.foreground_border_color, c.foreground_border_color);
        lemma_pick_associative(a.border_radius, b.border_radius, c.border_radius);
        lemma_pick_associative(a.text_color, b.text_color, c.text_color);
    }
}

/// Every field of the table has the right kind.
pub open spec fn toggler_fields_ok(t: Seq<(Seq<char>, Doc)>) -> bool {
    &&& opt_color(t, "background"@) is Ok
    &&& opt_color(t, "foreground"@) is Ok
    &&& opt_number(t, "background-border-width"@) is Ok
    &&& opt_color(t, "background-border-color"@) is Ok
    &&& opt_number(t, "foreground-border-width"@) is Ok
    &&& opt_color(t, "foreground-border-color"@) is Ok
    &&& opt_number(t, "border-radius"@) is Ok
    &&& opt_color(t, "text-color"@) is Ok
}

/// `f` holds the fields of the table.
pub open spec fn toggler_fields_match(f: TogglerFieldsRaw, t: Seq<(Seq<char>, Doc)>) -> bool {
    &&& f.background == opt_color(t, "background"@)->Ok_0
    &&& f.foreground == opt_color(t, "foreground"@)->Ok_0
    &&& f.background_border_width == opt_number(t, "background-border-width"@)->Ok_0
    &&& f.background_border_color == opt_color(t, "background-border-color"@)->Ok_0
    &&& f.foreground_border_width == opt_number(t, "foreground-border-width"@)->Ok_0
    &&& f.foreground_border_color == opt_color(t, "foreground-border-color"@)->Ok_0
    &&& f.border_radius == opt_number(t, "border-radius"@)->Ok_0
    &&& f.text_color == opt_color(t, "text-color"@)->Ok_0
}

/// `e` is what one of the fields of the table gives.
pub open spec fn toggler_fields_fault(t: Seq<(Seq<char>, Doc)>, e: DecodeFault) -> bool {
    ||| opt_color(t, "background"@) == Err::<Option<HexColor>, DecodeFault>(e)
    ||| opt_color(t, "foreground"@) == Err::<Option<HexColor>, DecodeFault>(e)
    ||| opt_number(t, "background-border-width"@) == Err::<Option<Fixed>, DecodeFault>(e)
    ||| opt_color(t, "background-border-color"@) == Err::<Option<HexColor>, DecodeFault>(e)
    ||| opt_number(t, "foreground-border-width"@) == Err::<Option<Fixed>, DecodeFault>(e)
    ||| opt_color(t, "foreground-border-color"@) == Err::<Option<HexColor>, DecodeFault>(e)
    ||| opt_number(t, "border-radius"@) == Err::<Option<Fixed>, DecodeFault>(e)
    ||| opt_color(t, "text-color"@) == Err::<Option<HexColor>, DecodeFault>(e)
}

impl TogglerFieldsRaw {
    /// Reads the fields of a layer from a table; other entries are ignored.
    pub fn from_table(t: &Vec<(String, Value)>) -> (r: Result<Self, DecodeError>)
        ensures
            r is Ok <==> toggler_fields_ok(entries_of(t@)),
            r matches Ok(f) ==> toggler_fields_match(f, entries_of(t@)),
            r matches Err(e) ==> toggler_fields_fault(entries_of(t@), e@),
    {
        let background = color_field(t, "background")?;
        let foreground = color_field(t, "foreground")?;
        let background_border_width = number_field(t, "background-border-width")?;
        let background_border_color = color_field(t, "background-border-color")?;
        let foreground_border_width = number_field(t, "foreground-border-width")?;
        let foreground_border_color = color_field(t, "foreground-border-color")?;
        let border_radius = number_field(t, "border-radius")?;
        let text_color = color_field(t, "text-color")?;
        Ok(TogglerFieldsRaw { background, foreground, background_border_width, background_border_color, foreground_border_width, foreground_border_color, border_radius, text_color })
    }
}

pub open spec fn toggler_sub_ok(t: Seq<(Seq<char>, Doc)>, name: Seq<char>) -> bool {
    match opt_table(t, name) {
        Err(_) => false,
        Ok(None) => true,
        Ok(Some(s)) => toggler_fields_ok(s),
    }
}

pub open spec fn toggler_sub_match(o: Option<TogglerFieldsRaw>, t: Seq<(Seq<char>, Doc)>, name: Seq<char>) -> bool {
    match opt_table(t, name) {
        Ok(Some(s)) => o matches Some(f) && toggler_fields_match(f, s),
        _ => o is None,
    }
}

pub open spec fn toggler_sub_fault(t: Seq<(Seq<char>, Doc)>, name: Seq<char>, e: DecodeFault) -> bool {
    ||| opt_table(t, name) == Err::<Option<Seq<(Seq<char>, Doc)>>, DecodeFault>(e)
    ||| opt_table(t, name) matches Ok(Some(s)) && toggler_fields_fault(s, e)
}

fn sub_layer(t: &Vec<(String, Value)>, name: &str) -> (r: Result<Option<TogglerFieldsRaw>, DecodeError>)
    ensures
        r is Ok <==> toggler_sub_ok(entries_of(t@), name@),
        r matches Ok(o) ==> toggler_sub_match(o, entries_of(t@), name@),
        r matches Err(e) ==> toggler_sub_fault(entries_of(t@), name@, e@),
{
    match table_field(t, name)? {
        None => Ok(None),
        Some(s) => Ok(Some(TogglerFieldsRaw::from_table(s)?)),
    }
}

/// A `[toggler]` section: the base layer and the optional state and status layers.
#[derive(Clone, Copy, Debug, PartialEq, Eq)]
pub struct TogglerSection {
    pub base: TogglerFieldsRaw,
    pub toggled: Option<TogglerFieldsRaw>,
    pub hovered: Option<TogglerFieldsRaw>,
    pub disabled: Option<TogglerFieldsRaw>,
    pub hovered_toggled: Option<TogglerFieldsRaw>,
    pub disabled_toggled: Option<TogglerFieldsRaw>,
}

/// The section table `t` fits the schema.
pub open spec fn toggler_section_ok(t: Seq<(Seq<char>, Doc)>) -> bool {
    &&& toggler_fields_ok(t)
    &&& toggler_sub_ok(t, "toggled"@)
    &&& toggler_sub_ok(t, "hovered"@)
    &&& toggler_sub_ok(t, "disabled"@)
    &&& toggler_sub_ok(t, "hovered-toggled"@)
    &&& toggler_sub_ok(t, "disabled-toggled"@)
}

/// `s` holds the layers of the section table `t`.
pub open spec fn toggler_section_match(s: TogglerSection, t: Seq<(Seq<char>, Doc)>) -> bool {
    &&& toggler_fields_match(s.base, t)
    &&& toggler_sub_match(s.toggled, t, "toggled"@)
    &&& toggler_sub_match(s.hovered, t, "hovered"@)
    &&& toggler_sub_match(s.disabled, t, "disabled"@)
    &&& toggler_sub_match(s.hovered_toggled, t, "hovered-toggled"@)
    &&& toggler_sub_match(s.disabled_toggled, t, "disabled-toggled"@)
}

/// `e` is what one of the layers of the section table `t` gives.
pub open spec fn toggler_section_fault(t: Seq<(Seq<char>, Doc)>, e: DecodeFault) -> bool {
    ||| toggler_fields_fault(t, e)
    ||| toggler_sub_fault(t, "toggled"@, e)
    ||| toggler_sub_fault(t, "hovered"@, e)
    ||| toggler_sub_fault(t, "disabled"@, e)
    ||| toggler_sub_fault(t, "hovered-toggled"@, e)
    ||| toggler_sub_fault(t, "disabled-toggled"@, e)
}

impl TogglerSection {
    /// Reads a section: its own fields form the base layer, and each
    /// override layer is a sub-table.
    pub fn from_table(t: &Vec<(String, Value)>) -> (r: Result<Self, DecodeError>)
        ensures
            r is Ok <==> toggler_section_ok(entries_of(t@)),
            r matches Ok(s) ==> toggler_section_match(s, entries_of(t@)),
            r matches Err(e) ==> toggler_section_fault(entries_of(t@), e@),
    {
        let base = TogglerFieldsRaw::from_table(t)?;
        let toggled = sub_layer(t, "toggled")?;
        let hovered = sub_layer(t, "hovered")?;
        let disabled = sub_layer(t, "disabled")?;
        let hovered_toggled = sub_layer(t, "hovered-toggled")?;
        let disabled_toggled = sub_layer(t, "disabled-toggled")?;
        Ok(TogglerSection { base, toggled, hovered, disabled, hovered_toggled, disabled_toggled })
    }
}

/// Visual properties of a toggler, every one resolved.
#[derive(Clone, Copy, Debug, PartialEq, Eq, Structural)]
pub struct TogglerAppearance {
    pub background: HexColor,
    pub foreground: HexColor,
    pub background_border_width: Fixed,
    pub background_border_color: HexColor,
    pub foreground_border_width: Fixed,
    pub foreground_border_color: HexColor,
    /// Unset means the toolkit's own radius.
    pub border_radius: Option<Fixed>,
    pub text_color: Option<HexColor>,
}

/// The toggler defaults: transparent background, black foreground,
/// borders transparent and zero wide, radius and text color inherited.
pub open spec fn toggler_appearance(f: TogglerFieldsRaw) -> TogglerAppearance {
    TogglerAppearance {
        background: match f.background {
            Some(c) => c,
            None => spec_transparent(),
        },
        foreground: match f.foreground {
            Some(c) => c,
            None => spec_black(),
        },
        background_border_width: match f.background_border_width {
            Some(w) => w,
            None => Fixed { milli: 0 },
        },
        background_border_color: match f.background_border_color {
            Some(c) => c,
            None => spec_transparent(),
        },
        foreground_border_width: match f.foreground_border_width {
            Some(w) => w,
            None => Fixed { milli: 0 },
        },
        foreground_border_color: match f.foreground_border_color {
            Some(c) => c,
            None => spec_transparent(),
        },
        border_radius: f.border_radius,
        text_color: f.text_color,
    }
}

fn into_appearance(f: TogglerFieldsRaw) -> (r: TogglerAppearance)
    ensures
        r == toggler_appearance(f),
{
    let zero = Fixed { milli: 0 };
    TogglerAppearance {
        background: value_or(f.background, HexColor::transparent()),
        foreground: value_or(f.foreground, HexColor::black()),
        background_border_width: value_or(f.background_border_width, zero),
        background_border_color: value_or(f.background_border_color, HexColor::transparent()),
        foreground_border_width: value_or(f.foreground_border_width, zero),
        foreground_border_color: value_or(f.foreground_border_color, HexColor::transparent()),
        border_radius: f.border_radius,
        text_color: f.text_color,
    }
}

/// A toggler's appearance for each status, untoggled and toggled.
#[derive(Clone, Copy, Debug, PartialEq, Eq)]
pub struct TogglerStyle {
    active_untoggled: TogglerAppearance,
    active_toggled: TogglerAppearance,
    hovered_untoggled: TogglerAppearance,
    hovered_toggled: TogglerAppearance,
    disabled_untoggled: TogglerAppearance,
    disabled_toggled: TogglerAppearance,
}

impl TogglerStyle {
    pub closed spec fn spec_active_untoggled(&self) -> TogglerAppearance {
        self.active_untoggled
    }

    pub closed spec fn spec_active_toggled(&self) -> TogglerAppearance {
        self.active_toggled
    }

    pub closed spec fn spec_hovered_untoggled(&self) -> TogglerAppearance {
        self.hovered_untoggled
    }

    pub closed spec fn spec_hovered_toggled(&self) -> TogglerAppearance {
        self.hovered_toggled
    }

    pub closed spec fn spec_disabled_untoggled(&self) -> TogglerAppearance {
        self.disabled_untoggled
    }

    pub closed spec fn spec_disabled_toggled(&self) -> TogglerAppearance {
        self.disabled_toggled
    }

}

impl TogglerStyle {
    pub fn active(&self, is_toggled: bool) -> (r: &TogglerAppearance)
        ensures
            *r == if is_toggled {
                self.spec_active_toggled()
            } else {
                self.spec_active_untoggled()
            },
    {
        if is_toggled {
            &self.active_toggled
        } else {
            &self.active_untoggled
        }
    }

    pub fn hovered(&self, is_toggled: bool) -> (r: &TogglerAppearance)
        ensures
            *r == if is_toggled {
                self.spec_hovered_toggled()
            } else {
                self.spec_hovered_untoggled()
            },
    {
        if is_toggled {
            &self.hovered_toggled
        } else {
            &self.hovered_untoggled
        }
    }

    pub fn disabled(&self, is_toggled: bool) -> (r: &TogglerAppearance)
        ensures
            *r == if is_toggled {
                self.spec_disabled_toggled()
            } else {
                self.spec_disabled_untoggled()
            },
    {
        if is_toggled {
            &self.disabled_toggled
        } else {
            &self.disabled_untoggled
        }
    }

}

impl TogglerSection {
    /// Resolves every status in both states. The toggled variant lays, in
    /// order, the `toggled` layer, the status layer and the layer for that
    /// status and state together over the base; the untoggled variant skips
    /// the state layer. Absent layers are skipped.
    /// The style this section resolves to.
    pub closed spec fn styled(self) -> TogglerStyle {
        TogglerStyle {
            active_untoggled: toggler_appearance(self.base),
            active_toggled: toggler_appearance(cascade(self.base, self.toggled, None, None)),
            hovered_untoggled: toggler_appearance(cascade(self.base, None, self.hovered, None)),
            hovered_toggled: toggler_appearance(
                cascade(self.base, self.toggled, self.hovered, self.hovered_toggled),
            ),
            disabled_untoggled: toggler_appearance(cascade(self.base, None, self.disabled, None)),
            disabled_toggled: toggler_appearance(
                cascade(self.base, self.toggled, self.disabled, self.disabled_toggled),
            ),
        }
    }

    pub fn resolve(self) -> (r: TogglerStyle)
        ensures
            r == self.styled(),
            r.spec_active_untoggled() == toggler_appearance(self.base),
            r.spec_active_toggled() == toggler_appearance(cascade(self.base, self.toggled, None, None)),
            r.spec_hovered_untoggled() == toggler_appearance(cascade(self.base, None, self.hovered, None)),
            r.spec_hovered_toggled() == toggler_appearance(
                cascade(self.base, self.toggled, self.hovered, self.hovered_toggled),
            ),
            r.spec_disabled_untoggled() == toggler_appearance(cascade(self.base, None, self.disabled, None)),
            r.spec_disabled_toggled() == toggler_appearance(
                cascade(self.base, self.toggled, self.disabled, self.disabled_toggled),
            ),
    {
        let active_untoggled = into_appearance(self.base);
        let active_toggled = into_appearance(cascade_layers(self.base, self.toggled.as_ref(), None, None));
        let hovered_untoggled = into_appearance(cascade_layers(self.base, None, self.hovered.as_ref(), None));
        let hovered_toggled = into_appearance(
            cascade_layers(self.base, self.toggled.as_ref(), self.hovered.as_ref(), self.hovered_toggled.as_ref()),
        );
        let disabled_untoggled = into_appearance(cascade_layers(self.base, None, self.disabled.as_ref(), None));
        let disabled_toggled = into_appearance(
            cascade_layers(self.base, self.toggled.as_ref(), self.disabled.as_ref(), self.disabled_toggled.as_ref()),
        );
        TogglerStyle { active_untoggled, active_toggled, hovered_untoggled, hovered_toggled, disabled_untoggled, disabled_toggled }
    }
}

/// With no `toggled` layer and no `hovered-toggled` layer, the hovered
/// toggled appearance is the base with the hovered layer alone, and
/// every field still receives its default.
pub proof fn lemma_hovered_toggled_without_state_layers(s: TogglerSection)
    requires
        s.toggled is None,
        s.hovered_toggled is None,
    ensures
        toggler_appearance(cascade(s.base, s.toggled, s.hovered, s.hovered_toggled)) == toggler_appearance(
            layered(s.base, s.hovered),
        ),
{
}

} // verus!
