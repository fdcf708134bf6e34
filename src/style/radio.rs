//! The `[radio]` section: a base layer, a `selected` state layer,
//! `hovered` and `disabled` status layers, and `hovered-selected` and
//! `disabled-selected` layers for a status and the state together.
use vstd::prelude::*;

use crate::color::{spec_black, spec_transparent, HexColor};
use crate::decode::{
    color_field,
    number_field,
    opt_color,
    opt_number,
    opt_table,
    table_field,
    DecodeError,
    DecodeFault,
};
use crate::style::{
    cascade,
    cascade_layers,
    layered,
    lemma_pick_associative,
    or_else,
    pick,
    value_or,
    Layer,
};
use crate::value::{entries_of, Doc, Fixed, Value};

verus! {

/// One layer of radio fields; each may be unset.
#[derive(Clone, Copy, Debug, PartialEq, Eq)]
pub struct RadioFieldsRaw {
    pub background: Option<HexColor>,
    pub dot_color: Option<HexColor>,
    pub border_width: Option<Fixed>,
    pub border_color: Option<HexColor>,
    pub text_color: Option<HexColor>,
}

impl Layer for RadioFieldsRaw {
    open spec fn merged(self, over: Self) -> Self {
        RadioFieldsRaw {
            background: pick(over.background, self.background),
            dot_color: pick(over.dot_color, self.dot_color),
            border_width: pick(over.border_width, self.border_width),
            border_color: pick(over.border_color, self.border_color),
            text_color: pick(over.text_color, self.text_color),
        }
    }

    fn merge(self, over: &Self) -> (r: Self) {
        RadioFieldsRaw {
            background: or_else(over.background, self.background),
            dot_color: or_else(over.dot_color, self.dot_color),
            border_width: or_else(over.border_width, self.border_width),
            border_color: or_else(over.border_color, self.border_color),
            text_color: or_else(over.text_color, self.text_color),
        }
    }

    proof fn lemma_merge_associative(a: Self, b: Self, c: Self) {
        lemma_pick_associative(a.background, b.background, c.background);
        lemma_pick_associative(a.dot_color, b.dot_color, c.dot_color);
        lemma_pick_associative(a.border_width, b.border_width, c.border_width);
        lemma_pick_associative(a.border_color, b.border_color, c.border_color);
        lemma_pick_associative(a.text_color, b.text_color, c.text_color);
    }
}

/// Every field of the table has the right kind.
pub open spec fn radio_fields_ok(t: Seq<(Seq<char>, Doc)>) -> bool {
    &&& opt_color(t, "background"@) is Ok
    &&& opt_color(t, "dot-color"@) is Ok
    &&& opt_number(t, "border-width"@) is Ok
    &&& opt_color(t, "border-color"@) is Ok
    &&& opt_color(t, "text-color"@) is Ok
}

/// `f` holds the fields of the table.
pub open spec fn radio_fields_match(f: RadioFieldsRaw, t: Seq<(Seq<char>, Doc)>) -> bool {
    &&& f.background == opt_color(t, "background"@)->Ok_0
    &&& f.dot_color == opt_color(t, "dot-color"@)->Ok_0
    &&& f.border_width == opt_number(t, "border-width"@)->Ok_0
    &&& f.border_color == opt_color(t, "border-color"@)->Ok_0
    &&& f.text_color == opt_color(t, "text-color"@)->Ok_0
}

/// `e` is what one of the fields of the table gives.
pub open spec fn radio_fields_fault(t: Seq<(Seq<char>, Doc)>, e: DecodeFault) -> bool {
    ||| opt_color(t, "background"@) == Err::<Option<HexColor>, DecodeFault>(e)
    ||| opt_color(t, "dot-color"@) == Err::<Option<HexColor>, DecodeFault>(e)
    ||| opt_number(t, "border-width"@) == Err::<Option<Fixed>, DecodeFault>(e)
    ||| opt_color(t, "border-color"@) == Err::<Option<HexColor>, DecodeFault>(e)
    ||| opt_color(t, "text-color"@) == Err::<Option<HexColor>, DecodeFault>(e)
}

impl RadioFieldsRaw {
    /// Reads the fields of a layer from a table; other entries are ignored.
    pub fn from_table(t: &Vec<(String, Value)>) -> (r: Result<Self, DecodeError>)
        ensures
            r is Ok <==> radio_fields_ok(entries_of(t@)),
            r matches Ok(f) ==> radio_fields_match(f, entries_of(t@)),
            r matches Err(e) ==> radio_fields_fault(entries_of(t@), e@),
    {
        let background = color_field(t, "background")?;
        let dot_color = color_field(t, "dot-color")?;
        let border_width = number_field(t, "border-width")?;
        let border_color = color_field(t, "border-color")?;
        let text_color = color_field(t, "text-color")?;
        Ok(RadioFieldsRaw { background, dot_color, border_width, border_color, text_color })
    }
}

pub open spec fn radio_sub_ok(t: Seq<(Seq<char>, Doc)>, name: Seq<char>) -> bool {
    match opt_table(t, name) {
        Err(_) => false,
        Ok(None) => true,
        Ok(Some(s)) => radio_fields_ok(s),
    }
}

pub open spec fn radio_sub_match(o: Option<RadioFieldsRaw>, t: Seq<(Seq<char>, Doc)>, name: Seq<char>) -> bool {
    match opt_table(t, name) {
        Ok(Some(s)) => o matches Some(f) && radio_fields_match(f, s),
        _ => o is None,
    }
}

pub open spec fn radio_sub_fault(t: Seq<(Seq<char>, Doc)>, name: Seq<char>, e: DecodeFault) -> bool {
    ||| opt_table(t, name) == Err::<Option<Seq<(Seq<char>, Doc)>>, DecodeFault>(e)
    ||| opt_table(t, name) matches Ok(Some(s)) && radio_fields_fault(s, e)
}

fn sub_layer(t: &Vec<(String, Value)>, name: &str) -> (r: Result<Option<RadioFieldsRaw>, DecodeError>)
    ensures
        r is Ok <==> radio_sub_ok(entries_of(t@), name@),
        r matches Ok(o) ==> radio_sub_match(o, entries_of(t@), name@),
        r matches Err(e) ==> radio_sub_fault(entries_of(t@), name@, e@),
{
    match table_field(t, name)? {
        None => Ok(None),
        Some(s) => Ok(Some(RadioFieldsRaw::from_table(s)?)),
    }
}

/// A `[radio]` section: the base layer and the optional state and status layers.
#[derive(Clone, Copy, Debug, PartialEq, Eq)]
pub struct RadioSection {
    pub base: RadioFieldsRaw,
    pub selected: Option<RadioFieldsRaw>,
    pub hovered: Option<RadioFieldsRaw>,
    pub disabled: Option<RadioFieldsRaw>,
    pub hovered_selected: Option<RadioFieldsRaw>,
    pub disabled_selected: Option<RadioFieldsRaw>,
}

/// The section table `t` fits the schema.
pub open spec fn radio_section_ok(t: Seq<(Seq<char>, Doc)>) -> bool {
    &&& radio_fields_ok(t)
    &&& radio_sub_ok(t, "selected"@)
    &&& radio_sub_ok(t, "hovered"@)
    &&& radio_sub_ok(t, "disabled"@)
    &&& radio_sub_ok(t, "hovered-selected"@)
    &&& radio_sub_ok(t, "disabled-selected"@)
}

/// `s` holds the layers of the section table `t`.
pub open spec fn radio_section_match(s: RadioSection, t: Seq<(Seq<char>, Doc)>) -> bool {
    &&& radio_fields_match(s.base, t)
    &&& radio_sub_match(s.selected, t, "selected"@)
    &&& radio_sub_match(s.hovered, t, "hovered"@)
    &&& radio_sub_match(s.disabled, t, "disabled"@)
    &&& radio_sub_match(s.hovered_selected, t, "hovered-selected"@)
    &&& radio_sub_match(s.disabled_selected, t, "disabled-selected"@)
}

/// `e` is what one of the layers of the section table `t` gives.
pub open spec fn radio_section_fault(t: Seq<(Seq<char>, Doc)>, e: DecodeFault) -> bool {
    ||| radio_fields_fault(t, e)
    ||| radio_sub_fault(t, "selected"@, e)
    ||| radio_sub_fault(t, "hovered"@, e)
    ||| radio_sub_fault(t, "disabled"@, e)
    ||| radio_sub_fault(t, "hovered-selected"@, e)
    ||| radio_sub_fault(t, "disabled-selected"@, e)
}

impl RadioSection {
    /// Reads a section: its own fields form the base layer, and each
    /// override layer is a sub-table.
    pub fn from_table(t: &Vec<(String, Value)>) -> (r: Result<Self, DecodeError>)
        ensures
            r is Ok <==> radio_section_ok(entries_of(t@)),
            r matches Ok(s) ==> radio_section_match(s, entries_of(t@)),
            r matches Err(e) ==> radio_section_fault(entries_of(t@), e@),
    {
        let base = RadioFieldsRaw::from_table(t)?;
        let selected = sub_layer(t, "selected")?;
        let hovered = sub_layer(t, "hovered")?;
        let disabled = sub_layer(t, "disabled")?;
        let hovered_selected = sub_layer(t, "hovered-selected")?;
        let disabled_selected = sub_layer(t, "disabled-selected")?;
        Ok(RadioSection { base, selected, hovered, disabled, hovered_selected, disabled_selected })
    }
}

/// Visual properties of a radio option, every one resolved.
#[derive(Clone, Copy, Debug, PartialEq, Eq, Structural)]
pub struct RadioAppearance {
    pub background: HexColor,
    pub dot_color: HexColor,
    pub border_width: Fixed,
    pub border_color: HexColor,
    pub text_color: Option<HexColor>,
}

/// The radio defaults: transparent background, black dot, a black border
/// one unit wide, and inherited text color.
pub open spec fn radio_appearance(f: RadioFieldsRaw) -> RadioAppearance {
    RadioAppearance {
        background: match f.background {
            Some(c) => c,
            None => spec_transparent(),
        },
        dot_color: match f.dot_color {
            Some(c) => c,
            None => spec_black(),
        },
        border_width: match f.border_width {
            Some(w) => w,
            None => Fixed { milli: 1000 },
        },
        border_color: match f.border_color {
            Some(c) => c,
            None => spec_black(),
        },
        text_color: f.text_color,
    }
}

fn into_appearance(f: RadioFieldsRaw) -> (r: RadioAppearance)
    ensures
        r == radio_appearance(f),
{
    RadioAppearance {
        background: value_or(f.background, HexColor::transparent()),
        dot_color: value_or(f.dot_color, HexColor::black()),
        border_width: value_or(f.border_width, Fixed { milli: 1000 }),
        border_color: value_or(f.border_color, HexColor::black()),
        text_color: f.text_color,
    }
}

/// A radio's appearance for each status, unselected and selected.
#[derive(Clone, Copy, Debug, PartialEq, Eq)]
pub struct RadioStyle {
    active_unselected: RadioAppearance,
    active_selected: RadioAppearance,
    hovered_unselected: RadioAppearance,
    hovered_selected: RadioAppearance,
    disabled_unselected: RadioAppearance,
    disabled_selected: RadioAppearance,
}

impl RadioStyle {
    pub closed spec fn spec_active_unselected(&self) -> RadioAppearance {
        self.active_unselected
    }

    pub closed spec fn spec_active_selected(&self) -> RadioAppearance {
        self.active_selected
    }

    pub closed spec fn spec_hovered_unselected(&self) -> RadioAppearance {
        self.hovered_unselected
    }

    pub closed spec fn spec_hovered_selected(&self) -> RadioAppearance {
        self.hovered_selected
    }

    pub closed spec fn spec_disabled_unselected(&self) -> RadioAppearance {
        self.disabled_unselected
    }

    pub closed spec fn spec_disabled_selected(&self) -> RadioAppearance {
        self.disabled_selected
    }

}

impl RadioStyle {
    pub fn active(&self, is_selected: bool) -> (r: &RadioAppearance)
        ensures
            *r == if is_selected {
                self.spec_active_selected()
            } else {
                self.spec_active_unselected()
            },
    {
        if is_selected {
            &self.active_selected
        } else {
            &self.active_unselected
        }
    }

    pub fn hovered(&self, is_selected: bool) -> (r: &RadioAppearance)
        ensures
            *r == if is_selected {
                self.spec_hovered_selected()
            } else {
                self.spec_hovered_unselected()
            },
    {
        if is_selected {
            &self.hovered_selected
        } else {
            &self.hovered_unselected
        }
    }

    pub fn disabled(&self, is_selected: bool) -> (r: &RadioAppearance)
        ensures
            *r == if is_selected {
                self.spec_disabled_selected()
            } else {
                self.spec_disabled_unselected()
            },
    {
        if is_selected {
            &self.disabled_selected
        } else {
            &self.disabled_unselected
        }
    }

}

impl RadioSection {
    /// Resolves every status in both states. The selected variant lays, in
    /// order, the `selected` layer, the status layer and the layer for that
    /// status and state together over the base; the unselected variant skips
    /// the state layer. Absent layers are skipped.
    /// The style this section resolves to.
    pub closed spec fn styled(self) -> RadioStyle {
        RadioStyle {
            active_unselected: radio_appearance(self.base),
            active_selected: radio_appearance(cascade(self.base, self.selected, None, None)),
            hovered_unselected: radio_appearance(cascade(self.base, None, self.hovered, None)),
            hovered_selected: radio_appearance(
                cascade(self.base, self.selected, self.hovered, self.hovered_selected),
            ),
            disabled_unselected: radio_appearance(cascade(self.base, None, self.disabled, None)),
            disabled_selected: radio_appearance(
                cascade(self.base, self.selected, self.disabled, self.disabled_selected),
            ),
        }
    }

    pub fn resolve(self) -> (r: RadioStyle)
        ensures
            r == self.styled(),
            r.spec_active_unselected() == radio_appearance(self.base),
            r.spec_active_selected() == radio_appearance(cascade(self.base, self.selected, None, None)),
            r.spec_hovered_unselected() == radio_appearance(cascade(self.base, None, self.hovered, None)),
            r.spec_hovered_selected() == radio_appearance(
                cascade(self.base, self.selected, self.hovered, self.hovered_selected),
            ),
            r.spec_disabled_unselected() == radio_appearance(cascade(self.base, None, self.disabled, None)),
            r.spec_disabled_selected() == radio_appearance(
                cascade(self.base, self.selected, self.disabled, self.disabled_selected),
            ),
    {
        let active_unselected = into_appearance(self.base);
        let active_selected = into_appearance(cascade_layers(self.base, self.selected.as_ref(), None, None));
        let hovered_unselected = into_appearance(cascade_layers(self.base, None, self.hovered.as_ref(), None));
        let hovered_selected = into_appearance(
            cascade_layers(self.base, self.selected.as_ref(), self.hovered.as_ref(), self.hovered_selected.as_ref()),
        );
        let disabled_unselected = into_appearance(cascade_layers(self.base, None, self.disabled.as_ref(), None));
        let disabled_selected = into_appearance(
            cascade_layers(self.base, self.selected.as_ref(), self.disabled.as_ref(), self.disabled_selected.as_ref()),
        );
        RadioStyle { active_unselected, active_selected, hovered_unselected, hovered_selected, disabled_unselected, disabled_selected }
    }
}

/// With no `selected` layer and no `hovered-selected` layer, the hovered
/// selected appearance is the base with the hovered layer alone, and
/// every field still receives its default.
pub proof fn lemma_hovered_selected_without_state_layers(s: RadioSection)
    requires
        s.selected is None,
        s.hovered_selected is None,
    ensures
        radio_appearance(cascade(s.base, s.selected, s.hovered, s.hovered_selected)) == radio_appearance(
            layered(s.base, s.hovered),
        ),
{
}

} // verus!
