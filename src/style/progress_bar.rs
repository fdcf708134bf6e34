//! The `[progress-bar]` section: a single base layer, no overrides.
use vstd::prelude::*;

use crate::color::{spec_black, spec_transparent, HexColor};
use crate::decode::{
    background_field,
    background_spec,
    color_field,
    holds_opt_background,
    number_field,
    opt_background,
    opt_color,
    opt_number,
    opt_radius,
    radius_field,
    Background,
    BackgroundForm,
    BackgroundRaw,
    DecodeError,
    DecodeFault,
    RadiusRaw,
};
use crate::style::{
    border_of,
    lemma_pick_associative,
    or_else,
    pick,
    resolve_border,
    value_or,
    Border,
    Layer,
};
use crate::value::{entries_of, Doc, Fixed, Value};

verus! {

/// One layer of progress bar fields; each may be unset.
#[derive(Clone, Copy, Debug, PartialEq, Eq)]
pub struct ProgressBarFieldsRaw {
    pub background: Option<BackgroundRaw>,
    pub bar: Option<HexColor>,
    pub border_width: Option<Fixed>,
    pub border_color: Option<HexColor>,
    pub border_radius: Option<RadiusRaw>,
}

impl Layer for ProgressBarFieldsRaw {
    open spec fn merged(self, over: Self) -> Self {
        ProgressBarFieldsRaw {
            background: pick(over.background, self.background),
            bar: pick(over.bar, self.bar),
            border_width: pick(over.border_width, self.border_width),
            border_color: pick(over.border_color, self.border_color),
            border_radius: pick(over.border_radius, self.border_radius),
        }
    }

    fn merge(self, over: &Self) -> (r: Self) {
        ProgressBarFieldsRaw {
            background: or_else(over.background, self.background),
            bar: or_else(over.bar, self.bar),
            border_width: or_else(over.border_width, self.border_width),
            border_color: or_else(over.border_color, self.border_color),
            border_radius: or_else(over.border_radius, self.border_radius),
        }
    }

    proof fn lemma_merge_associative(a: Self, b: Self, c: Self) {
        lemma_pick_associative(a.background, b.background, c.background);
        lemma_pick_associative(a.bar, b.bar, c.bar);
        lemma_pick_associative(a.border_width, b.border_width, c.border_width);
        lemma_pick_associative(a.border_color, b.border_color, c.border_color);
        lemma_pick_associative(a.border_radius, b.border_radius, c.border_radius);
    }
}

/// Every field of the table has the right kind.
pub open spec fn progress_bar_fields_ok(t: Seq<(Seq<char>, Doc)>) -> bool {
    &&& opt_background(t, "background"@) is Ok
    &&& opt_color(t, "bar"@) is Ok
    &&& opt_number(t, "border-width"@) is Ok
    &&& opt_color(t, "border-color"@) is Ok
    &&& opt_radius(t, "border-radius"@) is Ok
}

/// `f` holds the fields of the table.
pub open spec fn progress_bar_fields_match(f: ProgressBarFieldsRaw, t: Seq<(Seq<char>, Doc)>) -> bool {
    &&& holds_opt_background(f.background, opt_background(t, "background"@)->Ok_0)
    &&& f.bar == opt_color(t, "bar"@)->Ok_0
    &&& f.border_width == opt_number(t, "border-width"@)->Ok_0
    &&& f.border_color == opt_color(t, "border-color"@)->Ok_0
    &&& f.border_radius == opt_radius(t, "border-radius"@)->Ok_0
}

/// `e` is what one of the fields of the table gives.
pub open spec fn progress_bar_fields_fault(t: Seq<(Seq<char>, Doc)>, e: DecodeFault) -> bool {
    ||| opt_background(t, "background"@) == Err::<Option<BackgroundForm>, DecodeFault>(e)
    ||| opt_color(t, "bar"@) == Err::<Option<HexColor>, DecodeFault>(e)
    ||| opt_number(t, "border-width"@) == Err::<Option<Fixed>, DecodeFault>(e)
    ||| opt_color(t, "border-color"@) == Err::<Option<HexColor>, DecodeFault>(e)
    ||| opt_radius(t, "border-radius"@) == Err::<Option<RadiusRaw>, DecodeFault>(e)
}

impl ProgressBarFieldsRaw {
    /// Reads the fields of a layer from a table; other entries are ignored.
    pub fn from_table(t: &Vec<(String, Value)>) -> (r: Result<Self, DecodeError>)
        ensures
            r is Ok <==> progress_bar_fields_ok(entries_of(t@)),
            r matches Ok(f) ==> progress_bar_fields_match(f, entries_of(t@)),
            r matches Err(e) ==> progress_bar_fields_fault(entries_of(t@), e@),
    {
        let background = background_field(t, "background")?;
        let bar = color_field(t, "bar")?;
        let border_width = number_field(t, "border-width")?;
        let border_color = color_field(t, "border-color")?;
        let border_radius = radius_field(t, "border-radius")?;
        Ok(ProgressBarFieldsRaw { background, bar, border_width, border_color, border_radius })
    }
}

/// A `[progress-bar]` section: the base layer only.
#[derive(Clone, Copy, Debug, PartialEq, Eq)]
pub struct ProgressBarSection {
    pub base: ProgressBarFieldsRaw,
}

/// The section table `t` fits the schema.
pub open spec fn progress_bar_section_ok(t: Seq<(Seq<char>, Doc)>) -> bool {
    &&& progress_bar_fields_ok(t)
}

/// `s` holds the layers of the section table `t`.
pub open spec fn progress_bar_section_match(s: ProgressBarSection, t: Seq<(Seq<char>, Doc)>) -> bool {
    &&& progress_bar_fields_match(s.base, t)
}

/// `e` is what one of the layers of the section table `t` gives.
pub open spec fn progress_bar_section_fault(t: Seq<(Seq<char>, Doc)>, e: DecodeFault) -> bool {
    ||| progress_bar_fields_fault(t, e)
}

impl ProgressBarSection {
    /// Reads a section: its own fields form the base layer, and each
    /// override layer is a sub-table.
    pub fn from_table(t: &Vec<(String, Value)>) -> (r: Result<Self, DecodeError>)
        ensures
            r is Ok <==> progress_bar_section_ok(entries_of(t@)),
            r matches Ok(s) ==> progress_bar_section_match(s, entries_of(t@)),
            r matches Err(e) ==> progress_bar_section_fault(entries_of(t@), e@),
    {
        let base = ProgressBarFieldsRaw::from_table(t)?;
        Ok(ProgressBarSection { base })
    }
}

/// Visual properties of a progress bar, every one resolved.
#[derive(Clone, Copy, Debug, PartialEq, Eq)]
pub struct ProgressBarAppearance {
    pub background: Background,
    pub bar: Background,
    pub border: Border,
}

/// The progress bar defaults: a transparent track, a black bar, and the
/// border defaults.
pub open spec fn progress_bar_appearance(f: ProgressBarFieldsRaw) -> ProgressBarAppearance {
    ProgressBarAppearance {
        background: match f.background {
            Some(b) => background_spec(b),
            None => Background::Color(spec_transparent()),
        },
        bar: match f.bar {
            Some(c) => Background::Color(c),
            None => Background::Color(spec_black()),
        },
        border: border_of(f.border_width, f.border_color, f.border_radius),
    }
}

fn into_appearance(f: ProgressBarFieldsRaw) -> (r: ProgressBarAppearance)
    ensures
        r == progress_bar_appearance(f),
{
    ProgressBarAppearance {
        background: match f.background {
            Some(b) => b.into_background(),
            None => Background::Color(HexColor::transparent()),
        },
        bar: Background::Color(value_or(f.bar, HexColor::black())),
        border: resolve_border(f.border_width, f.border_color, f.border_radius),
    }
}

/// A progress bar's single appearance.
#[derive(Clone, Copy, Debug, PartialEq, Eq)]
pub struct ProgressBarStyle(ProgressBarAppearance);

impl ProgressBarStyle {
    pub closed spec fn spec_appearance(&self) -> ProgressBarAppearance {
        self.0
    }

    pub fn appearance(&self) -> (r: &ProgressBarAppearance)
        ensures
            *r == self.spec_appearance(),
    {
        &self.0
    }
}

impl ProgressBarSection {
    /// The base layer with the defaults filled in.
    /// The style this section resolves to.
    pub closed spec fn styled(self) -> ProgressBarStyle {
        ProgressBarStyle(progress_bar_appearance(self.base))
    }

    pub fn resolve(self) -> (r: ProgressBarStyle)
        ensures
            r == self.styled(),
            r.spec_appearance() == progress_bar_appearance(self.base),
    {
        ProgressBarStyle(into_appearance(self.base))
    }
}

} // verus!
