//! Theme assembly: the name, the palette, the font and every widget section
//! of a document, resolved into a `ThemeConfig`.
use vstd::prelude::*;

use crate::color::HexColor;
use crate::decode::{
    color_doc, color_value, entry, lookup_entry, opt_table, table_field, DecodeError, DecodeFault,
    Expected,
};
use crate::style::button::{button_section_fault, button_section_match, button_section_ok, ButtonSection, ButtonStyle};
use crate::style::container::{container_section_fault, container_section_match, container_section_ok, ContainerSection, ContainerStyle};
use crate::style::text_input::{text_input_section_fault, text_input_section_match, text_input_section_ok, TextInputSection, TextInputStyle};
use crate::style::checkbox::{checkbox_section_fault, checkbox_section_match, checkbox_section_ok, CheckboxSection, CheckboxStyle};
use crate::style::toggler::{toggler_section_fault, toggler_section_match, toggler_section_ok, TogglerSection, TogglerStyle};
use crate::style::slider::{slider_section_fault, slider_section_match, slider_section_ok, SliderSection, SliderStyle};
use crate::style::progress_bar::{progress_bar_section_fault, progress_bar_section_match, progress_bar_section_ok, ProgressBarSection, ProgressBarStyle};
use crate::style::radio::{radio_section_fault, radio_section_match, radio_section_ok, RadioSection, RadioStyle};
use crate::decode::decode_fault_text;
use crate::text::{append_str, chars_equal, chars_of};
use crate::variables::resolve_fault_text;
use crate::value::{entries_of, Doc, Value};
use crate::variables::{resolve, resolved, ResolveError, ResolveFault};

verus! {

/// The six semantic colors of a theme.
#[derive(Clone, Copy, Debug, PartialEq, Eq, Structural)]
pub struct Palette {
    pub background: HexColor,
    pub text: HexColor,
    pub primary: HexColor,
    pub success: HexColor,
    pub warning: HexColor,
    pub danger: HexColor,
}

/// A font family: a generic family or a family name.
#[derive(Clone, Debug, PartialEq, Eq)]
pub enum FontFamily {
    SansSerif,
    Serif,
    Monospace,
    Cursive,
    Fantasy,
    Name(String),
}

#[derive(Clone, Copy, Debug, PartialEq, Eq, Structural)]
pub enum FontWeight {
    Thin,
    ExtraLight,
    Light,
    Normal,
    Medium,
    Semibold,
    Bold,
    ExtraBold,
    Black,
}

#[derive(Clone, Copy, Debug, PartialEq, Eq, Structural)]
pub enum FontStyle {
    Normal,
    Italic,
    Oblique,
}

#[derive(Clone, Copy, Debug, PartialEq, Eq, Structural)]
pub enum FontStretch {
    UltraCondensed,
    ExtraCondensed,
    Condensed,
    SemiCondensed,
    Normal,
    SemiExpanded,
    Expanded,
    ExtraExpanded,
    UltraExpanded,
}

/// A font descriptor.
#[derive(Clone, Debug, PartialEq, Eq)]
pub struct Font {
    pub family: FontFamily,
    pub weight: FontWeight,
    pub style: FontStyle,
    pub stretch: FontStretch,
}

/// An optional text field.
pub open spec fn opt_text(t: Seq<(Seq<char>, Doc)>, name: Seq<char>) -> Result<
    Option<Seq<char>>,
    DecodeFault,
> {
    match entry(t, name) {
        None => Ok(None),
        Some(Doc::Str(s)) => Ok(Some(s)),
        Some(_) => Err(DecodeFault::WrongType(name, Expected::Text)),
    }
}

fn text_field(t: &Vec<(String, Value)>, name: &str) -> (r: Result<Option<String>, DecodeError>)
    ensures
        match r {
            Ok(Some(s)) => opt_text(entries_of(t@), name@) == Ok::<Option<Seq<char>>, DecodeFault>(
                Some(s@),
            ),
            Ok(None) => opt_text(entries_of(t@), name@) == Ok::<Option<Seq<char>>, DecodeFault>(
                None,
            ),
            Err(e) => opt_text(entries_of(t@), name@) == Err::<Option<Seq<char>>, DecodeFault>(e@),
        },
{
    match lookup_entry(t, name) {
        None => Ok(None),
        Some(Value::String(s)) => Ok(Some(s.clone())),
        Some(_) => Err(DecodeError::WrongType { field: name.to_owned(), expected: Expected::Text }),
    }
}

pub open spec fn weight_named(s: Seq<char>) -> Option<FontWeight> {
    if s == "thin"@ {
        Some(FontWeight::Thin)
    } else if s == "extra-light"@ {
        Some(FontWeight::ExtraLight)
    } else if s == "light"@ {
        Some(FontWeight::Light)
    } else if s == "normal"@ {
        Some(FontWeight::Normal)
    } else if s == "medium"@ {
        Some(FontWeight::Medium)
    } else if s == "semibold"@ {
        Some(FontWeight::Semibold)
    } else if s == "bold"@ {
        Some(FontWeight::Bold)
    } else if s == "extra-bold"@ {
        Some(FontWeight::ExtraBold)
    } else if s == "black"@ {
        Some(FontWeight::Black)
    } else {
        None
    }
}

pub open spec fn style_named(s: Seq<char>) -> Option<FontStyle> {
    if s == "normal"@ {
        Some(FontStyle::Normal)
    } else if s == "italic"@ {
        Some(FontStyle::Italic)
    } else if s == "oblique"@ {
        Some(FontStyle::Oblique)
    } else {
        None
    }
}

pub open spec fn stretch_named(s: Seq<char>) -> Option<FontStretch> {
    if s == "ultra-condensed"@ {
        Some(FontStretch::UltraCondensed)
    } else if s == "extra-condensed"@ {
        Some(FontStretch::ExtraCondensed)
    } else if s == "condensed"@ {
        Some(FontStretch::Condensed)
    } else if s == "semi-condensed"@ {
        Some(FontStretch::SemiCondensed)
    } else if s == "normal"@ {
        Some(FontStretch::Normal)
    } else if s == "semi-expanded"@ {
        Some(FontStretch::SemiExpanded)
    } else if s == "expanded"@ {
        Some(FontStretch::Expanded)
    } else if s == "extra-expanded"@ {
        Some(FontStretch::ExtraExpanded)
    } else if s == "ultra-expanded"@ {
        Some(FontStretch::UltraExpanded)
    } else {
        None
    }
}

fn is(cs: &[char], word: &str) -> (r: bool)
    ensures
        r == (cs@ == word@),
{
    let w = chars_of(word);
    chars_equal(cs, &w)
}

fn weight_from(s: &[char]) -> (r: Option<FontWeight>)
    ensures
        r == weight_named(s@),
{
    if is(s, "thin") {
        Some(FontWeight::Thin)
    } else if is(s, "extra-light") {
        Some(FontWeight::ExtraLight)
    } else if is(s, "light") {
        Some(FontWeight::Light)
    } else if is(s, "normal") {
        Some(FontWeight::Normal)
    } else if is(s, "medium") {
        Some(FontWeight::Medium)
    } else if is(s, "semibold") {
        Some(FontWeight::Semibold)
    } else if is(s, "bold") {
        Some(FontWeight::Bold)
    } else if is(s, "extra-bold") {
        Some(FontWeight::ExtraBold)
    } else if is(s, "black") {
        Some(FontWeight::Black)
    } else {
        None
    }
}

fn style_from(s: &[char]) -> (r: Option<FontStyle>)
    ensures
        r == style_named(s@),
{
    if is(s, "normal") {
        Some(FontStyle::Normal)
    } else if is(s, "italic") {
        Some(FontStyle::Italic)
    } else if is(s, "oblique") {
        Some(FontStyle::Oblique)
    } else {
        None
    }
}

fn stretch_from(s: &[char]) -> (r: Option<FontStretch>)
    ensures
        r == stretch_named(s@),
{
    if is(s, "ultra-condensed") {
        Some(FontStretch::UltraCondensed)
    } else if is(s, "extra-condensed") {
        Some(FontStretch::ExtraCondensed)
    } else if is(s, "condensed") {
        Some(FontStretch::Condensed)
    } else if is(s, "semi-condensed") {
        Some(FontStretch::SemiCondensed)
    } else if is(s, "normal") {
        Some(FontStretch::Normal)
    } else if is(s, "semi-expanded") {
        Some(FontStretch::SemiExpanded)
    } else if is(s, "expanded") {
        Some(FontStretch::Expanded)
    } else if is(s, "extra-expanded") {
        Some(FontStretch::ExtraExpanded)
    } else if is(s, "ultra-expanded") {
        Some(FontStretch::UltraExpanded)
    } else {
        None
    }
}

/// A named choice: absent, or text naming one of the choices.
pub open spec fn opt_choice<T>(
    t: Seq<(Seq<char>, Doc)>,
    name: Seq<char>,
    named: Option<Option<T>>,
) -> Result<Option<T>, DecodeFault> {
    match opt_text(t, name) {
        Err(e) => Err(e),
        Ok(None) => Ok(None),
        Ok(Some(s)) => match named {
            Some(Some(v)) => Ok(Some(v)),
            _ => Err(DecodeFault::UnknownName(name, s)),
        },
    }
}

pub open spec fn opt_weight(t: Seq<(Seq<char>, Doc)>) -> Result<Option<FontWeight>, DecodeFault> {
    opt_choice(
        t,
        "weight"@,
        match opt_text(t, "weight"@) {
            Ok(Some(s)) => Some(weight_named(s)),
            _ => None,
        },
    )
}

pub open spec fn opt_style(t: Seq<(Seq<char>, Doc)>) -> Result<Option<FontStyle>, DecodeFault> {
    opt_choice(
        t,
        "style"@,
        match opt_text(t, "style"@) {
            Ok(Some(s)) => Some(style_named(s)),
            _ => None,
        },
    )
}

pub open spec fn opt_stretch(t: Seq<(Seq<char>, Doc)>) -> Result<Option<FontStretch>, DecodeFault> {
    opt_choice(
        t,
        "stretch"@,
        match opt_text(t, "stretch"@) {
            Ok(Some(s)) => Some(stretch_named(s)),
            _ => None,
        },
    )
}

/// The family a name stands for: a generic family, or the name itself;
/// no name means sans-serif.
pub open spec fn family_holds(f: FontFamily, name: Option<Seq<char>>) -> bool {
    match name {
        None => f == FontFamily::SansSerif,
        Some(n) => if n == "sans-serif"@ {
            f == FontFamily::SansSerif
        } else if n == "serif"@ {
            f == FontFamily::Serif
        } else if n == "monospace"@ {
            f == FontFamily::Monospace
        } else if n == "cursive"@ {
            f == FontFamily::Cursive
        } else if n == "fantasy"@ {
            f == FontFamily::Fantasy
        } else {
            f matches FontFamily::Name(s) && s@ == n
        },
    }
}

/// The `[font]` table fits the schema.
pub open spec fn font_ok(t: Seq<(Seq<char>, Doc)>) -> bool {
    &&& opt_text(t, "family"@) is Ok
    &&& opt_weight(t) is Ok
    &&& opt_style(t) is Ok
    &&& opt_stretch(t) is Ok
}

/// `f` is the font the `[font]` table describes, with normal weight, style
/// and stretch where they are not given.
pub open spec fn font_holds(f: Font, t: Seq<(Seq<char>, Doc)>) -> bool {
    &&& family_holds(f.family, opt_text(t, "family"@)->Ok_0)
    &&& f.weight == match opt_weight(t)->Ok_0 {
        Some(w) => w,
        None => FontWeight::Normal,
    }
    &&& f.style == match opt_style(t)->Ok_0 {
        Some(s) => s,
        None => FontStyle::Normal,
    }
    &&& f.stretch == match opt_stretch(t)->Ok_0 {
        Some(s) => s,
        None => FontStretch::Normal,
    }
}

pub open spec fn font_fault(t: Seq<(Seq<char>, Doc)>, e: DecodeFault) -> bool {
    ||| opt_text(t, "family"@) == Err::<Option<Seq<char>>, DecodeFault>(e)
    ||| opt_weight(t) == Err::<Option<FontWeight>, DecodeFault>(e)
    ||| opt_style(t) == Err::<Option<FontStyle>, DecodeFault>(e)
    ||| opt_stretch(t) == Err::<Option<FontStretch>, DecodeFault>(e)
}

fn family_of(name: Option<String>) -> (r: FontFamily)
    ensures
        family_holds(r, match name {
            Some(n) => Some(n@),
            None => None,
        }),
{
    match name {
        None => FontFamily::SansSerif,
        Some(n) => {
            let cs = chars_of(n.as_str());
            if is(&cs, "sans-serif") {
                FontFamily::SansSerif
            } else if is(&cs, "serif") {
                FontFamily::Serif
            } else if is(&cs, "monospace") {
                FontFamily::Monospace
            } else if is(&cs, "cursive") {
                FontFamily::Cursive
            } else if is(&cs, "fantasy") {
                FontFamily::Fantasy
            } else {
                FontFamily::Name(n)
            }
        },
    }
}

fn choice_text(t: &Vec<(String, Value)>, name: &str) -> (r: Result<Option<Vec<char>>, DecodeError>)
    ensures
        match r {
            Ok(Some(s)) => opt_text(entries_of(t@), name@) == Ok::<Option<Seq<char>>, DecodeFault>(
                Some(s@),
            ),
            Ok(None) => opt_text(entries_of(t@), name@) == Ok::<Option<Seq<char>>, DecodeFault>(
                None,
            ),
            Err(e) => opt_text(entries_of(t@), name@) == Err::<Option<Seq<char>>, DecodeFault>(e@),
        },
{
    match text_field(t, name)? {
        None => Ok(None),
        Some(s) => Ok(Some(chars_of(s.as_str()))),
    }
}

/// Reads a `[font]` table into a font descriptor.
pub fn build_font(t: &Vec<(String, Value)>) -> (r: Result<Font, DecodeError>)
    ensures
        r is Ok <==> font_ok(entries_of(t@)),
        r matches Ok(f) ==> font_holds(f, entries_of(t@)),
        r matches Err(e) ==> font_fault(entries_of(t@), e@),
{
    let family = text_field(t, "family")?;
    let weight = match choice_text(t, "weight")? {
        None => FontWeight::Normal,
        Some(s) => match weight_from(&s) {
            Some(w) => w,
            None => return Err(
                DecodeError::UnknownName { field: "weight".to_owned(), value: crate::text::string_of(&s) },
            ),
        },
    };
    let style = match choice_text(t, "style")? {
        None => FontStyle::Normal,
        Some(s) => match style_from(&s) {
            Some(v) => v,
            None => return Err(
                DecodeError::UnknownName { field: "style".to_owned(), value: crate::text::string_of(&s) },
            ),
        },
    };
    let stretch = match choice_text(t, "stretch")? {
        None => FontStretch::Normal,
        Some(s) => match stretch_from(&s) {
            Some(v) => v,
            None => return Err(
                DecodeError::UnknownName { field: "stretch".to_owned(), value: crate::text::string_of(&s) },
            ),
        },
    };
    Ok(Font { family: family_of(family), weight, style, stretch })
}

pub open spec fn required_color(t: Seq<(Seq<char>, Doc)>, name: Seq<char>) -> Result<
    HexColor,
    DecodeFault,
> {
    match entry(t, name) {
        None => Err(DecodeFault::Missing(name)),
        Some(d) => color_doc(name, d),
    }
}

fn required_color_field(t: &Vec<(String, Value)>, name: &str) -> (r: Result<HexColor, DecodeError>)
    ensures
        crate::decode::fault_of(r) == required_color(entries_of(t@), name@),
{
    match lookup_entry(t, name) {
        None => Err(DecodeError::Missing { field: name.to_owned() }),
        Some(v) => color_value(name, v),
    }
}

/// The palette table: all six colors are required.
pub open spec fn palette_ok(t: Seq<(Seq<char>, Doc)>) -> bool {
    &&& required_color(t, "background"@) is Ok
    &&& required_color(t, "text"@) is Ok
    &&& required_color(t, "primary"@) is Ok
    &&& required_color(t, "success"@) is Ok
    &&& required_color(t, "warning"@) is Ok
    &&& required_color(t, "danger"@) is Ok
}

pub open spec fn palette_of(t: Seq<(Seq<char>, Doc)>) -> Palette {
    Palette {
        background: required_color(t, "background"@)->Ok_0,
        text: required_color(t, "text"@)->Ok_0,
        primary: required_color(t, "primary"@)->Ok_0,
        success: required_color(t, "success"@)->Ok_0,
        warning: required_color(t, "warning"@)->Ok_0,
        danger: required_color(t, "danger"@)->Ok_0,
    }
}

pub open spec fn palette_fault(t: Seq<(Seq<char>, Doc)>, e: DecodeFault) -> bool {
    ||| required_color(t, "background"@) == Err::<HexColor, DecodeFault>(e)
    ||| required_color(t, "text"@) == Err::<HexColor, DecodeFault>(e)
    ||| required_color(t, "primary"@) == Err::<HexColor, DecodeFault>(e)
    ||| required_color(t, "success"@) == Err::<HexColor, DecodeFault>(e)
    ||| required_color(t, "warning"@) == Err::<HexColor, DecodeFault>(e)
    ||| required_color(t, "danger"@) == Err::<HexColor, DecodeFault>(e)
}

fn palette_from(t: &Vec<(String, Value)>) -> (r: Result<Palette, DecodeError>)
    ensures
        r is Ok <==> palette_ok(entries_of(t@)),
        r matches Ok(p) ==> p == palette_of(entries_of(t@)),
        r matches Err(e) ==> palette_fault(entries_of(t@), e@),
{
    let background = required_color_field(t, "background")?;
    let text = required_color_field(t, "text")?;
    let primary = required_color_field(t, "primary")?;
    let success = required_color_field(t, "success")?;
    let warning = required_color_field(t, "warning")?;
    let danger = required_color_field(t, "danger")?;
    Ok(Palette { background, text, primary, success, warning, danger })
}

/// The `[button]` section, when present, fits the schema.
pub open spec fn button_present_ok(t: Seq<(Seq<char>, Doc)>) -> bool {
    match opt_table(t, "button"@) {
        Err(_) => false,
        Ok(None) => true,
        Ok(Some(s)) => button_section_ok(s),
    }
}

/// `o` is the resolved style of the `[button]` section, or nothing when the
/// section is absent.
pub open spec fn button_present_holds(o: Option<ButtonStyle>, t: Seq<(Seq<char>, Doc)>) -> bool {
    match opt_table(t, "button"@) {
        Ok(Some(s)) => o matches Some(st) && exists|sec: ButtonSection| button_section_match(sec, s) && st == sec.styled(),
        _ => o is None,
    }
}

pub open spec fn button_present_fault(t: Seq<(Seq<char>, Doc)>, e: DecodeFault) -> bool {
    ||| opt_table(t, "button"@) == Err::<Option<Seq<(Seq<char>, Doc)>>, DecodeFault>(e)
    ||| opt_table(t, "button"@) matches Ok(Some(s)) && button_section_fault(s, e)
}

fn button_of(t: &Vec<(String, Value)>) -> (r: Result<Option<ButtonStyle>, DecodeError>)
    ensures
        r is Ok <==> button_present_ok(entries_of(t@)),
        r matches Ok(o) ==> button_present_holds(o, entries_of(t@)),
        r matches Err(e) ==> button_present_fault(entries_of(t@), e@),
{
    match table_field(t, "button")? {
        None => Ok(None),
        Some(s) => {
            let sec = ButtonSection::from_table(s)?;
            let st = sec.resolve();
            proof {
                assert(button_section_match(sec, entries_of(s@)) && st == sec.styled());
            }
            Ok(Some(st))
        },
    }
}

/// The `[container]` section, when present, fits the schema.
pub open spec fn container_present_ok(t: Seq<(Seq<char>, Doc)>) -> bool {
    match opt_table(t, "container"@) {
        Err(_) => false,
        Ok(None) => true,
        Ok(Some(s)) => container_section_ok(s),
    }
}

/// `o` is the resolved style of the `[container]` section, or nothing when the
/// section is absent.
pub open spec fn container_present_holds(o: Option<ContainerStyle>, t: Seq<(Seq<char>, Doc)>) -> bool {
    match opt_table(t, "container"@) {
        Ok(Some(s)) => o matches Some(st) && exists|sec: ContainerSection| container_section_match(sec, s) && st == sec.styled(),
        _ => o is None,
    }
}

pub open spec fn container_present_fault(t: Seq<(Seq<char>, Doc)>, e: DecodeFault) -> bool {
    ||| opt_table(t, "container"@) == Err::<Option<Seq<(Seq<char>, Doc)>>, DecodeFault>(e)
    ||| opt_table(t, "container"@) matches Ok(Some(s)) && container_section_fault(s, e)
}

fn container_of(t: &Vec<(String, Value)>) -> (r: Result<Option<ContainerStyle>, DecodeError>)
    ensures
        r is Ok <==> container_present_ok(entries_of(t@)),
        r matches Ok(o) ==> container_present_holds(o, entries_of(t@)),
        r matches Err(e) ==> container_present_fault(entries_of(t@), e@),
{
    match table_field(t, "container")? {
        None => Ok(None),
        Some(s) => {
            let sec = ContainerSection::from_table(s)?;
            let st = sec.resolve();
            proof {
                assert(container_section_match(sec, entries_of(s@)) && st == sec.styled());
            }
            Ok(Some(st))
        },
    }
}

/// The `[text-input]` section, when present, fits the schema.
pub open spec fn text_input_present_ok(t: Seq<(Seq<char>, Doc)>) -> bool {
    match opt_table(t, "text-input"@) {
        Err(_) => false,
        Ok(None) => true,
        Ok(Some(s)) => text_input_section_ok(s),
    }
}

/// `o` is the resolved style of the `[text-input]` section, or nothing when the
/// section is absent.
pub open spec fn text_input_present_holds(o: Option<TextInputStyle>, t: Seq<(Seq<char>, Doc)>) -> bool {
    match opt_table(t, "text-input"@) {
        Ok(Some(s)) => o matches Some(st) && exists|sec: TextInputSection| text_input_section_match(sec, s) && st == sec.styled(),
        _ => o is None,
    }
}

pub open spec fn text_input_present_fault(t: Seq<(Seq<char>, Doc)>, e: DecodeFault) -> bool {
    ||| opt_table(t, "text-input"@) == Err::<Option<Seq<(Seq<char>, Doc)>>, DecodeFault>(e)
    ||| opt_table(t, "text-input"@) matches Ok(Some(s)) && text_input_section_fault(s, e)
}

fn text_input_of(t: &Vec<(String, Value)>) -> (r: Result<Option<TextInputStyle>, DecodeError>)
    ensures
        r is Ok <==> text_input_present_ok(entries_of(t@)),
        r matches Ok(o) ==> text_input_present_holds(o, entries_of(t@)),
        r matches Err(e) ==> text_input_present_fault(entries_of(t@), e@),
{
    match table_field(t, "text-input")? {
        None => Ok(None),
        Some(s) => {
            let sec = TextInputSection::from_table(s)?;
            let st = sec.resolve();
            proof {
                assert(text_input_section_match(sec, entries_of(s@)) && st == sec.styled());
            }
            Ok(Some(st))
        },
    }
}

/// The `[checkbox]` section, when present, fits the schema.
pub open spec fn checkbox_present_ok(t: Seq<(Seq<char>, Doc)>) -> bool {
    match opt_table(t, "checkbox"@) {
        Err(_) => false,
        Ok(None) => true,
        Ok(Some(s)) => checkbox_section_ok(s),
    }
}

/// `o` is the resolved style of the `[checkbox]` section, or nothing when the
/// section is absent.
pub open spec fn checkbox_present_holds(o: Option<CheckboxStyle>, t: Seq<(Seq<char>, Doc)>) -> bool {
    match opt_table(t, "checkbox"@) {
        Ok(Some(s)) => o matches Some(st) && exists|sec: CheckboxSection| checkbox_section_match(sec, s) && st == sec.styled(),
        _ => o is None,
    }
}

pub open spec fn checkbox_present_fault(t: Seq<(Seq<char>, Doc)>, e: DecodeFault) -> bool {
    ||| opt_table(t, "checkbox"@) == Err::<Option<Seq<(Seq<char>, Doc)>>, DecodeFault>(e)
    ||| opt_table(t, "checkbox"@) matches Ok(Some(s)) && checkbox_section_fault(s, e)
}

fn checkbox_of(t: &Vec<(String, Value)>) -> (r: Result<Option<CheckboxStyle>, DecodeError>)
    ensures
        r is Ok <==> checkbox_present_ok(entries_of(t@)),
        r matches Ok(o) ==> checkbox_present_holds(o, entries_of(t@)),
        r matches Err(e) ==> checkbox_present_fault(entries_of(t@), e@),
{
    match table_field(t, "checkbox")? {
        None => Ok(None),
        Some(s) => {
            let sec = CheckboxSection::from_table(s)?;
            let st = sec.resolve();
            proof {
                assert(checkbox_section_match(sec, entries_of(s@)) && st == sec.styled());
            }
            Ok(Some(st))
        },
    }
}

/// The `[toggler]` section, when present, fits the schema.
pub open spec fn toggler_present_ok(t: Seq<(Seq<char>, Doc)>) -> bool {
    match opt_table(t, "toggler"@) {
        Err(_) => false,
        Ok(None) => true,
        Ok(Some(s)) => toggler_section_ok(s),
    }
}

/// `o` is the resolved style of the `[toggler]` section, or nothing when the
/// section is absent.
pub open spec fn toggler_present_holds(o: Option<TogglerStyle>, t: Seq<(Seq<char>, Doc)>) -> bool {
    match opt_table(t, "toggler"@) {
        Ok(Some(s)) => o matches Some(st) && exists|sec: TogglerSection| toggler_section_match(sec, s) && st == sec.styled(),
        _ => o is None,
    }
}

pub open spec fn toggler_present_fault(t: Seq<(Seq<char>, Doc)>, e: DecodeFault) -> bool {
    ||| opt_table(t, "toggler"@) == Err::<Option<Seq<(Seq<char>, Doc)>>, DecodeFault>(e)
    ||| opt_table(t, "toggler"@) matches Ok(Some(s)) && toggler_section_fault(s, e)
}

fn toggler_of(t: &Vec<(String, Value)>) -> (r: Result<Option<TogglerStyle>, DecodeError>)
    ensures
        r is Ok <==> toggler_present_ok(entries_of(t@)),
        r matches Ok(o) ==> toggler_present_holds(o, entries_of(t@)),
        r matches Err(e) ==> toggler_present_fault(entries_of(t@), e@),
{
    match table_field(t, "toggler")? {
        None => Ok(None),
        Some(s) => {
            let sec = TogglerSection::from_table(s)?;
            let st = sec.resolve();
            proof {
                assert(toggler_section_match(sec, entries_of(s@)) && st == sec.styled());
            }
            Ok(Some(st))
        },
    }
}

/// The `[slider]` section, when present, fits the schema.
pub open spec fn slider_present_ok(t: Seq<(Seq<char>, Doc)>) -> bool {
    match opt_table(t, "slider"@) {
        Err(_) => false,
        Ok(None) => true,
        Ok(Some(s)) => slider_section_ok(s),
    }
}

/// `o` is the resolved style of the `[slider]` section, or nothing when the
/// section is absent.
pub open spec fn slider_present_holds(o: Option<SliderStyle>, t: Seq<(Seq<char>, Doc)>) -> bool {
    match opt_table(t, "slider"@) {
        Ok(Some(s)) => o matches Some(st) && exists|sec: SliderSection| slider_section_match(sec, s) && st == sec.styled(),
        _ => o is None,
    }
}

pub open spec fn slider_present_fault(t: Seq<(Seq<char>, Doc)>, e: DecodeFault) -> bool {
    ||| opt_table(t, "slider"@) == Err::<Option<Seq<(Seq<char>, Doc)>>, DecodeFault>(e)
    ||| opt_table(t, "slider"@) matches Ok(Some(s)) && slider_section_fault(s, e)
}

fn slider_of(t: &Vec<(String, Value)>) -> (r: Result<Option<SliderStyle>, DecodeError>)
    ensures
        r is Ok <==> slider_present_ok(entries_of(t@)),
        r matches Ok(o) ==> slider_present_holds(o, entries_of(t@)),
        r matches Err(e) ==> slider_present_fault(entries_of(t@), e@),
{
    match table_field(t, "slider")? {
        None => Ok(None),
        Some(s) => {
            let sec = SliderSection::from_table(s)?;
            let st = sec.resolve();
            proof {
                assert(slider_section_match(sec, entries_of(s@)) && st == sec.styled());
            }
            Ok(Some(st))
        },
    }
}

/// The `[progress-bar]` section, when present, fits the schema.
pub open spec fn progress_bar_present_ok(t: Seq<(Seq<char>, Doc)>) -> bool {
    match opt_table(t, "progress-bar"@) {
        Err(_) => false,
        Ok(None) => true,
        Ok(Some(s)) => progress_bar_section_ok(s),
    }
}

/// `o` is the resolved style of the `[progress-bar]` section, or nothing when the
/// section is absent.
pub open spec fn progress_bar_present_holds(o: Option<ProgressBarStyle>, t: Seq<(Seq<char>, Doc)>) -> bool {
    match opt_table(t, "progress-bar"@) {
        Ok(Some(s)) => o matches Some(st) && exists|sec: ProgressBarSection| progress_bar_section_match(sec, s) && st == sec.styled(),
        _ => o is None,
    }
}

pub open spec fn progress_bar_present_fault(t: Seq<(Seq<char>, Doc)>, e: DecodeFault) -> bool {
    ||| opt_table(t, "progress-bar"@) == Err::<Option<Seq<(Seq<char>, Doc)>>, DecodeFault>(e)
    ||| opt_table(t, "progress-bar"@) matches Ok(Some(s)) && progress_bar_section_fault(s, e)
}

fn progress_bar_of(t: &Vec<(String, Value)>) -> (r: Result<Option<ProgressBarStyle>, DecodeError>)
    ensures
        r is Ok <==> progress_bar_present_ok(entries_of(t@)),
        r matches Ok(o) ==> progress_bar_present_holds(o, entries_of(t@)),
        r matches Err(e) ==> progress_bar_present_fault(entries_of(t@), e@),
{
    match table_field(t, "progress-bar")? {
        None => Ok(None),
        Some(s) => {
            let sec = ProgressBarSection::from_table(s)?;
            let st = sec.resolve();
            proof {
                assert(progress_bar_section_match(sec, entries_of(s@)) && st == sec.styled());
            }
            Ok(Some(st))
        },
    }
}

/// The `[radio]` section, when present, fits the schema.
pub open spec fn radio_present_ok(t: Seq<(Seq<char>, Doc)>) -> bool {
    match opt_table(t, "radio"@) {
        Err(_) => false,
        Ok(None) => true,
        Ok(Some(s)) => radio_section_ok(s),
    }
}

/// `o` is the resolved style of the `[radio]` section, or nothing when the
/// section is absent.
pub open spec fn radio_present_holds(o: Option<RadioStyle>, t: Seq<(Seq<char>, Doc)>) -> bool {
    match opt_table(t, "radio"@) {
        Ok(Some(s)) => o matches Some(st) && exists|sec: RadioSection| radio_section_match(sec, s) && st == sec.styled(),
        _ => o is None,
    }
}

pub open spec fn radio_present_fault(t: Seq<(Seq<char>, Doc)>, e: DecodeFault) -> bool {
    ||| opt_table(t, "radio"@) == Err::<Option<Seq<(Seq<char>, Doc)>>, DecodeFault>(e)
    ||| opt_table(t, "radio"@) matches Ok(Some(s)) && radio_section_fault(s, e)
}

fn radio_of(t: &Vec<(String, Value)>) -> (r: Result<Option<RadioStyle>, DecodeError>)
    ensures
        r is Ok <==> radio_present_ok(entries_of(t@)),
        r matches Ok(o) ==> radio_present_holds(o, entries_of(t@)),
        r matches Err(e) ==> radio_present_fault(entries_of(t@), e@),
{
    match table_field(t, "radio")? {
        None => Ok(None),
        Some(s) => {
            let sec = RadioSection::from_table(s)?;
            let st = sec.resolve();
            proof {
                assert(radio_section_match(sec, entries_of(s@)) && st == sec.styled());
            }
            Ok(Some(st))
        },
    }
}

/// A theme: its name, palette, optional font, and the resolved style of each
/// widget section that the document has.
#[derive(Clone, Debug)]
pub struct ThemeConfig {
    name: String,
    palette: Palette,
    font: Option<Font>,
    button: Option<ButtonStyle>,
    container: Option<ContainerStyle>,
    text_input: Option<TextInputStyle>,
    checkbox: Option<CheckboxStyle>,
    toggler: Option<TogglerStyle>,
    slider: Option<SliderStyle>,
    progress_bar: Option<ProgressBarStyle>,
    radio: Option<RadioStyle>,
}

/// The name a theme takes when the document gives none.
pub open spec fn default_name() -> Seq<char> {
    "Custom"@
}

/// A resolved document that fits the theme schema: a `palette` table with
/// all six colors; `name`, `font` and the widget sections optional.
pub open spec fn theme_ok(d: Doc) -> bool {
    &&& d is Table
    &&& theme_table_ok(d->Table_0)
}

pub open spec fn theme_table_ok(t: Seq<(Seq<char>, Doc)>) -> bool {
    &&& opt_text(t, "name"@) is Ok
    &&& opt_table(t, "palette"@) matches Ok(Some(p)) && palette_ok(p)
    &&& match opt_table(t, "font"@) {
        Ok(None) => true,
        Ok(Some(f)) => font_ok(f),
        Err(_) => false,
    }
    &&& button_present_ok(t)
    &&& container_present_ok(t)
    &&& text_input_present_ok(t)
    &&& checkbox_present_ok(t)
    &&& toggler_present_ok(t)
    &&& slider_present_ok(t)
    &&& progress_bar_present_ok(t)
    &&& radio_present_ok(t)
}

/// What a theme holds for a resolved document that fits the schema.
pub open spec fn theme_holds(c: ThemeConfig, d: Doc) -> bool {
    let t = d->Table_0;
    &&& c.spec_name() == match opt_text(t, "name"@)->Ok_0 {
        Some(n) => n,
        None => default_name(),
    }
    &&& c.spec_palette() == palette_of(opt_table(t, "palette"@)->Ok_0->0)
    &&& match opt_table(t, "font"@)->Ok_0 {
        None => c.spec_font() is None,
        Some(f) => c.spec_font() matches Some(font) && font_holds(font, f),
    }
    &&& button_present_holds(c.spec_button(), t)
    &&& container_present_holds(c.spec_container(), t)
    &&& text_input_present_holds(c.spec_text_input(), t)
    &&& checkbox_present_holds(c.spec_checkbox(), t)
    &&& toggler_present_holds(c.spec_toggler(), t)
    &&& slider_present_holds(c.spec_slider(), t)
    &&& progress_bar_present_holds(c.spec_progress_bar(), t)
    &&& radio_present_holds(c.spec_radio(), t)
}

/// `e` is what one part of the document gives.
pub open spec fn theme_fault(d: Doc, e: DecodeFault) -> bool {
    ||| !(d is Table) && e == DecodeFault::WrongType("theme"@, Expected::Table)
    ||| d is Table && theme_table_fault(d->Table_0, e)
}

pub open spec fn theme_table_fault(t: Seq<(Seq<char>, Doc)>, e: DecodeFault) -> bool {
    ||| opt_text(t, "name"@) == Err::<Option<Seq<char>>, DecodeFault>(e)
    ||| opt_table(t, "palette"@) == Err::<Option<Seq<(Seq<char>, Doc)>>, DecodeFault>(e)
    ||| opt_table(t, "palette"@) is Ok && opt_table(t, "palette"@)->Ok_0 is None && e
        == DecodeFault::Missing("palette"@)
    ||| opt_table(t, "palette"@) matches Ok(Some(p)) && palette_fault(p, e)
    ||| opt_table(t, "font"@) == Err::<Option<Seq<(Seq<char>, Doc)>>, DecodeFault>(e)
    ||| opt_table(t, "font"@) matches Ok(Some(f)) && font_fault(f, e)
    ||| button_present_fault(t, e)
    ||| container_present_fault(t, e)
    ||| text_input_present_fault(t, e)
    ||| checkbox_present_fault(t, e)
    ||| toggler_present_fault(t, e)
    ||| slider_present_fault(t, e)
    ||| progress_bar_present_fault(t, e)
    ||| radio_present_fault(t, e)
}

/// Why a theme could not be built.
#[derive(Clone, Debug, PartialEq, Eq)]
pub enum Error {
    /// The theme file could not be read.
    Io(String),
    /// The text is not a well-formed document.
    Parse(String),
    /// The variables could not be resolved.
    Variables(ResolveError),
    /// The resolved document does not fit the theme schema.
    Invalid(DecodeError),
}

fn decode_theme(doc: &Value) -> (r: Result<ThemeConfig, DecodeError>)
    ensures
        r matches Ok(c) ==> theme_ok(doc@) && theme_holds(c, doc@),
        r matches Err(e) ==> !theme_ok(doc@) && theme_fault(doc@, e@),
{
    let t = match doc {
        Value::Table(t) => t,
        _ => return Err(DecodeError::WrongType { field: "theme".to_owned(), expected: Expected::Table }),
    };
    let name = match text_field(t, "name")? {
        Some(n) => n,
        None => "Custom".to_owned(),
    };
    let palette = match table_field(t, "palette")? {
        Some(p) => palette_from(p)?,
        None => return Err(DecodeError::Missing { field: "palette".to_owned() }),
    };
    let font = match table_field(t, "font")? {
        Some(f) => Some(build_font(f)?),
        None => None,
    };
    let button = button_of(t)?;
    let container = container_of(t)?;
    let text_input = text_input_of(t)?;
    let checkbox = checkbox_of(t)?;
    let toggler = toggler_of(t)?;
    let slider = slider_of(t)?;
    let progress_bar = progress_bar_of(t)?;
    let radio = radio_of(t)?;
    Ok(ThemeConfig { name, palette, font, button, container, text_input, checkbox, toggler, slider, progress_bar, radio })
}

impl ThemeConfig {
    pub closed spec fn spec_name(&self) -> Seq<char> {
        self.name@
    }

    pub closed spec fn spec_palette(&self) -> Palette {
        self.palette
    }

    pub closed spec fn spec_font(&self) -> Option<Font> {
        self.font
    }

    /// Builds a theme from a document: its variables are resolved and
    /// substituted, then its sections are read and every style resolved.
    pub fn from_document(doc: Value) -> (r: Result<ThemeConfig, Error>)
        ensures
            match r {
                Ok(c) => resolved(doc@) matches Ok(d) && theme_ok(d) && theme_holds(c, d),
                Err(Error::Variables(e)) => resolved(doc@) == Err::<Doc, ResolveFault>(e@),
                Err(Error::Invalid(e)) => resolved(doc@) matches Ok(d) && !theme_ok(d)
                    && theme_fault(d, e@),
                Err(_) => false,
            },
    {
        let mut doc = doc;
        match resolve(&mut doc) {
            Ok(()) => {},
            Err(e) => return Err(Error::Variables(e)),
        }
        match decode_theme(&doc) {
            Ok(c) => Ok(c),
            Err(e) => Err(Error::Invalid(e)),
        }
    }

    /// The theme name; `Custom` when the document gives none.
    pub fn name(&self) -> (r: &str)
        ensures
            r@ == self.spec_name(),
    {
        self.name.as_str()
    }

    /// The theme's palette.
    pub fn theme(&self) -> (r: Palette)
        ensures
            r == self.spec_palette(),
    {
        self.palette
    }

    /// The font descriptor, when the document has a `[font]` table.
    pub fn font(&self) -> (r: Option<&Font>)
        ensures
            crate::style::opt_ref(r) == self.spec_font(),
    {
        self.font.as_ref()
    }

    pub closed spec fn spec_button(&self) -> Option<ButtonStyle> {
        self.button
    }

    /// The resolved `[button]` style, or `None` when the section is absent.
    pub fn button(&self) -> (r: Option<&ButtonStyle>)
        ensures
            crate::style::opt_ref(r) == self.spec_button(),
    {
        self.button.as_ref()
    }

    pub closed spec fn spec_container(&self) -> Option<ContainerStyle> {
        self.container
    }

    /// The resolved `[container]` style, or `None` when the section is absent.
    pub fn container(&self) -> (r: Option<&ContainerStyle>)
        ensures
            crate::style::opt_ref(r) == self.spec_container(),
    {
        self.container.as_ref()
    }

    pub closed spec fn spec_text_input(&self) -> Option<TextInputStyle> {
        self.text_input
    }

    /// The resolved `[text-input]` style, or `None` when the section is absent.
    pub fn text_input(&self) -> (r: Option<&TextInputStyle>)
        ensures
            crate::style::opt_ref(r) == self.spec_text_input(),
    {
        self.text_input.as_ref()
    }

    pub closed spec fn spec_checkbox(&self) -> Option<CheckboxStyle> {
        self.checkbox
    }

    /// The resolved `[checkbox]` style, or `None` when the section is absent.
    pub fn checkbox(&self) -> (r: Option<&CheckboxStyle>)
        ensures
            crate::style::opt_ref(r) == self.spec_checkbox(),
    {
        self.checkbox.as_ref()
    }

    pub closed spec fn spec_toggler(&self) -> Option<TogglerStyle> {
        self.toggler
    }

    /// The resolved `[toggler]` style, or `None` when the section is absent.
    pub fn toggler(&self) -> (r: Option<&TogglerStyle>)
        ensures
            crate::style::opt_ref(r) == self.spec_toggler(),
    {
        self.toggler.as_ref()
    }

    pub closed spec fn spec_slider(&self) -> Option<SliderStyle> {
        self.slider
    }

    /// The resolved `[slider]` style, or `None` when the section is absent.
    pub fn slider(&self) -> (r: Option<&SliderStyle>)
        ensures
            crate::style::opt_ref(r) == self.spec_slider(),
    {
        self.slider.as_ref()
    }

    pub closed spec fn spec_progress_bar(&self) -> Option<ProgressBarStyle> {
        self.progress_bar
    }

    /// The resolved `[progress-bar]` style, or `None` when the section is absent.
    pub fn progress_bar(&self) -> (r: Option<&ProgressBarStyle>)
        ensures
            crate::style::opt_ref(r) == self.spec_progress_bar(),
    {
        self.progress_bar.as_ref()
    }

    pub closed spec fn spec_radio(&self) -> Option<RadioStyle> {
        self.radio
    }

    /// The resolved `[radio]` style, or `None` when the section is absent.
    pub fn radio(&self) -> (r: Option<&RadioStyle>)
        ensures
            crate::style::opt_ref(r) == self.spec_radio(),
    {
        self.radio.as_ref()
    }

}

pub open spec fn error_text(e: Error) -> Seq<char> {
    match e {
        Error::Io(s) => "failed to read theme file: "@ + s@,
        Error::Parse(s) => "failed to parse theme: "@ + s@,
        Error::Variables(v) => "invalid variables: "@ + resolve_fault_text(v@),
        Error::Invalid(d) => "invalid theme: "@ + decode_fault_text(d@),
    }
}

impl Error {
    /// A sentence describing the error.
    pub fn message(&self) -> (r: String)
        ensures
            r@ == error_text(*self),
    {
        let mut out = String::new();
        match self {
            Error::Io(s) => {
                append_str(&mut out, "failed to read theme file: ");
                append_str(&mut out, s.as_str());
            },
            Error::Parse(s) => {
                append_str(&mut out, "failed to parse theme: ");
                append_str(&mut out, s.as_str());
            },
            Error::Variables(v) => {
                append_str(&mut out, "invalid variables: ");
                let m = v.message();
                append_str(&mut out, m.as_str());
            },
            Error::Invalid(d) => {
                append_str(&mut out, "invalid theme: ");
                let m = d.message();
                append_str(&mut out, m.as_str());
            },
        }
        out
    }
}

} // verus!
