//! Reading typed fields out of document tables: colors, numbers, corner
//! radii, backgrounds (flat or gradient) and named choices.
use vstd::prelude::*;

use crate::color::{color_of, parse_color_chars, ColorError, HexColor};
use crate::table::{key_at, key_index, lemma_key_index};
use crate::color::color_error_text;
use crate::expr::quoted;
use crate::text::{append_decimal, append_str, chars_equal, chars_of, decimal, digit_char};
use crate::value::{lemma_array_view, Doc, Fixed, Value};

verus! {

/// The kind of value a field should have held.
#[derive(Clone, Copy, Debug, PartialEq, Eq, Structural)]
pub enum Expected {
    Text,
    Number,
    Table,
    Array,
    Radius,
    Background,
}

/// A decoding problem, with its text as characters.
pub enum DecodeFault {
    Missing(Seq<char>),
    WrongType(Seq<char>, Expected),
    OutOfRange(Seq<char>),
    InvalidColor(Seq<char>, Seq<char>, ColorError),
    TooManyStops(Seq<char>, usize),
    StopOffsetOutOfRange(Seq<char>, Fixed),
    UnknownName(Seq<char>, Seq<char>),
}

/// Why a document does not fit the theme schema.
#[derive(Clone, Debug, PartialEq, Eq)]
pub enum DecodeError {
    /// A required field is absent.
    Missing { field: String },
    /// A field holds a value of the wrong kind.
    WrongType { field: String, expected: Expected },
    /// An integer too large to hold in thousandths.
    OutOfRange { field: String },
    /// A color field holds text that is not a color token.
    InvalidColor { field: String, value: String, reason: ColorError },
    /// A gradient with more than eight stops.
    TooManyStops { field: String, count: usize },
    /// A gradient stop whose offset is outside `0.0..=1.0`.
    StopOffsetOutOfRange { field: String, offset: Fixed },
    /// A named choice that is not one of the allowed names.
    UnknownName { field: String, value: String },
}

impl View for DecodeError {
    type V = DecodeFault;

    open spec fn view(&self) -> DecodeFault {
        match self {
            DecodeError::Missing { field } => DecodeFault::Missing(field@),
            DecodeError::WrongType { field, expected } => DecodeFault::WrongType(field@, *expected),
            DecodeError::OutOfRange { field } => DecodeFault::OutOfRange(field@),
            DecodeError::InvalidColor { field, value, reason } => DecodeFault::InvalidColor(
                field@,
                value@,
                *reason,
            ),
            DecodeError::TooManyStops { field, count } => DecodeFault::TooManyStops(
                field@,
                *count,
            ),
            DecodeError::StopOffsetOutOfRange { field, offset } =>
                DecodeFault::StopOffsetOutOfRange(field@, *offset),
            DecodeError::UnknownName { field, value } => DecodeFault::UnknownName(
                field@,
                value@,
            ),
        }
    }
}

pub open spec fn fault_of<T>(r: Result<T, DecodeError>) -> Result<T, DecodeFault> {
    match r {
        Ok(v) => Ok(v),
        Err(e) => Err(e@),
    }
}

/// Corner radii, each in thousandths.
#[derive(Clone, Copy, Debug, PartialEq, Eq, Structural)]
pub struct Radius {
    pub top_left: Fixed,
    pub top_right: Fixed,
    pub bottom_right: Fixed,
    pub bottom_left: Fixed,
}

/// A corner radius as written: one value for all corners, or four values
/// for top-left, top-right, bottom-right and bottom-left.
#[derive(Clone, Copy, Debug, PartialEq, Eq, Structural)]
pub enum RadiusRaw {
    Uniform(Fixed),
    PerCorner(Fixed, Fixed, Fixed, Fixed),
}

pub open spec fn uniform(x: Fixed) -> Radius {
    Radius { top_left: x, top_right: x, bottom_right: x, bottom_left: x }
}

pub open spec fn radius_spec(r: RadiusRaw) -> Radius {
    match r {
        RadiusRaw::Uniform(x) => uniform(x),
        RadiusRaw::PerCorner(tl, tr, br, bl) => Radius {
            top_left: tl,
            top_right: tr,
            bottom_right: br,
            bottom_left: bl,
        },
    }
}

impl Radius {
    pub fn uniform(x: Fixed) -> (r: Radius)
        ensures
            r == uniform(x),
    {
        Radius { top_left: x, top_right: x, bottom_right: x, bottom_left: x }
    }
}

impl RadiusRaw {
    /// Both forms as four corner values.
    pub fn into_radius(self) -> (r: Radius)
        ensures
            r == radius_spec(self),
    {
        match self {
            RadiusRaw::Uniform(x) => Radius::uniform(x),
            RadiusRaw::PerCorner(tl, tr, br, bl) => Radius {
                top_left: tl,
                top_right: tr,
                bottom_right: br,
                bottom_left: bl,
            },
        }
    }
}

/// One gradient stop: an offset in `0..=1000` thousandths and a color.
#[derive(Clone, Copy, Debug, PartialEq, Eq, Structural)]
pub struct ColorStop {
    pub offset: Fixed,
    pub color: HexColor,
}

/// The most stops a gradient may have.
pub const MAX_STOPS: usize = 8;

/// A linear gradient: an angle in thousandths of a degree and up to eight
/// stops, filled from the front.
#[derive(Clone, Copy, Debug, PartialEq, Eq)]
pub struct GradientRaw {
    pub angle: Fixed,
    pub stops: [Option<ColorStop>; 8],
}

/// A background as written: a flat color or a linear gradient.
#[derive(Clone, Copy, Debug, PartialEq, Eq)]
pub enum BackgroundRaw {
    Color(HexColor),
    Gradient(GradientRaw),
}

/// A resolved background.
#[derive(Clone, Copy, Debug, PartialEq, Eq)]
pub enum Background {
    Color(HexColor),
    Gradient(GradientRaw),
}

pub open spec fn background_spec(b: BackgroundRaw) -> Background {
    match b {
        BackgroundRaw::Color(c) => Background::Color(c),
        BackgroundRaw::Gradient(g) => Background::Gradient(g),
    }
}

impl BackgroundRaw {
    pub fn into_background(self) -> (r: Background)
        ensures
            r == background_spec(self),
    {
        match self {
            BackgroundRaw::Color(c) => Background::Color(c),
            BackgroundRaw::Gradient(g) => Background::Gradient(g),
        }
    }
}

/// The value stored under `name`, if any.
pub open spec fn entry(t: Seq<(Seq<char>, Doc)>, name: Seq<char>) -> Option<Doc> {
    let i = key_index(t, name);
    if 0 <= i < t.len() {
        Some(t[i].1)
    } else {
        None
    }
}

pub open spec fn color_doc(name: Seq<char>, d: Doc) -> Result<HexColor, DecodeFault> {
    match d {
        Doc::Str(s) => match color_of(s) {
            Ok(c) => Ok(c),
            Err(e) => Err(DecodeFault::InvalidColor(name, s, e)),
        },
        _ => Err(DecodeFault::WrongType(name, Expected::Text)),
    }
}

/// The largest integer whose thousandths fit in an `i64`.
pub const MAX_WHOLE: i64 = 9_223_372_036_854_775;

pub open spec fn number_doc(name: Seq<char>, d: Doc) -> Result<Fixed, DecodeFault> {
    match d {
        Doc::Int(n) => if -MAX_WHOLE <= n <= MAX_WHOLE {
            Ok(Fixed { milli: (n * 1000) as i64 })
        } else {
            Err(DecodeFault::OutOfRange(name))
        },
        Doc::Float(x) => Ok(x),
        _ => Err(DecodeFault::WrongType(name, Expected::Number)),
    }
}

pub open spec fn radius_doc(name: Seq<char>, d: Doc) -> Result<RadiusRaw, DecodeFault> {
    match d {
        Doc::Int(_) | Doc::Float(_) => match number_doc(name, d) {
            Ok(x) => Ok(RadiusRaw::Uniform(x)),
            Err(e) => Err(e),
        },
        Doc::Array(a) => if a.len() == 4 && (forall|k: int| 0 <= k < 4 ==> number_doc(name, a[k]) is Ok) {
            Ok(
                RadiusRaw::PerCorner(
                    number_doc(name, a[0])->Ok_0,
                    number_doc(name, a[1])->Ok_0,
                    number_doc(name, a[2])->Ok_0,
                    number_doc(name, a[3])->Ok_0,
                ),
            )
        } else {
            Err(DecodeFault::WrongType(name, Expected::Radius))
        },
        _ => Err(DecodeFault::WrongType(name, Expected::Radius)),
    }
}

pub open spec fn offset_key() -> Seq<char> {
    seq!['o', 'f', 'f', 's', 'e', 't']
}

pub open spec fn color_key() -> Seq<char> {
    seq!['c', 'o', 'l', 'o', 'r']
}

pub open spec fn angle_key() -> Seq<char> {
    seq!['a', 'n', 'g', 'l', 'e']
}

pub open spec fn stops_key() -> Seq<char> {
    seq!['s', 't', 'o', 'p', 's']
}

pub open spec fn stop_fields(t: Seq<(Seq<char>, Doc)>) -> Result<ColorStop, DecodeFault> {
    match entry(t, offset_key()) {
        None => Err(DecodeFault::Missing(offset_key())),
        Some(o) => match number_doc(offset_key(), o) {
            Err(e) => Err(e),
            Ok(offset) => match entry(t, color_key()) {
                None => Err(DecodeFault::Missing(color_key())),
                Some(c) => match color_doc(color_key(), c) {
                    Err(e) => Err(e),
                    Ok(color) => Ok(ColorStop { offset, color }),
                },
            },
        },
    }
}

/// One stop of a gradient: a table with `offset` and `color`.
pub open spec fn stop_doc(d: Doc) -> Result<ColorStop, DecodeFault> {
    match d {
        Doc::Table(t) => stop_fields(t),
        _ => Err(DecodeFault::WrongType(stops_key(), Expected::Table)),
    }
}

/// The stops of a gradient, read in order; the first bad one is reported.
pub open spec fn stops_doc(a: Seq<Doc>) -> Result<Seq<ColorStop>, DecodeFault>
    decreases a.len(),
{
    if a.len() == 0 {
        Ok(Seq::empty())
    } else {
        match stops_doc(a.subrange(0, a.len() - 1)) {
            Err(e) => Err(e),
            Ok(p) => match stop_doc(a[a.len() - 1]) {
                Err(e) => Err(e),
                Ok(s) => Ok(p.push(s)),
            },
        }
    }
}

pub open spec fn offset_in_range(s: ColorStop) -> bool {
    0 <= s.offset.milli <= 1000
}

pub open spec fn first_bad_offset(s: Seq<ColorStop>, i: int) -> bool {
    &&& 0 <= i < s.len()
    &&& !offset_in_range(s[i])
    &&& forall|j: int| 0 <= j < i ==> offset_in_range(#[trigger] s[j])
}

/// Stops filled into eight slots from the front.
pub open spec fn slots_of(s: Seq<ColorStop>) -> Seq<Option<ColorStop>> {
    Seq::new(
        8,
        |i: int|
            if i < s.len() {
                Some(s[i])
            } else {
                None
            },
    )
}

/// A gradient table: `angle` and `stops` are required; at most eight
/// stops, each offset in `0.0..=1.0`. The result is the angle and the stops.
pub open spec fn gradient_doc(name: Seq<char>, t: Seq<(Seq<char>, Doc)>) -> Result<
    (Fixed, Seq<ColorStop>),
    DecodeFault,
> {
    match entry(t, angle_key()) {
        None => Err(DecodeFault::Missing(angle_key())),
        Some(ad) => match number_doc(angle_key(), ad) {
            Err(e) => Err(e),
            Ok(angle) => match entry(t, stops_key()) {
                None => Err(DecodeFault::Missing(stops_key())),
                Some(Doc::Array(a)) => match stops_doc(a) {
                    Err(e) => Err(e),
                    Ok(stops) => if stops.len() > 8 {
                        Err(DecodeFault::TooManyStops(name, stops.len() as usize))
                    } else if exists|i: int| first_bad_offset(stops, i) {
                        let i = choose|i: int| first_bad_offset(stops, i);
                        Err(DecodeFault::StopOffsetOutOfRange(name, stops[i].offset))
                    } else {
                        Ok((angle, stops))
                    },
                },
                Some(_) => Err(DecodeFault::WrongType(stops_key(), Expected::Array)),
            },
        },
    }
}

/// A background as the document states it.
pub enum BackgroundForm {
    Flat(HexColor),
    Linear(Fixed, Seq<ColorStop>),
}

pub open spec fn background_doc(name: Seq<char>, d: Doc) -> Result<BackgroundForm, DecodeFault> {
    match d {
        Doc::Str(_) => match color_doc(name, d) {
            Ok(c) => Ok(BackgroundForm::Flat(c)),
            Err(e) => Err(e),
        },
        Doc::Table(t) => match gradient_doc(name, t) {
            Ok((a, s)) => Ok(BackgroundForm::Linear(a, s)),
            Err(e) => Err(e),
        },
        _ => Err(DecodeFault::WrongType(name, Expected::Background)),
    }
}

/// `b` holds what `f` states.
pub open spec fn holds_background(b: BackgroundRaw, f: BackgroundForm) -> bool {
    match (b, f) {
        (BackgroundRaw::Color(c), BackgroundForm::Flat(d)) => c == d,
        (BackgroundRaw::Gradient(g), BackgroundForm::Linear(a, s)) => g.angle == a && g.stops@
            == slots_of(s),
        _ => false,
    }
}

pub open spec fn holds_opt_background(b: Option<BackgroundRaw>, f: Option<BackgroundForm>) -> bool {
    match (b, f) {
        (Some(x), Some(y)) => holds_background(x, y),
        (None, None) => true,
        _ => false,
    }
}

/// Position of the entry named `name`.
pub fn find_entry(t: &Vec<(String, Value)>, name: &str) -> (r: Option<usize>)
    ensures
        match r {
            Some(i) => key_index(crate::value::entries_of(t@), name@) == i && i < t@.len(),
            None => key_index(crate::value::entries_of(t@), name@) == -1,
        },
{
    let ghost e = crate::value::entries_of(t@);
    proof {
        crate::value::lemma_entries_of(t@);
        lemma_key_index(e, name@);
    }
    let want = chars_of(name);
    let mut i: usize = 0;
    while i < t.len()
        invariant
            i <= t@.len(),
            e == crate::value::entries_of(t@),
            e.len() == t@.len(),
            forall|k: int| 0 <= k < t@.len() ==> #[trigger] e[k] == (t@[k].0@, t@[k].1@),
            want@ == name@,
            forall|k: int| 0 <= k < i ==> e[k].0 != name@,
        decreases t@.len() - i,
    {
        let key = chars_of(t[i].0.as_str());
        if chars_equal(&key, &want) {
            assert(key_at(e, name@, i as int));
            return Some(i);
        }
        i = i + 1;
    }
    None
}

pub fn color_value(name: &str, v: &Value) -> (r: Result<HexColor, DecodeError>)
    ensures
        fault_of(r) == color_doc(name@, v@),
{
    match v {
        Value::String(s) => {
            let cs = chars_of(s.as_str());
            match parse_color_chars(&cs) {
                Ok(c) => Ok(c),
                Err(e) => Err(
                    DecodeError::InvalidColor { field: name.to_owned(), value: s.clone(), reason: e },
                ),
            }
        },
        _ => Err(DecodeError::WrongType { field: name.to_owned(), expected: Expected::Text }),
    }
}

pub fn number_value(name: &str, v: &Value) -> (r: Result<Fixed, DecodeError>)
    ensures
        fault_of(r) == number_doc(name@, v@),
{
    match v {
        Value::Integer(n) => if -MAX_WHOLE <= *n && *n <= MAX_WHOLE {
            Ok(Fixed { milli: *n * 1000 })
        } else {
            Err(DecodeError::OutOfRange { field: name.to_owned() })
        },
        Value::Float(x) => Ok(*x),
        _ => Err(DecodeError::WrongType { field: name.to_owned(), expected: Expected::Number }),
    }
}

pub fn radius_value(name: &str, v: &Value) -> (r: Result<RadiusRaw, DecodeError>)
    ensures
        fault_of(r) == radius_doc(name@, v@),
{
    match v {
        Value::Integer(_) | Value::Float(_) => {
            let x = number_value(name, v)?;
            Ok(RadiusRaw::Uniform(x))
        },
        Value::Array(items) => {
            proof {
                lemma_array_view(*v);
            }
            let wrong = DecodeError::WrongType { field: name.to_owned(), expected: Expected::Radius };
            if items.len() != 4 {
                return Err(wrong);
            }
            let ghost a = v@->Array_0;
            let tl = match number_value(name, &items[0]) { Ok(x) => x, Err(_) => return Err(wrong) };
            let tr = match number_value(name, &items[1]) { Ok(x) => x, Err(_) => return Err(wrong) };
            let br = match number_value(name, &items[2]) { Ok(x) => x, Err(_) => return Err(wrong) };
            let bl = match number_value(name, &items[3]) { Ok(x) => x, Err(_) => return Err(wrong) };
            proof {
                assert forall|k: int| 0 <= k < 4 implies number_doc(name@, a[k]) is Ok by {
                    assert(a[k] == items@[k]@);
                }
            }
            Ok(RadiusRaw::PerCorner(tl, tr, br, bl))
        },
        _ => Err(DecodeError::WrongType { field: name.to_owned(), expected: Expected::Radius }),
    }
}

/// The entry named `name` of `t`, read as the spec's `entry` says.
pub fn lookup_entry<'a>(t: &'a Vec<(String, Value)>, name: &str) -> (r: Option<&'a Value>)
    ensures
        match r {
            Some(v) => entry(crate::value::entries_of(t@), name@) == Some(v@),
            None => entry(crate::value::entries_of(t@), name@) is None,
        },
{
    proof {
        crate::value::lemma_entries_of(t@);
    }
    match find_entry(t, name) {
        Some(i) => Some(&t[i].1),
        None => None,
    }
}

fn stop_value(v: &Value) -> (r: Result<ColorStop, DecodeError>)
    ensures
        fault_of(r) == stop_doc(v@),
{
    proof {
        reveal_strlit("offset");
        reveal_strlit("color");
        reveal_strlit("stops");
    }
    assert("offset"@ == offset_key());
    assert("color"@ == color_key());
    assert("stops"@ == stops_key());
    match v {
        Value::Table(t) => {
            let offset = match lookup_entry(t, "offset") {
                None => return Err(DecodeError::Missing { field: "offset".to_owned() }),
                Some(o) => number_value("offset", o)?,
            };
            let color = match lookup_entry(t, "color") {
                None => return Err(DecodeError::Missing { field: "color".to_owned() }),
                Some(c) => color_value("color", c)?,
            };
            Ok(ColorStop { offset, color })
        },
        _ => Err(DecodeError::WrongType { field: "stops".to_owned(), expected: Expected::Table }),
    }
}

proof fn lemma_stops_error_spreads(a: Seq<Doc>, m: int)
    requires
        0 <= m <= a.len(),
        stops_doc(a.subrange(0, m)) is Err,
    ensures
        stops_doc(a) == stops_doc(a.subrange(0, m)),
    decreases a.len() - m,
{
    if m < a.len() {
        assert(a.subrange(0, m + 1).subrange(0, m) =~= a.subrange(0, m));
        lemma_stops_error_spreads(a, m + 1);
    } else {
        assert(a.subrange(0, m) =~= a);
    }
}

fn stops_value(items: &Vec<Value>) -> (r: Result<Vec<ColorStop>, DecodeError>)
    ensures
        match r {
            Ok(s) => stops_doc(crate::value::docs_of(items@)) == Ok::<Seq<ColorStop>, DecodeFault>(
                s@,
            ),
            Err(e) => stops_doc(crate::value::docs_of(items@)) == Err::<Seq<ColorStop>, DecodeFault>(
                e@,
            ),
        },
{
    let ghost a = crate::value::docs_of(items@);
    proof {
        crate::value::lemma_docs_of(items@);
    }
    let mut out: Vec<ColorStop> = Vec::new();
    let mut i: usize = 0;
    assert(a.subrange(0, 0) =~= Seq::<Doc>::empty());
    while i < items.len()
        invariant
            i <= items@.len(),
            a == crate::value::docs_of(items@),
            a.len() == items@.len(),
            forall|k: int| 0 <= k < items@.len() ==> #[trigger] a[k] == items@[k]@,
            stops_doc(a.subrange(0, i as int)) == Ok::<Seq<ColorStop>, DecodeFault>(out@),
        decreases items@.len() - i,
    {
        let ghost next = a.subrange(0, i + 1);
        assert(next.subrange(0, i as int) =~= a.subrange(0, i as int));
        assert(next[i as int] == items@[i as int]@);
        match stop_value(&items[i]) {
            Ok(st) => {
                out.push(st);
            },
            Err(e) => {
                proof {
                    lemma_stops_error_spreads(a, i + 1);
                }
                return Err(e);
            },
        }
        i = i + 1;
    }
    assert(a.subrange(0, a.len() as int) =~= a);
    Ok(out)
}

fn first_bad(stops: &Vec<ColorStop>) -> (r: Option<usize>)
    ensures
        match r {
            Some(i) => first_bad_offset(stops@, i as int),
            None => forall|k: int| !first_bad_offset(stops@, k),
        },
{
    let mut i: usize = 0;
    while i < stops.len()
        invariant
            i <= stops@.len(),
            forall|j: int| 0 <= j < i ==> offset_in_range(#[trigger] stops@[j]),
        decreases stops@.len() - i,
    {
        let off = stops[i].offset;
        if off.milli < 0 || off.milli > 1000 {
            return Some(i);
        }
        i = i + 1;
    }
    proof {
        assert forall|k: int| !first_bad_offset(stops@, k) by {
            if 0 <= k < stops@.len() {
                assert(offset_in_range(stops@[k]));
            }
        }
    }
    None
}

fn slot(stops: &Vec<ColorStop>, k: usize) -> (r: Option<ColorStop>)
    ensures
        r == (if k < stops@.len() {
            Some(stops@[k as int])
        } else {
            None::<ColorStop>
        }),
{
    if k < stops.len() {
        Some(stops[k])
    } else {
        None
    }
}

/// Reads a gradient table: `angle`, then `stops`, then checks the number
/// of stops and each offset.
pub fn gradient_value(name: &str, t: &Vec<(String, Value)>) -> (r: Result<GradientRaw, DecodeError>)
    ensures
        match (r, gradient_doc(name@, crate::value::entries_of(t@))) {
            (Ok(g), Ok((a, s))) => g.angle == a && g.stops@ == slots_of(s),
            (Err(e), Err(f)) => e@ == f,
            _ => false,
        },
{
    proof {
        reveal_strlit("angle");
        reveal_strlit("stops");
    }
    assert("angle"@ == angle_key());
    assert("stops"@ == stops_key());
    let angle = match lookup_entry(t, "angle") {
        None => return Err(DecodeError::Missing { field: "angle".to_owned() }),
        Some(a) => number_value("angle", a)?,
    };
    let items = match lookup_entry(t, "stops") {
        None => return Err(DecodeError::Missing { field: "stops".to_owned() }),
        Some(Value::Array(items)) => items,
        Some(_) => return Err(
            DecodeError::WrongType { field: "stops".to_owned(), expected: Expected::Array },
        ),
    };
    let stops = stops_value(items)?;
    if stops.len() > MAX_STOPS {
        return Err(DecodeError::TooManyStops { field: name.to_owned(), count: stops.len() });
    }
    match first_bad(&stops) {
        Some(i) => {
            proof {
                let k = choose|k: int| first_bad_offset(stops@, k);
                if k < i {
                    assert(offset_in_range(stops@[k]));
                } else if k > i {
                    assert(offset_in_range(stops@[i as int]));
                }
            }
            return Err(
                DecodeError::StopOffsetOutOfRange { field: name.to_owned(), offset: stops[i].offset },
            );
        },
        None => {},
    }
    let slots: [Option<ColorStop>; 8] = [
        slot(&stops, 0),
        slot(&stops, 1),
        slot(&stops, 2),
        slot(&stops, 3),
        slot(&stops, 4),
        slot(&stops, 5),
        slot(&stops, 6),
        slot(&stops, 7),
    ];
    assert(slots@ =~= slots_of(stops@));
    Ok(GradientRaw { angle, stops: slots })
}

/// Reads a background: a color token, or a gradient table.
pub fn background_value(name: &str, v: &Value) -> (r: Result<BackgroundRaw, DecodeError>)
    ensures
        match (r, background_doc(name@, v@)) {
            (Ok(b), Ok(f)) => holds_background(b, f),
            (Err(e), Err(f)) => e@ == f,
            _ => false,
        },
{
    match v {
        Value::String(_) => match color_value(name, v) {
            Ok(c) => Ok(BackgroundRaw::Color(c)),
            Err(e) => Err(e),
        },
        Value::Table(t) => match gradient_value(name, t) {
            Ok(g) => Ok(BackgroundRaw::Gradient(g)),
            Err(e) => Err(e),
        },
        _ => Err(DecodeError::WrongType { field: name.to_owned(), expected: Expected::Background }),
    }
}

pub open spec fn opt_color(t: Seq<(Seq<char>, Doc)>, name: Seq<char>) -> Result<
    Option<HexColor>,
    DecodeFault,
> {
    match entry(t, name) {
        None => Ok(None),
        Some(d) => match color_doc(name, d) {
            Ok(c) => Ok(Some(c)),
            Err(e) => Err(e),
        },
    }
}

pub open spec fn opt_number(t: Seq<(Seq<char>, Doc)>, name: Seq<char>) -> Result<
    Option<Fixed>,
    DecodeFault,
> {
    match entry(t, name) {
        None => Ok(None),
        Some(d) => match number_doc(name, d) {
            Ok(x) => Ok(Some(x)),
            Err(e) => Err(e),
        },
    }
}

pub open spec fn opt_radius(t: Seq<(Seq<char>, Doc)>, name: Seq<char>) -> Result<
    Option<RadiusRaw>,
    DecodeFault,
> {
    match entry(t, name) {
        None => Ok(None),
        Some(d) => match radius_doc(name, d) {
            Ok(x) => Ok(Some(x)),
            Err(e) => Err(e),
        },
    }
}

pub open spec fn opt_background(t: Seq<(Seq<char>, Doc)>, name: Seq<char>) -> Result<
    Option<BackgroundForm>,
    DecodeFault,
> {
    match entry(t, name) {
        None => Ok(None),
        Some(d) => match background_doc(name, d) {
            Ok(x) => Ok(Some(x)),
            Err(e) => Err(e),
        },
    }
}

pub fn color_field(t: &Vec<(String, Value)>, name: &str) -> (r: Result<Option<HexColor>, DecodeError>)
    ensures
        fault_of(r) == opt_color(crate::value::entries_of(t@), name@),
{
    match lookup_entry(t, name) {
        None => Ok(None),
        Some(v) => Ok(Some(color_value(name, v)?)),
    }
}

pub fn number_field(t: &Vec<(String, Value)>, name: &str) -> (r: Result<Option<Fixed>, DecodeError>)
    ensures
        fault_of(r) == opt_number(crate::value::entries_of(t@), name@),
{
    match lookup_entry(t, name) {
        None => Ok(None),
        Some(v) => Ok(Some(number_value(name, v)?)),
    }
}

pub fn radius_field(t: &Vec<(String, Value)>, name: &str) -> (r: Result<Option<RadiusRaw>, DecodeError>)
    ensures
        fault_of(r) == opt_radius(crate::value::entries_of(t@), name@),
{
    match lookup_entry(t, name) {
        None => Ok(None),
        Some(v) => Ok(Some(radius_value(name, v)?)),
    }
}

pub fn background_field(t: &Vec<(String, Value)>, name: &str) -> (r: Result<
    Option<BackgroundRaw>,
    DecodeError,
>)
    ensures
        match (r, opt_background(crate::value::entries_of(t@), name@)) {
            (Ok(b), Ok(f)) => holds_opt_background(b, f),
            (Err(e), Err(f)) => e@ == f,
            _ => false,
        },
{
    match lookup_entry(t, name) {
        None => Ok(None),
        Some(v) => Ok(Some(background_value(name, v)?)),
    }
}

/// A sub-table under `name`: absent, or a table.
pub open spec fn opt_table(t: Seq<(Seq<char>, Doc)>, name: Seq<char>) -> Result<
    Option<Seq<(Seq<char>, Doc)>>,
    DecodeFault,
> {
    match entry(t, name) {
        None => Ok(None),
        Some(Doc::Table(s)) => Ok(Some(s)),
        Some(_) => Err(DecodeFault::WrongType(name, Expected::Table)),
    }
}

pub fn table_field<'a>(t: &'a Vec<(String, Value)>, name: &str) -> (r: Result<
    Option<&'a Vec<(String, Value)>>,
    DecodeError,
>)
    ensures
        match r {
            Ok(Some(s)) => opt_table(crate::value::entries_of(t@), name@) == Ok::<
                Option<Seq<(Seq<char>, Doc)>>,
                DecodeFault,
            >(Some(crate::value::entries_of(s@))),
            Ok(None) => opt_table(crate::value::entries_of(t@), name@) == Ok::<
                Option<Seq<(Seq<char>, Doc)>>,
                DecodeFault,
            >(None),
            Err(e) => opt_table(crate::value::entries_of(t@), name@) == Err::<
                Option<Seq<(Seq<char>, Doc)>>,
                DecodeFault,
            >(e@),
        },
{
    match lookup_entry(t, name) {
        None => Ok(None),
        Some(Value::Table(s)) => Ok(Some(s)),
        Some(_) => Err(DecodeError::WrongType { field: name.to_owned(), expected: Expected::Table }),
    }
}

pub open spec fn expected_text(x: Expected) -> Seq<char> {
    match x {
        Expected::Text => "a string"@,
        Expected::Number => "a number"@,
        Expected::Table => "a table"@,
        Expected::Array => "an array"@,
        Expected::Radius => "a number or four numbers"@,
        Expected::Background => "a color or a gradient table"@,
    }
}

pub open spec fn abs_milli(m: i64) -> nat {
    if m < 0 {
        (-m) as nat
    } else {
        m as nat
    }
}

/// A number in thousandths written with three decimals, as `-1.500`.
pub open spec fn fixed_text(x: Fixed) -> Seq<char> {
    let a = abs_milli(x.milli);
    let f = a % 1000;
    (if x.milli < 0 {
        "-"@
    } else {
        Seq::empty()
    }) + decimal(a / 1000) + "."@ + seq![
        digit_char((f / 100) as int),
        digit_char(((f / 10) % 10) as int),
        digit_char((f % 10) as int),
    ]
}

pub open spec fn decode_fault_text(f: DecodeFault) -> Seq<char> {
    match f {
        DecodeFault::Missing(n) => "missing field "@ + quoted(n),
        DecodeFault::WrongType(n, x) => "field "@ + quoted(n) + " must be "@ + expected_text(x),
        DecodeFault::OutOfRange(n) => "field "@ + quoted(n) + " is out of range"@,
        DecodeFault::InvalidColor(n, v, e) => "invalid color for "@ + quoted(n) + ": \""@ + v
            + "\" ("@ + color_error_text(e) + ")"@,
        DecodeFault::TooManyStops(n, c) => "field "@ + quoted(n)
            + ": gradient supports at most 8 color stops, got "@ + decimal(c as nat),
        DecodeFault::StopOffsetOutOfRange(n, x) => "field "@ + quoted(n)
            + ": color stop offset must be in 0.0..=1.0, got "@ + fixed_text(x),
        DecodeFault::UnknownName(n, v) => "unknown value \""@ + v + "\" for "@ + quoted(n),
    }
}

fn append_quoted(out: &mut String, s: &str)
    ensures
        final(out)@ == old(out)@ + quoted(s@),
{
    append_str(out, "`");
    append_str(out, s);
    append_str(out, "`");
    assert(old(out)@ + "`"@ + s@ + "`"@ =~= old(out)@ + quoted(s@));
}

fn append_fixed(out: &mut String, x: Fixed)
    ensures
        final(out)@ == old(out)@ + fixed_text(x),
{
    let ghost start = out@;
    let a: u64 = if x.milli < 0 {
        (0 - (x.milli as i128)) as u64
    } else {
        x.milli as u64
    };
    assert(a == abs_milli(x.milli));
    if x.milli < 0 {
        append_str(out, "-");
    }
    let ghost signed = out@;
    append_decimal(out, a / 1000);
    append_str(out, ".");
    let f = a % 1000;
    let mut digits = String::new();
    append_decimal(&mut digits, f / 100);
    append_decimal(&mut digits, (f / 10) % 10);
    append_decimal(&mut digits, f % 10);
    append_str(out, digits.as_str());
    proof {
        reveal_with_fuel(decimal, 1);
        assert(decimal((f / 100) as nat) == seq![digit_char((f / 100) as int)]);
        assert(decimal(((f / 10) % 10) as nat) == seq![digit_char(((f / 10) % 10) as int)]);
        assert(decimal((f % 10) as nat) == seq![digit_char((f % 10) as int)]);
        if x.milli < 0 {
            assert(signed == start + "-"@);
        } else {
            assert(signed == start + Seq::<char>::empty());
        }
        assert(out@ =~= start + fixed_text(x));
    }
}

impl DecodeError {
    /// A sentence describing the error, naming the field concerned.
    pub fn message(&self) -> (r: String)
        ensures
            r@ == decode_fault_text(self@),
    {
        let mut out = String::new();
        match self {
            DecodeError::Missing { field } => {
                append_str(&mut out, "missing field ");
                append_quoted(&mut out, field.as_str());
            },
            DecodeError::WrongType { field, expected } => {
                append_str(&mut out, "field ");
                append_quoted(&mut out, field.as_str());
                append_str(&mut out, " must be ");
                match expected {
                    Expected::Text => append_str(&mut out, "a string"),
                    Expected::Number => append_str(&mut out, "a number"),
                    Expected::Table => append_str(&mut out, "a table"),
                    Expected::Array => append_str(&mut out, "an array"),
                    Expected::Radius => append_str(&mut out, "a number or four numbers"),
                    Expected::Background => append_str(&mut out, "a color or a gradient table"),
                }
            },
            DecodeError::OutOfRange { field } => {
                append_str(&mut out, "field ");
                append_quoted(&mut out, field.as_str());
                append_str(&mut out, " is out of range");
            },
            DecodeError::InvalidColor { field, value, reason } => {
                append_str(&mut out, "invalid color for ");
                append_quoted(&mut out, field.as_str());
                append_str(&mut out, ": \"");
                append_str(&mut out, value.as_str());
                append_str(&mut out, "\" (");
                let m = reason.message();
                append_str(&mut out, m.as_str());
                append_str(&mut out, ")");
            },
            DecodeError::TooManyStops { field, count } => {
                append_str(&mut out, "field ");
                append_quoted(&mut out, field.as_str());
                append_str(&mut out, ": gradient supports at most 8 color stops, got ");
                append_decimal(&mut out, *count as u64);
            },
            DecodeError::StopOffsetOutOfRange { field, offset } => {
                append_str(&mut out, "field ");
                append_quoted(&mut out, field.as_str());
                append_str(&mut out, ": color stop offset must be in 0.0..=1.0, got ");
                append_fixed(&mut out, *offset);
            },
            DecodeError::UnknownName { field, value } => {
                append_str(&mut out, "unknown value \"");
                append_str(&mut out, value.as_str());
                append_str(&mut out, "\" for ");
                append_quoted(&mut out, field.as_str());
            },
        }
        out
    }
}

} // verus!
