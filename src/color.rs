//! Color tokens: `#RGB`, `#RRGGBB`, `#RRGGBBAA` and the names `black`,
//! `white` and `transparent`, and the canonical hex form they print as.
use vstd::prelude::*;

use crate::text::{append_decimal, append_str, chars_of, decimal, push_char};

verus! {

/// An RGBA color, 8 bits per channel. `a == 255` is fully opaque.
#[derive(Clone, Copy, Debug, PartialEq, Eq, Structural)]
pub struct HexColor {
    pub r: u8,
    pub g: u8,
    pub b: u8,
    pub a: u8,
}

/// Why a color token was refused.
#[derive(Clone, Copy, Debug, PartialEq, Eq, Structural)]
pub enum ColorError {
    /// Neither a color name nor a token starting with `#`.
    MissingPrefix,
    /// The number of digits after `#` is not 3, 6 or 8.
    WrongLength(usize),
    /// In the 3-digit form, the digit at this position is not hexadecimal.
    InvalidHexDigit(usize),
    /// In the 6- or 8-digit form, the byte starting at this position is not hexadecimal.
    InvalidHexByte(usize),
}

pub open spec fn rgba(r: u8, g: u8, b: u8, a: u8) -> HexColor {
    HexColor { r, g, b, a }
}

pub open spec fn spec_black() -> HexColor {
    rgba(0, 0, 0, 255)
}

pub open spec fn spec_white() -> HexColor {
    rgba(255, 255, 255, 255)
}

pub open spec fn spec_transparent() -> HexColor {
    rgba(0, 0, 0, 0)
}

impl HexColor {
    pub fn black() -> (c: HexColor)
        ensures
            c == spec_black(),
    {
        HexColor { r: 0, g: 0, b: 0, a: 255 }
    }

    pub fn white() -> (c: HexColor)
        ensures
            c == spec_white(),
    {
        HexColor { r: 255, g: 255, b: 255, a: 255 }
    }

    pub fn transparent() -> (c: HexColor)
        ensures
            c == spec_transparent(),
    {
        HexColor { r: 0, g: 0, b: 0, a: 0 }
    }

    pub fn from_rgba8(r: u8, g: u8, b: u8, a: u8) -> (c: HexColor)
        ensures
            c == rgba(r, g, b, a),
    {
        HexColor { r, g, b, a }
    }
}

pub open spec fn is_hex_digit(c: char) -> bool {
    ('0' <= c <= '9') || ('a' <= c <= 'f') || ('A' <= c <= 'F')
}

pub open spec fn hex_value(c: char) -> int {
    if '0' <= c <= '9' {
        c as int - '0' as int
    } else if 'a' <= c <= 'f' {
        c as int - 'a' as int + 10
    } else {
        c as int - 'A' as int + 10
    }
}

/// ASCII letters folded to lower case, compared as code points.
pub open spec fn lower_code(c: char) -> u32 {
    if 'A' <= c <= 'Z' {
        (c as u32 + 32) as u32
    } else {
        c as u32
    }
}

/// `s` equals the lower-case ASCII word `w` when ASCII case is ignored.
pub open spec fn is_word(s: Seq<char>, w: Seq<char>) -> bool {
    s.len() == w.len() && forall|i: int| 0 <= i < s.len() ==> lower_code(s[i]) == w[i] as u32
}

pub open spec fn word_black() -> Seq<char> {
    seq!['b', 'l', 'a', 'c', 'k']
}

pub open spec fn word_white() -> Seq<char> {
    seq!['w', 'h', 'i', 't', 'e']
}

pub open spec fn word_transparent() -> Seq<char> {
    seq!['t', 'r', 'a', 'n', 's', 'p', 'a', 'r', 'e', 'n', 't']
}

pub open spec fn byte_at(hex: Seq<char>, pos: int) -> Result<u8, ColorError> {
    if is_hex_digit(hex[pos]) && is_hex_digit(hex[pos + 1]) {
        Ok((16 * hex_value(hex[pos]) + hex_value(hex[pos + 1])) as u8)
    } else {
        Err(ColorError::InvalidHexByte(pos as usize))
    }
}

pub open spec fn digit_at(hex: Seq<char>, pos: int) -> Result<u8, ColorError> {
    if is_hex_digit(hex[pos]) {
        Ok(hex_value(hex[pos]) as u8)
    } else {
        Err(ColorError::InvalidHexDigit(pos as usize))
    }
}

/// What a color token denotes: a name (any ASCII case), or `#` followed by
/// 3, 6 or 8 hexadecimal digits. Digits are read left to right and the
/// first bad one is reported.
pub open spec fn color_of(s: Seq<char>) -> Result<HexColor, ColorError> {
    if is_word(s, word_black()) {
        Ok(spec_black())
    } else if is_word(s, word_white()) {
        Ok(spec_white())
    } else if is_word(s, word_transparent()) {
        Ok(spec_transparent())
    } else if s.len() == 0 || s[0] != '#' {
        Err(ColorError::MissingPrefix)
    } else {
        let hex = s.drop_first();
        if hex.len() == 3 {
            match (digit_at(hex, 0), digit_at(hex, 1), digit_at(hex, 2)) {
                (Err(e), _, _) => Err(e),
                (Ok(_), Err(e), _) => Err(e),
                (Ok(_), Ok(_), Err(e)) => Err(e),
                (Ok(r), Ok(g), Ok(b)) => Ok(rgba((17 * r) as u8, (17 * g) as u8, (17 * b) as u8, 255)),
            }
        } else if hex.len() == 6 {
            match (byte_at(hex, 0), byte_at(hex, 2), byte_at(hex, 4)) {
                (Err(e), _, _) => Err(e),
                (Ok(_), Err(e), _) => Err(e),
                (Ok(_), Ok(_), Err(e)) => Err(e),
                (Ok(r), Ok(g), Ok(b)) => Ok(rgba(r, g, b, 255)),
            }
        } else if hex.len() == 8 {
            match (byte_at(hex, 0), byte_at(hex, 2), byte_at(hex, 4), byte_at(hex, 6)) {
                (Err(e), _, _, _) => Err(e),
                (Ok(_), Err(e), _, _) => Err(e),
                (Ok(_), Ok(_), Err(e), _) => Err(e),
                (Ok(_), Ok(_), Ok(_), Err(e)) => Err(e),
                (Ok(r), Ok(g), Ok(b), Ok(a)) => Ok(rgba(r, g, b, a)),
            }
        } else {
            Err(ColorError::WrongLength(hex.len() as usize))
        }
    }
}

pub open spec fn upper_digits() -> Seq<char> {
    seq!['0', '1', '2', '3', '4', '5', '6', '7', '8', '9', 'A', 'B', 'C', 'D', 'E', 'F']
}

/// Two upper-case hexadecimal digits.
pub open spec fn byte_hex(v: u8) -> Seq<char> {
    seq![upper_digits()[(v / 16) as int], upper_digits()[(v % 16) as int]]
}

/// The canonical token: `#RRGGBB` when opaque, `#RRGGBBAA` otherwise.
pub open spec fn canonical_hex(c: HexColor) -> Seq<char> {
    let rgb = seq!['#'] + byte_hex(c.r) + byte_hex(c.g) + byte_hex(c.b);
    if c.a == 255 {
        rgb
    } else {
        rgb + byte_hex(c.a)
    }
}

fn hex_digit_value(c: char) -> (r: Option<u8>)
    ensures
        r == (if is_hex_digit(c) {
            Some(hex_value(c) as u8)
        } else {
            None::<u8>
        }),
{
    if '0' <= c && c <= '9' {
        Some(((c as u32) - ('0' as u32)) as u8)
    } else if 'a' <= c && c <= 'f' {
        Some(((c as u32) - ('a' as u32) + 10) as u8)
    } else if 'A' <= c && c <= 'F' {
        Some(((c as u32) - ('A' as u32) + 10) as u8)
    } else {
        None
    }
}

/// Reads the single hexadecimal digit at `pos`.
pub fn parse_hex_digit(hex: &[char], pos: usize) -> (r: Result<u8, ColorError>)
    requires
        pos < hex@.len(),
    ensures
        r == digit_at(hex@, pos as int),
{
    match hex_digit_value(hex[pos]) {
        Some(v) => Ok(v),
        None => Err(ColorError::InvalidHexDigit(pos)),
    }
}

/// Reads the byte written as two hexadecimal digits at `pos` and `pos + 1`.
pub fn parse_hex_byte(hex: &[char], pos: usize) -> (r: Result<u8, ColorError>)
    requires
        pos + 1 < hex@.len(),
    ensures
        r == byte_at(hex@, pos as int),
{
    match (hex_digit_value(hex[pos]), hex_digit_value(hex[pos + 1])) {
        (Some(hi), Some(lo)) => Ok(hi * 16 + lo),
        _ => Err(ColorError::InvalidHexByte(pos)),
    }
}

fn is_word_exec(cs: &[char], w: &[char]) -> (r: bool)
    requires
        forall|i: int| 0 <= i < w@.len() ==> 'a' <= #[trigger] w@[i] <= 'z',
    ensures
        r == is_word(cs@, w@),
{
    if cs.len() != w.len() {
        return false;
    }
    let mut i: usize = 0;
    while i < cs.len()
        invariant
            cs@.len() == w@.len(),
            i <= cs@.len(),
            forall|j: int| 0 <= j < i ==> lower_code(cs@[j]) == w@[j] as u32,
        decreases cs@.len() - i,
    {
        let c = cs[i];
        let code: u32 = if 'A' <= c && c <= 'Z' {
            (c as u32) + 32
        } else {
            c as u32
        };
        if code != (w[i] as u32) {
            return false;
        }
        i = i + 1;
    }
    true
}

/// Parses a color token held as characters.
pub fn parse_color_chars(s: &[char]) -> (r: Result<HexColor, ColorError>)
    ensures
        r == color_of(s@),
{
    let black = ['b', 'l', 'a', 'c', 'k'];
    let white = ['w', 'h', 'i', 't', 'e'];
    let transparent = ['t', 'r', 'a', 'n', 's', 'p', 'a', 'r', 'e', 'n', 't'];
    assert(black@ == word_black());
    assert(white@ == word_white());
    assert(transparent@ == word_transparent());
    if is_word_exec(s, &black) {
        return Ok(HexColor::black());
    }
    if is_word_exec(s, &white) {
        return Ok(HexColor::white());
    }
    if is_word_exec(s, &transparent) {
        return Ok(HexColor::transparent());
    }
    if s.len() == 0 || s[0] != '#' {
        return Err(ColorError::MissingPrefix);
    }
    let hex = crate::text::slice_chars(s, 1, s.len());
    assert(hex@ == s@.drop_first());
    let n = hex.len();
    if n == 3 {
        let r = parse_hex_digit(&hex, 0)?;
        let g = parse_hex_digit(&hex, 1)?;
        let b = parse_hex_digit(&hex, 2)?;
        Ok(HexColor { r: r * 16 + r, g: g * 16 + g, b: b * 16 + b, a: 255 })
    } else if n == 6 {
        let r = parse_hex_byte(&hex, 0)?;
        let g = parse_hex_byte(&hex, 2)?;
        let b = parse_hex_byte(&hex, 4)?;
        Ok(HexColor { r, g, b, a: 255 })
    } else if n == 8 {
        let r = parse_hex_byte(&hex, 0)?;
        let g = parse_hex_byte(&hex, 2)?;
        let b = parse_hex_byte(&hex, 4)?;
        let a = parse_hex_byte(&hex, 6)?;
        Ok(HexColor { r, g, b, a })
    } else {
        Err(ColorError::WrongLength(n))
    }
}

/// Parses a color token: `#RGB`, `#RRGGBB`, `#RRGGBBAA`, or one of the
/// names `black`, `white`, `transparent` in any ASCII case.
pub fn parse_color(s: &str) -> (r: Result<HexColor, ColorError>)
    ensures
        r == color_of(s@),
{
    let cs = chars_of(s);
    parse_color_chars(&cs)
}

fn upper_digit(d: u8) -> (c: char)
    requires
        d < 16,
    ensures
        c == upper_digits()[d as int],
{
    let digits: [char; 16] = [
        '0', '1', '2', '3', '4', '5', '6', '7', '8', '9', 'A', 'B', 'C', 'D', 'E', 'F',
    ];
    assert(digits@ == upper_digits());
    digits[d as usize]
}

fn push_byte(out: &mut String, v: u8)
    ensures
        final(out)@ == old(out)@ + byte_hex(v),
{
    push_char(out, upper_digit(v / 16));
    push_char(out, upper_digit(v % 16));
    assert(old(out)@.push(upper_digits()[(v / 16) as int]).push(upper_digits()[(v % 16) as int]) =~= old(out)@
        + byte_hex(v));
}

impl HexColor {
    /// The canonical token for this color: `#RRGGBB` when it is opaque,
    /// `#RRGGBBAA` otherwise, with upper-case digits.
    pub fn to_hex(&self) -> (r: String)
        ensures
            r@ == canonical_hex(*self),
    {
        let mut out = String::new();
        push_char(&mut out, '#');
        push_byte(&mut out, self.r);
        push_byte(&mut out, self.g);
        push_byte(&mut out, self.b);
        if self.a != 255 {
            push_byte(&mut out, self.a);
        }
        assert(out@ =~= canonical_hex(*self));
        out
    }
}

pub open spec fn color_error_text(e: ColorError) -> Seq<char> {
    match e {
        ColorError::MissingPrefix => "expected '#' prefix or a named color"@,
        ColorError::WrongLength(n) => "expected 3, 6, or 8 hex digits after '#', got "@ + decimal(
            n as nat,
        ),
        ColorError::InvalidHexDigit(p) => "invalid hex digit at position "@ + decimal(p as nat),
        ColorError::InvalidHexByte(p) => "invalid hex byte at position "@ + decimal(p as nat),
    }
}

impl ColorError {
    /// A sentence describing the error.
    pub fn message(&self) -> (r: String)
        ensures
            r@ == color_error_text(*self),
    {
        let mut out = String::new();
        match self {
            ColorError::MissingPrefix => {
                append_str(&mut out, "expected '#' prefix or a named color");
            },
            ColorError::WrongLength(n) => {
                append_str(&mut out, "expected 3, 6, or 8 hex digits after '#', got ");
                append_decimal(&mut out, *n as u64);
            },
            ColorError::InvalidHexDigit(p) => {
                append_str(&mut out, "invalid hex digit at position ");
                append_decimal(&mut out, *p as u64);
            },
            ColorError::InvalidHexByte(p) => {
                append_str(&mut out, "invalid hex byte at position ");
                append_decimal(&mut out, *p as u64);
            },
        }
        out
    }
}

/// The upper-case form of a hexadecimal digit.
pub open spec fn upper_hex_char(c: char) -> char {
    upper_digits()[hex_value(c)]
}

/// A 6- or 8-digit token, parsed and printed back in canonical form, gives
/// the token again with upper-case digits. An 8-digit token whose alpha is
/// `FF` prints in the 6-digit form instead, so it is left out.
pub proof fn lemma_hex_round_trip(h: Seq<char>)
    requires
        h.len() == 7 || h.len() == 9,
        h[0] == '#',
        forall|i: int| 1 <= i < h.len() ==> is_hex_digit(#[trigger] h[i]),
        h.len() == 9 ==> !(hex_value(h[7]) == 15 && hex_value(h[8]) == 15),
    ensures
        color_of(h) is Ok,
        canonical_hex(color_of(h)->Ok_0) == seq!['#'] + h.drop_first().map_values(
            |c: char| upper_hex_char(c),
        ),
{
    assert(!is_word(h, word_black()));
    assert(!is_word(h, word_white()));
    assert(!is_word(h, word_transparent()));
    let hex = h.drop_first();
    assert forall|i: int| 0 <= i < hex.len() implies is_hex_digit(#[trigger] hex[i]) by {
        assert(hex[i] == h[i + 1]);
    }
    assert forall|i: int| 0 <= i < hex.len() implies 0 <= #[trigger] hex_value(hex[i]) < 16 by {
        assert(is_hex_digit(hex[i]));
    }
    let c = color_of(h)->Ok_0;
    assert(0 <= hex_value(hex[0]) < 16 && 0 <= hex_value(hex[1]) < 16);
    assert(0 <= hex_value(hex[2]) < 16 && 0 <= hex_value(hex[3]) < 16);
    assert(0 <= hex_value(hex[4]) < 16 && 0 <= hex_value(hex[5]) < 16);
    assert(c.r == 16 * hex_value(hex[0]) + hex_value(hex[1]));
    assert(c.g == 16 * hex_value(hex[2]) + hex_value(hex[3]));
    assert(c.b == 16 * hex_value(hex[4]) + hex_value(hex[5]));
    if h.len() == 9 {
        assert(0 <= hex_value(hex[6]) < 16 && 0 <= hex_value(hex[7]) < 16);
        assert(c.a == 16 * hex_value(hex[6]) + hex_value(hex[7]));
        assert(c.a != 255);
    }
    assert(canonical_hex(c) =~= seq!['#'] + hex.map_values(|c: char| upper_hex_char(c)));
}

/// A 3-digit token stands for the 6-digit token with each digit doubled.
pub proof fn lemma_short_hex_expands(h: Seq<char>)
    requires
        h.len() == 4,
        h[0] == '#',
        forall|i: int| 1 <= i < 4 ==> is_hex_digit(#[trigger] h[i]),
    ensures
        color_of(h) is Ok,
        canonical_hex(color_of(h)->Ok_0) == seq![
            '#',
            upper_hex_char(h[1]),
            upper_hex_char(h[1]),
            upper_hex_char(h[2]),
            upper_hex_char(h[2]),
            upper_hex_char(h[3]),
            upper_hex_char(h[3]),
        ],
{
    assert(!is_word(h, word_black()));
    assert(!is_word(h, word_white()));
    assert(!is_word(h, word_transparent()));
    let hex = h.drop_first();
    assert(hex[0] == h[1] && hex[1] == h[2] && hex[2] == h[3]);
    assert(is_hex_digit(h[1]) && is_hex_digit(h[2]) && is_hex_digit(h[3]));
    let c = color_of(h)->Ok_0;
    assert(c.r == 17 * hex_value(h[1]));
    assert(canonical_hex(c) =~= seq![
        '#',
        upper_hex_char(h[1]),
        upper_hex_char(h[1]),
        upper_hex_char(h[2]),
        upper_hex_char(h[2]),
        upper_hex_char(h[3]),
        upper_hex_char(h[3]),
    ]);
}

} // verus!
