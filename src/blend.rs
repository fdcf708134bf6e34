//! Color transformations computed by the `farver` crate. Each result is a
//! function of the arguments alone and is named here; the expression
//! evaluator is verified against these names.
use vstd::prelude::*;

use farver::Color as _;

verus! {

pub uninterp spec fn darkened(c: (u8, u8, u8), pct: u8) -> (u8, u8, u8);

pub uninterp spec fn lightened(c: (u8, u8, u8), pct: u8) -> (u8, u8, u8);

pub uninterp spec fn saturated(c: (u8, u8, u8), pct: u8) -> (u8, u8, u8);

pub uninterp spec fn desaturated(c: (u8, u8, u8), pct: u8) -> (u8, u8, u8);

pub uninterp spec fn tinted(c: (u8, u8, u8), pct: u8) -> (u8, u8, u8);

pub uninterp spec fn shaded(c: (u8, u8, u8), pct: u8) -> (u8, u8, u8);

pub uninterp spec fn greyed(c: (u8, u8, u8)) -> (u8, u8, u8);

pub uninterp spec fn spun(c: (u8, u8, u8), degrees: i32) -> (u8, u8, u8);

pub uninterp spec fn mixed(c1: (u8, u8, u8), c2: (u8, u8, u8), pct: u8) -> (u8, u8, u8, u8);

/// Relies on farver's `Color::darken` of `rgb(r, g, b)` by `percent(pct)`,
/// which panics above 100.
#[verifier::external_body]
pub(crate) fn darken(c: (u8, u8, u8), pct: u8) -> (r: (u8, u8, u8))
    requires
        pct <= 100,
    ensures
        r == darkened(c, pct),
{
    let out = farver::rgb(c.0, c.1, c.2).darken(farver::percent(pct));
    (out.r.as_u8(), out.g.as_u8(), out.b.as_u8())
}

/// Relies on farver's `Color::lighten` of `rgb(r, g, b)` by `percent(pct)`,
/// which panics above 100.
#[verifier::external_body]
pub(crate) fn lighten(c: (u8, u8, u8), pct: u8) -> (r: (u8, u8, u8))
    requires
        pct <= 100,
    ensures
        r == lightened(c, pct),
{
    let out = farver::rgb(c.0, c.1, c.2).lighten(farver::percent(pct));
    (out.r.as_u8(), out.g.as_u8(), out.b.as_u8())
}

/// Relies on farver's `Color::saturate` of `rgb(r, g, b)` by `percent(pct)`,
/// which panics above 100.
#[verifier::external_body]
pub(crate) fn saturate(c: (u8, u8, u8), pct: u8) -> (r: (u8, u8, u8))
    requires
        pct <= 100,
    ensures
        r == saturated(c, pct),
{
    let out = farver::rgb(c.0, c.1, c.2).saturate(farver::percent(pct));
    (out.r.as_u8(), out.g.as_u8(), out.b.as_u8())
}

/// Relies on farver's `Color::desaturate` of `rgb(r, g, b)` by
/// `percent(pct)`, which panics above 100.
#[verifier::external_body]
pub(crate) fn desaturate(c: (u8, u8, u8), pct: u8) -> (r: (u8, u8, u8))
    requires
        pct <= 100,
    ensures
        r == desaturated(c, pct),
{
    let out = farver::rgb(c.0, c.1, c.2).desaturate(farver::percent(pct));
    (out.r.as_u8(), out.g.as_u8(), out.b.as_u8())
}

/// Relies on farver's `Color::tint` (a mix with white) of `rgb(r, g, b)` by
/// `percent(pct)`, which panics above 100.
#[verifier::external_body]
pub(crate) fn tint(c: (u8, u8, u8), pct: u8) -> (r: (u8, u8, u8))
    requires
        pct <= 100,
    ensures
        r == tinted(c, pct),
{
    let out = farver::rgb(c.0, c.1, c.2).tint(farver::percent(pct));
    (out.r.as_u8(), out.g.as_u8(), out.b.as_u8())
}

/// Relies on farver's `Color::shade` (a mix with black) of `rgb(r, g, b)` by
/// `percent(pct)`, which panics above 100.
#[verifier::external_body]
pub(crate) fn shade(c: (u8, u8, u8), pct: u8) -> (r: (u8, u8, u8))
    requires
        pct <= 100,
    ensures
        r == shaded(c, pct),
{
    let out = farver::rgb(c.0, c.1, c.2).shade(farver::percent(pct));
    (out.r.as_u8(), out.g.as_u8(), out.b.as_u8())
}

/// Relies on farver's `Color::greyscale` of `rgb(r, g, b)`.
#[verifier::external_body]
pub(crate) fn greyscale(c: (u8, u8, u8)) -> (r: (u8, u8, u8))
    ensures
        r == greyed(c),
{
    let out = farver::rgb(c.0, c.1, c.2).greyscale();
    (out.r.as_u8(), out.g.as_u8(), out.b.as_u8())
}

/// Relies on farver's `Color::spin` of `rgb(r, g, b)` by `deg(degrees)`,
/// which accepts any `i32` and reduces it to 0..360.
#[verifier::external_body]
pub(crate) fn spin(c: (u8, u8, u8), degrees: i32) -> (r: (u8, u8, u8))
    ensures
        r == spun(c, degrees),
{
    let out = farver::rgb(c.0, c.1, c.2).spin(farver::deg(degrees));
    (out.r.as_u8(), out.g.as_u8(), out.b.as_u8())
}

/// Relies on farver's `Color::mix` of `rgb(c1)` with `rgb(c2)`, weighted
/// by `percent(pct)` towards `c1`, which panics above 100. The result
/// carries an alpha channel.
#[verifier::external_body]
pub(crate) fn mix(c1: (u8, u8, u8), c2: (u8, u8, u8), pct: u8) -> (r: (u8, u8, u8, u8))
    requires
        pct <= 100,
    ensures
        r == mixed(c1, c2, pct),
{
    let out = farver::rgb(c1.0, c1.1, c1.2).mix(
        farver::rgb(c2.0, c2.1, c2.2),
        farver::percent(pct),
    );
    (out.r.as_u8(), out.g.as_u8(), out.b.as_u8(), out.a.as_u8())
}

} // verus!
