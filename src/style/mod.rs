//! Style sections: each widget kind has a set of optional fields (a layer),
//! override layers for its states and statuses, and resolves them into one
//! fully defaulted appearance per reachable state.
use vstd::prelude::*;

use crate::color::{spec_transparent, HexColor};
use crate::decode::{radius_spec, uniform, Radius, RadiusRaw};
use crate::value::Fixed;

pub mod button;
pub mod checkbox;
pub mod container;
pub mod progress_bar;
pub mod radio;
pub mod slider;
pub mod text_input;
pub mod toggler;

verus! {

/// `over` when it is set, `base` otherwise.
pub open spec fn pick<T>(over: Option<T>, base: Option<T>) -> Option<T> {
    if over is Some {
        over
    } else {
        base
    }
}

pub proof fn lemma_pick_associative<T>(a: Option<T>, b: Option<T>, c: Option<T>)
    ensures
        pick(c, pick(b, a)) == pick(pick(c, b), a),
{
}

pub fn or_else<T: Copy>(over: Option<T>, base: Option<T>) -> (r: Option<T>)
    ensures
        r == pick(over, base),
{
    match over {
        Some(x) => Some(x),
        None => base,
    }
}

pub fn value_or<T: Copy>(v: Option<T>, default: T) -> (r: T)
    ensures
        r == (match v {
            Some(x) => x,
            None => default,
        }),
{
    match v {
        Some(x) => x,
        None => default,
    }
}

/// A set of optional fields that can be laid over another: each field of
/// the upper layer that is set wins, the others come from below.
pub trait Layer: Sized {
    spec fn merged(self, over: Self) -> Self;

    fn merge(self, over: &Self) -> (r: Self)
        ensures
            r == self.merged(*over),
    ;

    /// Laying `b` then `c` over `a` is laying over `a` the layer that `c`
    /// over `b` makes.
    proof fn lemma_merge_associative(a: Self, b: Self, c: Self)
        ensures
            a.merged(b).merged(c) == a.merged(b.merged(c)),
    ;
}

/// `base` with `over` laid on it, when there is one.
pub open spec fn layered<F: Layer>(base: F, over: Option<F>) -> F {
    match over {
        Some(l) => base.merged(l),
        None => base,
    }
}

pub fn lay<F: Layer + Copy>(base: F, over: Option<&F>) -> (r: F)
    ensures
        r == layered(base, match over {
            Some(l) => Some(*l),
            None => None,
        }),
{
    match over {
        Some(l) => base.merge(l),
        None => base,
    }
}

/// The cascade of a stateful widget: base, then the state layer, then the
/// status layer, then the layer for that status and state together.
pub open spec fn cascade<F: Layer>(
    base: F,
    state: Option<F>,
    status: Option<F>,
    combined: Option<F>,
) -> F {
    layered(layered(layered(base, state), status), combined)
}

pub open spec fn opt_ref<F>(o: Option<&F>) -> Option<F> {
    match o {
        Some(l) => Some(*l),
        None => None,
    }
}

pub fn cascade_layers<F: Layer + Copy>(
    base: F,
    state: Option<&F>,
    status: Option<&F>,
    combined: Option<&F>,
) -> (r: F)
    ensures
        r == cascade(base, opt_ref(state), opt_ref(status), opt_ref(combined)),
{
    let a = lay(base, state);
    let b = lay(a, status);
    lay(b, combined)
}

/// A border: color, width and corner radii.
#[derive(Clone, Copy, Debug, PartialEq, Eq, Structural)]
pub struct Border {
    pub color: HexColor,
    pub width: Fixed,
    pub radius: Radius,
}

/// A drop shadow: color, offset and blur radius.
#[derive(Clone, Copy, Debug, PartialEq, Eq, Structural)]
pub struct Shadow {
    pub color: HexColor,
    pub offset_x: Fixed,
    pub offset_y: Fixed,
    pub blur_radius: Fixed,
}

pub open spec fn zero() -> Fixed {
    Fixed { milli: 0 }
}

/// Border fields with their defaults: transparent, zero width, square.
pub open spec fn border_of(
    width: Option<Fixed>,
    color: Option<HexColor>,
    radius: Option<RadiusRaw>,
) -> Border {
    Border {
        color: match color {
            Some(c) => c,
            None => spec_transparent(),
        },
        width: match width {
            Some(w) => w,
            None => zero(),
        },
        radius: match radius {
            Some(r) => radius_spec(r),
            None => uniform(zero()),
        },
    }
}

/// Shadow fields with their defaults: transparent, no offset, no blur.
pub open spec fn shadow_of(
    color: Option<HexColor>,
    offset_x: Option<Fixed>,
    offset_y: Option<Fixed>,
    blur_radius: Option<Fixed>,
) -> Shadow {
    Shadow {
        color: match color {
            Some(c) => c,
            None => spec_transparent(),
        },
        offset_x: match offset_x {
            Some(x) => x,
            None => zero(),
        },
        offset_y: match offset_y {
            Some(y) => y,
            None => zero(),
        },
        blur_radius: match blur_radius {
            Some(b) => b,
            None => zero(),
        },
    }
}

pub fn resolve_border(
    width: Option<Fixed>,
    color: Option<HexColor>,
    radius: Option<RadiusRaw>,
) -> (r: Border)
    ensures
        r == border_of(width, color, radius),
{
    let zero = Fixed { milli: 0 };
    Border {
        color: value_or(color, HexColor::transparent()),
        width: value_or(width, zero),
        radius: match radius {
            Some(r) => r.into_radius(),
            None => Radius::uniform(zero),
        },
    }
}

pub fn resolve_shadow(
    color: Option<HexColor>,
    offset_x: Option<Fixed>,
    offset_y: Option<Fixed>,
    blur_radius: Option<Fixed>,
) -> (r: Shadow)
    ensures
        r == shadow_of(color, offset_x, offset_y, blur_radius),
{
    let zero = Fixed { milli: 0 };
    Shadow {
        color: value_or(color, HexColor::transparent()),
        offset_x: value_or(offset_x, zero),
        offset_y: value_or(offset_y, zero),
        blur_radius: value_or(blur_radius, zero),
    }
}

} // verus!
