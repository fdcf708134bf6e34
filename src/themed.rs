//! Applying a resolved style to a widget in a builder chain.
use vstd::prelude::*;

verus! {

/// Implemented by widget types that can take a resolved style of kind `S`:
/// `themed(Some(style))` applies it, `themed(None)` returns the widget as
/// it was.
pub trait Themed<S>: Sized {
    fn themed(self, style: Option<&S>) -> Self;
}

} // verus!
