//! The fades that hide the change from one level to the next.

use vstd::prelude::*;

verus! {

/// How long each fade between levels takes, in milliseconds.
pub const FADE_MILLIS: u32 = 500;

/// The direction of a fade: out to black, or in from black.
#[derive(Debug, Clone, Copy, PartialEq, Eq, Structural)]
pub enum FaderType {
    FadeIn,
    FadeOut,
}

} // verus!
