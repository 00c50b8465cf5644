//! Game rules of a tile-based platformer: the catalog of levels, the state
//! machine that leads a session from one level to the next, the tick guard,
//! the score counters and the sprite animation clocks.
//!
//! Every function here is verified. Rendering, physics and input stay with the
//! engine; this crate decides what happens next and says so in its contracts.

pub mod frames;
pub mod catalog;
pub mod clock;
pub mod animation;
pub mod score;
pub mod settings;
pub mod fade;
pub mod progression;
pub mod title;
pub mod audio;
pub mod movement;
