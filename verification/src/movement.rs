//! What the player's input and the physics step mean for the character.

use vstd::prelude::*;

verus! {

/// The direction that the pressed keys ask for on one axis: `1` towards
/// `forward`, `-1` towards `backward`, `0` where neither or both are pressed.
pub fn intent_axis(forward: bool, backward: bool) -> (r: i8)
    ensures
        r == (if forward { 1int } else { 0 }) - (if backward { 1int } else { 0 }),
{
    let mut intent: i8 = 0;
    if forward {
        intent = intent + 1;
    }
    if backward {
        intent = intent - 1;
    }
    intent
}

/// Whether the character stands on the ground after a physics step. A
/// character in the air lands when the step reports ground contact while it
/// was moving down and was held up on the way; a character on the ground
/// stays there as long as the step reports ground contact.
pub fn detect_ground(is_on_ground: bool, grounded: bool, descending: bool, held_up: bool) -> (r: bool)
    ensures
        r == if is_on_ground {
            grounded
        } else {
            grounded && descending && held_up
        },
{
    if !is_on_ground {
        grounded && descending && held_up
    } else if !grounded {
        false
    } else {
        is_on_ground
    }
}

} // verus!
