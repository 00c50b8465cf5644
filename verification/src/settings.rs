//! What the player has chosen in the menu.

use vstd::prelude::*;

verus! {

/// The game's settings.
#[derive(Debug, Clone, Copy, PartialEq, Eq, Structural)]
pub struct GameSettings {
    pub sound_enabled: bool,
}

impl Default for GameSettings {
    /// Sound is on until the player turns it off.
    fn default() -> (r: GameSettings)
        ensures
            r.sound_enabled,
    {
        GameSettings { sound_enabled: true }
    }
}

impl GameSettings {
    /// Turns the sound off where it is on, and on where it is off.
    pub fn toggle_sound(&mut self)
        ensures
            final(self).sound_enabled == !old(self).sound_enabled,
    {
        self.sound_enabled = !self.sound_enabled;
    }

    /// The text of the menu's sound button.
    pub fn sound_label(&self) -> (r: &'static str)
        ensures
            r@ == if self.sound_enabled {
                "Sound: ON"@
            } else {
                "Sound: OFF"@
            },
    {
        if self.sound_enabled {
            "Sound: ON"
        } else {
            "Sound: OFF"
        }
    }
}

} // verus!
