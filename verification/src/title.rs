//! The title screen: it fades in, waits for the player to pick an entry of
//! the menu, and fades out towards what was picked.

use vstd::prelude::*;
use crate::fade::FADE_MILLIS;
use crate::settings::GameSettings;

verus! {

/// Where the title screen stands.
#[derive(Debug, Clone, Copy, PartialEq, Eq, Hash, Structural)]
pub enum TitleState {
    /// The title screen is not shown.
    Inactive,
    /// The screen before it fades out.
    EnterFadingOut,
    /// The menu fades in.
    EnterFadingIn,
    /// The menu waits for the player.
    Active,
    /// The menu fades out towards the game.
    ActionPlayFadingOut,
    /// The menu fades out towards the end of the program.
    ActionExitFadingOut,
}

impl Default for TitleState {
    fn default() -> (r: TitleState)
        ensures
            r == TitleState::Inactive,
    {
        TitleState::Inactive
    }
}

/// An entry of the menu.
#[derive(Debug, Clone, Copy, PartialEq, Eq, Structural)]
pub enum TitleAction {
    Play,
    SoundToggle,
    Credits,
    Exit,
}

/// What the title screen asks the engine to do.
#[derive(Debug, Clone, Copy, PartialEq, Eq, Structural)]
pub enum TitleCommand {
    /// Fade the screen out over `millis` milliseconds.
    FadeOut { millis: u32 },
    /// Fade the screen in over `millis` milliseconds.
    FadeIn { millis: u32 },
    /// Go on to the game.
    ShowPlaying,
    /// Go on to the credits.
    ShowCredits,
    /// The sound setting has changed: make the sound and the button follow.
    ToggleSound,
    /// End the program.
    Exit,
}

impl TitleState {
    /// The state and the command on entering the title screen: the screen
    /// fades out first.
    pub fn fade_on_enter() -> (r: (TitleState, TitleCommand))
        ensures
            r == (TitleState::EnterFadingOut, TitleCommand::FadeOut { millis: FADE_MILLIS }),
    {
        (TitleState::EnterFadingOut, TitleCommand::FadeOut { millis: FADE_MILLIS })
    }

    /// The state after a fade has completed.
    pub open spec fn after_fade(self) -> TitleState {
        match self {
            TitleState::EnterFadingOut => TitleState::EnterFadingIn,
            TitleState::EnterFadingIn => TitleState::Active,
            TitleState::ActionPlayFadingOut => TitleState::Inactive,
            _ => self,
        }
    }

    /// The command that a completed fade yields.
    pub open spec fn fade_command(self) -> Option<TitleCommand> {
        match self {
            TitleState::EnterFadingOut => Some(TitleCommand::FadeIn { millis: FADE_MILLIS }),
            TitleState::ActionPlayFadingOut => Some(TitleCommand::ShowPlaying),
            TitleState::ActionExitFadingOut => Some(TitleCommand::Exit),
            _ => None,
        }
    }

    /// Takes note that a fade has completed: after the opening fade-out the
    /// menu fades in, after the fade-in it waits for the player, and after a
    /// closing fade-out what the player picked happens. In the other states
    /// nothing changes.
    pub fn on_fade_completed(&mut self) -> (r: Option<TitleCommand>)
        ensures
            *final(self) == old(self).after_fade(),
            r == old(self).fade_command(),
    {
        match *self {
            TitleState::EnterFadingOut => {
                *self = TitleState::EnterFadingIn;
                Some(TitleCommand::FadeIn { millis: FADE_MILLIS })
            },
            TitleState::EnterFadingIn => {
                *self = TitleState::Active;
                None
            },
            TitleState::ActionPlayFadingOut => {
                *self = TitleState::Inactive;
                Some(TitleCommand::ShowPlaying)
            },
            TitleState::ActionExitFadingOut => Some(TitleCommand::Exit),
            _ => None,
        }
    }

    /// The state after the player has picked `action`.
    pub open spec fn after_action(self, action: TitleAction) -> TitleState {
        match action {
            TitleAction::Play => TitleState::ActionPlayFadingOut,
            TitleAction::Exit => TitleState::ActionExitFadingOut,
            _ => self,
        }
    }

    /// The command that picking `action` yields.
    pub open spec fn action_command(action: TitleAction) -> TitleCommand {
        match action {
            TitleAction::Play => TitleCommand::FadeOut { millis: FADE_MILLIS },
            TitleAction::SoundToggle => TitleCommand::ToggleSound,
            TitleAction::Credits => TitleCommand::ShowCredits,
            TitleAction::Exit => TitleCommand::FadeOut { millis: FADE_MILLIS },
        }
    }

    /// Takes note that the player has picked `action`: playing and leaving
    /// start a fade-out, the sound entry turns the sound setting over, the
    /// credits are shown at once.
    pub fn handle_title_action(&mut self, settings: &mut GameSettings, action: TitleAction) -> (r: TitleCommand)
        ensures
            *final(self) == old(self).after_action(action),
            final(settings).sound_enabled == if action == TitleAction::SoundToggle {
                !old(settings).sound_enabled
            } else {
                old(settings).sound_enabled
            },
            r == TitleState::action_command(action),
    {
        match action {
            TitleAction::Play => {
                *self = TitleState::ActionPlayFadingOut;
                TitleCommand::FadeOut { millis: FADE_MILLIS }
            },
            TitleAction::SoundToggle => {
                settings.toggle_sound();
                TitleCommand::ToggleSound
            },
            TitleAction::Credits => TitleCommand::ShowCredits,
            TitleAction::Exit => {
                *self = TitleState::ActionExitFadingOut;
                TitleCommand::FadeOut { millis: FADE_MILLIS }
            },
        }
    }
}

} // verus!
