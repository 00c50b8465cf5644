//! Which sound is to be played, if any.

use vstd::prelude::*;
use crate::settings::GameSettings;

verus! {

/// A sound effect of the game.
#[derive(Debug, Clone, Copy, PartialEq, Eq, Hash, Structural)]
pub enum SfxKey {
    Jump,
    CollectDuckling,
}

/// A soundtrack of the game.
#[derive(Debug, Clone, Copy, PartialEq, Eq, Hash, Structural)]
pub enum SoundtrackKey {
    Credits,
}

/// A request to play a single sound effect.
#[derive(Debug, Clone, Copy, PartialEq, Eq, Structural)]
pub enum PlaySfx {
    Key(SfxKey),
    Jump,
    CollectDuckling,
}

/// A request to play a soundtrack, or to stop the one that plays. A new
/// soundtrack takes the place of the one before it.
#[derive(Debug, Clone, Copy, PartialEq, Eq, Structural)]
pub enum PlaySoundtrack {
    Key(SoundtrackKey),
    Disable,
}

impl PlaySfx {
    /// The sound effect that the request names.
    pub open spec fn key(self) -> SfxKey {
        match self {
            PlaySfx::Key(key) => key,
            PlaySfx::Jump => SfxKey::Jump,
            PlaySfx::CollectDuckling => SfxKey::CollectDuckling,
        }
    }
}

/// The sound effect to play on `request`: the one it names, and none while
/// the sound is off.
pub fn play_sfx(settings: &GameSettings, request: PlaySfx) -> (r: Option<SfxKey>)
    ensures
        r == if settings.sound_enabled {
            Some(request.key())
        } else {
            None
        },
{
    if !settings.sound_enabled {
        return None;
    }
    let sfx_key = match request {
        PlaySfx::Key(key) => key,
        PlaySfx::Jump => SfxKey::Jump,
        PlaySfx::CollectDuckling => SfxKey::CollectDuckling,
    };
    Some(sfx_key)
}

/// The soundtrack to start on `request`, once the one that plays has been
/// stopped: the one it names, and none while the sound is off or where the
/// request is to stop.
pub fn play_soundtrack(settings: &GameSettings, request: PlaySoundtrack) -> (r: Option<SoundtrackKey>)
    ensures
        r == match request {
            PlaySoundtrack::Key(key) if settings.sound_enabled => Some(key),
            _ => None,
        },
{
    if !settings.sound_enabled {
        return None;
    }
    match request {
        PlaySoundtrack::Key(key) => Some(key),
        PlaySoundtrack::Disable => None,
    }
}

} // verus!
