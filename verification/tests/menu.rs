use dizzy_ducklings::audio::{play_sfx, play_soundtrack, PlaySfx, PlaySoundtrack, SfxKey, SoundtrackKey};
use dizzy_ducklings::fade::{FaderType, FADE_MILLIS};
use dizzy_ducklings::frames::{FrameCounter, MIN_LEVEL_TICKS};
use dizzy_ducklings::movement::{detect_ground, intent_axis};
use dizzy_ducklings::settings::GameSettings;
use dizzy_ducklings::title::{TitleAction, TitleCommand, TitleState};

#[test]
fn the_sound_is_on_until_it_is_turned_off() {
    let mut settings = GameSettings::default();
    assert!(settings.sound_enabled);
    assert_eq!(settings.sound_label(), "Sound: ON");
    settings.toggle_sound();
    assert!(!settings.sound_enabled);
    assert_eq!(settings.sound_label(), "Sound: OFF");
    settings.toggle_sound();
    assert_eq!(settings, GameSettings { sound_enabled: true });
}

#[test]
fn the_title_fades_out_in_and_waits() {
    assert_eq!(TitleState::default(), TitleState::Inactive);
    let (mut state, first) = TitleState::fade_on_enter();
    assert_eq!(state, TitleState::EnterFadingOut);
    assert_eq!(first, TitleCommand::FadeOut { millis: 500 });
    assert_eq!(state.on_fade_completed(), Some(TitleCommand::FadeIn { millis: 500 }));
    assert_eq!(state, TitleState::EnterFadingIn);
    assert_eq!(state.on_fade_completed(), None);
    assert_eq!(state, TitleState::Active);
    assert_eq!(state.on_fade_completed(), None);
    assert_eq!(state, TitleState::Active);
}

#[test]
fn playing_starts_after_the_menu_has_faded_out() {
    let mut settings = GameSettings::default();
    let mut state = TitleState::Active;
    assert_eq!(
        state.handle_title_action(&mut settings, TitleAction::Play),
        TitleCommand::FadeOut { millis: FADE_MILLIS }
    );
    assert_eq!(state, TitleState::ActionPlayFadingOut);
    assert_eq!(state.on_fade_completed(), Some(TitleCommand::ShowPlaying));
    assert_eq!(state, TitleState::Inactive);
    assert_eq!(state.on_fade_completed(), None);
    assert_eq!(state, TitleState::Inactive);
    assert!(settings.sound_enabled);
}

#[test]
fn leaving_ends_the_program_after_the_menu_has_faded_out() {
    let mut settings = GameSettings::default();
    let mut state = TitleState::Active;
    assert_eq!(
        state.handle_title_action(&mut settings, TitleAction::Exit),
        TitleCommand::FadeOut { millis: 500 }
    );
    assert_eq!(state, TitleState::ActionExitFadingOut);
    assert_eq!(state.on_fade_completed(), Some(TitleCommand::Exit));
    assert_eq!(state, TitleState::ActionExitFadingOut);
}

#[test]
fn the_other_entries_leave_the_menu_where_it_is() {
    let mut settings = GameSettings::default();
    let mut state = TitleState::Active;
    assert_eq!(
        state.handle_title_action(&mut settings, TitleAction::SoundToggle),
        TitleCommand::ToggleSound
    );
    assert_eq!(state, TitleState::Active);
    assert!(!settings.sound_enabled);
    assert_eq!(
        state.handle_title_action(&mut settings, TitleAction::Credits),
        TitleCommand::ShowCredits
    );
    assert_eq!(state, TitleState::Active);
    assert!(!settings.sound_enabled);
}

#[test]
fn a_sound_effect_plays_while_the_sound_is_on() {
    let on = GameSettings { sound_enabled: true };
    let off = GameSettings { sound_enabled: false };
    assert_eq!(play_sfx(&on, PlaySfx::Jump), Some(SfxKey::Jump));
    assert_eq!(play_sfx(&on, PlaySfx::CollectDuckling), Some(SfxKey::CollectDuckling));
    assert_eq!(play_sfx(&on, PlaySfx::Key(SfxKey::Jump)), Some(SfxKey::Jump));
    assert_eq!(play_sfx(&off, PlaySfx::Jump), None);
    assert_eq!(play_sfx(&off, PlaySfx::Key(SfxKey::CollectDuckling)), None);
}

#[test]
fn a_soundtrack_starts_while_the_sound_is_on() {
    let on = GameSettings { sound_enabled: true };
    let off = GameSettings { sound_enabled: false };
    assert_eq!(
        play_soundtrack(&on, PlaySoundtrack::Key(SoundtrackKey::Credits)),
        Some(SoundtrackKey::Credits)
    );
    assert_eq!(play_soundtrack(&on, PlaySoundtrack::Disable), None);
    assert_eq!(play_soundtrack(&off, PlaySoundtrack::Key(SoundtrackKey::Credits)), None);
    assert_eq!(play_soundtrack(&off, PlaySoundtrack::Disable), None);
}

#[test]
fn the_frame_counter_counts_and_resets() {
    let mut frames = FrameCounter::new();
    assert_eq!(frames, FrameCounter::default());
    assert_eq!(frames.count, 0);
    for _ in 0..9 {
        frames.tick();
    }
    assert_eq!(frames.count, 9);
    assert!(!frames.guard_passed());
    frames.tick();
    assert_eq!(frames.count, MIN_LEVEL_TICKS);
    assert!(frames.guard_passed());
    frames.reset();
    assert_eq!(frames.count, 0);
    assert!(!frames.guard_passed());
}

#[test]
fn the_fades_between_levels_take_half_a_second() {
    assert_eq!(FADE_MILLIS, 500);
    assert_ne!(FaderType::FadeIn, FaderType::FadeOut);
}

#[test]
fn opposite_keys_cancel_each_other() {
    assert_eq!(intent_axis(true, false), 1);
    assert_eq!(intent_axis(false, true), -1);
    assert_eq!(intent_axis(true, true), 0);
    assert_eq!(intent_axis(false, false), 0);
}

#[test]
fn a_character_lands_only_when_it_is_held_up_on_the_way_down() {
    assert!(detect_ground(false, true, true, true));
    assert!(!detect_ground(false, true, false, true));
    assert!(!detect_ground(false, true, true, false));
    assert!(!detect_ground(false, false, true, true));
    assert!(detect_ground(true, true, false, false));
    assert!(!detect_ground(true, false, true, true));
}
