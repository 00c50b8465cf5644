//! The state machine that leads a session through the catalog: spawn a
//! level, fade it in, let it be played, fade it out, and go on to the next
//! one until none is left.
//!
//! The machine does no work of its own. Each event that it is given moves it
//! to its next state and yields the commands that the engine is to carry out.

use vstd::prelude::*;
use crate::catalog::{default_catalog, CurrentLevel, Level, LevelView, Levels, TileCoord};
use crate::fade::{FaderType, FADE_MILLIS};
use crate::frames::{FrameCounter, MIN_LEVEL_TICKS};

verus! {

/// Where the session stands between two levels.
#[derive(Debug, Clone, Copy, PartialEq, Eq, Hash, Structural)]
pub enum LevelState {
    /// No game is running.
    Inactive,
    /// The screen fades out, either on a level that has ended or to open a
    /// new game.
    EndLevelFadeOut,
    /// The screen fades in on a level that has been spawned.
    StartLevelFadeIn,
    /// The level is being played.
    Active,
    /// The screen fades out on a finished game.
    CompletedFadeOut,
}

impl Default for LevelState {
    fn default() -> (r: LevelState)
        ensures
            r == LevelState::Inactive,
    {
        LevelState::Inactive
    }
}

/// What the engine is asked to do.
#[derive(Debug, Clone, Copy, PartialEq, Eq, Structural)]
pub enum LevelCommand {
    /// Despawn the level with everything in it. Nothing to despawn is fine.
    CleanupLevel,
    /// Set the overall score and the level's score back to their defaults.
    ResetScores,
    /// Set the level's score up for a level with `total` ducklings.
    ResetObjectives { total: u32 },
    /// Load the map of this level and show the level's score. The entities of
    /// the level wait until the map is reported as loaded.
    SpawnLevel(CurrentLevel),
    /// Fade the screen out over `millis` milliseconds.
    FadeOut { millis: u32 },
    /// Fade the screen in over `millis` milliseconds.
    FadeIn { millis: u32 },
    /// Spawn the player on this tile.
    SpawnPlayer(TileCoord),
    /// Spawn a duckling on this tile.
    SpawnDuckling(TileCoord),
    /// The level has ended: carry its time over and take its score down.
    EndLevel,
    /// The last level has been finished.
    GameCompleted,
    /// Show the game-over screen.
    ShowGameOver,
}

/// The part of a session that changes while it runs.
#[derive(Debug, Clone, Copy, PartialEq, Eq, Structural)]
pub struct Progress {
    /// The number of the level being played; the catalog's length once no
    /// level is left.
    pub level: CurrentLevel,
    pub state: LevelState,
    /// Whether the fade-out in progress opens a new game, whose first level
    /// is spawned already, rather than closes a level.
    pub opening: bool,
    /// Whether the current level's map has been asked for and has not been
    /// reported as loaded.
    pub awaiting_map: bool,
    /// Fixed ticks since the current level's map was loaded.
    pub frames: FrameCounter,
}

/// The number of ducklings that a level's score is set up with: the number of
/// its spawn points, cut to 32 bits.
pub open spec fn ducklings_total(level: LevelView) -> u32 {
    (level.duckling_spawn_points.len() % 0x1_0000_0000) as u32
}

/// The commands that spawn level `level` of `catalog`: the level is spawned,
/// then its score is set up.
pub open spec fn spawn_level_commands(catalog: Seq<LevelView>, level: CurrentLevel) -> Seq<LevelCommand> {
    seq![
        LevelCommand::SpawnLevel(level),
        LevelCommand::ResetObjectives { total: ducklings_total(catalog[level.0 as int]) },
    ]
}

/// The commands that put the player and the ducklings into a level: the
/// player on the start tile, then one duckling on each spawn point, in order.
pub open spec fn populate_commands(level: LevelView) -> Seq<LevelCommand> {
    seq![LevelCommand::SpawnPlayer(level.start_tile)] + Seq::new(
        level.duckling_spawn_points.len(),
        |i: int| LevelCommand::SpawnDuckling(level.duckling_spawn_points[i]),
    )
}

impl Progress {
    /// What always holds of a session over a catalog of `level_count` levels:
    /// the level's number is in the catalog or just past its end, and it is
    /// in the catalog whenever a level is spawned.
    pub open spec fn valid(self, level_count: nat) -> bool {
        &&& level_count <= i32::MAX
        &&& 0 <= self.level.0 <= level_count
        &&& (self.state == LevelState::EndLevelFadeOut || self.state == LevelState::StartLevelFadeIn
            || self.state == LevelState::Active) ==> self.level.0 < level_count
        &&& self.opening ==> self.state == LevelState::EndLevelFadeOut && self.level.0 == 0
        &&& self.awaiting_map ==> self.opening || self.state == LevelState::StartLevelFadeIn || self.state
            == LevelState::Active
    }

    /// A session in which no game has been started.
    pub open spec fn initial() -> Progress {
        Progress {
            level: CurrentLevel(0),
            state: LevelState::Inactive,
            opening: false,
            awaiting_map: false,
            frames: FrameCounter { count: 0 },
        }
    }

    /// The session after a new game has been started: at the first level,
    /// fading out to open the game, or, with an empty catalog, fading out on
    /// a game that is complete at once.
    pub open spec fn after_start(self, level_count: nat) -> Progress {
        if level_count > 0 {
            Progress {
                level: CurrentLevel(0),
                state: LevelState::EndLevelFadeOut,
                opening: true,
                awaiting_map: true,
                frames: self.frames,
            }
        } else {
            Progress {
                level: CurrentLevel(0),
                state: LevelState::CompletedFadeOut,
                opening: false,
                awaiting_map: false,
                frames: self.frames,
            }
        }
    }

    /// Whether a fade that has completed in `direction` is the one that the
    /// session is waiting for.
    pub open spec fn expects_fade(self, direction: FaderType) -> bool {
        match self.state {
            LevelState::EndLevelFadeOut => direction == FaderType::FadeOut,
            LevelState::StartLevelFadeIn => direction == FaderType::FadeIn,
            LevelState::CompletedFadeOut => direction == FaderType::FadeOut,
            _ => false,
        }
    }

    /// The session after a fade has completed in `direction`.
    pub open spec fn after_fade(self, level_count: nat, direction: FaderType) -> Progress {
        if !self.expects_fade(direction) {
            self
        } else {
            match self.state {
                LevelState::EndLevelFadeOut => if self.opening {
                    Progress { state: LevelState::StartLevelFadeIn, opening: false, ..self }
                } else if self.level.advanced().0 < level_count {
                    Progress {
                        level: self.level.advanced(),
                        state: LevelState::StartLevelFadeIn,
                        awaiting_map: true,
                        ..self
                    }
                } else {
                    Progress {
                        level: self.level.advanced(),
                        state: LevelState::CompletedFadeOut,
                        awaiting_map: false,
                        ..self
                    }
                },
                LevelState::StartLevelFadeIn => Progress { state: LevelState::Active, ..self },
                _ => Progress { state: LevelState::Inactive, ..self },
            }
        }
    }

    /// Whether a request to end the level is taken up: only while the level
    /// is played, its map is loaded, and the tick guard has passed.
    pub open spec fn accepts_level_end(self) -> bool {
        &&& self.state == LevelState::Active
        &&& !self.awaiting_map
        &&& self.frames.guard_passed()
    }

    /// The session after a request to end the level.
    pub open spec fn after_level_end(self) -> Progress {
        if self.accepts_level_end() {
            Progress { state: LevelState::EndLevelFadeOut, ..self }
        } else {
            self
        }
    }

    /// The session after the map has been reported as loaded.
    pub open spec fn after_level_loaded(self) -> Progress {
        if self.awaiting_map {
            Progress { awaiting_map: false, frames: FrameCounter { count: 0 }, ..self }
        } else {
            self
        }
    }

    /// The session after one more fixed tick.
    pub open spec fn after_tick(self) -> Progress {
        Progress { frames: FrameCounter { count: (self.frames.count + 1) as u32 }, ..self }
    }
}

/// The commands that starting a new game yields.
pub open spec fn start_commands(catalog: Seq<LevelView>) -> Seq<LevelCommand> {
    if catalog.len() > 0 {
        seq![
            LevelCommand::CleanupLevel,
            LevelCommand::ResetScores,
            LevelCommand::FadeOut { millis: FADE_MILLIS },
        ] + spawn_level_commands(catalog, CurrentLevel(0))
    } else {
        seq![
            LevelCommand::CleanupLevel,
            LevelCommand::ResetScores,
            LevelCommand::GameCompleted,
            LevelCommand::FadeOut { millis: FADE_MILLIS },
        ]
    }
}

/// The commands that a completed fade yields.
pub open spec fn fade_commands(progress: Progress, catalog: Seq<LevelView>, direction: FaderType) -> Seq<
    LevelCommand,
> {
    if !progress.expects_fade(direction) {
        seq![]
    } else {
        match progress.state {
            LevelState::EndLevelFadeOut => if progress.opening {
                seq![LevelCommand::FadeIn { millis: FADE_MILLIS }]
            } else if progress.level.advanced().0 < catalog.len() {
                seq![LevelCommand::CleanupLevel] + spawn_level_commands(catalog, progress.level.advanced())
                    + seq![LevelCommand::FadeIn { millis: FADE_MILLIS }]
            } else {
                seq![
                    LevelCommand::CleanupLevel,
                    LevelCommand::GameCompleted,
                    LevelCommand::FadeOut { millis: FADE_MILLIS },
                ]
            },
            LevelState::StartLevelFadeIn => seq![],
            _ => seq![LevelCommand::ShowGameOver],
        }
    }
}

/// The commands that a request to end the level yields.
pub open spec fn level_end_commands(progress: Progress) -> Seq<LevelCommand> {
    if progress.accepts_level_end() {
        seq![LevelCommand::EndLevel, LevelCommand::FadeOut { millis: FADE_MILLIS }]
    } else {
        seq![]
    }
}

/// The commands that a loaded map yields.
pub open spec fn level_loaded_commands(progress: Progress, catalog: Seq<LevelView>) -> Seq<LevelCommand> {
    if progress.awaiting_map {
        populate_commands(catalog[progress.level.0 as int])
    } else {
        seq![]
    }
}

/// A session: the catalog and how far the player has come in it.
#[derive(Debug, PartialEq, Eq)]
pub struct LevelProgression {
    levels: Levels,
    progress: Progress,
}

/// What a [`LevelProgression`] holds, as mathematical values.
pub struct ProgressionView {
    pub catalog: Seq<LevelView>,
    pub progress: Progress,
}

impl View for LevelProgression {
    type V = ProgressionView;

    closed spec fn view(&self) -> ProgressionView {
        ProgressionView { catalog: self.levels@, progress: self.progress }
    }
}

/// The number of ducklings that the level's score is set up with.
fn count_ducklings(level: &Level) -> (r: u32)
    ensures
        r == ducklings_total(level@),
{
    ((level.duckling_spawn_points.len() as u64) % 0x1_0000_0000u64) as u32
}

impl Default for LevelProgression {
    /// A session over the built-in catalog in which no game has been started.
    fn default() -> (r: LevelProgression)
        ensures
            r@.catalog == default_catalog(),
            r@.progress == Progress::initial(),
    {
        LevelProgression::new(Levels::default())
    }
}

impl LevelProgression {
    #[verifier::type_invariant]
    spec fn inv(self) -> bool {
        self.progress.valid(self.levels@.len())
    }

    /// A session over `levels` in which no game has been started.
    pub fn new(levels: Levels) -> (r: LevelProgression)
        requires
            levels@.len() <= i32::MAX,
        ensures
            r@.catalog == levels@,
            r@.progress == Progress::initial(),
    {
        LevelProgression {
            levels,
            progress: Progress {
                level: CurrentLevel(0),
                state: LevelState::Inactive,
                opening: false,
                awaiting_map: false,
                frames: FrameCounter { count: 0 },
            },
        }
    }

    /// The catalog.
    pub fn levels(&self) -> (r: &Levels)
        ensures
            r@ == self@.catalog,
    {
        &self.levels
    }

    /// How far the session has come; always valid for the catalog.
    pub fn progress(&self) -> (r: Progress)
        ensures
            r == self@.progress,
            r.valid(self@.catalog.len()),
    {
        proof {
            use_type_invariant(self);
        }
        self.progress
    }

    /// The state of the session.
    pub fn state(&self) -> (r: LevelState)
        ensures
            r == self@.progress.state,
    {
        self.progress.state
    }

    /// The number of the level being played.
    pub fn level(&self) -> (r: CurrentLevel)
        ensures
            r == self@.progress.level,
    {
        self.progress.level
    }

    /// The count of fixed ticks since the level's map was loaded.
    pub fn frame_counter(&self) -> (r: FrameCounter)
        ensures
            r == self@.progress.frames,
    {
        self.progress.frames
    }

    /// The level being played, or `None` once no level is left.
    pub fn current(&self) -> (r: Option<&Level>)
        ensures
            r is Some <==> self@.progress.level.0 < self@.catalog.len(),
            r matches Some(found) ==> found@ == self@.catalog[self@.progress.level.0 as int],
    {
        proof {
            use_type_invariant(self);
        }
        self.levels.current(self.progress.level)
    }

    /// The commands that spawn the level of number `level`.
    fn spawn_level(&self, level: CurrentLevel) -> (r: Vec<LevelCommand>)
        requires
            0 <= level.0 < self@.catalog.len(),
        ensures
            r@ == spawn_level_commands(self@.catalog, level),
    {
        let mut commands: Vec<LevelCommand> = Vec::new();
        match self.levels.current(level) {
            Some(found) => {
                commands.push(LevelCommand::SpawnLevel(level));
                commands.push(LevelCommand::ResetObjectives { total: count_ducklings(found) });
            },
            None => {},
        }
        assert(commands@ =~= spawn_level_commands(self@.catalog, level));
        commands
    }

    /// Starts a new game, whatever the session was doing: back to the first
    /// level, scores reset, what is left of an earlier level despawned, the
    /// first level spawned behind a fade-out. With an empty catalog the game
    /// is complete at once.
    pub fn start_new_game(&mut self) -> (r: Vec<LevelCommand>)
        ensures
            final(self)@.catalog == old(self)@.catalog,
            final(self)@.progress == old(self)@.progress.after_start(old(self)@.catalog.len()),
            r@ == start_commands(old(self)@.catalog),
    {
        proof {
            use_type_invariant(&*self);
        }
        let mut commands: Vec<LevelCommand> = Vec::new();
        commands.push(LevelCommand::CleanupLevel);
        commands.push(LevelCommand::ResetScores);
        if self.levels.len() > 0 {
            commands.push(LevelCommand::FadeOut { millis: FADE_MILLIS });
            let mut spawn = self.spawn_level(CurrentLevel(0));
            commands.append(&mut spawn);
            self.progress = Progress {
                level: CurrentLevel(0),
                state: LevelState::EndLevelFadeOut,
                opening: true,
                awaiting_map: true,
                frames: self.progress.frames,
            };
        } else {
            commands.push(LevelCommand::GameCompleted);
            commands.push(LevelCommand::FadeOut { millis: FADE_MILLIS });
            self.progress = Progress {
                level: CurrentLevel(0),
                state: LevelState::CompletedFadeOut,
                opening: false,
                awaiting_map: false,
                frames: self.progress.frames,
            };
        }
        assert(commands@ =~= start_commands(old(self)@.catalog));
        commands
    }

    /// Takes note that a fade has completed in `direction`. A fade that the
    /// session is not waiting for changes nothing. A fade-out on a level
    /// that has ended despawns it and goes on to the next level, or, after
    /// the last one, to the end of the game; a fade-out that opens a new game
    /// fades the first level in; a fade-in lets the level be played; the
    /// fade-out on a finished game leads to the game-over screen.
    pub fn on_fade_completed(&mut self, direction: FaderType) -> (r: Vec<LevelCommand>)
        ensures
            final(self)@.catalog == old(self)@.catalog,
            final(self)@.progress == old(self)@.progress.after_fade(old(self)@.catalog.len(), direction),
            r@ == fade_commands(old(self)@.progress, old(self)@.catalog, direction),
    {
        proof {
            use_type_invariant(&*self);
        }
        let mut commands: Vec<LevelCommand> = Vec::new();
        let progress = self.progress;
        match (progress.state, direction) {
            (LevelState::EndLevelFadeOut, FaderType::FadeOut) => {
                if progress.opening {
                    commands.push(LevelCommand::FadeIn { millis: FADE_MILLIS });
                    self.progress = Progress { state: LevelState::StartLevelFadeIn, opening: false, ..progress };
                } else {
                    commands.push(LevelCommand::CleanupLevel);
                    let mut level = progress.level;
                    if self.levels.advance(&mut level) {
                        let mut spawn = self.spawn_level(level);
                        commands.append(&mut spawn);
                        commands.push(LevelCommand::FadeIn { millis: FADE_MILLIS });
                        self.progress = Progress {
                            level,
                            state: LevelState::StartLevelFadeIn,
                            awaiting_map: true,
                            ..progress
                        };
                    } else {
                        commands.push(LevelCommand::GameCompleted);
                        commands.push(LevelCommand::FadeOut { millis: FADE_MILLIS });
                        self.progress = Progress {
                            level,
                            state: LevelState::CompletedFadeOut,
                            awaiting_map: false,
                            ..progress
                        };
                    }
                }
            },
            (LevelState::StartLevelFadeIn, FaderType::FadeIn) => {
                self.progress = Progress { state: LevelState::Active, ..progress };
            },
            (LevelState::CompletedFadeOut, FaderType::FadeOut) => {
                commands.push(LevelCommand::ShowGameOver);
                self.progress = Progress { state: LevelState::Inactive, ..progress };
            },
            _ => {},
        }
        assert(commands@ =~= fade_commands(old(self)@.progress, old(self)@.catalog, direction));
        commands
    }

    /// Asks for the level to end, because every duckling is collected or the
    /// finish is reached. The request is taken up only while the level is
    /// played, its map is loaded and at least [`MIN_LEVEL_TICKS`] fixed ticks
    /// have passed since; otherwise it changes nothing.
    ///
    /// [`MIN_LEVEL_TICKS`]: crate::frames::MIN_LEVEL_TICKS
    pub fn request_level_end(&mut self) -> (r: Vec<LevelCommand>)
        ensures
            final(self)@.catalog == old(self)@.catalog,
            final(self)@.progress == old(self)@.progress.after_level_end(),
            r@ == level_end_commands(old(self)@.progress),
            !old(self)@.progress.accepts_level_end() ==> final(self)@ == old(self)@ && r@.len() == 0,
    {
        proof {
            use_type_invariant(&*self);
        }
        let mut commands: Vec<LevelCommand> = Vec::new();
        let progress = self.progress;
        let playing = match progress.state {
            LevelState::Active => true,
            _ => false,
        };
        if playing && !progress.awaiting_map && progress.frames.guard_passed() {
            commands.push(LevelCommand::EndLevel);
            commands.push(LevelCommand::FadeOut { millis: FADE_MILLIS });
            self.progress = Progress { state: LevelState::EndLevelFadeOut, ..progress };
        }
        assert(commands@ =~= level_end_commands(old(self)@.progress));
        commands
    }

    /// Takes note that the current level's map has been loaded: the player
    /// and the ducklings are spawned and the tick count starts again at
    /// zero. A report that the session is not waiting for changes nothing.
    pub fn on_level_loaded(&mut self) -> (r: Vec<LevelCommand>)
        ensures
            final(self)@.catalog == old(self)@.catalog,
            final(self)@.progress == old(self)@.progress.after_level_loaded(),
            r@ == level_loaded_commands(old(self)@.progress, old(self)@.catalog),
    {
        proof {
            use_type_invariant(&*self);
        }
        let mut commands: Vec<LevelCommand> = Vec::new();
        let progress = self.progress;
        if progress.awaiting_map {
            match self.levels.current(progress.level) {
                Some(found) => {
                    commands.push(LevelCommand::SpawnPlayer(found.start_tile));
                    let mut i: usize = 0;
                    while i < found.duckling_spawn_points.len()
                        invariant
                            i <= found.duckling_spawn_points@.len(),
                            commands@ == seq![LevelCommand::SpawnPlayer(found.start_tile)] + Seq::new(
                                i as nat,
                                |j: int| LevelCommand::SpawnDuckling(found.duckling_spawn_points@[j]),
                            ),
                        decreases found.duckling_spawn_points@.len() - i,
                    {
                        commands.push(LevelCommand::SpawnDuckling(found.duckling_spawn_points[i]));
                        i = i + 1;
                    }
                    assert(commands@ =~= populate_commands(found@));
                },
                None => {},
            }
            self.progress = Progress { awaiting_map: false, frames: FrameCounter { count: 0 }, ..progress };
        }
        assert(commands@ =~= level_loaded_commands(old(self)@.progress, old(self)@.catalog));
        commands
    }

    /// Counts one more fixed tick.
    pub fn tick(&mut self)
        requires
            old(self)@.progress.frames.count < u32::MAX,
        ensures
            final(self)@.catalog == old(self)@.catalog,
            final(self)@.progress == old(self)@.progress.after_tick(),
    {
        proof {
            use_type_invariant(&*self);
        }
        let progress = self.progress;
        self.progress = Progress { frames: FrameCounter { count: progress.frames.count + 1 }, ..progress };
    }
}

/// Every event leaves a valid session valid: the level's number stays within
/// the catalog or just past its end, whatever happens.
pub proof fn lemma_events_keep_valid(progress: Progress, level_count: nat, direction: FaderType)
    requires
        progress.valid(level_count),
    ensures
        Progress::initial().valid(level_count),
        progress.after_start(level_count).valid(level_count),
        progress.after_fade(level_count, direction).valid(level_count),
        progress.after_level_end().valid(level_count),
        progress.after_level_loaded().valid(level_count),
        progress.after_tick().valid(level_count),
{
}

/// A fade-out that completes on a level that has ended moves on by exactly
/// one level, however often completion is reported: the report that follows
/// the first, in either direction, leaves the level's number alone.
pub proof fn lemma_repeated_fade_advances_once(progress: Progress, level_count: nat, second: FaderType)
    requires
        progress.valid(level_count),
        progress.state == LevelState::EndLevelFadeOut,
        !progress.opening,
    ensures
        progress.after_fade(level_count, FaderType::FadeOut).level.0 == progress.level.0 + 1,
        progress.after_fade(level_count, FaderType::FadeOut).after_fade(level_count, second).level.0
            == progress.level.0 + 1,
{
}

/// A fade-out that completes on the opening of a new game leaves the game at
/// its first level, however often completion is reported.
pub proof fn lemma_opening_fade_keeps_first_level(progress: Progress, level_count: nat, second: FaderType)
    requires
        progress.valid(level_count),
        progress.opening,
    ensures
        progress.after_fade(level_count, FaderType::FadeOut).level.0 == 0,
        progress.after_fade(level_count, FaderType::FadeOut).after_fade(level_count, second).level.0 == 0,
{
}

/// A fade that the session is not waiting for changes nothing and yields no
/// command.
pub proof fn lemma_unexpected_fade_is_ignored(progress: Progress, catalog: Seq<LevelView>, direction: FaderType)
    requires
        !progress.expects_fade(direction),
    ensures
        progress.after_fade(catalog.len(), direction) == progress,
        fade_commands(progress, catalog, direction) == Seq::<LevelCommand>::empty(),
{
}

/// A request to end the level changes nothing and yields no command unless
/// the level is being played; so it does while the level fades in and while
/// no game runs.
pub proof fn lemma_level_end_ignored_unless_active(progress: Progress)
    requires
        progress.state != LevelState::Active,
    ensures
        progress.after_level_end() == progress,
        level_end_commands(progress) == Seq::<LevelCommand>::empty(),
{
}

/// While the level is played and its map is loaded, a request to end it is
/// taken up exactly when the tick guard has passed.
pub proof fn lemma_level_end_waits_for_guard(progress: Progress)
    requires
        progress.state == LevelState::Active,
        !progress.awaiting_map,
    ensures
        progress.frames.count < MIN_LEVEL_TICKS ==> progress.after_level_end() == progress,
        progress.frames.count >= MIN_LEVEL_TICKS ==> progress.after_level_end().state
            == LevelState::EndLevelFadeOut,
{
}

} // verus!
