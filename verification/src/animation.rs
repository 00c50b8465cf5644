//! Sprite animation: which frame of the sprite sheet a character shows.

use vstd::prelude::*;
use crate::clock::{repeating_tick, RepeatingTimer, TimerReading};

verus! {

/// The number of idle frames.
pub const IDLE_FRAMES: usize = 2;

/// How long each idle frame is shown.
pub const IDLE_INTERVAL_NANOS: u64 = 500_000_000;

/// The number of walking frames.
pub const WALKING_FRAMES: usize = 6;

/// How long each walking frame is shown.
pub const WALKING_INTERVAL_NANOS: u64 = 50_000_000;

/// Where the walking frames start in the sprite sheet.
pub const WALKING_ATLAS_OFFSET: usize = 6;

/// What the player's sprite is doing.
#[derive(Debug, Clone, Copy, PartialEq, Eq, Structural)]
pub enum PlayerAnimationState {
    Idling,
    Walking,
}

impl PlayerAnimationState {
    /// How many frames the animation of this state has.
    pub open spec fn frames(self) -> usize {
        match self {
            PlayerAnimationState::Idling => IDLE_FRAMES,
            PlayerAnimationState::Walking => WALKING_FRAMES,
        }
    }

    /// How long each frame of this state is shown.
    pub open spec fn interval_nanos(self) -> u64 {
        match self {
            PlayerAnimationState::Idling => IDLE_INTERVAL_NANOS,
            PlayerAnimationState::Walking => WALKING_INTERVAL_NANOS,
        }
    }

    /// The state of a character that moves, or stands still.
    pub fn of_movement(moving: bool) -> (r: PlayerAnimationState)
        ensures
            r == if moving {
                PlayerAnimationState::Walking
            } else {
                PlayerAnimationState::Idling
            },
    {
        if moving {
            PlayerAnimationState::Walking
        } else {
            PlayerAnimationState::Idling
        }
    }
}

/// Tracks the player's animation: the state, the frame within it, and the
/// timer that moves to the next frame. The frame is always one of the
/// state's frames, and the timer's period is the state's frame interval.
#[derive(Debug, Clone, Copy, PartialEq, Eq)]
pub struct PlayerAnimation {
    timer: RepeatingTimer,
    frame: usize,
    state: PlayerAnimationState,
}

impl PlayerAnimation {
    #[verifier::type_invariant]
    spec fn inv(self) -> bool {
        &&& self.frame < self.state.frames()
        &&& self.timer.period() == self.state.interval_nanos()
    }

    /// The frame within the current state's animation.
    pub closed spec fn frame(&self) -> usize {
        self.frame
    }

    /// The current state.
    pub closed spec fn state(&self) -> PlayerAnimationState {
        self.state
    }

    /// What the frame timer showed after its last step.
    pub closed spec fn reading(&self) -> TimerReading {
        self.timer.reading()
    }

    /// Whether this is the animation as it starts in `state`: first frame,
    /// timer not yet run.
    pub open spec fn starts(&self, state: PlayerAnimationState) -> bool {
        &&& self.state() == state
        &&& self.frame() == 0
        &&& self.reading() == (TimerReading { elapsed_nanos: 0, finished: false, just_finished: false })
    }

    fn idling() -> (r: PlayerAnimation)
        ensures
            r.starts(PlayerAnimationState::Idling),
    {
        PlayerAnimation {
            timer: RepeatingTimer::new(IDLE_INTERVAL_NANOS),
            frame: 0,
            state: PlayerAnimationState::Idling,
        }
    }

    fn walking() -> (r: PlayerAnimation)
        ensures
            r.starts(PlayerAnimationState::Walking),
    {
        PlayerAnimation {
            timer: RepeatingTimer::new(WALKING_INTERVAL_NANOS),
            frame: 0,
            state: PlayerAnimationState::Walking,
        }
    }

    /// An idling animation at its first frame.
    pub fn new() -> (r: PlayerAnimation)
        ensures
            r.starts(PlayerAnimationState::Idling),
    {
        Self::idling()
    }

    /// Advances the frame timer by `delta_nanos`; where the frame interval
    /// ran out, moves to the next frame, and from the last frame to the first.
    pub fn update_timer(&mut self, delta_nanos: u64)
        ensures
            final(self).state() == old(self).state(),
            final(self).reading() == repeating_tick(
                old(self).state().interval_nanos(),
                old(self).reading().elapsed_nanos,
                delta_nanos,
            ),
            final(self).frame() == if final(self).reading().finished {
                (old(self).frame() + 1) % (old(self).state().frames() as int)
            } else {
                old(self).frame() as int
            },
    {
        proof {
            use_type_invariant(&*self);
        }
        let mut timer = self.timer;
        timer.tick(delta_nanos);
        let frame = if !timer.finished() {
            self.frame
        } else {
            (self.frame + 1) % match self.state {
                PlayerAnimationState::Idling => IDLE_FRAMES,
                PlayerAnimationState::Walking => WALKING_FRAMES,
            }
        };
        *self = PlayerAnimation { timer, frame, state: self.state };
    }

    /// Starts the animation of `state` where the state changes; keeps the
    /// animation as it is where it does not.
    pub fn update_state(&mut self, state: PlayerAnimationState)
        ensures
            old(self).state() == state ==> *final(self) == *old(self),
            old(self).state() != state ==> final(self).starts(state),
    {
        if self.state != state {
            match state {
                PlayerAnimationState::Idling => *self = Self::idling(),
                PlayerAnimationState::Walking => *self = Self::walking(),
            }
        }
    }

    /// Whether the frame timer ran out at its last step.
    pub fn changed(&self) -> (r: bool)
        ensures
            r == self.reading().finished,
    {
        self.timer.finished()
    }

    /// The index to show from now on, where the animation changed at the
    /// timer's last step, and `None` where the sprite stays as it is.
    pub fn update_animation_atlas(&self) -> (r: Option<usize>)
        ensures
            r is Some <==> self.reading().finished,
            r matches Some(index) ==> index == self.atlas_index(),
    {
        if self.changed() {
            Some(self.get_atlas_index())
        } else {
            None
        }
    }

    /// The sprite's index in the sprite sheet.
    pub open spec fn atlas_index(&self) -> int {
        match self.state() {
            PlayerAnimationState::Idling => self.frame() as int,
            PlayerAnimationState::Walking => WALKING_ATLAS_OFFSET + self.frame(),
        }
    }

    /// The sprite's index in the sprite sheet: the idle frames come first,
    /// the walking frames start at [`WALKING_ATLAS_OFFSET`].
    pub fn get_atlas_index(&self) -> (r: usize)
        ensures
            self.frame() < self.state().frames(),
            r == self.atlas_index(),
    {
        proof {
            use_type_invariant(self);
        }
        match self.state {
            PlayerAnimationState::Idling => self.frame,
            PlayerAnimationState::Walking => WALKING_ATLAS_OFFSET + self.frame,
        }
    }
}

/// The order in which a sprite goes through the frames of its sheet.
#[derive(Debug, Clone, Copy, PartialEq, Eq, Structural)]
pub enum AnimationSequence {
    /// From `first` up to `last`, then `first` again.
    Loop { first: usize, last: usize },
}

impl AnimationSequence {
    /// The sequence that loops from `first` to `last`.
    pub fn loop_forwards(first: usize, last: usize) -> (r: AnimationSequence)
        ensures
            r == (AnimationSequence::Loop { first, last }),
    {
        AnimationSequence::Loop { first, last }
    }

    /// The index that follows `atlas_index`: `first` after `last`, the next
    /// number otherwise.
    pub open spec fn following(self, atlas_index: usize) -> int {
        match self {
            AnimationSequence::Loop { first, last } => if atlas_index == last {
                first as int
            } else {
                atlas_index + 1
            },
        }
    }

    /// The index that follows `atlas_index` in the sequence.
    pub fn next_index(&mut self, atlas_index: usize) -> (r: usize)
        requires
            old(self).following(atlas_index) <= usize::MAX,
        ensures
            *final(self) == *old(self),
            r == old(self).following(atlas_index),
    {
        match self {
            AnimationSequence::Loop { first, last } => {
                if atlas_index == *last {
                    *first
                } else {
                    atlas_index + 1
                }
            },
        }
    }
}

/// The timer that paces an [`AnimationSequence`].
#[derive(Debug, Clone, Copy, PartialEq, Eq, Structural)]
pub struct AnimationTimer(pub RepeatingTimer);

/// One frame of a looping sprite: advances `timer` by `delta_nanos` and
/// returns the sprite's index afterwards, which is the next of the sequence
/// where the timer completed a period and `atlas_index` where it did not.
pub fn animate_sprite(
    seq: &mut AnimationSequence,
    timer: &mut AnimationTimer,
    atlas_index: usize,
    delta_nanos: u64,
) -> (r: usize)
    requires
        repeating_tick(old(timer).0.period(), old(timer).0.reading().elapsed_nanos, delta_nanos).just_finished
            ==> old(seq).following(atlas_index) <= usize::MAX,
    ensures
        *final(seq) == *old(seq),
        final(timer).0.period() == old(timer).0.period(),
        final(timer).0.reading() == repeating_tick(
            old(timer).0.period(),
            old(timer).0.reading().elapsed_nanos,
            delta_nanos,
        ),
        r == if final(timer).0.reading().just_finished {
            old(seq).following(atlas_index)
        } else {
            atlas_index as int
        },
{
    timer.0.tick(delta_nanos);
    if timer.0.just_finished() {
        seq.next_index(atlas_index)
    } else {
        atlas_index
    }
}

} // verus!
