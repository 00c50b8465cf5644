//! The count of fixed ticks since the current level's entities were spawned.

use vstd::prelude::*;

verus! {

/// Fixed ticks that must have passed since a level's entities were spawned
/// before the level may end.
pub const MIN_LEVEL_TICKS: u32 = 10;

/// Counts fixed ticks.
#[derive(Debug, Clone, Copy, PartialEq, Eq, Structural)]
pub struct FrameCounter {
    pub count: u32,
}

impl FrameCounter {
    /// A counter at zero.
    pub fn new() -> (r: FrameCounter)
        ensures
            r.count == 0,
    {
        FrameCounter { count: 0 }
    }

    /// Sets the count back to zero.
    pub fn reset(&mut self)
        ensures
            final(self).count == 0,
    {
        self.count = 0;
    }

    /// Counts one more fixed tick.
    pub fn tick(&mut self)
        requires
            old(self).count < u32::MAX,
        ensures
            final(self).count == old(self).count + 1,
    {
        self.count = self.count + 1;
    }

    /// Whether enough ticks have passed for the level to end.
    pub open spec fn spec_guard_passed(&self) -> bool {
        self.count >= MIN_LEVEL_TICKS
    }

    /// Whether enough ticks have passed for the level to end.
    #[verifier::when_used_as_spec(spec_guard_passed)]
    pub fn guard_passed(&self) -> (r: bool)
        ensures
            r == self.spec_guard_passed(),
    {
        self.count >= MIN_LEVEL_TICKS
    }
}

impl Default for FrameCounter {
    fn default() -> (r: FrameCounter)
        ensures
            r.count == 0,
    {
        FrameCounter { count: 0 }
    }
}

} // verus!
