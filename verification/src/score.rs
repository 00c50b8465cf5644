//! The objectives of a level and the time spent on the game.

use vstd::prelude::*;
use crate::clock::Stopwatch;

verus! {

/// What a new score counts as the level's ducklings until a level sets the
/// real number: more than any level has, so that no level ends at once.
pub const UNSET_DUCKLINGS_TOTAL: u32 = 100;

/// The seconds spent on the levels that were finished.
#[derive(Debug, Clone, Copy, PartialEq, Eq, Structural)]
pub struct OverallScore {
    pub total_seconds: u32,
}

impl Default for OverallScore {
    fn default() -> (r: OverallScore)
        ensures
            r.total_seconds == 0,
    {
        OverallScore { total_seconds: 0 }
    }
}

/// The objectives of the level being played.
#[derive(Debug, Clone, Copy, PartialEq, Eq, Structural)]
pub struct Score {
    pub score: u32,
    pub ducklings_total: u32,
    pub ducklings_collected: u32,
    pub stopwatch: Stopwatch,
}

impl Default for Score {
    fn default() -> (r: Score)
        ensures
            r == (Score {
                score: 0,
                ducklings_total: UNSET_DUCKLINGS_TOTAL,
                ducklings_collected: 0,
                stopwatch: Stopwatch { elapsed_nanos: 0 },
            }),
    {
        Score {
            score: 0,
            ducklings_total: UNSET_DUCKLINGS_TOTAL,
            ducklings_collected: 0,
            stopwatch: Stopwatch::new(),
        }
    }
}

impl Score {
    /// Sets the score up for a level with `ducklings_total` ducklings:
    /// nothing collected, stopwatch at zero.
    pub fn start_level(&mut self, ducklings_total: u32)
        ensures
            *final(self) == (Score {
                score: 0,
                ducklings_total,
                ducklings_collected: 0,
                stopwatch: Stopwatch { elapsed_nanos: 0 },
            }),
    {
        self.score = 0;
        self.ducklings_total = ducklings_total;
        self.ducklings_collected = 0;
        self.stopwatch.reset();
    }

    pub open spec fn spec_all_collected(&self) -> bool {
        self.ducklings_collected == self.ducklings_total
    }

    /// Whether every duckling of the level has been collected.
    #[verifier::when_used_as_spec(spec_all_collected)]
    pub fn all_collected(&self) -> (r: bool)
        ensures
            r == self.spec_all_collected(),
    {
        self.ducklings_collected == self.ducklings_total
    }

    /// Counts one collected duckling and says whether that was the last one
    /// of the level.
    pub fn collect(&mut self) -> (r: bool)
        requires
            old(self).ducklings_collected < u32::MAX,
        ensures
            *final(self) == (Score {
                ducklings_collected: (old(self).ducklings_collected + 1) as u32,
                ..*old(self)
            }),
            r == final(self).all_collected(),
    {
        self.ducklings_collected = self.ducklings_collected + 1;
        self.ducklings_collected == self.ducklings_total
    }

    /// Advances the level's stopwatch by `delta_nanos`.
    pub fn tick(&mut self, delta_nanos: u64)
        requires
            old(self).stopwatch.elapsed_nanos + delta_nanos <= u64::MAX,
        ensures
            *final(self) == (Score {
                stopwatch: Stopwatch {
                    elapsed_nanos: (old(self).stopwatch.elapsed_nanos + delta_nanos) as u64,
                },
                ..*old(self)
            }),
    {
        self.stopwatch.tick(delta_nanos);
    }

    /// Sets the level's stopwatch to the time already spent on the game.
    pub fn resume(&mut self, overall: &OverallScore)
        ensures
            *final(self) == (Score {
                stopwatch: Stopwatch {
                    elapsed_nanos: (overall.total_seconds * crate::clock::NANOS_PER_SECOND) as u64,
                },
                ..*old(self)
            }),
    {
        self.stopwatch.set_elapsed_secs(overall.total_seconds);
    }
}

impl OverallScore {
    /// The seconds that a level's stopwatch adds to the total: its whole
    /// seconds, cut to 32 bits.
    pub open spec fn seconds_of(score: &Score) -> int {
        score.stopwatch.elapsed_secs() as int % 0x1_0000_0000
    }

    /// Adds the whole seconds on the level's stopwatch to the total.
    pub fn carry_over(&mut self, score: &Score)
        requires
            old(self).total_seconds + Self::seconds_of(score) <= u32::MAX,
        ensures
            final(self).total_seconds == old(self).total_seconds + Self::seconds_of(score),
    {
        let seconds = (score.stopwatch.elapsed_secs() % 0x1_0000_0000u64) as u32;
        self.total_seconds = self.total_seconds + seconds;
    }
}

} // verus!
