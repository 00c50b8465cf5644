//! Clocks that are advanced once per frame: a stopwatch and a repeating
//! timer. Both hold their state as plain nanosecond counts; the engine's own
//! `Stopwatch` and `Timer` do the stepping.

use vstd::prelude::*;

verus! {

/// Nanoseconds in one second.
pub const NANOS_PER_SECOND: u64 = 1_000_000_000;

/// What a repeating timer shows after one step.
#[derive(Debug, Clone, Copy, PartialEq, Eq, Structural)]
pub struct TimerReading {
    /// Time since the period last ran out.
    pub elapsed_nanos: u64,
    /// Whether the period ran out during the step.
    pub finished: bool,
    /// Whether the engine counted at least one completed period for the step.
    pub just_finished: bool,
}

/// What a repeating timer of period `period`, with `elapsed` already on it,
/// shows after `delta` more: the period has run out when the sum reaches it,
/// and what is beyond whole periods stays on the timer. The engine counts the
/// completed periods in 32 bits and reports `just_finished` when that count is
/// not zero; with a period of zero it takes the count for `u32::MAX`.
pub open spec fn repeating_tick(period: u64, elapsed: u64, delta: u64) -> TimerReading {
    let total = elapsed as int + delta as int;
    if total < period as int {
        TimerReading { elapsed_nanos: total as u64, finished: false, just_finished: false }
    } else if period == 0 {
        TimerReading { elapsed_nanos: 0, finished: true, just_finished: true }
    } else {
        TimerReading {
            elapsed_nanos: (total % period as int) as u64,
            finished: true,
            just_finished: (total / period as int) % 0x1_0000_0000 != 0,
        }
    }
}

/// Steps the engine's `bevy::time::Timer` once: a timer in
/// `TimerMode::Repeating` with the given period is set to `elapsed_nanos` and
/// ticked by `delta_nanos`; its `elapsed`, `finished` and `just_finished` are
/// read back. The contract is not proved: it states what `Timer::tick` does
/// to an unpaused repeating timer.
#[verifier::external_body]
fn tick_repeating(period_nanos: u64, elapsed_nanos: u64, delta_nanos: u64) -> (r: TimerReading)
    ensures
        r == repeating_tick(period_nanos, elapsed_nanos, delta_nanos),
{
    let period = std::time::Duration::from_nanos(period_nanos);
    let mut timer = bevy::time::Timer::new(period, bevy::time::TimerMode::Repeating);
    timer.set_elapsed(std::time::Duration::from_nanos(elapsed_nanos));
    timer.tick(std::time::Duration::from_nanos(delta_nanos));
    TimerReading {
        elapsed_nanos: timer.elapsed().as_nanos() as u64,
        finished: timer.finished(),
        just_finished: timer.just_finished(),
    }
}

/// Steps the engine's `bevy::time::Stopwatch` once: an unpaused stopwatch is
/// set to `elapsed_nanos`, ticked by `delta_nanos`, and its `elapsed` is read
/// back. The contract is not proved: it states that `Stopwatch::tick` adds
/// the step to the elapsed time.
#[verifier::external_body]
fn tick_stopwatch(elapsed_nanos: u64, delta_nanos: u64) -> (r: u64)
    requires
        elapsed_nanos + delta_nanos <= u64::MAX,
    ensures
        r == elapsed_nanos + delta_nanos,
{
    let mut watch = bevy::time::Stopwatch::new();
    watch.set_elapsed(std::time::Duration::from_nanos(elapsed_nanos));
    watch.tick(std::time::Duration::from_nanos(delta_nanos));
    watch.elapsed().as_nanos() as u64
}

/// Measures the time spent in a level.
#[derive(Debug, Clone, Copy, PartialEq, Eq, Structural)]
pub struct Stopwatch {
    pub elapsed_nanos: u64,
}

impl Stopwatch {
    /// A stopwatch at zero.
    pub fn new() -> (r: Stopwatch)
        ensures
            r.elapsed_nanos == 0,
    {
        Stopwatch { elapsed_nanos: 0 }
    }

    /// Adds `delta_nanos` to the elapsed time.
    pub fn tick(&mut self, delta_nanos: u64)
        requires
            old(self).elapsed_nanos + delta_nanos <= u64::MAX,
        ensures
            final(self).elapsed_nanos == old(self).elapsed_nanos + delta_nanos,
    {
        self.elapsed_nanos = tick_stopwatch(self.elapsed_nanos, delta_nanos);
    }

    /// Sets the elapsed time back to zero.
    pub fn reset(&mut self)
        ensures
            final(self).elapsed_nanos == 0,
    {
        self.elapsed_nanos = 0;
    }

    pub open spec fn spec_elapsed_secs(&self) -> u64 {
        self.elapsed_nanos / NANOS_PER_SECOND
    }

    /// The elapsed time in whole seconds.
    #[verifier::when_used_as_spec(spec_elapsed_secs)]
    pub fn elapsed_secs(&self) -> (r: u64)
        ensures
            r == self.spec_elapsed_secs(),
    {
        self.elapsed_nanos / NANOS_PER_SECOND
    }

    /// Sets the elapsed time to `secs` whole seconds.
    pub fn set_elapsed_secs(&mut self, secs: u32)
        ensures
            final(self).elapsed_nanos == secs * NANOS_PER_SECOND,
    {
        self.elapsed_nanos = (secs as u64) * NANOS_PER_SECOND;
    }
}

/// A timer that runs out every `period_nanos` and starts over.
#[derive(Debug, Clone, Copy, PartialEq, Eq, Structural)]
pub struct RepeatingTimer {
    period_nanos: u64,
    reading: TimerReading,
}

impl RepeatingTimer {
    /// The timer's period.
    pub closed spec fn period(&self) -> u64 {
        self.period_nanos
    }

    /// What the timer showed after its last step.
    pub closed spec fn reading(&self) -> TimerReading {
        self.reading
    }

    /// A timer of the given period that has not run yet.
    pub fn new(period_nanos: u64) -> (r: RepeatingTimer)
        ensures
            r.period() == period_nanos,
            r.reading() == (TimerReading { elapsed_nanos: 0, finished: false, just_finished: false }),
    {
        RepeatingTimer {
            period_nanos,
            reading: TimerReading { elapsed_nanos: 0, finished: false, just_finished: false },
        }
    }

    /// Advances the timer by `delta_nanos`.
    pub fn tick(&mut self, delta_nanos: u64)
        ensures
            final(self).period() == old(self).period(),
            final(self).reading() == repeating_tick(
                old(self).period(),
                old(self).reading().elapsed_nanos,
                delta_nanos,
            ),
    {
        self.reading = tick_repeating(self.period_nanos, self.reading.elapsed_nanos, delta_nanos);
    }

    /// Whether the period ran out during the last step.
    pub fn finished(&self) -> (r: bool)
        ensures
            r == self.reading().finished,
    {
        self.reading.finished
    }

    /// Whether the engine counted a completed period for the last step.
    pub fn just_finished(&self) -> (r: bool)
        ensures
            r == self.reading().just_finished,
    {
        self.reading.just_finished
    }

    /// Time on the timer since the period last ran out.
    pub fn elapsed_nanos(&self) -> (r: u64)
        ensures
            r == self.reading().elapsed_nanos,
    {
        self.reading.elapsed_nanos
    }
}

} // verus!
