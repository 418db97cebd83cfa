//! Countdowns in whole nanoseconds.
//!
//! A [`Timer`] keeps as plain integers what the engine's timer keeps, so that
//! contracts can speak of it. The engine's own `tick` does the advancing.

use vstd::prelude::*;

verus! {

/// What a timer does when it reaches its duration.
#[derive(Debug, Clone, Copy, PartialEq, Eq, Hash, Structural)]
pub enum TimerMode {
    /// Stops at its duration and stays there.
    Once,
    /// Starts over, keeping what it ran past its duration.
    Repeating,
}

/// A countdown. All times are whole nanoseconds.
#[derive(Debug, Clone, Copy, PartialEq, Eq, Structural)]
pub struct Timer {
    /// The time from start to finish.
    pub duration: u64,
    /// The time run since the start, or since the last wrap of a repeating timer.
    pub elapsed: u64,
    pub mode: TimerMode,
    /// Whether the last tick reached the duration; a one-shot timer keeps it for good.
    pub finished: bool,
    /// How often the duration was reached during the last tick.
    pub times_finished_this_tick: u32,
}

impl Timer {
    /// What holds of every timer that `new` made and `tick` advanced.
    pub open spec fn wf(self) -> bool {
        &&& self.elapsed <= self.duration
        &&& self.times_finished_this_tick > 0 ==> self.finished
        &&& self.mode is Once ==> self.times_finished_this_tick <= 1
        &&& self.mode is Once && self.finished ==> self.elapsed == self.duration
        &&& self.mode is Repeating && self.duration > 0 ==> self.elapsed < self.duration
    }

    /// A one-shot timer that has reached its duration: no tick moves it again.
    pub open spec fn spent(self) -> bool {
        self.mode is Once && self.finished
    }

    /// Whether the last tick reached the duration.
    pub open spec fn fired(self) -> bool {
        self.times_finished_this_tick > 0
    }

    /// The timer one tick of `delta` later.
    ///
    /// A spent timer only forgets that it fired. A running one adds `delta`;
    /// short of its duration that is all. At or past it, a one-shot timer
    /// stops at the duration and fires once, and a repeating one keeps the
    /// remainder and fires once for each whole duration, counted in 32 bits.
    /// A repeating timer of duration zero stays at zero and fires `u32::MAX`
    /// times.
    pub open spec fn ticked(self, delta: u64) -> Timer {
        let reached = self.elapsed + delta;
        if self.spent() {
            Timer { times_finished_this_tick: 0, ..self }
        } else if reached < self.duration {
            Timer { elapsed: reached as u64, finished: false, times_finished_this_tick: 0, ..self }
        } else if self.mode is Once {
            Timer { elapsed: self.duration, finished: true, times_finished_this_tick: 1, ..self }
        } else if self.duration == 0 {
            Timer { elapsed: 0, finished: true, times_finished_this_tick: u32::MAX, ..self }
        } else {
            Timer {
                elapsed: (reached % (self.duration as int)) as u64,
                finished: true,
                times_finished_this_tick: ((reached / (self.duration as int)) % 0x1_0000_0000) as u32,
                ..self
            }
        }
    }

    /// A timer of `duration` nanoseconds that has not run yet.
    pub fn new(duration: u64, mode: TimerMode) -> (timer: Timer)
        ensures
            timer == (Timer { duration, elapsed: 0, mode, finished: false, times_finished_this_tick: 0 }),
            timer.wf(),
    {
        Timer { duration, elapsed: 0, mode, finished: false, times_finished_this_tick: 0 }
    }

    /// Advances the timer by `delta` nanoseconds.
    pub fn tick(&mut self, delta: u64)
        ensures
            *final(self) == old(self).ticked(delta),
            old(self).wf() ==> final(self).wf(),
    {
        if self.mode == TimerMode::Once && self.finished {
            self.times_finished_this_tick = 0;
        } else {
            let (elapsed, finished, times) = tick_running(
                self.duration,
                self.mode,
                self.elapsed,
                delta,
            );
            self.elapsed = elapsed;
            self.finished = finished;
            self.times_finished_this_tick = times;
            proof {
                if self.mode is Repeating && self.duration > 0 && finished {
                    vstd::arithmetic::div_mod::lemma_mod_bound(
                        old(self).elapsed + delta,
                        self.duration as int,
                    );
                }
            }
        }
    }

    /// Whether the last tick reached the duration.
    pub fn just_finished(&self) -> (fired: bool)
        ensures
            fired == self.fired(),
    {
        self.times_finished_this_tick > 0
    }

    /// Whether the timer has reached its duration: for good if it is
    /// one-shot, during the last tick if it repeats.
    pub fn finished(&self) -> (finished: bool)
        ensures
            finished == self.finished,
    {
        self.finished
    }
}

/// Runs `bevy::time::Timer::tick` by `delta` on a timer of `duration` and
/// `mode` that is neither paused nor finished and has `elapsed` behind it, and
/// returns its elapsed time, its `finished` flag and its
/// `times_finished_this_tick`.
///
/// Trusted: that the tick adds `delta` to the elapsed time and reports a
/// finish exactly when the sum reaches `duration`; that a one-shot timer then
/// stops at `duration` with a count of one; that a repeating timer keeps the
/// remainder of the sum by `duration` and counts the quotient, cut to 32
/// bits; and that with a `duration` of zero it keeps zero and counts
/// `u32::MAX`.
#[verifier::external_body]
fn tick_running(duration: u64, mode: TimerMode, elapsed: u64, delta: u64) -> (r: (u64, bool, u32))
    ensures
        r.1 == (elapsed + delta >= duration),
        !r.1 ==> r.0 == elapsed + delta && r.2 == 0,
        r.1 && mode is Once ==> r.0 == duration && r.2 == 1,
        r.1 && mode is Repeating && duration == 0 ==> r.0 == 0 && r.2 == u32::MAX,
        r.1 && mode is Repeating && duration > 0 ==> r.0 == (elapsed + delta) % (duration as int)
            && r.2 == ((elapsed + delta) / (duration as int)) % 0x1_0000_0000,
{
    let mode = match mode {
        TimerMode::Once => bevy::time::TimerMode::Once,
        TimerMode::Repeating => bevy::time::TimerMode::Repeating,
    };
    let mut timer = bevy::time::Timer::new(std::time::Duration::from_nanos(duration), mode);
    timer.set_elapsed(std::time::Duration::from_nanos(elapsed));
    timer.tick(std::time::Duration::from_nanos(delta));
    (timer.elapsed().as_nanos() as u64, timer.finished(), timer.times_finished_this_tick())
}

} // verus!
