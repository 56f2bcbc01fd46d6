//! Countdown timers measured in whole nanoseconds.

use vstd::prelude::*;

verus! {

/// Nanoseconds in one second.
pub const NANOS_PER_SEC: u64 = 1_000_000_000;

/// Nanoseconds in one millisecond.
pub const NANOS_PER_MILLI: u64 = 1_000_000;

/// What a timer does once its duration has elapsed.
#[derive(Clone, Copy, Debug, PartialEq, Eq, Structural)]
pub enum TimerMode {
    /// The timer stops at its duration and stays finished until it is reset.
    Once,
    /// The timer starts over, keeping the time that ran past its duration.
    Repeating,
}

/// A timer that is advanced by hand, one time step after the other.
#[derive(Clone, Copy, Debug, PartialEq, Eq, Structural)]
pub struct Timer {
    /// Time counted so far, in nanoseconds.
    pub elapsed: u64,
    /// Time after which the timer finishes, in nanoseconds.
    pub duration: u64,
    /// Whether the timer stops or starts over when it finishes.
    pub mode: TimerMode,
    /// Whether the last step reached the duration.
    pub finished: bool,
}

impl Timer {
    /// A fresh timer: nothing elapsed, not finished.
    pub open spec fn fresh(duration: u64, mode: TimerMode) -> Timer {
        Timer { elapsed: 0, duration, mode, finished: false }
    }

    /// The timer after a step of `delta` nanoseconds.
    ///
    /// A finished one-shot timer ignores the step. Otherwise the step is added
    /// to the elapsed time and the timer is finished when the sum reaches the
    /// duration. A one-shot timer then rests at its duration; a repeating one
    /// keeps the remainder of the sum by the duration (nothing, if the
    /// duration is zero).
    pub open spec fn ticked(self, delta: u64) -> Timer {
        let total = self.elapsed + delta;
        if self.mode == TimerMode::Once && self.finished {
            self
        } else if total < self.duration {
            Timer { elapsed: total as u64, finished: false, ..self }
        } else if self.mode == TimerMode::Once {
            Timer { elapsed: self.duration, finished: true, ..self }
        } else if self.duration == 0 {
            Timer { elapsed: 0, finished: true, ..self }
        } else {
            Timer { elapsed: (total % (self.duration as int)) as u64, finished: true, ..self }
        }
    }

    /// The timer set back to its start, with the same duration and mode.
    pub open spec fn rewound(self) -> Timer {
        Timer { elapsed: 0, finished: false, ..self }
    }

    /// Time left until the duration is reached.
    pub open spec fn time_left(self) -> nat {
        if self.elapsed >= self.duration {
            0
        } else {
            (self.duration - self.elapsed) as nat
        }
    }

    /// Makes a timer of `duration` nanoseconds.
    pub fn new(duration: u64, mode: TimerMode) -> (t: Timer)
        ensures
            t == Timer::fresh(duration, mode),
    {
        Timer { elapsed: 0, duration, mode, finished: false }
    }

    /// Makes a timer of `millis` milliseconds.
    pub fn from_millis(millis: u32, mode: TimerMode) -> (t: Timer)
        ensures
            t == Timer::fresh((millis * NANOS_PER_MILLI) as u64, mode),
    {
        let duration: u64 = (millis as u64) * NANOS_PER_MILLI;
        Timer::new(duration, mode)
    }

    /// Advances the timer by `delta` nanoseconds.
    pub fn tick(&mut self, delta: u64)
        ensures
            *final(self) == old(self).ticked(delta),
    {
        if self.mode == TimerMode::Once && self.finished {
            return ;
        }
        let total: u128 = self.elapsed as u128 + delta as u128;
        let duration: u128 = self.duration as u128;
        if total < duration {
            self.elapsed = total as u64;
            self.finished = false;
        } else if self.mode == TimerMode::Once {
            self.elapsed = self.duration;
            self.finished = true;
        } else if self.duration == 0 {
            self.elapsed = 0;
            self.finished = true;
        } else {
            let rest: u128 = total % duration;
            self.elapsed = rest as u64;
            self.finished = true;
        }
    }

    /// Whether the last step reached the duration.
    pub fn finished(&self) -> (b: bool)
        ensures
            b == self.finished,
    {
        self.finished
    }

    /// Time counted so far, in nanoseconds.
    pub fn elapsed(&self) -> (n: u64)
        ensures
            n == self.elapsed,
    {
        self.elapsed
    }

    /// Time after which the timer finishes, in nanoseconds.
    pub fn duration(&self) -> (n: u64)
        ensures
            n == self.duration,
    {
        self.duration
    }

    /// Time left until the duration is reached, in nanoseconds.
    pub fn remaining(&self) -> (n: u64)
        ensures
            n == self.time_left(),
    {
        if self.elapsed >= self.duration {
            0
        } else {
            self.duration - self.elapsed
        }
    }

    /// Changes the duration and nothing else: a finished timer stays finished
    /// until it is stepped or reset.
    pub fn set_duration(&mut self, duration: u64)
        ensures
            *final(self) == (Timer { duration, ..*old(self) }),
    {
        self.duration = duration;
    }

    /// Sets the timer back to its start.
    pub fn reset(&mut self)
        ensures
            *final(self) == old(self).rewound(),
    {
        self.elapsed = 0;
        self.finished = false;
    }
}

} // verus!
