//! The delay and sound timers, which count down at 60 Hz.
use vstd::prelude::*;

verus! {

/// Nanoseconds in one second.
pub const NANOS_PER_SECOND: u64 = 1_000_000_000;

/// How many times a second the timers count down.
pub const TIMER_HZ: u64 = 60;

/// A counter after `steps` countdowns: it stops at zero and never wraps.
pub open spec fn count_down(v: u8, steps: int) -> u8 {
    if steps >= v as int {
        0
    } else {
        (v as int - steps) as u8
    }
}

/// The countdowns due once `elapsed_ns` more nanoseconds have passed, with
/// `subtick` already accumulated (both scaled by 60, so that one countdown
/// is exactly one second of scaled time).
pub open spec fn steps_due(subtick: u64, elapsed_ns: u64) -> int {
    (subtick as int + TIMER_HZ as int * elapsed_ns as int) / NANOS_PER_SECOND as int
}

/// The scaled time left over after the countdowns that are due.
pub open spec fn subtick_after(subtick: u64, elapsed_ns: u64) -> int {
    (subtick as int + TIMER_HZ as int * elapsed_ns as int) % NANOS_PER_SECOND as int
}

/// The timers after `elapsed_ns` more nanoseconds.
pub open spec fn tick_spec(t: Timers, elapsed_ns: u64) -> Timers {
    Timers {
        delay: count_down(t.delay, steps_due(t.subtick, elapsed_ns)),
        sound: count_down(t.sound, steps_due(t.subtick, elapsed_ns)),
        subtick: subtick_after(t.subtick, elapsed_ns) as u64,
    }
}

/// The two 8-bit countdown timers.
#[derive(Debug, Clone, Copy, PartialEq, Eq, Structural)]
pub struct Timers {
    /// The delay timer.
    pub delay: u8,
    /// The sound timer.
    pub sound: u8,
    /// Elapsed time not yet turned into a countdown, in nanoseconds times 60.
    pub subtick: u64,
}

impl Timers {
    /// The leftover time is always less than one countdown.
    pub open spec fn wf(&self) -> bool {
        self.subtick < NANOS_PER_SECOND
    }

    /// Both timers at zero, with no time accumulated.
    pub open spec fn new_spec() -> Timers {
        Timers { delay: 0, sound: 0, subtick: 0 }
    }

    /// Both timers at zero, with no time accumulated.
    pub fn new() -> (r: Self)
        ensures
            r.wf(),
            r == Timers::new_spec(),
    {
        Timers { delay: 0, sound: 0, subtick: 0 }
    }

    /// Lets `elapsed_ns` nanoseconds pass: each timer that is not zero
    /// counts down once for every 1/60 s accumulated.
    pub fn tick(&mut self, elapsed_ns: u64)
        requires
            old(self).wf(),
        ensures
            final(self).wf(),
            *final(self) == tick_spec(*old(self), elapsed_ns),
    {
        let scaled: u128 = (TIMER_HZ as u128) * (elapsed_ns as u128);
        assert(scaled <= 60 * 0xFFFF_FFFF_FFFF_FFFFu128) by (nonlinear_arith)
            requires scaled == 60 * (elapsed_ns as u128), elapsed_ns <= 0xFFFF_FFFF_FFFF_FFFFu64;
        let total: u128 = self.subtick as u128 + scaled;
        let steps: u128 = total / (NANOS_PER_SECOND as u128);
        let rest: u128 = total % (NANOS_PER_SECOND as u128);
        self.delay = if steps >= self.delay as u128 { 0 } else { self.delay - steps as u8 };
        self.sound = if steps >= self.sound as u128 { 0 } else { self.sound - steps as u8 };
        self.subtick = rest as u64;
    }

    /// The delay timer's value.
    pub fn get_delay(&self) -> (r: u8)
        ensures
            r == self.delay,
    {
        self.delay
    }

    /// The sound timer's value.
    pub fn get_sound(&self) -> (r: u8)
        ensures
            r == self.sound,
    {
        self.sound
    }

    /// Sets the delay timer.
    pub fn set_delay(&mut self, v: u8)
        ensures
            *final(self) == (Timers { delay: v, ..*old(self) }),
    {
        self.delay = v;
    }

    /// Sets the sound timer.
    pub fn set_sound(&mut self, v: u8)
        ensures
            *final(self) == (Timers { sound: v, ..*old(self) }),
    {
        self.sound = v;
    }
}

} // verus!
