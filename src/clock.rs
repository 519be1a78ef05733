use vstd::prelude::*;

verus! {

/// Length of one in-game day, in microseconds.
pub const DAY_LENGTH_US: u64 = 60_000_000;

/// How much faster the day runs while the hourglass is used.
pub const FAST_FORWARD_FACTOR: u64 = 30;

/// Time between two footstep sounds while walking, in microseconds.
pub const FOOTSTEP_INTERVAL_US: u64 = 450_000;

/// Time between two passes that re-enable disabled colliders, in microseconds.
pub const COLLIDER_RETRY_US: u64 = 500_000;

/// Length of a boat ride, in microseconds.
pub const BOAT_RIDE_US: u64 = 4_000_000;

/// `a + b`, held at `u64::MAX`.
pub open spec fn sat_add(a: int, b: int) -> int {
    if a + b > u64::MAX {
        u64::MAX as int
    } else {
        a + b
    }
}

/// Rate at which the day runs: fast only while the player holds the
/// fast-forward key and owns the hourglass.
pub open spec fn time_factor(has_hourglass: bool, fast_forward_held: bool) -> int {
    if has_hourglass && fast_forward_held {
        FAST_FORWARD_FACTOR as int
    } else {
        1
    }
}

/// Time into the day after `delta` more microseconds run at `factor`, before
/// the wrap at the end of the day.
pub open spec fn day_time_after(elapsed: int, delta: int, factor: int) -> int {
    sat_add(elapsed, if delta * factor > u64::MAX { u64::MAX as int } else { delta * factor })
}

/// How far into the current day the world is.
pub struct DayProgress {
    pub elapsed_us: u64,
}

impl DayProgress {
    pub fn new() -> (r: Self)
        ensures
            r.elapsed_us == 0,
    {
        DayProgress { elapsed_us: 0 }
    }

    /// Runs the day clock for one frame of `delta_us` microseconds. The clock
    /// stands still during a boat ride. When the day is over, one day length
    /// is taken off and `true` is returned: the world moves to the next cycle.
    pub fn advance(
        &mut self,
        delta_us: u64,
        has_hourglass: bool,
        fast_forward_held: bool,
        rowing: bool,
    ) -> (day_over: bool)
        ensures
            rowing ==> !day_over && final(self).elapsed_us == old(self).elapsed_us,
            !rowing ==> ({
                let t = day_time_after(
                    old(self).elapsed_us as int,
                    delta_us as int,
                    time_factor(has_hourglass, fast_forward_held),
                );
                &&& day_over == (t >= DAY_LENGTH_US)
                &&& final(self).elapsed_us == if day_over { t - DAY_LENGTH_US } else { t }
            }),
    {
        if rowing {
            return false;
        }
        let factor: u64 = if has_hourglass && fast_forward_held {
            FAST_FORWARD_FACTOR
        } else {
            1
        };
        let scaled: u64 = if delta_us > u64::MAX / factor {
            u64::MAX
        } else {
            delta_us * factor
        };
        assert(delta_us > u64::MAX / factor <==> delta_us * factor > u64::MAX) by (nonlinear_arith)
            requires
                factor == 1 || factor == 30,
        ;
        let t = self.elapsed_us.saturating_add(scaled);
        if t >= DAY_LENGTH_US {
            self.elapsed_us = t - DAY_LENGTH_US;
            true
        } else {
            self.elapsed_us = t;
            false
        }
    }
}

/// Time walked since the last footstep sound.
pub struct FootstepTimer(pub u64);

impl FootstepTimer {
    /// Adds one frame of walking; returns whether a footstep sounds now, in
    /// which case the timer starts over.
    pub fn tick(&mut self, delta_us: u64) -> (step: bool)
        ensures
            step == (sat_add(old(self).0 as int, delta_us as int) >= FOOTSTEP_INTERVAL_US),
            final(self).0 == if step { 0 } else { sat_add(old(self).0 as int, delta_us as int) },
    {
        let t = self.0.saturating_add(delta_us);
        if t >= FOOTSTEP_INTERVAL_US {
            self.0 = 0;
            true
        } else {
            self.0 = t;
            false
        }
    }

    /// Starts the interval over, as when the player stands still or is in the
    /// air.
    pub fn reset(&mut self)
        ensures
            final(self).0 == 0,
    {
        self.0 = 0;
    }
}

/// Countdown to the next pass that re-enables disabled colliders.
pub struct ColliderTimer(pub u64);

impl ColliderTimer {
    /// Runs the countdown for one frame; when it has run out, it is set to the
    /// retry interval again and `true` says that the pass is due.
    pub fn tick(&mut self, delta_us: u64) -> (due: bool)
        ensures
            due == (delta_us >= old(self).0),
            final(self).0 == if due { COLLIDER_RETRY_US as int } else { old(self).0 - delta_us },
    {
        let left = self.0.saturating_sub(delta_us);
        if left == 0 {
            self.0 = COLLIDER_RETRY_US;
            true
        } else {
            self.0 = left;
            false
        }
    }
}

/// A timer that runs once for a fixed duration.
pub struct AnimationTimer {
    pub duration_us: u64,
    pub elapsed_us: u64,
}

impl AnimationTimer {
    pub fn new(duration_us: u64) -> (r: Self)
        ensures
            r.duration_us == duration_us,
            r.elapsed_us == 0,
    {
        AnimationTimer { duration_us, elapsed_us: 0 }
    }

    pub open spec fn finished(&self) -> bool {
        self.elapsed_us >= self.duration_us
    }

    /// Runs the timer for one frame. Returns `true` on the one frame in which
    /// it reaches its duration; the elapsed time stops at the duration.
    pub fn tick(&mut self, delta_us: u64) -> (just_finished: bool)
        ensures
            old(self).finished() ==> !just_finished && *final(self) == *old(self),
            !old(self).finished() ==> {
                let t = sat_add(old(self).elapsed_us as int, delta_us as int);
                &&& final(self).duration_us == old(self).duration_us
                &&& final(self).elapsed_us == if t >= old(self).duration_us {
                    old(self).duration_us as int
                } else {
                    t
                }
                &&& just_finished == (t >= old(self).duration_us)
            },
    {
        if self.elapsed_us >= self.duration_us {
            return false;
        }
        let t = self.elapsed_us.saturating_add(delta_us);
        if t >= self.duration_us {
            self.elapsed_us = self.duration_us;
            true
        } else {
            self.elapsed_us = t;
            false
        }
    }
}

} // verus!
