use vstd::prelude::*;

verus! {

/// Upward speed at the start of a jump, in micrometres per second.
pub const JUMP_SPEED_UM_S: i64 = 4_000_000;

/// How long after leaving the ground a jump is still allowed, in microseconds.
pub const COYOTE_TIME_US: u64 = 500_000;

/// The movement keys held in one frame.
#[derive(Debug, Clone, Copy, PartialEq, Eq, Structural)]
pub struct MovementKeys {
    pub forward: bool,
    pub back: bool,
    pub left: bool,
    pub right: bool,
    pub jump: bool,
}

/// Direction asked for by the keys before normalisation: `x` to the right,
/// `y` forward, each -1, 0 or 1.
#[derive(Debug, Clone, Copy, PartialEq, Eq, Structural)]
pub struct Intent {
    pub x: i8,
    pub y: i8,
}

/// One axis of the intent: 1 for the positive key, -1 for the negative one,
/// 0 for both or neither.
pub open spec fn axis(positive: bool, negative: bool) -> int {
    (if positive { 1int } else { 0int }) - (if negative { 1int } else { 0int })
}

pub open spec fn intent_spec(keys: MovementKeys) -> Intent {
    Intent { x: axis(keys.right, keys.left) as i8, y: axis(keys.forward, keys.back) as i8 }
}

impl Intent {
    pub open spec fn is_zero(&self) -> bool {
        self.x == 0 && self.y == 0
    }
}

/// The direction that the keys ask for.
pub fn intent_of(keys: &MovementKeys) -> (r: Intent)
    ensures
        r == intent_spec(*keys),
        r.x == axis(keys.right, keys.left),
        r.y == axis(keys.forward, keys.back),
{
    let mut x: i8 = 0;
    let mut y: i8 = 0;
    if keys.forward {
        y = y + 1;
    }
    if keys.back {
        y = y - 1;
    }
    if keys.left {
        x = x - 1;
    }
    if keys.right {
        x = x + 1;
    }
    Intent { x, y }
}

/// The movement that the player's character asks for; a disabled controller
/// ignores input, as during a boat ride.
#[derive(Debug, Clone, Copy, PartialEq, Eq, Structural)]
pub struct MovementController {
    pub direction: Intent,
    pub jump: bool,
    pub disabled: bool,
}

impl MovementController {
    pub fn new() -> (r: Self)
        ensures
            r.direction.is_zero(),
            !r.jump,
            !r.disabled,
    {
        MovementController { direction: Intent { x: 0, y: 0 }, jump: false, disabled: false }
    }
}

/// Records one frame of input into the controller. Returns whether the
/// footstep interval starts over: the player stands still or is in the air.
/// A disabled controller is left as it is.
pub fn record_movement_controller(
    controller: &mut MovementController,
    keys: &MovementKeys,
    grounded: bool,
) -> (reset_footsteps: bool)
    ensures
        old(controller).disabled ==> *final(controller) == *old(controller) && !reset_footsteps,
        !old(controller).disabled ==> {
            &&& final(controller).direction == intent_spec(*keys)
            &&& final(controller).jump == (keys.jump && grounded)
            &&& !final(controller).disabled
            &&& reset_footsteps == (intent_spec(*keys).is_zero() || !grounded)
        },
{
    if controller.disabled {
        return false;
    }
    let intent = intent_of(keys);
    controller.direction = intent;
    controller.jump = keys.jump && grounded;
    (intent.x == 0 && intent.y == 0) || !grounded
}

/// Vertical speed lost to gravity (9.8 m/s²) in `delta` microseconds, in
/// micrometres per second, rounded down.
pub open spec fn gravity_loss(delta: int) -> int {
    delta * 49 / 5
}

/// `v`, held at `i64::MIN` from below.
pub open spec fn floor_i64(v: int) -> int {
    if v < i64::MIN {
        i64::MIN as int
    } else {
        v
    }
}

/// Vertical state of the player's character between frames.
#[derive(Debug, Clone, Copy, PartialEq, Eq, Structural)]
pub struct VerticalMotion {
    /// Vertical speed, in micrometres per second, upwards positive.
    pub speed_um_s: i64,
    /// Time left in which a jump is allowed, in microseconds.
    pub grounded_timer_us: u64,
    /// Whether the character was in the air in the previous frame.
    pub prev_in_air: bool,
}

/// The result of one frame of vertical motion.
#[derive(Debug, Clone, Copy, PartialEq, Eq, Structural)]
pub struct VerticalStep {
    /// The vertical speed that this frame's move uses.
    pub speed_um_s: i64,
    /// Footstep sounds due in this frame: one for landing, one for a jump.
    pub footsteps: u8,
}

impl VerticalMotion {
    pub fn new() -> (r: Self)
        ensures
            r.speed_um_s == 0,
            r.grounded_timer_us == 0,
            !r.prev_in_air,
    {
        VerticalMotion { speed_um_s: 0, grounded_timer_us: 0, prev_in_air: false }
    }

    /// One frame of vertical motion. On the ground the speed drops to zero and
    /// the jump window opens; within the window a held jump key starts a jump
    /// and closes it; gravity then acts for the frame. The move itself uses the
    /// speed from before this frame.
    pub fn step(&mut self, grounded: bool, jump: bool, delta_us: u64) -> (r: VerticalStep)
        ensures
            r.speed_um_s == old(self).speed_um_s,
            ({
                let timer = if grounded { COYOTE_TIME_US as int } else { old(self).grounded_timer_us as int };
                let landed = grounded && old(self).prev_in_air;
                let jumped = timer > 0 && jump;
                let speed = if jumped {
                    JUMP_SPEED_UM_S as int
                } else if grounded {
                    0int
                } else {
                    old(self).speed_um_s as int
                };
                &&& final(self).prev_in_air == !grounded
                &&& final(self).grounded_timer_us == if jumped {
                    0int
                } else if timer > 0 {
                    if timer > delta_us { timer - delta_us } else { 0int }
                } else {
                    timer
                }
                &&& final(self).speed_um_s == floor_i64(speed - gravity_loss(delta_us as int))
                &&& r.footsteps == (if landed { 1int } else { 0int }) + (if jumped { 1int } else { 0int })
            }),
    {
        let used = self.speed_um_s;
        let mut footsteps: u8 = 0;
        if grounded {
            self.grounded_timer_us = COYOTE_TIME_US;
            self.speed_um_s = 0;
            if self.prev_in_air {
                footsteps = footsteps + 1;
            }
        }
        self.prev_in_air = !grounded;
        if self.grounded_timer_us > 0 {
            self.grounded_timer_us = self.grounded_timer_us.saturating_sub(delta_us);
            if jump {
                self.speed_um_s = JUMP_SPEED_UM_S;
                self.grounded_timer_us = 0;
                footsteps = footsteps + 1;
            }
        }
        let loss: i128 = (delta_us as i128) * 49 / 5;
        let v: i128 = self.speed_um_s as i128 - loss;
        self.speed_um_s = if v < i64::MIN as i128 {
            i64::MIN
        } else {
            v as i64
        };
        VerticalStep { speed_um_s: used, footsteps }
    }
}

} // verus!
