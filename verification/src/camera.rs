//! The camera state and its per-tick update.

use vstd::prelude::*;

verus! {

/// One whole unit of a tick input (a mouse delta, a speed, the frame
/// duration, a direction component), which are measured in thousandths.
pub const INPUT_ONE: i64 = 1000;

/// One whole unit of stored state (a degree of angle, a world unit of
/// position), measured in billionths: the product of three input scales,
/// so a tick's contribution `input * speed * dt` needs no rounding.
pub const STATE_ONE: i64 = 1_000_000_000;

/// Magnitude cap on each tick input, in thousandths: one billion, i.e. a
/// million whole units. Keeps every intermediate product inside `i128`.
pub const INPUT_LIMIT: i64 = 1_000_000_000;

/// Lower clamp bound on pitch: -89.0 degrees, in billionths of a degree.
pub const PITCH_MIN: i64 = -89_000_000_000;

/// Upper clamp bound on pitch: 89.9 degrees, in billionths of a degree.
pub const PITCH_MAX: i64 = 89_900_000_000;

/// A full turn of yaw: 360 degrees, in billionths of a degree.
pub const FULL_TURN: i64 = 360_000_000_000;

/// Accumulated relative mouse motion since the previous tick, in
/// thousandths of a device unit per axis.
#[derive(Clone, Copy, PartialEq, Eq, Structural, Debug)]
pub struct MouseDelta {
    pub x: i64,
    pub y: i64,
}

/// The pressed state of the four movement keys at the moment of the tick.
#[derive(Clone, Copy, PartialEq, Eq, Structural, Debug)]
pub struct MovementInput {
    pub forward: bool,
    pub backward: bool,
    pub left: bool,
    pub right: bool,
}

/// A fixed-point 3-vector: the camera position in billionths of a world
/// unit, or a direction vector in thousandths (so a unit vector has
/// components between `-INPUT_ONE` and `INPUT_ONE`).
#[derive(Clone, Copy, PartialEq, Eq, Structural, Debug)]
pub struct Vec3Fix {
    pub x: i64,
    pub y: i64,
    pub z: i64,
}

/// The camera's persistent state: orientation as yaw and pitch in
/// billionths of a degree, and a world position in billionths of a unit.
#[derive(Clone, Copy, PartialEq, Eq, Structural, Debug)]
pub struct CameraState {
    pub yaw: i64,
    pub pitch: i64,
    pub position: Vec3Fix,
}

/// Pitch saturated into the clamp range, so the view never reaches the
/// vertical poles.
pub open spec fn clamped_pitch(p: int) -> int {
    if p < PITCH_MIN {
        PITCH_MIN as int
    } else if p > PITCH_MAX {
        PITCH_MAX as int
    } else {
        p
    }
}

/// Yaw after one tick whose angular contribution (mouse x, times rotation
/// speed, times dt) is `swing`: mouse motion to the right turns the camera
/// negatively, as the yaw sign convention has it.
pub open spec fn yaw_after(yaw: int, swing: int) -> int {
    yaw - swing
}

/// Pitch after one tick whose angular contribution (mouse y, times rotation
/// speed, times dt) is `rise`: added, then clamped.
pub open spec fn pitch_after(pitch: int, rise: int) -> int {
    clamped_pitch(pitch + rise)
}

/// Forward-axis intent from the key state: +1, 0 or -1.
pub open spec fn axial_of(keys: MovementInput) -> int {
    (if keys.forward { 1int } else { 0int }) - (if keys.backward { 1int } else { 0int })
}

/// Sideways intent from the key state: +1, 0 or -1.
pub open spec fn lateral_of(keys: MovementInput) -> int {
    (if keys.right { 1int } else { 0int }) - (if keys.left { 1int } else { 0int })
}

/// The displacement one tick adds along one coordinate axis: the forward
/// and right direction components, each scaled by the key intent, the move
/// speed and the frame duration.
pub open spec fn axis_step(f: int, axial: int, r: int, lateral: int, speed: int, dt: int) -> int {
    f * axial * speed * dt + r * lateral * speed * dt
}

/// One coordinate of the position after a movement tick.
pub open spec fn moved_axis(x: int, f: int, axial: int, r: int, lateral: int, speed: int, dt: int) -> int {
    x + axis_step(f, axial, r, lateral, speed, dt)
}

/// `|a * b| <= ma * mb` when each factor is bounded in magnitude.
proof fn lemma_mul_bound(a: int, b: int, ma: int, mb: int) by (nonlinear_arith)
    requires
        -ma <= a <= ma,
        -mb <= b <= mb,
        0 <= ma,
        0 <= mb,
    ensures
        -(ma * mb) <= a * b <= ma * mb,
{
}

impl MovementInput {
    /// A key state with nothing pressed.
    pub fn released() -> (keys: MovementInput)
        ensures
            keys == (MovementInput { forward: false, backward: false, left: false, right: false }),
    {
        MovementInput { forward: false, backward: false, left: false, right: false }
    }

    /// Forward-axis intent: +1 when only the forward key is down, -1 when
    /// only the backward key is down, 0 otherwise.
    pub fn axial(&self) -> (a: i64)
        ensures
            a == axial_of(*self),
    {
        (if self.forward { 1i64 } else { 0i64 }) - (if self.backward { 1i64 } else { 0i64 })
    }

    /// Sideways intent: +1 when only the right key is down, -1 when only
    /// the left key is down, 0 otherwise.
    pub fn lateral(&self) -> (l: i64)
        ensures
            l == lateral_of(*self),
    {
        (if self.right { 1i64 } else { 0i64 }) - (if self.left { 1i64 } else { 0i64 })
    }
}

impl CameraState {
    /// The state invariant: pitch lies inside the clamp range. Every
    /// constructor establishes it and every update preserves it.
    pub open spec fn wf(self) -> bool {
        PITCH_MIN <= self.pitch <= PITCH_MAX
    }

    /// A camera at `position` looking along `yaw` and `pitch` (billionths
    /// of a degree); an out-of-range pitch is clamped on entry.
    pub fn new(yaw: i64, pitch: i64, position: Vec3Fix) -> (cam: CameraState)
        ensures
            cam.yaw == yaw,
            cam.pitch == clamped_pitch(pitch as int),
            cam.position == position,
            cam.wf(),
    {
        let p: i64 = if pitch < PITCH_MIN {
            PITCH_MIN
        } else if pitch > PITCH_MAX {
            PITCH_MAX
        } else {
            pitch
        };
        CameraState { yaw, pitch: p, position }
    }

    /// One orientation tick: yaw swings against the horizontal mouse
    /// motion, pitch rises with the vertical motion and is then clamped;
    /// the position is untouched. `dt` is the frame duration in
    /// thousandths of a second, `rotation_speed` the sensitivity in
    /// thousandths.
    pub fn update_orientation(&mut self, delta: MouseDelta, dt: i64, rotation_speed: i64)
        requires
            old(self).wf(),
            0 <= dt <= INPUT_LIMIT,
            -INPUT_LIMIT <= delta.x <= INPUT_LIMIT,
            -INPUT_LIMIT <= delta.y <= INPUT_LIMIT,
            -INPUT_LIMIT <= rotation_speed <= INPUT_LIMIT,
            i64::MIN <= yaw_after(old(self).yaw as int, delta.x * rotation_speed * dt) <= i64::MAX,
        ensures
            final(self).yaw == yaw_after(old(self).yaw as int, delta.x * rotation_speed * dt),
            final(self).pitch == pitch_after(old(self).pitch as int, delta.y * rotation_speed * dt),
            final(self).position == old(self).position,
            final(self).wf(),
    {
        proof {
            lemma_mul_bound(delta.x as int, rotation_speed as int, INPUT_LIMIT as int, INPUT_LIMIT as int);
            lemma_mul_bound(delta.x * rotation_speed, dt as int, (INPUT_LIMIT * INPUT_LIMIT) as int, INPUT_LIMIT as int);
            lemma_mul_bound(delta.y as int, rotation_speed as int, INPUT_LIMIT as int, INPUT_LIMIT as int);
            lemma_mul_bound(delta.y * rotation_speed, dt as int, (INPUT_LIMIT * INPUT_LIMIT) as int, INPUT_LIMIT as int);
        }
        let swing: i128 = (delta.x as i128) * (rotation_speed as i128) * (dt as i128);
        let rise: i128 = (delta.y as i128) * (rotation_speed as i128) * (dt as i128);
        self.yaw = ((self.yaw as i128) - swing) as i64;
        let lo: i128 = PITCH_MIN as i128;
        let hi: i128 = PITCH_MAX as i128;
        let tilted: i128 = (self.pitch as i128) + rise;
        let clamped: i128 = if tilted < lo {
            lo
        } else if tilted > hi {
            hi
        } else {
            tilted
        };
        self.pitch = clamped as i64;
    }

    /// One movement tick: the position advances along the supplied forward
    /// and right direction vectors (thousandths; derived by the caller
    /// from the current orientation) according to the key intents, the
    /// move speed and the frame duration, both in thousandths. The
    /// orientation is untouched.
    pub fn apply_movement(
        &mut self,
        fwd: Vec3Fix,
        rgt: Vec3Fix,
        keys: MovementInput,
        dt: i64,
        move_speed: i64,
    )
        requires
            0 <= dt <= INPUT_LIMIT,
            -INPUT_LIMIT <= move_speed <= INPUT_LIMIT,
            -INPUT_ONE <= fwd.x <= INPUT_ONE,
            -INPUT_ONE <= fwd.y <= INPUT_ONE,
            -INPUT_ONE <= fwd.z <= INPUT_ONE,
            -INPUT_ONE <= rgt.x <= INPUT_ONE,
            -INPUT_ONE <= rgt.y <= INPUT_ONE,
            -INPUT_ONE <= rgt.z <= INPUT_ONE,
            i64::MIN <= moved_axis(old(self).position.x as int, fwd.x as int, axial_of(keys), rgt.x as int, lateral_of(keys), move_speed as int, dt as int) <= i64::MAX,
            i64::MIN <= moved_axis(old(self).position.y as int, fwd.y as int, axial_of(keys), rgt.y as int, lateral_of(keys), move_speed as int, dt as int) <= i64::MAX,
            i64::MIN <= moved_axis(old(self).position.z as int, fwd.z as int, axial_of(keys), rgt.z as int, lateral_of(keys), move_speed as int, dt as int) <= i64::MAX,
        ensures
            final(self).yaw == old(self).yaw,
            final(self).pitch == old(self).pitch,
            final(self).position.x == moved_axis(old(self).position.x as int, fwd.x as int, axial_of(keys), rgt.x as int, lateral_of(keys), move_speed as int, dt as int),
            final(self).position.y == moved_axis(old(self).position.y as int, fwd.y as int, axial_of(keys), rgt.y as int, lateral_of(keys), move_speed as int, dt as int),
            final(self).position.z == moved_axis(old(self).position.z as int, fwd.z as int, axial_of(keys), rgt.z as int, lateral_of(keys), move_speed as int, dt as int),
            old(self).wf() ==> final(self).wf(),
    {
        let a: i64 = keys.axial();
        let l: i64 = keys.lateral();
        self.position.x = Self::step_axis(self.position.x, fwd.x, a, rgt.x, l, move_speed, dt);
        self.position.y = Self::step_axis(self.position.y, fwd.y, a, rgt.y, l, move_speed, dt);
        self.position.z = Self::step_axis(self.position.z, fwd.z, a, rgt.z, l, move_speed, dt);
    }

    /// One coordinate of a movement tick, exactly `moved_axis`.
    fn step_axis(x: i64, f: i64, a: i64, r: i64, l: i64, speed: i64, dt: i64) -> (x2: i64)
        requires
            0 <= dt <= INPUT_LIMIT,
            -INPUT_LIMIT <= speed <= INPUT_LIMIT,
            -INPUT_ONE <= f <= INPUT_ONE,
            -INPUT_ONE <= r <= INPUT_ONE,
            -1 <= a <= 1,
            -1 <= l <= 1,
            i64::MIN <= moved_axis(x as int, f as int, a as int, r as int, l as int, speed as int, dt as int) <= i64::MAX,
        ensures
            x2 == moved_axis(x as int, f as int, a as int, r as int, l as int, speed as int, dt as int),
    {
        proof {
            lemma_mul_bound(f as int, a as int, INPUT_ONE as int, 1);
            lemma_mul_bound(f * a, speed as int, INPUT_ONE as int, INPUT_LIMIT as int);
            lemma_mul_bound(f * a * speed, dt as int, (INPUT_ONE * INPUT_LIMIT) as int, INPUT_LIMIT as int);
            lemma_mul_bound(r as int, l as int, INPUT_ONE as int, 1);
            lemma_mul_bound(r * l, speed as int, INPUT_ONE as int, INPUT_LIMIT as int);
            lemma_mul_bound(r * l * speed, dt as int, (INPUT_ONE * INPUT_LIMIT) as int, INPUT_LIMIT as int);
        }
        let along: i128 = (f as i128) * (a as i128) * (speed as i128) * (dt as i128);
        let across: i128 = (r as i128) * (l as i128) * (speed as i128) * (dt as i128);
        ((x as i128) + along + across) as i64
    }
}

} // verus!
