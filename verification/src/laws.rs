//! General properties of the camera update, stated over the same spec
//! functions that the update's contracts use and proved once for all
//! inputs: an idle tick changes nothing, pitch never leaves its clamp
//! range, a full turn of yaw is the same heading, and splitting a tick
//! into equal smaller ticks with the same inputs lands in the same state.

use vstd::prelude::*;
use crate::camera::CameraState;
use crate::camera::MovementInput;
use crate::camera::Vec3Fix;
use crate::camera::FULL_TURN;
use crate::camera::PITCH_MAX;
use crate::camera::PITCH_MIN;
use crate::camera::axial_of;
use crate::camera::axis_step;
use crate::camera::lateral_of;
use crate::camera::moved_axis;
use crate::camera::pitch_after;
use crate::camera::yaw_after;

verus! {

/// Yaw after `n` orientation ticks, each contributing the same angular
/// amount `swing`.
pub open spec fn yaw_iter(yaw: int, swing: int, n: nat) -> int
    decreases n,
{
    if n == 0 {
        yaw
    } else {
        yaw_after(yaw_iter(yaw, swing, (n - 1) as nat), swing)
    }
}

/// Pitch after `n` orientation ticks, each contributing the same angular
/// amount `rise` and each followed by the clamp.
pub open spec fn pitch_iter(pitch: int, rise: int, n: nat) -> int
    decreases n,
{
    if n == 0 {
        pitch
    } else {
        pitch_after(pitch_iter(pitch, rise, (n - 1) as nat), rise)
    }
}

/// One position coordinate after `n` movement ticks, each adding the same
/// displacement `step`.
pub open spec fn axis_iter(x: int, step: int, n: nat) -> int
    decreases n,
{
    if n == 0 {
        x
    } else {
        axis_iter(x, step, (n - 1) as nat) + step
    }
}

/// A whole number of full turns of yaw.
pub open spec fn full_turns(k: int) -> int {
    k * (FULL_TURN as int)
}

/// Two yaw angles that differ by a whole number of full turns describe the
/// same heading: the orientation they produce is identical.
pub open spec fn same_heading(a: int, b: int) -> bool {
    exists|k: int| a - b == #[trigger] full_turns(k)
}

/// An idle tick is the identity: with zero mouse motion and no key
/// pressed, any number of ticks leaves yaw, pitch and every position
/// coordinate exactly as they were, whatever the speeds, the frame
/// duration and the direction vectors.
pub proof fn lemma_idle_ticks_are_identity(
    cam: CameraState,
    keys: MovementInput,
    fwd: Vec3Fix,
    rgt: Vec3Fix,
    rotation_speed: int,
    move_speed: int,
    dt: int,
    n: nat,
)
    requires
        cam.wf(),
        !keys.forward,
        !keys.backward,
        !keys.left,
        !keys.right,
    ensures
        yaw_iter(cam.yaw as int, 0 * rotation_speed * dt, n) == cam.yaw,
        pitch_iter(cam.pitch as int, 0 * rotation_speed * dt, n) == cam.pitch,
        axis_iter(cam.position.x as int, axis_step(fwd.x as int, axial_of(keys), rgt.x as int, lateral_of(keys), move_speed, dt), n) == cam.position.x,
        axis_iter(cam.position.y as int, axis_step(fwd.y as int, axial_of(keys), rgt.y as int, lateral_of(keys), move_speed, dt), n) == cam.position.y,
        axis_iter(cam.position.z as int, axis_step(fwd.z as int, axial_of(keys), rgt.z as int, lateral_of(keys), move_speed, dt), n) == cam.position.z,
{
    assert(0 * rotation_speed * dt == 0) by (nonlinear_arith);
    lemma_yaw_iter_total(cam.yaw as int, 0, n);
    lemma_pitch_iter_collapses(cam.pitch as int, 0, n);
    assert(axial_of(keys) == 0);
    assert(lateral_of(keys) == 0);
    assert(axis_step(fwd.x as int, 0, rgt.x as int, 0, move_speed, dt) == 0) by (nonlinear_arith);
    assert(axis_step(fwd.y as int, 0, rgt.y as int, 0, move_speed, dt) == 0) by (nonlinear_arith);
    assert(axis_step(fwd.z as int, 0, rgt.z as int, 0, move_speed, dt) == 0) by (nonlinear_arith);
    lemma_axis_iter_total(cam.position.x as int, 0, n);
    lemma_axis_iter_total(cam.position.y as int, 0, n);
    lemma_axis_iter_total(cam.position.z as int, 0, n);
}

/// The clamp holds after every tick: whatever pitch the state held and
/// however large the tick's angular contribution, the new pitch lies in
/// the clamp range.
pub proof fn lemma_pitch_stays_clamped(pitch: int, rise: int)
    ensures
        PITCH_MIN <= pitch_after(pitch, rise) <= PITCH_MAX,
{
}

/// A full turn of yaw in either direction brings the camera back to the
/// same heading.
pub proof fn lemma_full_turn_same_heading(yaw: int, swing: int)
    requires
        swing == FULL_TURN || swing == -FULL_TURN,
    ensures
        same_heading(yaw_after(yaw, swing), yaw),
{
    if swing == FULL_TURN {
        assert(yaw_after(yaw, swing) - yaw == full_turns(-1));
    } else {
        assert(yaw_after(yaw, swing) - yaw == full_turns(1));
    }
}

/// `n` equal orientation ticks subtract `n` times the per-tick amount.
pub proof fn lemma_yaw_iter_total(yaw: int, swing: int, n: nat)
    ensures
        yaw_iter(yaw, swing, n) == yaw - n * swing,
    decreases n,
{
    if n == 0 {
        assert(0 * swing == 0) by (nonlinear_arith);
    } else {
        lemma_yaw_iter_total(yaw, swing, (n - 1) as nat);
        assert(n * swing == (n - 1) * swing + swing) by (nonlinear_arith);
    }
}

/// `n` equal movement ticks add `n` times the per-tick displacement.
pub proof fn lemma_axis_iter_total(x: int, step: int, n: nat)
    ensures
        axis_iter(x, step, n) == x + n * step,
    decreases n,
{
    if n == 0 {
        assert(0 * step == 0) by (nonlinear_arith);
    } else {
        lemma_axis_iter_total(x, step, (n - 1) as nat);
        assert(n * step == (n - 1) * step + step) by (nonlinear_arith);
    }
}

/// Because every tick pushes pitch the same way, `n` clamped ticks land
/// where one tick with the summed contribution lands.
pub proof fn lemma_pitch_iter_collapses(pitch: int, rise: int, n: nat)
    requires
        PITCH_MIN <= pitch <= PITCH_MAX,
    ensures
        pitch_iter(pitch, rise, n) == pitch_after(pitch, n * rise),
    decreases n,
{
    if n == 0 {
        assert(0 * rise == 0) by (nonlinear_arith);
    } else {
        lemma_pitch_iter_collapses(pitch, rise, (n - 1) as nat);
        let m: int = (n - 1) * rise;
        assert(n * rise == m + rise) by (nonlinear_arith)
            requires
                m == (n - 1) * rise,
                n >= 1;
        if rise >= 0 {
            assert(m >= 0) by (nonlinear_arith)
                requires
                    m == (n - 1) * rise,
                    rise >= 0,
                    n >= 1;
        } else {
            assert(m <= 0) by (nonlinear_arith)
                requires
                    m == (n - 1) * rise,
                    rise <= 0,
                    n >= 1;
        }
    }
}

/// Frame-rate independence of the orientation: `n` ticks of duration `dt`
/// with the same mouse motion and sensitivity land on exactly the yaw and
/// pitch of one tick of duration `n * dt`.
pub proof fn lemma_orientation_rate_independent(
    yaw: int,
    pitch: int,
    dx: int,
    dy: int,
    rotation_speed: int,
    dt: int,
    n: nat,
)
    requires
        PITCH_MIN <= pitch <= PITCH_MAX,
    ensures
        yaw_iter(yaw, dx * rotation_speed * dt, n) == yaw_after(yaw, dx * rotation_speed * (n * dt)),
        pitch_iter(pitch, dy * rotation_speed * dt, n) == pitch_after(pitch, dy * rotation_speed * (n * dt)),
{
    lemma_yaw_iter_total(yaw, dx * rotation_speed * dt, n);
    lemma_pitch_iter_collapses(pitch, dy * rotation_speed * dt, n);
    assert(n * (dx * rotation_speed * dt) == dx * rotation_speed * (n * dt)) by (nonlinear_arith);
    assert(n * (dy * rotation_speed * dt) == dy * rotation_speed * (n * dt)) by (nonlinear_arith);
}

/// Frame-rate independence of the movement, for direction vectors held
/// fixed across the ticks: `n` movement ticks of duration `dt` with the
/// same keys, speed and directions land on exactly the coordinate of one
/// tick of duration `n * dt`.
pub proof fn lemma_movement_rate_independent(
    x: int,
    f: int,
    axial: int,
    r: int,
    lateral: int,
    speed: int,
    dt: int,
    n: nat,
)
    ensures
        axis_iter(x, axis_step(f, axial, r, lateral, speed, dt), n) == moved_axis(x, f, axial, r, lateral, speed, n * dt),
{
    lemma_axis_iter_total(x, axis_step(f, axial, r, lateral, speed, dt), n);
    assert(n * (f * axial * speed * dt + r * lateral * speed * dt)
        == f * axial * speed * (n * dt) + r * lateral * speed * (n * dt)) by (nonlinear_arith);
}

} // verus!
