// Scenario tests for the free-look camera controller. All quantities are
// fixed point: tick inputs in thousandths, stored state in billionths.

use freelook::camera::CameraState;
use freelook::camera::MouseDelta;
use freelook::camera::MovementInput;
use freelook::camera::Vec3Fix;
use freelook::camera::PITCH_MAX;
use freelook::camera::PITCH_MIN;
use freelook::camera::FULL_TURN;

fn origin() -> Vec3Fix {
    Vec3Fix { x: 0, y: 0, z: 0 }
}

fn forward_only() -> MovementInput {
    MovementInput { forward: true, backward: false, left: false, right: false }
}

// Looking along yaw = 0, pitch = 0 the forward unit vector is -Z and the
// right unit vector is +X, in thousandths.
fn level_forward() -> Vec3Fix {
    Vec3Fix { x: 0, y: 0, z: -1000 }
}

fn level_right() -> Vec3Fix {
    Vec3Fix { x: 1000, y: 0, z: 0 }
}

#[test]
fn horizontal_mouse_motion_swings_yaw_negative() {
    // mouse_delta = (10, 0), dt = 1 s, rotation_speed = 1: yaw becomes
    // -10 degrees, pitch stays 0, position stays put.
    let mut cam = CameraState::new(0, 0, origin());
    cam.update_orientation(MouseDelta { x: 10_000, y: 0 }, 1000, 1000);
    assert_eq!(cam.yaw, -10_000_000_000);
    assert_eq!(cam.pitch, 0);
    assert_eq!(cam.position, origin());
}

#[test]
fn forward_key_moves_along_forward_vector() {
    // move_speed = 5, dt = 1 s, forward key held, no mouse motion: the
    // camera advances 5 world units along the forward vector of the level
    // orientation, which is -Z.
    let mut cam = CameraState::new(0, 0, origin());
    cam.update_orientation(MouseDelta { x: 0, y: 0 }, 1000, 1000);
    assert_eq!(cam.yaw, 0);
    assert_eq!(cam.pitch, 0);
    cam.apply_movement(level_forward(), level_right(), forward_only(), 1000, 5000);
    assert_eq!(cam.position, Vec3Fix { x: 0, y: 0, z: -5_000_000_000 });
    assert_eq!(cam.yaw, 0);
    assert_eq!(cam.pitch, 0);
}

#[test]
fn pitch_accumulating_past_the_top_clamps_and_stays() {
    // Four ticks of +50 degrees each accumulate towards 200 degrees; the
    // clamp catches the second tick at 89.9 degrees and every further
    // upward tick leaves it exactly there.
    let mut cam = CameraState::new(0, 0, origin());
    let push_up = MouseDelta { x: 0, y: 50_000 };
    cam.update_orientation(push_up, 1000, 1000);
    assert_eq!(cam.pitch, 50_000_000_000);
    cam.update_orientation(push_up, 1000, 1000);
    assert_eq!(cam.pitch, 89_900_000_000);
    cam.update_orientation(push_up, 1000, 1000);
    assert_eq!(cam.pitch, 89_900_000_000);
    cam.update_orientation(push_up, 1000, 1000);
    assert_eq!(cam.pitch, 89_900_000_000);
}

#[test]
fn extreme_pitch_input_saturates_at_the_bounds() {
    // A single tick with a mouse delta of a million device units lands
    // exactly on the clamp bound, in either direction.
    let mut cam = CameraState::new(0, 0, origin());
    cam.update_orientation(MouseDelta { x: 0, y: 1_000_000_000 }, 1000, 1000);
    assert_eq!(cam.pitch, PITCH_MAX);
    cam.update_orientation(MouseDelta { x: 0, y: -1_000_000_000 }, 1000, 1000);
    assert_eq!(cam.pitch, PITCH_MIN);
}

#[test]
fn idle_ticks_change_nothing() {
    // Zero mouse motion and no key pressed: orientation and position are
    // bit-for-bit unchanged, over several ticks.
    let start = CameraState::new(123_000_000, -45_000_000_000, Vec3Fix { x: 7, y: -8, z: 9 });
    let mut cam = start;
    let idle = MouseDelta { x: 0, y: 0 };
    for _ in 0..5 {
        cam.update_orientation(idle, 16, 1000);
        cam.apply_movement(level_forward(), level_right(), MovementInput::released(), 16, 20_000);
    }
    assert_eq!(cam, start);
}

#[test]
fn a_full_turn_of_yaw_keeps_the_heading() {
    // Mouse motion worth exactly -360 degrees of swing turns the camera
    // through a whole circle: the yaw angle moves by one full turn, so the
    // heading is the one it started with.
    let mut cam = CameraState::new(12_345, 500_000_000, origin());
    cam.update_orientation(MouseDelta { x: -360_000, y: 0 }, 1000, 1000);
    assert_eq!(cam.yaw, 12_345 + FULL_TURN);
    assert_eq!((cam.yaw - 12_345) % FULL_TURN, 0);
    assert_eq!(cam.pitch, 500_000_000);
}

#[test]
fn ten_small_ticks_equal_one_large_tick() {
    // The same mouse motion, keys, speeds and direction vectors, run as
    // ten ticks of 0.1 s, land exactly where one tick of 1 s lands.
    let delta = MouseDelta { x: 3_000, y: 2_000 };
    let fwd = Vec3Fix { x: 600, y: 0, z: -800 };
    let rgt = Vec3Fix { x: 800, y: 0, z: 600 };
    let keys = forward_only();

    let mut one = CameraState::new(0, 0, origin());
    one.update_orientation(delta, 1000, 1000);
    one.apply_movement(fwd, rgt, keys, 1000, 4000);

    let mut many = CameraState::new(0, 0, origin());
    for _ in 0..10 {
        many.update_orientation(delta, 100, 1000);
        many.apply_movement(fwd, rgt, keys, 100, 4000);
    }

    assert_eq!(many.yaw, one.yaw);
    assert_eq!(many.pitch, one.pitch);
    assert_eq!(many.position, one.position);
}

#[test]
fn construction_clamps_an_out_of_range_pitch() {
    let high = CameraState::new(0, 95_000_000_000, origin());
    assert_eq!(high.pitch, PITCH_MAX);
    let low = CameraState::new(0, -95_000_000_000, origin());
    assert_eq!(low.pitch, PITCH_MIN);
    let kept = CameraState::new(-3, 12_000_000_000, origin());
    assert_eq!(kept.pitch, 12_000_000_000);
    assert_eq!(kept.yaw, -3);
}

#[test]
fn key_intents_combine_and_cancel() {
    let none = MovementInput::released();
    assert_eq!(none.axial(), 0);
    assert_eq!(none.lateral(), 0);

    let all = MovementInput { forward: true, backward: true, left: true, right: true };
    assert_eq!(all.axial(), 0);
    assert_eq!(all.lateral(), 0);

    let back_left = MovementInput { forward: false, backward: true, left: true, right: false };
    assert_eq!(back_left.axial(), -1);
    assert_eq!(back_left.lateral(), -1);

    assert_eq!(forward_only().axial(), 1);
    assert_eq!(forward_only().lateral(), 0);
}

#[test]
fn opposed_keys_hold_the_camera_still() {
    let mut cam = CameraState::new(0, 0, Vec3Fix { x: 1, y: 2, z: 3 });
    let all = MovementInput { forward: true, backward: true, left: true, right: true };
    cam.apply_movement(level_forward(), level_right(), all, 1000, 20_000);
    assert_eq!(cam.position, Vec3Fix { x: 1, y: 2, z: 3 });
}

#[test]
fn strafing_moves_along_the_right_vector() {
    let mut cam = CameraState::new(0, 0, origin());
    let strafe = MovementInput { forward: false, backward: false, left: false, right: true };
    cam.apply_movement(level_forward(), level_right(), strafe, 500, 2000);
    // right key alone, speed 2, dt 0.5 s: one world unit along +X.
    assert_eq!(cam.position, Vec3Fix { x: 1_000_000_000, y: 0, z: 0 });
}
