use voxel_game::fixed::{floor_cell, Vec3, UNIT};
use voxel_game::kinematics::{apply_gravity, player_jump, GRAVITY, JUMP_VELOCITY};
use voxel_game::look::mouse_look;
use voxel_game::movement::{integer_sqrt, player_movement, Basis, MoveKeys};
use voxel_game::viewer::{Capabilities, Viewer, PITCH_LIMIT};

const GRAVITY_ON: Capabilities = Capabilities { has_gravity: true, has_pitch_clamp: true };
const GRAVITY_OFF: Capabilities = Capabilities { has_gravity: false, has_pitch_clamp: true };

fn level_basis() -> Basis {
    Basis {
        forward: Vec3 { x: 0, y: 0, z: -UNIT },
        right: Vec3 { x: UNIT, y: 0, z: 0 },
    }
}

fn keys(forward: bool, backward: bool, left: bool, right: bool) -> MoveKeys {
    MoveKeys { forward, backward, left, right }
}

fn grounded_at_floor() -> Viewer {
    let mut v = Viewer::spawn();
    v.position.y = UNIT;
    v
}

#[test]
fn spawn_pose() {
    let v = Viewer::spawn();
    assert_eq!(v.position, Vec3 { x: 8 * UNIT, y: 5 * UNIT, z: 8 * UNIT });
    assert_eq!((v.yaw, v.pitch), (0, 0));
    assert!(v.grounded);
}

#[test]
fn pitch_is_clamped_up_and_down() {
    let mut v = Viewer::spawn();
    mouse_look(&mut v, GRAVITY_ON, &vec![(0, 1_000_000)], 16_667);
    assert_eq!(v.pitch, PITCH_LIMIT);
    mouse_look(&mut v, GRAVITY_ON, &vec![(0, -1_000_000), (0, -5), (3, -1_000_000)], 16_667);
    assert_eq!(v.pitch, -PITCH_LIMIT);
}

#[test]
fn look_turn_is_exact() {
    let mut v = Viewer::spawn();
    mouse_look(&mut v, GRAVITY_ON, &vec![(10, 7)], 1000);
    assert_eq!(v.yaw, -1_000_000);
    assert_eq!(v.pitch, 700_000);
}

#[test]
fn one_radian_turn_over_a_second() {
    let mut v = Viewer::spawn();
    mouse_look(&mut v, GRAVITY_ON, &vec![(10_000, 5_000)], 1_000_000);
    assert_eq!(v.yaw, -1_000_000_000_000);
    assert_eq!(v.pitch, 500_000_000_000);
}

#[test]
fn large_turn_is_not_reduced() {
    let mut v = Viewer::spawn();
    mouse_look(&mut v, GRAVITY_ON, &vec![(1_000_000, 1_000_000)], 1_000_000);
    assert_eq!(v.yaw, -100_000_000_000_000);
    assert_eq!(v.pitch, PITCH_LIMIT);
}

#[test]
fn yaw_is_monotone_in_motion() {
    let mut a = Viewer::spawn();
    let mut b = Viewer::spawn();
    mouse_look(&mut a, GRAVITY_ON, &vec![(0, 0)], 16_667);
    mouse_look(&mut b, GRAVITY_ON, &vec![(1, 0)], 16_667);
    assert!(b.yaw < a.yaw);
}

#[test]
fn look_events_accumulate_in_order() {
    let mut v = Viewer::spawn();
    mouse_look(&mut v, GRAVITY_ON, &vec![(-4, 2), (-6, 3)], 1000);
    assert_eq!(v.yaw, 1_000_000);
    assert_eq!(v.pitch, 500_000);
}

#[test]
fn no_motion_event_changes_nothing() {
    let mut v = Viewer::spawn();
    v.pitch = 123;
    v.yaw = 456;
    let before = v;
    mouse_look(&mut v, GRAVITY_ON, &vec![], 16_667);
    assert_eq!(v, before);
}

#[test]
fn unclamped_pitch_accumulates() {
    let caps = Capabilities { has_gravity: false, has_pitch_clamp: false };
    let mut v = Viewer::spawn();
    mouse_look(&mut v, caps, &vec![(0, -10)], 1000);
    assert_eq!(v.pitch, -1_000_000);
    mouse_look(&mut v, caps, &vec![(0, -100_000)], 1_000_000);
    assert_eq!(v.pitch, -10_000_001_000_000);
}

#[test]
fn opposite_keys_cancel() {
    for caps in [GRAVITY_ON, GRAVITY_OFF] {
        for k in [keys(true, true, false, false), keys(false, false, true, true), keys(true, true, true, true)] {
            let mut v = Viewer::spawn();
            let before = v;
            player_movement(&mut v, caps, k, false, level_basis(), 16_667);
            assert_eq!(v.position.x, before.position.x);
            assert_eq!(v.position.z, before.position.z);
        }
    }
}

#[test]
fn no_keys_no_motion() {
    for dt in [0u32, 1, 16_667, 1_000_000, u32::MAX] {
        let mut v = Viewer::spawn();
        let before = v;
        player_movement(&mut v, GRAVITY_OFF, keys(false, false, false, false), false, level_basis(), dt);
        assert_eq!(v, before);
    }
}

#[test]
fn forward_moves_five_units_per_second() {
    let mut v = Viewer::spawn();
    player_movement(&mut v, GRAVITY_ON, keys(true, false, false, false), false, level_basis(), 1_000_000);
    assert_eq!(v.position, Vec3 { x: 8 * UNIT, y: 5 * UNIT, z: 3 * UNIT });
}

#[test]
fn diagonal_movement_is_normalized() {
    let mut v = Viewer::spawn();
    player_movement(&mut v, GRAVITY_ON, keys(true, false, false, true), false, level_basis(), 1_000_000);
    assert_eq!(v.position.x, 8 * UNIT + 3_535_533);
    assert_eq!(v.position.z, 8 * UNIT - 3_535_533);
}

#[test]
fn short_heading_walks_at_normal_speed() {
    let basis = Basis {
        forward: Vec3 { x: 1, y: -UNIT, z: 1 },
        right: Vec3 { x: UNIT, y: 0, z: 0 },
    };
    let mut v = Viewer::spawn();
    player_movement(&mut v, GRAVITY_ON, keys(true, false, false, false), false, basis, 1_000_000);
    assert_eq!(v.position.x, 8 * UNIT + 3_535_534);
    assert_eq!(v.position.z, 8 * UNIT + 3_535_534);
}

#[test]
fn movement_lifts_viewer_below_ground() {
    let mut v = Viewer::spawn();
    v.position = Vec3 { x: 2 * UNIT, y: UNIT / 4, z: 3 * UNIT };
    player_movement(&mut v, GRAVITY_OFF, keys(false, false, false, false), false, level_basis(), 16_000);
    assert_eq!(v.position, Vec3 { x: 2 * UNIT, y: UNIT, z: 3 * UNIT });
}

#[test]
fn vertical_part_of_heading_is_dropped() {
    let basis = Basis {
        forward: Vec3 { x: 0, y: -600_000, z: -800_000 },
        right: Vec3 { x: UNIT, y: 0, z: 0 },
    };
    let mut v = Viewer::spawn();
    player_movement(&mut v, GRAVITY_ON, keys(true, false, false, false), false, basis, 1_000_000);
    assert_eq!(v.position, Vec3 { x: 8 * UNIT, y: 5 * UNIT, z: 3 * UNIT });
}

#[test]
fn instant_jump_without_gravity() {
    let mut v = grounded_at_floor();
    player_movement(&mut v, GRAVITY_OFF, keys(false, false, false, false), true, level_basis(), 100_000);
    assert_eq!(v.position.y, UNIT + 500_000);
    let mut w = grounded_at_floor();
    player_movement(&mut w, GRAVITY_ON, keys(false, false, false, false), true, level_basis(), 100_000);
    assert_eq!(w.position.y, UNIT);
}

#[test]
fn movement_keeps_viewer_above_ground() {
    let mut v = grounded_at_floor();
    player_movement(&mut v, GRAVITY_ON, keys(false, true, true, false), false, level_basis(), 16_667);
    assert_eq!(v.position.y, UNIT);
}

#[test]
fn integer_sqrt_values() {
    assert_eq!(integer_sqrt(0), 0);
    assert_eq!(integer_sqrt(1), 1);
    assert_eq!(integer_sqrt(15), 3);
    assert_eq!(integer_sqrt(16), 4);
    assert_eq!(integer_sqrt(2_000_000_000_000), 1_414_213);
    assert_eq!(integer_sqrt(8_000_000_000_000), 2_828_427);
    assert_eq!(integer_sqrt(u128::MAX), u64::MAX as u128);
    assert_eq!(integer_sqrt(1 << 100), 1 << 50);
}

#[test]
fn jump_then_fall_lands_exactly_on_ground() {
    let mut v = grounded_at_floor();
    player_jump(&mut v, true);
    assert_eq!(v.velocity.y, JUMP_VELOCITY);
    assert!(!v.grounded);
    let mut highest = v.position.y;
    let mut frames = 0;
    while !v.grounded {
        apply_gravity(&mut v, 16_667);
        highest = highest.max(v.position.y);
        assert!(v.position.y >= UNIT);
        frames += 1;
        assert!(frames < 1000);
    }
    assert!(highest > UNIT);
    assert_eq!(v.position.y, UNIT);
    assert_eq!(v.velocity.y, 0);
    assert!(v.grounded);
}

#[test]
fn one_gravity_step_is_exact() {
    let mut v = grounded_at_floor();
    player_jump(&mut v, true);
    apply_gravity(&mut v, 10_000);
    let vy = JUMP_VELOCITY - GRAVITY * 10_000;
    assert_eq!(v.velocity.y, vy);
    assert_eq!(v.position.y, UNIT + vy * 10_000 / 1_000_000_000);
}

#[test]
fn jump_while_airborne_is_noop() {
    let mut v = grounded_at_floor();
    player_jump(&mut v, true);
    apply_gravity(&mut v, 16_667);
    let before = v;
    player_jump(&mut v, true);
    assert_eq!(v, before);
}

#[test]
fn grounded_velocity_is_frozen() {
    let mut v = Viewer::spawn();
    apply_gravity(&mut v, 16_667);
    assert_eq!(v, Viewer::spawn());
}

#[test]
fn floor_cell_rounds_down() {
    assert_eq!(floor_cell(0), 0);
    assert_eq!(floor_cell(UNIT - 1), 0);
    assert_eq!(floor_cell(UNIT), 1);
    assert_eq!(floor_cell(-1), -1);
    assert_eq!(floor_cell(-UNIT), -1);
    assert_eq!(floor_cell(-UNIT - 1), -2);
}

#[test]
fn gravity_lifts_viewer_below_ground() {
    let mut v = Viewer::spawn();
    v.position.y = UNIT / 4;
    v.grounded = false;
    apply_gravity(&mut v, 16_667);
    assert_eq!(v.position.y, UNIT);
    assert_eq!(v.velocity.y, 0);
    assert!(v.grounded);
}
