use vstd::prelude::*;
use crate::fixed::{UNIT, Vec3, fits};
use crate::viewer::Viewer;

verus! {

/// Gravitational acceleration, 9.81 units per second squared: the vertical
/// velocity (in nano-units per second) drops by this much per microsecond.
pub const GRAVITY: i64 = 9810;

/// Vertical velocity that a jump gives: 5 units per second, in nano-units
/// per second.
pub const JUMP_VELOCITY: i64 = 5_000_000_000;

/// Nano-units per second times microseconds in one micro-unit.
pub const DRIFT_DIVISOR: i128 = 1_000_000_000;

/// The distance in micro-units covered in `dt` microseconds at velocity `vel`
/// (nano-units per second), rounded down.
pub open spec fn drift(vel: int, dt: int) -> int {
    (vel * dt) / (DRIFT_DIVISOR as int)
}

/// The vertical velocity after gravity acts for `dt` microseconds: it falls
/// while airborne and is frozen while grounded.
pub open spec fn fall_velocity(v: Viewer, dt: u32) -> int {
    if v.grounded {
        v.velocity.y as int
    } else {
        v.velocity.y - GRAVITY * dt
    }
}

/// The new velocity and position of a gravity step fit in `i64`.
pub open spec fn gravity_fits(v: Viewer, dt: u32) -> bool {
    &&& fits(fall_velocity(v, dt))
    &&& fits(v.position.x + drift(v.velocity.x as int, dt as int))
    &&& fits(v.position.y + drift(fall_velocity(v, dt), dt as int))
    &&& fits(v.position.z + drift(v.velocity.z as int, dt as int))
}

/// The viewer after a gravity step of `dt` microseconds: velocity updated,
/// position integrated, and, at or below height 1, set on the ground with
/// no vertical velocity.
pub open spec fn gravity_step(v: Viewer, dt: u32) -> Viewer {
    let vy = fall_velocity(v, dt);
    let x = v.position.x + drift(v.velocity.x as int, dt as int);
    let y = v.position.y + drift(vy, dt as int);
    let z = v.position.z + drift(v.velocity.z as int, dt as int);
    if y <= UNIT {
        Viewer {
            position: Vec3 { x: x as i64, y: UNIT, z: z as i64 },
            velocity: Vec3 { y: 0, ..v.velocity },
            grounded: true,
            ..v
        }
    } else {
        Viewer {
            position: Vec3 { x: x as i64, y: y as i64, z: z as i64 },
            velocity: Vec3 { y: vy as i64, ..v.velocity },
            ..v
        }
    }
}

/// The viewer after the jump action: launched upward if grounded and the
/// jump key was just pressed, else unchanged.
pub open spec fn jump_step(v: Viewer, pressed: bool) -> Viewer {
    if v.grounded && pressed {
        Viewer { velocity: Vec3 { y: JUMP_VELOCITY, ..v.velocity }, grounded: false, ..v }
    } else {
        v
    }
}

/// `p + vel * dt / DRIFT_DIVISOR`, rounded down.
fn integrate(p: i64, vel: i64, dt: u32) -> (r: i64)
    requires
        fits(p + drift(vel as int, dt as int)),
    ensures
        r == p + drift(vel as int, dt as int),
{
    assert(-0x8000_0000_0000_0000_0000_0000 <= vel * dt <= 0x8000_0000_0000_0000_0000_0000)
        by (nonlinear_arith)
        requires
            -0x8000_0000_0000_0000 <= vel < 0x8000_0000_0000_0000,
            0 <= dt < 0x1_0000_0000,
    ;
    let moved: i128 = (vel as i128 * dt as i128).checked_div_euclid(DRIFT_DIVISOR).unwrap();
    (p as i128 + moved) as i64
}

/// Vertical Kinematics: one gravity step of `dt` microseconds.
pub fn apply_gravity(viewer: &mut Viewer, dt: u32)
    requires
        gravity_fits(*old(viewer), dt),
    ensures
        *final(viewer) == gravity_step(*old(viewer), dt),
        final(viewer).wf(),
{
    if !viewer.grounded {
        viewer.velocity.y = viewer.velocity.y - GRAVITY * dt as i64;
    }
    let x = integrate(viewer.position.x, viewer.velocity.x, dt);
    let y = integrate(viewer.position.y, viewer.velocity.y, dt);
    let z = integrate(viewer.position.z, viewer.velocity.z, dt);
    viewer.position = Vec3 { x, y, z };
    if y <= UNIT {
        viewer.position.y = UNIT;
        viewer.velocity.y = 0;
        viewer.grounded = true;
    }
}

/// The jump action: launches a grounded viewer upward at `JUMP_VELOCITY`
/// when the jump key was just pressed.
pub fn player_jump(viewer: &mut Viewer, pressed: bool)
    ensures
        *final(viewer) == jump_step(*old(viewer), pressed),
{
    if viewer.grounded && pressed {
        viewer.velocity.y = JUMP_VELOCITY;
        viewer.grounded = false;
    }
}

/// A jump while airborne changes nothing.
pub proof fn lemma_jump_airborne_noop(v: Viewer, pressed: bool)
    requires
        !v.grounded,
    ensures
        jump_step(v, pressed) == v,
{
}

/// A jump from the ground sets the vertical velocity to `JUMP_VELOCITY` and
/// leaves the viewer airborne.
pub proof fn lemma_jump_from_ground(v: Viewer)
    requires
        v.grounded,
    ensures
        jump_step(v, true).velocity.y == JUMP_VELOCITY,
        !jump_step(v, true).grounded,
        jump_step(v, true).position == v.position,
{
}

/// A gravity step never leaves the viewer below height 1, and a step that
/// brings it to height 1 or below lands it exactly at height 1, with no
/// vertical velocity, grounded.
pub proof fn lemma_landing(v: Viewer, dt: u32)
    requires
        gravity_fits(v, dt),
    ensures
        gravity_step(v, dt).position.y >= UNIT,
        gravity_step(v, dt).position.y <= UNIT ==> {
            &&& gravity_step(v, dt).position.y == UNIT
            &&& gravity_step(v, dt).velocity.y == 0
            &&& gravity_step(v, dt).grounded
        },
{
}

} // verus!
