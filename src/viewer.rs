use vstd::prelude::*;
use crate::fixed::{UNIT, Vec3};

verus! {

/// The bound on |pitch| in picoradians: 1.54 radians, about 88 degrees.
pub const PITCH_LIMIT: i64 = 1_540_000_000_000;

/// Which parts of the controller are switched on.
#[derive(Clone, Copy, Debug, PartialEq, Eq, Structural)]
pub struct Capabilities {
    /// Vertical motion runs through velocity, gravity and a jump state machine;
    /// without it a jump is an instant vertical offset.
    pub has_gravity: bool,
    /// Pitch is clamped to `[-PITCH_LIMIT, PITCH_LIMIT]` after each motion
    /// event; without it pitch accumulates freely, as yaw does.
    pub has_pitch_clamp: bool,
}

/// The player's camera.
///
/// Lengths are in micro-units, angles in picoradians, velocity in
/// nano-units per second.
#[derive(Clone, Copy, Debug, PartialEq, Eq, Structural)]
pub struct Viewer {
    pub position: Vec3,
    /// Rotation about the world-up axis.
    pub yaw: i64,
    /// Rotation about the local right axis.
    pub pitch: i64,
    pub velocity: Vec3,
    pub grounded: bool,
}

impl Viewer {
    /// The viewer stands on or above the ground surface (height 1).
    pub open spec fn wf(self) -> bool {
        self.position.y >= UNIT
    }

    /// The viewer at the start of a session: at `(8, 5, 8)`, zero yaw and
    /// pitch, at rest and grounded.
    pub fn spawn() -> (r: Viewer)
        ensures
            r.wf(),
            r.position == (Vec3 { x: 8_000_000, y: 5_000_000, z: 8_000_000 }),
            r.yaw == 0,
            r.pitch == 0,
            r.velocity == (Vec3 { x: 0, y: 0, z: 0 }),
            r.grounded,
    {
        Viewer {
            position: Vec3 { x: 8 * UNIT, y: 5 * UNIT, z: 8 * UNIT },
            yaw: 0,
            pitch: 0,
            velocity: Vec3 { x: 0, y: 0, z: 0 },
            grounded: true,
        }
    }
}

} // verus!
