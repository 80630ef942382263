// A first-person voxel controller: look, horizontal movement, vertical
// kinematics and block targeting, in fixed-point integer units.
//
// Lengths are micro-units (one million to a voxel edge), times are
// microseconds, mouse motion is milli-pixels, angles are picoradians and
// velocities are nano-units per second.
pub mod fixed;
pub mod kinematics;
pub mod look;
pub mod movement;
pub mod targeting;
pub mod viewer;
pub mod world;
