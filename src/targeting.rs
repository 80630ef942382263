use vstd::prelude::*;
use crate::fixed::{Cell, UNIT, Vec3, cell_of, fits, floor_point};
use crate::viewer::Viewer;

verus! {

/// The last step sampled along the view ray.
pub const RAY_STEPS: u32 = 9;

/// What Block Targeting hands to the world in a frame.
#[derive(Clone, Copy, Debug, PartialEq, Eq, Structural)]
pub enum Intent {
    Nothing,
    PlaceAt(Cell),
    RemoveAt(Cell),
}

/// The cell holding `origin + dir * i`.
pub open spec fn ray_cell(origin: Vec3, dir: Vec3, i: int) -> Cell {
    Cell {
        x: cell_of(origin.x + dir.x * i) as i64,
        y: cell_of(origin.y + dir.y * i) as i64,
        z: cell_of(origin.z + dir.z * i) as i64,
    }
}

/// The first ray step from `origin` along `dir` stays within `i64`.
pub open spec fn ray_fits(origin: Vec3, dir: Vec3) -> bool {
    fits(origin.x + dir.x) && fits(origin.y + dir.y) && fits(origin.z + dir.z)
}

/// The frame's intent: a removal at the cell one step along the ray if the
/// remove button was just pressed; else a placement at the cell of the
/// origin if the place button was just pressed; else nothing.
pub open spec fn target_intent(origin: Vec3, dir: Vec3, remove: bool, place: bool) -> Intent {
    if remove {
        Intent::RemoveAt(ray_cell(origin, dir, 1))
    } else if place {
        Intent::PlaceAt(ray_cell(origin, dir, 0))
    } else {
        Intent::Nothing
    }
}

/// `a + d * i` for the ray step `i`.
fn step_coord(a: i64, d: i64, i: u32) -> (r: i64)
    requires
        i <= 1,
        fits(a + d),
    ensures
        r == a + d * i,
{
    if i == 0 {
        a
    } else {
        a + d
    }
}

/// The cell holding `origin + dir * i`, for the steps 0 and 1.
fn sample_cell(origin: Vec3, dir: Vec3, i: u32) -> (r: Cell)
    requires
        i <= 1,
        ray_fits(origin, dir),
    ensures
        r == ray_cell(origin, dir, i as int),
{
    floor_point(
        Vec3 {
            x: step_coord(origin.x, dir.x, i),
            y: step_coord(origin.y, dir.y, i),
            z: step_coord(origin.z, dir.z, i),
        },
    )
}

/// Block Targeting: walks the ray from the viewer along `forward` (a unit
/// vector in micro-units) over the steps `1..=RAY_STEPS`, and on a button
/// press stops at the first step with one intent. Removal is checked first.
pub fn place_or_destroy_block(viewer: &Viewer, forward: Vec3, remove: bool, place: bool) -> (r: Intent)
    requires
        ray_fits(viewer.position, forward),
    ensures
        r == target_intent(viewer.position, forward, remove, place),
{
    let origin = viewer.position;
    let mut i: u32 = 1;
    while i <= RAY_STEPS
        invariant
            1 <= i <= RAY_STEPS + 1,
            remove || place ==> i == 1,
            origin == viewer.position,
            ray_fits(origin, forward),
        decreases RAY_STEPS + 1 - i,
    {
        if remove {
            return Intent::RemoveAt(sample_cell(origin, forward, i));
        } else if place {
            return Intent::PlaceAt(sample_cell(origin, forward, i - 1));
        }
        i = i + 1;
    }
    Intent::Nothing
}

/// Two place presses at one viewer pose target the same cell: the cell of
/// the viewer's position.
pub proof fn lemma_place_target_repeats(v: Viewer, forward: Vec3)
    ensures
        target_intent(v.position, forward, false, true) == Intent::PlaceAt(ray_cell(v.position, forward, 0)),
        ray_cell(v.position, forward, 0) == crate::fixed::cell_of_point(v.position),
{
}

} // verus!
