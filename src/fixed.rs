use vstd::prelude::*;

verus! {

/// Micro-units of length in one world unit, the edge of a voxel cell.
/// Positions and directions are held in micro-units.
pub const UNIT: i64 = 1_000_000;

/// Whether a mathematical integer can be held in an `i64`.
pub open spec fn fits(v: int) -> bool {
    i64::MIN <= v <= i64::MAX
}

/// A point or a vector in micro-units.
#[derive(Clone, Copy, Debug, PartialEq, Eq, Structural)]
pub struct Vec3 {
    pub x: i64,
    pub y: i64,
    pub z: i64,
}

/// An integer-aligned voxel cell: the cell `(x, y, z)` spans
/// `[x, x + 1) × [y, y + 1) × [z, z + 1)` in world units.
#[derive(Clone, Copy, Debug, PartialEq, Eq, Structural)]
pub struct Cell {
    pub x: i64,
    pub y: i64,
    pub z: i64,
}

/// The index of the cell whose span holds the coordinate `a` (in micro-units):
/// the largest integer not above `a / UNIT`.
pub open spec fn cell_of(a: int) -> int {
    a / (UNIT as int)
}

/// The cell holding a point.
pub open spec fn cell_of_point(p: Vec3) -> Cell {
    Cell { x: cell_of(p.x as int) as i64, y: cell_of(p.y as int) as i64, z: cell_of(p.z as int) as i64 }
}

/// The largest integer not above `a / UNIT`, for `a` in micro-units.
pub fn floor_cell(a: i64) -> (r: i64)
    ensures
        r == cell_of(a as int),
{
    a.checked_div_euclid(UNIT).unwrap()
}

/// The cell holding a point (each coordinate floored to whole units).
pub fn floor_point(p: Vec3) -> (r: Cell)
    ensures
        r == cell_of_point(p),
{
    Cell { x: floor_cell(p.x), y: floor_cell(p.y), z: floor_cell(p.z) }
}

impl Vec3 {
    /// The point `(x, y, z)` given in whole units.
    pub fn from_units(x: i32, y: i32, z: i32) -> (r: Vec3)
        ensures
            r.x == x * UNIT,
            r.y == y * UNIT,
            r.z == z * UNIT,
    {
        Vec3 { x: x as i64 * UNIT, y: y as i64 * UNIT, z: z as i64 * UNIT }
    }
}

} // verus!
