use vstd::prelude::*;
use crate::fixed::{Cell, UNIT, Vec3, cell_of_point, fits, floor_point};
use crate::targeting::Intent;

verus! {

/// Cells along each horizontal edge of the ground.
pub const GROUND_SIZE: i64 = 16;

/// The voxel cells of the world, each held by the translation of its cube
/// (micro-units), in spawn order.
pub struct VoxelWorld {
    blocks: Vec<Vec3>,
}

/// The `i`-th ground cube: cell `(i / 16, 0, i % 16)`.
pub open spec fn ground_block(i: int) -> Vec3 {
    Vec3 { x: ((i / GROUND_SIZE as int) * UNIT) as i64, y: 0, z: ((i % GROUND_SIZE as int) * UNIT) as i64 }
}

/// The translation of a cube placed in cell `c`: its corner, raised by half
/// a unit.
pub open spec fn placed_block(c: Cell) -> Vec3 {
    Vec3 { x: (c.x * UNIT) as i64, y: (c.y * UNIT + UNIT / 2) as i64, z: (c.z * UNIT) as i64 }
}

/// The translation of a cube placed in `c` fits in `i64`.
pub open spec fn placement_fits(c: Cell) -> bool {
    fits(c.x * UNIT) && fits(c.y * UNIT) && fits(c.y * UNIT + UNIT / 2) && fits(c.z * UNIT)
}

/// The cube with translation `b` lies in cell `c`.
pub open spec fn in_cell(b: Vec3, c: Cell) -> bool {
    cell_of_point(b) == c
}

/// `k` is the first index of `s` whose cube lies in `c`.
pub open spec fn is_first_in_cell(s: Seq<Vec3>, c: Cell, k: int) -> bool {
    &&& 0 <= k < s.len()
    &&& in_cell(s[k], c)
    &&& forall|j: int| 0 <= j < k ==> !in_cell(#[trigger] s[j], c)
}

impl View for VoxelWorld {
    type V = Seq<Vec3>;

    closed spec fn view(&self) -> Seq<Vec3> {
        self.blocks@
    }
}

impl VoxelWorld {
    /// A world with no cell.
    pub fn new() -> (r: VoxelWorld)
        ensures
            r@ == Seq::<Vec3>::empty(),
    {
        VoxelWorld { blocks: Vec::new() }
    }

    /// The flat ground: one cube at `(x, 0, z)` for each `x, z` in
    /// `[0, GROUND_SIZE)`, `x` major.
    pub fn generate_ground() -> (r: VoxelWorld)
        ensures
            r@.len() == GROUND_SIZE * GROUND_SIZE,
            forall|i: int| 0 <= i < r@.len() ==> r@[i] == ground_block(i),
    {
        let mut blocks: Vec<Vec3> = Vec::new();
        let mut x: i64 = 0;
        while x < GROUND_SIZE
            invariant
                0 <= x <= GROUND_SIZE,
                blocks@.len() == x * GROUND_SIZE,
                forall|i: int| 0 <= i < blocks@.len() ==> blocks@[i] == ground_block(i),
            decreases GROUND_SIZE - x,
        {
            let mut z: i64 = 0;
            while z < GROUND_SIZE
                invariant
                    0 <= x < GROUND_SIZE,
                    0 <= z <= GROUND_SIZE,
                    blocks@.len() == x * GROUND_SIZE + z,
                    forall|i: int| 0 <= i < blocks@.len() ==> blocks@[i] == ground_block(i),
                decreases GROUND_SIZE - z,
            {
                proof {
                    let i = x * GROUND_SIZE + z;
                    vstd::arithmetic::div_mod::lemma_fundamental_div_mod_converse(
                        i,
                        GROUND_SIZE as int,
                        x as int,
                        z as int,
                    );
                }
                blocks.push(Vec3 { x: x * UNIT, y: 0, z: z * UNIT });
                z = z + 1;
            }
            x = x + 1;
        }
        VoxelWorld { blocks }
    }

    /// The number of cells.
    pub fn len(&self) -> (r: usize)
        ensures
            r == self@.len(),
    {
        self.blocks.len()
    }

    /// The translation of the `i`-th cube.
    pub fn block(&self, i: usize) -> (r: Vec3)
        requires
            i < self@.len(),
        ensures
            r == self@[i as int],
    {
        self.blocks[i]
    }

    /// Whether some cube lies in cell `c`.
    pub fn occupied(&self, c: Cell) -> (r: bool)
        ensures
            r == exists|i: int| 0 <= i < self@.len() && in_cell(#[trigger] self@[i], c),
    {
        let mut i: usize = 0;
        while i < self.blocks.len()
            invariant
                i <= self@.len(),
                forall|j: int| 0 <= j < i ==> !in_cell(#[trigger] self@[j], c),
            decreases self@.len() - i,
        {
            if floor_point(self.blocks[i]) == c {
                return true;
            }
            i = i + 1;
        }
        false
    }

    /// Spawns a cube in cell `c`, raised by half a unit. There is no
    /// occupancy check: placing twice in one cell gives two cubes there.
    pub fn handle_place_block(&mut self, c: Cell)
        requires
            placement_fits(c),
        ensures
            final(self)@ == old(self)@.push(placed_block(c)),
    {
        self.blocks.push(Vec3 { x: c.x * UNIT, y: c.y * UNIT + UNIT / 2, z: c.z * UNIT });
    }

    /// Destroys the first cube (in spawn order) that lies in cell `c`, if
    /// any; returns whether one was destroyed.
    pub fn handle_despawn_block(&mut self, c: Cell) -> (removed: bool)
        ensures
            removed == exists|i: int| 0 <= i < old(self)@.len() && in_cell(#[trigger] old(self)@[i], c),
            removed ==> exists|k: int| is_first_in_cell(old(self)@, c, k) && final(self)@ == old(self)@.remove(k),
            !removed ==> final(self)@ == old(self)@,
    {
        let ghost start = self@;
        let mut i: usize = 0;
        while i < self.blocks.len()
            invariant
                self@ == start,
                start == old(self)@,
                i <= self@.len(),
                forall|j: int| 0 <= j < i ==> !in_cell(#[trigger] self@[j], c),
            decreases self@.len() - i,
        {
            if floor_point(self.blocks[i]) == c {
                assert(in_cell(start[i as int], c));
                self.blocks.remove(i);
                assert(is_first_in_cell(start, c, i as int));

                return true;
            }
            i = i + 1;
        }
        false
    }

    /// Hands an intent of Block Targeting to the world.
    pub fn apply_intent(&mut self, intent: Intent) -> (changed: bool)
        requires
            intent matches Intent::PlaceAt(c) ==> placement_fits(c),
        ensures
            intent matches Intent::Nothing ==> final(self)@ == old(self)@ && !changed,
            intent matches Intent::PlaceAt(c) ==> final(self)@ == old(self)@.push(placed_block(c)) && changed,
            intent matches Intent::RemoveAt(c) ==> {
                &&& changed == exists|i: int| 0 <= i < old(self)@.len() && in_cell(#[trigger] old(self)@[i], c)
                &&& changed ==> exists|k: int| is_first_in_cell(old(self)@, c, k) && final(self)@ == old(self)@.remove(k)
                &&& !changed ==> final(self)@ == old(self)@
            },
    {
        match intent {
            Intent::Nothing => false,
            Intent::PlaceAt(c) => {
                self.handle_place_block(c);
                true
            },
            Intent::RemoveAt(c) => self.handle_despawn_block(c),
        }
    }
}

/// A cube placed in cell `c` lies in `c`.
pub proof fn lemma_placed_in_cell(c: Cell)
    requires
        placement_fits(c),
    ensures
        in_cell(placed_block(c), c),
{
    let u = UNIT as int;
    vstd::arithmetic::div_mod::lemma_fundamental_div_mod_converse(c.x * u, u, c.x as int, 0);
    vstd::arithmetic::div_mod::lemma_fundamental_div_mod_converse(c.y * u + u / 2, u, c.y as int, u / 2);
    vstd::arithmetic::div_mod::lemma_fundamental_div_mod_converse(c.z * u, u, c.z as int, 0);
}

/// Placing twice in one cell yields two cubes in that cell, one after the
/// other: placement is not deduplicated.
pub proof fn lemma_place_twice(w: Seq<Vec3>, c: Cell)
    requires
        placement_fits(c),
    ensures
        w.push(placed_block(c)).push(placed_block(c)).len() == w.len() + 2,
        w.push(placed_block(c)).push(placed_block(c))[w.len() as int] == placed_block(c),
        w.push(placed_block(c)).push(placed_block(c))[w.len() + 1int] == placed_block(c),
        in_cell(placed_block(c), c),
{
    lemma_placed_in_cell(c);
}

/// The ground has one cube for each `(x, 0, z)` with `x, z` in
/// `[0, GROUND_SIZE)`, and no two ground cubes share a cell.
pub proof fn lemma_ground_cells(x: int, z: int, i: int, j: int)
    requires
        0 <= x < GROUND_SIZE,
        0 <= z < GROUND_SIZE,
        0 <= i < GROUND_SIZE * GROUND_SIZE,
        0 <= j < GROUND_SIZE * GROUND_SIZE,
        i != j,
    ensures
        ground_block(x * GROUND_SIZE + z) == (Vec3 { x: (x * UNIT) as i64, y: 0, z: (z * UNIT) as i64 }),
        ground_block(i) != ground_block(j),
{
    let g = GROUND_SIZE as int;
    vstd::arithmetic::div_mod::lemma_fundamental_div_mod_converse(x * g + z, g, x, z);
    vstd::arithmetic::div_mod::lemma_fundamental_div_mod(i, g);
    vstd::arithmetic::div_mod::lemma_fundamental_div_mod(j, g);
}

} // verus!
