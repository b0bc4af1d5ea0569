//! Terrain heights and the occupancy oracle.
//!
//! A raw noise sample (already scaled to an integer by the host) is turned
//! into a terrain height by adding the base elevation and a tiered height
//! band bonus. A [`HeightField`] stores the final height of every column of
//! one chunk together with a one-column border, so that a voxel's six
//! neighbours can be queried without any other chunk existing; occupancy is
//! `height > y`, making the terrain a simple heightfield.

use vstd::prelude::*;

use crate::TERRAIN_HEIGHT;

verus! {

/// Bonus elevation for a raw sample: the first height band whose
/// threshold exceeds the sample decides, and the last band is the
/// fallback. The bands are (20, 10), (25, 15), (30, 20).
pub open spec fn spec_height_bonus(raw: u32) -> u32 {
    if raw < 20 {
        10u32
    } else if raw < 25 {
        15u32
    } else {
        20u32
    }
}

/// Terrain height for a raw sample: base elevation plus the sample plus
/// its height band bonus.
pub open spec fn spec_terrain_height(raw: u32) -> int {
    TERRAIN_HEIGHT + raw + spec_height_bonus(raw)
}

/// Turns a raw, already scaled noise sample into the final terrain height
/// of a column.
pub fn terrain_height_from_raw(raw: u32) -> (height: u32)
    requires
        raw + 60 <= u32::MAX,
    ensures
        height == spec_terrain_height(raw),
{
    let bonus: u32 = if raw < 20 {
        10
    } else if raw < 25 {
        15
    } else {
        20
    };
    TERRAIN_HEIGHT + raw + bonus
}

/// Largest magnitude allowed for a chunk origin coordinate; origins are
/// kept inside the range that the registry key encoding covers.
pub const ORIGIN_BOUND: i64 = 0x8000_0000;

/// Largest chunk side the generator accepts.
pub const SIDE_BOUND: usize = 4096;

/// The terrain heights of every column of one chunk, together with a
/// one-column border on all four sides. Row `x`, column `z`: the height of
/// world column `(origin_x - 1 + x, origin_z - 1 + z)` is stored at index
/// `x * (side + 2) + z`.
pub struct HeightField {
    /// Smallest x coordinate of the chunk itself (the border starts one
    /// column before it).
    pub origin_x: i64,
    /// Smallest z coordinate of the chunk itself.
    pub origin_z: i64,
    /// Horizontal extent of the chunk, in voxels.
    pub side: usize,
    /// Column heights, row-major, `(side + 2) * (side + 2)` entries.
    pub heights: Vec<u32>,
}

impl HeightField {
    /// The stored grid covers the chunk and its border and the origin is
    /// small enough that no coordinate arithmetic can overflow.
    pub open spec fn wf(&self) -> bool {
        &&& 1 <= self.side <= SIDE_BOUND
        &&& -ORIGIN_BOUND <= self.origin_x <= ORIGIN_BOUND
        &&& -ORIGIN_BOUND <= self.origin_z <= ORIGIN_BOUND
        &&& self.heights@.len() == (self.side + 2) * (self.side + 2)
    }

    /// Whether column `(x, z)` lies in the stored grid (chunk or border).
    pub open spec fn in_columns(&self, x: int, z: int) -> bool {
        &&& self.origin_x - 1 <= x <= self.origin_x + self.side
        &&& self.origin_z - 1 <= z <= self.origin_z + self.side
    }

    /// Index of column `(x, z)` in the row-major height table.
    pub open spec fn column_index(&self, x: int, z: int) -> int {
        (x - (self.origin_x - 1)) * (self.side + 2) + (z - (self.origin_z - 1))
    }

    /// The stored height of column `(x, z)`.
    pub open spec fn spec_height_at(&self, x: int, z: int) -> u32 {
        self.heights@[self.column_index(x, z)]
    }

    /// The occupancy oracle: a voxel is solid exactly when it lies below
    /// the terrain height of its column.
    pub open spec fn spec_solid(&self, x: int, y: int, z: int) -> bool {
        y < self.spec_height_at(x, z)
    }

    proof fn lemma_column_index_in_range(&self, x: int, z: int)
        requires
            self.wf(),
            self.in_columns(x, z),
        ensures
            0 <= self.column_index(x, z) < self.heights@.len(),
    {
        let w = self.side + 2 as int;
        let r = x - (self.origin_x - 1);
        let c = z - (self.origin_z - 1);
        assert(0 <= r < w);
        assert(0 <= c < w);
        assert(r * w + c < w * w) by (nonlinear_arith)
            requires
                0 <= r < w,
                0 <= c < w,
        ;
        assert(r * w + c >= 0) by (nonlinear_arith)
            requires
                0 <= r,
                0 <= c,
                0 < w,
        ;
    }

    /// Builds a height field from the already sampled column heights.
    pub fn new(origin_x: i64, origin_z: i64, side: usize, heights: Vec<u32>) -> (hf: HeightField)
        requires
            1 <= side <= SIDE_BOUND,
            -ORIGIN_BOUND <= origin_x <= ORIGIN_BOUND,
            -ORIGIN_BOUND <= origin_z <= ORIGIN_BOUND,
            heights@.len() == (side + 2) * (side + 2),
        ensures
            hf == (HeightField { origin_x, origin_z, side, heights }),
            hf.wf(),
    {
        HeightField { origin_x, origin_z, side, heights }
    }

    /// The stored terrain height of column `(x, z)`.
    pub fn height_at(&self, x: i64, z: i64) -> (height: u32)
        requires
            self.wf(),
            self.in_columns(x as int, z as int),
        ensures
            height == self.spec_height_at(x as int, z as int),
    {
        proof {
            self.lemma_column_index_in_range(x as int, z as int);
        }
        let row: usize = (x - (self.origin_x - 1)) as usize;
        let col: usize = (z - (self.origin_z - 1)) as usize;
        assert(row * (self.side + 2) + col == self.column_index(x as int, z as int)
            && row * (self.side + 2) + col <= (SIDE_BOUND + 1) * (SIDE_BOUND + 2) + SIDE_BOUND
                + 1) by (nonlinear_arith)
            requires
                row == x - (self.origin_x - 1),
                col == z - (self.origin_z - 1),
                self.column_index(x as int, z as int) == row * (self.side + 2) + col,
                0 <= row <= SIDE_BOUND + 1,
                0 <= col <= SIDE_BOUND + 1,
                2 <= self.side + 2 <= SIDE_BOUND + 2,
        ;
        let idx: usize = row * (self.side + 2) + col;
        self.heights[idx]
    }

    /// The occupancy oracle: whether the voxel at `(x, y, z)` is solid.
    /// Deterministic by construction: the result is a function of the
    /// stored heights alone, so repeated calls agree, as do calls made on
    /// behalf of different chunks whose fields store the same heights.
    pub fn is_block_at(&self, x: i64, y: i64, z: i64) -> (solid: bool)
        requires
            self.wf(),
            self.in_columns(x as int, z as int),
        ensures
            solid == self.spec_solid(x as int, y as int, z as int),
    {
        let height: u32 = self.height_at(x, z);
        y < height as i64
    }
}

} // verus!
