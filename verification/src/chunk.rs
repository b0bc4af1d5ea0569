//! Chunk generation: from a height field to voxels and mesh buffers.
//!
//! A chunk's voxel set is exactly the solid voxels whose horizontal
//! coordinates fall in `[origin, origin + side)` on both axes and whose
//! vertical coordinate is in `[0, max_height)`. Voxels are enumerated in a
//! fixed order (x, then y, then z), their face visibility is assigned
//! against the occupancy oracle, and the visible faces are compiled into
//! mesh buffers. A chunk with no solid voxels yields an empty mesh, which
//! is a valid result, not an error.

use vstd::prelude::*;

use crate::heightfield::HeightField;
use crate::mesh::ChunkMesh;
use crate::mesh::build_mesh;
use crate::voxel::Block;
use crate::voxel::BlockPos;
use crate::voxel::FaceVisibility;
use crate::voxel::all_faces_visible;
use crate::voxel::assign_visibility;
use crate::voxel::spec_visibility;

verus! {

/// A chunk origin: the smallest x and z coordinates of its voxels. The
/// vertical origin of every chunk is zero.
#[derive(Clone, Copy, Debug, PartialEq, Eq, Structural)]
pub struct ChunkPos {
    pub x: i64,
    pub z: i64,
}

/// A generated chunk: its origin, the solid voxels of its volume in
/// enumeration order, and the compiled mesh buffers.
pub struct Chunk {
    pub position: ChunkPos,
    pub blocks: Vec<Block>,
    pub mesh: ChunkMesh,
}

/// Whether `(x, y, z)` lies in the generation volume covered by `hf`,
/// scanning `max_height` voxels up from y = 0.
pub open spec fn in_chunk_volume(hf: HeightField, max_height: int, x: int, y: int, z: int) -> bool {
    &&& hf.origin_x <= x < hf.origin_x + hf.side
    &&& 0 <= y < max_height
    &&& hf.origin_z <= z < hf.origin_z + hf.side
}

/// The generator's enumeration order: x first, then y, then z.
pub open spec fn pos_before(a: BlockPos, b: BlockPos) -> bool {
    ||| a.x < b.x
    ||| (a.x == b.x && a.y < b.y)
    ||| (a.x == b.x && a.y == b.y && a.z < b.z)
}

/// Whether some block of `blocks` sits at `(x, y, z)`.
pub open spec fn block_present(blocks: Seq<Block>, x: int, y: int, z: int) -> bool {
    exists|i: int|
        0 <= i < blocks.len() && {
            let p = (#[trigger] blocks[i]).position;
            p.x == x && p.y == y && p.z == z
        }
}

/// A raw generated block: a solid voxel of the volume, not yet culled.
pub open spec fn raw_block_wf(hf: HeightField, max_height: int, b: Block) -> bool {
    &&& b.position.wf()
    &&& in_chunk_volume(hf, max_height, b.position.x as int, b.position.y as int, b.position.z as int)
    &&& hf.spec_solid(b.position.x as int, b.position.y as int, b.position.z as int)
    &&& b.visibility == all_faces_visible()
}

/// The defining properties of a chunk's block sequence: every block is a
/// solid voxel of the volume carrying the visibility the oracle assigns,
/// every solid voxel of the volume appears, and the sequence is strictly
/// ordered by the enumeration order (so it holds no duplicates).
pub open spec fn chunk_blocks_wf(hf: HeightField, max_height: int, blocks: Seq<Block>) -> bool {
    &&& forall|i: int|
        0 <= i < blocks.len() ==> {
            let b = #[trigger] blocks[i];
            &&& b.position.wf()
            &&& in_chunk_volume(hf, max_height, b.position.x as int, b.position.y as int, b.position.z as int)
            &&& hf.spec_solid(b.position.x as int, b.position.y as int, b.position.z as int)
            &&& b.visibility == spec_visibility(hf, b.position)
        }
    &&& forall|x: int, y: int, z: int|
        in_chunk_volume(hf, max_height, x, y, z) && #[trigger] hf.spec_solid(x, y, z)
            ==> block_present(blocks, x, y, z)
    &&& forall|i: int, j: int|
        0 <= i < j < blocks.len() ==> pos_before(
            #[trigger] blocks[i].position,
            #[trigger] blocks[j].position,
        )
}

/// Enumerates the solid voxels of the volume in order (x, then y, then z),
/// each with every face visible; visibility is assigned afterwards.
#[verifier::rlimit(100)]
fn collect_blocks(hf: &HeightField, max_height: usize) -> (blocks: Vec<Block>)
    requires
        hf.wf(),
        1 <= max_height,
        max_height * (hf.side * hf.side) <= u32::MAX,
    ensures
        blocks@.len() <= hf.side * (max_height * hf.side),
        forall|i: int|
            0 <= i < blocks@.len() ==> raw_block_wf(*hf, max_height as int, #[trigger] blocks@[i]),
        forall|x: int, y: int, z: int|
            in_chunk_volume(*hf, max_height as int, x, y, z) && #[trigger] hf.spec_solid(x, y, z)
                ==> block_present(blocks@, x, y, z),
        forall|i: int, j: int|
            0 <= i < j < blocks@.len() ==> pos_before(
                #[trigger] blocks@[i].position,
                #[trigger] blocks@[j].position,
            ),
{
    let side = hf.side;
    let mh = max_height;
    let ghost mhi = max_height as int;
    proof {
        assert(mh <= u32::MAX && side * (mh * side) <= u32::MAX) by (nonlinear_arith)
            requires
                mh * (side * side) <= u32::MAX,
                1 <= side,
                1 <= mh,
        ;
    }
    let mut blocks: Vec<Block> = Vec::new();

    for xi in 0..side
        invariant
            hf.wf(),
            side == hf.side,
            mh == max_height,
            mhi == mh,
            1 <= mh <= u32::MAX,
            blocks@.len() <= xi * (mh * side),
            forall|i: int| 0 <= i < blocks@.len() ==> raw_block_wf(*hf, mhi, #[trigger] blocks@[i]),
            forall|i: int|
                0 <= i < blocks@.len() ==> (#[trigger] blocks@[i]).position.x < hf.origin_x + xi,
            forall|x: int, y: int, z: int|
                in_chunk_volume(*hf, mhi, x, y, z) && #[trigger] hf.spec_solid(x, y, z) && x
                    < hf.origin_x + xi ==> block_present(blocks@, x, y, z),
            forall|i: int, j: int|
                0 <= i < j < blocks@.len() ==> pos_before(
                    #[trigger] blocks@[i].position,
                    #[trigger] blocks@[j].position,
                ),
    {
        let cx: i64 = hf.origin_x + xi as i64;
        for yi in 0..mh
            invariant
                hf.wf(),
                side == hf.side,
                mh == max_height,
                mhi == mh,
                1 <= mh <= u32::MAX,
                xi < side,
                cx == hf.origin_x + xi,
                blocks@.len() <= xi * (mh * side) + yi * side,
                forall|i: int|
                    0 <= i < blocks@.len() ==> raw_block_wf(*hf, mhi, #[trigger] blocks@[i]),
                forall|i: int|
                    0 <= i < blocks@.len() ==> {
                        let p = (#[trigger] blocks@[i]).position;
                        p.x < cx || (p.x == cx && p.y < yi)
                    },
                forall|x: int, y: int, z: int|
                    in_chunk_volume(*hf, mhi, x, y, z) && #[trigger] hf.spec_solid(x, y, z) && (x
                        < cx || (x == cx && y < yi)) ==> block_present(blocks@, x, y, z),
                forall|i: int, j: int|
                    0 <= i < j < blocks@.len() ==> pos_before(
                        #[trigger] blocks@[i].position,
                        #[trigger] blocks@[j].position,
                    ),
        {
            let cy: i64 = yi as i64;
            for zi in 0..side
                invariant
                    hf.wf(),
                    side == hf.side,
                    mh == max_height,
                    mhi == mh,
                    1 <= mh <= u32::MAX,
                    xi < side,
                    yi < mh,
                    cx == hf.origin_x + xi,
                    cy == yi,
                    blocks@.len() <= xi * (mh * side) + yi * side + zi,
                    forall|i: int|
                        0 <= i < blocks@.len() ==> raw_block_wf(*hf, mhi, #[trigger] blocks@[i]),
                    forall|i: int|
                        0 <= i < blocks@.len() ==> {
                            let p = (#[trigger] blocks@[i]).position;
                            p.x < cx || (p.x == cx && (p.y < cy || (p.y == cy && p.z < hf.origin_z
                                + zi)))
                        },
                    forall|x: int, y: int, z: int|
                        in_chunk_volume(*hf, mhi, x, y, z) && #[trigger] hf.spec_solid(x, y, z) && (
                        x < cx || (x == cx && (y < cy || (y == cy && z < hf.origin_z + zi))))
                            ==> block_present(blocks@, x, y, z),
                    forall|i: int, j: int|
                        0 <= i < j < blocks@.len() ==> pos_before(
                            #[trigger] blocks@[i].position,
                            #[trigger] blocks@[j].position,
                        ),
            {
                let cz: i64 = hf.origin_z + zi as i64;
                let ghost before = blocks@;
                let solid = hf.is_block_at(cx, cy, cz);
                if solid {
                    let block = Block {
                        position: BlockPos { x: cx, y: cy, z: cz },
                        visibility: FaceVisibility::default(),
                    };
                    blocks.push(block);
                }
                proof {
                    let cxi = cx as int;
                    let cyi = cy as int;
                    let czi = cz as int;
                    if solid {
                        assert(blocks@[before.len() as int].position == (BlockPos {
                            x: cx,
                            y: cy,
                            z: cz,
                        }));
                        assert(block_present(blocks@, cxi, cyi, czi));
                    }
                    assert forall|x: int, y: int, z: int|
                        in_chunk_volume(*hf, mhi, x, y, z) && #[trigger] hf.spec_solid(x, y, z) && (
                        x < cxi || (x == cxi && (y < cyi || (y == cyi && z < hf.origin_z + zi
                            + 1)))) implies block_present(blocks@, x, y, z) by {
                        if x == cxi && y == cyi && z == czi {
                            assert(solid);
                        } else {
                            assert(block_present(before, x, y, z));
                            let w = choose|w: int|
                                0 <= w < before.len() && {
                                    let p = (#[trigger] before[w]).position;
                                    p.x == x && p.y == y && p.z == z
                                };
                            assert(blocks@[w] == before[w]);
                            assert(block_present(blocks@, x, y, z));
                        }
                    }
                    assert forall|i: int, j: int| 0 <= i < j < blocks@.len() implies pos_before(
                        #[trigger] blocks@[i].position,
                        #[trigger] blocks@[j].position,
                    ) by {
                        if j < before.len() {
                            assert(blocks@[i] == before[i] && blocks@[j] == before[j]);
                        } else {
                            assert(blocks@[i] == before[i]);
                        }
                    }
                }
            }
            proof {
                assert(xi * (mh * side) + yi * side + side == xi * (mh * side) + (yi + 1) * side)
                    by (nonlinear_arith);
            }
        }
        proof {
            assert(xi * (mh * side) + mh * side == (xi + 1) * (mh * side)) by (nonlinear_arith);
            assert forall|x: int, y: int, z: int|
                in_chunk_volume(*hf, mhi, x, y, z) && #[trigger] hf.spec_solid(x, y, z) && x
                    < hf.origin_x + xi + 1 implies block_present(blocks@, x, y, z) by {
                if x == cx as int {
                    assert(y < mh);
                }
            }
        }
    }
    blocks
}

/// Generates the chunk whose volume `hf` covers: enumerates its solid
/// voxels, assigns each voxel's six-face visibility against the occupancy
/// oracle, and compiles the visible faces into mesh buffers.
///
/// Together with the contract of `is_block_at` this also states
/// determinism: a voxel appears among the blocks exactly when the oracle,
/// queried directly at its coordinates, calls it solid.
pub fn prepare_chunk(hf: &HeightField, max_height: usize) -> (chunk: Chunk)
    requires
        hf.wf(),
        1 <= max_height,
        max_height * (hf.side * hf.side) <= u32::MAX / 24,
    ensures
        chunk.position == (ChunkPos { x: hf.origin_x, z: hf.origin_z }),
        chunk_blocks_wf(*hf, max_height as int, chunk.blocks@),
        chunk.blocks@.len() <= hf.side * (max_height * hf.side),
        chunk.mesh.matches(chunk.blocks@),
        chunk.mesh.positions@.len() == 4 * crate::mesh::total_faces(chunk.blocks@),
        chunk.mesh.uvs@.len() == chunk.mesh.positions@.len(),
        chunk.mesh.normals@.len() == chunk.mesh.positions@.len(),
        chunk.mesh.indices@.len() == 6 * crate::mesh::total_faces(chunk.blocks@),
        forall|j: int|
            0 <= j < chunk.mesh.indices@.len() ==> #[trigger] chunk.mesh.indices@[j]
                < chunk.mesh.positions@.len(),
{
    proof {
        assert(max_height * (hf.side * hf.side) <= u32::MAX);
        assert(max_height <= u32::MAX) by (nonlinear_arith)
            requires
                max_height * (hf.side * hf.side) <= u32::MAX,
                1 <= hf.side,
                1 <= max_height,
        ;
    }
    let raw = collect_blocks(hf, max_height);
    let n = raw.len();
    let mut blocks: Vec<Block> = Vec::new();

    for i in 0..n
        invariant
            hf.wf(),
            n == raw@.len(),
            blocks@.len() == i,
            1 <= max_height <= u32::MAX,
            forall|k: int|
                0 <= k < raw@.len() ==> raw_block_wf(*hf, max_height as int, #[trigger] raw@[k]),
            forall|k: int| 0 <= k < i ==> (#[trigger] blocks@[k]).position == raw@[k].position,
            forall|k: int|
                0 <= k < i ==> (#[trigger] blocks@[k]).visibility == spec_visibility(
                    *hf,
                    raw@[k].position,
                ),
    {
        let mut b = raw[i];
        assign_visibility(&mut b, hf);
        proof {
            let s = spec_visibility(*hf, raw@[i as int].position);
            assert(b.visibility == (FaceVisibility {
                top: s.top,
                bottom: s.bottom,
                right: s.right,
                left: s.left,
                front: s.front,
                back: s.back,
            }));
            assert(b.visibility == s);
        }
        blocks.push(b);
    }

    proof {
        assert forall|x: int, y: int, z: int|
            in_chunk_volume(*hf, max_height as int, x, y, z) && #[trigger] hf.spec_solid(
                x,
                y,
                z,
            ) implies block_present(blocks@, x, y, z) by {
            assert(block_present(raw@, x, y, z));
            let w = choose|w: int|
                0 <= w < raw@.len() && {
                    let p = (#[trigger] raw@[w]).position;
                    p.x == x && p.y == y && p.z == z
                };
            assert(blocks@[w].position == raw@[w].position);
        }
        assert(24 * blocks@.len() <= u32::MAX) by (nonlinear_arith)
            requires
                blocks@.len() <= hf.side * (max_height * hf.side),
                max_height * (hf.side * hf.side) <= u32::MAX / 24,
                hf.side >= 0,
                max_height >= 0,
        ;
    }

    let mesh = build_mesh(&blocks);
    Chunk { position: ChunkPos { x: hf.origin_x, z: hf.origin_z }, blocks, mesh }
}

/// Determinism: the occupancy oracle is a pure function of the stored
/// column heights, so a voxel of the volume stands among a well-formed
/// chunk's blocks exactly when the oracle, queried directly at its
/// coordinates, calls it solid -- whichever chunk's generation asked.
pub proof fn lemma_occupancy_deterministic(
    hf: HeightField,
    max_height: int,
    blocks: Seq<Block>,
    x: int,
    y: int,
    z: int,
)
    requires
        chunk_blocks_wf(hf, max_height, blocks),
        in_chunk_volume(hf, max_height, x, y, z),
    ensures
        hf.spec_solid(x, y, z) <==> block_present(blocks, x, y, z),
{
    if block_present(blocks, x, y, z) {
        let i = choose|i: int|
            0 <= i < blocks.len() && {
                let p = (#[trigger] blocks[i]).position;
                p.x == x && p.y == y && p.z == z
            };
        assert(hf.spec_solid(
            blocks[i].position.x as int,
            blocks[i].position.y as int,
            blocks[i].position.z as int,
        ));
    }
}

/// Boundary agreement between horizontally adjacent chunks: when two
/// height fields whose chunks share a boundary store the same heights for
/// the two columns either side of it, a boundary voxel's face toward the
/// neighbouring chunk is visible exactly when the corresponding voxel of
/// that chunk (queried through its own field) is empty, on both sides.
pub proof fn lemma_boundary_agreement(a: HeightField, b: HeightField, p: BlockPos)
    requires
        a.wf(),
        b.wf(),
        b.side == a.side,
        b.origin_x == a.origin_x + a.side,
        b.origin_z == a.origin_z,
        p.x == a.origin_x + a.side - 1,
        a.origin_z <= p.z < a.origin_z + a.side,
        a.spec_height_at(p.x + 1, p.z as int) == b.spec_height_at(p.x + 1, p.z as int),
        a.spec_height_at(p.x as int, p.z as int) == b.spec_height_at(p.x as int, p.z as int),
    ensures
        spec_visibility(a, p).right <==> !b.spec_solid(p.x + 1, p.y as int, p.z as int),
        spec_visibility(b, BlockPos { x: (p.x + 1) as i64, y: p.y, z: p.z }).left <==> !a.spec_solid(
            p.x as int,
            p.y as int,
            p.z as int,
        ),
{
}

} // verus!
