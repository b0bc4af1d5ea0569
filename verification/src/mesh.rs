//! Compiling visible block faces into mesh buffers.
//!
//! Every visible face of a block contributes exactly four vertices, four
//! texture coordinates, four copies of the face normal and six indices (two
//! triangles). Hidden faces contribute nothing, so index generation tracks
//! a running offset: the first index of a face equals four times the number
//! of faces emitted before it, across the whole chunk.
//!
//! Vertex coordinates are in half-units (the world coordinate doubled), so
//! the corners of the unit cube centred on a block are exact integers.
//! Texture coordinates are in hundredths of the atlas extent, mapping each
//! face direction to a fixed quadrant of a shared 3x4 atlas grid.

use vstd::prelude::*;

use crate::voxel::Block;
use crate::voxel::BlockPos;
use crate::voxel::FaceVisibility;
use crate::voxel::face_count;
use crate::voxel::visible_before;

verus! {

/// A mesh vertex, in half-units: world coordinate `c` is stored as `2 * c`.
#[derive(Clone, Copy, Debug, PartialEq, Eq, Structural)]
pub struct Vertex {
    pub x: i64,
    pub y: i64,
    pub z: i64,
}

/// A texture coordinate, in hundredths: `u = 33` is one third of the atlas.
#[derive(Clone, Copy, Debug, PartialEq, Eq, Structural)]
pub struct Uv {
    pub u: u32,
    pub v: u32,
}

/// A face normal; each component is -1, 0 or 1.
#[derive(Clone, Copy, Debug, PartialEq, Eq, Structural)]
pub struct Normal {
    pub x: i32,
    pub y: i32,
    pub z: i32,
}

/// The corner of the unit cube centred on `p` offset by one half-unit in
/// each axis direction (`dx`, `dy`, `dz` are each -1 or 1).
pub open spec fn corner(p: BlockPos, dx: int, dy: int, dz: int) -> Vertex {
    Vertex { x: (2 * p.x + dx) as i64, y: (2 * p.y + dy) as i64, z: (2 * p.z + dz) as i64 }
}

/// The four corner vertices of face `f` of a block at `p`, in the fixed
/// winding order the index patterns expect. Faces are numbered in buffer
/// order: 0 top, 1 bottom, 2 right, 3 left, 4 back, 5 front.
pub open spec fn face_quad(p: BlockPos, f: int) -> Seq<Vertex> {
    if f == 0 {
        seq![
            corner(p, -1, 1, -1),
            corner(p, 1, 1, -1),
            corner(p, 1, 1, 1),
            corner(p, -1, 1, 1),
        ]
    } else if f == 1 {
        seq![
            corner(p, -1, -1, -1),
            corner(p, 1, -1, -1),
            corner(p, 1, -1, 1),
            corner(p, -1, -1, 1),
        ]
    } else if f == 2 {
        seq![
            corner(p, 1, -1, -1),
            corner(p, 1, -1, 1),
            corner(p, 1, 1, 1),
            corner(p, 1, 1, -1),
        ]
    } else if f == 3 {
        seq![
            corner(p, -1, -1, -1),
            corner(p, -1, -1, 1),
            corner(p, -1, 1, 1),
            corner(p, -1, 1, -1),
        ]
    } else if f == 4 {
        seq![
            corner(p, -1, -1, 1),
            corner(p, -1, 1, 1),
            corner(p, 1, 1, 1),
            corner(p, 1, -1, 1),
        ]
    } else {
        seq![
            corner(p, -1, -1, -1),
            corner(p, -1, 1, -1),
            corner(p, 1, 1, -1),
            corner(p, 1, -1, -1),
        ]
    }
}

/// The vertex buffer contribution of one block: the corner quads of its
/// visible faces, in buffer order.
pub open spec fn block_vertices(b: Block) -> Seq<Vertex> {
    (if b.visibility.top {
        face_quad(b.position, 0)
    } else {
        Seq::empty()
    }) + (if b.visibility.bottom {
        face_quad(b.position, 1)
    } else {
        Seq::empty()
    }) + (if b.visibility.right {
        face_quad(b.position, 2)
    } else {
        Seq::empty()
    }) + (if b.visibility.left {
        face_quad(b.position, 3)
    } else {
        Seq::empty()
    }) + (if b.visibility.back {
        face_quad(b.position, 4)
    } else {
        Seq::empty()
    }) + (if b.visibility.front {
        face_quad(b.position, 5)
    } else {
        Seq::empty()
    })
}

/// The fixed texture quadrant of face `f`, in hundredths.
pub open spec fn face_uvs(f: int) -> Seq<Uv> {
    if f == 0 {
        seq![Uv { u: 66, v: 25 }, Uv { u: 33, v: 25 }, Uv { u: 33, v: 50 }, Uv { u: 66, v: 50 }]
    } else if f == 1 {
        seq![Uv { u: 66, v: 75 }, Uv { u: 33, v: 75 }, Uv { u: 33, v: 100 }, Uv { u: 66, v: 100 }]
    } else if f == 2 {
        seq![Uv { u: 66, v: 50 }, Uv { u: 33, v: 50 }, Uv { u: 33, v: 75 }, Uv { u: 66, v: 75 }]
    } else if f == 3 {
        seq![Uv { u: 66, v: 0 }, Uv { u: 33, v: 0 }, Uv { u: 33, v: 25 }, Uv { u: 66, v: 25 }]
    } else if f == 4 {
        seq![Uv { u: 33, v: 25 }, Uv { u: 0, v: 25 }, Uv { u: 0, v: 50 }, Uv { u: 33, v: 50 }]
    } else {
        seq![Uv { u: 100, v: 25 }, Uv { u: 66, v: 25 }, Uv { u: 66, v: 50 }, Uv { u: 100, v: 50 }]
    }
}

/// The UV buffer contribution of one block.
pub open spec fn block_uvs(b: Block) -> Seq<Uv> {
    (if b.visibility.top {
        face_uvs(0)
    } else {
        Seq::empty()
    }) + (if b.visibility.bottom {
        face_uvs(1)
    } else {
        Seq::empty()
    }) + (if b.visibility.right {
        face_uvs(2)
    } else {
        Seq::empty()
    }) + (if b.visibility.left {
        face_uvs(3)
    } else {
        Seq::empty()
    }) + (if b.visibility.back {
        face_uvs(4)
    } else {
        Seq::empty()
    }) + (if b.visibility.front {
        face_uvs(5)
    } else {
        Seq::empty()
    })
}

/// The outward unit normal of face `f`.
pub open spec fn face_normal(f: int) -> Normal {
    if f == 0 {
        Normal { x: 0, y: 1, z: 0 }
    } else if f == 1 {
        Normal { x: 0, y: -1i32, z: 0 }
    } else if f == 2 {
        Normal { x: 1, y: 0, z: 0 }
    } else if f == 3 {
        Normal { x: -1i32, y: 0, z: 0 }
    } else if f == 4 {
        Normal { x: 0, y: 0, z: 1 }
    } else {
        Normal { x: 0, y: 0, z: -1i32 }
    }
}

/// The face normal replicated for the four vertices of the face.
pub open spec fn face_normals(f: int) -> Seq<Normal> {
    seq![face_normal(f), face_normal(f), face_normal(f), face_normal(f)]
}

/// The normal buffer contribution of one block.
pub open spec fn block_normals(b: Block) -> Seq<Normal> {
    (if b.visibility.top {
        face_normals(0)
    } else {
        Seq::empty()
    }) + (if b.visibility.bottom {
        face_normals(1)
    } else {
        Seq::empty()
    }) + (if b.visibility.right {
        face_normals(2)
    } else {
        Seq::empty()
    }) + (if b.visibility.left {
        face_normals(3)
    } else {
        Seq::empty()
    }) + (if b.visibility.back {
        face_normals(4)
    } else {
        Seq::empty()
    }) + (if b.visibility.front {
        face_normals(5)
    } else {
        Seq::empty()
    })
}

/// The two triangles of a face whose first vertex has index `s`, for faces
/// 0, 2 and 4 (top, right, back).
pub open spec fn winding_a(s: int) -> Seq<u32> {
    seq![
        s as u32,
        (s + 3) as u32,
        (s + 1) as u32,
        (s + 1) as u32,
        (s + 3) as u32,
        (s + 2) as u32,
    ]
}

/// The two triangles of a face whose first vertex has index `s`, for faces
/// 1, 3 and 5 (bottom, left, front).
pub open spec fn winding_b(s: int) -> Seq<u32> {
    seq![
        s as u32,
        (s + 1) as u32,
        (s + 3) as u32,
        (s + 1) as u32,
        (s + 2) as u32,
        (s + 3) as u32,
    ]
}

/// The six indices of face `f` when its first vertex has index `s`.
pub open spec fn face_indices(f: int, s: int) -> Seq<u32> {
    if f == 0 || f == 2 || f == 4 {
        winding_a(s)
    } else {
        winding_b(s)
    }
}

/// The index buffer contribution of one block whose first vertex sits at
/// position `base` of the vertex buffer: each visible face refers to the
/// four vertices emitted for it, skipping hidden faces.
pub open spec fn block_indices(b: Block, base: int) -> Seq<u32> {
    let v = b.visibility;
    (if v.top {
        face_indices(0, base + 4 * visible_before(v, 0))
    } else {
        Seq::empty()
    }) + (if v.bottom {
        face_indices(1, base + 4 * visible_before(v, 1))
    } else {
        Seq::empty()
    }) + (if v.right {
        face_indices(2, base + 4 * visible_before(v, 2))
    } else {
        Seq::empty()
    }) + (if v.left {
        face_indices(3, base + 4 * visible_before(v, 3))
    } else {
        Seq::empty()
    }) + (if v.back {
        face_indices(4, base + 4 * visible_before(v, 4))
    } else {
        Seq::empty()
    }) + (if v.front {
        face_indices(5, base + 4 * visible_before(v, 5))
    } else {
        Seq::empty()
    })
}

/// `visible_before` written out step by step over the six faces.
pub proof fn lemma_visible_before_values(v: FaceVisibility)
    ensures
        visible_before(v, 0) == 0,
        visible_before(v, 1) == visible_before(v, 0) + (if v.top {
            1int
        } else {
            0int
        }),
        visible_before(v, 2) == visible_before(v, 1) + (if v.bottom {
            1int
        } else {
            0int
        }),
        visible_before(v, 3) == visible_before(v, 2) + (if v.right {
            1int
        } else {
            0int
        }),
        visible_before(v, 4) == visible_before(v, 3) + (if v.left {
            1int
        } else {
            0int
        }),
        visible_before(v, 5) == visible_before(v, 4) + (if v.back {
            1int
        } else {
            0int
        }),
        face_count(v) == visible_before(v, 5) + (if v.front {
            1int
        } else {
            0int
        }),
{
    reveal_with_fuel(visible_before, 7);
}

/// Emits the four corner vertices of every visible face of `block`.
#[verifier::rlimit(100)]
#[verifier::spinoff_prover]
pub fn create_block_vertices(block: &Block) -> (vertices: Vec<Vertex>)
    requires
        block.position.wf(),
    ensures
        vertices@ == block_vertices(*block),
        vertices@.len() == 4 * face_count(block.visibility),
{
    let p = block.position;
    let v = block.visibility;
    let mut vertices: Vec<Vertex> = Vec::new();
    let ghost t0: Seq<Vertex> = if v.top { face_quad(p, 0) } else { Seq::empty() };
    let ghost t1: Seq<Vertex> = if v.bottom { face_quad(p, 1) } else { Seq::empty() };
    let ghost t2: Seq<Vertex> = if v.right { face_quad(p, 2) } else { Seq::empty() };
    let ghost t3: Seq<Vertex> = if v.left { face_quad(p, 3) } else { Seq::empty() };
    let ghost t4: Seq<Vertex> = if v.back { face_quad(p, 4) } else { Seq::empty() };
    let ghost t5: Seq<Vertex> = if v.front { face_quad(p, 5) } else { Seq::empty() };

    if v.top {
        vertices.push(Vertex { x: 2 * p.x - 1, y: 2 * p.y + 1, z: 2 * p.z - 1 });
        vertices.push(Vertex { x: 2 * p.x + 1, y: 2 * p.y + 1, z: 2 * p.z - 1 });
        vertices.push(Vertex { x: 2 * p.x + 1, y: 2 * p.y + 1, z: 2 * p.z + 1 });
        vertices.push(Vertex { x: 2 * p.x - 1, y: 2 * p.y + 1, z: 2 * p.z + 1 });
    }
    assert(vertices@ =~= t0);
    if v.bottom {
        vertices.push(Vertex { x: 2 * p.x - 1, y: 2 * p.y - 1, z: 2 * p.z - 1 });
        vertices.push(Vertex { x: 2 * p.x + 1, y: 2 * p.y - 1, z: 2 * p.z - 1 });
        vertices.push(Vertex { x: 2 * p.x + 1, y: 2 * p.y - 1, z: 2 * p.z + 1 });
        vertices.push(Vertex { x: 2 * p.x - 1, y: 2 * p.y - 1, z: 2 * p.z + 1 });
    }
    assert(vertices@ =~= t0 + t1);
    if v.right {
        vertices.push(Vertex { x: 2 * p.x + 1, y: 2 * p.y - 1, z: 2 * p.z - 1 });
        vertices.push(Vertex { x: 2 * p.x + 1, y: 2 * p.y - 1, z: 2 * p.z + 1 });
        vertices.push(Vertex { x: 2 * p.x + 1, y: 2 * p.y + 1, z: 2 * p.z + 1 });
        vertices.push(Vertex { x: 2 * p.x + 1, y: 2 * p.y + 1, z: 2 * p.z - 1 });
    }
    assert(vertices@ =~= t0 + t1 + t2);
    if v.left {
        vertices.push(Vertex { x: 2 * p.x - 1, y: 2 * p.y - 1, z: 2 * p.z - 1 });
        vertices.push(Vertex { x: 2 * p.x - 1, y: 2 * p.y - 1, z: 2 * p.z + 1 });
        vertices.push(Vertex { x: 2 * p.x - 1, y: 2 * p.y + 1, z: 2 * p.z + 1 });
        vertices.push(Vertex { x: 2 * p.x - 1, y: 2 * p.y + 1, z: 2 * p.z - 1 });
    }
    assert(vertices@ =~= t0 + t1 + t2 + t3);
    if v.back {
        vertices.push(Vertex { x: 2 * p.x - 1, y: 2 * p.y - 1, z: 2 * p.z + 1 });
        vertices.push(Vertex { x: 2 * p.x - 1, y: 2 * p.y + 1, z: 2 * p.z + 1 });
        vertices.push(Vertex { x: 2 * p.x + 1, y: 2 * p.y + 1, z: 2 * p.z + 1 });
        vertices.push(Vertex { x: 2 * p.x + 1, y: 2 * p.y - 1, z: 2 * p.z + 1 });
    }
    assert(vertices@ =~= t0 + t1 + t2 + t3 + t4);
    if v.front {
        vertices.push(Vertex { x: 2 * p.x - 1, y: 2 * p.y - 1, z: 2 * p.z - 1 });
        vertices.push(Vertex { x: 2 * p.x - 1, y: 2 * p.y + 1, z: 2 * p.z - 1 });
        vertices.push(Vertex { x: 2 * p.x + 1, y: 2 * p.y + 1, z: 2 * p.z - 1 });
        vertices.push(Vertex { x: 2 * p.x + 1, y: 2 * p.y - 1, z: 2 * p.z - 1 });
    }
    assert(vertices@ =~= t0 + t1 + t2 + t3 + t4 + t5);

    proof {
        lemma_visible_before_values(v);
        assert(block_vertices(*block) == t0 + t1 + t2 + t3 + t4 + t5);
    }
    vertices
}

/// Emits the fixed texture quadrant of every visible face of `block`.
#[verifier::rlimit(100)]
#[verifier::spinoff_prover]
pub fn create_block_uvs(block: &Block) -> (uvs: Vec<Uv>)
    ensures
        uvs@ == block_uvs(*block),
        uvs@.len() == 4 * face_count(block.visibility),
{
    let v = block.visibility;
    let mut uvs: Vec<Uv> = Vec::new();
    let ghost t0: Seq<Uv> = if v.top { face_uvs(0) } else { Seq::empty() };
    let ghost t1: Seq<Uv> = if v.bottom { face_uvs(1) } else { Seq::empty() };
    let ghost t2: Seq<Uv> = if v.right { face_uvs(2) } else { Seq::empty() };
    let ghost t3: Seq<Uv> = if v.left { face_uvs(3) } else { Seq::empty() };
    let ghost t4: Seq<Uv> = if v.back { face_uvs(4) } else { Seq::empty() };
    let ghost t5: Seq<Uv> = if v.front { face_uvs(5) } else { Seq::empty() };

    if v.top {
        uvs.push(Uv { u: 66, v: 25 });
        uvs.push(Uv { u: 33, v: 25 });
        uvs.push(Uv { u: 33, v: 50 });
        uvs.push(Uv { u: 66, v: 50 });
    }
    assert(uvs@ =~= t0);
    if v.bottom {
        uvs.push(Uv { u: 66, v: 75 });
        uvs.push(Uv { u: 33, v: 75 });
        uvs.push(Uv { u: 33, v: 100 });
        uvs.push(Uv { u: 66, v: 100 });
    }
    assert(uvs@ =~= t0 + t1);
    if v.right {
        uvs.push(Uv { u: 66, v: 50 });
        uvs.push(Uv { u: 33, v: 50 });
        uvs.push(Uv { u: 33, v: 75 });
        uvs.push(Uv { u: 66, v: 75 });
    }
    assert(uvs@ =~= t0 + t1 + t2);
    if v.left {
        uvs.push(Uv { u: 66, v: 0 });
        uvs.push(Uv { u: 33, v: 0 });
        uvs.push(Uv { u: 33, v: 25 });
        uvs.push(Uv { u: 66, v: 25 });
    }
    assert(uvs@ =~= t0 + t1 + t2 + t3);
    if v.back {
        uvs.push(Uv { u: 33, v: 25 });
        uvs.push(Uv { u: 0, v: 25 });
        uvs.push(Uv { u: 0, v: 50 });
        uvs.push(Uv { u: 33, v: 50 });
    }
    assert(uvs@ =~= t0 + t1 + t2 + t3 + t4);
    if v.front {
        uvs.push(Uv { u: 100, v: 25 });
        uvs.push(Uv { u: 66, v: 25 });
        uvs.push(Uv { u: 66, v: 50 });
        uvs.push(Uv { u: 100, v: 50 });
    }
    assert(uvs@ =~= t0 + t1 + t2 + t3 + t4 + t5);

    proof {
        lemma_visible_before_values(v);
        assert(block_uvs(*block) == t0 + t1 + t2 + t3 + t4 + t5);
    }
    uvs
}

/// Emits the face normal, four times, for every visible face of `block`.
#[verifier::rlimit(100)]
#[verifier::spinoff_prover]
pub fn create_block_normals(block: &Block) -> (normals: Vec<Normal>)
    ensures
        normals@ == block_normals(*block),
        normals@.len() == 4 * face_count(block.visibility),
{
    let v = block.visibility;
    let mut normals: Vec<Normal> = Vec::new();
    let ghost t0: Seq<Normal> = if v.top { face_normals(0) } else { Seq::empty() };
    let ghost t1: Seq<Normal> = if v.bottom { face_normals(1) } else { Seq::empty() };
    let ghost t2: Seq<Normal> = if v.right { face_normals(2) } else { Seq::empty() };
    let ghost t3: Seq<Normal> = if v.left { face_normals(3) } else { Seq::empty() };
    let ghost t4: Seq<Normal> = if v.back { face_normals(4) } else { Seq::empty() };
    let ghost t5: Seq<Normal> = if v.front { face_normals(5) } else { Seq::empty() };

    if v.top {
        normals.push(Normal { x: 0, y: 1, z: 0 });
        normals.push(Normal { x: 0, y: 1, z: 0 });
        normals.push(Normal { x: 0, y: 1, z: 0 });
        normals.push(Normal { x: 0, y: 1, z: 0 });
    }
    assert(normals@ =~= t0);
    if v.bottom {
        normals.push(Normal { x: 0, y: -1, z: 0 });
        normals.push(Normal { x: 0, y: -1, z: 0 });
        normals.push(Normal { x: 0, y: -1, z: 0 });
        normals.push(Normal { x: 0, y: -1, z: 0 });
    }
    assert(normals@ =~= t0 + t1);
    if v.right {
        normals.push(Normal { x: 1, y: 0, z: 0 });
        normals.push(Normal { x: 1, y: 0, z: 0 });
        normals.push(Normal { x: 1, y: 0, z: 0 });
        normals.push(Normal { x: 1, y: 0, z: 0 });
    }
    assert(normals@ =~= t0 + t1 + t2);
    if v.left {
        normals.push(Normal { x: -1, y: 0, z: 0 });
        normals.push(Normal { x: -1, y: 0, z: 0 });
        normals.push(Normal { x: -1, y: 0, z: 0 });
        normals.push(Normal { x: -1, y: 0, z: 0 });
    }
    assert(normals@ =~= t0 + t1 + t2 + t3);
    if v.back {
        normals.push(Normal { x: 0, y: 0, z: 1 });
        normals.push(Normal { x: 0, y: 0, z: 1 });
        normals.push(Normal { x: 0, y: 0, z: 1 });
        normals.push(Normal { x: 0, y: 0, z: 1 });
    }
    assert(normals@ =~= t0 + t1 + t2 + t3 + t4);
    if v.front {
        normals.push(Normal { x: 0, y: 0, z: -1 });
        normals.push(Normal { x: 0, y: 0, z: -1 });
        normals.push(Normal { x: 0, y: 0, z: -1 });
        normals.push(Normal { x: 0, y: 0, z: -1 });
    }
    assert(normals@ =~= t0 + t1 + t2 + t3 + t4 + t5);

    proof {
        lemma_visible_before_values(v);
        assert(block_normals(*block) == t0 + t1 + t2 + t3 + t4 + t5);
    }
    normals
}

/// Appends the two triangles of a face in the first winding (used by the
/// top, right and back faces), starting at vertex index `s`.
fn push_winding_a(indices: &mut Vec<u32>, s: i64)
    requires
        0 <= s,
        s + 3 <= u32::MAX,
    ensures
        final(indices)@ == old(indices)@ + winding_a(s as int),
        final(indices)@.len() == old(indices)@.len() + 6,
        forall|j: int|
            old(indices)@.len() <= j < final(indices)@.len()
                ==> s <= #[trigger] final(indices)@[j] <= s + 3,
{
    indices.push((s) as u32);
    indices.push((s + 3) as u32);
    indices.push((s + 1) as u32);
    indices.push((s + 1) as u32);
    indices.push((s + 3) as u32);
    indices.push((s + 2) as u32);
    assert(indices@ =~= old(indices)@ + winding_a(s as int));
}

/// Appends the two triangles of a face in the second winding (used by the
/// bottom, left and front faces), starting at vertex index `s`.
fn push_winding_b(indices: &mut Vec<u32>, s: i64)
    requires
        0 <= s,
        s + 3 <= u32::MAX,
    ensures
        final(indices)@ == old(indices)@ + winding_b(s as int),
        final(indices)@.len() == old(indices)@.len() + 6,
        forall|j: int|
            old(indices)@.len() <= j < final(indices)@.len()
                ==> s <= #[trigger] final(indices)@[j] <= s + 3,
{
    indices.push((s) as u32);
    indices.push((s + 1) as u32);
    indices.push((s + 3) as u32);
    indices.push((s + 1) as u32);
    indices.push((s + 2) as u32);
    indices.push((s + 3) as u32);
    assert(indices@ =~= old(indices)@ + winding_b(s as int));
}

/// Emits the two triangles of every visible face of `block`. `skip` is the
/// index of the block's first vertex in the chunk's vertex buffer: four
/// times the number of faces emitted for earlier blocks. The returned
/// offset is `skip` advanced past this block's vertices: a hidden face
/// lowers the running offset by four, and the fixed per-block stride of 24
/// is re-added once all six candidate faces have been considered.
#[verifier::rlimit(100)]
#[verifier::spinoff_prover]
pub fn create_block_indices(block: &Block, skip: i64) -> (r: (Vec<u32>, i64))
    requires
        0 <= skip,
        skip + 24 <= u32::MAX,
    ensures
        r.0@ == block_indices(*block, skip as int),
        r.0@.len() == 6 * face_count(block.visibility),
        r.1 == skip + 4 * face_count(block.visibility),
        forall|j: int|
            0 <= j < r.0@.len() ==> skip <= #[trigger] r.0@[j] < skip + 4 * face_count(
                block.visibility,
            ),
{
    let v = block.visibility;
    proof {
        lemma_visible_before_values(v);
    }
    let ghost t0: Seq<u32> = if v.top {
        face_indices(0, skip + 4 * visible_before(v, 0))
    } else {
        Seq::empty()
    };
    let ghost t1: Seq<u32> = if v.bottom {
        face_indices(1, skip + 4 * visible_before(v, 1))
    } else {
        Seq::empty()
    };
    let ghost t2: Seq<u32> = if v.right {
        face_indices(2, skip + 4 * visible_before(v, 2))
    } else {
        Seq::empty()
    };
    let ghost t3: Seq<u32> = if v.left {
        face_indices(3, skip + 4 * visible_before(v, 3))
    } else {
        Seq::empty()
    };
    let ghost t4: Seq<u32> = if v.back {
        face_indices(4, skip + 4 * visible_before(v, 4))
    } else {
        Seq::empty()
    };
    let ghost t5: Seq<u32> = if v.front {
        face_indices(5, skip + 4 * visible_before(v, 5))
    } else {
        Seq::empty()
    };
    let mut indices: Vec<u32> = Vec::new();
    let mut run: i64 = skip;

    if v.top {
        push_winding_a(&mut indices, run);
    } else {
        run = run - 4;
    }
    assert(indices@ =~= t0);
    assert(run == skip - 4 + 4 * visible_before(v, 1));
    assert(forall|j: int|
        0 <= j < indices@.len() ==> skip <= #[trigger] indices@[j] < skip + 4 * visible_before(
            v,
            1,
        ));
    if v.bottom {
        push_winding_b(&mut indices, 4 + run);
    } else {
        run = run - 4;
    }
    assert(indices@ =~= t0 + t1);
    assert(run == skip - 8 + 4 * visible_before(v, 2));
    assert(forall|j: int|
        0 <= j < indices@.len() ==> skip <= #[trigger] indices@[j] < skip + 4 * visible_before(
            v,
            2,
        ));
    if v.right {
        push_winding_a(&mut indices, 8 + run);
    } else {
        run = run - 4;
    }
    assert(indices@ =~= t0 + t1 + t2);
    assert(run == skip - 12 + 4 * visible_before(v, 3));
    assert(forall|j: int|
        0 <= j < indices@.len() ==> skip <= #[trigger] indices@[j] < skip + 4 * visible_before(
            v,
            3,
        ));
    if v.left {
        push_winding_b(&mut indices, 12 + run);
    } else {
        run = run - 4;
    }
    assert(indices@ =~= t0 + t1 + t2 + t3);
    assert(run == skip - 16 + 4 * visible_before(v, 4));
    assert(forall|j: int|
        0 <= j < indices@.len() ==> skip <= #[trigger] indices@[j] < skip + 4 * visible_before(
            v,
            4,
        ));
    if v.back {
        push_winding_a(&mut indices, 16 + run);
    } else {
        run = run - 4;
    }
    assert(indices@ =~= t0 + t1 + t2 + t3 + t4);
    assert(run == skip - 20 + 4 * visible_before(v, 5));
    assert(forall|j: int|
        0 <= j < indices@.len() ==> skip <= #[trigger] indices@[j] < skip + 4 * visible_before(
            v,
            5,
        ));
    if v.front {
        push_winding_b(&mut indices, 20 + run);
    } else {
        run = run - 4;
    }
    run = run + 24;
    assert(indices@ =~= t0 + t1 + t2 + t3 + t4 + t5);
    assert(run == skip + 4 * face_count(v));
    assert(forall|j: int|
        0 <= j < indices@.len() ==> skip <= #[trigger] indices@[j] < skip + 4 * face_count(v));

    proof {
        assert(block_indices(*block, skip as int) == t0 + t1 + t2 + t3 + t4 + t5);
    }
    (indices, run)
}

/// Total number of visible faces over a sequence of blocks.
pub open spec fn total_faces(blocks: Seq<Block>) -> int
    decreases blocks.len(),
{
    if blocks.len() == 0 {
        0
    } else {
        total_faces(blocks.drop_last()) + face_count(blocks.last().visibility)
    }
}

/// The vertex buffer of a chunk: every block's visible-face quads, in
/// block order.
pub open spec fn mesh_positions(blocks: Seq<Block>) -> Seq<Vertex>
    decreases blocks.len(),
{
    if blocks.len() == 0 {
        Seq::empty()
    } else {
        mesh_positions(blocks.drop_last()) + block_vertices(blocks.last())
    }
}

/// The index buffer of a chunk: each block's triangles refer to its own
/// vertices, whose position in the vertex buffer is four times the number
/// of faces emitted for earlier blocks.
pub open spec fn mesh_indices(blocks: Seq<Block>) -> Seq<u32>
    decreases blocks.len(),
{
    if blocks.len() == 0 {
        Seq::empty()
    } else {
        mesh_indices(blocks.drop_last()) + block_indices(
            blocks.last(),
            4 * total_faces(blocks.drop_last()),
        )
    }
}

/// The UV buffer of a chunk.
pub open spec fn mesh_uvs(blocks: Seq<Block>) -> Seq<Uv>
    decreases blocks.len(),
{
    if blocks.len() == 0 {
        Seq::empty()
    } else {
        mesh_uvs(blocks.drop_last()) + block_uvs(blocks.last())
    }
}

/// The normal buffer of a chunk.
pub open spec fn mesh_normals(blocks: Seq<Block>) -> Seq<Normal>
    decreases blocks.len(),
{
    if blocks.len() == 0 {
        Seq::empty()
    } else {
        mesh_normals(blocks.drop_last()) + block_normals(blocks.last())
    }
}

/// A block contributes four entries per visible face to each vertex-shaped
/// buffer and six to the index buffer.
pub proof fn lemma_block_buffer_lens(b: Block, base: int)
    ensures
        block_vertices(b).len() == 4 * face_count(b.visibility),
        block_uvs(b).len() == 4 * face_count(b.visibility),
        block_normals(b).len() == 4 * face_count(b.visibility),
        block_indices(b, base).len() == 6 * face_count(b.visibility),
{
    lemma_visible_before_values(b.visibility);
}

/// A visible face count is never negative and never exceeds six per block.
pub proof fn lemma_total_faces_bounds(blocks: Seq<Block>)
    ensures
        0 <= total_faces(blocks) <= 6 * blocks.len(),
    decreases blocks.len(),
{
    if blocks.len() > 0 {
        lemma_total_faces_bounds(blocks.drop_last());
        crate::voxel::lemma_face_count_bounds(blocks.last().visibility);
    }
}

/// Every index a block emits refers to one of its own vertices: it lies
/// between the block's first vertex index and the last one it emits.
pub proof fn lemma_block_indices_values(b: Block, base: int)
    requires
        0 <= base,
        base + 24 <= u32::MAX,
    ensures
        forall|j: int|
            0 <= j < block_indices(b, base).len() ==> base <= #[trigger] block_indices(b, base)[j]
                < base + 4 * face_count(b.visibility),
{
    let v = b.visibility;
    lemma_visible_before_values(v);
    crate::voxel::lemma_face_count_bounds(v);
    let t0: Seq<u32> = if v.top {
        face_indices(0, base + 4 * visible_before(v, 0))
    } else {
        Seq::empty()
    };
    let t1: Seq<u32> = if v.bottom {
        face_indices(1, base + 4 * visible_before(v, 1))
    } else {
        Seq::empty()
    };
    let t2: Seq<u32> = if v.right {
        face_indices(2, base + 4 * visible_before(v, 2))
    } else {
        Seq::empty()
    };
    let t3: Seq<u32> = if v.left {
        face_indices(3, base + 4 * visible_before(v, 3))
    } else {
        Seq::empty()
    };
    let t4: Seq<u32> = if v.back {
        face_indices(4, base + 4 * visible_before(v, 4))
    } else {
        Seq::empty()
    };
    let t5: Seq<u32> = if v.front {
        face_indices(5, base + 4 * visible_before(v, 5))
    } else {
        Seq::empty()
    };
    assert(block_indices(b, base) == t0 + t1 + t2 + t3 + t4 + t5);
    assert forall|j: int| 0 <= j < block_indices(b, base).len() implies base
        <= #[trigger] block_indices(b, base)[j] < base + 4 * face_count(v) by {
        let s = block_indices(b, base);
        let l0 = t0.len() as int;
        let l1 = l0 + t1.len();
        let l2 = l1 + t2.len();
        let l3 = l2 + t3.len();
        let l4 = l3 + t4.len();
        if j < l0 {
            assert(s[j] == t0[j]);
        } else if j < l1 {
            assert(s[j] == t1[j - l0]);
        } else if j < l2 {
            assert(s[j] == t2[j - l1]);
        } else if j < l3 {
            assert(s[j] == t3[j - l2]);
        } else if j < l4 {
            assert(s[j] == t4[j - l3]);
        } else {
            assert(s[j] == t5[j - l4]);
        }
    }
}

/// Mesh buffer consistency over a chunk's blocks: the vertex, UV and
/// normal buffers hold four entries per visible face, the index buffer six,
/// and every index refers into the vertex buffer.
pub proof fn lemma_mesh_buffer_consistency(blocks: Seq<Block>)
    requires
        24 * blocks.len() <= u32::MAX,
    ensures
        mesh_positions(blocks).len() == 4 * total_faces(blocks),
        mesh_uvs(blocks).len() == 4 * total_faces(blocks),
        mesh_normals(blocks).len() == 4 * total_faces(blocks),
        mesh_indices(blocks).len() == 6 * total_faces(blocks),
        forall|j: int|
            0 <= j < mesh_indices(blocks).len() ==> #[trigger] mesh_indices(blocks)[j] < 4
                * total_faces(blocks),
    decreases blocks.len(),
{
    if blocks.len() > 0 {
        let prefix = blocks.drop_last();
        let b = blocks.last();
        let base = 4 * total_faces(prefix);
        lemma_mesh_buffer_consistency(prefix);
        lemma_total_faces_bounds(prefix);
        crate::voxel::lemma_face_count_bounds(b.visibility);
        lemma_block_buffer_lens(b, base);
        lemma_block_indices_values(b, base);
        assert forall|j: int| 0 <= j < mesh_indices(blocks).len() implies #[trigger] mesh_indices(
            blocks,
        )[j] < 4 * total_faces(blocks) by {
            let pre = mesh_indices(prefix);
            if j < pre.len() {
                assert(mesh_indices(blocks)[j] == pre[j]);
            } else {
                assert(mesh_indices(blocks)[j] == block_indices(b, base)[j - pre.len()]);
            }
        }
    }
}

/// The compiled mesh buffers of one chunk.
pub struct ChunkMesh {
    pub positions: Vec<Vertex>,
    pub indices: Vec<u32>,
    pub uvs: Vec<Uv>,
    pub normals: Vec<Normal>,
}

impl ChunkMesh {
    /// The buffers are exactly the compilation of `blocks`.
    pub open spec fn matches(&self, blocks: Seq<Block>) -> bool {
        &&& self.positions@ == mesh_positions(blocks)
        &&& self.indices@ == mesh_indices(blocks)
        &&& self.uvs@ == mesh_uvs(blocks)
        &&& self.normals@ == mesh_normals(blocks)
    }
}

/// Compiles the visible faces of `blocks`, in block order, into mesh
/// buffers. The index offset threads sequentially across blocks so that
/// hidden faces, which emit no vertices, are skipped.
pub fn build_mesh(blocks: &Vec<Block>) -> (mesh: ChunkMesh)
    requires
        forall|i: int| 0 <= i < blocks@.len() ==> (#[trigger] blocks@[i]).position.wf(),
        24 * blocks@.len() <= u32::MAX,
    ensures
        mesh.matches(blocks@),
        mesh.positions@.len() == 4 * total_faces(blocks@),
        mesh.uvs@.len() == mesh.positions@.len(),
        mesh.normals@.len() == mesh.positions@.len(),
        mesh.indices@.len() == 6 * total_faces(blocks@),
        forall|j: int|
            0 <= j < mesh.indices@.len() ==> #[trigger] mesh.indices@[j] < mesh.positions@.len(),
{
    let mut positions: Vec<Vertex> = Vec::new();
    let mut indices: Vec<u32> = Vec::new();
    let mut uvs: Vec<Uv> = Vec::new();
    let mut normals: Vec<Normal> = Vec::new();
    let mut skip: i64 = 0;

    let n = blocks.len();
    for i in 0..n
        invariant
            n == blocks@.len(),
            forall|k: int| 0 <= k < blocks@.len() ==> (#[trigger] blocks@[k]).position.wf(),
            24 * blocks@.len() <= u32::MAX,
            positions@ == mesh_positions(blocks@.take(i as int)),
            indices@ == mesh_indices(blocks@.take(i as int)),
            uvs@ == mesh_uvs(blocks@.take(i as int)),
            normals@ == mesh_normals(blocks@.take(i as int)),
            skip == 4 * total_faces(blocks@.take(i as int)),
            0 <= skip <= 24 * i,
    {
        let block = &blocks[i];
        proof {
            lemma_total_faces_bounds(blocks@.take(i as int));
        }
        let mut vs = create_block_vertices(block);
        let (mut inds, new_skip) = create_block_indices(block, skip);
        let mut us = create_block_uvs(block);
        let mut ns = create_block_normals(block);
        positions.append(&mut vs);
        indices.append(&mut inds);
        uvs.append(&mut us);
        normals.append(&mut ns);
        skip = new_skip;
        proof {
            let done = blocks@.take(i + 1);
            assert(done.drop_last() =~= blocks@.take(i as int));
            assert(done.last() == blocks@[i as int]);
            crate::voxel::lemma_face_count_bounds(block.visibility);
        }
    }
    proof {
        assert(blocks@.take(n as int) =~= blocks@);
        lemma_mesh_buffer_consistency(blocks@);
    }
    ChunkMesh { positions, indices, uvs, normals }
}


/// Visibility count bound: a block with no visible face contributes
/// nothing to any buffer; a fully exposed block contributes exactly 24
/// vertices (and UVs and normals) and 36 indices.
pub proof fn lemma_visibility_count_bound(b: Block, base: int)
    ensures
        face_count(b.visibility) == 0 ==> block_vertices(b).len() == 0 && block_uvs(b).len() == 0
            && block_normals(b).len() == 0 && block_indices(b, base).len() == 0,
        face_count(b.visibility) == 6 ==> block_vertices(b).len() == 24 && block_uvs(b).len() == 24
            && block_normals(b).len() == 24 && block_indices(b, base).len() == 36,
{
    lemma_visible_before_values(b.visibility);
}

} // verus!
