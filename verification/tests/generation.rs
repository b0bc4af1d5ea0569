//! Chunk generation against small, hand-built height fields.

use voxel_terrain::chunk::prepare_chunk;
use voxel_terrain::heightfield::HeightField;

#[test]
fn flat_world_small_chunk() {
    // A flat oracle: every column has height 5, so a voxel is solid
    // exactly when y < 5. Chunk side 2, scanning 6 voxels up.
    let hf = HeightField::new(0, 0, 2, vec![5; 16]);
    let chunk = prepare_chunk(&hf, 6);

    assert_eq!(chunk.position.x, 0);
    assert_eq!(chunk.position.z, 0);

    // Solid voxels exactly at y in 0..5 for each of the 4 columns.
    assert_eq!(chunk.blocks.len(), 20);
    for b in &chunk.blocks {
        assert!(b.position.x == 0 || b.position.x == 1);
        assert!(b.position.z == 0 || b.position.z == 1);
        assert!(b.position.y >= 0 && b.position.y < 5);
        if b.position.y < 4 {
            // Fully enclosed: every neighbour is solid.
            assert!(!b.visibility.top);
            assert!(!b.visibility.bottom);
            assert!(!b.visibility.left);
            assert!(!b.visibility.right);
            assert!(!b.visibility.front);
            assert!(!b.visibility.back);
        } else {
            // Topmost layer: only the top face is exposed.
            assert!(b.visibility.top);
            assert!(!b.visibility.bottom);
            assert!(!b.visibility.left);
            assert!(!b.visibility.right);
            assert!(!b.visibility.front);
            assert!(!b.visibility.back);
        }
    }

    // Enumeration order: x, then y, then z, strictly increasing.
    for w in chunk.blocks.windows(2) {
        let a = w[0].position;
        let b = w[1].position;
        assert!(
            a.x < b.x
                || (a.x == b.x && a.y < b.y)
                || (a.x == b.x && a.y == b.y && a.z < b.z)
        );
    }

    // 4 visible faces in the whole chunk: 16 vertices, 24 indices.
    assert_eq!(chunk.mesh.positions.len(), 16);
    assert_eq!(chunk.mesh.uvs.len(), 16);
    assert_eq!(chunk.mesh.normals.len(), 16);
    assert_eq!(chunk.mesh.indices.len(), 24);
    for &i in &chunk.mesh.indices {
        assert!((i as usize) < chunk.mesh.positions.len());
    }
}

#[test]
fn single_exposed_block() {
    // One column of height 1 surrounded by empty columns: one block at
    // (0, 0, 0) with every face exposed except the bottom (the voxel
    // below ground level counts as solid for any column height).
    let mut heights = vec![0; 9];
    heights[4] = 1; // centre of the 3x3 grid (side 1 plus border)
    let hf = HeightField::new(0, 0, 1, heights);
    let chunk = prepare_chunk(&hf, 4);

    assert_eq!(chunk.blocks.len(), 1);
    let b = &chunk.blocks[0];
    assert_eq!((b.position.x, b.position.y, b.position.z), (0, 0, 0));
    assert!(b.visibility.top);
    assert!(!b.visibility.bottom);
    assert!(b.visibility.left);
    assert!(b.visibility.right);
    assert!(b.visibility.front);
    assert!(b.visibility.back);

    // 5 visible faces: 20 vertices, 30 indices.
    assert_eq!(chunk.mesh.positions.len(), 20);
    assert_eq!(chunk.mesh.indices.len(), 30);

    // The top face quad comes first, at the cube corners in half-units.
    let p = &chunk.mesh.positions;
    assert_eq!((p[0].x, p[0].y, p[0].z), (-1, 1, -1));
    assert_eq!((p[1].x, p[1].y, p[1].z), (1, 1, -1));
    assert_eq!((p[2].x, p[2].y, p[2].z), (1, 1, 1));
    assert_eq!((p[3].x, p[3].y, p[3].z), (-1, 1, 1));
}

#[test]
fn empty_chunk_is_valid() {
    let hf = HeightField::new(32, -16, 2, vec![0; 16]);
    let chunk = prepare_chunk(&hf, 8);
    assert_eq!(chunk.blocks.len(), 0);
    assert_eq!(chunk.mesh.positions.len(), 0);
    assert_eq!(chunk.mesh.indices.len(), 0);
    assert_eq!(chunk.mesh.uvs.len(), 0);
    assert_eq!(chunk.mesh.normals.len(), 0);
}

#[test]
fn oracle_matches_generation() {
    // Determinism: the oracle queried directly agrees with the occupancy
    // implied by the generated chunk, and repeated queries agree.
    let heights: Vec<u32> = (0..25).map(|i| (i * 7 % 5) as u32).collect();
    let hf = HeightField::new(-16, 48, 3, heights);
    let max_height = 6;
    let chunk = prepare_chunk(&hf, max_height);

    for x in -16..-13i64 {
        for y in 0..max_height as i64 {
            for z in 48..51i64 {
                let direct = hf.is_block_at(x, y, z);
                let again = hf.is_block_at(x, y, z);
                assert_eq!(direct, again);
                let generated = chunk
                    .blocks
                    .iter()
                    .any(|b| b.position.x == x && b.position.y == y && b.position.z == z);
                assert_eq!(direct, generated);
            }
        }
    }
}

#[test]
fn boundary_agreement_between_chunks() {
    // Two horizontally adjacent chunks built from the same height
    // function: the face of a boundary voxel toward the neighbour chunk
    // is visible exactly when the corresponding voxel there is empty.
    let f = |x: i64, z: i64| -> u32 { ((x + 8 + z) % 4) as u32 };
    let side = 2i64;

    let heights_a: Vec<u32> = (-1..3)
        .flat_map(|x| (-1..3).map(move |z| f(x, z)))
        .collect();
    let heights_b: Vec<u32> = (1..5)
        .flat_map(|x| (-1..3).map(move |z| f(x, z)))
        .collect();
    let a = HeightField::new(0, 0, side as usize, heights_a);
    let b = HeightField::new(side, 0, side as usize, heights_b);

    let chunk_a = prepare_chunk(&a, 4);
    for blk in &chunk_a.blocks {
        if blk.position.x == side - 1 {
            // The +x neighbour lies in chunk B's volume.
            let neighbour_solid = b.is_block_at(side, blk.position.y, blk.position.z);
            assert_eq!(blk.visibility.right, !neighbour_solid);
        }
    }
}
