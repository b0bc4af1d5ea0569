//! Per-block mesh buffers: exact vertex, UV, normal and index values.

use voxel_terrain::mesh::create_block_indices;
use voxel_terrain::mesh::create_block_normals;
use voxel_terrain::mesh::create_block_uvs;
use voxel_terrain::mesh::create_block_vertices;
use voxel_terrain::voxel::Block;
use voxel_terrain::voxel::BlockPos;
use voxel_terrain::voxel::FaceVisibility;

fn full_block(x: i64, y: i64, z: i64) -> Block {
    Block {
        position: BlockPos { x, y, z },
        visibility: FaceVisibility::default(),
    }
}

#[test]
fn fully_exposed_block_counts() {
    // A fully exposed voxel contributes exactly 24 vertices and 36
    // indices; a fully hidden one contributes none.
    let b = full_block(3, -2, 7);
    assert_eq!(create_block_vertices(&b).len(), 24);
    assert_eq!(create_block_uvs(&b).len(), 24);
    assert_eq!(create_block_normals(&b).len(), 24);
    let (indices, next) = create_block_indices(&b, 0);
    assert_eq!(indices.len(), 36);
    assert_eq!(next, 24);

    let hidden = Block {
        position: BlockPos { x: 3, y: -2, z: 7 },
        visibility: FaceVisibility {
            top: false,
            bottom: false,
            right: false,
            left: false,
            front: false,
            back: false,
        },
    };
    assert_eq!(create_block_vertices(&hidden).len(), 0);
    assert_eq!(create_block_uvs(&hidden).len(), 0);
    assert_eq!(create_block_normals(&hidden).len(), 0);
    let (no_indices, next) = create_block_indices(&hidden, 8);
    assert_eq!(no_indices.len(), 0);
    assert_eq!(next, 8);
}

#[test]
fn block_vertices_are_cube_corners() {
    // Half-unit coordinates: the corners of the unit cube centred on
    // (1, 2, 3) are (2 +- 1, 4 +- 1, 6 +- 1).
    let b = full_block(1, 2, 3);
    let v = create_block_vertices(&b);
    // Top face quad.
    assert_eq!((v[0].x, v[0].y, v[0].z), (1, 5, 5));
    assert_eq!((v[1].x, v[1].y, v[1].z), (3, 5, 5));
    assert_eq!((v[2].x, v[2].y, v[2].z), (3, 5, 7));
    assert_eq!((v[3].x, v[3].y, v[3].z), (1, 5, 7));
    // Bottom face quad.
    assert_eq!((v[4].x, v[4].y, v[4].z), (1, 3, 5));
    // Right face starts at index 8 and keeps x at the +x side.
    for k in 8..12 {
        assert_eq!(v[k].x, 3);
    }
    // Left face keeps x at the -x side.
    for k in 12..16 {
        assert_eq!(v[k].x, 1);
    }
    // Back face keeps z at the +z side, front at the -z side.
    for k in 16..20 {
        assert_eq!(v[k].z, 7);
    }
    for k in 20..24 {
        assert_eq!(v[k].z, 5);
    }
}

#[test]
fn index_pattern_with_all_faces() {
    let b = full_block(0, 0, 0);
    let (indices, next) = create_block_indices(&b, 0);
    assert_eq!(
        indices,
        vec![
            0, 3, 1, 1, 3, 2, // top
            4, 5, 7, 5, 6, 7, // bottom
            8, 11, 9, 9, 11, 10, // right
            12, 13, 15, 13, 14, 15, // left
            16, 19, 17, 17, 19, 18, // back
            20, 21, 23, 21, 22, 23, // front
        ]
    );
    assert_eq!(next, 24);

    // With an offset, every index shifts by it.
    let (shifted, next) = create_block_indices(&b, 24);
    assert!(shifted.iter().zip(indices.iter()).all(|(s, i)| *s == i + 24));
    assert_eq!(next, 48);
}

#[test]
fn index_pattern_skips_hidden_faces() {
    // Hidden top face: the bottom face's four vertices now sit at the
    // start of the vertex buffer, and the running offset accounts for it.
    let b = Block {
        position: BlockPos { x: 0, y: 0, z: 0 },
        visibility: FaceVisibility {
            top: false,
            ..FaceVisibility::default()
        },
    };
    let (indices, next) = create_block_indices(&b, 0);
    assert_eq!(
        indices,
        vec![
            0, 1, 3, 1, 2, 3, // bottom
            4, 7, 5, 5, 7, 6, // right
            8, 9, 11, 9, 10, 11, // left
            12, 15, 13, 13, 15, 14, // back
            16, 17, 19, 17, 18, 19, // front
        ]
    );
    assert_eq!(next, 20);
    // Every index refers into the 20-vertex buffer of this block.
    assert_eq!(create_block_vertices(&b).len(), 20);
    for &i in &indices {
        assert!(i < 20);
    }
}

#[test]
fn uv_quadrants_per_face() {
    let b = full_block(0, 0, 0);
    let uvs = create_block_uvs(&b);
    // Top face maps to the quadrant with u in [33, 66], v in [25, 50].
    assert_eq!((uvs[0].u, uvs[0].v), (66, 25));
    assert_eq!((uvs[1].u, uvs[1].v), (33, 25));
    assert_eq!((uvs[2].u, uvs[2].v), (33, 50));
    assert_eq!((uvs[3].u, uvs[3].v), (66, 50));
    // Bottom face quadrant.
    assert_eq!((uvs[4].u, uvs[4].v), (66, 75));
    assert_eq!((uvs[7].u, uvs[7].v), (66, 100));
    // Front face quadrant reaches the u = 100 edge.
    assert_eq!((uvs[20].u, uvs[20].v), (100, 25));
    assert_eq!((uvs[23].u, uvs[23].v), (100, 50));
}

#[test]
fn normals_per_face() {
    let b = full_block(0, 0, 0);
    let normals = create_block_normals(&b);
    let expected = [
        (0, 1, 0),
        (0, -1, 0),
        (1, 0, 0),
        (-1, 0, 0),
        (0, 0, 1),
        (0, 0, -1),
    ];
    for (face, &(x, y, z)) in expected.iter().enumerate() {
        for k in 0..4 {
            let n = &normals[face * 4 + k];
            assert_eq!((n.x, n.y, n.z), (x, y, z));
        }
    }
}
