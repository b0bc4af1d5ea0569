//! Terrain heights from raw samples, and textual position keys.

use voxel_terrain::heightfield::HeightField;
use voxel_terrain::heightfield::terrain_height_from_raw;
use voxel_terrain::voxel::Block;
use voxel_terrain::voxel::BlockPos;
use voxel_terrain::voxel::FaceVisibility;
use voxel_terrain::voxel::i64_to_string;
use voxel_terrain::voxel::u64_to_string;

#[test]
fn height_bands_shape_the_terrain() {
    // Base elevation 40, plus the raw sample, plus the first band whose
    // threshold exceeds the sample: (20, 10), (25, 15), (30, 20), the
    // last band doubling as the fallback.
    assert_eq!(terrain_height_from_raw(0), 50);
    assert_eq!(terrain_height_from_raw(19), 69);
    assert_eq!(terrain_height_from_raw(20), 75);
    assert_eq!(terrain_height_from_raw(24), 79);
    assert_eq!(terrain_height_from_raw(25), 85);
    assert_eq!(terrain_height_from_raw(29), 89);
    assert_eq!(terrain_height_from_raw(30), 90);
    assert_eq!(terrain_height_from_raw(100), 160);
}

#[test]
fn height_field_lookup() {
    let heights: Vec<u32> = (0..16).collect();
    let hf = HeightField::new(0, 0, 2, heights);
    // Row-major over x, then z, starting at the border column (-1, -1).
    assert_eq!(hf.height_at(-1, -1), 0);
    assert_eq!(hf.height_at(-1, 2), 3);
    assert_eq!(hf.height_at(0, -1), 4);
    assert_eq!(hf.height_at(2, 2), 15);
    // Occupancy is height > y; below ground is always solid.
    assert!(hf.is_block_at(2, 14, 2));
    assert!(!hf.is_block_at(2, 15, 2));
    assert!(hf.is_block_at(0, -1, -1));
    assert!(!hf.is_block_at(-1, 0, -1));
}

#[test]
fn decimal_rendering() {
    assert_eq!(u64_to_string(0), "0");
    assert_eq!(u64_to_string(7), "7");
    assert_eq!(u64_to_string(10), "10");
    assert_eq!(u64_to_string(90210), "90210");
    assert_eq!(i64_to_string(0), "0");
    assert_eq!(i64_to_string(-1), "-1");
    assert_eq!(i64_to_string(-120), "-120");
    assert_eq!(i64_to_string(i64::MIN), "-9223372036854775808");
    assert_eq!(i64_to_string(i64::MAX), "9223372036854775807");
}

#[test]
fn position_keys() {
    let block = Block {
        position: BlockPos { x: 1, y: 2, z: 3 },
        visibility: FaceVisibility::default(),
    };
    assert_eq!(block.get_position_key(BlockPos { x: 0, y: 0, z: 0 }), "1-2-3");
    assert_eq!(block.get_position_key(BlockPos { x: -1, y: 1, z: 0 }), "0-3-3");

    let negative = Block {
        position: BlockPos { x: -1, y: 5, z: -16 },
        visibility: FaceVisibility::default(),
    };
    assert_eq!(
        negative.get_position_key(BlockPos { x: 0, y: 0, z: 0 }),
        "-1-5--16"
    );
}
