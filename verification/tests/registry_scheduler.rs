//! Registry state transitions and scheduler passes.

use voxel_terrain::chunk::prepare_chunk;
use voxel_terrain::heightfield::HeightField;
use voxel_terrain::registry::ChunkRegistry;
use voxel_terrain::registry::ChunkState;
use voxel_terrain::registry::chunk_key;
use voxel_terrain::scheduler::align_chunk_origin;
use voxel_terrain::scheduler::schedule_tick;

#[test]
fn registry_transitions() {
    let mut registry = ChunkRegistry::new();
    assert_eq!(registry.len(), 0);
    assert!(!registry.contains(16, -32));

    registry.mark_pending(16, -32);
    assert_eq!(registry.len(), 1);
    assert!(registry.contains(16, -32));
    assert!(!registry.contains(-32, 16));
    assert!(matches!(registry.get(16, -32), Some(ChunkState::Pending)));
    assert!(registry.get(0, 0).is_none());

    let hf = HeightField::new(16, -32, 2, vec![1; 16]);
    let chunk = prepare_chunk(&hf, 4);
    registry.attach_ready(16, -32, chunk);
    assert_eq!(registry.len(), 1);
    match registry.get(16, -32) {
        Some(ChunkState::Ready(c)) => {
            assert_eq!(c.position.x, 16);
            assert_eq!(c.position.z, -32);
            assert_eq!(c.blocks.len(), 4);
        }
        _ => panic!("chunk should be ready"),
    }
}

#[test]
fn chunk_keys_are_distinct() {
    assert_eq!(chunk_key(0, 0), 0x8000_0000u64 * 0x1_0000_0000 + 0x8000_0000);
    assert_ne!(chunk_key(16, 32), chunk_key(32, 16));
    assert_ne!(chunk_key(-16, 16), chunk_key(16, -16));
    assert_ne!(chunk_key(0, 16), chunk_key(16, 0));
}

#[test]
fn alignment_rounds_up_to_chunk_grid() {
    assert_eq!(align_chunk_origin(0), 0);
    assert_eq!(align_chunk_origin(5), 16);
    assert_eq!(align_chunk_origin(16), 16);
    assert_eq!(align_chunk_origin(17), 32);
    assert_eq!(align_chunk_origin(-5), 0);
    assert_eq!(align_chunk_origin(-16), -16);
    assert_eq!(align_chunk_origin(-20), -16);
}

#[test]
fn first_pass_requests_render_square() {
    let mut registry = ChunkRegistry::new();
    let jobs = schedule_tick(&mut registry, 0, 0);

    // 59 chunk columns on each axis: offsets -29..=29 in chunk steps.
    assert_eq!(jobs.len(), 59 * 59);
    assert_eq!(registry.len(), 59 * 59);
    for p in &jobs {
        assert_eq!(p.x % 16, 0);
        assert_eq!(p.z % 16, 0);
        assert!(p.x >= -29 * 16 && p.x <= 29 * 16);
        assert!(p.z >= -29 * 16 && p.z <= 29 * 16);
        assert!(matches!(registry.get(p.x, p.z), Some(ChunkState::Pending)));
    }
    assert!(registry.contains(0, 0));
    assert!(registry.contains(-29 * 16, 29 * 16));
}

#[test]
fn second_pass_requests_nothing() {
    // Running the scheduler twice for the same observer position must
    // not submit a second job for any chunk already Pending or Ready.
    let mut registry = ChunkRegistry::new();
    let first = schedule_tick(&mut registry, 40, -40);
    assert!(!first.is_empty());
    let len_after_first = registry.len();

    let second = schedule_tick(&mut registry, 40, -40);
    assert_eq!(second.len(), 0);
    assert_eq!(registry.len(), len_after_first);
}

#[test]
fn moved_observer_requests_only_new_columns() {
    let mut registry = ChunkRegistry::new();
    schedule_tick(&mut registry, 0, 0);
    // One chunk step to the +x side: one new column of 59 origins.
    let jobs = schedule_tick(&mut registry, 16, 0);
    assert_eq!(jobs.len(), 59);
    for p in &jobs {
        assert_eq!(p.x, 30 * 16);
    }
}
