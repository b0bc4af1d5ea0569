//! The chunk registry: the single source of truth over which regions have
//! been requested.
//!
//! Each chunk is identified by a key derived from its integer origin
//! coordinates; the encoding is collision-free over the whole coordinate
//! range the scheduler produces, so two chunks with the same key are the
//! same region. A key is absent until the region is first requested, then
//! Pending until its chunk is attached, then Ready; the Pending to Ready
//! transition happens exactly once per key and is never reversed.

use std::collections::HashMap;
use vstd::prelude::*;

use crate::chunk::Chunk;

verus! {

broadcast use vstd::std_specs::hash::group_hash_axioms;

/// Bound on the chunk-origin coordinates the key encoding covers.
pub const KEY_COORD_BOUND: i64 = 0x8000_0000;

/// Whether a chunk-origin coordinate lies in the encodable range.
pub open spec fn in_key_range(c: int) -> bool {
    -KEY_COORD_BOUND <= c < KEY_COORD_BOUND
}

/// The registry key of the chunk with origin `(x, z)`: both coordinates
/// shifted to be non-negative and packed into one 64-bit word.
pub open spec fn spec_chunk_key(x: int, z: int) -> int {
    (x + KEY_COORD_BOUND) * 0x1_0000_0000 + (z + KEY_COORD_BOUND)
}

/// Chunk identity is collision-free: origins in range with equal keys are
/// equal.
pub proof fn lemma_chunk_key_injective(x1: int, z1: int, x2: int, z2: int)
    requires
        in_key_range(x1),
        in_key_range(z1),
        in_key_range(x2),
        in_key_range(z2),
        spec_chunk_key(x1, z1) == spec_chunk_key(x2, z2),
    ensures
        x1 == x2,
        z1 == z2,
{
    assert((x1 + KEY_COORD_BOUND) * 0x1_0000_0000 + (z1 + KEY_COORD_BOUND) == (x2
        + KEY_COORD_BOUND) * 0x1_0000_0000 + (z2 + KEY_COORD_BOUND) ==> x1 == x2 && z1 == z2)
        by (nonlinear_arith)
        requires
            0 <= x1 + KEY_COORD_BOUND < 0x1_0000_0000,
            0 <= z1 + KEY_COORD_BOUND < 0x1_0000_0000,
            0 <= x2 + KEY_COORD_BOUND < 0x1_0000_0000,
            0 <= z2 + KEY_COORD_BOUND < 0x1_0000_0000,
    ;
}

/// Computes the registry key of the chunk with origin `(x, z)`.
pub fn chunk_key(x: i64, z: i64) -> (key: u64)
    requires
        in_key_range(x as int),
        in_key_range(z as int),
    ensures
        key == spec_chunk_key(x as int, z as int),
{
    let xs: u64 = (x + KEY_COORD_BOUND) as u64;
    let zs: u64 = (z + KEY_COORD_BOUND) as u64;
    xs * 0x1_0000_0000u64 + zs
}

/// The load state of a requested chunk: Pending while its generation job
/// is in flight, Ready once the generated chunk has been attached.
pub enum ChunkState {
    Pending,
    Ready(Chunk),
}

/// A mapping from chunk identity to load state. Absence of a key means
/// the region was never requested.
pub struct ChunkRegistry {
    map: HashMap<u64, ChunkState>,
}

impl View for ChunkRegistry {
    type V = Map<u64, ChunkState>;

    closed spec fn view(&self) -> Map<u64, ChunkState> {
        self.map@
    }
}

impl ChunkRegistry {
    /// An empty registry: no region has been requested.
    pub fn new() -> (registry: ChunkRegistry)
        ensures
            registry@ == Map::<u64, ChunkState>::empty(),
    {
        ChunkRegistry { map: HashMap::new() }
    }

    /// How many regions have been requested so far.
    pub fn len(&self) -> (n: usize)
        ensures
            n == self@.len(),
    {
        self.map.len()
    }

    /// Whether the chunk with origin `(x, z)` was ever requested.
    pub fn contains(&self, x: i64, z: i64) -> (present: bool)
        requires
            in_key_range(x as int),
            in_key_range(z as int),
        ensures
            present == self@.contains_key(spec_chunk_key(x as int, z as int) as u64),
    {
        let key = chunk_key(x, z);
        self.map.contains_key(&key)
    }

    /// Records that a generation job for origin `(x, z)` is in flight.
    /// The region must not have been requested before: this is the single
    /// mechanism preventing duplicate generation of one region.
    pub fn mark_pending(&mut self, x: i64, z: i64)
        requires
            in_key_range(x as int),
            in_key_range(z as int),
            !old(self)@.contains_key(spec_chunk_key(x as int, z as int) as u64),
        ensures
            final(self)@ == old(self)@.insert(
                spec_chunk_key(x as int, z as int) as u64,
                ChunkState::Pending,
            ),
    {
        let key = chunk_key(x, z);
        self.map.insert(key, ChunkState::Pending);
    }

    /// Attaches a completed chunk: the one-directional transition from
    /// Pending to Ready, taken exactly once per key.
    pub fn attach_ready(&mut self, x: i64, z: i64, chunk: Chunk)
        requires
            in_key_range(x as int),
            in_key_range(z as int),
            old(self)@.contains_key(spec_chunk_key(x as int, z as int) as u64),
            old(self)@[spec_chunk_key(x as int, z as int) as u64] is Pending,
        ensures
            final(self)@ == old(self)@.insert(
                spec_chunk_key(x as int, z as int) as u64,
                ChunkState::Ready(chunk),
            ),
    {
        let key = chunk_key(x, z);
        self.map.insert(key, ChunkState::Ready(chunk));
    }

    /// The recorded state of the chunk with origin `(x, z)`, if any.
    pub fn get(&self, x: i64, z: i64) -> (state: Option<&ChunkState>)
        requires
            in_key_range(x as int),
            in_key_range(z as int),
        ensures
            match state {
                Some(s) => {
                    &&& self@.contains_key(spec_chunk_key(x as int, z as int) as u64)
                    &&& *s == self@[spec_chunk_key(x as int, z as int) as u64]
                },
                None => !self@.contains_key(spec_chunk_key(x as int, z as int) as u64),
            },
    {
        let key = chunk_key(x, z);
        self.map.get(&key)
    }
}

} // verus!
