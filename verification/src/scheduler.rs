//! The chunk scheduler: which chunk origins should be resident.
//!
//! Each tick, the observer's position is rounded up to the nearest
//! chunk-aligned origin, and a square of `RENDER_DISTANCE` chunk steps is
//! visited outward from that cell in a four-way mirrored enumeration: the
//! origin, its horizontal mirror, its vertical mirror, and both mirrors.
//! Every visited origin not yet present in the registry is marked Pending
//! and returned as a generation job; origins already Pending or Ready are
//! never requested again.

use vstd::prelude::*;

use vstd::arithmetic::div_mod::lemma_fundamental_div_mod;
use vstd::arithmetic::div_mod::lemma_fundamental_div_mod_converse_div;
use vstd::arithmetic::div_mod::lemma_mod_multiples_basic;

use crate::CHUNK_SIZE;
use crate::RENDER_DISTANCE;
use crate::chunk::ChunkPos;
use crate::registry::ChunkRegistry;
use crate::registry::ChunkState;
use crate::registry::in_key_range;
use crate::registry::spec_chunk_key;

verus! {

/// Largest observer coordinate the scheduler accepts: far enough from the
/// edge of the key-encodable range that every desired chunk origin stays
/// inside it.
pub const OBSERVER_BOUND: i64 = 0x7FFF_0000;

/// Shift that makes an in-range observer coordinate non-negative; a
/// multiple of the chunk size, so it does not move the alignment grid.
const ALIGN_SHIFT: i64 = 0x8000_0000;

/// The chunk-aligned origin for an observer coordinate: the observer's
/// position rounded up to the nearest multiple of the chunk size.
pub open spec fn spec_align_up(c: int) -> int {
    ((c + (CHUNK_SIZE - 1)) / (CHUNK_SIZE as int)) * (CHUNK_SIZE as int)
}

/// Rounds an observer coordinate up to the nearest multiple of the chunk
/// size.
pub fn align_chunk_origin(c: i64) -> (a: i64)
    requires
        -OBSERVER_BOUND <= c <= OBSERVER_BOUND,
    ensures
        a == spec_align_up(c as int),
        c <= a < c + CHUNK_SIZE,
{
    let shifted: u64 = (c + ALIGN_SHIFT) as u64;
    let aligned: u64 = ((shifted + 15) / 16) * 16;
    let a: i64 = (aligned as i64) - ALIGN_SHIFT;
    proof {
        let ci = c as int;
        let q = (ci + 15) / 16;
        let r = (ci + 15) % 16;
        lemma_fundamental_div_mod(ci + 15, 16);
        lemma_fundamental_div_mod_converse_div(
            ci + ALIGN_SHIFT + 15,
            16,
            q + 0x800_0000,
            r,
        );
        assert(shifted + 15 == 16 * (q + 0x800_0000) + r);
        assert((shifted + 15) as int / 16 == q + 0x800_0000);
    }
    a
}

/// Whether chunk origin `(x, z)` is desired for the aligned observer cell
/// `(ax, az)`: both offsets are whole chunk steps and lie within the
/// render distance.
pub open spec fn is_desired(ax: int, az: int, x: int, z: int) -> bool {
    &&& (x - ax) % (CHUNK_SIZE as int) == 0
    &&& (z - az) % (CHUNK_SIZE as int) == 0
    &&& -((RENDER_DISTANCE - 1) * (CHUNK_SIZE as int)) <= x - ax <= (RENDER_DISTANCE - 1) * (
    CHUNK_SIZE as int)
    &&& -((RENDER_DISTANCE - 1) * (CHUNK_SIZE as int)) <= z - az <= (RENDER_DISTANCE - 1) * (
    CHUNK_SIZE as int)
}

/// A whole-chunk-step offset within `k` steps either lies within `k - 1`
/// steps or is exactly the `k`-th step, on either side.
proof fn lemma_desired_step(d: int, k: int)
    requires
        d % (CHUNK_SIZE as int) == 0,
        1 <= k,
        -(16 * k) <= d <= 16 * k,
    ensures
        (-(16 * k - 16) <= d <= 16 * k - 16) || d == 16 * k || d == -(16 * k),
{
    lemma_fundamental_div_mod(d, 16);
    let q = d / 16;
    assert(d == 16 * q);
    assert((-k <= q <= k) && (q == k ==> d == 16 * k) && (q == -k ==> d == -(16 * k)) && (-k < q < k
        ==> -(16 * k - 16) <= d <= 16 * k - 16)) by (nonlinear_arith)
        requires
            d == 16 * q,
            -(16 * k) <= d <= 16 * k,
            1 <= k,
    ;
}

/// The key of the chunk a job asks to generate.
pub open spec fn job_key(p: ChunkPos) -> int {
    spec_chunk_key(p.x as int, p.z as int)
}

/// What one scheduler pass does to the registry, from `m0` before to `m1`
/// after, for the aligned observer cell `(ax, az)`: every returned job is a
/// desired origin that was unknown and is now Pending, no job repeats, all
/// desired origins are known afterwards, known entries are untouched, and
/// nothing else was added.
pub open spec fn schedule_post(
    m0: Map<u64, ChunkState>,
    m1: Map<u64, ChunkState>,
    jobs: Seq<ChunkPos>,
    ax: int,
    az: int,
) -> bool {
    &&& forall|idx: int|
        0 <= idx < jobs.len() ==> {
            let p = #[trigger] jobs[idx];
            &&& in_key_range(p.x as int)
            &&& in_key_range(p.z as int)
            &&& is_desired(ax, az, p.x as int, p.z as int)
            &&& !m0.contains_key(job_key(p) as u64)
            &&& m1.contains_key(job_key(p) as u64)
            &&& m1[job_key(p) as u64] is Pending
        }
    &&& forall|i: int, j: int|
        0 <= i < j < jobs.len() ==> !(#[trigger] jobs[i] == #[trigger] jobs[j])
    &&& forall|x: int, z: int|
        is_desired(ax, az, x, z) && in_key_range(x) && in_key_range(z) ==> m1.contains_key(
            (#[trigger] spec_chunk_key(x, z)) as u64,
        )
    &&& forall|k: u64| #[trigger] m0.contains_key(k) ==> m1.contains_key(k) && m1[k] == m0[k]
    &&& forall|k: u64|
        #[trigger] m1.contains_key(k) ==> m0.contains_key(k) || exists|idx: int|
            0 <= idx < jobs.len() && job_key(#[trigger] jobs[idx]) == k
}

/// Registry idempotence: a second scheduler pass for the same aligned
/// observer cell, with no tick in between, submits no job at all and
/// leaves the registry exactly as it was.
pub proof fn lemma_scheduler_idempotent(
    m0: Map<u64, ChunkState>,
    m1: Map<u64, ChunkState>,
    m2: Map<u64, ChunkState>,
    jobs1: Seq<ChunkPos>,
    jobs2: Seq<ChunkPos>,
    ax: int,
    az: int,
)
    requires
        schedule_post(m0, m1, jobs1, ax, az),
        schedule_post(m1, m2, jobs2, ax, az),
    ensures
        jobs2.len() == 0,
        m2 == m1,
{
    if jobs2.len() > 0 {
        let p = jobs2[0];
        assert(!m1.contains_key(job_key(p) as u64));
        assert(m1.contains_key(spec_chunk_key(p.x as int, p.z as int) as u64));
    }
    assert forall|k: u64| #[trigger] m2.contains_key(k) implies m1.contains_key(k) by {}
    assert(m2 =~= m1);
}

/// Checks the registry for origin `(x, z)`; if the region was never
/// requested, marks it Pending and records a generation job for it.
fn request_chunk_if_needed(
    registry: &mut ChunkRegistry,
    x: i64,
    z: i64,
    jobs: &mut Vec<ChunkPos>,
)
    requires
        in_key_range(x as int),
        in_key_range(z as int),
    ensures
        old(registry)@.contains_key(spec_chunk_key(x as int, z as int) as u64) ==> {
            &&& final(registry)@ == old(registry)@
            &&& final(jobs)@ == old(jobs)@
        },
        !old(registry)@.contains_key(spec_chunk_key(x as int, z as int) as u64) ==> {
            &&& final(registry)@ == old(registry)@.insert(
                spec_chunk_key(x as int, z as int) as u64,
                ChunkState::Pending,
            )
            &&& final(jobs)@ == old(jobs)@.push(ChunkPos { x, z })
        },
        final(registry)@.contains_key(spec_chunk_key(x as int, z as int) as u64),
{
    if !registry.contains(x, z) {
        registry.mark_pending(x, z);
        jobs.push(ChunkPos { x, z });
    }
}

/// The scheduler's running state: relates the registry before the pass
/// (`m0`), the registry so far (`m`) and the jobs recorded so far.
pub open spec fn scheduler_inv(
    m0: Map<u64, ChunkState>,
    m: Map<u64, ChunkState>,
    jobs: Seq<ChunkPos>,
    ax: int,
    az: int,
) -> bool {
    &&& forall|idx: int|
        0 <= idx < jobs.len() ==> {
            let p = #[trigger] jobs[idx];
            &&& in_key_range(p.x as int)
            &&& in_key_range(p.z as int)
            &&& is_desired(ax, az, p.x as int, p.z as int)
            &&& !m0.contains_key(job_key(p) as u64)
            &&& m.contains_key(job_key(p) as u64)
            &&& m[job_key(p) as u64] is Pending
        }
    &&& forall|i: int, j: int|
        0 <= i < j < jobs.len() ==> !(#[trigger] jobs[i] == #[trigger] jobs[j])
    &&& forall|k: u64| #[trigger] m0.contains_key(k) ==> m.contains_key(k) && m[k] == m0[k]
    &&& forall|k: u64|
        #[trigger] m.contains_key(k) ==> m0.contains_key(k) || exists|idx: int|
            0 <= idx < jobs.len() && job_key(#[trigger] jobs[idx]) == k
}

/// Visits one desired origin: marks it Pending and records a job unless
/// the region is already known, and keeps the scheduler state relation.
fn visit_origin(
    registry: &mut ChunkRegistry,
    x: i64,
    z: i64,
    jobs: &mut Vec<ChunkPos>,
    Ghost(m0): Ghost<Map<u64, ChunkState>>,
    Ghost(ax): Ghost<int>,
    Ghost(az): Ghost<int>,
)
    requires
        in_key_range(x as int),
        in_key_range(z as int),
        is_desired(ax, az, x as int, z as int),
        scheduler_inv(m0, old(registry)@, old(jobs)@, ax, az),
    ensures
        scheduler_inv(m0, final(registry)@, final(jobs)@, ax, az),
        final(registry)@.contains_key(spec_chunk_key(x as int, z as int) as u64),
        forall|k: u64|
            #[trigger] old(registry)@.contains_key(k) ==> final(registry)@.contains_key(k),
{
    let ghost r0 = registry@;
    let ghost j0 = jobs@;
    let ghost key = spec_chunk_key(x as int, z as int) as u64;
    request_chunk_if_needed(registry, x, z, jobs);
    proof {
        if !r0.contains_key(key) {
            let p = ChunkPos { x, z };
            assert(jobs@ == j0.push(p));
            assert(jobs@[j0.len() as int] == p);
            assert(!m0.contains_key(key));
            assert forall|k: u64| #[trigger] registry@.contains_key(k) implies m0.contains_key(k)
                || exists|idx: int|
                0 <= idx < jobs@.len() && job_key(#[trigger] jobs@[idx]) == k by {
                if k == key {
                    assert(job_key(jobs@[j0.len() as int]) == k);
                } else {
                    assert(r0.contains_key(k));
                    if !m0.contains_key(k) {
                        let w = choose|w: int| 0 <= w < j0.len() && job_key(#[trigger] j0[w]) == k;
                        assert(jobs@[w] == j0[w]);
                        assert(job_key(jobs@[w]) == k);
                    }
                }
            }
            assert forall|idx: int| 0 <= idx < jobs@.len() implies {
                let p2 = #[trigger] jobs@[idx];
                &&& in_key_range(p2.x as int)
                &&& in_key_range(p2.z as int)
                &&& is_desired(ax, az, p2.x as int, p2.z as int)
                &&& !m0.contains_key(job_key(p2) as u64)
                &&& registry@.contains_key(job_key(p2) as u64)
                &&& registry@[job_key(p2) as u64] is Pending
            } by {
                if idx < j0.len() {
                    assert(jobs@[idx] == j0[idx]);
                }
            }
            assert forall|i1: int, i2: int| 0 <= i1 < i2 < jobs@.len() implies !(#[trigger] jobs@[i1]
                == #[trigger] jobs@[i2]) by {
                if i2 < j0.len() {
                    assert(jobs@[i1] == j0[i1] && jobs@[i2] == j0[i2]);
                } else {
                    assert(jobs@[i1] == j0[i1]);
                    assert(r0.contains_key(job_key(j0[i1]) as u64));
                }
            }
        }
    }
}

/// One scheduler pass. Reads the observer's position, rounds it up to the
/// chunk-aligned cell, and visits a square of `RENDER_DISTANCE` chunk
/// steps outward in a four-way mirrored enumeration: each visited origin
/// not yet known to the registry is marked Pending and returned as a
/// generation job. Origins already Pending or Ready are never requested
/// again; `lemma_scheduler_idempotent` turns this contract into the
/// statement that a repeated pass submits nothing.
#[verifier::rlimit(100)]
pub fn schedule_tick(
    registry: &mut ChunkRegistry,
    observer_x: i64,
    observer_z: i64,
) -> (jobs: Vec<ChunkPos>)
    requires
        -OBSERVER_BOUND <= observer_x <= OBSERVER_BOUND,
        -OBSERVER_BOUND <= observer_z <= OBSERVER_BOUND,
    ensures
        schedule_post(
            old(registry)@,
            final(registry)@,
            jobs@,
            spec_align_up(observer_x as int),
            spec_align_up(observer_z as int),
        ),
{
    let ax = align_chunk_origin(observer_x);
    let az = align_chunk_origin(observer_z);
    let ghost axi = ax as int;
    let ghost azi = az as int;
    let ghost m0 = registry@;
    let mut jobs: Vec<ChunkPos> = Vec::new();
    let rd = RENDER_DISTANCE;

    for i in 0..rd
        invariant
            rd == RENDER_DISTANCE,
            axi == spec_align_up(observer_x as int),
            azi == spec_align_up(observer_z as int),
            ax == axi,
            az == azi,
            -OBSERVER_BOUND <= ax <= OBSERVER_BOUND + 15,
            -OBSERVER_BOUND <= az <= OBSERVER_BOUND + 15,
            scheduler_inv(m0, registry@, jobs@, axi, azi),
            forall|x: int, z: int|
                is_desired(axi, azi, x, z) && -(16 * (i as int) - 16) <= x - axi <= 16 * (i as int)
                    - 16 ==> registry@.contains_key((#[trigger] spec_chunk_key(x, z)) as u64),
    {
        for j in 0..rd
            invariant
                rd == RENDER_DISTANCE,
                i < rd,
                axi == spec_align_up(observer_x as int),
                azi == spec_align_up(observer_z as int),
                ax == axi,
                az == azi,
                -OBSERVER_BOUND <= ax <= OBSERVER_BOUND + 15,
                -OBSERVER_BOUND <= az <= OBSERVER_BOUND + 15,
                scheduler_inv(m0, registry@, jobs@, axi, azi),
                forall|x: int, z: int|
                    is_desired(axi, azi, x, z) && -(16 * (i as int) - 16) <= x - axi <= 16 * (
                    i as int) - 16 ==> registry@.contains_key(
                        (#[trigger] spec_chunk_key(x, z)) as u64,
                    ),
                forall|x: int, z: int|
                    is_desired(axi, azi, x, z) && (x - axi == 16 * (i as int) || axi - x == 16 * (
                    i as int)) && -(16 * (j as int) - 16) <= z - azi <= 16 * (j as int) - 16
                        ==> registry@.contains_key((#[trigger] spec_chunk_key(x, z)) as u64),
        {
            let dx: i64 = (i as i64) * 16;
            let dz: i64 = (j as i64) * 16;
            let x_pos: i64 = ax + dx;
            let x_neg: i64 = ax - dx;
            let z_pos: i64 = az + dz;
            let z_neg: i64 = az - dz;
            proof {
                lemma_mod_multiples_basic(i as int, 16);
                lemma_mod_multiples_basic(-(i as int), 16);
                lemma_mod_multiples_basic(j as int, 16);
                lemma_mod_multiples_basic(-(j as int), 16);
                assert(is_desired(axi, azi, x_pos as int, z_pos as int));
                assert(is_desired(axi, azi, x_neg as int, z_pos as int));
                assert(is_desired(axi, azi, x_pos as int, z_neg as int));
                assert(is_desired(axi, azi, x_neg as int, z_neg as int));
            }
            visit_origin(registry, x_pos, z_pos, &mut jobs, Ghost(m0), Ghost(axi), Ghost(azi));
            let ghost r1 = registry@;
            visit_origin(registry, x_neg, z_pos, &mut jobs, Ghost(m0), Ghost(axi), Ghost(azi));
            let ghost r2 = registry@;
            visit_origin(registry, x_pos, z_neg, &mut jobs, Ghost(m0), Ghost(axi), Ghost(azi));
            let ghost r3 = registry@;
            visit_origin(registry, x_neg, z_neg, &mut jobs, Ghost(m0), Ghost(axi), Ghost(azi));
            proof {
                assert(registry@.contains_key(spec_chunk_key(x_pos as int, z_pos as int) as u64));
                assert(registry@.contains_key(spec_chunk_key(x_neg as int, z_pos as int) as u64));
                assert(registry@.contains_key(spec_chunk_key(x_pos as int, z_neg as int) as u64));
                assert(registry@.contains_key(spec_chunk_key(x_neg as int, z_neg as int) as u64));
                assert forall|x: int, z: int|
                    is_desired(axi, azi, x, z) && (x - axi == 16 * (i as int) || axi - x == 16 * (
                    i as int)) && -(16 * (j as int)) <= z - azi <= 16 * (j as int)
                    implies registry@.contains_key((#[trigger] spec_chunk_key(x, z)) as u64) by {
                    if z - azi == 16 * (j as int) || azi - z == 16 * (j as int) {
                        assert(x == x_pos as int || x == x_neg as int);
                        assert(z == z_pos as int || z == z_neg as int);
                    } else {
                        assert(j as int >= 1);
                        lemma_desired_step(z - azi, j as int);
                    }
                }
            }
        }
        proof {
            assert forall|x: int, z: int|
                is_desired(axi, azi, x, z) && -(16 * (i as int)) <= x - axi <= 16 * (i as int)
                implies registry@.contains_key((#[trigger] spec_chunk_key(x, z)) as u64) by {
                if x - axi == 16 * (i as int) || axi - x == 16 * (i as int) {
                } else {
                    assert(i as int >= 1);
                    lemma_desired_step(x - axi, i as int);
                }
            }
        }
    }
    jobs
}

} // verus!
