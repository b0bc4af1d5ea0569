//! Voxels and their face visibility.
//!
//! A block is one unit cube of the world. Its six faces are drawn only when
//! the neighbouring voxel across the face is empty; the six booleans start
//! out visible and are cleared against the occupancy oracle. The buffer
//! order of the faces is fixed throughout the crate: top, bottom, right,
//! left, back, front.

use vstd::prelude::*;

use crate::heightfield::HeightField;
use vstd::string::StringExecFns;

verus! {

/// Which of a block's six faces are exposed. Defaults to all visible; a
/// flag is cleared only when the adjacent voxel is solid.
#[derive(Clone, Copy, Debug, PartialEq, Eq, Structural)]
pub struct FaceVisibility {
    pub top: bool,
    pub bottom: bool,
    pub right: bool,
    pub left: bool,
    pub front: bool,
    pub back: bool,
}

/// All six faces visible.
pub open spec fn all_faces_visible() -> FaceVisibility {
    FaceVisibility { top: true, bottom: true, right: true, left: true, front: true, back: true }
}

impl Default for FaceVisibility {
    /// A fresh block starts with every face visible.
    fn default() -> (v: FaceVisibility)
        ensures
            v == all_faces_visible(),
    {
        FaceVisibility { top: true, bottom: true, right: true, left: true, front: true, back: true }
    }
}

/// Whether face `f` is visible, in buffer order: 0 top, 1 bottom, 2 right,
/// 3 left, 4 back, 5 front.
pub open spec fn face_visible(v: FaceVisibility, f: int) -> bool {
    if f == 0 {
        v.top
    } else if f == 1 {
        v.bottom
    } else if f == 2 {
        v.right
    } else if f == 3 {
        v.left
    } else if f == 4 {
        v.back
    } else {
        v.front
    }
}

/// How many of the faces before face `f` (in buffer order) are visible.
pub open spec fn visible_before(v: FaceVisibility, f: int) -> int
    decreases f,
{
    if f <= 0 {
        0
    } else {
        visible_before(v, f - 1) + if face_visible(v, f - 1) {
            1int
        } else {
            0int
        }
    }
}

/// The number of visible faces of a block.
pub open spec fn face_count(v: FaceVisibility) -> int {
    visible_before(v, 6)
}

pub proof fn lemma_face_count_bounds(v: FaceVisibility)
    ensures
        0 <= face_count(v) <= 6,
        forall|f: int| 0 <= f <= 6 ==> 0 <= #[trigger] visible_before(v, f) <= f,
        forall|f: int|
            0 <= f < 6 && face_visible(v, f) ==> #[trigger] visible_before(v, f) < face_count(v),
{
    assert forall|f: int| 0 <= f <= 6 implies 0 <= #[trigger] visible_before(v, f) <= f by {
        lemma_visible_before_bounds(v, f);
    }
    assert forall|f: int| 0 <= f < 6 && face_visible(v, f) implies #[trigger] visible_before(v, f)
        < face_count(v) by {
        lemma_visible_before_monotonic(v, f + 1, 6);
    }
}

proof fn lemma_visible_before_bounds(v: FaceVisibility, f: int)
    requires
        0 <= f,
    ensures
        0 <= visible_before(v, f) <= f,
    decreases f,
{
    if f > 0 {
        lemma_visible_before_bounds(v, f - 1);
    }
}

/// `visible_before` never decreases as more faces are counted; when face
/// `lo - 1` is visible it strictly grows from `lo - 1` to `lo`.
proof fn lemma_visible_before_monotonic(v: FaceVisibility, lo: int, hi: int)
    requires
        0 < lo <= hi,
    ensures
        visible_before(v, lo - 1) + if face_visible(v, lo - 1) {
            1int
        } else {
            0int
        } <= visible_before(v, hi),
    decreases hi,
{
    if lo < hi {
        lemma_visible_before_monotonic(v, lo, hi - 1);
        lemma_visible_before_bounds(v, hi - 1);
    }
}

/// An integer voxel position.
#[derive(Clone, Copy, Debug, PartialEq, Eq, Structural)]
pub struct BlockPos {
    pub x: i64,
    pub y: i64,
    pub z: i64,
}

/// Largest coordinate magnitude a block may have; keeps all mesh
/// arithmetic on block positions far from overflow.
pub const BLOCK_COORD_BOUND: i64 = 0x1_0000_0000;

impl BlockPos {
    /// The position's coordinates are small enough for mesh arithmetic.
    pub open spec fn wf(&self) -> bool {
        &&& -BLOCK_COORD_BOUND <= self.x <= BLOCK_COORD_BOUND
        &&& -BLOCK_COORD_BOUND <= self.y <= BLOCK_COORD_BOUND
        &&& -BLOCK_COORD_BOUND <= self.z <= BLOCK_COORD_BOUND
    }
}

/// One solid voxel kept during chunk generation, with its exposed faces.
#[derive(Clone, Copy, Debug, PartialEq, Eq, Structural)]
pub struct Block {
    pub position: BlockPos,
    pub visibility: FaceVisibility,
}

/// The face visibility the occupancy oracle assigns to a voxel at `p`:
/// a face is visible exactly when the voxel beyond it is empty.
pub open spec fn spec_visibility(hf: HeightField, p: BlockPos) -> FaceVisibility {
    FaceVisibility {
        top: !hf.spec_solid(p.x as int, p.y + 1, p.z as int),
        bottom: !hf.spec_solid(p.x as int, p.y - 1, p.z as int),
        right: !hf.spec_solid(p.x + 1, p.y as int, p.z as int),
        left: !hf.spec_solid(p.x - 1, p.y as int, p.z as int),
        front: !hf.spec_solid(p.x as int, p.y as int, p.z - 1),
        back: !hf.spec_solid(p.x as int, p.y as int, p.z + 1),
    }
}

/// Clears each visibility flag of `block` whose neighbouring voxel is
/// solid, querying the occupancy oracle at all six axis neighbours.
pub fn assign_visibility(block: &mut Block, hf: &HeightField)
    requires
        hf.wf(),
        old(block).position.wf(),
        hf.in_columns(old(block).position.x - 1, old(block).position.z as int),
        hf.in_columns(old(block).position.x + 1, old(block).position.z as int),
        hf.in_columns(old(block).position.x as int, old(block).position.z - 1),
        hf.in_columns(old(block).position.x as int, old(block).position.z + 1),
        -BLOCK_COORD_BOUND < old(block).position.x < BLOCK_COORD_BOUND,
        -BLOCK_COORD_BOUND < old(block).position.y < BLOCK_COORD_BOUND,
        -BLOCK_COORD_BOUND < old(block).position.z < BLOCK_COORD_BOUND,
    ensures
        final(block).position == old(block).position,
        final(block).visibility == (FaceVisibility {
            top: old(block).visibility.top && spec_visibility(*hf, old(block).position).top,
            bottom: old(block).visibility.bottom && spec_visibility(
                *hf,
                old(block).position,
            ).bottom,
            right: old(block).visibility.right && spec_visibility(*hf, old(block).position).right,
            left: old(block).visibility.left && spec_visibility(*hf, old(block).position).left,
            front: old(block).visibility.front && spec_visibility(*hf, old(block).position).front,
            back: old(block).visibility.back && spec_visibility(*hf, old(block).position).back,
        }),
{
    let p = block.position;
    if hf.is_block_at(p.x - 1, p.y, p.z) {
        block.visibility.left = false;
    }
    if hf.is_block_at(p.x + 1, p.y, p.z) {
        block.visibility.right = false;
    }
    if hf.is_block_at(p.x, p.y + 1, p.z) {
        block.visibility.top = false;
    }
    if hf.is_block_at(p.x, p.y - 1, p.z) {
        block.visibility.bottom = false;
    }
    if hf.is_block_at(p.x, p.y, p.z - 1) {
        block.visibility.front = false;
    }
    if hf.is_block_at(p.x, p.y, p.z + 1) {
        block.visibility.back = false;
    }
}


/// The decimal digit character for `d`.
pub open spec fn digit_char(d: int) -> char {
    if d == 0 {
        '0'
    } else if d == 1 {
        '1'
    } else if d == 2 {
        '2'
    } else if d == 3 {
        '3'
    } else if d == 4 {
        '4'
    } else if d == 5 {
        '5'
    } else if d == 6 {
        '6'
    } else if d == 7 {
        '7'
    } else if d == 8 {
        '8'
    } else {
        '9'
    }
}

/// The decimal digits of `n`, most significant first.
pub open spec fn spec_dec_nat(n: nat) -> Seq<char>
    decreases n,
{
    if n < 10 {
        seq![digit_char(n as int)]
    } else {
        spec_dec_nat(n / 10) + seq![digit_char((n % 10) as int)]
    }
}

/// The decimal rendering of `n`, with a leading minus sign if negative.
pub open spec fn spec_dec_int(n: int) -> Seq<char> {
    if n < 0 {
        seq!['-'] + spec_dec_nat((-n) as nat)
    } else {
        spec_dec_nat(n as nat)
    }
}

/// The one-character string for decimal digit `d`.
fn digit_str(d: u64) -> (s: &'static str)
    requires
        d < 10,
    ensures
        s@ == seq![digit_char(d as int)],
{
    let s: &'static str = if d == 0 {
        "0"
    } else if d == 1 {
        "1"
    } else if d == 2 {
        "2"
    } else if d == 3 {
        "3"
    } else if d == 4 {
        "4"
    } else if d == 5 {
        "5"
    } else if d == 6 {
        "6"
    } else if d == 7 {
        "7"
    } else if d == 8 {
        "8"
    } else {
        "9"
    };
    proof {
        reveal_strlit("0");
        reveal_strlit("1");
        reveal_strlit("2");
        reveal_strlit("3");
        reveal_strlit("4");
        reveal_strlit("5");
        reveal_strlit("6");
        reveal_strlit("7");
        reveal_strlit("8");
        reveal_strlit("9");
        assert(s@ =~= seq![digit_char(d as int)]);
    }
    s
}

/// Renders `n` in decimal.
pub fn u64_to_string(n: u64) -> (s: String)
    ensures
        s@ == spec_dec_nat(n as nat),
    decreases n,
{
    if n < 10 {
        digit_str(n).to_owned()
    } else {
        let mut s = u64_to_string(n / 10);
        s.append(digit_str(n % 10));
        s
    }
}

/// Renders `n` in decimal, with a leading minus sign if negative.
pub fn i64_to_string(n: i64) -> (s: String)
    ensures
        s@ == spec_dec_int(n as int),
{
    if n < 0 {
        let magnitude: u64 = (-(n as i128)) as u64;
        let mut s = String::from_str("-");
        proof {
            reveal_strlit("-");
            assert(s@ =~= seq!['-']);
        }
        s.append(u64_to_string(magnitude).as_str());
        s
    } else {
        u64_to_string(n as u64)
    }
}

/// The decimal key of a block position offset by `add`: the three summed
/// coordinates rendered in decimal and joined by a separator.
pub open spec fn spec_position_key(p: BlockPos, add: BlockPos) -> Seq<char> {
    spec_dec_int(p.x + add.x) + seq!['-'] + spec_dec_int(p.y + add.y) + seq!['-'] + spec_dec_int(
        p.z + add.z,
    )
}

impl Block {
    /// The textual key of this block's position offset by `add`.
    pub fn get_position_key(&self, add: BlockPos) -> (key: String)
        requires
            i64::MIN <= self.position.x + add.x <= i64::MAX,
            i64::MIN <= self.position.y + add.y <= i64::MAX,
            i64::MIN <= self.position.z + add.z <= i64::MAX,
        ensures
            key@ == spec_position_key(self.position, add),
    {
        let mut key = i64_to_string(self.position.x + add.x);
        proof {
            reveal_strlit("-");
            assert("-"@ =~= seq!['-']);
        }
        key.append("-");
        key.append(i64_to_string(self.position.y + add.y).as_str());
        key.append("-");
        key.append(i64_to_string(self.position.z + add.z).as_str());
        key
    }
}

} // verus!
