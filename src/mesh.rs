//! Decoding the mesh kernel's output: a dense block of six vertices for each of
//! the six faces of every voxel, and a bitmask that says which faces exist.
use crate::unstable::{
    FACES_PER_VOXEL, FACE_FILLED_NUM_BITS, GENERATE_MESH_VOXELS_PER_WORKGROUP, VERTEXES_PER_FACE,
    WGSL_FACES_STRIDE,
};
use crate::voxel::{size_ok, vec_len, UVec3};
use vstd::arithmetic::div_mod::lemma_fundamental_div_mod_converse;
use vstd::prelude::*;

verus! {

/// Face `i` is marked in the bitmask: bit `i % 30` of word `i / 30`.
pub open spec fn face_marked(mask: Seq<u32>, i: int) -> bool {
    mask[i / 30] & (1u32 << ((i % 30) as u32)) != 0
}

/// Number of words that a bitmask for `num_faces` faces has.
pub open spec fn mask_words(num_faces: int) -> int {
    (num_faces + 29) / 30
}

/// A bitmask as the kernel writes it for `num_faces` faces: one word for each
/// 30 faces, the two reserved bits of every word clear, and no face marked
/// past the last one.
pub open spec fn mask_wf(mask: Seq<u32>, num_faces: int) -> bool {
    &&& mask.len() == mask_words(num_faces)
    &&& forall|k: int| 0 <= k < mask.len() ==> #[trigger] mask[k] & 0xC000_0000u32 == 0
    &&& forall|i: int| num_faces <= i < 30 * mask.len() ==> !#[trigger] face_marked(mask, i)
}

/// The marked faces among the first `n`, in ascending order.
pub open spec fn filled_faces(mask: Seq<u32>, n: nat) -> Seq<int>
    decreases n,
{
    if n == 0 {
        seq![]
    } else {
        let prev = filled_faces(mask, (n - 1) as nat);
        if face_marked(mask, n - 1) {
            prev.push(n - 1)
        } else {
            prev
        }
    }
}

/// The six entries of `src` that belong to each marked face among the first
/// `n`, face after face.
pub open spec fn compact<T>(mask: Seq<u32>, src: Seq<T>, n: nat) -> Seq<T>
    decreases n,
{
    if n == 0 {
        seq![]
    } else {
        let prev = compact(mask, src, (n - 1) as nat);
        if face_marked(mask, n - 1) {
            prev + src.subrange(6 * (n - 1), 6 * (n - 1) + 6)
        } else {
            prev
        }
    }
}

/// Set bits of `w` among its lowest `j`.
pub open spec fn bit_count(w: u32, j: nat) -> nat
    decreases j,
{
    if j == 0 {
        0
    } else {
        bit_count(w, (j - 1) as nat) + if w & (1u32 << ((j - 1) as u32)) != 0 {
            1nat
        } else {
            0nat
        }
    }
}

/// Set bits in the first `k` words of a bitmask.
pub open spec fn mask_bits(mask: Seq<u32>, k: nat) -> nat
    decreases k,
{
    if k == 0 {
        0
    } else {
        mask_bits(mask, (k - 1) as nat) + bit_count(mask[k - 1], 32)
    }
}

/// Relies on `u32::count_ones`: the number of ones in the binary representation.
#[verifier::external_body]
fn count_ones(w: u32) -> (r: u32)
    ensures
        r == bit_count(w, 32),
{
    w.count_ones()
}

proof fn lemma_bit_count_bound(w: u32, j: nat)
    ensures
        bit_count(w, j) <= j,
    decreases j,
{
    if j > 0 {
        lemma_bit_count_bound(w, (j - 1) as nat);
    }
}

/// Counts the set bits of the whole bitmask: the number of faces present.
pub fn count_filled_faces(face_filled: &Vec<u32>) -> (r: usize)
    requires
        face_filled@.len() <= usize::MAX / 32,
    ensures
        r == mask_bits(face_filled@, face_filled@.len()),
{
    let mut num_faces: usize = 0;
    let mut k: usize = 0;
    while k < face_filled.len()
        invariant
            face_filled@.len() <= usize::MAX / 32,
            k <= face_filled@.len(),
            num_faces == mask_bits(face_filled@, k as nat),
            num_faces <= 32 * k,
        decreases face_filled@.len() - k,
    {
        proof {
            lemma_bit_count_bound(face_filled@[k as int], 32);
        }
        num_faces = num_faces + count_ones(face_filled[k]) as usize;
        k = k + 1;
    }
    num_faces
}

/// Position `30 * k + j` is bit `j` of word `k`.
proof fn lemma_face_position(mask: Seq<u32>, k: int, j: int)
    requires
        0 <= k,
        0 <= j < 30,
    ensures
        (30 * k + j) / 30 == k,
        (30 * k + j) % 30 == j,
        face_marked(mask, 30 * k + j) == (mask[k] & (1u32 << (j as u32)) != 0),
{
    lemma_fundamental_div_mod_converse(30 * k + j, 30, k, j);
}

proof fn lemma_word_faces(mask: Seq<u32>, k: nat, j: nat)
    requires
        j <= 30,
    ensures
        filled_faces(mask, 30 * k + j).len() == filled_faces(mask, 30 * k).len() + bit_count(
            mask[k as int],
            j,
        ),
    decreases j,
{
    if j > 0 {
        lemma_word_faces(mask, k, (j - 1) as nat);
        lemma_face_position(mask, k as int, j - 1);
        assert(30 * k + j == (30 * k + (j - 1)) + 1);
    }
}

proof fn lemma_reserved_bits(w: u32)
    requires
        w & 0xC000_0000u32 == 0,
    ensures
        bit_count(w, 32) == bit_count(w, 30),
{
    assert(w & (1u32 << 30u32) == 0 && w & (1u32 << 31u32) == 0) by (bit_vector)
        requires
            w & 0xC000_0000u32 == 0,
    ;
    assert(bit_count(w, 32) == bit_count(w, 31) + if w & (1u32 << 31u32) != 0 {
        1nat
    } else {
        0nat
    });
    assert(bit_count(w, 31) == bit_count(w, 30) + if w & (1u32 << 30u32) != 0 {
        1nat
    } else {
        0nat
    });
}

proof fn lemma_mask_faces(mask: Seq<u32>, k: nat)
    requires
        k <= mask.len(),
        forall|k2: int| 0 <= k2 < mask.len() ==> #[trigger] mask[k2] & 0xC000_0000u32 == 0,
    ensures
        filled_faces(mask, 30 * k).len() == mask_bits(mask, k),
    decreases k,
{
    if k > 0 {
        let k1 = (k - 1) as nat;
        lemma_mask_faces(mask, k1);
        lemma_word_faces(mask, k1, 30);
        lemma_reserved_bits(mask[k1 as int]);
        assert(30 * k1 + 30 == 30 * k);
    }
}

proof fn lemma_no_faces_past(mask: Seq<u32>, n: nat, m: nat)
    requires
        n <= m,
        forall|i: int| n <= i < m ==> !#[trigger] face_marked(mask, i),
    ensures
        filled_faces(mask, m) == filled_faces(mask, n),
    decreases m - n,
{
    if m > n {
        lemma_no_faces_past(mask, n, (m - 1) as nat);
    }
}

/// In a well-formed bitmask the set bits are exactly the marked faces.
pub proof fn lemma_mask_count(mask: Seq<u32>, num_faces: nat)
    requires
        mask_wf(mask, num_faces as int),
    ensures
        filled_faces(mask, num_faces).len() == mask_bits(mask, mask.len()),
{
    lemma_mask_faces(mask, mask.len());
    assert(num_faces <= 30 * mask.len()) by (nonlinear_arith)
        requires
            mask.len() == (num_faces + 29) / 30,
    ;
    lemma_no_faces_past(mask, num_faces, (30 * mask.len()) as nat);
}

/// Whether `face_filled` is a well-formed bitmask for `num_faces` faces.
pub fn check_face_mask(face_filled: &Vec<u32>, num_faces: usize) -> (r: bool)
    requires
        num_faces <= usize::MAX - 29,
    ensures
        r == mask_wf(face_filled@, num_faces as int),
{
    let words = (num_faces + 29) / 30;
    if face_filled.len() != words {
        return false;
    }
    assert(30 * words < num_faces + 30 && 30 * words <= usize::MAX) by (nonlinear_arith)
        requires
            words == (num_faces + 29) / 30,
            num_faces <= usize::MAX - 29,
    ;
    let mut k: usize = 0;
    while k < words
        invariant
            words == face_filled@.len(),
            k <= words,
            forall|k2: int| 0 <= k2 < k ==> #[trigger] face_filled@[k2] & 0xC000_0000u32 == 0,
        decreases words - k,
    {
        if face_filled[k] & 0xC000_0000u32 != 0 {
            return false;
        }
        k = k + 1;
    }
    let end = 30 * words;
    let mut i: usize = num_faces;
    while i < end
        invariant
            words == face_filled@.len(),
            end == 30 * words,
            num_faces <= i,
            forall|k2: int| 0 <= k2 < words ==> #[trigger] face_filled@[k2] & 0xC000_0000u32 == 0,
            forall|i2: int| num_faces <= i2 < i ==> !#[trigger] face_marked(face_filled@, i2),
        decreases end - i,
    {
        assert(i / 30 < words) by (nonlinear_arith)
            requires
                i < end,
                end == 30 * words,
        ;
        if face_filled[i / FACE_FILLED_NUM_BITS as usize] & (1u32 << ((i
            % FACE_FILLED_NUM_BITS as usize) as u32)) != 0 {
            assert(face_marked(face_filled@, i as int));
            return false;
        }
        i = i + 1;
    }
    true
}

/// Copies the six vertices and the six normals of every face that the bitmask
/// marks, in face order, into two compact lists.
pub fn extract_mesh<T: Copy>(
    face_filled: &Vec<u32>,
    vertexes: &Vec<T>,
    normals: &Vec<T>,
    num_voxels: usize,
) -> (r: (Vec<T>, Vec<T>))
    requires
        num_voxels <= usize::MAX / 36,
        mask_wf(face_filled@, 6 * num_voxels),
        vertexes@.len() == 36 * num_voxels,
        normals@.len() == 36 * num_voxels,
    ensures
        r.0@ == compact(face_filled@, vertexes@, (6 * num_voxels) as nat),
        r.1@ == compact(face_filled@, normals@, (6 * num_voxels) as nat),
        r.0@.len() == VERTEXES_PER_FACE * mask_bits(face_filled@, face_filled@.len()),
        r.1@.len() == VERTEXES_PER_FACE * mask_bits(face_filled@, face_filled@.len()),
{
    let num_faces = num_voxels * FACES_PER_VOXEL;
    proof {
        lemma_mask_count(face_filled@, num_faces as nat);
        lemma_compact_len(face_filled@, vertexes@, num_faces as nat);
        lemma_compact_len(face_filled@, normals@, num_faces as nat);
        assert(face_filled@.len() <= usize::MAX / 32);
    }
    let total = count_filled_faces(face_filled);
    proof {
        lemma_filled_faces_len(face_filled@, num_faces as nat);
    }
    let mut out_vertexes: Vec<T> = Vec::with_capacity(total * VERTEXES_PER_FACE);
    let mut out_normals: Vec<T> = Vec::with_capacity(total * VERTEXES_PER_FACE);
    let mut filled: usize = 0;
    let mut i: usize = 0;
    while i < num_faces
        invariant
            num_voxels <= usize::MAX / 36,
            num_faces == 6 * num_voxels,
            mask_wf(face_filled@, num_faces as int),
            vertexes@.len() == 36 * num_voxels,
            normals@.len() == 36 * num_voxels,
            i <= num_faces,
            out_vertexes@ == compact(face_filled@, vertexes@, i as nat),
            out_normals@ == compact(face_filled@, normals@, i as nat),
            filled == filled_faces(face_filled@, i as nat).len(),
            filled <= i,
        decreases num_faces - i,
    {
        assert(i / 30 < face_filled@.len()) by (nonlinear_arith)
            requires
                i < num_faces,
                face_filled@.len() == (num_faces + 29) / 30,
        ;
        let word = face_filled[i / FACE_FILLED_NUM_BITS as usize];
        if word & (1u32 << ((i % FACE_FILLED_NUM_BITS as usize) as u32)) != 0 {
            let base = i * VERTEXES_PER_FACE;
            let mut j: usize = 0;
            while j < VERTEXES_PER_FACE
                invariant
                    i < num_faces,
                    num_faces == 6 * num_voxels,
                    num_voxels <= usize::MAX / 36,
                    base == 6 * i,
                    vertexes@.len() == 36 * num_voxels,
                    normals@.len() == 36 * num_voxels,
                    j <= 6,
                    out_vertexes@ == compact(face_filled@, vertexes@, i as nat) + vertexes@.subrange(
                        base as int,
                        base + j,
                    ),
                    out_normals@ == compact(face_filled@, normals@, i as nat) + normals@.subrange(
                        base as int,
                        base + j,
                    ),
                decreases 6 - j,
            {
                out_vertexes.push(vertexes[base + j]);
                out_normals.push(normals[base + j]);
                proof {
                    assert(vertexes@.subrange(base as int, base + j + 1) =~= vertexes@.subrange(
                        base as int,
                        base + j,
                    ).push(vertexes@[base + j]));
                    assert(normals@.subrange(base as int, base + j + 1) =~= normals@.subrange(
                        base as int,
                        base + j,
                    ).push(normals@[base + j]));
                }
                j = j + 1;
            }
            filled = filled + 1;
        }
        i = i + 1;
    }
    assert(filled == total);
    (out_vertexes, out_normals)
}

proof fn lemma_filled_faces_len(mask: Seq<u32>, n: nat)
    ensures
        filled_faces(mask, n).len() <= n,
    decreases n,
{
    if n > 0 {
        lemma_filled_faces_len(mask, (n - 1) as nat);
    }
}

/// The compact list holds six entries for each marked face.
pub proof fn lemma_compact_len<T>(mask: Seq<u32>, src: Seq<T>, n: nat)
    requires
        src.len() >= 6 * n,
    ensures
        compact(mask, src, n).len() == 6 * filled_faces(mask, n).len(),
    decreases n,
{
    if n > 0 {
        lemma_compact_len(mask, src, (n - 1) as nat);
    }
}

/// The compact list is laid out face after face: for the `k`-th marked face
/// `f`, entries `6k .. 6k + 6` are the source entries `6f .. 6f + 6`. The
/// marked faces come in strictly ascending order, each below `n`, and every
/// marked face below `n` is among them.
pub proof fn lemma_compact_layout<T>(mask: Seq<u32>, src: Seq<T>, n: nat)
    requires
        src.len() >= 6 * n,
    ensures
        compact(mask, src, n).len() == 6 * filled_faces(mask, n).len(),
        forall|k: int|
            0 <= k < filled_faces(mask, n).len() ==> compact(mask, src, n).subrange(
                6 * k,
                6 * k + 6,
            ) == src.subrange(
                6 * #[trigger] filled_faces(mask, n)[k],
                6 * filled_faces(mask, n)[k] + 6,
            ),
        forall|k1: int, k2: int|
            0 <= k1 < k2 < filled_faces(mask, n).len() ==> #[trigger] filled_faces(mask, n)[k1]
                < #[trigger] filled_faces(mask, n)[k2],
        forall|k: int|
            0 <= k < filled_faces(mask, n).len() ==> 0 <= #[trigger] filled_faces(mask, n)[k] < n
                && face_marked(mask, filled_faces(mask, n)[k]),
        forall|i: int|
            0 <= i < n && #[trigger] face_marked(mask, i) ==> filled_faces(mask, n).contains(i),
    decreases n,
{
    lemma_compact_len(mask, src, n);
    if n > 0 {
        let n1 = (n - 1) as nat;
        lemma_compact_layout(mask, src, n1);
        lemma_compact_len(mask, src, n1);
        let prev = compact(mask, src, n1);
        let faces = filled_faces(mask, n1);
        if face_marked(mask, n1 as int) {
            let cur = compact(mask, src, n);
            let fs = filled_faces(mask, n);
            let tail = src.subrange(6 * n1 as int, 6 * n1 as int + 6);
            assert(fs == faces.push(n1 as int));
            assert(cur == prev + tail);
            assert forall|k: int| 0 <= k < fs.len() implies cur.subrange(6 * k, 6 * k + 6)
                == src.subrange(6 * #[trigger] fs[k], 6 * fs[k] + 6) by {
                if k < faces.len() {
                    assert(fs[k] == faces[k]);
                    assert(cur.subrange(6 * k, 6 * k + 6) =~= prev.subrange(6 * k, 6 * k + 6));
                } else {
                    assert(cur.subrange(6 * k, 6 * k + 6) =~= tail);
                }
            }
            assert forall|i: int| 0 <= i < n && #[trigger] face_marked(mask, i) implies fs.contains(
                i,
            ) by {
                if i < n1 {
                    let w = choose|w: int| 0 <= w < faces.len() && faces[w] == i;
                    assert(fs[w] == i);
                } else {
                    assert(fs[faces.len() as int] == i);
                }
            }
        }
    }
}

/// Offsets and sizes, in bytes, of the mesh kernel's storage buffer: vertices,
/// then normals, then the face-filled bitmask.
#[derive(Debug, Clone, Copy, PartialEq, Eq, Structural)]
pub struct MeshBufferLayout {
    /// Voxels of the grid, padding excluded
    pub num_voxels: u64,
    /// Start of the normals
    pub normals_offset: u64,
    /// Start of the face-filled bitmask
    pub face_filled_offset: u64,
    /// Size of the whole buffer
    pub buffer_size: u64,
}

/// Voxels of a grid of `size`, padding excluded.
pub open spec fn voxel_count(size: UVec3) -> int {
    size.x * size.y * size.z
}

/// The storage layout for a grid with `num_voxels` voxels.
pub open spec fn layout_for(num_voxels: int) -> MeshBufferLayout {
    let normals_offset = num_voxels * WGSL_FACES_STRIDE;
    let face_filled_offset = 2 * normals_offset;
    MeshBufferLayout {
        num_voxels: num_voxels as u64,
        normals_offset: normals_offset as u64,
        face_filled_offset: face_filled_offset as u64,
        buffer_size: (face_filled_offset + 4 * mask_words(6 * num_voxels)) as u64,
    }
}

/// The layout of the mesh kernel's storage buffer for a grid of `size`.
pub fn mesh_buffer_layout(size: UVec3) -> (r: MeshBufferLayout)
    requires
        size_ok(size),
    ensures
        r == layout_for(voxel_count(size)),
        r.num_voxels == voxel_count(size),
        r.normals_offset == voxel_count(size) * WGSL_FACES_STRIDE,
        r.face_filled_offset == 2 * voxel_count(size) * WGSL_FACES_STRIDE,
        r.buffer_size == r.face_filled_offset + 4 * mask_words(6 * voxel_count(size)),
{
    let (x, y, z) = (size.x as u64, size.y as u64, size.z as u64);
    assert(x * y * z <= vec_len(size) && vec_len(size) < 0x2000_0000) by (nonlinear_arith)
        requires
            x == size.x,
            y == size.y,
            z == size.z,
            vec_len(size) == (x + 2) * (y + 2) * (z + 2),
            4 * vec_len(size) < 0x8000_0000,
    ;
    let num_voxels: u64 = if x == 0 || y == 0 || z == 0 {
        assert(x * y * z == 0) by (nonlinear_arith)
            requires
                x == 0 || y == 0 || z == 0,
        ;
        0
    } else {
        assert(x * y <= x * y * z) by (nonlinear_arith)
            requires
                z >= 1,
                x >= 0,
                y >= 0,
        ;
        x * y * z
    };
    assert(num_voxels == x * y * z && num_voxels < 0x2000_0000);
    assert(WGSL_FACES_STRIDE == 576);
    let normals_offset = num_voxels * WGSL_FACES_STRIDE as u64;
    let face_filled_offset = 2 * normals_offset;
    let num_faces = num_voxels * FACES_PER_VOXEL as u64;
    let buffer_size = face_filled_offset + (num_faces + FACE_FILLED_NUM_BITS as u64 - 1)
        / FACE_FILLED_NUM_BITS as u64 * 4;
    MeshBufferLayout { num_voxels, normals_offset, face_filled_offset, buffer_size }
}

/// Work groups for the mesh kernel: every voxel covered, rounded up to whole groups.
pub fn mesh_workgroups(num_voxels: u64) -> (r: u32)
    requires
        num_voxels < 0x2000_0000,
    ensures
        r == (num_voxels + GENERATE_MESH_VOXELS_PER_WORKGROUP - 1)
            / GENERATE_MESH_VOXELS_PER_WORKGROUP as int,
{
    ((num_voxels as u32 + GENERATE_MESH_VOXELS_PER_WORKGROUP - 1)
        / GENERATE_MESH_VOXELS_PER_WORKGROUP)
}

} // verus!
