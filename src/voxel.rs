use vstd::arithmetic::div_mod::lemma_fundamental_div_mod_converse;
use vstd::prelude::*;

verus! {

/// An unsigned 3D vector: a grid size or an unsigned position.
#[derive(Clone, Copy, Debug, PartialEq, Eq, Structural, Hash, Default)]
pub struct UVec3 {
    pub x: u32,
    pub y: u32,
    pub z: u32,
}

impl UVec3 {
    pub fn new(x: u32, y: u32, z: u32) -> (r: UVec3)
        ensures
            r == (UVec3 { x, y, z }),
    {
        UVec3 { x, y, z }
    }
}

/// A signed 3D vector: an offset into a grid.
#[derive(Clone, Copy, Debug, PartialEq, Eq, Structural, Hash, Default)]
pub struct IVec3 {
    pub x: i32,
    pub y: i32,
    pub z: i32,
}

impl IVec3 {
    pub fn new(x: i32, y: i32, z: i32) -> (r: IVec3)
        ensures
            r == (IVec3 { x, y, z }),
    {
        IVec3 { x, y, z }
    }
}

/// Number of voxel words in a grid of `size`, padding included.
pub open spec fn vec_len(size: UVec3) -> int {
    (size.x + 2) * (size.y + 2) * (size.z + 2)
}

/// The largest grids that the GPU side can address: every padded extent and the
/// byte length of the whole buffer stay below `i32::MAX`.
pub open spec fn size_ok(size: UVec3) -> bool {
    &&& size.x < i32::MAX - 2
    &&& size.y < i32::MAX - 2
    &&& size.z < i32::MAX - 2
    &&& 4 * vec_len(size) < i32::MAX
}

/// Index of the voxel at `(x, y, z)`; `-1` and `size.<c>` name the padding layers.
pub open spec fn index_of(size: UVec3, x: int, y: int, z: int) -> int {
    (x + 1) + (y + 1) * (size.x + 2) + (z + 1) * ((size.x + 2) * (size.y + 2))
}

/// `(x, y, z)` lies in the padded range `[-1, size]` on every axis.
pub open spec fn in_padded(size: UVec3, x: int, y: int, z: int) -> bool {
    &&& -1 <= x <= size.x
    &&& -1 <= y <= size.y
    &&& -1 <= z <= size.z
}

/// `(x, y, z)` is a voxel of the grid proper, not padding.
pub open spec fn in_interior(size: UVec3, x: int, y: int, z: int) -> bool {
    &&& 0 <= x < size.x
    &&& 0 <= y < size.y
    &&& 0 <= z < size.z
}

/// The coordinates whose index is `i`.
pub open spec fn coords_of(size: UVec3, i: int) -> (int, int, int) {
    let w = size.x + 2;
    let h = size.y + 2;
    (i % w - 1, (i / w) % h - 1, (i / w) / h - 1)
}

/// Index `i` holds a voxel of the grid proper.
pub open spec fn interior_index(size: UVec3, i: int) -> bool {
    let (x, y, z) = coords_of(size, i);
    in_interior(size, x, y, z)
}

/// Voxel word with all corner offsets zero and material `m`.
pub open spec fn material_word(m: u8) -> u32 {
    (m as u32) << 24u32
}

/// Material byte of a voxel word; 0 means empty.
pub open spec fn material_of(w: u32) -> u8 {
    (w >> 24u32) as u8
}

/// Contents of a grid of `size` whose every voxel holds material `m`, with empty padding.
pub open spec fn uniform_grid_data(size: UVec3, m: u8) -> Seq<u32> {
    Seq::new(
        vec_len(size) as nat,
        |i: int|
            if interior_index(size, i) {
                material_word(m)
            } else {
                0u32
            },
    )
}

/// The index of every padded coordinate lies in the vector, and the
/// coordinates can be read back from it.
pub proof fn lemma_coords_of_index(size: UVec3, x: int, y: int, z: int)
    requires
        in_padded(size, x, y, z),
    ensures
        0 <= index_of(size, x, y, z) < vec_len(size),
        coords_of(size, index_of(size, x, y, z)) == (x, y, z),
{
    let w = size.x + 2;
    let h = size.y + 2;
    let d = size.z + 2;
    let (a, b, c) = (x + 1, y + 1, z + 1);
    let i = index_of(size, x, y, z);
    let q = b + c * h;
    assert(i == q * w + a) by (nonlinear_arith)
        requires
            i == a + b * w + c * (w * h),
            q == b + c * h,
    ;
    lemma_fundamental_div_mod_converse(i, w, q, a);
    lemma_fundamental_div_mod_converse(q, h, c, b);
    assert(0 <= i < vec_len(size)) by (nonlinear_arith)
        requires
            i == q * w + a,
            q == b + c * h,
            0 <= a < w,
            0 <= b < h,
            0 <= c < d,
            vec_len(size) == w * h * d,
    ;
}

/// Every index of the vector is the index of exactly the padded coordinates
/// that `coords_of` gives.
pub proof fn lemma_index_of_coords(size: UVec3, i: int)
    requires
        0 <= i < vec_len(size),
    ensures
        in_padded(size, coords_of(size, i).0, coords_of(size, i).1, coords_of(size, i).2),
        index_of(size, coords_of(size, i).0, coords_of(size, i).1, coords_of(size, i).2) == i,
{
    let w = size.x + 2;
    let h = size.y + 2;
    let d = size.z + 2;
    let a = i % w;
    let q = i / w;
    let b = q % h;
    let c = q / h;
    assert(i == w * q + a && 0 <= a < w) by (nonlinear_arith)
        requires
            w > 0,
            a == i % w,
            q == i / w,
    ;
    assert(q == h * c + b && 0 <= b < h) by (nonlinear_arith)
        requires
            h > 0,
            b == q % h,
            c == q / h,
    ;
    assert(0 <= c < d) by (nonlinear_arith)
        requires
            i == w * q + a,
            q == h * c + b,
            0 <= a < w,
            0 <= b < h,
            0 <= i < w * h * d,
            w > 0,
            h > 0,
    ;
    assert(i == a + b * w + c * (w * h)) by (nonlinear_arith)
        requires
            i == w * q + a,
            q == h * c + b,
    ;
}

/// The index function is a bijection from the padded coordinates onto the
/// positions of the vector, and the last padding corner is its last position.
pub proof fn lemma_index_bijective(
    size: UVec3,
    x1: int,
    y1: int,
    z1: int,
    x2: int,
    y2: int,
    z2: int,
    i: int,
)
    requires
        in_padded(size, x1, y1, z1),
        in_padded(size, x2, y2, z2),
    ensures
        0 <= index_of(size, x1, y1, z1) < vec_len(size),
        index_of(size, x1, y1, z1) == index_of(size, x2, y2, z2) ==> (x1 == x2 && y1 == y2 && z1
            == z2),
        0 <= i < vec_len(size) ==> exists|x: int, y: int, z: int|
            in_padded(size, x, y, z) && index_of(size, x, y, z) == i,
        index_of(size, size.x as int, size.y as int, size.z as int) == vec_len(size) - 1,
{
    lemma_coords_of_index(size, x1, y1, z1);
    lemma_coords_of_index(size, x2, y2, z2);
    if 0 <= i < vec_len(size) {
        lemma_index_of_coords(size, i);
        let (x, y, z) = coords_of(size, i);
        assert(in_padded(size, x, y, z) && index_of(size, x, y, z) == i);
    }
    let (w, h, d) = (size.x + 2, size.y + 2, size.z + 2);
    assert(index_of(size, size.x as int, size.y as int, size.z as int) == vec_len(size) - 1)
        by (nonlinear_arith)
        requires
            w == size.x + 2,
            h == size.y + 2,
            d == size.z + 2,
            vec_len(size) == w * h * d,
            index_of(size, size.x as int, size.y as int, size.z as int) == (w - 1) + (h - 1) * w
                + (d - 1) * (w * h),
    ;
}

/// Grid sizes past the limit of `size_ok` give `None`; others give the vector
/// length and the byte length of the grid, padding included.
pub fn check_grid_size(size: UVec3) -> (r: Option<(usize, usize)>)
    ensures
        r.is_some() <==> size_ok(size),
        r matches Some((v, b)) ==> v == vec_len(size) && b == 4 * vec_len(size),
{
    let limit: u32 = (i32::MAX - 2) as u32;
    if size.x >= limit || size.y >= limit || size.z >= limit {
        return None;
    }
    let w = size.x as u64 + 2;
    let h = size.y as u64 + 2;
    let d = size.z as u64 + 2;
    assert(w * h < 0x4000_0000_0000_0000) by (nonlinear_arith)
        requires
            w < 0x8000_0000,
            h < 0x8000_0000,
    ;
    let wh = w * h;
    if wh >= i32::MAX as u64 {
        assert(4 * vec_len(size) >= i32::MAX) by (nonlinear_arith)
            requires
                wh >= i32::MAX,
                d >= 2,
                vec_len(size) == wh * d,
        ;
        return None;
    }
    assert(wh * d < 0x4000_0000_0000_0000) by (nonlinear_arith)
        requires
            wh < 0x8000_0000,
            d < 0x8000_0000,
    ;
    let vec_size = wh * d;
    let buf_size = vec_size * 4;
    if buf_size >= i32::MAX as u64 {
        return None;
    }
    Some((vec_size as usize, buf_size as usize))
}

/// Length of the data vector of a grid of `size`, padding included.
pub fn get_vec_size(size: UVec3) -> (r: usize)
    requires
        size_ok(size),
    ensures
        r == vec_len(size),
{
    match check_grid_size(size) {
        Some((v, _)) => v,
        None => 0,
    }
}

/// Byte length of the GPU buffer of a grid of `size`, padding included.
pub fn get_buf_size(size: UVec3) -> (r: usize)
    requires
        size_ok(size),
    ensures
        r == 4 * vec_len(size),
{
    match check_grid_size(size) {
        Some((_, b)) => b,
        None => 0,
    }
}

/// Index of voxel `(x, y, z)`; `0,0,0` is the first voxel past the padding and
/// `size.<c>` is the trailing padding of axis `c`.
pub fn voxel_index(size: UVec3, x: u32, y: u32, z: u32) -> (r: usize)
    requires
        size_ok(size),
        x <= size.x,
        y <= size.y,
        z <= size.z,
    ensures
        r == index_of(size, x as int, y as int, z as int),
        r < vec_len(size),
{
    proof {
        lemma_coords_of_index(size, x as int, y as int, z as int);
    }
    index_in_range(size, x as u64 + 1, y as u64 + 1, z as u64 + 1)
}

/// Index of voxel `(x, y, z)`; `-1` is the leading padding of an axis and
/// `size.<c>` its trailing padding.
pub fn voxel_index_i32(size: UVec3, x: i32, y: i32, z: i32) -> (r: usize)
    requires
        size_ok(size),
        in_padded(size, x as int, y as int, z as int),
    ensures
        r == index_of(size, x as int, y as int, z as int),
        r < vec_len(size),
{
    proof {
        lemma_coords_of_index(size, x as int, y as int, z as int);
    }
    index_in_range(size, (x + 1) as u64, (y + 1) as u64, (z + 1) as u64)
}

/// Index from coordinates shifted past the leading padding.
fn index_in_range(size: UVec3, a: u64, b: u64, c: u64) -> (r: usize)
    requires
        size_ok(size),
        a <= size.x + 1,
        b <= size.y + 1,
        c <= size.z + 1,
        index_of(size, a - 1, b - 1, c - 1) < vec_len(size),
    ensures
        r == index_of(size, a - 1, b - 1, c - 1),
{
    let w = size.x as u64 + 2;
    let h = size.y as u64 + 2;
    assert(b * w + c * (w * h) <= index_of(size, a - 1, b - 1, c - 1)
        && w * h < 0x4000_0000_0000_0000) by (nonlinear_arith)
        requires
            0 < w < 0x8000_0000,
            0 < h < 0x8000_0000,
            a >= 0,
            b >= 0,
            c >= 0,
            index_of(size, a - 1, b - 1, c - 1) == a + b * w + c * (w * h),
    ;
    (a + b * w + c * (w * h)) as usize
}

/// Material byte of a voxel word.
pub fn voxel_material(w: u32) -> (r: u8)
    ensures
        r == material_of(w),
{
    (w >> 24u32) as u8
}

/// Voxel word from the corner offsets (in 1/64 of the voxel spacing) and the material.
pub open spec fn pack_voxel(ox: i8, oy: i8, oz: i8, m: u8) -> u32 {
    (ox as u8 as u32) | ((oy as u8 as u32) << 8u32) | ((oz as u8 as u32) << 16u32) | ((m as u32)
        << 24u32)
}

/// Corner offset byte `axis` (0 for x, 1 for y, 2 for z) of a voxel word, as
/// the GPU reads it: the encoding -128 counts as -127, so that the range is symmetric.
pub open spec fn offset_of(w: u32, axis: u32) -> i8 {
    let b = ((w >> (8 * axis)) & 0xff) as u8 as i8;
    if b == -128i8 {
        -127i8
    } else {
        b
    }
}

/// Packs corner offsets and a material into a voxel word.
pub fn voxel_word(ox: i8, oy: i8, oz: i8, material: u8) -> (r: u32)
    ensures
        r == pack_voxel(ox, oy, oz, material),
{
    (ox as u8 as u32) | ((oy as u8 as u32) << 8u32) | ((oz as u8 as u32) << 16u32) | ((
    material as u32) << 24u32)
}

/// Corner offset of a voxel word along `axis` (0 for x, 1 for y, 2 for z).
pub fn voxel_offset(w: u32, axis: u32) -> (r: i8)
    requires
        axis < 3,
    ensures
        r == offset_of(w, axis),
{
    let b = ((w >> (8 * axis)) & 0xff) as u8 as i8;
    if b == -128 {
        -127
    } else {
        b
    }
}

/// Packing and unpacking agree: each offset and the material come back as
/// given, but for the offset -128, which reads as -127.
pub proof fn lemma_pack_unpack(ox: i8, oy: i8, oz: i8, m: u8)
    ensures
        material_of(pack_voxel(ox, oy, oz, m)) == m,
        offset_of(pack_voxel(ox, oy, oz, m), 0) == (if ox == -128i8 { -127i8 } else { ox }),
        offset_of(pack_voxel(ox, oy, oz, m), 1) == (if oy == -128i8 { -127i8 } else { oy }),
        offset_of(pack_voxel(ox, oy, oz, m), 2) == (if oz == -128i8 { -127i8 } else { oz }),
{
    let (bx, by, bz) = (#[verifier::truncate] (ox as u8), #[verifier::truncate] (oy as u8),
    #[verifier::truncate] (oz as u8));
    assert(bx as u32 as u8 as i8 == ox && by as u32 as u8 as i8 == oy && bz as u32 as u8 as i8
        == oz) by (bit_vector)
        requires
            bx == #[verifier::truncate] (ox as u8),
            by == #[verifier::truncate] (oy as u8),
            bz == #[verifier::truncate] (oz as u8),
    ;
    let w = pack_voxel(ox, oy, oz, m);
    assert(w == (bx as u32) | ((by as u32) << 8u32) | ((bz as u32) << 16u32) | ((m as u32)
        << 24u32));
    assert(((w >> 24u32) as u8) == m && ((w >> 0u32) & 0xff) == bx as u32 && ((w >> 8u32) & 0xff)
        == by as u32 && ((w >> 16u32) & 0xff) == bz as u32) by (bit_vector)
        requires
            w == (bx as u32) | ((by as u32) << 8u32) | ((bz as u32) << 16u32) | ((m as u32)
                << 24u32),
    ;
}

/// Voxels stored in a `Vec`, padding included; see `index_of` for the layout.
///
/// Each voxel is a word: bytes 0 to 2 are the signed corner offsets along x,
/// y and z in 1/64 of the voxel spacing, byte 3 is the material, 0 for empty.
/// The padding's material excludes the faces at the edges of the grid; the
/// offsets of the trailing padding complete the bounds of the last voxels.
#[derive(Debug, Clone, PartialEq, Eq, Hash)]
pub struct VoxelGridVec {
    /// Size of the voxel grid, excluding padding
    pub size: UVec3,
    /// Voxel data, including padding
    pub data: Vec<u32>,
}

impl VoxelGridVec {
    /// The data holds exactly one word per padded voxel of a valid size.
    pub open spec fn wf(&self) -> bool {
        size_ok(self.size) && self.data@.len() == vec_len(self.size)
    }

    /// A grid of `size` whose every voxel holds `material` with zero offsets;
    /// the padding is empty.
    pub fn new(size: UVec3, material: u8) -> (r: VoxelGridVec)
        requires
            size_ok(size),
        ensures
            r.wf(),
            r.size == size,
            r.data@ == uniform_grid_data(size, material),
    {
        let n = get_vec_size(size);
        let word = voxel_word(0, 0, 0, material);
        assert(word == material_word(material)) by (bit_vector)
            requires
                word == (0i8 as u8 as u32) | ((0i8 as u8 as u32) << 8u32) | ((0i8 as u8 as u32)
                    << 16u32) | ((material as u32) << 24u32),
        ;
        let w = size.x as usize + 2;
        let h = size.y as usize + 2;
        let mut data: Vec<u32> = Vec::new();
        let mut i: usize = 0;
        while i < n
            invariant
                n == vec_len(size),
                w == size.x + 2,
                h == size.y + 2,
                word == material_word(material),
                i <= n,
                data@.len() == i,
                forall|j: int| 0 <= j < i ==> data@[j] == uniform_grid_data(size, material)[j],
            decreases n - i,
        {
            let a = i % w;
            let q = i / w;
            let b = q % h;
            let c = q / h;
            let inside = 1 <= a && a <= size.x as usize && 1 <= b && b <= size.y as usize && 1 <= c
                && c <= size.z as usize;
            assert(inside == interior_index(size, i as int));
            if inside {
                data.push(word);
            } else {
                data.push(0);
            }
            i = i + 1;
        }
        assert(data@ =~= uniform_grid_data(size, material));
        VoxelGridVec { size, data }
    }
}

/// A grid built with one non-zero material reads back that material at every
/// voxel of the grid proper and no material in the padding.
pub proof fn lemma_uniform_round_trip(size: UVec3, m: u8, x: int, y: int, z: int)
    requires
        size_ok(size),
        m != 0,
        in_padded(size, x, y, z),
    ensures
        0 <= index_of(size, x, y, z) < uniform_grid_data(size, m).len(),
        material_of(uniform_grid_data(size, m)[index_of(size, x, y, z)]) == (if in_interior(
            size,
            x,
            y,
            z,
        ) {
            m
        } else {
            0u8
        }),
{
    lemma_coords_of_index(size, x, y, z);
    assert(material_of(material_word(m)) == m) by (bit_vector);
    assert(material_of(0u32) == 0u8) by (bit_vector);
}

} // verus!
