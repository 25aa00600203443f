//! Constants and types shared with the shaders. The shaders change over time
//! in incompatible ways, and so do the contents of this module.
use crate::voxel::{IVec3, UVec3};
use vstd::prelude::*;

verus! {

pub const WGSL_ARGS_BINDING: u32 = 0;

pub const WGSL_VOXEL_GRID_A_BINDING: u32 = 1;

pub const WGSL_VOXEL_GRID_B_BINDING: u32 = 2;

pub const WGSL_VOXEL_GRID_OUT_BINDING: u32 = 3;

pub const WGSL_FACE_FILLED_BINDING: u32 = 4;

pub const WGSL_MESH_BINDING: u32 = 5;

pub const WGSL_MESH_NORMALS_BINDING: u32 = 6;

/// Bytes of one `vec3<f32>` in a storage buffer: WGSL pads it to a `vec4`.
pub const WGSL_VEC3_STRIDE: usize = 16;

pub const VERTEXES_PER_FACE: usize = 6;

pub const FACES_PER_VOXEL: usize = 6;

pub const WGSL_FACE_STRIDE: usize = WGSL_VEC3_STRIDE * VERTEXES_PER_FACE;

pub const WGSL_FACES_STRIDE: usize = WGSL_FACE_STRIDE * FACES_PER_VOXEL;

/// Usable bits of each word of the face-filled bitmask; the top two stay zero.
pub const FACE_FILLED_NUM_BITS: u32 = 30;

pub const GENERATE_MESH_WORKGROUP_SIZE: u32 = 64;

pub const GENERATE_MESH_VOXELS_PER_INVOCATION: u32 = 5;

pub const GENERATE_MESH_VOXELS_PER_WORKGROUP: u32 = GENERATE_MESH_VOXELS_PER_INVOCATION
    * GENERATE_MESH_WORKGROUP_SIZE;

pub const PASTE_CUBE_VOXELS_PER_WORKGROUP: u32 = 64;

pub const PASTE_SPHERE_VOXELS_PER_WORKGROUP: u32 = 64;

/// Number of 32-bit words in the shaders' argument block.
pub const SHADER_ARGS_WORDS: usize = 24;

/// The shaders' uniform argument block, word for word as WGSL lays it out:
/// each `vec3` is followed by a padding word.
#[derive(Debug, Clone, Copy, PartialEq, Eq, Structural, Hash, Default)]
pub struct ShaderArgs {
    pub a_size: UVec3,
    pub _0: u32,
    pub b_size: UVec3,
    pub _1: u32,
    pub out_size: UVec3,
    pub _2: u32,
    pub offset: IVec3,
    pub _3: u32,
    pub size: UVec3,
    pub flags: u32,
    pub material: u32,
    pub diameter: u32,
    pub _4: u32,
    pub _5: u32,
}

/// Words of an argument block, in buffer order; the offset's components are
/// stored as their two's complement bits.
pub open spec fn args_words(a: ShaderArgs) -> Seq<u32> {
    seq![
        a.a_size.x,
        a.a_size.y,
        a.a_size.z,
        a._0,
        a.b_size.x,
        a.b_size.y,
        a.b_size.z,
        a._1,
        a.out_size.x,
        a.out_size.y,
        a.out_size.z,
        a._2,
        a.offset.x as u32,
        a.offset.y as u32,
        a.offset.z as u32,
        a._3,
        a.size.x,
        a.size.y,
        a.size.z,
        a.flags,
        a.material,
        a.diameter,
        a._4,
        a._5,
    ]
}

/// The argument block with every field zero.
pub open spec fn zero_args() -> ShaderArgs {
    let z = UVec3 { x: 0, y: 0, z: 0 };
    ShaderArgs {
        a_size: z,
        _0: 0,
        b_size: z,
        _1: 0,
        out_size: z,
        _2: 0,
        offset: IVec3 { x: 0, y: 0, z: 0 },
        _3: 0,
        size: z,
        flags: 0,
        material: 0,
        diameter: 0,
        _4: 0,
        _5: 0,
    }
}

impl ShaderArgs {
    /// An argument block with every field zero.
    pub fn zeroed() -> (r: ShaderArgs)
        ensures
            r == zero_args(),
            args_words(r) == Seq::new(SHADER_ARGS_WORDS as nat, |i: int| 0u32),
    {
        let z = UVec3 { x: 0, y: 0, z: 0 };
        let r = ShaderArgs {
            a_size: z,
            _0: 0,
            b_size: z,
            _1: 0,
            out_size: z,
            _2: 0,
            offset: IVec3 { x: 0, y: 0, z: 0 },
            _3: 0,
            size: z,
            flags: 0,
            material: 0,
            diameter: 0,
            _4: 0,
            _5: 0,
        };
        assert(args_words(r) =~= Seq::new(SHADER_ARGS_WORDS as nat, |i: int| 0u32));
        r
    }

    /// The block as the words that the uniform buffer holds.
    pub fn to_words(&self) -> (r: Vec<u32>)
        ensures
            r@ == args_words(*self),
    {
        let a = *self;
        let r = vec![
            a.a_size.x,
            a.a_size.y,
            a.a_size.z,
            a._0,
            a.b_size.x,
            a.b_size.y,
            a.b_size.z,
            a._1,
            a.out_size.x,
            a.out_size.y,
            a.out_size.z,
            a._2,
            a.offset.x as u32,
            a.offset.y as u32,
            a.offset.z as u32,
            a._3,
            a.size.x,
            a.size.y,
            a.size.z,
            a.flags,
            a.material,
            a.diameter,
            a._4,
            a._5,
        ];
        assert(r@ =~= args_words(a));
        r
    }
}

} // verus!
