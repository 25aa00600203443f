//! What each command asks of the GPU, decided from plain parameters: the
//! kernel it runs, the argument block it binds, and how many work groups it
//! dispatches.
use crate::unstable::{
    zero_args, ShaderArgs, PASTE_CUBE_VOXELS_PER_WORKGROUP, PASTE_SPHERE_VOXELS_PER_WORKGROUP,
};
use crate::voxel::{IVec3, UVec3};
use vstd::prelude::*;

verus! {

pub const GENERATE_MESH_ENTRY_POINT: &'static str = "generate_mesh";

pub const PASTE_CUBE_ENTRY_POINT: &'static str = "paste_cube";

pub const PASTE_SPHERE_ENTRY_POINT: &'static str = "paste_sphere";

/// Paste the material argument. Acts as `PASTE_MATERIAL_ARG_FLAG` does.
pub const PASTE_MATERIAL_FLAG: u32 = 1;

/// Paste the material argument. Acts as `PASTE_MATERIAL_FLAG` does.
pub const PASTE_MATERIAL_ARG_FLAG: u32 = 2;

/// Compute the corner offsets too; without it only the material changes.
pub const PASTE_VERTEXES_FLAG: u32 = 4;

/// Paste both material and corner offsets.
pub const PASTE: u32 = PASTE_MATERIAL_FLAG | PASTE_VERTEXES_FLAG;

/// Type of geometry operation to perform.
#[derive(Debug, Clone, Copy, PartialEq, Eq, Structural)]
pub enum GeometryOp {
    PasteCube {
        /// Size of cube
        size: UVec3,
        /// Offset of the cube's coordinates
        offset: IVec3,
        /// Any of the `PASTE_*` flags
        flags: u32,
        /// Material to paste
        material: u32,
    },
    PasteSphere {
        /// Diameter of sphere
        diameter: u32,
        /// Offset of the sphere's coordinates
        offset: IVec3,
        /// Any of the `PASTE_*` flags
        flags: u32,
        /// Material to paste
        material: u32,
    },
}

/// Grid positions that the kernel of `op` visits: one past the shape on each axis.
pub open spec fn paste_volume(op: GeometryOp) -> int {
    match op {
        GeometryOp::PasteCube { size, .. } => (size.x + 1) * (size.y + 1) * (size.z + 1),
        GeometryOp::PasteSphere { diameter, .. } => (diameter + 1) * (diameter + 1) * (diameter
            + 1),
    }
}

/// Voxels that one work group of the kernel of `op` covers.
pub open spec fn paste_group(op: GeometryOp) -> int {
    match op {
        GeometryOp::PasteCube { .. } => PASTE_CUBE_VOXELS_PER_WORKGROUP as int,
        GeometryOp::PasteSphere { .. } => PASTE_SPHERE_VOXELS_PER_WORKGROUP as int,
    }
}

/// The argument block that `op` binds when it edits a grid of `out_size`.
pub open spec fn paste_args(op: GeometryOp, out_size: UVec3) -> ShaderArgs {
    let base = ShaderArgs { out_size, ..zero_args() };
    match op {
        GeometryOp::PasteCube { size, offset, flags, material } => ShaderArgs {
            size,
            offset,
            flags,
            material,
            ..base
        },
        GeometryOp::PasteSphere { diameter, offset, flags, material } => ShaderArgs {
            diameter,
            offset,
            flags,
            material,
            ..base
        },
    }
}

/// The argument block of the mesh kernel for a grid of `grid_size`.
pub open spec fn mesh_args_spec(grid_size: UVec3) -> ShaderArgs {
    ShaderArgs { a_size: grid_size, ..zero_args() }
}

/// The mesh kernel's argument block: the source grid's size, every other word zero.
pub fn mesh_args(grid_size: UVec3) -> (r: ShaderArgs)
    ensures
        r == mesh_args_spec(grid_size),
{
    let mut r = ShaderArgs::zeroed();
    r.a_size = grid_size;
    r
}

impl GeometryOp {
    /// A cube of `size` voxels at `offset`.
    pub fn cube(size: UVec3, offset: IVec3, flags: u32, material: u32) -> (r: GeometryOp)
        ensures
            r == (GeometryOp::PasteCube { size, offset, flags, material }),
    {
        GeometryOp::PasteCube { size, offset, flags, material }
    }

    /// A sphere of `diameter` voxels at `offset`.
    pub fn sphere(diameter: u32, offset: IVec3, flags: u32, material: u32) -> (r: GeometryOp)
        ensures
            r == (GeometryOp::PasteSphere { diameter, offset, flags, material }),
    {
        GeometryOp::PasteSphere { diameter, offset, flags, material }
    }

    /// Name of the kernel that performs the operation.
    pub fn entry_point(&self) -> (r: &'static str)
        ensures
            r@ == (match *self {
                GeometryOp::PasteCube { .. } => PASTE_CUBE_ENTRY_POINT@,
                GeometryOp::PasteSphere { .. } => PASTE_SPHERE_ENTRY_POINT@,
            }),
    {
        match self {
            GeometryOp::PasteCube { .. } => PASTE_CUBE_ENTRY_POINT,
            GeometryOp::PasteSphere { .. } => PASTE_SPHERE_ENTRY_POINT,
        }
    }

    /// The argument block bound when the operation edits a grid of `out_size`.
    pub fn shader_args(&self, out_size: UVec3) -> (r: ShaderArgs)
        ensures
            r == paste_args(*self, out_size),
    {
        let mut r = ShaderArgs::zeroed();
        r.out_size = out_size;
        match *self {
            GeometryOp::PasteCube { size, offset, flags, material } => {
                r.size = size;
                r.offset = offset;
                r.flags = flags;
                r.material = material;
            },
            GeometryOp::PasteSphere { diameter, offset, flags, material } => {
                r.diameter = diameter;
                r.offset = offset;
                r.flags = flags;
                r.material = material;
            },
        }
        r
    }

    /// Work groups to dispatch: the visited volume rounded up to whole groups.
    /// `None` where that count, before the division, does not fit in a `u32`.
    pub fn workgroups(&self) -> (r: Option<u32>)
        ensures
            paste_volume(*self) + paste_group(*self) - 1 <= u32::MAX ==> r == Some(
                ((paste_volume(*self) + paste_group(*self) - 1) / paste_group(*self)) as u32,
            ),
            paste_volume(*self) + paste_group(*self) - 1 > u32::MAX ==> r.is_none(),
    {
        let (a, b, c, group) = match *self {
            GeometryOp::PasteCube { size, .. } => (
                size.x as u128 + 1,
                size.y as u128 + 1,
                size.z as u128 + 1,
                PASTE_CUBE_VOXELS_PER_WORKGROUP as u128,
            ),
            GeometryOp::PasteSphere { diameter, .. } => (
                diameter as u128 + 1,
                diameter as u128 + 1,
                diameter as u128 + 1,
                PASTE_SPHERE_VOXELS_PER_WORKGROUP as u128,
            ),
        };
        assert(a * b * c <= 0x1_0000_0000_0000_0000_0000_0000) by (nonlinear_arith)
            requires
                1 <= a <= 0x1_0000_0000,
                1 <= b <= 0x1_0000_0000,
                1 <= c <= 0x1_0000_0000,
        ;
        assert(a * b <= 0x1_0000_0000_0000_0000) by (nonlinear_arith)
            requires
                1 <= a <= 0x1_0000_0000,
                1 <= b <= 0x1_0000_0000,
        ;
        let total = a * b * c + group - 1;
        if total > u32::MAX as u128 {
            None
        } else {
            Some((total / group) as u32)
        }
    }
}

/// Whether a grid that already exists, of `existing` size, can serve where a
/// grid of `requested` size is to be created: only an equal size is reused.
pub fn grid_reusable(existing: Option<UVec3>, requested: UVec3) -> (r: bool)
    ensures
        r == (existing == Some(requested)),
{
    match existing {
        Some(size) => size == requested,
        None => false,
    }
}

} // verus!
