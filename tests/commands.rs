use voxel::command::{
    grid_reusable, mesh_args, GeometryOp, PASTE, PASTE_CUBE_ENTRY_POINT,
    PASTE_SPHERE_ENTRY_POINT,
};
use voxel::unstable::{ShaderArgs, SHADER_ARGS_WORDS};
use voxel::voxel::{IVec3, UVec3};

#[test]
fn zeroed_args_are_all_zero_words() {
    let words = ShaderArgs::zeroed().to_words();
    assert_eq!(words.len(), SHADER_ARGS_WORDS);
    assert!(words.iter().all(|w| *w == 0));
}

#[test]
fn cube_args_and_workgroups() {
    let op = GeometryOp::cube(UVec3::new(4, 4, 4), IVec3::new(-1, 2, 0), PASTE, 1);
    assert_eq!(op.entry_point(), PASTE_CUBE_ENTRY_POINT);
    assert_eq!(op.entry_point(), "paste_cube");
    let args = op.shader_args(UVec3::new(8, 9, 10));
    assert_eq!(
        args.to_words(),
        vec![
            0, 0, 0, 0, 0, 0, 0, 0, 8, 9, 10, 0, 0xFFFF_FFFF, 2, 0, 0, 4, 4, 4, 5, 1, 0, 0, 0
        ]
    );
    assert_eq!(op.workgroups(), Some(2));
}

#[test]
fn sphere_args_and_workgroups() {
    let op = GeometryOp::sphere(3, IVec3::new(1, 1, 1), 2, 9);
    assert_eq!(op.entry_point(), PASTE_SPHERE_ENTRY_POINT);
    let args = op.shader_args(UVec3::new(5, 5, 5));
    assert_eq!(args.diameter, 3);
    assert_eq!(args.size, UVec3::new(0, 0, 0));
    assert_eq!(args.out_size, UVec3::new(5, 5, 5));
    assert_eq!(args.flags, 2);
    assert_eq!(args.material, 9);
    assert_eq!(op.workgroups(), Some(1));
    assert_eq!(GeometryOp::sphere(7, IVec3::new(0, 0, 0), 0, 0).workgroups(), Some(8));
}

#[test]
fn oversized_paste_has_no_workgroup_count() {
    let op = GeometryOp::cube(UVec3::new(u32::MAX, 1, 1), IVec3::new(0, 0, 0), PASTE, 1);
    assert_eq!(op.workgroups(), None);
    assert_eq!(GeometryOp::sphere(2000, IVec3::new(0, 0, 0), 0, 0).workgroups(), None);
}

#[test]
fn repeated_paste_asks_for_the_same_work() {
    let a = GeometryOp::cube(UVec3::new(3, 2, 1), IVec3::new(1, 1, 1), PASTE, 4);
    let b = GeometryOp::cube(UVec3::new(3, 2, 1), IVec3::new(1, 1, 1), PASTE, 4);
    let out = UVec3::new(6, 6, 6);
    assert_eq!(a.shader_args(out).to_words(), b.shader_args(out).to_words());
    assert_eq!(a.workgroups(), b.workgroups());
}

#[test]
fn mesh_args_carry_grid_size() {
    let words = mesh_args(UVec3::new(4, 5, 6)).to_words();
    assert_eq!(&words[..4], &[4, 5, 6, 0]);
    assert!(words[4..].iter().all(|w| *w == 0));
}

#[test]
fn grid_is_reused_only_at_equal_size() {
    let size = UVec3::new(4, 4, 4);
    assert!(grid_reusable(Some(size), size));
    assert!(!grid_reusable(Some(UVec3::new(4, 4, 5)), size));
    assert!(!grid_reusable(None, size));
}
