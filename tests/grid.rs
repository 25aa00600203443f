use voxel::voxel::{
    check_grid_size, get_buf_size, get_vec_size, voxel_index, voxel_index_i32, voxel_material,
    voxel_offset, voxel_word, UVec3, VoxelGridVec,
};

#[test]
fn index_of_first_voxel_skips_padding() {
    let size = UVec3::new(2, 3, 4);
    assert_eq!(voxel_index(size, 0, 0, 0), 1 + 4 + 4 * 5);
    assert_eq!(voxel_index_i32(size, 0, 0, 0), 25);
}

#[test]
fn index_of_padding_corners() {
    let size = UVec3::new(2, 3, 4);
    assert_eq!(voxel_index_i32(size, -1, -1, -1), 0);
    assert_eq!(voxel_index(size, 2, 3, 4), get_vec_size(size) - 1);
    assert_eq!(voxel_index_i32(size, 2, 3, 4), 119);
}

#[test]
fn index_is_bijective_over_padded_range() {
    for size in [UVec3::new(0, 0, 0), UVec3::new(1, 2, 3), UVec3::new(4, 1, 2)] {
        let n = get_vec_size(size);
        let mut seen = vec![false; n];
        for z in -1..=size.z as i32 {
            for y in -1..=size.y as i32 {
                for x in -1..=size.x as i32 {
                    let i = voxel_index_i32(size, x, y, z);
                    assert!(i < n);
                    assert!(!seen[i]);
                    seen[i] = true;
                }
            }
        }
        assert!(seen.iter().all(|s| *s));
    }
}

#[test]
fn vec_and_buffer_sizes() {
    let size = UVec3::new(2, 3, 4);
    assert_eq!(get_vec_size(size), 120);
    assert_eq!(get_buf_size(size), 480);
    assert_eq!(check_grid_size(size), Some((120, 480)));
    assert_eq!(get_vec_size(UVec3::new(0, 0, 0)), 8);
}

#[test]
fn oversized_grids_are_refused() {
    assert_eq!(check_grid_size(UVec3::new(i32::MAX as u32 - 2, 1, 1)), None);
    assert_eq!(check_grid_size(UVec3::new(1, u32::MAX, 1)), None);
    assert_eq!(check_grid_size(UVec3::new(2000, 2000, 2000)), None);
    assert_eq!(check_grid_size(UVec3::new(100_000, 100_000, 0)), None);
    assert!(check_grid_size(UVec3::new(500, 500, 500)).is_some());
}

#[test]
fn uniform_grid_round_trip() {
    let size = UVec3::new(3, 2, 4);
    let grid = VoxelGridVec::new(size, 7);
    assert_eq!(grid.size, size);
    assert_eq!(grid.data.len(), get_vec_size(size));
    for z in -1..=size.z as i32 {
        for y in -1..=size.y as i32 {
            for x in -1..=size.x as i32 {
                let w = grid.data[voxel_index_i32(size, x, y, z)];
                let inside = x >= 0
                    && y >= 0
                    && z >= 0
                    && x < size.x as i32
                    && y < size.y as i32
                    && z < size.z as i32;
                if inside {
                    assert_eq!(voxel_material(w), 7);
                    assert_eq!(w, 7 << 24);
                } else {
                    assert_eq!(w, 0);
                }
            }
        }
    }
}

#[test]
fn empty_material_gives_empty_grid() {
    let grid = VoxelGridVec::new(UVec3::new(2, 2, 2), 0);
    assert!(grid.data.iter().all(|w| *w == 0));
    assert_eq!(grid.data.len(), 64);
}

#[test]
fn voxel_word_packs_offsets_and_material() {
    let w = voxel_word(-3, 5, -128, 9);
    assert_eq!(w, 0x0980_05FD);
    assert_eq!(voxel_material(w), 9);
    assert_eq!(voxel_offset(w, 0), -3);
    assert_eq!(voxel_offset(w, 1), 5);
    assert_eq!(voxel_offset(w, 2), -127);
    assert_eq!(voxel_offset(voxel_word(127, -127, 0, 0), 1), -127);
}
