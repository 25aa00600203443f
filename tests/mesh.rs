use voxel::mesh::{check_face_mask, count_filled_faces, extract_mesh, mesh_buffer_layout, mesh_workgroups};
use voxel::voxel::UVec3;

/// Bitmask with the given faces marked, for `num_faces` faces.
fn mask_of(faces: &[usize], num_faces: usize) -> Vec<u32> {
    let mut mask = vec![0u32; (num_faces + 29) / 30];
    for f in faces {
        mask[f / 30] |= 1 << (f % 30);
    }
    mask
}

/// Dense source: entry `k` holds `k * scale`.
fn dense(num_voxels: usize, scale: u32) -> Vec<u32> {
    (0..num_voxels * 36).map(|k| k as u32 * scale).collect()
}

#[test]
fn layout_of_small_grid() {
    let layout = mesh_buffer_layout(UVec3::new(2, 3, 4));
    assert_eq!(layout.num_voxels, 24);
    assert_eq!(layout.normals_offset, 24 * 576);
    assert_eq!(layout.face_filled_offset, 2 * 24 * 576);
    assert_eq!(layout.buffer_size, 2 * 24 * 576 + 5 * 4);
}

#[test]
fn layout_of_flat_grid_is_empty() {
    let layout = mesh_buffer_layout(UVec3::new(5, 0, 3));
    assert_eq!(layout.num_voxels, 0);
    assert_eq!(layout.buffer_size, 0);
}

#[test]
fn mesh_workgroups_round_up() {
    assert_eq!(mesh_workgroups(0), 0);
    assert_eq!(mesh_workgroups(24), 1);
    assert_eq!(mesh_workgroups(320), 1);
    assert_eq!(mesh_workgroups(321), 2);
}

#[test]
fn counts_set_bits_of_every_word() {
    assert_eq!(count_filled_faces(&vec![]), 0);
    assert_eq!(count_filled_faces(&vec![0b1011, 0x3FFF_FFFF, 0]), 33);
}

#[test]
fn extraction_spanning_two_mask_words() {
    let num_voxels = 6;
    let faces = [0usize, 5, 29, 30, 35];
    let mask = mask_of(&faces, num_voxels * 6);
    assert_eq!(mask.len(), 2);
    let vertexes = dense(num_voxels, 1);
    let normals = dense(num_voxels, 10);
    let (v, n) = extract_mesh(&mask, &vertexes, &normals, num_voxels);
    assert_eq!(v.len(), faces.len() * 6);
    assert_eq!(n.len(), faces.len() * 6);
    for (k, f) in faces.iter().enumerate() {
        for j in 0..6 {
            assert_eq!(v[k * 6 + j], (f * 6 + j) as u32);
            assert_eq!(n[k * 6 + j], (f * 6 + j) as u32 * 10);
        }
    }
}

#[test]
fn extraction_of_no_faces_is_empty() {
    let mask = mask_of(&[], 12);
    let src = dense(2, 1);
    let (v, n) = extract_mesh(&mask, &src, &src, 2);
    assert!(v.is_empty());
    assert!(n.is_empty());
}

#[test]
fn extraction_of_every_face_is_the_source() {
    let num_voxels = 7;
    let all: Vec<usize> = (0..num_voxels * 6).collect();
    let mask = mask_of(&all, num_voxels * 6);
    let src = dense(num_voxels, 3);
    let (v, _) = extract_mesh(&mask, &src, &src, num_voxels);
    assert_eq!(v, src);
}

/// Faces of a solid 4x4x4 block as the mesh kernel marks them: a face is
/// present where its neighbour lies outside the block. Faces are taken in the
/// order -x, +x, -y, +y, -z, +z.
#[test]
fn solid_block_keeps_only_its_surface() {
    let n = 4i32;
    let num_voxels = (n * n * n) as usize;
    let dirs = [(-1, 0, 0), (1, 0, 0), (0, -1, 0), (0, 1, 0), (0, 0, -1), (0, 0, 1)];
    let mut present = Vec::new();
    let mut absent = Vec::new();
    for z in 0..n {
        for y in 0..n {
            for x in 0..n {
                let v = (x + y * n + z * n * n) as usize;
                for (f, (dx, dy, dz)) in dirs.iter().enumerate() {
                    let (nx, ny, nz) = (x + dx, y + dy, z + dz);
                    let outside = nx < 0 || ny < 0 || nz < 0 || nx >= n || ny >= n || nz >= n;
                    if outside {
                        present.push(v * 6 + f);
                    } else {
                        absent.push(v * 6 + f);
                    }
                }
            }
        }
    }
    let mask = mask_of(&present, num_voxels * 6);
    let src = dense(num_voxels, 1);
    let (v, _) = extract_mesh(&mask, &src, &src, num_voxels);
    assert!(!v.is_empty());
    assert_eq!(v.len() % 6, 0);
    assert!(v.len() <= 4 * 4 * 4 * 6 * 6);
    assert_eq!(v.len(), 6 * 16 * 6);
    assert_eq!(count_filled_faces(&mask) * 6, v.len());
    for f in absent {
        assert!(!v.contains(&((f * 6) as u32)));
    }
    for f in present {
        assert!(v.contains(&((f * 6) as u32)));
    }
}

#[test]
fn face_mask_checks() {
    assert!(check_face_mask(&mask_of(&[0, 5, 29, 30, 35], 36), 36));
    assert!(check_face_mask(&vec![], 0));
    assert!(!check_face_mask(&vec![1 << 30, 0], 36));
    assert!(!check_face_mask(&vec![0, 1 << 6], 36));
    assert!(check_face_mask(&vec![0, 1 << 5], 36));
    assert!(!check_face_mask(&vec![0], 36));
}
