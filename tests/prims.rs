use ozy::prims::{plane_index_buffer, skybox_cube_index_buffer, sphere_index_array, sphere_index_count};

#[test]
fn plane_index_buffer_of_two_quads() {
    let b = plane_index_buffer(3, 2);
    assert_eq!(b, vec![0, 1, 3, 1, 4, 3, 1, 2, 4, 2, 5, 4]);
}

#[test]
fn plane_index_buffer_of_square_grid() {
    let b = plane_index_buffer(3, 3);
    assert_eq!(b.len(), 24);
    assert_eq!(&b[18..24], &[4, 5, 7, 5, 8, 7]);
}

#[test]
fn plane_index_buffer_of_a_line_is_empty() {
    assert!(plane_index_buffer(1, 5).is_empty());
    assert!(plane_index_buffer(4, 1).is_empty());
}

#[test]
fn sphere_index_count_formula() {
    assert_eq!(sphere_index_count(4, 3), 48);
    assert_eq!(sphere_index_count(8, 2), 48);
    assert_eq!(sphere_index_count(16, 8), 6 * (16 * 6 + 16));
}

#[test]
fn sphere_index_array_with_one_band() {
    let inds = sphere_index_array(3, 3);
    assert_eq!(inds.len(), sphere_index_count(3, 3));
    let expected: Vec<u16> = vec![
        // quads between ring 0 (2, 3, 4) and ring 1 (5, 6, 7)
        2, 3, 5, 6, 5, 3,
        3, 4, 6, 7, 6, 4,
        4, 2, 7, 5, 7, 2,
        // bottom cap around pole 0
        0, 3, 2, 0, 4, 3, 0, 2, 4,
        // top cap around pole 1
        1, 5, 6, 1, 6, 7, 1, 7, 5,
    ];
    assert_eq!(inds, expected);
}

#[test]
fn sphere_index_array_caps_only() {
    let inds = sphere_index_array(2, 2);
    assert_eq!(inds, vec![0, 3, 2, 0, 2, 3, 1, 2, 3, 1, 3, 2]);
}

#[test]
fn sphere_index_array_without_segments_is_empty() {
    assert!(sphere_index_array(0, 5).is_empty());
}

#[test]
fn skybox_indices_cover_six_faces() {
    let b = skybox_cube_index_buffer();
    assert_eq!(b.len(), 36);
    assert_eq!(&b[0..6], &[0, 1, 2, 3, 2, 1]);
    assert_eq!(&b[30..36], &[7, 5, 2, 7, 2, 3]);
    assert!(b.iter().all(|&i| i < 8));
}
